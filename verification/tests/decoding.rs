use framequery::decode::{
    created_job_from_envelope, decode_labels, decode_optional_text, decode_scene, decode_scenes,
    decode_segment, decode_transcript, job_from_envelope, job_from_value, job_page_from_envelope,
    json_str, processing_result_from_value, quota_from_envelope, result_from_job,
    submitted_job_id_from_envelope,
    CreatedJob,
};
use framequery::encode::{
    encode_labels, encode_scene, encode_scenes, encode_segment, encode_transcript,
};
use framequery::errors::FrameQueryError;
use framequery::json::{JsonValue, Number};
use framequery::models::{Quota, Scene, TranscriptSegment};

fn parse(text: &str) -> JsonValue {
    JsonValue::parse(text).expect("valid JSON")
}

fn num(x: f64) -> Number {
    Number::Float(x.to_bits())
}

fn whole(n: u64) -> Number {
    Number::PosInt(n)
}

fn undecodable() -> FrameQueryError {
    FrameQueryError::Http { message: "error decoding response body".to_string() }
}

fn sample_scenes() -> Vec<Scene> {
    vec![
        Scene {
            description: "a street".to_string(),
            end_time: num(1.25),
            objects: vec!["car".to_string(), "person".to_string()],
        },
        Scene { description: String::new(), end_time: num(0.0), objects: vec![] },
        Scene {
            description: "näher \"quoted\"".to_string(),
            end_time: num(1e9),
            objects: vec![String::new()],
        },
    ]
}

#[test]
fn scene_list_survives_encoding_and_decoding() {
    let scenes = sample_scenes();
    let encoded = encode_scenes(&scenes);
    assert_eq!(decode_scenes(&encoded), Some(scenes));
}

#[test]
fn empty_scene_list_survives_encoding_and_decoding() {
    let encoded = encode_scenes(&vec![]);
    assert_eq!(encoded, JsonValue::Array(vec![]));
    assert_eq!(decode_scenes(&encoded), Some(vec![]));
}

#[test]
fn transcript_survives_encoding_and_decoding() {
    let segments = vec![
        TranscriptSegment { start_time: num(0.0), end_time: num(2.5), text: "hello".to_string() },
        TranscriptSegment { start_time: num(2.5), end_time: num(4.0), text: "world".to_string() },
    ];
    let encoded = encode_transcript(&segments);
    assert_eq!(decode_transcript(&encoded), Some(segments));
}

#[test]
fn encoded_scene_has_the_members_of_the_wire() {
    let scene = Scene {
        description: "d".to_string(),
        end_time: num(2.0),
        objects: vec!["x".to_string()],
    };
    assert_eq!(
        encode_scene(&scene),
        JsonValue::Object(vec![
            ("description".to_string(), JsonValue::String("d".to_string())),
            ("endTs".to_string(), JsonValue::Number(num(2.0))),
            ("objects".to_string(), JsonValue::Array(vec![JsonValue::String("x".to_string())])),
        ])
    );
    assert_eq!(encode_scene(&scene), parse("{\"description\":\"d\",\"endTs\":2.0,\"objects\":[\"x\"]}"));
}

#[test]
fn encoded_segment_has_the_members_of_the_wire() {
    let segment =
        TranscriptSegment { start_time: num(1.0), end_time: num(2.0), text: "t".to_string() };
    assert_eq!(
        encode_segment(&segment),
        JsonValue::Object(vec![
            ("StartTime".to_string(), JsonValue::Number(num(1.0))),
            ("EndTime".to_string(), JsonValue::Number(num(2.0))),
            ("Text".to_string(), JsonValue::String("t".to_string())),
        ])
    );
    assert_eq!(decode_segment(&encode_segment(&segment)), Some(segment));
}

#[test]
fn labels_survive_encoding_and_decoding() {
    let labels = vec!["a".to_string(), "b".to_string()];
    assert_eq!(decode_labels(&encode_labels(&labels)), Some(labels));
    assert_eq!(decode_labels(&parse("[\"a\", 1]")), None);
    assert_eq!(decode_labels(&parse("\"a\"")), None);
    assert_eq!(decode_labels(&parse("[]")), Some(vec![]));
}

#[test]
fn scene_without_objects_has_none() {
    let scene = decode_scene(&parse("{\"description\": \"d\", \"endTs\": 4}"));
    assert_eq!(
        scene,
        Some(Scene { description: "d".to_string(), end_time: whole(4), objects: vec![] })
    );
}

#[test]
fn scene_with_a_wrong_member_is_no_scene() {
    assert_eq!(decode_scene(&parse("{\"endTs\": 4}")), None);
    assert_eq!(decode_scene(&parse("{\"description\": \"d\"}")), None);
    assert_eq!(decode_scene(&parse("{\"description\": 1, \"endTs\": 4}")), None);
    assert_eq!(decode_scene(&parse("{\"description\": \"d\", \"endTs\": \"4\"}")), None);
    assert_eq!(decode_scene(&parse("{\"description\": \"d\", \"endTs\": 4, \"objects\": null}")), None);
    assert_eq!(decode_scene(&parse("{\"description\": \"d\", \"endTs\": 4, \"objects\": [1]}")), None);
    assert_eq!(decode_scene(&parse("\"scene\"")), None);
}

#[test]
fn extra_members_are_ignored() {
    let scene = decode_scene(&parse(
        "{\"description\": \"d\", \"endTs\": 4, \"objects\": [], \"confidence\": 0.9}",
    ));
    assert_eq!(
        scene,
        Some(Scene { description: "d".to_string(), end_time: whole(4), objects: vec![] })
    );
}

#[test]
fn one_bad_item_spoils_the_list() {
    let list = parse("[{\"description\": \"d\", \"endTs\": 4}, {\"description\": \"e\"}]");
    assert_eq!(decode_scenes(&list), None);
    assert_eq!(decode_scenes(&parse("{}")), None);
    let list = parse("[{\"StartTime\": 0, \"EndTime\": 1, \"Text\": \"a\"}, 3]");
    assert_eq!(decode_transcript(&list), None);
    assert_eq!(decode_segment(&parse("{\"StartTime\": 0, \"EndTime\": 1}")), None);
    assert_eq!(decode_segment(&parse("{\"StartTime\": 0, \"Text\": \"a\"}")), None);
    assert_eq!(decode_segment(&parse("{\"EndTime\": 0, \"Text\": \"a\"}")), None);
}

#[test]
fn payload_without_processed_data_gives_empty_result() {
    let payload = parse("{\"jobId\": \"j9\", \"status\": \"COMPLETED_NO_SCENES\"}");
    let result = processing_result_from_value(payload.clone());
    assert_eq!(result.job_id, "j9");
    assert_eq!(result.status, "COMPLETED_NO_SCENES");
    assert_eq!(result.filename, "");
    assert_eq!(result.created_at, "");
    assert!(result.scenes.is_empty());
    assert!(result.transcript.is_empty());
    assert_eq!(result.duration, Number::Float(0));
    assert_eq!(result.raw, payload);
}

#[test]
fn payload_that_is_no_object_gives_empty_result() {
    for text in ["null", "[]", "3", "\"x\"", "true"] {
        let result = processing_result_from_value(parse(text));
        assert_eq!(result.job_id, "");
        assert!(result.scenes.is_empty());
        assert!(result.transcript.is_empty());
        assert_eq!(result.duration, num(0.0));
    }
}

#[test]
fn result_reads_the_processed_data() {
    let payload = parse(
        "{\"jobId\": \"j1\", \"status\": \"COMPLETED\", \"originalFilename\": \"a.mp4\", \
         \"createdAt\": \"2024-05-01T00:00:00Z\", \
         \"processedData\": {\"length\": 61.5, \
           \"scenes\": [{\"description\": \"one\", \"endTs\": 10.5, \"objects\": [\"cat\"]}, \
                       {\"description\": \"two\", \"endTs\": 20}], \
           \"transcript\": [{\"StartTime\": 0.5, \"EndTime\": 1.5, \"Text\": \"hi\"}]}}",
    );
    let result = processing_result_from_value(payload);
    assert_eq!(result.duration, num(61.5));
    assert_eq!(
        result.scenes,
        vec![
            Scene { description: "one".to_string(), end_time: num(10.5), objects: vec!["cat".to_string()] },
            Scene { description: "two".to_string(), end_time: whole(20), objects: vec![] },
        ]
    );
    assert_eq!(
        result.transcript,
        vec![TranscriptSegment { start_time: num(0.5), end_time: num(1.5), text: "hi".to_string() }]
    );
    assert_eq!(result.filename, "a.mp4");
    assert_eq!(result.created_at, "2024-05-01T00:00:00Z");
}

#[test]
fn bad_scene_list_defaults_to_empty_and_keeps_the_rest() {
    let payload = parse(
        "{\"processedData\": {\"length\": 3, \"scenes\": [{\"description\": \"x\"}], \
         \"transcript\": [{\"StartTime\": 0, \"EndTime\": 1, \"Text\": \"a\"}]}}",
    );
    let result = processing_result_from_value(payload);
    assert!(result.scenes.is_empty());
    assert_eq!(result.transcript.len(), 1);
    assert_eq!(result.duration, whole(3));
}

#[test]
fn job_reads_named_members_and_keeps_the_payload() {
    let payload = parse(
        "{\"jobId\": \"j7\", \"status\": \"PROCESSING\", \"originalFilename\": \"v.mov\", \
         \"createdAt\": \"now\", \"estimatedCompletionTimeSeconds\": 42, \"extra\": [1, 2]}",
    );
    let job = job_from_value(payload.clone());
    assert_eq!(job.id, "j7");
    assert_eq!(job.status, "PROCESSING");
    assert_eq!(job.filename, "v.mov");
    assert_eq!(job.created_at, "now");
    assert_eq!(job.eta_seconds, Some(whole(42)));
    assert_eq!(job.raw, payload);
}

#[test]
fn job_defaults_missing_members() {
    let job = job_from_value(parse("{\"status\": 3, \"jobId\": null}"));
    assert_eq!(job.id, "");
    assert_eq!(job.status, "");
    assert_eq!(job.filename, "");
    assert_eq!(job.created_at, "");
    assert_eq!(job.eta_seconds, None);
}

#[test]
fn json_str_gives_the_string_or_the_empty_string() {
    let v = parse("{\"a\": \"x\", \"b\": 1}");
    assert_eq!(json_str(&v, "a"), "x");
    assert_eq!(json_str(&v, "b"), "");
    assert_eq!(json_str(&v, "c"), "");
    assert_eq!(json_str(&JsonValue::Null, "a"), "");
}

#[test]
fn job_envelope_needs_data() {
    let job = job_from_envelope(parse("{\"data\": {\"jobId\": \"j2\", \"status\": \"PENDING\"}}"))
        .expect("a job");
    assert_eq!(job.id, "j2");
    assert_eq!(job.status, "PENDING");
    assert_eq!(job.raw, parse("{\"jobId\": \"j2\", \"status\": \"PENDING\"}"));
    assert_eq!(job_from_envelope(parse("{}")), Err(undecodable()));
    assert_eq!(job_from_envelope(parse("[]")), Err(undecodable()));
    let job = job_from_envelope(parse("{\"data\": null}")).expect("a job");
    assert_eq!(job.id, "");
}

#[test]
fn page_reads_jobs_in_order_and_the_cursor() {
    let page = job_page_from_envelope(parse(
        "{\"data\": [{\"jobId\": \"a\"}, {\"jobId\": \"b\"}, {\"jobId\": \"c\"}], \
         \"nextCursor\": \"tok\"}",
    ))
    .expect("a page");
    let ids: Vec<&str> = page.jobs.iter().map(|j| j.id.as_str()).collect();
    assert_eq!(ids, vec!["a", "b", "c"]);
    assert_eq!(page.next_cursor, Some("tok".to_string()));
    assert!(page.has_more());
}

#[test]
fn page_without_cursor_is_the_last() {
    let page = job_page_from_envelope(parse("{\"data\": []}")).expect("a page");
    assert!(page.jobs.is_empty());
    assert!(!page.has_more());
    let page = job_page_from_envelope(parse("{\"data\": [], \"nextCursor\": null}")).expect("a page");
    assert!(!page.has_more());
}

#[test]
fn page_with_wrong_shape_is_undecodable() {
    assert_eq!(job_page_from_envelope(parse("{}")), Err(undecodable()));
    assert_eq!(job_page_from_envelope(parse("{\"data\": {}}")), Err(undecodable()));
    assert_eq!(
        job_page_from_envelope(parse("{\"data\": [], \"nextCursor\": 5}")),
        Err(undecodable())
    );
}

#[test]
fn optional_text_tells_absent_from_wrong() {
    let v = parse("{\"a\": \"x\", \"b\": null, \"c\": 1}");
    assert_eq!(decode_optional_text(&v, "a"), Some(Some("x".to_string())));
    assert_eq!(decode_optional_text(&v, "b"), Some(None));
    assert_eq!(decode_optional_text(&v, "missing"), Some(None));
    assert_eq!(decode_optional_text(&v, "c"), None);
}

#[test]
fn quota_reads_all_members() {
    let quota = quota_from_envelope(&parse(
        "{\"data\": {\"plan\": \"pro\", \"includedHours\": 10, \"creditsBalanceHours\": 2.5, \
         \"resetDate\": \"2024-06-01\"}}",
    ));
    assert_eq!(
        quota,
        Ok(Quota {
            plan: "pro".to_string(),
            included_hours: whole(10),
            credits_balance_hours: num(2.5),
            reset_date: Some("2024-06-01".to_string()),
        })
    );
}

#[test]
fn quota_without_reset_date_has_none() {
    let quota = quota_from_envelope(&parse(
        "{\"data\": {\"plan\": \"free\", \"includedHours\": 0, \"creditsBalanceHours\": 0}}",
    ))
    .expect("a quota");
    assert_eq!(quota.reset_date, None);
    assert_eq!(quota.included_hours, whole(0));
}

#[test]
fn quota_with_a_missing_member_is_undecodable() {
    assert_eq!(quota_from_envelope(&parse("{}")), Err(undecodable()));
    assert_eq!(
        quota_from_envelope(&parse("{\"data\": {\"includedHours\": 0, \"creditsBalanceHours\": 0}}")),
        Err(undecodable())
    );
    assert_eq!(
        quota_from_envelope(&parse("{\"data\": {\"plan\": \"p\", \"creditsBalanceHours\": 0}}")),
        Err(undecodable())
    );
    assert_eq!(
        quota_from_envelope(&parse("{\"data\": {\"plan\": \"p\", \"includedHours\": 0}}")),
        Err(undecodable())
    );
    assert_eq!(
        quota_from_envelope(&parse(
            "{\"data\": {\"plan\": \"p\", \"includedHours\": 0, \"creditsBalanceHours\": 0, \
             \"resetDate\": 7}}"
        )),
        Err(undecodable())
    );
}

#[test]
fn created_job_needs_id_and_upload_address() {
    let created = created_job_from_envelope(&parse(
        "{\"data\": {\"jobId\": \"j3\", \"uploadUrl\": \"https://up/x\", \"expiresInSeconds\": 60}}",
    ));
    assert_eq!(
        created,
        Ok(CreatedJob { job_id: "j3".to_string(), upload_url: "https://up/x".to_string() })
    );
    assert_eq!(
        created_job_from_envelope(&parse("{\"data\": {\"jobId\": \"j3\"}}")),
        Err(undecodable())
    );
    assert_eq!(
        created_job_from_envelope(&parse("{\"data\": {\"uploadUrl\": \"u\"}}")),
        Err(undecodable())
    );
    assert_eq!(created_job_from_envelope(&parse("{\"jobId\": \"j3\"}")), Err(undecodable()));
}

#[test]
fn submitted_job_needs_id_and_status() {
    assert_eq!(
        submitted_job_id_from_envelope(&parse("{\"data\": {\"jobId\": \"j4\", \"status\": \"PENDING\"}}")),
        Ok("j4".to_string())
    );
    assert_eq!(
        submitted_job_id_from_envelope(&parse("{\"data\": {\"jobId\": \"j4\"}}")),
        Err(undecodable())
    );
    assert_eq!(
        submitted_job_id_from_envelope(&parse("{\"data\": {\"status\": \"PENDING\"}}")),
        Err(undecodable())
    );
    assert_eq!(submitted_job_id_from_envelope(&parse("null")), Err(undecodable()));
}

#[test]
fn result_is_told_only_from_a_complete_job_with_processed_data() {
    let with_data = job_from_value(parse(
        "{\"jobId\": \"j\", \"status\": \"COMPLETED\", \"processedData\": {\"length\": 2}}",
    ));
    let result = result_from_job(&with_data).expect("a result");
    assert_eq!(result.duration, whole(2));
    assert_eq!(result.raw, with_data.raw);
    let without_data = job_from_value(parse("{\"jobId\": \"j\", \"status\": \"COMPLETED\"}"));
    assert_eq!(result_from_job(&without_data), None);
    let pending = job_from_value(parse(
        "{\"jobId\": \"j\", \"status\": \"PROCESSING\", \"processedData\": {\"length\": 2}}",
    ));
    assert_eq!(result_from_job(&pending), None);
    let failed = job_from_value(parse(
        "{\"jobId\": \"j\", \"status\": \"FAILED\", \"processedData\": {}}",
    ));
    assert_eq!(result_from_job(&failed), None);
}
