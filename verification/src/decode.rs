//! Decoding of the service's payloads into records. A member that the service
//! left out takes a default; nothing here fails on an unknown member.

use vstd::prelude::*;
use vstd::string::*;
use crate::errors::{undecodable, undecodable_error, FrameQueryError};
use crate::json::{items_of, lemma_items_of, Json, JsonValue, Number};
use crate::lists::reversed;
use crate::models::{
    is_complete_status, job_views, scene_views, segment_views, string_views, Job, JobPage, JobPageView, JobView,
    ProcessingResult, Quota, QuotaView, ResultView, Scene, SceneView, SegmentView,
    TranscriptSegment,
};

verus! {

/// The string under `key`, or the empty string where `key` is missing or holds
/// no string.
pub open spec fn text_or_empty(j: Json, key: Seq<char>) -> Seq<char> {
    match j.text_at(key) {
        Some(s) => s,
        None => Seq::empty(),
    }
}

/// The string under `key`, or the empty string where `key` is missing or holds
/// no string.
pub fn json_str(val: &JsonValue, key: &str) -> (r: String)
    ensures
        r@ == text_or_empty(val@, key@),
{
    match val.text_at(key) {
        Some(s) => String::from_str(s),
        None => String::new(),
    }
}

/// The job that a job object of the service describes.
pub open spec fn job_of(j: Json) -> JobView {
    JobView {
        id: text_or_empty(j, "jobId"@),
        status: text_or_empty(j, "status"@),
        filename: text_or_empty(j, "originalFilename"@),
        created_at: text_or_empty(j, "createdAt"@),
        eta_seconds: j.number_at("estimatedCompletionTimeSeconds"@),
        raw: j,
    }
}

/// Reads a job object of the service, and keeps the whole object beside the
/// members it picks out.
pub fn job_from_value(val: JsonValue) -> (job: Job)
    ensures
        job@ == job_of(val@),
{
    Job {
        id: json_str(&val, "jobId"),
        status: json_str(&val, "status"),
        filename: json_str(&val, "originalFilename"),
        created_at: json_str(&val, "createdAt"),
        eta_seconds: val.number_at("estimatedCompletionTimeSeconds"),
        raw: val,
    }
}

/// Whether every item is a string.
pub open spec fn all_text(items: Seq<Json>) -> bool {
    forall|i: int| 0 <= i < items.len() ==> (#[trigger] items[i]) is Text
}

/// The strings of a list of string values, in order.
pub open spec fn texts_of(items: Seq<Json>) -> Seq<Seq<char>> {
    Seq::new(items.len(), |i: int| items[i]->Text_0)
}

/// The list of strings that a value holds: `None` unless it is a list of
/// strings.
pub open spec fn labels_of(j: Json) -> Option<Seq<Seq<char>>> {
    match j {
        Json::Array(items) => if all_text(items) {
            Some(texts_of(items))
        } else {
            None
        },
        _ => None,
    }
}

/// The scene that a value describes: an object with a string `description`, a
/// number `endTs` and, where it is there, a list of strings `objects`.
pub open spec fn scene_of(j: Json) -> Option<SceneView> {
    match (j.text_at("description"@), j.number_at("endTs"@)) {
        (Some(description), Some(end_time)) => match j.get("objects"@) {
            None => Some(SceneView { description, end_time, objects: Seq::empty() }),
            Some(list) => match labels_of(list) {
                Some(objects) => Some(SceneView { description, end_time, objects }),
                None => None,
            },
        },
        _ => None,
    }
}

/// The transcript segment that a value describes: an object with numbers
/// `StartTime` and `EndTime` and a string `Text`.
pub open spec fn segment_of(j: Json) -> Option<SegmentView> {
    match (j.number_at("StartTime"@), j.number_at("EndTime"@), j.text_at("Text"@)) {
        (Some(start_time), Some(end_time), Some(text)) => Some(
            SegmentView { start_time, end_time, text },
        ),
        _ => None,
    }
}

/// The scenes that a value holds, in order: `None` unless it is a list whose
/// every item describes a scene.
pub open spec fn scenes_of(j: Json) -> Option<Seq<SceneView>> {
    match j {
        Json::Array(items) => if forall|i: int|
            0 <= i < items.len() ==> (#[trigger] scene_of(items[i])) is Some {
            Some(Seq::new(items.len(), |i: int| scene_of(items[i])->Some_0))
        } else {
            None
        },
        _ => None,
    }
}

/// The transcript that a value holds, in order: `None` unless it is a list
/// whose every item describes a segment.
pub open spec fn transcript_of(j: Json) -> Option<Seq<SegmentView>> {
    match j {
        Json::Array(items) => if forall|i: int|
            0 <= i < items.len() ==> (#[trigger] segment_of(items[i])) is Some {
            Some(Seq::new(items.len(), |i: int| segment_of(items[i])->Some_0))
        } else {
            None
        },
        _ => None,
    }
}

/// Reads a list of strings.
pub fn decode_labels(val: &JsonValue) -> (r: Option<Vec<String>>)
    ensures
        match r {
            Some(labels) => labels_of(val@) == Some(string_views(labels@)),
            None => labels_of(val@) is None,
        },
{
    match val.as_array() {
        None => None,
        Some(items) => {
            proof {
                lemma_items_of(items@);
            }
            let mut out: Vec<String> = Vec::new();
            let mut i: usize = 0;
            while i < items.len()
                invariant
                    i <= items.len(),
                    out@.len() == i,
                    val@ == Json::Array(items_of(items@)),
                    items_of(items@).len() == items@.len(),
                    forall|k: int|
                        0 <= k < items@.len() ==> #[trigger] items_of(items@)[k] == items@[k]@,
                    forall|k: int|
                        0 <= k < i ==> (#[trigger] items_of(items@)[k]) == Json::Text(out@[k]@),
                decreases items.len() - i,
            {
                match items[i].as_str() {
                    Some(s) => {
                        out.push(String::from_str(s));
                    },
                    None => {
                        assert(!(items_of(items@)[i as int] is Text));
                        return None;
                    },
                }
                i += 1;
            }
            assert(string_views(out@) =~= texts_of(items_of(items@)));
            Some(out)
        },
    }
}

/// Reads one scene.
pub fn decode_scene(val: &JsonValue) -> (r: Option<Scene>)
    ensures
        match r {
            Some(scene) => scene_of(val@) == Some(scene@),
            None => scene_of(val@) is None,
        },
{
    let description = match val.text_at("description") {
        Some(s) => String::from_str(s),
        None => {
            return None;
        },
    };
    let end_time = match val.number_at("endTs") {
        Some(n) => n,
        None => {
            return None;
        },
    };
    let objects = match val.get("objects") {
        None => Vec::new(),
        Some(list) => match decode_labels(list) {
            Some(labels) => labels,
            None => {
                return None;
            },
        },
    };
    proof {
        if val@.get("objects"@) is None {
            assert(string_views(objects@) =~= Seq::empty());
        }
    }
    Some(Scene { description, end_time, objects })
}

/// Reads one transcript segment.
pub fn decode_segment(val: &JsonValue) -> (r: Option<TranscriptSegment>)
    ensures
        match r {
            Some(segment) => segment_of(val@) == Some(segment@),
            None => segment_of(val@) is None,
        },
{
    let start_time = match val.number_at("StartTime") {
        Some(n) => n,
        None => {
            return None;
        },
    };
    let end_time = match val.number_at("EndTime") {
        Some(n) => n,
        None => {
            return None;
        },
    };
    match val.text_at("Text") {
        Some(s) => Some(TranscriptSegment { start_time, end_time, text: String::from_str(s) }),
        None => None,
    }
}

/// Reads a list of scenes; one item that is no scene spoils the list.
pub fn decode_scenes(val: &JsonValue) -> (r: Option<Vec<Scene>>)
    ensures
        match r {
            Some(scenes) => scenes_of(val@) == Some(scene_views(scenes@)),
            None => scenes_of(val@) is None,
        },
{
    match val.as_array() {
        None => None,
        Some(items) => {
            proof {
                lemma_items_of(items@);
            }
            let mut out: Vec<Scene> = Vec::new();
            let mut i: usize = 0;
            while i < items.len()
                invariant
                    i <= items.len(),
                    out@.len() == i,
                    val@ == Json::Array(items_of(items@)),
                    items_of(items@).len() == items@.len(),
                    forall|k: int|
                        0 <= k < items@.len() ==> #[trigger] items_of(items@)[k] == items@[k]@,
                    forall|k: int|
                        0 <= k < i ==> (#[trigger] scene_of(items_of(items@)[k])) == Some(
                            out@[k]@,
                        ),
                decreases items.len() - i,
            {
                match decode_scene(&items[i]) {
                    Some(scene) => {
                        out.push(scene);
                    },
                    None => {
                        assert(scene_of(items_of(items@)[i as int]) is None);
                        return None;
                    },
                }
                i += 1;
            }
            assert(scene_views(out@) =~= Seq::new(
                items_of(items@).len(),
                |i: int| scene_of(items_of(items@)[i])->Some_0,
            ));
            Some(out)
        },
    }
}

/// Reads a transcript; one item that is no segment spoils the list.
pub fn decode_transcript(val: &JsonValue) -> (r: Option<Vec<TranscriptSegment>>)
    ensures
        match r {
            Some(segments) => transcript_of(val@) == Some(segment_views(segments@)),
            None => transcript_of(val@) is None,
        },
{
    match val.as_array() {
        None => None,
        Some(items) => {
            proof {
                lemma_items_of(items@);
            }
            let mut out: Vec<TranscriptSegment> = Vec::new();
            let mut i: usize = 0;
            while i < items.len()
                invariant
                    i <= items.len(),
                    out@.len() == i,
                    val@ == Json::Array(items_of(items@)),
                    items_of(items@).len() == items@.len(),
                    forall|k: int|
                        0 <= k < items@.len() ==> #[trigger] items_of(items@)[k] == items@[k]@,
                    forall|k: int|
                        0 <= k < i ==> (#[trigger] segment_of(items_of(items@)[k])) == Some(
                            out@[k]@,
                        ),
                decreases items.len() - i,
            {
                match decode_segment(&items[i]) {
                    Some(segment) => {
                        out.push(segment);
                    },
                    None => {
                        assert(segment_of(items_of(items@)[i as int]) is None);
                        return None;
                    },
                }
                i += 1;
            }
            assert(segment_views(out@) =~= Seq::new(
                items_of(items@).len(),
                |i: int| segment_of(items_of(items@)[i])->Some_0,
            ));
            Some(out)
        },
    }
}

/// The processed-data section of a job object, where it has one.
pub open spec fn processed_section(j: Json) -> Option<Json> {
    j.get("processedData"@)
}

/// The length of a video of which no length is known: the float zero.
pub open spec fn zero_duration() -> Number {
    Number::Float(0)
}

/// The length of the video in a job object: the number `length` of its
/// processed-data section, else zero.
pub open spec fn duration_of(j: Json) -> Number {
    match processed_section(j) {
        Some(section) => match section.number_at("length"@) {
            Some(n) => n,
            None => zero_duration(),
        },
        None => zero_duration(),
    }
}

/// The scenes in a job object: the list `scenes` of its processed-data section
/// where that is a list of scenes, else none.
pub open spec fn result_scenes(j: Json) -> Seq<SceneView> {
    match processed_section(j) {
        Some(section) => match section.get("scenes"@) {
            Some(list) => match scenes_of(list) {
                Some(scenes) => scenes,
                None => Seq::empty(),
            },
            None => Seq::empty(),
        },
        None => Seq::empty(),
    }
}

/// The transcript in a job object: the list `transcript` of its processed-data
/// section where that is a list of segments, else none.
pub open spec fn result_transcript(j: Json) -> Seq<SegmentView> {
    match processed_section(j) {
        Some(section) => match section.get("transcript"@) {
            Some(list) => match transcript_of(list) {
                Some(segments) => segments,
                None => Seq::empty(),
            },
            None => Seq::empty(),
        },
        None => Seq::empty(),
    }
}

/// The result that the job object of a completed job holds.
pub open spec fn result_of(j: Json) -> ResultView {
    ResultView {
        job_id: text_or_empty(j, "jobId"@),
        status: text_or_empty(j, "status"@),
        filename: text_or_empty(j, "originalFilename"@),
        duration: duration_of(j),
        scenes: result_scenes(j),
        transcript: result_transcript(j),
        created_at: text_or_empty(j, "createdAt"@),
        raw: j,
    }
}

/// Reads the result out of the job object of a completed job, and keeps the
/// whole object beside it.
pub fn processing_result_from_value(val: JsonValue) -> (result: ProcessingResult)
    ensures
        result@ == result_of(val@),
{
    let mut duration = Number::Float(0);
    let mut scenes: Vec<Scene> = Vec::new();
    let mut transcript: Vec<TranscriptSegment> = Vec::new();
    proof {
        assert(scene_views(scenes@) =~= Seq::empty());
        assert(segment_views(transcript@) =~= Seq::empty());
    }
    match val.get("processedData") {
        Some(section) => {
            match section.number_at("length") {
                Some(n) => {
                    duration = n;
                },
                None => {},
            }
            match section.get("scenes") {
                Some(list) => match decode_scenes(list) {
                    Some(found) => {
                        scenes = found;
                    },
                    None => {},
                },
                None => {},
            }
            match section.get("transcript") {
                Some(list) => match decode_transcript(list) {
                    Some(found) => {
                        transcript = found;
                    },
                    None => {},
                },
                None => {},
            }
        },
        None => {},
    }
    ProcessingResult {
        job_id: json_str(&val, "jobId"),
        status: json_str(&val, "status"),
        filename: json_str(&val, "originalFilename"),
        duration,
        scenes,
        transcript,
        created_at: json_str(&val, "createdAt"),
        raw: val,
    }
}

/// The result that can be told from a job alone: that of a job which completed
/// and whose payload holds a processed-data section; of any other job, none.
pub open spec fn derived_result(job: JobView) -> Option<ResultView> {
    if is_complete_status(job.status) && processed_section(job.raw) is Some {
        Some(result_of(job.raw))
    } else {
        None
    }
}

/// Reads the result out of a job that completed and whose payload holds a
/// processed-data section. Any other job has no result yet, which is no error.
pub fn result_from_job(job: &Job) -> (r: Option<ProcessingResult>)
    ensures
        match r {
            Some(result) => derived_result(job@) == Some(result@),
            None => derived_result(job@) is None,
        },
{
    if job.is_complete() && job.raw.get("processedData").is_some() {
        Some(processing_result_from_value(job.raw.duplicate()))
    } else {
        None
    }
}

/// A job object without a processed-data section holds no scenes, no
/// transcript and a length of zero.
pub proof fn lemma_result_without_section(j: Json)
    requires
        processed_section(j) is None,
    ensures
        result_of(j).scenes == Seq::<SceneView>::empty(),
        result_of(j).transcript == Seq::<SegmentView>::empty(),
        result_of(j).duration == zero_duration(),
{
}

/// The job in the answer to a fetch of one job: what the member `data` of the
/// answer describes.
pub open spec fn enveloped_job(j: Json) -> Option<JobView> {
    match j.get("data"@) {
        Some(data) => Some(job_of(data)),
        None => None,
    }
}

/// Reads the answer to a fetch of one job.
pub fn job_from_envelope(envelope: JsonValue) -> (r: Result<Job, FrameQueryError>)
    ensures
        match r {
            Ok(job) => enveloped_job(envelope@) == Some(job@),
            Err(e) => enveloped_job(envelope@) is None && e@ == undecodable(),
        },
{
    match envelope.into_member("data") {
        Some(data) => Ok(job_from_value(data)),
        None => Err(undecodable_error()),
    }
}

/// An optional string member: absent where `key` is missing or holds null, the
/// string where it holds one, and `None` for any other value.
pub open spec fn optional_text_at(j: Json, key: Seq<char>) -> Option<Option<Seq<char>>> {
    match j.get(key) {
        None => Some(None),
        Some(Json::Null) => Some(None),
        Some(Json::Text(s)) => Some(Some(s)),
        Some(_) => None,
    }
}

/// Reads an optional string member.
pub fn decode_optional_text(val: &JsonValue, key: &str) -> (r: Option<Option<String>>)
    ensures
        match r {
            Some(Some(s)) => optional_text_at(val@, key@) == Some(Some(s@)),
            Some(None) => optional_text_at(val@, key@) == Some(None::<Seq<char>>),
            None => optional_text_at(val@, key@) is None,
        },
{
    match val.get(key) {
        None => Some(None),
        Some(JsonValue::Null) => Some(None),
        Some(JsonValue::String(s)) => Some(Some(s.clone())),
        Some(_) => None,
    }
}

/// The jobs that a list of job objects describes, in order.
pub open spec fn jobs_of(items: Seq<Json>) -> Seq<JobView> {
    Seq::new(items.len(), |i: int| job_of(items[i]))
}

/// The page in the answer to a listing: the member `data` must be a list, each
/// item of which is read as a job object, and `nextCursor` an optional string.
pub open spec fn page_of(j: Json) -> Option<JobPageView> {
    match (j.get("data"@), optional_text_at(j, "nextCursor"@)) {
        (Some(Json::Array(items)), Some(next_cursor)) => Some(
            JobPageView { jobs: jobs_of(items), next_cursor },
        ),
        _ => None,
    }
}

/// Reads the answer to a listing of jobs.
pub fn job_page_from_envelope(envelope: JsonValue) -> (r: Result<JobPage, FrameQueryError>)
    ensures
        match r {
            Ok(page) => page_of(envelope@) == Some(page@),
            Err(e) => page_of(envelope@) is None && e@ == undecodable(),
        },
{
    let next_cursor = decode_optional_text(&envelope, "nextCursor");
    let items = match envelope.into_member("data") {
        Some(data) => match data.into_items() {
            Some(items) => items,
            None => {
                return Err(undecodable_error());
            },
        },
        None => {
            return Err(undecodable_error());
        },
    };
    let next_cursor = match next_cursor {
        Some(cursor) => cursor,
        None => {
            return Err(undecodable_error());
        },
    };
    let ghost all = items@;
    proof {
        lemma_items_of(all);
    }
    let mut rest = reversed(items);
    let mut jobs: Vec<Job> = Vec::new();
    while rest.len() > 0
        invariant
            rest@.len() + jobs@.len() == all.len(),
            rest@ == all.reverse().subrange(0, rest@.len() as int),
            forall|k: int| 0 <= k < jobs@.len() ==> (#[trigger] jobs@[k])@ == job_of(all[k]@),
        decreases rest@.len(),
    {
        let item = rest.pop().unwrap();
        assert(item == all[jobs@.len() as int]);
        assert(rest@ =~= all.reverse().subrange(0, rest@.len() as int));
        jobs.push(job_from_value(item));
    }
    assert(job_views(jobs@) =~= jobs_of(items_of(all)));
    Ok(JobPage { jobs, next_cursor })
}

/// The quota in the answer to a quota fetch: the member `data` must hold a
/// string `plan`, numbers `includedHours` and `creditsBalanceHours`, and an
/// optional string `resetDate`.
pub open spec fn quota_of(j: Json) -> Option<QuotaView> {
    match j.get("data"@) {
        Some(data) => match (
            data.text_at("plan"@),
            data.number_at("includedHours"@),
            data.number_at("creditsBalanceHours"@),
            optional_text_at(data, "resetDate"@),
        ) {
            (Some(plan), Some(included_hours), Some(credits_balance_hours), Some(reset_date)) => Some(
                QuotaView { plan, included_hours, credits_balance_hours, reset_date },
            ),
            _ => None,
        },
        None => None,
    }
}

/// Reads the answer to a quota fetch.
pub fn quota_from_envelope(envelope: &JsonValue) -> (r: Result<Quota, FrameQueryError>)
    ensures
        match r {
            Ok(quota) => quota_of(envelope@) == Some(quota@),
            Err(e) => quota_of(envelope@) is None && e@ == undecodable(),
        },
{
    let data = match envelope.get("data") {
        Some(data) => data,
        None => {
            return Err(undecodable_error());
        },
    };
    let plan = match data.text_at("plan") {
        Some(s) => String::from_str(s),
        None => {
            return Err(undecodable_error());
        },
    };
    let included_hours = match data.number_at("includedHours") {
        Some(n) => n,
        None => {
            return Err(undecodable_error());
        },
    };
    let credits_balance_hours = match data.number_at("creditsBalanceHours") {
        Some(n) => n,
        None => {
            return Err(undecodable_error());
        },
    };
    match decode_optional_text(data, "resetDate") {
        Some(reset_date) => Ok(Quota { plan, included_hours, credits_balance_hours, reset_date }),
        None => Err(undecodable_error()),
    }
}

/// A job that was just created for an upload: its id, and where the bytes go.
#[derive(Debug, PartialEq)]
pub struct CreatedJob {
    pub job_id: String,
    pub upload_url: String,
}

/// The answer to the creation of a job for an upload: the member `data` must
/// hold the strings `jobId` and `uploadUrl`. The pair is the id and the
/// address.
pub open spec fn created_of(j: Json) -> Option<(Seq<char>, Seq<char>)> {
    match j.get("data"@) {
        Some(data) => match (data.text_at("jobId"@), data.text_at("uploadUrl"@)) {
            (Some(job_id), Some(upload_url)) => Some((job_id, upload_url)),
            _ => None,
        },
        None => None,
    }
}

/// Reads the answer to the creation of a job for an upload.
pub fn created_job_from_envelope(envelope: &JsonValue) -> (r: Result<CreatedJob, FrameQueryError>)
    ensures
        match r {
            Ok(created) => created_of(envelope@) == Some((created.job_id@, created.upload_url@)),
            Err(e) => created_of(envelope@) is None && e@ == undecodable(),
        },
{
    let data = match envelope.get("data") {
        Some(data) => data,
        None => {
            return Err(undecodable_error());
        },
    };
    let job_id = match data.text_at("jobId") {
        Some(s) => String::from_str(s),
        None => {
            return Err(undecodable_error());
        },
    };
    match data.text_at("uploadUrl") {
        Some(s) => Ok(CreatedJob { job_id, upload_url: String::from_str(s) }),
        None => Err(undecodable_error()),
    }
}

/// The id in the answer to the submission of an address: the member `data`
/// must hold the strings `jobId` and `status`.
pub open spec fn submitted_of(j: Json) -> Option<Seq<char>> {
    match j.get("data"@) {
        Some(data) => match (data.text_at("jobId"@), data.text_at("status"@)) {
            (Some(job_id), Some(_)) => Some(job_id),
            _ => None,
        },
        None => None,
    }
}

/// Reads the id of the job out of the answer to the submission of an address.
pub fn submitted_job_id_from_envelope(envelope: &JsonValue) -> (r: Result<String, FrameQueryError>)
    ensures
        match r {
            Ok(job_id) => submitted_of(envelope@) == Some(job_id@),
            Err(e) => submitted_of(envelope@) is None && e@ == undecodable(),
        },
{
    let data = match envelope.get("data") {
        Some(data) => data,
        None => {
            return Err(undecodable_error());
        },
    };
    let job_id = match data.text_at("jobId") {
        Some(s) => String::from_str(s),
        None => {
            return Err(undecodable_error());
        },
    };
    match data.text_at("status") {
        Some(_) => Ok(job_id),
        None => Err(undecodable_error()),
    }
}

} // verus!
