//! Encoding of scenes and transcript segments in the shape the service sends
//! them in, and the proof that decoding gives them back.

use vstd::prelude::*;
use vstd::string::*;
use crate::decode::{
    all_text, labels_of, scene_of, scenes_of, segment_of, texts_of, transcript_of,
};
use crate::json::{
    fields_of, items_of, lemma_fields_of, lemma_items_of, lookup, Json, JsonValue,
};
use crate::models::{
    scene_views, segment_views, string_views, Scene, SceneView, SegmentView, TranscriptSegment,
};

verus! {

/// A list of strings as a value.
pub open spec fn labels_json(labels: Seq<Seq<char>>) -> Json {
    Json::Array(Seq::new(labels.len(), |i: int| Json::Text(labels[i])))
}

/// A scene as a value: an object with the members `description`, `endTs` and
/// `objects`.
pub open spec fn scene_json(scene: SceneView) -> Json {
    Json::Object(
        seq![
            ("description"@, Json::Text(scene.description)),
            ("endTs"@, Json::Number(scene.end_time)),
            ("objects"@, labels_json(scene.objects)),
        ],
    )
}

/// A transcript segment as a value: an object with the members `StartTime`,
/// `EndTime` and `Text`.
pub open spec fn segment_json(segment: SegmentView) -> Json {
    Json::Object(
        seq![
            ("StartTime"@, Json::Number(segment.start_time)),
            ("EndTime"@, Json::Number(segment.end_time)),
            ("Text"@, Json::Text(segment.text)),
        ],
    )
}

/// A list of scenes as a value, in the same order.
pub open spec fn scenes_json(scenes: Seq<SceneView>) -> Json {
    Json::Array(Seq::new(scenes.len(), |i: int| scene_json(scenes[i])))
}

/// A transcript as a value, in the same order.
pub open spec fn transcript_json(segments: Seq<SegmentView>) -> Json {
    Json::Array(Seq::new(segments.len(), |i: int| segment_json(segments[i])))
}

/// Writes a list of strings as a value.
pub fn encode_labels(labels: &Vec<String>) -> (r: JsonValue)
    ensures
        r@ == labels_json(string_views(labels@)),
{
    let mut out: Vec<JsonValue> = Vec::new();
    let mut i: usize = 0;
    while i < labels.len()
        invariant
            i <= labels.len(),
            out@.len() == i,
            forall|k: int| 0 <= k < i ==> (#[trigger] out@[k])@ == Json::Text(labels@[k]@),
        decreases labels.len() - i,
    {
        out.push(JsonValue::String(labels[i].clone()));
        i += 1;
    }
    proof {
        lemma_items_of(out@);
        assert(items_of(out@) =~= Seq::new(
            string_views(labels@).len(),
            |i: int| Json::Text(string_views(labels@)[i]),
        ));
    }
    JsonValue::Array(out)
}

/// Writes a scene as a value.
pub fn encode_scene(scene: &Scene) -> (r: JsonValue)
    ensures
        r@ == scene_json(scene@),
{
    let mut fields: Vec<(String, JsonValue)> = Vec::new();
    fields.push((String::from_str("description"), JsonValue::String(scene.description.clone())));
    fields.push((String::from_str("endTs"), JsonValue::Number(scene.end_time)));
    fields.push((String::from_str("objects"), encode_labels(&scene.objects)));
    proof {
        lemma_fields_of(fields@);
        assert(fields_of(fields@) =~= seq![
            ("description"@, Json::Text(scene@.description)),
            ("endTs"@, Json::Number(scene@.end_time)),
            ("objects"@, labels_json(scene@.objects)),
        ]);
    }
    JsonValue::Object(fields)
}

/// Writes a transcript segment as a value.
pub fn encode_segment(segment: &TranscriptSegment) -> (r: JsonValue)
    ensures
        r@ == segment_json(segment@),
{
    let mut fields: Vec<(String, JsonValue)> = Vec::new();
    fields.push((String::from_str("StartTime"), JsonValue::Number(segment.start_time)));
    fields.push((String::from_str("EndTime"), JsonValue::Number(segment.end_time)));
    fields.push((String::from_str("Text"), JsonValue::String(segment.text.clone())));
    proof {
        lemma_fields_of(fields@);
        assert(fields_of(fields@) =~= seq![
            ("StartTime"@, Json::Number(segment@.start_time)),
            ("EndTime"@, Json::Number(segment@.end_time)),
            ("Text"@, Json::Text(segment@.text)),
        ]);
    }
    JsonValue::Object(fields)
}

/// Writes a list of scenes as a value, in the same order.
pub fn encode_scenes(scenes: &Vec<Scene>) -> (r: JsonValue)
    ensures
        r@ == scenes_json(scene_views(scenes@)),
{
    let mut out: Vec<JsonValue> = Vec::new();
    let mut i: usize = 0;
    while i < scenes.len()
        invariant
            i <= scenes.len(),
            out@.len() == i,
            forall|k: int| 0 <= k < i ==> (#[trigger] out@[k])@ == scene_json(scenes@[k]@),
        decreases scenes.len() - i,
    {
        out.push(encode_scene(&scenes[i]));
        i += 1;
    }
    proof {
        lemma_items_of(out@);
        assert(items_of(out@) =~= Seq::new(
            scene_views(scenes@).len(),
            |i: int| scene_json(scene_views(scenes@)[i]),
        ));
    }
    JsonValue::Array(out)
}

/// Writes a transcript as a value, in the same order.
pub fn encode_transcript(segments: &Vec<TranscriptSegment>) -> (r: JsonValue)
    ensures
        r@ == transcript_json(segment_views(segments@)),
{
    let mut out: Vec<JsonValue> = Vec::new();
    let mut i: usize = 0;
    while i < segments.len()
        invariant
            i <= segments.len(),
            out@.len() == i,
            forall|k: int| 0 <= k < i ==> (#[trigger] out@[k])@ == segment_json(segments@[k]@),
        decreases segments.len() - i,
    {
        out.push(encode_segment(&segments[i]));
        i += 1;
    }
    proof {
        lemma_items_of(out@);
        assert(items_of(out@) =~= Seq::new(
            segment_views(segments@).len(),
            |i: int| segment_json(segment_views(segments@)[i]),
        ));
    }
    JsonValue::Array(out)
}

/// Decoding an encoded list of strings gives the list back.
pub proof fn lemma_labels_round_trip(labels: Seq<Seq<char>>)
    ensures
        labels_of(labels_json(labels)) == Some(labels),
{
    let items = labels_json(labels)->Array_0;
    assert(all_text(items));
    assert(texts_of(items) =~= labels);
}

/// Decoding an encoded scene gives the scene back, every member of it.
pub proof fn lemma_scene_round_trip(scene: SceneView)
    ensures
        scene_of(scene_json(scene)) == Some(scene),
{
    reveal_strlit("description");
    reveal_strlit("endTs");
    reveal_strlit("objects");
    assert("description"@.len() == 11);
    assert("endTs"@.len() == 5);
    assert("objects"@.len() == 7);
    reveal_with_fuel(lookup, 4);
    lemma_labels_round_trip(scene.objects);
    let fields = scene_json(scene)->Object_0;
    assert(fields.drop_first()[0] == fields[1]);
    assert(fields.drop_first().drop_first()[0] == fields[2]);
}

/// Decoding an encoded transcript segment gives the segment back, every member
/// of it.
pub proof fn lemma_segment_round_trip(segment: SegmentView)
    ensures
        segment_of(segment_json(segment)) == Some(segment),
{
    reveal_strlit("StartTime");
    reveal_strlit("EndTime");
    reveal_strlit("Text");
    assert("StartTime"@.len() == 9);
    assert("EndTime"@.len() == 7);
    assert("Text"@.len() == 4);
    reveal_with_fuel(lookup, 4);
    let fields = segment_json(segment)->Object_0;
    assert(fields.drop_first()[0] == fields[1]);
    assert(fields.drop_first().drop_first()[0] == fields[2]);
}

/// Decoding an encoded list of scenes gives the same scenes in the same order.
pub proof fn lemma_scenes_round_trip(scenes: Seq<SceneView>)
    ensures
        scenes_of(scenes_json(scenes)) == Some(scenes),
{
    let items = scenes_json(scenes)->Array_0;
    assert forall|i: int| 0 <= i < items.len() implies (#[trigger] scene_of(items[i])) == Some(
        scenes[i],
    ) by {
        lemma_scene_round_trip(scenes[i]);
    }
    assert(Seq::new(items.len(), |i: int| scene_of(items[i])->Some_0) =~= scenes);
}

/// Decoding an encoded transcript gives the same segments in the same order.
pub proof fn lemma_transcript_round_trip(segments: Seq<SegmentView>)
    ensures
        transcript_of(transcript_json(segments)) == Some(segments),
{
    let items = transcript_json(segments)->Array_0;
    assert forall|i: int| 0 <= i < items.len() implies (#[trigger] segment_of(items[i])) == Some(
        segments[i],
    ) by {
        lemma_segment_round_trip(segments[i]);
    }
    assert(Seq::new(items.len(), |i: int| segment_of(items[i])->Some_0) =~= segments);
}

} // verus!
