//! The records of the service: jobs, results, scenes, transcript segments,
//! quota and job pages.

use vstd::prelude::*;
use vstd::string::*;
use crate::json::{Json, JsonValue, Number};
use crate::text::str_eq;
use crate::time::TimeSpan;

verus! {

/// One visual segment of a video.
#[derive(Clone, Debug, PartialEq)]
pub struct Scene {
    /// What the scene shows.
    pub description: String,
    /// Where the scene ends, in seconds from the start of the video.
    pub end_time: Number,
    /// Labels of the objects seen in the scene.
    pub objects: Vec<String>,
}

/// The mathematical model of a [`Scene`].
pub struct SceneView {
    pub description: Seq<char>,
    pub end_time: Number,
    pub objects: Seq<Seq<char>>,
}

/// The character sequences of a list of strings.
pub open spec fn string_views(items: Seq<String>) -> Seq<Seq<char>> {
    items.map_values(|s: String| s@)
}

impl View for Scene {
    type V = SceneView;

    open spec fn view(&self) -> SceneView {
        SceneView {
            description: self.description@,
            end_time: self.end_time,
            objects: string_views(self.objects@),
        }
    }
}

/// One span of speech.
#[derive(Clone, Debug, PartialEq)]
pub struct TranscriptSegment {
    /// Where the span starts, in seconds.
    pub start_time: Number,
    /// Where the span ends, in seconds.
    pub end_time: Number,
    /// What was said.
    pub text: String,
}

/// The mathematical model of a [`TranscriptSegment`].
pub struct SegmentView {
    pub start_time: Number,
    pub end_time: Number,
    pub text: Seq<char>,
}

impl View for TranscriptSegment {
    type V = SegmentView;

    open spec fn view(&self) -> SegmentView {
        SegmentView {
            start_time: self.start_time,
            end_time: self.end_time,
            text: self.text@,
        }
    }
}

/// The models of a list of scenes.
pub open spec fn scene_views(items: Seq<Scene>) -> Seq<SceneView> {
    items.map_values(|s: Scene| s@)
}

/// The models of a list of transcript segments.
pub open spec fn segment_views(items: Seq<TranscriptSegment>) -> Seq<SegmentView> {
    items.map_values(|s: TranscriptSegment| s@)
}

/// What the service made of a video, once its job is complete.
#[derive(Clone, Debug, PartialEq)]
pub struct ProcessingResult {
    pub job_id: String,
    /// The status the job ended in.
    pub status: String,
    /// The name of the file as it was handed in.
    pub filename: String,
    /// The length of the video in seconds.
    pub duration: Number,
    pub scenes: Vec<Scene>,
    pub transcript: Vec<TranscriptSegment>,
    /// When the job was created, as the service wrote it.
    pub created_at: String,
    /// The job object as the service sent it.
    pub raw: JsonValue,
}

/// The mathematical model of a [`ProcessingResult`].
pub struct ResultView {
    pub job_id: Seq<char>,
    pub status: Seq<char>,
    pub filename: Seq<char>,
    pub duration: Number,
    pub scenes: Seq<SceneView>,
    pub transcript: Seq<SegmentView>,
    pub created_at: Seq<char>,
    pub raw: Json,
}

impl View for ProcessingResult {
    type V = ResultView;

    open spec fn view(&self) -> ResultView {
        ResultView {
            job_id: self.job_id@,
            status: self.status@,
            filename: self.filename@,
            duration: self.duration,
            scenes: scene_views(self.scenes@),
            transcript: segment_views(self.transcript@),
            created_at: self.created_at@,
            raw: self.raw@,
        }
    }
}

/// A job as the service last reported it.
#[derive(Clone, Debug, PartialEq)]
pub struct Job {
    pub id: String,
    pub status: String,
    /// The name of the file as it was handed in.
    pub filename: String,
    /// When the job was created, as the service wrote it.
    pub created_at: String,
    /// The seconds the service expects the job still to take, where it says.
    pub eta_seconds: Option<Number>,
    /// The job object as the service sent it.
    pub raw: JsonValue,
}

/// The mathematical model of a [`Job`].
pub struct JobView {
    pub id: Seq<char>,
    pub status: Seq<char>,
    pub filename: Seq<char>,
    pub created_at: Seq<char>,
    pub eta_seconds: Option<Number>,
    pub raw: Json,
}

impl View for Job {
    type V = JobView;

    open spec fn view(&self) -> JobView {
        JobView {
            id: self.id@,
            status: self.status@,
            filename: self.filename@,
            created_at: self.created_at@,
            eta_seconds: self.eta_seconds,
            raw: self.raw@,
        }
    }
}

/// A status of successful completion.
pub open spec fn is_complete_status(status: Seq<char>) -> bool {
    status == "COMPLETED"@ || status == "COMPLETED_NO_SCENES"@
}

/// The status of a failed job.
pub open spec fn is_failed_status(status: Seq<char>) -> bool {
    status == "FAILED"@
}

/// A status that will not change any more.
pub open spec fn is_terminal_status(status: Seq<char>) -> bool {
    is_complete_status(status) || is_failed_status(status)
}

impl Job {
    /// Whether the job has reached a status that will not change any more.
    pub fn is_terminal(&self) -> (r: bool)
        ensures
            r == is_terminal_status(self.status@),
    {
        self.is_complete() || self.is_failed()
    }

    /// Whether the job completed, with or without scenes.
    pub fn is_complete(&self) -> (r: bool)
        ensures
            r == is_complete_status(self.status@),
    {
        str_eq(self.status.as_str(), "COMPLETED") || str_eq(
            self.status.as_str(),
            "COMPLETED_NO_SCENES",
        )
    }

    /// Whether the job failed.
    pub fn is_failed(&self) -> (r: bool)
        ensures
            r == is_failed_status(self.status@),
    {
        str_eq(self.status.as_str(), "FAILED")
    }
}

/// A complete status is terminal, the failed status is terminal and not
/// complete, and the three named statuses are the only terminal ones.
pub proof fn lemma_status_classes(status: Seq<char>)
    ensures
        is_complete_status(status) ==> is_terminal_status(status) && !is_failed_status(status),
        is_failed_status(status) ==> is_terminal_status(status) && !is_complete_status(status),
        is_terminal_status(status) <==> (status == "COMPLETED"@ || status
            == "COMPLETED_NO_SCENES"@ || status == "FAILED"@),
{
    reveal_strlit("COMPLETED");
    reveal_strlit("COMPLETED_NO_SCENES");
    reveal_strlit("FAILED");
    assert("COMPLETED"@.len() == 9);
    assert("COMPLETED_NO_SCENES"@.len() == 19);
    assert("FAILED"@.len() == 6);
}

/// The account's usage.
#[derive(Clone, Debug, PartialEq)]
pub struct Quota {
    /// The plan the account is on.
    pub plan: String,
    /// Hours included in each billing period.
    pub included_hours: Number,
    /// Hours bought on top, which do not expire.
    pub credits_balance_hours: Number,
    /// When the included hours are next reset, where that applies.
    pub reset_date: Option<String>,
}

/// The mathematical model of a [`Quota`].
pub struct QuotaView {
    pub plan: Seq<char>,
    pub included_hours: Number,
    pub credits_balance_hours: Number,
    pub reset_date: Option<Seq<char>>,
}

impl View for Quota {
    type V = QuotaView;

    open spec fn view(&self) -> QuotaView {
        QuotaView {
            plan: self.plan@,
            included_hours: self.included_hours,
            credits_balance_hours: self.credits_balance_hours,
            reset_date: match self.reset_date {
                Some(s) => Some(s@),
                None => None,
            },
        }
    }
}

/// The models of a list of jobs.
pub open spec fn job_views(items: Seq<Job>) -> Seq<JobView> {
    items.map_values(|j: Job| j@)
}

/// One page of a listing of jobs.
#[derive(Clone, Debug, PartialEq)]
pub struct JobPage {
    pub jobs: Vec<Job>,
    /// The cursor that fetches the next page; `None` on the last page.
    pub next_cursor: Option<String>,
}

/// The mathematical model of a [`JobPage`].
pub struct JobPageView {
    pub jobs: Seq<JobView>,
    pub next_cursor: Option<Seq<char>>,
}

impl View for JobPage {
    type V = JobPageView;

    open spec fn view(&self) -> JobPageView {
        JobPageView {
            jobs: job_views(self.jobs@),
            next_cursor: match self.next_cursor {
                Some(s) => Some(s@),
                None => None,
            },
        }
    }
}

impl JobPage {
    /// Whether another page follows this one.
    pub fn has_more(&self) -> (r: bool)
        ensures
            r == (self.next_cursor is Some),
            r == (self@.next_cursor is Some),
    {
        self.next_cursor.is_some()
    }
}

/// How to wait for a job: how often to ask, and for how long at most.
#[derive(Clone, Copy, Debug, PartialEq, Eq, Structural)]
pub struct ProcessOptions {
    /// The pause between two fetches of the job.
    pub poll_interval: TimeSpan,
    /// The longest time to wait for the job to end.
    pub timeout: TimeSpan,
}

impl Default for ProcessOptions {
    /// A fetch every five seconds, for a day at most.
    fn default() -> (r: ProcessOptions)
        ensures
            r.poll_interval == (TimeSpan { secs: 5, nanos: 0 }),
            r.timeout == (TimeSpan { secs: 86_400, nanos: 0 }),
    {
        ProcessOptions {
            poll_interval: TimeSpan::from_secs(5),
            timeout: TimeSpan::from_secs(86_400),
        }
    }
}

} // verus!
