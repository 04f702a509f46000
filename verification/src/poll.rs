//! Waiting for a job to end, as a state machine: the caller fetches the job,
//! reports it to whoever watches the progress, reads the clock and sleeps; the
//! machine decides what each fetch leads to.

use vstd::prelude::*;
use vstd::string::*;
use crate::decode::{processing_result_from_value, result_of};
use crate::errors::{ErrorView, FrameQueryError};
use crate::models::{
    is_complete_status, is_failed_status, is_terminal_status, Job, JobView, ProcessOptions,
    ProcessingResult, ResultView,
};
use crate::time::TimeSpan;

verus! {

/// The states of a poll.
#[derive(Clone, Copy, Debug, PartialEq, Eq, Structural)]
pub enum PollState {
    /// The job has not ended; another fetch follows.
    Polling,
    /// The job completed.
    Completed,
    /// The job failed.
    Failed,
    /// The job did not end in time.
    TimedOut,
    /// A fetch of the job failed.
    Errored,
}

/// What a fetch leads to: the state that follows, with what the caller needs
/// in it.
#[derive(Debug, PartialEq)]
pub enum PollStep {
    /// Sleep for this long, then fetch the job again.
    Wait(TimeSpan),
    /// Stop: the job completed, with this result.
    Completed(ProcessingResult),
    /// Stop: the job failed.
    Failed(FrameQueryError),
    /// Stop: the time is up.
    TimedOut(FrameQueryError),
    /// Stop: the fetch failed, with this error.
    Errored(FrameQueryError),
}

/// The mathematical model of a [`PollStep`].
pub enum StepView {
    Wait(TimeSpan),
    Completed(ResultView),
    Failed(ErrorView),
    TimedOut(ErrorView),
    Errored(ErrorView),
}

impl View for PollStep {
    type V = StepView;

    open spec fn view(&self) -> StepView {
        match self {
            PollStep::Wait(span) => StepView::Wait(*span),
            PollStep::Completed(result) => StepView::Completed(result@),
            PollStep::Failed(e) => StepView::Failed(e@),
            PollStep::TimedOut(e) => StepView::TimedOut(e@),
            PollStep::Errored(e) => StepView::Errored(e@),
        }
    }
}

impl StepView {
    /// The state that the step leads to.
    pub open spec fn state(self) -> PollState {
        match self {
            StepView::Wait(_) => PollState::Polling,
            StepView::Completed(_) => PollState::Completed,
            StepView::Failed(_) => PollState::Failed,
            StepView::TimedOut(_) => PollState::TimedOut,
            StepView::Errored(_) => PollState::Errored,
        }
    }
}

/// The text of the error for a job that failed.
pub open spec fn job_failed_message(id: Seq<char>) -> Seq<char> {
    "job "@ + id + " reached FAILED status"@
}

/// What a fetch leads to, `elapsed` after the poll began. A failed fetch ends
/// the poll with its error. A failed job ends it, a completed job ends it with
/// the result in the job's payload; only then is the time looked at, so a job
/// that completes as the time runs out still counts as completed.
pub open spec fn poll_step(
    fetched: Result<JobView, ErrorView>,
    elapsed: TimeSpan,
    options: ProcessOptions,
) -> StepView {
    match fetched {
        Err(e) => StepView::Errored(e),
        Ok(job) => if is_failed_status(job.status) {
            StepView::Failed(ErrorView::JobFailed(job_failed_message(job.id)))
        } else if is_complete_status(job.status) {
            StepView::Completed(result_of(job.raw))
        } else if elapsed.total_nanos() >= options.timeout.total_nanos() {
            StepView::TimedOut(ErrorView::Timeout(options.timeout))
        } else {
            StepView::Wait(options.poll_interval)
        },
    }
}

/// The model of what a fetch brought.
pub open spec fn fetched_view(fetched: Result<Job, FrameQueryError>) -> Result<JobView, ErrorView> {
    match fetched {
        Ok(job) => Ok(job@),
        Err(e) => Err(e@),
    }
}

impl PollStep {
    /// The state that the step leads to.
    pub fn state(&self) -> (state: PollState)
        ensures
            state == self@.state(),
    {
        match self {
            PollStep::Wait(_) => PollState::Polling,
            PollStep::Completed(_) => PollState::Completed,
            PollStep::Failed(_) => PollState::Failed,
            PollStep::TimedOut(_) => PollState::TimedOut,
            PollStep::Errored(_) => PollState::Errored,
        }
    }
}

/// Decides what a fetch leads to. `fetched` is what the fetch brought, and
/// `elapsed` the time since the poll began, read after the job was reported to
/// whoever watches the progress.
pub fn next_step(
    fetched: Result<Job, FrameQueryError>,
    elapsed: TimeSpan,
    options: &ProcessOptions,
) -> (step: PollStep)
    ensures
        step@ == poll_step(fetched_view(fetched), elapsed, *options),
{
    match fetched {
        Err(e) => PollStep::Errored(e),
        Ok(job) => {
            if job.is_failed() {
                let mut message = String::from_str("job ");
                message.append(job.id.as_str());
                message.append(" reached FAILED status");
                PollStep::Failed(FrameQueryError::JobFailed(message))
            } else if job.is_complete() {
                PollStep::Completed(processing_result_from_value(job.raw))
            } else if elapsed.at_least(&options.timeout) {
                PollStep::TimedOut(FrameQueryError::Timeout(options.timeout))
            } else {
                PollStep::Wait(options.poll_interval)
            }
        },
    }
}

/// One turn of a poll: what the fetch brought, and the time since the poll
/// began, read after that.
pub struct PollEvent {
    pub fetched: Result<JobView, ErrorView>,
    pub elapsed: TimeSpan,
}

/// What a whole poll amounts to: the jobs reported to whoever watches the
/// progress, the number of fetches, the sleeps, and the step that ended it, or
/// none where the events ran out first.
pub struct PollRun {
    pub reported: Seq<JobView>,
    pub fetches: nat,
    pub waits: Seq<TimeSpan>,
    pub end: Option<StepView>,
}

/// The poll that meets `events`, one for each fetch it makes. Every job that a
/// fetch brings is reported, before anything is decided on it.
pub open spec fn poll_run(events: Seq<PollEvent>, options: ProcessOptions) -> PollRun
    decreases events.len(),
{
    if events.len() == 0 {
        PollRun { reported: Seq::empty(), fetches: 0, waits: Seq::empty(), end: None }
    } else {
        let first = events[0];
        let reported = match first.fetched {
            Ok(job) => seq![job],
            Err(_) => Seq::empty(),
        };
        match poll_step(first.fetched, first.elapsed, options) {
            StepView::Wait(span) => {
                let rest = poll_run(events.drop_first(), options);
                PollRun {
                    reported: reported + rest.reported,
                    fetches: 1 + rest.fetches,
                    waits: seq![span] + rest.waits,
                    end: rest.end,
                }
            },
            last => PollRun { reported, fetches: 1, waits: Seq::empty(), end: Some(last) },
        }
    }
}

/// An event that brings a job which has not ended, before the time is up.
pub open spec fn is_pending(event: PollEvent, options: ProcessOptions) -> bool {
    &&& event.fetched is Ok
    &&& !is_terminal_status(event.fetched->Ok_0.status)
    &&& event.elapsed.total_nanos() < options.timeout.total_nanos()
}

/// The jobs of the first `n` events.
pub open spec fn jobs_fetched(events: Seq<PollEvent>, n: nat) -> Seq<JobView> {
    Seq::new(n, |i: int| events[i].fetched->Ok_0)
}

/// A poll that meets `n` pending events and then one that brings a job makes
/// `n + 1` fetches and no more, reports each of the `n + 1` jobs, sleeps `n`
/// times for the configured interval, and ends as the last event decides.
pub proof fn lemma_poll_run(events: Seq<PollEvent>, options: ProcessOptions, n: nat)
    requires
        n < events.len(),
        forall|i: int| 0 <= i < n ==> is_pending(#[trigger] events[i], options),
        events[n as int].fetched is Ok,
        !is_pending(events[n as int], options),
    ensures
        poll_run(events, options).reported == jobs_fetched(events, n + 1),
        poll_run(events, options).fetches == n + 1,
        poll_run(events, options).waits == Seq::new(n, |i: int| options.poll_interval),
        poll_run(events, options).end == Some(
            poll_step(events[n as int].fetched, events[n as int].elapsed, options),
        ),
        !(poll_step(events[n as int].fetched, events[n as int].elapsed, options) is Wait),
    decreases n,
{
    let run = poll_run(events, options);
    if n == 0 {
        assert(run.reported =~= jobs_fetched(events, 1));
        assert(run.waits =~= Seq::new(0, |i: int| options.poll_interval));
    } else {
        let rest = events.drop_first();
        assert(is_pending(events[0], options));
        assert forall|i: int| 0 <= i < n - 1 implies is_pending(#[trigger] rest[i], options) by {
            assert(rest[i] == events[i + 1]);
        }
        lemma_poll_run(rest, options, (n - 1) as nat);
        assert(run.reported =~= jobs_fetched(events, n + 1));
        assert(run.waits =~= Seq::new(n, |i: int| options.poll_interval));
    }
}

/// A poll whose job is pending `n` times and then complete reports `n + 1`
/// jobs and ends with the result in the payload of the last one.
pub proof fn lemma_poll_completes(events: Seq<PollEvent>, options: ProcessOptions, n: nat)
    requires
        n < events.len(),
        forall|i: int| 0 <= i < n ==> is_pending(#[trigger] events[i], options),
        events[n as int].fetched is Ok,
        is_complete_status(events[n as int].fetched->Ok_0.status),
    ensures
        poll_run(events, options).reported.len() == n + 1,
        poll_run(events, options).reported == jobs_fetched(events, n + 1),
        poll_run(events, options).end == Some(
            StepView::Completed(result_of(events[n as int].fetched->Ok_0.raw)),
        ),
{
    crate::models::lemma_status_classes(events[n as int].fetched->Ok_0.status);
    lemma_poll_run(events, options, n);
}

/// A poll whose job never ends stops at the first fetch after which the time
/// is up: it ends with the timeout error that carries the configured span, and
/// makes no fetch after that one.
pub proof fn lemma_poll_times_out(events: Seq<PollEvent>, options: ProcessOptions, n: nat)
    requires
        n < events.len(),
        forall|i: int| 0 <= i < n ==> is_pending(#[trigger] events[i], options),
        events[n as int].fetched is Ok,
        !is_terminal_status(events[n as int].fetched->Ok_0.status),
        events[n as int].elapsed.total_nanos() >= options.timeout.total_nanos(),
    ensures
        poll_run(events, options).fetches == n + 1,
        poll_run(events, options).end == Some(
            StepView::TimedOut(ErrorView::Timeout(options.timeout)),
        ),
{
    lemma_poll_run(events, options, n);
}

/// A poll stops at the first fetch that brings a failed job, whatever the
/// time: it ends with the error that names the job, and sleeps no more after
/// that fetch.
pub proof fn lemma_poll_fails(events: Seq<PollEvent>, options: ProcessOptions, n: nat)
    requires
        n < events.len(),
        forall|i: int| 0 <= i < n ==> is_pending(#[trigger] events[i], options),
        events[n as int].fetched is Ok,
        is_failed_status(events[n as int].fetched->Ok_0.status),
    ensures
        poll_run(events, options).fetches == n + 1,
        poll_run(events, options).waits.len() == n,
        poll_run(events, options).end == Some(
            StepView::Failed(
                ErrorView::JobFailed(job_failed_message(events[n as int].fetched->Ok_0.id)),
            ),
        ),
{
    lemma_poll_run(events, options, n);
}

} // verus!
