use framequery::decode::job_from_value;
use framequery::errors::FrameQueryError;
use framequery::json::{JsonValue, Number};
use framequery::models::{Job, ProcessOptions, ProcessingResult, Scene};
use framequery::poll::{next_step, PollState, PollStep};
use framequery::time::TimeSpan;

fn job_with_status(status: &str) -> Job {
    let text = format!("{{\"jobId\": \"job-1\", \"status\": \"{}\"}}", status);
    job_from_value(JsonValue::parse(&text).expect("valid JSON"))
}

fn completed_job() -> Job {
    let text = "{\"jobId\": \"job-1\", \"status\": \"COMPLETED\", \
                \"originalFilename\": \"clip.mp4\", \"createdAt\": \"2024-01-01\", \
                \"processedData\": {\"length\": 12.5, \
                \"scenes\": [{\"description\": \"a dog\", \"endTs\": 3.0, \"objects\": [\"dog\"]}], \
                \"transcript\": []}}";
    job_from_value(JsonValue::parse(text).expect("valid JSON"))
}

/// Runs a poll over scripted fetches, as a caller would: reports each job,
/// reads the clock of the script, and sleeps as told. Returns the number of
/// reports, the number of fetches, the sleeps and the step that ended the poll.
fn drive(
    script: Vec<(Result<Job, FrameQueryError>, u64)>,
    options: &ProcessOptions,
) -> (usize, usize, Vec<TimeSpan>, Option<PollStep>) {
    let mut reports = 0;
    let mut fetches = 0;
    let mut sleeps = Vec::new();
    for (fetched, elapsed_secs) in script {
        fetches += 1;
        if fetched.is_ok() {
            reports += 1;
        }
        match next_step(fetched, TimeSpan::from_secs(elapsed_secs), options) {
            PollStep::Wait(span) => sleeps.push(span),
            last => return (reports, fetches, sleeps, Some(last)),
        }
    }
    (reports, fetches, sleeps, None)
}

#[test]
fn pending_reads_then_completed_reports_each_job_once() {
    let options = ProcessOptions::default();
    let n = 4;
    let mut script: Vec<(Result<Job, FrameQueryError>, u64)> =
        (0..n).map(|i| (Ok(job_with_status("PENDING")), 5 * i)).collect();
    script.push((Ok(completed_job()), 5 * n));
    script.push((Ok(job_with_status("PENDING")), 5 * n + 5));
    let (reports, fetches, sleeps, last) = drive(script, &options);
    assert_eq!(reports as u64, n + 1);
    assert_eq!(fetches as u64, n + 1);
    assert_eq!(sleeps, vec![TimeSpan { secs: 5, nanos: 0 }; n as usize]);
    match last {
        Some(PollStep::Completed(result)) => {
            assert_eq!(result.job_id, "job-1");
            assert_eq!(result.status, "COMPLETED");
            assert_eq!(result.filename, "clip.mp4");
            assert_eq!(result.created_at, "2024-01-01");
            assert_eq!(result.duration, Number::Float(12.5f64.to_bits()));
            assert_eq!(
                result.scenes,
                vec![Scene {
                    description: "a dog".to_string(),
                    end_time: Number::Float(3.0f64.to_bits()),
                    objects: vec!["dog".to_string()],
                }]
            );
            assert!(result.transcript.is_empty());
            assert_eq!(result.raw, completed_job().raw);
        }
        other => panic!("unexpected end: {:?}", other),
    }
}

#[test]
fn completed_without_scenes_is_a_result_too() {
    let options = ProcessOptions::default();
    let step = next_step(Ok(job_with_status("COMPLETED_NO_SCENES")), TimeSpan::from_secs(1), &options);
    assert_eq!(step.state(), PollState::Completed);
    match step {
        PollStep::Completed(ProcessingResult { status, scenes, transcript, duration, .. }) => {
            assert_eq!(status, "COMPLETED_NO_SCENES");
            assert!(scenes.is_empty());
            assert!(transcript.is_empty());
            assert_eq!(duration, Number::Float(0));
        }
        other => panic!("unexpected step: {:?}", other),
    }
}

#[test]
fn pending_forever_times_out_at_the_first_fetch_past_the_deadline() {
    let options = ProcessOptions {
        poll_interval: TimeSpan::from_secs(5),
        timeout: TimeSpan::from_secs(12),
    };
    let script: Vec<(Result<Job, FrameQueryError>, u64)> =
        (0..10).map(|i| (Ok(job_with_status("PENDING")), 5 * i)).collect();
    let (reports, fetches, sleeps, last) = drive(script, &options);
    assert_eq!(fetches, 4);
    assert_eq!(reports, 4);
    assert_eq!(sleeps.len(), 3);
    assert_eq!(last, Some(PollStep::TimedOut(FrameQueryError::Timeout(TimeSpan::from_secs(12)))));
}

#[test]
fn time_exactly_at_the_deadline_times_out() {
    let options = ProcessOptions {
        poll_interval: TimeSpan::from_secs(5),
        timeout: TimeSpan::from_secs(10),
    };
    let step = next_step(Ok(job_with_status("PROCESSING")), TimeSpan::from_secs(10), &options);
    assert_eq!(step.state(), PollState::TimedOut);
    let step = next_step(
        Ok(job_with_status("PROCESSING")),
        TimeSpan { secs: 9, nanos: 999_999_999 },
        &options,
    );
    assert_eq!(step, PollStep::Wait(TimeSpan::from_secs(5)));
    assert_eq!(step.state(), PollState::Polling);
}

#[test]
fn job_completing_at_the_deadline_still_succeeds() {
    let options = ProcessOptions {
        poll_interval: TimeSpan::from_secs(5),
        timeout: TimeSpan::from_secs(10),
    };
    let step = next_step(Ok(completed_job()), TimeSpan::from_secs(10), &options);
    assert_eq!(step.state(), PollState::Completed);
    let step = next_step(Ok(completed_job()), TimeSpan::from_secs(1_000_000), &options);
    assert_eq!(step.state(), PollState::Completed);
}

#[test]
fn failed_job_ends_the_poll_without_another_sleep() {
    let options = ProcessOptions::default();
    let script = vec![
        (Ok(job_with_status("PENDING")), 0),
        (Ok(job_with_status("PROCESSING")), 5),
        (Ok(job_with_status("FAILED")), 10),
        (Ok(job_with_status("COMPLETED")), 15),
    ];
    let (reports, fetches, sleeps, last) = drive(script, &options);
    assert_eq!(reports, 3);
    assert_eq!(fetches, 3);
    assert_eq!(sleeps.len(), 2);
    assert_eq!(
        last,
        Some(PollStep::Failed(FrameQueryError::JobFailed(
            "job job-1 reached FAILED status".to_string()
        )))
    );
}

#[test]
fn failed_job_past_the_deadline_is_failed_not_timed_out() {
    let options = ProcessOptions {
        poll_interval: TimeSpan::from_secs(5),
        timeout: TimeSpan::from_secs(1),
    };
    let step = next_step(Ok(job_with_status("FAILED")), TimeSpan::from_secs(100), &options);
    assert_eq!(step.state(), PollState::Failed);
}

#[test]
fn failed_fetch_ends_the_poll_with_its_error() {
    let options = ProcessOptions::default();
    let script = vec![
        (Ok(job_with_status("PENDING")), 0),
        (Err(FrameQueryError::NotFound { message: "gone".to_string() }), 5),
        (Ok(job_with_status("COMPLETED")), 10),
    ];
    let (reports, fetches, sleeps, last) = drive(script, &options);
    assert_eq!(reports, 1);
    assert_eq!(fetches, 2);
    assert_eq!(sleeps.len(), 1);
    assert_eq!(
        last,
        Some(PollStep::Errored(FrameQueryError::NotFound { message: "gone".to_string() }))
    );
    assert_eq!(last.unwrap().state(), PollState::Errored);
}

#[test]
fn default_options_poll_every_five_seconds_for_a_day() {
    let options = ProcessOptions::default();
    assert_eq!(options.poll_interval, TimeSpan { secs: 5, nanos: 0 });
    assert_eq!(options.timeout, TimeSpan { secs: 24 * 60 * 60, nanos: 0 });
}

#[test]
fn time_spans_compare_by_their_length() {
    let a = TimeSpan { secs: 1, nanos: 500_000_000 };
    let b = TimeSpan { secs: 1, nanos: 499_999_999 };
    assert!(a.at_least(&b));
    assert!(!b.at_least(&a));
    assert!(a.at_least(&a));
    let odd = TimeSpan { secs: 0, nanos: 2_000_000_000 };
    assert!(odd.at_least(&a));
    let huge = TimeSpan { secs: u64::MAX, nanos: u32::MAX };
    assert!(huge.at_least(&odd));
    assert!(!odd.at_least(&huge));
}
