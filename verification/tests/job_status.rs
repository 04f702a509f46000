use framequery::json::JsonValue;
use framequery::models::{Job, JobPage};

fn job(status: &str) -> Job {
    Job {
        id: "j".to_string(),
        status: status.to_string(),
        filename: String::new(),
        created_at: String::new(),
        eta_seconds: None,
        raw: JsonValue::Null,
    }
}

#[test]
fn completed_statuses_are_terminal_and_complete() {
    for status in ["COMPLETED", "COMPLETED_NO_SCENES"] {
        let j = job(status);
        assert!(j.is_terminal());
        assert!(j.is_complete());
        assert!(!j.is_failed());
    }
}

#[test]
fn failed_status_is_terminal_and_not_complete() {
    let j = job("FAILED");
    assert!(j.is_terminal());
    assert!(!j.is_complete());
    assert!(j.is_failed());
}

#[test]
fn any_other_status_is_neither_terminal_nor_complete() {
    for status in [
        "PENDING",
        "PENDING_ORCHESTRATION",
        "PROCESSING",
        "",
        "completed",
        "COMPLETED ",
        "COMPLETED_NO_SCENE",
        "COMPLETED_NO_SCENES_",
        "FAILED!",
        "failed",
        "DONE",
        "COMPLÉTED",
    ] {
        let j = job(status);
        assert!(!j.is_terminal(), "{status}");
        assert!(!j.is_complete(), "{status}");
        assert!(!j.is_failed(), "{status}");
    }
}

#[test]
fn page_has_more_exactly_with_a_cursor() {
    let last = JobPage { jobs: vec![], next_cursor: None };
    assert!(!last.has_more());
    let more = JobPage { jobs: vec![job("PENDING")], next_cursor: Some("abc".to_string()) };
    assert!(more.has_more());
    let empty_cursor = JobPage { jobs: vec![], next_cursor: Some(String::new()) };
    assert!(empty_cursor.has_more());
}
