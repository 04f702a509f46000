use framequery::errors::FrameQueryError;
use framequery::json::{JsonValue, Number};
use framequery::transport::{classify_parsed, classify_response, no_response, Outcome};

fn text(s: &str) -> JsonValue {
    JsonValue::String(s.to_string())
}

#[test]
fn success_status_with_json_body_is_decoded() {
    let outcome = classify_response(200, "{\"data\": {\"jobId\": \"j1\"}}");
    let expected = JsonValue::Object(vec![(
        "data".to_string(),
        JsonValue::Object(vec![("jobId".to_string(), text("j1"))]),
    )]);
    assert_eq!(outcome, Outcome::Success(expected));
}

#[test]
fn every_status_from_200_to_299_is_success() {
    for status in [200u16, 201, 204, 299] {
        assert_eq!(classify_response(status, "true"), Outcome::Success(JsonValue::Bool(true)));
    }
}

#[test]
fn success_status_with_unreadable_body_is_fatal() {
    let outcome = classify_response(200, "<html>");
    assert_eq!(
        outcome,
        Outcome::Fatal(FrameQueryError::Http {
            message: "error decoding response body".to_string()
        })
    );
}

#[test]
fn status_401_is_fatal_authentication() {
    let outcome = classify_response(401, "{\"error\": \"bad key\"}");
    assert_eq!(
        outcome,
        Outcome::Fatal(FrameQueryError::Authentication { message: "bad key".to_string() })
    );
}

#[test]
fn status_403_is_fatal_permission_denied() {
    let outcome = classify_response(403, "{\"error\": \"not yours\"}");
    assert_eq!(
        outcome,
        Outcome::Fatal(FrameQueryError::PermissionDenied { message: "not yours".to_string() })
    );
}

#[test]
fn status_404_is_fatal_not_found_with_raw_text_when_body_is_no_json() {
    let outcome = classify_response(404, "no such job");
    assert_eq!(
        outcome,
        Outcome::Fatal(FrameQueryError::NotFound { message: "no such job".to_string() })
    );
}

#[test]
fn status_429_is_transient_rate_limit_with_hint() {
    let outcome = classify_response(429, "{\"error\": \"slow down\", \"retryAfter\": 2.5}");
    assert_eq!(
        outcome,
        Outcome::Transient(FrameQueryError::RateLimit {
            message: "slow down".to_string(),
            retry_after: Some(Number::Float(2.5f64.to_bits())),
        })
    );
}

#[test]
fn status_429_without_hint_has_none() {
    let outcome = classify_response(429, "{\"error\": \"slow down\", \"retryAfter\": \"soon\"}");
    assert_eq!(
        outcome,
        Outcome::Transient(FrameQueryError::RateLimit {
            message: "slow down".to_string(),
            retry_after: None,
        })
    );
}

#[test]
fn integer_hint_stays_an_integer() {
    let outcome = classify_response(429, "{\"retryAfter\": 3}");
    assert_eq!(
        outcome,
        Outcome::Transient(FrameQueryError::RateLimit {
            message: "{\"retryAfter\": 3}".to_string(),
            retry_after: Some(Number::PosInt(3)),
        })
    );
}

#[test]
fn status_5xx_is_transient_api_error() {
    let outcome = classify_response(503, "{\"error\": \"down\"}");
    assert_eq!(
        outcome,
        Outcome::Transient(FrameQueryError::Api {
            status_code: 503,
            message: "down".to_string(),
            body: Some(JsonValue::Object(vec![("error".to_string(), text("down"))])),
        })
    );
    assert!(matches!(classify_response(500, ""), Outcome::Transient(_)));
    assert!(matches!(classify_response(599, ""), Outcome::Transient(_)));
}

#[test]
fn other_4xx_is_fatal_api_error_with_status_and_body() {
    let outcome = classify_response(422, "{\"error\": \"bad file\", \"field\": \"fileName\"}");
    assert_eq!(
        outcome,
        Outcome::Fatal(FrameQueryError::Api {
            status_code: 422,
            message: "bad file".to_string(),
            body: Some(JsonValue::Object(vec![
                ("error".to_string(), text("bad file")),
                ("field".to_string(), text("fileName")),
            ])),
        })
    );
}

#[test]
fn error_member_that_is_no_string_falls_back_to_the_text() {
    let outcome = classify_response(400, "{\"error\": 5}");
    match outcome {
        Outcome::Fatal(FrameQueryError::Api { status_code, message, body }) => {
            assert_eq!(status_code, 400);
            assert_eq!(message, "{\"error\": 5}");
            assert!(body.is_some());
        }
        other => panic!("unexpected outcome: {:?}", other),
    }
}

#[test]
fn statuses_below_200_and_3xx_are_fatal_api_errors() {
    assert_eq!(
        classify_response(302, "moved"),
        Outcome::Fatal(FrameQueryError::Api {
            status_code: 302,
            message: "moved".to_string(),
            body: None,
        })
    );
    assert!(matches!(classify_response(199, ""), Outcome::Fatal(FrameQueryError::Api { .. })));
    assert!(matches!(classify_response(300, ""), Outcome::Fatal(FrameQueryError::Api { .. })));
}

#[test]
fn classify_parsed_takes_the_body_as_given() {
    let body = JsonValue::Object(vec![("error".to_string(), text("from body"))]);
    assert_eq!(
        classify_parsed(401, "ignored text", Some(body)),
        Outcome::Fatal(FrameQueryError::Authentication { message: "from body".to_string() })
    );
    assert_eq!(
        classify_parsed(401, "raw text", None),
        Outcome::Fatal(FrameQueryError::Authentication { message: "raw text".to_string() })
    );
    assert_eq!(classify_parsed(200, "x", Some(JsonValue::Null)), Outcome::Success(JsonValue::Null));
}

#[test]
fn an_attempt_without_an_answer_is_transient() {
    let outcome: Outcome<JsonValue> = no_response("connection refused".to_string());
    assert_eq!(
        outcome,
        Outcome::Transient(FrameQueryError::Http { message: "connection refused".to_string() })
    );
}
