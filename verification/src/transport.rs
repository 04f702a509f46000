//! What one answer of the service means: success, a failure worth another
//! attempt, or a failure that ends the call.

use vstd::prelude::*;
use vstd::string::*;
use crate::errors::{undecodable, undecodable_error, ErrorView, FrameQueryError};
use crate::json::{parsed, Json, JsonValue, Number};

verus! {

/// The outcome of one attempt.
#[derive(Debug, PartialEq)]
pub enum Outcome<T> {
    /// The service answered with a success status; the decoded body.
    Success(T),
    /// A failure that another attempt may overcome.
    Transient(FrameQueryError),
    /// A failure that no further attempt is made after.
    Fatal(FrameQueryError),
}

/// The mathematical model of the outcome of one attempt that carries a
/// structured value.
pub enum OutcomeView {
    Success(Json),
    Transient(ErrorView),
    Fatal(ErrorView),
}

/// The model of an outcome.
pub open spec fn outcome_view(o: Outcome<JsonValue>) -> OutcomeView {
    match o {
        Outcome::Success(v) => OutcomeView::Success(v@),
        Outcome::Transient(e) => OutcomeView::Transient(e@),
        Outcome::Fatal(e) => OutcomeView::Fatal(e@),
    }
}

/// A status in the 2xx range.
pub open spec fn is_success_status(status: u16) -> bool {
    200 <= status < 300
}

/// A status that another attempt may overcome: 429 and the 5xx range upward.
pub open spec fn is_transient_status(status: u16) -> bool {
    status >= 500 || status == 429
}

/// The message of a refusal: the body's `error` member where the body is JSON
/// and holds one as a string, else the body as it came.
pub open spec fn refusal_message(text: Seq<char>, body: Option<Json>) -> Seq<char> {
    match body {
        Some(j) => match j.text_at("error"@) {
            Some(s) => s,
            None => text,
        },
        None => text,
    }
}

/// The hint of a rate-limited answer: the body's `retryAfter` member where it
/// is a number.
pub open spec fn retry_hint(body: Option<Json>) -> Option<Number> {
    match body {
        Some(j) => j.number_at("retryAfter"@),
        None => None,
    }
}

/// The error that a refusal with this status and body stands for.
pub open spec fn refusal(status: u16, text: Seq<char>, body: Option<Json>) -> ErrorView {
    let message = refusal_message(text, body);
    if status == 401 {
        ErrorView::Authentication { message }
    } else if status == 403 {
        ErrorView::PermissionDenied { message }
    } else if status == 404 {
        ErrorView::NotFound { message }
    } else if status == 429 {
        ErrorView::RateLimit { message, retry_after: retry_hint(body) }
    } else {
        ErrorView::Api { status_code: status, message, body }
    }
}

/// The outcome of an answer with this status and body text, where `body` is what
/// the text parses to.
pub open spec fn classified(status: u16, text: Seq<char>, body: Option<Json>) -> OutcomeView {
    if is_success_status(status) {
        match body {
            Some(j) => OutcomeView::Success(j),
            None => OutcomeView::Fatal(undecodable()),
        }
    } else if is_transient_status(status) {
        OutcomeView::Transient(refusal(status, text, body))
    } else {
        OutcomeView::Fatal(refusal(status, text, body))
    }
}

/// The error for a refusal status, built from the body text and what it parsed
/// to.
fn refusal_error(status: u16, text: &str, body: Option<JsonValue>) -> (e: FrameQueryError)
    ensures
        e@ == refusal(
            status,
            text@,
            match body {
                Some(v) => Some(v@),
                None => None,
            },
        ),
{
    let message = match &body {
        Some(v) => match v.text_at("error") {
            Some(s) => String::from_str(s),
            None => String::from_str(text),
        },
        None => String::from_str(text),
    };
    if status == 401 {
        FrameQueryError::Authentication { message }
    } else if status == 403 {
        FrameQueryError::PermissionDenied { message }
    } else if status == 404 {
        FrameQueryError::NotFound { message }
    } else if status == 429 {
        let retry_after = match &body {
            Some(v) => v.number_at("retryAfter"),
            None => None,
        };
        FrameQueryError::RateLimit { message, retry_after }
    } else {
        FrameQueryError::Api { status_code: status, message, body }
    }
}

/// Classifies an answer whose body text has been parsed already: `body` is the
/// parsed text, or `None` where the text is no JSON.
pub fn classify_parsed(status: u16, text: &str, body: Option<JsonValue>) -> (r: Outcome<JsonValue>)
    ensures
        outcome_view(r) == classified(
            status,
            text@,
            match body {
                Some(v) => Some(v@),
                None => None,
            },
        ),
{
    if 200 <= status && status < 300 {
        match body {
            Some(v) => Outcome::Success(v),
            None => Outcome::Fatal(undecodable_error()),
        }
    } else if status >= 500 || status == 429 {
        Outcome::Transient(refusal_error(status, text, body))
    } else {
        Outcome::Fatal(refusal_error(status, text, body))
    }
}

/// Classifies an answer of the service by its status and body text.
pub fn classify_response(status: u16, text: &str) -> (r: Outcome<JsonValue>)
    ensures
        outcome_view(r) == classified(status, text@, parsed(text@)),
{
    let body = JsonValue::parse(text);
    classify_parsed(status, text, body)
}

/// The outcome of an attempt that got no answer at all: always worth another
/// attempt, and carrying the transport's own description.
pub fn no_response<T>(detail: String) -> (r: Outcome<T>)
    ensures
        r == Outcome::<T>::Transient(FrameQueryError::Http { message: detail }),
{
    Outcome::Transient(FrameQueryError::Http { message: detail })
}

} // verus!
