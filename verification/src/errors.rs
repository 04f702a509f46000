//! The errors a call can end in.

use vstd::prelude::*;
use vstd::string::*;
use crate::json::{Json, JsonValue, Number};
use crate::time::TimeSpan;

verus! {

/// Everything that can go wrong in a call to the service.
#[derive(Debug, PartialEq)]
pub enum FrameQueryError {
    /// The API key is missing or was refused (status 401).
    Authentication { message: String },
    /// The caller may not touch the resource (status 403).
    PermissionDenied { message: String },
    /// The resource does not exist (status 404).
    NotFound { message: String },
    /// Too many requests (status 429), with the server's hint, in seconds, of
    /// when to come back.
    RateLimit { message: String, retry_after: Option<Number> },
    /// Any other refusal, with the status and the body where it was JSON.
    Api { status_code: u16, message: String, body: Option<JsonValue> },
    /// The request never got an answer, or the answer could not be read.
    Http { message: String },
    /// A local file could not be read.
    Io { message: String },
    /// Polling went on longer than the configured span.
    Timeout(TimeSpan),
    /// The job ended in the failed status.
    JobFailed(String),
}

/// The mathematical model of an error.
pub enum ErrorView {
    Authentication { message: Seq<char> },
    PermissionDenied { message: Seq<char> },
    NotFound { message: Seq<char> },
    RateLimit { message: Seq<char>, retry_after: Option<Number> },
    Api { status_code: u16, message: Seq<char>, body: Option<Json> },
    Http { message: Seq<char> },
    Io { message: Seq<char> },
    Timeout(TimeSpan),
    JobFailed(Seq<char>),
}

impl View for FrameQueryError {
    type V = ErrorView;

    open spec fn view(&self) -> ErrorView {
        match self {
            FrameQueryError::Authentication { message } => ErrorView::Authentication {
                message: message@,
            },
            FrameQueryError::PermissionDenied { message } => ErrorView::PermissionDenied {
                message: message@,
            },
            FrameQueryError::NotFound { message } => ErrorView::NotFound { message: message@ },
            FrameQueryError::RateLimit { message, retry_after } => ErrorView::RateLimit {
                message: message@,
                retry_after: *retry_after,
            },
            FrameQueryError::Api { status_code, message, body } => ErrorView::Api {
                status_code: *status_code,
                message: message@,
                body: match body {
                    Some(v) => Some(v@),
                    None => None,
                },
            },
            FrameQueryError::Http { message } => ErrorView::Http { message: message@ },
            FrameQueryError::Io { message } => ErrorView::Io { message: message@ },
            FrameQueryError::Timeout(span) => ErrorView::Timeout(*span),
            FrameQueryError::JobFailed(text) => ErrorView::JobFailed(text@),
        }
    }
}

/// The error for an answer whose body cannot be read as what was asked for.
pub open spec fn undecodable() -> ErrorView {
    ErrorView::Http { message: "error decoding response body"@ }
}

/// The error for an answer whose body cannot be read as what was asked for.
pub fn undecodable_error() -> (e: FrameQueryError)
    ensures
        e@ == undecodable(),
{
    FrameQueryError::Http { message: String::from_str("error decoding response body") }
}

} // verus!
