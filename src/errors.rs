//! Execution errors and the HTTP-style responses they become.

use vstd::prelude::*;

verus! {

/// Status for a query that was cancelled or refused under load.
pub const TOO_MANY_REQUESTS: u16 = 429;

/// Status for every other failure.
pub const INTERNAL_SERVER_ERROR: u16 = 500;

/// A classified error of the execution engine: its numeric code and message.
pub struct ErrorCode {
    pub code: u16,
    pub message: String,
}

/// How a call to the execution engine can fail.
pub enum ExecutionError {
    /// The query was cancelled, or the engine is overloaded.
    CancelQuery(ErrorCode),
    /// Any other classified error.
    Coded(ErrorCode),
    /// An error without a code, carrying only its text.
    Other(String),
}

/// The body of an error response.
pub enum ErrorBody {
    /// A classified error, with the request's trace id.
    Coded { code: u16, message: String, trace_id: String },
    /// A plain message with a status code.
    Message { code: u16, message: String },
}

/// An error response: a status and a body.
pub struct ErrorResponse {
    pub status: u16,
    pub body: ErrorBody,
}

/// `r` is the response that execution error `e` becomes for the request traced by `trace_id`.
pub open spec fn translates(r: ErrorResponse, e: ExecutionError, trace_id: Seq<char>) -> bool {
    match e {
        ExecutionError::CancelQuery(c) => {
            &&& r.status == TOO_MANY_REQUESTS
            &&& r.body matches ErrorBody::Coded { code, message, trace_id: t }
            &&& code == c.code && message@ == c.message@ && t@ == trace_id
        },
        ExecutionError::Coded(c) => {
            &&& r.status == INTERNAL_SERVER_ERROR
            &&& r.body matches ErrorBody::Coded { code, message, trace_id: t }
            &&& code == c.code && message@ == c.message@ && t@ == trace_id
        },
        ExecutionError::Other(text) => {
            &&& r.status == INTERNAL_SERVER_ERROR
            &&& r.body matches ErrorBody::Message { code, message }
            &&& code == INTERNAL_SERVER_ERROR && message@ == text@
        },
    }
}

/// Maps an execution error to its response; the same for either half-window.
pub fn translate(e: ExecutionError, trace_id: &String) -> (r: ErrorResponse)
    ensures
        translates(r, e, trace_id@),
{
    match e {
        ExecutionError::CancelQuery(c) => ErrorResponse {
            status: TOO_MANY_REQUESTS,
            body: ErrorBody::Coded { code: c.code, message: c.message, trace_id: trace_id.clone() },
        },
        ExecutionError::Coded(c) => ErrorResponse {
            status: INTERNAL_SERVER_ERROR,
            body: ErrorBody::Coded { code: c.code, message: c.message, trace_id: trace_id.clone() },
        },
        ExecutionError::Other(text) => ErrorResponse {
            status: INTERNAL_SERVER_ERROR,
            body: ErrorBody::Message { code: INTERNAL_SERVER_ERROR, message: text },
        },
    }
}

} // verus!
