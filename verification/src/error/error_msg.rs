//! Problem details (RFC 9457) returned by the handlers, and their HTTP status.

use vstd::prelude::*;
use crate::text::copy_text;

verus! {

/// Status 401.
pub const STATUS_UNAUTHORIZED: u16 = 401;
/// Status 409.
pub const STATUS_CONFLICT: u16 = 409;
/// Status 500.
pub const STATUS_INTERNAL_SERVER_ERROR: u16 = 500;

/// A detail of an error.
pub struct ErrorDetail {
    /// Granular description of the specific error.
    pub detail: String,
    /// JSON pointer to the request body property at fault.
    pub pointer: Option<String>,
    /// Name of the query or path parameter at fault.
    pub parameter: Option<String>,
    /// Header at fault.
    pub header: Option<String>,
    /// Code identifying the error content.
    pub code: Option<String>,
}

/// Generic error message.
pub struct ErrorMsg {
    /// URI reference identifying the problem type.
    pub _type: Option<String>,
    /// Explanation specific to this occurrence of the problem.
    pub detail: Option<String>,
    /// URI of the occurrence.
    pub instance: Option<String>,
    pub code: Option<String>,
    /// HTTP status code.
    pub status: u16,
    /// Summary of the problem type.
    pub title: String,
    pub errors: Vec<ErrorDetail>,
}

/// An error with just a title and a status: every optional part absent, no details.
pub open spec fn is_plain_error(e: ErrorMsg, title: Seq<char>, status: u16) -> bool {
    &&& e.title@ == title
    &&& e.status == status
    &&& e._type is None
    &&& e.detail is None
    &&& e.instance is None
    &&& e.code is None
    &&& e.errors@.len() == 0
}

/// An error with just a title and a status.
pub fn plain_error(title: String, status: u16) -> (res: ErrorMsg)
    ensures
        is_plain_error(res, title@, status),
{
    ErrorMsg {
        title,
        status,
        _type: None,
        detail: None,
        instance: None,
        code: None,
        errors: Vec::new(),
    }
}

/// The refusal of a request the caller is not allowed to make: status 401, titled with
/// the translated `unauthorized` message.
pub fn unauthorized_error(title: String) -> (res: ErrorMsg)
    ensures
        is_plain_error(res, title@, STATUS_UNAUTHORIZED),
{
    plain_error(title, STATUS_UNAUTHORIZED)
}

/// A conflict with the given title: status 409.
pub fn simple_error(title: &String) -> (res: ErrorMsg)
    ensures
        is_plain_error(res, title@, STATUS_CONFLICT),
{
    plain_error(copy_text(title.as_str()), STATUS_CONFLICT)
}

impl ErrorMsg {
    /// What every failure of an underlying service (database, token decoding, HTTP,
    /// UTF-8, JSON) becomes: status 500, titled `Error`.
    pub fn from_internal_error() -> (res: ErrorMsg)
        ensures
            is_plain_error(res, "Error"@, STATUS_INTERNAL_SERVER_ERROR),
    {
        plain_error(copy_text("Error"), STATUS_INTERNAL_SERVER_ERROR)
    }

    /// The HTTP status of the response: the error's status when it is a valid status
    /// code (100 to 999), else 500.
    pub fn response_status(&self) -> (res: u16)
        ensures
            res == (if 100 <= self.status <= 999 { self.status } else { STATUS_INTERNAL_SERVER_ERROR }),
    {
        match status_code(self.status) {
            Some(s) => s,
            None => STATUS_INTERNAL_SERVER_ERROR,
        }
    }
}

/// Checks a status code with `http::StatusCode::from_u16` and reads it back with
/// `as_u16`. Claimed, as the crate documents and its source shows: the code is accepted
/// exactly when it lies in 100..=999, and reads back unchanged.
#[verifier::external_body]
fn status_code(code: u16) -> (res: Option<u16>)
    ensures
        res == (if 100 <= code <= 999 { Some(code) } else { None::<u16> }),
{
    match http::StatusCode::from_u16(code) {
        Ok(s) => Some(s.as_u16()),
        Err(_) => None,
    }
}

} // verus!
