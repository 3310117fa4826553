use vstd::prelude::*;

verus! {

pub const BAD_REQUEST: u16 = 400;

pub const METHOD_NOT_ALLOWED: u16 = 405;

pub const UNSUPPORTED_MEDIA_TYPE: u16 = 415;

pub const INTERNAL_SERVER_ERROR: u16 = 500;

/// The outcome of a failed step: the HTTP status to report and a short
/// human-readable message for the response body.
#[derive(Debug)]
pub struct ErrorResponse {
    pub status: u16,
    pub message: String,
}

pub open spec fn msg_bad_request() -> Seq<char> {
    "Bad request"@
}

pub open spec fn msg_bad_media() -> Seq<char> {
    "Request body should be a UTF-8 encoded JSON/Form data"@
}

pub open spec fn msg_method_not_allowed() -> Seq<char> {
    "Method not allowed"@
}

pub open spec fn msg_incorrect_json() -> Seq<char> {
    "Incorrect JSON"@
}

pub open spec fn msg_transport_failure() -> Seq<char> {
    "Something went wrong"@
}

/// Missing or empty parameters, or an unreadable content-type header.
pub fn bad_request() -> (r: ErrorResponse)
    ensures
        r.status == BAD_REQUEST,
        r.message@ == msg_bad_request(),
{
    ErrorResponse { status: BAD_REQUEST, message: "Bad request".to_string() }
}

/// A request body that is not UTF-8, or an unrecognized content type.
pub fn bad_media() -> (r: ErrorResponse)
    ensures
        r.status == UNSUPPORTED_MEDIA_TYPE,
        r.message@ == msg_bad_media(),
{
    ErrorResponse {
        status: UNSUPPORTED_MEDIA_TYPE,
        message: "Request body should be a UTF-8 encoded JSON/Form data".to_string(),
    }
}

/// Any HTTP method other than GET or POST.
pub fn method_not_allowed() -> (r: ErrorResponse)
    ensures
        r.status == METHOD_NOT_ALLOWED,
        r.message@ == msg_method_not_allowed(),
{
    ErrorResponse { status: METHOD_NOT_ALLOWED, message: "Method not allowed".to_string() }
}

/// A body or document that does not parse as the expected JSON shape.
pub fn incorrect_json() -> (r: ErrorResponse)
    ensures
        r.status == BAD_REQUEST,
        r.message@ == msg_incorrect_json(),
{
    ErrorResponse { status: BAD_REQUEST, message: "Incorrect JSON".to_string() }
}

/// A transport-level fetch failure, reported without internal detail.
pub fn transport_failure() -> (r: ErrorResponse)
    ensures
        r.status == INTERNAL_SERVER_ERROR,
        r.message@ == msg_transport_failure(),
{
    ErrorResponse { status: INTERNAL_SERVER_ERROR, message: "Something went wrong".to_string() }
}

} // verus!
