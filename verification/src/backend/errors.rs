//! The error an endpoint answers with: a message and an HTTP status code.

use vstd::prelude::*;
use vstd::string::StringExecFns;

verus! {

/// HTTP 400: the request is malformed.
pub const BAD_REQUEST: u16 = 400;

/// HTTP 404: nothing matches the request.
pub const NOT_FOUND: u16 = 404;

/// HTTP 500: the service failed.
pub const INTERNAL_SERVER_ERROR: u16 = 500;

/// HTTP 502: a provider the service depends on failed.
pub const BAD_GATEWAY: u16 = 502;

/// An error answer of an endpoint.
pub struct ApplicationError {
    pub message: String,
    pub status: u16,
}

impl ApplicationError {
    pub fn new(message: &str, status: u16) -> (r: ApplicationError)
        ensures
            r.message@ == message@,
            r.status == status,
    {
        ApplicationError { message: String::from_str(message), status }
    }
}

/// An error answer for a malformed request.
pub fn bad_request(message: &str) -> (r: ApplicationError)
    ensures
        r.message@ == message@,
        r.status == BAD_REQUEST,
{
    ApplicationError::new(message, BAD_REQUEST)
}

} // verus!
