//! HTTP status codes as the services read them.

use vstd::prelude::*;

verus! {

/// Whether an HTTP status code is a success (2xx), as
/// `reqwest::StatusCode::is_success` defines it.
pub open spec fn is_success_status(status: u16) -> bool {
    200 <= status && status <= 299
}

/// Whether an HTTP status code is a success (2xx).
pub fn is_success(status: u16) -> (r: bool)
    ensures
        r == is_success_status(status),
        r <==> 200 <= status <= 299,
{
    200 <= status && status <= 299
}

/// Exactly the 2xx statuses are successes: 200 and 299 are, 199 and 300 are
/// not, and no informational, redirect or error status is.
pub proof fn law_success_is_exactly_2xx(status: u16)
    ensures
        is_success_status(status) <==> 200 <= status < 300,
        status < 200 || status >= 300 ==> !is_success_status(status),
{
}

} // verus!
