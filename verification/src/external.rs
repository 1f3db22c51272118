//! Declarations of the outside types that the library carries, and the
//! trusted wrappers around the outside functions that it calls.

use vstd::prelude::*;

verus! {

/// `reqwest::Client`, an HTTP client handle; the library only carries it.
#[verifier::external_type_specification]
#[verifier::external_body]
pub struct ExClient(reqwest::Client);

/// Earliest second chrono represents: the start of 1 January of year -262143.
pub open spec fn first_representable_second() -> int {
    -8_334_601_228_800
}

/// Latest second chrono represents: the last second of 31 December of year 262142.
pub open spec fn last_representable_second() -> int {
    8_210_266_876_799
}

/// Whether a number of milliseconds since the Unix epoch falls within
/// chrono's dates, from the first to the last representable second.
pub open spec fn millis_representable(millis: i64) -> bool {
    first_representable_second() * 1000 <= millis && millis <= last_representable_second()
        * 1000 + 999
}

/// Calls `chrono::DateTime::<Utc>::from_timestamp_millis` and reports whether it
/// returned an instant. Claimed: that happens exactly when the milliseconds
/// fall between the first and the last second of chrono's date range (years
/// -262143 to 262142).
#[verifier::external_body]
pub fn millis_timestamp_is_valid(millis: i64) -> (r: bool)
    ensures
        r == millis_representable(millis),
{
    chrono::DateTime::<chrono::Utc>::from_timestamp_millis(millis).is_some()
}

/// Whether a number of whole seconds since the Unix epoch falls within
/// chrono's dates.
pub open spec fn seconds_representable(secs: i64) -> bool {
    first_representable_second() <= secs && secs <= last_representable_second()
}

/// Calls `chrono::DateTime::<Utc>::from_timestamp` with no nanoseconds and
/// reports whether it returned an instant. Claimed: that happens exactly when
/// the seconds fall within chrono's date range (years -262143 to 262142).
#[verifier::external_body]
pub fn seconds_timestamp_is_valid(secs: i64) -> (r: bool)
    ensures
        r == seconds_representable(secs),
{
    chrono::DateTime::<chrono::Utc>::from_timestamp(secs, 0).is_some()
}

} // verus!
