//! Lightning strikes of the YR lightning feed: which events of the feed
//! become strikes.
//!
//! The feed lists each event as an array `[timestamp, longitude, latitude,
//! magic_value]`. The caller decodes the JSON and hands each event in as a
//! [`LightningEventFacts`]; the coordinates themselves (floating point) stay
//! with the caller.

use vstd::prelude::*;

use crate::external::{
    first_representable_second, last_representable_second, seconds_representable,
    seconds_timestamp_is_valid,
};

verus! {

/// What the feed says of one event, as far as decoding got.
pub struct LightningEventFacts {
    /// How many elements the event's array has.
    pub arity: usize,
    /// The first element, when it is an integer.
    pub timestamp: Option<i64>,
    /// Whether the second element (longitude) is a number.
    pub longitude_given: bool,
    /// Whether the third element (latitude) is a number.
    pub latitude_given: bool,
    /// The fourth element, when it is a non-negative integer.
    pub magic_value: Option<u64>,
}

/// The magic value a strike gets from the feed's integer: its lowest byte.
pub open spec fn magic_byte(v: u64) -> u8 {
    (v % 256) as u8
}

/// Whether an event of the feed becomes a strike.
pub open spec fn is_strike(f: LightningEventFacts) -> bool {
    &&& f.arity == 4
    &&& f.timestamp is Some
    &&& f.longitude_given
    &&& f.latitude_given
    &&& f.magic_value is Some
    &&& seconds_representable(f.timestamp->0)
}

/// The magic value of the strike an event becomes, or nothing when the event
/// is skipped.
pub fn accept_lightning_event(f: &LightningEventFacts) -> (r: Option<u8>)
    ensures
        is_strike(*f) ==> r == Some(magic_byte(f.magic_value->0)),
        !is_strike(*f) ==> r is None,
        r matches Some(m) ==> f.arity == 4 && f.longitude_given && f.latitude_given
            && f.timestamp is Some && f.magic_value is Some && m as int == f.magic_value->0 % 256,
{
    if f.arity != 4 || !f.longitude_given || !f.latitude_given {
        return None;
    }
    let timestamp = match f.timestamp {
        Some(t) => t,
        None => return None,
    };
    let magic = match f.magic_value {
        Some(m) => m,
        None => return None,
    };
    if !seconds_timestamp_is_valid(timestamp) {
        return None;
    }
    Some((magic % 256) as u8)
}

/// An event becomes a strike exactly when it has four elements, an integer
/// time that chrono represents, both coordinates and a non-negative integer
/// magic value; the strike keeps the value's lowest byte, so values that differ
/// by a multiple of 256 give the same strike.
pub proof fn law_strike_keeps_lowest_byte(f: LightningEventFacts, g: LightningEventFacts)
    ensures
        is_strike(f) <==> (f.arity == 4 && f.longitude_given && f.latitude_given && f.magic_value is Some
            && (f.timestamp matches Some(t) && first_representable_second() <= t
            <= last_representable_second())),
        f.magic_value matches Some(v) ==> magic_byte(v) as int == v % 256,
        f.magic_value matches Some(v) ==> (v < 256 ==> magic_byte(v) as int == v),
        (f.magic_value matches Some(v) && g.magic_value matches Some(w) && v % 256 == w % 256)
            ==> magic_byte(f.magic_value->0) == magic_byte(g.magic_value->0),
{
}

} // verus!
