//! Earthquakes of the USGS GeoJSON feed: the checks a feed and each of its
//! events must pass before the events are served.
//!
//! The feed itself is decoded from JSON by the caller, which hands each event
//! in as an [`EventFacts`]: its strings, the number of coordinates, whether
//! they are finite and in range (a floating-point check made by the caller),
//! the raw timestamps and the raw tsunami flag.

use vstd::prelude::*;

use crate::external::{millis_representable, millis_timestamp_is_valid};
use crate::text::text_eq;

verus! {

/// PAGER alert level of an earthquake.
#[derive(Debug, Clone, Copy, PartialEq, Eq, Structural)]
pub enum EarthquakeAlertLevel {
    Green,
    Yellow,
    Orange,
    Red,
    Unknown,
}

/// Review status of an earthquake.
#[derive(Debug, Clone, Copy, PartialEq, Eq, Structural)]
pub enum EarthquakeStatus {
    Automatic,
    Reviewed,
    Deleted,
    Unknown,
}

impl EarthquakeAlertLevel {
    /// The name of the level in the feed and in answers.
    pub open spec fn name(self) -> Seq<char> {
        match self {
            EarthquakeAlertLevel::Green => "green"@,
            EarthquakeAlertLevel::Yellow => "yellow"@,
            EarthquakeAlertLevel::Orange => "orange"@,
            EarthquakeAlertLevel::Red => "red"@,
            EarthquakeAlertLevel::Unknown => "unknown"@,
        }
    }

    /// The level a name of the feed stands for: the four PAGER colours, and
    /// `Unknown` for any other name.
    pub open spec fn named(s: Seq<char>) -> EarthquakeAlertLevel {
        if s == "green"@ {
            EarthquakeAlertLevel::Green
        } else if s == "yellow"@ {
            EarthquakeAlertLevel::Yellow
        } else if s == "orange"@ {
            EarthquakeAlertLevel::Orange
        } else if s == "red"@ {
            EarthquakeAlertLevel::Red
        } else {
            EarthquakeAlertLevel::Unknown
        }
    }

    pub fn from_name(s: &str) -> (r: EarthquakeAlertLevel)
        ensures
            r == EarthquakeAlertLevel::named(s@),
    {
        if text_eq(s, "green") {
            EarthquakeAlertLevel::Green
        } else if text_eq(s, "yellow") {
            EarthquakeAlertLevel::Yellow
        } else if text_eq(s, "orange") {
            EarthquakeAlertLevel::Orange
        } else if text_eq(s, "red") {
            EarthquakeAlertLevel::Red
        } else {
            EarthquakeAlertLevel::Unknown
        }
    }

    pub fn as_str(&self) -> (r: &'static str)
        ensures
            r@ == self.name(),
    {
        match self {
            EarthquakeAlertLevel::Green => "green",
            EarthquakeAlertLevel::Yellow => "yellow",
            EarthquakeAlertLevel::Orange => "orange",
            EarthquakeAlertLevel::Red => "red",
            EarthquakeAlertLevel::Unknown => "unknown",
        }
    }
}

impl EarthquakeStatus {
    /// The name of the status in the feed and in answers.
    pub open spec fn name(self) -> Seq<char> {
        match self {
            EarthquakeStatus::Automatic => "automatic"@,
            EarthquakeStatus::Reviewed => "reviewed"@,
            EarthquakeStatus::Deleted => "deleted"@,
            EarthquakeStatus::Unknown => "unknown"@,
        }
    }

    /// The status a name of the feed stands for, and `Unknown` for any name
    /// the feed may add.
    pub open spec fn named(s: Seq<char>) -> EarthquakeStatus {
        if s == "automatic"@ {
            EarthquakeStatus::Automatic
        } else if s == "reviewed"@ {
            EarthquakeStatus::Reviewed
        } else if s == "deleted"@ {
            EarthquakeStatus::Deleted
        } else {
            EarthquakeStatus::Unknown
        }
    }

    pub fn from_name(s: &str) -> (r: EarthquakeStatus)
        ensures
            r == EarthquakeStatus::named(s@),
    {
        if text_eq(s, "automatic") {
            EarthquakeStatus::Automatic
        } else if text_eq(s, "reviewed") {
            EarthquakeStatus::Reviewed
        } else if text_eq(s, "deleted") {
            EarthquakeStatus::Deleted
        } else {
            EarthquakeStatus::Unknown
        }
    }

    pub fn as_str(&self) -> (r: &'static str)
        ensures
            r@ == self.name(),
    {
        match self {
            EarthquakeStatus::Automatic => "automatic",
            EarthquakeStatus::Reviewed => "reviewed",
            EarthquakeStatus::Deleted => "deleted",
            EarthquakeStatus::Unknown => "unknown",
        }
    }
}

/// Every level is read back from its name.
pub proof fn law_alert_level_names_round_trip(level: EarthquakeAlertLevel)
    ensures
        EarthquakeAlertLevel::named(level.name()) == level,
{
    reveal_strlit("green");
    reveal_strlit("yellow");
    reveal_strlit("orange");
    reveal_strlit("red");
    reveal_strlit("unknown");
    assert("green"@[0] == 'g');
    assert("yellow"@[0] == 'y');
    assert("orange"@[0] == 'o');
    assert("red"@[0] == 'r');
    assert("unknown"@[0] == 'u');
}

/// Every status is read back from its name.
pub proof fn law_status_names_round_trip(status: EarthquakeStatus)
    ensures
        EarthquakeStatus::named(status.name()) == status,
{
    reveal_strlit("automatic");
    reveal_strlit("reviewed");
    reveal_strlit("deleted");
    reveal_strlit("unknown");
    assert("automatic"@[0] == 'a');
    assert("reviewed"@[0] == 'r');
    assert("deleted"@[0] == 'd');
    assert("unknown"@[0] == 'u');
}

/// What the checks read of one event of the feed.
pub struct EventFacts {
    pub id: String,
    /// The GeoJSON object type of the event.
    pub feature_type: String,
    /// The USGS event type (such as "earthquake" or "quarry blast").
    pub event_type: String,
    /// The GeoJSON geometry type.
    pub geometry_type: String,
    /// How many numbers the geometry's coordinates hold.
    pub coordinate_count: usize,
    /// Whether longitude, latitude and depth are finite, the longitude within
    /// [-180, 180] and the latitude within [-90, 90].
    pub coordinates_valid: bool,
    /// Event time, in milliseconds since the Unix epoch.
    pub time_millis: i64,
    /// Time of the last update, in milliseconds since the Unix epoch.
    pub updated_millis: i64,
    /// The raw tsunami flag.
    pub tsunami: u8,
}

/// Why a feed or one of its earthquakes is refused.
#[derive(Debug)]
pub enum FeedError {
    /// The document is not a GeoJSON FeatureCollection; holds its type.
    NotAFeatureCollection(String),
    /// The event (by id) is not a GeoJSON Feature.
    NotAFeature(String),
    /// The event's geometry is not a Point.
    NotAPoint(String),
    /// The event lacks longitude, latitude and depth.
    MissingCoordinates(String),
    /// The event's coordinates are not finite or out of range.
    InvalidCoordinates(String),
    /// The event time is out of range.
    InvalidTime(String),
    /// The update time is out of range.
    InvalidUpdated(String),
    /// The tsunami flag is neither 0 nor 1; holds the id and the flag.
    InvalidTsunami(String, u8),
}

/// The kinds of [`FeedError`], without what they hold.
#[derive(Debug, Clone, Copy, PartialEq, Eq, Structural)]
pub enum FeedProblem {
    NotAFeatureCollection,
    NotAFeature,
    NotAPoint,
    MissingCoordinates,
    InvalidCoordinates,
    InvalidTime,
    InvalidUpdated,
    InvalidTsunami,
}

impl FeedError {
    pub open spec fn problem(self) -> FeedProblem {
        match self {
            FeedError::NotAFeatureCollection(_) => FeedProblem::NotAFeatureCollection,
            FeedError::NotAFeature(_) => FeedProblem::NotAFeature,
            FeedError::NotAPoint(_) => FeedProblem::NotAPoint,
            FeedError::MissingCoordinates(_) => FeedProblem::MissingCoordinates,
            FeedError::InvalidCoordinates(_) => FeedProblem::InvalidCoordinates,
            FeedError::InvalidTime(_) => FeedProblem::InvalidTime,
            FeedError::InvalidUpdated(_) => FeedProblem::InvalidUpdated,
            FeedError::InvalidTsunami(_, _) => FeedProblem::InvalidTsunami,
        }
    }

    /// The text the error holds: the collection type, or the event's id.
    pub open spec fn subject(self) -> Seq<char> {
        match self {
            FeedError::NotAFeatureCollection(s) => s@,
            FeedError::NotAFeature(s) => s@,
            FeedError::NotAPoint(s) => s@,
            FeedError::MissingCoordinates(s) => s@,
            FeedError::InvalidCoordinates(s) => s@,
            FeedError::InvalidTime(s) => s@,
            FeedError::InvalidUpdated(s) => s@,
            FeedError::InvalidTsunami(s, _) => s@,
        }
    }
}

/// The first check, in the order they are made, that an earthquake event fails.
pub open spec fn event_problem(e: EventFacts) -> Option<FeedProblem> {
    if e.feature_type@ != "Feature"@ {
        Some(FeedProblem::NotAFeature)
    } else if e.geometry_type@ != "Point"@ {
        Some(FeedProblem::NotAPoint)
    } else if e.coordinate_count != 3 {
        Some(FeedProblem::MissingCoordinates)
    } else if !e.coordinates_valid {
        Some(FeedProblem::InvalidCoordinates)
    } else if !millis_representable(e.time_millis) {
        Some(FeedProblem::InvalidTime)
    } else if !millis_representable(e.updated_millis) {
        Some(FeedProblem::InvalidUpdated)
    } else if e.tsunami > 1 {
        Some(FeedProblem::InvalidTsunami)
    } else {
        None
    }
}

/// An earthquake event passes the checks exactly when it is a GeoJSON Feature
/// with a Point geometry of three valid coordinates, times that chrono
/// represents, and a tsunami flag of 0 or 1; a failing one is reported by the
/// first check it fails, so a non-Feature is always reported as such.
pub proof fn law_event_passes_exactly_when_well_formed(e: EventFacts)
    ensures
        event_problem(e) is None <==> (e.feature_type@ == "Feature"@ && e.geometry_type@
            == "Point"@ && e.coordinate_count == 3 && e.coordinates_valid && millis_representable(
            e.time_millis,
        ) && millis_representable(e.updated_millis) && (e.tsunami == 0 || e.tsunami == 1)),
        e.feature_type@ != "Feature"@ ==> event_problem(e) == Some(FeedProblem::NotAFeature),
        !millis_representable(e.time_millis) ==> event_problem(e) is Some,
        !millis_representable(e.updated_millis) ==> event_problem(e) is Some,
        !e.coordinates_valid ==> event_problem(e) is Some,
{
}

/// Whether an event of the feed is an earthquake (other events are skipped).
pub open spec fn is_earthquake(e: EventFacts) -> bool {
    e.event_type@ == "earthquake"@
}

/// Checks one earthquake event; gives whether it caused a tsunami.
pub fn check_event(e: &EventFacts) -> (r: Result<bool, FeedError>)
    ensures
        match r {
            Ok(tsunami) => event_problem(*e) is None && tsunami == (e.tsunami == 1),
            Err(err) => event_problem(*e) == Some(err.problem()) && err.subject() == e.id@
                && (err matches FeedError::InvalidTsunami(_, v) ==> v == e.tsunami),
        },
{
    if !text_eq(e.feature_type.as_str(), "Feature") {
        return Err(FeedError::NotAFeature(e.id.clone()));
    }
    if !text_eq(e.geometry_type.as_str(), "Point") {
        return Err(FeedError::NotAPoint(e.id.clone()));
    }
    if e.coordinate_count != 3 {
        return Err(FeedError::MissingCoordinates(e.id.clone()));
    }
    if !e.coordinates_valid {
        return Err(FeedError::InvalidCoordinates(e.id.clone()));
    }
    if !millis_timestamp_is_valid(e.time_millis) {
        return Err(FeedError::InvalidTime(e.id.clone()));
    }
    if !millis_timestamp_is_valid(e.updated_millis) {
        return Err(FeedError::InvalidUpdated(e.id.clone()));
    }
    match e.tsunami {
        0 => Ok(false),
        1 => Ok(true),
        value => Err(FeedError::InvalidTsunami(e.id.clone(), value)),
    }
}

/// An earthquake of the feed that passed the checks.
pub struct AcceptedEarthquake {
    /// Its position among the feed's events.
    pub index: usize,
    pub tsunami: bool,
}

/// The positions of the earthquakes among the first `n` events, in feed order.
pub open spec fn earthquake_positions(events: Seq<EventFacts>, n: int) -> Seq<int>
    decreases n,
{
    if n <= 0 {
        Seq::empty()
    } else if is_earthquake(events[n - 1]) {
        earthquake_positions(events, n - 1).push(n - 1)
    } else {
        earthquake_positions(events, n - 1)
    }
}

/// Checks a decoded feed: it must be a FeatureCollection, and every earthquake
/// in it must pass [`check_event`]; events of other types are skipped. Gives
/// the earthquakes in feed order, or the error of the first one that fails.
pub fn parse_feed(collection_type: &str, events: &Vec<EventFacts>) -> (r: Result<
    Vec<AcceptedEarthquake>,
    FeedError,
>)
    ensures
        collection_type@ != "FeatureCollection"@ ==> (r matches Err(err) && err.problem()
            == FeedProblem::NotAFeatureCollection && err.subject() == collection_type@),
        collection_type@ == "FeatureCollection"@ ==> match r {
            Ok(accepted) => {
                let pos = earthquake_positions(events@, events@.len() as int);
                &&& forall|k: int|
                    0 <= k < accepted.len() ==> #[trigger] accepted@[k].index < events.len()
                        && events@[accepted@[k].index as int].event_type@ == "earthquake"@
                        && event_problem(events@[accepted@[k].index as int]) is None
                &&& forall|i: int|
                    0 <= i < events.len() && (#[trigger] events@[i]).event_type@ == "earthquake"@
                        ==> exists|k: int| 0 <= k < accepted.len() && accepted@[k].index == i
                &&& forall|k1: int, k2: int|
                    0 <= k1 < k2 < accepted.len() ==> #[trigger] accepted@[k1].index
                        < #[trigger] accepted@[k2].index
                &&& accepted.len() == pos.len()
                &&& forall|k: int|
                    0 <= k < pos.len() ==> event_problem(events@[#[trigger] pos[k]]) is None
                        && accepted@[k].index == pos[k] && accepted@[k].tsunami == (
                    events@[pos[k]].tsunami == 1)
            },
            Err(err) => {
                let pos = earthquake_positions(events@, events@.len() as int);
                &&& exists|i: int|
                    0 <= i < events.len() && events@[i].event_type@ == "earthquake"@
                        && event_problem(events@[i]) == Some(err.problem()) && err.subject()
                        == events@[i].id@ && forall|j: int|
                        0 <= j < i && (#[trigger] events@[j]).event_type@ == "earthquake"@
                            ==> event_problem(events@[j]) is None
                &&& exists|k: int|
                    0 <= k < pos.len() && (forall|j: int|
                        0 <= j < k ==> event_problem(events@[#[trigger] pos[j]]) is None)
                        && event_problem(events@[pos[k]]) == Some(err.problem()) && err.subject()
                        == events@[pos[k]].id@
            },
        },
{
    if !text_eq(collection_type, "FeatureCollection") {
        return Err(FeedError::NotAFeatureCollection(String::from_str(collection_type)));
    }
    let ghost es = events@;
    let mut accepted: Vec<AcceptedEarthquake> = Vec::new();
    let mut i: usize = 0;
    while i < events.len()
        invariant
            es == events@,
            collection_type@ == "FeatureCollection"@,
            i <= es.len(),
            accepted.len() == earthquake_positions(es, i as int).len(),
            forall|k: int|
                0 <= k < accepted.len() ==> event_problem(
                    es[#[trigger] earthquake_positions(es, i as int)[k]],
                ) is None && accepted@[k].index == earthquake_positions(es, i as int)[k]
                    && accepted@[k].tsunami == (es[earthquake_positions(es, i as int)[k]].tsunami
                    == 1),
        decreases es.len() - i,
    {
        let e = &events[i];
        if text_eq(e.event_type.as_str(), "earthquake") {
            match check_event(e) {
                Ok(tsunami) => {
                    accepted.push(AcceptedEarthquake { index: i, tsunami });
                },
                Err(err) => {
                    proof {
                        law_only_earthquakes_are_kept(es, i as int);
                        assert forall|j: int|
                            0 <= j < i && (#[trigger] es[j]).event_type@ == "earthquake"@ implies event_problem(
                            es[j],
                        ) is None by {
                            let q = choose|q: int|
                                0 <= q < earthquake_positions(es, i as int).len()
                                    && earthquake_positions(es, i as int)[q] == j;
                            assert(event_problem(es[earthquake_positions(es, i as int)[q]]) is None);
                        }
                        let pos = earthquake_positions(es, i as int + 1);
                        let k = earthquake_positions(es, i as int).len() as int;
                        assert(pos[k] == i as int);
                        lemma_earthquake_positions_prefix(es, i as int + 1, es.len() as int);
                        assert(earthquake_positions(es, es.len() as int)[k] == i as int);
                        assert forall|j: int| 0 <= j < k implies event_problem(
                            es[#[trigger] earthquake_positions(es, es.len() as int)[j]],
                        ) is None by {
                            assert(earthquake_positions(es, i as int + 1)[j]
                                == earthquake_positions(es, i as int)[j]);
                            assert(earthquake_positions(es, es.len() as int)[j]
                                == earthquake_positions(es, i as int + 1)[j]);
                        }
                    }
                    return Err(err);
                },
            }
        }
        i = i + 1;
    }
    proof {
        law_only_earthquakes_are_kept(es, es.len() as int);
        let pos = earthquake_positions(es, es.len() as int);
        assert forall|i: int|
            0 <= i < es.len() && (#[trigger] es[i]).event_type@ == "earthquake"@ implies exists|k: int|
                0 <= k < accepted.len() && accepted@[k].index == i by {
            let k = choose|k: int| 0 <= k < pos.len() && pos[k] == i;
            assert(accepted@[k].index == pos[k]);
        }
        assert forall|k: int| 0 <= k < accepted.len() implies #[trigger] accepted@[k].index < es.len()
            && es[accepted@[k].index as int].event_type@ == "earthquake"@ && event_problem(
            es[accepted@[k].index as int],
        ) is None by {
            assert(accepted@[k].index == pos[k]);
        }
        assert forall|k1: int, k2: int| 0 <= k1 < k2 < accepted.len() implies #[trigger] accepted@[k1].index
            < #[trigger] accepted@[k2].index by {
            assert(accepted@[k1].index == pos[k1]);
            assert(accepted@[k2].index == pos[k2]);
        }
    }
    Ok(accepted)
}

/// Among the first `n` events, the positions kept are those of exactly the
/// events whose type is "earthquake" (every other type, such as "quarry
/// blast" or "explosion", is skipped), each once, in feed order.
pub proof fn law_only_earthquakes_are_kept(events: Seq<EventFacts>, n: int)
    requires
        0 <= n <= events.len(),
    ensures
        forall|i: int|
            0 <= i < n ==> ((#[trigger] events[i]).event_type@ == "earthquake"@
                <==> earthquake_positions(events, n).contains(i)),
        forall|k: int|
            0 <= k < earthquake_positions(events, n).len() ==> 0 <= #[trigger] earthquake_positions(
                events,
                n,
            )[k] < n && events[earthquake_positions(events, n)[k]].event_type@ == "earthquake"@,
        forall|k1: int, k2: int|
            0 <= k1 < k2 < earthquake_positions(events, n).len() ==> #[trigger] earthquake_positions(
                events,
                n,
            )[k1] < #[trigger] earthquake_positions(events, n)[k2],
    decreases n,
{
    if n > 0 {
        law_only_earthquakes_are_kept(events, n - 1);
        let prev = earthquake_positions(events, n - 1);
        let cur = earthquake_positions(events, n);
        assert forall|i: int| 0 <= i < n implies ((#[trigger] events[i]).event_type@ == "earthquake"@
            <==> cur.contains(i)) by {
            if i < n - 1 {
                if events[i].event_type@ == "earthquake"@ {
                    let q = choose|q: int| 0 <= q < prev.len() && prev[q] == i;
                    if is_earthquake(events[n - 1]) {
                        assert(cur[q] == i);
                    }
                } else if cur.contains(i) {
                    let q = choose|q: int| 0 <= q < cur.len() && cur[q] == i;
                    if is_earthquake(events[n - 1]) && q == prev.len() {
                        assert(cur[q] == n - 1);
                    } else {
                        assert(prev[q] == i);
                    }
                }
            } else {
                if is_earthquake(events[n - 1]) {
                    assert(cur[prev.len() as int] == n - 1);
                } else if cur.contains(i) {
                    let q = choose|q: int| 0 <= q < cur.len() && cur[q] == i;
                    assert(prev[q] < n - 1);
                }
            }
        }
        assert forall|k: int| 0 <= k < cur.len() implies 0 <= #[trigger] cur[k] < n
            && events[cur[k]].event_type@ == "earthquake"@ by {
            if k < prev.len() {
                assert(cur[k] == prev[k]);
            }
        }
        assert forall|k1: int, k2: int| 0 <= k1 < k2 < cur.len() implies #[trigger] cur[k1]
            < #[trigger] cur[k2] by {
            if k2 < prev.len() {
                assert(cur[k1] == prev[k1] && cur[k2] == prev[k2]);
            } else {
                assert(cur[k1] == prev[k1]);
            }
        }
    }
}

/// The positions found among the first `m` events extend those among the first `n`.
proof fn lemma_earthquake_positions_prefix(events: Seq<EventFacts>, n: int, m: int)
    requires
        0 <= n <= m,
    ensures
        earthquake_positions(events, n).len() <= earthquake_positions(events, m).len(),
        forall|k: int|
            0 <= k < earthquake_positions(events, n).len() ==> earthquake_positions(events, m)[k]
                == #[trigger] earthquake_positions(events, n)[k],
    decreases m - n,
{
    if n < m {
        lemma_earthquake_positions_prefix(events, n, m - 1);
    }
}

} // verus!
