//! Validation of the earthquake endpoint's query parameters.
//!
//! The query names a centre either by a city (`location`) or by coordinates
//! (`lat` and `lon`), optionally a radius around it, a minimum magnitude and a
//! result limit. The checks on floating-point values (that coordinates are
//! finite and in range, that the radius is finite, positive and at most
//! 20001.6 km, that the minimum magnitude is finite) are made by the caller
//! and handed in as flags; which of them matter, in which order the rules
//! apply, and what the validated query is, is decided here.

use vstd::prelude::*;

use crate::backend::errors::{bad_request, ApplicationError, BAD_REQUEST};
use crate::text::{trim, trimmed};

verus! {

/// Number of events answered when the query sets no limit.
pub const DEFAULT_LIMIT: usize = 100;

/// Largest limit a query may set.
pub const MAX_LIMIT: usize = 500;

/// What validation reads of the earthquake query.
pub struct EarthquakeQueryInput {
    /// The `location` parameter, when given.
    pub location: Option<String>,
    /// Whether `lat` is given.
    pub lat_given: bool,
    /// Whether `lon` is given.
    pub lon_given: bool,
    /// Whether the given latitude and longitude are finite and within
    /// [-90, 90] and [-180, 180].
    pub coordinates_in_range: bool,
    /// When `radius_km` is given: whether it is finite, above 0 and at most 20001.6.
    pub radius_valid: Option<bool>,
    /// When `min_magnitude` is given: whether it is finite.
    pub min_magnitude_finite: Option<bool>,
    /// The `limit` parameter, when given.
    pub limit: Option<usize>,
}

/// The centre of a validated query.
pub enum EarthquakeLocation {
    /// A city name, trimmed of surrounding white space.
    City(String),
    /// The coordinates given in the query.
    Coordinates,
}

/// Which radius a validated query filters by.
#[derive(Debug, Clone, Copy, PartialEq, Eq, Structural)]
pub enum RadiusChoice {
    /// No centre was given: no distance filter.
    NoFilter,
    /// The radius the query gives.
    Requested,
    /// The default radius of 50 km.
    Default,
}

/// A query that passed validation.
pub struct ValidatedEarthquakeQuery {
    pub location: Option<EarthquakeLocation>,
    pub radius: RadiusChoice,
    /// Whether events are filtered by the query's minimum magnitude.
    pub filter_magnitude: bool,
    pub limit: usize,
}

/// The reasons a query is refused.
#[derive(Debug, Clone, Copy, PartialEq, Eq, Structural)]
pub enum QueryProblem {
    MixedLocation,
    EmptyLocation,
    CoordinatesOutOfRange,
    IncompleteCoordinates,
    RadiusWithoutLocation,
    RadiusOutOfRange,
    NonFiniteMagnitude,
    LimitOutOfRange,
}

impl QueryProblem {
    /// The message the endpoint answers with.
    pub open spec fn message(self) -> Seq<char> {
        match self {
            QueryProblem::MixedLocation => "Provide either 'location' or 'lat' and 'lon', not both"@,
            QueryProblem::EmptyLocation => "'location' must not be empty"@,
            QueryProblem::CoordinatesOutOfRange => "Latitude or longitude is out of range"@,
            QueryProblem::IncompleteCoordinates => "Provide both 'lat' and 'lon'"@,
            QueryProblem::RadiusWithoutLocation => "'radius_km' requires 'location' or 'lat' and 'lon'"@,
            QueryProblem::RadiusOutOfRange => "'radius_km' must be greater than 0 and no more than 20001.6"@,
            QueryProblem::NonFiniteMagnitude => "'min_magnitude' must be a finite number"@,
            QueryProblem::LimitOutOfRange => "'limit' must be between 1 and 500"@,
        }
    }

    pub fn text(&self) -> (r: &'static str)
        ensures
            r@ == self.message(),
    {
        match self {
            QueryProblem::MixedLocation => "Provide either 'location' or 'lat' and 'lon', not both",
            QueryProblem::EmptyLocation => "'location' must not be empty",
            QueryProblem::CoordinatesOutOfRange => "Latitude or longitude is out of range",
            QueryProblem::IncompleteCoordinates => "Provide both 'lat' and 'lon'",
            QueryProblem::RadiusWithoutLocation => "'radius_km' requires 'location' or 'lat' and 'lon'",
            QueryProblem::RadiusOutOfRange => "'radius_km' must be greater than 0 and no more than 20001.6",
            QueryProblem::NonFiniteMagnitude => "'min_magnitude' must be a finite number",
            QueryProblem::LimitOutOfRange => "'limit' must be between 1 and 500",
        }
    }
}

/// The limit a query asks for.
pub open spec fn requested_limit(q: EarthquakeQueryInput) -> usize {
    match q.limit {
        Some(l) => l,
        None => DEFAULT_LIMIT,
    }
}

/// The first rule, in the order the endpoint applies them, that a query breaks.
pub open spec fn query_problem(q: EarthquakeQueryInput) -> Option<QueryProblem> {
    let has_city = q.location is Some;
    if has_city && (q.lat_given || q.lon_given) {
        Some(QueryProblem::MixedLocation)
    } else if has_city && trim(q.location->0@).len() == 0 {
        Some(QueryProblem::EmptyLocation)
    } else if !has_city && q.lat_given && q.lon_given && !q.coordinates_in_range {
        Some(QueryProblem::CoordinatesOutOfRange)
    } else if !has_city && q.lat_given != q.lon_given {
        Some(QueryProblem::IncompleteCoordinates)
    } else if !has_city && !q.lat_given && q.radius_valid is Some {
        Some(QueryProblem::RadiusWithoutLocation)
    } else if q.radius_valid == Some(false) {
        Some(QueryProblem::RadiusOutOfRange)
    } else if q.min_magnitude_finite == Some(false) {
        Some(QueryProblem::NonFiniteMagnitude)
    } else if !(1 <= requested_limit(q) && requested_limit(q) <= MAX_LIMIT) {
        Some(QueryProblem::LimitOutOfRange)
    } else {
        None
    }
}

/// Whether a query names a centre (a city, or both coordinates).
pub open spec fn names_centre(q: EarthquakeQueryInput) -> bool {
    q.location is Some || (q.lat_given && q.lon_given)
}

/// Whether the validated query `v` is the one that the accepted query `q` asks for.
pub open spec fn validated_from(q: EarthquakeQueryInput, v: ValidatedEarthquakeQuery) -> bool {
    &&& match v.location {
        Some(EarthquakeLocation::City(city)) => q.location is Some && city@ == trim(q.location->0@),
        Some(EarthquakeLocation::Coordinates) => q.location is None && q.lat_given && q.lon_given,
        None => !names_centre(q),
    }
    &&& v.radius == (if !names_centre(q) {
        RadiusChoice::NoFilter
    } else if q.radius_valid is Some {
        RadiusChoice::Requested
    } else {
        RadiusChoice::Default
    })
    &&& v.filter_magnitude == (q.min_magnitude_finite is Some)
    &&& v.limit == requested_limit(q)
}

impl ValidatedEarthquakeQuery {
    /// Validates the earthquake endpoint's query: refuses it with a 400 answer
    /// naming the first rule it breaks, or gives the query to run.
    pub fn validate(q: EarthquakeQueryInput) -> (r: Result<ValidatedEarthquakeQuery, ApplicationError>)
        ensures
            match r {
                Ok(v) => query_problem(q) is None && validated_from(q, v) && (v.filter_magnitude
                    <==> q.min_magnitude_finite == Some(true)) && (q.limit matches Some(l)
                    ==> v.limit == l),
                Err(e) => query_problem(q) is Some && e.status == BAD_REQUEST
                    && e.message@ == query_problem(q)->0.message(),
            },
    {
        let ghost q0 = q;
        let has_city = q.location.is_some();
        if has_city && (q.lat_given || q.lon_given) {
            return Err(bad_request(QueryProblem::MixedLocation.text()));
        }
        let location = match q.location {
            Some(name) => {
                let city = trimmed(name.as_str());
                if city.as_str().unicode_len() == 0 {
                    return Err(bad_request(QueryProblem::EmptyLocation.text()));
                }
                Some(EarthquakeLocation::City(city))
            },
            None => {
                if q.lat_given && q.lon_given {
                    if !q.coordinates_in_range {
                        return Err(bad_request(QueryProblem::CoordinatesOutOfRange.text()));
                    }
                    Some(EarthquakeLocation::Coordinates)
                } else if q.lat_given || q.lon_given {
                    return Err(bad_request(QueryProblem::IncompleteCoordinates.text()));
                } else {
                    None
                }
            },
        };
        if location.is_none() && q.radius_valid.is_some() {
            return Err(bad_request(QueryProblem::RadiusWithoutLocation.text()));
        }
        if q.radius_valid == Some(false) {
            return Err(bad_request(QueryProblem::RadiusOutOfRange.text()));
        }
        if q.min_magnitude_finite == Some(false) {
            return Err(bad_request(QueryProblem::NonFiniteMagnitude.text()));
        }
        let limit = match q.limit {
            Some(l) => l,
            None => DEFAULT_LIMIT,
        };
        if !(1 <= limit && limit <= MAX_LIMIT) {
            return Err(bad_request(QueryProblem::LimitOutOfRange.text()));
        }
        let radius = if location.is_none() {
            RadiusChoice::NoFilter
        } else if q.radius_valid.is_some() {
            RadiusChoice::Requested
        } else {
            RadiusChoice::Default
        };
        assert(q0.min_magnitude_finite is Some ==> q0.min_magnitude_finite->0);
        Ok(ValidatedEarthquakeQuery {
            location,
            radius,
            filter_magnitude: q.min_magnitude_finite.is_some(),
            limit,
        })
    }
}

/// An accepted query filters by magnitude exactly when it gives a (finite)
/// minimum magnitude, whether or not it names a centre, and keeps the limit it
/// sets.
pub proof fn law_accepted_query_keeps_its_filters(q: EarthquakeQueryInput, v: ValidatedEarthquakeQuery)
    requires
        query_problem(q) is None,
        validated_from(q, v),
    ensures
        q.min_magnitude_finite == Some(true) ==> v.filter_magnitude,
        q.min_magnitude_finite is None ==> !v.filter_magnitude,
        q.limit matches Some(l) ==> v.limit == l,
        q.location is Some ==> (v.location matches Some(EarthquakeLocation::City(c)) && c@ == trim(
            q.location->0@,
        )),
        q.location is None && q.lat_given ==> v.location matches Some(
            EarthquakeLocation::Coordinates,
        ),
        q.radius_valid is Some ==> v.radius == RadiusChoice::Requested,
{
}

/// Every rule is enforced whatever else the query gives: a city with
/// coordinates, a blank city, half a coordinate pair, coordinates out of
/// range, a radius without a centre or out of range, a non-finite minimum
/// magnitude and a limit outside 1..=500 are each refused.
pub proof fn law_every_rule_is_enforced(q: EarthquakeQueryInput)
    ensures
        q.location is Some && (q.lat_given || q.lon_given) ==> query_problem(q) == Some(
            QueryProblem::MixedLocation,
        ),
        q.location matches Some(l) && trim(l@).len() == 0 ==> query_problem(q) is Some,
        q.location is None && q.lat_given != q.lon_given ==> query_problem(q) is Some,
        q.location is None && q.lat_given && q.lon_given && !q.coordinates_in_range
            ==> query_problem(q) is Some,
        q.location is None && !q.lat_given && q.radius_valid is Some ==> query_problem(q) is Some,
        q.radius_valid == Some(false) ==> query_problem(q) is Some,
        q.min_magnitude_finite == Some(false) ==> query_problem(q) is Some,
        q.limit matches Some(l) && (l == 0 || l > 500) ==> query_problem(q) is Some,
        query_problem(q) is Some && query_problem(q) != Some(QueryProblem::LimitOutOfRange)
            && query_problem(q) != Some(QueryProblem::NonFiniteMagnitude) ==> !(q.location is None
            && !q.lat_given && !q.lon_given && q.radius_valid is None),
{
}

/// Every finite minimum magnitude is accepted on its own: a query that gives
/// only a minimum magnitude (or nothing at all) breaks no rule.
pub proof fn law_magnitude_alone_is_accepted(q: EarthquakeQueryInput)
    requires
        q.location is None,
        !q.lat_given,
        !q.lon_given,
        q.radius_valid is None,
        q.min_magnitude_finite != Some(false),
        q.limit is None,
    ensures
        query_problem(q) is None,
{
}

/// An accepted query asks for between 1 and 500 events, and for 100 when it
/// sets no limit.
pub proof fn law_accepted_limit_is_bounded(q: EarthquakeQueryInput, v: ValidatedEarthquakeQuery)
    requires
        query_problem(q) is None,
        validated_from(q, v),
    ensures
        1 <= v.limit <= MAX_LIMIT,
        q.limit is None ==> v.limit == DEFAULT_LIMIT,
{
}

/// A query that names a centre and no radius filters by the default radius;
/// one that names no centre filters by no distance.
pub proof fn law_radius_follows_centre(q: EarthquakeQueryInput, v: ValidatedEarthquakeQuery)
    requires
        query_problem(q) is None,
        validated_from(q, v),
    ensures
        names_centre(q) && q.radius_valid is None ==> v.radius == RadiusChoice::Default,
        !names_centre(q) ==> v.radius == RadiusChoice::NoFilter && v.location is None,
{
}

} // verus!
