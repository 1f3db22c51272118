//! How the endpoints read where a request is about: a city name, or a pair of
//! coordinates given as text; and what a geocoding lookup answers.

use vstd::prelude::*;

use crate::backend::errors::{ApplicationError, BAD_REQUEST, INTERNAL_SERVER_ERROR, NOT_FOUND};

verus! {

/// A place given by name (e.g. "Oslo").
pub struct City {
    pub location: String,
}

/// A place given by coordinates, as the text of the request.
pub struct CoordinatesAsString {
    pub lat: String,
    pub lon: String,
}

/// Where a request is about.
pub enum LocationQuery {
    Location(City),
    Coordinates(CoordinatesAsString),
}

/// Query parameters for location-based endpoints.
pub struct LocationParams {
    /// Location name (e.g., "Oslo")
    pub location: Option<String>,
    /// Latitude coordinate
    pub lat: Option<String>,
    /// Longitude coordinate
    pub lon: Option<String>,
}

/// Query parameters of the alerts endpoint.
pub struct AlertQuery {
    /// Optional location name (e.g., "Oslo")
    pub location: Option<String>,
    /// Optional latitude coordinate
    pub lat: Option<String>,
    /// Optional longitude coordinate
    pub lon: Option<String>,
}

/// Whether `r` is what the parameters `location`, `lat` and `lon` name: the
/// city when a location is given, else the coordinates when both are given,
/// else nothing.
pub open spec fn names_location(
    location: Option<String>,
    lat: Option<String>,
    lon: Option<String>,
    r: Option<LocationQuery>,
) -> bool {
    if location is Some {
        r matches Some(LocationQuery::Location(city)) && Some(city.location) == location
    } else if lat is Some && lon is Some {
        r matches Some(LocationQuery::Coordinates(c)) && Some(c.lat) == lat && Some(c.lon) == lon
    } else {
        r is None
    }
}

fn location_query_of(location: Option<String>, lat: Option<String>, lon: Option<String>) -> (r:
    Option<LocationQuery>)
    ensures
        names_location(location, lat, lon, r),
{
    if let Some(location) = location {
        Some(LocationQuery::Location(City { location }))
    } else if let (Some(lat), Some(lon)) = (lat, lon) {
        Some(LocationQuery::Coordinates(CoordinatesAsString { lat, lon }))
    } else {
        None
    }
}

/// A location name wins whatever coordinates come with it; coordinates name
/// the place only when both are given; a request names no place exactly when
/// it gives no name and misses a coordinate.
pub proof fn law_location_name_wins(
    location: Option<String>,
    lat: Option<String>,
    lon: Option<String>,
    r: Option<LocationQuery>,
)
    requires
        names_location(location, lat, lon, r),
    ensures
        location matches Some(n) ==> (r matches Some(LocationQuery::Location(c)) && c.location == n),
        location is None && lat is Some && lon is Some ==> (r matches Some(
            LocationQuery::Coordinates(c),
        ) && Some(c.lat) == lat && Some(c.lon) == lon),
        r is None <==> (location is None && (lat is None || lon is None)),
{
}

/// The message of the 400 answer to a request that names no place.
pub open spec fn missing_location_message() -> Seq<char> {
    "Missing location parameter. Provide 'location' or 'lat' and 'lon'"@
}

impl LocationParams {
    /// The place the parameters name: a location name wins over coordinates,
    /// which need both `lat` and `lon`.
    pub fn into_location_query(self) -> (r: Option<LocationQuery>)
        ensures
            names_location(self.location, self.lat, self.lon, r),
    {
        location_query_of(self.location, self.lat, self.lon)
    }

    /// The place the parameters name, or the 400 answer when they name none.
    pub fn require_location_query(self) -> (r: Result<LocationQuery, ApplicationError>)
        ensures
            match r {
                Ok(q) => names_location(self.location, self.lat, self.lon, Some(q)),
                Err(e) => names_location(self.location, self.lat, self.lon, None) && e.status
                    == BAD_REQUEST && e.message@ == missing_location_message(),
            },
            r is Err <==> (self.location is None && (self.lat is None || self.lon is None)),
    {
        match self.into_location_query() {
            Some(q) => Ok(q),
            None => Err(
                ApplicationError::new(
                    "Missing location parameter. Provide 'location' or 'lat' and 'lon'",
                    BAD_REQUEST,
                ),
            ),
        }
    }
}

impl AlertQuery {
    /// The place the alert query names, if any: a location name wins over
    /// coordinates, which need both `lat` and `lon`.
    pub fn into_location_query(self) -> (r: Option<LocationQuery>)
        ensures
            names_location(self.location, self.lat, self.lon, r),
    {
        location_query_of(self.location, self.lat, self.lon)
    }
}

/// The message of the 500 answer when the geocoding provider fails.
pub open spec fn lookup_failed_message() -> Seq<char> {
    "Failed to get location data from OpenWeatherMap"@
}

/// The message of the 404 answer when the geocoding provider knows no such place.
pub open spec fn no_location_message() -> Seq<char> {
    "No location found"@
}

/// What a location lookup answers, given what the geocoding provider gave
/// back (nothing when it failed): its first match, a 500 answer when the
/// provider failed, or a 404 answer when it found nothing.
pub fn location_from_lookup<T>(fetched: Option<Vec<T>>) -> (r: Result<T, ApplicationError>)
    ensures
        match fetched {
            None => r matches Err(e) && e.status == INTERNAL_SERVER_ERROR && e.message@
                == lookup_failed_message(),
            Some(found) => if found.len() == 0 {
                r matches Err(e) && e.status == NOT_FOUND && e.message@ == no_location_message()
            } else {
                r == Ok::<T, ApplicationError>(found@[0])
            },
        },
{
    match fetched {
        None => Err(
            ApplicationError::new(
                "Failed to get location data from OpenWeatherMap",
                INTERNAL_SERVER_ERROR,
            ),
        ),
        Some(mut found) => {
            if found.len() == 0 {
                Err(ApplicationError::new("No location found", NOT_FOUND))
            } else {
                Ok(found.remove(0))
            }
        },
    }
}

} // verus!
