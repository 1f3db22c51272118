//! The sensors the client logger stores readings under.

use vstd::prelude::*;

verus! {

/// The HEMRS sensor ids of each kind of reading.
#[derive(Debug, Clone, Copy, PartialEq, Eq, Structural)]
pub struct SensorIds {
    pub temperature: i32,
    pub humidity: i32,
    pub wind_speed: i32,
    pub wind_deg: i32,
    pub precipitation_rate: i32,
    pub precipitation_amount: i32,
    pub wind_speed_gust: i32,
    pub feels_like: i32,
    pub pressure: i32,
    pub clouds: i32,
    pub visibility: i32,
    pub lon: i32,
    pub lat: i32,
    pub alert_count: i32,
    pub earthquake_depth: i32,
    pub earthquake_magnitude: i32,
    pub earthquake_significance: i32,
    pub earthquake_tsunami: i32,
}

/// A sensor known to HEMRS.
pub struct Sensor {
    pub id: i32,
    pub name: String,
    pub unit: String,
}

} // verus!
