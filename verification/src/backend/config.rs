//! The backend service's settings.

use vstd::prelude::*;

use crate::log_level::LogLevel;

verus! {

/// The backend service's settings.
pub struct Opts {
    /// Address to listen on.
    pub host: String,
    /// OpenWeatherMap API key.
    pub apikey: String,
    pub log_level: LogLevel,
}

} // verus!
