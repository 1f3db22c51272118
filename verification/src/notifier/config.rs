//! The notifier's settings and the request it polls alerts with.

use vstd::prelude::*;

use crate::log_level::LogLevel;
use crate::text::concat3;

verus! {

/// The notifier's settings.
pub struct Opts {
    /// Ntfy server URL
    pub ntfy_url: String,
    /// WICTK API alerts endpoint
    pub alerts_url: String,
    /// Notification topic
    pub topic: String,
    /// Log level
    pub log_level: LogLevel,
    /// Sleep duration between checks (in seconds)
    pub sleep: u64,
    /// Location (city name or coordinates)
    pub location: String,
}

/// The URL the notifier fetches the alerts for a location from.
pub fn met_alerts_url(url: &str, location: &str) -> (r: String)
    ensures
        r@ == url@ + "?location="@ + location@,
{
    concat3(url, "?location=", location)
}

} // verus!
