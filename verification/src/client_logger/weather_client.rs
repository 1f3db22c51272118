//! The requests the client logger makes to the WICTK service, and how it
//! reads the answers' status.

use vstd::prelude::*;

use crate::http::{is_success, is_success_status};
use crate::text::{concat2, concat3};

verus! {

/// Fetches weather data from the WICTK service.
pub struct WeatherClient {
    client: reqwest::Client,
}

impl WeatherClient {
    /// The HTTP client held.
    pub closed spec fn http_client(self) -> reqwest::Client {
        self.client
    }

    pub fn new(client: reqwest::Client) -> (r: Self)
        ensures
            r.http_client() == client,
    {
        Self { client }
    }

    /// The HTTP client the requests are made with.
    pub fn client(&self) -> (r: &reqwest::Client)
        ensures
            *r == self.http_client(),
    {
        &self.client
    }
}

/// The URL of the nowcasts for a location, below the service URL `url`.
pub fn nowcast_url(url: &str, location: &str) -> (r: String)
    ensures
        r@ == url@ + "api/nowcasts?location="@ + location@,
{
    concat3(url, "api/nowcasts?location=", location)
}

/// The URL of the recent lightning strikes, below the service URL `url`.
pub fn lightnings_url(url: &str) -> (r: String)
    ensures
        r@ == url@ + "api/recent_lightning"@,
{
    concat2(url, "api/recent_lightning")
}

/// The URL of the current weather alerts, below the service URL `url`.
pub fn alerts_url(url: &str) -> (r: String)
    ensures
        r@ == url@ + "api/alerts"@,
{
    concat2(url, "api/alerts")
}

/// The URL of the recent earthquakes, below the service URL `url`.
pub fn earthquakes_url(url: &str) -> (r: String)
    ensures
        r@ == url@ + "api/earthquakes"@,
{
    concat2(url, "api/earthquakes")
}

/// An answer of the service whose status is not a success.
#[derive(Debug, Clone, Copy, PartialEq, Eq, Structural)]
pub struct HttpStatusError {
    pub status: u16,
}

/// Accepts an answer whose status is a success; refuses any other with its status.
pub fn check_response_status(status: u16) -> (r: Result<(), HttpStatusError>)
    ensures
        is_success_status(status) ==> r is Ok,
        !is_success_status(status) ==> r == Err::<(), HttpStatusError>(HttpStatusError { status }),
{
    if is_success(status) {
        Ok(())
    } else {
        Err(HttpStatusError { status })
    }
}

} // verus!
