//! Data models and feed handling shared by the services.

pub mod earthquakes;
pub mod lightning;
