//! The decisions of the backend service's endpoints.

pub mod earthquake_selection;
pub mod earthquake_query;
pub mod errors;
pub mod locations;
pub mod config;
pub mod alerts;
