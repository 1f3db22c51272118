//! Verified core of the WICTK weather and environmental event services.

pub mod backend;
pub mod client_logger;
pub mod feeds;
pub mod http;
pub mod log_level;
pub mod notifier;
pub mod external;
pub mod text;
