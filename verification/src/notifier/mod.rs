//! The notifier service: turning weather alerts into notifications and
//! remembering which were sent.

pub mod notifications;
pub mod config;
