//! The operator's configuration and its parts.

pub mod models;
pub mod metrics;
