//! The Prometheus HTTP API, for volume statistics.

pub mod client;
pub mod config;
pub mod error;
pub mod metrics;
pub mod models;

pub use client::PrometheusClient;
pub use config::{PrometheusConfig, PrometheusSel};
pub use error::PrometheusError;
