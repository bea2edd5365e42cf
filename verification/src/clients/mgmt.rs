//! The management API that each server exposes.

pub mod client;
pub mod config;
pub mod error;
pub mod metrics;

pub use client::MGMTClient;
pub use config::{MGMTConfig, MGMTSel};
pub use error::MGMTError;
