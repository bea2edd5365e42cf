//! Verified core of the EboServer Kubernetes operator: the custom resource
//! model, the per-phase state machine that decides what the operator does,
//! the effect queue that carries those decisions out, and the pure parts of
//! the management and Prometheus clients.

pub mod crd;
pub mod events;
pub mod strings;
pub mod interval;
pub mod eboserver;
pub mod labels;
pub mod clients;
pub mod config;
pub mod metrics;
pub mod controller;
pub mod utils;
