//! Labels of the operator's own metrics.

pub mod reconcile;
