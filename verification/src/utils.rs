//! Small utilities of the operator.

pub mod ebo_version;
