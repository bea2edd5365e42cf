//! The `EboServer` custom resource (version `v1alpha6`): its spec, its status
//! and the enumerations that appear in them.

pub mod v1alpha6;
