//! The controller loop's own rules: which operator instance reconciles a
//! server, and when to look again.

use vstd::prelude::*;

use crate::interval::Interval;
use crate::strings::str_eq;

verus! {

/// The finalizer the operator puts on each server.
pub const EBO_FINALIZER: &'static str = "nsp-k8s-operator.digbld.em.se.com";

/// Seconds before retrying a server whose round failed.
pub const ERROR_REQUEUE_SECS: u64 = 5;

/// Seconds before looking again at a server another instance owns.
pub const NOT_OWNER_REQUEUE_SECS: u64 = 60;

/// Only the instance that owns a server on the hash ring reconciles it,
/// except in local development (`local-dev`), where one instance does all;
/// any other instance looks again after a minute.
pub fn ownership_gate(is_owner: bool, me: &str) -> (r: Option<Interval>)
    ensures
        r is Some == (!is_owner && me@ != "local-dev"@),
        r is Some ==> r->0@ == (60u64, 0u32),
{
    if !is_owner && !str_eq(me, "local-dev") {
        Some(Interval::from_secs(NOT_OWNER_REQUEUE_SECS))
    } else {
        None
    }
}

/// A failed round is retried after five seconds.
pub fn error_requeue() -> (r: Interval)
    ensures
        r@ == (5u64, 0u32),
{
    Interval::from_secs(ERROR_REQUEUE_SECS)
}

} // verus!
