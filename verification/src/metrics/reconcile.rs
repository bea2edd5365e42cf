use vstd::prelude::*;

use crate::eboserver::error::{metric_label_spec, EboServerError};

verus! {

/// Labels of a reconcile run: the server's name and namespace.
#[derive(Debug, Clone, PartialEq, Eq)]
pub struct ReconcileLabels {
    pub ebo_name: String,
    pub ebo_ns: String,
}

/// Labels of a failed reconcile: the server and the kind of failure.
#[derive(Debug, Clone, PartialEq, Eq)]
pub struct ErrorLabels {
    pub instance: String,
    pub error: String,
}

/// The labels under which a failure of the server `instance` is counted:
/// the server, and the failure's metric label.
pub fn failure_labels(instance: String, e: &EboServerError) -> (l: ErrorLabels)
    ensures
        l.instance == instance,
        l.error@ == metric_label_spec(*e),
{
    ErrorLabels { instance, error: e.metric_label() }
}

} // verus!
