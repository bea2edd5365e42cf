use vstd::prelude::*;

verus! {

/// Labels of the management client's HTTP metrics: the HTTP method.
#[derive(Debug, Clone, PartialEq, Eq)]
pub struct MethodLabels {
    pub method: String,
}

} // verus!
