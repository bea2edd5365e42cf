use vstd::prelude::*;

verus! {

/// Labels of the configuration's metrics: the method.
#[derive(Debug, Clone, PartialEq, Eq)]
pub struct MethodLabels {
    pub method: String,
}

} // verus!
