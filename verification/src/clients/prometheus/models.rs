use vstd::prelude::*;

verus! {

/// Statistics of a volume, in bytes; each may be missing.
#[derive(Debug, Clone, Copy, PartialEq, Eq)]
pub struct VolumeStats {
    pub capacity_bytes: Option<u64>,
    pub used_bytes: Option<u64>,
    pub available_bytes: Option<u64>,
}

} // verus!
