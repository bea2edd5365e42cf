//! A span of time, counted in whole seconds and nanoseconds.

use vstd::prelude::*;

verus! {

/// A span of time: whole seconds and the nanoseconds beyond them.
#[derive(Clone, Copy, Debug, PartialEq, Eq)]
pub struct Interval {
    secs: u64,
    nanos: u32,
}

impl View for Interval {
    type V = (u64, u32);

    open spec fn view(&self) -> (u64, u32) {
        (self.spec_secs(), self.spec_nanos())
    }
}

impl Interval {
    #[verifier::type_invariant]
    spec fn nanos_below_one_second(self) -> bool {
        self.nanos < 1_000_000_000
    }

    /// Whole seconds of the span.
    pub closed spec fn spec_secs(self) -> u64 {
        self.secs
    }

    /// Nanoseconds of the span beyond its whole seconds.
    pub closed spec fn spec_nanos(self) -> u32 {
        self.nanos
    }

    /// A span of exactly `secs` seconds.
    pub fn from_secs(secs: u64) -> (i: Interval)
        ensures
            i@ == (secs, 0u32),
    {
        Interval { secs, nanos: 0 }
    }

    /// A span of `secs` seconds and `nanos` nanoseconds; `nanos` below one
    /// second.
    pub fn new(secs: u64, nanos: u32) -> (i: Interval)
        requires
            nanos < 1_000_000_000,
        ensures
            i@ == (secs, nanos),
    {
        Interval { secs, nanos }
    }

    /// Whole seconds of the span.
    pub fn as_secs(&self) -> (s: u64)
        ensures
            s == self@.0,
    {
        self.secs
    }

    /// Nanoseconds beyond the whole seconds; always below one second.
    pub fn subsec_nanos(&self) -> (n: u32)
        ensures
            n == self@.1,
            n < 1_000_000_000,
    {
        proof {
            use_type_invariant(self);
        }
        self.nanos
    }
}

} // verus!
