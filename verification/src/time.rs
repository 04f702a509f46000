//! Spans of time as whole seconds plus nanoseconds.

use vstd::prelude::*;

verus! {

/// Nanoseconds in one second.
pub const NANOS_PER_SEC: u32 = 1_000_000_000;

/// A non-negative span of time: `secs` whole seconds and `nanos` further
/// nanoseconds.
#[derive(Clone, Copy, Debug, PartialEq, Eq, Structural)]
pub struct TimeSpan {
    pub secs: u64,
    pub nanos: u32,
}

impl TimeSpan {
    /// The span in nanoseconds.
    pub open spec fn total_nanos(self) -> int {
        self.secs * 1_000_000_000 + self.nanos
    }

    /// A span of `secs` whole seconds.
    pub fn from_secs(secs: u64) -> (r: TimeSpan)
        ensures
            r.secs == secs,
            r.nanos == 0,
            r.total_nanos() == secs * 1_000_000_000,
    {
        TimeSpan { secs, nanos: 0 }
    }

    /// Whether this span is at least as long as `other`.
    pub fn at_least(&self, other: &TimeSpan) -> (r: bool)
        ensures
            r == (self.total_nanos() >= other.total_nanos()),
    {
        assert(self.secs * 1_000_000_000 + self.nanos <= u128::MAX) by (nonlinear_arith)
            requires
                self.secs <= u64::MAX,
                self.nanos <= u32::MAX,
        ;
        assert(other.secs * 1_000_000_000 + other.nanos <= u128::MAX) by (nonlinear_arith)
            requires
                other.secs <= u64::MAX,
                other.nanos <= u32::MAX,
        ;
        let a: u128 = (self.secs as u128) * (NANOS_PER_SEC as u128) + (self.nanos as u128);
        let b: u128 = (other.secs as u128) * (NANOS_PER_SEC as u128) + (other.nanos as u128);
        a >= b
    }
}

} // verus!
