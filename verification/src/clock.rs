//! Moments in time, as the program around the library reads them off a monotonic clock.

use vstd::prelude::*;

verus! {

/// Nanoseconds in a second.
pub const SECOND: u128 = 1_000_000_000;

/// A moment, as the nanoseconds since an origin that the caller fixes once.
#[derive(Clone, Copy, Debug, PartialEq, Eq, Structural)]
pub struct Instant {
    pub nanos: u128,
}

impl Instant {
    /// The nanoseconds from `earlier` to this moment; none when `earlier` lies after it.
    pub open spec fn elapsed_since(self, earlier: Instant) -> int {
        if earlier.nanos <= self.nanos {
            self.nanos - earlier.nanos
        } else {
            0
        }
    }

    /// The nanoseconds from `earlier` to this moment; none when `earlier` lies after it.
    pub fn duration_since(self, earlier: Instant) -> (nanos: u128)
        ensures
            nanos == self.elapsed_since(earlier),
    {
        self.nanos.saturating_sub(earlier.nanos)
    }
}

} // verus!
