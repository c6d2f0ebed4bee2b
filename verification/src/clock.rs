//! Points in time and spans between them, counted in nanoseconds on one monotonic
//! clock.

use vstd::prelude::*;

verus! {

/// Nanoseconds in a second.
pub const NANOS_PER_SEC: u64 = 1_000_000_000;

/// A span of time.
#[derive(Debug, Clone, Copy, PartialEq, Eq, Structural)]
pub struct Duration {
    pub nanos: u64,
}

/// A point on the monotonic clock.
#[derive(Debug, Clone, Copy, PartialEq, Eq, Structural)]
pub struct Instant {
    pub nanos: u64,
}

impl Duration {
    pub open spec fn zero() -> Duration {
        Duration { nanos: 0 }
    }

    pub fn from_secs(secs: u64) -> (r: Self)
        requires
            secs * NANOS_PER_SEC <= u64::MAX,
        ensures
            r.nanos == secs * NANOS_PER_SEC,
    {
        Duration { nanos: secs * NANOS_PER_SEC }
    }

    pub fn from_millis(millis: u64) -> (r: Self)
        requires
            millis * 1_000_000 <= u64::MAX,
        ensures
            r.nanos == millis * 1_000_000,
    {
        Duration { nanos: millis * 1_000_000 }
    }
}

impl Instant {
    /// The span from `earlier` to `self`, zero when `earlier` is the later of the two.
    pub open spec fn since(self, earlier: Instant) -> Duration {
        if self.nanos >= earlier.nanos {
            Duration { nanos: (self.nanos - earlier.nanos) as u64 }
        } else {
            Duration { nanos: 0 }
        }
    }

    /// The span from `earlier` to `self`, zero when `earlier` is the later of the two.
    pub fn duration_since(&self, earlier: Instant) -> (r: Duration)
        ensures
            r == self.since(earlier),
    {
        if self.nanos >= earlier.nanos {
            Duration { nanos: self.nanos - earlier.nanos }
        } else {
            Duration { nanos: 0 }
        }
    }

    /// The point a span after `self`.
    pub fn after(&self, span: Duration) -> (r: Instant)
        requires
            self.nanos + span.nanos <= u64::MAX,
        ensures
            r.nanos == self.nanos + span.nanos,
    {
        Instant { nanos: self.nanos + span.nanos }
    }
}

/// The span from one point to a later one leads from the first to the second, and there is
/// none from a later point to an earlier one.
pub proof fn a_span_leads_from_point_to_point(earlier: Instant, later: Instant)
    ensures
        earlier.nanos <= later.nanos ==> earlier.nanos + later.since(earlier).nanos
            == later.nanos,
        later.nanos <= earlier.nanos ==> later.since(earlier).nanos == 0,
        Duration::zero().nanos == 0,
{
}

} // verus!
