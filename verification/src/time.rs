//! Timestamps and the unit of elapsed time.
use vstd::prelude::*;

verus! {

/// Milliseconds in one second, the unit in which countdowns are displayed.
pub const MILLIS_PER_SEC: u64 = 1000;

/// A point on the caller's monotonic time line, in milliseconds since an
/// origin of the caller's choice.
#[derive(Clone, Copy, Debug, PartialEq, Eq, Structural)]
pub struct Instant {
    pub millis: u64,
}

impl View for Instant {
    type V = int;

    open spec fn view(&self) -> int {
        self.millis as int
    }
}

impl Instant {
    /// The instant `millis` milliseconds after the origin.
    pub fn from_millis(millis: u64) -> (t: Instant)
        ensures
            t@ == millis,
    {
        Instant { millis }
    }

    /// The instant `secs` whole seconds after the origin.
    pub fn from_secs(secs: u32) -> (t: Instant)
        ensures
            t@ == secs * 1000,
    {
        let wide: u64 = secs as u64;
        Instant { millis: wide * MILLIS_PER_SEC }
    }

    /// Milliseconds since the origin.
    pub fn as_millis(&self) -> (ms: u64)
        ensures
            ms == self@,
    {
        self.millis
    }

    /// This instant moved `millis` milliseconds into the future, or `None`
    /// where that instant cannot be represented.
    pub fn checked_add_millis(&self, millis: u64) -> (t: Option<Instant>)
        ensures
            t is Some <==> self@ + millis <= u64::MAX,
            t matches Some(later) ==> later@ == self@ + millis,
    {
        match self.millis.checked_add(millis) {
            Some(sum) => Some(Instant { millis: sum }),
            None => None,
        }
    }

    /// The later of two instants.
    pub fn latest(self, other: Instant) -> (t: Instant)
        ensures
            t@ == later_of(self@, other@),
    {
        if self.millis >= other.millis {
            self
        } else {
            other
        }
    }
}

/// The later of two timestamps.
pub open spec fn later_of(a: int, b: int) -> int {
    if a >= b {
        a
    } else {
        b
    }
}

} // verus!
