//! Points and spans of a monotonic clock, counted in nanoseconds.
//!
//! An [`Instant`] counts from whatever origin the caller's clock has; only
//! differences between instants of one clock mean anything.

use vstd::prelude::*;

verus! {

/// Nanoseconds to the last instant that a system clock can hold: it counts its seconds
/// in 63 bits.
pub const SYSTEM_CLOCK_END: u128 = 9_223_372_036_854_775_807_999_999_999;

/// A span of time.
#[derive(Debug, Clone, Copy, PartialEq, Eq, PartialOrd, Ord, Structural)]
pub struct Duration {
    /// Length of the span in nanoseconds.
    pub nanos: u128,
}

/// A point on the caller's monotonic clock.
#[derive(Debug, Clone, Copy, PartialEq, Eq, PartialOrd, Ord, Structural)]
pub struct Instant {
    /// Nanoseconds since the clock's origin.
    pub nanos: u128,
}

impl Duration {
    /// No time at all.
    pub fn zero() -> (r: Duration)
        ensures
            r.nanos == 0,
    {
        Duration { nanos: 0 }
    }

    /// The longest span there is; no instant past the clock's origin can be moved by
    /// it.
    pub fn max() -> (r: Duration)
        ensures
            r.nanos == u128::MAX,
    {
        Duration { nanos: u128::MAX }
    }

    /// A span of whole milliseconds.
    pub fn from_millis(millis: u64) -> (r: Duration)
        ensures
            r.nanos == millis * 1_000_000,
    {
        Duration { nanos: millis as u128 * 1_000_000 }
    }

    /// A span of whole microseconds.
    pub fn from_micros(micros: u64) -> (r: Duration)
        ensures
            r.nanos == micros * 1_000,
    {
        Duration { nanos: micros as u128 * 1_000 }
    }

    /// A span of whole seconds.
    pub fn from_secs(secs: u64) -> (r: Duration)
        ensures
            r.nanos == secs * 1_000_000_000,
    {
        Duration { nanos: secs as u128 * 1_000_000_000 }
    }

    /// The span in whole milliseconds, the remainder dropped.
    pub fn as_millis(&self) -> (r: u128)
        ensures
            r == self.nanos as int / 1_000_000,
    {
        self.nanos / 1_000_000
    }
}

impl Instant {
    /// The last instant the clock can represent.
    pub fn last() -> (r: Instant)
        ensures
            r.nanos == u128::MAX,
    {
        Instant { nanos: u128::MAX }
    }

    /// The instant `nanos` nanoseconds past the clock's origin.
    pub fn from_nanos(nanos: u128) -> (r: Instant)
        ensures
            r.nanos == nanos,
    {
        Instant { nanos }
    }

    /// This instant moved later by `span`, or `None` where the clock cannot
    /// represent the result.
    pub fn checked_add(&self, span: Duration) -> (r: Option<Instant>)
        ensures
            r == moved(*self, span),
    {
        if span.nanos <= u128::MAX - self.nanos {
            Some(Instant { nanos: self.nanos + span.nanos })
        } else {
            None
        }
    }

    /// The span from `earlier` to this instant, empty when `earlier` is later.
    pub fn saturating_duration_since(&self, earlier: Instant) -> (r: Duration)
        ensures
            r.nanos == since(*self, earlier),
    {
        if self.nanos >= earlier.nanos {
            Duration { nanos: self.nanos - earlier.nanos }
        } else {
            Duration { nanos: 0 }
        }
    }
}

/// `at` moved later by `span`, where the clock can represent it.
pub open spec fn moved(at: Instant, span: Duration) -> Option<Instant> {
    if at.nanos + span.nanos <= u128::MAX {
        Some(Instant { nanos: (at.nanos + span.nanos) as u128 })
    } else {
        None
    }
}

/// Nanoseconds from `earlier` to `at`, zero when `earlier` is later.
pub open spec fn since(at: Instant, earlier: Instant) -> nat {
    if at.nanos >= earlier.nanos {
        (at.nanos - earlier.nanos) as nat
    } else {
        0
    }
}

/// An instant moved by a span lies exactly the span later, and the span from the one to
/// the other is that span again; it cannot be moved past the clock's end.
pub proof fn moving_and_measuring_agree(at: Instant, span: Duration)
    ensures
        moved(at, span) matches Some(then) ==> {
            &&& then.nanos == at.nanos + span.nanos
            &&& since(then, at) == span.nanos
            &&& span.nanos > 0 ==> since(at, then) == 0
        },
        moved(at, span) is None <==> at.nanos + span.nanos > u128::MAX,
{
}

/// The span between two instants is their difference, and none where the second is the
/// earlier.
pub proof fn a_span_is_the_difference(at: Instant, earlier: Instant)
    ensures
        earlier.nanos <= at.nanos ==> since(at, earlier) == at.nanos - earlier.nanos,
        earlier.nanos > at.nanos ==> since(at, earlier) == 0,
{
}

} // verus!
