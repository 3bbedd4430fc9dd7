//! The wait of `poll` on one descriptor.
//!
//! A signal that interrupts the wait costs the caller the time that has passed and
//! nothing else: the wait goes on with what is left of its budget.

use vstd::prelude::*;

use crate::clock::{self, Duration, Instant};
use crate::streamer::link::PollInterest;
use crate::streamer::netpoll::{self, classify_wake, Readiness};

verus! {

/// Bits of an event mask, as the platform numbers them.
#[derive(Debug, Clone, Copy, PartialEq, Eq, Structural)]
pub struct PollBits {
    /// Readable.
    pub pollin: i16,
    /// Writable.
    pub pollout: i16,
    /// In error.
    pub pollerr: i16,
    /// Hung up.
    pub pollhup: i16,
    /// No open descriptor.
    pub pollnval: i16,
}

/// The poll shim. It has no state of its own.
#[derive(Debug, Clone, Copy, PartialEq, Eq, Structural)]
pub struct LibcPoll;

/// How one call of `poll` ended.
#[derive(Debug, PartialEq, Eq)]
pub enum PollCall {
    /// It returned with these events, none where its time ran out.
    Returned(i16),
    /// A signal interrupted it; the clock now.
    Interrupted(Instant),
    /// It failed.
    Failed(String),
}

/// What follows a call of `poll`.
#[derive(Debug)]
pub enum PollNext {
    /// Call it again, for this many milliseconds.
    Again(i32),
    /// The wait is over.
    Done(Readiness),
    /// The wait failed.
    Failed(String),
}

/// A wait that ends at a deadline.
#[derive(Debug, Clone, Copy, PartialEq, Eq, Structural)]
pub struct PollWait {
    /// When its budget is spent.
    pub deadline: Instant,
}

/// A budget as `poll` takes it: whole milliseconds, no more than fit.
pub open spec fn poll_millis(nanos: nat) -> i32 {
    if nanos / 1_000_000 > i32::MAX {
        i32::MAX
    } else {
        (nanos / 1_000_000) as i32
    }
}

/// The mask that waits on a wake's directions.
pub open spec fn wanted_events(bits: PollBits, interest: PollInterest) -> i16 {
    (if interest.read {
        bits.pollin
    } else {
        0
    }) | (if interest.write {
        bits.pollout
    } else {
        0
    })
}

/// The events that mean a dead socket.
pub open spec fn fault_events(bits: PollBits) -> i16 {
    bits.pollerr | bits.pollhup | bits.pollnval
}

/// `ready` is what `revents` mean: a fault where any of its bits is set, whatever
/// else is.
pub open spec fn means(bits: PollBits, revents: i16, ready: Readiness) -> bool {
    let readable = revents & bits.pollin != 0;
    let writable = revents & bits.pollout != 0;
    if revents & fault_events(bits) != 0 {
        ready matches Readiness::Fault(text) && text@ == netpoll::fault_text(revents as u32)
    } else if readable || writable {
        ready == (Readiness::Ready { readable, writable })
    } else {
        ready == Readiness::TimedOut
    }
}

fn budget_millis(budget: Duration) -> (r: i32)
    ensures
        r == poll_millis(budget.nanos as nat),
{
    let millis: u128 = budget.as_millis();
    if millis > 0x7fff_ffff {
        i32::MAX
    } else {
        millis as i32
    }
}

impl LibcPoll {
    /// The mask that waits on a wake's directions.
    pub fn events(bits: PollBits, interest: PollInterest) -> (r: i16)
        ensures
            r == wanted_events(bits, interest),
    {
        let read: i16 = if interest.read {
            bits.pollin
        } else {
            0
        };
        let write: i16 = if interest.write {
            bits.pollout
        } else {
            0
        };
        read | write
    }

    /// Begins a wait of at most `timeout`: the wait, and the milliseconds of its
    /// first call. A budget under a millisecond is a check that does not wait.
    pub fn begin(now: Instant, timeout: Duration) -> (r: (PollWait, i32))
        requires
            clock::moved(now, timeout) is Some,
        ensures
            Some(r.0.deadline) == clock::moved(now, timeout),
            r.1 == poll_millis(timeout.nanos as nat),
    {
        let deadline = Instant { nanos: now.nanos + timeout.nanos };
        (PollWait { deadline }, budget_millis(timeout))
    }

    /// What the events of a wake mean.
    pub fn classify(bits: PollBits, revents: i16) -> (r: Readiness)
        ensures
            means(bits, revents, r),
    {
        let fault = if revents & (bits.pollerr | bits.pollhup | bits.pollnval) != 0 {
            Some(#[verifier::truncate] (revents as u32))
        } else {
            None
        };
        classify_wake(revents & bits.pollin != 0, revents & bits.pollout != 0, fault)
    }
}

impl PollWait {
    /// What follows a call of `poll`. An interrupted wait goes on for what is left
    /// of its budget; where nothing is left, that is the same as running out of
    /// time.
    pub fn on_call(&self, bits: PollBits, call: PollCall) -> (r: PollNext)
        ensures
            match call {
                PollCall::Returned(revents) => r matches PollNext::Done(ready) && means(
                    bits,
                    revents,
                    ready,
                ),
                PollCall::Interrupted(now) => if now.nanos < self.deadline.nanos {
                    r == PollNext::Again(poll_millis(clock::since(self.deadline, now)))
                } else {
                    r matches PollNext::Done(ready) && means(bits, 0, ready)
                },
                PollCall::Failed(why) => r == PollNext::Failed(why),
            },
    {
        match call {
            PollCall::Returned(revents) => PollNext::Done(LibcPoll::classify(bits, revents)),
            PollCall::Interrupted(now) => {
                let remaining = self.deadline.saturating_duration_since(now);
                if remaining.nanos == 0 {
                    return PollNext::Done(LibcPoll::classify(bits, 0));
                }
                PollNext::Again(budget_millis(remaining))
            },
            PollCall::Failed(why) => PollNext::Failed(why),
        }
    }
}

/// No events are a timeout.
pub proof fn no_events_are_a_timeout(bits: PollBits, ready: Readiness)
    requires
        means(bits, 0, ready),
    ensures
        ready == Readiness::TimedOut,
{
    let pollin = bits.pollin;
    let pollout = bits.pollout;
    let faults = fault_events(bits);
    assert(0i16 & pollin == 0) by (bit_vector);
    assert(0i16 & pollout == 0) by (bit_vector);
    assert(0i16 & faults == 0) by (bit_vector);
}

/// However often a wait is interrupted, it does not outlast its deadline: what it
/// goes on for, counted from now, ends there at the latest.
pub proof fn an_interrupted_wait_keeps_its_deadline(wait: PollWait, now: Instant)
    requires
        now.nanos < wait.deadline.nanos,
    ensures
        now.nanos + poll_millis(clock::since(wait.deadline, now)) * 1_000_000
            <= wait.deadline.nanos,
        poll_millis(clock::since(wait.deadline, now)) >= 0,
{
    let left = clock::since(wait.deadline, now);
    assert((left / 1_000_000) * 1_000_000 <= left) by (nonlinear_arith);
}

/// A budget is handed to `poll` in whole milliseconds, the rest dropped, and the most it
/// takes where there are more.
pub proof fn a_budget_is_cut_to_what_poll_takes(nanos: nat)
    ensures
        ({
            let millis = poll_millis(nanos);
            &&& 0 <= millis
            &&& nanos < 2_147_483_648_000_000 ==> millis * 1_000_000 <= nanos < millis * 1_000_000
                + 1_000_000
            &&& nanos >= 2_147_483_648_000_000 ==> millis == 2_147_483_647
        }),
{
}

/// The mask waits on exactly the directions that are wanted.
pub proof fn a_mask_waits_on_what_is_wanted(bits: PollBits, interest: PollInterest)
    ensures
        !interest.read && !interest.write ==> wanted_events(bits, interest) == 0,
        interest.read && !interest.write ==> wanted_events(bits, interest) == bits.pollin,
        !interest.read && interest.write ==> wanted_events(bits, interest) == bits.pollout,
        interest.read && interest.write ==> wanted_events(bits, interest) == bits.pollin
            | bits.pollout,
{
    let pollin = bits.pollin;
    let pollout = bits.pollout;
    assert(0i16 | 0i16 == 0i16) by (bit_vector);
    assert(pollin | 0i16 == pollin) by (bit_vector);
    assert(0i16 | pollout == pollout) by (bit_vector);
}

/// Any one of the three fault events makes a dead socket, whatever else was reported.
/// Without one the wake is ready in the directions that were reported, and with neither
/// it ran out.
pub proof fn events_mean_what_they_say(bits: PollBits, revents: i16, ready: Readiness)
    requires
        means(bits, revents, ready),
    ensures
        ({
            let fault = revents & bits.pollerr != 0 || revents & bits.pollhup != 0 || revents
                & bits.pollnval != 0;
            let readable = revents & bits.pollin != 0;
            let writable = revents & bits.pollout != 0;
            &&& fault <==> ready is Fault
            &&& !fault && (readable || writable) <==> ready == (Readiness::Ready {
                readable,
                writable,
            })
            &&& !fault && !readable && !writable <==> ready == Readiness::TimedOut
        }),
{
    let e = bits.pollerr;
    let h = bits.pollhup;
    let n = bits.pollnval;
    assert(revents & (e | h | n) != 0 <==> revents & e != 0 || revents & h != 0 || revents & n != 0)
        by (bit_vector);
}

} // verus!
