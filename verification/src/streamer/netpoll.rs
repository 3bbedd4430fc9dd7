//! The event loop's wait: how long it lasts and what its outcome means.

use vstd::prelude::*;

use crate::clock::{self, Duration, Instant};
use crate::text::{self, push_numeral, push_text};

verus! {

/// Period of the streamer's idle and pacing tick, in milliseconds.
pub const IDLE_TICK_MS: u64 = 10;

/// Inbound steps one wake performs before it yields for fairness.
pub const INBOUND_STEPS_PER_WAKE: u32 = 8;

/// Completed outbound frames one wake writes before it yields for fairness.
pub const OUTBOUND_FRAMES_PER_WAKE: u32 = 16;

/// The idle tick as a span.
pub fn idle_tick() -> (r: Duration)
    ensures
        r.nanos == 10_000_000,
{
    Duration::from_millis(IDLE_TICK_MS)
}

/// What one wake of `poll` reported.
#[derive(Debug)]
pub enum Readiness {
    /// One or both directions are ready.
    Ready {
        /// The transport is readable this wake.
        readable: bool,
        /// The transport is writable this wake.
        writable: bool,
    },
    /// No direction is ready: a timeout or a spurious wake.
    TimedOut,
    /// The socket is dead; the text says why.
    Fault(String),
}

impl Readiness {
    /// Inbound data can be read this wake.
    pub open spec fn is_readable(&self) -> bool {
        matches!(self, Readiness::Ready { readable: true, .. })
    }

    /// The transport has room for outbound data this wake.
    pub open spec fn is_writable(&self) -> bool {
        matches!(self, Readiness::Ready { writable: true, .. })
    }

    /// Whether inbound data can be read this wake. `false` after a timeout or a
    /// fault.
    pub fn readable(&self) -> (r: bool)
        ensures
            r == self.is_readable(),
    {
        match self {
            Readiness::Ready { readable, .. } => *readable,
            _ => false,
        }
    }

    /// Whether the transport has room for outbound data this wake. `false` after
    /// a timeout or a fault.
    pub fn writable(&self) -> (r: bool)
        ensures
            r == self.is_writable(),
    {
        match self {
            Readiness::Ready { writable, .. } => *writable,
            _ => false,
        }
    }
}

/// The text of a fault that `poll` itself reported, naming the raw mask.
pub open spec fn fault_text(revents: u32) -> Seq<char> {
    "poll reported socket fault (revents=0x"@ + text::numeral(revents as nat, 16) + ")"@
}

/// Classifies one wake from the bits that `poll` reported. A fault wins over the
/// direction bits: a half-dead socket that also reads as readable is not usable.
pub fn classify_wake(readable: bool, writable: bool, fault: Option<u32>) -> (r: Readiness)
    ensures
        match fault {
            Some(revents) => r matches Readiness::Fault(text) && text@ == fault_text(revents),
            None => if readable || writable {
                r == (Readiness::Ready { readable, writable })
            } else {
                r == Readiness::TimedOut
            },
        },
{
    match fault {
        Some(revents) => {
            let mut text = String::new();
            push_text(&mut text, "poll reported socket fault (revents=0x");
            push_numeral(&mut text, revents as u64, 16);
            push_text(&mut text, ")");
            assert(text@ =~= fault_text(revents));
            Readiness::Fault(text)
        },
        None => {
            if readable || writable {
                Readiness::Ready { readable, writable }
            } else {
                Readiness::TimedOut
            }
        },
    }
}

/// The wake as the event loop takes it: a `poll` call that failed outright is
/// the same dead socket as a fault that a successful call reported.
pub fn fold_wake(wake: Result<Readiness, String>) -> (r: Readiness)
    ensures
        match wake {
            Ok(ready) => r == ready,
            Err(text) => r == Readiness::Fault(text),
        },
{
    match wake {
        Ok(ready) => ready,
        Err(text) => Readiness::Fault(text),
    }
}

/// What a bounded wait for writability came to.
#[derive(Debug)]
pub enum Writable {
    /// Bytes may be offered.
    Ready,
    /// The budget ran out first.
    TimedOut,
    /// The socket is dead; the text says why.
    Fault(String),
}

/// How long a wait for writability may last at `now`: what is left of the budget
/// that ends at `deadline`, nothing once it has passed.
pub fn writable_budget(now: Instant, deadline: Instant) -> (r: Duration)
    ensures
        r.nanos == clock::since(deadline, now),
{
    deadline.saturating_duration_since(now)
}

/// What a wake of a wait for writability means at `now`.
///
/// The deadline is a hard bound: writability reported at or past it is a timeout,
/// so a transport that keeps claiming room while refusing bytes cannot spin.
pub fn poll_writable(wake: Readiness, now: Instant, deadline: Instant) -> (r: Writable)
    ensures
        match wake {
            Readiness::Fault(text) => r == Writable::Fault(text),
            _ => if wake.is_writable() && now.nanos < deadline.nanos {
                r == Writable::Ready
            } else {
                r == Writable::TimedOut
            },
        },
{
    match wake {
        Readiness::Fault(text) => Writable::Fault(text),
        Readiness::Ready { writable: true, .. } => {
            if now.nanos >= deadline.nanos {
                Writable::TimedOut
            } else {
                Writable::Ready
            }
        },
        _ => Writable::TimedOut,
    }
}

/// Nanoseconds until the first of `deadlines`, one tick where none is sooner.
pub open spec fn until_earliest(now: Instant, deadlines: Seq<Instant>) -> nat
    decreases deadlines.len(),
{
    if deadlines.len() == 0 {
        10_000_000
    } else {
        let rest = until_earliest(now, deadlines.drop_last());
        let last = clock::since(deadlines.last(), now);
        if last < rest {
            last
        } else {
            rest
        }
    }
}

/// A wait in whole milliseconds, never less than one.
pub open spec fn wait_nanos(remaining: nat) -> nat {
    if remaining < 1_000_000 {
        1_000_000
    } else {
        (remaining / 1_000_000) * 1_000_000
    }
}

/// How long the readiness wait may last: up to the earliest deadline, at most
/// one tick, at least one millisecond, in the whole milliseconds that `poll`
/// takes. A due deadline waits a millisecond rather than none, so that it cannot
/// spin the loop.
pub fn timeout_to_next_deadline(now: Instant, deadlines: &[Instant]) -> (r: Duration)
    ensures
        r.nanos == wait_nanos(until_earliest(now, deadlines@)),
{
    let mut remaining: u128 = 10_000_000;
    let mut i: usize = 0;
    while i < deadlines.len()
        invariant
            i <= deadlines.len(),
            remaining == until_earliest(now, deadlines@.take(i as int)),
        decreases deadlines.len() - i,
    {
        let left = deadlines[i].saturating_duration_since(now);
        proof {
            let grown = deadlines@.take(i + 1);
            assert(grown.drop_last() =~= deadlines@.take(i as int));
            assert(grown.last() == deadlines@[i as int]);
        }
        if left.nanos < remaining {
            remaining = left.nanos;
        }
        i = i + 1;
    }
    assert(deadlines@.take(i as int) =~= deadlines@);
    proof {
        the_tick_caps_the_wait(now, deadlines@);
    }
    let millis: u64 = (remaining / 1_000_000) as u64;
    if millis < 1 {
        Duration::from_millis(1)
    } else {
        Duration::from_millis(millis)
    }
}

/// Whatever is pending, the wait is at most one tick away.
pub proof fn the_tick_caps_the_wait(now: Instant, deadlines: Seq<Instant>)
    ensures
        until_earliest(now, deadlines) <= 10_000_000,
        1_000_000 <= wait_nanos(until_earliest(now, deadlines)) <= 10_000_000,
    decreases deadlines.len(),
{
    if deadlines.len() > 0 {
        the_tick_caps_the_wait(now, deadlines.drop_last());
    }
}

/// The wait never outlasts a pending deadline by more than the millisecond that
/// keeps a due one from spinning.
pub proof fn a_deadline_is_not_slept_through(now: Instant, deadlines: Seq<Instant>, i: int)
    requires
        0 <= i < deadlines.len(),
    ensures
        until_earliest(now, deadlines) <= clock::since(deadlines[i], now),
        wait_nanos(until_earliest(now, deadlines)) <= clock::since(deadlines[i], now)
            || wait_nanos(until_earliest(now, deadlines)) == 1_000_000,
    decreases deadlines.len(),
{
    if i < deadlines.len() - 1 {
        a_deadline_is_not_slept_through(now, deadlines.drop_last(), i);
        assert(deadlines.drop_last()[i] == deadlines[i]);
    }
}

/// The wait for a wake in which one deadline may be pending: none at all while
/// the loop still holds work, the clamped wait otherwise.
pub open spec fn poll_wait(now: Instant, deadline: Option<Instant>, work_pending: bool) -> nat {
    if work_pending {
        0
    } else {
        wait_nanos(
            until_earliest(
                now,
                match deadline {
                    Some(d) => seq![d],
                    None => seq![],
                },
            ),
        )
    }
}

/// Timeout of the readiness wait. Pending work yields zero, which re-polls at
/// once instead of sleeping on the tick while work remains.
pub fn poll_timeout(now: Instant, deadline: Option<Instant>, work_pending: bool) -> (r: Duration)
    ensures
        r.nanos == poll_wait(now, deadline, work_pending),
{
    if work_pending {
        Duration::zero()
    } else {
        let mut pending: Vec<Instant> = Vec::new();
        if let Some(d) = deadline {
            pending.push(d);
        }
        assert(pending@ =~= match deadline {
            Some(d) => seq![d],
            None => seq![],
        });
        timeout_to_next_deadline(now, pending.as_slice())
    }
}

/// The loop sleeps exactly when it holds no work: zero is reserved for pending
/// work, and every other wait is between one millisecond and one tick.
pub proof fn only_pending_work_polls_without_waiting(
    now: Instant,
    deadline: Option<Instant>,
    work_pending: bool,
)
    ensures
        work_pending <==> poll_wait(now, deadline, work_pending) == 0,
        !work_pending ==> 1_000_000 <= poll_wait(now, deadline, work_pending) <= 10_000_000,
{
    let pending = match deadline {
        Some(d) => seq![d],
        None => seq![],
    };
    the_tick_caps_the_wait(now, pending);
}

/// One pending deadline is waited for to the millisecond: past its end, or within a
/// millisecond of it, the wait is the one millisecond; else it is the whole milliseconds
/// up to it, and at most ten.
pub proof fn one_deadline_is_kept(now: Instant, deadline: Instant)
    ensures
        ({
            let wait = poll_wait(now, Some(deadline), false);
            &&& wait % 1_000_000 == 0
            &&& deadline.nanos < now.nanos + 2_000_000 ==> wait == 1_000_000
            &&& deadline.nanos >= now.nanos + 10_000_000 ==> wait == 10_000_000
            &&& now.nanos + 1_000_000 <= deadline.nanos <= now.nanos + 10_000_000 ==> now.nanos
                + wait <= deadline.nanos < now.nanos + wait + 1_000_000
        }),
{
    reveal_with_fuel(until_earliest, 2);
    assert(seq![deadline].drop_last() =~= seq![]);
    assert(seq![deadline].last() == deadline);
}

/// The wait is as long as the nearest deadline allows and no shorter: it is the tick, or
/// it ends with one of them.
pub proof fn the_wait_is_no_shorter_than_needed(now: Instant, deadlines: Seq<Instant>)
    ensures
        until_earliest(now, deadlines) == 10_000_000 || exists|i: int|
            0 <= i < deadlines.len() && until_earliest(now, deadlines) == (if (
            #[trigger] deadlines[i]).nanos >= now.nanos {
                deadlines[i].nanos - now.nanos
            } else {
                0
            }),
        forall|i: int|
            0 <= i < deadlines.len() && (#[trigger] deadlines[i]).nanos >= now.nanos
                ==> until_earliest(now, deadlines) <= deadlines[i].nanos - now.nanos,
        forall|i: int|
            0 <= i < deadlines.len() && (#[trigger] deadlines[i]).nanos < now.nanos
                ==> until_earliest(now, deadlines) == 0,
    decreases deadlines.len(),
{
    if deadlines.len() > 0 {
        let front = deadlines.drop_last();
        the_wait_is_no_shorter_than_needed(now, front);
        let last = deadlines.len() - 1;
        assert(deadlines[last] == deadlines.last());
        if until_earliest(now, front) != 10_000_000 {
            let i = choose|i: int|
                0 <= i < front.len() && until_earliest(now, front) == (if (
                #[trigger] front[i]).nanos >= now.nanos {
                    front[i].nanos - now.nanos
                } else {
                    0
                });
            assert(deadlines[i] == front[i]);
        }
        assert forall|i: int|
            0 <= i < deadlines.len() && (#[trigger] deadlines[i]).nanos
                >= now.nanos implies until_earliest(now, deadlines) <= deadlines[i].nanos
            - now.nanos by {
            if i < last {
                assert(front[i] == deadlines[i]);
            }
        }
        assert forall|i: int|
            0 <= i < deadlines.len() && (#[trigger] deadlines[i]).nanos
                < now.nanos implies until_earliest(now, deadlines) == 0 by {
            if i < last {
                assert(front[i] == deadlines[i]);
            }
        }
        the_tick_caps_the_wait(now, deadlines);
    }
}

/// A wait is cut to whole milliseconds, by less than one of them, and is never less than
/// one.
pub proof fn a_wait_is_cut_to_whole_milliseconds(remaining: nat)
    ensures
        wait_nanos(remaining) % 1_000_000 == 0,
        remaining < 1_000_000 ==> wait_nanos(remaining) == 1_000_000,
        remaining >= 1_000_000 ==> wait_nanos(remaining) <= remaining < wait_nanos(remaining)
            + 1_000_000,
{
}

/// A wake counts as readable or writable exactly where the wait said so: a timeout and a
/// fault are neither.
pub proof fn only_a_ready_wake_is_ready(wake: Readiness)
    ensures
        wake.is_readable() == match wake {
            Readiness::Ready { readable, .. } => readable,
            Readiness::TimedOut => false,
            Readiness::Fault(_) => false,
        },
        wake.is_writable() == match wake {
            Readiness::Ready { writable, .. } => writable,
            Readiness::TimedOut => false,
            Readiness::Fault(_) => false,
        },
{
}

/// A fault is named by its raw mask, in hexadecimal.
pub proof fn a_fault_names_its_mask(revents: u32)
    ensures
        fault_text(revents) == "poll reported socket fault (revents=0x"@ + text::numeral(
            revents as nat,
            16,
        ) + ")"@,
{
}

} // verus!
