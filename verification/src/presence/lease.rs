//! The reducer: deliveries in, one desired posture out.
//!
//! An engaged intent takes a lease that runs out; an idle intent ends it at once.
//! The deadline is measured from a message's arrival on the caller's own clock.

use vstd::prelude::*;

use crate::clock::{Duration, Instant, SYSTEM_CLOCK_END};
use crate::presence::body::{PresenceBody, PresenceState, PresenceView};
use crate::text::same_text;

verus! {

/// What a delivery did to the lease.
#[derive(Debug, Clone, Copy, PartialEq, Eq, Structural)]
pub enum Reduction {
    /// The lease is held, and runs out at this instant unless refreshed.
    Engaged {
        /// When the lease lapses if nothing else arrives.
        until: Instant,
    },
    /// The lease is released.
    Idle,
    /// The body was addressed to another pod; nothing changed.
    Foreign,
}

/// The desired-presence state machine for one pod.
#[derive(Debug)]
pub struct Lease {
    pod: String,
    until: Option<Instant>,
    seq: Option<u64>,
}

/// A [`Lease`] as a mathematical value.
#[verifier::ext_equal]
pub struct LeaseView {
    /// The pod whose intents are obeyed.
    pub pod: Seq<char>,
    /// When the lease lapses, if it is held.
    pub until: Option<Instant>,
    /// The last number accepted.
    pub seq: Option<u64>,
}

impl View for Lease {
    type V = LeaseView;

    closed spec fn view(&self) -> LeaseView {
        LeaseView { pod: self.pod@, until: self.until, seq: self.seq }
    }
}

/// When a lease taken at `now` for `ttl` runs out: at once, where no system clock can
/// hold the end of the term.
pub open spec fn lease_end(now: Instant, ttl: Duration) -> Instant {
    if now.nanos + ttl.nanos <= SYSTEM_CLOCK_END {
        Instant { nanos: (now.nanos + ttl.nanos) as u128 }
    } else {
        now
    }
}

/// What a delivery of `body` at `now` does to lease `s`.
pub open spec fn applied(s: LeaseView, body: PresenceView, now: Instant, ttl: Duration) -> (
    LeaseView,
    Reduction,
) {
    if body.pod != s.pod {
        (s, Reduction::Foreign)
    } else {
        match body.state {
            PresenceState::Engaged => {
                let until = lease_end(now, ttl);
                (
                    LeaseView { until: Some(until), seq: Some(body.seq), ..s },
                    Reduction::Engaged { until },
                )
            },
            PresenceState::Idle => (
                LeaseView { until: None, seq: Some(body.seq), ..s },
                Reduction::Idle,
            ),
        }
    }
}

/// The posture lease `s` asks for at `now`: engaged only while the lease is held
/// and has not lapsed.
pub open spec fn desired_at(s: LeaseView, now: Instant) -> PresenceState {
    match s.until {
        Some(until) if now.nanos < until.nanos => PresenceState::Engaged,
        _ => PresenceState::Idle,
    }
}

impl Lease {
    /// A released lease for `pod`.
    pub fn new(pod: &str) -> (r: Lease)
        ensures
            r@ == (LeaseView { pod: pod@, until: None, seq: None }),
    {
        Lease { pod: pod.to_owned(), until: None, seq: None }
    }

    /// The pod whose intents this lease obeys.
    pub fn pod(&self) -> (r: &str)
        ensures
            r@ == self@.pod,
    {
        self.pod.as_str()
    }

    /// The last accepted sequence number, if any has been accepted.
    pub fn seq(&self) -> (r: Option<u64>)
        ensures
            r == self@.seq,
    {
        self.seq
    }

    /// When the engaged lease lapses, if it is held. A deadline already past reads
    /// as idle from [`Self::desired`].
    pub fn until(&self) -> (r: Option<Instant>)
        ensures
            r == self@.until,
    {
        self.until
    }

    /// Folds one delivery in, as of `now`, with `ttl` as the term of an engaged
    /// lease.
    pub fn apply(&mut self, body: &PresenceBody, now: Instant, ttl: Duration) -> (r: Reduction)
        ensures
            (final(self)@, r) == applied(old(self)@, body@, now, ttl),
    {
        if !same_text(body.pod.as_str(), self.pod.as_str()) {
            return Reduction::Foreign;
        }
        self.seq = Some(body.seq);
        match body.state {
            PresenceState::Engaged => {
                let until = match now.checked_add(ttl) {
                    Some(until) if until.nanos <= SYSTEM_CLOCK_END => until,
                    _ => now,
                };
                self.until = Some(until);
                Reduction::Engaged { until }
            },
            PresenceState::Idle => {
                self.until = None;
                Reduction::Idle
            },
        }
    }

    /// The posture the machine should be in as of `now`.
    pub fn desired(&self, now: Instant) -> (r: PresenceState)
        ensures
            r == desired_at(self@, now),
    {
        match self.until {
            Some(until) => {
                if now.nanos < until.nanos {
                    PresenceState::Engaged
                } else {
                    PresenceState::Idle
                }
            },
            None => PresenceState::Idle,
        }
    }
}

/// A lease runs out by itself: engaged until the term that began with the
/// intent's arrival is spent, and idle from that instant on.
pub proof fn a_lease_runs_out(
    s: LeaseView,
    body: PresenceView,
    now: Instant,
    ttl: Duration,
    at: Instant,
)
    requires
        body.pod == s.pod,
        body.state == PresenceState::Engaged,
        now.nanos + ttl.nanos <= SYSTEM_CLOCK_END,
        now.nanos <= at.nanos,
    ensures
        desired_at(applied(s, body, now, ttl).0, at) == PresenceState::Engaged <==> at.nanos
            < now.nanos + ttl.nanos,
{
}

/// A refresh counts from its own arrival, whatever the lease was before.
pub proof fn a_refresh_extends_from_its_arrival(
    s: LeaseView,
    body: PresenceView,
    now: Instant,
    ttl: Duration,
)
    requires
        body.pod == s.pod,
        body.state == PresenceState::Engaged,
    ensures
        applied(s, body, now, ttl).0.until == Some(lease_end(now, ttl)),
{
}

/// An idle intent ends the lease at once and for every later instant.
pub proof fn an_idle_intent_ends_the_lease(
    s: LeaseView,
    body: PresenceView,
    now: Instant,
    ttl: Duration,
    at: Instant,
)
    requires
        body.pod == s.pod,
        body.state == PresenceState::Idle,
    ensures
        desired_at(applied(s, body, now, ttl).0, at) == PresenceState::Idle,
{
}

/// A duplicate delivered at the same instant changes nothing.
pub proof fn duplicates_are_idempotent(
    s: LeaseView,
    body: PresenceView,
    now: Instant,
    ttl: Duration,
)
    ensures
        applied(applied(s, body, now, ttl).0, body, now, ttl).0 == applied(s, body, now, ttl).0,
{
}

/// Another pod's intent moves nothing and is not recorded.
pub proof fn a_foreign_intent_changes_nothing(
    s: LeaseView,
    body: PresenceView,
    now: Instant,
    ttl: Duration,
)
    requires
        body.pod != s.pod,
    ensures
        applied(s, body, now, ttl) == (s, Reduction::Foreign),
{
}

/// The sequence number has no say in what is asked: an intent with another number
/// leaves the same lease behind, but for the number.
pub proof fn the_number_is_not_authority(
    s: LeaseView,
    body: PresenceView,
    seq: u64,
    now: Instant,
    ttl: Duration,
    at: Instant,
)
    ensures
        ({
            let renumbered = PresenceView { seq, ..body };
            &&& applied(s, body, now, ttl).1 == applied(s, renumbered, now, ttl).1
            &&& desired_at(applied(s, body, now, ttl).0, at) == desired_at(
                applied(s, renumbered, now, ttl).0,
                at,
            )
            &&& body.pod == s.pod ==> applied(s, renumbered, now, ttl).0.seq == Some(seq)
        }),
{
}

/// A term whose end no system clock can hold is idle rather than for ever.
pub proof fn an_unrepresentable_term_is_idle(
    s: LeaseView,
    body: PresenceView,
    now: Instant,
    ttl: Duration,
    at: Instant,
)
    requires
        body.pod == s.pod,
        now.nanos + ttl.nanos > SYSTEM_CLOCK_END,
        now.nanos <= at.nanos,
    ensures
        desired_at(applied(s, body, now, ttl).0, at) == PresenceState::Idle,
{
}

/// An intent for this pod is folded in whole: its number is recorded, an engaged one
/// holds the lease to the end of its term and says so, an idle one releases it.
pub proof fn an_intent_is_folded_in_whole(
    s: LeaseView,
    body: PresenceView,
    now: Instant,
    ttl: Duration,
)
    requires
        body.pod == s.pod,
    ensures
        ({
            let (n, how) = applied(s, body, now, ttl);
            &&& n.pod == s.pod
            &&& n.seq == Some(body.seq)
            &&& body.state == PresenceState::Idle ==> n.until is None && how == Reduction::Idle
            &&& body.state == PresenceState::Engaged ==> {
                &&& n.until is Some
                &&& how == (Reduction::Engaged { until: n.until->0 })
                &&& now.nanos + ttl.nanos <= 9_223_372_036_854_775_807_999_999_999
                    ==> n.until->0.nanos == now.nanos + ttl.nanos
                &&& now.nanos + ttl.nanos > 9_223_372_036_854_775_807_999_999_999
                    ==> n.until->0.nanos == now.nanos
            }
        }),
{
}

/// The posture is engaged exactly while a lease is held and its end lies ahead.
pub proof fn a_lease_is_held_up_to_its_end(s: LeaseView, at: Instant)
    ensures
        desired_at(s, at) == PresenceState::Engaged <==> s.until is Some && at.nanos
            < s.until->0.nanos,
{
}

} // verus!
