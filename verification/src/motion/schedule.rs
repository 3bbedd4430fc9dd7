//! The executor's state: deliveries in, one desired posture out.
//!
//! Three rules are the whole protocol. Sequence numbers order scripts: one at or
//! below the last accepted is dropped. The latest accepted script wholly replaces
//! the previous one. And every script lapses, at the timeout it named.
//!
//! Offsets are measured from a script's arrival on the caller's own clock.

use vstd::prelude::*;

use crate::clock::{self, Duration, Instant};
use crate::motion::script::{self, Base, MotionScript, Posture, ScriptView};
use crate::text::same_text;

verus! {

/// What a delivery did to the schedule.
#[derive(Debug, Clone, Copy, PartialEq, Eq, Structural)]
pub enum Acceptance {
    /// Accepted; it replaces whatever timeline was running.
    Accepted,
    /// Dropped: a redelivery or an overtaken message.
    Stale {
        /// The number the script carried.
        seq: u64,
        /// The number already accepted.
        accepted: u64,
    },
    /// Addressed to another pod; nothing changed.
    Foreign,
}

/// What the schedule asks of the machine at an instant.
#[derive(Debug, Clone, Copy, PartialEq, Eq, Structural)]
pub enum Desired {
    /// Nothing to change.
    Unchanged,
    /// The posture the running script names.
    Posture(Posture),
    /// The base is to stay where it is commanded now.
    Keep,
    /// The running script has lapsed: stow and rest.
    Expired,
}

/// The script in force, and when it landed.
#[derive(Debug)]
struct Running {
    script: MotionScript,
    received: Instant,
}

/// A script and when it landed, as a mathematical value.
pub struct RunningView {
    /// The script.
    pub script: ScriptView,
    /// When it landed.
    pub received: Instant,
}

/// Whole milliseconds from `received` to `now`, none where `now` is earlier, and the
/// most a count can hold where they are more.
pub open spec fn elapsed(received: Instant, now: Instant) -> u64 {
    let millis = clock::since(now, received) / 1_000_000;
    if millis <= u64::MAX {
        millis as u64
    } else {
        u64::MAX
    }
}

/// The instant `offset_ms` past `received`, or the clock's last where it cannot
/// represent that.
pub open spec fn instant_at(received: Instant, offset_ms: u64) -> Instant {
    match clock::moved(received, Duration { nanos: (offset_ms * 1_000_000) as u128 }) {
        Some(at) => at,
        None => Instant { nanos: u128::MAX },
    }
}

impl Running {
    spec fn as_view(self) -> RunningView {
        RunningView { script: self.script@, received: self.received }
    }

    fn elapsed_ms(&self, now: Instant) -> (r: u64)
        ensures
            r == elapsed(self.received, now),
    {
        let millis: u128 = now.saturating_duration_since(self.received).as_millis();
        if millis <= u64::MAX as u128 {
            millis as u64
        } else {
            u64::MAX
        }
    }

    fn at(&self, offset_ms: u64) -> (r: Instant)
        ensures
            r == instant_at(self.received, offset_ms),
    {
        match self.received.checked_add(Duration::from_millis(offset_ms)) {
            Some(at) => at,
            None => Instant::last(),
        }
    }
}

/// The script executor's state for one pod.
#[derive(Debug)]
pub struct Schedule {
    pod: String,
    running: Option<Running>,
    high_water: Option<u64>,
}

/// A [`Schedule`] as a mathematical value.
#[verifier::ext_equal]
pub struct ScheduleView {
    /// The pod whose scripts are obeyed.
    pub pod: Seq<char>,
    /// The script in force.
    pub running: Option<RunningView>,
    /// The highest number accepted.
    pub high_water: Option<u64>,
}

impl View for Schedule {
    type V = ScheduleView;

    closed spec fn view(&self) -> ScheduleView {
        ScheduleView {
            pod: self.pod@,
            running: match self.running {
                Some(running) => Some(running.as_view()),
                None => None,
            },
            high_water: self.high_water,
        }
    }
}

/// What a delivery of `script` at `now` does to schedule `s`.
pub open spec fn accepted(s: ScheduleView, script: ScriptView, now: Instant) -> (
    ScheduleView,
    Acceptance,
) {
    if script.pod != s.pod {
        (s, Acceptance::Foreign)
    } else {
        match s.high_water {
            Some(mark) if script.seq <= mark => (
                s,
                Acceptance::Stale { seq: script.seq, accepted: mark },
            ),
            _ => (
                ScheduleView {
                    running: Some(RunningView { script, received: now }),
                    high_water: Some(script.seq),
                    ..s
                },
                Acceptance::Accepted,
            ),
        }
    }
}

/// What schedule `s` asks for at `now`.
pub open spec fn desired_at(s: ScheduleView, now: Instant) -> Desired {
    match s.running {
        None => Desired::Unchanged,
        Some(running) => {
            let ms = elapsed(running.received, now);
            if ms >= running.script.timeout_ms {
                Desired::Expired
            } else {
                match script::base_at(running.script.steps, ms) {
                    None => Desired::Unchanged,
                    Some(Base::Posture(posture)) => Desired::Posture(posture),
                    Some(Base::Keep) => Desired::Keep,
                }
            }
        },
    }
}

/// The offset at which what is asked can next change by itself: the next step, or
/// the lapse once the steps are spent.
pub open spec fn boundary_ms(script: ScriptView, ms: u64) -> u64 {
    match script::next_step(script.steps, ms) {
        Some(step) if step < script.timeout_ms => step,
        _ => script.timeout_ms,
    }
}

/// The next instant at which what schedule `s` asks for can change by itself.
pub open spec fn boundary_at(s: ScheduleView, now: Instant) -> Option<Instant> {
    match s.running {
        None => None,
        Some(running) => {
            let ms = elapsed(running.received, now);
            if ms >= running.script.timeout_ms {
                None
            } else {
                Some(instant_at(running.received, boundary_ms(running.script, ms)))
            }
        },
    }
}

impl Schedule {
    /// An empty schedule for `pod`: nothing changes until somebody scripts it.
    pub fn new(pod: &str) -> (r: Schedule)
        ensures
            r@ == (ScheduleView { pod: pod@, running: None, high_water: None }),
    {
        Schedule { pod: pod.to_owned(), running: None, high_water: None }
    }

    /// The pod whose scripts this schedule obeys.
    pub fn pod(&self) -> (r: &str)
        ensures
            r@ == self@.pod,
    {
        self.pod.as_str()
    }

    /// The highest sequence number accepted so far, if any.
    pub fn accepted_seq(&self) -> (r: Option<u64>)
        ensures
            r == self@.high_water,
    {
        self.high_water
    }

    /// The script in force, if one is.
    pub fn running(&self) -> (r: Option<&MotionScript>)
        ensures
            match self@.running {
                Some(running) => r matches Some(script) && script@ == running.script,
                None => r is None,
            },
    {
        match &self.running {
            Some(running) => Some(&running.script),
            None => None,
        }
    }

    /// When the running script lapses, if one is running.
    pub fn expires_at(&self) -> (r: Option<Instant>)
        ensures
            r == match self@.running {
                Some(running) => Some(instant_at(running.received, running.script.timeout_ms)),
                None => None,
            },
    {
        match &self.running {
            Some(running) => Some(running.at(running.script.expiry_ms())),
            None => None,
        }
    }

    /// Takes one delivery, arriving at `now`.
    pub fn accept(&mut self, script: &MotionScript, now: Instant) -> (r: Acceptance)
        ensures
            (final(self)@, r) == accepted(old(self)@, script@, now),
    {
        if !same_text(script.pod(), self.pod.as_str()) {
            return Acceptance::Foreign;
        }
        if let Some(mark) = self.high_water {
            if script.seq() <= mark {
                return Acceptance::Stale { seq: script.seq(), accepted: mark };
            }
        }
        self.high_water = Some(script.seq());
        self.running = Some(Running { script: script.clone(), received: now });
        Acceptance::Accepted
    }

    /// What the machine should be doing as of `now`.
    pub fn desired(&self, now: Instant) -> (r: Desired)
        ensures
            r == desired_at(self@, now),
    {
        let running = match &self.running {
            Some(running) => running,
            None => {
                return Desired::Unchanged;
            },
        };
        let ms: u64 = running.elapsed_ms(now);
        if ms >= running.script.expiry_ms() {
            return Desired::Expired;
        }
        match running.script.base_at(ms) {
            None => Desired::Unchanged,
            Some(Base::Posture(posture)) => Desired::Posture(posture),
            Some(Base::Keep) => Desired::Keep,
        }
    }

    /// The script in force at `now` and how long it has been running, or `None`
    /// when nothing is running or the timeline has lapsed.
    pub fn running_at(&self, now: Instant) -> (r: Option<(&MotionScript, u64)>)
        ensures
            match self@.running {
                Some(running) => {
                    let ms = elapsed(running.received, now);
                    if ms < running.script.timeout_ms {
                        r matches Some((script, at)) && script@ == running.script && at == ms
                    } else {
                        r is None
                    }
                },
                None => r is None,
            },
    {
        match &self.running {
            Some(running) => {
                let ms: u64 = running.elapsed_ms(now);
                if ms < running.script.expiry_ms() {
                    Some((&running.script, ms))
                } else {
                    None
                }
            },
            None => None,
        }
    }

    /// The next instant at which [`Self::desired`] can change by itself, if there
    /// is one.
    pub fn next_boundary(&self, now: Instant) -> (r: Option<Instant>)
        ensures
            r == boundary_at(self@, now),
    {
        let running = match &self.running {
            Some(running) => running,
            None => {
                return None;
            },
        };
        let ms: u64 = running.elapsed_ms(now);
        let expiry: u64 = running.script.expiry_ms();
        if ms >= expiry {
            return None;
        }
        let offset: u64 = match running.script.next_step_ms(ms) {
            Some(step) => if step < expiry {
                step
            } else {
                expiry
            },
            None => expiry,
        };
        Some(running.at(offset))
    }
}

/// A script delivered a second time is dropped and changes nothing, whenever it
/// comes.
pub proof fn a_redelivery_changes_nothing(
    s: ScheduleView,
    script: ScriptView,
    now: Instant,
    later: Instant,
)
    ensures
        ({
            let once = accepted(s, script, now).0;
            accepted(once, script, later).0 == once
        }),
{
}

/// A script for another pod changes nothing.
pub proof fn a_foreign_script_changes_nothing(s: ScheduleView, script: ScriptView, now: Instant)
    requires
        script.pod != s.pod,
    ensures
        accepted(s, script, now) == (s, Acceptance::Foreign),
{
}

/// An accepted script is the whole answer: what is asked afterwards does not
/// depend on what was running before.
pub proof fn the_latest_script_wholly_replaces(
    s: ScheduleView,
    other: ScheduleView,
    script: ScriptView,
    now: Instant,
    at: Instant,
)
    requires
        accepted(s, script, now).1 == Acceptance::Accepted,
        accepted(other, script, now).1 == Acceptance::Accepted,
    ensures
        desired_at(accepted(s, script, now).0, at) == desired_at(
            accepted(other, script, now).0,
            at,
        ),
        boundary_at(accepted(s, script, now).0, at) == boundary_at(
            accepted(other, script, now).0,
            at,
        ),
{
}

/// The mark of accepted numbers never falls, and rises with every accepted script
/// to that script's number.
pub proof fn the_mark_only_climbs(s: ScheduleView, script: ScriptView, now: Instant)
    ensures
        ({
            let (n, how) = accepted(s, script, now);
            &&& s.high_water matches Some(mark) ==> (n.high_water matches Some(higher) && mark
                <= higher)
            &&& how == Acceptance::Accepted ==> n.high_water == Some(script.seq) && !(
            s.high_water matches Some(mark) && script.seq <= mark)
            &&& how != Acceptance::Accepted ==> n == s
        }),
{
}

/// A schedule that has accepted nothing accepts any script for its pod.
pub proof fn a_fresh_schedule_is_not_deaf(pod: Seq<char>, script: ScriptView, now: Instant)
    requires
        script.pod == pod,
    ensures
        accepted(ScheduleView { pod, running: None, high_water: None }, script, now).1
            == Acceptance::Accepted,
{
}

/// Every script lapses: from the timeout it named on, the schedule says so for
/// ever after, unless a new script arrives.
pub proof fn every_script_lapses(s: ScheduleView, at: Instant)
    requires
        s.running is Some,
        at.nanos >= s.running->0.received.nanos + s.running->0.script.timeout_ms * 1_000_000,
    ensures
        desired_at(s, at) == Desired::Expired,
        boundary_at(s, at) is None,
{
    let received = s.running->0.received;
    let timeout = s.running->0.script.timeout_ms;
    assert((at.nanos - received.nanos) / 1_000_000 >= timeout) by (nonlinear_arith)
        requires
            at.nanos - received.nanos >= timeout * 1_000_000,
    ;
}

/// Before the timeout it named no script lapses.
pub proof fn no_script_lapses_early(s: ScheduleView, at: Instant)
    requires
        s.running is Some,
        s.running->0.received.nanos <= at.nanos < s.running->0.received.nanos
            + s.running->0.script.timeout_ms * 1_000_000,
    ensures
        desired_at(s, at) != Desired::Expired,
        boundary_at(s, at) is Some,
{
    let received = s.running->0.received;
    let timeout = s.running->0.script.timeout_ms;
    assert((at.nanos - received.nanos) / 1_000_000 < timeout) by (nonlinear_arith)
        requires
            0 <= at.nanos - received.nanos < timeout * 1_000_000,
    ;
}

/// The next boundary lies ahead: past now, but for a clock that has reached its end,
/// and never past the lapse.
pub proof fn the_boundary_lies_ahead(s: ScheduleView, now: Instant)
    requires
        s.running is Some,
        s.running->0.script.lawful(),
        boundary_at(s, now) is Some,
    ensures
        ({
            let running = s.running->0;
            let at = boundary_at(s, now)->0;
            &&& now.nanos < at.nanos || at.nanos == u128::MAX
            &&& running.received.nanos <= at.nanos
            &&& at.nanos <= instant_at(running.received, running.script.timeout_ms).nanos
        }),
{
    let running = s.running->0;
    let script = running.script;
    let received = running.received;
    let ms = elapsed(received, now);
    let offset = boundary_ms(script, ms);
    script::the_next_step_is_the_nearest(script.steps, script.timeout_ms, ms);
    assert(ms < offset <= script.timeout_ms);
    assert(offset * 1_000_000 <= script.timeout_ms * 1_000_000) by (nonlinear_arith)
        requires
            offset <= script.timeout_ms,
    ;
    let gone = clock::since(now, received) as int;
    assert(gone < offset * 1_000_000) by (nonlinear_arith)
        requires
            gone / 1_000_000 < offset,
            gone >= 0,
    ;
}

/// What is asked does not change before the next boundary.
pub proof fn nothing_changes_before_the_boundary(s: ScheduleView, now: Instant, at: Instant)
    requires
        s.running is Some,
        s.running->0.script.lawful(),
        elapsed(s.running->0.received, now) < s.running->0.script.timeout_ms,
        now.nanos <= at.nanos < boundary_at(s, now)->0.nanos,
    ensures
        desired_at(s, at) == desired_at(s, now),
{
    let running = s.running->0;
    let script = running.script;
    let received = running.received;
    let ms = elapsed(received, now);
    let then = elapsed(received, at);
    let offset = boundary_ms(script, ms);
    script::the_next_step_is_the_nearest(script.steps, script.timeout_ms, ms);
    assert(offset * 1_000_000 <= script.timeout_ms * 1_000_000) by (nonlinear_arith)
        requires
            offset <= script.timeout_ms,
    ;
    assert(boundary_at(s, now)->0.nanos <= received.nanos + offset * 1_000_000);
    assert(then < offset) by {
        if at.nanos >= received.nanos {
            assert((at.nanos - received.nanos) / 1_000_000 < offset) by (nonlinear_arith)
                requires
                    0 <= at.nanos - received.nanos < offset * 1_000_000,
            ;
        }
    }
    assert(ms <= then) by {
        let a = clock::since(now, received) as int;
        let b = clock::since(at, received) as int;
        assert(a / 1_000_000 <= b / 1_000_000) by (nonlinear_arith)
            requires
                0 <= a <= b,
        ;
    }
    assert forall|i: int| 0 <= i < script.steps.len() implies (
    #[trigger] script.steps[i]).after_ms <= ms || script.steps[i].after_ms > then by {
        assert(script.steps[i].after_ms < script.timeout_ms);
    }
    script::the_base_changes_only_at_a_step(script.steps, ms, then);
}

/// The head is never asked for anything past the ceiling of a script's timeout.
pub proof fn exposure_is_bounded(s: ScheduleView, at: Instant)
    requires
        s.running is Some,
        s.running->0.script.lawful(),
        at.nanos >= s.running->0.received.nanos + 600_000_000_000,
    ensures
        desired_at(s, at) == Desired::Expired,
{
    let timeout = s.running->0.script.timeout_ms;
    assert(timeout * 1_000_000 <= 600_000_000_000) by (nonlinear_arith)
        requires
            timeout <= 600_000,
    ;
    every_script_lapses(s, at);
}

/// A script for this pod whose number exceeds every accepted one is taken as it is: it
/// runs from the instant it arrived, and its number is the new mark.
pub proof fn a_newer_script_is_taken(s: ScheduleView, script: ScriptView, now: Instant)
    requires
        script.pod == s.pod,
        s.high_water matches Some(mark) ==> mark < script.seq,
    ensures
        ({
            let (n, how) = accepted(s, script, now);
            &&& how == Acceptance::Accepted
            &&& n.pod == s.pod
            &&& n.high_water == Some(script.seq)
            &&& n.running matches Some(running)
            &&& running.script == script
            &&& running.received == now
        }),
{
}

/// A script for this pod at or below the mark is dropped, and the drop names both
/// numbers.
pub proof fn an_overtaken_script_is_dropped(
    s: ScheduleView,
    script: ScriptView,
    now: Instant,
    mark: u64,
)
    requires
        script.pod == s.pod,
        s.high_water == Some(mark),
        script.seq <= mark,
    ensures
        accepted(s, script, now) == (s, Acceptance::Stale { seq: script.seq, accepted: mark }),
{
}

/// Where nothing runs nothing is asked, and nothing will change by itself.
pub proof fn an_empty_schedule_asks_nothing(s: ScheduleView, now: Instant)
    requires
        s.running is None,
    ensures
        desired_at(s, now) == Desired::Unchanged,
        boundary_at(s, now) is None,
{
}

/// Between its arrival and its lapse a script is asked for by the millisecond: the last
/// step that is due and sets the base is what the machine is to do, and where none is
/// due it is to do nothing. `k` is that step, if there is one.
pub proof fn the_last_due_step_is_what_is_asked(s: ScheduleView, at: Instant, k: Option<int>)
    requires
        s.running is Some,
        s.running->0.received.nanos <= at.nanos < s.running->0.received.nanos
            + s.running->0.script.timeout_ms * 1_000_000,
        ({
            let steps = s.running->0.script.steps;
            let gone = at.nanos - s.running->0.received.nanos;
            let from = match k {
                Some(k) => k + 1,
                None => 0,
            };
            &&& k matches Some(k) ==> {
                &&& 0 <= k < steps.len()
                &&& steps[k].action is Base
                &&& steps[k].after_ms * 1_000_000 <= gone
            }
            &&& forall|i: int|
                from <= i < steps.len() ==> (#[trigger] steps[i]).action is Play
                    || steps[i].after_ms * 1_000_000 > gone
        }),
    ensures
        desired_at(s, at) == match k {
            None => Desired::Unchanged,
            Some(k) => match s.running->0.script.steps[k].action->Base_0 {
                Base::Posture(posture) => Desired::Posture(posture),
                Base::Keep => Desired::Keep,
            },
        },
{
    no_script_lapses_early(s, at);
    let running = s.running->0;
    let steps = running.script.steps;
    let gone = at.nanos - running.received.nanos;
    let ms = elapsed(running.received, at);
    assert(gone / 1_000_000 < running.script.timeout_ms) by (nonlinear_arith)
        requires
            0 <= gone < running.script.timeout_ms * 1_000_000,
    ;
    assert(ms == gone / 1_000_000);
    let from = match k {
        Some(k) => k + 1,
        None => 0,
    };
    assert forall|i: int| from <= i < steps.len() implies (#[trigger] steps[i]).action is Play
        || steps[i].after_ms > ms by {
        let after = steps[i].after_ms;
        if after * 1_000_000 > gone {
            assert(after > gone / 1_000_000) by (nonlinear_arith)
                requires
                    after * 1_000_000 > gone,
                    gone >= 0,
            ;
        }
    }
    match k {
        Some(k) => {
            let after = steps[k].after_ms;
            assert(after <= gone / 1_000_000) by (nonlinear_arith)
                requires
                    after * 1_000_000 <= gone,
            ;
            script::the_last_due_step_wins(steps, ms, k, steps[k].action->Base_0);
        },
        None => {
            script::a_motion_asks_nothing_of_the_base(steps, ms);
        },
    }
}

/// The next boundary is exactly the first step still ahead, or the lapse once every
/// step has passed, wherever the clock can represent it. `k` is that step, if there is
/// one.
pub proof fn the_boundary_is_the_next_step_or_the_lapse(s: ScheduleView, at: Instant, k: Option<int>)
    requires
        s.running is Some,
        s.running->0.script.lawful(),
        s.running->0.received.nanos <= at.nanos < s.running->0.received.nanos
            + s.running->0.script.timeout_ms * 1_000_000,
        s.running->0.received.nanos + 600_000_000_000 <= u128::MAX,
        ({
            let steps = s.running->0.script.steps;
            let gone = at.nanos - s.running->0.received.nanos;
            match k {
                Some(k) => {
                    &&& 0 <= k < steps.len()
                    &&& steps[k].after_ms * 1_000_000 > gone
                    &&& k > 0 ==> steps[k - 1].after_ms * 1_000_000 <= gone
                },
                None => steps.len() > 0 ==> steps[steps.len() - 1].after_ms * 1_000_000 <= gone,
            }
        }),
    ensures
        boundary_at(s, at) matches Some(boundary) && boundary.nanos == s.running->0.received.nanos
            + (match k {
            Some(k) => s.running->0.script.steps[k].after_ms,
            None => s.running->0.script.timeout_ms,
        }) * 1_000_000,
{
    let running = s.running->0;
    let steps = running.script.steps;
    let timeout = running.script.timeout_ms;
    let gone = at.nanos - running.received.nanos;
    let ms = elapsed(running.received, at);
    assert(gone / 1_000_000 < timeout) by (nonlinear_arith)
        requires
            0 <= gone < timeout * 1_000_000,
    ;
    assert(ms == gone / 1_000_000);
    script::the_next_step_is_the_nearest(steps, timeout, ms);
    match k {
        Some(k) => {
            let after = steps[k].after_ms;
            assert(after > gone / 1_000_000) by (nonlinear_arith)
                requires
                    after * 1_000_000 > gone,
                    gone >= 0,
            ;
            if k > 0 {
                let before = steps[k - 1].after_ms;
                assert(before <= gone / 1_000_000) by (nonlinear_arith)
                    requires
                        before * 1_000_000 <= gone,
                ;
            }
            let next = script::next_step(steps, ms)->0;
            let i = choose|i: int| 0 <= i < steps.len() && (#[trigger] steps[i]).after_ms == next;
            assert(steps[k].after_ms <= ms || next <= steps[k].after_ms);
            if i < k {
                assert(steps[i].after_ms <= steps[k - 1].after_ms);
            }
            assert(next == after);
            assert(after * 1_000_000 <= 600_000_000_000) by (nonlinear_arith)
                requires
                    after <= 600_000,
            ;
        },
        None => {
            if steps.len() > 0 {
                let last = steps[steps.len() - 1].after_ms;
                assert(last <= gone / 1_000_000) by (nonlinear_arith)
                    requires
                        last * 1_000_000 <= gone,
                ;
                if let Some(next) = script::next_step(steps, ms) {
                    let i = choose|i: int|
                        0 <= i < steps.len() && (#[trigger] steps[i]).after_ms == next;
                    assert(steps[i].after_ms <= last);
                }
            }
            assert(timeout * 1_000_000 <= 600_000_000_000) by (nonlinear_arith)
                requires
                    timeout <= 600_000,
            ;
        },
    }
}

/// Time is counted in whole milliseconds from the arrival; before it there is none.
pub proof fn time_is_counted_from_the_arrival(received: Instant, now: Instant)
    ensures
        now.nanos <= received.nanos ==> elapsed(received, now) == 0,
        now.nanos >= received.nanos && now.nanos - received.nanos < 1_000_000 * u64::MAX ==> {
            &&& elapsed(received, now) * 1_000_000 <= now.nanos - received.nanos
            &&& now.nanos - received.nanos < elapsed(received, now) * 1_000_000 + 1_000_000
        },
{
}

/// An offset past the arrival is that many milliseconds later, or the clock's end.
pub proof fn an_offset_is_milliseconds_later(received: Instant, offset_ms: u64)
    ensures
        received.nanos + offset_ms * 1_000_000 <= u128::MAX ==> instant_at(
            received,
            offset_ms,
        ).nanos == received.nanos + offset_ms * 1_000_000,
        received.nanos + offset_ms * 1_000_000 > u128::MAX ==> instant_at(
            received,
            offset_ms,
        ).nanos == u128::MAX,
{
    assert(offset_ms * 1_000_000 <= 0xffff_ffff_ffff_ffff * 1_000_000) by (nonlinear_arith)
        requires
            offset_ms <= 0xffff_ffff_ffff_ffff,
    ;
}

} // verus!
