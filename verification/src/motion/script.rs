//! A timed motion script.
//!
//! A script is whose head it is about, an ordering number, and a timeline: steps
//! at offsets from the script's arrival and the timeout after which the head goes
//! back down. The timeout is an unconditional ceiling: every step falls strictly
//! inside it, and a script that says otherwise is refused whole.

use vstd::prelude::*;

use crate::text::{self, push_decimal, push_text};

verus! {

/// The largest timeout any script may name: ten minutes.
pub const MAX_TIMEOUT_MS: u64 = 600_000;

/// A posture the head can be asked to take.
#[derive(Debug, Clone, Copy, PartialEq, Eq, Structural)]
pub enum Posture {
    /// Head up and attending.
    Up,
    /// Head stowed.
    Stow,
}

impl Posture {
    /// The posture as the wire spells it.
    pub open spec fn spelling(self) -> Seq<char> {
        match self {
            Posture::Up => "up"@,
            Posture::Stow => "stow"@,
        }
    }

    /// The posture as the wire spells it.
    pub fn as_str(self) -> (r: &'static str)
        ensures
            r@ == self.spelling(),
    {
        match self {
            Posture::Up => "up",
            Posture::Stow => "stow",
        }
    }
}

/// What a step asks of the head's base position.
#[derive(Debug, Clone, Copy, PartialEq, Eq, Structural)]
pub enum Base {
    /// Take a posture.
    Posture(Posture),
    /// Stay where the head is commanded now.
    Keep,
}

/// A motion played on top of the base.
#[derive(Debug, PartialEq, Eq)]
pub struct Play {
    /// Which motion.
    pub motion: String,
}

impl Play {
    /// The motion called `motion`.
    pub fn new(motion: &str) -> (r: Play)
        ensures
            r.motion@ == motion@,
    {
        Play { motion: motion.to_owned() }
    }
}

/// What a step does.
#[derive(Debug, PartialEq, Eq)]
pub enum Action {
    /// Sets the base.
    Base(Base),
    /// Starts a motion and leaves the base alone.
    Play(Play),
}

/// One action, due at an offset from the script's arrival.
#[derive(Debug, PartialEq, Eq)]
pub struct Step {
    /// Milliseconds after receipt at which the step comes due.
    pub after_ms: u64,
    /// What it does.
    pub action: Action,
}

/// An [`Action`] as a mathematical value.
pub enum ActionView {
    /// Sets the base.
    Base(Base),
    /// Starts a motion.
    Play(Seq<char>),
}

/// A [`Step`] as a mathematical value.
pub struct StepView {
    /// Milliseconds after receipt.
    pub after_ms: u64,
    /// What the step does.
    pub action: ActionView,
}

impl View for Step {
    type V = StepView;

    open spec fn view(&self) -> StepView {
        StepView {
            after_ms: self.after_ms,
            action: match self.action {
                Action::Base(base) => ActionView::Base(base),
                Action::Play(play) => ActionView::Play(play.motion@),
            },
        }
    }
}

impl Step {
    /// A step that names `posture` at `after_ms` past receipt.
    pub fn new(after_ms: u64, posture: Posture) -> (r: Step)
        ensures
            r@ == posture_step(after_ms, posture),
    {
        Step { after_ms, action: Action::Base(Base::Posture(posture)) }
    }

    /// A step that asks the base to stay where it is from `after_ms` past receipt.
    pub fn keep(after_ms: u64) -> (r: Step)
        ensures
            r@ == (StepView { after_ms, action: ActionView::Base(Base::Keep) }),
    {
        Step { after_ms, action: Action::Base(Base::Keep) }
    }

    /// A step that starts a motion at `after_ms` past receipt.
    pub fn play(after_ms: u64, play: Play) -> (r: Step)
        ensures
            r@ == (StepView { after_ms, action: ActionView::Play(play.motion@) }),
    {
        Step { after_ms, action: Action::Play(play) }
    }
}

impl Clone for Step {
    fn clone(&self) -> (r: Step)
        ensures
            r@ == self@,
    {
        let action = match &self.action {
            Action::Base(base) => Action::Base(*base),
            Action::Play(play) => Action::Play(Play { motion: play.motion.clone() }),
        };
        Step { after_ms: self.after_ms, action }
    }
}

/// A step that names a posture.
pub open spec fn posture_step(after_ms: u64, posture: Posture) -> StepView {
    StepView { after_ms, action: ActionView::Base(Base::Posture(posture)) }
}

/// The steps as mathematical values.
pub open spec fn steps_view(steps: Seq<Step>) -> Seq<StepView> {
    steps.map_values(|s: Step| s@)
}

/// Why a timeline is refused.
#[derive(Debug, Clone, Copy, PartialEq, Eq, Structural)]
pub enum ScriptError {
    /// A timeout of zero.
    TimeoutNotPositive {
        /// What the script asked for.
        timeout_ms: u64,
    },
    /// Steps out of order, or two at one instant.
    StepsNotAscending {
        /// Which step broke the order.
        index: usize,
        /// Its offset.
        after_ms: u64,
        /// The offset it should have exceeded.
        previous_ms: u64,
    },
    /// The last step is not strictly inside the timeout.
    TimelinePastTimeout {
        /// The last step's offset.
        last_ms: u64,
        /// The timeout it had to fall inside.
        timeout_ms: u64,
    },
    /// The timeout exceeds [`MAX_TIMEOUT_MS`].
    TimeoutPastCeiling {
        /// What the script asked for.
        timeout_ms: u64,
    },
}

/// The refusal as operators read it.
pub open spec fn script_error_text(e: ScriptError) -> Seq<char> {
    match e {
        ScriptError::TimeoutNotPositive { timeout_ms } => "`timeout_ms` is "@ + text::decimal(
            timeout_ms as nat,
        ) + "; a script's timeout must be positive"@,
        ScriptError::StepsNotAscending { index, after_ms, previous_ms } => "step "@ + text::decimal(
            index as nat,
        ) + " is at "@ + text::decimal(after_ms as nat)
            + " ms, at or before its predecessor's "@ + text::decimal(previous_ms as nat) + " ms"@,
        ScriptError::TimelinePastTimeout { last_ms, timeout_ms } => "the last step is at "@
            + text::decimal(last_ms as nat) + " ms, at or past the script's own "@ + text::decimal(
            timeout_ms as nat,
        ) + " ms timeout"@,
        ScriptError::TimeoutPastCeiling { timeout_ms } => "`timeout_ms` is "@ + text::decimal(
            timeout_ms as nat,
        ) + "; no script may exceed 600000 ms"@,
    }
}

impl ScriptError {
    /// The refusal as operators read it.
    pub fn text(&self) -> (r: String)
        ensures
            r@ == script_error_text(*self),
    {
        let mut out = String::new();
        match self {
            ScriptError::TimeoutNotPositive { timeout_ms } => {
                push_text(&mut out, "`timeout_ms` is ");
                push_decimal(&mut out, *timeout_ms);
                push_text(&mut out, "; a script's timeout must be positive");
            },
            ScriptError::StepsNotAscending { index, after_ms, previous_ms } => {
                push_text(&mut out, "step ");
                push_decimal(&mut out, *index as u64);
                push_text(&mut out, " is at ");
                push_decimal(&mut out, *after_ms);
                push_text(&mut out, " ms, at or before its predecessor's ");
                push_decimal(&mut out, *previous_ms);
                push_text(&mut out, " ms");
            },
            ScriptError::TimelinePastTimeout { last_ms, timeout_ms } => {
                push_text(&mut out, "the last step is at ");
                push_decimal(&mut out, *last_ms);
                push_text(&mut out, " ms, at or past the script's own ");
                push_decimal(&mut out, *timeout_ms);
                push_text(&mut out, " ms timeout");
            },
            ScriptError::TimeoutPastCeiling { timeout_ms } => {
                push_text(&mut out, "`timeout_ms` is ");
                push_decimal(&mut out, *timeout_ms);
                push_text(&mut out, "; no script may exceed 600000 ms");
            },
        }
        assert(out@ =~= script_error_text(*self));
        out
    }
}

/// The first step from `from` on that does not come after its predecessor.
pub open spec fn first_disorder(steps: Seq<StepView>, from: int) -> Option<int>
    decreases steps.len() - from,
{
    if from >= steps.len() {
        None
    } else if steps[from].after_ms <= steps[from - 1].after_ms {
        Some(from)
    } else {
        first_disorder(steps, from + 1)
    }
}

/// Why a timeline is refused, where it is: the timeout's own bounds first, then
/// the order of the steps, then the last step against the timeout.
pub open spec fn refusal(steps: Seq<StepView>, timeout_ms: u64) -> Option<ScriptError> {
    if timeout_ms == 0 {
        Some(ScriptError::TimeoutNotPositive { timeout_ms })
    } else if timeout_ms > MAX_TIMEOUT_MS {
        Some(ScriptError::TimeoutPastCeiling { timeout_ms })
    } else {
        match first_disorder(steps, 1) {
            Some(i) => Some(
                ScriptError::StepsNotAscending {
                    index: i as usize,
                    after_ms: steps[i].after_ms,
                    previous_ms: steps[i - 1].after_ms,
                },
            ),
            None => if steps.len() > 0 && steps.last().after_ms >= timeout_ms {
                Some(
                    ScriptError::TimelinePastTimeout { last_ms: steps.last().after_ms, timeout_ms },
                )
            } else {
                None
            },
        }
    }
}

/// A timeline that can be executed: its timeout is positive and within the
/// ceiling, its steps ascend, and each falls strictly inside the timeout.
pub open spec fn lawful(steps: Seq<StepView>, timeout_ms: u64) -> bool {
    &&& 0 < timeout_ms <= MAX_TIMEOUT_MS
    &&& forall|i: int, j: int|
        0 <= i < j < steps.len() ==> (#[trigger] steps[i]).after_ms < (
        #[trigger] steps[j]).after_ms
    &&& forall|i: int| 0 <= i < steps.len() ==> (#[trigger] steps[i]).after_ms < timeout_ms
}

proof fn order_from(steps: Seq<StepView>, from: int)
    requires
        1 <= from,
    ensures
        match first_disorder(steps, from) {
            Some(i) => {
                &&& from <= i < steps.len()
                &&& steps[i].after_ms <= steps[i - 1].after_ms
            },
            None => forall|i: int|
                from <= i < steps.len() ==> steps[i - 1].after_ms < (#[trigger] steps[i]).after_ms,
        },
    decreases steps.len() - from,
{
    if from < steps.len() && steps[from].after_ms > steps[from - 1].after_ms {
        order_from(steps, from + 1);
    }
}

proof fn ascending(steps: Seq<StepView>, i: int, j: int)
    requires
        forall|k: int|
            1 <= k < steps.len() ==> steps[k - 1].after_ms < (#[trigger] steps[k]).after_ms,
        0 <= i < j < steps.len(),
    ensures
        steps[i].after_ms < steps[j].after_ms,
    decreases j - i,
{
    if i + 1 < j {
        ascending(steps, i, j - 1);
    }
    assert(steps[j - 1].after_ms < steps[j].after_ms);
}

/// A timeline is refused exactly when it is not lawful.
pub proof fn only_lawful_timelines_pass(steps: Seq<StepView>, timeout_ms: u64)
    ensures
        refusal(steps, timeout_ms) is None <==> lawful(steps, timeout_ms),
{
    order_from(steps, 1);
    match first_disorder(steps, 1) {
        Some(i) => {
            assert(steps[i - 1].after_ms >= steps[i].after_ms);
        },
        None => {
            assert forall|i: int, j: int| 0 <= i < j < steps.len() implies (
            #[trigger] steps[i]).after_ms < (#[trigger] steps[j]).after_ms by {
                ascending(steps, i, j);
            }
            if steps.len() > 0 {
                let last = steps.len() - 1;
                assert(steps[last].after_ms == steps.last().after_ms);
            }
        },
    }
}

/// The rules a script has to keep, in one place so that the constructor and the
/// decoder cannot disagree about a script.
pub fn validate(steps: &Vec<Step>, timeout_ms: u64) -> (r: Result<(), ScriptError>)
    ensures
        r == match refusal(steps_view(steps@), timeout_ms) {
            Some(e) => Err::<(), ScriptError>(e),
            None => Ok(()),
        },
{
    if timeout_ms == 0 {
        return Err(ScriptError::TimeoutNotPositive { timeout_ms });
    }
    if timeout_ms > MAX_TIMEOUT_MS {
        return Err(ScriptError::TimeoutPastCeiling { timeout_ms });
    }
    let ghost views = steps_view(steps@);
    if steps.len() == 0 {
        return Ok(());
    }
    let mut index: usize = 1;
    while index < steps.len()
        invariant
            1 <= index <= steps.len(),
            views == steps_view(steps@),
            first_disorder(views, 1) == first_disorder(views, index as int),
            0 < timeout_ms <= MAX_TIMEOUT_MS,
        decreases steps.len() - index,
    {
        let after_ms: u64 = steps[index].after_ms;
        let previous_ms: u64 = steps[index - 1].after_ms;
        assert(views[index as int].after_ms == after_ms);
        assert(views[index - 1].after_ms == previous_ms);
        if after_ms <= previous_ms {
            return Err(ScriptError::StepsNotAscending { index, after_ms, previous_ms });
        }
        index = index + 1;
    }
    let last_ms: u64 = steps[steps.len() - 1].after_ms;
    assert(views.last().after_ms == last_ms);
    if last_ms >= timeout_ms {
        return Err(ScriptError::TimelinePastTimeout { last_ms, timeout_ms });
    }
    Ok(())
}

/// One motion script, addressed to one pod. A value of this type is always a
/// lawful timeline.
#[derive(Debug, PartialEq, Eq)]
pub struct MotionScript {
    pod: String,
    seq: u64,
    steps: Vec<Step>,
    timeout_ms: u64,
}

/// A [`MotionScript`] as a mathematical value.
#[verifier::ext_equal]
pub struct ScriptView {
    /// Whose head it is about.
    pub pod: Seq<char>,
    /// Its ordering number.
    pub seq: u64,
    /// The timeline.
    pub steps: Seq<StepView>,
    /// How long after receipt it lapses.
    pub timeout_ms: u64,
}

impl ScriptView {
    /// The timeline can be executed.
    pub open spec fn lawful(self) -> bool {
        lawful(self.steps, self.timeout_ms)
    }
}

impl View for MotionScript {
    type V = ScriptView;

    closed spec fn view(&self) -> ScriptView {
        ScriptView {
            pod: self.pod@,
            seq: self.seq,
            steps: steps_view(self.steps@),
            timeout_ms: self.timeout_ms,
        }
    }
}

/// The base as of `elapsed_ms`: what the last due step that sets it said.
pub open spec fn base_at(steps: Seq<StepView>, elapsed_ms: u64) -> Option<Base>
    decreases steps.len(),
{
    if steps.len() == 0 {
        None
    } else {
        match steps.last().action {
            ActionView::Base(base) if steps.last().after_ms <= elapsed_ms => Some(base),
            _ => base_at(steps.drop_last(), elapsed_ms),
        }
    }
}

/// The offset of the first step still ahead of `elapsed_ms`.
pub open spec fn next_step(steps: Seq<StepView>, elapsed_ms: u64) -> Option<u64>
    decreases steps.len(),
{
    if steps.len() == 0 {
        None
    } else if steps[0].after_ms > elapsed_ms {
        Some(steps[0].after_ms)
    } else {
        next_step(steps.drop_first(), elapsed_ms)
    }
}

impl MotionScript {
    #[verifier::type_invariant]
    spec fn is_lawful(&self) -> bool {
        lawful(steps_view(self.steps@), self.timeout_ms)
    }

    /// A script for `pod`, numbered `seq`, running `steps` under `timeout_ms`.
    /// Refuses the timelines that decoding refuses.
    pub fn new(pod: &str, seq: u64, steps: Vec<Step>, timeout_ms: u64) -> (r: Result<
        MotionScript,
        ScriptError,
    >)
        ensures
            match refusal(steps_view(steps@), timeout_ms) {
                Some(e) => r == Err::<MotionScript, ScriptError>(e),
                None => r matches Ok(script) && script@ == (ScriptView {
                    pod: pod@,
                    seq,
                    steps: steps_view(steps@),
                    timeout_ms,
                }),
            },
    {
        proof {
            only_lawful_timelines_pass(steps_view(steps@), timeout_ms);
        }
        match validate(&steps, timeout_ms) {
            Err(e) => Err(e),
            Ok(()) => Ok(MotionScript { pod: pod.to_owned(), seq, steps, timeout_ms }),
        }
    }

    /// Whose head this script is about.
    pub fn pod(&self) -> (r: &str)
        ensures
            r@ == self@.pod,
    {
        self.pod.as_str()
    }

    /// This script's ordering number.
    pub fn seq(&self) -> (r: u64)
        ensures
            r == self@.seq,
    {
        self.seq
    }

    /// The timeline, ascending by offset.
    pub fn steps(&self) -> (r: &[Step])
        ensures
            steps_view(r@) == self@.steps,
            self@.lawful(),
    {
        proof {
            use_type_invariant(self);
        }
        self.steps.as_slice()
    }

    /// How long after receipt the script lapses.
    pub fn timeout_ms(&self) -> (r: u64)
        ensures
            r == self@.timeout_ms,
    {
        self.timeout_ms
    }

    /// What the script asks of the base `elapsed_ms` after it arrived: the last due
    /// step that sets it, so that steps whose time had passed collapse into the one
    /// that matters. A motion that was started since does not change it.
    pub fn base_at(&self, elapsed_ms: u64) -> (r: Option<Base>)
        ensures
            r == base_at(self@.steps, elapsed_ms),
    {
        let mut n: usize = self.steps.len();
        let ghost all = self@.steps;
        assert(all.take(n as int) =~= all);
        while n > 0
            invariant
                n <= self.steps@.len(),
                all == steps_view(self.steps@),
                base_at(all, elapsed_ms) == base_at(all.take(n as int), elapsed_ms),
            decreases n,
        {
            let step = &self.steps[n - 1];
            proof {
                let here = all.take(n as int);
                assert(here.last() == step@);
                assert(here.drop_last() =~= all.take(n - 1));
            }
            if let Action::Base(base) = &step.action {
                if step.after_ms <= elapsed_ms {
                    return Some(*base);
                }
            }
            n = n - 1;
        }
        None
    }

    /// The posture this script asks for `elapsed_ms` after it arrived, or `None`
    /// while none has come due or the base is to stay.
    pub fn posture_at(&self, elapsed_ms: u64) -> (r: Option<Posture>)
        ensures
            r == match base_at(self@.steps, elapsed_ms) {
                Some(Base::Posture(posture)) => Some(posture),
                _ => None,
            },
    {
        match self.base_at(elapsed_ms) {
            Some(Base::Posture(posture)) => Some(posture),
            _ => None,
        }
    }

    /// The offset of the first step still ahead of `elapsed_ms`, if any.
    pub fn next_step_ms(&self, elapsed_ms: u64) -> (r: Option<u64>)
        ensures
            r == next_step(self@.steps, elapsed_ms),
    {
        let mut i: usize = 0;
        let ghost all = self@.steps;
        assert(all.skip(0) =~= all);
        while i < self.steps.len()
            invariant
                i <= self.steps@.len(),
                all == steps_view(self.steps@),
                next_step(all, elapsed_ms) == next_step(all.skip(i as int), elapsed_ms),
            decreases self.steps@.len() - i,
        {
            let after_ms: u64 = self.steps[i].after_ms;
            proof {
                let here = all.skip(i as int);
                assert(here[0] == all[i as int]);
                assert(here.drop_first() =~= all.skip(i + 1));
            }
            if after_ms > elapsed_ms {
                return Some(after_ms);
            }
            i = i + 1;
        }
        None
    }

    /// The offset at which this script lapses: the timeout it named, and nothing
    /// else.
    pub fn expiry_ms(&self) -> (r: u64)
        ensures
            r == self@.timeout_ms,
            self@.lawful(),
    {
        proof {
            use_type_invariant(self);
        }
        self.timeout_ms
    }
}

impl Clone for MotionScript {
    fn clone(&self) -> (r: MotionScript)
        ensures
            r@ == self@,
    {
        proof {
            use_type_invariant(self);
        }
        let mut steps: Vec<Step> = Vec::new();
        let mut i: usize = 0;
        while i < self.steps.len()
            invariant
                i <= self.steps@.len(),
                steps_view(steps@) == steps_view(self.steps@).take(i as int),
            decreases self.steps@.len() - i,
        {
            let ghost before = steps@;
            steps.push(self.steps[i].clone());
            assert(steps_view(steps@) =~= steps_view(before).push(self.steps@[i as int]@));
            i = i + 1;
            assert(steps_view(steps@) =~= steps_view(self.steps@).take(i as int));
        }
        assert(steps_view(steps@) =~= steps_view(self.steps@));
        MotionScript {
            pod: self.pod.clone(),
            seq: self.seq,
            steps,
            timeout_ms: self.timeout_ms,
        }
    }
}

/// No script exposes the head for longer than the ceiling, and no step waits at
/// its lapse.
pub proof fn exposure_is_bounded(script: ScriptView, i: int)
    requires
        script.lawful(),
        0 <= i < script.steps.len(),
    ensures
        script.steps[i].after_ms < script.timeout_ms <= MAX_TIMEOUT_MS,
{
}

/// Before the first step nothing is asked.
pub proof fn nothing_is_asked_before_the_first_step(steps: Seq<StepView>, elapsed_ms: u64)
    requires
        forall|i: int| 0 <= i < steps.len() ==> (#[trigger] steps[i]).after_ms > elapsed_ms,
    ensures
        base_at(steps, elapsed_ms) is None,
    decreases steps.len(),
{
    if steps.len() > 0 {
        let front = steps.drop_last();
        assert forall|i: int| 0 <= i < front.len() implies (#[trigger] front[i]).after_ms
            > elapsed_ms by {
            assert(front[i] == steps[i]);
        }
        assert(steps[steps.len() - 1].after_ms > elapsed_ms);
        nothing_is_asked_before_the_first_step(front, elapsed_ms);
    }
}

/// The next step is a step of the timeline, ahead of the clock, and no step lies
/// between the clock and it.
pub proof fn the_next_step_is_the_nearest(steps: Seq<StepView>, timeout_ms: u64, elapsed_ms: u64)
    requires
        lawful(steps, timeout_ms),
    ensures
        match next_step(steps, elapsed_ms) {
            Some(at) => {
                &&& elapsed_ms < at < timeout_ms
                &&& exists|i: int| 0 <= i < steps.len() && (#[trigger] steps[i]).after_ms == at
                &&& forall|i: int|
                    0 <= i < steps.len() ==> (#[trigger] steps[i]).after_ms <= elapsed_ms || at
                        <= steps[i].after_ms
            },
            None => forall|i: int|
                0 <= i < steps.len() ==> (#[trigger] steps[i]).after_ms <= elapsed_ms,
        },
    decreases steps.len(),
{
    if steps.len() > 0 && steps[0].after_ms <= elapsed_ms {
        let rest = steps.drop_first();
        assert forall|i: int, j: int| 0 <= i < j < rest.len() implies (
        #[trigger] rest[i]).after_ms < (#[trigger] rest[j]).after_ms by {
            assert(rest[i] == steps[i + 1]);
            assert(rest[j] == steps[j + 1]);
        }
        assert forall|i: int| 0 <= i < rest.len() implies (#[trigger] rest[i]).after_ms
            < timeout_ms by {
            assert(rest[i] == steps[i + 1]);
        }
        the_next_step_is_the_nearest(rest, timeout_ms, elapsed_ms);
        assert forall|i: int| 0 <= i < steps.len() implies match next_step(steps, elapsed_ms) {
            Some(at) => (#[trigger] steps[i]).after_ms <= elapsed_ms || at <= steps[i].after_ms,
            None => steps[i].after_ms <= elapsed_ms,
        } by {
            if i > 0 {
                assert(rest[i - 1] == steps[i]);
            }
        }
    }
}

/// What is asked of the base stays the same for as long as no step comes due.
pub proof fn the_base_changes_only_at_a_step(steps: Seq<StepView>, from_ms: u64, to_ms: u64)
    requires
        from_ms <= to_ms,
        forall|i: int|
            0 <= i < steps.len() ==> (#[trigger] steps[i]).after_ms <= from_ms
                || steps[i].after_ms > to_ms,
    ensures
        base_at(steps, from_ms) == base_at(steps, to_ms),
    decreases steps.len(),
{
    if steps.len() > 0 {
        let front = steps.drop_last();
        assert forall|i: int| 0 <= i < front.len() implies (#[trigger] front[i]).after_ms
            <= from_ms || front[i].after_ms > to_ms by {
            assert(front[i] == steps[i]);
        }
        assert(steps[steps.len() - 1].after_ms <= from_ms || steps[steps.len() - 1].after_ms
            > to_ms);
        the_base_changes_only_at_a_step(front, from_ms, to_ms);
    }
}

/// Where some step that sets the base is due, what it asks for is what the last of
/// them named, whatever the steps in front of it named.
pub proof fn the_last_due_step_wins(steps: Seq<StepView>, elapsed_ms: u64, k: int, base: Base)
    requires
        0 <= k < steps.len(),
        steps[k].action == ActionView::Base(base),
        steps[k].after_ms <= elapsed_ms,
        forall|i: int|
            k < i < steps.len() ==> (#[trigger] steps[i]).action is Play || steps[i].after_ms
                > elapsed_ms,
    ensures
        base_at(steps, elapsed_ms) == Some(base),
    decreases steps.len(),
{
    let last = steps.len() - 1;
    if k < last {
        assert(steps[last].action is Play || steps[last].after_ms > elapsed_ms);
        let front = steps.drop_last();
        assert(front[k] == steps[k]);
        assert forall|i: int| k < i < front.len() implies (#[trigger] front[i]).action is Play
            || front[i].after_ms > elapsed_ms by {
            assert(front[i] == steps[i]);
        }
        the_last_due_step_wins(front, elapsed_ms, k, base);
    }
}

/// Nothing is asked of the base for as long as no step that sets it is due: a motion
/// that is played asks for none.
pub proof fn a_motion_asks_nothing_of_the_base(steps: Seq<StepView>, elapsed_ms: u64)
    requires
        forall|i: int|
            0 <= i < steps.len() ==> (#[trigger] steps[i]).action is Play || steps[i].after_ms
                > elapsed_ms,
    ensures
        base_at(steps, elapsed_ms) is None,
    decreases steps.len(),
{
    if steps.len() > 0 {
        let last = steps.len() - 1;
        assert(steps[last].action is Play || steps[last].after_ms > elapsed_ms);
        let front = steps.drop_last();
        assert forall|i: int| 0 <= i < front.len() implies (#[trigger] front[i]).action is Play
            || front[i].after_ms > elapsed_ms by {
            assert(front[i] == steps[i]);
        }
        a_motion_asks_nothing_of_the_base(front, elapsed_ms);
    }
}

proof fn order_up_to(steps: Seq<StepView>, from: int, k: int)
    requires
        1 <= from <= k < steps.len(),
        first_disorder(steps, from) matches Some(i) ==> k < i,
    ensures
        steps[k - 1].after_ms < steps[k].after_ms,
    decreases steps.len() - from,
{
    if from < k {
        order_up_to(steps, from + 1, k);
    }
}

/// A timeline passes exactly where its timeout is positive and at most ten minutes,
/// every step comes after the one before it, and the last comes before the timeout.
pub proof fn a_timeline_passes_by_its_own_terms(steps: Seq<StepView>, timeout_ms: u64)
    ensures
        refusal(steps, timeout_ms) is None <==> {
            &&& 1 <= timeout_ms <= 600_000
            &&& forall|i: int|
                1 <= i < steps.len() ==> steps[i - 1].after_ms < (#[trigger] steps[i]).after_ms
            &&& steps.len() > 0 ==> steps[steps.len() - 1].after_ms < timeout_ms
        },
{
    order_from(steps, 1);
}

/// A refusal names what is wrong, with the numbers that are wrong: a timeout that is
/// none or too long before anything else, then the first step that does not come after
/// its predecessor, then a last step that the timeout cuts off.
pub proof fn a_refusal_names_what_is_wrong(steps: Seq<StepView>, timeout_ms: u64)
    requires
        steps.len() <= usize::MAX,
    ensures
        timeout_ms == 0 <==> refusal(steps, timeout_ms) == Some(
            ScriptError::TimeoutNotPositive { timeout_ms: 0 },
        ),
        timeout_ms > 600_000 <==> refusal(steps, timeout_ms) == Some(
            ScriptError::TimeoutPastCeiling { timeout_ms },
        ),
        1 <= timeout_ms <= 600_000 ==> match refusal(steps, timeout_ms) {
            Some(ScriptError::StepsNotAscending { index, after_ms, previous_ms }) => {
                &&& 1 <= index < steps.len()
                &&& after_ms == steps[index as int].after_ms
                &&& previous_ms == steps[index - 1].after_ms
                &&& after_ms <= previous_ms
                &&& forall|i: int|
                    1 <= i < index ==> steps[i - 1].after_ms < (#[trigger] steps[i]).after_ms
            },
            Some(ScriptError::TimelinePastTimeout { last_ms, timeout_ms: named }) => {
                &&& named == timeout_ms
                &&& steps.len() > 0
                &&& last_ms == steps[steps.len() - 1].after_ms
                &&& last_ms >= timeout_ms
                &&& forall|i: int|
                    1 <= i < steps.len() ==> steps[i - 1].after_ms < (
                    #[trigger] steps[i]).after_ms
            },
            Some(_) => false,
            None => true,
        },
{
    order_from(steps, 1);
    if 1 <= timeout_ms <= 600_000 {
        if let Some(at) = first_disorder(steps, 1) {
            assert forall|i: int| 1 <= i < at implies steps[i - 1].after_ms < (
            #[trigger] steps[i]).after_ms by {
                order_up_to(steps, 1, i);
            }
        }
    }
}

/// The two postures are called by their own names.
pub proof fn a_posture_has_its_own_name()
    ensures
        Posture::Up.spelling() == "up"@,
        Posture::Stow.spelling() == "stow"@,
{
}

/// A refusal is told with the numbers it is about.
pub proof fn a_refusal_tells_its_numbers(index: usize, a: u64, b: u64)
    ensures
        script_error_text(ScriptError::TimeoutNotPositive { timeout_ms: a }) == "`timeout_ms` is "@
            + text::decimal(a as nat) + "; a script's timeout must be positive"@,
        script_error_text(ScriptError::TimeoutPastCeiling { timeout_ms: a }) == "`timeout_ms` is "@
            + text::decimal(a as nat) + "; no script may exceed 600000 ms"@,
        script_error_text(
            ScriptError::StepsNotAscending { index, after_ms: a, previous_ms: b },
        ) == "step "@ + text::decimal(index as nat) + " is at "@ + text::decimal(a as nat)
            + " ms, at or before its predecessor's "@ + text::decimal(b as nat) + " ms"@,
        script_error_text(ScriptError::TimelinePastTimeout { last_ms: a, timeout_ms: b })
            == "the last step is at "@ + text::decimal(a as nat)
            + " ms, at or past the script's own "@ + text::decimal(b as nat) + " ms timeout"@,
{
}

/// A step is its offset and its action as they are, and a timeline its steps in order.
pub proof fn a_step_is_its_offset_and_action(
    step: Step,
    steps: Seq<Step>,
    i: int,
    after_ms: u64,
    posture: Posture,
)
    requires
        0 <= i < steps.len(),
    ensures
        step@.after_ms == step.after_ms,
        step.action matches Action::Base(base) ==> step@.action == ActionView::Base(base),
        step.action matches Action::Play(play) ==> step@.action == ActionView::Play(play.motion@),
        posture_step(after_ms, posture).after_ms == after_ms,
        posture_step(after_ms, posture).action == ActionView::Base(Base::Posture(posture)),
        steps_view(steps).len() == steps.len(),
        steps_view(steps)[i] == steps[i]@,
{
}

} // verus!
