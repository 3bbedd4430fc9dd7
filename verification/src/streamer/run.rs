//! The streamer's outer cycle: keep a connection, wait for readiness or a voice
//! onset, drain inbound playback, open a segment and run it.
//!
//! [`StreamerLoop`] holds the decisions. Each turn names one [`LoopAction`];
//! whoever drives the loop performs it and hands back the [`LoopEvent`] that came
//! of it.

use vstd::prelude::*;

use crate::clock::{Duration, Instant};
use crate::streamer::idle::{
    self, arm_reconnect_deadline, next_jitter_seed, should_attempt_idle_connect,
    IdleConnectAction, Pacing, SocketDuty,
};
use crate::streamer::netpoll::{self, idle_tick, poll_timeout, Readiness};
use crate::streamer::segment::{Received, SegmentExit, StreamerMsg};
use crate::text::{self, utf8_len};

verus! {

/// The connection a streamer holds, and when it may try for the next.
#[derive(Debug)]
pub struct LinkState<L> {
    /// The live connection.
    pub held_socket: Option<L>,
    /// When the next connect is due.
    pub pacing: Pacing,
}

impl<L> LinkState<L> {
    /// Disconnected, with the first connect due at once.
    pub fn new(jitter_seed_base: u32) -> (r: Self)
        ensures
            r.held_socket is None,
            r.pacing == fresh_pacing(jitter_seed_base),
    {
        LinkState {
            held_socket: None,
            pacing: Pacing { reconnect_deadline_secs: 0, attempt_counter: 0, jitter_seed_base },
        }
    }

    /// Installs a fresh connection and gives what it obliges.
    pub fn note_socket_established(&mut self, link: L) -> (duties: Vec<SocketDuty>)
        ensures
            final(self).held_socket == Some(link),
            final(self).pacing == old(self).pacing,
            duties@ == idle::established_duties(),
    {
        idle::note_socket_established(&mut self.held_socket, link)
    }

    /// Tears the connection down and gives what that obliges.
    pub fn note_socket_lost(&mut self) -> (duties: Vec<SocketDuty>)
        ensures
            final(self).held_socket is None,
            final(self).pacing == old(self).pacing,
            duties@ == idle::lost_duties(),
    {
        idle::note_socket_lost(&mut self.held_socket)
    }

    /// Charges a failed attempt and gives the seed its wait is drawn from.
    pub fn charge_attempt(&mut self) -> (seed: u32)
        ensures
            final(self).held_socket == old(self).held_socket,
            final(self).pacing == charged(old(self).pacing),
            seed == jitter_seed(old(self).pacing),
    {
        let mut attempt_counter: u32 = self.pacing.attempt_counter;
        let seed: u32 = next_jitter_seed(&mut attempt_counter, self.pacing.jitter_seed_base);
        self.pacing = Pacing { attempt_counter, ..self.pacing };
        seed
    }

    /// Arms the next deadline from the wait that was drawn.
    pub fn arm_backoff(&mut self, now_secs: u64, wait_secs: u64)
        ensures
            final(self).held_socket == old(self).held_socket,
            final(self).pacing == armed(old(self).pacing, now_secs, wait_secs),
    {
        let reconnect_deadline_secs: u64 = arm_reconnect_deadline(now_secs, wait_secs);
        self.pacing = Pacing { reconnect_deadline_secs, ..self.pacing };
    }

    /// Clears the pacing after a connect that worked.
    pub fn note_connect_success(&mut self)
        ensures
            final(self).held_socket == old(self).held_socket,
            final(self).pacing == cleared(old(self).pacing),
    {
        self.pacing = Pacing { reconnect_deadline_secs: 0, ..self.pacing };
    }
}

/// Pacing before the first attempt: a connect is due at once.
pub open spec fn fresh_pacing(jitter_seed_base: u32) -> Pacing {
    Pacing { reconnect_deadline_secs: 0, attempt_counter: 0, jitter_seed_base }
}

/// The pacing after one more failed attempt.
pub open spec fn charged(p: Pacing) -> Pacing {
    Pacing { attempt_counter: idle::next_attempt(p.attempt_counter), ..p }
}

/// The seed the wait of the next failed attempt is drawn from.
pub open spec fn jitter_seed(p: Pacing) -> u32 {
    p.jitter_seed_base ^ idle::next_attempt(p.attempt_counter)
}

/// The pacing with its deadline `wait_secs` away.
pub open spec fn armed(p: Pacing, now_secs: u64, wait_secs: u64) -> Pacing {
    Pacing { reconnect_deadline_secs: idle::deadline_after(now_secs, wait_secs), ..p }
}

/// The pacing after a connect that worked.
pub open spec fn cleared(p: Pacing) -> Pacing {
    Pacing { reconnect_deadline_secs: 0, ..p }
}

/// Why the streamer loop ended. It has no success exit.
#[derive(Debug, Clone, Copy, PartialEq, Eq, Structural)]
pub enum StreamerExit {
    /// The telemetry thread's sender was dropped, so no onset can arrive again.
    ChannelDisconnected,
}

/// What sending a frame with bounded backpressure came to.
#[derive(Debug, Clone, Copy, PartialEq, Eq, Structural)]
pub enum SendResult {
    /// The frame went out.
    Sent,
    /// The peer took nothing within the budget; the stream is frame-aligned.
    Blocked,
    /// The connection failed.
    Failed,
}

/// What came of an action.
#[derive(Debug)]
pub enum LoopEvent {
    /// Answers [`LoopAction::AskLink`].
    Link {
        /// Monotonic seconds.
        now_secs: u64,
        /// Whether the network link is up, where the platform can say.
        link_up: Option<bool>,
    },
    /// Answers [`LoopAction::Connect`]: whether a connection stands and took the
    /// pod's `Hello`.
    Connected(bool),
    /// Answers [`LoopAction::AskNow`].
    Now {
        /// Monotonic seconds.
        now_secs: u64,
    },
    /// Answers [`LoopAction::DrawWait`].
    Wait {
        /// The jittered wait.
        wait_secs: u64,
    },
    /// Answers [`LoopAction::LookAtInbound`].
    Inbound {
        /// The inbound accumulator can take more.
        room: bool,
        /// The transport may hold decrypted bytes that readiness cannot reveal.
        buffers_plaintext: bool,
        /// The clock.
        now: Instant,
    },
    /// Answers [`LoopAction::Poll`].
    Polled(Readiness),
    /// Answers [`LoopAction::TryReceive`] and [`LoopAction::WaitReceive`].
    Received(Received),
    /// Answers [`LoopAction::PumpInbound`].
    Pumped {
        /// The pump stopped at its cap with more to read.
        hit_cap: bool,
    },
    /// Answers [`LoopAction::PumpInbound`] where the inbound stream failed.
    PumpFailed,
    /// Answers [`LoopAction::SendStart`] and [`LoopAction::ResendStart`].
    StartSent(SendResult),
    /// Answers [`LoopAction::RunSegment`].
    SegmentDone(SegmentExit),
}

/// What to do next.
#[derive(Debug, Clone, Copy, PartialEq, Eq, Structural)]
pub enum LoopAction {
    /// Read the second clock and ask whether the link is up.
    AskLink,
    /// Open a connection and introduce the pod on it.
    Connect,
    /// Read the second clock.
    AskNow,
    /// Draw a reconnect wait from the backoff.
    DrawWait {
        /// Jitter seed.
        seed: u32,
    },
    /// Look at the inbound accumulator of the held connection.
    LookAtInbound,
    /// Wait for readiness of the held connection.
    Poll {
        /// Reading is armed.
        read: bool,
        /// Longest wait.
        timeout: Duration,
    },
    /// Take one channel message without waiting.
    TryReceive,
    /// Wait for one channel message.
    WaitReceive {
        /// Longest wait.
        timeout: Duration,
    },
    /// Drain inbound playback up to the per-wake cap.
    PumpInbound,
    /// Plan the segment and send its `SegmentStart` on the held connection.
    SendStart {
        /// Id of the segment.
        segment_id: u32,
        /// Ring write head at the onset.
        write_head: u64,
    },
    /// Send the planned `SegmentStart` again, on the connection just opened and
    /// not yet held.
    ResendStart,
    /// Run the segment that was started.
    RunSegment {
        /// Id of the segment.
        segment_id: u32,
    },
    /// The loop is over.
    Exit(StreamerExit),
}

/// A side effect that goes before the action.
#[derive(Debug, Clone, Copy, PartialEq, Eq, Structural)]
pub enum LoopDuty {
    /// What a socket that came or went obliges.
    Socket(SocketDuty),
    /// Drop the held connection.
    DropSocket,
    /// Hold the connection just opened.
    HoldSocket,
    /// Step the backoff up.
    RecordFailure,
    /// Put the backoff back to its floor.
    RecordSuccess,
    /// Take the inbound path's last reading before the socket goes.
    NoteInboundExit,
    /// Publish whether an onset is being served.
    SegmentActive(bool),
}

/// One turn of the loop.
#[derive(Debug)]
pub struct LoopTurn {
    /// Side effects, in order.
    pub duties: Vec<LoopDuty>,
    /// What to do after them.
    pub action: LoopAction,
}

/// Where the loop goes on once a backoff is armed.
#[derive(Debug, Clone, Copy, PartialEq, Eq, Structural)]
pub enum Resume {
    /// To the top of the cycle.
    Top,
    /// To the idle wait.
    IdleWait,
    /// To the onset that may be at hand.
    Onset,
}

/// What the loop is waiting to hear.
#[derive(Debug, Clone, Copy, PartialEq, Eq, Structural)]
pub enum LoopPhase {
    /// The link.
    Link,
    /// An idle connect.
    IdleConnect,
    /// The clock, to charge a failure.
    Now(Resume),
    /// The backoff's wait.
    Wait(Resume),
    /// The inbound accumulator.
    Inbound,
    /// The readiness wait.
    Poll,
    /// A channel message.
    Receive,
    /// The inbound pump.
    Pump,
    /// A connect for an onset.
    OnsetConnect,
    /// The opening frame.
    Start,
    /// A reconnect for the opening frame.
    Reconnect,
    /// The opening frame, sent again.
    Resend,
    /// The segment.
    Segment,
    /// Nothing more.
    Done,
}

/// The state of the streamer's outer cycle.
#[derive(Debug, Clone, Copy, PartialEq, Eq, Structural)]
pub struct StreamerLoop {
    /// A connection is held.
    pub connected: bool,
    /// When the next connect is due.
    pub pacing: Pacing,
    /// Id of the next segment.
    pub segment_counter: u32,
    /// The last idle pump stopped at its cap.
    pub idle_work_pending: bool,
    /// Seconds read for the failure being charged.
    pub now_secs: u64,
    /// The inbound accumulator had room at this tick.
    pub inbound_armed: bool,
    /// The transport may hold decrypted bytes.
    pub buffers_plaintext: bool,
    /// This tick reported readability.
    pub readable: bool,
    /// The onset at hand.
    pub onset: Option<u64>,
    /// The onset's connection was opened for it.
    pub fresh_connect: bool,
    /// Id of the segment being opened.
    pub segment_id: u32,
    /// What the loop is waiting to hear.
    pub phase: LoopPhase,
}

/// One turn as a mathematical value.
#[verifier::ext_equal]
pub struct LoopStep {
    /// The state after the turn.
    pub next: StreamerLoop,
    /// Side effects, in order.
    pub duties: Seq<LoopDuty>,
    /// What to do after them.
    pub action: LoopAction,
}

/// A turn that only moves to `phase`.
pub open spec fn ask(s: StreamerLoop, phase: LoopPhase, action: LoopAction) -> LoopStep {
    LoopStep { next: StreamerLoop { phase, ..s }, duties: seq![], action }
}

/// The step behind more side effects.
pub open spec fn behind(duties: Seq<LoopDuty>, step: LoopStep) -> LoopStep {
    LoopStep { duties: duties + step.duties, ..step }
}

/// The side effects of losing the held connection.
pub open spec fn drop_duties() -> Seq<LoopDuty> {
    seq![
        LoopDuty::DropSocket,
        LoopDuty::Socket(SocketDuty::ResetAccumulator),
        LoopDuty::Socket(SocketDuty::ResetInboundState),
        LoopDuty::Socket(SocketDuty::EndOfAudio),
    ]
}

/// The side effects of holding the connection just opened.
pub open spec fn hold_duties() -> Seq<LoopDuty> {
    seq![
        LoopDuty::Socket(SocketDuty::ResetAccumulator),
        LoopDuty::Socket(SocketDuty::ResetInboundState),
        LoopDuty::HoldSocket,
        LoopDuty::Socket(SocketDuty::StreamReset),
        LoopDuty::RecordSuccess,
    ]
}

/// The idle wait: on the socket where one is held, on the channel otherwise.
#[verifier::opaque]
pub open spec fn idle_wait(s: StreamerLoop) -> LoopStep {
    if s.connected {
        ask(s, LoopPhase::Inbound, LoopAction::LookAtInbound)
    } else {
        ask(
            StreamerLoop {
                inbound_armed: false,
                buffers_plaintext: false,
                readable: false,
                ..s
            },
            LoopPhase::Receive,
            LoopAction::WaitReceive { timeout: Duration { nanos: 10_000_000 } },
        )
    }
}

/// The top of the cycle: maintain the connection, then wait.
#[verifier::opaque]
pub open spec fn top(s: StreamerLoop) -> LoopStep {
    let cleared_onset = StreamerLoop { onset: None, ..s };
    if s.connected {
        idle_wait(cleared_onset)
    } else {
        ask(cleared_onset, LoopPhase::Link, LoopAction::AskLink)
    }
}

/// A failure is charged: the attempt counts and its wait is drawn.
#[verifier::opaque]
pub open spec fn charge(s: StreamerLoop, now_secs: u64, resume: Resume) -> LoopStep {
    behind(
        seq![LoopDuty::RecordFailure],
        ask(
            StreamerLoop { pacing: charged(s.pacing), now_secs, ..s },
            LoopPhase::Wait(resume),
            LoopAction::DrawWait { seed: jitter_seed(s.pacing) },
        ),
    )
}

/// The onset is served: a segment id is spent and its opening frame sent.
#[verifier::opaque]
pub open spec fn start(s: StreamerLoop) -> LoopStep {
    ask(
        StreamerLoop {
            segment_id: s.segment_counter,
            segment_counter: idle::next_attempt(s.segment_counter),
            ..s
        },
        LoopPhase::Start,
        LoopAction::SendStart { segment_id: s.segment_counter, write_head: s.onset->0 },
    )
}

/// The onset at hand, if there is one. It connects even where the idle gate would
/// not: a paced reconnect is for an idle pod, not for an utterance in progress.
#[verifier::opaque]
pub open spec fn serve_onset(s: StreamerLoop) -> LoopStep {
    if s.onset is None {
        top(s)
    } else {
        let active = StreamerLoop { fresh_connect: false, ..s };
        behind(
            seq![LoopDuty::SegmentActive(true)],
            if s.connected {
                start(active)
            } else {
                ask(active, LoopPhase::OnsetConnect, LoopAction::Connect)
            },
        )
    }
}

/// The onset is dropped or done.
#[verifier::opaque]
pub open spec fn end_onset(s: StreamerLoop) -> LoopStep {
    behind(seq![LoopDuty::SegmentActive(false)], top(s))
}

/// Inbound playback is drained when the socket was readable, when reading was
/// de-armed, when the last drain stopped at its cap, and on every tick of a
/// transport that may hide decrypted bytes.
#[verifier::opaque]
pub open spec fn drain(s: StreamerLoop) -> LoopStep {
    let must_drain = s.readable || !s.inbound_armed || s.idle_work_pending || s.buffers_plaintext;
    let rested = StreamerLoop { idle_work_pending: false, ..s };
    if must_drain && s.connected {
        ask(rested, LoopPhase::Pump, LoopAction::PumpInbound)
    } else {
        serve_onset(rested)
    }
}

/// The link was asked.
#[verifier::opaque]
pub open spec fn on_link(s: StreamerLoop, now_secs: u64, link_up: Option<bool>) -> LoopStep {
    if idle::connect_due(s.connected, link_up, now_secs, s.pacing.reconnect_deadline_secs) {
        ask(StreamerLoop { now_secs, ..s }, LoopPhase::IdleConnect, LoopAction::Connect)
    } else {
        idle_wait(s)
    }
}

/// An idle connect came or failed.
#[verifier::opaque]
pub open spec fn on_idle_connect(s: StreamerLoop, ok: bool) -> LoopStep {
    if ok {
        behind(
            hold_duties(),
            idle_wait(StreamerLoop { connected: true, pacing: cleared(s.pacing), ..s }),
        )
    } else {
        charge(s, s.now_secs, Resume::IdleWait)
    }
}

/// The wait of a charged failure was drawn.
#[verifier::opaque]
pub open spec fn on_wait(s: StreamerLoop, resume: Resume, wait_secs: u64) -> LoopStep {
    let paced = StreamerLoop { pacing: armed(s.pacing, s.now_secs, wait_secs), ..s };
    match resume {
        Resume::Top => top(paced),
        Resume::IdleWait => idle_wait(paced),
        Resume::Onset => serve_onset(paced),
    }
}

/// The inbound accumulator was looked at.
#[verifier::opaque]
pub open spec fn on_inbound(
    s: StreamerLoop,
    room: bool,
    buffers_plaintext: bool,
    now: Instant,
) -> LoopStep {
    ask(
        StreamerLoop { inbound_armed: room, buffers_plaintext, ..s },
        LoopPhase::Poll,
        LoopAction::Poll {
            read: room,
            timeout: Duration {
                nanos: netpoll::poll_wait(now, None, s.idle_work_pending) as u128,
            },
        },
    )
}

/// The idle wait on the socket is over. A fault drops it and backs off.
#[verifier::opaque]
pub open spec fn on_polled(s: StreamerLoop, ready: Readiness) -> LoopStep {
    if ready is Fault {
        behind(
            drop_duties(),
            ask(
                StreamerLoop { connected: false, ..s },
                LoopPhase::Now(Resume::Top),
                LoopAction::AskNow,
            ),
        )
    } else {
        ask(
            StreamerLoop { readable: ready.is_readable(), ..s },
            LoopPhase::Receive,
            LoopAction::TryReceive,
        )
    }
}

/// The channel answered. Only an onset means anything outside a segment.
#[verifier::opaque]
pub open spec fn on_received(s: StreamerLoop, got: Received) -> LoopStep {
    match got {
        Received::Disconnected => ask(
            s,
            LoopPhase::Done,
            LoopAction::Exit(StreamerExit::ChannelDisconnected),
        ),
        Received::Message(StreamerMsg::VadOpened { write_head }) => drain(
            StreamerLoop { onset: Some(write_head), ..s },
        ),
        _ => drain(StreamerLoop { onset: None, ..s }),
    }
}

/// The inbound stream failed: the socket goes, with a backoff, and an onset at
/// hand is still served.
#[verifier::opaque]
pub open spec fn on_pump_failed(s: StreamerLoop) -> LoopStep {
    behind(
        seq![LoopDuty::NoteInboundExit] + drop_duties(),
        ask(
            StreamerLoop { connected: false, ..s },
            LoopPhase::Now(Resume::Onset),
            LoopAction::AskNow,
        ),
    )
}

/// The connect for an onset came or failed; a failure drops the onset.
#[verifier::opaque]
pub open spec fn on_onset_connect(s: StreamerLoop, ok: bool) -> LoopStep {
    if ok {
        behind(
            hold_duties(),
            start(
                StreamerLoop {
                    connected: true,
                    fresh_connect: true,
                    pacing: cleared(s.pacing),
                    ..s
                },
            ),
        )
    } else {
        end_onset(s)
    }
}

/// The opening frame went out, stalled or failed. A held socket that fails gets
/// one reconnect; one opened for this onset does not.
#[verifier::opaque]
pub open spec fn on_start(s: StreamerLoop, sent: SendResult) -> LoopStep {
    match sent {
        SendResult::Sent => ask(
            s,
            LoopPhase::Segment,
            LoopAction::RunSegment { segment_id: s.segment_id },
        ),
        SendResult::Blocked => end_onset(s),
        SendResult::Failed => {
            let dropped = StreamerLoop { connected: false, ..s };
            behind(
                drop_duties(),
                if s.fresh_connect {
                    end_onset(dropped)
                } else {
                    ask(dropped, LoopPhase::Reconnect, LoopAction::Connect)
                },
            )
        },
    }
}

/// The opening frame was sent again on a connection not yet held. It is held
/// unless it failed, and carries the segment only if the frame went out.
#[verifier::opaque]
pub open spec fn on_resend(s: StreamerLoop, sent: SendResult) -> LoopStep {
    let held = StreamerLoop { connected: true, pacing: cleared(s.pacing), ..s };
    match sent {
        SendResult::Sent => behind(
            hold_duties(),
            ask(held, LoopPhase::Segment, LoopAction::RunSegment { segment_id: s.segment_id }),
        ),
        SendResult::Blocked => behind(hold_duties(), end_onset(held)),
        SendResult::Failed => end_onset(s),
    }
}

/// The segment is over. A socket lost in it is dropped without a backoff: the
/// next tick reconnects.
#[verifier::opaque]
pub open spec fn on_segment_done(s: StreamerLoop, how: SegmentExit) -> LoopStep {
    if how == SegmentExit::SocketLost {
        behind(drop_duties(), end_onset(StreamerLoop { connected: false, ..s }))
    } else {
        end_onset(s)
    }
}

/// One turn of the loop: what `event` makes of state `s`.
pub open spec fn loop_step(s: StreamerLoop, event: LoopEvent) -> LoopStep {
    match (s.phase, event) {
        (LoopPhase::Link, LoopEvent::Link { now_secs, link_up }) => on_link(s, now_secs, link_up),
        (LoopPhase::IdleConnect, LoopEvent::Connected(ok)) => on_idle_connect(s, ok),
        (LoopPhase::Now(resume), LoopEvent::Now { now_secs }) => charge(s, now_secs, resume),
        (LoopPhase::Wait(resume), LoopEvent::Wait { wait_secs }) => on_wait(s, resume, wait_secs),
        (LoopPhase::Inbound, LoopEvent::Inbound { room, buffers_plaintext, now }) => on_inbound(
            s,
            room,
            buffers_plaintext,
            now,
        ),
        (LoopPhase::Poll, LoopEvent::Polled(ready)) => on_polled(s, ready),
        (LoopPhase::Receive, LoopEvent::Received(got)) => on_received(s, got),
        (LoopPhase::Pump, LoopEvent::Pumped { hit_cap }) => serve_onset(
            StreamerLoop { idle_work_pending: hit_cap, ..s },
        ),
        (LoopPhase::Pump, LoopEvent::PumpFailed) => on_pump_failed(s),
        (LoopPhase::OnsetConnect, LoopEvent::Connected(ok)) => on_onset_connect(s, ok),
        (LoopPhase::Start, LoopEvent::StartSent(sent)) => on_start(s, sent),
        (LoopPhase::Reconnect, LoopEvent::Connected(ok)) => if ok {
            ask(s, LoopPhase::Resend, LoopAction::ResendStart)
        } else {
            end_onset(s)
        },
        (LoopPhase::Resend, LoopEvent::StartSent(sent)) => on_resend(s, sent),
        (LoopPhase::Segment, LoopEvent::SegmentDone(how)) => on_segment_done(s, how),
        _ => ask(s, s.phase, LoopAction::AskLink),
    }
}

/// The event answers what the loop asked.
pub open spec fn answers(s: StreamerLoop, event: LoopEvent) -> bool {
    match (s.phase, event) {
        (LoopPhase::Link, LoopEvent::Link { .. }) => true,
        (LoopPhase::IdleConnect, LoopEvent::Connected(_)) => true,
        (LoopPhase::Now(_), LoopEvent::Now { .. }) => true,
        (LoopPhase::Wait(_), LoopEvent::Wait { .. }) => true,
        (LoopPhase::Inbound, LoopEvent::Inbound { .. }) => true,
        (LoopPhase::Poll, LoopEvent::Polled(_)) => true,
        (LoopPhase::Receive, LoopEvent::Received(_)) => true,
        (LoopPhase::Pump, LoopEvent::Pumped { .. }) => true,
        (LoopPhase::Pump, LoopEvent::PumpFailed) => true,
        (LoopPhase::OnsetConnect, LoopEvent::Connected(_)) => s.onset is Some,
        (LoopPhase::Start, LoopEvent::StartSent(_)) => true,
        (LoopPhase::Reconnect, LoopEvent::Connected(_)) => true,
        (LoopPhase::Resend, LoopEvent::StartSent(_)) => true,
        (LoopPhase::Segment, LoopEvent::SegmentDone(_)) => true,
        _ => false,
    }
}

/// The state before the first tick.
pub open spec fn idle_start(jitter_seed: u32) -> StreamerLoop {
    StreamerLoop {
        connected: false,
        pacing: fresh_pacing(jitter_seed),
        segment_counter: 0,
        idle_work_pending: false,
        now_secs: 0,
        inbound_armed: false,
        buffers_plaintext: false,
        readable: false,
        onset: None,
        fresh_connect: false,
        segment_id: 0,
        phase: LoopPhase::Link,
    }
}

/// The turn that was taken, as a mathematical value. The duties behind `before`
/// are the turn's own.
pub open spec fn took(
    before: Seq<LoopDuty>,
    after: Seq<LoopDuty>,
    next: StreamerLoop,
    action: LoopAction,
    step: LoopStep,
) -> bool {
    &&& next == step.next
    &&& action == step.action
    &&& after =~= before + step.duties
}

fn push_drop_duties(duties: &mut Vec<LoopDuty>)
    ensures
        final(duties)@ == old(duties)@ + drop_duties(),
{
    duties.push(LoopDuty::DropSocket);
    duties.push(LoopDuty::Socket(SocketDuty::ResetAccumulator));
    duties.push(LoopDuty::Socket(SocketDuty::ResetInboundState));
    duties.push(LoopDuty::Socket(SocketDuty::EndOfAudio));
    assert(duties@ =~= old(duties)@ + drop_duties());
}

fn push_hold_duties(duties: &mut Vec<LoopDuty>)
    ensures
        final(duties)@ == old(duties)@ + hold_duties(),
{
    duties.push(LoopDuty::Socket(SocketDuty::ResetAccumulator));
    duties.push(LoopDuty::Socket(SocketDuty::ResetInboundState));
    duties.push(LoopDuty::HoldSocket);
    duties.push(LoopDuty::Socket(SocketDuty::StreamReset));
    duties.push(LoopDuty::RecordSuccess);
    assert(duties@ =~= old(duties)@ + hold_duties());
}

impl StreamerLoop {
    /// The loop before its first tick, and what to do first.
    pub fn new(jitter_seed: u32) -> (r: (StreamerLoop, LoopAction))
        ensures
            r.0 == idle_start(jitter_seed),
            r.1 == LoopAction::AskLink,
    {
        let start = StreamerLoop {
            connected: false,
            pacing: Pacing {
                reconnect_deadline_secs: 0,
                attempt_counter: 0,
                jitter_seed_base: jitter_seed,
            },
            segment_counter: 0,
            idle_work_pending: false,
            now_secs: 0,
            inbound_armed: false,
            buffers_plaintext: false,
            readable: false,
            onset: None,
            fresh_connect: false,
            segment_id: 0,
            phase: LoopPhase::Link,
        };
        (start, LoopAction::AskLink)
    }

    fn ask(&mut self, phase: LoopPhase, action: LoopAction) -> (a: LoopAction)
        ensures
            *final(self) == ask(*old(self), phase, action).next,
            a == action,
    {
        self.phase = phase;
        action
    }

    fn idle_wait(&mut self, duties: &mut Vec<LoopDuty>) -> (a: LoopAction)
        ensures
            took(old(duties)@, final(duties)@, *final(self), a, idle_wait(*old(self))),
    {
        proof {
            reveal(idle_wait);
        }
        if self.connected {
            self.ask(LoopPhase::Inbound, LoopAction::LookAtInbound)
        } else {
            *self = StreamerLoop {
                inbound_armed: false,
                buffers_plaintext: false,
                readable: false,
                ..*self
            };
            self.ask(LoopPhase::Receive, LoopAction::WaitReceive { timeout: idle_tick() })
        }
    }

    fn top(&mut self, duties: &mut Vec<LoopDuty>) -> (a: LoopAction)
        ensures
            took(old(duties)@, final(duties)@, *final(self), a, top(*old(self))),
    {
        proof {
            reveal(top);
        }
        *self = StreamerLoop { onset: None, ..*self };
        if self.connected {
            self.idle_wait(duties)
        } else {
            self.ask(LoopPhase::Link, LoopAction::AskLink)
        }
    }

    fn charge(&mut self, now_secs: u64, resume: Resume, duties: &mut Vec<LoopDuty>) -> (a: LoopAction)
        ensures
            took(old(duties)@, final(duties)@, *final(self), a, charge(*old(self), now_secs, resume)),
    {
        proof {
            reveal(charge);
        }
        duties.push(LoopDuty::RecordFailure);
        let mut attempt_counter: u32 = self.pacing.attempt_counter;
        let seed: u32 = next_jitter_seed(&mut attempt_counter, self.pacing.jitter_seed_base);
        let pacing = Pacing { attempt_counter, ..self.pacing };
        *self = StreamerLoop { pacing, now_secs, ..*self };
        self.ask(LoopPhase::Wait(resume), LoopAction::DrawWait { seed })
    }

    fn start(&mut self, duties: &mut Vec<LoopDuty>) -> (a: LoopAction)
        requires
            old(self).onset is Some,
        ensures
            took(old(duties)@, final(duties)@, *final(self), a, start(*old(self))),
    {
        proof {
            reveal(start);
        }
        let segment_id: u32 = self.segment_counter;
        let write_head: u64 = self.onset.unwrap();
        *self = StreamerLoop {
            segment_id,
            segment_counter: segment_id.wrapping_add(1),
            ..*self
        };
        self.ask(LoopPhase::Start, LoopAction::SendStart { segment_id, write_head })
    }

    fn serve_onset(&mut self, duties: &mut Vec<LoopDuty>) -> (a: LoopAction)
        ensures
            took(old(duties)@, final(duties)@, *final(self), a, serve_onset(*old(self))),
    {
        proof {
            reveal(serve_onset);
        }
        if self.onset.is_none() {
            return self.top(duties);
        }
        *self = StreamerLoop { fresh_connect: false, ..*self };
        duties.push(LoopDuty::SegmentActive(true));
        if self.connected {
            self.start(duties)
        } else {
            self.ask(LoopPhase::OnsetConnect, LoopAction::Connect)
        }
    }

    fn end_onset(&mut self, duties: &mut Vec<LoopDuty>) -> (a: LoopAction)
        ensures
            took(old(duties)@, final(duties)@, *final(self), a, end_onset(*old(self))),
    {
        proof {
            reveal(end_onset);
        }
        duties.push(LoopDuty::SegmentActive(false));
        self.top(duties)
    }

    fn drain(&mut self, duties: &mut Vec<LoopDuty>) -> (a: LoopAction)
        ensures
            took(old(duties)@, final(duties)@, *final(self), a, drain(*old(self))),
    {
        proof {
            reveal(drain);
        }
        let must_drain = self.readable || !self.inbound_armed || self.idle_work_pending
            || self.buffers_plaintext;
        *self = StreamerLoop { idle_work_pending: false, ..*self };
        if must_drain && self.connected {
            self.ask(LoopPhase::Pump, LoopAction::PumpInbound)
        } else {
            self.serve_onset(duties)
        }
    }

    fn on_link(&mut self, now_secs: u64, link_up: Option<bool>, duties: &mut Vec<LoopDuty>) -> (a: LoopAction)
        ensures
            took(old(duties)@, final(duties)@, *final(self), a, on_link(*old(self), now_secs, link_up)),
    {
        proof {
            reveal(on_link);
        }
        let deadline: u64 = self.pacing.reconnect_deadline_secs;
        match should_attempt_idle_connect(self.connected, link_up, now_secs, deadline) {
            IdleConnectAction::Attempt => {
                *self = StreamerLoop { now_secs, ..*self };
                self.ask(LoopPhase::IdleConnect, LoopAction::Connect)
            },
            IdleConnectAction::Skip => self.idle_wait(duties),
        }
    }

    fn on_idle_connect(&mut self, ok: bool, duties: &mut Vec<LoopDuty>) -> (a: LoopAction)
        ensures
            took(old(duties)@, final(duties)@, *final(self), a, on_idle_connect(*old(self), ok)),
    {
        proof {
            reveal(on_idle_connect);
        }
        if ok {
            push_hold_duties(duties);
            let pacing = Pacing { reconnect_deadline_secs: 0, ..self.pacing };
            *self = StreamerLoop { connected: true, pacing, ..*self };
            self.idle_wait(duties)
        } else {
            let now_secs: u64 = self.now_secs;
            self.charge(now_secs, Resume::IdleWait, duties)
        }
    }

    fn on_wait(&mut self, resume: Resume, wait_secs: u64, duties: &mut Vec<LoopDuty>) -> (a: LoopAction)
        ensures
            took(old(duties)@, final(duties)@, *final(self), a, on_wait(*old(self), resume, wait_secs)),
    {
        proof {
            reveal(on_wait);
        }
        let reconnect_deadline_secs: u64 = arm_reconnect_deadline(self.now_secs, wait_secs);
        let pacing = Pacing { reconnect_deadline_secs, ..self.pacing };
        *self = StreamerLoop { pacing, ..*self };
        match resume {
            Resume::Top => self.top(duties),
            Resume::IdleWait => self.idle_wait(duties),
            Resume::Onset => self.serve_onset(duties),
        }
    }

    fn on_inbound(&mut self, room: bool, buffers_plaintext: bool, now: Instant, duties: &mut Vec<LoopDuty>) -> (a: LoopAction)
        ensures
            took(old(duties)@, final(duties)@, *final(self), a, on_inbound(*old(self), room, buffers_plaintext, now)),
    {
        proof {
            reveal(on_inbound);
        }
        *self = StreamerLoop { inbound_armed: room, buffers_plaintext, ..*self };
        let timeout = poll_timeout(now, None, self.idle_work_pending);
        proof {
            netpoll::only_pending_work_polls_without_waiting(now, None, self.idle_work_pending);
        }
        self.ask(LoopPhase::Poll, LoopAction::Poll { read: room, timeout })
    }

    fn on_polled(&mut self, ready: Readiness, duties: &mut Vec<LoopDuty>) -> (a: LoopAction)
        ensures
            took(old(duties)@, final(duties)@, *final(self), a, on_polled(*old(self), ready)),
    {
        proof {
            reveal(on_polled);
        }
        if let Readiness::Fault(_) = &ready {
            push_drop_duties(duties);
            *self = StreamerLoop { connected: false, ..*self };
            return self.ask(LoopPhase::Now(Resume::Top), LoopAction::AskNow);
        }
        *self = StreamerLoop { readable: ready.readable(), ..*self };
        self.ask(LoopPhase::Receive, LoopAction::TryReceive)
    }

    fn on_received(&mut self, got: Received, duties: &mut Vec<LoopDuty>) -> (a: LoopAction)
        ensures
            took(old(duties)@, final(duties)@, *final(self), a, on_received(*old(self), got)),
    {
        proof {
            reveal(on_received);
        }
        match got {
            Received::Disconnected => self.ask(
                LoopPhase::Done,
                LoopAction::Exit(StreamerExit::ChannelDisconnected),
            ),
            Received::Message(StreamerMsg::VadOpened { write_head }) => {
                *self = StreamerLoop { onset: Some(write_head), ..*self };
                self.drain(duties)
            },
            _ => {
                *self = StreamerLoop { onset: None, ..*self };
                self.drain(duties)
            },
        }
    }

    fn on_pump_failed(&mut self, duties: &mut Vec<LoopDuty>) -> (a: LoopAction)
        ensures
            took(old(duties)@, final(duties)@, *final(self), a, on_pump_failed(*old(self))),
    {
        proof {
            reveal(on_pump_failed);
        }
        duties.push(LoopDuty::NoteInboundExit);
        push_drop_duties(duties);
        *self = StreamerLoop { connected: false, ..*self };
        assert(duties@ =~= old(duties)@ + on_pump_failed(*old(self)).duties);
        self.ask(LoopPhase::Now(Resume::Onset), LoopAction::AskNow)
    }

    fn on_onset_connect(&mut self, ok: bool, duties: &mut Vec<LoopDuty>) -> (a: LoopAction)
        requires
            ok ==> old(self).onset is Some,
        ensures
            took(old(duties)@, final(duties)@, *final(self), a, on_onset_connect(*old(self), ok)),
    {
        proof {
            reveal(on_onset_connect);
        }
        if ok {
            push_hold_duties(duties);
            let pacing = Pacing { reconnect_deadline_secs: 0, ..self.pacing };
            *self = StreamerLoop { connected: true, fresh_connect: true, pacing, ..*self };
            self.start(duties)
        } else {
            self.end_onset(duties)
        }
    }

    fn on_start(&mut self, sent: SendResult, duties: &mut Vec<LoopDuty>) -> (a: LoopAction)
        ensures
            took(old(duties)@, final(duties)@, *final(self), a, on_start(*old(self), sent)),
    {
        proof {
            reveal(on_start);
        }
        match sent {
            SendResult::Sent => {
                let segment_id: u32 = self.segment_id;
                self.ask(LoopPhase::Segment, LoopAction::RunSegment { segment_id })
            },
            SendResult::Blocked => self.end_onset(duties),
            SendResult::Failed => {
                push_drop_duties(duties);
                *self = StreamerLoop { connected: false, ..*self };
                if self.fresh_connect {
                    self.end_onset(duties)
                } else {
                    self.ask(LoopPhase::Reconnect, LoopAction::Connect)
                }
            },
        }
    }

    fn on_resend(&mut self, sent: SendResult, duties: &mut Vec<LoopDuty>) -> (a: LoopAction)
        ensures
            took(old(duties)@, final(duties)@, *final(self), a, on_resend(*old(self), sent)),
    {
        proof {
            reveal(on_resend);
        }
        match sent {
            SendResult::Failed => self.end_onset(duties),
            _ => {
                push_hold_duties(duties);
                let pacing = Pacing { reconnect_deadline_secs: 0, ..self.pacing };
                *self = StreamerLoop { connected: true, pacing, ..*self };
                match sent {
                    SendResult::Sent => {
                        let segment_id: u32 = self.segment_id;
                        self.ask(LoopPhase::Segment, LoopAction::RunSegment { segment_id })
                    },
                    _ => self.end_onset(duties),
                }
            },
        }
    }

    fn on_segment_done(&mut self, how: SegmentExit, duties: &mut Vec<LoopDuty>) -> (a: LoopAction)
        ensures
            took(old(duties)@, final(duties)@, *final(self), a, on_segment_done(*old(self), how)),
    {
        proof {
            reveal(on_segment_done);
        }
        if how == SegmentExit::SocketLost {
            push_drop_duties(duties);
            *self = StreamerLoop { connected: false, ..*self };
        }
        self.end_onset(duties)
    }

    /// Whether `event` answers what this loop asked.
    pub fn accepts(&self, event: &LoopEvent) -> (r: bool)
        ensures
            r == answers(*self, *event),
    {
        match (self.phase, event) {
            (LoopPhase::Link, LoopEvent::Link { .. }) => true,
            (LoopPhase::IdleConnect, LoopEvent::Connected(_)) => true,
            (LoopPhase::Now(_), LoopEvent::Now { .. }) => true,
            (LoopPhase::Wait(_), LoopEvent::Wait { .. }) => true,
            (LoopPhase::Inbound, LoopEvent::Inbound { .. }) => true,
            (LoopPhase::Poll, LoopEvent::Polled(_)) => true,
            (LoopPhase::Receive, LoopEvent::Received(_)) => true,
            (LoopPhase::Pump, LoopEvent::Pumped { .. }) => true,
            (LoopPhase::Pump, LoopEvent::PumpFailed) => true,
            (LoopPhase::OnsetConnect, LoopEvent::Connected(_)) => self.onset.is_some(),
            (LoopPhase::Start, LoopEvent::StartSent(_)) => true,
            (LoopPhase::Reconnect, LoopEvent::Connected(_)) => true,
            (LoopPhase::Resend, LoopEvent::StartSent(_)) => true,
            (LoopPhase::Segment, LoopEvent::SegmentDone(_)) => true,
            _ => false,
        }
    }

    /// One turn: takes what came of the last action and names the next.
    pub fn step(&mut self, event: LoopEvent) -> (turn: LoopTurn)
        requires
            answers(*old(self), event),
        ensures
            *final(self) == loop_step(*old(self), event).next,
            turn.duties@ == loop_step(*old(self), event).duties,
            turn.action == loop_step(*old(self), event).action,
    {
        let mut duties: Vec<LoopDuty> = Vec::new();
        let action = match (self.phase, event) {
            (LoopPhase::Link, LoopEvent::Link { now_secs, link_up }) => {
                self.on_link(now_secs, link_up, &mut duties)
            },
            (LoopPhase::IdleConnect, LoopEvent::Connected(ok)) => {
                self.on_idle_connect(ok, &mut duties)
            },
            (LoopPhase::Now(resume), LoopEvent::Now { now_secs }) => {
                self.charge(now_secs, resume, &mut duties)
            },
            (LoopPhase::Wait(resume), LoopEvent::Wait { wait_secs }) => {
                self.on_wait(resume, wait_secs, &mut duties)
            },
            (LoopPhase::Inbound, LoopEvent::Inbound { room, buffers_plaintext, now }) => {
                self.on_inbound(room, buffers_plaintext, now, &mut duties)
            },
            (LoopPhase::Poll, LoopEvent::Polled(ready)) => self.on_polled(ready, &mut duties),
            (LoopPhase::Receive, LoopEvent::Received(got)) => self.on_received(got, &mut duties),
            (LoopPhase::Pump, LoopEvent::Pumped { hit_cap }) => {
                *self = StreamerLoop { idle_work_pending: hit_cap, ..*self };
                self.serve_onset(&mut duties)
            },
            (LoopPhase::Pump, LoopEvent::PumpFailed) => self.on_pump_failed(&mut duties),
            (LoopPhase::OnsetConnect, LoopEvent::Connected(ok)) => {
                self.on_onset_connect(ok, &mut duties)
            },
            (LoopPhase::Start, LoopEvent::StartSent(sent)) => self.on_start(sent, &mut duties),
            (LoopPhase::Reconnect, LoopEvent::Connected(ok)) => {
                if ok {
                    self.ask(LoopPhase::Resend, LoopAction::ResendStart)
                } else {
                    self.end_onset(&mut duties)
                }
            },
            (LoopPhase::Resend, LoopEvent::StartSent(sent)) => self.on_resend(sent, &mut duties),
            (LoopPhase::Segment, LoopEvent::SegmentDone(how)) => {
                self.on_segment_done(how, &mut duties)
            },
            _ => LoopAction::AskLink,
        };
        assert(duties@ =~= loop_step(*old(self), event).duties);
        LoopTurn { duties, action }
    }
}

/// The id a pod introduces itself by: its own, or none where it does not fit the
/// `capacity` bytes of the wire's field. A cut-off id could look like a valid one.
pub fn hello_pod_id(pod_id: &str, capacity: usize) -> (r: String)
    ensures
        r@ == if text::byte_len(pod_id@) <= capacity {
            pod_id@
        } else {
            Seq::<char>::empty()
        },
{
    let len: usize = utf8_len(pod_id);
    if len <= capacity {
        pod_id.to_owned()
    } else {
        String::new()
    }
}

/// How sending a `Hello` went.
#[derive(Debug, PartialEq, Eq)]
pub enum HelloSent<K> {
    /// It went out.
    Sent,
    /// The host took nothing of it within the budget.
    Stalled,
    /// The connection failed.
    Failed {
        /// The kind of the transport's error.
        kind: K,
        /// What the transport said.
        detail: String,
    },
}

/// Why a fresh connection that could not be introduced is given up.
#[derive(Debug, PartialEq, Eq)]
pub enum HelloError<K> {
    /// The host took nothing of the `Hello`: it will not keep up with a segment.
    Stalled,
    /// The connection failed, as the transport tells it.
    Failed {
        /// The kind of the transport's error.
        kind: K,
        /// What the transport said.
        detail: String,
    },
}

/// The error as a line for the log.
pub open spec fn hello_error_text<K>(e: HelloError<K>) -> Seq<char> {
    match e {
        HelloError::Stalled =>
            "Hello stalled on write backpressure \u{2014} dropping the fresh connection"@,
        HelloError::Failed { detail, .. } => detail@,
    }
}

impl<K: Copy> HelloError<K> {
    /// The kind of the transport's error, where it is one.
    pub fn kind(&self) -> (r: Option<K>)
        ensures
            r == match *self {
                HelloError::Stalled => None::<K>,
                HelloError::Failed { kind, .. } => Some(kind),
            },
    {
        match self {
            HelloError::Stalled => None,
            HelloError::Failed { kind, .. } => Some(*kind),
        }
    }

    /// The error as a line for the log: the transport's own where it failed.
    pub fn text(&self) -> (r: String)
        ensures
            r@ == hello_error_text(*self),
    {
        match self {
            HelloError::Stalled => {
                "Hello stalled on write backpressure \u{2014} dropping the fresh connection".to_owned()
            },
            HelloError::Failed { detail, .. } => detail.as_str().to_owned(),
        }
    }
}

/// Whether a fresh connection is ready, given how sending its `Hello` went. A failure
/// of the transport is handed on as it came.
pub fn connect_and_hello<L, K>(link: L, sent: HelloSent<K>) -> (r: Result<L, HelloError<K>>)
    ensures
        r == match sent {
            HelloSent::Sent => Ok::<L, HelloError<K>>(link),
            HelloSent::Stalled => Err(HelloError::Stalled),
            HelloSent::Failed { kind, detail } => Err(HelloError::Failed { kind, detail }),
        },
{
    match sent {
        HelloSent::Sent => Ok(link),
        HelloSent::Stalled => Err(HelloError::Stalled),
        HelloSent::Failed { kind, detail } => Err(HelloError::Failed { kind, detail }),
    }
}

/// A failed greeting is told in the words of the transport, and a stalled one in its own.
pub proof fn a_failed_greeting_keeps_its_words<K>(kind: K, detail: String)
    ensures
        hello_error_text(HelloError::Failed { kind, detail }) == detail@,
        hello_error_text(HelloError::<K>::Stalled)
            == "Hello stalled on write backpressure \u{2014} dropping the fresh connection"@,
{
}

} // verus!
