//! One voice segment, from its opening frame to its close.
//!
//! [`Segment`] decides everything between a sent `SegmentStart` and the
//! `SegmentEnd` that closes it: what a wake waits on, what leaves the pod next,
//! when a write stall ends the segment. It touches nothing itself. Each turn
//! names one [`SegmentAction`]; whoever drives the segment performs it and hands
//! back the [`SegmentEvent`] that came of it.

use std::collections::VecDeque;

use vstd::prelude::*;

use crate::clock::{self, Duration, Instant};
use crate::streamer::netpoll::{self, poll_timeout, Readiness, OUTBOUND_FRAMES_PER_WAKE};
use crate::streamer::telemetry::Telemetry;

verus! {

/// How long writability stays de-armed once the write spin guard trips, in
/// milliseconds.
pub const SPIN_BACKOFF_MS: u64 = 10;

/// Telemetry frames a segment queues before it drops the oldest.
pub const PENDING_TELEMETRY_CAP: usize = 8;

/// Depth of the channel from the telemetry thread to the streamer thread.
pub const STREAMER_CHAN_CAPACITY: usize = 64;

/// Microseconds between two periodic observability samples.
pub const PRODUCTION_OBS_PERIOD_US: u64 = 1_000_000;

/// Capture rate of the microphone ring.
pub const SAMPLE_RATE_HZ: u64 = 16_000;

/// Samples in one full audio frame.
pub const AUDIO_SAMPLES_PER_FRAME: u32 = 320;

/// Messages from the telemetry thread to the streamer thread.
#[derive(Debug, Clone, Copy)]
pub enum StreamerMsg {
    /// The voice gate opened while the ring's write head stood here.
    VadOpened {
        /// Absolute index of the next sample to be captured.
        write_head: u64,
    },
    /// The voice gate closed.
    VadClosed,
    /// A telemetry frame to forward while a segment is open.
    Telemetry(Telemetry),
}

/// A point in the segment's life worth sampling.
#[derive(Debug, Clone, Copy, PartialEq, Eq, Structural)]
pub enum ObsEvent {
    /// The segment is about to run its first wake.
    SegmentOpen,
    /// The pre-roll backlog drained to steady state for the first time.
    PrerollDrained,
    /// The segment's first blocked write.
    WriteBlocked,
    /// Periodic sample, about once a second.
    Production,
    /// The telemetry queue was full and its oldest frame was dropped.
    TelemetryDropped {
        /// The queue's cap.
        cap: usize,
    },
}

impl ObsEvent {
    /// The event's stable log token.
    pub fn as_str(&self) -> (r: &'static str)
        ensures
            r@ == match self {
                ObsEvent::SegmentOpen => "start"@,
                ObsEvent::PrerollDrained => "preroll-drained"@,
                ObsEvent::WriteBlocked => "write-blocked"@,
                ObsEvent::Production => "prod"@,
                ObsEvent::TelemetryDropped { .. } => "telemetry-dropped"@,
            },
    {
        match self {
            ObsEvent::SegmentOpen => "start",
            ObsEvent::PrerollDrained => "preroll-drained",
            ObsEvent::WriteBlocked => "write-blocked",
            ObsEvent::Production => "prod",
            ObsEvent::TelemetryDropped { .. } => "telemetry-dropped",
        }
    }
}

/// Why a segment closed.
#[derive(Debug, Clone, Copy, PartialEq, Eq, Structural)]
pub enum EndReason {
    /// The voice gate closed and the backlog was drained.
    VadRelease,
    /// The capture ring lapped the read cursor.
    Overrun,
    /// The telemetry channel went away.
    InternalError,
}

/// How a segment terminated.
#[derive(Debug, Clone, Copy, PartialEq, Eq, Structural)]
pub enum SegmentExit {
    /// `SegmentEnd` was sent; the socket is healthy and kept.
    Completed,
    /// The segment was dropped; the socket is frame-aligned and kept.
    SegmentDroppedSocketKept,
    /// The socket faulted or must be torn down.
    SocketLost,
}

/// The one outbound frame in flight.
#[derive(Debug, Clone, Copy, PartialEq, Eq, Structural)]
pub enum OutboundKind {
    /// Microphone audio.
    Audio {
        /// Samples the frame carries.
        samples: u32,
    },
    /// Forwarded telemetry.
    Telemetry,
    /// The frame that closes the segment.
    SegmentEnd,
}

/// The frame that closes a segment.
#[derive(Debug, Clone, Copy, PartialEq, Eq, Structural)]
pub struct SegmentEnd {
    /// Id of the segment.
    pub segment_id: u32,
    /// When the segment closed.
    pub device_ts_us: u64,
    /// Audio frames that went out whole.
    pub frames_sent: u32,
    /// Samples in those frames.
    pub samples_sent: u64,
    /// Why the segment closed.
    pub reason: EndReason,
}

/// An audio frame, without the samples that were copied for it.
#[derive(Debug, Clone, Copy, PartialEq, Eq, Structural)]
pub struct AudioHeader {
    /// Id of the segment.
    pub segment_id: u32,
    /// Absolute index of the frame's first sample.
    pub first_sample_index: u64,
    /// When that sample was captured.
    pub device_ts_us: u64,
    /// Samples in the frame.
    pub samples: u32,
}

/// A frame to encode.
#[derive(Debug, Clone, Copy)]
pub enum OutFrame {
    /// Microphone audio, with the samples copied last.
    Audio(AudioHeader),
    /// Forwarded telemetry.
    Telemetry(Telemetry),
    /// The close of the segment.
    SegmentEnd(SegmentEnd),
}

/// The capture ring as it stood under its lock.
#[derive(Debug, Clone, Copy, PartialEq, Eq, Structural)]
pub struct RingLook {
    /// The writer has lapped the read cursor.
    pub overrun: bool,
    /// Samples captured past the read cursor.
    pub available: u64,
    /// Sample whose capture time is known.
    pub anchor_sample: u64,
    /// That capture time.
    pub anchor_ts_us: u64,
}

/// What the channel held.
#[derive(Debug, Clone, Copy)]
pub enum Received {
    /// A message.
    Message(StreamerMsg),
    /// Nothing for now.
    Empty,
    /// Nothing ever again: the sender is gone.
    Disconnected,
}

/// What one attempt to write the frame in flight came to.
#[derive(Debug, Clone, Copy, PartialEq, Eq, Structural)]
pub enum WriteOutcome {
    /// The last byte went out.
    Whole,
    /// Some bytes went out and more may follow at once.
    Partial,
    /// The transport took nothing.
    Blocked {
        /// Writability has been reported and refused too often in a row.
        spin_tripped: bool,
        /// When the attempt was made.
        now: Instant,
    },
    /// The transport failed.
    Failed,
}

/// Where the frame in flight stands against its write budget.
#[derive(Debug, Clone, Copy, PartialEq, Eq, Structural)]
pub enum BudgetOutcome {
    /// Time is left.
    Within,
    /// The budget ran out with nothing of the frame written.
    Aligned,
    /// The budget ran out inside the frame.
    Expired,
}

/// What came of an action.
#[derive(Debug)]
pub enum SegmentEvent {
    /// Answers [`SegmentAction::Wake`].
    Woke {
        /// The clock in microseconds.
        now_us: u64,
        /// The same clock as an instant.
        now: Instant,
        /// The inbound accumulator can take more.
        inbound_room: bool,
        /// The transport may hold decrypted bytes that readiness cannot reveal.
        buffers_plaintext: bool,
        /// When the frame in flight, if there is one, runs out of budget.
        write_deadline: Option<Instant>,
    },
    /// Answers [`SegmentAction::Poll`].
    Polled(Readiness),
    /// Answers [`SegmentAction::Receive`].
    Received(Received),
    /// Answers [`SegmentAction::ReadVadFlag`].
    VadFlag(bool),
    /// Answers [`SegmentAction::PumpInbound`].
    Pumped {
        /// The pump stopped at its cap with more to read.
        hit_cap: bool,
    },
    /// Answers [`SegmentAction::PumpInbound`] where the inbound stream failed.
    PumpFailed,
    /// Answers [`SegmentAction::ReadClock`].
    Clock {
        /// The clock in microseconds.
        now_us: u64,
    },
    /// Answers [`SegmentAction::LookAtRing`].
    Ring(RingLook),
    /// Answers [`SegmentAction::AskPace`]: the frame is early.
    PaceHeld {
        /// How early, in microseconds.
        wait_us: u64,
        /// When the question was asked.
        now: Instant,
    },
    /// Answers [`SegmentAction::AskPace`]: the frame may go.
    PaceOpen {
        /// The schedule had fallen behind and starts over.
        resynced: bool,
        /// When the next frame may go.
        next_schedule_us: u64,
    },
    /// Answers [`SegmentAction::CopySamples`].
    Copied {
        /// The writer had lapped the read cursor; nothing was copied.
        overrun: bool,
        /// Sample whose capture time is known, under the copy's lock.
        anchor_sample: u64,
        /// That capture time.
        anchor_ts_us: u64,
    },
    /// Answers [`SegmentAction::Begin`]: whether the frame could be encoded.
    Began(bool),
    /// Answers [`SegmentAction::Write`].
    Wrote(WriteOutcome),
    /// Answers [`SegmentAction::CheckBudget`].
    Budget(BudgetOutcome),
}

/// What to do next.
#[derive(Debug, Clone, Copy)]
pub enum SegmentAction {
    /// Begin a wake: read both clocks and look at the inbound accumulator.
    Wake,
    /// Wait for readiness.
    Poll {
        /// Reading is armed.
        read: bool,
        /// Writing is armed.
        write: bool,
        /// Longest wait.
        timeout: Duration,
    },
    /// Take one message off the channel without waiting.
    Receive,
    /// Read the lossless flag that says the voice gate closed.
    ReadVadFlag,
    /// Drain inbound playback up to the per-wake cap.
    PumpInbound,
    /// Read the microsecond clock.
    ReadClock,
    /// Look at the capture ring.
    LookAtRing {
        /// The read cursor.
        cursor: u64,
    },
    /// Ask the pace gate whether a frame may go.
    AskPace {
        /// Earliest time the frame may go, none before the first.
        schedule: Option<u64>,
        /// The time.
        now_us: u64,
    },
    /// Copy samples out of the ring, after looking for an overrun again.
    CopySamples {
        /// Absolute index of the first.
        first_index: u64,
        /// How many.
        count: u32,
    },
    /// Encode a frame and put it in flight.
    Begin(OutFrame),
    /// Offer the frame in flight to the transport once.
    Write,
    /// Hold the frame in flight to its write budget.
    CheckBudget,
    /// The segment is over.
    Exit(SegmentExit),
}

/// A side effect that goes before the action.
#[derive(Debug, Clone, Copy, PartialEq, Eq, Structural)]
pub enum SegmentDuty {
    /// Report the event.
    Observe(ObsEvent),
    /// Clear the write spin guard of the frame in flight.
    ResetSpinGuard,
    /// Take the inbound path's last reading before the socket goes.
    NoteInboundExit,
}

/// One turn of a segment.
#[derive(Debug)]
pub struct SegmentTurn {
    /// Side effects, in order.
    pub duties: Vec<SegmentDuty>,
    /// What to do after them.
    pub action: SegmentAction,
}

/// What the segment is waiting to hear.
#[derive(Debug, Clone, Copy, PartialEq, Eq, Structural)]
pub enum SegmentPhase {
    /// The start of a wake.
    Wake,
    /// The readiness wait.
    Poll,
    /// A channel message.
    Receive,
    /// The voice flag.
    VadFlag,
    /// The inbound pump.
    Inbound,
    /// The clock, to date the closing frame.
    CloseClock,
    /// The ring.
    Ring,
    /// The clock, to pace a full frame.
    PaceClock {
        /// Anchor sample of the ring as looked at.
        anchor_sample: u64,
        /// Its capture time.
        anchor_ts_us: u64,
    },
    /// The pace gate.
    Pace {
        /// Anchor sample of the ring as looked at.
        anchor_sample: u64,
        /// Its capture time.
        anchor_ts_us: u64,
    },
    /// The copy of a full frame.
    CopyFull {
        /// Anchor sample of the ring as looked at.
        anchor_sample: u64,
        /// Its capture time.
        anchor_ts_us: u64,
    },
    /// The copy of the residue at the close.
    CopyPartial {
        /// Samples in it.
        count: u32,
    },
    /// The encoding of a frame.
    Begin {
        /// What is being encoded.
        kind: OutboundKind,
        /// The frame is the residue, so the segment closes behind it.
        last: bool,
    },
    /// The write.
    Write,
    /// The write budget.
    Watchdog,
    /// Nothing more.
    Done(SegmentExit),
}

/// The segment's state but for its telemetry queue.
#[derive(Debug, Clone, Copy, PartialEq, Eq, Structural)]
pub struct SegmentCore {
    /// Id of the segment.
    pub segment_id: u32,
    /// Absolute index of the next sample to send.
    pub read_cursor: u64,
    /// Audio frames that went out whole.
    pub frames_sent: u32,
    /// Samples in those frames.
    pub samples_sent: u64,
    /// Times the pace schedule started over.
    pub pace_resyncs: u32,
    /// The voice gate has closed.
    pub vad_closed: bool,
    /// The frame in flight.
    pub outbound: Option<OutboundKind>,
    /// Why the segment is closing, once it is.
    pub segment_end: Option<EndReason>,
    /// The telemetry channel is gone.
    pub channel_lost: bool,
    /// The frame in flight waits for writability.
    pub write_blocked: bool,
    /// The last wake stopped with work left.
    pub work_pending: bool,
    /// Earliest time the next full frame may go.
    pub pace_schedule: Option<u64>,
    /// When a held frame becomes due.
    pub pace_deadline: Option<Instant>,
    /// Until when writability stays de-armed.
    pub spin_deadline: Option<Instant>,
    /// [`ObsEvent::PrerollDrained`] was reported.
    pub preroll_drained: bool,
    /// [`ObsEvent::WriteBlocked`] was reported.
    pub write_block_seen: bool,
    /// When [`ObsEvent::Production`] was last due.
    pub last_sample_us: u64,
    /// The inbound accumulator had room at this wake.
    pub inbound_armed: bool,
    /// The transport may hold decrypted bytes.
    pub buffers_plaintext: bool,
    /// This wake reported readability.
    pub readable: bool,
    /// This wake reported writability.
    pub writable: bool,
    /// The inbound pump stopped at its cap this wake.
    pub inbound_work: bool,
    /// The outbound pump stopped at its cap this wake.
    pub outbound_work: bool,
    /// Frames that went out whole this wake.
    pub frames_this_wake: u32,
    /// What the segment is waiting to hear.
    pub phase: SegmentPhase,
}

/// A voice segment in progress.
#[derive(Debug)]
pub struct Segment {
    /// Everything but the queue.
    pub core: SegmentCore,
    /// Telemetry waiting to go out, oldest first.
    pub pending: VecDeque<Telemetry>,
}

/// The state of a [`Segment`].
#[verifier::ext_equal]
pub struct SegmentView {
    /// Everything but the queue.
    pub core: SegmentCore,
    /// Telemetry waiting to go out, oldest first.
    pub pending: Seq<Telemetry>,
}

/// One turn as a mathematical value.
#[verifier::ext_equal]
pub struct SegmentStep {
    /// The state after the turn.
    pub next: SegmentView,
    /// Side effects, in order.
    pub duties: Seq<SegmentDuty>,
    /// What to do after them.
    pub action: SegmentAction,
}

impl View for Segment {
    type V = SegmentView;

    open spec fn view(&self) -> SegmentView {
        SegmentView { core: self.core, pending: self.pending@ }
    }
}

/// The capture time of sample `first_index`, extrapolated from an anchor at the
/// capture rate; times before the clock's origin read as the origin.
pub open spec fn frame_time(anchor_sample: u64, anchor_ts_us: u64, first_index: u64) -> int {
    if anchor_sample >= first_index {
        let back = (anchor_sample - first_index) * 1_000_000 / 16_000;
        if back <= anchor_ts_us {
            anchor_ts_us - back
        } else {
            0
        }
    } else {
        anchor_ts_us + (first_index - anchor_sample) * 1_000_000 / 16_000
    }
}

/// The distance from the anchor fits the arithmetic that dates a frame.
pub open spec fn frame_time_fits(anchor_sample: u64, anchor_ts_us: u64, first_index: u64) -> bool {
    if anchor_sample >= first_index {
        (anchor_sample - first_index) * 1_000_000 <= u64::MAX
    } else {
        &&& (first_index - anchor_sample) * 1_000_000 <= u64::MAX
        &&& anchor_ts_us + (first_index - anchor_sample) * 1_000_000 / 16_000 <= u64::MAX
    }
}

/// Whether [`frame_ts_us`] can date a frame.
pub fn can_date_frame(anchor_sample: u64, anchor_ts_us: u64, first_index: u64) -> (r: bool)
    ensures
        r == frame_time_fits(anchor_sample, anchor_ts_us, first_index),
{
    if anchor_sample >= first_index {
        anchor_sample - first_index <= u64::MAX / 1_000_000
    } else {
        let ahead: u64 = first_index - anchor_sample;
        ahead <= u64::MAX / 1_000_000 && ahead * 1_000_000 / SAMPLE_RATE_HZ <= u64::MAX
            - anchor_ts_us
    }
}

/// Wire timestamp of the frame whose first sample is `first_index`.
pub fn frame_ts_us(anchor_sample: u64, anchor_ts_us: u64, first_index: u64) -> (r: u64)
    requires
        frame_time_fits(anchor_sample, anchor_ts_us, first_index),
    ensures
        r == frame_time(anchor_sample, anchor_ts_us, first_index),
{
    if anchor_sample >= first_index {
        let delta: u64 = anchor_sample - first_index;
        anchor_ts_us.saturating_sub(delta * 1_000_000 / SAMPLE_RATE_HZ)
    } else {
        let delta: u64 = first_index - anchor_sample;
        anchor_ts_us + delta * 1_000_000 / SAMPLE_RATE_HZ
    }
}

/// The earlier of two deadlines, where there is any.
pub open spec fn earlier(a: Option<Instant>, b: Option<Instant>) -> Option<Instant> {
    match (a, b) {
        (Some(x), Some(y)) => if y.nanos < x.nanos {
            b
        } else {
            a
        },
        (Some(_), None) => a,
        _ => b,
    }
}

/// The earlier of two deadlines, where there is any.
fn earlier_of(a: Option<Instant>, b: Option<Instant>) -> (r: Option<Instant>)
    ensures
        r == earlier(a, b),
{
    match (a, b) {
        (Some(x), Some(y)) => if y.nanos < x.nanos {
            b
        } else {
            a
        },
        (Some(_), None) => a,
        _ => b,
    }
}

/// A turn that only moves to `phase`.
pub open spec fn ask(s: SegmentView, phase: SegmentPhase, action: SegmentAction) -> SegmentStep {
    SegmentStep {
        next: SegmentView { core: SegmentCore { phase, ..s.core }, ..s },
        duties: seq![],
        action,
    }
}

/// The segment is over.
pub open spec fn exit(s: SegmentView, how: SegmentExit) -> SegmentStep {
    ask(s, SegmentPhase::Done(how), SegmentAction::Exit(how))
}

/// The step with one more side effect in front.
pub open spec fn after_duty(duty: SegmentDuty, step: SegmentStep) -> SegmentStep {
    SegmentStep { duties: seq![duty] + step.duties, ..step }
}

/// The end of a wake: work that either pump left over is carried into the next.
#[verifier::opaque]
pub open spec fn end_wake(s: SegmentView) -> SegmentStep {
    let core = SegmentCore {
        work_pending: s.core.inbound_work || s.core.outbound_work,
        ..s.core
    };
    ask(SegmentView { core, ..s }, SegmentPhase::Wake, SegmentAction::Wake)
}

/// The outbound pump is done for this wake; a frame in flight is held to its budget.
#[verifier::opaque]
pub open spec fn watchdog(s: SegmentView) -> SegmentStep {
    if s.core.outbound is Some {
        ask(s, SegmentPhase::Watchdog, SegmentAction::CheckBudget)
    } else {
        end_wake(s)
    }
}

/// A frame is in flight: offer it, unless it waits for writability.
#[verifier::opaque]
pub open spec fn offer(s: SegmentView) -> SegmentStep {
    if s.core.write_blocked {
        watchdog(s)
    } else {
        ask(s, SegmentPhase::Write, SegmentAction::Write)
    }
}

/// What leaves next: the frame in flight, then the close, then telemetry oldest
/// first, then audio. A wake that completed its share of frames stops here.
#[verifier::opaque]
pub open spec fn pump(s: SegmentView) -> SegmentStep {
    if s.core.frames_this_wake >= OUTBOUND_FRAMES_PER_WAKE {
        watchdog(SegmentView { core: SegmentCore { outbound_work: true, ..s.core }, ..s })
    } else if s.core.outbound is Some {
        offer(s)
    } else if s.core.segment_end is Some {
        ask(s, SegmentPhase::CloseClock, SegmentAction::ReadClock)
    } else if s.pending.len() > 0 {
        ask(
            SegmentView { pending: s.pending.drop_first(), ..s },
            SegmentPhase::Begin { kind: OutboundKind::Telemetry, last: false },
            SegmentAction::Begin(OutFrame::Telemetry(s.pending[0])),
        )
    } else {
        ask(s, SegmentPhase::Ring, SegmentAction::LookAtRing { cursor: s.core.read_cursor })
    }
}

/// The segment closes for `reason`; the close goes out next.
#[verifier::opaque]
pub open spec fn close(s: SegmentView, reason: EndReason) -> SegmentStep {
    pump(SegmentView { core: SegmentCore { segment_end: Some(reason), ..s.core }, ..s })
}

/// The outbound pump's start.
#[verifier::opaque]
pub open spec fn start_outbound(s: SegmentView) -> SegmentStep {
    let core = SegmentCore {
        write_blocked: s.core.write_blocked && !s.core.writable,
        outbound_work: false,
        frames_this_wake: 0,
        ..s.core
    };
    pump(SegmentView { core, ..s })
}

/// The inbound direction is pumped when it was readable, when it was de-armed
/// (so that a held frame is offered again) and on every wake of a transport that
/// may hide decrypted bytes.
#[verifier::opaque]
pub open spec fn inbound_gate(s: SegmentView) -> SegmentStep {
    let quiet = SegmentView { core: SegmentCore { inbound_work: false, ..s.core }, ..s };
    if s.core.readable || !s.core.inbound_armed || s.core.buffers_plaintext {
        ask(quiet, SegmentPhase::Inbound, SegmentAction::PumpInbound)
    } else {
        start_outbound(quiet)
    }
}

/// The channel is drained. The flag backs up a close message that was dropped.
#[verifier::opaque]
pub open spec fn channel_drained(s: SegmentView) -> SegmentStep {
    if s.core.vad_closed {
        inbound_gate(s)
    } else {
        ask(s, SegmentPhase::VadFlag, SegmentAction::ReadVadFlag)
    }
}

/// The channel's next message is wanted, unless its sender is gone.
#[verifier::opaque]
pub open spec fn drain_channel(s: SegmentView) -> SegmentStep {
    if s.core.channel_lost {
        channel_drained(s)
    } else {
        ask(s, SegmentPhase::Receive, SegmentAction::Receive)
    }
}

/// A wake begins.
#[verifier::opaque]
pub open spec fn on_woke(
    s: SegmentView,
    now_us: u64,
    now: Instant,
    inbound_room: bool,
    buffers_plaintext: bool,
    write_deadline: Option<Instant>,
) -> SegmentStep {
    let due = now_us - s.core.last_sample_us >= PRODUCTION_OBS_PERIOD_US;
    let rearm = s.core.spin_deadline matches Some(d) && now.nanos >= d.nanos;
    let spin_deadline = if rearm {
        None
    } else {
        s.core.spin_deadline
    };
    let budget = if s.core.write_blocked && s.core.outbound is Some {
        write_deadline
    } else {
        None
    };
    let deadline = earlier(earlier(budget, s.core.pace_deadline), spin_deadline);
    let core = SegmentCore {
        last_sample_us: if due {
            now_us
        } else {
            s.core.last_sample_us
        },
        spin_deadline,
        pace_deadline: None,
        inbound_armed: inbound_room,
        buffers_plaintext,
        phase: SegmentPhase::Poll,
        ..s.core
    };
    SegmentStep {
        next: SegmentView { core, ..s },
        duties: (if due {
            seq![SegmentDuty::Observe(ObsEvent::Production)]
        } else {
            seq![]
        }) + (if rearm && s.core.outbound is Some {
            seq![SegmentDuty::ResetSpinGuard]
        } else {
            seq![]
        }),
        action: SegmentAction::Poll {
            read: inbound_room,
            write: s.core.write_blocked && spin_deadline is None,
            timeout: Duration {
                nanos: netpoll::poll_wait(now, deadline, s.core.work_pending) as u128,
            },
        },
    }
}

/// The wait is over.
#[verifier::opaque]
pub open spec fn on_polled(s: SegmentView, ready: Readiness) -> SegmentStep {
    if ready is Fault {
        exit(s, SegmentExit::SocketLost)
    } else {
        let core = SegmentCore {
            readable: ready.is_readable(),
            writable: ready.is_writable(),
            ..s.core
        };
        drain_channel(SegmentView { core, ..s })
    }
}

/// The channel answered. A full telemetry queue drops its oldest frame; a second
/// onset changes nothing; a vanished sender closes the segment.
#[verifier::opaque]
pub open spec fn on_received(s: SegmentView, got: Received) -> SegmentStep {
    match got {
        Received::Message(StreamerMsg::Telemetry(tel)) => {
            if s.pending.len() >= PENDING_TELEMETRY_CAP {
                after_duty(
                    SegmentDuty::Observe(ObsEvent::TelemetryDropped { cap: PENDING_TELEMETRY_CAP }),
                    drain_channel(SegmentView { pending: s.pending.drop_first().push(tel), ..s }),
                )
            } else {
                drain_channel(SegmentView { pending: s.pending.push(tel), ..s })
            }
        },
        Received::Message(StreamerMsg::VadClosed) => drain_channel(
            SegmentView { core: SegmentCore { vad_closed: true, ..s.core }, ..s },
        ),
        Received::Message(StreamerMsg::VadOpened { .. }) => drain_channel(s),
        Received::Empty => channel_drained(s),
        Received::Disconnected => {
            let core = SegmentCore {
                channel_lost: true,
                segment_end: if s.core.segment_end is Some {
                    s.core.segment_end
                } else {
                    Some(EndReason::InternalError)
                },
                ..s.core
            };
            channel_drained(SegmentView { core, ..s })
        },
    }
}

/// The ring was looked at. A lapped cursor closes the segment; a full frame goes
/// to the pace gate; a residue goes out once the voice gate has closed, and the
/// segment closes behind it; otherwise there is nothing to send yet.
#[verifier::opaque]
pub open spec fn on_ring(s: SegmentView, look: RingLook) -> SegmentStep {
    if look.overrun {
        close(s, EndReason::Overrun)
    } else if look.available >= AUDIO_SAMPLES_PER_FRAME {
        ask(
            s,
            SegmentPhase::PaceClock {
                anchor_sample: look.anchor_sample,
                anchor_ts_us: look.anchor_ts_us,
            },
            SegmentAction::ReadClock,
        )
    } else if s.core.vad_closed {
        if look.available > 0 {
            ask(
                s,
                SegmentPhase::CopyPartial { count: look.available as u32 },
                SegmentAction::CopySamples {
                    first_index: s.core.read_cursor,
                    count: look.available as u32,
                },
            )
        } else {
            close(s, EndReason::VadRelease)
        }
    } else if s.core.preroll_drained {
        watchdog(s)
    } else {
        after_duty(
            SegmentDuty::Observe(ObsEvent::PrerollDrained),
            watchdog(SegmentView { core: SegmentCore { preroll_drained: true, ..s.core }, ..s }),
        )
    }
}

/// The clock was read to date the close.
#[verifier::opaque]
pub open spec fn on_close_clock(s: SegmentView, now_us: u64) -> SegmentStep {
    ask(
        s,
        SegmentPhase::Begin { kind: OutboundKind::SegmentEnd, last: false },
        SegmentAction::Begin(
            OutFrame::SegmentEnd(
                SegmentEnd {
                    segment_id: s.core.segment_id,
                    device_ts_us: now_us,
                    frames_sent: s.core.frames_sent,
                    samples_sent: s.core.samples_sent,
                    reason: s.core.segment_end->0,
                },
            ),
        ),
    )
}

/// The pace gate holds the frame back until it is due.
#[verifier::opaque]
pub open spec fn on_pace_held(s: SegmentView, wait_us: u64, now: Instant) -> SegmentStep {
    let until = clock::moved(now, Duration { nanos: (wait_us * 1_000) as u128 });
    watchdog(SegmentView { core: SegmentCore { pace_deadline: until, ..s.core }, ..s })
}

/// The pace gate lets the frame go.
#[verifier::opaque]
pub open spec fn on_pace_open(
    s: SegmentView,
    anchor_sample: u64,
    anchor_ts_us: u64,
    resynced: bool,
    next_schedule_us: u64,
) -> SegmentStep {
    let core = SegmentCore {
        pace_resyncs: if resynced && s.core.pace_resyncs < u32::MAX {
            (s.core.pace_resyncs + 1) as u32
        } else {
            s.core.pace_resyncs
        },
        pace_schedule: Some(next_schedule_us),
        ..s.core
    };
    ask(
        SegmentView { core, ..s },
        SegmentPhase::CopyFull { anchor_sample, anchor_ts_us },
        SegmentAction::CopySamples {
            first_index: s.core.read_cursor,
            count: AUDIO_SAMPLES_PER_FRAME,
        },
    )
}

/// `count` samples at the cursor were copied; a frame dated from the anchor is
/// encoded around them. An overrun under the copy closes the segment instead.
#[verifier::opaque]
pub open spec fn on_copied(
    s: SegmentView,
    count: u32,
    last: bool,
    overrun: bool,
    anchor_sample: u64,
    anchor_ts_us: u64,
) -> SegmentStep {
    if overrun {
        close(s, EndReason::Overrun)
    } else {
        ask(
            s,
            SegmentPhase::Begin { kind: OutboundKind::Audio { samples: count }, last },
            SegmentAction::Begin(
                OutFrame::Audio(
                    AudioHeader {
                        segment_id: s.core.segment_id,
                        first_sample_index: s.core.read_cursor,
                        device_ts_us: frame_time(
                            anchor_sample,
                            anchor_ts_us,
                            s.core.read_cursor,
                        ) as u64,
                        samples: count,
                    },
                ),
            ),
        )
    }
}

/// The frame was encoded, or could not be. Audio that is in flight has left the
/// ring, so the cursor moves past it. A frame that cannot be encoded drops the
/// segment with the stream frame-aligned, except the close, without which the
/// peer cannot be left.
#[verifier::opaque]
pub open spec fn on_began(s: SegmentView, kind: OutboundKind, last: bool, ok: bool) -> SegmentStep {
    if !ok {
        exit(
            s,
            if kind == OutboundKind::SegmentEnd {
                SegmentExit::SocketLost
            } else {
                SegmentExit::SegmentDroppedSocketKept
            },
        )
    } else {
        let core = SegmentCore {
            read_cursor: (s.core.read_cursor + in_flight(Some(kind))) as u64,
            segment_end: if last {
                Some(EndReason::VadRelease)
            } else {
                s.core.segment_end
            },
            outbound: Some(kind),
            ..s.core
        };
        offer(SegmentView { core, ..s })
    }
}

/// Samples of the frame in flight.
pub open spec fn in_flight(outbound: Option<OutboundKind>) -> nat {
    match outbound {
        Some(OutboundKind::Audio { samples }) => samples as nat,
        _ => 0,
    }
}

/// The transport was offered the frame in flight.
#[verifier::opaque]
pub open spec fn on_wrote(s: SegmentView, outcome: WriteOutcome) -> SegmentStep {
    match outcome {
        WriteOutcome::Whole => match s.core.outbound {
            Some(OutboundKind::SegmentEnd) => exit(
                s,
                if s.core.channel_lost {
                    SegmentExit::SegmentDroppedSocketKept
                } else {
                    SegmentExit::Completed
                },
            ),
            sent => {
                let audio = sent is Some && sent->0 is Audio;
                let core = SegmentCore {
                    frames_sent: (s.core.frames_sent + if audio {
                        1int
                    } else {
                        0
                    }) as u32,
                    samples_sent: (s.core.samples_sent + in_flight(sent)) as u64,
                    outbound: None,
                    frames_this_wake: (s.core.frames_this_wake + 1) as u32,
                    ..s.core
                };
                pump(SegmentView { core, ..s })
            },
        },
        WriteOutcome::Partial => pump(s),
        WriteOutcome::Blocked { spin_tripped, now } => {
            let core = SegmentCore {
                write_blocked: true,
                write_block_seen: true,
                spin_deadline: if spin_tripped && s.core.spin_deadline is None {
                    clock::moved(now, Duration { nanos: 10_000_000 })
                } else {
                    s.core.spin_deadline
                },
                ..s.core
            };
            let step = watchdog(SegmentView { core, ..s });
            if s.core.write_block_seen {
                step
            } else {
                after_duty(SegmentDuty::Observe(ObsEvent::WriteBlocked), step)
            }
        },
        WriteOutcome::Failed => exit(s, SegmentExit::SocketLost),
    }
}

/// The frame in flight was held to its budget.
#[verifier::opaque]
pub open spec fn on_budget(s: SegmentView, outcome: BudgetOutcome) -> SegmentStep {
    match outcome {
        BudgetOutcome::Within => end_wake(s),
        BudgetOutcome::Aligned => exit(s, SegmentExit::SegmentDroppedSocketKept),
        BudgetOutcome::Expired => exit(s, SegmentExit::SocketLost),
    }
}

/// One turn of a segment: what `event` makes of state `s`.
pub open spec fn segment_step(s: SegmentView, event: SegmentEvent) -> SegmentStep {
    match (s.core.phase, event) {
        (
            SegmentPhase::Wake,
            SegmentEvent::Woke { now_us, now, inbound_room, buffers_plaintext, write_deadline },
        ) => on_woke(s, now_us, now, inbound_room, buffers_plaintext, write_deadline),
        (SegmentPhase::Poll, SegmentEvent::Polled(ready)) => on_polled(s, ready),
        (SegmentPhase::Receive, SegmentEvent::Received(got)) => on_received(s, got),
        (SegmentPhase::VadFlag, SegmentEvent::VadFlag(closed)) => inbound_gate(
            SegmentView { core: SegmentCore { vad_closed: closed, ..s.core }, ..s },
        ),
        (SegmentPhase::Inbound, SegmentEvent::Pumped { hit_cap }) => start_outbound(
            SegmentView { core: SegmentCore { inbound_work: hit_cap, ..s.core }, ..s },
        ),
        (SegmentPhase::Inbound, SegmentEvent::PumpFailed) => after_duty(
            SegmentDuty::NoteInboundExit,
            exit(s, SegmentExit::SocketLost),
        ),
        (SegmentPhase::CloseClock, SegmentEvent::Clock { now_us }) => on_close_clock(s, now_us),
        (SegmentPhase::Ring, SegmentEvent::Ring(look)) => on_ring(s, look),
        (
            SegmentPhase::PaceClock { anchor_sample, anchor_ts_us },
            SegmentEvent::Clock { now_us },
        ) => ask(
            s,
            SegmentPhase::Pace { anchor_sample, anchor_ts_us },
            SegmentAction::AskPace { schedule: s.core.pace_schedule, now_us },
        ),
        (SegmentPhase::Pace { .. }, SegmentEvent::PaceHeld { wait_us, now }) => on_pace_held(
            s,
            wait_us,
            now,
        ),
        (
            SegmentPhase::Pace { anchor_sample, anchor_ts_us },
            SegmentEvent::PaceOpen { resynced, next_schedule_us },
        ) => on_pace_open(s, anchor_sample, anchor_ts_us, resynced, next_schedule_us),
        (
            SegmentPhase::CopyFull { anchor_sample, anchor_ts_us },
            SegmentEvent::Copied { overrun, .. },
        ) => on_copied(s, AUDIO_SAMPLES_PER_FRAME, false, overrun, anchor_sample, anchor_ts_us),
        (
            SegmentPhase::CopyPartial { count },
            SegmentEvent::Copied { overrun, anchor_sample, anchor_ts_us },
        ) => on_copied(s, count, true, overrun, anchor_sample, anchor_ts_us),
        (SegmentPhase::Begin { kind, last }, SegmentEvent::Began(ok)) => on_began(
            s,
            kind,
            last,
            ok,
        ),
        (SegmentPhase::Write, SegmentEvent::Wrote(outcome)) => on_wrote(s, outcome),
        (SegmentPhase::Watchdog, SegmentEvent::Budget(outcome)) => on_budget(s, outcome),
        _ => ask(s, s.core.phase, SegmentAction::Wake),
    }
}

/// The event answers what the segment asked, and the counters have room for it.
pub open spec fn answers(s: SegmentView, event: SegmentEvent) -> bool {
    match (s.core.phase, event) {
        (SegmentPhase::Wake, SegmentEvent::Woke { .. }) => true,
        (SegmentPhase::Poll, SegmentEvent::Polled(_)) => true,
        (SegmentPhase::Receive, SegmentEvent::Received(_)) => true,
        (SegmentPhase::VadFlag, SegmentEvent::VadFlag(_)) => true,
        (SegmentPhase::Inbound, SegmentEvent::Pumped { .. }) => true,
        (SegmentPhase::Inbound, SegmentEvent::PumpFailed) => true,
        (SegmentPhase::CloseClock, SegmentEvent::Clock { .. }) => s.core.segment_end is Some,
        (SegmentPhase::Ring, SegmentEvent::Ring(_)) => true,
        (SegmentPhase::PaceClock { .. }, SegmentEvent::Clock { .. }) => true,
        (SegmentPhase::Pace { .. }, SegmentEvent::PaceHeld { wait_us, now }) => now.nanos + wait_us
            * 1_000 <= u128::MAX,
        (SegmentPhase::Pace { .. }, SegmentEvent::PaceOpen { .. }) => true,
        (
            SegmentPhase::CopyFull { anchor_sample, anchor_ts_us },
            SegmentEvent::Copied { overrun, .. },
        ) => overrun || frame_time_fits(anchor_sample, anchor_ts_us, s.core.read_cursor),
        (
            SegmentPhase::CopyPartial { .. },
            SegmentEvent::Copied { overrun, anchor_sample, anchor_ts_us },
        ) => overrun || frame_time_fits(anchor_sample, anchor_ts_us, s.core.read_cursor),
        (SegmentPhase::Begin { kind, .. }, SegmentEvent::Began(ok)) => ok ==> s.core.read_cursor
            + in_flight(Some(kind)) <= u64::MAX,
        (SegmentPhase::Write, SegmentEvent::Wrote(outcome)) => match outcome {
            WriteOutcome::Whole => {
                &&& s.core.frames_sent < u32::MAX
                &&& s.core.frames_this_wake < u32::MAX
                &&& s.core.samples_sent + in_flight(s.core.outbound) <= u64::MAX
            },
            WriteOutcome::Blocked { now, .. } => now.nanos + 10_000_000 <= u128::MAX,
            _ => true,
        },
        (SegmentPhase::Watchdog, SegmentEvent::Budget(_)) => true,
        _ => false,
    }
}

/// The turn that was taken, as a mathematical value.
pub open spec fn taken(
    next: SegmentView,
    duties: Seq<SegmentDuty>,
    action: SegmentAction,
) -> SegmentStep {
    SegmentStep { next, duties, action }
}

impl Segment {
    /// A segment whose `SegmentStart` has been sent, reading from `read_cursor`.
    /// Its first wake does not wait, so that the pre-roll starts to drain at once.
    pub fn new(segment_id: u32, read_cursor: u64, now_us: u64) -> (r: (Segment, SegmentTurn))
        ensures
            r.0@ == opened(segment_id, read_cursor, now_us),
            r.1.duties@ == seq![SegmentDuty::Observe(ObsEvent::SegmentOpen)],
            r.1.action == SegmentAction::Wake,
    {
        let core = SegmentCore {
            segment_id,
            read_cursor,
            frames_sent: 0,
            samples_sent: 0,
            pace_resyncs: 0,
            vad_closed: false,
            outbound: None,
            segment_end: None,
            channel_lost: false,
            write_blocked: false,
            work_pending: true,
            pace_schedule: None,
            pace_deadline: None,
            spin_deadline: None,
            preroll_drained: false,
            write_block_seen: false,
            last_sample_us: now_us,
            inbound_armed: false,
            buffers_plaintext: false,
            readable: false,
            writable: false,
            inbound_work: false,
            outbound_work: false,
            frames_this_wake: 0,
            phase: SegmentPhase::Wake,
        };
        let pending: VecDeque<Telemetry> = VecDeque::new();
        let segment = Segment { core, pending };
        let mut duties: Vec<SegmentDuty> = Vec::new();
        duties.push(SegmentDuty::Observe(ObsEvent::SegmentOpen));
        assert(duties@ =~= seq![SegmentDuty::Observe(ObsEvent::SegmentOpen)]);
        (segment, SegmentTurn { duties, action: SegmentAction::Wake })
    }

    fn ask(&mut self, phase: SegmentPhase, action: SegmentAction) -> (a: SegmentAction)
        ensures
            taken(final(self)@, seq![], a) == ask(old(self)@, phase, action),
    {
        self.core.phase = phase;
        action
    }

    fn exit(&mut self, how: SegmentExit) -> (a: SegmentAction)
        ensures
            taken(final(self)@, seq![], a) == exit(old(self)@, how),
    {
        self.ask(SegmentPhase::Done(how), SegmentAction::Exit(how))
    }

    fn end_wake(&mut self) -> (a: SegmentAction)
        ensures
            taken(final(self)@, seq![], a) == end_wake(old(self)@),
    {
        proof {
            reveal(end_wake);
        }
        self.core.work_pending = self.core.inbound_work || self.core.outbound_work;
        self.ask(SegmentPhase::Wake, SegmentAction::Wake)
    }

    fn watchdog(&mut self) -> (a: SegmentAction)
        ensures
            taken(final(self)@, seq![], a) == watchdog(old(self)@),
    {
        proof {
            reveal(watchdog);
        }
        if self.core.outbound.is_some() {
            self.ask(SegmentPhase::Watchdog, SegmentAction::CheckBudget)
        } else {
            self.end_wake()
        }
    }

    fn offer(&mut self) -> (a: SegmentAction)
        ensures
            taken(final(self)@, seq![], a) == offer(old(self)@),
    {
        proof {
            reveal(offer);
        }
        if self.core.write_blocked {
            self.watchdog()
        } else {
            self.ask(SegmentPhase::Write, SegmentAction::Write)
        }
    }

    fn pump(&mut self) -> (a: SegmentAction)
        ensures
            taken(final(self)@, seq![], a) == pump(old(self)@),
    {
        proof {
            reveal(pump);
        }
        if self.core.frames_this_wake >= OUTBOUND_FRAMES_PER_WAKE {
            self.core.outbound_work = true;
            return self.watchdog();
        }
        if self.core.outbound.is_some() {
            return self.offer();
        }
        if self.core.segment_end.is_some() {
            return self.ask(SegmentPhase::CloseClock, SegmentAction::ReadClock);
        }
        match self.pending.pop_front() {
            Some(tel) => {
                assert(self.pending@ =~= old(self)@.pending.drop_first());
                self.ask(
                    SegmentPhase::Begin { kind: OutboundKind::Telemetry, last: false },
                    SegmentAction::Begin(OutFrame::Telemetry(tel)),
                )
            },
            None => {
                let cursor: u64 = self.core.read_cursor;
                self.ask(SegmentPhase::Ring, SegmentAction::LookAtRing { cursor })
            },
        }
    }

    fn close(&mut self, reason: EndReason) -> (a: SegmentAction)
        ensures
            taken(final(self)@, seq![], a) == close(old(self)@, reason),
    {
        proof {
            reveal(close);
        }
        self.core.segment_end = Some(reason);
        self.pump()
    }

    fn start_outbound(&mut self) -> (a: SegmentAction)
        ensures
            taken(final(self)@, seq![], a) == start_outbound(old(self)@),
    {
        proof {
            reveal(start_outbound);
        }
        if self.core.writable {
            self.core.write_blocked = false;
        }
        self.core.outbound_work = false;
        self.core.frames_this_wake = 0;
        self.pump()
    }

    fn inbound_gate(&mut self) -> (a: SegmentAction)
        ensures
            taken(final(self)@, seq![], a) == inbound_gate(old(self)@),
    {
        proof {
            reveal(inbound_gate);
        }
        self.core.inbound_work = false;
        if self.core.readable || !self.core.inbound_armed || self.core.buffers_plaintext {
            self.ask(SegmentPhase::Inbound, SegmentAction::PumpInbound)
        } else {
            self.start_outbound()
        }
    }

    fn channel_drained(&mut self) -> (a: SegmentAction)
        ensures
            taken(final(self)@, seq![], a) == channel_drained(old(self)@),
    {
        proof {
            reveal(channel_drained);
        }
        if self.core.vad_closed {
            self.inbound_gate()
        } else {
            self.ask(SegmentPhase::VadFlag, SegmentAction::ReadVadFlag)
        }
    }

    fn drain_channel(&mut self) -> (a: SegmentAction)
        ensures
            taken(final(self)@, seq![], a) == drain_channel(old(self)@),
    {
        proof {
            reveal(drain_channel);
        }
        if self.core.channel_lost {
            self.channel_drained()
        } else {
            self.ask(SegmentPhase::Receive, SegmentAction::Receive)
        }
    }

    fn on_woke(
        &mut self,
        now_us: u64,
        now: Instant,
        inbound_room: bool,
        buffers_plaintext: bool,
        write_deadline: Option<Instant>,
    ) -> (turn: SegmentTurn)
        ensures
            taken(final(self)@, turn.duties@, turn.action) == on_woke(
                old(self)@,
                now_us,
                now,
                inbound_room,
                buffers_plaintext,
                write_deadline,
            ),
    {
        proof {
            reveal(on_woke);
        }
        let core = self.core;
        let due = now_us.saturating_sub(core.last_sample_us) >= PRODUCTION_OBS_PERIOD_US;
        let rearm = match core.spin_deadline {
            Some(d) => now.nanos >= d.nanos,
            None => false,
        };
        let spin_deadline = if rearm {
            None
        } else {
            core.spin_deadline
        };
        let budget = if core.write_blocked && core.outbound.is_some() {
            write_deadline
        } else {
            None
        };
        let deadline = earlier_of(earlier_of(budget, core.pace_deadline), spin_deadline);
        let timeout = poll_timeout(now, deadline, core.work_pending);
        let write = core.write_blocked && spin_deadline.is_none();
        let mut duties: Vec<SegmentDuty> = Vec::new();
        if due {
            duties.push(SegmentDuty::Observe(ObsEvent::Production));
        }
        if rearm && core.outbound.is_some() {
            duties.push(SegmentDuty::ResetSpinGuard);
        }
        assert(duties@ =~= on_woke(
            old(self)@,
            now_us,
            now,
            inbound_room,
            buffers_plaintext,
            write_deadline,
        ).duties);
        self.core = SegmentCore {
            last_sample_us: if due {
                now_us
            } else {
                core.last_sample_us
            },
            spin_deadline,
            pace_deadline: None,
            inbound_armed: inbound_room,
            buffers_plaintext,
            phase: SegmentPhase::Poll,
            ..core
        };
        SegmentTurn { duties, action: SegmentAction::Poll { read: inbound_room, write, timeout } }
    }

    fn on_polled(&mut self, ready: Readiness) -> (turn: SegmentTurn)
        ensures
            taken(final(self)@, turn.duties@, turn.action) == on_polled(old(self)@, ready),
    {
        proof {
            reveal(on_polled);
        }
        if let Readiness::Fault(_) = &ready {
            return quiet_turn(self.exit(SegmentExit::SocketLost));
        }
        self.core = SegmentCore {
            readable: ready.readable(),
            writable: ready.writable(),
            ..self.core
        };
        quiet_turn(self.drain_channel())
    }

    fn on_telemetry(&mut self, tel: Telemetry) -> (turn: SegmentTurn)
        ensures
            taken(final(self)@, turn.duties@, turn.action) == on_received(
                old(self)@,
                Received::Message(StreamerMsg::Telemetry(tel)),
            ),
    {
        proof {
            reveal(on_received);
        }
        if self.pending.len() >= PENDING_TELEMETRY_CAP {
            let _ = self.pending.pop_front();
            self.pending.push_back(tel);
            assert(self.pending@ =~= old(self)@.pending.drop_first().push(tel));
            let action = self.drain_channel();
            turn_with(
                SegmentDuty::Observe(ObsEvent::TelemetryDropped { cap: PENDING_TELEMETRY_CAP }),
                action,
            )
        } else {
            self.pending.push_back(tel);
            quiet_turn(self.drain_channel())
        }
    }

    fn on_received(&mut self, got: Received) -> (turn: SegmentTurn)
        ensures
            taken(final(self)@, turn.duties@, turn.action) == on_received(old(self)@, got),
    {
        proof {
            reveal(on_received);
        }
        match got {
            Received::Message(StreamerMsg::Telemetry(tel)) => self.on_telemetry(tel),
            Received::Message(StreamerMsg::VadClosed) => {
                self.core = SegmentCore { vad_closed: true, ..self.core };
                quiet_turn(self.drain_channel())
            },
            Received::Message(StreamerMsg::VadOpened { .. }) => quiet_turn(self.drain_channel()),
            Received::Empty => quiet_turn(self.channel_drained()),
            Received::Disconnected => {
                let segment_end = if self.core.segment_end.is_some() {
                    self.core.segment_end
                } else {
                    Some(EndReason::InternalError)
                };
                self.core = SegmentCore { channel_lost: true, segment_end, ..self.core };
                quiet_turn(self.channel_drained())
            },
        }
    }

    fn on_close_clock(&mut self, now_us: u64) -> (turn: SegmentTurn)
        requires
            old(self)@.core.segment_end is Some,
        ensures
            taken(final(self)@, turn.duties@, turn.action) == on_close_clock(old(self)@, now_us),
    {
        proof {
            reveal(on_close_clock);
        }
        let reason = self.core.segment_end.unwrap();
        let end = SegmentEnd {
            segment_id: self.core.segment_id,
            device_ts_us: now_us,
            frames_sent: self.core.frames_sent,
            samples_sent: self.core.samples_sent,
            reason,
        };
        quiet_turn(
            self.ask(
                SegmentPhase::Begin { kind: OutboundKind::SegmentEnd, last: false },
                SegmentAction::Begin(OutFrame::SegmentEnd(end)),
            ),
        )
    }

    fn on_ring(&mut self, look: RingLook) -> (turn: SegmentTurn)
        ensures
            taken(final(self)@, turn.duties@, turn.action) == on_ring(old(self)@, look),
    {
        proof {
            reveal(on_ring);
        }
        let cursor: u64 = self.core.read_cursor;
        if look.overrun {
            quiet_turn(self.close(EndReason::Overrun))
        } else if look.available >= AUDIO_SAMPLES_PER_FRAME as u64 {
            quiet_turn(
                self.ask(
                    SegmentPhase::PaceClock {
                        anchor_sample: look.anchor_sample,
                        anchor_ts_us: look.anchor_ts_us,
                    },
                    SegmentAction::ReadClock,
                ),
            )
        } else if self.core.vad_closed {
            if look.available > 0 {
                let count: u32 = look.available as u32;
                quiet_turn(
                    self.ask(
                        SegmentPhase::CopyPartial { count },
                        SegmentAction::CopySamples { first_index: cursor, count },
                    ),
                )
            } else {
                quiet_turn(self.close(EndReason::VadRelease))
            }
        } else if self.core.preroll_drained {
            quiet_turn(self.watchdog())
        } else {
            self.core = SegmentCore { preroll_drained: true, ..self.core };
            let action = self.watchdog();
            turn_with(SegmentDuty::Observe(ObsEvent::PrerollDrained), action)
        }
    }

    fn on_pace_held(&mut self, wait_us: u64, now: Instant) -> (turn: SegmentTurn)
        ensures
            taken(final(self)@, turn.duties@, turn.action) == on_pace_held(
                old(self)@,
                wait_us,
                now,
            ),
    {
        proof {
            reveal(on_pace_held);
        }
        let pace_deadline = now.checked_add(Duration::from_micros(wait_us));
        self.core = SegmentCore { pace_deadline, ..self.core };
        quiet_turn(self.watchdog())
    }

    fn on_pace_open(
        &mut self,
        anchor_sample: u64,
        anchor_ts_us: u64,
        resynced: bool,
        next_schedule_us: u64,
    ) -> (turn: SegmentTurn)
        ensures
            taken(final(self)@, turn.duties@, turn.action) == on_pace_open(
                old(self)@,
                anchor_sample,
                anchor_ts_us,
                resynced,
                next_schedule_us,
            ),
    {
        proof {
            reveal(on_pace_open);
        }
        let first_index: u64 = self.core.read_cursor;
        let pace_resyncs: u32 = if resynced {
            self.core.pace_resyncs.saturating_add(1)
        } else {
            self.core.pace_resyncs
        };
        self.core = SegmentCore {
            pace_resyncs,
            pace_schedule: Some(next_schedule_us),
            ..self.core
        };
        quiet_turn(
            self.ask(
                SegmentPhase::CopyFull { anchor_sample, anchor_ts_us },
                SegmentAction::CopySamples { first_index, count: AUDIO_SAMPLES_PER_FRAME },
            ),
        )
    }

    fn on_copied(
        &mut self,
        count: u32,
        last: bool,
        overrun: bool,
        anchor_sample: u64,
        anchor_ts_us: u64,
    ) -> (a: SegmentAction)
        requires
            overrun || frame_time_fits(anchor_sample, anchor_ts_us, old(self)@.core.read_cursor),
        ensures
            taken(final(self)@, seq![], a) == on_copied(
                old(self)@,
                count,
                last,
                overrun,
                anchor_sample,
                anchor_ts_us,
            ),
    {
        proof {
            reveal(on_copied);
        }
        if overrun {
            return self.close(EndReason::Overrun);
        }
        let header = AudioHeader {
            segment_id: self.core.segment_id,
            first_sample_index: self.core.read_cursor,
            device_ts_us: frame_ts_us(anchor_sample, anchor_ts_us, self.core.read_cursor),
            samples: count,
        };
        self.ask(
            SegmentPhase::Begin { kind: OutboundKind::Audio { samples: count }, last },
            SegmentAction::Begin(OutFrame::Audio(header)),
        )
    }

    fn on_began(&mut self, kind: OutboundKind, last: bool, ok: bool) -> (a: SegmentAction)
        requires
            ok ==> old(self)@.core.read_cursor + in_flight(Some(kind)) <= u64::MAX,
        ensures
            taken(final(self)@, seq![], a) == on_began(old(self)@, kind, last, ok),
    {
        proof {
            reveal(on_began);
        }
        if !ok {
            return if kind == OutboundKind::SegmentEnd {
                self.exit(SegmentExit::SocketLost)
            } else {
                self.exit(SegmentExit::SegmentDroppedSocketKept)
            };
        }
        let samples: u64 = match kind {
            OutboundKind::Audio { samples } => samples as u64,
            _ => 0,
        };
        self.core = SegmentCore {
            read_cursor: self.core.read_cursor + samples,
            segment_end: if last {
                Some(EndReason::VadRelease)
            } else {
                self.core.segment_end
            },
            outbound: Some(kind),
            ..self.core
        };
        self.offer()
    }

    fn on_sent(&mut self) -> (turn: SegmentTurn)
        requires
            old(self)@.core.phase == SegmentPhase::Write,
            answers(old(self)@, SegmentEvent::Wrote(WriteOutcome::Whole)),
        ensures
            taken(final(self)@, turn.duties@, turn.action) == on_wrote(
                old(self)@,
                WriteOutcome::Whole,
            ),
    {
        proof {
            reveal(on_wrote);
        }
        let core = self.core;
        match core.outbound {
            Some(OutboundKind::SegmentEnd) => {
                if core.channel_lost {
                    quiet_turn(self.exit(SegmentExit::SegmentDroppedSocketKept))
                } else {
                    quiet_turn(self.exit(SegmentExit::Completed))
                }
            },
            sent => {
                let (frames, samples): (u32, u64) = match sent {
                    Some(OutboundKind::Audio { samples }) => (1u32, samples as u64),
                    _ => (0u32, 0u64),
                };
                self.core = SegmentCore {
                    frames_sent: core.frames_sent + frames,
                    samples_sent: core.samples_sent + samples,
                    outbound: None,
                    frames_this_wake: core.frames_this_wake + 1,
                    ..core
                };
                quiet_turn(self.pump())
            },
        }
    }

    fn on_blocked(&mut self, spin_tripped: bool, now: Instant) -> (turn: SegmentTurn)
        ensures
            taken(final(self)@, turn.duties@, turn.action) == on_wrote(
                old(self)@,
                WriteOutcome::Blocked { spin_tripped, now },
            ),
    {
        proof {
            reveal(on_wrote);
        }
        let core = self.core;
        let spin_deadline = if spin_tripped && core.spin_deadline.is_none() {
            now.checked_add(Duration::from_millis(SPIN_BACKOFF_MS))
        } else {
            core.spin_deadline
        };
        self.core = SegmentCore {
            write_blocked: true,
            write_block_seen: true,
            spin_deadline,
            ..core
        };
        let action = self.watchdog();
        if core.write_block_seen {
            quiet_turn(action)
        } else {
            turn_with(SegmentDuty::Observe(ObsEvent::WriteBlocked), action)
        }
    }

    fn on_wrote(&mut self, outcome: WriteOutcome) -> (turn: SegmentTurn)
        requires
            old(self)@.core.phase == SegmentPhase::Write,
            answers(old(self)@, SegmentEvent::Wrote(outcome)),
        ensures
            taken(final(self)@, turn.duties@, turn.action) == on_wrote(old(self)@, outcome),
    {
        proof {
            reveal(on_wrote);
        }
        match outcome {
            WriteOutcome::Whole => self.on_sent(),
            WriteOutcome::Partial => quiet_turn(self.pump()),
            WriteOutcome::Blocked { spin_tripped, now } => self.on_blocked(spin_tripped, now),
            WriteOutcome::Failed => quiet_turn(self.exit(SegmentExit::SocketLost)),
        }
    }

    fn on_budget(&mut self, outcome: BudgetOutcome) -> (turn: SegmentTurn)
        ensures
            taken(final(self)@, turn.duties@, turn.action) == on_budget(old(self)@, outcome),
    {
        proof {
            reveal(on_budget);
        }
        match outcome {
            BudgetOutcome::Within => quiet_turn(self.end_wake()),
            BudgetOutcome::Aligned => quiet_turn(self.exit(SegmentExit::SegmentDroppedSocketKept)),
            BudgetOutcome::Expired => quiet_turn(self.exit(SegmentExit::SocketLost)),
        }
    }

    /// Whether `event` answers what this segment asked and its counters have
    /// room for it.
    pub fn accepts(&self, event: &SegmentEvent) -> (r: bool)
        ensures
            r == answers(self@, *event),
    {
        let cursor: u64 = self.core.read_cursor;
        match (self.core.phase, event) {
            (SegmentPhase::Wake, SegmentEvent::Woke { .. }) => true,
            (SegmentPhase::Poll, SegmentEvent::Polled(_)) => true,
            (SegmentPhase::Receive, SegmentEvent::Received(_)) => true,
            (SegmentPhase::VadFlag, SegmentEvent::VadFlag(_)) => true,
            (SegmentPhase::Inbound, SegmentEvent::Pumped { .. }) => true,
            (SegmentPhase::Inbound, SegmentEvent::PumpFailed) => true,
            (SegmentPhase::CloseClock, SegmentEvent::Clock { .. }) => {
                self.core.segment_end.is_some()
            },
            (SegmentPhase::Ring, SegmentEvent::Ring(_)) => true,
            (SegmentPhase::PaceClock { .. }, SegmentEvent::Clock { .. }) => true,
            (SegmentPhase::Pace { .. }, SegmentEvent::PaceHeld { wait_us, now }) => {
                now.checked_add(Duration::from_micros(*wait_us)).is_some()
            },
            (SegmentPhase::Pace { .. }, SegmentEvent::PaceOpen { .. }) => true,
            (
                SegmentPhase::CopyFull { anchor_sample, anchor_ts_us },
                SegmentEvent::Copied { overrun, .. },
            ) => *overrun || can_date_frame(anchor_sample, anchor_ts_us, cursor),
            (
                SegmentPhase::CopyPartial { .. },
                SegmentEvent::Copied { overrun, anchor_sample, anchor_ts_us },
            ) => *overrun || can_date_frame(*anchor_sample, *anchor_ts_us, cursor),
            (SegmentPhase::Begin { kind, .. }, SegmentEvent::Began(ok)) => {
                match kind {
                    OutboundKind::Audio { samples } => !*ok || samples as u64 <= u64::MAX - cursor,
                    _ => true,
                }
            },
            (SegmentPhase::Write, SegmentEvent::Wrote(outcome)) => match outcome {
                WriteOutcome::Whole => {
                    self.core.frames_sent < u32::MAX && self.core.frames_this_wake < u32::MAX
                        && match self.core.outbound {
                        Some(OutboundKind::Audio { samples }) => samples as u64 <= u64::MAX
                            - self.core.samples_sent,
                        _ => true,
                    }
                },
                WriteOutcome::Blocked { now, .. } => {
                    now.checked_add(Duration::from_millis(SPIN_BACKOFF_MS)).is_some()
                },
                _ => true,
            },
            (SegmentPhase::Watchdog, SegmentEvent::Budget(_)) => true,
            _ => false,
        }
    }

    /// One turn: takes what came of the last action and names the next.
    pub fn step(&mut self, event: SegmentEvent) -> (turn: SegmentTurn)
        requires
            answers(old(self)@, event),
        ensures
            taken(final(self)@, turn.duties@, turn.action) == segment_step(old(self)@, event),
    {
        match (self.core.phase, event) {
            (
                SegmentPhase::Wake,
                SegmentEvent::Woke { now_us, now, inbound_room, buffers_plaintext, write_deadline },
            ) => self.on_woke(now_us, now, inbound_room, buffers_plaintext, write_deadline),
            (SegmentPhase::Poll, SegmentEvent::Polled(ready)) => self.on_polled(ready),
            (SegmentPhase::Receive, SegmentEvent::Received(got)) => self.on_received(got),
            (SegmentPhase::VadFlag, SegmentEvent::VadFlag(vad_closed)) => {
                self.core = SegmentCore { vad_closed, ..self.core };
                quiet_turn(self.inbound_gate())
            },
            (SegmentPhase::Inbound, SegmentEvent::Pumped { hit_cap }) => {
                self.core = SegmentCore { inbound_work: hit_cap, ..self.core };
                quiet_turn(self.start_outbound())
            },
            (SegmentPhase::Inbound, SegmentEvent::PumpFailed) => {
                let action = self.exit(SegmentExit::SocketLost);
                turn_with(SegmentDuty::NoteInboundExit, action)
            },
            (SegmentPhase::CloseClock, SegmentEvent::Clock { now_us }) => {
                self.on_close_clock(now_us)
            },
            (SegmentPhase::Ring, SegmentEvent::Ring(look)) => self.on_ring(look),
            (
                SegmentPhase::PaceClock { anchor_sample, anchor_ts_us },
                SegmentEvent::Clock { now_us },
            ) => {
                let schedule = self.core.pace_schedule;
                quiet_turn(
                    self.ask(
                        SegmentPhase::Pace { anchor_sample, anchor_ts_us },
                        SegmentAction::AskPace { schedule, now_us },
                    ),
                )
            },
            (SegmentPhase::Pace { .. }, SegmentEvent::PaceHeld { wait_us, now }) => {
                self.on_pace_held(wait_us, now)
            },
            (
                SegmentPhase::Pace { anchor_sample, anchor_ts_us },
                SegmentEvent::PaceOpen { resynced, next_schedule_us },
            ) => self.on_pace_open(anchor_sample, anchor_ts_us, resynced, next_schedule_us),
            (
                SegmentPhase::CopyFull { anchor_sample, anchor_ts_us },
                SegmentEvent::Copied { overrun, .. },
            ) => quiet_turn(
                self.on_copied(
                    AUDIO_SAMPLES_PER_FRAME,
                    false,
                    overrun,
                    anchor_sample,
                    anchor_ts_us,
                ),
            ),
            (
                SegmentPhase::CopyPartial { count },
                SegmentEvent::Copied { overrun, anchor_sample, anchor_ts_us },
            ) => quiet_turn(
                self.on_copied(count, true, overrun, anchor_sample, anchor_ts_us),
            ),
            (SegmentPhase::Begin { kind, last }, SegmentEvent::Began(ok)) => quiet_turn(
                self.on_began(kind, last, ok),
            ),
            (SegmentPhase::Write, SegmentEvent::Wrote(outcome)) => self.on_wrote(outcome),
            (SegmentPhase::Watchdog, SegmentEvent::Budget(outcome)) => self.on_budget(outcome),
            _ => quiet_turn(SegmentAction::Wake),
        }
    }
}

/// A turn without side effects.
fn quiet_turn(action: SegmentAction) -> (turn: SegmentTurn)
    ensures
        turn.action == action,
        turn.duties@ == Seq::<SegmentDuty>::empty(),
{
    SegmentTurn { duties: Vec::new(), action }
}

/// A turn with one side effect.
fn turn_with(duty: SegmentDuty, action: SegmentAction) -> (turn: SegmentTurn)
    ensures
        turn.action == action,
        turn.duties@ == seq![duty] + Seq::<SegmentDuty>::empty(),
{
    let mut duties: Vec<SegmentDuty> = Vec::new();
    duties.push(duty);
    assert(duties@ =~= seq![duty] + Seq::<SegmentDuty>::empty());
    SegmentTurn { duties, action }
}

/// The state of a segment that has just opened.
pub open spec fn opened(segment_id: u32, read_cursor: u64, now_us: u64) -> SegmentView {
    SegmentView {
        core: SegmentCore {
            segment_id,
            read_cursor,
            frames_sent: 0,
            samples_sent: 0,
            pace_resyncs: 0,
            vad_closed: false,
            outbound: None,
            segment_end: None,
            channel_lost: false,
            write_blocked: false,
            work_pending: true,
            pace_schedule: None,
            pace_deadline: None,
            spin_deadline: None,
            preroll_drained: false,
            write_block_seen: false,
            last_sample_us: now_us,
            inbound_armed: false,
            buffers_plaintext: false,
            readable: false,
            writable: false,
            inbound_work: false,
            outbound_work: false,
            frames_this_wake: 0,
            phase: SegmentPhase::Wake,
        },
        pending: seq![],
    }
}

} // verus!
