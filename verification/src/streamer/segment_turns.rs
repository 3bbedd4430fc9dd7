//! What each turn of a voice segment comes to: which parts of its state an event can
//! move, and what is done next.

use vstd::prelude::*;

use crate::clock::Instant;
use crate::streamer::netpoll::{self, Readiness};
use crate::streamer::segment::{
    self, BudgetOutcome, EndReason, ObsEvent, OutFrame, OutboundKind, Received,
    RingLook, SegmentAction, SegmentCore, SegmentDuty, SegmentEnd, SegmentEvent, SegmentExit,
    SegmentPhase, SegmentStep, SegmentView, StreamerMsg, WriteOutcome,
};

verus! {

/// The outbound pump, starting from `s`, picks what leaves next: the frame in flight,
/// unless it waits for writability; then the close; then telemetry, oldest first; then
/// audio from the cursor on. A wake that completed sixteen frames picks nothing more.
pub open spec fn picks(s: SegmentView, step: SegmentStep) -> bool {
    let telemetry = s.core.frames_this_wake < 16 && s.core.outbound is None
        && s.core.segment_end is None && s.pending.len() > 0;
    &&& step.duties.len() == 0
    &&& step.next.pending == if telemetry {
        s.pending.drop_first()
    } else {
        s.pending
    }
    &&& if s.core.frames_this_wake >= 16 || (s.core.outbound is Some && s.core.write_blocked) {
        if s.core.outbound is Some {
            &&& step.action == SegmentAction::CheckBudget
            &&& step.next.core.phase == SegmentPhase::Watchdog
        } else {
            &&& step.action == SegmentAction::Wake
            &&& step.next.core.phase == SegmentPhase::Wake
        }
    } else if s.core.outbound is Some {
        &&& step.action == SegmentAction::Write
        &&& step.next.core.phase == SegmentPhase::Write
    } else if s.core.segment_end is Some {
        &&& step.action == SegmentAction::ReadClock
        &&& step.next.core.phase == SegmentPhase::CloseClock
    } else if telemetry {
        &&& step.action == SegmentAction::Begin(OutFrame::Telemetry(s.pending[0]))
        &&& step.next.core.phase == (SegmentPhase::Begin {
            kind: OutboundKind::Telemetry,
            last: false,
        })
    } else {
        &&& step.action == SegmentAction::LookAtRing { cursor: s.core.read_cursor }
        &&& step.next.core.phase == SegmentPhase::Ring
    }
}

/// A stage of the pump moved nothing of `s` but what it is waiting to hear and whether
/// work is left.
pub open spec fn only_moves_on(s: SegmentView, step: SegmentStep) -> bool {
    step.next.core == (SegmentCore {
        phase: step.next.core.phase,
        outbound_work: step.next.core.outbound_work,
        work_pending: step.next.core.work_pending,
        ..s.core
    })
}

proof fn the_watchdog_moves_on(s: SegmentView)
    ensures
        ({
            let step = segment::watchdog(s);
            &&& step.duties.len() == 0
            &&& step.next.pending == s.pending
            &&& s.core.outbound is Some ==> step.action == SegmentAction::CheckBudget
                && step.next.core == (SegmentCore { phase: SegmentPhase::Watchdog, ..s.core })
            &&& s.core.outbound is None ==> step.action == SegmentAction::Wake && step.next.core
                == (SegmentCore {
                phase: SegmentPhase::Wake,
                work_pending: s.core.inbound_work || s.core.outbound_work,
                ..s.core
            })
        }),
{
    reveal(segment::watchdog);
    reveal(segment::end_wake);
}

proof fn the_offer_moves_on(s: SegmentView)
    requires
        s.core.outbound is Some,
    ensures
        ({
            let step = segment::offer(s);
            &&& step.duties.len() == 0
            &&& step.next.pending == s.pending
            &&& s.core.write_blocked ==> step.action == SegmentAction::CheckBudget
                && step.next.core == (SegmentCore { phase: SegmentPhase::Watchdog, ..s.core })
            &&& !s.core.write_blocked ==> step.action == SegmentAction::Write && step.next.core
                == (SegmentCore { phase: SegmentPhase::Write, ..s.core })
        }),
{
    reveal(segment::offer);
    the_watchdog_moves_on(s);
}

proof fn a_capped_pump(s: SegmentView)
    requires
        s.core.frames_this_wake >= 16,
    ensures
        picks(s, segment::pump(s)),
        segment::pump(s).next.core == (SegmentCore {
            outbound_work: true,
            phase: segment::pump(s).next.core.phase,
            work_pending: s.core.outbound is None || s.core.work_pending,
            ..s.core
        }),
{
    reveal(segment::pump);
    the_watchdog_moves_on(SegmentView { core: SegmentCore { outbound_work: true, ..s.core }, ..s });
}

proof fn an_uncapped_pump(s: SegmentView)
    requires
        s.core.frames_this_wake < 16,
    ensures
        picks(s, segment::pump(s)),
        segment::pump(s).next.core == (SegmentCore {
            phase: segment::pump(s).next.core.phase,
            ..s.core
        }),
        !(segment::pump(s).next.core.phase is Wake),
{
    reveal(segment::pump);
    if s.core.outbound is Some {
        the_offer_moves_on(s);
    }
}

proof fn the_pump_picks(s: SegmentView)
    ensures
        picks(s, segment::pump(s)),
        only_moves_on(s, segment::pump(s)),
{
    if s.core.frames_this_wake >= 16 {
        a_capped_pump(s);
    } else {
        an_uncapped_pump(s);
    }
}

/// The state the outbound pump starts a wake from: a write that waited for writability
/// goes on where it was reported, and nothing has been completed yet.
pub open spec fn outbound_start(s: SegmentView) -> SegmentView {
    SegmentView {
        core: SegmentCore {
            write_blocked: s.core.write_blocked && !s.core.writable,
            outbound_work: false,
            frames_this_wake: 0,
            ..s.core
        },
        ..s
    }
}

proof fn outbound_starts(s: SegmentView)
    ensures
        segment::start_outbound(s) == segment::pump(outbound_start(s)),
        picks(outbound_start(s), segment::start_outbound(s)),
        only_moves_on(outbound_start(s), segment::start_outbound(s)),
{
    reveal(segment::start_outbound);
    the_pump_picks(outbound_start(s));
}

/// From `s`, with the channel drained, inbound playback is pumped where it may hold
/// something; else what is to leave is picked.
pub open spec fn passes_the_gate(s: SegmentView, step: SegmentStep) -> bool {
    let quiet = SegmentView { core: SegmentCore { inbound_work: false, ..s.core }, ..s };
    if s.core.readable || !s.core.inbound_armed || s.core.buffers_plaintext {
        &&& step.duties.len() == 0
        &&& step.action == SegmentAction::PumpInbound
        &&& step.next == (SegmentView {
            core: SegmentCore { inbound_work: false, phase: SegmentPhase::Inbound, ..s.core },
            ..s
        })
    } else {
        &&& picks(outbound_start(quiet), step)
        &&& only_moves_on(outbound_start(quiet), step)
    }
}

proof fn the_gate_is_passed(s: SegmentView)
    ensures
        passes_the_gate(s, segment::inbound_gate(s)),
{
    reveal(segment::inbound_gate);
    outbound_starts(SegmentView { core: SegmentCore { inbound_work: false, ..s.core }, ..s });
}

/// From `s`, with the channel drained, the flag that backs up a close is read, unless
/// the close is known.
pub open spec fn channel_is_drained(s: SegmentView, step: SegmentStep) -> bool {
    if s.core.vad_closed {
        passes_the_gate(s, step)
    } else {
        &&& step.duties.len() == 0
        &&& step.action == SegmentAction::ReadVadFlag
        &&& step.next == (SegmentView {
            core: SegmentCore { phase: SegmentPhase::VadFlag, ..s.core },
            ..s
        })
    }
}

proof fn the_channel_is_drained(s: SegmentView)
    ensures
        channel_is_drained(s, segment::channel_drained(s)),
{
    reveal(segment::channel_drained);
    the_gate_is_passed(s);
}

/// A segment opens at its cursor with nothing sent, nothing queued and nothing in
/// flight, and its first wake does not wait.
pub proof fn a_segment_opens_with_nothing_sent(segment_id: u32, read_cursor: u64, now_us: u64)
    ensures
        ({
            let s = segment::opened(segment_id, read_cursor, now_us);
            &&& s.pending.len() == 0
            &&& s.core.segment_id == segment_id
            &&& s.core.read_cursor == read_cursor
            &&& s.core.frames_sent == 0
            &&& s.core.samples_sent == 0
            &&& s.core.pace_resyncs == 0
            &&& s.core.outbound is None
            &&& s.core.segment_end is None
            &&& s.core.pace_schedule is None
            &&& s.core.pace_deadline is None
            &&& s.core.spin_deadline is None
            &&& !s.core.vad_closed
            &&& !s.core.channel_lost
            &&& !s.core.write_blocked
            &&& !s.core.write_block_seen
            &&& !s.core.preroll_drained
            &&& s.core.work_pending
            &&& s.core.last_sample_us == now_us
            &&& s.core.phase is Wake
        }),
{
}

// ---- what an event can move ----

/// What the event moves of the state, and what it leaves as it was.
spec fn moves(s: SegmentView, event: SegmentEvent, n: SegmentCore) -> bool {
    &&& n.segment_id == s.core.segment_id
    &&& n.read_cursor == match (s.core.phase, event) {
        (
            SegmentPhase::Begin { kind: OutboundKind::Audio { samples }, .. },
            SegmentEvent::Began(true),
        ) => s.core.read_cursor + samples,
        _ => s.core.read_cursor as int,
    }
    &&& n.frames_sent == match (event, s.core.outbound) {
        (SegmentEvent::Wrote(WriteOutcome::Whole), Some(OutboundKind::Audio { .. })) =>
            s.core.frames_sent + 1,
        _ => s.core.frames_sent as int,
    }
    &&& n.samples_sent == match (event, s.core.outbound) {
        (
            SegmentEvent::Wrote(WriteOutcome::Whole),
            Some(OutboundKind::Audio { samples }),
        ) => s.core.samples_sent + samples,
        _ => s.core.samples_sent as int,
    }
    &&& n.outbound == match (s.core.phase, event) {
        (SegmentPhase::Begin { kind, .. }, SegmentEvent::Began(true)) => Some(kind),
        (_, SegmentEvent::Wrote(WriteOutcome::Whole)) => if s.core.outbound == Some(
            OutboundKind::SegmentEnd,
        ) {
            s.core.outbound
        } else {
            None
        },
        _ => s.core.outbound,
    }
    &&& n.vad_closed == match event {
        SegmentEvent::Received(Received::Message(StreamerMsg::VadClosed)) => true,
        SegmentEvent::VadFlag(closed) => closed,
        _ => s.core.vad_closed,
    }
    &&& n.channel_lost == (s.core.channel_lost || event == SegmentEvent::Received(
        Received::Disconnected,
    ))
    &&& n.pace_schedule == match event {
        SegmentEvent::PaceOpen { next_schedule_us, .. } => Some(next_schedule_us),
        _ => s.core.pace_schedule,
    }
    &&& n.pace_resyncs == match event {
        SegmentEvent::PaceOpen { resynced: true, .. } => if s.core.pace_resyncs
            < u32::MAX {
            s.core.pace_resyncs + 1
        } else {
            u32::MAX as int
        },
        _ => s.core.pace_resyncs as int,
    }
    &&& match event {
        SegmentEvent::PaceHeld { wait_us, now } => n.pace_deadline matches Some(until)
            && until.nanos == now.nanos + wait_us * 1_000,
        SegmentEvent::Woke { .. } => n.pace_deadline is None,
        _ => n.pace_deadline == s.core.pace_deadline,
    }
    &&& match event {
        SegmentEvent::Wrote(WriteOutcome::Blocked { spin_tripped, now }) => if spin_tripped
            && s.core.spin_deadline is None {
            n.spin_deadline matches Some(until) && until.nanos == now.nanos + 10_000_000
        } else {
            n.spin_deadline == s.core.spin_deadline
        },
        SegmentEvent::Woke { now, .. } => n.spin_deadline == if s.core.spin_deadline is Some
            && s.core.spin_deadline->0.nanos <= now.nanos {
            None
        } else {
            s.core.spin_deadline
        },
        _ => n.spin_deadline == s.core.spin_deadline,
    }
    &&& n.write_block_seen == (s.core.write_block_seen
        || event matches SegmentEvent::Wrote(WriteOutcome::Blocked { .. }))
    &&& n.preroll_drained == (s.core.preroll_drained || (event matches SegmentEvent::Ring(
        look,
    ) && !look.overrun && look.available < 320 && !s.core.vad_closed))
    &&& n.last_sample_us == match event {
        SegmentEvent::Woke { now_us, .. } => if now_us >= s.core.last_sample_us + 1_000_000 {
            now_us
        } else {
            s.core.last_sample_us
        },
        _ => s.core.last_sample_us,
    }
    &&& event matches SegmentEvent::Woke { inbound_room, buffers_plaintext, .. } ==> {
        &&& n.inbound_armed == inbound_room
        &&& n.buffers_plaintext == buffers_plaintext
    }
    &&& !(event is Woke) ==> n.inbound_armed == s.core.inbound_armed
        && n.buffers_plaintext == s.core.buffers_plaintext
    &&& event matches SegmentEvent::Polled(Readiness::Ready { readable, writable }) ==> {
        &&& n.readable == readable
        &&& n.writable == writable
    }
    &&& event == SegmentEvent::Polled(Readiness::TimedOut) ==> !n.readable && !n.writable
    &&& !(event is Polled) ==> n.readable == s.core.readable && n.writable
        == s.core.writable
}

proof fn a_wake_moves(s: SegmentView, event: SegmentEvent)
    requires
        segment::answers(s, event),
        event is Woke,
    ensures
        moves(s, event, segment::segment_step(s, event).next.core),
{
    reveal(segment::on_woke);
}

proof fn a_poll_moves(s: SegmentView, event: SegmentEvent)
    requires
        segment::answers(s, event),
        event is Polled,
    ensures
        moves(s, event, segment::segment_step(s, event).next.core),
{
    if let SegmentEvent::Polled(ready) = event {
        reveal(segment::on_polled);
        let core = SegmentCore {
            readable: ready.is_readable(),
            writable: ready.is_writable(),
            ..s.core
        };
        the_channel_goes_on(SegmentView { core, ..s });
    }
}

proof fn a_close_message_moves(s: SegmentView, got: Received)
    requires
        s.core.phase is Receive,
        got == Received::Message(StreamerMsg::VadClosed),
    ensures
        moves(s, SegmentEvent::Received(got), segment::on_received(s, got).next.core),
{
    reveal(segment::on_received);
    the_channel_goes_on(SegmentView { core: SegmentCore { vad_closed: true, ..s.core }, ..s });
}

proof fn an_onset_message_moves(s: SegmentView, got: Received)
    requires
        s.core.phase is Receive,
        got matches Received::Message(StreamerMsg::VadOpened { .. }),
    ensures
        moves(s, SegmentEvent::Received(got), segment::on_received(s, got).next.core),
{
    reveal(segment::on_received);
    the_channel_goes_on(s);
}

proof fn an_empty_channel_moves(s: SegmentView, got: Received)
    requires
        s.core.phase is Receive,
        got == Received::Empty,
    ensures
        moves(s, SegmentEvent::Received(got), segment::on_received(s, got).next.core),
{
    reveal(segment::on_received);
    the_channel_is_drained(s);
}

proof fn a_lost_channel_moves(s: SegmentView, got: Received)
    requires
        s.core.phase is Receive,
        got == Received::Disconnected,
    ensures
        moves(s, SegmentEvent::Received(got), segment::on_received(s, got).next.core),
{
    reveal(segment::on_received);
    the_channel_is_drained(sender_gone(s));
}

proof fn a_message_moves(s: SegmentView, event: SegmentEvent)
    requires
        segment::answers(s, event),
        event is Received,
    ensures
        moves(s, event, segment::segment_step(s, event).next.core),
{
    if let SegmentEvent::Received(got) = event {
        match got {
            Received::Message(StreamerMsg::Telemetry(tel)) => telemetry_moves(s, tel),
            Received::Message(StreamerMsg::VadClosed) => a_close_message_moves(s, got),
            Received::Message(StreamerMsg::VadOpened { .. }) => an_onset_message_moves(s, got),
            Received::Empty => an_empty_channel_moves(s, got),
            Received::Disconnected => a_lost_channel_moves(s, got),
        }
    }
}

proof fn telemetry_moves(s: SegmentView, tel: crate::streamer::telemetry::Telemetry)
    requires
        s.core.phase is Receive,
    ensures
        ({
            let event = SegmentEvent::Received(Received::Message(StreamerMsg::Telemetry(tel)));
            moves(s, event, segment::segment_step(s, event).next.core)
        }),
{
    let queued = SegmentView { pending: s.pending.push(tel), ..s };
    let dropped = SegmentView { pending: s.pending.drop_first().push(tel), ..s };
    the_channel_goes_on(queued);
    the_channel_goes_on(dropped);
    reveal(segment::on_received);
}

proof fn a_flag_moves(s: SegmentView, event: SegmentEvent)
    requires
        segment::answers(s, event),
        event is VadFlag,
    ensures
        moves(s, event, segment::segment_step(s, event).next.core),
{
    if let SegmentEvent::VadFlag(closed) = event {
        the_gate_is_passed(
            SegmentView { core: SegmentCore { vad_closed: closed, ..s.core }, ..s },
        );
    }
}

proof fn a_drain_moves(s: SegmentView, event: SegmentEvent)
    requires
        segment::answers(s, event),
        event is Pumped,
    ensures
        moves(s, event, segment::segment_step(s, event).next.core),
{
    if let SegmentEvent::Pumped { hit_cap } = event {
        outbound_starts(
            SegmentView { core: SegmentCore { inbound_work: hit_cap, ..s.core }, ..s },
        );
    }
}

proof fn a_failed_drain_moves(s: SegmentView, event: SegmentEvent)
    requires
        segment::answers(s, event),
        event is PumpFailed,
    ensures
        moves(s, event, segment::segment_step(s, event).next.core),
{
}

proof fn a_clock_moves(s: SegmentView, event: SegmentEvent)
    requires
        segment::answers(s, event),
        event is Clock,
    ensures
        moves(s, event, segment::segment_step(s, event).next.core),
{
    reveal(segment::on_close_clock);
}

proof fn a_look_moves(s: SegmentView, event: SegmentEvent)
    requires
        segment::answers(s, event),
        event is Ring,
    ensures
        moves(s, event, segment::segment_step(s, event).next.core),
{
    reveal(segment::on_ring);
    reveal(segment::close);
    reveal(segment::watchdog);
    reveal(segment::end_wake);
    the_pump_picks(closing(s, EndReason::Overrun));
    the_pump_picks(closing(s, EndReason::VadRelease));
}

proof fn a_held_pace_moves(s: SegmentView, event: SegmentEvent)
    requires
        segment::answers(s, event),
        event is PaceHeld,
    ensures
        moves(s, event, segment::segment_step(s, event).next.core),
{
    reveal(segment::on_pace_held);
    reveal(segment::watchdog);
    reveal(segment::end_wake);
}

proof fn an_open_pace_moves(s: SegmentView, event: SegmentEvent)
    requires
        segment::answers(s, event),
        event is PaceOpen,
    ensures
        moves(s, event, segment::segment_step(s, event).next.core),
{
    reveal(segment::on_pace_open);
}

proof fn a_copy_moves(s: SegmentView, event: SegmentEvent)
    requires
        segment::answers(s, event),
        event is Copied,
    ensures
        moves(s, event, segment::segment_step(s, event).next.core),
{
    reveal(segment::on_copied);
    reveal(segment::close);
    the_pump_picks(closing(s, EndReason::Overrun));
}

proof fn an_encoding_moves(s: SegmentView, event: SegmentEvent)
    requires
        segment::answers(s, event),
        event is Began,
    ensures
        moves(s, event, segment::segment_step(s, event).next.core),
{
    reveal(segment::on_began);
    reveal(segment::offer);
    reveal(segment::watchdog);
    reveal(segment::end_wake);
}

proof fn a_write_moves(s: SegmentView, event: SegmentEvent)
    requires
        segment::answers(s, event),
        event is Wrote,
    ensures
        moves(s, event, segment::segment_step(s, event).next.core),
{
    if let SegmentEvent::Wrote(outcome) = event {
        a_write_moves_little(s, outcome);
    }
}

proof fn a_budget_moves(s: SegmentView, event: SegmentEvent)
    requires
        segment::answers(s, event),
        event is Budget,
    ensures
        moves(s, event, segment::segment_step(s, event).next.core),
{
    reveal(segment::on_budget);
    reveal(segment::end_wake);
}

proof fn a_turn_moves(s: SegmentView, event: SegmentEvent)
    requires
        segment::answers(s, event),
    ensures
        moves(s, event, segment::segment_step(s, event).next.core),
{
    match event {
        SegmentEvent::Woke { .. } => a_wake_moves(s, event),
        SegmentEvent::Polled(_) => a_poll_moves(s, event),
        SegmentEvent::Received(_) => a_message_moves(s, event),
        SegmentEvent::VadFlag(_) => a_flag_moves(s, event),
        SegmentEvent::Pumped { .. } => a_drain_moves(s, event),
        SegmentEvent::PumpFailed => a_failed_drain_moves(s, event),
        SegmentEvent::Clock { .. } => a_clock_moves(s, event),
        SegmentEvent::Ring(_) => a_look_moves(s, event),
        SegmentEvent::PaceHeld { .. } => a_held_pace_moves(s, event),
        SegmentEvent::PaceOpen { .. } => an_open_pace_moves(s, event),
        SegmentEvent::Copied { .. } => a_copy_moves(s, event),
        SegmentEvent::Began(_) => an_encoding_moves(s, event),
        SegmentEvent::Wrote(_) => a_write_moves(s, event),
        SegmentEvent::Budget(_) => a_budget_moves(s, event),
    }
}

/// The state of a segment that closes for `reason`.
pub open spec fn closing(s: SegmentView, reason: EndReason) -> SegmentView {
    SegmentView { core: SegmentCore { segment_end: Some(reason), ..s.core }, ..s }
}

/// The state of a segment whose sender is gone: it closes, for the reason it already
/// has where it has one.
pub open spec fn sender_gone(s: SegmentView) -> SegmentView {
    SegmentView {
        core: SegmentCore {
            channel_lost: true,
            segment_end: if s.core.segment_end is Some {
                s.core.segment_end
            } else {
                Some(EndReason::InternalError)
            },
            ..s.core
        },
        ..s
    }
}

/// From `s` the channel is asked for its next message, unless its sender is gone.
pub open spec fn channel_goes_on(s: SegmentView, step: SegmentStep) -> bool {
    if s.core.channel_lost {
        channel_is_drained(s, step)
    } else {
        &&& step.duties.len() == 0
        &&& step.action == SegmentAction::Receive
        &&& step.next == (SegmentView {
            core: SegmentCore { phase: SegmentPhase::Receive, ..s.core },
            ..s
        })
    }
}

proof fn the_channel_goes_on(s: SegmentView)
    ensures
        channel_goes_on(s, segment::drain_channel(s)),
{
    reveal(segment::drain_channel);
    the_channel_is_drained(s);
}

/// The state behind a frame that went out whole and was not the close.
pub open spec fn one_frame_on(s: SegmentView) -> SegmentView {
    SegmentView {
        core: SegmentCore {
            frames_sent: match s.core.outbound {
                Some(OutboundKind::Audio { .. }) => (s.core.frames_sent + 1) as u32,
                _ => s.core.frames_sent,
            },
            samples_sent: match s.core.outbound {
                Some(OutboundKind::Audio { samples }) => (s.core.samples_sent + samples) as u64,
                _ => s.core.samples_sent,
            },
            outbound: None,
            frames_this_wake: (s.core.frames_this_wake + 1) as u32,
            ..s.core
        },
        ..s
    }
}

proof fn a_write_moves_little(s: SegmentView, outcome: WriteOutcome)
    requires
        segment::answers(s, SegmentEvent::Wrote(outcome)),
    ensures
        ({
            let step = segment::on_wrote(s, outcome);
            &&& outcome is Whole && s.core.outbound != Some(OutboundKind::SegmentEnd) ==> {
                &&& only_moves_on(one_frame_on(s), step)
                &&& picks(one_frame_on(s), step)
            }
            &&& outcome is Whole && s.core.outbound == Some(OutboundKind::SegmentEnd)
                ==> only_moves_on(s, step)
            &&& outcome is Partial ==> only_moves_on(s, step) && picks(s, step)
            &&& outcome is Failed ==> only_moves_on(s, step)
            &&& outcome matches WriteOutcome::Blocked { spin_tripped, now } ==> {
                let n = step.next.core;
                &&& n == (SegmentCore {
                    write_blocked: true,
                    write_block_seen: true,
                    spin_deadline: n.spin_deadline,
                    phase: n.phase,
                    work_pending: n.work_pending,
                    ..s.core
                })
                &&& n.spin_deadline == if spin_tripped && s.core.spin_deadline is None {
                    Some(Instant { nanos: (now.nanos + 10_000_000) as u128 })
                } else {
                    s.core.spin_deadline
                }
            }
        }),
{
    reveal(segment::on_wrote);
    reveal(segment::watchdog);
    reveal(segment::end_wake);
    the_pump_picks(one_frame_on(s));
    the_pump_picks(s);
}

/// The cursor moves exactly with audio that is put in flight, by as many samples as the
/// frame has: what is read next is what comes right behind it.
pub proof fn the_cursor_moves_with_audio_put_in_flight(s: SegmentView, event: SegmentEvent)
    requires
        segment::answers(s, event),
    ensures
        ({
            let n = segment::segment_step(s, event).next.core;
            let taken = match (s.core.phase, event) {
                (
                    SegmentPhase::Begin { kind: OutboundKind::Audio { samples }, .. },
                    SegmentEvent::Began(true),
                ) => samples as int,
                _ => 0,
            };
            &&& n.read_cursor == s.core.read_cursor + taken
            &&& n.segment_id == s.core.segment_id
        }),
{
    a_turn_moves(s, event);
}

/// Only audio whose last byte went out is counted: one frame and its samples, at that
/// moment and at no other.
pub proof fn audio_is_counted_when_its_last_byte_is_out(s: SegmentView, event: SegmentEvent)
    requires
        segment::answers(s, event),
    ensures
        ({
            let n = segment::segment_step(s, event).next.core;
            match (event, s.core.outbound) {
                (
                    SegmentEvent::Wrote(WriteOutcome::Whole),
                    Some(OutboundKind::Audio { samples }),
                ) => {
                    &&& n.frames_sent == s.core.frames_sent + 1
                    &&& n.samples_sent == s.core.samples_sent + samples
                },
                _ => {
                    &&& n.frames_sent == s.core.frames_sent
                    &&& n.samples_sent == s.core.samples_sent
                },
            }
        }),
{
    a_turn_moves(s, event);
}

/// A frame is in flight from its encoding to its last byte, and no other takes its
/// place before.
pub proof fn one_frame_is_in_flight_at_a_time(s: SegmentView, event: SegmentEvent)
    requires
        segment::answers(s, event),
    ensures
        ({
            let n = segment::segment_step(s, event).next.core;
            match (s.core.phase, event) {
                (SegmentPhase::Begin { kind, .. }, SegmentEvent::Began(true)) => n.outbound == Some(
                    kind,
                ),
                (_, SegmentEvent::Wrote(WriteOutcome::Whole)) => s.core.outbound != Some(
                    OutboundKind::SegmentEnd,
                ) ==> n.outbound is None,
                _ => n.outbound == s.core.outbound,
            }
        }),
{
    a_turn_moves(s, event);
}

/// That the voice gate closed is learnt from its message or from the flag that backs it
/// up, and from nothing else; that the channel is gone, from the channel alone.
pub proof fn the_close_is_learnt_from_the_gate(s: SegmentView, event: SegmentEvent)
    requires
        segment::answers(s, event),
    ensures
        ({
            let n = segment::segment_step(s, event).next.core;
            &&& n.vad_closed == match event {
                SegmentEvent::Received(Received::Message(StreamerMsg::VadClosed)) => true,
                SegmentEvent::VadFlag(closed) => closed,
                _ => s.core.vad_closed,
            }
            &&& n.channel_lost == (s.core.channel_lost || event == SegmentEvent::Received(
                Received::Disconnected,
            ))
        }),
{
    a_turn_moves(s, event);
}

/// The pace schedule is the one the pace gate last gave, every start over is counted,
/// and a frame that is held back is due exactly as long after the question as the pace
/// gate said. The next wake starts without it.
pub proof fn the_pace_is_kept_as_the_gate_gave_it(s: SegmentView, event: SegmentEvent)
    requires
        segment::answers(s, event),
    ensures
        ({
            let n = segment::segment_step(s, event).next.core;
            &&& n.pace_schedule == match event {
                SegmentEvent::PaceOpen { next_schedule_us, .. } => Some(next_schedule_us),
                _ => s.core.pace_schedule,
            }
            &&& match event {
                SegmentEvent::PaceOpen { resynced: true, .. } => n.pace_resyncs == if s.core.pace_resyncs
                    < u32::MAX {
                    s.core.pace_resyncs + 1
                } else {
                    u32::MAX as int
                },
                _ => n.pace_resyncs == s.core.pace_resyncs,
            }
            &&& match event {
                SegmentEvent::PaceHeld { wait_us, now } => n.pace_deadline matches Some(until)
                    && until.nanos == now.nanos + wait_us * 1_000,
                SegmentEvent::Woke { .. } => n.pace_deadline is None,
                _ => n.pace_deadline == s.core.pace_deadline,
            }
        }),
{
    a_turn_moves(s, event);
}

/// A write that keeps being refused de-arms writability for ten milliseconds from the
/// refusal; a running backoff is not prolonged, and ends at the first wake at or past its
/// end.
pub proof fn a_spinning_write_is_held_off_for_a_while(s: SegmentView, event: SegmentEvent)
    requires
        segment::answers(s, event),
    ensures
        ({
            let n = segment::segment_step(s, event).next.core;
            match event {
                SegmentEvent::Wrote(WriteOutcome::Blocked { spin_tripped: true, now }) => match s.core.spin_deadline {
                    None => n.spin_deadline matches Some(until) && until.nanos == now.nanos
                        + 10_000_000,
                    Some(_) => n.spin_deadline == s.core.spin_deadline,
                },
                SegmentEvent::Woke { now, .. } => match s.core.spin_deadline {
                    Some(until) => if until.nanos <= now.nanos {
                        n.spin_deadline is None
                    } else {
                        n.spin_deadline == Some(until)
                    },
                    None => n.spin_deadline is None,
                },
                _ => n.spin_deadline == s.core.spin_deadline,
            }
        }),
{
    a_turn_moves(s, event);
}

/// Each wake is judged by what it reported itself: what the accumulator and the
/// transport said when it began, and what the wait came to.
pub proof fn a_wake_goes_by_its_own_report(s: SegmentView, event: SegmentEvent)
    requires
        segment::answers(s, event),
    ensures
        ({
            let n = segment::segment_step(s, event).next.core;
            &&& match event {
                SegmentEvent::Woke { inbound_room, buffers_plaintext, .. } => {
                    &&& n.inbound_armed == inbound_room
                    &&& n.buffers_plaintext == buffers_plaintext
                },
                _ => {
                    &&& n.inbound_armed == s.core.inbound_armed
                    &&& n.buffers_plaintext == s.core.buffers_plaintext
                },
            }
            &&& match event {
                SegmentEvent::Polled(Readiness::Ready { readable, writable }) => {
                    &&& n.readable == readable
                    &&& n.writable == writable
                },
                SegmentEvent::Polled(Readiness::TimedOut) => !n.readable && !n.writable,
                SegmentEvent::Polled(Readiness::Fault(_)) => true,
                _ => {
                    &&& n.readable == s.core.readable
                    &&& n.writable == s.core.writable
                },
            }
        }),
{
    a_turn_moves(s, event);
}

/// What is observed once is observed once: the first blocked write, the drained
/// pre-roll, and about once a second the production sample, dated by the wake it came in.
pub proof fn what_is_observed_is_remembered(s: SegmentView, event: SegmentEvent)
    requires
        segment::answers(s, event),
    ensures
        ({
            let n = segment::segment_step(s, event).next.core;
            &&& n.write_block_seen == (s.core.write_block_seen
                || event matches SegmentEvent::Wrote(WriteOutcome::Blocked { .. }))
            &&& n.preroll_drained == (s.core.preroll_drained || (event matches SegmentEvent::Ring(
                look,
            ) && !look.overrun && look.available < 320 && !s.core.vad_closed))
            &&& match event {
                SegmentEvent::Woke { now_us, .. } => if now_us >= s.core.last_sample_us
                    + 1_000_000 {
                    n.last_sample_us == now_us
                } else {
                    n.last_sample_us == s.core.last_sample_us
                },
                _ => n.last_sample_us == s.core.last_sample_us,
            }
        }),
{
    a_turn_moves(s, event);
}

// ---- what is done next ----

/// A wake waits for reading where the accumulator has room, and for writing where a
/// write is blocked and its backoff, if there was one, is over. It does not wait at all
/// where the last wake left work behind. Else it waits between one millisecond and ten,
/// and past no deadline that is pending by more than the one millisecond: neither the
/// budget of a blocked frame nor a held frame's due time nor the end of the backoff.
pub proof fn a_wake_waits_for_what_is_pending(
    s: SegmentView,
    now_us: u64,
    now: Instant,
    inbound_room: bool,
    buffers_plaintext: bool,
    write_deadline: Option<Instant>,
)
    requires
        s.core.phase is Wake,
    ensures
        ({
            let step = segment::segment_step(
                s,
                SegmentEvent::Woke { now_us, now, inbound_room, buffers_plaintext, write_deadline },
            );
            let held_off = s.core.spin_deadline is Some && s.core.spin_deadline->0.nanos
                > now.nanos;
            &&& step.next.core.phase is Poll
            &&& step.next.pending == s.pending
            &&& step.next.core.write_blocked == s.core.write_blocked
            &&& step.next.core.segment_end == s.core.segment_end
            &&& step.action matches SegmentAction::Poll { read, write, timeout }
            &&& read == inbound_room
            &&& write == (s.core.write_blocked && !held_off)
            &&& s.core.work_pending ==> timeout.nanos == 0
            &&& !s.core.work_pending ==> {
                &&& 1_000_000 <= timeout.nanos <= 10_000_000
                &&& timeout.nanos % 1_000_000 == 0
                &&& s.core.write_blocked && s.core.outbound is Some && write_deadline is Some
                    ==> timeout.nanos == 1_000_000 || now.nanos + timeout.nanos
                    <= write_deadline->0.nanos
                &&& s.core.pace_deadline is Some ==> timeout.nanos == 1_000_000 || now.nanos
                    + timeout.nanos <= s.core.pace_deadline->0.nanos
                &&& held_off ==> timeout.nanos == 1_000_000 || now.nanos + timeout.nanos
                    <= s.core.spin_deadline->0.nanos
                &&& !held_off && s.core.pace_deadline is None && (!s.core.write_blocked
                    || s.core.outbound is None || write_deadline is None) ==> timeout.nanos
                    == 10_000_000
            }
        }),
{
    reveal(segment::on_woke);
    let spin = if s.core.spin_deadline matches Some(d) && now.nanos >= d.nanos {
        None
    } else {
        s.core.spin_deadline
    };
    let budget = if s.core.write_blocked && s.core.outbound is Some {
        write_deadline
    } else {
        None
    };
    let deadline = segment::earlier(segment::earlier(budget, s.core.pace_deadline), spin);
    netpoll::only_pending_work_polls_without_waiting(now, deadline, s.core.work_pending);
    match deadline {
        Some(d) => {
            netpoll::one_deadline_is_kept(now, d);
        },
        None => {
            assert(netpoll::until_earliest(now, seq![]) == 10_000_000);
        },
    }
}

/// About once a second a wake takes the production sample, and the wake that ends a
/// backoff clears the guard of the frame in flight. It does nothing else on the side.
pub proof fn a_wake_observes_when_it_is_due(
    s: SegmentView,
    now_us: u64,
    now: Instant,
    inbound_room: bool,
    buffers_plaintext: bool,
    write_deadline: Option<Instant>,
)
    requires
        s.core.phase is Wake,
    ensures
        ({
            let duties = segment::segment_step(
                s,
                SegmentEvent::Woke { now_us, now, inbound_room, buffers_plaintext, write_deadline },
            ).duties;
            let sample = SegmentDuty::Observe(ObsEvent::Production);
            let due = now_us >= s.core.last_sample_us + 1_000_000;
            let over = s.core.spin_deadline is Some && s.core.spin_deadline->0.nanos <= now.nanos
                && s.core.outbound is Some;
            &&& due && over ==> duties == seq![sample, SegmentDuty::ResetSpinGuard]
            &&& due && !over ==> duties == seq![sample]
            &&& !due && over ==> duties == seq![SegmentDuty::ResetSpinGuard]
            &&& !due && !over ==> duties.len() == 0
        }),
{
    reveal(segment::on_woke);
}

/// A dead socket ends the segment and is given up; any other wait leads to the channel,
/// and past it where its sender is gone.
pub proof fn a_wait_leads_to_the_channel(s: SegmentView, ready: Readiness)
    requires
        s.core.phase is Poll,
    ensures
        ({
            let step = segment::segment_step(s, SegmentEvent::Polled(ready));
            let (readable, writable) = match ready {
                Readiness::Ready { readable, writable } => (readable, writable),
                _ => (false, false),
            };
            let told = SegmentView {
                core: SegmentCore { readable, writable, ..s.core },
                ..s
            };
            if ready is Fault {
                &&& step.action == SegmentAction::Exit(SegmentExit::SocketLost)
                &&& step.duties.len() == 0
            } else {
                channel_goes_on(told, step)
            }
        }),
{
    reveal(segment::on_polled);
    let core = SegmentCore {
        readable: ready.is_readable(),
        writable: ready.is_writable(),
        ..s.core
    };
    the_channel_goes_on(SegmentView { core, ..s });
}

/// The channel is read to its end: telemetry is queued behind what is queued already,
/// a close is noted, a second onset means nothing, and an empty or vanished channel is
/// done with. A vanished sender closes the segment.
pub proof fn the_channel_is_read_to_its_end(s: SegmentView, got: Received)
    requires
        s.core.phase is Receive,
        s.pending.len() <= 8,
    ensures
        ({
            let step = segment::segment_step(s, SegmentEvent::Received(got));
            match got {
                Received::Message(StreamerMsg::Telemetry(tel)) => {
                    let full = s.pending.len() == 8;
                    &&& channel_goes_on(
                        SegmentView {
                            pending: if full {
                                s.pending.drop_first().push(tel)
                            } else {
                                s.pending.push(tel)
                            },
                            ..s
                        },
                        SegmentStep { duties: seq![], ..step },
                    )
                    &&& full ==> step.duties == seq![
                        SegmentDuty::Observe(ObsEvent::TelemetryDropped { cap: 8 }),
                    ]
                    &&& !full ==> step.duties.len() == 0
                },
                Received::Message(StreamerMsg::VadClosed) => channel_goes_on(
                    SegmentView { core: SegmentCore { vad_closed: true, ..s.core }, ..s },
                    step,
                ),
                Received::Message(StreamerMsg::VadOpened { .. }) => channel_goes_on(s, step),
                Received::Empty => channel_is_drained(s, step),
                Received::Disconnected => channel_is_drained(sender_gone(s), step),
            }
        }),
{
    reveal(segment::on_received);
    match got {
        Received::Message(StreamerMsg::Telemetry(tel)) => {
            let queued = SegmentView { pending: s.pending.push(tel), ..s };
            let dropped = SegmentView { pending: s.pending.drop_first().push(tel), ..s };
            queueing_goes_on(s, queued);
            queueing_goes_on(s, dropped);
        },
        Received::Message(StreamerMsg::VadClosed) => {
            the_channel_goes_on(
                SegmentView { core: SegmentCore { vad_closed: true, ..s.core }, ..s },
            );
        },
        Received::Message(StreamerMsg::VadOpened { .. }) => {
            the_channel_goes_on(s);
        },
        Received::Empty => {
            the_channel_is_drained(s);
        },
        Received::Disconnected => {
            the_channel_is_drained(sender_gone(s));
        },
    }
}

proof fn queueing_goes_on(s: SegmentView, queued: SegmentView)
    ensures
        ({
            let step = segment::drain_channel(queued);
            &&& step.duties == Seq::<SegmentDuty>::empty()
            &&& channel_goes_on(queued, SegmentStep { duties: seq![], ..step })
        }),
{
    the_channel_goes_on(queued);
    let step = segment::drain_channel(queued);
    assert(step.duties =~= seq![]);
    assert(SegmentStep { duties: seq![], ..step } =~= step);
}

/// Behind the flag, inbound playback is pumped where it may hold something, and what is
/// to leave is picked where it cannot.
pub proof fn the_flag_leads_to_the_socket(s: SegmentView, closed: bool)
    requires
        s.core.phase is VadFlag,
    ensures
        passes_the_gate(
            SegmentView { core: SegmentCore { vad_closed: closed, ..s.core }, ..s },
            segment::segment_step(s, SegmentEvent::VadFlag(closed)),
        ),
{
    the_gate_is_passed(SegmentView { core: SegmentCore { vad_closed: closed, ..s.core }, ..s });
}

/// Behind inbound playback what is to leave is picked, and whether the drain stopped at
/// its cap is remembered. An inbound stream that fails has its last reading taken and
/// ends the segment with its socket.
pub proof fn a_drain_leads_to_what_leaves(s: SegmentView, hit_cap: bool)
    requires
        s.core.phase is Inbound,
    ensures
        ({
            let step = segment::segment_step(s, SegmentEvent::Pumped { hit_cap });
            let drained = SegmentView {
                core: SegmentCore { inbound_work: hit_cap, ..s.core },
                ..s
            };
            &&& picks(outbound_start(drained), step)
            &&& only_moves_on(outbound_start(drained), step)
        }),
        ({
            let step = segment::segment_step(s, SegmentEvent::PumpFailed);
            &&& step.action == SegmentAction::Exit(SegmentExit::SocketLost)
            &&& step.duties == seq![SegmentDuty::NoteInboundExit]
        }),
{
    outbound_starts(SegmentView { core: SegmentCore { inbound_work: hit_cap, ..s.core }, ..s });
    assert(seq![SegmentDuty::NoteInboundExit] + Seq::<SegmentDuty>::empty() =~= seq![
        SegmentDuty::NoteInboundExit,
    ]);
}

/// The close carries the segment's id, the counts of what went out, the reason it
/// closed and the clock just read.
pub proof fn the_close_is_dated_and_counted(s: SegmentView, now_us: u64, reason: EndReason)
    requires
        s.core.phase is CloseClock,
        s.core.segment_end == Some(reason),
    ensures
        ({
            let step = segment::segment_step(s, SegmentEvent::Clock { now_us });
            &&& step.duties.len() == 0
            &&& step.action == SegmentAction::Begin(
                OutFrame::SegmentEnd(
                    SegmentEnd {
                        segment_id: s.core.segment_id,
                        device_ts_us: now_us,
                        frames_sent: s.core.frames_sent,
                        samples_sent: s.core.samples_sent,
                        reason,
                    },
                ),
            )
            &&& step.next.core.phase == (SegmentPhase::Begin {
                kind: OutboundKind::SegmentEnd,
                last: false,
            })
            &&& step.next.core.segment_end == s.core.segment_end
            &&& step.next.pending == s.pending
        }),
{
    reveal(segment::on_close_clock);
}

/// A lapped cursor closes the segment as an overrun. A full frame of samples goes to the
/// pace gate. Less than that leaves only behind the voice gate's close, and when nothing
/// is left then the segment closes; before the close the wake is over.
pub proof fn a_look_at_the_ring_decides(s: SegmentView, look: RingLook)
    requires
        s.core.phase is Ring,
        s.core.outbound is None,
        s.core.segment_end is None,
        s.core.frames_this_wake < 16,
    ensures
        ({
            let step = segment::segment_step(s, SegmentEvent::Ring(look));
            &&& step.next.pending == s.pending
            &&& step.next.core.write_blocked == s.core.write_blocked
            &&& look.overrun ==> {
                &&& step.next.core.segment_end == Some(EndReason::Overrun)
                &&& step.action == SegmentAction::ReadClock
                &&& step.next.core.phase is CloseClock
                &&& step.duties.len() == 0
            }
            &&& !look.overrun && look.available >= 320 ==> {
                &&& step.next.core.segment_end is None
                &&& step.action == SegmentAction::ReadClock
                &&& step.next.core.phase == (SegmentPhase::PaceClock {
                    anchor_sample: look.anchor_sample,
                    anchor_ts_us: look.anchor_ts_us,
                })
                &&& step.duties.len() == 0
            }
            &&& !look.overrun && 0 < look.available < 320 && s.core.vad_closed ==> {
                &&& step.next.core.segment_end is None
                &&& step.action == (SegmentAction::CopySamples {
                    first_index: s.core.read_cursor,
                    count: look.available as u32,
                })
                &&& step.next.core.phase == (SegmentPhase::CopyPartial {
                    count: look.available as u32,
                })
                &&& step.duties.len() == 0
            }
            &&& !look.overrun && look.available == 0 && s.core.vad_closed ==> {
                &&& step.next.core.segment_end == Some(EndReason::VadRelease)
                &&& step.action == SegmentAction::ReadClock
                &&& step.next.core.phase is CloseClock
                &&& step.duties.len() == 0
            }
            &&& !look.overrun && look.available < 320 && !s.core.vad_closed ==> {
                &&& step.next.core.segment_end is None
                &&& step.action == SegmentAction::Wake
                &&& step.next.core.phase is Wake
                &&& step.next.core.work_pending == (s.core.inbound_work || s.core.outbound_work)
                &&& s.core.preroll_drained ==> step.duties.len() == 0
                &&& !s.core.preroll_drained ==> step.duties == seq![
                    SegmentDuty::Observe(ObsEvent::PrerollDrained),
                ]
            }
        }),
{
    reveal(segment::on_ring);
    reveal(segment::close);
    an_uncapped_pump(closing(s, EndReason::Overrun));
    an_uncapped_pump(closing(s, EndReason::VadRelease));
    the_watchdog_moves_on(s);
    let drained = SegmentView { core: SegmentCore { preroll_drained: true, ..s.core }, ..s };
    the_watchdog_moves_on(drained);
    assert(segment::watchdog(drained).duties =~= seq![]);
    assert(seq![SegmentDuty::Observe(ObsEvent::PrerollDrained)] + Seq::<SegmentDuty>::empty()
        =~= seq![SegmentDuty::Observe(ObsEvent::PrerollDrained)]);
}

/// The pace gate is asked with the schedule it last gave and the clock just read, and
/// the anchor of the ring stays with the frame. A frame that is held ends the wake; one
/// that may go is copied whole from the cursor.
pub proof fn the_pace_gate_lets_a_frame_go(
    s: SegmentView,
    anchor_sample: u64,
    anchor_ts_us: u64,
    now_us: u64,
    wait_us: u64,
    now: Instant,
    resynced: bool,
    next_schedule_us: u64,
)
    requires
        s.core.outbound is None,
        now.nanos + wait_us * 1_000 <= u128::MAX,
    ensures
        s.core.phase == (SegmentPhase::PaceClock { anchor_sample, anchor_ts_us }) ==> {
            let step = segment::segment_step(s, SegmentEvent::Clock { now_us });
            &&& step.duties.len() == 0
            &&& step.action == (SegmentAction::AskPace { schedule: s.core.pace_schedule, now_us })
            &&& step.next == (SegmentView {
                core: SegmentCore {
                    phase: SegmentPhase::Pace { anchor_sample, anchor_ts_us },
                    ..s.core
                },
                ..s
            })
        },
        s.core.phase == (SegmentPhase::Pace { anchor_sample, anchor_ts_us }) ==> {
            let held = segment::segment_step(s, SegmentEvent::PaceHeld { wait_us, now });
            let open = segment::segment_step(
                s,
                SegmentEvent::PaceOpen { resynced, next_schedule_us },
            );
            &&& held.duties.len() == 0
            &&& held.action == SegmentAction::Wake
            &&& held.next.core.phase is Wake
            &&& held.next.core.work_pending == (s.core.inbound_work || s.core.outbound_work)
            &&& held.next.pending == s.pending
            &&& held.next.core.segment_end == s.core.segment_end
            &&& open.duties.len() == 0
            &&& open.action == (SegmentAction::CopySamples {
                first_index: s.core.read_cursor,
                count: 320,
            })
            &&& open.next.core.phase == (SegmentPhase::CopyFull { anchor_sample, anchor_ts_us })
            &&& open.next.pending == s.pending
            &&& open.next.core.segment_end == s.core.segment_end
        },
{
    reveal(segment::on_pace_held);
    reveal(segment::on_pace_open);
    reveal(segment::watchdog);
    reveal(segment::end_wake);
}

/// The frame around samples that were copied carries the segment's id, the absolute
/// index of the first of them, how many they are, and when that first one was captured,
/// reckoned from the anchor at sixteen samples a millisecond. An overrun under the copy
/// closes the segment instead.
pub proof fn a_copied_frame_is_indexed_and_dated(
    s: SegmentView,
    overrun: bool,
    anchor_sample: u64,
    anchor_ts_us: u64,
)
    requires
        s.core.outbound is None,
        s.core.segment_end is None,
        s.core.frames_this_wake < 16,
        match s.core.phase {
            SegmentPhase::CopyFull { anchor_sample: a, anchor_ts_us: t } => a == anchor_sample && t
                == anchor_ts_us,
            SegmentPhase::CopyPartial { .. } => true,
            _ => false,
        },
        segment::answers(s, SegmentEvent::Copied { overrun, anchor_sample, anchor_ts_us }),
    ensures
        ({
            let step = segment::segment_step(
                s,
                SegmentEvent::Copied { overrun, anchor_sample, anchor_ts_us },
            );
            let first = s.core.read_cursor;
            let count = match s.core.phase {
                SegmentPhase::CopyPartial { count } => count,
                _ => 320,
            };
            &&& step.next.pending == s.pending
            &&& step.duties.len() == 0
            &&& overrun ==> {
                &&& step.action == SegmentAction::ReadClock
                &&& step.next.core.phase is CloseClock
                &&& step.next.core.segment_end == Some(EndReason::Overrun)
            }
            &&& !overrun ==> {
                &&& step.action matches SegmentAction::Begin(OutFrame::Audio(header))
                &&& header.segment_id == s.core.segment_id
                &&& header.first_sample_index == first
                &&& header.samples == count
                &&& anchor_sample < first ==> header.device_ts_us == anchor_ts_us + (first
                    - anchor_sample) * 1_000_000 / 16_000
                &&& anchor_sample >= first ==> {
                    let back = (anchor_sample - first) * 1_000_000 / 16_000;
                    if back <= anchor_ts_us {
                        header.device_ts_us == anchor_ts_us - back
                    } else {
                        header.device_ts_us == 0
                    }
                }
                &&& step.next.core.segment_end is None
                &&& step.next.core.phase == (SegmentPhase::Begin {
                    kind: OutboundKind::Audio { samples: count },
                    last: s.core.phase is CopyPartial,
                })
            }
        }),
{
    reveal(segment::on_copied);
    reveal(segment::close);
    an_uncapped_pump(closing(s, EndReason::Overrun));
}

/// Frames carry the samples of the ring without gap or overlap: a full frame carries as
/// its first index the one its samples were copied from, which is the cursor, and once
/// it is in flight the cursor stands right behind its last sample. So the first frame
/// of a segment starts at the cursor it opened at, and each later one where the one
/// before it ended.
pub proof fn frames_follow_each_other_without_gap(
    s: SegmentView,
    resynced: bool,
    next_schedule_us: u64,
    anchor_sample: u64,
    anchor_ts_us: u64,
)
    requires
        s.core.phase == (SegmentPhase::Pace { anchor_sample, anchor_ts_us }),
        s.core.outbound is None,
        s.core.segment_end is None,
        s.core.frames_this_wake < 16,
        segment::frame_time_fits(anchor_sample, anchor_ts_us, s.core.read_cursor),
        s.core.read_cursor + 320 <= u64::MAX,
    ensures
        ({
            let open = segment::segment_step(
                s,
                SegmentEvent::PaceOpen { resynced, next_schedule_us },
            );
            let copied = segment::segment_step(
                open.next,
                SegmentEvent::Copied { overrun: false, anchor_sample, anchor_ts_us },
            );
            let begun = segment::segment_step(copied.next, SegmentEvent::Began(true));
            &&& open.action matches SegmentAction::CopySamples { first_index, count }
            &&& copied.action matches SegmentAction::Begin(OutFrame::Audio(header))
            &&& first_index == s.core.read_cursor
            &&& header.first_sample_index == first_index
            &&& header.samples == count
            &&& begun.next.core.read_cursor == header.first_sample_index + header.samples
            &&& begun.next.core.outbound == Some(OutboundKind::Audio { samples: count })
        }),
{
    reveal(segment::on_pace_open);
    reveal(segment::on_copied);
    reveal(segment::on_began);
    reveal(segment::offer);
    reveal(segment::watchdog);
    reveal(segment::end_wake);
}

/// The residue behind the voice gate's close is the last frame: it carries every sample
/// that was there, from the cursor on, and the segment closes behind it.
pub proof fn the_residue_is_the_last_frame(s: SegmentView, look: RingLook)
    requires
        s.core.phase is Ring,
        s.core.vad_closed,
        s.core.outbound is None,
        s.core.segment_end is None,
        s.core.frames_this_wake < 16,
        !look.overrun,
        0 < look.available < 320,
        segment::frame_time_fits(look.anchor_sample, look.anchor_ts_us, s.core.read_cursor),
        s.core.read_cursor + look.available <= u64::MAX,
    ensures
        ({
            let looked = segment::segment_step(s, SegmentEvent::Ring(look));
            let copied = segment::segment_step(
                looked.next,
                SegmentEvent::Copied {
                    overrun: false,
                    anchor_sample: look.anchor_sample,
                    anchor_ts_us: look.anchor_ts_us,
                },
            );
            let begun = segment::segment_step(copied.next, SegmentEvent::Began(true));
            &&& copied.action matches SegmentAction::Begin(OutFrame::Audio(header))
            &&& header.first_sample_index == s.core.read_cursor
            &&& header.samples == look.available
            &&& begun.next.core.read_cursor == s.core.read_cursor + look.available
            &&& begun.next.core.segment_end == Some(EndReason::VadRelease)
        }),
{
    reveal(segment::on_ring);
    reveal(segment::on_copied);
    reveal(segment::on_began);
    reveal(segment::offer);
    reveal(segment::watchdog);
    reveal(segment::end_wake);
}

/// A frame that was encoded is offered at once; the residue closes the segment. A frame
/// that cannot be encoded drops the segment and keeps the socket, but for the close,
/// without which the socket cannot be kept.
pub proof fn an_encoded_frame_is_offered(s: SegmentView, kind: OutboundKind, last: bool)
    requires
        s.core.phase == (SegmentPhase::Begin { kind, last }),
        !s.core.write_blocked,
        segment::answers(s, SegmentEvent::Began(true)),
    ensures
        ({
            let step = segment::segment_step(s, SegmentEvent::Began(true));
            &&& step.duties.len() == 0
            &&& step.action == SegmentAction::Write
            &&& step.next.core.phase is Write
            &&& step.next.pending == s.pending
            &&& !step.next.core.write_blocked
            &&& step.next.core.segment_end == if last {
                Some(EndReason::VadRelease)
            } else {
                s.core.segment_end
            }
        }),
        ({
            let step = segment::segment_step(s, SegmentEvent::Began(false));
            &&& step.duties.len() == 0
            &&& kind is SegmentEnd ==> step.action == SegmentAction::Exit(SegmentExit::SocketLost)
            &&& !(kind is SegmentEnd) ==> step.action == SegmentAction::Exit(
                SegmentExit::SegmentDroppedSocketKept,
            )
        }),
{
    reveal(segment::on_began);
    reveal(segment::offer);
}

/// A close that went out whole ends the segment: completed, or dropped where the
/// channel was lost. Any other frame that went out whole makes room for the next, until
/// the wake has completed sixteen; then the wake is over, with work left.
pub proof fn a_whole_frame_makes_room_for_the_next(s: SegmentView)
    requires
        s.core.phase is Write,
        s.core.outbound is Some,
        segment::answers(s, SegmentEvent::Wrote(WriteOutcome::Whole)),
    ensures
        ({
            let step = segment::segment_step(s, SegmentEvent::Wrote(WriteOutcome::Whole));
            let n = step.next.core;
            &&& step.duties.len() == 0
            &&& s.core.outbound == Some(OutboundKind::SegmentEnd) ==> step.action
                == SegmentAction::Exit(
                if s.core.channel_lost {
                    SegmentExit::SegmentDroppedSocketKept
                } else {
                    SegmentExit::Completed
                },
            )
            &&& s.core.outbound != Some(OutboundKind::SegmentEnd) ==> {
                &&& picks(one_frame_on(s), step)
                &&& only_moves_on(one_frame_on(s), step)
                &&& s.core.frames_this_wake >= 15 ==> step.action == SegmentAction::Wake
                    && n.work_pending
            }
        }),
{
    a_write_moves_little(s, WriteOutcome::Whole);
    reveal(segment::on_wrote);
    if s.core.outbound != Some(OutboundKind::SegmentEnd) && s.core.frames_this_wake >= 15 {
        a_capped_pump(one_frame_on(s));
    }
}

/// A frame of which some bytes went out is offered again at once; one of which none did
/// waits for writability and is held to its budget, and the first such wait is
/// observed. A transport that fails ends the segment with its socket.
pub proof fn an_unfinished_frame_goes_on(s: SegmentView, spin_tripped: bool, now: Instant)
    requires
        s.core.phase is Write,
        s.core.outbound is Some,
        !s.core.write_blocked,
        s.core.frames_this_wake < 16,
        now.nanos + 10_000_000 <= u128::MAX,
    ensures
        ({
            let step = segment::segment_step(s, SegmentEvent::Wrote(WriteOutcome::Partial));
            &&& step.duties.len() == 0
            &&& step.action == SegmentAction::Write
            &&& step.next == s
        }),
        ({
            let step = segment::segment_step(
                s,
                SegmentEvent::Wrote(WriteOutcome::Blocked { spin_tripped, now }),
            );
            &&& step.action == SegmentAction::CheckBudget
            &&& step.next.core.phase is Watchdog
            &&& step.next.core.write_blocked
            &&& step.next.pending == s.pending
            &&& step.next.core.segment_end == s.core.segment_end
            &&& s.core.write_block_seen ==> step.duties.len() == 0
            &&& !s.core.write_block_seen ==> step.duties == seq![
                SegmentDuty::Observe(ObsEvent::WriteBlocked),
            ]
        }),
        ({
            let step = segment::segment_step(s, SegmentEvent::Wrote(WriteOutcome::Failed));
            &&& step.duties.len() == 0
            &&& step.action == SegmentAction::Exit(SegmentExit::SocketLost)
        }),
{
    reveal(segment::on_wrote);
    reveal(segment::watchdog);
    an_uncapped_pump(s);
    assert(seq![SegmentDuty::Observe(ObsEvent::WriteBlocked)] + Seq::<SegmentDuty>::empty()
        =~= seq![SegmentDuty::Observe(ObsEvent::WriteBlocked)]);
}

/// A frame within its budget lets the wake end, and work that either direction left
/// behind makes the next one start at once. A budget that ran out drops the segment;
/// the socket is kept exactly where nothing of the frame was written.
pub proof fn the_budget_decides_over_the_socket(s: SegmentView, outcome: BudgetOutcome)
    requires
        s.core.phase is Watchdog,
    ensures
        ({
            let step = segment::segment_step(s, SegmentEvent::Budget(outcome));
            &&& step.duties.len() == 0
            &&& match outcome {
                BudgetOutcome::Within => {
                    &&& step.action == SegmentAction::Wake
                    &&& step.next == (SegmentView {
                        core: SegmentCore {
                            phase: SegmentPhase::Wake,
                            work_pending: s.core.inbound_work || s.core.outbound_work,
                            ..s.core
                        },
                        ..s
                    })
                },
                BudgetOutcome::Aligned => step.action == SegmentAction::Exit(
                    SegmentExit::SegmentDroppedSocketKept,
                ),
                BudgetOutcome::Expired => step.action == SegmentAction::Exit(
                    SegmentExit::SocketLost,
                ),
            }
        }),
{
    reveal(segment::on_budget);
    reveal(segment::end_wake);
}

/// A sample is dated from the anchor at sixteen samples a millisecond: dates do not run
/// backwards along the ring, sixteen samples further on lie one millisecond later, and
/// nothing is dated before the clock's origin.
pub proof fn dates_run_at_the_capture_rate(
    anchor_sample: u64,
    anchor_ts_us: u64,
    first: u64,
    then: u64,
)
    requires
        first <= then,
    ensures
        segment::frame_time(anchor_sample, anchor_ts_us, anchor_sample) == anchor_ts_us,
        0 <= segment::frame_time(anchor_sample, anchor_ts_us, first)
            <= segment::frame_time(anchor_sample, anchor_ts_us, then),
        then == first + 16 && segment::frame_time(anchor_sample, anchor_ts_us, first) > 0
            && !(first < anchor_sample < then) ==> segment::frame_time(
            anchor_sample,
            anchor_ts_us,
            then,
        ) == segment::frame_time(anchor_sample, anchor_ts_us, first) + 1_000,
{
    let a = anchor_sample as int;
    let f = first as int;
    let t = then as int;
    assert((a - f) * 1_000_000 / 16_000 >= (a - t) * 1_000_000 / 16_000) by (nonlinear_arith)
        requires
            f <= t,
    ;
    assert((f - a) * 1_000_000 / 16_000 <= (t - a) * 1_000_000 / 16_000) by (nonlinear_arith)
        requires
            f <= t,
    ;
}

/// `event` is of the kind that a segment in `phase` waits for.
pub open spec fn is_awaited(phase: SegmentPhase, event: SegmentEvent) -> bool {
    match phase {
        SegmentPhase::Wake => event is Woke,
        SegmentPhase::Poll => event is Polled,
        SegmentPhase::Receive => event is Received,
        SegmentPhase::VadFlag => event is VadFlag,
        SegmentPhase::Inbound => event is Pumped || event is PumpFailed,
        SegmentPhase::CloseClock => event is Clock,
        SegmentPhase::Ring => event is Ring,
        SegmentPhase::PaceClock { .. } => event is Clock,
        SegmentPhase::Pace { .. } => event is PaceHeld || event is PaceOpen,
        SegmentPhase::CopyFull { .. } => event is Copied,
        SegmentPhase::CopyPartial { .. } => event is Copied,
        SegmentPhase::Begin { .. } => event is Began,
        SegmentPhase::Write => event is Wrote,
        SegmentPhase::Watchdog => event is Budget,
        SegmentPhase::Done(_) => false,
    }
}

/// A segment takes nothing but what it waits for, and takes all of that as long as its
/// counters are short of their width and the clock of its own.
pub proof fn a_segment_takes_what_it_waits_for(s: SegmentView, event: SegmentEvent)
    ensures
        segment::answers(s, event) ==> is_awaited(s.core.phase, event),
        is_awaited(s.core.phase, event) && (s.core.phase is CloseClock ==> s.core.segment_end
            is Some) && s.core.read_cursor < 0x1_0000_0000_0000 && s.core.samples_sent
            < 0x1_0000_0000_0000 && s.core.frames_sent < u32::MAX && s.core.frames_this_wake
            < u32::MAX && (match event {
            SegmentEvent::PaceHeld { wait_us, now } => now.nanos + wait_us * 1_000 <= u128::MAX,
            SegmentEvent::Wrote(WriteOutcome::Blocked { now, .. }) => now.nanos + 10_000_000
                <= u128::MAX,
            SegmentEvent::Copied { overrun, anchor_sample, anchor_ts_us } => {
                let (anchor, at) = match s.core.phase {
                    SegmentPhase::CopyFull { anchor_sample: a, anchor_ts_us: t } => (a, t),
                    _ => (anchor_sample, anchor_ts_us),
                };
                overrun || {
                    &&& -0x1000_0000_0000 < s.core.read_cursor - anchor < 0x1000_0000_0000
                    &&& at < 0x1000_0000_0000_0000
                }
            },
            _ => true,
        }) ==> segment::answers(s, event),
{
}

/// A frame is dated by whole microseconds, cut off towards the anchor, and at the
/// clock's origin where it would lie before that.
pub proof fn dates_are_cut_towards_the_anchor(
    anchor_sample: u64,
    anchor_ts_us: u64,
    first: u64,
)
    ensures
        ({
            let date = segment::frame_time(anchor_sample, anchor_ts_us, first);
            &&& first >= anchor_sample ==> 16_000 * (date - anchor_ts_us) <= (first - anchor_sample)
                * 1_000_000 < 16_000 * (date - anchor_ts_us + 1)
            &&& first < anchor_sample && date > 0 ==> 16_000 * (anchor_ts_us - date) <= (
            anchor_sample - first) * 1_000_000 < 16_000 * (anchor_ts_us - date + 1)
            &&& first < anchor_sample && date == 0 ==> (anchor_sample - first) * 1_000_000 >= 16_000
                * anchor_ts_us
        }),
{
}

} // verus!
