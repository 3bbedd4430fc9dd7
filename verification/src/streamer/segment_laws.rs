//! What every voice segment keeps, whatever the outside world answers.

use vstd::prelude::*;

use crate::clock;
use crate::streamer::netpoll;
use crate::streamer::segment::{
    self, EndReason, ObsEvent, OutFrame, OutboundKind, Received, SegmentAction, SegmentCore,
    SegmentDuty, SegmentEvent, SegmentExit, SegmentPhase, SegmentStep, SegmentView, StreamerMsg,
    WriteOutcome, AUDIO_SAMPLES_PER_FRAME, PENDING_TELEMETRY_CAP,
};

verus! {

/// The phase fits the rest of the state.
pub open spec fn phase_fits(core: SegmentCore) -> bool {
    let selecting = core.outbound is None && !core.write_blocked && core.frames_this_wake < 16;
    match core.phase {
        SegmentPhase::Receive => !core.channel_lost,
        SegmentPhase::VadFlag => !core.vad_closed,
        SegmentPhase::CloseClock => selecting && core.segment_end is Some,
        SegmentPhase::Ring => selecting && core.segment_end is None,
        SegmentPhase::PaceClock { .. } => selecting && core.segment_end is None,
        SegmentPhase::Pace { .. } => selecting && core.segment_end is None,
        SegmentPhase::CopyFull { .. } => selecting && core.segment_end is None,
        SegmentPhase::CopyPartial { count } => {
            &&& selecting
            &&& core.segment_end is None
            &&& core.vad_closed
            &&& 0 < count < AUDIO_SAMPLES_PER_FRAME
        },
        SegmentPhase::Begin { kind, last } => {
            &&& selecting
            &&& kind == OutboundKind::SegmentEnd <==> core.segment_end is Some
            &&& kind matches OutboundKind::Audio { samples } ==> 0 < samples
                <= AUDIO_SAMPLES_PER_FRAME
            &&& last ==> kind is Audio && core.vad_closed
        },
        SegmentPhase::Write => core.outbound is Some && !core.write_blocked
            && core.frames_this_wake < 16,
        SegmentPhase::Watchdog => core.outbound is Some,
        _ => true,
    }
}

/// A segment's invariant: the telemetry queue stays within its cap, a blocked
/// write has a frame in flight, a lost channel closes the segment, and the phase
/// fits the rest.
pub open spec fn segment_wf(s: SegmentView) -> bool {
    &&& s.pending.len() <= PENDING_TELEMETRY_CAP
    &&& s.core.write_blocked ==> s.core.outbound is Some && s.core.write_block_seen
    &&& s.core.frames_this_wake <= 16
    &&& s.core.channel_lost ==> s.core.segment_end is Some
    &&& s.core.outbound == Some(OutboundKind::SegmentEnd) ==> s.core.segment_end is Some
    &&& s.core.outbound matches Some(OutboundKind::Audio { samples }) ==> 0 < samples
        <= AUDIO_SAMPLES_PER_FRAME
    &&& phase_fits(s.core)
}

/// The invariant but for the phase.
pub open spec fn body_wf(s: SegmentView) -> bool {
    let phase = SegmentPhase::Wake;
    segment_wf(SegmentView { core: SegmentCore { phase, ..s.core }, ..s })
}

/// What a chain of the pump's stages keeps of the state it starts from.
pub open spec fn keeps(s: SegmentView, step: SegmentStep) -> bool {
    let n = step.next;
    &&& segment_wf(n)
    &&& n.core.segment_id == s.core.segment_id
    &&& n.core.read_cursor == s.core.read_cursor
    &&& n.core.frames_sent == s.core.frames_sent
    &&& n.core.samples_sent == s.core.samples_sent
    &&& n.core.outbound == s.core.outbound
    &&& n.core.segment_end == s.core.segment_end
    &&& n.core.channel_lost == s.core.channel_lost
    &&& n.core.vad_closed == s.core.vad_closed
    &&& step.duties == Seq::<SegmentDuty>::empty()
    &&& !(step.action is Exit)
    &&& !(step.action matches SegmentAction::Begin(OutFrame::Audio(_)))
    &&& !(step.action matches SegmentAction::Begin(OutFrame::SegmentEnd(_)))
    &&& !(step.action is Poll)
}

proof fn watchdog_keeps(s: SegmentView)
    requires
        body_wf(s),
    ensures
        keeps(s, segment::watchdog(s)),
{
    reveal(segment::watchdog);
    reveal(segment::end_wake);
}

proof fn offer_keeps(s: SegmentView)
    requires
        body_wf(s),
        s.core.outbound is Some,
        s.core.frames_this_wake < 16,
    ensures
        keeps(s, segment::offer(s)),
{
    reveal(segment::offer);
    watchdog_keeps(s);
}

proof fn pump_keeps(s: SegmentView)
    requires
        body_wf(s),
    ensures
        keeps(s, segment::pump(s)),
{
    reveal(segment::pump);
    if s.core.frames_this_wake >= 16 {
        watchdog_keeps(SegmentView { core: SegmentCore { outbound_work: true, ..s.core }, ..s });
    } else if s.core.outbound is Some {
        offer_keeps(s);
    }
}

proof fn start_outbound_keeps(s: SegmentView)
    requires
        body_wf(s),
    ensures
        keeps(s, segment::start_outbound(s)),
{
    reveal(segment::start_outbound);
    let core = SegmentCore {
        write_blocked: s.core.write_blocked && !s.core.writable,
        outbound_work: false,
        frames_this_wake: 0,
        ..s.core
    };
    pump_keeps(SegmentView { core, ..s });
}

proof fn inbound_gate_keeps(s: SegmentView)
    requires
        body_wf(s),
    ensures
        keeps(s, segment::inbound_gate(s)),
{
    reveal(segment::inbound_gate);
    start_outbound_keeps(
        SegmentView { core: SegmentCore { inbound_work: false, ..s.core }, ..s },
    );
}

proof fn drain_keeps(s: SegmentView)
    requires
        body_wf(s),
    ensures
        keeps(s, segment::channel_drained(s)),
        keeps(s, segment::drain_channel(s)),
{
    reveal(segment::channel_drained);
    reveal(segment::drain_channel);
    inbound_gate_keeps(s);
}

/// A segment that has just opened meets the invariant.
pub proof fn an_opened_segment_is_well_formed(segment_id: u32, read_cursor: u64, now_us: u64)
    ensures
        segment_wf(segment::opened(segment_id, read_cursor, now_us)),
{
}

/// The samples behind the cursor that are neither sent nor in flight: where the
/// segment's audio began.
pub open spec fn origin(core: SegmentCore) -> int {
    core.read_cursor - core.samples_sent - segment::in_flight(core.outbound)
}

/// What a turn's action tells of the event that led to it.
pub open spec fn traces(s: SegmentView, event: SegmentEvent) -> bool {
    let step = segment::segment_step(s, event);
    &&& step.action matches SegmentAction::Begin(OutFrame::Audio(_)) ==> {
        event is Copied && (s.core.phase is CopyFull || s.core.phase is CopyPartial)
    }
    &&& step.action matches SegmentAction::Begin(OutFrame::SegmentEnd(_)) ==> {
        event is Clock && s.core.phase is CloseClock
    }
    &&& step.action is Poll ==> event is Woke
    &&& step.action matches SegmentAction::Exit(SegmentExit::Completed) ==> {
        &&& event == SegmentEvent::Wrote(WriteOutcome::Whole)
        &&& s.core.outbound == Some(OutboundKind::SegmentEnd)
        &&& !s.core.channel_lost
    }
    &&& step.action matches SegmentAction::Exit(SegmentExit::SegmentDroppedSocketKept) ==> {
        ||| event == SegmentEvent::Wrote(WriteOutcome::Whole) && s.core.outbound == Some(
            OutboundKind::SegmentEnd,
        ) && s.core.channel_lost
        ||| event == SegmentEvent::Began(false) && s.core.segment_end is None
        ||| event == SegmentEvent::Budget(segment::BudgetOutcome::Aligned)
    }
}

/// What one turn does to a well-formed segment.
pub open spec fn lawful(s: SegmentView, event: SegmentEvent) -> bool {
    let step = segment::segment_step(s, event);
    let n = step.next;
    &&& segment_wf(n)
    &&& traces(s, event)
    &&& n.core.segment_id == s.core.segment_id
    &&& origin(n.core) == origin(s.core)
    &&& s.core.segment_end is Some ==> n.core.segment_end == s.core.segment_end
    &&& s.core.vad_closed ==> n.core.vad_closed
    &&& s.core.channel_lost ==> n.core.channel_lost
    &&& n.core.frames_sent >= s.core.frames_sent
    &&& n.core.samples_sent >= s.core.samples_sent
}

proof fn wake_is_lawful(s: SegmentView, event: SegmentEvent)
    requires
        segment_wf(s),
        segment::answers(s, event),
        event is Woke,
    ensures
        lawful(s, event),
{
    reveal(segment::on_woke);
    let n = segment::segment_step(s, event).next;
    assert(n.core.phase is Poll);
    assert(segment_wf(n));
    assert(origin(n.core) == origin(s.core));
}

proof fn readiness_is_lawful(s: SegmentView, ready: netpoll::Readiness)
    requires
        segment_wf(s),
        s.core.phase is Poll,
    ensures
        lawful(s, SegmentEvent::Polled(ready)),
{
    reveal(segment::on_polled);
    let core = SegmentCore {
        readable: ready.is_readable(),
        writable: ready.is_writable(),
        ..s.core
    };
    drain_keeps(SegmentView { core, ..s });
}

proof fn flag_is_lawful(s: SegmentView, closed: bool)
    requires
        segment_wf(s),
        s.core.phase is VadFlag,
    ensures
        lawful(s, SegmentEvent::VadFlag(closed)),
{
    inbound_gate_keeps(SegmentView { core: SegmentCore { vad_closed: closed, ..s.core }, ..s });
}

proof fn inbound_is_lawful(s: SegmentView, hit_cap: bool)
    requires
        segment_wf(s),
        s.core.phase is Inbound,
    ensures
        lawful(s, SegmentEvent::Pumped { hit_cap }),
        lawful(s, SegmentEvent::PumpFailed),
{
    start_outbound_keeps(
        SegmentView { core: SegmentCore { inbound_work: hit_cap, ..s.core }, ..s },
    );
}

proof fn event_of_channel_is_lawful(s: SegmentView, got: Received)
    requires
        segment_wf(s),
        s.core.phase is Receive,
    ensures
        lawful(s, SegmentEvent::Received(got)),
{
    reveal(segment::on_received);
    match got {
        Received::Message(StreamerMsg::Telemetry(tel)) => {
            if s.pending.len() < PENDING_TELEMETRY_CAP {
                drain_keeps(SegmentView { pending: s.pending.push(tel), ..s });
            } else {
                drain_keeps(SegmentView { pending: s.pending.drop_first().push(tel), ..s });
            }
        },
        Received::Message(StreamerMsg::VadClosed) => {
            drain_keeps(SegmentView { core: SegmentCore { vad_closed: true, ..s.core }, ..s });
        },
        Received::Message(StreamerMsg::VadOpened { .. }) => {
            drain_keeps(s);
        },
        Received::Empty => {
            drain_keeps(s);
        },
        Received::Disconnected => {
            let segment_end = if s.core.segment_end is Some {
                s.core.segment_end
            } else {
                Some(EndReason::InternalError)
            };
            drain_keeps(
                SegmentView {
                    core: SegmentCore { channel_lost: true, segment_end, ..s.core },
                    ..s
                },
            );
        },
    }
}

proof fn close_keeps(s: SegmentView, reason: EndReason)
    requires
        body_wf(s),
        s.core.segment_end is None,
        s.core.outbound is None,
    ensures
        keeps(
            SegmentView { core: SegmentCore { segment_end: Some(reason), ..s.core }, ..s },
            segment::close(s, reason),
        ),
{
    reveal(segment::close);
    pump_keeps(SegmentView { core: SegmentCore { segment_end: Some(reason), ..s.core }, ..s });
}

proof fn event_of_selector_is_lawful(s: SegmentView, event: SegmentEvent)
    requires
        segment_wf(s),
        segment::answers(s, event),
        s.core.phase is CloseClock || s.core.phase is Ring || s.core.phase is PaceClock
            || s.core.phase is Pace || s.core.phase is CopyFull || s.core.phase is CopyPartial,
    ensures
        lawful(s, event),
{
    match event {
        SegmentEvent::Clock { .. } => {
            reveal(segment::on_close_clock);
        },
        SegmentEvent::Ring(_) => {
            reveal(segment::on_ring);
            close_keeps(s, EndReason::Overrun);
            close_keeps(s, EndReason::VadRelease);
            watchdog_keeps(s);
            watchdog_keeps(
                SegmentView { core: SegmentCore { preroll_drained: true, ..s.core }, ..s },
            );
        },
        SegmentEvent::PaceHeld { .. } => {
            reveal(segment::on_pace_held);
            reveal(segment::watchdog);
            reveal(segment::end_wake);
        },
        SegmentEvent::PaceOpen { .. } => {
            reveal(segment::on_pace_open);
        },
        SegmentEvent::Copied { .. } => {
            reveal(segment::on_copied);
            close_keeps(s, EndReason::Overrun);
        },
        _ => {},
    }
}

proof fn event_of_begin_is_lawful(s: SegmentView, ok: bool)
    requires
        segment_wf(s),
        segment::answers(s, SegmentEvent::Began(ok)),
        s.core.phase is Begin,
    ensures
        lawful(s, SegmentEvent::Began(ok)),
{
    reveal(segment::on_began);
    reveal(segment::offer);
    assert(!s.core.write_blocked);
}

proof fn event_of_whole_write_is_lawful(s: SegmentView)
    requires
        segment_wf(s),
        segment::answers(s, SegmentEvent::Wrote(WriteOutcome::Whole)),
        s.core.phase is Write,
    ensures
        lawful(s, SegmentEvent::Wrote(WriteOutcome::Whole)),
{
    reveal(segment::on_wrote);
    let sent = s.core.outbound;
    if sent != Some(OutboundKind::SegmentEnd) {
        let core = SegmentCore {
            frames_sent: (s.core.frames_sent + if sent->0 is Audio {
                1int
            } else {
                0
            }) as u32,
            samples_sent: (s.core.samples_sent + segment::in_flight(sent)) as u64,
            outbound: None,
            frames_this_wake: (s.core.frames_this_wake + 1) as u32,
            ..s.core
        };
        pump_keeps(SegmentView { core, ..s });
    }
}

proof fn event_of_write_is_lawful(s: SegmentView, outcome: WriteOutcome)
    requires
        segment_wf(s),
        segment::answers(s, SegmentEvent::Wrote(outcome)),
        s.core.phase is Write,
        outcome != WriteOutcome::Whole,
    ensures
        lawful(s, SegmentEvent::Wrote(outcome)),
{
    reveal(segment::on_wrote);
    match outcome {
        WriteOutcome::Blocked { spin_tripped, now } => {
            let core = SegmentCore {
                write_blocked: true,
                write_block_seen: true,
                spin_deadline: if spin_tripped && s.core.spin_deadline is None {
                    clock::moved(now, clock::Duration { nanos: 10_000_000 })
                } else {
                    s.core.spin_deadline
                },
                ..s.core
            };
            watchdog_keeps(SegmentView { core, ..s });
        },
        _ => {
            pump_keeps(s);
        },
    }
}

proof fn event_of_budget_is_lawful(s: SegmentView, event: SegmentEvent)
    requires
        segment_wf(s),
        segment::answers(s, event),
        event is Budget,
    ensures
        lawful(s, event),
{
    reveal(segment::on_budget);
    reveal(segment::end_wake);
}

proof fn every_event_is_lawful(s: SegmentView, event: SegmentEvent)
    requires
        segment_wf(s),
        segment::answers(s, event),
    ensures
        lawful(s, event),
{
    match event {
        SegmentEvent::Woke { .. } => wake_is_lawful(s, event),
        SegmentEvent::Polled(ready) => readiness_is_lawful(s, ready),
        SegmentEvent::VadFlag(closed) => flag_is_lawful(s, closed),
        SegmentEvent::Pumped { hit_cap } => inbound_is_lawful(s, hit_cap),
        SegmentEvent::PumpFailed => inbound_is_lawful(s, false),
        SegmentEvent::Received(got) => event_of_channel_is_lawful(s, got),
        SegmentEvent::Began(ok) => event_of_begin_is_lawful(s, ok),
        SegmentEvent::Wrote(WriteOutcome::Whole) => event_of_whole_write_is_lawful(s),
        SegmentEvent::Wrote(outcome) => event_of_write_is_lawful(s, outcome),
        SegmentEvent::Budget(_) => event_of_budget_is_lawful(s, event),
        _ => event_of_selector_is_lawful(s, event),
    }
}

/// Every turn keeps the invariant; in particular the telemetry queue never
/// outgrows its cap.
pub proof fn a_turn_keeps_the_invariant(s: SegmentView, event: SegmentEvent)
    requires
        segment_wf(s),
        segment::answers(s, event),
    ensures
        segment_wf(segment::segment_step(s, event).next),
{
    every_event_is_lawful(s, event);
}

/// Every sample the cursor has passed was sent whole or is in flight: cursor,
/// sent and in-flight samples move together, so the counts in the close are the
/// samples that left the ring.
pub proof fn every_sample_is_accounted_for(s: SegmentView, event: SegmentEvent)
    requires
        segment_wf(s),
        segment::answers(s, event),
    ensures
        ({
            let n = segment::segment_step(s, event).next.core;
            n.read_cursor - n.samples_sent - segment::in_flight(n.outbound) == s.core.read_cursor
                - s.core.samples_sent - segment::in_flight(s.core.outbound)
        }),
{
    every_event_is_lawful(s, event);
}

/// Once a segment is closing it stays closing, for the reason it first had.
pub proof fn a_closing_segment_stays_closing(s: SegmentView, event: SegmentEvent)
    requires
        segment_wf(s),
        segment::answers(s, event),
        s.core.segment_end is Some,
    ensures
        segment::segment_step(s, event).next.core.segment_end == s.core.segment_end,
{
    every_event_is_lawful(s, event);
}

/// A segment that is closing encodes no more audio; what is in flight drains
/// first and the close follows.
pub proof fn no_audio_is_begun_behind_a_close(s: SegmentView, event: SegmentEvent)
    requires
        segment_wf(s),
        segment::answers(s, event),
        segment::segment_step(s, event).action matches SegmentAction::Begin(OutFrame::Audio(_)),
    ensures
        s.core.segment_end is None,
        s.core.outbound is None,
        event is Copied,
{
    every_event_is_lawful(s, event);
}

/// Only a close that went out whole completes a segment, and only while the
/// channel stands: a close forced by a lost channel is a dropped segment.
pub proof fn only_a_sent_close_completes(s: SegmentView, event: SegmentEvent)
    requires
        segment_wf(s),
        segment::answers(s, event),
    ensures
        segment::segment_step(s, event).action matches SegmentAction::Exit(how) ==> (how
            == SegmentExit::Completed <==> event == SegmentEvent::Wrote(WriteOutcome::Whole)
            && s.core.outbound == Some(OutboundKind::SegmentEnd) && !s.core.channel_lost),
{
    every_event_is_lawful(s, event);
    reveal(segment::on_wrote);
}

/// The socket outlives a dropped segment only where the stream is still
/// frame-aligned: the close went out whole, a frame could not be encoded, or the
/// budget ran out before any of its bytes were written.
pub proof fn a_kept_socket_is_frame_aligned(s: SegmentView, event: SegmentEvent)
    requires
        segment_wf(s),
        segment::answers(s, event),
        segment::segment_step(s, event).action == SegmentAction::Exit(
            SegmentExit::SegmentDroppedSocketKept,
        ),
    ensures
        ({
            ||| event == SegmentEvent::Wrote(WriteOutcome::Whole) && s.core.channel_lost
            ||| event == SegmentEvent::Began(false) && s.core.segment_end is None
            ||| event == SegmentEvent::Budget(segment::BudgetOutcome::Aligned)
        }),
{
    every_event_is_lawful(s, event);
}

/// The close carries the counts of what went out and the reason the segment
/// closed, and is dated by the clock just read.
pub proof fn the_close_reports_what_went_out(s: SegmentView, event: SegmentEvent)
    requires
        segment_wf(s),
        segment::answers(s, event),
        segment::segment_step(s, event).action matches SegmentAction::Begin(
            OutFrame::SegmentEnd(_),
        ),
    ensures
        segment::segment_step(s, event).action matches SegmentAction::Begin(
            OutFrame::SegmentEnd(end),
        ) && {
            &&& end.segment_id == s.core.segment_id
            &&& end.frames_sent == s.core.frames_sent
            &&& end.samples_sent == s.core.samples_sent
            &&& Some(end.reason) == s.core.segment_end
            &&& event == (SegmentEvent::Clock { now_us: end.device_ts_us })
        },
{
    every_event_is_lawful(s, event);
    reveal(segment::on_close_clock);
}

/// Writability is armed only for a write that blocked, and never while the spin
/// backoff runs. The wait is empty exactly when the last wake left work behind.
pub proof fn a_wake_waits_only_for_what_it_needs(s: SegmentView, event: SegmentEvent)
    requires
        segment_wf(s),
        segment::answers(s, event),
        segment::segment_step(s, event).action is Poll,
    ensures
        segment::segment_step(s, event).action matches SegmentAction::Poll { read, write, timeout }
            && {
            let n = segment::segment_step(s, event).next.core;
            &&& read == n.inbound_armed
            &&& write <==> n.write_blocked && n.spin_deadline is None
            &&& write ==> n.outbound is Some
            &&& timeout.nanos == 0 <==> s.core.work_pending
            &&& timeout.nanos <= 10_000_000
        },
{
    every_event_is_lawful(s, event);
    reveal(segment::on_woke);
    if let SegmentEvent::Woke { now, write_deadline, .. } = event {
        let spin = if s.core.spin_deadline matches Some(d) && now.nanos >= d.nanos {
            None
        } else {
            s.core.spin_deadline
        };
        let budget = if s.core.write_blocked && s.core.outbound is Some {
            write_deadline
        } else {
            None
        };
        let deadline = segment::earlier(segment::earlier(budget, s.core.pace_deadline), spin);
        netpoll::only_pending_work_polls_without_waiting(now, deadline, s.core.work_pending);
    }
}

/// Telemetry is queued in order, and a full queue loses its oldest frame and
/// says so.
pub proof fn a_full_queue_drops_its_oldest(
    s: SegmentView,
    tel: crate::streamer::telemetry::Telemetry,
)
    requires
        segment_wf(s),
        s.core.phase is Receive,
    ensures
        ({
            let step = segment::segment_step(
                s,
                SegmentEvent::Received(Received::Message(StreamerMsg::Telemetry(tel))),
            );
            let full = s.pending.len() == PENDING_TELEMETRY_CAP;
            &&& step.next.pending == if full {
                s.pending.drop_first().push(tel)
            } else {
                s.pending.push(tel)
            }
            &&& step.duties == if full {
                seq![
                    SegmentDuty::Observe(ObsEvent::TelemetryDropped { cap: PENDING_TELEMETRY_CAP }),
                ]
            } else {
                seq![]
            }
        }),
{
    reveal(segment::on_received);
    reveal(segment::drain_channel);
}

} // verus!
