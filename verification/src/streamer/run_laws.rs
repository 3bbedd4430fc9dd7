//! What the streamer's outer cycle keeps, whatever the outside world answers.

use vstd::prelude::*;

use crate::streamer::idle;
use crate::streamer::run::{
    self, LoopAction, LoopDuty, LoopEvent, LoopPhase, LoopStep, SendResult, StreamerLoop,
};
use crate::streamer::segment::{Received, SegmentExit};

verus! {

/// An onset is being served.
pub open spec fn serving(phase: LoopPhase) -> bool {
    phase is OnsetConnect || phase is Start || phase is Reconnect || phase is Resend
        || phase is Segment
}

/// The loop's invariant: what it waits for fits whether a connection is held, and
/// an onset is at hand while one is served.
pub open spec fn loop_wf(s: StreamerLoop) -> bool {
    &&& serving(s.phase) ==> s.onset is Some
    &&& match s.phase {
        LoopPhase::Link => !s.connected,
        LoopPhase::IdleConnect => !s.connected,
        LoopPhase::Now(_) => !s.connected,
        LoopPhase::Wait(_) => !s.connected,
        LoopPhase::Inbound => s.connected,
        LoopPhase::Poll => s.connected,
        LoopPhase::Pump => s.connected,
        LoopPhase::OnsetConnect => !s.connected,
        LoopPhase::Start => s.connected,
        LoopPhase::Reconnect => !s.connected && !s.fresh_connect,
        LoopPhase::Resend => !s.connected && !s.fresh_connect,
        LoopPhase::Segment => s.connected,
        _ => true,
    }
}

/// The loop's last word on whether an onset is being served.
pub open spec fn told_active(before: bool, duties: Seq<LoopDuty>) -> bool
    decreases duties.len(),
{
    if duties.len() == 0 {
        before
    } else {
        match duties.last() {
            LoopDuty::SegmentActive(now) => now,
            _ => told_active(before, duties.drop_last()),
        }
    }
}

proof fn told_active_behind(before: bool, first: Seq<LoopDuty>, then: Seq<LoopDuty>)
    ensures
        told_active(before, first + then) == told_active(told_active(before, first), then),
    decreases then.len(),
{
    if then.len() == 0 {
        assert(first + then =~= first);
    } else {
        assert((first + then).drop_last() =~= first + then.drop_last());
        told_active_behind(before, first, then.drop_last());
    }
}

proof fn told_active_of_parts(before: bool)
    ensures
        told_active(before, run::drop_duties()) == before,
        told_active(before, run::hold_duties()) == before,
        told_active(before, seq![LoopDuty::NoteInboundExit] + run::drop_duties()) == before,
        told_active(before, seq![LoopDuty::RecordFailure]) == before,
        told_active(before, seq![LoopDuty::SegmentActive(true)]) == true,
        told_active(before, seq![LoopDuty::SegmentActive(false)]) == false,
        told_active(before, seq![]) == before,
{
    reveal_with_fuel(told_active, 7);
    let d = run::drop_duties();
    assert(d.drop_last().last() == d[2]);
    assert(d.drop_last().drop_last().last() == d[1]);
    assert(d.drop_last().drop_last().drop_last().last() == d[0]);
    let h = run::hold_duties();
    assert(h.drop_last().last() == h[3]);
    assert(h.drop_last().drop_last().last() == h[2]);
    assert(h.drop_last().drop_last().drop_last().last() == h[1]);
    assert(h.drop_last().drop_last().drop_last().drop_last().last() == h[0]);
    told_active_behind(before, seq![LoopDuty::NoteInboundExit], d);
    let one = seq![LoopDuty::NoteInboundExit];
    assert(one.last() == LoopDuty::NoteInboundExit);
    assert(one.drop_last() =~= seq![]);
    let one = seq![LoopDuty::RecordFailure];
    assert(one.last() == LoopDuty::RecordFailure);
    assert(one.drop_last() =~= seq![]);
    assert(seq![LoopDuty::SegmentActive(true)].last() == LoopDuty::SegmentActive(true));
    assert(seq![LoopDuty::SegmentActive(false)].last() == LoopDuty::SegmentActive(false));
}

/// What a step keeps: the invariant, the segment counter but for the id it spends,
/// and the published onset span.
spec fn orderly(s: StreamerLoop, active: bool, step: LoopStep) -> bool {
    let n = step.next;
    &&& loop_wf(n)
    &&& told_active(active, step.duties) == serving(n.phase)
    &&& step.action matches LoopAction::SendStart { segment_id, .. } ==> {
        &&& segment_id == s.segment_counter
        &&& n.segment_counter == idle::next_attempt(s.segment_counter)
    }
    &&& !(step.action is SendStart) ==> n.segment_counter == s.segment_counter
    &&& step.action matches LoopAction::RunSegment { segment_id } ==> segment_id == s.segment_id
        && n.segment_id == s.segment_id
}

proof fn rest_is_orderly(s: StreamerLoop)
    ensures
        orderly(s, false, run::idle_wait(s)),
        orderly(s, false, run::top(s)),
        orderly(s, false, run::serve_onset(s)),
        orderly(s, false, run::drain(s)),
        orderly(s, true, run::end_onset(s)),
        !(run::idle_wait(s).action is SendStart),
        !(run::top(s).action is SendStart),
        !(run::end_onset(s).action is SendStart),
{
    reveal(run::idle_wait);
    reveal(run::top);
    reveal(run::serve_onset);
    reveal(run::drain);
    reveal(run::end_onset);
    reveal(run::start);
    told_active_of_parts(false);
    told_active_of_parts(true);
    assert(seq![LoopDuty::SegmentActive(true)] + Seq::<LoopDuty>::empty() =~= seq![
        LoopDuty::SegmentActive(true),
    ]);
    assert(seq![LoopDuty::SegmentActive(false)] + Seq::<LoopDuty>::empty() =~= seq![
        LoopDuty::SegmentActive(false),
    ]);
}

proof fn every_turn_is_orderly(s: StreamerLoop, event: LoopEvent)
    requires
        loop_wf(s),
        run::answers(s, event),
    ensures
        orderly(s, serving(s.phase), run::loop_step(s, event)),
{
    let active = serving(s.phase);
    told_active_of_parts(active);
    rest_is_orderly(s);
    let step = run::loop_step(s, event);
    match event {
        LoopEvent::Link { .. } => {
            reveal(run::on_link);
        },
        LoopEvent::Connected(ok) => {
            let held = StreamerLoop { connected: true, pacing: run::cleared(s.pacing), ..s };
            reveal(run::on_idle_connect);
            reveal(run::on_onset_connect);
            reveal(run::charge);
            reveal(run::start);
            rest_is_orderly(held);
            told_active_behind(active, run::hold_duties(), run::idle_wait(held).duties);
            assert(run::hold_duties() + Seq::<LoopDuty>::empty() =~= run::hold_duties());
            assert(seq![LoopDuty::RecordFailure] + Seq::<LoopDuty>::empty() =~= seq![
                LoopDuty::RecordFailure,
            ]);
        },
        LoopEvent::Now { .. } => {
            reveal(run::charge);
            assert(seq![LoopDuty::RecordFailure] + Seq::<LoopDuty>::empty() =~= seq![
                LoopDuty::RecordFailure,
            ]);
        },
        LoopEvent::Wait { wait_secs } => {
            reveal(run::on_wait);
            let pacing = run::armed(s.pacing, s.now_secs, wait_secs);
            rest_is_orderly(StreamerLoop { pacing, ..s });
        },
        LoopEvent::Inbound { .. } => {
            reveal(run::on_inbound);
        },
        LoopEvent::Polled(_) => {
            reveal(run::on_polled);
            assert(run::drop_duties() + Seq::<LoopDuty>::empty() =~= run::drop_duties());
        },
        LoopEvent::Received(got) => {
            reveal(run::on_received);
            rest_is_orderly(StreamerLoop { onset: None, ..s });
            if let Received::Message(
                crate::streamer::segment::StreamerMsg::VadOpened { write_head },
            ) = got {
                rest_is_orderly(StreamerLoop { onset: Some(write_head), ..s });
            }
        },
        LoopEvent::Pumped { hit_cap } => {
            rest_is_orderly(StreamerLoop { idle_work_pending: hit_cap, ..s });
        },
        LoopEvent::PumpFailed => {
            reveal(run::on_pump_failed);
            let d = seq![LoopDuty::NoteInboundExit] + run::drop_duties();
            assert(d + Seq::<LoopDuty>::empty() =~= d);
        },
        LoopEvent::StartSent(sent) => {
            reveal(run::on_start);
            reveal(run::on_resend);
            let dropped = StreamerLoop { connected: false, ..s };
            let held = StreamerLoop { connected: true, pacing: run::cleared(s.pacing), ..s };
            rest_is_orderly(dropped);
            rest_is_orderly(held);
            told_active_behind(active, run::drop_duties(), run::end_onset(dropped).duties);
            told_active_behind(active, run::hold_duties(), run::end_onset(held).duties);
            assert(run::drop_duties() + Seq::<LoopDuty>::empty() =~= run::drop_duties());
            assert(run::hold_duties() + Seq::<LoopDuty>::empty() =~= run::hold_duties());
        },
        LoopEvent::SegmentDone(how) => {
            reveal(run::on_segment_done);
            let dropped = StreamerLoop { connected: false, ..s };
            rest_is_orderly(dropped);
            told_active_behind(active, run::drop_duties(), run::end_onset(dropped).duties);
        },
    }
}

/// The loop starts out well-formed.
pub proof fn a_fresh_loop_is_well_formed(jitter_seed: u32)
    ensures
        loop_wf(run::idle_start(jitter_seed)),
{
}

/// Every turn keeps the invariant.
pub proof fn a_turn_keeps_the_invariant(s: StreamerLoop, event: LoopEvent)
    requires
        loop_wf(s),
        run::answers(s, event),
    ensures
        loop_wf(run::loop_step(s, event).next),
{
    every_turn_is_orderly(s, event);
}

/// The published onset span is true exactly while an onset is served: it is
/// raised when one is taken up and lowered on every way out.
pub proof fn the_onset_span_is_published_exactly(s: StreamerLoop, event: LoopEvent)
    requires
        loop_wf(s),
        run::answers(s, event),
    ensures
        told_active(serving(s.phase), run::loop_step(s, event).duties) == serving(
            run::loop_step(s, event).next.phase,
        ),
{
    every_turn_is_orderly(s, event);
}

/// Every opening frame spends a fresh segment id, whether or not the segment then
/// runs, and nothing else moves the counter. The segment that runs has the id of
/// its opening frame.
pub proof fn an_opening_frame_spends_an_id(s: StreamerLoop, event: LoopEvent)
    requires
        loop_wf(s),
        run::answers(s, event),
    ensures
        ({
            let step = run::loop_step(s, event);
            &&& step.action matches LoopAction::SendStart { segment_id, .. } ==> {
                &&& segment_id == s.segment_counter
                &&& step.next.segment_counter == idle::next_attempt(s.segment_counter)
            }
            &&& !(step.action is SendStart) ==> step.next.segment_counter == s.segment_counter
            &&& step.action matches LoopAction::RunSegment { segment_id } ==> segment_id
                == s.segment_id
        }),
{
    every_turn_is_orderly(s, event);
}

/// A link that is down or unknown is skipped in silence: nothing is attempted and
/// nothing is charged.
pub proof fn a_down_link_charges_nothing(s: StreamerLoop, now_secs: u64, link_up: Option<bool>)
    requires
        loop_wf(s),
        s.phase is Link,
        link_up != Some(true),
    ensures
        ({
            let step = run::loop_step(s, LoopEvent::Link { now_secs, link_up });
            &&& step.next.pacing == s.pacing
            &&& !(step.action is Connect)
            &&& step.duties == Seq::<LoopDuty>::empty()
        }),
{
    reveal(run::on_link);
    reveal(run::idle_wait);
}

/// A failed idle connect is charged once and arms the deadline `wait_secs` past
/// the second the attempt was made in; nothing is attempted before it.
pub proof fn a_failed_idle_connect_backs_off(s: StreamerLoop, wait_secs: u64)
    requires
        loop_wf(s),
        s.phase is IdleConnect,
    ensures
        ({
            let failed = run::loop_step(s, LoopEvent::Connected(false));
            let backed_off = run::loop_step(failed.next, LoopEvent::Wait { wait_secs });
            &&& failed.duties == seq![LoopDuty::RecordFailure]
            &&& failed.action == LoopAction::DrawWait { seed: run::jitter_seed(s.pacing) }
            &&& backed_off.next.pacing == run::armed(
                run::charged(s.pacing),
                s.now_secs,
                wait_secs,
            )
            &&& !backed_off.next.connected
            &&& backed_off.action is WaitReceive
        }),
{
    reveal(run::on_idle_connect);
    reveal(run::charge);
    reveal(run::on_wait);
    reveal(run::idle_wait);
}

/// An onset connects whatever the backoff says, and its failure drops the onset
/// without a charge: real time or nothing.
pub proof fn an_onset_ignores_the_backoff(s: StreamerLoop)
    requires
        loop_wf(s),
        s.onset is Some,
        !s.connected,
    ensures
        run::serve_onset(s).action is Connect,
        run::serve_onset(s).next.pacing == s.pacing,
        s.phase is OnsetConnect ==> ({
            let failed = run::loop_step(s, LoopEvent::Connected(false));
            &&& failed.next.pacing == s.pacing
            &&& failed.action == LoopAction::AskLink
            &&& failed.next.onset is None
        }),
{
    reveal(run::serve_onset);
    reveal(run::on_onset_connect);
    reveal(run::end_onset);
    reveal(run::top);
}

/// A connection that is taken up clears the pacing, so its later loss reconnects
/// at once.
pub proof fn a_success_clears_the_pacing(s: StreamerLoop, event: LoopEvent)
    requires
        loop_wf(s),
        run::answers(s, event),
        !s.connected,
        run::loop_step(s, event).next.connected,
    ensures
        run::loop_step(s, event).next.pacing.reconnect_deadline_secs == 0,
{
    reveal(run::on_link);
    reveal(run::on_idle_connect);
    reveal(run::charge);
    reveal(run::on_wait);
    reveal(run::on_received);
    reveal(run::drain);
    reveal(run::on_onset_connect);
    reveal(run::start);
    reveal(run::on_resend);
    reveal(run::end_onset);
    reveal(run::serve_onset);
    reveal(run::top);
    reveal(run::idle_wait);
}

/// A socket lost inside a segment is torn down without a charge, and the next
/// thing asked is whether the link is up.
pub proof fn a_loss_inside_a_segment_is_not_charged(s: StreamerLoop)
    requires
        loop_wf(s),
        s.phase is Segment,
    ensures
        ({
            let step = run::loop_step(s, LoopEvent::SegmentDone(SegmentExit::SocketLost));
            &&& !step.next.connected
            &&& step.next.pacing == s.pacing
            &&& step.action == LoopAction::AskLink
            &&& step.duties == run::drop_duties() + seq![LoopDuty::SegmentActive(false)]
        }),
{
    reveal(run::on_segment_done);
    reveal(run::end_onset);
    reveal(run::top);
    assert(run::drop_duties() + (seq![LoopDuty::SegmentActive(false)] + Seq::<
        LoopDuty,
    >::empty()) =~= run::drop_duties() + seq![LoopDuty::SegmentActive(false)]);
}

/// An opening frame that fails on a held socket gets one reconnect; one that
/// fails on a socket opened for it, or a second time, drops the onset.
pub proof fn one_reconnect_and_no_more(s: StreamerLoop)
    requires
        loop_wf(s),
    ensures
        s.phase is Start ==> {
            let step = run::loop_step(s, LoopEvent::StartSent(SendResult::Failed));
            &&& !step.next.connected
            &&& step.action is Connect <==> !s.fresh_connect
        },
        s.phase is Resend ==> {
            let step = run::loop_step(s, LoopEvent::StartSent(SendResult::Failed));
            &&& step.action == LoopAction::AskLink
            &&& !step.next.connected
        },
{
    reveal(run::on_start);
    reveal(run::on_resend);
    reveal(run::end_onset);
    reveal(run::top);
}

/// Only a vanished sender ends the loop.
pub proof fn only_a_lost_channel_ends_the_loop(s: StreamerLoop, event: LoopEvent)
    requires
        loop_wf(s),
        run::answers(s, event),
    ensures
        run::loop_step(s, event).action is Exit <==> event == LoopEvent::Received(
            Received::Disconnected,
        ),
{
    reveal(run::on_link);
    reveal(run::on_idle_connect);
    reveal(run::charge);
    reveal(run::on_wait);
    reveal(run::on_inbound);
    reveal(run::on_polled);
    reveal(run::on_received);
    reveal(run::on_pump_failed);
    reveal(run::drain);
    reveal(run::on_onset_connect);
    reveal(run::on_start);
    reveal(run::start);
    reveal(run::on_resend);
    reveal(run::on_segment_done);
    reveal(run::end_onset);
    reveal(run::serve_onset);
    reveal(run::top);
    reveal(run::idle_wait);
}

} // verus!
