//! What each turn of the streamer's outer cycle comes to, and what several of them
//! come to together.

use vstd::prelude::*;

use crate::clock::{Duration, Instant};
use crate::streamer::idle::{Pacing, SocketDuty};
use crate::streamer::netpoll::{self, Readiness};
use crate::streamer::run::{
    self, LoopAction, LoopDuty, LoopEvent, LoopPhase, Resume, SendResult, StreamerExit,
    StreamerLoop,
};
use crate::streamer::segment::{Received, SegmentExit, StreamerMsg};

verus! {

/// A lost connection is dropped, its framing and handshake are forgotten, and playback
/// winds down.
pub proof fn a_lost_connection_leaves_nothing_behind()
    ensures
        run::drop_duties() == seq![
            LoopDuty::DropSocket,
            LoopDuty::Socket(SocketDuty::ResetAccumulator),
            LoopDuty::Socket(SocketDuty::ResetInboundState),
            LoopDuty::Socket(SocketDuty::EndOfAudio),
        ],
{
}

/// A connection that is taken up starts clean: framing and handshake are forgotten
/// before it is held, the stream boundary is marked, and the backoff goes to its floor.
pub proof fn a_connection_taken_up_starts_clean()
    ensures
        run::hold_duties() == seq![
            LoopDuty::Socket(SocketDuty::ResetAccumulator),
            LoopDuty::Socket(SocketDuty::ResetInboundState),
            LoopDuty::HoldSocket,
            LoopDuty::Socket(SocketDuty::StreamReset),
            LoopDuty::RecordSuccess,
        ],
{
}

/// A new loop holds nothing and has spent nothing: its first connect is due at once and
/// its first segment has the id zero.
pub proof fn a_new_loop_has_spent_nothing(jitter_seed: u32)
    ensures
        ({
            let s = run::idle_start(jitter_seed);
            &&& !s.connected
            &&& s.onset is None
            &&& s.segment_counter == 0
            &&& !s.idle_work_pending
            &&& s.pacing == (Pacing {
                reconnect_deadline_secs: 0,
                attempt_counter: 0,
                jitter_seed_base: jitter_seed,
            })
            &&& s.phase == LoopPhase::Link
        }),
{
}

/// A pod that holds no connection attempts one on an idle tick exactly where the link
/// is known to be up and the deadline has come. Where it does not, it waits one tick on
/// the channel.
pub proof fn an_idle_tick_connects_when_it_is_due(
    s: StreamerLoop,
    now_secs: u64,
    link_up: Option<bool>,
)
    requires
        s.phase is Link,
        !s.connected,
    ensures
        ({
            let step = run::loop_step(s, LoopEvent::Link { now_secs, link_up });
            let due = link_up == Some(true) && s.pacing.reconnect_deadline_secs <= now_secs;
            &&& step.duties.len() == 0
            &&& due ==> step.action == LoopAction::Connect && step.next == (StreamerLoop {
                now_secs,
                phase: LoopPhase::IdleConnect,
                ..s
            })
            &&& !due ==> step.action == (LoopAction::WaitReceive {
                timeout: Duration { nanos: 10_000_000 },
            }) && step.next == (StreamerLoop {
                inbound_armed: false,
                buffers_plaintext: false,
                readable: false,
                phase: LoopPhase::Receive,
                ..s
            })
        }),
{
    reveal(run::on_link);
    reveal(run::idle_wait);
}

/// An idle connect that works is held and clears the deadline; the loop then waits on
/// the connection.
pub proof fn an_idle_connect_is_held(s: StreamerLoop)
    requires
        s.phase is IdleConnect,
    ensures
        ({
            let step = run::loop_step(s, LoopEvent::Connected(true));
            &&& step.duties == run::hold_duties()
            &&& step.action == LoopAction::LookAtInbound
            &&& step.next == (StreamerLoop {
                connected: true,
                pacing: Pacing { reconnect_deadline_secs: 0, ..s.pacing },
                phase: LoopPhase::Inbound,
                ..s
            })
        }),
{
    reveal(run::on_idle_connect);
    reveal(run::idle_wait);
    assert(run::hold_duties() + Seq::<LoopDuty>::empty() =~= run::hold_duties());
}

/// A charged failure counts one more attempt, steps the backoff up once, and draws its
/// wait from the pod's own seed folded with that count. Nothing else moves.
pub proof fn a_failure_is_charged_once(s: StreamerLoop, now_secs: u64)
    ensures
        s.phase is IdleConnect ==> {
            let step = run::loop_step(s, LoopEvent::Connected(false));
            &&& step.next.phase == LoopPhase::Wait(Resume::IdleWait)
            &&& step.next.now_secs == s.now_secs
        },
        s.phase matches LoopPhase::Now(resume) ==> {
            let step = run::loop_step(s, LoopEvent::Now { now_secs });
            &&& step.next.phase == LoopPhase::Wait(resume)
            &&& step.next.now_secs == now_secs
        },
        s.phase is IdleConnect || s.phase is Now ==> {
            let event = if s.phase is Now {
                LoopEvent::Now { now_secs }
            } else {
                LoopEvent::Connected(false)
            };
            let step = run::loop_step(s, event);
            let count = step.next.pacing.attempt_counter;
            &&& s.pacing.attempt_counter < u32::MAX ==> count == s.pacing.attempt_counter + 1
            &&& s.pacing.attempt_counter == u32::MAX ==> count == 0
            &&& step.duties == seq![LoopDuty::RecordFailure]
            &&& step.action == LoopAction::DrawWait { seed: s.pacing.jitter_seed_base ^ count }
            &&& step.next == (StreamerLoop {
                pacing: Pacing { attempt_counter: count, ..s.pacing },
                now_secs: step.next.now_secs,
                phase: step.next.phase,
                ..s
            })
        },
{
    reveal(run::on_idle_connect);
    reveal(run::charge);
    assert(seq![LoopDuty::RecordFailure] + Seq::<LoopDuty>::empty() =~= seq![
        LoopDuty::RecordFailure,
    ]);
}

/// The wait that was drawn arms the deadline that many seconds past the failure, at the
/// end of time where that lies beyond it, and the loop goes on where the failure found
/// it: an onset at hand connects at once, the deadline notwithstanding.
pub proof fn a_drawn_wait_arms_the_deadline(s: StreamerLoop, wait_secs: u64)
    requires
        s.phase is Wait,
        !s.connected,
    ensures
        ({
            let step = run::loop_step(s, LoopEvent::Wait { wait_secs });
            let deadline = step.next.pacing.reconnect_deadline_secs;
            &&& s.now_secs + wait_secs <= u64::MAX ==> deadline == s.now_secs + wait_secs
            &&& s.now_secs + wait_secs > u64::MAX ==> deadline == u64::MAX
            &&& step.next.pacing == (Pacing { reconnect_deadline_secs: deadline, ..s.pacing })
            &&& !step.next.connected
            &&& step.next.segment_counter == s.segment_counter
            &&& step.next.idle_work_pending == s.idle_work_pending
            &&& match s.phase {
                LoopPhase::Wait(Resume::Top) => {
                    &&& step.duties.len() == 0
                    &&& step.action == LoopAction::AskLink
                    &&& step.next.phase is Link
                    &&& step.next.onset is None
                },
                LoopPhase::Wait(Resume::IdleWait) => {
                    &&& step.duties.len() == 0
                    &&& step.action == (LoopAction::WaitReceive {
                        timeout: Duration { nanos: 10_000_000 },
                    })
                    &&& step.next.phase is Receive
                    &&& !step.next.inbound_armed
                    &&& !step.next.buffers_plaintext
                    &&& !step.next.readable
                },
                _ => if s.onset is Some {
                    &&& step.duties == seq![LoopDuty::SegmentActive(true)]
                    &&& step.action == LoopAction::Connect
                    &&& step.next.phase is OnsetConnect
                    &&& step.next.onset == s.onset
                    &&& !step.next.fresh_connect
                } else {
                    &&& step.duties.len() == 0
                    &&& step.action == LoopAction::AskLink
                    &&& step.next.phase is Link
                    &&& step.next.onset is None
                },
            }
        }),
{
    reveal(run::on_wait);
    reveal(run::top);
    reveal(run::idle_wait);
    reveal(run::serve_onset);
    assert(seq![LoopDuty::SegmentActive(true)] + Seq::<LoopDuty>::empty() =~= seq![
        LoopDuty::SegmentActive(true),
    ]);
}

/// The idle wait reads only where the accumulator has room, and lasts one tick unless
/// the last drain left work behind: then it does not wait at all.
pub proof fn the_idle_wait_reads_where_there_is_room(
    s: StreamerLoop,
    room: bool,
    buffers_plaintext: bool,
    now: Instant,
)
    requires
        s.phase is Inbound,
    ensures
        ({
            let step = run::loop_step(s, LoopEvent::Inbound { room, buffers_plaintext, now });
            &&& step.duties.len() == 0
            &&& step.action matches LoopAction::Poll { read, timeout }
            &&& read == room
            &&& s.idle_work_pending ==> timeout.nanos == 0
            &&& !s.idle_work_pending ==> timeout.nanos == 10_000_000
            &&& step.next == (StreamerLoop {
                inbound_armed: room,
                buffers_plaintext,
                phase: LoopPhase::Poll,
                ..s
            })
        }),
{
    reveal(run::on_inbound);
    netpoll::only_pending_work_polls_without_waiting(now, None, s.idle_work_pending);
    assert(netpoll::until_earliest(now, seq![]) == 10_000_000);
}

/// A fault of the held connection drops it and is charged; any other wake looks at the
/// channel, and remembers whether the connection can be read.
pub proof fn an_idle_wake_looks_at_the_channel(s: StreamerLoop, ready: Readiness)
    requires
        s.phase is Poll,
    ensures
        ({
            let step = run::loop_step(s, LoopEvent::Polled(ready));
            match ready {
                Readiness::Fault(_) => {
                    &&& step.duties == run::drop_duties()
                    &&& step.action == LoopAction::AskNow
                    &&& step.next == (StreamerLoop {
                        connected: false,
                        phase: LoopPhase::Now(Resume::Top),
                        ..s
                    })
                },
                Readiness::TimedOut => {
                    &&& step.duties.len() == 0
                    &&& step.action == LoopAction::TryReceive
                    &&& step.next == (StreamerLoop {
                        readable: false,
                        phase: LoopPhase::Receive,
                        ..s
                    })
                },
                Readiness::Ready { readable, .. } => {
                    &&& step.duties.len() == 0
                    &&& step.action == LoopAction::TryReceive
                    &&& step.next == (StreamerLoop {
                        readable,
                        phase: LoopPhase::Receive,
                        ..s
                    })
                },
            }
        }),
{
    reveal(run::on_polled);
    assert(run::drop_duties() + Seq::<LoopDuty>::empty() =~= run::drop_duties());
}

/// What the channel yields is taken as it is: an onset is remembered with its write
/// head, a vanished sender ends the loop, and nothing else means anything here.
/// Inbound playback is drained first on every wake that may have some.
pub proof fn what_the_channel_yields_is_remembered(s: StreamerLoop, got: Received)
    requires
        s.phase is Receive,
    ensures
        ({
            let step = run::loop_step(s, LoopEvent::Received(got));
            let drains = s.connected && (s.readable || !s.inbound_armed || s.idle_work_pending
                || s.buffers_plaintext);
            let onset = match got {
                Received::Message(StreamerMsg::VadOpened { write_head }) => Some(write_head),
                _ => None,
            };
            &&& got is Disconnected ==> step.action == LoopAction::Exit(
                StreamerExit::ChannelDisconnected,
            ) && step.next.phase is Done && step.duties.len() == 0
            &&& !(got is Disconnected) && drains ==> {
                &&& step.action == LoopAction::PumpInbound
                &&& step.duties.len() == 0
                &&& step.next == (StreamerLoop {
                    onset,
                    idle_work_pending: false,
                    phase: LoopPhase::Pump,
                    ..s
                })
            }
            &&& !(got is Disconnected) && !drains && onset is None ==> {
                &&& step.duties.len() == 0
                &&& step.action == if s.connected {
                    LoopAction::LookAtInbound
                } else {
                    LoopAction::AskLink
                }
                &&& step.next == (StreamerLoop {
                    onset: None,
                    idle_work_pending: false,
                    phase: if s.connected {
                        LoopPhase::Inbound
                    } else {
                        LoopPhase::Link
                    },
                    ..s
                })
            }
        }),
{
    reveal(run::on_received);
    reveal(run::drain);
    reveal(run::serve_onset);
    reveal(run::top);
    reveal(run::idle_wait);
}

/// An onset that the channel delivered is served with the write head it came with,
/// before the loop goes back to its idle wait and whatever the drain of inbound
/// playback on that wake comes to: at once where nothing is drained, behind the drain
/// where it works, and over a new connection where it fails.
pub proof fn every_onset_is_served(
    s: StreamerLoop,
    write_head: u64,
    hit_cap: bool,
    now_secs: u64,
    wait_secs: u64,
)
    requires
        s.phase is Receive,
    ensures
        ({
            let message = Received::Message(StreamerMsg::VadOpened { write_head });
            let heard = run::loop_step(s, LoopEvent::Received(message));
            let served = LoopAction::SendStart { segment_id: s.segment_counter, write_head };
            let drains = s.connected && (s.readable || !s.inbound_armed || s.idle_work_pending
                || s.buffers_plaintext);
            if drains {
                let drained = run::loop_step(heard.next, LoopEvent::Pumped { hit_cap });
                let failed = run::loop_step(heard.next, LoopEvent::PumpFailed);
                let charged = run::loop_step(failed.next, LoopEvent::Now { now_secs });
                let paced = run::loop_step(charged.next, LoopEvent::Wait { wait_secs });
                let connected = run::loop_step(paced.next, LoopEvent::Connected(true));
                &&& heard.action == LoopAction::PumpInbound
                &&& drained.duties == seq![LoopDuty::SegmentActive(true)]
                &&& drained.action == served
                &&& failed.action == LoopAction::AskNow
                &&& paced.duties == seq![LoopDuty::SegmentActive(true)]
                &&& paced.action == LoopAction::Connect
                &&& connected.action == served
            } else if s.connected {
                &&& heard.duties == seq![LoopDuty::SegmentActive(true)]
                &&& heard.action == served
            } else {
                let connected = run::loop_step(heard.next, LoopEvent::Connected(true));
                &&& heard.duties == seq![LoopDuty::SegmentActive(true)]
                &&& heard.action == LoopAction::Connect
                &&& connected.action == served
            }
        }),
{
    reveal(run::on_received);
    reveal(run::drain);
    reveal(run::serve_onset);
    reveal(run::start);
    reveal(run::on_pump_failed);
    reveal(run::charge);
    reveal(run::on_wait);
    reveal(run::on_onset_connect);
    assert(seq![LoopDuty::SegmentActive(true)] + Seq::<LoopDuty>::empty() =~= seq![
        LoopDuty::SegmentActive(true),
    ]);
}

/// Behind a drain the onset at hand is served with its own write head and the next
/// segment id; where there is none the loop goes back to its wait. Either way it
/// remembers whether the drain stopped at its cap.
pub proof fn a_drain_leads_to_the_onset_at_hand(s: StreamerLoop, hit_cap: bool)
    requires
        s.phase is Pump,
        s.connected,
    ensures
        ({
            let step = run::loop_step(s, LoopEvent::Pumped { hit_cap });
            &&& step.next.idle_work_pending == hit_cap
            &&& step.next.connected
            &&& step.next.pacing == s.pacing
            &&& match s.onset {
                Some(write_head) => {
                    &&& step.duties == seq![LoopDuty::SegmentActive(true)]
                    &&& step.action == LoopAction::SendStart {
                        segment_id: s.segment_counter,
                        write_head,
                    }
                    &&& step.next.phase is Start
                    &&& step.next.onset == s.onset
                    &&& step.next.segment_id == s.segment_counter
                    &&& !step.next.fresh_connect
                },
                None => {
                    &&& step.duties.len() == 0
                    &&& step.action == LoopAction::LookAtInbound
                    &&& step.next.phase is Inbound
                    &&& step.next.onset is None
                    &&& step.next.segment_counter == s.segment_counter
                },
            }
        }),
{
    reveal(run::serve_onset);
    reveal(run::start);
    reveal(run::top);
    reveal(run::idle_wait);
    assert(seq![LoopDuty::SegmentActive(true)] + Seq::<LoopDuty>::empty() =~= seq![
        LoopDuty::SegmentActive(true),
    ]);
}

/// An inbound stream that fails has its last reading taken, then the connection is
/// dropped and the failure charged. The onset at hand is kept.
pub proof fn a_failed_drain_keeps_the_onset(s: StreamerLoop)
    requires
        s.phase is Pump,
    ensures
        ({
            let step = run::loop_step(s, LoopEvent::PumpFailed);
            &&& step.duties == seq![LoopDuty::NoteInboundExit] + run::drop_duties()
            &&& step.action == LoopAction::AskNow
            &&& step.next == (StreamerLoop {
                connected: false,
                phase: LoopPhase::Now(Resume::Onset),
                ..s
            })
        }),
{
    reveal(run::on_pump_failed);
    let d = seq![LoopDuty::NoteInboundExit] + run::drop_duties();
    assert(d + Seq::<LoopDuty>::empty() =~= d);
}

/// An opening frame spends the next segment id: ids are handed out one after the other
/// and start over behind the last, and the frame carries the onset's own write head.
#[verifier::rlimit(60)]
pub proof fn segment_ids_are_handed_out_in_order(s: StreamerLoop, event: LoopEvent)
    requires
        run::answers(s, event),
        run::loop_step(s, event).action is SendStart,
    ensures
        ({
            let step = run::loop_step(s, event);
            &&& step.action matches LoopAction::SendStart { segment_id, write_head }
            &&& segment_id == s.segment_counter
            &&& step.next.segment_id == segment_id
            &&& step.next.onset == Some(write_head)
            &&& !(event is Received) ==> s.onset == Some(write_head)
            &&& event is Received ==> event == LoopEvent::Received(
                Received::Message(StreamerMsg::VadOpened { write_head }),
            )
            &&& segment_id < u32::MAX ==> step.next.segment_counter == segment_id + 1
            &&& segment_id == u32::MAX ==> step.next.segment_counter == 0
            &&& step.next.phase is Start
            &&& step.next.connected
        }),
{
    match event {
        LoopEvent::Link { .. } => {
            reveal(run::on_link);
            reveal(run::idle_wait);
        },
        LoopEvent::Connected(_) => {
            reveal(run::on_idle_connect);
            reveal(run::charge);
            reveal(run::idle_wait);
            reveal(run::on_onset_connect);
            reveal(run::start);
            reveal(run::end_onset);
            reveal(run::top);
        },
        LoopEvent::Now { .. } => {
            reveal(run::charge);
        },
        LoopEvent::Wait { .. } => {
            reveal(run::on_wait);
            reveal(run::top);
            reveal(run::idle_wait);
            reveal(run::serve_onset);
            reveal(run::start);
        },
        LoopEvent::Inbound { .. } => {
            reveal(run::on_inbound);
        },
        LoopEvent::Polled(_) => {
            reveal(run::on_polled);
        },
        LoopEvent::Received(_) => {
            reveal(run::on_received);
            reveal(run::drain);
            reveal(run::serve_onset);
            reveal(run::start);
            reveal(run::top);
            reveal(run::idle_wait);
        },
        LoopEvent::Pumped { .. } => {
            reveal(run::serve_onset);
            reveal(run::start);
            reveal(run::top);
            reveal(run::idle_wait);
        },
        LoopEvent::PumpFailed => {
            reveal(run::on_pump_failed);
        },
        LoopEvent::StartSent(_) => {
            reveal(run::on_start);
            reveal(run::on_resend);
            reveal(run::end_onset);
            reveal(run::top);
            reveal(run::idle_wait);
        },
        LoopEvent::SegmentDone(_) => {
            reveal(run::on_segment_done);
            reveal(run::end_onset);
            reveal(run::top);
            reveal(run::idle_wait);
        },
    }
}

/// A connect for an onset that works is held, is remembered as opened for it, and
/// carries its opening frame at once. One that fails drops the onset, uncharged, and
/// tells that it is over.
pub proof fn an_onset_connects_for_itself(s: StreamerLoop, write_head: u64)
    requires
        s.phase is OnsetConnect,
        !s.connected,
        s.onset == Some(write_head),
    ensures
        ({
            let step = run::loop_step(s, LoopEvent::Connected(true));
            &&& step.duties == run::hold_duties()
            &&& step.action == LoopAction::SendStart { segment_id: s.segment_counter, write_head }
            &&& step.next.connected
            &&& step.next.fresh_connect
            &&& step.next.pacing == (Pacing { reconnect_deadline_secs: 0, ..s.pacing })
            &&& step.next.phase is Start
        }),
        ({
            let step = run::loop_step(s, LoopEvent::Connected(false));
            &&& step.duties == seq![LoopDuty::SegmentActive(false)]
            &&& step.action == LoopAction::AskLink
            &&& step.next == (StreamerLoop { onset: None, phase: LoopPhase::Link, ..s })
        }),
{
    reveal(run::on_onset_connect);
    reveal(run::start);
    reveal(run::end_onset);
    reveal(run::top);
    assert(run::hold_duties() + Seq::<LoopDuty>::empty() =~= run::hold_duties());
    assert(seq![LoopDuty::SegmentActive(false)] + Seq::<LoopDuty>::empty() =~= seq![
        LoopDuty::SegmentActive(false),
    ]);
}

/// An opening frame that went out leads to its own segment; one that the peer did not
/// take drops the onset and keeps the connection; one that failed drops the connection
/// and is tried once more, unless the connection had been opened for it.
pub proof fn an_opening_frame_decides_over_its_segment(s: StreamerLoop)
    requires
        s.phase is Start,
        s.connected,
    ensures
        ({
            let step = run::loop_step(s, LoopEvent::StartSent(SendResult::Sent));
            &&& step.duties.len() == 0
            &&& step.action == LoopAction::RunSegment { segment_id: s.segment_id }
            &&& step.next == (StreamerLoop { phase: LoopPhase::Segment, ..s })
        }),
        ({
            let step = run::loop_step(s, LoopEvent::StartSent(SendResult::Blocked));
            &&& step.duties == seq![LoopDuty::SegmentActive(false)]
            &&& step.action == LoopAction::LookAtInbound
            &&& step.next == (StreamerLoop { onset: None, phase: LoopPhase::Inbound, ..s })
        }),
        ({
            let step = run::loop_step(s, LoopEvent::StartSent(SendResult::Failed));
            if s.fresh_connect {
                &&& step.duties == run::drop_duties() + seq![LoopDuty::SegmentActive(false)]
                &&& step.action == LoopAction::AskLink
                &&& step.next == (StreamerLoop {
                    connected: false,
                    onset: None,
                    phase: LoopPhase::Link,
                    ..s
                })
            } else {
                &&& step.duties == run::drop_duties()
                &&& step.action == LoopAction::Connect
                &&& step.next == (StreamerLoop {
                    connected: false,
                    phase: LoopPhase::Reconnect,
                    ..s
                })
            }
        }),
{
    reveal(run::on_start);
    reveal(run::end_onset);
    reveal(run::top);
    reveal(run::idle_wait);
    assert(run::drop_duties() + Seq::<LoopDuty>::empty() =~= run::drop_duties());
    assert(seq![LoopDuty::SegmentActive(false)] + Seq::<LoopDuty>::empty() =~= seq![
        LoopDuty::SegmentActive(false),
    ]);
}

/// The second try of an opening frame goes over a new connection, under the id the
/// first one had. The connection is held unless it fails too; the segment runs only
/// where the frame went out.
pub proof fn a_second_try_has_a_connection_of_its_own(s: StreamerLoop)
    requires
        s.phase is Reconnect || s.phase is Resend,
        !s.connected,
    ensures
        s.phase is Reconnect ==> {
            let again = run::loop_step(s, LoopEvent::Connected(true));
            let failed = run::loop_step(s, LoopEvent::Connected(false));
            &&& again.duties.len() == 0
            &&& again.action == LoopAction::ResendStart
            &&& again.next == (StreamerLoop { phase: LoopPhase::Resend, ..s })
            &&& failed.duties == seq![LoopDuty::SegmentActive(false)]
            &&& failed.action == LoopAction::AskLink
            &&& failed.next == (StreamerLoop { onset: None, phase: LoopPhase::Link, ..s })
        },
        s.phase is Resend ==> {
            let sent = run::loop_step(s, LoopEvent::StartSent(SendResult::Sent));
            let blocked = run::loop_step(s, LoopEvent::StartSent(SendResult::Blocked));
            let failed = run::loop_step(s, LoopEvent::StartSent(SendResult::Failed));
            let pacing = Pacing { reconnect_deadline_secs: 0, ..s.pacing };
            &&& sent.duties == run::hold_duties()
            &&& sent.action == LoopAction::RunSegment { segment_id: s.segment_id }
            &&& sent.next == (StreamerLoop {
                connected: true,
                pacing,
                phase: LoopPhase::Segment,
                ..s
            })
            &&& blocked.duties == run::hold_duties() + seq![LoopDuty::SegmentActive(false)]
            &&& blocked.action == LoopAction::LookAtInbound
            &&& blocked.next == (StreamerLoop {
                connected: true,
                pacing,
                onset: None,
                phase: LoopPhase::Inbound,
                ..s
            })
            &&& failed.duties == seq![LoopDuty::SegmentActive(false)]
            &&& failed.action == LoopAction::AskLink
            &&& failed.next == (StreamerLoop { onset: None, phase: LoopPhase::Link, ..s })
        },
{
    reveal(run::on_resend);
    reveal(run::end_onset);
    reveal(run::top);
    reveal(run::idle_wait);
    assert(run::hold_duties() + Seq::<LoopDuty>::empty() =~= run::hold_duties());
    assert(seq![LoopDuty::SegmentActive(false)] + Seq::<LoopDuty>::empty() =~= seq![
        LoopDuty::SegmentActive(false),
    ]);
}

/// A segment that is over leaves the connection as the segment left it: kept unless it
/// was lost, and then dropped without a charge. Either way the onset is over.
pub proof fn a_segment_hands_its_connection_back(s: StreamerLoop, how: SegmentExit)
    requires
        s.phase is Segment,
        s.connected,
    ensures
        ({
            let step = run::loop_step(s, LoopEvent::SegmentDone(how));
            if how == SegmentExit::SocketLost {
                &&& step.duties == run::drop_duties() + seq![LoopDuty::SegmentActive(false)]
                &&& step.action == LoopAction::AskLink
                &&& step.next == (StreamerLoop {
                    connected: false,
                    onset: None,
                    phase: LoopPhase::Link,
                    ..s
                })
            } else {
                &&& step.duties == seq![LoopDuty::SegmentActive(false)]
                &&& step.action == LoopAction::LookAtInbound
                &&& step.next == (StreamerLoop { onset: None, phase: LoopPhase::Inbound, ..s })
            }
        }),
{
    reveal(run::on_segment_done);
    reveal(run::end_onset);
    reveal(run::top);
    reveal(run::idle_wait);
    assert(seq![LoopDuty::SegmentActive(false)] + Seq::<LoopDuty>::empty() =~= seq![
        LoopDuty::SegmentActive(false),
    ]);
}

/// The event is an answer to the action.
pub open spec fn is_answer(action: LoopAction, event: LoopEvent) -> bool {
    match action {
        LoopAction::AskLink => event is Link,
        LoopAction::Connect => event is Connected,
        LoopAction::AskNow => event is Now,
        LoopAction::DrawWait { .. } => event is Wait,
        LoopAction::LookAtInbound => event is Inbound,
        LoopAction::Poll { .. } => event is Polled,
        LoopAction::TryReceive => event is Received,
        LoopAction::WaitReceive { .. } => event is Received,
        LoopAction::PumpInbound => event is Pumped || event is PumpFailed,
        LoopAction::SendStart { .. } => event is StartSent,
        LoopAction::ResendStart => event is StartSent,
        LoopAction::RunSegment { .. } => event is SegmentDone,
        LoopAction::Exit(_) => false,
    }
}

/// Whatever the loop asks for, it takes exactly the answers to that.
#[verifier::rlimit(60)]
pub proof fn the_loop_takes_the_answers_to_what_it_asked(
    s: StreamerLoop,
    event: LoopEvent,
    answer: LoopEvent,
)
    requires
        run::answers(s, event),
        s.phase is Start || s.phase is Segment ==> s.onset is Some,
    ensures
        run::answers(run::loop_step(s, event).next, answer) <==> is_answer(
            run::loop_step(s, event).action,
            answer,
        ),
{
    match event {
        LoopEvent::Link { .. } => {
            reveal(run::on_link);
            reveal(run::idle_wait);
        },
        LoopEvent::Connected(_) => {
            reveal(run::on_idle_connect);
            reveal(run::charge);
            reveal(run::idle_wait);
            reveal(run::on_onset_connect);
            reveal(run::start);
            reveal(run::end_onset);
            reveal(run::top);
        },
        LoopEvent::Now { .. } => {
            reveal(run::charge);
        },
        LoopEvent::Wait { .. } => {
            reveal(run::on_wait);
            reveal(run::top);
            reveal(run::idle_wait);
            reveal(run::serve_onset);
            reveal(run::start);
        },
        LoopEvent::Inbound { .. } => {
            reveal(run::on_inbound);
        },
        LoopEvent::Polled(_) => {
            reveal(run::on_polled);
        },
        LoopEvent::Received(_) => {
            reveal(run::on_received);
            reveal(run::drain);
            reveal(run::serve_onset);
            reveal(run::start);
            reveal(run::top);
            reveal(run::idle_wait);
        },
        LoopEvent::Pumped { .. } => {
            reveal(run::serve_onset);
            reveal(run::start);
            reveal(run::top);
            reveal(run::idle_wait);
        },
        LoopEvent::PumpFailed => {
            reveal(run::on_pump_failed);
        },
        LoopEvent::StartSent(_) => {
            reveal(run::on_start);
            reveal(run::on_resend);
            reveal(run::end_onset);
            reveal(run::top);
            reveal(run::idle_wait);
        },
        LoopEvent::SegmentDone(_) => {
            reveal(run::on_segment_done);
            reveal(run::end_onset);
            reveal(run::top);
            reveal(run::idle_wait);
        },
    }
}

} // verus!
