//! The streamer's outer cycle, driven against a scripted platform.

use respeaker::clock::{Duration, Instant};
use respeaker::streamer::idle::{
    plan_segment_start, SegmentOnset, SegmentPlan, SegmentStart, SocketDuty,
};
use respeaker::streamer::netpoll::{idle_tick, Readiness};
use respeaker::streamer::ring::{copy_frame, CaptureRing, RingIndex};
use respeaker::streamer::run::{
    connect_and_hello, hello_pod_id, HelloError, HelloSent, LinkState, LoopAction, LoopDuty, LoopEvent,
    SendResult, StreamerExit, StreamerLoop,
};
use respeaker::streamer::segment::{
    frame_ts_us, AudioHeader, BudgetOutcome, EndReason, ObsEvent, OutFrame, Received, RingLook,
    Segment, SegmentAction, SegmentDuty, SegmentEnd, SegmentEvent, SegmentExit, StreamerMsg,
    WriteOutcome, AUDIO_SAMPLES_PER_FRAME,
};
use std::collections::VecDeque;

/// Samples the scripted capture ring holds.
const RING_CAPACITY_SAMPLES: usize = 32_000;

/// History that a segment takes along, in samples.
const PREROLL_SAMPLES: u64 = 8_000;

/// One connection: what its sends come to, and how a segment on it ends.
#[derive(Clone)]
struct Link {
    sends: VecDeque<SendResult>,
    then: SendResult,
    segment: SegmentExit,
    plaintext: bool,
    /// What it carried.
    id: usize,
}

impl Link {
    fn new() -> Link {
        Link {
            sends: VecDeque::new(),
            then: SendResult::Sent,
            segment: SegmentExit::Completed,
            plaintext: false,
            id: 0,
        }
    }

    /// Takes `ok` frames and then fails.
    fn dying_after(ok: usize) -> Link {
        Link {
            sends: std::iter::repeat_n(SendResult::Sent, ok).collect(),
            then: SendResult::Failed,
            ..Link::new()
        }
    }

    /// Takes `ok` frames and then nothing more.
    fn stalling_after(ok: usize) -> Link {
        Link { then: SendResult::Blocked, ..Link::dying_after(ok) }
    }
}

#[derive(Debug, Clone, PartialEq)]
enum Frame {
    Hello,
    SegmentStart(u32),
    SegmentEnd(u32),
}

/// A frame of a segment as it left, with the bytes of its samples.
#[derive(Debug, Clone, PartialEq)]
enum Streamed {
    Start(SegmentStart),
    Audio(AudioHeader, usize),
    End(SegmentEnd),
}

struct World {
    looper: StreamerLoop,
    action: LoopAction,
    connects: VecDeque<Option<Link>>,
    attempts: u32,
    span_at_connect: Vec<bool>,
    pending: Option<Link>,
    held: Option<Link>,
    wires: Vec<Vec<Frame>>,
    marks: Vec<SocketDuty>,
    span: bool,
    link_up: Option<bool>,
    now_secs: u64,
    /// Failures recorded since the last success.
    climbed: u32,
    exits_noted: u32,
    messages: VecDeque<StreamerMsg>,
    /// Messages handed over once an onset has been served.
    later: VecDeque<Vec<StreamerMsg>>,
    hung_up: bool,
    fault_after: u32,
    readable_wakes: u32,
    polls: Vec<(bool, Duration)>,
    rooms: VecDeque<bool>,
    pumps: VecDeque<Result<bool, ()>>,
    pumped: u32,
    segments: Vec<u32>,
    /// The capture ring. Where there is one, segments are planned and run on it.
    capture: Option<CaptureRing>,
    plan: Option<SegmentPlan>,
    streamed: Vec<Streamed>,
    /// Waypoints, with the segment and whether its span was published.
    observed: Vec<(u32, ObsEvent, bool)>,
}

impl World {
    fn with(connects: Vec<Option<Link>>) -> World {
        let (looper, action) = StreamerLoop::new(0x11);
        World {
            looper,
            action,
            connects: connects.into(),
            attempts: 0,
            span_at_connect: Vec::new(),
            pending: None,
            held: None,
            wires: Vec::new(),
            marks: Vec::new(),
            span: false,
            link_up: Some(true),
            now_secs: 0,
            climbed: 0,
            exits_noted: 0,
            messages: VecDeque::new(),
            later: VecDeque::new(),
            hung_up: true,
            fault_after: u32::MAX,
            readable_wakes: 0,
            polls: Vec::new(),
            rooms: VecDeque::new(),
            pumps: VecDeque::new(),
            pumped: 0,
            segments: Vec::new(),
            capture: None,
            plan: None,
            streamed: Vec::new(),
            observed: Vec::new(),
        }
    }

    /// With a ring that `written` samples went into.
    fn capturing(written: u64, connects: Vec<Option<Link>>) -> World {
        let capture = CaptureRing {
            write_head: written,
            anchor_sample: written.saturating_sub(1),
            anchor_ts_us: 2_000_000,
        };
        World { capture: Some(capture), ..World::with(connects) }
    }

    /// Runs a segment from `cursor` on the capture ring, on a link that takes every
    /// frame at once.
    fn stream(&mut self, ring: CaptureRing, segment_id: u32, cursor: u64) -> SegmentExit {
        let ridx = RingIndex::new(RING_CAPACITY_SAMPLES);
        let samples = vec![3i16; RING_CAPACITY_SAMPLES];
        let now = Instant::from_nanos(1_000_000_000);
        let mut now_us = 1_000_000;
        let mut pcm_len = 0;
        let mut flight = None;
        let (mut segment, mut turn) = Segment::new(segment_id, cursor, now_us);
        loop {
            for duty in &turn.duties {
                match duty {
                    SegmentDuty::Observe(event) => {
                        self.observed.push((segment_id, *event, self.span))
                    }
                    SegmentDuty::ResetSpinGuard => {}
                    SegmentDuty::NoteInboundExit => self.exits_noted += 1,
                }
            }
            now_us += 20_000;
            let event = match turn.action {
                SegmentAction::Exit(exit) => return exit,
                SegmentAction::Wake => SegmentEvent::Woke {
                    now_us,
                    now,
                    inbound_room: true,
                    buffers_plaintext: false,
                    write_deadline: None,
                },
                SegmentAction::Poll { .. } => {
                    SegmentEvent::Polled(Readiness::Ready { readable: false, writable: true })
                }
                SegmentAction::Receive => SegmentEvent::Received(match self.messages.pop_front() {
                    Some(message) => Received::Message(message),
                    None => Received::Empty,
                }),
                SegmentAction::ReadVadFlag => SegmentEvent::VadFlag(false),
                SegmentAction::PumpInbound => SegmentEvent::Pumped { hit_cap: false },
                SegmentAction::ReadClock => SegmentEvent::Clock { now_us },
                SegmentAction::LookAtRing { cursor } => SegmentEvent::Ring(RingLook {
                    overrun: false,
                    available: ring.write_head - cursor,
                    anchor_sample: ring.anchor_sample,
                    anchor_ts_us: ring.anchor_ts_us,
                }),
                SegmentAction::AskPace { now_us, .. } => {
                    SegmentEvent::PaceOpen { resynced: false, next_schedule_us: now_us }
                }
                SegmentAction::CopySamples { first_index, count } => {
                    pcm_len = copy_frame(&samples, &ridx, first_index, count as usize).len();
                    SegmentEvent::Copied {
                        overrun: false,
                        anchor_sample: ring.anchor_sample,
                        anchor_ts_us: ring.anchor_ts_us,
                    }
                }
                SegmentAction::Begin(frame) => {
                    flight = Some(frame);
                    SegmentEvent::Began(true)
                }
                SegmentAction::Write => {
                    self.streamed.push(match flight.take().expect("a frame in flight") {
                        OutFrame::Audio(header) => Streamed::Audio(header, pcm_len),
                        OutFrame::SegmentEnd(end) => Streamed::End(end),
                        OutFrame::Telemetry(telemetry) => panic!("unscripted {telemetry:?}"),
                    });
                    SegmentEvent::Wrote(WriteOutcome::Whole)
                }
                SegmentAction::CheckBudget => SegmentEvent::Budget(BudgetOutcome::Within),
            };
            assert!(segment.accepts(&event), "{event:?} does not answer {:?}", turn.action);
            turn = segment.step(event);
        }
    }

    fn utterance(&mut self, write_head: u64) {
        self.messages.push_back(StreamerMsg::VadOpened { write_head });
        self.messages.push_back(StreamerMsg::VadClosed);
    }

    fn send(link: &mut Link) -> SendResult {
        link.sends.pop_front().unwrap_or(link.then)
    }

    fn receive(&mut self) -> LoopEvent {
        LoopEvent::Received(match self.messages.pop_front() {
            Some(message) => Received::Message(message),
            None if self.hung_up => Received::Disconnected,
            None => Received::Empty,
        })
    }

    /// Performs the action at hand and takes the turn that follows.
    fn turn(&mut self) -> Option<StreamerExit> {
        let event = match self.action {
            LoopAction::Exit(exit) => return Some(exit),
            LoopAction::AskLink => {
                LoopEvent::Link { now_secs: self.now_secs, link_up: self.link_up }
            }
            LoopAction::AskNow => LoopEvent::Now { now_secs: self.now_secs },
            LoopAction::DrawWait { .. } => LoopEvent::Wait { wait_secs: 4 },
            LoopAction::Connect => {
                self.attempts += 1;
                self.span_at_connect.push(self.span);
                match self.connects.pop_front().expect("unscripted connect attempt") {
                    None => LoopEvent::Connected(false),
                    Some(mut link) => {
                        link.id = self.wires.len();
                        let sent = World::send(&mut link);
                        self.wires.push(Vec::new());
                        let hello = match sent {
                            SendResult::Sent => HelloSent::Sent,
                            SendResult::Blocked => HelloSent::Stalled,
                            SendResult::Failed => {
                                HelloSent::Failed { kind: 32, detail: "broken pipe".to_string() }
                            }
                        };
                        match connect_and_hello(link, hello) {
                            Ok(link) => {
                                self.wires[link.id].push(Frame::Hello);
                                self.pending = Some(link);
                                LoopEvent::Connected(true)
                            }
                            Err(_) => LoopEvent::Connected(false),
                        }
                    }
                }
            }
            LoopAction::LookAtInbound => LoopEvent::Inbound {
                room: self.rooms.pop_front().unwrap_or(true),
                buffers_plaintext: self.held.as_ref().expect("a socket is held").plaintext,
                now: Instant::from_nanos(1_000_000_000),
            },
            LoopAction::Poll { read, timeout } => {
                self.polls.push((read, timeout));
                let wakes = self.polls.len() as u32;
                if wakes > self.fault_after {
                    LoopEvent::Polled(Readiness::Fault("scripted poll fault".to_string()))
                } else {
                    LoopEvent::Polled(Readiness::Ready {
                        readable: wakes <= self.readable_wakes,
                        writable: true,
                    })
                }
            }
            LoopAction::TryReceive => self.receive(),
            LoopAction::WaitReceive { timeout } => {
                assert_eq!(timeout, idle_tick());
                self.receive()
            }
            LoopAction::PumpInbound => {
                self.pumped += 1;
                match self.pumps.pop_front().unwrap_or(Ok(false)) {
                    Ok(hit_cap) => LoopEvent::Pumped { hit_cap },
                    Err(()) => LoopEvent::PumpFailed,
                }
            }
            LoopAction::SendStart { segment_id, write_head } => {
                let link = self.held.as_mut().expect("a socket is held");
                let sent = World::send(link);
                let onset = SegmentOnset {
                    segment_id,
                    vad_write_head: write_head,
                    preroll_samples: PREROLL_SAMPLES,
                };
                self.plan = self.capture.map(|ring| {
                    plan_segment_start(&ring, &RingIndex::new(RING_CAPACITY_SAMPLES), &onset)
                });
                if sent == SendResult::Sent {
                    self.wires[link.id].push(Frame::SegmentStart(segment_id));
                    self.streamed.extend(self.plan.map(|plan| Streamed::Start(plan.start)));
                }
                LoopEvent::StartSent(sent)
            }
            LoopAction::ResendStart => {
                let link = self.pending.as_mut().expect("a socket was opened");
                let sent = World::send(link);
                if sent == SendResult::Sent {
                    self.wires[link.id].push(Frame::SegmentStart(self.looper.segment_id));
                }
                LoopEvent::StartSent(sent)
            }
            LoopAction::RunSegment { segment_id } => {
                assert!(self.span, "a segment runs inside its span");
                self.segments.push(segment_id);
                let exit = match (self.capture, self.plan) {
                    (Some(ring), Some(plan)) => self.stream(ring, segment_id, plan.cursor),
                    _ => {
                        let closed = self.messages.pop_front();
                        assert!(matches!(closed, Some(StreamerMsg::VadClosed)));
                        self.held.as_ref().expect("a socket is held").segment
                    }
                };
                let link = self.held.as_ref().expect("a socket is held");
                if exit == SegmentExit::Completed {
                    self.wires[link.id].push(Frame::SegmentEnd(segment_id));
                }
                if let Some(batch) = self.later.pop_front() {
                    self.messages.extend(batch);
                }
                LoopEvent::SegmentDone(exit)
            }
        };
        assert!(self.looper.accepts(&event), "{event:?} does not answer {:?}", self.action);
        let turn = self.looper.step(event);
        for duty in &turn.duties {
            match duty {
                LoopDuty::Socket(mark @ (SocketDuty::EndOfAudio | SocketDuty::StreamReset)) => {
                    self.marks.push(*mark)
                }
                LoopDuty::Socket(_) => {}
                LoopDuty::DropSocket => self.held = None,
                LoopDuty::HoldSocket => self.held = self.pending.take(),
                LoopDuty::RecordFailure => self.climbed += 1,
                LoopDuty::RecordSuccess => self.climbed = 0,
                LoopDuty::NoteInboundExit => self.exits_noted += 1,
                LoopDuty::SegmentActive(active) => self.span = *active,
            }
        }
        self.action = turn.action;
        None
    }

    fn drive(&mut self) -> StreamerExit {
        loop {
            if let Some(exit) = self.turn() {
                return exit;
            }
        }
    }

    /// The idle tick's connection maintenance: up to the wait that follows it.
    fn ensure_connected(&mut self) {
        loop {
            self.turn();
            if matches!(
                self.action,
                LoopAction::LookAtInbound | LoopAction::WaitReceive { .. }
            ) {
                return;
            }
        }
    }
}

/// A held socket is left strictly alone: no connect, no boundary signal.
#[test]
fn a_held_socket_is_never_reconnected() {
    let mut w = World::with(vec![Some(Link::new())]);
    w.ensure_connected();
    w.messages.push_back(StreamerMsg::VadClosed);
    w.ensure_connected();
    assert_eq!(w.attempts, 1);
    assert_eq!(w.marks, vec![SocketDuty::StreamReset], "a held socket is not a new stream");
}

/// A down or unknown link skips without charging backoff.
#[test]
fn a_down_or_unknown_link_never_attempts_and_never_charges_backoff() {
    for link in [Some(false), None] {
        let mut w = World::with(vec![]);
        w.link_up = link;
        w.now_secs = 5_000;
        w.ensure_connected();
        assert_eq!(w.attempts, 0, "link={link:?}");
        assert_eq!(
            w.looper.pacing.reconnect_deadline_secs, 0,
            "link={link:?}: a down link must not arm a deadline"
        );
        assert_eq!(
            w.looper.pacing.attempt_counter, 0,
            "link={link:?}: a down link is not a failed attempt"
        );
        assert_eq!(w.climbed, 0);
    }
}

/// An armed backoff deadline defers the attempt until the clock reaches it.
#[test]
fn an_armed_deadline_defers_the_attempt_until_it_elapses() {
    let mut w = World::with(vec![Some(Link::new())]);
    w.looper.pacing.reconnect_deadline_secs = 100;
    w.hung_up = false;
    w.now_secs = 99;
    w.ensure_connected();
    assert_eq!(w.attempts, 0, "99 < 100 must not attempt");
    w.now_secs = 100;
    w.ensure_connected();
    assert_eq!(w.attempts, 1, "100 >= 100 must attempt");
    assert!(w.held.is_some());
}

/// A successful connect installs the socket, introduces the pod, announces the new
/// stream to playback, and clears the backoff.
#[test]
fn a_successful_connect_installs_the_socket_and_introduces_the_pod() {
    let mut w = World::with(vec![Some(Link::new())]);
    w.looper.pacing.reconnect_deadline_secs = 42;
    w.now_secs = 100;
    w.ensure_connected();
    assert!(w.held.is_some(), "socket installed");
    assert_eq!(w.wires[0], vec![Frame::Hello]);
    assert_eq!(hello_pod_id("pod-aabbcc", 32), "pod-aabbcc");
    assert_eq!(
        w.marks,
        vec![SocketDuty::StreamReset],
        "a fresh socket is a fresh playback stream"
    );
    assert_eq!(
        w.looper.pacing.reconnect_deadline_secs, 0,
        "a stale deadline would pace the next drop's reconnect"
    );
    assert_eq!(w.climbed, 0);
}

/// An id too long for the wire field introduces the pod with an empty id.
#[test]
fn an_oversized_pod_id_yields_an_empty_one_rather_than_a_truncated_one() {
    let capacity = 32;
    let long_id = "p".repeat(capacity + 1);
    assert!(
        hello_pod_id(&long_id, capacity).is_empty(),
        "an id that does not fit must not be truncated onto the wire"
    );
    assert_eq!(hello_pod_id(&"p".repeat(capacity), capacity).len(), capacity);
}

/// A `Hello` that never gets a byte through is a failed connect.
#[test]
fn a_stalled_hello_drops_the_fresh_connection_and_paces_the_retry() {
    let mut w = World::with(vec![Some(Link::stalling_after(0))]);
    w.now_secs = 1_000;
    w.ensure_connected();
    assert_eq!(w.attempts, 1);
    assert!(
        w.held.is_none(),
        "a host too stalled for a Hello must not be handed a segment"
    );
    assert!(
        w.looper.pacing.reconnect_deadline_secs > 1_000,
        "a stalled Hello must arm the backoff"
    );
    assert_eq!(w.looper.pacing.attempt_counter, 1);
    assert!(
        w.marks.is_empty(),
        "no socket was installed, so playback saw no stream boundary"
    );
    let stalled: HelloError<u8> = HelloError::Stalled;
    assert_eq!(stalled.kind(), None);
    assert_eq!(
        stalled.text(),
        "Hello stalled on write backpressure — dropping the fresh connection"
    );
}

/// A failed connect paces the next one, and failures keep charging the backoff.
#[test]
fn consecutive_connect_failures_keep_charging_the_backoff() {
    let mut w = World::with(vec![None, None]);
    w.hung_up = false;
    w.now_secs = 1_000;
    w.ensure_connected();
    let first = w.looper.pacing.reconnect_deadline_secs;
    assert!(first > 1_000, "a failure must arm a deadline");
    assert_eq!(first, 1_004);
    assert_eq!(w.looper.pacing.attempt_counter, 1);

    w.ensure_connected();
    assert_eq!(w.attempts, 1, "the deadline must be honored");

    w.now_secs = first;
    w.ensure_connected();
    assert_eq!(w.attempts, 2);
    assert_eq!(w.looper.pacing.attempt_counter, 2);
    assert_eq!(w.climbed, 2, "the second failure must have climbed the backoff");
    assert!(w.looper.pacing.reconnect_deadline_secs > first);
}

/// A connect that works after failures clears the pacing.
#[test]
fn a_connect_after_failures_clears_the_pacing() {
    let mut w = World::with(vec![None, Some(Link::new())]);
    w.hung_up = false;
    w.ensure_connected();
    w.now_secs = w.looper.pacing.reconnect_deadline_secs;
    w.ensure_connected();
    assert!(w.held.is_some());
    assert_eq!(w.looper.pacing.reconnect_deadline_secs, 0);
    assert_eq!(w.climbed, 0);
}

/// The state's lifecycle wrappers route through the shared rules.
#[test]
fn the_lifecycle_wrappers_reset_framing_and_mark_the_stream_boundaries() {
    let mut state: LinkState<u32> = LinkState::new(0x11);
    let mut duties = state.note_socket_established(1);
    duties.extend(state.note_socket_lost());
    assert!(state.held_socket.is_none());
    assert_eq!(
        duties,
        vec![
            SocketDuty::ResetAccumulator,
            SocketDuty::ResetInboundState,
            SocketDuty::StreamReset,
            SocketDuty::ResetAccumulator,
            SocketDuty::ResetInboundState,
            SocketDuty::EndOfAudio
        ],
        "the banked tail plays out, then the sink goes quiet"
    );
    let again = state.note_socket_established(2);
    assert_eq!(state.held_socket, Some(2));
    assert_eq!(
        again.last(),
        Some(&SocketDuty::StreamReset),
        "the reconnect discards the tail the teardown banked"
    );
    let seed = state.charge_attempt();
    assert_eq!(seed, 0x11 ^ 1);
    state.arm_backoff(10, 4);
    assert_eq!(state.pacing.reconnect_deadline_secs, 14);
    state.note_connect_success();
    assert_eq!(state.pacing.reconnect_deadline_secs, 0);
}

/// An onset streams over the connection the idle tick opened: `Hello` once, then the
/// segment's own frames, and the loop comes back to idle with the socket kept.
#[test]
fn an_onset_streams_a_segment_over_the_idle_connection() {
    const HISTORY: u64 = 500;
    let mut w = World::capturing(HISTORY, vec![Some(Link::new())]);
    w.utterance(HISTORY);
    assert_eq!(w.drive(), StreamerExit::ChannelDisconnected);
    assert_eq!(w.attempts, 1, "the onset must reuse the held socket");
    assert_eq!(
        w.wires[0],
        vec![Frame::Hello, Frame::SegmentStart(0), Frame::SegmentEnd(0)]
    );
    assert_eq!(hello_pod_id("pod-aabbcc", 32), "pod-aabbcc");
    let [Streamed::Start(start), Streamed::Audio(full, full_pcm), Streamed::Audio(residual, residual_pcm), Streamed::End(end)] =
        w.streamed.as_slice()
    else {
        panic!("unexpected traffic on the connection: {:?}", w.streamed);
    };
    assert_eq!(start.segment_id, 0, "the first segment is numbered zero");
    assert_eq!(
        start.base_sample_index, 0,
        "the ring holds less than the pre-roll, so the segment opens at the oldest sample"
    );
    assert_eq!(start.preroll_samples, HISTORY as u32);
    assert_eq!(start.base_device_ts_us, frame_ts_us(HISTORY - 1, 2_000_000, 0));
    assert_eq!(full.first_sample_index, 0);
    assert_eq!(*full_pcm, AUDIO_SAMPLES_PER_FRAME as usize * 2);
    assert_eq!(*full_pcm, 320 * 2);
    assert_eq!(residual.first_sample_index, u64::from(AUDIO_SAMPLES_PER_FRAME));
    assert_eq!(*residual_pcm, (HISTORY as usize - AUDIO_SAMPLES_PER_FRAME as usize) * 2);
    assert_eq!(*residual_pcm, 180 * 2);
    assert_eq!(end.reason, EndReason::VadRelease);
    assert_eq!(end.frames_sent, 2);
    assert_eq!(end.samples_sent, HISTORY);
    assert_eq!(
        w.marks,
        vec![SocketDuty::StreamReset],
        "one connection, so one stream boundary and no teardown"
    );
    assert_eq!(w.segments, vec![0]);
    assert!(
        w.observed.iter().all(|(segment, _, published)| *segment == 0 && *published),
        "every reading is tagged with the running segment and taken inside its span: {:?}",
        w.observed
    );
    assert!(
        w.observed.iter().any(|(_, event, _)| *event == ObsEvent::SegmentOpen),
        "the segment's opening waypoint must reach the platform"
    );
    assert!(!w.span, "the onset span must be cleared once the segment is done");
}

/// Consecutive utterances reuse the one connection and are numbered in order.
#[test]
fn consecutive_onsets_reuse_the_connection_and_number_segments_in_order() {
    let mut w = World::with(vec![Some(Link::new())]);
    w.utterance(320);
    w.later.push_back(vec![
        StreamerMsg::VadOpened { write_head: 640 },
        StreamerMsg::VadClosed,
    ]);
    assert_eq!(w.drive(), StreamerExit::ChannelDisconnected);
    assert_eq!(w.attempts, 1, "one connection for both segments");
    assert_eq!(w.segments, vec![0, 1], "segment ids advance by one per onset");
    assert_eq!(
        w.wires[0].iter().filter(|f| matches!(f, Frame::SegmentEnd(_))).count(),
        2,
        "both segments closed cleanly"
    );
    assert_eq!(
        w.marks,
        vec![SocketDuty::StreamReset],
        "the socket survived both segments, so playback saw one boundary"
    );
}

/// An onset connects even when the idle rule would not have.
#[test]
fn an_onset_connects_even_when_the_idle_gate_declines() {
    let mut w = World::with(vec![Some(Link::new())]);
    w.utterance(400);
    w.link_up = None;
    assert_eq!(w.drive(), StreamerExit::ChannelDisconnected);
    assert_eq!(w.attempts, 1, "the onset connected");
    assert_eq!(
        w.wires[0],
        vec![Frame::Hello, Frame::SegmentStart(0), Frame::SegmentEnd(0)]
    );
}

/// An onset whose connect fails drops that utterance and keeps idling.
#[test]
fn an_onset_whose_connect_fails_drops_the_segment_and_keeps_idling() {
    let mut w = World::with(vec![None]);
    w.messages.push_back(StreamerMsg::VadOpened { write_head: 400 });
    w.link_up = None;
    assert_eq!(w.drive(), StreamerExit::ChannelDisconnected);
    assert_eq!(w.attempts, 1, "a dropped segment retries nothing");
    assert_eq!(
        w.span_at_connect,
        vec![true],
        "the onset-path connect must happen inside a published span"
    );
    assert!(w.segments.is_empty(), "no segment ran");
    assert!(w.marks.is_empty(), "playback saw no stream boundary");
    assert!(!w.span);
}

/// A start that fails on a held socket gets one reconnect and is sent again.
#[test]
fn a_segment_start_failure_on_a_held_socket_reconnects_once_and_resends() {
    let mut w = World::with(vec![Some(Link::dying_after(1)), Some(Link::new())]);
    w.utterance(400);
    assert_eq!(w.drive(), StreamerExit::ChannelDisconnected);
    assert_eq!(w.attempts, 2, "exactly one reconnect");
    assert_eq!(w.wires[0], vec![Frame::Hello], "the dead socket carried only its Hello");
    assert_eq!(
        w.wires[1],
        vec![Frame::Hello, Frame::SegmentStart(0), Frame::SegmentEnd(0)],
        "the re-send carries the same segment"
    );
    assert_eq!(
        w.marks,
        vec![
            SocketDuty::StreamReset,
            SocketDuty::EndOfAudio,
            SocketDuty::StreamReset
        ],
        "the dead socket's teardown banked its tail, and the replacement reset the stream"
    );
}

/// A start that fails on a socket just opened drops the segment.
#[test]
fn a_segment_start_failure_on_a_fresh_connect_drops_the_segment() {
    let mut w = World::with(vec![Some(Link::dying_after(1))]);
    w.messages.push_back(StreamerMsg::VadOpened { write_head: 400 });
    w.link_up = None;
    assert_eq!(w.drive(), StreamerExit::ChannelDisconnected);
    assert_eq!(w.attempts, 1, "a fresh connection is not reconnected");
    assert_eq!(w.wires[0], vec![Frame::Hello], "the SegmentStart never left");
    assert!(w.segments.is_empty(), "no segment ran");
    assert_eq!(
        w.marks,
        vec![SocketDuty::StreamReset, SocketDuty::EndOfAudio],
        "the failed socket was torn down"
    );
}

/// A start that stalls drops the segment but keeps the socket.
#[test]
fn a_stalled_segment_start_drops_the_segment_and_keeps_the_socket() {
    let mut w = World::with(vec![Some(Link::stalling_after(1))]);
    w.messages.push_back(StreamerMsg::VadOpened { write_head: 400 });
    assert_eq!(w.drive(), StreamerExit::ChannelDisconnected);
    assert_eq!(
        w.wires[0],
        vec![Frame::Hello],
        "no part of the SegmentStart reached the wire"
    );
    assert!(w.segments.is_empty(), "the segment never opened");
    assert_eq!(
        w.marks,
        vec![SocketDuty::StreamReset],
        "a stalled host is not a lost socket, so playback saw no teardown"
    );
    assert!(w.held.is_some());
}

/// A dropped utterance burns its id.
#[test]
fn a_dropped_segment_does_not_lend_its_id_to_the_next_one() {
    let mut w = World::with(vec![Some(Link::dying_after(1)), Some(Link::new())]);
    w.messages.push_back(StreamerMsg::VadOpened { write_head: 400 });
    w.utterance(400);
    w.link_up = None;
    assert_eq!(w.drive(), StreamerExit::ChannelDisconnected);
    assert_eq!(w.attempts, 2, "one connect per onset");
    assert_eq!(w.wires[0], vec![Frame::Hello]);
    assert_eq!(
        w.wires[1],
        vec![Frame::Hello, Frame::SegmentStart(1), Frame::SegmentEnd(1)],
        "the surviving utterance is numbered past the dropped one"
    );
    assert_eq!(w.segments, vec![1], "the readings carry the same id the wire does");
}

/// A socket lost mid-segment is reconnected on the very next idle tick.
#[test]
fn a_socket_lost_mid_segment_is_replaced_on_the_next_tick() {
    let dying = Link { segment: SegmentExit::SocketLost, ..Link::new() };
    let mut w = World::with(vec![Some(dying), Some(Link::new())]);
    w.utterance(400);
    assert_eq!(w.drive(), StreamerExit::ChannelDisconnected);
    assert_eq!(w.attempts, 2, "the idle tick after the loss reconnects immediately");
    assert_eq!(
        w.wires[0],
        vec![Frame::Hello, Frame::SegmentStart(0)],
        "the dead socket carried the opening frames and nothing more"
    );
    assert_eq!(
        w.wires[1],
        vec![Frame::Hello],
        "the replacement only introduced the pod: the segment is gone, not resumed"
    );
    assert_eq!(
        w.marks,
        vec![
            SocketDuty::StreamReset,
            SocketDuty::EndOfAudio,
            SocketDuty::StreamReset
        ],
        "the lost socket's teardown banked its tail, and the replacement reset the stream"
    );
}

/// Between segments the loop pumps inbound playback and arms reading alone.
#[test]
fn an_idle_wake_drains_inbound_playback_to_the_sink() {
    let mut w = World::with(vec![Some(Link::new())]);
    w.messages.push_back(StreamerMsg::VadClosed);
    w.readable_wakes = u32::MAX;
    assert_eq!(w.drive(), StreamerExit::ChannelDisconnected);
    assert!(w.segments.is_empty(), "no segment ran");
    assert_eq!(w.pumped, 1);
    assert!(w.polls[0].0, "an idle wake arms POLLIN");
    assert_eq!(w.marks, vec![SocketDuty::StreamReset], "the socket was never torn down");
}

/// A transport that buffers decrypted bytes is read on every wake.
#[test]
fn an_idle_wake_drains_a_plaintext_buffering_link_without_pollin() {
    let link = Link { plaintext: true, ..Link::new() };
    let mut w = World::with(vec![Some(link)]);
    w.messages.push_back(StreamerMsg::VadClosed);
    assert_eq!(w.drive(), StreamerExit::ChannelDisconnected);
    assert!(w.segments.is_empty(), "no segment ran");
    assert_eq!(
        w.pumped, 1,
        "the buffering transport is read on a wake that reported no readability"
    );
}

/// A pump that stopped at its cap re-polls without sleeping.
#[test]
fn an_idle_inbound_backlog_past_the_cap_re_polls_immediately() {
    let mut w = World::with(vec![Some(Link::new())]);
    for _ in 0..3 {
        w.messages.push_back(StreamerMsg::VadClosed);
    }
    w.pumps = VecDeque::from(vec![Ok(true), Ok(false)]);
    w.readable_wakes = 1;
    assert_eq!(w.drive(), StreamerExit::ChannelDisconnected);
    let timeouts: Vec<Duration> = w.polls.iter().map(|p| p.1).collect();
    assert_eq!(
        timeouts[0],
        idle_tick(),
        "the first wake has no carried work, so it sleeps the tick"
    );
    assert_eq!(
        timeouts[1],
        Duration::zero(),
        "a pump stopped at its cap re-polls without sleeping"
    );
    assert_eq!(
        timeouts[2],
        idle_tick(),
        "a drained backlog stops the zero-timeout re-polls"
    );
    assert_eq!(w.pumped, 2, "carried work drains without readability");
}

/// A full accumulator de-arms reading, and is still offered its held frame.
#[test]
fn a_full_idle_accumulator_de_arms_pollin_and_re_arms_once_a_slot_frees() {
    let mut w = World::with(vec![Some(Link::new())]);
    for _ in 0..3 {
        w.messages.push_back(StreamerMsg::VadClosed);
    }
    w.rooms = VecDeque::from(vec![true, false, true]);
    w.readable_wakes = 1;
    assert_eq!(w.drive(), StreamerExit::ChannelDisconnected);
    let armed: Vec<bool> = w.polls.iter().map(|p| p.0).collect();
    assert_eq!(&armed[..3], &[true, false, true]);
    assert_eq!(w.pumped, 2, "the held frame is re-offered while reading is de-armed");
}

/// A socket fault on the idle poll clears the connection and paces the reconnect.
#[test]
fn an_idle_poll_fault_clears_the_socket_and_paces_the_reconnect() {
    let mut w = World::with(vec![Some(Link::new())]);
    w.fault_after = 0;
    assert_eq!(w.drive(), StreamerExit::ChannelDisconnected);
    assert_eq!(
        w.attempts, 1,
        "the armed backoff deadline held off an immediate reconnect"
    );
    assert_eq!(
        w.marks,
        vec![SocketDuty::StreamReset, SocketDuty::EndOfAudio],
        "the faulted socket was torn down"
    );
    assert_eq!(w.climbed, 1);
}

/// An unrecoverable inbound stream clears the socket and samples the teardown.
#[test]
fn an_idle_drain_error_clears_the_socket_and_samples_the_exit() {
    let mut w = World::with(vec![Some(Link::new())]);
    w.messages.push_back(StreamerMsg::VadClosed);
    w.pumps = VecDeque::from(vec![Err(())]);
    w.readable_wakes = u32::MAX;
    assert_eq!(w.drive(), StreamerExit::ChannelDisconnected);
    assert_eq!(w.attempts, 1, "the drain error armed the backoff deadline");
    assert_eq!(w.exits_noted, 1, "the teardown sample was taken");
    assert_eq!(
        w.marks,
        vec![SocketDuty::StreamReset, SocketDuty::EndOfAudio],
        "stale partial bytes are dropped with the socket"
    );
}

/// An onset at hand when the inbound stream fails is still served.
#[test]
fn an_onset_survives_a_failed_drain() {
    let mut w = World::with(vec![Some(Link::new()), Some(Link::new())]);
    w.utterance(400);
    w.pumps = VecDeque::from(vec![Err(())]);
    w.readable_wakes = u32::MAX;
    assert_eq!(w.drive(), StreamerExit::ChannelDisconnected);
    assert_eq!(w.segments, vec![0]);
    assert_eq!(w.attempts, 2);
    assert_eq!(w.looper.pacing.reconnect_deadline_secs, 0);
}

/// A transport's own error is handed on with its kind and its words.
#[test]
fn a_failed_hello_hands_on_the_transports_error() {
    let sent = HelloSent::Failed { kind: 104, detail: "connection reset".to_string() };
    let err = connect_and_hello("link", sent).expect_err("it failed");
    assert_eq!(err.kind(), Some(104));
    assert_eq!(err.text(), "connection reset");
    assert_eq!(connect_and_hello::<&str, u8>("link", HelloSent::Sent), Ok("link"));
}
