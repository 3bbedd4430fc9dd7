//! One voice segment, driven turn by turn against scripted surroundings.

use respeaker::clock::{Duration, Instant};
use respeaker::streamer::link::PollInterest;
use respeaker::streamer::netpoll::{Readiness, OUTBOUND_FRAMES_PER_WAKE};
use respeaker::streamer::ring::{copy_frame, RingIndex};
use respeaker::streamer::segment::{
    frame_ts_us, AudioHeader, BudgetOutcome, EndReason, ObsEvent, OutFrame, Received, RingLook,
    Segment, SegmentAction, SegmentDuty, SegmentEnd, SegmentEvent, SegmentExit, StreamerMsg,
    WriteOutcome, AUDIO_SAMPLES_PER_FRAME, PENDING_TELEMETRY_CAP, PRODUCTION_OBS_PERIOD_US,
    SAMPLE_RATE_HZ, SPIN_BACKOFF_MS,
};
use respeaker::streamer::telemetry::{Reading, Telemetry};
use std::cell::Cell;
use std::collections::VecDeque;

const RING_CAPACITY_SAMPLES: usize = 32_000;

/// Bytes of every frame on the scripted wire.
const FRAME_BYTES: usize = 40;

/// Refused writes in a row that trip the spin guard.
const SPIN_GUARD_THRESHOLD: u32 = 8;

/// Microseconds the pace gate puts between two frames.
const PACED_FRAME_US: u64 = 10_000;

/// Milliseconds a frame may stay unfinished.
const WRITE_BUDGET_MS: u64 = 750;

/// A frame that left whole.
#[derive(Debug, Clone, PartialEq)]
enum Sent {
    Audio(AudioHeader, usize),
    Telemetry(Telemetry),
    SegmentEnd(SegmentEnd),
}

/// What one drain of the inbound direction comes to.
enum Pump {
    Quiet,
    HitCap,
    Fails,
}

struct World {
    write_script: VecDeque<usize>,
    write_default: usize,
    encodes: bool,
    plaintext: bool,
    inbound_room: bool,
    pumps: VecDeque<Pump>,
    pumped: u32,
    exits_noted: u32,
    vad_closed: bool,
    messages: VecDeque<StreamerMsg>,
    sender_gone: bool,
    write_head: u64,
    anchor_ts_us: u64,
    fault_after: u32,
    readable_wakes: u32,
    wakes: Cell<u32>,
    seen: Vec<(PollInterest, Duration)>,
    us: Box<dyn Fn() -> u64>,
    instants: Box<dyn Fn(u32) -> Instant>,
}

struct Run {
    exit: SegmentExit,
    frames: Vec<Sent>,
    partial: usize,
    events: Vec<ObsEvent>,
}

fn free_running_clock() -> Box<dyn Fn() -> u64> {
    let ticks = Cell::new(0u64);
    Box::new(move || {
        let now = 1_000_000 + ticks.get() * PACED_FRAME_US * 2;
        ticks.set(ticks.get() + 1);
        now
    })
}

/// A clock that advances by `step` on every read.
fn stepping_instants(step_ms: u64) -> Box<dyn Fn(u32) -> Instant> {
    let reads = Cell::new(0u64);
    Box::new(move |_| {
        let now = Instant::from_nanos(1_000_000_000 + u128::from(reads.get() * step_ms) * 1_000_000);
        reads.set(reads.get() + 1);
        now
    })
}

impl World {
    fn with(written: u64, anchor_ts_us: u64) -> World {
        World {
            write_script: VecDeque::new(),
            write_default: usize::MAX,
            encodes: true,
            plaintext: false,
            inbound_room: true,
            pumps: VecDeque::new(),
            pumped: 0,
            exits_noted: 0,
            vad_closed: false,
            messages: VecDeque::new(),
            sender_gone: false,
            write_head: written,
            anchor_ts_us,
            fault_after: u32::MAX,
            readable_wakes: 0,
            wakes: Cell::new(0),
            seen: Vec::new(),
            us: free_running_clock(),
            instants: Box::new(|_| Instant::from_nanos(1_000_000_000)),
        }
    }

    fn now(&self) -> Instant {
        (self.instants)(self.wakes.get())
    }

    fn write_arming(&self) -> Vec<bool> {
        self.seen.iter().map(|s| s.0.write).collect()
    }

    fn run(&mut self, read_cursor: u64) -> Run {
        let ridx = RingIndex::new(RING_CAPACITY_SAMPLES);
        let samples = vec![3i16; RING_CAPACITY_SAMPLES];
        let anchor_sample = self.write_head.saturating_sub(1);
        let mut frames = Vec::new();
        let mut events = Vec::new();
        let mut pcm_len = 0;
        let mut flight: Option<(OutFrame, usize, u32, Instant)> = None;
        let (mut segment, mut turn) = Segment::new(7, read_cursor, (self.us)());
        loop {
            for duty in &turn.duties {
                match duty {
                    SegmentDuty::Observe(event) => events.push(*event),
                    SegmentDuty::ResetSpinGuard => {
                        if let Some(f) = flight.as_mut() {
                            f.2 = 0;
                        }
                    }
                    SegmentDuty::NoteInboundExit => self.exits_noted += 1,
                }
            }
            let event = match turn.action {
                SegmentAction::Exit(exit) => {
                    let partial = flight.map(|f| f.1).unwrap_or(0);
                    return Run { exit, frames, partial, events };
                }
                SegmentAction::Wake => SegmentEvent::Woke {
                    now_us: (self.us)(),
                    now: self.now(),
                    inbound_room: self.inbound_room,
                    buffers_plaintext: self.plaintext,
                    write_deadline: flight.map(|f| {
                        f.3.checked_add(Duration::from_millis(WRITE_BUDGET_MS)).unwrap()
                    }),
                },
                SegmentAction::Poll { read, write, timeout } => {
                    self.seen.push((PollInterest { read, write }, timeout));
                    self.wakes.set(self.wakes.get() + 1);
                    if self.wakes.get() > self.fault_after {
                        SegmentEvent::Polled(Readiness::Fault("scripted poll fault".to_string()))
                    } else {
                        SegmentEvent::Polled(Readiness::Ready {
                            readable: self.wakes.get() <= self.readable_wakes,
                            writable: true,
                        })
                    }
                }
                SegmentAction::Receive => SegmentEvent::Received(match self.messages.pop_front() {
                    Some(message) => Received::Message(message),
                    None if self.sender_gone => Received::Disconnected,
                    None => Received::Empty,
                }),
                SegmentAction::ReadVadFlag => SegmentEvent::VadFlag(self.vad_closed),
                SegmentAction::PumpInbound => {
                    self.pumped += 1;
                    match self.pumps.pop_front().unwrap_or(Pump::Quiet) {
                        Pump::Quiet => SegmentEvent::Pumped { hit_cap: false },
                        Pump::HitCap => SegmentEvent::Pumped { hit_cap: true },
                        Pump::Fails => SegmentEvent::PumpFailed,
                    }
                }
                SegmentAction::ReadClock => SegmentEvent::Clock { now_us: (self.us)() },
                SegmentAction::LookAtRing { cursor } => SegmentEvent::Ring(RingLook {
                    overrun: self.write_head > cursor + RING_CAPACITY_SAMPLES as u64,
                    available: self.write_head.saturating_sub(cursor),
                    anchor_sample,
                    anchor_ts_us: self.anchor_ts_us,
                }),
                SegmentAction::AskPace { schedule, now_us } => match schedule {
                    Some(due) if now_us < due => {
                        SegmentEvent::PaceHeld { wait_us: due - now_us, now: self.now() }
                    }
                    _ => SegmentEvent::PaceOpen {
                        resynced: false,
                        next_schedule_us: now_us + PACED_FRAME_US,
                    },
                },
                SegmentAction::CopySamples { first_index, count } => {
                    pcm_len = copy_frame(&samples, &ridx, first_index, count as usize).len();
                    SegmentEvent::Copied {
                        overrun: false,
                        anchor_sample,
                        anchor_ts_us: self.anchor_ts_us,
                    }
                }
                SegmentAction::Begin(frame) => {
                    if self.encodes {
                        flight = Some((frame, 0, 0, self.now()));
                    }
                    SegmentEvent::Began(self.encodes)
                }
                SegmentAction::Write => {
                    let allowed = self.write_script.pop_front().unwrap_or(self.write_default);
                    let (frame, sent, refused, _) = flight.as_mut().expect("a frame in flight");
                    SegmentEvent::Wrote(if allowed == 0 {
                        *refused += 1;
                        WriteOutcome::Blocked {
                            spin_tripped: *refused >= SPIN_GUARD_THRESHOLD,
                            now: self.now(),
                        }
                    } else if *sent + allowed.min(FRAME_BYTES) >= FRAME_BYTES {
                        frames.push(match *frame {
                            OutFrame::Audio(header) => Sent::Audio(header, pcm_len),
                            OutFrame::Telemetry(telemetry) => Sent::Telemetry(telemetry),
                            OutFrame::SegmentEnd(end) => Sent::SegmentEnd(end),
                        });
                        flight = None;
                        WriteOutcome::Whole
                    } else {
                        *sent += allowed;
                        *refused = 0;
                        WriteOutcome::Partial
                    })
                }
                SegmentAction::CheckBudget => {
                    let (_, sent, _, begun) = flight.expect("a frame in flight");
                    let spent = self.now().saturating_duration_since(begun);
                    SegmentEvent::Budget(if spent < Duration::from_millis(WRITE_BUDGET_MS) {
                        BudgetOutcome::Within
                    } else if sent == 0 {
                        BudgetOutcome::Aligned
                    } else {
                        BudgetOutcome::Expired
                    })
                }
            };
            assert!(segment.accepts(&event), "{event:?} does not answer {:?}", turn.action);
            turn = segment.step(event);
        }
    }
}

fn telemetry(i: u64) -> Telemetry {
    Telemetry {
        device_ts_us: i,
        reading: Reading::SpEnergy,
        bits: [(i as f32).to_bits(), 0, 0, 0],
    }
}

/// The anchor maps to itself, earlier samples subtract and later samples add at the
/// sample rate, and an anchor too small to cover the offset floors at zero.
#[test]
fn frame_ts_us_extrapolates_both_directions_from_the_anchor() {
    let rate = SAMPLE_RATE_HZ;
    assert_eq!(frame_ts_us(1_000, 5_000_000, 1_000), 5_000_000);
    assert_eq!(frame_ts_us(rate, 5_000_000, 0), 4_000_000);
    assert_eq!(frame_ts_us(0, 5_000_000, rate), 6_000_000);
    assert_eq!(frame_ts_us(AUDIO_SAMPLES_PER_FRAME as u64, 1_000_000, 0), 980_000);
    assert_eq!(
        frame_ts_us(rate, 1_000, 0),
        0,
        "an anchor younger than the offset floors at zero"
    );
}

/// A released segment with one full frame plus a residual drains both and closes.
#[test]
fn vad_release_drains_full_frame_then_partial_and_completes() {
    let samples = AUDIO_SAMPLES_PER_FRAME as u64 + 100;
    let mut w = World::with(samples, 2_000_000);
    w.vad_closed = true;
    let out = w.run(0);
    assert_eq!(out.exit, SegmentExit::Completed);
    assert_eq!(out.frames.len(), 3, "full frame, partial frame, SegmentEnd");
    match &out.frames[0] {
        Sent::Audio(a, pcm) => {
            assert_eq!(a.segment_id, 7);
            assert_eq!(a.first_sample_index, 0);
            assert_eq!(*pcm, AUDIO_SAMPLES_PER_FRAME as usize * 2);
            assert_eq!(a.device_ts_us, frame_ts_us(samples - 1, 2_000_000, 0));
        }
        other => panic!("expected a full AudioFrame, got {other:?}"),
    }
    match &out.frames[1] {
        Sent::Audio(a, pcm) => {
            assert_eq!(a.first_sample_index, AUDIO_SAMPLES_PER_FRAME as u64);
            assert_eq!(*pcm, 100 * 2, "residual is drained as a partial frame");
            assert_eq!(
                a.device_ts_us,
                frame_ts_us(samples - 1, 2_000_000, AUDIO_SAMPLES_PER_FRAME as u64)
            );
        }
        other => panic!("expected a partial AudioFrame, got {other:?}"),
    }
    match &out.frames[2] {
        Sent::SegmentEnd(e) => {
            assert_eq!(e.reason, EndReason::VadRelease);
            assert_eq!(e.frames_sent, 2);
            assert_eq!(e.samples_sent, AUDIO_SAMPLES_PER_FRAME as u64 + 100);
        }
        other => panic!("expected SegmentEnd, got {other:?}"),
    }
}

/// The closing frame is dated by the clock that was handed in.
#[test]
fn segment_end_timestamp_comes_from_the_injected_clock() {
    const FROZEN: u64 = 123_456_789;
    let mut w = World::with(0, FROZEN);
    w.vad_closed = true;
    w.us = Box::new(|| FROZEN);
    let out = w.run(0);
    assert_eq!(out.exit, SegmentExit::Completed);
    match out.frames.as_slice() {
        [Sent::SegmentEnd(e)] => {
            assert_eq!(e.device_ts_us, FROZEN);
            assert_eq!(e.frames_sent, 0, "empty ring at VAD release sends no audio");
        }
        other => panic!("expected a lone SegmentEnd, got {other:?}"),
    }
}

/// A ring whose write head has lapped the read cursor closes the segment.
#[test]
fn lapped_cursor_closes_the_segment_as_overrun() {
    let mut w = World::with(RING_CAPACITY_SAMPLES as u64 + 5_000, 2_000_000);
    let out = w.run(0);
    assert_eq!(out.exit, SegmentExit::Completed);
    match out.frames.as_slice() {
        [Sent::SegmentEnd(e)] => assert_eq!(e.reason, EndReason::Overrun),
        other => panic!("expected a lone SegmentEnd(Overrun), got {other:?}"),
    }
}

/// A frozen clock leaves the pace gate deferring every frame after the first.
#[test]
fn the_pace_gate_throttles_on_the_injected_clock() {
    let mut w = World::with(AUDIO_SAMPLES_PER_FRAME as u64 * 4, 2_000_000);
    w.fault_after = 6;
    w.us = Box::new(|| 5_000_000);
    let out = w.run(0);
    assert_eq!(
        out.exit,
        SegmentExit::SocketLost,
        "the scripted fault is the only exit from a paced, VAD-open segment"
    );
    assert_eq!(
        out.frames.len(),
        1,
        "the pace gate released one frame and deferred the rest of the backlog"
    );
    assert!(matches!(out.frames[0], Sent::Audio(..)));
    assert_eq!(
        w.seen[1].1,
        Duration::from_millis(10),
        "the deferred frame's due time bounds the wait"
    );
}

/// A poll fault is a dead socket.
#[test]
fn a_poll_fault_ends_the_segment_as_socket_lost() {
    let mut w = World::with(0, 2_000_000);
    w.fault_after = 0;
    let out = w.run(0);
    assert_eq!(out.exit, SegmentExit::SocketLost);
    assert!(out.frames.is_empty(), "a faulted wake writes nothing");
    assert_eq!(
        out.events,
        vec![ObsEvent::SegmentOpen],
        "the open waypoint fires before the first wake"
    );
}

/// Reading is armed while the accumulator has room, writing only while blocked.
#[test]
fn the_poll_shim_sees_the_armed_interest() {
    let mut w = World::with(0, 2_000_000);
    w.fault_after = 0;
    let _ = w.run(0);
    assert_eq!(w.seen.len(), 1);
    assert_eq!(w.seen[0].0, PollInterest::read());
    assert_eq!(
        w.seen[0].1,
        Duration::zero(),
        "the opening wake re-polls immediately (work_pending seeded true)"
    );
}

/// `PrerollDrained` fires the first time the loop is caught up, and only once.
#[test]
fn preroll_drained_fires_once_when_the_backlog_clears() {
    let mut w = World::with(AUDIO_SAMPLES_PER_FRAME as u64, 2_000_000);
    w.fault_after = 4;
    let out = w.run(0);
    assert_eq!(out.exit, SegmentExit::SocketLost);
    assert_eq!(
        out.events,
        vec![ObsEvent::SegmentOpen, ObsEvent::PrerollDrained],
        "one frame drains, then the caught-up branch reports once"
    );
}

/// The periodic waypoint fires once per elapsed period, not per wake.
#[test]
fn the_production_waypoint_follows_the_injected_clock() {
    let mut w = World::with(0, 2_000_000);
    w.fault_after = 3;
    let reads = Cell::new(0u64);
    w.us = Box::new(move || {
        let now = reads.get() * PRODUCTION_OBS_PERIOD_US;
        reads.set(reads.get() + 1);
        now
    });
    let out = w.run(0);
    assert_eq!(out.exit, SegmentExit::SocketLost);
    assert_eq!(
        out.events,
        vec![
            ObsEvent::SegmentOpen,
            ObsEvent::Production,
            // The first wake also finds the (empty) ring caught up.
            ObsEvent::PrerollDrained,
            ObsEvent::Production,
            ObsEvent::Production,
            ObsEvent::Production,
        ],
        "one Production event per wake whose clock read is a period past the last, \
         including the wake whose poll then faults"
    );
}

/// Queued telemetry goes ahead of the close; past the cap the oldest is dropped.
#[test]
fn telemetry_over_the_cap_drops_the_oldest_and_reports_it() {
    let mut w = World::with(0, 2_000_000);
    for i in 0..(PENDING_TELEMETRY_CAP + 2) {
        w.messages.push_back(StreamerMsg::Telemetry(telemetry(i as u64)));
    }
    w.vad_closed = true;
    let out = w.run(0);
    assert_eq!(out.exit, SegmentExit::Completed);
    assert_eq!(
        out.events.iter().filter(|e| matches!(e, ObsEvent::TelemetryDropped { .. })).count(),
        2,
        "two frames past the cap means two drops"
    );
    assert!(out.events.contains(&ObsEvent::TelemetryDropped { cap: PENDING_TELEMETRY_CAP }));
    assert_eq!(
        out.frames.len(),
        PENDING_TELEMETRY_CAP + 1,
        "the capped queue plus the closing SegmentEnd"
    );
    // The two oldest were dropped, so the first forwarded frame is index 2.
    match &out.frames[0] {
        Sent::Telemetry(t) => assert_eq!(t.device_ts_us, 2),
        other => panic!("expected Telemetry first, got {other:?}"),
    }
    assert!(matches!(out.frames[PENDING_TELEMETRY_CAP], Sent::SegmentEnd(_)));
}

/// A vanished sender closes the segment with `InternalError`, socket kept.
#[test]
fn channel_disconnect_closes_with_internal_error_and_keeps_the_socket() {
    let mut w = World::with(0, 2_000_000);
    w.sender_gone = true;
    let out = w.run(0);
    assert_eq!(out.exit, SegmentExit::SegmentDroppedSocketKept);
    match out.frames.as_slice() {
        [Sent::SegmentEnd(e)] => assert_eq!(e.reason, EndReason::InternalError),
        other => panic!("expected a lone SegmentEnd(InternalError), got {other:?}"),
    }
}

/// A close that arrives on the channel ends the segment as the flag does.
#[test]
fn a_channel_vad_close_ends_the_segment_like_the_flag() {
    let mut w = World::with(0, 2_000_000);
    w.messages.push_back(StreamerMsg::VadClosed);
    w.fault_after = 4;
    let out = w.run(0);
    assert!(!w.vad_closed, "the flag stayed clear: the channel arm did the work");
    assert_eq!(out.exit, SegmentExit::Completed);
    match out.frames.as_slice() {
        [Sent::SegmentEnd(e)] => assert_eq!(e.reason, EndReason::VadRelease),
        other => panic!("expected a lone SegmentEnd(VadRelease), got {other:?}"),
    }
}

/// A re-onset neither closes the segment nor moves the read cursor.
#[test]
fn a_re_onset_message_mid_segment_is_ignored() {
    let mut w = World::with(AUDIO_SAMPLES_PER_FRAME as u64, 2_000_000);
    w.messages.push_back(StreamerMsg::VadOpened { write_head: 99_999 });
    w.messages.push_back(StreamerMsg::VadClosed);
    w.fault_after = 4;
    let out = w.run(0);
    assert_eq!(out.exit, SegmentExit::Completed);
    match out.frames.as_slice() {
        [Sent::Audio(a, _), Sent::SegmentEnd(e)] => {
            assert_eq!(a.first_sample_index, 0, "the re-onset must not move the read cursor");
            assert_eq!(e.reason, EndReason::VadRelease);
            assert_eq!(e.frames_sent, 1);
        }
        other => panic!("expected one AudioFrame then SegmentEnd, got {other:?}"),
    }
}

/// A blocked write reports itself once and arms writing for the next wake.
#[test]
fn a_blocked_write_reports_once_and_arms_pollout() {
    let mut w = World::with(0, 2_000_000);
    w.vad_closed = true;
    w.write_script.push_back(0);
    let out = w.run(0);
    assert_eq!(out.exit, SegmentExit::Completed);
    assert_eq!(out.frames.len(), 1, "the SegmentEnd resumed to completion");
    assert_eq!(
        out.events.iter().filter(|e| **e == ObsEvent::WriteBlocked).count(),
        1,
        "the first write-block reports once per segment"
    );
    assert_eq!(
        w.write_arming(),
        vec![false, true],
        "POLLOUT is armed only on the wake that follows the block"
    );
}

/// A short write is resumed inside the same wake.
#[test]
fn a_short_write_resumes_without_an_extra_poll() {
    let mut w = World::with(0, 2_000_000);
    w.vad_closed = true;
    w.write_script.push_back(5);
    let out = w.run(0);
    assert_eq!(out.exit, SegmentExit::Completed);
    assert_eq!(out.frames.len(), 1);
    assert_eq!(out.partial, 0, "the frame completed byte-exactly");
    assert!(
        !out.events.contains(&ObsEvent::WriteBlocked),
        "a partial write is progress, not a block"
    );
    assert_eq!(w.seen.len(), 1, "the partial write resumed within the wake that started it");
}

/// Poll insisting on writability while writes refuse bytes de-arms writing for one
/// backoff, then re-arms it.
#[test]
fn the_spin_guard_de_arms_pollout_for_one_backoff_then_re_arms() {
    let mut w = World::with(0, 2_000_000);
    w.vad_closed = true;
    w.write_default = 0;
    w.fault_after = SPIN_GUARD_THRESHOLD + 4;
    w.instants = Box::new(|wakes| {
        let base = 1_000_000_000;
        if wakes > SPIN_GUARD_THRESHOLD {
            Instant::from_nanos(base + u128::from(SPIN_BACKOFF_MS) * 2 * 1_000_000)
        } else {
            Instant::from_nanos(base)
        }
    });
    let out = w.run(0);
    assert_eq!(
        out.exit,
        SegmentExit::SocketLost,
        "the scripted fault is the only exit from a permanently blocked write"
    );
    assert!(out.frames.is_empty());
    let armed = w.write_arming();
    let trip = SPIN_GUARD_THRESHOLD as usize;
    assert!(!armed[0], "nothing has blocked before the first write attempt");
    for (wake, armed) in armed.iter().enumerate().take(trip).skip(1) {
        assert!(armed, "POLLOUT stays armed while the guard is untripped (wake {wake})");
    }
    assert!(!armed[trip], "the tripped guard de-arms POLLOUT");
    assert!(
        w.seen[trip].1 <= Duration::from_millis(SPIN_BACKOFF_MS),
        "the backoff bounds the de-armed wake's sleep"
    );
    assert!(armed[trip + 1], "an expired backoff re-arms POLLOUT");
}

/// A write budget that elapses before any byte left keeps the socket.
#[test]
fn a_write_budget_elapsed_at_zero_bytes_keeps_the_socket() {
    let mut w = World::with(0, 2_000_000);
    w.vad_closed = true;
    w.write_default = 0;
    w.fault_after = 20;
    w.instants = stepping_instants(400);
    let out = w.run(0);
    assert_eq!(out.exit, SegmentExit::SegmentDroppedSocketKept);
    assert!(out.frames.is_empty());
    assert_eq!(out.partial, 0, "no byte left, so the stream stays aligned");
    assert!(
        w.seen.len() <= 5,
        "the budget, not the scripted fault, ended the segment"
    );
}

/// The same stall after a prefix was accepted takes the socket.
#[test]
fn a_write_budget_elapsed_mid_tail_clears_the_socket() {
    let mut w = World::with(0, 2_000_000);
    w.vad_closed = true;
    w.write_script.push_back(5);
    w.write_default = 0;
    w.fault_after = 20;
    w.instants = stepping_instants(400);
    let out = w.run(0);
    assert_eq!(out.exit, SegmentExit::SocketLost);
    assert!(out.frames.is_empty());
    assert_eq!(out.partial, 5, "the accepted prefix desynced the receiver");
    assert!(
        w.seen.len() <= 5,
        "the budget, not the scripted fault, ended the segment"
    );
}

/// A close that cannot be encoded takes the socket.
#[test]
fn a_segment_end_that_cannot_encode_clears_the_socket() {
    let mut w = World::with(0, 2_000_000);
    w.encodes = false;
    w.vad_closed = true;
    w.fault_after = 8;
    let out = w.run(0);
    assert_eq!(out.exit, SegmentExit::SocketLost);
    assert!(out.frames.is_empty(), "an encode fault writes nothing at all");
    assert_eq!(
        w.seen.len(),
        1,
        "the encode fault, not the scripted fault, ended the segment"
    );
}

/// A telemetry frame that cannot be encoded keeps the socket.
#[test]
fn a_telemetry_frame_that_cannot_encode_keeps_the_socket() {
    let mut w = World::with(0, 2_000_000);
    w.messages.push_back(StreamerMsg::Telemetry(telemetry(1)));
    w.encodes = false;
    w.fault_after = 8;
    let out = w.run(0);
    assert_eq!(out.exit, SegmentExit::SegmentDroppedSocketKept);
    assert!(out.frames.is_empty());
}

/// So does an audio frame.
#[test]
fn an_audio_frame_that_cannot_encode_keeps_the_socket() {
    let mut w = World::with(AUDIO_SAMPLES_PER_FRAME as u64, 2_000_000);
    w.encodes = false;
    w.fault_after = 8;
    let out = w.run(0);
    assert_eq!(out.exit, SegmentExit::SegmentDroppedSocketKept);
    assert!(out.frames.is_empty());
}

/// A backlog past the per-wake share goes out one share per wake, without a wait.
#[test]
fn the_outbound_cap_bounds_one_wake_and_re_polls_immediately() {
    let backlog = OUTBOUND_FRAMES_PER_WAKE as u64 + 1;
    let mut w = World::with(AUDIO_SAMPLES_PER_FRAME as u64 * backlog, 2_000_000);
    w.fault_after = 1;
    let out = w.run(0);
    assert_eq!(out.exit, SegmentExit::SocketLost);
    assert_eq!(
        out.frames.len(),
        OUTBOUND_FRAMES_PER_WAKE as usize,
        "one wake writes at most the per-wake cap"
    );
    assert!(out.frames.iter().all(|f| matches!(f, Sent::Audio(..))));
    assert_eq!(w.seen[1].1, Duration::zero(), "stopping at the cap re-polls immediately");
}

/// A transport that buffers decrypted bytes is read on every wake.
#[test]
fn a_plaintext_buffering_link_is_read_on_a_wake_with_no_pollin() {
    let mut w = World::with(0, 2_000_000);
    w.vad_closed = true;
    w.plaintext = true;
    let out = w.run(0);
    assert_eq!(out.exit, SegmentExit::Completed);
    assert!(w.pumped > 0, "the buffering link is read regardless");
}

/// One that buffers nothing is left alone while nothing is readable.
#[test]
fn a_non_buffering_link_is_not_read_without_pollin() {
    let mut w = World::with(0, 2_000_000);
    w.vad_closed = true;
    let out = w.run(0);
    assert_eq!(out.exit, SegmentExit::Completed);
    assert_eq!(w.pumped, 0, "no POLLIN, room to spare, no read");
}

/// A full accumulator de-arms reading, and still gets its held frame offered again.
#[test]
fn a_full_accumulator_still_gets_its_held_frame_re_offered() {
    let mut w = World::with(0, 2_000_000);
    w.vad_closed = true;
    w.inbound_room = false;
    let out = w.run(0);
    assert_eq!(out.exit, SegmentExit::Completed);
    assert_eq!(w.pumped, 1, "the held frame was re-offered");
    assert!(!w.seen[0].0.read, "a full accumulator de-arms POLLIN");
}

/// An inbound flood that stops at its cap is re-checked without a wait.
#[test]
fn an_inbound_flood_past_the_per_wake_cap_re_polls_immediately() {
    let mut w = World::with(0, 2_000_000);
    w.pumps.push_back(Pump::HitCap);
    w.readable_wakes = u32::MAX;
    w.fault_after = 1;
    let out = w.run(0);
    assert_eq!(out.exit, SegmentExit::SocketLost);
    assert_eq!(w.pumped, 1, "the pump stops at the per-wake cap");
    assert_eq!(
        w.seen[1].1,
        Duration::zero(),
        "inbound work remaining re-polls immediately"
    );
}

/// A fault of the inbound stream ends the connection, with one last sample.
#[test]
fn an_inbound_protocol_fault_clears_the_socket_and_samples_the_exit() {
    let mut w = World::with(0, 2_000_000);
    w.pumps.push_back(Pump::Fails);
    w.readable_wakes = u32::MAX;
    w.fault_after = 8;
    let out = w.run(0);
    assert_eq!(out.exit, SegmentExit::SocketLost);
    assert_eq!(
        w.seen.len(),
        1,
        "the inbound fault, not the scripted poll fault, ended the segment"
    );
    assert_eq!(w.exits_noted, 1);
}

/// `ObsEvent`'s log tokens are a stable grep vocabulary; pin them.
#[test]
fn obs_event_tokens_are_stable() {
    assert_eq!(ObsEvent::SegmentOpen.as_str(), "start");
    assert_eq!(ObsEvent::PrerollDrained.as_str(), "preroll-drained");
    assert_eq!(ObsEvent::WriteBlocked.as_str(), "write-blocked");
    assert_eq!(ObsEvent::Production.as_str(), "prod");
    assert_eq!(ObsEvent::TelemetryDropped { cap: 8 }.as_str(), "telemetry-dropped");
}

/// Samples go out low byte first, and wrap around the end of the ring.
#[test]
fn samples_become_bytes_low_byte_first() {
    let samples = [0x0102i16, -1, 0x7f00];
    let ridx = RingIndex::new(3);
    assert_eq!(
        &copy_frame(&samples, &ridx, 2, 3)[..],
        &[0x00, 0x7f, 0x02, 0x01, 0xff, 0xff]
    );
    assert_eq!(ridx.slot(7), 1);
}

/// An event that answers nothing the segment asked is not accepted.
#[test]
fn an_event_out_of_turn_is_not_accepted() {
    let (segment, _) = Segment::new(1, 0, 0);
    assert!(!segment.accepts(&SegmentEvent::VadFlag(true)));
    assert!(!segment.accepts(&SegmentEvent::Wrote(WriteOutcome::Whole)));
}
