//! The telemetry tick, driven against a scripted chip and channel.

use respeaker::streamer::segment::StreamerMsg;
use respeaker::streamer::telemetry::{
    read_f32x4_reading, ControlAnswer, GateInput, Offered, Reading, Telemetry, TelemetryCore,
    TickAction, TickEvent, VadTransition, DOA_EVERY_N_TICKS, DOA_POLL_HZ, VAD_POLL_HZ,
    VAD_POLL_INTERVAL_MS,
};

/// The status of an answer that carries a payload.
const STATUS_DONE: u8 = 0;

/// Fixed threshold and a two-tick hangover, so a close is cheap to drive.
const THRESHOLD: f32 = 1.0;
const HANGOVER_TICKS: u32 = 2;
const LOUD: [f32; 4] = [0.0, 5.0, 0.0, 0.0];
const QUIET: [f32; 4] = [0.0, 0.0, 0.0, 0.0];
const AZ: [f32; 4] = [1.5, 2.5, 3.5, 4.5];

/// A voice gate: two samples above the threshold in a row open it, and as many below
/// as the hangover has ticks close it.
struct Vad {
    open: bool,
    above: u32,
    below: u32,
}

impl Vad {
    fn update(&mut self, energy: f32) -> VadTransition {
        if energy > THRESHOLD {
            self.above += 1;
            self.below = 0;
            if !self.open && self.above >= 2 {
                self.open = true;
                return VadTransition::Opened;
            }
        } else {
            self.above = 0;
            self.below += 1;
            if self.open && self.below >= HANGOVER_TICKS {
                self.open = false;
                return VadTransition::Closed;
            }
        }
        VadTransition::Unchanged
    }
}

/// A bus that answers from per-reading scripts and records what was asked.
struct FakeBus {
    sp: Vec<Option<[f32; 4]>>,
    az: Vec<Option<[f32; 4]>>,
    reads: Vec<Reading>,
}

impl FakeBus {
    fn constant(sp: Option<[f32; 4]>, az: Option<[f32; 4]>) -> Self {
        Self { sp: vec![sp], az: vec![az], reads: Vec::new() }
    }

    fn scripted(sp: Vec<Option<[f32; 4]>>, az: Option<[f32; 4]>) -> Self {
        Self { sp, az: vec![az], reads: Vec::new() }
    }

    fn sp_reads(&self) -> usize {
        self.reads.iter().filter(|r| **r == Reading::SpEnergy).count()
    }

    fn az_reads(&self) -> usize {
        self.reads.iter().filter(|r| **r == Reading::Azimuths).count()
    }

    fn read(&mut self, reading: Reading) -> Option<[f32; 4]> {
        self.reads.push(reading);
        let script = match reading {
            Reading::SpEnergy => &mut self.sp,
            Reading::Azimuths => &mut self.az,
        };
        if script.len() > 1 {
            script.remove(0)
        } else {
            script[0]
        }
    }
}

/// What surrounds the tick, plus the state the assertions read back.
struct Harness {
    core: TelemetryCore,
    vad: Vad,
    capacity: usize,
    connected: bool,
    queue: Vec<StreamerMsg>,
    flag: bool,
    write_head: u64,
    now_us: u64,
    quiesced: bool,
}

impl Harness {
    fn with_capacity(capacity: usize) -> Self {
        Self {
            core: TelemetryCore::new(),
            vad: Vad { open: false, above: 0, below: 0 },
            capacity,
            connected: true,
            queue: Vec::new(),
            flag: false,
            write_head: 4_242,
            now_us: 7_000_000,
            quiesced: false,
        }
    }

    fn new() -> Self {
        Self::with_capacity(16)
    }

    fn drain(&mut self) -> Vec<StreamerMsg> {
        std::mem::take(&mut self.queue)
    }

    fn restart(&mut self) {
        self.core = TelemetryCore::new();
        self.vad = Vad { open: false, above: 0, below: 0 };
    }

    fn poll_tick(&mut self, bus: &mut FakeBus) -> Option<VadTransition> {
        let mut action = self.core.poll_tick();
        loop {
            let event = match action {
                TickAction::Done(transition) => return transition,
                TickAction::Read(reading) => TickEvent::Values {
                    bits: bus.read(reading).map(|values| values.map(f32::to_bits)),
                    now_us: self.now_us,
                },
                TickAction::AskQuiesced => TickEvent::Quiesced(self.quiesced),
                TickAction::FeedGate(input) => {
                    let energy = match input {
                        GateInput::Silence => f32::NEG_INFINITY,
                        GateInput::LoudestOf(bits) => {
                            bits.map(f32::from_bits).into_iter().fold(f32::NEG_INFINITY, f32::max)
                        }
                    };
                    TickEvent::Gate(self.vad.update(energy))
                }
                TickAction::ReadWriteHead => TickEvent::WriteHead(self.write_head),
                TickAction::Offer { flag, msg } => {
                    if let Some(flag) = flag {
                        self.flag = flag;
                    }
                    TickEvent::Offered(if !self.connected {
                        Offered::Disconnected
                    } else if self.queue.len() >= self.capacity {
                        Offered::Full
                    } else {
                        self.queue.push(msg);
                        Offered::Taken
                    })
                }
            };
            assert!(self.core.accepts(&event), "{event:?} does not answer {action:?}");
            action = self.core.step(event);
        }
    }
}

fn opened_heads(msgs: &[StreamerMsg]) -> Vec<u64> {
    msgs.iter()
        .filter_map(|m| match m {
            StreamerMsg::VadOpened { write_head } => Some(*write_head),
            _ => None,
        })
        .collect()
}

fn closes(msgs: &[StreamerMsg]) -> usize {
    msgs.iter().filter(|m| matches!(m, StreamerMsg::VadClosed)).count()
}

fn telemetry(msgs: &[StreamerMsg]) -> Vec<Telemetry> {
    msgs.iter()
        .filter_map(|m| match m {
            StreamerMsg::Telemetry(t) => Some(*t),
            _ => None,
        })
        .collect()
}

/// The kinds of `msgs`' telemetry with their values.
fn kinds(msgs: &[StreamerMsg]) -> Vec<(Reading, [f32; 4])> {
    telemetry(msgs).iter().map(|t| (t.reading, t.bits.map(f32::from_bits))).collect()
}

fn answered(status: u8, values: [f32; 4]) -> ControlAnswer {
    let mut payload = [0u8; 16];
    for (i, v) in values.iter().enumerate() {
        payload[i * 4..i * 4 + 4].copy_from_slice(&v.to_le_bytes());
    }
    ControlAnswer::Answered { status, payload }
}

/// A DONE answer decodes four little-endian numbers.
#[test]
fn reading_decodes_done_payload_with_expected_framing() {
    for reading in [Reading::SpEnergy, Reading::Azimuths] {
        let got = read_f32x4_reading(answered(STATUS_DONE, AZ), STATUS_DONE);
        assert_eq!(
            got.map(|bits| bits.map(f32::from_bits)),
            Some(AZ),
            "{} payload",
            reading.label()
        );
        assert_eq!(reading.read_len(), 16, "{} framing", reading.label());
    }
}

/// A fatal status and a transport error both yield "no reading".
#[test]
fn reading_reports_none_on_bad_status_and_on_transport_error() {
    assert_eq!(read_f32x4_reading(answered(0x02, AZ), STATUS_DONE), None);
    assert_eq!(read_f32x4_reading(ControlAnswer::Failed, STATUS_DONE), None);
}

/// The cadence arithmetic the loop depends on.
#[test]
fn cadence_constants_are_consistent() {
    assert_eq!(VAD_POLL_INTERVAL_MS, 50);
    assert_eq!(VAD_POLL_INTERVAL_MS * VAD_POLL_HZ, 1000);
    assert_eq!(DOA_EVERY_N_TICKS, 2);
    assert_eq!(DOA_EVERY_N_TICKS * DOA_POLL_HZ, VAD_POLL_HZ);
    assert_eq!(Reading::SpEnergy.label(), "SPENERGY");
    assert_eq!(Reading::Azimuths.label(), "DoA");
    assert_eq!(Reading::SpEnergy.read_len(), 16);
    assert_eq!(Reading::Azimuths.read_len(), 16);
}

/// Two above-threshold ticks open the voice gate: the write head goes out with the
/// message and the closed flag is cleared.
#[test]
fn onset_publishes_write_head_and_clears_the_flag() {
    let mut h = Harness::new();
    h.flag = true;
    let mut bus = FakeBus::constant(Some(LOUD), Some(AZ));

    assert_eq!(
        h.poll_tick(&mut bus),
        Some(VadTransition::Unchanged)
    );
    assert!(!h.core.segment_open(), "one loud tick must not open the voice gate");
    assert_eq!(h.poll_tick(&mut bus), Some(VadTransition::Opened));
    assert!(h.core.segment_open());

    let msgs = h.drain();
    assert_eq!(opened_heads(&msgs), vec![h.write_head]);
    assert!(
        !h.flag,
        "onset must clear the closed flag"
    );
}

/// Telemetry is forwarded only while a segment is open, stamped with the
/// injected clock, and the opening tick's own SPENERGY goes out too.
#[test]
fn telemetry_flows_only_while_the_segment_is_open() {
    let mut h = Harness::new();
    let mut bus = FakeBus::constant(Some(LOUD), Some(AZ));

    h.poll_tick(&mut bus); // closed: no telemetry
    assert!(telemetry(&h.drain()).is_empty());

    h.poll_tick(&mut bus); // opens, and forwards its own reading
    let msgs = h.drain();
    let tel = telemetry(&msgs);
    assert_eq!(tel.len(), 1, "the opening tick forwards its SPENERGY");
    assert_eq!(tel[0].device_ts_us, h.now_us);
    assert_eq!(kinds(&msgs), vec![(Reading::SpEnergy, LOUD)]);
}

/// An undeliverable `VadClosed` is charged to the drop counter, so the
/// `drops=` diagnostic does not hide the one case where the close itself
/// bounced. The flag still ends the segment losslessly.
#[test]
fn a_dropped_close_is_counted() {
    let mut h = Harness::with_capacity(1);
    let mut bus = FakeBus::scripted(
        vec![
            Some(LOUD),
            Some(LOUD),
            Some(QUIET),
            Some(QUIET),
            Some(QUIET),
        ],
        Some(AZ),
    );

    h.poll_tick(&mut bus);
    h.poll_tick(&mut bus); // open
    assert!(h.core.segment_open());
    let _ = h.drain();

    // Hangover tick: still open, so its own telemetry fills the one slot.
    assert_eq!(
        h.poll_tick(&mut bus),
        Some(VadTransition::Unchanged)
    );
    let before = h.core.telemetry_drops();

    // Closing tick: the channel is full, so VadClosed cannot be delivered.
    assert_eq!(h.poll_tick(&mut bus), Some(VadTransition::Closed));
    assert_eq!(
        h.core.telemetry_drops(),
        before + 1,
        "a bounced VadClosed must be counted"
    );
    assert!(
        h.flag,
        "the flag is the lossless close path"
    );
    assert_eq!(
        closes(&h.drain()),
        0,
        "the close message really was dropped"
    );
}

/// A failed SPENERGY read skips the tick without touching the FSM: the two
/// loud ticks either side of it still add up to an onset.
#[test]
fn a_failed_reading_leaves_the_fsm_untouched() {
    let mut h = Harness::new();
    let mut bus = FakeBus::scripted(vec![Some(LOUD), None, Some(LOUD)], Some(AZ));

    assert_eq!(
        h.poll_tick(&mut bus),
        Some(VadTransition::Unchanged)
    );
    assert_eq!(
        h.poll_tick(&mut bus),
        None,
        "a failed reading reports no transition"
    );
    assert_eq!(
        h.poll_tick(&mut bus),
        Some(VadTransition::Opened),
        "the consecutive-above count must survive a skipped tick"
    );
    let msgs = h.drain();
    assert_eq!(opened_heads(&msgs), vec![h.write_head]);
}

/// A DoA read that fails is simply not forwarded; the tick is otherwise normal.
#[test]
fn a_failed_doa_reading_forwards_nothing() {
    let mut h = Harness::new();
    let mut bus = FakeBus::constant(Some(LOUD), None);

    h.poll_tick(&mut bus);
    h.poll_tick(&mut bus); // open
    let _ = h.drain();
    h.poll_tick(&mut bus); // DoA tick, read fails

    let msgs = h.drain();
    assert_eq!(bus.az_reads(), 2);
    assert!(
        telemetry(&msgs)
            .iter()
            .all(|t| t.reading == Reading::SpEnergy),
        "no Azimuths frame may be synthesized from a failed read"
    );
}

/// A `VadOpened` that cannot be delivered re-closes the segment, so no
/// telemetry is forwarded for a segment the streamer never opened.
#[test]
fn a_dropped_onset_reopens_nothing() {
    // Capacity 1, pre-filled: the next try_send fails.
    let mut h = Harness::with_capacity(1);
    h.queue.push(StreamerMsg::VadClosed);
    let mut bus = FakeBus::constant(Some(LOUD), Some(AZ));

    h.poll_tick(&mut bus);
    assert_eq!(h.poll_tick(&mut bus), Some(VadTransition::Opened));
    assert!(
        !h.core.segment_open(),
        "a dropped VadOpened must not leave a phantom segment open"
    );
    assert_eq!(h.core.telemetry_drops(), 1);
    assert!(
        !h.flag,
        "the flag is still cleared — the FSM really did open"
    );

    let msgs = h.drain();
    assert!(opened_heads(&msgs).is_empty());
    assert!(telemetry(&msgs).is_empty());
}

/// Telemetry that does not fit is counted and dropped, and the segment stays
/// open — audio has priority over its own telemetry.
#[test]
fn full_channel_drops_telemetry_and_keeps_the_segment() {
    let mut h = Harness::with_capacity(1);
    let mut bus = FakeBus::constant(Some(LOUD), Some(AZ));

    h.poll_tick(&mut bus);
    h.poll_tick(&mut bus); // open: VadOpened takes the one slot
    assert!(h.core.segment_open());
    assert_eq!(
        h.core.telemetry_drops(),
        1,
        "the opening tick's own SPENERGY had nowhere to go"
    );

    // Channel still full (VadOpened is unread): further ticks keep dropping.
    h.poll_tick(&mut bus);
    assert!(h.core.segment_open());
    assert!(h.core.telemetry_drops() >= 2);
    let msgs = h.drain();
    assert_eq!(opened_heads(&msgs), vec![h.write_head]);
}

/// The voice gate closes after the hangover, sets the flag, sends `VadClosed`, and stops
/// forwarding.
#[test]
fn release_sets_the_flag_and_stops_telemetry() {
    let mut h = Harness::new();
    let mut bus = FakeBus::scripted(
        vec![Some(LOUD), Some(LOUD), Some(QUIET), Some(QUIET), Some(QUIET)],
        Some(AZ),
    );
    h.poll_tick(&mut bus);
    h.poll_tick(&mut bus); // open
    let _ = h.drain();

    assert_eq!(h.poll_tick(&mut bus), Some(VadTransition::Unchanged));
    assert!(h.core.segment_open(), "the hangover must hold the voice gate open");
    assert_eq!(h.poll_tick(&mut bus), Some(VadTransition::Closed));
    assert!(!h.core.segment_open());
    assert!(h.flag, "release must set the flag");

    let msgs = h.drain();
    assert_eq!(closes(&msgs), 1);
    assert_eq!(
        kinds(&msgs),
        vec![(Reading::SpEnergy, QUIET), (Reading::Azimuths, AZ)],
        "the still-open hangover tick forwards; the closing tick does not"
    );

    h.poll_tick(&mut bus);
    assert!(telemetry(&h.drain()).is_empty(), "a closed gate forwards nothing");
}

/// DoA is read every second tick regardless of gate state, and only forwarded while the
/// voice gate is open.
#[test]
fn doa_reads_on_cadence_and_forwards_only_when_open() {
    let mut h = Harness::new();
    let mut bus = FakeBus::constant(Some(QUIET), Some(AZ));
    for _ in 0..4 {
        h.poll_tick(&mut bus);
    }
    assert_eq!(bus.sp_reads(), 4);
    assert_eq!(bus.az_reads(), 2, "DoA is read on ticks 0 and 2");
    assert!(telemetry(&h.drain()).is_empty(), "a closed gate forwards no DoA");

    let mut loud = FakeBus::constant(Some(LOUD), Some(AZ));
    h.restart();
    h.poll_tick(&mut loud);
    h.poll_tick(&mut loud); // open (tick 1: no DoA)
    let _ = h.drain();
    h.poll_tick(&mut loud); // tick 2: DoA read + forwarded
    let msgs = h.drain();
    assert_eq!(
        kinds(&msgs),
        vec![(Reading::SpEnergy, LOUD), (Reading::Azimuths, AZ)],
        "SPENERGY then DoA, in poll order"
    );
    assert!(telemetry(&msgs).iter().all(|t| t.device_ts_us == h.now_us));
}

/// A disconnected channel is survivable: the ticks go on, and an undeliverable
/// `VadOpened` re-closes the segment exactly as a full channel does.
#[test]
fn a_disconnected_channel_does_not_stop_the_gate() {
    let mut h = Harness::new();
    h.connected = false;
    let mut bus = FakeBus::constant(Some(LOUD), Some(AZ));
    h.poll_tick(&mut bus);
    assert_eq!(h.poll_tick(&mut bus), Some(VadTransition::Opened));
    assert!(!h.core.segment_open());
    assert_eq!(h.core.telemetry_drops(), 1);
    assert_eq!(
        h.poll_tick(&mut bus),
        Some(VadTransition::Unchanged),
        "the FSM keeps ticking with no receiver"
    );
    assert_eq!(
        h.core.telemetry_drops(),
        1,
        "a closed gate offers nothing, so nothing more is charged"
    );
}

/// A receiver that goes away after the segment opened is not charged as a drop.
#[test]
fn a_receiver_lost_mid_segment_is_logged_without_charging_a_drop() {
    let mut h = Harness::new();
    let mut bus = FakeBus::constant(Some(LOUD), Some(AZ));
    h.poll_tick(&mut bus);
    h.poll_tick(&mut bus); // open, delivered
    assert!(h.core.segment_open());
    let before = h.core.telemetry_drops();
    h.connected = false;
    h.poll_tick(&mut bus);
    assert!(
        h.core.segment_open(),
        "an undeliverable telemetry frame does not close the segment"
    );
    assert_eq!(
        h.core.telemetry_drops(),
        before,
        "a disconnected receiver is not charged to the drop counter"
    );
}

/// While capture is quiesced no onset can fire, but an already-open gate still releases.
#[test]
fn quiesced_capture_suppresses_onset_but_not_release() {
    let mut h = Harness::new();
    h.quiesced = true;
    let mut bus = FakeBus::constant(Some(LOUD), Some(AZ));
    for _ in 0..8 {
        assert_eq!(h.poll_tick(&mut bus), Some(VadTransition::Unchanged));
    }
    assert!(!h.core.segment_open());
    assert!(h.drain().is_empty(), "a quiesced gate emits nothing");

    h.restart();
    h.quiesced = false;
    h.poll_tick(&mut bus);
    h.poll_tick(&mut bus);
    assert!(h.core.segment_open());
    h.quiesced = true;
    let _ = h.drain();
    assert_eq!(h.poll_tick(&mut bus), Some(VadTransition::Unchanged));
    assert_eq!(
        h.poll_tick(&mut bus),
        Some(VadTransition::Closed),
        "a quiesced open gate must still release through the hangover"
    );
    assert_eq!(closes(&h.drain()), 1);
}
