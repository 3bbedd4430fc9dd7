//! The telemetry tick: one poll of the chip's control plane, start to finish.
//!
//! The pod gates its outbound audio on the chip's own speech-energy reading and
//! forwards that reading and the direction of arrival while a segment is open.
//! [`TelemetryCore`] decides; each turn names one [`TickAction`], and whoever
//! drives the tick hands back the [`TickEvent`] that came of it.

use vstd::prelude::*;

use crate::streamer::segment::StreamerMsg;

verus! {

/// Speech-energy polling rate in hertz.
pub const VAD_POLL_HZ: u32 = 20;

/// Direction-of-arrival polling rate in hertz.
pub const DOA_POLL_HZ: u32 = 10;

/// Sleep between two ticks, in milliseconds.
pub const VAD_POLL_INTERVAL_MS: u32 = 50;

/// Ticks from one direction-of-arrival read to the next.
pub const DOA_EVERY_N_TICKS: u32 = 2;

/// Bytes of a reading, without its status byte: four single-precision numbers.
pub const READING_LEN: usize = 16;

/// One of the two four-value readings the telemetry loop takes.
#[derive(Debug, Clone, Copy, PartialEq, Eq, Structural)]
pub enum Reading {
    /// Speech energy per beam, the voice gate's input.
    SpEnergy,
    /// Direction of arrival per beam.
    Azimuths,
}

impl Reading {
    /// The reading's stable log token.
    pub fn label(self) -> (r: &'static str)
        ensures
            r@ == match self {
                Reading::SpEnergy => "SPENERGY"@,
                Reading::Azimuths => "DoA"@,
            },
    {
        match self {
            Reading::SpEnergy => "SPENERGY",
            Reading::Azimuths => "DoA",
        }
    }

    /// Payload length in bytes, excluding the status byte.
    pub fn read_len(self) -> (r: usize)
        ensures
            r == 16,
    {
        READING_LEN
    }

    /// Wraps the values of a reading, as bit patterns, in a telemetry frame.
    pub fn kind(self, device_ts_us: u64, bits: [u32; 4]) -> (r: Telemetry)
        ensures
            r == (Telemetry { device_ts_us, reading: self, bits }),
    {
        Telemetry { device_ts_us, reading: self, bits }
    }
}

/// A telemetry frame. The four values travel as the bit patterns of the
/// single-precision numbers the chip reported.
#[derive(Debug, Clone, Copy, PartialEq, Eq)]
pub struct Telemetry {
    /// When the reading was taken.
    pub device_ts_us: u64,
    /// Which reading it is.
    pub reading: Reading,
    /// Bit patterns of its four values.
    pub bits: [u32; 4],
}

/// The little-endian word at `at`.
pub open spec fn word_at(bytes: Seq<u8>, at: int) -> int {
    bytes[at] + bytes[at + 1] * 0x100 + bytes[at + 2] * 0x1_0000 + bytes[at + 3] * 0x100_0000
}

/// The little-endian word at `at`.
fn word(bytes: &[u8; 16], at: usize) -> (r: u32)
    requires
        at + 4 <= 16,
    ensures
        r == word_at(bytes@, at as int),
{
    let b0: u64 = bytes[at] as u64;
    let b1: u64 = bytes[at + 1] as u64;
    let b2: u64 = bytes[at + 2] as u64;
    let b3: u64 = bytes[at + 3] as u64;
    (b0 + b1 * 0x100 + b2 * 0x1_0000 + b3 * 0x100_0000) as u32
}

/// What a control-plane read came to.
#[derive(Debug, Clone, Copy)]
pub enum ControlAnswer {
    /// The chip answered with this status and payload.
    Answered {
        /// The chip's status.
        status: u8,
        /// What it sent.
        payload: [u8; 16],
    },
    /// The transport failed.
    Failed,
}

/// The four values of a reading that was answered with the status `done`. Any
/// other status, or a transport that failed, yields no reading: one is never
/// made up.
pub fn read_f32x4_reading(answer: ControlAnswer, done: u8) -> (r: Option<[u32; 4]>)
    ensures
        r is Some <==> (answer matches ControlAnswer::Answered { status, .. } && status == done),
        r matches Some(bits) ==> answer matches ControlAnswer::Answered { payload, .. } && forall|
            i: int,
        |
            0 <= i < 4 ==> #[trigger] bits@[i] == word_at(payload@, 4 * i),
{
    match answer {
        ControlAnswer::Answered { status, payload } => {
            if status == done {
                let bits: [u32; 4] = [
                    word(&payload, 0),
                    word(&payload, 4),
                    word(&payload, 8),
                    word(&payload, 12),
                ];
                Some(bits)
            } else {
                None
            }
        },
        ControlAnswer::Failed => None,
    }
}

/// What the voice gate made of one energy sample.
#[derive(Debug, Clone, Copy, PartialEq, Eq, Structural)]
pub enum VadTransition {
    /// The voice gate opened.
    Opened,
    /// The voice gate closed.
    Closed,
    /// The voice gate stayed as it was.
    Unchanged,
}

/// What to feed the voice gate.
#[derive(Debug, Clone, Copy)]
pub enum GateInput {
    /// An energy below every threshold.
    Silence,
    /// The largest of these four energies.
    LoudestOf([u32; 4]),
}

/// What offering a message to the streamer came to.
#[derive(Debug, Clone, Copy, PartialEq, Eq, Structural)]
pub enum Offered {
    /// The channel took it.
    Taken,
    /// The channel was full.
    Full,
    /// The receiver is gone.
    Disconnected,
}

/// What came of an action.
#[derive(Debug, Clone, Copy)]
pub enum TickEvent {
    /// Answers [`TickAction::Read`].
    Values {
        /// The reading, where one could be taken.
        bits: Option<[u32; 4]>,
        /// The clock right after it.
        now_us: u64,
    },
    /// Answers [`TickAction::AskQuiesced`].
    Quiesced(bool),
    /// Answers [`TickAction::FeedGate`].
    Gate(VadTransition),
    /// Answers [`TickAction::ReadWriteHead`].
    WriteHead(u64),
    /// Answers [`TickAction::Offer`].
    Offered(Offered),
}

/// What to do next.
#[derive(Debug, Clone, Copy)]
pub enum TickAction {
    /// Take a reading, then read the clock.
    Read(Reading),
    /// Ask whether capture is quiesced.
    AskQuiesced,
    /// Feed the voice gate one sample.
    FeedGate(GateInput),
    /// Read the capture ring's write head.
    ReadWriteHead,
    /// Set the lossless flag that says the voice gate closed, where one is named, and
    /// then offer the message to the streamer without waiting.
    Offer {
        /// What to set the flag to first.
        flag: Option<bool>,
        /// The message.
        msg: StreamerMsg,
    },
    /// The tick is over.
    Done(Option<VadTransition>),
}

/// What the tick is waiting to hear.
#[derive(Debug, Clone, Copy)]
pub enum TickPhase {
    /// Nothing: no tick is under way.
    Rest,
    /// The speech energy.
    Energy,
    /// Whether capture is quiesced.
    Quiesced(Telemetry),
    /// The voice gate.
    Gate(Telemetry),
    /// The write head.
    WriteHead(Telemetry),
    /// The offer of the onset.
    OpenOffered(Telemetry),
    /// The offer of the close.
    CloseOffered(Telemetry),
    /// The offer of the speech energy.
    EnergyOffered(VadTransition),
    /// The direction of arrival.
    Direction(Option<VadTransition>),
    /// The offer of the direction of arrival.
    DirectionOffered(Option<VadTransition>),
}

/// The bookkeeping around the voice gate, driven one tick at a time.
#[derive(Debug, Clone, Copy)]
pub struct TelemetryCore {
    /// Telemetry is being forwarded.
    pub segment_open: bool,
    /// Messages dropped on a full channel.
    pub telemetry_drops: u32,
    /// Ticks begun, modulo the width of the counter.
    pub tick: u32,
    /// What the tick is waiting to hear.
    pub phase: TickPhase,
}

/// The drop counter after one more drop.
pub open spec fn one_more_drop(drops: u32) -> u32 {
    if drops == u32::MAX {
        drops
    } else {
        (drops + 1) as u32
    }
}

/// A turn that only moves to `phase`.
pub open spec fn ask(s: TelemetryCore, phase: TickPhase, action: TickAction) -> (
    TelemetryCore,
    TickAction,
) {
    (TelemetryCore { phase, ..s }, action)
}

/// The tick is over.
pub open spec fn done(s: TelemetryCore, transition: Option<VadTransition>) -> (
    TelemetryCore,
    TickAction,
) {
    let tick = if s.tick == u32::MAX {
        0
    } else {
        (s.tick + 1) as u32
    };
    ask(TelemetryCore { tick, ..s }, TickPhase::Rest, TickAction::Done(transition))
}

/// The direction of arrival is read on every second tick, whatever the voice gate does,
/// so that the chip sees one cadence.
pub open spec fn direction(s: TelemetryCore, transition: Option<VadTransition>) -> (
    TelemetryCore,
    TickAction,
) {
    if s.tick % 2 == 0 {
        ask(s, TickPhase::Direction(transition), TickAction::Read(Reading::Azimuths))
    } else {
        done(s, transition)
    }
}

/// The speech energy goes out while a segment is open.
pub open spec fn forward_energy(
    s: TelemetryCore,
    energy: Telemetry,
    transition: VadTransition,
) -> (TelemetryCore, TickAction) {
    if s.segment_open {
        ask(
            s,
            TickPhase::EnergyOffered(transition),
            TickAction::Offer { flag: None, msg: StreamerMsg::Telemetry(energy) },
        )
    } else {
        direction(s, Some(transition))
    }
}

/// A reading that was offered. Only a full channel is charged: a dead receiver is
/// not a drop, and its offers stop with the segment.
pub open spec fn offered_reading(s: TelemetryCore, got: Offered) -> TelemetryCore {
    if got == Offered::Full {
        TelemetryCore { telemetry_drops: one_more_drop(s.telemetry_drops), ..s }
    } else {
        s
    }
}

/// The onset or the close was offered; any refusal is charged.
pub open spec fn offered_edge(s: TelemetryCore, got: Offered, open: bool) -> TelemetryCore {
    TelemetryCore {
        segment_open: open && got == Offered::Taken,
        telemetry_drops: if got == Offered::Taken {
            s.telemetry_drops
        } else {
            one_more_drop(s.telemetry_drops)
        },
        ..s
    }
}

/// The voice gate answered. An onset is published with the write head; a close
/// sets the flag first, so that it is seen even where its message is dropped.
pub open spec fn on_gate(s: TelemetryCore, energy: Telemetry, transition: VadTransition) -> (
    TelemetryCore,
    TickAction,
) {
    match transition {
        VadTransition::Opened => ask(s, TickPhase::WriteHead(energy), TickAction::ReadWriteHead),
        VadTransition::Closed => ask(
            TelemetryCore { segment_open: false, ..s },
            TickPhase::CloseOffered(energy),
            TickAction::Offer { flag: Some(true), msg: StreamerMsg::VadClosed },
        ),
        VadTransition::Unchanged => forward_energy(s, energy, transition),
    }
}

/// One turn of a tick: what `event` makes of state `s`.
pub open spec fn tick_step(s: TelemetryCore, event: TickEvent) -> (TelemetryCore, TickAction) {
    match (s.phase, event) {
        (TickPhase::Energy, TickEvent::Values { bits, now_us }) => match bits {
            Some(bits) => ask(
                s,
                TickPhase::Quiesced(
                    Telemetry { device_ts_us: now_us, reading: Reading::SpEnergy, bits },
                ),
                TickAction::AskQuiesced,
            ),
            None => direction(s, None),
        },
        (TickPhase::Quiesced(energy), TickEvent::Quiesced(quiet)) => ask(
            s,
            TickPhase::Gate(energy),
            TickAction::FeedGate(
                if quiet {
                    GateInput::Silence
                } else {
                    GateInput::LoudestOf(energy.bits)
                },
            ),
        ),
        (TickPhase::Gate(energy), TickEvent::Gate(transition)) => on_gate(s, energy, transition),
        (TickPhase::WriteHead(energy), TickEvent::WriteHead(write_head)) => ask(
            TelemetryCore { segment_open: true, ..s },
            TickPhase::OpenOffered(energy),
            TickAction::Offer { flag: Some(false), msg: StreamerMsg::VadOpened { write_head } },
        ),
        (TickPhase::OpenOffered(energy), TickEvent::Offered(got)) => forward_energy(
            offered_edge(s, got, true),
            energy,
            VadTransition::Opened,
        ),
        (TickPhase::CloseOffered(energy), TickEvent::Offered(got)) => forward_energy(
            offered_edge(s, got, false),
            energy,
            VadTransition::Closed,
        ),
        (TickPhase::EnergyOffered(transition), TickEvent::Offered(got)) => direction(
            offered_reading(s, got),
            Some(transition),
        ),
        (TickPhase::Direction(transition), TickEvent::Values { bits, now_us }) => match bits {
            Some(bits) if s.segment_open => ask(
                s,
                TickPhase::DirectionOffered(transition),
                TickAction::Offer {
                    flag: None,
                    msg: StreamerMsg::Telemetry(
                        Telemetry { device_ts_us: now_us, reading: Reading::Azimuths, bits },
                    ),
                },
            ),
            _ => done(s, transition),
        },
        (TickPhase::DirectionOffered(transition), TickEvent::Offered(got)) => done(
            offered_reading(s, got),
            transition,
        ),
        _ => (s, TickAction::Done(None)),
    }
}

/// The event answers what the tick asked.
pub open spec fn answers(s: TelemetryCore, event: TickEvent) -> bool {
    match (s.phase, event) {
        (TickPhase::Energy, TickEvent::Values { .. }) => true,
        (TickPhase::Quiesced(_), TickEvent::Quiesced(_)) => true,
        (TickPhase::Gate(_), TickEvent::Gate(_)) => true,
        (TickPhase::WriteHead(_), TickEvent::WriteHead(_)) => true,
        (TickPhase::OpenOffered(_), TickEvent::Offered(_)) => true,
        (TickPhase::CloseOffered(_), TickEvent::Offered(_)) => true,
        (TickPhase::EnergyOffered(_), TickEvent::Offered(_)) => true,
        (TickPhase::Direction(_), TickEvent::Values { .. }) => true,
        (TickPhase::DirectionOffered(_), TickEvent::Offered(_)) => true,
        _ => false,
    }
}

impl TelemetryCore {
    /// No segment is open and no tick has run.
    pub fn new() -> (r: TelemetryCore)
        ensures
            r == (TelemetryCore {
                segment_open: false,
                telemetry_drops: 0,
                tick: 0,
                phase: TickPhase::Rest,
            }),
    {
        TelemetryCore { segment_open: false, telemetry_drops: 0, tick: 0, phase: TickPhase::Rest }
    }

    /// Whether a segment is open, that is, whether telemetry is being forwarded.
    pub fn segment_open(&self) -> (r: bool)
        ensures
            r == self.segment_open,
    {
        self.segment_open
    }

    /// Messages dropped on a full channel so far.
    pub fn telemetry_drops(&self) -> (r: u32)
        ensures
            r == self.telemetry_drops,
    {
        self.telemetry_drops
    }

    /// Begins a tick.
    pub fn poll_tick(&mut self) -> (a: TickAction)
        requires
            old(self).phase is Rest,
        ensures
            (*final(self), a) == ask(
                *old(self),
                TickPhase::Energy,
                TickAction::Read(Reading::SpEnergy),
            ),
            final(self).phase is Energy,
            a == TickAction::Read(Reading::SpEnergy),
            final(self).segment_open == old(self).segment_open,
            final(self).telemetry_drops == old(self).telemetry_drops,
            final(self).tick == old(self).tick,
    {
        self.phase = TickPhase::Energy;
        TickAction::Read(Reading::SpEnergy)
    }

    fn ask(&mut self, phase: TickPhase, action: TickAction) -> (a: TickAction)
        ensures
            (*final(self), a) == ask(*old(self), phase, action),
    {
        self.phase = phase;
        action
    }

    fn done(&mut self, transition: Option<VadTransition>) -> (a: TickAction)
        ensures
            (*final(self), a) == done(*old(self), transition),
    {
        self.tick = self.tick.wrapping_add(1);
        self.ask(TickPhase::Rest, TickAction::Done(transition))
    }

    fn direction(&mut self, transition: Option<VadTransition>) -> (a: TickAction)
        ensures
            (*final(self), a) == direction(*old(self), transition),
    {
        if self.tick % DOA_EVERY_N_TICKS == 0 {
            self.ask(TickPhase::Direction(transition), TickAction::Read(Reading::Azimuths))
        } else {
            self.done(transition)
        }
    }

    fn forward_energy(&mut self, energy: Telemetry, transition: VadTransition) -> (a: TickAction)
        ensures
            (*final(self), a) == forward_energy(*old(self), energy, transition),
    {
        if self.segment_open {
            self.ask(
                TickPhase::EnergyOffered(transition),
                TickAction::Offer { flag: None, msg: StreamerMsg::Telemetry(energy) },
            )
        } else {
            self.direction(Some(transition))
        }
    }

    fn forward(&mut self, got: Offered)
        ensures
            *final(self) == offered_reading(*old(self), got),
    {
        if got == Offered::Full {
            self.telemetry_drops = self.telemetry_drops.saturating_add(1);
        }
    }

    fn note_vad_opened(&mut self, got: Offered)
        ensures
            *final(self) == offered_edge(*old(self), got, true),
    {
        self.segment_open = true;
        if got != Offered::Taken {
            self.telemetry_drops = self.telemetry_drops.saturating_add(1);
            self.segment_open = false;
        }
    }

    fn note_vad_closed(&mut self, got: Offered)
        ensures
            *final(self) == offered_edge(*old(self), got, false),
    {
        self.segment_open = false;
        if got != Offered::Taken {
            self.telemetry_drops = self.telemetry_drops.saturating_add(1);
        }
    }

    fn on_gate(&mut self, energy: Telemetry, transition: VadTransition) -> (a: TickAction)
        ensures
            (*final(self), a) == on_gate(*old(self), energy, transition),
    {
        match transition {
            VadTransition::Opened => {
                self.ask(TickPhase::WriteHead(energy), TickAction::ReadWriteHead)
            },
            VadTransition::Closed => {
                self.segment_open = false;
                self.ask(
                    TickPhase::CloseOffered(energy),
                    TickAction::Offer { flag: Some(true), msg: StreamerMsg::VadClosed },
                )
            },
            VadTransition::Unchanged => self.forward_energy(energy, transition),
        }
    }

    /// Whether `event` answers what this tick asked.
    pub fn accepts(&self, event: &TickEvent) -> (r: bool)
        ensures
            r == answers(*self, *event),
    {
        match (self.phase, event) {
            (TickPhase::Energy, TickEvent::Values { .. }) => true,
            (TickPhase::Quiesced(_), TickEvent::Quiesced(_)) => true,
            (TickPhase::Gate(_), TickEvent::Gate(_)) => true,
            (TickPhase::WriteHead(_), TickEvent::WriteHead(_)) => true,
            (TickPhase::OpenOffered(_), TickEvent::Offered(_)) => true,
            (TickPhase::CloseOffered(_), TickEvent::Offered(_)) => true,
            (TickPhase::EnergyOffered(_), TickEvent::Offered(_)) => true,
            (TickPhase::Direction(_), TickEvent::Values { .. }) => true,
            (TickPhase::DirectionOffered(_), TickEvent::Offered(_)) => true,
            _ => false,
        }
    }

    /// One turn: takes what came of the last action and names the next.
    pub fn step(&mut self, event: TickEvent) -> (a: TickAction)
        requires
            answers(*old(self), event),
        ensures
            (*final(self), a) == tick_step(*old(self), event),
    {
        match (self.phase, event) {
            (TickPhase::Energy, TickEvent::Values { bits, now_us }) => match bits {
                Some(bits) => self.ask(
                    TickPhase::Quiesced(Reading::SpEnergy.kind(now_us, bits)),
                    TickAction::AskQuiesced,
                ),
                None => self.direction(None),
            },
            (TickPhase::Quiesced(energy), TickEvent::Quiesced(quiet)) => {
                let input = if quiet {
                    GateInput::Silence
                } else {
                    GateInput::LoudestOf(energy.bits)
                };
                self.ask(TickPhase::Gate(energy), TickAction::FeedGate(input))
            },
            (TickPhase::Gate(energy), TickEvent::Gate(transition)) => {
                self.on_gate(energy, transition)
            },
            (TickPhase::WriteHead(energy), TickEvent::WriteHead(write_head)) => {
                self.segment_open = true;
                self.ask(
                    TickPhase::OpenOffered(energy),
                    TickAction::Offer {
                        flag: Some(false),
                        msg: StreamerMsg::VadOpened { write_head },
                    },
                )
            },
            (TickPhase::OpenOffered(energy), TickEvent::Offered(got)) => {
                self.note_vad_opened(got);
                self.forward_energy(energy, VadTransition::Opened)
            },
            (TickPhase::CloseOffered(energy), TickEvent::Offered(got)) => {
                self.note_vad_closed(got);
                self.forward_energy(energy, VadTransition::Closed)
            },
            (TickPhase::EnergyOffered(transition), TickEvent::Offered(got)) => {
                self.forward(got);
                self.direction(Some(transition))
            },
            (TickPhase::Direction(transition), TickEvent::Values { bits, now_us }) => {
                match bits {
                    Some(bits) if self.segment_open => self.ask(
                        TickPhase::DirectionOffered(transition),
                        TickAction::Offer {
                            flag: None,
                            msg: StreamerMsg::Telemetry(Reading::Azimuths.kind(now_us, bits)),
                        },
                    ),
                    _ => self.done(transition),
                }
            },
            (TickPhase::DirectionOffered(transition), TickEvent::Offered(got)) => {
                self.forward(got);
                self.done(transition)
            },
            _ => TickAction::Done(None),
        }
    }
}

/// A tick whose speech-energy reading failed never feeds the voice gate: a missing
/// reading is not silence.
pub proof fn a_failed_reading_leaves_the_gate_alone(s: TelemetryCore, now_us: u64)
    requires
        s.phase is Energy,
    ensures
        ({
            let (n, action) = tick_step(s, TickEvent::Values { bits: None, now_us });
            &&& n.segment_open == s.segment_open
            &&& n.telemetry_drops == s.telemetry_drops
            &&& s.tick % 2 == 0 ==> action == TickAction::Read(Reading::Azimuths)
            &&& s.tick % 2 == 1 ==> action == TickAction::Done(None)
        }),
{
}

/// Telemetry is offered only while a segment is open.
pub proof fn telemetry_flows_only_inside_a_segment(s: TelemetryCore, event: TickEvent)
    requires
        answers(s, event),
    ensures
        tick_step(s, event).1 matches TickAction::Offer { msg: StreamerMsg::Telemetry(_), .. }
            ==> tick_step(s, event).0.segment_open,
{
}

/// The voice gate is fed silence exactly while capture is quiesced, so no onset can
/// fire then and an open gate still runs out its hangover.
pub proof fn a_quiesced_gate_hears_silence(s: TelemetryCore, quiet: bool)
    requires
        s.phase is Quiesced,
    ensures
        tick_step(s, TickEvent::Quiesced(quiet)).1 matches TickAction::FeedGate(input) && (quiet
            <==> input is Silence),
{
}

/// An onset that cannot be delivered opens nothing: no telemetry follows it, and
/// it is charged once.
pub proof fn a_dropped_onset_opens_nothing(s: TelemetryCore, got: Offered)
    requires
        s.phase is OpenOffered,
        got != Offered::Taken,
    ensures
        ({
            let (n, action) = tick_step(s, TickEvent::Offered(got));
            &&& !n.segment_open
            &&& n.telemetry_drops == one_more_drop(s.telemetry_drops)
            &&& !(action is Offer)
        }),
{
}

/// A close always sets the flag before its message is offered, and ends the
/// forwarding whether or not the message arrives.
pub proof fn a_close_is_never_lost(s: TelemetryCore, got: Offered)
    ensures
        s.phase is Gate ==> {
            let (n, action) = tick_step(s, TickEvent::Gate(VadTransition::Closed));
            &&& !n.segment_open
            &&& action == TickAction::Offer { flag: Some(true), msg: StreamerMsg::VadClosed }
        },
        s.phase is CloseOffered ==> !tick_step(s, TickEvent::Offered(got)).0.segment_open,
{
}

/// The counter of drops moves only with a refused offer, and never on the dead
/// receiver of a reading.
pub proof fn only_refused_offers_are_charged(s: TelemetryCore, event: TickEvent)
    requires
        answers(s, event),
    ensures
        tick_step(s, event).0.telemetry_drops != s.telemetry_drops ==> {
            &&& tick_step(s, event).0.telemetry_drops == one_more_drop(s.telemetry_drops)
            &&& event == TickEvent::Offered(Offered::Full) || event == TickEvent::Offered(
                Offered::Disconnected,
            )
            &&& event == TickEvent::Offered(Offered::Disconnected) ==> s.phase is OpenOffered
                || s.phase is CloseOffered
        },
{
}

/// Turns a tick can still take.
pub open spec fn turns_left(phase: TickPhase) -> nat {
    match phase {
        TickPhase::Energy => 8,
        TickPhase::Quiesced(_) => 7,
        TickPhase::Gate(_) => 6,
        TickPhase::WriteHead(_) => 5,
        TickPhase::OpenOffered(_) => 4,
        TickPhase::CloseOffered(_) => 4,
        TickPhase::EnergyOffered(_) => 3,
        TickPhase::Direction(_) => 2,
        TickPhase::DirectionOffered(_) => 1,
        TickPhase::Rest => 0,
    }
}

/// Every turn brings a tick nearer to its end.
pub proof fn every_tick_ends(s: TelemetryCore, event: TickEvent)
    requires
        answers(s, event),
    ensures
        turns_left(tick_step(s, event).0.phase) < turns_left(s.phase),
{
}

/// A tick is counted once, when it ends, and the direction of arrival is read on
/// every second one whatever else happened.
pub proof fn a_tick_counts_once(s: TelemetryCore, event: TickEvent)
    requires
        answers(s, event),
    ensures
        ({
            let (n, action) = tick_step(s, event);
            &&& action is Done <==> n.phase is Rest
            &&& action is Done ==> n.tick == if s.tick == u32::MAX {
                0
            } else {
                (s.tick + 1) as u32
            }
            &&& !(action is Done) ==> n.tick == s.tick
            &&& action == TickAction::Read(Reading::Azimuths) ==> s.tick % 2 == 0
            &&& action is Done && s.tick % 2 == 0 ==> s.phase is Direction
                || s.phase is DirectionOffered
        }),
{
}

/// A word is its four bytes, the lowest first: each of them can be read back.
pub proof fn a_word_is_its_four_bytes(bytes: Seq<u8>, at: int)
    ensures
        word_at(bytes, at) % 0x100 == bytes[at],
        word_at(bytes, at) / 0x100 % 0x100 == bytes[at + 1],
        word_at(bytes, at) / 0x1_0000 % 0x100 == bytes[at + 2],
        word_at(bytes, at) / 0x100_0000 == bytes[at + 3],
{
}

/// While capture is not quiesced the voice gate is fed the four energies of the reading
/// just taken, each in its place; while it is, none of them.
pub proof fn the_gate_hears_every_beam(
    s: TelemetryCore,
    bits: [u32; 4],
    now_us: u64,
    quiet: bool,
)
    requires
        s.phase is Energy,
    ensures
        ({
            let (taken, asked) = tick_step(s, TickEvent::Values { bits: Some(bits), now_us });
            let (_, fed) = tick_step(taken, TickEvent::Quiesced(quiet));
            &&& asked == TickAction::AskQuiesced
            &&& fed matches TickAction::FeedGate(input)
            &&& !quiet ==> input is LoudestOf && forall|beam: int|
                0 <= beam < 4 ==> #[trigger] input->LoudestOf_0@[beam] == bits@[beam]
            &&& quiet ==> input == GateInput::Silence
        }),
{
}

/// A tick up to the voice gate's answer: a reading is taken, capture is asked about and
/// the voice gate is fed.
pub open spec fn up_to_the_gate(
    s: TelemetryCore,
    bits: [u32; 4],
    now_us: u64,
    quiet: bool,
    transition: VadTransition,
) -> (TelemetryCore, TickAction) {
    let (read, _) = tick_step(s, TickEvent::Values { bits: Some(bits), now_us });
    let (fed, _) = tick_step(read, TickEvent::Quiesced(quiet));
    tick_step(fed, TickEvent::Gate(transition))
}

/// What was read is what is forwarded: inside a segment whose gate stays as it is, the
/// tick offers the energies of its own reading, dated by the clock read right after it.
pub proof fn the_energy_read_is_the_energy_forwarded(
    s: TelemetryCore,
    bits: [u32; 4],
    now_us: u64,
    quiet: bool,
)
    requires
        s.phase is Energy,
    ensures
        ({
            let (n, action) = up_to_the_gate(s, bits, now_us, quiet, VadTransition::Unchanged);
            &&& n.segment_open == s.segment_open
            &&& n.telemetry_drops == s.telemetry_drops
            &&& s.segment_open ==> action == (TickAction::Offer {
                flag: None,
                msg: StreamerMsg::Telemetry(
                    Telemetry { device_ts_us: now_us, reading: Reading::SpEnergy, bits },
                ),
            })
            &&& !s.segment_open && s.tick % 2 == 0 ==> action == TickAction::Read(
                Reading::Azimuths,
            )
            &&& !s.segment_open && s.tick % 2 == 1 ==> action == TickAction::Done(
                Some(VadTransition::Unchanged),
            )
        }),
{
}

/// An onset is published with the write head as it stands, the closed flag lowered
/// first. Where the streamer takes it the segment is open, and the energies that opened
/// it are the first telemetry in it.
pub proof fn an_onset_is_published_with_its_write_head(
    s: TelemetryCore,
    bits: [u32; 4],
    now_us: u64,
    quiet: bool,
    write_head: u64,
)
    requires
        s.phase is Energy,
    ensures
        ({
            let (asked, action) = up_to_the_gate(s, bits, now_us, quiet, VadTransition::Opened);
            let (offered, offer) = tick_step(asked, TickEvent::WriteHead(write_head));
            let (open, first) = tick_step(offered, TickEvent::Offered(Offered::Taken));
            &&& action == TickAction::ReadWriteHead
            &&& offer == (TickAction::Offer {
                flag: Some(false),
                msg: StreamerMsg::VadOpened { write_head },
            })
            &&& open.segment_open
            &&& open.telemetry_drops == s.telemetry_drops
            &&& first == (TickAction::Offer {
                flag: None,
                msg: StreamerMsg::Telemetry(
                    Telemetry { device_ts_us: now_us, reading: Reading::SpEnergy, bits },
                ),
            })
        }),
{
}

/// A close raises the flag and offers its message, whatever the segment was, and the
/// energies that closed it are not forwarded.
pub proof fn a_close_forwards_nothing_more(
    s: TelemetryCore,
    bits: [u32; 4],
    now_us: u64,
    quiet: bool,
    got: Offered,
)
    requires
        s.phase is Energy,
    ensures
        ({
            let (offered, offer) = up_to_the_gate(s, bits, now_us, quiet, VadTransition::Closed);
            let (closed, next) = tick_step(offered, TickEvent::Offered(got));
            &&& offer == (TickAction::Offer { flag: Some(true), msg: StreamerMsg::VadClosed })
            &&& !offered.segment_open
            &&& !closed.segment_open
            &&& s.tick % 2 == 0 ==> next == TickAction::Read(Reading::Azimuths)
            &&& s.tick % 2 == 1 ==> next == TickAction::Done(Some(VadTransition::Closed))
        }),
{
}

/// The direction of arrival is forwarded inside a segment and nowhere else: the values
/// of the reading just taken, dated by the clock read right after it.
pub proof fn the_direction_read_is_the_direction_forwarded(
    s: TelemetryCore,
    bits: Option<[u32; 4]>,
    now_us: u64,
)
    requires
        s.phase is Direction,
    ensures
        ({
            let (n, action) = tick_step(s, TickEvent::Values { bits, now_us });
            &&& n.segment_open == s.segment_open
            &&& n.telemetry_drops == s.telemetry_drops
            &&& bits is Some && s.segment_open ==> action == (TickAction::Offer {
                flag: None,
                msg: StreamerMsg::Telemetry(
                    Telemetry { device_ts_us: now_us, reading: Reading::Azimuths, bits: bits->0 },
                ),
            })
            &&& bits is None || !s.segment_open ==> s.phase == TickPhase::Direction(
                action->Done_0,
            ) && action is Done
        }),
{
}

/// Behind the offer of its energies a tick reads the direction of arrival where it is
/// due and ends where it is not; behind that of a direction it ends. What it reports is
/// what the voice gate said.
pub proof fn a_tick_goes_on_behind_its_offers(s: TelemetryCore, got: Offered)
    ensures
        s.phase matches TickPhase::EnergyOffered(transition) ==> {
            let (n, action) = tick_step(s, TickEvent::Offered(got));
            &&& s.tick % 2 == 0 ==> action == TickAction::Read(Reading::Azimuths) && n.phase
                == TickPhase::Direction(Some(transition))
            &&& s.tick % 2 == 1 ==> action == TickAction::Done(Some(transition))
        },
        s.phase matches TickPhase::DirectionOffered(transition) ==> tick_step(
            s,
            TickEvent::Offered(got),
        ).1 == TickAction::Done(transition),
        s.phase is CloseOffered && s.tick % 2 == 0 ==> tick_step(
            s,
            TickEvent::Offered(got),
        ).0.phase == TickPhase::Direction(Some(VadTransition::Closed)),
        s.phase is OpenOffered && got != Offered::Taken ==> {
            let (n, action) = tick_step(s, TickEvent::Offered(got));
            &&& s.tick % 2 == 0 ==> action == TickAction::Read(Reading::Azimuths) && n.phase
                == TickPhase::Direction(Some(VadTransition::Opened))
            &&& s.tick % 2 == 1 ==> action == TickAction::Done(Some(VadTransition::Opened))
        },
{
}

/// What a reading is offered for stays with the offer: the tick remembers what the voice
/// gate said until it ends, and that nothing was said where no energies were read.
pub proof fn a_tick_remembers_what_the_gate_said(
    s: TelemetryCore,
    bits: [u32; 4],
    now_us: u64,
    quiet: bool,
    write_head: u64,
)
    requires
        s.phase is Energy,
    ensures
        ({
            let (n, _) = up_to_the_gate(s, bits, now_us, quiet, VadTransition::Unchanged);
            &&& s.segment_open ==> n.phase == TickPhase::EnergyOffered(VadTransition::Unchanged)
            &&& !s.segment_open && s.tick % 2 == 0 ==> n.phase == TickPhase::Direction(
                Some(VadTransition::Unchanged),
            )
        }),
        ({
            let (n, _) = tick_step(s, TickEvent::Values { bits: None, now_us });
            s.tick % 2 == 0 ==> n.phase == TickPhase::Direction(None)
        }),
        ({
            let (asked, _) = up_to_the_gate(s, bits, now_us, quiet, VadTransition::Opened);
            let (offered, _) = tick_step(asked, TickEvent::WriteHead(write_head));
            let (open, _) = tick_step(offered, TickEvent::Offered(Offered::Taken));
            open.phase == TickPhase::EnergyOffered(VadTransition::Opened)
        }),
{
}

/// Every drop is counted exactly once: a full channel always, a gone receiver only where
/// it costs an onset or a close, and nothing that was taken. The count stops at its end
/// rather than wrap.
pub proof fn every_drop_is_counted_once(s: TelemetryCore, event: TickEvent)
    requires
        answers(s, event),
    ensures
        ({
            let (n, _) = tick_step(s, event);
            let dropped = event == TickEvent::Offered(Offered::Full) || (event
                == TickEvent::Offered(Offered::Disconnected) && (s.phase is OpenOffered
                || s.phase is CloseOffered));
            &&& dropped && s.telemetry_drops < u32::MAX ==> n.telemetry_drops
                == s.telemetry_drops + 1
            &&& dropped && s.telemetry_drops == u32::MAX ==> n.telemetry_drops == u32::MAX
            &&& !dropped ==> n.telemetry_drops == s.telemetry_drops
        }),
{
}

/// Only the voice gate opens and closes a segment: nothing but its onset, on its way to
/// the streamer, opens one, and nothing but its close or a refused onset ends one.
pub proof fn only_the_gate_opens_and_closes(s: TelemetryCore, event: TickEvent)
    requires
        answers(s, event),
    ensures
        ({
            let open = tick_step(s, event).0.segment_open;
            match event {
                TickEvent::Gate(VadTransition::Closed) => !open,
                TickEvent::WriteHead(_) => open,
                TickEvent::Offered(got) => if s.phase is OpenOffered {
                    open == (got == Offered::Taken)
                } else if s.phase is CloseOffered {
                    !open
                } else {
                    open == s.segment_open
                },
                _ => open == s.segment_open,
            }
        }),
{
}

/// `event` is of the kind that answers `action`.
pub open spec fn is_answer(action: TickAction, event: TickEvent) -> bool {
    match action {
        TickAction::Read(_) => event is Values,
        TickAction::AskQuiesced => event is Quiesced,
        TickAction::FeedGate(_) => event is Gate,
        TickAction::ReadWriteHead => event is WriteHead,
        TickAction::Offer { .. } => event is Offered,
        TickAction::Done(_) => false,
    }
}

/// Whatever a tick asks for, it takes exactly the answers to that, and nothing once it
/// is over.
pub proof fn a_tick_takes_the_answers_to_what_it_asked(
    s: TelemetryCore,
    event: TickEvent,
    answer: TickEvent,
)
    requires
        answers(s, event),
    ensures
        answers(tick_step(s, event).0, answer) <==> is_answer(tick_step(s, event).1, answer),
{
}

} // verus!
