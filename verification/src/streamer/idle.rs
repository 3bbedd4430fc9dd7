//! What the streamer does between segments: when it connects, what a socket
//! that comes or goes obliges, and where a new segment starts.

use vstd::prelude::*;

use crate::clock::{self, Duration, Instant};
use crate::streamer::ring::{self, CaptureRing, RingIndex};
use crate::streamer::segment::{self, frame_ts_us};
use crate::text::same_text;

verus! {

/// Whether to attempt a connect on this idle tick.
#[derive(Debug, Clone, Copy, PartialEq, Eq, Structural)]
pub enum IdleConnectAction {
    /// The socket is down, the link is up and the backoff has elapsed.
    Attempt,
    /// Already connected, link down or unknown, or backoff not yet elapsed.
    Skip,
}

/// A connect is due: nothing is connected, the link is known to be up, and the
/// backoff deadline has come.
pub open spec fn connect_due(
    connected: bool,
    link_up: Option<bool>,
    now_secs: u64,
    reconnect_deadline_secs: u64,
) -> bool {
    !connected && link_up == Some(true) && now_secs >= reconnect_deadline_secs
}

/// Should the idle loop attempt a connect this tick? An unknown link counts as down.
pub fn should_attempt_idle_connect(
    socket_is_some: bool,
    link_up: Option<bool>,
    now_secs: u64,
    reconnect_deadline_secs: u64,
) -> (r: IdleConnectAction)
    ensures
        r == IdleConnectAction::Attempt <==> connect_due(
            socket_is_some,
            link_up,
            now_secs,
            reconnect_deadline_secs,
        ),
{
    let up = match link_up {
        Some(known) => known,
        None => false,
    };
    if !socket_is_some && up && now_secs >= reconnect_deadline_secs {
        IdleConnectAction::Attempt
    } else {
        IdleConnectAction::Skip
    }
}

/// When the next connect is due, and how many attempts have failed in this run.
#[derive(Debug, Clone, Copy, PartialEq, Eq, Structural)]
pub struct Pacing {
    /// Monotonic second before which no connect is attempted. Zero means now.
    pub reconnect_deadline_secs: u64,
    /// Failed attempts, folded into the jitter seed.
    pub attempt_counter: u32,
    /// Per-pod jitter seed, so that a fleet does not retry in step.
    pub jitter_seed_base: u32,
}

/// The attempt counter after one more failure.
pub open spec fn next_attempt(attempt_counter: u32) -> u32 {
    if attempt_counter == u32::MAX {
        0
    } else {
        (attempt_counter + 1) as u32
    }
}

/// Charges a failed attempt and gives the seed its jittered wait is drawn from.
/// The counter is folded in so that consecutive attempts draw different waits.
pub fn next_jitter_seed(attempt_counter: &mut u32, jitter_seed_base: u32) -> (seed: u32)
    ensures
        *final(attempt_counter) == next_attempt(*old(attempt_counter)),
        seed == jitter_seed_base ^ next_attempt(*old(attempt_counter)),
{
    *attempt_counter = attempt_counter.wrapping_add(1);
    jitter_seed_base ^ *attempt_counter
}

/// The deadline `wait_secs` after `now_secs`, at the end of time if it is past it.
pub open spec fn deadline_after(now_secs: u64, wait_secs: u64) -> u64 {
    if now_secs + wait_secs <= u64::MAX {
        (now_secs + wait_secs) as u64
    } else {
        u64::MAX
    }
}

/// Arms the next reconnect deadline. The wait is drawn once; later ticks compare
/// against the fixed deadline.
pub fn arm_reconnect_deadline(now_secs: u64, wait_secs: u64) -> (r: u64)
    ensures
        r == deadline_after(now_secs, wait_secs),
{
    now_secs.saturating_add(wait_secs)
}

/// Clears the pacing after a connect that worked, so that a later loss reconnects
/// at once instead of waiting out a stale deadline.
pub fn note_connect_success(reconnect_deadline_secs: &mut u64)
    ensures
        *final(reconnect_deadline_secs) == 0,
{
    *reconnect_deadline_secs = 0;
}

/// A link that is down or unknown is never attempted and so never charged to the
/// backoff, whatever the deadline.
pub proof fn a_down_link_is_never_attempted(connected: bool, now_secs: u64, deadline: u64)
    ensures
        !connect_due(connected, Some(false), now_secs, deadline),
        !connect_due(connected, None, now_secs, deadline),
{
}

/// After a success a lost socket reconnects on the next tick of a link that is up.
pub proof fn a_cleared_deadline_is_always_due(now_secs: u64)
    ensures
        connect_due(false, Some(true), now_secs, 0),
{
}

/// An armed deadline holds the connect back until exactly that second.
pub proof fn an_armed_deadline_fires_at_its_second(now_secs: u64, wait_secs: u64, at: u64)
    ensures
        connect_due(false, Some(true), at, deadline_after(now_secs, wait_secs)) <==> at
            >= deadline_after(now_secs, wait_secs),
        deadline_after(now_secs, wait_secs) >= now_secs,
{
}

/// How a bounded provisioning park ended.
#[derive(Debug, Clone, Copy, PartialEq, Eq, Structural)]
pub enum ParkOutcome {
    /// The park interval elapsed.
    TimedOut,
    /// The sender side was dropped.
    Disconnected,
}

/// What one wait of a park came to.
#[derive(Debug, Clone, Copy, PartialEq, Eq, Structural)]
pub enum ParkWait {
    /// A message arrived and was discarded.
    Message,
    /// The wait ran out.
    Timeout,
    /// The sender side was dropped.
    Disconnected,
}

/// How long the next wait of a park that ends at `deadline` may last.
pub fn park_wait(deadline: Instant, now: Instant) -> (r: Duration)
    ensures
        r.nanos == clock::since(deadline, now),
{
    deadline.saturating_duration_since(now)
}

/// Whether a park that ends at `deadline` is over after one wait. A steady stream
/// of messages never times out by itself, so a message is held to the deadline.
pub fn park_drain(deadline: Instant, got: ParkWait, now: Instant) -> (r: Option<ParkOutcome>)
    ensures
        r == match got {
            ParkWait::Message => if now.nanos >= deadline.nanos {
                Some(ParkOutcome::TimedOut)
            } else {
                None
            },
            ParkWait::Timeout => Some(ParkOutcome::TimedOut),
            ParkWait::Disconnected => Some(ParkOutcome::Disconnected),
        },
{
    match got {
        ParkWait::Message => {
            if now.nanos >= deadline.nanos {
                Some(ParkOutcome::TimedOut)
            } else {
                None
            }
        },
        ParkWait::Timeout => Some(ParkOutcome::TimedOut),
        ParkWait::Disconnected => Some(ParkOutcome::Disconnected),
    }
}

/// Whether a provisioning failure should be logged, given the last logged cause:
/// the first one and every change of cause, a return to an earlier cause too.
pub fn should_log_provisioning_failure(last: Option<&str>, current: &str) -> (r: bool)
    ensures
        r == !(last matches Some(cause) && cause@ == current@),
{
    match last {
        Some(cause) => !same_text(cause, current),
        None => true,
    }
}

/// What a socket that comes or goes obliges, besides the socket itself.
#[derive(Debug, Clone, Copy, PartialEq, Eq, Structural)]
pub enum SocketDuty {
    /// Drop the partly received frame.
    ResetAccumulator,
    /// Forget the connection's inbound handshake.
    ResetInboundState,
    /// Let the banked playback tail play out and then fall silent.
    EndOfAudio,
    /// Mark a stream boundary, which discards what is banked.
    StreamReset,
}

/// What a lost socket obliges: framing is reset, so that stale bytes cannot
/// corrupt the next connection's first frame, and playback winds down.
pub open spec fn lost_duties() -> Seq<SocketDuty> {
    seq![SocketDuty::ResetAccumulator, SocketDuty::ResetInboundState, SocketDuty::EndOfAudio]
}

/// What a fresh socket obliges: nothing decoded from the previous one survives.
pub open spec fn established_duties() -> Seq<SocketDuty> {
    seq![SocketDuty::ResetAccumulator, SocketDuty::ResetInboundState, SocketDuty::StreamReset]
}

/// Clears the socket and gives what its loss obliges, in order.
pub fn note_socket_lost<L>(held_socket: &mut Option<L>) -> (duties: Vec<SocketDuty>)
    ensures
        *final(held_socket) is None,
        duties@ == lost_duties(),
{
    *held_socket = None;
    let mut duties: Vec<SocketDuty> = Vec::new();
    duties.push(SocketDuty::ResetAccumulator);
    duties.push(SocketDuty::ResetInboundState);
    duties.push(SocketDuty::EndOfAudio);
    assert(duties@ =~= lost_duties());
    duties
}

/// Installs a fresh socket and gives what it obliges, in order. The framing
/// resets come before anything is read from it.
pub fn note_socket_established<L>(held_socket: &mut Option<L>, stream: L) -> (duties: Vec<
    SocketDuty,
>)
    ensures
        *final(held_socket) == Some(stream),
        duties@ == established_duties(),
{
    *held_socket = Some(stream);
    let mut duties: Vec<SocketDuty> = Vec::new();
    duties.push(SocketDuty::ResetAccumulator);
    duties.push(SocketDuty::ResetInboundState);
    duties.push(SocketDuty::StreamReset);
    assert(duties@ =~= established_duties());
    duties
}

/// A drop that is followed by a reconnect ends with the stream boundary, behind
/// the end-of-audio mark that it supersedes.
pub proof fn a_reconnect_ends_with_the_stream_boundary()
    ensures
        (lost_duties() + established_duties()).last() == SocketDuty::StreamReset,
        (lost_duties() + established_duties())[2] == SocketDuty::EndOfAudio,
{
}

/// The onset facts a segment's opening frame is computed from.
#[derive(Debug, Clone, Copy, PartialEq, Eq, Structural)]
pub struct SegmentOnset {
    /// Id for the new segment.
    pub segment_id: u32,
    /// Ring write head at the moment the voice gate opened.
    pub vad_write_head: u64,
    /// History to take along ahead of the onset, in samples.
    pub preroll_samples: u64,
}

/// The frame that opens a segment.
#[derive(Debug, Clone, Copy, PartialEq, Eq, Structural)]
pub struct SegmentStart {
    /// Id of the segment.
    pub segment_id: u32,
    /// Absolute index of its first sample.
    pub base_sample_index: u64,
    /// When that sample was captured.
    pub base_device_ts_us: u64,
    /// History in front of the onset that is actually there.
    pub preroll_samples: u32,
}

/// A segment's opening frame and the ring cursor its drain starts from.
#[derive(Debug, Clone, Copy, PartialEq, Eq, Structural)]
pub struct SegmentPlan {
    /// Absolute index the segment's first frame is read from.
    pub cursor: u64,
    /// The frame to send first.
    pub start: SegmentStart,
}

/// When the first sample of a segment was captured. An anchor older than the
/// cursor is reported as it is: dating forward would claim a time for samples
/// that were not stamped yet.
pub open spec fn opening_time(ring: CaptureRing, cursor: u64) -> int {
    if ring.anchor_sample >= cursor {
        segment::frame_time(ring.anchor_sample, ring.anchor_ts_us, cursor)
    } else {
        ring.anchor_ts_us as int
    }
}

/// The plan of the segment that `onset` opens.
pub open spec fn segment_plan(
    ring: CaptureRing,
    ridx: RingIndex,
    onset: SegmentOnset,
) -> SegmentPlan {
    let cursor = ring::preroll_start(onset.vad_write_head, onset.preroll_samples, ridx.capacity);
    SegmentPlan {
        cursor: cursor as u64,
        start: SegmentStart {
            segment_id: onset.segment_id,
            base_sample_index: cursor as u64,
            base_device_ts_us: opening_time(ring, cursor as u64) as u64,
            preroll_samples: (onset.vad_write_head - cursor) as u32,
        },
    }
}

/// Places a new segment's pre-roll cursor and dates it. The distance between
/// anchor and cursor has to fit the arithmetic that dates frames.
pub fn plan_segment_start(ring: &CaptureRing, ridx: &RingIndex, onset: &SegmentOnset) -> (plan:
    SegmentPlan)
    requires
        ({
            let cursor = ring::preroll_start(
                onset.vad_write_head,
                onset.preroll_samples,
                ridx.capacity,
            );
            ring.anchor_sample >= cursor ==> segment::frame_time_fits(
                ring.anchor_sample,
                ring.anchor_ts_us,
                cursor as u64,
            )
        }),
    ensures
        plan == segment_plan(*ring, *ridx, *onset),
{
    let cursor: u64 = ridx.preroll_cursor(onset.vad_write_head, onset.preroll_samples);
    let base_device_ts_us: u64 = if ring.anchor_sample >= cursor {
        frame_ts_us(ring.anchor_sample, ring.anchor_ts_us, cursor)
    } else {
        ring.anchor_ts_us
    };
    SegmentPlan {
        cursor,
        start: SegmentStart {
            segment_id: onset.segment_id,
            base_sample_index: cursor,
            base_device_ts_us,
            preroll_samples: onset.vad_write_head.saturating_sub(cursor) as u32,
        },
    }
}

/// A segment starts at most the wanted history before its onset, never before
/// what the ring still holds, and never after the onset.
pub proof fn the_preroll_is_history_the_ring_holds(
    ring: CaptureRing,
    ridx: RingIndex,
    onset: SegmentOnset,
)
    ensures
        ({
            let plan = segment_plan(ring, ridx, onset);
            &&& plan.start.base_sample_index == plan.cursor
            &&& plan.cursor <= onset.vad_write_head
            &&& onset.vad_write_head - plan.cursor <= onset.preroll_samples
            &&& onset.vad_write_head - plan.cursor <= ridx.capacity
            &&& onset.preroll_samples <= ridx.capacity && onset.preroll_samples
                <= onset.vad_write_head ==> onset.vad_write_head - plan.cursor
                == onset.preroll_samples
        }),
{
}

/// What a socket that goes or comes obliges, in order: framing and handshake are
/// forgotten first; then a lost one lets playback wind down, and a fresh one marks the
/// boundary of a new stream.
pub proof fn a_socket_obliges_in_order()
    ensures
        lost_duties() == seq![
            SocketDuty::ResetAccumulator,
            SocketDuty::ResetInboundState,
            SocketDuty::EndOfAudio,
        ],
        established_duties() == seq![
            SocketDuty::ResetAccumulator,
            SocketDuty::ResetInboundState,
            SocketDuty::StreamReset,
        ],
{
}

/// A connect is due exactly where none is held, the link is known to be up, and the
/// deadline has come.
pub proof fn a_connect_is_due_by_three_things(
    connected: bool,
    link_up: Option<bool>,
    now_secs: u64,
    deadline: u64,
)
    ensures
        connect_due(connected, link_up, now_secs, deadline) <==> !connected && link_up == Some(
            true,
        ) && deadline <= now_secs,
{
}

/// Attempts are counted one by one, round the end of the counter, and no two in a row
/// have the same count.
pub proof fn attempts_are_counted_one_by_one(attempt: u32)
    ensures
        attempt < u32::MAX ==> next_attempt(attempt) == attempt + 1,
        attempt == u32::MAX ==> next_attempt(attempt) == 0,
{
}

/// A deadline lies exactly the wait ahead, or at the end of time where that is past it.
pub proof fn a_deadline_lies_the_wait_ahead(now_secs: u64, wait_secs: u64)
    ensures
        now_secs + wait_secs <= u64::MAX ==> deadline_after(now_secs, wait_secs) == now_secs
            + wait_secs,
        now_secs + wait_secs > u64::MAX ==> deadline_after(now_secs, wait_secs) == u64::MAX,
{
}

/// The opening frame of a segment names the onset's id, the sample it starts at, how
/// much of the history in front of the onset it carries, and when that sample was
/// captured: reckoned back from the anchor at sixteen samples a millisecond, but not
/// past the clock's origin, or the anchor's own time where the anchor is older.
pub proof fn an_opening_frame_names_where_it_starts(
    ring: CaptureRing,
    ridx: RingIndex,
    onset: SegmentOnset,
)
    requires
        ring.anchor_sample < u64::MAX / 1_000_000,
        onset.preroll_samples <= u32::MAX,
    ensures
        ({
            let plan = segment_plan(ring, ridx, onset);
            let taken = onset.vad_write_head - plan.cursor;
            &&& plan.start.segment_id == onset.segment_id
            &&& plan.start.base_sample_index == plan.cursor
            &&& plan.start.preroll_samples == taken
            &&& taken == onset.preroll_samples || taken == ridx.capacity || taken
                == onset.vad_write_head
            &&& taken <= onset.preroll_samples && taken <= ridx.capacity && taken
                <= onset.vad_write_head
            &&& ring.anchor_sample < plan.cursor ==> plan.start.base_device_ts_us
                == ring.anchor_ts_us
            &&& ring.anchor_sample >= plan.cursor ==> {
                let back = (ring.anchor_sample - plan.cursor) * 1_000_000 / 16_000;
                if back <= ring.anchor_ts_us {
                    plan.start.base_device_ts_us == ring.anchor_ts_us - back
                } else {
                    plan.start.base_device_ts_us == 0
                }
            }
        }),
{
    ring::the_preroll_is_the_least_of_three(
        onset.vad_write_head,
        onset.preroll_samples,
        ridx.capacity,
    );
}

} // verus!
