//! The capture ring as the streamer reads it: where its clock anchor stands,
//! which slot holds a sample and how samples become bytes.

use vstd::prelude::*;

use crate::streamer::pcm::{self, AudioPayload};

verus! {

/// What the streamer reads of the capture ring under its lock.
#[derive(Debug, Clone, Copy, PartialEq, Eq, Structural)]
pub struct CaptureRing {
    /// Absolute index of the next sample to be captured.
    pub write_head: u64,
    /// Sample whose capture time is known.
    pub anchor_sample: u64,
    /// That capture time, in microseconds.
    pub anchor_ts_us: u64,
}

/// Index geometry of a ring of a fixed number of samples.
#[derive(Debug, Clone, Copy, PartialEq, Eq, Structural)]
pub struct RingIndex {
    /// Samples the ring holds.
    pub capacity: u64,
}

/// Absolute index of the oldest sample a ring of `capacity` still holds once its
/// write head stands at `head`.
pub open spec fn oldest(head: u64, capacity: u64) -> int {
    if head >= capacity {
        head - capacity
    } else {
        0
    }
}

/// `head` backed off by `preroll`, but not past the oldest sample the ring holds.
pub open spec fn preroll_start(head: u64, preroll: u64, capacity: u64) -> int {
    let wanted = if head >= preroll {
        head - preroll
    } else {
        0
    };
    if wanted >= oldest(head, capacity) {
        wanted
    } else {
        oldest(head, capacity)
    }
}

impl RingIndex {
    /// Geometry of a ring of `capacity` samples.
    pub fn new(capacity: usize) -> (r: RingIndex)
        ensures
            r.capacity == capacity,
    {
        RingIndex { capacity: capacity as u64 }
    }

    /// The slot that holds sample `index`.
    pub fn slot(&self, index: u64) -> (r: usize)
        requires
            0 < self.capacity <= usize::MAX,
        ensures
            r == index as int % self.capacity as int,
            r < self.capacity,
    {
        (index % self.capacity) as usize
    }

    /// Where a segment that opens at write head `head` starts reading.
    pub fn preroll_cursor(&self, head: u64, preroll: u64) -> (r: u64)
        ensures
            r == preroll_start(head, preroll, self.capacity),
    {
        let wanted: u64 = head.saturating_sub(preroll);
        let held: u64 = head.saturating_sub(self.capacity);
        if wanted >= held {
            wanted
        } else {
            held
        }
    }
}

/// The low byte of a sample's two's complement form.
pub open spec fn low_byte(sample: i16) -> u8 {
    (sample as u16 & 0xff) as u8
}

/// The high byte of a sample's two's complement form.
pub open spec fn high_byte(sample: i16) -> u8 {
    (sample as u16 >> 8) as u8
}

/// `count` samples from absolute index `first` on, low byte first.
pub open spec fn sample_bytes(samples: Seq<i16>, first: int, count: nat) -> Seq<u8>
    decreases count,
{
    if count == 0 {
        seq![]
    } else {
        let sample = samples[(first + count - 1) % (samples.len() as int)];
        sample_bytes(samples, first, (count - 1) as nat).push(low_byte(sample)).push(
            high_byte(sample),
        )
    }
}

/// Appends `count` samples from absolute index `first_index` on to a payload,
/// low byte first. The payload must have room for two bytes of each.
pub fn push_pcm_samples(
    samples: &[i16],
    ridx: &RingIndex,
    first_index: u64,
    count: usize,
    pcm: &mut AudioPayload,
)
    requires
        0 < ridx.capacity,
        ridx.capacity == samples.len(),
        first_index + count <= u64::MAX,
        pcm::payload_bytes(*old(pcm)).len() + 2 * count <= pcm::MAX_AUDIO_PAYLOAD,
    ensures
        pcm::payload_bytes(*final(pcm)) == pcm::payload_bytes(*old(pcm)) + sample_bytes(
            samples@,
            first_index as int,
            count as nat,
        ),
{
    let mut i: usize = 0;
    assert(pcm::payload_bytes(*pcm) =~= pcm::payload_bytes(*old(pcm)) + sample_bytes(
        samples@,
        first_index as int,
        0,
    ));
    while i < count
        invariant
            i <= count,
            0 < ridx.capacity,
            ridx.capacity == samples.len(),
            first_index + count <= u64::MAX,
            pcm::payload_bytes(*old(pcm)).len() + 2 * count <= pcm::MAX_AUDIO_PAYLOAD,
            pcm::payload_bytes(*pcm).len() == pcm::payload_bytes(*old(pcm)).len() + 2 * i,
            pcm::payload_bytes(*pcm) == pcm::payload_bytes(*old(pcm)) + sample_bytes(
                samples@,
                first_index as int,
                i as nat,
            ),
        decreases count - i,
    {
        let slot: usize = ridx.slot(first_index + i as u64);
        let bits: u16 = samples[slot] as u16;
        pcm::push_byte(pcm, (bits & 0xff) as u8);
        pcm::push_byte(pcm, (bits >> 8) as u8);
        i = i + 1;
        assert(pcm::payload_bytes(*pcm) =~= pcm::payload_bytes(*old(pcm)) + sample_bytes(
            samples@,
            first_index as int,
            i as nat,
        ));
    }
}

/// The payload of a frame of `count` samples from absolute index `first_index` on.
pub fn copy_frame(samples: &[i16], ridx: &RingIndex, first_index: u64, count: usize) -> (r:
    AudioPayload)
    requires
        0 < ridx.capacity,
        ridx.capacity == samples.len(),
        first_index + count <= u64::MAX,
        2 * count <= pcm::MAX_AUDIO_PAYLOAD,
    ensures
        pcm::payload_bytes(r) == sample_bytes(samples@, first_index as int, count as nat),
{
    let mut payload = pcm::new_payload();
    push_pcm_samples(samples, ridx, first_index, count, &mut payload);
    assert(pcm::payload_bytes(payload) =~= sample_bytes(
        samples@,
        first_index as int,
        count as nat,
    ));
    payload
}

/// Two bytes go out for every sample.
pub proof fn a_sample_takes_two_bytes(samples: Seq<i16>, first: int, count: nat)
    ensures
        sample_bytes(samples, first, count).len() == 2 * count,
    decreases count,
{
    if count > 0 {
        a_sample_takes_two_bytes(samples, first, (count - 1) as nat);
    }
}

/// The bytes of a sample are read back as the sample: low byte first, sixteen bits.
pub proof fn a_sample_is_its_two_bytes(sample: i16)
    ensures
        low_byte(sample) as u16 | (high_byte(sample) as u16) << 8 == sample as u16,
{
    assert((sample as u16 & 0xff) as u8 as u16 | ((sample as u16 >> 8) as u8 as u16) << 8
        == sample as u16) by (bit_vector);
}

/// The bytes of a frame are its samples in order, taken round the ring, the low byte of
/// each in front of its high byte.
pub proof fn a_frame_is_its_samples_in_order(samples: Seq<i16>, first: int, count: nat, k: int)
    requires
        0 <= k < count,
    ensures
        ({
            let bytes = sample_bytes(samples, first, count);
            let sample = samples[(first + k) % (samples.len() as int)] as u16;
            &&& bytes.len() == 2 * count
            &&& bytes[2 * k] == sample % 0x100
            &&& bytes[2 * k + 1] == sample / 0x100
        }),
    decreases count,
{
    let shorter = (count - 1) as nat;
    a_sample_takes_two_bytes(samples, first, shorter);
    if k < shorter {
        a_frame_is_its_samples_in_order(samples, first, shorter, k);
    } else {
        let sample = samples[(first + k) % (samples.len() as int)];
        assert((sample as u16 & 0xff) as u8 == sample as u16 % 0x100) by (bit_vector);
        assert((sample as u16 >> 8) as u8 == sample as u16 / 0x100) by (bit_vector);
    }
}

/// A segment takes along as much history as it wants, as there is, and as the ring
/// holds, whichever is least.
pub proof fn the_preroll_is_the_least_of_three(head: u64, preroll: u64, capacity: u64)
    ensures
        ({
            let taken = head - preroll_start(head, preroll, capacity);
            &&& 0 <= taken <= preroll
            &&& taken <= capacity
            &&& taken <= head
            &&& taken == preroll || taken == capacity || taken == head
        }),
{
}

} // verus!
