//! The bounded byte buffer that an audio frame carries its samples in.

use vstd::prelude::*;

verus! {

/// Bytes of the largest audio payload: two for each sample of a full frame.
pub const MAX_AUDIO_PAYLOAD: usize = 640;

/// The payload of one audio frame.
pub type AudioPayload = heapless::Vec<u8, 640>;

/// `heapless::Vec`, a vector with room for `N` items.
#[verifier::external_type_specification]
#[verifier::external_body]
#[verifier::reject_recursive_types(T)]
pub struct ExFixedVec<T, const N: usize>(heapless::Vec<T, N>);

/// The bytes a payload holds, in order.
pub uninterp spec fn payload_bytes(payload: heapless::Vec<u8, 640>) -> Seq<u8>;

/// An empty payload. Calls `heapless::Vec::new`, which holds nothing.
#[verifier::external_body]
pub(crate) fn new_payload() -> (r: AudioPayload)
    ensures
        payload_bytes(r) == Seq::<u8>::empty(),
{
    heapless::Vec::new()
}

/// Calls `heapless::Vec::push`, which appends the byte while there is room and
/// hands it back when there is none.
#[verifier::external_body]
fn offer_byte(payload: &mut AudioPayload, byte: u8) -> (r: Result<(), u8>)
    ensures
        r is Ok <==> payload_bytes(*old(payload)).len() < 640,
        r matches Err(back) ==> back == byte,
        payload_bytes(*final(payload)) == if r is Ok {
            payload_bytes(*old(payload)).push(byte)
        } else {
            payload_bytes(*old(payload))
        },
{
    payload.push(byte)
}

/// Appends a byte to a payload that has room for it.
pub(crate) fn push_byte(payload: &mut AudioPayload, byte: u8)
    requires
        payload_bytes(*old(payload)).len() < MAX_AUDIO_PAYLOAD,
    ensures
        payload_bytes(*final(payload)) == payload_bytes(*old(payload)).push(byte),
{
    let _ = offer_byte(payload, byte);
}

} // verus!
