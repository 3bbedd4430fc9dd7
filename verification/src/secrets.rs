//! What a secrets file on a pod host is allowed to look like.
//!
//! One definition for every credential the host holds, with one parameter, the
//! posture that the deployment declares.

use vstd::prelude::*;

use crate::text::{self, push_padded, push_text};

verus! {

/// Who protects a secrets file.
#[derive(Debug, Clone, Copy, PartialEq, Eq, Structural)]
pub enum Posture {
    /// The file is the host's own: refused if any other local account can reach it.
    OwnerOnly,
    /// The file belongs to a read-only tree that is readable by contract: refused
    /// only if another account could write it.
    Payload,
}

/// The permission bits of a file mode.
pub open spec fn permissions(mode: u32) -> u32 {
    mode & 0o777
}

/// The permission bits that a posture does not allow.
pub open spec fn forbidden(posture: Posture) -> u32 {
    match posture {
        Posture::OwnerOnly => 0o077,
        Posture::Payload => 0o022,
    }
}

/// What a posture says of a file that it refuses.
pub open spec fn refusal(posture: Posture) -> Seq<char> {
    match posture {
        Posture::OwnerOnly => " is group/world-accessible; chmod 600 it"@,
        Posture::Payload => " is group/world-writable; a payload member is read-only"@,
    }
}

/// The refusal of a file with the given permission bits.
pub open spec fn mode_text(what: Seq<char>, bits: u32, posture: Posture) -> Seq<char> {
    what + " mode "@ + text::padded_numeral(bits as nat, 8, 4) + refusal(posture)
}

/// Rejects a secrets file that `posture` does not allow. `mode` is the file's mode,
/// `None` where the file could not be examined: the caller is about to read it and
/// reports the real failure. `what` names the file in the message an operator
/// reads.
pub fn mode_error(mode: Option<u32>, what: &str, posture: Posture) -> (r: Option<String>)
    ensures
        match mode {
            Some(mode) => if permissions(mode) & forbidden(posture) != 0 {
                r matches Some(message) && message@ == mode_text(
                    what@,
                    permissions(mode),
                    posture,
                )
            } else {
                r is None
            },
            None => r is None,
        },
{
    let mode: u32 = match mode {
        Some(mode) => mode,
        None => {
            return None;
        },
    };
    let bits: u32 = mode & 0o777;
    let mask: u32 = match posture {
        Posture::OwnerOnly => 0o077,
        Posture::Payload => 0o022,
    };
    if bits & mask == 0 {
        return None;
    }
    let mut out = what.to_owned();
    push_text(&mut out, " mode ");
    push_padded(&mut out, bits as u64, 8, 4);
    match posture {
        Posture::OwnerOnly => push_text(&mut out, " is group/world-accessible; chmod 600 it"),
        Posture::Payload => push_text(
            &mut out,
            " is group/world-writable; a payload member is read-only",
        ),
    }
    Some(out)
}

/// A file that only its owner can reach passes under every posture.
pub proof fn an_owners_file_passes(mode: u32, posture: Posture)
    requires
        permissions(mode) & 0o077 == 0,
    ensures
        permissions(mode) & forbidden(posture) == 0,
{
    let bits = permissions(mode);
    assert(bits & 0o077 == 0 ==> bits & 0o022 == 0) by (bit_vector);
}

/// A file that another account can write passes under none.
pub proof fn a_writable_file_never_passes(mode: u32, posture: Posture)
    requires
        permissions(mode) & 0o022 != 0,
    ensures
        permissions(mode) & forbidden(posture) != 0,
{
    let bits = permissions(mode);
    assert(bits & 0o022 != 0 ==> bits & 0o077 != 0) by (bit_vector);
}

/// A file is refused exactly where its mode grants what the posture forbids: anything at
/// all to group or others where the file is the owner's, writing where it is a payload.
/// Bits above the permissions have no say.
pub proof fn a_posture_forbids_by_the_permission_bits(mode: u32)
    ensures
        permissions(mode) & forbidden(Posture::OwnerOnly) != 0 <==> mode & 0o077 != 0,
        permissions(mode) & forbidden(Posture::Payload) != 0 <==> mode & 0o022 != 0,
        permissions(mode) == mode % 0o1000,
{
    assert((mode & 0o777) & 0o077 != 0 <==> mode & 0o077 != 0) by (bit_vector);
    assert((mode & 0o777) & 0o022 != 0 <==> mode & 0o022 != 0) by (bit_vector);
    assert(mode & 0o777 == mode % 0o1000) by (bit_vector);
}

/// A refusal begins with what the file is called and its mode in octal, at least four
/// digits of it, and ends with what to do about it.
pub proof fn a_refusal_names_the_file_and_its_mode(what: Seq<char>, bits: u32)
    ensures
        mode_text(what, bits, Posture::OwnerOnly) == what + " mode "@ + text::padded_numeral(
            bits as nat,
            8,
            4,
        ) + " is group/world-accessible; chmod 600 it"@,
        mode_text(what, bits, Posture::Payload) == what + " mode "@ + text::padded_numeral(
            bits as nat,
            8,
            4,
        ) + " is group/world-writable; a payload member is read-only"@,
{
}

} // verus!
