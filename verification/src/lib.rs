//! Verified logic of a reSpeaker voice pod: the motion and presence bodies on
//! the bus, the audio streamer's decisions, the device transport's framing and
//! the control tool's rules.
//!
//! Nothing here reads or writes a file, a port or a socket; the wall clock is
//! read to stamp a line. A module either computes a value outright or is a state
//! machine that is handed what the outside world answered and says what to do
//! next.

pub mod clock;
pub mod json;
pub mod jsonl;
pub mod motion;
pub mod podctl;
pub mod presence;
pub mod protocol;
pub mod psk_link;
pub mod secrets;
pub mod streamer;
pub mod text;
pub mod transport;
