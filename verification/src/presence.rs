//! The head-presence vocabulary, and the lease that reduces it to a posture.
//!
//! One channel on the bus says what a machine's head should be doing: engaged, up
//! and attending, or idle, stowed. An engaged intent is a lease that runs out
//! unless it is refreshed, so every failure ends with the head stowed.

pub mod body;
pub mod lease;
