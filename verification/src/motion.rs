//! Timed motion scripts and the executor that runs one.
//!
//! One channel on the bus carries what a machine's head should be doing. The unit
//! of intent is a script: a timeline of steps at offsets from the moment it
//! arrives, under a timeout after which the head goes back down. Every script
//! lapses at the timeout it named, and that is the whole safety argument.

pub mod schedule;
pub mod script;
pub mod wire;
