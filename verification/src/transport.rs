//! The host's side of the serial link to a pod: which port is a pod, how its
//! bytes become frames and how a response finds its request.

pub mod display;
pub mod dump;
pub mod frames;
pub mod harness;
pub mod ports;
