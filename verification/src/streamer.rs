//! Transport-independent decisions of the pod's audio streamer: what to wait
//! on, when to connect, where a segment starts and what leaves the pod next.

pub mod idle;
pub mod link;
pub mod netpoll;
pub mod pcm;
pub mod ring;
pub mod run;
pub mod run_laws;
pub mod run_turns;
pub mod segment;
pub mod segment_laws;
pub mod segment_turns;
pub mod telemetry;
