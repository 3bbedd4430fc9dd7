//! The Linux side of the link between a pod and its audio host: the wait on a
//! descriptor, the TLS session's bookkeeping, and the handshake that brings it up.

pub mod connect;
pub mod poll;
pub mod session;
