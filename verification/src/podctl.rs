//! The rules of `podctl`, the operator's tool for provisioning pods.
//!
//! Arguments become commands, the attached pods become one target, and what the
//! device answers becomes a line and an exit code.

pub mod logs;
pub mod report;
pub mod select;
pub mod validate;
