//! First-run setup orchestration for an external toolchain.
//!
//! The library decides everything about first-run setup — how each external
//! probe is interpreted, which subprocess invocations the mutating steps
//! issue, and what the persisted completion marker contains — as pure,
//! verified functions over plain values. The surrounding binary performs the
//! actual process spawning and filesystem writes and feeds the captured
//! outcomes back in.

pub mod detect;
pub mod outcome;
pub mod registrar;
pub mod statefile;
pub mod status;
pub mod text;
