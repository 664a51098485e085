//! A monophonic subtractive synthesizer core: a parameter model shared
//! between a live audio path and a deterministic offline renderer, an
//! automation-event applier, and the decision logic of both render paths.
//!
//! Continuous parameters (levels, frequencies, amounts) are stored as the
//! bit patterns of IEEE 754 single-precision values (`u32`). This crate's
//! logic never interprets them numerically: it only stores, copies and
//! routes them. The signal-processing stages that consume them as numbers
//! live outside the library, which hands them exact per-sample parameter
//! snapshots.

pub mod ai;
pub mod audio;
pub mod automation;
pub mod render;
pub mod synth;
