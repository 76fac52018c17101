//! Core logic of a meeting-capture pipeline: audio blocks and their pairing,
//! the resampling clock, transcript reconciliation and session supervision.
//!
//! Audio samples are carried as an opaque `Copy` type; timestamps are whole
//! microseconds. Every function states its behaviour in its contract.

pub mod audio;
pub mod transcript;
pub mod actors;
pub mod llm;
pub mod navigate;
pub mod notification;
pub mod stt;
pub mod windows;
