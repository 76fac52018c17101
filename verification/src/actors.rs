//! The stages of a capture session and the decisions each one takes.

pub mod joiner;
pub mod listener;
pub mod processor;
pub mod recorder;
pub mod session;
pub mod source;
