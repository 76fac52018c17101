//! Reconciliation of streaming transcript responses into per-channel word
//! timelines.

pub mod laws;
pub mod manager;
pub mod normalize;
pub mod text;
pub mod word;
