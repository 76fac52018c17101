//! Audio blocks, capture descriptors and the resampling clock.

pub mod block;
pub mod input;
pub mod monitor;
pub mod pcm;
pub mod resampler;
pub mod tap;
