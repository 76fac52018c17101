//! What surrounds the language models: when a model is loaded and unloaded,
//! which templates a task renders, and what is made of a model's output.

pub mod manager;
pub mod task;
pub mod template;
pub mod whisper;
