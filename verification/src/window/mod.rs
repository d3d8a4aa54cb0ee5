//! Sliding window audio buffer for incremental transcription.

pub mod buffer;
pub mod laws;
pub mod seconds;
pub mod shared;

pub use buffer::{SlidingWindow, WindowConfig, WindowError, WindowResult};
pub use seconds::Seconds;
pub use shared::SharedWindow;
