//! Incremental voice-to-text core: a sliding window of audio samples, an
//! energy-based voice-activity detector, an incremental transcriber with
//! duplicate suppression, and a usage tracker for a shared inference engine.

use vstd::prelude::*;

pub mod audio;
pub mod config;
pub mod incremental;
pub mod level;
pub mod mcp;
pub mod profile;
pub mod text;
pub mod trusted;
pub mod vad;
pub mod whisper;
pub mod window;

pub use incremental::{IncrementalTranscriber, PartialResult, TranscriberConfig};
pub use vad::{SpeechEnergy, VadConfig, VadDetector, VadResult};
pub use window::{Seconds, SlidingWindow, WindowConfig, WindowError, WindowResult};

verus! {

/// Library version.
pub const VERSION: &'static str = "0.1.0";

} // verus!
