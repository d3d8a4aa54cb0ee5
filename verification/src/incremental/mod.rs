//! Incremental transcription with duplicate suppression.

pub mod dedup;
pub mod shared;
pub mod transcriber;

pub use dedup::is_duplicate;
pub use shared::SharedTranscriber;
pub use transcriber::{IncrementalTranscriber, PartialResult, TranscriberConfig};
