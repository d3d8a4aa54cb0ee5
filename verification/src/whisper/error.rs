//! Error types and results of Whisper operations.

use vstd::prelude::*;
use std::path::PathBuf;
use crate::text::{join2, join3};
use crate::trusted::path_text;

verus! {

/// Errors that can occur during Whisper operations.
#[derive(Debug)]
pub enum WhisperError {
    /// Failed to load the model file.
    ModelLoadError {
        /// Path to the model file.
        path: PathBuf,
        /// Reason for the failure.
        reason: String,
    },
    /// Model file not found.
    ModelNotFound(PathBuf),
    /// Invalid audio data.
    InvalidAudio(String),
    /// Transcription failed.
    TranscriptionFailed(String),
    /// Whisper context error.
    ContextError(String),
    /// Invalid parameter.
    InvalidParameter(String),
}

impl WhisperError {
    /// The error as text. Of an error that holds a path the text holds the
    /// path as the platform displays it, of which nothing is stated.
    pub fn to_string(&self) -> (r: String)
        ensures
            self is InvalidAudio ==> r@ == "Invalid audio data: "@ + self->InvalidAudio_0@,
            self is TranscriptionFailed ==> r@ == "Transcription failed: "@
                + self->TranscriptionFailed_0@,
            self is ContextError ==> r@ == "Whisper context error: "@ + self->ContextError_0@,
            self is InvalidParameter ==> r@ == "Invalid parameter: "@ + self->InvalidParameter_0@,
    {
        match self {
            WhisperError::ModelLoadError { path, reason } => {
                let shown = path_text(path);
                let head = join3("Failed to load model from ", shown.as_str(), ": ");
                join2(head.as_str(), reason.as_str())
            },
            WhisperError::ModelNotFound(path) => {
                let shown = path_text(path);
                join2("Model file not found: ", shown.as_str())
            },
            WhisperError::InvalidAudio(reason) => join2("Invalid audio data: ", reason.as_str()),
            WhisperError::TranscriptionFailed(reason) => join2(
                "Transcription failed: ",
                reason.as_str(),
            ),
            WhisperError::ContextError(reason) => join2(
                "Whisper context error: ",
                reason.as_str(),
            ),
            WhisperError::InvalidParameter(reason) => join2(
                "Invalid parameter: ",
                reason.as_str(),
            ),
        }
    }
}

/// Type alias for Whisper operation results.
pub type WhisperResult<T> = Result<T, WhisperError>;

/// Result of a transcription operation.
#[derive(Debug, Clone)]
pub struct Transcription {
    /// The transcribed text.
    pub text: String,
    /// Start timestamp in milliseconds.
    pub start_timestamp: i64,
    /// End timestamp in milliseconds.
    pub end_timestamp: i64,
}

impl Transcription {
    /// Create a new transcription result.
    pub fn new(text: String, start_timestamp: i64, end_timestamp: i64) -> (r: Self)
        ensures
            r.text == text,
            r.start_timestamp == start_timestamp,
            r.end_timestamp == end_timestamp,
    {
        Transcription { text, start_timestamp, end_timestamp }
    }

    /// Get the duration of the transcription in milliseconds.
    pub fn duration_ms(&self) -> (r: i64)
        requires
            i64::MIN <= self.end_timestamp - self.start_timestamp <= i64::MAX,
        ensures
            r == self.end_timestamp - self.start_timestamp,
    {
        self.end_timestamp - self.start_timestamp
    }
}

} // verus!
