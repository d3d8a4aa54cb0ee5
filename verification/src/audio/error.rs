//! Error types for audio processing.

use vstd::prelude::*;
use vstd::std_specs::convert::FromSpecImpl;
use crate::text::join2;
use crate::trusted::io_error_text;

verus! {

/// Result type for audio operations.
pub type AudioResult<T> = Result<T, AudioError>;

/// Errors that can occur during audio processing.
#[derive(Debug)]
pub enum AudioError {
    /// Audio device error (enumeration, initialization, etc.).
    DeviceError(String),
    /// Audio stream error (configuration, start/stop, etc.).
    StreamError(String),
    /// Audio capture error.
    CaptureError(String),
    /// I/O error (file operations).
    IoError(std::io::Error),
    /// Generic error.
    Other(String),
}

impl AudioError {
    /// The error as text. Of an I/O error the text holds what the standard
    /// library says of it, of which nothing is stated.
    pub fn to_string(&self) -> (r: String)
        ensures
            self is DeviceError ==> r@ == "Audio device error: "@ + self->DeviceError_0@,
            self is StreamError ==> r@ == "Audio stream error: "@ + self->StreamError_0@,
            self is CaptureError ==> r@ == "Audio capture error: "@ + self->CaptureError_0@,
            self is Other ==> r@ == "Audio error: "@ + self->Other_0@,
    {
        match self {
            AudioError::DeviceError(reason) => join2("Audio device error: ", reason.as_str()),
            AudioError::StreamError(reason) => join2("Audio stream error: ", reason.as_str()),
            AudioError::CaptureError(reason) => join2("Audio capture error: ", reason.as_str()),
            AudioError::IoError(error) => {
                let shown = io_error_text(error);
                join2("I/O error: ", shown.as_str())
            },
            AudioError::Other(reason) => join2("Audio error: ", reason.as_str()),
        }
    }
}

impl From<std::io::Error> for AudioError {
    fn from(err: std::io::Error) -> (r: Self) {
        AudioError::IoError(err)
    }
}

impl FromSpecImpl<std::io::Error> for AudioError {
    open spec fn obeys_from_spec() -> bool {
        true
    }

    open spec fn from_spec(err: std::io::Error) -> Self {
        AudioError::IoError(err)
    }
}

} // verus!
