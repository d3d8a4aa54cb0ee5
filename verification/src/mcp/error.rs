//! Error types of the server.

use vstd::prelude::*;
use vstd::std_specs::convert::FromSpecImpl;
use vstd::string::StringExecFns;
use crate::audio::error::AudioError;
use crate::text::{join2, join3};
use crate::trusted::hound_error_text;
use crate::whisper::error::WhisperError;

verus! {

/// All errors that can occur in the server.
#[derive(Debug)]
pub enum VttError {
    /// Audio capture error.
    Audio(AudioError),
    /// Model loading/inference error.
    Model(String),
    /// Transcription error.
    Transcription(WhisperError),
    /// No audio data available.
    NoAudioData(String),
    /// Invalid parameters.
    InvalidParams(String),
    /// Requested audio device not found.
    DeviceNotFound(String),
    /// Session error.
    Session(String),
    /// Internal error.
    Internal(String),
    /// Audio file error.
    AudioFile(hound::Error),
}

/// Result type for server operations.
pub type VttResult<T> = Result<T, VttError>;

/// The kind of a protocol error.
#[derive(Debug, Clone, Copy, PartialEq, Eq, Structural)]
pub enum McpErrorCode {
    /// The parameters of a request are not valid.
    InvalidParams,
    /// The request is not valid.
    InvalidRequest,
    /// The server failed.
    InternalError,
}

/// What a protocol error holds: its kind and its message.
#[derive(Debug)]
pub struct McpError {
    pub code: McpErrorCode,
    pub message: String,
}

impl VttError {
    /// An error of invalid parameters.
    pub fn invalid_params(msg: &str) -> (r: Self)
        ensures
            r is InvalidParams,
            r->InvalidParams_0@ == msg@,
    {
        VttError::InvalidParams(String::from_str(msg))
    }

    /// An error of a device that was not found.
    pub fn device_not_found(name: &str) -> (r: Self)
        ensures
            r is DeviceNotFound,
            r->DeviceNotFound_0@ == name@,
    {
        VttError::DeviceNotFound(String::from_str(name))
    }

    /// An internal error.
    pub fn internal(msg: &str) -> (r: Self)
        ensures
            r is Internal,
            r->Internal_0@ == msg@,
    {
        VttError::Internal(String::from_str(msg))
    }

    /// The kind of protocol error that the error becomes: invalid
    /// parameters and a device that was not found are the fault of the
    /// request, all else is an internal error.
    pub open spec fn spec_code(&self) -> McpErrorCode {
        match self {
            VttError::InvalidParams(_) => McpErrorCode::InvalidParams,
            VttError::DeviceNotFound(_) => McpErrorCode::InvalidRequest,
            _ => McpErrorCode::InternalError,
        }
    }

    /// The text of the error where it holds nothing but a message.
    pub open spec fn spec_text(&self) -> Option<Seq<char>> {
        match self {
            VttError::Model(msg) => Some("Model error: "@ + msg@),
            VttError::NoAudioData(msg) => Some("No audio data: "@ + msg@),
            VttError::InvalidParams(msg) => Some("Invalid parameters: "@ + msg@),
            VttError::DeviceNotFound(msg) => Some("Device not found: "@ + msg@),
            VttError::Session(msg) => Some("Session error: "@ + msg@),
            VttError::Internal(msg) => Some("Internal error: "@ + msg@),
            _ => None,
        }
    }

    /// The error as text. Of an error that holds another error the text
    /// holds the text of that error.
    pub fn to_string(&self) -> (r: String)
        ensures
            self.spec_text() is Some ==> r@ == self.spec_text()->0,
    {
        match self {
            VttError::Audio(error) => {
                let inner = error.to_string();
                join2("Audio error: ", inner.as_str())
            },
            VttError::Model(msg) => join2("Model error: ", msg.as_str()),
            VttError::Transcription(error) => {
                let inner = error.to_string();
                join2("Transcription error: ", inner.as_str())
            },
            VttError::NoAudioData(msg) => join2("No audio data: ", msg.as_str()),
            VttError::InvalidParams(msg) => join2("Invalid parameters: ", msg.as_str()),
            VttError::DeviceNotFound(msg) => join2("Device not found: ", msg.as_str()),
            VttError::Session(msg) => join2("Session error: ", msg.as_str()),
            VttError::Internal(msg) => join2("Internal error: ", msg.as_str()),
            VttError::AudioFile(error) => {
                let inner = hound_error_text(error);
                join2("Audio file error: ", inner.as_str())
            },
        }
    }

    /// The kind of protocol error that the error becomes.
    pub fn code(&self) -> (r: McpErrorCode)
        ensures
            r == self.spec_code(),
    {
        match self {
            VttError::InvalidParams(_) => McpErrorCode::InvalidParams,
            VttError::DeviceNotFound(_) => McpErrorCode::InvalidRequest,
            _ => McpErrorCode::InternalError,
        }
    }
}

impl From<AudioError> for VttError {
    fn from(err: AudioError) -> (r: Self) {
        VttError::Audio(err)
    }
}

impl FromSpecImpl<AudioError> for VttError {
    open spec fn obeys_from_spec() -> bool {
        true
    }

    open spec fn from_spec(err: AudioError) -> Self {
        VttError::Audio(err)
    }
}

impl From<WhisperError> for VttError {
    fn from(err: WhisperError) -> (r: Self) {
        VttError::Transcription(err)
    }
}

impl FromSpecImpl<WhisperError> for VttError {
    open spec fn obeys_from_spec() -> bool {
        true
    }

    open spec fn from_spec(err: WhisperError) -> Self {
        VttError::Transcription(err)
    }
}

impl From<hound::Error> for VttError {
    fn from(err: hound::Error) -> (r: Self) {
        VttError::AudioFile(err)
    }
}

impl FromSpecImpl<hound::Error> for VttError {
    open spec fn obeys_from_spec() -> bool {
        true
    }

    open spec fn from_spec(err: hound::Error) -> Self {
        VttError::AudioFile(err)
    }
}

/// Conversion of errors to protocol errors.
pub trait ToMcpError: Sized {
    /// The text of the error where it is known from the error alone.
    spec fn known_text(&self) -> Option<Seq<char>>;

    /// The protocol error for the error: an internal error with the text of
    /// the error as its message.
    fn into_mcp_error(self) -> (r: McpError)
        ensures
            r.code == McpErrorCode::InternalError,
            self.known_text() is Some ==> r.message@ == self.known_text()->0,
    ;

    /// The protocol error for the error in a context: an internal error
    /// whose message is the context, a colon and the text of the error.
    fn with_context(self, ctx: &str) -> (r: McpError)
        ensures
            r.code == McpErrorCode::InternalError,
            self.known_text() is Some ==> r.message@ == ctx@ + ": "@ + self.known_text()->0,
    ;
}

impl ToMcpError for VttError {
    open spec fn known_text(&self) -> Option<Seq<char>> {
        self.spec_text()
    }

    fn into_mcp_error(self) -> (r: McpError) {
        McpError { code: McpErrorCode::InternalError, message: self.to_string() }
    }

    fn with_context(self, ctx: &str) -> (r: McpError) {
        let text = self.to_string();
        McpError { code: McpErrorCode::InternalError, message: join3(ctx, ": ", text.as_str()) }
    }
}

impl From<VttError> for McpError {
    fn from(err: VttError) -> (r: Self)
        ensures
            r.code == err.spec_code(),
            err.spec_text() is Some ==> r.message@ == err.spec_text()->0,
    {
        McpError { code: err.code(), message: err.to_string() }
    }
}

impl FromSpecImpl<VttError> for McpError {
    open spec fn obeys_from_spec() -> bool {
        false
    }

    open spec fn from_spec(err: VttError) -> Self {
        arbitrary()
    }
}

} // verus!
