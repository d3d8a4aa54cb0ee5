//! What the tools of the server take and give.

use vstd::prelude::*;
use vstd::std_specs::convert::FromSpecImpl;
use crate::level::Level;
use crate::whisper::error::Transcription;

verus! {

/// Parameters of the tool that lists the languages.
#[derive(Debug, Clone)]
pub struct ListLanguagesParams {}

/// Parameters of the tool that transcribes an audio clip.
#[derive(Debug, Clone)]
pub struct TranscribeClipParams {
    pub audio_file: String,
    pub model_path: Option<String>,
    pub language: Option<String>,
    pub use_gpu: Option<bool>,
    pub threads: Option<usize>,
}

/// Parameters of the tool that starts listening.
#[derive(Debug, Clone)]
pub struct StartListeningParams {
    pub model_path: Option<String>,
    pub language: Option<String>,
    pub use_gpu: Option<bool>,
    pub threads: Option<usize>,
    pub device_name: Option<String>,
}

/// Parameters of the tool that stops listening.
#[derive(Debug, Clone)]
pub struct StopListeningParams {
    pub session_id: String,
    pub transcribe: Option<bool>,
}

/// Parameters of the tool that gets the last transcription.
#[derive(Debug, Clone)]
pub struct GetLastTranscriptionParams {
    pub session_id: Option<String>,
}

/// Parameters of the tool that lists the audio devices.
#[derive(Debug, Clone)]
pub struct ListAudioDevicesParams {}

/// Parameters of the tool that configures audio capture.
#[derive(Debug, Clone)]
pub struct ConfigureAudioParams {
    pub device_name: Option<String>,
    pub vad_sensitivity: Option<Level>,
}

/// Encoding of the default energy threshold, 0.01.
pub const DEFAULT_ENERGY_THRESHOLD_BITS: u32 = 0x3C23_D70A;

/// Settings of voice activity detection, as the tools show them.
#[derive(Debug, Clone, Copy, PartialEq, Eq, Structural)]
pub struct VadConfigInfo {
    pub energy_threshold: Level,
    pub speech_frames_threshold: u32,
    pub silence_frames_threshold: u32,
    pub min_speech_duration: u32,
}

impl VadConfigInfo {
    /// The default settings: threshold 0.01, three frames to enter speech,
    /// ten to leave it.
    pub open spec fn default_spec() -> VadConfigInfo {
        VadConfigInfo {
            energy_threshold: Level { bits: DEFAULT_ENERGY_THRESHOLD_BITS },
            speech_frames_threshold: 3,
            silence_frames_threshold: 10,
            min_speech_duration: 30,
        }
    }
}

impl Default for VadConfigInfo {
    fn default() -> (r: Self)
        ensures
            r == Self::default_spec(),
    {
        VadConfigInfo {
            energy_threshold: Level { bits: DEFAULT_ENERGY_THRESHOLD_BITS },
            speech_frames_threshold: 3,
            silence_frames_threshold: 10,
            min_speech_duration: 30,
        }
    }
}

/// A transcription, as the tools show it.
#[derive(Debug)]
pub struct TranscriptionResult {
    pub text: String,
    pub confidence: Option<Level>,
    pub start_ms: u64,
    pub end_ms: u64,
}

impl Clone for TranscriptionResult {
    fn clone(&self) -> (r: Self)
        ensures
            r == *self,
    {
        TranscriptionResult {
            text: self.text.clone(),
            confidence: self.confidence,
            start_ms: self.start_ms,
            end_ms: self.end_ms,
        }
    }
}

/// A timestamp as a time that is not before zero.
pub open spec fn not_negative(timestamp: i64) -> u64 {
    if timestamp >= 0 {
        timestamp as u64
    } else {
        0
    }
}

/// Computes `not_negative`.
fn clamp_timestamp(timestamp: i64) -> (r: u64)
    ensures
        r == not_negative(timestamp),
{
    if timestamp >= 0 {
        timestamp as u64
    } else {
        0
    }
}

impl From<Transcription> for TranscriptionResult {
    /// The transcription as the tools show it: with no confidence, and
    /// with a span that does not start or end before zero.
    fn from(tx: Transcription) -> (r: Self) {
        TranscriptionResult {
            text: tx.text,
            confidence: None,
            start_ms: clamp_timestamp(tx.start_timestamp),
            end_ms: clamp_timestamp(tx.end_timestamp),
        }
    }
}

impl FromSpecImpl<Transcription> for TranscriptionResult {
    open spec fn obeys_from_spec() -> bool {
        true
    }

    open spec fn from_spec(tx: Transcription) -> Self {
        TranscriptionResult {
            text: tx.text,
            confidence: None,
            start_ms: not_negative(tx.start_timestamp),
            end_ms: not_negative(tx.end_timestamp),
        }
    }
}

/// Result of the tool that transcribes an audio clip.
#[derive(Debug)]
pub struct TranscribeClipResult {
    pub text: String,
    pub confidence: Option<Level>,
    pub start_ms: u64,
    pub end_ms: u64,
}

/// Result of the tool that starts listening.
#[derive(Debug)]
pub struct StartListeningResult {
    pub session_id: String,
    pub status: String,
    /// Milliseconds since the start of 1970 in UTC.
    pub start_time: i64,
    pub model_path: String,
    pub language: Option<String>,
    pub use_gpu: bool,
}

/// Result of the tool that stops listening.
#[derive(Debug)]
pub struct StopListeningResult {
    pub session_id: String,
    pub status: String,
    pub duration_ms: u64,
    pub samples_captured: usize,
    pub transcription: Option<TranscriptionResult>,
    pub error: Option<String>,
}

/// Result of the tool that gets the last transcription.
#[derive(Debug)]
pub struct LastTranscriptionResult {
    pub session_id: String,
    /// Milliseconds since the start of 1970 in UTC.
    pub timestamp: i64,
    pub text: String,
    pub confidence: Option<Level>,
    pub start_ms: u64,
    pub end_ms: u64,
    pub model_path: String,
    pub language: Option<String>,
}

/// Information about an audio device.
#[derive(Debug, Clone)]
pub struct AudioDeviceInfo {
    /// The name of the audio device.
    pub name: String,
    /// Indication if this is the default device.
    pub is_default: bool,
}

/// Result containing the list of audio devices and the default device.
#[derive(Debug)]
pub struct AudioDevicesListResult {
    /// Vector of all available audio devices.
    pub devices: Vec<AudioDeviceInfo>,
    /// The default audio device identified.
    pub default_device: String,
}

/// Configuration result detailing default and available audio devices.
#[derive(Debug)]
pub struct AudioConfigurationResult {
    /// The configured default device.
    pub default_device: Option<String>,
    /// Configuration for VAD (Voice Activity Detection).
    pub vad_config: VadConfigInfo,
    /// Available audio devices as a list.
    pub available_devices: Vec<AudioDeviceInfo>,
}

} // verus!
