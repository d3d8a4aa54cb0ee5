//! Configuration, results and errors of voice activity detection.

use vstd::prelude::*;
use vstd::string::StringExecFns;
use crate::level::Level;

verus! {

/// Encoding of the default energy threshold, 0.01.
pub const DEFAULT_THRESHOLD_BITS: u32 = 0x3C23_D70A;

/// Encoding of the sensitive energy threshold, 0.005.
pub const SENSITIVE_THRESHOLD_BITS: u32 = 0x3BA3_D70A;

/// Encoding of the strict energy threshold, 0.02.
pub const STRICT_THRESHOLD_BITS: u32 = 0x3CA3_D70A;

/// Configuration for VAD processing.
#[derive(Debug, Clone, Copy, PartialEq, Eq, Structural)]
pub struct VadConfig {
    /// Energy threshold for speech detection (0.0 to 1.0): a frame whose
    /// energy is at least this is a potential speech frame.
    pub energy_threshold: Level,
    /// Number of frames above threshold to trigger speech detection.
    pub speech_frames_threshold: usize,
    /// Number of frames below threshold to trigger silence.
    pub silence_frames_threshold: usize,
    /// Minimum duration for a speech segment (in frames).
    pub min_speech_duration: usize,
}

impl VadConfig {
    /// The default configuration: threshold 0.01, three frames to enter
    /// speech, ten to leave it.
    pub open spec fn spec_default() -> VadConfig {
        VadConfig {
            energy_threshold: Level { bits: DEFAULT_THRESHOLD_BITS },
            speech_frames_threshold: 3,
            silence_frames_threshold: 10,
            min_speech_duration: 30,
        }
    }

    /// Create a new VAD config with a custom energy threshold, restricted
    /// to the range from zero to one.
    pub fn with_energy_threshold(threshold: Level) -> (r: Self)
        ensures
            r == (VadConfig {
                energy_threshold: threshold.spec_clamp_unit(),
                ..Self::spec_default()
            }),
    {
        VadConfig {
            energy_threshold: threshold.clamp_unit(),
            speech_frames_threshold: 3,
            silence_frames_threshold: 10,
            min_speech_duration: 30,
        }
    }

    /// Create a sensitive config (lower threshold, more detections):
    /// threshold 0.005, two frames to enter speech, fifteen to leave it.
    pub fn sensitive() -> (r: Self)
        ensures
            r == (VadConfig {
                energy_threshold: Level { bits: SENSITIVE_THRESHOLD_BITS },
                speech_frames_threshold: 2,
                silence_frames_threshold: 15,
                ..Self::spec_default()
            }),
    {
        VadConfig {
            energy_threshold: Level { bits: SENSITIVE_THRESHOLD_BITS },
            speech_frames_threshold: 2,
            silence_frames_threshold: 15,
            min_speech_duration: 30,
        }
    }

    /// Create a strict config (higher threshold, fewer detections):
    /// threshold 0.02, five frames to enter speech, eight to leave it.
    pub fn strict() -> (r: Self)
        ensures
            r == (VadConfig {
                energy_threshold: Level { bits: STRICT_THRESHOLD_BITS },
                speech_frames_threshold: 5,
                silence_frames_threshold: 8,
                ..Self::spec_default()
            }),
    {
        VadConfig {
            energy_threshold: Level { bits: STRICT_THRESHOLD_BITS },
            speech_frames_threshold: 5,
            silence_frames_threshold: 8,
            min_speech_duration: 30,
        }
    }
}

impl Default for VadConfig {
    fn default() -> (r: Self)
        ensures
            r == Self::spec_default(),
    {
        VadConfig {
            energy_threshold: Level { bits: DEFAULT_THRESHOLD_BITS },
            speech_frames_threshold: 3,
            silence_frames_threshold: 10,
            min_speech_duration: 30,
        }
    }
}

/// Result of VAD processing.
#[derive(Debug, Clone, Copy, PartialEq, Eq, Structural)]
pub enum VadResult {
    /// Speech detected.
    Speech,
    /// Silence detected.
    Silence,
    /// Not enough data to determine.
    Unknown,
}

/// Error type for VAD operations.
#[derive(Debug)]
pub enum VadError {
    /// The audio buffer cannot be processed.
    InvalidBuffer(String),
}

impl VadError {
    /// The error as text.
    pub fn to_string(&self) -> (r: String)
        ensures
            r@ == "Invalid audio buffer: "@ + self->InvalidBuffer_0@,
    {
        match self {
            VadError::InvalidBuffer(reason) => {
                String::from_str("Invalid audio buffer: ").concat(reason.as_str())
            },
        }
    }
}

} // verus!
