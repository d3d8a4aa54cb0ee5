//! Audio format configuration.

use vstd::prelude::*;

verus! {

/// Sample format types.
#[derive(Debug, Clone, Copy, PartialEq, Eq, Structural)]
pub enum AudioSampleFormat {
    /// 32-bit floating point.
    F32,
    /// 16-bit signed integer.
    I16,
}

/// Audio format specification for capture.
#[derive(Debug, Clone, Copy, PartialEq, Eq, Structural)]
pub struct AudioFormat {
    /// Sample rate in Hz.
    pub sample_rate: u32,
    /// Number of channels (1 = mono, 2 = stereo).
    pub channels: u16,
    /// Sample format.
    pub sample_format: AudioSampleFormat,
}

impl AudioFormat {
    /// Speech-to-text optimized format: 16kHz mono f32.
    pub fn stt_default() -> (r: Self)
        ensures
            r == (AudioFormat {
                sample_rate: 16000,
                channels: 1,
                sample_format: AudioSampleFormat::F32,
            }),
    {
        AudioFormat { sample_rate: 16000, channels: 1, sample_format: AudioSampleFormat::F32 }
    }

    /// Check if this format matches a supported stream configuration,
    /// given by its sample format, where it is one of those known here,
    /// its number of channels and its sample rate.
    pub fn matches_config(
        &self,
        sample_format: Option<AudioSampleFormat>,
        channels: u16,
        sample_rate: u32,
    ) -> (r: bool)
        ensures
            r == (sample_format == Some(self.sample_format) && channels == self.channels
                && sample_rate == self.sample_rate),
    {
        let same_format = match sample_format {
            Some(format) => format == self.sample_format,
            None => false,
        };
        same_format && channels == self.channels && sample_rate == self.sample_rate
    }

    /// Create a new audio format.
    pub fn new(sample_rate: u32, channels: u16, sample_format: AudioSampleFormat) -> (r: Self)
        ensures
            r == (AudioFormat { sample_rate, channels, sample_format }),
    {
        AudioFormat { sample_rate, channels, sample_format }
    }
}

impl Default for AudioFormat {
    /// Default format: 48kHz stereo f32 (hardware-native for most devices).
    fn default() -> (r: Self)
        ensures
            r == (AudioFormat {
                sample_rate: 48000,
                channels: 2,
                sample_format: AudioSampleFormat::F32,
            }),
    {
        AudioFormat { sample_rate: 48000, channels: 2, sample_format: AudioSampleFormat::F32 }
    }
}

} // verus!
