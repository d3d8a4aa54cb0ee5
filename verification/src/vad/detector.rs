//! Voice activity detection using an energy-based approach.
//!
//! The detector is a state machine that takes one frame at a time. It does
//! not look at samples: a frame comes as its number of samples and its
//! energy, the root of the mean of the squared samples.

use vstd::prelude::*;
use super::config::{VadConfig, VadError, VadResult};
use crate::level::Level;

verus! {

/// One more than `n`, or `n` where that is the largest count.
pub open spec fn bump(n: usize) -> usize {
    if n < usize::MAX {
        (n + 1) as usize
    } else {
        n
    }
}

/// What a detector remembers between frames.
#[derive(Debug, Clone, Copy, PartialEq, Eq, Structural)]
pub struct VadState {
    /// Frames at or above the threshold since silence was last confirmed.
    pub speech_frame_count: usize,
    /// Consecutive frames below the threshold.
    pub silence_frame_count: usize,
    /// The state the detector is in.
    pub current_state: VadResult,
    /// Frames that ended in speech since silence was last confirmed.
    pub speech_segment_length: usize,
}

impl VadState {
    /// The state of a new detector: silence, all counters zero.
    pub open spec fn initial() -> VadState {
        VadState {
            speech_frame_count: 0,
            silence_frame_count: 0,
            current_state: VadResult::Silence,
            speech_segment_length: 0,
        }
    }

    /// The state with the segment length counted up where it is speech.
    pub open spec fn with_segment_counted(self) -> VadState {
        if self.current_state == VadResult::Speech {
            VadState { speech_segment_length: bump(self.speech_segment_length), ..self }
        } else {
            self
        }
    }

    /// The state after a frame whose energy is at least the threshold: the
    /// speech frames are counted up, the run of silent frames ends, and
    /// with enough speech frames the state is speech.
    pub open spec fn after_speech_frame(self, config: VadConfig) -> VadState {
        let speech = bump(self.speech_frame_count);
        VadState {
            speech_frame_count: speech,
            silence_frame_count: 0,
            current_state: if speech >= config.speech_frames_threshold {
                VadResult::Speech
            } else {
                self.current_state
            },
            speech_segment_length: self.speech_segment_length,
        }.with_segment_counted()
    }

    /// The state after a frame whose energy is below the threshold: the run
    /// of silent frames is counted up, and once it is long enough the state
    /// is silence and all counters start again from zero.
    pub open spec fn after_quiet_frame(self, config: VadConfig) -> VadState {
        let silence = bump(self.silence_frame_count);
        if silence >= config.silence_frames_threshold {
            VadState::initial()
        } else {
            VadState { silence_frame_count: silence, ..self }.with_segment_counted()
        }
    }

    /// The state after a frame of `sample_count` samples and the given
    /// energy. An empty frame changes nothing.
    pub open spec fn after_frame(
        self,
        config: VadConfig,
        sample_count: usize,
        energy: Level,
    ) -> VadState {
        if sample_count == 0 {
            self
        } else if energy.spec_ge(config.energy_threshold) {
            self.after_speech_frame(config)
        } else {
            self.after_quiet_frame(config)
        }
    }
}

/// Computes `bump`.
fn bumped(n: usize) -> (r: usize)
    ensures
        r == bump(n),
{
    if n < usize::MAX {
        n + 1
    } else {
        n
    }
}

/// Voice Activity Detector (energy-based).
pub struct VadDetector {
    config: VadConfig,
    state: VadState,
}

impl VadDetector {
    /// The configuration of the detector.
    pub closed spec fn spec_config(&self) -> VadConfig {
        self.config
    }

    /// What the detector remembers.
    pub closed spec fn spec_state(&self) -> VadState {
        self.state
    }

    /// Create a new VAD detector with the default configuration.
    pub fn new() -> (r: Self)
        ensures
            r.spec_config() == VadConfig::spec_default(),
            r.spec_state() == VadState::initial(),
    {
        VadDetector {
            config: VadConfig::default(),
            state: VadState {
                speech_frame_count: 0,
                silence_frame_count: 0,
                current_state: VadResult::Silence,
                speech_segment_length: 0,
            },
        }
    }

    /// Create a new VAD detector with custom config.
    pub fn with_config(config: VadConfig) -> (r: Self)
        ensures
            r.spec_config() == config,
            r.spec_state() == VadState::initial(),
    {
        VadDetector {
            config,
            state: VadState {
                speech_frame_count: 0,
                silence_frame_count: 0,
                current_state: VadResult::Silence,
                speech_segment_length: 0,
            },
        }
    }

    /// Initialize the VAD. An energy-based detector needs no preparation.
    pub fn init(&mut self) -> (r: Result<(), VadError>)
        ensures
            r is Ok,
            *final(self) == *old(self),
    {
        Ok(())
    }

    /// Check if the detector is initialized (always true for energy-based).
    pub fn is_initialized(&self) -> (r: bool)
        ensures
            r,
    {
        true
    }

    /// Process an audio frame and detect speech.
    ///
    /// The frame is given by its number of samples and its energy. An empty
    /// frame gives `Unknown` and leaves the detector as it is. Any other
    /// frame moves the detector on and gives the state it is then in.
    pub fn process_frame(&mut self, sample_count: usize, energy: Level) -> (r: Result<
        VadResult,
        VadError,
    >)
        ensures
            final(self).spec_config() == old(self).spec_config(),
            final(self).spec_state() == old(self).spec_state().after_frame(
                old(self).spec_config(),
                sample_count,
                energy,
            ),
            r is Ok,
            r->Ok_0 == if sample_count == 0 {
                VadResult::Unknown
            } else {
                final(self).spec_state().current_state
            },
    {
        if sample_count == 0 {
            return Ok(VadResult::Unknown);
        }
        let has_speech_energy = energy.ge(&self.config.energy_threshold);

        let new_state = if has_speech_energy {
            self.state.speech_frame_count = bumped(self.state.speech_frame_count);
            self.state.silence_frame_count = 0;

            if self.state.speech_frame_count >= self.config.speech_frames_threshold {
                VadResult::Speech
            } else {
                self.state.current_state
            }
        } else {
            self.state.silence_frame_count = bumped(self.state.silence_frame_count);

            if self.state.silence_frame_count >= self.config.silence_frames_threshold {
                self.state.speech_frame_count = 0;
                self.state.silence_frame_count = 0;
                self.state.speech_segment_length = 0;
                VadResult::Silence
            } else {
                self.state.current_state
            }
        };

        if new_state == VadResult::Speech {
            self.state.speech_segment_length = bumped(self.state.speech_segment_length);
        }
        self.state.current_state = new_state;
        Ok(new_state)
    }

    /// Get the current energy threshold.
    pub fn threshold(&self) -> (r: Level)
        ensures
            r == self.spec_config().energy_threshold,
    {
        self.config.energy_threshold
    }

    /// Update the energy threshold, restricted to the range from zero to one.
    pub fn set_threshold(&mut self, threshold: Level)
        ensures
            final(self).spec_config() == (VadConfig {
                energy_threshold: threshold.spec_clamp_unit(),
                ..old(self).spec_config()
            }),
            final(self).spec_state() == old(self).spec_state(),
    {
        self.config.energy_threshold = threshold.clamp_unit();
    }

    /// Get the configuration.
    pub fn config(&self) -> (r: VadConfig)
        ensures
            r == self.spec_config(),
    {
        self.config
    }

    /// Replace the configuration. What the detector remembers stays.
    pub fn set_config(&mut self, config: VadConfig)
        ensures
            final(self).spec_config() == config,
            final(self).spec_state() == old(self).spec_state(),
    {
        self.config = config;
    }

    /// Get the current state.
    pub fn current_state(&self) -> (r: VadResult)
        ensures
            r == self.spec_state().current_state,
    {
        self.state.current_state
    }

    /// Get all that the detector remembers.
    pub fn state(&self) -> (r: VadState)
        ensures
            r == self.spec_state(),
    {
        self.state
    }

    /// Reset the detector state: silence, all counters zero.
    pub fn reset(&mut self)
        ensures
            final(self).spec_config() == old(self).spec_config(),
            final(self).spec_state() == VadState::initial(),
    {
        self.state.speech_frame_count = 0;
        self.state.silence_frame_count = 0;
        self.state.current_state = VadResult::Silence;
        self.state.speech_segment_length = 0;
    }
}

impl Default for VadDetector {
    fn default() -> (r: Self)
        ensures
            r.spec_config() == VadConfig::spec_default(),
            r.spec_state() == VadState::initial(),
    {
        Self::new()
    }
}

} // verus!
