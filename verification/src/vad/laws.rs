//! What holds of the detector over runs of frames.

use vstd::prelude::*;
use super::config::{VadConfig, VadResult};
use super::detector::VadState;

verus! {

/// The state after `count` frames in a row at or above the threshold.
pub open spec fn after_speech_frames(state: VadState, config: VadConfig, count: nat) -> VadState
    decreases count,
{
    if count == 0 {
        state
    } else {
        after_speech_frames(state, config, (count - 1) as nat).after_speech_frame(config)
    }
}

/// The state after `count` frames in a row below the threshold.
pub open spec fn after_quiet_frames(state: VadState, config: VadConfig, count: nat) -> VadState
    decreases count,
{
    if count == 0 {
        state
    } else {
        after_quiet_frames(state, config, (count - 1) as nat).after_quiet_frame(config)
    }
}

/// Debounce: a detector that is not in speech stays out of speech through
/// every run of frames at or above the threshold that leaves the count of
/// speech frames under the speech threshold, and through one frame below
/// the threshold after it. With no speech frame counted before, that is
/// every run of one frame fewer than the speech threshold.
pub proof fn lemma_debounce_holds(state: VadState, config: VadConfig, count: nat)
    requires
        state.current_state != VadResult::Speech,
        state.speech_frame_count + count < config.speech_frames_threshold,
    ensures
        forall|n: nat|
            n <= count ==> (#[trigger] after_speech_frames(state, config, n)).current_state
                != VadResult::Speech,
        after_speech_frames(state, config, count).speech_frame_count == state.speech_frame_count
            + count,
        after_speech_frames(state, config, count).after_quiet_frame(config).current_state
            != VadResult::Speech,
    decreases count,
{
    if count > 0 {
        lemma_debounce_holds(state, config, (count - 1) as nat);
    }
}

/// Hangover: a detector in speech stays in speech through every run of
/// frames below the threshold that leaves the run of silent frames under
/// the silence threshold.
pub proof fn lemma_hangover_holds(state: VadState, config: VadConfig, count: nat)
    requires
        state.current_state == VadResult::Speech,
        state.silence_frame_count + count < config.silence_frames_threshold,
    ensures
        after_quiet_frames(state, config, count).current_state == VadResult::Speech,
        after_quiet_frames(state, config, count).silence_frame_count == state.silence_frame_count
            + count,
        after_quiet_frames(state, config, count).speech_frame_count == state.speech_frame_count,
    decreases count,
{
    if count > 0 {
        lemma_hangover_holds(state, config, (count - 1) as nat);
    }
}

/// Whether silence is confirmed: the state is silence, and neither a
/// speech frame nor a frame of a speech segment is counted.
pub open spec fn silence_confirmed(state: VadState) -> bool {
    &&& state.current_state == VadResult::Silence
    &&& state.speech_frame_count == 0
    &&& state.speech_segment_length == 0
}

/// As many frames in a row below the threshold as the silence threshold
/// asks for, one at least, end in silence with the segment length and the
/// count of speech frames at zero, whatever the state before: so they do
/// after speech.
pub proof fn lemma_silence_confirmed(state: VadState, config: VadConfig)
    requires
        config.silence_frames_threshold >= 1,
    ensures
        silence_confirmed(
            after_quiet_frames(state, config, config.silence_frames_threshold as nat),
        ),
{
    lemma_quiet_run(state, config, config.silence_frames_threshold as nat);
}

/// In a run of one or more frames below the threshold that is no longer
/// than the silence threshold, either each frame was counted and the
/// threshold is not reached, or silence was confirmed.
proof fn lemma_quiet_run(state: VadState, config: VadConfig, count: nat)
    requires
        count <= config.silence_frames_threshold,
    ensures
        ({
            let after = after_quiet_frames(state, config, count);
            ||| count == 0
            ||| count <= after.silence_frame_count < config.silence_frames_threshold
            ||| silence_confirmed(after)
        }),
    decreases count,
{
    if count > 0 {
        lemma_quiet_run(state, config, (count - 1) as nat);
    }
}

} // verus!
