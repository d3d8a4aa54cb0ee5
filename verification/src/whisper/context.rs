//! What surrounds an inference call: the check of the audio that goes in,
//! the length of resampled audio, and the text that comes out.

use vstd::prelude::*;
use vstd::string::{StringExecFns, StringSliceAdditionalSpecFns};
use crate::level::Level;
use crate::text::trimmed;
use crate::trusted::trim;
use super::error::{Transcription, WhisperError, WhisperResult};

verus! {

/// The least number of samples that can be transcribed.
pub const MIN_AUDIO_SAMPLES: usize = 100;

/// What is said of audio with no samples.
pub open spec fn empty_audio_message() -> Seq<char> {
    "Audio data is empty"@
}

/// What is said of audio with too few samples.
pub open spec fn short_audio_message() -> Seq<char> {
    "Audio data too short"@
}

/// What is said of audio with a sample that is no finite number.
pub open spec fn non_finite_audio_message() -> Seq<char> {
    "Audio data contains NaN or infinite values"@
}

/// Checks audio before it reaches the inference engine.
///
/// The audio is given by its number of samples and by whether all of its
/// samples are finite numbers. It is refused where it is empty, where it
/// is shorter than `MIN_AUDIO_SAMPLES`, and where a sample is not finite,
/// in this order.
pub fn validate_audio(sample_count: usize, all_finite: bool) -> (r: WhisperResult<()>)
    ensures
        r is Ok <==> sample_count >= MIN_AUDIO_SAMPLES && all_finite,
        r is Err ==> r->Err_0 is InvalidAudio,
        r is Err ==> r->Err_0->InvalidAudio_0@ == if sample_count == 0 {
            empty_audio_message()
        } else if sample_count < MIN_AUDIO_SAMPLES {
            short_audio_message()
        } else {
            non_finite_audio_message()
        },
{
    if sample_count == 0 {
        return Err(WhisperError::InvalidAudio(String::from_str("Audio data is empty")));
    }
    if sample_count < MIN_AUDIO_SAMPLES {
        return Err(WhisperError::InvalidAudio(String::from_str("Audio data too short")));
    }
    if !all_finite {
        return Err(
            WhisperError::InvalidAudio(
                String::from_str("Audio data contains NaN or infinite values"),
            ),
        );
    }
    Ok(())
}

/// Whether each of the samples, given as the 32 bits of its encoding, is a
/// finite number.
pub open spec fn all_finite(samples: Seq<u32>) -> bool {
    forall|i: int| 0 <= i < samples.len() ==> (Level { bits: #[trigger] samples[i] }).spec_is_finite()
}

/// Whether each of the samples is a finite number.
pub fn samples_finite(samples: &[u32]) -> (r: bool)
    ensures
        r == all_finite(samples@),
{
    let mut i: usize = 0;
    while i < samples.len()
        invariant
            i <= samples@.len(),
            forall|k: int|
                0 <= k < i ==> (Level { bits: #[trigger] samples@[k] }).spec_is_finite(),
        decreases samples@.len() - i,
    {
        if !Level::from_bits(samples[i]).is_finite() {
            return false;
        }
        i = i + 1;
    }
    true
}

/// Checks audio, given as the 32 bits of the encoding of each sample,
/// before it reaches the inference engine: as `validate_audio` does for
/// the number of the samples and for whether all of them are finite.
pub fn validate_samples(samples: &[u32]) -> (r: WhisperResult<()>)
    ensures
        r is Ok <==> samples@.len() >= MIN_AUDIO_SAMPLES && all_finite(samples@),
        r is Err ==> r->Err_0 is InvalidAudio,
        r is Err ==> r->Err_0->InvalidAudio_0@ == if samples@.len() == 0 {
            empty_audio_message()
        } else if samples@.len() < MIN_AUDIO_SAMPLES {
            short_audio_message()
        } else {
            non_finite_audio_message()
        },
{
    if samples.len() < MIN_AUDIO_SAMPLES {
        return validate_audio(samples.len(), true);
    }
    validate_audio(samples.len(), samples_finite(samples))
}

/// The number of samples that `input_len` samples at `from_rate` Hz become
/// at `to_rate` Hz: `input_len` over the ratio of the rates, rounded up.
pub open spec fn resampled_count(input_len: nat, from_rate: nat, to_rate: nat) -> nat {
    (input_len * to_rate + from_rate - 1) as nat / from_rate
}

/// `resampled_count`, cut off at the largest `usize`.
pub open spec fn resampled_count_usize(input_len: nat, from_rate: nat, to_rate: nat) -> nat {
    if resampled_count(input_len, from_rate, to_rate) <= usize::MAX {
        resampled_count(input_len, from_rate, to_rate)
    } else {
        usize::MAX as nat
    }
}

/// The number of samples that resampling `input_len` samples from
/// `from_rate` Hz to `to_rate` Hz gives.
pub fn resampled_len(input_len: usize, from_rate: u32, to_rate: u32) -> (r: usize)
    requires
        from_rate > 0,
    ensures
        r as nat == resampled_count_usize(input_len as nat, from_rate as nat, to_rate as nat),
        from_rate == to_rate ==> r == input_len,
{
    assert((input_len as nat) * (to_rate as nat) <= (usize::MAX as nat) * (u32::MAX as nat))
        by (nonlinear_arith)
        requires
            input_len <= usize::MAX,
            to_rate <= u32::MAX,
    ;
    let scaled: u128 = (input_len as u128) * (to_rate as u128) + (from_rate as u128 - 1);
    let count: u128 = scaled / (from_rate as u128);
    proof {
        if from_rate == to_rate {
            lemma_same_rate(input_len as nat, from_rate as nat);
        }
    }
    if count <= usize::MAX as u128 {
        count as usize
    } else {
        usize::MAX
    }
}

/// Resampling to the same rate keeps the number of samples.
pub proof fn lemma_same_rate(input_len: nat, rate: nat)
    requires
        rate > 0,
    ensures
        resampled_count(input_len, rate, rate) == input_len,
{
    vstd::arithmetic::div_mod::lemma_fundamental_div_mod_converse(
        (input_len * rate + rate - 1) as int,
        rate as int,
        input_len as int,
        (rate - 1) as int,
    );
}

/// One segment of text that the inference engine gives.
#[derive(Debug, Clone)]
pub struct Segment {
    /// The text of the segment.
    pub text: String,
    /// Start timestamp of the segment.
    pub start_timestamp: i64,
    /// End timestamp of the segment.
    pub end_timestamp: i64,
}

/// What is gathered from segments: the text so far and its time span.
pub struct Gathered {
    pub text: Seq<char>,
    pub start_timestamp: i64,
    pub end_timestamp: i64,
}

/// What is gathered after one more segment: the trimmed text of the
/// segment is added to the text, after a space where both the text so far
/// and the trimmed text are not empty; the span starts with the segment
/// where no text was gathered before it, and ends with the segment.
pub open spec fn gather_one(so_far: Gathered, segment: Segment) -> Gathered {
    let piece = trimmed(segment.text@);
    Gathered {
        text: if so_far.text.len() > 0 && piece.len() > 0 {
            so_far.text + seq![' '] + piece
        } else {
            so_far.text + piece
        },
        start_timestamp: if so_far.text.len() == 0 {
            segment.start_timestamp
        } else {
            so_far.start_timestamp
        },
        end_timestamp: segment.end_timestamp,
    }
}

/// What is gathered from the first `count` segments.
pub open spec fn gather(segments: Seq<Segment>, count: nat) -> Gathered
    decreases count,
{
    if count == 0 || count > segments.len() {
        Gathered { text: Seq::empty(), start_timestamp: 0, end_timestamp: 0 }
    } else {
        gather_one(gather(segments, (count - 1) as nat), segments[count - 1])
    }
}

/// Puts the segments of an inference pass together into one transcription:
/// the trimmed texts of the segments with single spaces between them,
/// trimmed, from the start of the first segment to the end of the last.
pub fn assemble_segments(segments: &Vec<Segment>) -> (r: Transcription)
    ensures
        r.text@ == trimmed(gather(segments@, segments@.len()).text),
        r.start_timestamp == gather(segments@, segments@.len()).start_timestamp,
        r.end_timestamp == gather(segments@, segments@.len()).end_timestamp,
{
    let mut text = String::new();
    let mut start_timestamp: i64 = 0;
    let mut end_timestamp: i64 = 0;
    let mut i: usize = 0;
    while i < segments.len()
        invariant
            i <= segments@.len(),
            text@ == gather(segments@, i as nat).text,
            start_timestamp == gather(segments@, i as nat).start_timestamp,
            end_timestamp == gather(segments@, i as nat).end_timestamp,
        decreases segments@.len() - i,
    {
        let segment = &segments[i];
        let piece = trim(segment.text.as_str());
        if text.as_str().is_empty() {
            start_timestamp = segment.start_timestamp;
        }
        end_timestamp = segment.end_timestamp;
        if !text.as_str().is_empty() && !piece.is_empty() {
            text.append(" ");
            proof {
                reveal_strlit(" ");
                assert(" "@ =~= seq![' ']);
            }
        }
        text.append(piece);
        i = i + 1;
    }
    let whole = String::from_str(trim(text.as_str()));
    Transcription::new(whole, start_timestamp, end_timestamp)
}

} // verus!
