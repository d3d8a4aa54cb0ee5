//! Incremental transcriber.
//!
//! The transcriber owns a sliding window of audio. Audio is pushed into the
//! window as it is captured. At a cadence of the caller's choice the
//! contents of the window are handed to a transcription function, and the
//! text that comes back is emitted unless it is too short or repeats what
//! was emitted before. The transcriber is exclusive to its owner; the
//! module `shared` puts it behind a lock.

use vstd::prelude::*;
use vstd::string::{StringExecFns, StringSliceAdditionalSpecFns};
use vstd::utf8::encode_utf8;
use crate::text::trimmed;
use crate::trusted::trim;
use crate::whisper::error::{Transcription, WhisperError};
use crate::window::buffer::{
    last_items, overflow_of, SlidingWindow, WindowConfig, WindowError,
};
use crate::window::seconds::Seconds;
use super::dedup::{duplicates, is_duplicate};

verus! {

/// The least number of samples worth a transcription pass: a tenth of a
/// second at 16 kHz.
pub const MIN_WINDOW_SAMPLES: usize = 1600;

/// The share of the last emitted text, in hundredths, that an overlap with
/// a new text must reach for the new text to be a duplicate.
pub const DUPLICATE_THRESHOLD_PERCENT: u32 = 80;

/// Configuration for incremental transcription.
#[derive(Debug, Clone, Copy, PartialEq)]
pub struct TranscriberConfig {
    /// The cadence at which the caller is to run a transcription pass.
    pub transcription_interval_ms: u64,
    /// The least length, in bytes, of a text that is emitted.
    pub min_text_length: usize,
    /// Duration of the window.
    pub window_duration_secs: Seconds,
    /// Sample rate of the audio in Hz.
    pub sample_rate: u32,
}

impl TranscriberConfig {
    /// The configuration of the window that this configuration asks for.
    pub open spec fn window_config(&self) -> WindowConfig {
        WindowConfig { duration_secs: self.window_duration_secs, sample_rate: self.sample_rate }
    }
}

impl Default for TranscriberConfig {
    /// A pass every half second, texts of three bytes or more, a window of
    /// three seconds at 16 kHz.
    fn default() -> (r: Self)
        ensures
            r == (TranscriberConfig {
                transcription_interval_ms: 500,
                min_text_length: 3,
                window_duration_secs: Seconds { numer: 3, denom: 1 },
                sample_rate: 16000,
            }),
    {
        TranscriberConfig {
            transcription_interval_ms: 500,
            min_text_length: 3,
            window_duration_secs: Seconds { numer: 3, denom: 1 },
            sample_rate: 16000,
        }
    }
}

/// Partial transcription result.
#[derive(Debug, Clone)]
pub struct PartialResult {
    /// The text of the pass, trimmed.
    pub text: String,
    /// Whether the text is final. A pass over the window gives a text that
    /// is not.
    pub is_final: bool,
    /// When the result was made, in milliseconds since the start of 1970
    /// in UTC.
    pub timestamp: i64,
    /// The number of samples the text was made from.
    pub sample_count: usize,
}

impl PartialResult {
    /// A result made at the given time.
    pub fn new(text: String, sample_count: usize, is_final: bool, timestamp: i64) -> (r: Self)
        ensures
            r.text == text,
            r.sample_count == sample_count,
            r.is_final == is_final,
            r.timestamp == timestamp,
    {
        PartialResult { text, is_final, timestamp, sample_count }
    }
}

/// The text that a pass emits, if it emits one: the trimmed text of a pass
/// that succeeded, unless that is shorter than `min_text_length` bytes or
/// repeats the text emitted last.
pub open spec fn emitted_text(
    last_text: Seq<char>,
    outcome: Result<Transcription, WhisperError>,
    min_text_length: usize,
) -> Option<Seq<char>> {
    match outcome {
        Err(_) => None,
        Ok(transcription) => {
            let text = trimmed(transcription.text@);
            if encode_utf8(text).len() < min_text_length {
                None
            } else if duplicates(
                encode_utf8(last_text),
                encode_utf8(text),
                DUPLICATE_THRESHOLD_PERCENT as nat,
            ) {
                None
            } else {
                Some(text)
            }
        },
    }
}

/// Incremental transcriber: a window of audio and the text emitted last.
pub struct IncrementalTranscriber<T> {
    window: SlidingWindow<T>,
    last_text: String,
    config: TranscriberConfig,
}

impl<T> IncrementalTranscriber<T> {
    /// The invariant of the transcriber: its window is well-formed and is
    /// the one that its configuration asks for.
    pub closed spec fn wf(&self) -> bool {
        &&& self.window.wf()
        &&& self.window.spec_config() == self.config.window_config()
    }

    /// The samples in the window, oldest first.
    pub closed spec fn spec_audio(&self) -> Seq<T> {
        self.window@
    }

    /// The number of samples the window can hold.
    pub closed spec fn spec_capacity(&self) -> nat {
        self.window.spec_capacity()
    }

    /// The text emitted last, empty where none was emitted since the
    /// transcriber was made or cleared.
    pub closed spec fn spec_last_text(&self) -> Seq<char> {
        self.last_text@
    }

    /// The configuration of the transcriber.
    pub closed spec fn spec_config(&self) -> TranscriberConfig {
        self.config
    }

    /// A well-formed transcriber holds at most the capacity of its window,
    /// which is the one its configuration gives and is not zero.
    pub proof fn lemma_bounds(&self)
        requires
            self.wf(),
        ensures
            self.spec_audio().len() <= self.spec_capacity(),
            self.spec_capacity() == self.spec_config().window_config().spec_buffer_capacity(),
            self.spec_capacity() > 0,
            self.spec_config().sample_rate > 0,
    {
        self.window.lemma_bounds();
    }
}

impl<T: Copy + Default> IncrementalTranscriber<T> {
    /// A transcriber with an empty window of the configured duration and
    /// sample rate. Fails where these give a window of no samples.
    pub fn new(config: TranscriberConfig) -> (r: Result<Self, WindowError>)
        ensures
            config.window_config().spec_buffer_capacity() == 0 <==> r is Err,
            r is Err ==> r->Err_0 == WindowError::ZeroCapacity,
            r is Ok ==> {
                &&& r->Ok_0.wf()
                &&& r->Ok_0.spec_config() == config
                &&& r->Ok_0.spec_audio() == Seq::<T>::empty()
                &&& r->Ok_0.spec_last_text() == Seq::<char>::empty()
            },
    {
        let window_config = WindowConfig {
            duration_secs: config.window_duration_secs,
            sample_rate: config.sample_rate,
        };
        match SlidingWindow::with_config(window_config) {
            Ok(window) => Ok(IncrementalTranscriber { window, last_text: String::new(), config }),
            Err(error) => Err(error),
        }
    }

    /// A transcriber with the default configuration.
    pub fn with_defaults() -> (r: Self)
        ensures
            r.wf(),
            r.spec_config() == (TranscriberConfig {
                transcription_interval_ms: 500,
                min_text_length: 3,
                window_duration_secs: Seconds { numer: 3, denom: 1 },
                sample_rate: 16000,
            }),
            r.spec_audio() == Seq::<T>::empty(),
            r.spec_last_text() == Seq::<char>::empty(),
    {
        IncrementalTranscriber {
            window: SlidingWindow::new(),
            last_text: String::new(),
            config: TranscriberConfig::default(),
        }
    }
}

impl<T: Copy> IncrementalTranscriber<T> {
    /// The configuration of the transcriber.
    pub fn config(&self) -> (r: TranscriberConfig)
        ensures
            r == self.spec_config(),
    {
        self.config
    }

    /// Pushes captured audio into the window and returns the number of
    /// samples that the window dropped. No transcription is run.
    pub fn push_audio(&mut self, samples: &[T]) -> (dropped: usize)
        requires
            old(self).wf(),
        ensures
            final(self).wf(),
            final(self).spec_config() == old(self).spec_config(),
            final(self).spec_capacity() == old(self).spec_capacity(),
            final(self).spec_last_text() == old(self).spec_last_text(),
            final(self).spec_audio() == last_items(
                old(self).spec_audio() + samples@,
                old(self).spec_capacity(),
            ),
            dropped as nat == overflow_of(
                old(self).spec_audio().len() + samples@.len(),
                old(self).spec_capacity(),
            ),
    {
        self.window.push(samples)
    }

    /// The audio for a transcription pass: the whole contents of the
    /// window, unless the window holds fewer than `MIN_WINDOW_SAMPLES`
    /// samples, which is too little to be worth a pass.
    pub fn pending_audio(&self) -> (r: Option<Vec<T>>)
        requires
            self.wf(),
        ensures
            r is Some <==> self.spec_audio().len() >= MIN_WINDOW_SAMPLES,
            r is Some ==> r->0@ == self.spec_audio(),
    {
        if self.window.len() < MIN_WINDOW_SAMPLES {
            None
        } else {
            Some(self.window.get_all())
        }
    }

    /// Takes the outcome of a transcription of `sample_count` samples at
    /// the time `timestamp`.
    ///
    /// A failed pass gives nothing: the next pass tries again with fresher
    /// audio. The text of a pass that succeeded is trimmed. It gives
    /// nothing where it is shorter than the configured least length or
    /// repeats the text emitted last. Otherwise it is emitted, as a result
    /// that is not final, and is from then on the text emitted last.
    pub fn accept(
        &mut self,
        outcome: Result<Transcription, WhisperError>,
        sample_count: usize,
        timestamp: i64,
    ) -> (r: Option<PartialResult>)
        requires
            old(self).wf(),
        ensures
            final(self).wf(),
            final(self).spec_config() == old(self).spec_config(),
            final(self).spec_capacity() == old(self).spec_capacity(),
            final(self).spec_audio() == old(self).spec_audio(),
            r is Some <==> emitted_text(
                old(self).spec_last_text(),
                outcome,
                old(self).spec_config().min_text_length,
            ) is Some,
            r is Some ==> {
                &&& Some(r->0.text@) == emitted_text(
                    old(self).spec_last_text(),
                    outcome,
                    old(self).spec_config().min_text_length,
                )
                &&& !r->0.is_final
                &&& r->0.sample_count == sample_count
                &&& r->0.timestamp == timestamp
                &&& final(self).spec_last_text() == r->0.text@
            },
            r is None ==> final(self).spec_last_text() == old(self).spec_last_text(),
    {
        match outcome {
            Ok(transcription) => {
                let text = String::from_str(trim(transcription.text.as_str()));
                if text.as_str().as_bytes().len() < self.config.min_text_length {
                    return None;
                }
                if is_duplicate(
                    self.last_text.as_str(),
                    text.as_str(),
                    DUPLICATE_THRESHOLD_PERCENT,
                ) {
                    return None;
                }
                self.last_text = text.clone();
                Some(PartialResult::new(text, sample_count, false, timestamp))
            },
            Err(_) => None,
        }
    }

    /// Runs one transcription pass over the window with the given
    /// transcription function, at the time `timestamp`.
    ///
    /// Where the window holds fewer than `MIN_WINDOW_SAMPLES` samples
    /// nothing is transcribed and nothing is emitted. Otherwise the
    /// function is called once, on the whole contents of the window and the
    /// configured sample rate, and what `accept` makes of its outcome is
    /// returned. The window stays as it is.
    pub fn transcribe_current<F>(&mut self, transcribe: F, timestamp: i64) -> (r: Option<
        PartialResult,
    >) where F: FnOnce(&[T], u32) -> Result<Transcription, WhisperError>

        requires
            old(self).wf(),
            forall|samples: &[T], sample_rate: u32|
                call_requires(transcribe, (samples, sample_rate)),
        ensures
            final(self).wf(),
            final(self).spec_config() == old(self).spec_config(),
            final(self).spec_capacity() == old(self).spec_capacity(),
            final(self).spec_audio() == old(self).spec_audio(),
            old(self).spec_audio().len() < MIN_WINDOW_SAMPLES ==> r is None,
            old(self).spec_audio().len() >= MIN_WINDOW_SAMPLES ==> exists|
                samples: &[T],
                outcome: Result<Transcription, WhisperError>,
            |
                {
                    &&& samples@ == old(self).spec_audio()
                    &&& call_ensures(
                        transcribe,
                        (samples, old(self).spec_config().sample_rate),
                        outcome,
                    )
                    &&& r is Some <==> emitted_text(
                        old(self).spec_last_text(),
                        outcome,
                        old(self).spec_config().min_text_length,
                    ) is Some
                    &&& r is Some ==> Some(r->0.text@) == emitted_text(
                        old(self).spec_last_text(),
                        outcome,
                        old(self).spec_config().min_text_length,
                    )
                },
            r is Some ==> !r->0.is_final && r->0.sample_count == old(self).spec_audio().len()
                && r->0.timestamp == timestamp && final(self).spec_last_text() == r->0.text@,
            r is None ==> final(self).spec_last_text() == old(self).spec_last_text(),
    {
        match self.pending_audio() {
            None => None,
            Some(window_data) => {
                let samples = window_data.as_slice();
                let outcome = transcribe(samples, self.config.sample_rate);
                let ghost witness = outcome;
                let result = self.accept(outcome, window_data.len(), timestamp);
                proof {
                    assert(samples@ == old(self).spec_audio());
                    assert(call_ensures(
                        transcribe,
                        (samples, old(self).spec_config().sample_rate),
                        witness,
                    ));
                }
                result
            },
        }
    }

    /// The duration of the audio in the window: the number of samples
    /// held over the sample rate.
    pub fn buffer_duration_secs(&self) -> (r: Seconds)
        requires
            self.wf(),
        ensures
            r == (Seconds {
                numer: self.spec_audio().len() as u64,
                denom: self.spec_config().sample_rate as u64,
            }),
            r.numer == self.spec_audio().len(),
            r.denom > 0,
    {
        self.window.duration_secs()
    }

    /// Empties the window and forgets the text emitted last: a fresh
    /// utterance starts.
    pub fn clear(&mut self)
        requires
            old(self).wf(),
        ensures
            final(self).wf(),
            final(self).spec_config() == old(self).spec_config(),
            final(self).spec_capacity() == old(self).spec_capacity(),
            final(self).spec_audio() == Seq::<T>::empty(),
            final(self).spec_last_text() == Seq::<char>::empty(),
    {
        self.window.clear();
        self.last_text = String::new();
    }
}

} // verus!
