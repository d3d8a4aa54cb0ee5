//! The incremental transcriber behind a lock.
//!
//! A capture thread pushes audio while another task runs transcription
//! passes. A pass copies the window out under the lock, gives the lock
//! back, and only then runs the transcription function: the window takes
//! new audio while inference is under way. The lock is taken once more to
//! decide on the text that came back.

use vstd::prelude::*;
use vstd::rwlock::{RwLock, RwLockPredicate};
use vstd::string::StringSliceAdditionalSpecFns;
use vstd::utf8::encode_utf8;
use crate::text::trimmed;
use crate::whisper::error::{Transcription, WhisperError};
use crate::window::buffer::{overflow_of, WindowError};
use crate::window::seconds::Seconds;
use super::transcriber::{
    IncrementalTranscriber, PartialResult, TranscriberConfig, MIN_WINDOW_SAMPLES,
};

verus! {

/// What holds of the transcriber behind the lock of a shared transcriber:
/// it is well-formed and has the configuration that the shared
/// transcriber was made with.
pub struct GuardedTranscriber {
    pub config: TranscriberConfig,
}

impl<T> RwLockPredicate<IncrementalTranscriber<T>> for GuardedTranscriber {
    open spec fn inv(self, transcriber: IncrementalTranscriber<T>) -> bool {
        transcriber.wf() && transcriber.spec_config() == self.config
    }
}

/// Whether `result` is what a pass at the time `timestamp` emits for the
/// text `text` that stood for `sample_count` samples: the trimmed text,
/// not final, of the configured least length or more, made from a window
/// worth a pass.
pub open spec fn emits(
    result: PartialResult,
    text: Seq<char>,
    sample_count: nat,
    timestamp: i64,
    config: TranscriberConfig,
) -> bool {
    &&& result.text@ == trimmed(text)
    &&& result.timestamp == timestamp
    &&& encode_utf8(result.text@).len() >= config.min_text_length
    &&& !result.is_final
    &&& result.sample_count == sample_count
    &&& sample_count >= MIN_WINDOW_SAMPLES
}

/// An incremental transcriber that threads share.
pub struct SharedTranscriber<T> {
    lock: RwLock<IncrementalTranscriber<T>, GuardedTranscriber>,
    config: TranscriberConfig,
}

impl<T> SharedTranscriber<T> {
    /// The lock guards a transcriber of the configuration of the shared
    /// transcriber.
    #[verifier::type_invariant]
    spec fn guards_config(&self) -> bool {
        self.lock.pred() == (GuardedTranscriber { config: self.config })
    }

    /// The configuration of the transcriber.
    pub closed spec fn spec_config(&self) -> TranscriberConfig {
        self.config
    }

    /// The number of samples the window can hold.
    pub open spec fn spec_capacity(&self) -> nat {
        self.spec_config().window_config().spec_buffer_capacity()
    }
}

impl<T: Copy + Default> SharedTranscriber<T> {
    /// A shared transcriber with an empty window of the configured
    /// duration and sample rate. Fails where these give a window of no
    /// samples.
    pub fn new(config: TranscriberConfig) -> (r: Result<Self, WindowError>)
        ensures
            config.window_config().spec_buffer_capacity() == 0 <==> r is Err,
            r is Err ==> r->Err_0 == WindowError::ZeroCapacity,
            r is Ok ==> r->Ok_0.spec_config() == config,
    {
        match IncrementalTranscriber::new(config) {
            Ok(transcriber) => Ok(
                SharedTranscriber {
                    lock: RwLock::new(transcriber, Ghost(GuardedTranscriber { config })),
                    config,
                },
            ),
            Err(error) => Err(error),
        }
    }

    /// A shared transcriber with the default configuration.
    pub fn with_defaults() -> (r: Self)
        ensures
            r.spec_config() == (TranscriberConfig {
                transcription_interval_ms: 500,
                min_text_length: 3,
                window_duration_secs: Seconds { numer: 3, denom: 1 },
                sample_rate: 16000,
            }),
    {
        let transcriber = IncrementalTranscriber::with_defaults();
        let config = transcriber.config();
        SharedTranscriber {
            lock: RwLock::new(transcriber, Ghost(GuardedTranscriber { config })),
            config,
        }
    }
}

impl<T: Copy> SharedTranscriber<T> {
    /// The configuration of the transcriber.
    pub fn config(&self) -> (r: TranscriberConfig)
        ensures
            r == self.spec_config(),
    {
        self.config
    }

    /// Pushes captured audio into the window and returns the number of
    /// samples that the window dropped. No transcription is run.
    pub fn push_audio(&self, samples: &[T]) -> (dropped: usize)
        ensures
            overflow_of(samples@.len(), self.spec_capacity()) <= dropped <= samples@.len(),
    {
        proof {
            use_type_invariant(self);
        }
        let (mut transcriber, handle) = self.lock.acquire_write();
        proof {
            transcriber.lemma_bounds();
        }
        let dropped = transcriber.push_audio(samples);
        handle.release_write(transcriber);
        dropped
    }

    /// Runs one transcription pass over the window with the given
    /// transcription function, at the time `timestamp`.
    ///
    /// The function is called at most once, and never while the lock is
    /// held. It is not called where the window holds fewer than
    /// `MIN_WINDOW_SAMPLES` samples. Where the pass emits a text, the
    /// function was called on that many samples at the configured sample
    /// rate and succeeded, and the text is what it gave, trimmed.
    pub fn transcribe_current<F>(&self, transcribe: F, timestamp: i64) -> (r: Option<
        PartialResult,
    >) where F: FnOnce(&[T], u32) -> Result<Transcription, WhisperError>

        requires
            forall|samples: &[T], sample_rate: u32|
                call_requires(transcribe, (samples, sample_rate)),
        ensures
            r is Some ==> exists|samples: &[T], outcome: Result<Transcription, WhisperError>|
                {
                    &&& #[trigger] call_ensures(
                        transcribe,
                        (samples, self.spec_config().sample_rate),
                        outcome,
                    )
                    &&& outcome is Ok
                    &&& emits(
                        r->0,
                        outcome->Ok_0.text@,
                        samples@.len(),
                        timestamp,
                        self.spec_config(),
                    )
                },
    {
        proof {
            use_type_invariant(self);
        }
        let read = self.lock.acquire_read();
        let pending = read.borrow().pending_audio();
        read.release_read();
        match pending {
            None => None,
            Some(window_data) => {
                let samples = window_data.as_slice();
                let outcome = transcribe(samples, self.config.sample_rate);
                let ghost witness = outcome;
                let (mut transcriber, handle) = self.lock.acquire_write();
                let result = transcriber.accept(outcome, window_data.len(), timestamp);
                handle.release_write(transcriber);
                proof {
                    if result is Some {
                        assert(call_ensures(
                            transcribe,
                            (samples, self.spec_config().sample_rate),
                            witness,
                        ));
                        assert(witness is Ok);
                        assert(emits(
                            result->0,
                            witness->Ok_0.text@,
                            samples@.len(),
                            timestamp,
                            self.spec_config(),
                        ));
                    }
                }
                result
            },
        }
    }

    /// The duration of the audio in the window: the number of samples
    /// that the window held at the time of the call, which are no more
    /// than it can hold, over the sample rate.
    pub fn buffer_duration_secs(&self) -> (r: Seconds)
        ensures
            r.numer <= self.spec_capacity(),
            r.denom == self.spec_config().sample_rate,
            r.denom > 0,
    {
        proof {
            use_type_invariant(self);
        }
        let handle = self.lock.acquire_read();
        let transcriber = handle.borrow();
        proof {
            transcriber.lemma_bounds();
        }
        let span = transcriber.buffer_duration_secs();
        handle.release_read();
        span
    }

    /// Empties the window and forgets the text emitted last: a fresh
    /// utterance starts.
    pub fn clear(&self) {
        proof {
            use_type_invariant(self);
        }
        let (mut transcriber, handle) = self.lock.acquire_write();
        transcriber.clear();
        handle.release_write(transcriber);
    }
}

} // verus!
