//! Whisper configuration.

use vstd::prelude::*;
use vstd::string::StringExecFns;
use crate::trusted::physical_cores;
use super::gpu::{is_gpu_available, CUDA_ENABLED};

verus! {

/// Configuration for Whisper transcription.
#[derive(Debug)]
pub struct WhisperConfig {
    /// Path to the Whisper model file (e.g., ggml-base.bin).
    pub model_path: String,
    /// Number of threads to use for processing.
    /// Default: number of physical CPU cores.
    pub n_threads: i32,
    /// Whether to use GPU acceleration (CUDA).
    pub use_gpu: bool,
    /// Sample rate required by the model (Whisper requires 16kHz).
    /// Audio is resampled to this rate before transcription.
    pub required_sample_rate: u32,
    /// Language code (e.g., "en", "es") or None for auto-detection.
    pub language: Option<String>,
    /// Translate to English (if applicable).
    pub translate: bool,
    /// Maximum length of context (in tokens) to use for transcription.
    pub n_max_context: i32,
    /// Maximum number of text tokens to generate.
    pub n_max_text_tokens: i32,
    /// Offset in milliseconds to start transcription from.
    pub offset_ms: i32,
    /// Duration in milliseconds to transcribe.
    pub duration_ms: i32,
    /// Memory management: idle timeout in seconds before unloading the
    /// model. None keeps the model loaded permanently.
    pub idle_timeout_secs: Option<u64>,
    /// Memory management: maximum concurrent sessions allowed.
    pub max_sessions: usize,
}

/// The number of threads for `cores` processor cores: as many, as far as
/// the number fits.
pub open spec fn threads_for(cores: usize) -> i32 {
    if cores <= i32::MAX {
        cores as i32
    } else {
        i32::MAX
    }
}

impl WhisperConfig {
    /// Whether all settings but the number of threads and the use of the
    /// GPU are the default ones.
    pub open spec fn has_default_settings(&self) -> bool {
        &&& self.model_path@ == "models/ggml-base.bin"@
        &&& self.required_sample_rate == 16000
        &&& self.language is None
        &&& !self.translate
        &&& self.n_max_context == 0
        &&& self.n_max_text_tokens == 0
        &&& self.offset_ms == 0
        &&& self.duration_ms == 0
        &&& self.idle_timeout_secs is None
        &&& self.max_sessions == 4
    }

    /// The default configuration for a machine with the given number of
    /// physical processor cores and with or without a usable GPU.
    pub fn for_machine(cores: usize, use_gpu: bool) -> (r: Self)
        ensures
            r.has_default_settings(),
            r.n_threads == threads_for(cores),
            r.use_gpu == use_gpu,
    {
        let n_threads: i32 = if cores <= i32::MAX as usize {
            cores as i32
        } else {
            i32::MAX
        };
        WhisperConfig {
            model_path: String::from_str("models/ggml-base.bin"),
            n_threads,
            use_gpu,
            required_sample_rate: 16000,
            language: None,
            translate: false,
            n_max_context: 0,
            n_max_text_tokens: 0,
            offset_ms: 0,
            duration_ms: 0,
            idle_timeout_secs: None,
            max_sessions: 4,
        }
    }

    /// Create a new config with a custom model path.
    pub fn with_model_path(self, path: &str) -> (r: Self)
        ensures
            r.model_path@ == path@,
            r == (WhisperConfig { model_path: r.model_path, ..self }),
    {
        let mut config = self;
        config.model_path = String::from_str(path);
        config
    }

    /// Create a new config with a specific language.
    pub fn with_language(self, lang: &str) -> (r: Self)
        ensures
            r.language is Some,
            r.language->0@ == lang@,
            r == (WhisperConfig { language: r.language, ..self }),
    {
        let mut config = self;
        config.language = Some(String::from_str(lang));
        config
    }

    /// Create a new config with GPU enabled/disabled.
    pub fn with_gpu(self, use_gpu: bool) -> (r: Self)
        ensures
            r == (WhisperConfig { use_gpu, ..self }),
    {
        let mut config = self;
        config.use_gpu = use_gpu;
        config
    }

    /// Create a new config with custom thread count, one at least.
    pub fn with_threads(self, n_threads: i32) -> (r: Self)
        ensures
            r == (WhisperConfig {
                n_threads: if n_threads >= 1 {
                    n_threads
                } else {
                    1
                },
                ..self
            }),
    {
        let mut config = self;
        config.n_threads = if n_threads >= 1 {
            n_threads
        } else {
            1
        };
        config
    }

    /// Create a new config for translation.
    pub fn with_translation(self, translate: bool) -> (r: Self)
        ensures
            r == (WhisperConfig { translate, ..self }),
    {
        let mut config = self;
        config.translate = translate;
        config
    }

    /// Set idle timeout for model unloading (in seconds). None keeps the
    /// model loaded permanently.
    pub fn with_idle_timeout(self, timeout_secs: Option<u64>) -> (r: Self)
        ensures
            r == (WhisperConfig { idle_timeout_secs: timeout_secs, ..self }),
    {
        let mut config = self;
        config.idle_timeout_secs = timeout_secs;
        config
    }

    /// Set maximum concurrent sessions, one at least.
    pub fn with_max_sessions(self, max_sessions: usize) -> (r: Self)
        ensures
            r == (WhisperConfig {
                max_sessions: if max_sessions >= 1 {
                    max_sessions
                } else {
                    1
                },
                ..self
            }),
    {
        let mut config = self;
        config.max_sessions = if max_sessions >= 1 {
            max_sessions
        } else {
            1
        };
        config
    }
}

impl Clone for WhisperConfig {
    fn clone(&self) -> (r: Self)
        ensures
            r == *self,
    {
        WhisperConfig {
            model_path: self.model_path.clone(),
            n_threads: self.n_threads,
            use_gpu: self.use_gpu,
            required_sample_rate: self.required_sample_rate,
            language: match &self.language {
                Some(language) => Some(language.clone()),
                None => None,
            },
            translate: self.translate,
            n_max_context: self.n_max_context,
            n_max_text_tokens: self.n_max_text_tokens,
            offset_ms: self.offset_ms,
            duration_ms: self.duration_ms,
            idle_timeout_secs: self.idle_timeout_secs,
            max_sessions: self.max_sessions,
        }
    }
}

impl Default for WhisperConfig {
    /// The default configuration for this machine: one thread for each
    /// physical processor core, the GPU where one is available.
    fn default() -> (r: Self)
        ensures
            r.has_default_settings(),
            r.use_gpu == CUDA_ENABLED,
    {
        let use_gpu = is_gpu_available();
        WhisperConfig::for_machine(physical_cores(), use_gpu)
    }
}

} // verus!
