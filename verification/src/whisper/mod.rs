//! Whisper speech-to-text: configuration, errors, language support, GPU
//! detection and memory tracking around the inference engine.

pub mod config;
pub mod context;
pub mod downloader;
pub mod error;
pub mod gpu;
pub mod language;
pub mod memory;

pub use config::WhisperConfig;
pub use gpu::{
    detect_gpu, get_gpu_info, get_gpu_message, is_gpu_available, GpuBackend, GpuDetection,
    GpuDeviceInfo,
};
pub use memory::{MemoryStats, MemoryTracker, SharedTracker};
pub use error::{Transcription, WhisperError, WhisperResult};
