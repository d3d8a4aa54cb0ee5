//! The settings of the application, as a configuration file holds them.

use vstd::prelude::*;
use vstd::string::StringExecFns;
use crate::level::Level;

verus! {

/// Encoding of the default threshold of voice activity detection, 0.5.
pub const DEFAULT_VAD_THRESHOLD_BITS: u32 = 0x3F00_0000;

/// Audio settings.
#[derive(Debug, Clone, Copy, PartialEq, Eq, Structural)]
pub struct AudioConfig {
    /// Sample rate in Hz.
    pub sample_rate: u32,
    /// Number of channels.
    pub channels: u16,
}

impl Default for AudioConfig {
    fn default() -> (r: Self)
        ensures
            r == (AudioConfig { sample_rate: 16000, channels: 1 }),
    {
        AudioConfig { sample_rate: 16000, channels: 1 }
    }
}

/// Settings of voice activity detection.
#[derive(Debug, Clone, Copy, PartialEq, Eq, Structural)]
pub struct VadConfig {
    /// The threshold of detection.
    pub threshold: Level,
}

impl Default for VadConfig {
    fn default() -> (r: Self)
        ensures
            r == (VadConfig { threshold: Level { bits: DEFAULT_VAD_THRESHOLD_BITS } }),
    {
        VadConfig { threshold: Level { bits: DEFAULT_VAD_THRESHOLD_BITS } }
    }
}

/// Settings of memory management.
#[derive(Debug, Clone, Copy, PartialEq, Eq, Structural)]
pub struct MemoryConfig {
    /// Seconds after which an idle model is unloaded.
    pub idle_timeout_secs: u64,
    /// Maximum concurrent sessions.
    pub max_sessions: usize,
}

impl Default for MemoryConfig {
    fn default() -> (r: Self)
        ensures
            r == (MemoryConfig { idle_timeout_secs: 300, max_sessions: 10 }),
    {
        MemoryConfig { idle_timeout_secs: 300, max_sessions: 10 }
    }
}

/// Settings of the Whisper engine.
#[derive(Debug, Clone)]
pub struct WhisperConfig {
    /// Size of the model, such as "base".
    pub model_size: String,
    /// Number of threads.
    pub threads: usize,
    /// Whether to use the GPU.
    pub enable_gpu: bool,
    /// Settings of memory management.
    pub memory: MemoryConfig,
}

impl Default for WhisperConfig {
    fn default() -> (r: Self)
        ensures
            r.model_size@ == "base"@,
            r.threads == 4,
            r.enable_gpu,
            r.memory == (MemoryConfig { idle_timeout_secs: 300, max_sessions: 10 }),
    {
        WhisperConfig {
            model_size: String::from_str("base"),
            threads: 4,
            enable_gpu: true,
            memory: MemoryConfig::default(),
        }
    }
}

/// Settings of transcription.
#[derive(Debug, Clone, Copy, PartialEq, Eq, Structural)]
pub struct TranscriptionConfig {
    /// Milliseconds between transcription passes.
    pub interval_ms: u64,
    /// Whether to detect the language.
    pub detect_language: bool,
}

impl Default for TranscriptionConfig {
    fn default() -> (r: Self)
        ensures
            r == (TranscriptionConfig { interval_ms: 500, detect_language: true }),
    {
        TranscriptionConfig { interval_ms: 500, detect_language: true }
    }
}

/// Settings of the server.
#[derive(Debug, Clone)]
pub struct McpConfig {
    /// Name of the server.
    pub name: String,
    /// Transport of the server.
    pub transport: String,
}

impl Default for McpConfig {
    fn default() -> (r: Self)
        ensures
            r.name@ == "vtt-mcp"@,
            r.transport@ == "stdio"@,
    {
        McpConfig { name: String::from_str("vtt-mcp"), transport: String::from_str("stdio") }
    }
}

/// All settings.
#[derive(Debug, Clone)]
pub struct Config {
    pub audio: AudioConfig,
    pub vad: VadConfig,
    pub whisper: WhisperConfig,
    pub transcription: TranscriptionConfig,
    pub mcp: McpConfig,
}

impl Config {
    /// Whether all settings are the default ones.
    pub open spec fn is_default(&self) -> bool {
        &&& self.audio == (AudioConfig { sample_rate: 16000, channels: 1 })
        &&& self.vad.threshold.bits == DEFAULT_VAD_THRESHOLD_BITS
        &&& self.whisper.model_size@ == "base"@
        &&& self.whisper.threads == 4
        &&& self.whisper.enable_gpu
        &&& self.whisper.memory == (MemoryConfig { idle_timeout_secs: 300, max_sessions: 10 })
        &&& self.transcription == (TranscriptionConfig { interval_ms: 500, detect_language: true })
        &&& self.mcp.name@ == "vtt-mcp"@
        &&& self.mcp.transport@ == "stdio"@
    }
}

impl Default for Config {
    fn default() -> (r: Self)
        ensures
            r.is_default(),
    {
        Config {
            audio: AudioConfig::default(),
            vad: VadConfig::default(),
            whisper: WhisperConfig::default(),
            transcription: TranscriptionConfig::default(),
            mcp: McpConfig::default(),
        }
    }
}

} // verus!
