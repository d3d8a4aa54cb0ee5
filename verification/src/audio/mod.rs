//! Audio processing: formats, devices and errors of audio capture.

pub mod decode;
pub mod device;
pub mod error;
pub mod format;

pub use device::AudioDevice;
pub use error::{AudioError, AudioResult};
pub use format::{AudioFormat, AudioSampleFormat};

use vstd::prelude::*;

verus! {

/// Audio module version.
pub const VERSION: &'static str = "0.1.0";

} // verus!
