//! Voice activity detection.
//!
//! Speech is detected from the energy of each audio frame, with a debounce
//! on entering speech and a hangover on leaving it.

pub mod config;
pub mod detector;
pub mod laws;

pub use config::{VadConfig, VadError, VadResult};
pub use detector::{VadDetector, VadState};

use vstd::prelude::*;

verus! {

/// A speech energy level (0.0 to 1.0).
pub type SpeechEnergy = crate::level::Level;

} // verus!
