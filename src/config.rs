//! The settings the pipeline is started with.

use vstd::prelude::*;

verus! {

/// Everything read from the settings file.
#[derive(Debug, Clone)]
pub struct Config {
    pub whisper: WhisperConfig,
    pub audio: AudioConfig,
}

/// Which recogniser model to load, and the language to hold it to.
#[derive(Debug, Clone)]
pub struct WhisperConfig {
    pub model_path: String,
    pub language: Option<String>,
}

/// Capture settings.
#[derive(Debug, Clone, Copy, PartialEq, Eq, Structural)]
pub struct AudioConfig {
    pub sample_rate: u32,
}

/// The capture rate used when the settings name none: the recogniser's
/// own 16 kHz.
pub fn default_sample_rate() -> (r: u32)
    ensures
        r == 16000,
{
    16000
}

} // verus!
