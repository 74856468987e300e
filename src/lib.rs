//! Hold-to-talk dictation: the decisions behind a hotkey-driven
//! capture, transcription and delivery pipeline, and the sample
//! transforms it applies on the way.

pub mod hotkey;
pub mod pipeline;
pub mod resample;
pub mod spectrum;
pub mod transcribe;
pub mod json;
pub mod protocol;
pub mod improve;
pub mod config;
pub mod icon;
