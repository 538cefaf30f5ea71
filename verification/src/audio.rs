//! Audio capture and playback: device diagnostics, the voice activity
//! detector that ends a capture, and the WAV files that captures produce.
pub mod capture;
pub mod error;
pub mod platform;
pub mod playback;
pub mod vad;
pub mod wav;
