//! Response types of the voice-bridge tools.
//!
//! Numbers that the tools report as floating point are held as the bit
//! pattern of their `f64` value.
use vstd::prelude::*;

verus! {

/// Why a capture stopped.
#[derive(Debug, Clone, Copy, PartialEq, Eq, Structural)]
pub enum StoppedBy {
    Silence,
    NoSpeech,
    Manual,
    Timeout,
}

/// Speech rate classification.
#[derive(Debug, Clone, Copy, PartialEq, Eq, Structural)]
pub enum SpeechRate {
    Slow,
    Normal,
    Fast,
}

/// Energy level classification.
#[derive(Debug, Clone, Copy, PartialEq, Eq, Structural)]
pub enum EnergyLevel {
    Low,
    Medium,
    High,
}

/// Pause pattern classification.
#[derive(Debug, Clone, Copy, PartialEq, Eq, Structural)]
pub enum PausePattern {
    Short,
    Medium,
    Long,
}

/// Success response from `audio_capture_once`.
#[derive(Debug)]
pub struct CaptureResult {
    pub temp_audio_path: String,
    pub format: String,
    pub duration_ms: u64,
    pub sample_rate: u32,
    pub channels: u32,
    pub file_size_bytes: u64,
    pub stopped_by: StoppedBy,
}

/// Success response from `audio_transcribe`.
#[derive(Debug)]
pub struct TranscribeResult {
    pub transcript: String,
    pub source: String,
    pub audio_file: String,
    pub model: String,
}

/// Acoustic analysis sub-object within `AudioTurn`.
#[derive(Debug, Clone, Copy, PartialEq, Eq, Structural)]
pub struct AcousticAnalysis {
    pub speech_rate: SpeechRate,
    pub energy: EnergyLevel,
    pub pause_pattern: PausePattern,
}

/// Emotion sub-object within `AudioUnderstanding`.
#[derive(Debug)]
pub struct Emotion {
    pub primary: String,
    /// The confidence as the bit pattern of an `f64`, where one was given.
    pub confidence: Option<u64>,
}

/// Enriched audio understanding from the provider.
#[derive(Debug)]
pub struct AudioUnderstanding {
    pub summary: Option<String>,
    pub intent: Option<String>,
    pub emotion: Option<Emotion>,
    pub tone: Option<Vec<String>>,
    pub key_points: Option<Vec<String>>,
    pub non_verbal_signals: Option<Vec<String>>,
    pub language: Option<String>,
    /// The confidence as the bit pattern of an `f64`.
    pub confidence: u64,
}

/// Success response from `audio_analyze`: the `audio_turn` struct.
#[derive(Debug)]
pub struct AudioTurn {
    pub transcript: String,
    pub analysis: AcousticAnalysis,
    /// The analysis confidence as the bit pattern of an `f64`.
    pub analysis_confidence: u64,
    pub source: String,
    pub audio_file: String,
    pub model: String,
    pub provider: String,
    pub audio_understanding: Option<AudioUnderstanding>,
    pub warnings: Option<Vec<String>>,
}

/// Success response from `speech_say`.
#[derive(Debug)]
pub struct SpeechResult {
    pub spoken: bool,
    pub audio_file: String,
    pub model: String,
    pub voice: String,
    pub instructions: Option<String>,
    pub optimize_instructions: bool,
    pub text_length: usize,
}

/// Error response from `speech_say`.
#[derive(Debug)]
pub struct SpeechError {
    pub spoken: bool,
    pub error: String,
}

/// Success response from `speech_set_profile`.
#[derive(Debug)]
pub struct VoiceProfileResult {
    pub profile: VoiceProfile,
}

/// A persisted voice profile.
#[derive(Debug)]
pub struct VoiceProfile {
    pub voice: String,
    pub instructions: String,
    pub optimize_instructions: bool,
    pub updated_at: String,
}

/// Generic error response used by most tools.
#[derive(Debug)]
pub struct ToolError {
    pub error: String,
    pub file_path: Option<String>,
}

} // verus!
