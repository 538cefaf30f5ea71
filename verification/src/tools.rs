//! The voice-bridge tools' parameters and the answers they give.
//!
//! The tool server itself runs outside this library; each tool hands its
//! outcome here to be turned into the answer it reports.
use vstd::prelude::*;

use crate::audio::error::{audio_error_text, AudioError};
use crate::errors::{error_text, HimdError};
use crate::provider::AudioUnderstandingResult;
use crate::text::{copy_str, has_prefix, opt_view, push_str, string_of};
use crate::tts::SynthResult;
use crate::types::{SpeechError, SpeechResult, ToolError, TranscribeResult};

verus! {

/// Parameters for `audio_analyze`: run audio understanding on a file.
#[derive(Debug)]
pub struct AnalyzeParams {
    /// Path to the audio file to analyze.
    pub file_path: String,
}

/// Parameters for `audio_transcribe`: transcribe an audio file.
#[derive(Debug)]
pub struct TranscribeParams {
    /// Path to the audio file to transcribe.
    pub file_path: String,
}

/// Parameters for `speech_say`: synthesize and play text.
#[derive(Debug)]
pub struct SayParams {
    /// Text to speak (max 600 chars).
    pub text: String,
    /// Voice name for TTS.
    pub voice: Option<String>,
    /// Natural-language speaking instructions.
    pub instructions: Option<String>,
    /// Whether to optimize the speaking instructions.
    pub optimize_instructions: Option<bool>,
}

/// Parameters for `speech_set_profile`: persist voice defaults.
#[derive(Debug)]
pub struct SetProfileParams {
    /// Default voice name.
    pub voice: Option<String>,
    /// Default speaking instructions.
    pub instructions: Option<String>,
    /// Whether to optimize the speaking instructions.
    pub optimize_instructions: Option<bool>,
}

/// The server's name.
pub fn server_name() -> (r: String)
    ensures
        r@ == "himd"@,
{
    copy_str("himd")
}

/// The answer when the file to work on does not exist.
pub fn file_not_found(file_path: &str) -> (r: ToolError)
    ensures
        r.error@ == "File not found: "@ + file_path@,
        opt_view(r.file_path) == Some(file_path@),
{
    let mut v: Vec<char> = Vec::new();
    push_str(&mut v, "File not found: ");
    push_str(&mut v, file_path);
    ToolError { error: string_of(&v), file_path: Some(copy_str(file_path)) }
}

/// The answer when audio understanding of the file failed.
pub fn understanding_failed(e: &HimdError, file_path: &str) -> (r: ToolError)
    ensures
        r.error@ == error_text(*e),
        opt_view(r.file_path) == Some(file_path@),
{
    ToolError { error: e.message(), file_path: Some(copy_str(file_path)) }
}

/// The answer when a capture failed.
pub fn capture_failed(e: &AudioError) -> (r: ToolError)
    ensures
        match audio_error_text(*e) {
            Some(t) => r.error@ == t,
            None => has_prefix(r.error@, "io error: "@),
        },
        r.file_path is None,
{
    ToolError { error: e.message(), file_path: None }
}

/// The answer when saving the voice profile failed.
pub fn profile_failed(e: &HimdError) -> (r: ToolError)
    ensures
        r.error@ == error_text(*e),
        r.file_path is None,
{
    ToolError { error: e.message(), file_path: None }
}

/// The transcription of the file at `file_path`.
pub fn transcribe_result(provider_result: AudioUnderstandingResult, file_path: &str) -> (r:
    TranscribeResult)
    ensures
        r.transcript == provider_result.transcript,
        r.source@ == "file"@,
        r.audio_file@ == file_path@,
        r.model == provider_result.model,
{
    TranscribeResult {
        transcript: provider_result.transcript,
        source: copy_str("file"),
        audio_file: copy_str(file_path),
        model: provider_result.model,
    }
}

/// The answer when speech synthesis failed: nothing was spoken.
pub fn speech_failed(e: &HimdError) -> (r: SpeechError)
    ensures
        !r.spoken,
        r.error@ == error_text(*e),
{
    SpeechError { spoken: false, error: e.message() }
}

/// The answer after speech was synthesized; `spoken` tells whether it was
/// also played.
pub fn speech_result(synth: SynthResult, spoken: bool) -> (r: SpeechResult)
    ensures
        r.spoken == spoken,
        r.audio_file == synth.audio_file,
        r.model == synth.model,
        r.voice == synth.voice,
        r.instructions == synth.instructions,
        r.optimize_instructions == synth.optimize_instructions,
        r.text_length == synth.text_length,
{
    SpeechResult {
        spoken,
        audio_file: synth.audio_file,
        model: synth.model,
        voice: synth.voice,
        instructions: synth.instructions,
        optimize_instructions: synth.optimize_instructions,
        text_length: synth.text_length,
    }
}

} // verus!
