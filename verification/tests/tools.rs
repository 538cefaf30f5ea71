use himd::audio::error::AudioError;
use himd::errors::HimdError;
use himd::provider::create_empty_result;
use himd::tools::{
    capture_failed, file_not_found, profile_failed, server_name, speech_failed, speech_result,
    transcribe_result, understanding_failed,
};
use himd::tts::SynthResult;

#[test]
fn server_info_name() {
    assert_eq!(server_name(), "himd");
}

#[test]
fn tool_error_with_file_path() {
    let err = file_not_found("/path/to/missing.wav");
    assert_eq!(err.error, "File not found: /path/to/missing.wav");
    assert_eq!(err.file_path.as_deref(), Some("/path/to/missing.wav"));
    let err = understanding_failed(&HimdError::Api { status: 500, message: "x".into() }, "/a.wav");
    assert_eq!(err.error, "API error (500): x");
    assert_eq!(err.file_path.as_deref(), Some("/a.wav"));
}

#[test]
fn tool_error_without_file_path() {
    let err = profile_failed(&HimdError::Io("Failed to write profile: denied".into()));
    assert!(err.file_path.is_none());
    assert_eq!(err.error, "Failed to write profile: denied");
    let err = capture_failed(&AudioError::Device("no default input device".into()));
    assert_eq!(err.error, "device error: no default input device");
}

#[test]
fn transcribe_result_serializes() {
    let mut p = create_empty_result("qwen3-omni-flash".to_string());
    p.transcript = "你好世界".to_string();
    let r = transcribe_result(p, "/path/to/file.wav");
    assert_eq!(r.transcript, "你好世界");
    assert_eq!(r.source, "file");
    assert_eq!(r.audio_file, "/path/to/file.wav");
    assert_eq!(r.model, "qwen3-omni-flash");
}

#[test]
fn speech_error_serializes() {
    let e = speech_failed(&HimdError::Config("DASHSCOPE_API_KEY environment variable is not set".into()));
    assert!(!e.spoken);
    assert_eq!(e.error, "DASHSCOPE_API_KEY environment variable is not set");
}

#[test]
fn speech_result_serializes() {
    let synth = SynthResult {
        audio_file: "/tmp/himd-tts-1234567890.wav".into(),
        model: "qwen3-tts-instruct-flash".into(),
        voice: "Cherry".into(),
        instructions: Some("Speak warmly".into()),
        optimize_instructions: false,
        text_length: 42,
    };
    let r = speech_result(synth, true);
    assert!(r.spoken);
    assert_eq!(r.voice, "Cherry");
    assert_eq!(r.instructions.as_deref(), Some("Speak warmly"));
    assert_eq!(r.text_length, 42);
}
