use himd::errors::HimdError;
use himd::runtime_paths::{captures_dir, runtime_base_dir, tts_output_path, voice_profile_path};
use himd::version;

#[test]
fn version_is_set() {
    assert!(!version().is_empty());
}

#[test]
fn runtime_base_dir_is_cwd_dot_voice_bridge() {
    assert_eq!(runtime_base_dir("/home/u/project"), "/home/u/project/.voice-bridge");
    assert_eq!(runtime_base_dir("/"), "/.voice-bridge");
}

#[test]
fn captures_dir_is_under_base() {
    let base = runtime_base_dir("/tmp/work");
    assert_eq!(captures_dir(&base), "/tmp/work/.voice-bridge/captures");
}

#[test]
fn voice_profile_path_is_under_base() {
    let base = runtime_base_dir("/tmp/work");
    assert_eq!(voice_profile_path(&base), "/tmp/work/.voice-bridge/voice-profile.json");
}

#[test]
fn tts_output_path_is_under_base() {
    let base = runtime_base_dir("/tmp/work");
    assert_eq!(tts_output_path(&base, 123), "/tmp/work/.voice-bridge/tts/123.wav");
    assert_eq!(tts_output_path("/a/", 0), "/a/tts/0.wav");
}

#[test]
fn error_messages() {
    assert_eq!(HimdError::Config("missing".into()).message(), "missing");
    assert_eq!(HimdError::FileNotFound("/x.wav".into()).message(), "File not found: /x.wav");
    assert_eq!(
        HimdError::Api { status: 503, message: "busy".into() }.message(),
        "API error (503): busy"
    );
    assert_eq!(HimdError::Validation("v".into()).message(), "v");
    assert_eq!(HimdError::Io("io".into()).message(), "io");
    assert_eq!(HimdError::Dependency("dep".into()).message(), "dep");
}

#[test]
fn tts_output_paths_differ_by_timestamp() {
    let base = runtime_base_dir("/tmp/work");
    assert_ne!(tts_output_path(&base, 12), tts_output_path(&base, 120));
    assert_ne!(tts_output_path(&base, 1), tts_output_path(&base, 2));
}
