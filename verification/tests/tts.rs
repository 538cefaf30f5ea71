use himd::errors::HimdError;
use himd::json::Json;
use himd::tts::{
    build_synthesis_request, chrono_now_iso, check_synthesis, days_to_ymd, humantime_timestamp,
    is_leap_year, read_profile, synth_result, tts_api_url, tts_audio_url, tts_model,
    write_profile, StoredProfile,
};
use himd::types::VoiceProfile;

fn obj(members: Vec<(&str, Json)>) -> Json {
    Json::Object(members.into_iter().map(|(k, v)| (k.to_string(), v)).collect())
}

fn text(s: &str) -> Json {
    Json::Str(s.to_string())
}

#[test]
fn humantime_timestamp_basic() {
    let ts = humantime_timestamp(1735689600);
    assert!(ts.starts_with("2025-01-01T"));
}

#[test]
fn humantime_timestamp_full() {
    assert_eq!(humantime_timestamp(0), "1970-01-01T00:00:00.000");
    assert_eq!(humantime_timestamp(1735689600 + 3600 * 12 + 61), "2025-01-01T12:01:01.000");
    assert_eq!(humantime_timestamp(951782400), "2000-02-29T00:00:00.000");
}

#[test]
fn days_to_ymd_epoch() {
    assert_eq!(days_to_ymd(0), (1970, 1, 1));
}

#[test]
fn days_to_ymd_dates() {
    assert_eq!(days_to_ymd(31), (1970, 2, 1));
    assert_eq!(days_to_ymd(365), (1971, 1, 1));
    assert_eq!(days_to_ymd(11016), (2000, 2, 29));
    assert_eq!(days_to_ymd(20089), (2025, 1, 1));
}

#[test]
fn leap_years() {
    assert!(is_leap_year(2000));
    assert!(is_leap_year(2024));
    assert!(!is_leap_year(1900));
    assert!(!is_leap_year(2025));
}

#[test]
fn chrono_now_iso_has_z_suffix() {
    let now = chrono_now_iso();
    assert!(now.ends_with(".000Z"));
    assert_eq!(now.len(), 24);
}

#[test]
fn read_profile_returns_default_when_no_file() {
    let profile = read_profile(None);
    assert_eq!(profile.voice, "Cherry");
    assert_eq!(profile.instructions, "");
    assert!(!profile.optimize_instructions);
    assert_eq!(profile.updated_at, "");
}

#[test]
fn write_and_read_profile() {
    let initial = StoredProfile {
        voice: "Cherry".to_string(),
        instructions: String::new(),
        optimize_instructions: false,
        updated_at: None,
    };
    let (stored, reported) = write_profile(
        Some(initial),
        Some("TestVoice".to_string()),
        Some("Speak clearly".to_string()),
        Some(true),
    );
    let read_back = read_profile(Some(stored));
    assert_eq!(read_back.voice, "TestVoice");
    assert_eq!(read_back.instructions, "Speak clearly");
    assert!(read_back.optimize_instructions);
    assert_eq!(read_back.updated_at, reported.profile.updated_at);
    assert!(read_back.updated_at.ends_with("Z"));
}

#[test]
fn write_profile_partial_update() {
    let (first, _) = write_profile(None, Some("Voice1".to_string()), None, None);
    let (second, _) = write_profile(Some(first), None, Some("New instructions".to_string()), None);
    let profile = read_profile(Some(second));
    assert_eq!(profile.voice, "Voice1");
    assert_eq!(profile.instructions, "New instructions");
    assert!(!profile.optimize_instructions);
}

#[test]
fn tts_model_default() {
    assert_eq!(tts_model(None), "qwen3-tts-instruct-flash");
    assert_eq!(tts_model(Some("custom".to_string())), "custom");
}

#[test]
fn tts_api_url_uses_base_url_origin() {
    let url = tts_api_url(Some("https://custom.example.com/v1".to_string()));
    assert!(url.starts_with("https://custom.example.com/"));
    assert!(url.contains("/api/v1/services/aigc/multimodal-generation/generation"));
}

#[test]
fn tts_api_url_defaults() {
    assert_eq!(
        tts_api_url(None),
        "https://dashscope.aliyuncs.com/api/v1/services/aigc/multimodal-generation/generation"
    );
    assert_eq!(
        tts_api_url(Some("not a url".to_string())),
        "https://dashscope.aliyuncs.com/api/v1/services/aigc/multimodal-generation/generation"
    );
}

#[test]
fn synthesize_empty_text_fails() {
    let result = check_synthesis("", Some("k".to_string()));
    assert!(matches!(result.unwrap_err(), HimdError::Validation(_)));
    let result = check_synthesis("  \n ", None);
    match result.unwrap_err() {
        HimdError::Validation(msg) => assert_eq!(msg, "Text is required for TTS"),
        other => panic!("Expected Validation error, got {other:?}"),
    }
}

#[test]
fn synthesize_too_long_fails() {
    let long_text = "a".repeat(601);
    let result = check_synthesis(&long_text, None);
    match result.unwrap_err() {
        HimdError::Validation(msg) => assert!(msg.contains("601 chars")),
        other => panic!("Expected Validation error, got {other:?}"),
    }
    // the limit counts characters, not UTF-8 bytes
    let wide = "你".repeat(201);
    assert_eq!(check_synthesis(&wide, Some("k".to_string())).unwrap(), "k");
    let wider = "你".repeat(601);
    match check_synthesis(&wider, Some("k".to_string())).unwrap_err() {
        HimdError::Validation(msg) => assert_eq!(msg, "Text too long: 601 chars (max 600)"),
        other => panic!("Expected Validation error, got {other:?}"),
    }
    assert_eq!(check_synthesis(&"a".repeat(600), Some("k".to_string())).unwrap(), "k");
}

#[test]
fn synthesize_missing_key_fails() {
    match check_synthesis("hello", None).unwrap_err() {
        HimdError::Config(msg) => {
            assert_eq!(msg, "DASHSCOPE_API_KEY environment variable is not set.")
        }
        other => panic!("Expected Config error, got {other:?}"),
    }
}

#[test]
fn synthesis_request_prefers_explicit_settings() {
    let profile = VoiceProfile {
        voice: "Cherry".to_string(),
        instructions: "Speak warmly".to_string(),
        optimize_instructions: true,
        updated_at: String::new(),
    };
    let req = build_synthesis_request(
        "Hello world",
        Some("Ethan".to_string()),
        None,
        None,
        "key".to_string(),
        profile,
        "qwen3-tts-instruct-flash".to_string(),
        "https://x/api".to_string(),
    );
    assert_eq!(req.voice, "Ethan");
    assert_eq!(req.instructions, "Speak warmly");
    assert!(req.optimize_instructions);
    let input = req.payload.get("input").unwrap();
    assert_eq!(input.get("text").unwrap().as_str().unwrap(), "Hello world");
    assert_eq!(input.get("voice").unwrap().as_str().unwrap(), "Ethan");
    assert_eq!(input.get("language_type").unwrap().as_str().unwrap(), "Auto");
    assert_eq!(req.payload.get("model").unwrap().as_str().unwrap(), "qwen3-tts-instruct-flash");

    let result = synth_result(req, "Hello world", "/tmp/a.wav".to_string());
    assert_eq!(result.text_length, 11);
    assert_eq!(result.instructions.as_deref(), Some("Speak warmly"));
}

#[test]
fn synth_result_omits_empty_instructions() {
    let req = build_synthesis_request(
        "你好",
        None,
        None,
        Some(false),
        "key".to_string(),
        read_profile(None),
        "m".to_string(),
        "u".to_string(),
    );
    let result = synth_result(req, "你好", "/tmp/b.wav".to_string());
    assert!(result.instructions.is_none());
    assert_eq!(result.voice, "Cherry");
    assert_eq!(result.text_length, 6);
}

#[test]
fn tts_audio_url_reads_output_audio_url() {
    let reply = obj(vec![(
        "output",
        obj(vec![("audio", obj(vec![("url", text("https://example.com/audio.wav"))]))]),
    )]);
    assert_eq!(tts_audio_url(&reply).unwrap(), "https://example.com/audio.wav");
    let missing = obj(vec![("output", obj(vec![]))]);
    match tts_audio_url(&missing).unwrap_err() {
        HimdError::Io(msg) => assert_eq!(msg, "TTS API did not return an audio URL"),
        other => panic!("Expected Io error, got {other:?}"),
    }
}

#[test]
fn synthesize_uses_tts_model_env_override() {
    // The steps of a synthesis with TTS_MODEL set and the reply pointing at
    // the audio to download.
    let key = check_synthesis("Hello world", Some("test-key".to_string())).unwrap();
    let req = build_synthesis_request(
        "Hello world",
        None,
        None,
        None,
        key,
        read_profile(None),
        tts_model(Some("qwen3-tts-instruct-flash".to_string())),
        tts_api_url(None),
    );
    let reply = obj(vec![(
        "output",
        obj(vec![("audio", obj(vec![("url", text("https://example.com/audio.wav"))]))]),
    )]);
    assert_eq!(tts_audio_url(&reply).unwrap(), "https://example.com/audio.wav");
    let result = synth_result(req, "Hello world", "/tmp/tts.wav".to_string());
    assert_eq!(result.model, "qwen3-tts-instruct-flash");
}
