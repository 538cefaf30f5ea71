use himd::errors::HimdError;
use himd::json::Json;
use himd::provider::{
    after_attempt, audio_model, base_url, build_request_body, build_understand_request,
    create_empty_result, finish_understanding, normalize_result, parse_json_response,
    parse_sse_text, prepare_understanding, regex_replace_trailing_commas, AttemptStep, AudioFile,
    HALF_BITS, SYSTEM_PROMPT, USER_PROMPT,
};

fn s<'a>(v: &'a Json, key: &str) -> &'a str {
    v.get(key).unwrap().as_str().unwrap().as_str()
}

fn make_sse_body(content: &str) -> String {
    let mut escaped = String::new();
    for c in content.chars() {
        match c {
            '"' => escaped.push_str("\\\""),
            '\\' => escaped.push_str("\\\\"),
            '\n' => escaped.push_str("\\n"),
            c => escaped.push(c),
        }
    }
    format!("data: {{\"choices\":[{{\"delta\":{{\"content\":\"{escaped}\"}}}}]}}\n\ndata: [DONE]\n\n")
}

#[test]
fn parse_sse_text_extracts_content() {
    let body = "data: {\"choices\":[{\"delta\":{\"content\":\"hello\"}}]}\ndata: {\"choices\":[{\"delta\":{\"content\":\" world\"}}]}\ndata: [DONE]\n";
    assert_eq!(parse_sse_text(body), "hello world");
}

#[test]
fn parse_sse_text_skips_non_data_lines() {
    let body = ": comment\ndata: {\"choices\":[{\"delta\":{\"content\":\"abc\"}}]}\ndata: [DONE]\n";
    assert_eq!(parse_sse_text(body), "abc");
}

#[test]
fn parse_sse_text_handles_crlf_and_bad_chunks() {
    let body = "data: {\"choices\":[{\"delta\":{\"content\":\"a\"}}]}\r\ndata: not json\r\ndata: {\"choices\":[]}\r\n  data: {\"choices\":[{\"delta\":{\"content\":\"b\"}}]}  ";
    assert_eq!(parse_sse_text(body), "ab");
    assert_eq!(parse_sse_text(""), "");
}

#[test]
fn parse_json_response_direct() {
    let input = r#"{"transcript":"hello","summary":"greeting","intent":"greet","emotion":{"primary":"happy","confidence":0.9},"tone":["warm"],"key_points":["said hello"],"non_verbal_signals":[],"language":"en","confidence":0.8}"#;
    let result = parse_json_response(input).unwrap();
    assert_eq!(s(&result, "transcript"), "hello");
}

#[test]
fn parse_json_response_strips_markdown_fences() {
    let input = "```json\n{\"transcript\":\"hello\"}\n```";
    let result = parse_json_response(input).unwrap();
    assert_eq!(s(&result, "transcript"), "hello");
}

#[test]
fn parse_json_response_extracts_from_surrounding_text() {
    let input = "Here is the result:\n{\"transcript\":\"hello\"}\nEnd.";
    let result = parse_json_response(input).unwrap();
    assert_eq!(s(&result, "transcript"), "hello");
}

#[test]
fn parse_json_response_repairs_missing_brackets() {
    let input = "{\"transcript\":\"hello\",\"summary\":\"greeting\"";
    let result = parse_json_response(input).unwrap();
    assert_eq!(s(&result, "transcript"), "hello");
}

#[test]
fn parse_json_response_repairs_trailing_commas() {
    let input = "{\"transcript\":\"hello\",\"tone\":[\"warm\", ],";
    let result = parse_json_response(input).unwrap();
    assert_eq!(s(&result, "transcript"), "hello");
}

#[test]
fn parse_json_response_returns_none_for_garbage() {
    assert!(parse_json_response("not json at all").is_none());
    assert!(parse_json_response("   ").is_none());
}

#[test]
fn regex_replace_trailing_commas_removes_only_trailing_commas() {
    assert_eq!(regex_replace_trailing_commas("[1, 2, ]"), "[1, 2 ]");
    assert_eq!(regex_replace_trailing_commas("{\"a\":1,\n\t}"), "{\"a\":1\n\t}");
    assert_eq!(regex_replace_trailing_commas("a,b,"), "a,b,");
}

#[test]
fn normalize_result_handles_full_response() {
    let parsed = parse_json_response(
        r#"{"transcript":"你好世界","summary":"问候","intent":"greeting","emotion":{"primary":"happy","confidence":0.9},"tone":["warm"],"key_points":["said hello"],"non_verbal_signals":["laugh"],"language":"zh","confidence":0.85}"#,
    )
    .unwrap();
    let result = normalize_result(&parsed, "raw", "qwen3-omni-flash".to_string());
    assert_eq!(result.transcript, "你好世界");
    assert_eq!(result.summary.unwrap(), "问候");
    assert_eq!(result.intent.unwrap(), "greeting");
    let emotion = result.emotion.unwrap();
    assert_eq!(emotion.primary, "happy");
    assert_eq!(emotion.confidence.map(f64::from_bits), Some(0.9));
    assert_eq!(result.tone.unwrap(), vec!["warm"]);
    assert_eq!(result.key_points.unwrap(), vec!["said hello"]);
    assert_eq!(result.non_verbal_signals.unwrap(), vec!["laugh"]);
    assert_eq!(result.language.unwrap(), "zh");
    assert!((f64::from_bits(result.confidence) - 0.85).abs() < f64::EPSILON);
    assert_eq!(result.raw_text.as_deref(), Some("raw"));
}

#[test]
fn normalize_result_handles_emotion_as_string() {
    let parsed = parse_json_response(r#"{"transcript":"","emotion":"sad"}"#).unwrap();
    let result = normalize_result(&parsed, "raw", "m".to_string());
    assert_eq!(result.emotion.unwrap().primary, "sad");
}

#[test]
fn normalize_result_handles_defaults() {
    let parsed = parse_json_response(r#"{"transcript":"hello"}"#).unwrap();
    let result = normalize_result(&parsed, "raw", "m".to_string());
    assert_eq!(result.transcript, "hello");
    assert!(result.summary.is_none());
    assert!((f64::from_bits(result.confidence) - 0.5).abs() < f64::EPSILON);
    assert_eq!(result.confidence, HALF_BITS);
}

#[test]
fn normalize_result_skips_non_string_items() {
    let parsed = parse_json_response(r#"{"tone":["warm",1,null,"soft"],"emotion":{"confidence":"x"}}"#).unwrap();
    let result = normalize_result(&parsed, "raw", "m".to_string());
    assert_eq!(result.tone.unwrap(), vec!["warm", "soft"]);
    let emotion = result.emotion.unwrap();
    assert_eq!(emotion.primary, "unknown");
    assert_eq!(emotion.confidence, None);
    assert_eq!(result.transcript, "");
}

#[test]
fn understand_missing_api_key() {
    let result = prepare_understanding(
        None,
        "/tmp/nonexistent.wav",
        AudioFile::Missing,
        "qwen3-omni-flash",
        "https://x/v1",
    );
    assert!(matches!(result.unwrap_err(), HimdError::Config(_)));
}

#[test]
fn understand_missing_file() {
    let result = prepare_understanding(
        Some("test-key".to_string()),
        "/tmp/does_not_exist_xyz.wav",
        AudioFile::Missing,
        "qwen3-omni-flash",
        "https://x/v1",
    );
    match result.unwrap_err() {
        HimdError::FileNotFound(p) => assert_eq!(p, "/tmp/does_not_exist_xyz.wav"),
        other => panic!("Expected FileNotFound, got {other:?}"),
    }
}

#[test]
fn understand_unreadable_file() {
    let result = prepare_understanding(
        Some("k".to_string()),
        "/tmp/a.wav",
        AudioFile::Unreadable("permission denied".to_string()),
        "m",
        "b",
    );
    match result.unwrap_err() {
        HimdError::Io(m) => assert_eq!(m, "Failed to read audio file: permission denied"),
        other => panic!("Expected Io, got {other:?}"),
    }
}

#[test]
fn understand_request_carries_base64_audio() {
    let req = build_understand_request(
        "test-key".to_string(),
        "/tmp/clip.WAV",
        b"Man",
        "qwen3-omni-flash",
        "https://dashscope.aliyuncs.com/compatible-mode/v1",
    );
    assert_eq!(req.url, "https://dashscope.aliyuncs.com/compatible-mode/v1/chat/completions");
    assert_eq!(req.api_key, "test-key");
    let messages = req.body.get("messages").unwrap();
    let user = messages.at(1).unwrap();
    let audio = user.get("content").unwrap().at(0).unwrap().get("input_audio").unwrap();
    assert_eq!(s(audio, "data"), "data:audio/wav;base64,TWFu");
    assert_eq!(s(audio, "format"), "wav");
    assert_eq!(s(&req.body, "model"), "qwen3-omni-flash");
    let req = build_understand_request("k".to_string(), "noext", b"Ma", "m", "b");
    let audio = req.body.get("messages").unwrap().at(1).unwrap().get("content").unwrap().at(0)
        .unwrap().get("input_audio").unwrap();
    assert_eq!(s(audio, "data"), "data:audio/wav;base64,TWE=");
}

#[test]
fn request_body_has_prompts() {
    let body = build_request_body("data:audio/mp3;base64,", "mp3", "qwen3-omni-flash");
    assert!(matches!(body.get("stream"), Some(Json::Bool(true))));
    let messages = body.get("messages").unwrap();
    assert_eq!(s(messages.at(0).unwrap(), "content"), SYSTEM_PROMPT);
    assert_eq!(s(messages.at(0).unwrap(), "role"), "system");
    let text_part = messages.at(1).unwrap().get("content").unwrap().at(1).unwrap();
    assert_eq!(s(text_part, "text"), USER_PROMPT);
    let modalities = body.get("modalities").unwrap();
    assert_eq!(modalities.at(0).unwrap().as_str().unwrap(), "text");
}

#[test]
fn understand_successful_response() {
    let sse_body = make_sse_body(r#"{"transcript":"测试","summary":"测试内容","confidence":0.9}"#);
    let text = match after_attempt(0, Ok((200, parse_sse_text(&sse_body)))) {
        AttemptStep::Finish(Ok(t)) => t,
        other => panic!("Expected Ok, got {other:?}"),
    };
    let r = finish_understanding(text, "qwen3-omni-flash".to_string());
    assert_eq!(r.transcript, "测试");
    assert_eq!(r.summary.as_deref(), Some("测试内容"));
}

#[test]
fn understand_retries_on_5xx() {
    let first = after_attempt(0, Err(HimdError::Api { status: 500, message: "internal error".into() }));
    assert!(matches!(first, AttemptStep::Retry));
    let sse_body = make_sse_body(r#"{"transcript":"retry ok"}"#);
    match after_attempt(1, Ok((200, parse_sse_text(&sse_body)))) {
        AttemptStep::Finish(Ok(t)) => {
            assert_eq!(finish_understanding(t, "m".to_string()).transcript, "retry ok")
        }
        other => panic!("Expected Ok, got {other:?}"),
    }
    // a second server error ends the call
    let second = after_attempt(1, Err(HimdError::Api { status: 502, message: "bad".into() }));
    assert!(matches!(second, AttemptStep::Finish(Err(HimdError::Api { status: 502, .. }))));
}

#[test]
fn understand_no_retry_on_4xx() {
    match after_attempt(0, Err(HimdError::Api { status: 401, message: "unauthorized".into() })) {
        AttemptStep::Finish(Err(HimdError::Api { status, .. })) => assert_eq!(status, 401),
        other => panic!("Expected Api error, got {other:?}"),
    }
    assert!(matches!(
        after_attempt(0, Err(HimdError::Io("down".into()))),
        AttemptStep::Finish(Err(HimdError::Io(_)))
    ));
}

#[test]
fn understand_empty_response_returns_warnings() {
    let r = finish_understanding(String::new(), "m".to_string());
    assert!(r.warnings.contains(&"empty_response".to_string()));
    assert_eq!(r.transcript, "");
    assert!(r.raw_text.is_none());
}

#[test]
fn understand_json_parse_fallback_uses_raw_text() {
    let sse_body = "data: {\"choices\":[{\"delta\":{\"content\":\"This is not JSON at all\"}}]}\ndata: [DONE]\n";
    let r = finish_understanding(parse_sse_text(sse_body), "m".to_string());
    assert_eq!(r.transcript, "This is not JSON at all");
    assert!(r.warnings.contains(&"json_parse_failed".to_string()));
    assert_eq!(r.raw_text.as_deref(), Some("This is not JSON at all"));
}

#[test]
fn understand_uses_audio_model_env_override() {
    let model = audio_model(Some("qwen3-omni-flash".to_string()));
    let r = finish_understanding(r#"{"transcript":"hello","confidence":0.9}"#.to_string(), model);
    assert_eq!(r.model, "qwen3-omni-flash");
    assert_eq!(audio_model(None), "qwen3-omni-flash");
    assert_eq!(audio_model(Some("other".to_string())), "other");
}

#[test]
fn understand_returns_json_parse_warning_when_body_is_not_json() {
    let r = finish_understanding("This is plain text, not JSON".to_string(), "m".to_string());
    assert!(
        r.warnings.contains(&"json_parse_failed".to_string()),
        "Expected json_parse_failed warning, got: {:?}",
        r.warnings
    );
}

#[test]
fn empty_result_and_base_url_defaults() {
    let r = create_empty_result("m".to_string());
    assert_eq!(r.provider, "qwen-omni");
    assert_eq!(r.confidence, 0);
    assert!(r.warnings.is_empty());
    assert_eq!(base_url(None), "https://dashscope.aliyuncs.com/compatible-mode/v1");
}

#[test]
fn parse_sse_text_splits_at_line_feeds() {
    let a = "data: {\"choices\":[{\"delta\":{\"content\":\"hello\"}}]}\n: comment";
    let b = "data: {\"choices\":[{\"delta\":{\"content\":\" world\"}}]}\ndata: [DONE]";
    let whole = format!("{a}\n{b}");
    assert_eq!(parse_sse_text(&whole), parse_sse_text(a) + &parse_sse_text(b));
    assert_eq!(parse_sse_text(&whole), "hello world");
}

#[test]
fn understand_request_without_extension_uses_wav() {
    let req = build_understand_request("k".to_string(), "/tmp/noext", b"", "m", "b");
    let audio = req.body.get("messages").unwrap().at(1).unwrap().get("content").unwrap().at(0)
        .unwrap().get("input_audio").unwrap();
    assert_eq!(s(audio, "format"), "wav");
}

#[test]
fn understand_rejects_unsupported_format() {
    let result = prepare_understanding(
        Some("k".to_string()),
        "/tmp/clip.OGG",
        AudioFile::Bytes(b"OggS".to_vec()),
        "m",
        "b",
    );
    match result.unwrap_err() {
        HimdError::Validation(m) => {
            assert_eq!(m, "Unsupported audio format: ogg (only wav and mp3 are supported)")
        }
        other => panic!("Expected Validation, got {other:?}"),
    }
}

#[test]
fn understand_rejects_files_over_25mb() {
    let result = prepare_understanding(
        Some("k".to_string()),
        "/tmp/big.wav",
        AudioFile::Bytes(vec![0u8; 26_214_401]),
        "m",
        "b",
    );
    match result.unwrap_err() {
        HimdError::Validation(m) => assert_eq!(m, "Audio file too large: 26214401 bytes (max 25MB)"),
        other => panic!("Expected Validation, got {other:?}"),
    }
    let ok = prepare_understanding(
        Some("k".to_string()),
        "/tmp/song.MP3",
        AudioFile::Bytes(vec![0u8; 3]),
        "m",
        "b",
    )
    .unwrap();
    assert_eq!(ok.api_key, "k");
}
