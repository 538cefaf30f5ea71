use himd::acoustic::{
    build_audio_turn, count_speech_chars, parse_wav_header, pcm_bounds, RawAnalysis,
};
use himd::provider::{create_empty_result, EmotionResult};
use himd::types::{EnergyLevel, PausePattern, SpeechRate};

fn make_minimal_wav() -> Vec<u8> {
    let sample_rate: u32 = 16000;
    let num_channels: u16 = 1;
    let bits_per_sample: u16 = 16;
    let num_samples: u32 = 16000;
    let data_size = num_samples * (bits_per_sample as u32 / 8) * num_channels as u32;
    let file_size = 36 + data_size;

    let mut wav = Vec::with_capacity(44 + data_size as usize);
    wav.extend_from_slice(b"RIFF");
    wav.extend_from_slice(&file_size.to_le_bytes());
    wav.extend_from_slice(b"WAVE");
    wav.extend_from_slice(b"fmt ");
    wav.extend_from_slice(&16u32.to_le_bytes());
    wav.extend_from_slice(&1u16.to_le_bytes());
    wav.extend_from_slice(&num_channels.to_le_bytes());
    wav.extend_from_slice(&sample_rate.to_le_bytes());
    let byte_rate = sample_rate * num_channels as u32 * (bits_per_sample as u32 / 8);
    wav.extend_from_slice(&byte_rate.to_le_bytes());
    let block_align = num_channels * (bits_per_sample / 8);
    wav.extend_from_slice(&block_align.to_le_bytes());
    wav.extend_from_slice(&bits_per_sample.to_le_bytes());
    wav.extend_from_slice(b"data");
    wav.extend_from_slice(&data_size.to_le_bytes());
    for i in 0..data_size as usize / 2 {
        let sample = if i % 2 == 0 { 10000i16 } else { -10000i16 };
        wav.extend_from_slice(&sample.to_le_bytes());
    }
    wav
}

#[test]
fn parse_wav_header_valid() {
    let wav = make_minimal_wav();
    let info = parse_wav_header(&wav).unwrap();
    assert_eq!(info.num_channels, 1);
    assert_eq!(info.sample_rate, 16000);
    assert_eq!(info.bits_per_sample, 16);
}

#[test]
fn parse_wav_header_too_short() {
    assert!(parse_wav_header(&[0u8; 10]).is_none());
}

#[test]
fn parse_wav_header_not_riff() {
    let mut wav = make_minimal_wav();
    wav[0..4].copy_from_slice(b"NOPE");
    assert!(parse_wav_header(&wav).is_none());
}

#[test]
fn parse_wav_header_finds_data_offset_and_size() {
    let wav = make_minimal_wav();
    let info = parse_wav_header(&wav).unwrap();
    assert_eq!(info.data_offset, 44);
    assert_eq!(info.data_size, 32000);
}

#[test]
fn parse_wav_header_skips_unknown_chunks() {
    let mut wav = make_minimal_wav();
    // Insert a "LIST" chunk of 4 bytes between "fmt " and "data".
    let mut extra = Vec::new();
    extra.extend_from_slice(b"LIST");
    extra.extend_from_slice(&4u32.to_le_bytes());
    extra.extend_from_slice(b"abcd");
    let tail = wav.split_off(36);
    wav.extend_from_slice(&extra);
    wav.extend_from_slice(&tail);
    let info = parse_wav_header(&wav).unwrap();
    assert_eq!(info.data_offset, 56);
    assert_eq!(info.data_size, 32000);
}

#[test]
fn parse_wav_header_header_only_file_has_no_data() {
    let mut wav = vec![0u8; 44];
    wav[0..4].copy_from_slice(b"RIFF");
    wav[8..12].copy_from_slice(b"WAVE");
    assert!(parse_wav_header(&wav).is_none());
}

#[test]
fn pcm_bounds_cut_at_file_end() {
    let wav = make_minimal_wav();
    let mut info = parse_wav_header(&wav).unwrap();
    info.data_size = 1_000_000;
    assert_eq!(pcm_bounds(&info, wav.len()), (44, wav.len()));
    info.data_size = 10;
    assert_eq!(pcm_bounds(&info, wav.len()), (44, 54));
}

#[test]
fn count_speech_chars_skips_whitespace() {
    assert_eq!(count_speech_chars("hello world test speech"), 20);
    assert_eq!(count_speech_chars("一二三"), 3);
    assert_eq!(count_speech_chars(" \t\n"), 0);
    assert_eq!(count_speech_chars("a\u{3000}b"), 2);
}

#[test]
fn build_audio_turn_basic() {
    let provider = create_empty_result("qwen3-omni-flash".to_string());
    let analysis = RawAnalysis {
        speech_rate: SpeechRate::Normal,
        energy: EnergyLevel::Medium,
        pause_pattern: PausePattern::Short,
    };
    let turn = build_audio_turn(&provider, "/tmp/himd-test-acoustic/test.wav", Some(analysis));
    assert_eq!(turn.source, "file");
    assert_eq!(turn.audio_file, "/tmp/himd-test-acoustic/test.wav");
    assert!(turn.audio_understanding.is_none());
    assert!(turn.warnings.is_none());
    assert_eq!(turn.analysis.pause_pattern, PausePattern::Short);
    assert_eq!(turn.provider, "qwen-omni");
    let confidence = f64::from_bits(turn.analysis_confidence);
    assert_eq!(confidence, (0.7 + 0.6 + 0.5) / 3.0);
    assert!((0.0..=1.0).contains(&confidence));
}

#[test]
fn build_audio_turn_with_enrichment() {
    let mut provider = create_empty_result("qwen3-omni-flash".to_string());
    provider.transcript = "你好".to_string();
    provider.summary = Some("greeting".to_string());
    provider.emotion = Some(EmotionResult {
        primary: "happy".to_string(),
        confidence: Some(0.9f64.to_bits()),
    });
    provider.warnings.push("json_parse_failed".to_string());

    let turn = build_audio_turn(&provider, "test.wav", None);
    assert_eq!(turn.transcript, "你好");
    let au = turn.audio_understanding.unwrap();
    assert_eq!(au.summary.unwrap(), "greeting");
    let emotion = au.emotion.unwrap();
    assert_eq!(emotion.primary, "happy");
    assert_eq!(emotion.confidence, Some(0.9f64.to_bits()));
    assert_eq!(turn.warnings.unwrap(), vec!["json_parse_failed".to_string()]);
}

#[test]
fn build_audio_turn_nonexistent_file_uses_defaults() {
    let provider = create_empty_result("qwen3-omni-flash".to_string());
    let turn = build_audio_turn(&provider, "/tmp/nonexistent_himd_test.wav", None);
    assert_eq!(turn.analysis.speech_rate, SpeechRate::Normal);
    assert_eq!(turn.analysis.energy, EnergyLevel::Medium);
    assert_eq!(turn.analysis.pause_pattern, PausePattern::Medium);
    assert_eq!(f64::from_bits(turn.analysis_confidence), 0.2);
}
