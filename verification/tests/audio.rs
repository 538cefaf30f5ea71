use himd::acoustic::parse_wav_header;
use himd::audio::capture::{capture_result, CaptureDiagnostics};
use himd::audio::error::AudioError;
use himd::audio::platform::{map_stop_reason, probe_input_device, probe_output_device, DeviceProbe};
use himd::audio::playback::PlaybackDiagnostics;
use himd::audio::vad::{f32_bits_ge, StopReason, VadConfig, VadState};
use himd::audio::wav::{build_capture_output_path, wav_mono_i16_bytes};
use himd::audio::{capture, playback};
use himd::types::StoppedBy;

fn found(name: &str, stream_ok: bool) -> DeviceProbe {
    DeviceProbe::Found { name: name.to_string(), stream_ok }
}

#[test]
fn diagnostics_reports_input_device_result() {
    for probe in [DeviceProbe::UnsupportedPlatform, DeviceProbe::NotFound, found("Built-in Microphone", true), found("USB", false)] {
        let diagnostics = CaptureDiagnostics::probe(probe);
        assert!(
            diagnostics.summary.contains("input"),
            "diagnostics summary should mention 'input': {}",
            diagnostics.summary
        );
    }
}

#[test]
fn diagnostics_reports_output_device_result() {
    for probe in [DeviceProbe::UnsupportedPlatform, DeviceProbe::NotFound, found("Speakers", true), found("HDMI", false)] {
        let diagnostics = PlaybackDiagnostics::probe(probe);
        assert!(
            diagnostics.summary.contains("output"),
            "diagnostics summary should mention 'output': {}",
            diagnostics.summary
        );
    }
}

#[test]
fn diagnostics_route_through_platform_modules() {
    let via_capture = CaptureDiagnostics::probe(found("Mic", false));
    let via_platform = probe_input_device(found("Mic", false));
    assert_eq!(via_capture.summary, via_platform.summary);
    assert_eq!(via_capture.device_name, via_platform.device_name);
    assert_eq!(via_capture.ok, via_platform.ok);
    assert_eq!(via_capture.init_ok, via_platform.init_ok);
    let via_playback = PlaybackDiagnostics::probe(DeviceProbe::NotFound);
    let via_platform = probe_output_device(DeviceProbe::NotFound);
    assert_eq!(via_playback.summary, via_platform.summary);
}

#[test]
fn capture_and_playback_route_through_platform_modules() {
    let result = capture_result("/tmp/a.wav".to_string(), 16000, 16000, 32044, StopReason::Silence);
    assert_eq!(result.stopped_by, map_stop_reason(StopReason::Silence));
    let d = PlaybackDiagnostics::probe(DeviceProbe::UnsupportedPlatform);
    assert_eq!(d.summary, "unsupported platform: no output device");
}

#[test]
fn input_diagnostics_texts() {
    let d = probe_input_device(found("Built-in Microphone", true));
    assert_eq!(d.summary, "default input device: Built-in Microphone");
    assert_eq!(d.device_name.as_deref(), Some("Built-in Microphone"));
    assert!(d.ok && d.init_ok);
    let d = probe_input_device(found("USB", false));
    assert_eq!(d.summary, "default input device: USB (stream init failed)");
    assert!(d.ok && !d.init_ok);
    let d = probe_input_device(DeviceProbe::NotFound);
    assert_eq!(d.summary, "no default input device found");
    assert!(d.device_name.is_none() && !d.ok && !d.init_ok);
    let d = probe_output_device(DeviceProbe::UnsupportedPlatform);
    assert_eq!(d.summary, "unsupported platform: no output device");
    assert!(!d.ok);
}

#[test]
fn audio_crate_exports_capture_and_playback_modules() {
    let input = capture::CaptureDiagnostics::probe(DeviceProbe::NotFound);
    let output = playback::PlaybackDiagnostics::probe(DeviceProbe::NotFound);
    assert!(!input.ok && !output.ok);
}

#[test]
fn mcp_capture_tool_uses_native_audio() {
    let d = himd::audio::capture::CaptureDiagnostics::probe(found("Mic", true));
    assert!(d.ok && d.init_ok);
}

#[test]
fn silence_before_speech_becomes_no_speech() {
    let mut vad = VadState::new(VadConfig::default());
    let stop = vad.push_energy(0.0f32.to_bits(), 8_100);
    assert_eq!(stop, Some(StopReason::NoSpeech));
}

#[test]
fn speech_then_long_silence_becomes_silence() {
    let mut vad = VadState::new(VadConfig::default());
    assert_eq!(vad.push_energy(0.30f32.to_bits(), 500), None);
    let stop = vad.push_energy(0.0f32.to_bits(), 2_100);
    assert_eq!(stop, Some(StopReason::Silence));
}

#[test]
fn timeout_wins_when_max_duration_is_hit() {
    let mut vad = VadState::new(VadConfig::default());
    let stop = vad.push_elapsed(30_000);
    assert_eq!(stop, Some(StopReason::Timeout));
}

#[test]
fn vad_keeps_listening_before_the_grace_period() {
    let mut vad = VadState::new(VadConfig::default());
    assert_eq!(vad.push_energy(0.01f32.to_bits(), 7_900), None);
    assert!(!vad.speech_detected());
    assert_eq!(vad.push_energy(0.02f32.to_bits(), 100), None);
    assert!(vad.speech_detected());
    // after speech, NoSpeech is never reported; silence below the limit continues
    assert_eq!(vad.push_energy(0.0f32.to_bits(), 1_400), None);
    assert_eq!(vad.push_energy(0.0f32.to_bits(), 100), Some(StopReason::Silence));
    assert!(vad.speech_detected());
}

#[test]
fn vad_timeout_wins_over_speech() {
    let mut vad = VadState::new(VadConfig::default());
    assert_eq!(vad.push_energy(0.5f32.to_bits(), 30_000), Some(StopReason::Timeout));
    assert!(!vad.speech_detected());
}

#[test]
fn f32_comparison_on_bits() {
    let pairs: [(f32, f32); 9] = [
        (0.0, 0.02),
        (0.02, 0.02),
        (0.3, 0.02),
        (-0.0, 0.0),
        (-1.0, -2.0),
        (-2.0, -1.0),
        (f32::INFINITY, 1.0),
        (f32::NAN, 0.0),
        (0.0, f32::NAN),
    ];
    for (a, b) in pairs {
        assert_eq!(f32_bits_ge(a.to_bits(), b.to_bits()), a >= b, "{a} >= {b}");
    }
}

#[test]
fn map_stop_reason_maps_each_reason() {
    assert_eq!(map_stop_reason(StopReason::NoSpeech), StoppedBy::NoSpeech);
    assert_eq!(map_stop_reason(StopReason::Silence), StoppedBy::Silence);
    assert_eq!(map_stop_reason(StopReason::Timeout), StoppedBy::Timeout);
}

#[test]
fn capture_result_reports_duration() {
    let r = capture_result("/tmp/test.wav".to_string(), 16000, 16000, 32044, StopReason::Silence);
    assert_eq!(r.duration_ms, 1000);
    assert_eq!(r.format, "wav");
    assert_eq!(r.channels, 1);
    assert_eq!(r.file_size_bytes, 32044);
    assert_eq!(r.stopped_by, StoppedBy::Silence);
    let r = capture_result("/tmp/x.wav".to_string(), 44100, 0, 44, StopReason::NoSpeech);
    assert_eq!(r.duration_ms, 0);
    let r = capture_result("/tmp/x.wav".to_string(), 48000, 1000, 44, StopReason::Timeout);
    assert_eq!(r.duration_ms, 20);
}

#[test]
fn capture_output_path_uses_himd_prefix() {
    let path = build_capture_output_path("/tmp/.voice-bridge/captures", 1_735_689_600_000);
    assert!(path.contains("himd"), "path should contain 'himd': {path}");
    assert!(path.ends_with(".wav"), "path should end with .wav: {path}");
    assert_eq!(path, "/tmp/.voice-bridge/captures/himd-capture-1735689600000.wav");
}

#[test]
fn wav_writer_emits_riff_header() {
    let bytes = wav_mono_i16_bytes(16_000, &[0_i16, 1, -1, 2]);
    assert_eq!(&bytes[0..4], b"RIFF");
    assert_eq!(&bytes[8..12], b"WAVE");
    assert_eq!(bytes.len(), 44 + 8);
    assert_eq!(&bytes[44..], &[0, 0, 1, 0, 0xff, 0xff, 2, 0]);
}

#[test]
fn written_wav_parses_back() {
    let bytes = wav_mono_i16_bytes(22_050, &[100_i16, -100, 7]);
    let info = parse_wav_header(&bytes).unwrap();
    assert_eq!(info.num_channels, 1);
    assert_eq!(info.sample_rate, 22_050);
    assert_eq!(info.bits_per_sample, 16);
    assert_eq!(info.data_offset, 44);
    assert_eq!(info.data_size, 6);
}

#[test]
fn audio_error_messages() {
    assert_eq!(AudioError::Device("no default input device".into()).message(), "device error: no default input device");
    assert_eq!(AudioError::Stream("x".into()).message(), "stream error: x");
    assert_eq!(AudioError::Io(std::io::Error::other("y")).message(), "io error: y");
}
