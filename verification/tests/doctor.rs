use himd::doctor::{
    build_report, check_arch_mismatch, config_info, render_human, AudioCapability, BinaryInfo,
    FailureCode, RuntimeState,
};

fn binary() -> BinaryInfo {
    BinaryInfo {
        version: "0.1.0".to_string(),
        platform: "macos".to_string(),
        architecture: "aarch64".to_string(),
        executable_path: "/usr/local/bin/himd".to_string(),
    }
}

fn cap(available: bool, init_ok: bool) -> AudioCapability {
    AudioCapability {
        available,
        device_name: if available { Some("Device".to_string()) } else { None },
        init_ok,
    }
}

#[test]
fn doctor_reports_missing_key() {
    let report = build_report(
        binary(),
        config_info(None, None, None, None),
        cap(true, true),
        cap(true, true),
        RuntimeState { state_dir: "/w/.voice-bridge".to_string(), writable: true },
        false,
        false,
    );
    assert_eq!(report.readiness.failure_codes, vec![FailureCode::DashscopeApiKeyMissing]);
    assert!(!report.readiness.pass);
    assert_eq!(report.config.audio_model, "qwen3-omni-flash");
    assert_eq!(report.config.tts_model, "qwen3-tts-instruct-flash");
    assert!(report.runtime_state.state_dir.ends_with(".voice-bridge"));
}

#[test]
fn doctor_failure_codes_in_order() {
    let report = build_report(
        binary(),
        config_info(Some("k".to_string()), None, None, None),
        cap(false, false),
        cap(true, false),
        RuntimeState { state_dir: "/w/.voice-bridge".to_string(), writable: false },
        true,
        true,
    );
    assert_eq!(
        report.readiness.failure_codes,
        vec![
            FailureCode::BinaryArchMismatch,
            FailureCode::BinaryQuarantined,
            FailureCode::AudioInputMissing,
            FailureCode::AudioOutputInitFailed,
            FailureCode::RuntimeStateDirNotWritable,
        ]
    );
}

#[test]
fn doctor_passes_when_all_checks_pass() {
    let report = build_report(
        binary(),
        config_info(Some("k".to_string()), None, None, Some("https://b".to_string())),
        cap(true, true),
        cap(true, true),
        RuntimeState { state_dir: "/w/.voice-bridge".to_string(), writable: true },
        false,
        false,
    );
    assert!(report.readiness.pass);
    assert!(report.readiness.failure_codes.is_empty());
    assert!(report.readiness.warnings.is_empty());
    let lines = render_human(&report);
    assert_eq!(lines.last().unwrap(), "All checks passed. Run /hi to start.");
}

#[test]
fn doctor_runs() {
    let report = build_report(
        binary(),
        config_info(None, None, None, None),
        cap(true, true),
        cap(false, false),
        RuntimeState { state_dir: "/w/.voice-bridge".to_string(), writable: true },
        false,
        false,
    );
    let stdout = render_human(&report).join("\n");
    assert!(stdout.contains("himd doctor"), "doctor output should contain 'himd doctor'; got: {stdout}");
    assert!(!stdout.contains("ffmpeg"), "doctor should not mention ffmpeg; got: {stdout}");
    assert!(!stdout.contains("afplay"), "doctor should not mention afplay; got: {stdout}");
    assert!(stdout.contains("input"), "doctor should check input device; got: {stdout}");
    assert!(stdout.contains("output"), "doctor should check output device; got: {stdout}");
    let lines = render_human(&report);
    assert_eq!(lines[0], "himd doctor v0.1.0");
    assert_eq!(lines[1], "");
    assert_eq!(lines[2], "  [ok] binary arch: aarch64 on macos");
    assert_eq!(lines[3], "  [FAIL] DASHSCOPE_API_KEY not set — export DASHSCOPE_API_KEY=your-key");
    assert_eq!(lines[6], "  [ok] default input device: Device");
    assert_eq!(lines[7], "  [FAIL] no default output device found");
    assert_eq!(lines[8], "  [ok] himd binary version 0.1.0");
    assert_eq!(lines.last().unwrap(), "Some checks failed. Fix the issues above and re-run.");
}

#[test]
fn doctor_human_mentions_quarantine() {
    let report = build_report(
        binary(),
        config_info(Some("k".to_string()), None, None, None),
        cap(true, false),
        cap(true, true),
        RuntimeState { state_dir: "/w".to_string(), writable: true },
        true,
        true,
    );
    let lines = render_human(&report);
    assert!(lines[2].starts_with("  [FAIL] architecture mismatch"));
    assert_eq!(
        lines[3],
        "  [FAIL] binary is quarantined by macOS — run: xattr -d com.apple.quarantine /usr/local/bin/himd"
    );
    assert_eq!(lines[7], "  [FAIL] default input device: Device (stream init failed)");
}

#[test]
fn arch_mismatch_is_checked_on_macos_only() {
    assert!(!check_arch_mismatch("aarch64", Some("arm64\n".to_string()), true));
    assert!(check_arch_mismatch("x86_64", Some("arm64\n".to_string()), true));
    assert!(!check_arch_mismatch("x86_64", Some("arm64\n".to_string()), false));
    assert!(!check_arch_mismatch("x86_64", None, true));
}

#[test]
fn doctor_json_reports_runtime_base_dir_and_failure_codes() {
    // A run in a fresh directory with DASHSCOPE_API_KEY unset.
    let state_dir = himd::runtime_paths::runtime_base_dir("/tmp/doctor-run");
    let report = build_report(
        binary(),
        config_info(None, None, None, None),
        cap(true, true),
        cap(true, true),
        RuntimeState { state_dir, writable: true },
        false,
        false,
    );
    assert!(
        report.runtime_state.state_dir.ends_with(".voice-bridge"),
        "expected state_dir to end with .voice-bridge, got: {}",
        report.runtime_state.state_dir
    );
    assert!(report.readiness.failure_codes.iter().any(|c| *c == FailureCode::DashscopeApiKeyMissing));
    assert!(!report.readiness.pass);
}

#[test]
fn doctor_codes_follow_check_order() {
    let report = build_report(
        binary(),
        config_info(None, None, None, None),
        cap(true, false),
        cap(false, false),
        RuntimeState { state_dir: "/w/.voice-bridge".to_string(), writable: false },
        true,
        true,
    );
    assert_eq!(
        report.readiness.failure_codes,
        vec![
            FailureCode::BinaryArchMismatch,
            FailureCode::BinaryQuarantined,
            FailureCode::DashscopeApiKeyMissing,
            FailureCode::AudioInputInitFailed,
            FailureCode::AudioOutputMissing,
            FailureCode::RuntimeStateDirNotWritable,
        ]
    );
    let lines = render_human(&report);
    assert!(lines[0].starts_with("himd doctor"));
    assert!(lines.iter().any(|l| l.contains("input device")));
    assert!(lines.iter().any(|l| l.contains("output device")));
}

#[test]
fn quarantine_is_checked_only_on_macos() {
    assert!(himd::doctor::check_quarantined(true, Some(true)));
    assert!(!himd::doctor::check_quarantined(true, Some(false)));
    assert!(!himd::doctor::check_quarantined(true, None));
    assert!(!himd::doctor::check_quarantined(false, Some(true)));
}
