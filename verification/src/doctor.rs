//! The doctor report: what the environment checks found, which failures
//! they amount to, and how the report reads to a person.
use vstd::prelude::*;

use crate::audio::capture::CaptureDiagnostics;
use crate::audio::playback::PlaybackDiagnostics;
use crate::text::{
    chars_of, has_prefix, lemma_mentions_middle, opt_view, lemma_strings_view_push, mentions, push_str,
    string_of, strings_view,
};

verus! {

/// Stable failure codes consumed by the companion plugin.
///
/// The doctor reports the first eight; the plugin uses the last two for
/// failures that the binary cannot see about itself.
#[derive(Debug, Clone, Copy, PartialEq, Eq, Structural)]
pub enum FailureCode {
    DashscopeApiKeyMissing,
    AudioInputMissing,
    AudioInputInitFailed,
    AudioOutputMissing,
    AudioOutputInitFailed,
    RuntimeStateDirNotWritable,
    BinaryArchMismatch,
    BinaryQuarantined,
    BinaryMissing,
    BinaryNotExecutable,
}

/// Binary metadata section.
#[derive(Debug)]
pub struct BinaryInfo {
    pub version: String,
    pub platform: String,
    pub architecture: String,
    pub executable_path: String,
}

/// Config section.
#[derive(Debug)]
pub struct ConfigInfo {
    pub dashscope_api_key_set: bool,
    pub audio_model: String,
    pub tts_model: String,
    pub dashscope_base_url: Option<String>,
}

/// Audio device capability.
#[derive(Debug)]
pub struct AudioCapability {
    pub available: bool,
    pub device_name: Option<String>,
    /// Additional detail when available but init might fail.
    pub init_ok: bool,
}

/// Runtime state section.
#[derive(Debug)]
pub struct RuntimeState {
    pub state_dir: String,
    pub writable: bool,
}

/// Overall readiness summary.
#[derive(Debug)]
pub struct Readiness {
    pub pass: bool,
    pub warnings: Vec<String>,
    pub failure_codes: Vec<FailureCode>,
}

/// Full doctor report: the stable machine-readable contract.
#[derive(Debug)]
pub struct DoctorReport {
    pub binary: BinaryInfo,
    pub config: ConfigInfo,
    pub audio_input: AudioCapability,
    pub audio_output: AudioCapability,
    pub runtime_state: RuntimeState,
    pub readiness: Readiness,
}

/// The config section, given the values of `DASHSCOPE_API_KEY`,
/// `AUDIO_MODEL`, `TTS_MODEL` and `DASHSCOPE_BASE_URL`.
pub fn config_info(
    api_key_env: Option<String>,
    audio_model_env: Option<String>,
    tts_model_env: Option<String>,
    base_url_env: Option<String>,
) -> (r: ConfigInfo)
    ensures
        r.dashscope_api_key_set == (api_key_env is Some),
        r.audio_model@ == match audio_model_env {
            Some(m) => m@,
            None => crate::provider::default_audio_model(),
        },
        r.tts_model@ == match tts_model_env {
            Some(m) => m@,
            None => crate::tts::default_tts_model(),
        },
        r.dashscope_base_url == base_url_env,
{
    ConfigInfo {
        dashscope_api_key_set: api_key_env.is_some(),
        audio_model: crate::provider::audio_model(audio_model_env),
        tts_model: crate::tts::tts_model(tts_model_env),
        dashscope_base_url: base_url_env,
    }
}

/// The input capability that the input diagnostics show.
pub fn input_capability(d: CaptureDiagnostics) -> (r: AudioCapability)
    ensures
        r.available == d.ok,
        r.device_name == d.device_name,
        r.init_ok == d.init_ok,
{
    AudioCapability { available: d.ok, device_name: d.device_name, init_ok: d.init_ok }
}

/// The output capability that the output diagnostics show.
pub fn output_capability(d: PlaybackDiagnostics) -> (r: AudioCapability)
    ensures
        r.available == d.ok,
        r.device_name == d.device_name,
        r.init_ok == d.init_ok,
{
    AudioCapability { available: d.ok, device_name: d.device_name, init_ok: d.init_ok }
}

/// The architecture name that `uname -m` prints for a Rust target
/// architecture.
pub open spec fn uname_arch(compile_arch: Seq<char>) -> Seq<char> {
    if compile_arch == "aarch64"@ {
        "arm64"@
    } else {
        compile_arch
    }
}

/// Whether the doctor reports an architecture mismatch: only on macOS,
/// where `uname -m` printed something other than the build's architecture.
pub open spec fn arch_mismatch_for(
    compile_arch: Seq<char>,
    uname_output: Option<Seq<char>>,
    is_macos: bool,
) -> bool {
    is_macos && match uname_output {
        Some(o) => uname_arch(compile_arch) != crate::text::trim(o),
        None => false,
    }
}

/// Whether the binary was built for another architecture than the running
/// kernel's.  Only checked on macOS, where `uname_output` is what
/// `uname -m` printed (`None` where it could not be run or read).
pub fn check_arch_mismatch(compile_arch: &str, uname_output: Option<String>, is_macos: bool) -> (r:
    bool)
    ensures
        r == arch_mismatch_for(compile_arch@, opt_view(uname_output), is_macos),
{
    if !is_macos {
        return false;
    }
    match uname_output {
        Some(o) => {
            let native = crate::text::trim_chars(&chars_of(o.as_str()));
            let compile = if crate::text::str_eq(compile_arch, "aarch64") {
                chars_of("arm64")
            } else {
                chars_of(compile_arch)
            };
            !crate::text::chars_eq(&compile, &native)
        },
        None => false,
    }
}

/// Whether the doctor reports the binary as quarantined: only on macOS,
/// where `xattr -p com.apple.quarantine` ran (`xattr_ran` is its exit
/// status' success, `None` where it could not be run) and succeeded.
pub open spec fn quarantined_for(is_macos: bool, xattr_ran: Option<bool>) -> bool {
    is_macos && xattr_ran == Some(true)
}

/// Whether macOS has quarantined the binary, from the outcome of asking
/// `xattr` for the quarantine attribute.
pub fn check_quarantined(is_macos: bool, xattr_ran: Option<bool>) -> (r: bool)
    ensures
        r == quarantined_for(is_macos, xattr_ran),
{
    if !is_macos {
        return false;
    }
    match xattr_ran {
        Some(ok) => ok,
        None => false,
    }
}

/// The failure codes, in the order the doctor reports them.
pub open spec fn failure_codes_for(
    arch_mismatch: bool,
    quarantined: bool,
    api_key_set: bool,
    input: AudioCapability,
    output: AudioCapability,
    writable: bool,
) -> Seq<FailureCode> {
    (if arch_mismatch {
        seq![FailureCode::BinaryArchMismatch]
    } else {
        Seq::empty()
    }) + (if quarantined {
        seq![FailureCode::BinaryQuarantined]
    } else {
        Seq::empty()
    }) + (if !api_key_set {
        seq![FailureCode::DashscopeApiKeyMissing]
    } else {
        Seq::empty()
    }) + (if !input.available {
        seq![FailureCode::AudioInputMissing]
    } else if !input.init_ok {
        seq![FailureCode::AudioInputInitFailed]
    } else {
        Seq::empty()
    }) + (if !output.available {
        seq![FailureCode::AudioOutputMissing]
    } else if !output.init_ok {
        seq![FailureCode::AudioOutputInitFailed]
    } else {
        Seq::empty()
    }) + (if !writable {
        seq![FailureCode::RuntimeStateDirNotWritable]
    } else {
        Seq::empty()
    })
}

fn push_code_if(codes: &mut Vec<FailureCode>, cond: bool, code: FailureCode)
    ensures
        final(codes)@ == old(codes)@ + if cond {
            seq![code]
        } else {
            Seq::empty()
        },
{
    if cond {
        codes.push(code);
    }
    assert(final(codes)@ =~= old(codes)@ + if cond {
        seq![code]
    } else {
        Seq::empty()
    });
}

/// Assemble the report from what the checks found.
pub fn build_report(
    binary: BinaryInfo,
    config: ConfigInfo,
    audio_input: AudioCapability,
    audio_output: AudioCapability,
    runtime_state: RuntimeState,
    arch_mismatch: bool,
    quarantined: bool,
) -> (r: DoctorReport)
    ensures
        r.binary == binary,
        r.config == config,
        r.audio_input == audio_input,
        r.audio_output == audio_output,
        r.runtime_state == runtime_state,
        r.readiness.failure_codes@ == failure_codes_for(
            arch_mismatch,
            quarantined,
            config.dashscope_api_key_set,
            audio_input,
            audio_output,
            runtime_state.writable,
        ),
        r.readiness.pass == (r.readiness.failure_codes@.len() == 0),
        r.readiness.warnings@.len() == 0,
{
    let mut failure_codes: Vec<FailureCode> = Vec::new();
    push_code_if(&mut failure_codes, arch_mismatch, FailureCode::BinaryArchMismatch);
    push_code_if(&mut failure_codes, quarantined, FailureCode::BinaryQuarantined);
    push_code_if(
        &mut failure_codes,
        !config.dashscope_api_key_set,
        FailureCode::DashscopeApiKeyMissing,
    );
    push_code_if(&mut failure_codes, !audio_input.available, FailureCode::AudioInputMissing);
    push_code_if(
        &mut failure_codes,
        audio_input.available && !audio_input.init_ok,
        FailureCode::AudioInputInitFailed,
    );
    push_code_if(&mut failure_codes, !audio_output.available, FailureCode::AudioOutputMissing);
    push_code_if(
        &mut failure_codes,
        audio_output.available && !audio_output.init_ok,
        FailureCode::AudioOutputInitFailed,
    );
    push_code_if(
        &mut failure_codes,
        !runtime_state.writable,
        FailureCode::RuntimeStateDirNotWritable,
    );
    assert(failure_codes@ =~= failure_codes_for(
        arch_mismatch,
        quarantined,
        config.dashscope_api_key_set,
        audio_input,
        audio_output,
        runtime_state.writable,
    ));
    let pass = failure_codes.len() == 0;
    DoctorReport {
        binary,
        config,
        audio_input,
        audio_output,
        runtime_state,
        readiness: Readiness { pass, warnings: Vec::new(), failure_codes },
    }
}

/// The place of a failure code in the order of the doctor's checks; the
/// two alternatives of one device share a place.
pub open spec fn check_rank(c: FailureCode) -> int {
    match c {
        FailureCode::BinaryArchMismatch => 0,
        FailureCode::BinaryQuarantined => 1,
        FailureCode::DashscopeApiKeyMissing => 2,
        FailureCode::AudioInputMissing => 3,
        FailureCode::AudioInputInitFailed => 3,
        FailureCode::AudioOutputMissing => 4,
        FailureCode::AudioOutputInitFailed => 4,
        FailureCode::RuntimeStateDirNotWritable => 5,
        FailureCode::BinaryMissing => 6,
        FailureCode::BinaryNotExecutable => 7,
    }
}

/// Whether the ranks of `s` strictly increase.
pub open spec fn ranks_increasing(s: Seq<FailureCode>) -> bool {
    forall|i: int, j: int|
        0 <= i < j < s.len() ==> check_rank(#[trigger] s[i]) < check_rank(#[trigger] s[j])
}

/// Whether every rank in `s` is at most `r`.
pub open spec fn ranks_at_most(s: Seq<FailureCode>, r: int) -> bool {
    forall|i: int| 0 <= i < s.len() ==> check_rank(#[trigger] s[i]) <= r
}

proof fn lemma_append_ranked(x: Seq<FailureCode>, y: Seq<FailureCode>, k: int)
    requires
        ranks_increasing(x),
        ranks_at_most(x, k - 1),
        y.len() <= 1,
        y.len() == 1 ==> check_rank(y[0]) == k,
    ensures
        ranks_increasing(x + y),
        ranks_at_most(x + y, k),
{
    let z = x + y;
    assert forall|i: int, j: int| 0 <= i < j < z.len() implies check_rank(#[trigger] z[i])
        < check_rank(#[trigger] z[j]) by {
        if j < x.len() {
            assert(z[i] == x[i] && z[j] == x[j]);
        } else {
            assert(z[i] == x[i]);
            assert(z[j] == y[0]);
        }
    }
    assert forall|i: int| 0 <= i < z.len() implies check_rank(#[trigger] z[i]) <= k by {
        if i < x.len() {
            assert(z[i] == x[i]);
        } else {
            assert(z[i] == y[0]);
        }
    }
}

/// The doctor reports its failures in the order of its checks, each at
/// most once, and at most one per audio device.
pub proof fn lemma_failure_codes_ordered(
    arch_mismatch: bool,
    quarantined: bool,
    api_key_set: bool,
    input: AudioCapability,
    output: AudioCapability,
    writable: bool,
)
    ensures
        ({
            let codes = failure_codes_for(
                arch_mismatch,
                quarantined,
                api_key_set,
                input,
                output,
                writable,
            );
            &&& ranks_increasing(codes)
            &&& codes.no_duplicates()
        }),
{
    let a = if arch_mismatch {
        seq![FailureCode::BinaryArchMismatch]
    } else {
        Seq::empty()
    };
    let b = if quarantined {
        seq![FailureCode::BinaryQuarantined]
    } else {
        Seq::empty()
    };
    let c = if !api_key_set {
        seq![FailureCode::DashscopeApiKeyMissing]
    } else {
        Seq::empty()
    };
    let d = if !input.available {
        seq![FailureCode::AudioInputMissing]
    } else if !input.init_ok {
        seq![FailureCode::AudioInputInitFailed]
    } else {
        Seq::empty()
    };
    let e = if !output.available {
        seq![FailureCode::AudioOutputMissing]
    } else if !output.init_ok {
        seq![FailureCode::AudioOutputInitFailed]
    } else {
        Seq::empty()
    };
    let f = if !writable {
        seq![FailureCode::RuntimeStateDirNotWritable]
    } else {
        Seq::empty()
    };
    let codes = failure_codes_for(arch_mismatch, quarantined, api_key_set, input, output, writable);
    assert(codes == a + b + c + d + e + f);
    let empty = Seq::<FailureCode>::empty();
    lemma_append_ranked(empty, a, 0);
    assert(empty + a =~= a);
    lemma_append_ranked(a, b, 1);
    lemma_append_ranked(a + b, c, 2);
    lemma_append_ranked(a + b + c, d, 3);
    lemma_append_ranked(a + b + c + d, e, 4);
    lemma_append_ranked(a + b + c + d + e, f, 5);
    assert forall|i: int, j: int| 0 <= i < codes.len() && 0 <= j < codes.len() && i != j
        implies codes[i] != codes[j] by {
        if i < j {
            assert(check_rank(codes[i]) < check_rank(codes[j]));
        } else {
            assert(check_rank(codes[j]) < check_rank(codes[i]));
        }
    }
}

/// The doctor passes exactly when it finds no failure, and it never
/// reports the codes that only the plugin can detect.
#[verifier::rlimit(40)]
pub proof fn lemma_pass_iff_no_failure(
    arch_mismatch: bool,
    quarantined: bool,
    api_key_set: bool,
    input: AudioCapability,
    output: AudioCapability,
    writable: bool,
)
    ensures
        ({
            let codes = failure_codes_for(
                arch_mismatch,
                quarantined,
                api_key_set,
                input,
                output,
                writable,
            );
            &&& (codes.len() == 0) == (!arch_mismatch && !quarantined && api_key_set
                && input.available && input.init_ok && output.available && output.init_ok
                && writable)
            &&& !codes.contains(FailureCode::BinaryMissing)
            &&& !codes.contains(FailureCode::BinaryNotExecutable)
        }),
{
    let codes = failure_codes_for(arch_mismatch, quarantined, api_key_set, input, output, writable);
    assert forall|i: int| 0 <= i < codes.len() implies codes[i] != FailureCode::BinaryMissing
        && codes[i] != FailureCode::BinaryNotExecutable by {}
}

// ---------------------------------------------------------------------------
// Human-readable rendering
// ---------------------------------------------------------------------------

/// The line about a device of the given kind.
pub open spec fn device_line(cap: AudioCapability, kind: Seq<char>) -> Seq<char> {
    if cap.available {
        let name = match cap.device_name {
            Some(n) => n@,
            None => "unknown"@,
        };
        if cap.init_ok {
            "  [ok] default "@ + kind + " device: "@ + name
        } else {
            "  [FAIL] default "@ + kind + " device: "@ + name + " (stream init failed)"@
        }
    } else {
        "  [FAIL] no default "@ + kind + " device found"@
    }
}

/// The lines of the human-readable report.
pub open spec fn human_lines(r: DoctorReport) -> Seq<Seq<char>> {
    let codes = r.readiness.failure_codes@;
    seq!["himd doctor v"@ + r.binary.version@, Seq::<char>::empty()] + seq![
        if codes.contains(FailureCode::BinaryArchMismatch) {
            "  [FAIL] architecture mismatch — binary was compiled for a different architecture than this machine"@
        } else {
            "  [ok] binary arch: "@ + r.binary.architecture@ + " on "@ + r.binary.platform@
        },
    ] + (if codes.contains(FailureCode::BinaryQuarantined) {
        seq![
            "  [FAIL] binary is quarantined by macOS — run: xattr -d com.apple.quarantine "@
                + r.binary.executable_path@,
        ]
    } else {
        Seq::empty()
    }) + seq![
        if r.config.dashscope_api_key_set {
            "  [ok] DASHSCOPE_API_KEY is set"@
        } else {
            "  [FAIL] DASHSCOPE_API_KEY not set — export DASHSCOPE_API_KEY=your-key"@
        },
        "  [ok] audio model: "@ + r.config.audio_model@,
        "  [ok] tts model: "@ + r.config.tts_model@,
        device_line(r.audio_input, "input"@),
        device_line(r.audio_output, "output"@),
        "  [ok] himd binary version "@ + r.binary.version@,
        Seq::<char>::empty(),
        if r.readiness.pass {
            "All checks passed. Run /hi to start."@
        } else {
            "Some checks failed. Fix the issues above and re-run."@
        },
    ]
}

/// A device line names its kind of device, whatever the capability.
pub proof fn lemma_device_line_names_kind(cap: AudioCapability, kind: Seq<char>)
    ensures
        mentions(device_line(cap, kind), kind + " device"@),
{
    let kd = kind + " device"@;
    if cap.available {
        let name = match cap.device_name {
            Some(n) => n@,
            None => "unknown"@,
        };
        reveal_strlit(" device: ");
        reveal_strlit(" device");
        reveal_strlit(": ");
        assert(" device: "@ =~= " device"@ + ": "@);
        if cap.init_ok {
            lemma_mentions_middle("  [ok] default "@, kd, ": "@ + name);
            assert("  [ok] default "@ + kd + (": "@ + name) =~= device_line(cap, kind));
        } else {
            lemma_mentions_middle(
                "  [FAIL] default "@,
                kd,
                ": "@ + name + " (stream init failed)"@,
            );
            assert("  [FAIL] default "@ + kd + (": "@ + name + " (stream init failed)"@)
                =~= device_line(cap, kind));
        }
    } else {
        reveal_strlit(" device found");
        reveal_strlit(" device");
        reveal_strlit(" found");
        assert(" device found"@ =~= " device"@ + " found"@);
        lemma_mentions_middle("  [FAIL] no default "@, kd, " found"@);
        assert("  [FAIL] no default "@ + kd + " found"@ =~= device_line(cap, kind));
    }
}

/// The human-readable report opens with its title and always has a line
/// about the input device and one about the output device.
pub proof fn lemma_human_report_covers_devices(r: DoctorReport)
    ensures
        has_prefix(human_lines(r)[0], "himd doctor"@),
        exists|i: int|
            0 <= i < human_lines(r).len() && mentions(#[trigger] human_lines(r)[i], "input device"@),
        exists|i: int|
            0 <= i < human_lines(r).len() && mentions(#[trigger] human_lines(r)[i], "output device"@),
{
    let lines = human_lines(r);
    let q: int = if r.readiness.failure_codes@.contains(FailureCode::BinaryQuarantined) {
        1
    } else {
        0
    };
    assert(lines[6 + q] == device_line(r.audio_input, "input"@));
    assert(lines[7 + q] == device_line(r.audio_output, "output"@));
    lemma_device_line_names_kind(r.audio_input, "input"@);
    lemma_device_line_names_kind(r.audio_output, "output"@);
    reveal_strlit("input");
    reveal_strlit("output");
    reveal_strlit(" device");
    reveal_strlit("input device");
    reveal_strlit("output device");
    assert("input"@ + " device"@ =~= "input device"@);
    assert("output"@ + " device"@ =~= "output device"@);
    reveal_strlit("himd doctor v");
    reveal_strlit("himd doctor");
    assert(lines[0].subrange(0, 11) =~= "himd doctor"@);
}

/// Off macOS the doctor reports no failure about the binary itself.
pub proof fn lemma_no_binary_codes_off_macos(
    compile_arch: Seq<char>,
    uname_output: Option<Seq<char>>,
    xattr_ran: Option<bool>,
    api_key_set: bool,
    input: AudioCapability,
    output: AudioCapability,
    writable: bool,
)
    ensures
        ({
            let codes = failure_codes_for(
                arch_mismatch_for(compile_arch, uname_output, false),
                quarantined_for(false, xattr_ran),
                api_key_set,
                input,
                output,
                writable,
            );
            &&& !codes.contains(FailureCode::BinaryArchMismatch)
            &&& !codes.contains(FailureCode::BinaryQuarantined)
            &&& !codes.contains(FailureCode::BinaryMissing)
            &&& !codes.contains(FailureCode::BinaryNotExecutable)
        }),
{
    let codes = failure_codes_for(false, false, api_key_set, input, output, writable);
    assert forall|i: int| 0 <= i < codes.len() implies codes[i] != FailureCode::BinaryArchMismatch
        && codes[i] != FailureCode::BinaryQuarantined && codes[i] != FailureCode::BinaryMissing
        && codes[i] != FailureCode::BinaryNotExecutable by {}
}

/// The shape of the human-readable report: its title, the architecture
/// line that the failure codes decide, the quarantine line that appears
/// exactly when the binary is quarantined, and the closing verdict.
pub proof fn lemma_human_report_shape(r: DoctorReport)
    ensures
        ({
            let lines = human_lines(r);
            let codes = r.readiness.failure_codes@;
            let q = codes.contains(FailureCode::BinaryQuarantined);
            &&& lines[0] == "himd doctor v"@ + r.binary.version@
            &&& lines.len() == if q {
                12int
            } else {
                11int
            }
            &&& lines[2] == if codes.contains(FailureCode::BinaryArchMismatch) {
                "  [FAIL] architecture mismatch — binary was compiled for a different architecture than this machine"@
            } else {
                "  [ok] binary arch: "@ + r.binary.architecture@ + " on "@ + r.binary.platform@
            }
            &&& q ==> lines[3]
                == "  [FAIL] binary is quarantined by macOS — run: xattr -d com.apple.quarantine "@
                + r.binary.executable_path@
            &&& lines.last() == if r.readiness.pass {
                "All checks passed. Run /hi to start."@
            } else {
                "Some checks failed. Fix the issues above and re-run."@
            }
        }),
{
}

fn push_line(lines: &mut Vec<String>, v: &Vec<char>)
    ensures
        strings_view(final(lines)@) == strings_view(old(lines)@).push(v@),
{
    let s = string_of(v);
    proof {
        lemma_strings_view_push(lines@, s);
    }
    lines.push(s);
}

fn contains_code(codes: &Vec<FailureCode>, c: FailureCode) -> (r: bool)
    ensures
        r == codes@.contains(c),
{
    let mut i: usize = 0;
    while i < codes.len()
        invariant
            i <= codes@.len(),
            forall|k: int| 0 <= k < i ==> codes@[k] != c,
        decreases codes.len() - i,
    {
        if codes[i] == c {
            return true;
        }
        i = i + 1;
    }
    false
}

fn device_text(cap: &AudioCapability, kind: &str) -> (r: Vec<char>)
    ensures
        r@ == device_line(*cap, kind@),
{
    let mut v: Vec<char> = Vec::new();
    if cap.available {
        let name = match &cap.device_name {
            Some(n) => chars_of(n.as_str()),
            None => chars_of("unknown"),
        };
        if cap.init_ok {
            push_str(&mut v, "  [ok] default ");
            push_str(&mut v, kind);
            push_str(&mut v, " device: ");
            crate::text::push_chars(&mut v, &name);
        } else {
            push_str(&mut v, "  [FAIL] default ");
            push_str(&mut v, kind);
            push_str(&mut v, " device: ");
            crate::text::push_chars(&mut v, &name);
            push_str(&mut v, " (stream init failed)");
        }
    } else {
        push_str(&mut v, "  [FAIL] no default ");
        push_str(&mut v, kind);
        push_str(&mut v, " device found");
    }
    v
}

/// The report as lines for a person to read.
pub fn render_human(report: &DoctorReport) -> (r: Vec<String>)
    ensures
        strings_view(r@) == human_lines(*report),
{
    let mut lines: Vec<String> = Vec::new();
    let mut v: Vec<char> = Vec::new();
    push_str(&mut v, "himd doctor v");
    push_str(&mut v, report.binary.version.as_str());
    push_line(&mut lines, &v);
    push_line(&mut lines, &Vec::new());
    let ghost head = strings_view(lines@);

    let codes = &report.readiness.failure_codes;
    let mut v: Vec<char> = Vec::new();
    if contains_code(codes, FailureCode::BinaryArchMismatch) {
        push_str(
            &mut v,
            "  [FAIL] architecture mismatch — binary was compiled for a different architecture than this machine",
        );
    } else {
        push_str(&mut v, "  [ok] binary arch: ");
        push_str(&mut v, report.binary.architecture.as_str());
        push_str(&mut v, " on ");
        push_str(&mut v, report.binary.platform.as_str());
    }
    push_line(&mut lines, &v);
    let ghost arch = strings_view(lines@);

    if contains_code(codes, FailureCode::BinaryQuarantined) {
        let mut v: Vec<char> = Vec::new();
        push_str(
            &mut v,
            "  [FAIL] binary is quarantined by macOS — run: xattr -d com.apple.quarantine ",
        );
        push_str(&mut v, report.binary.executable_path.as_str());
        push_line(&mut lines, &v);
    }
    let ghost quarantine = strings_view(lines@);

    let key_line = if report.config.dashscope_api_key_set {
        chars_of("  [ok] DASHSCOPE_API_KEY is set")
    } else {
        chars_of("  [FAIL] DASHSCOPE_API_KEY not set — export DASHSCOPE_API_KEY=your-key")
    };
    push_line(&mut lines, &key_line);
    let mut v: Vec<char> = Vec::new();
    push_str(&mut v, "  [ok] audio model: ");
    push_str(&mut v, report.config.audio_model.as_str());
    push_line(&mut lines, &v);
    let mut v: Vec<char> = Vec::new();
    push_str(&mut v, "  [ok] tts model: ");
    push_str(&mut v, report.config.tts_model.as_str());
    push_line(&mut lines, &v);
    push_line(&mut lines, &device_text(&report.audio_input, "input"));
    push_line(&mut lines, &device_text(&report.audio_output, "output"));
    let mut v: Vec<char> = Vec::new();
    push_str(&mut v, "  [ok] himd binary version ");
    push_str(&mut v, report.binary.version.as_str());
    push_line(&mut lines, &v);
    push_line(&mut lines, &Vec::new());
    let last = if report.readiness.pass {
        chars_of("All checks passed. Run /hi to start.")
    } else {
        chars_of("Some checks failed. Fix the issues above and re-run.")
    };
    push_line(&mut lines, &last);
    proof {
        let r = *report;
        let codes = r.readiness.failure_codes@;
        assert(head =~= seq!["himd doctor v"@ + r.binary.version@, Seq::<char>::empty()]);
        assert(strings_view(lines@) =~= human_lines(r));
    }
    lines
}

} // verus!
