//! Microphone capture: diagnostics and the result of a finished capture.
use vstd::prelude::*;

use crate::audio::platform::{self, diagnosis, DeviceProbe};
use crate::audio::vad::StopReason;
use crate::text::{copy_str, opt_view};
use crate::types::{CaptureResult, StoppedBy};

verus! {

/// Diagnostics about the default input device.
#[derive(Debug)]
pub struct CaptureDiagnostics {
    pub summary: String,
    pub device_name: Option<String>,
    pub ok: bool,
    /// Whether a stream could actually be opened (not just device enumeration).
    pub init_ok: bool,
}

impl CaptureDiagnostics {
    /// Diagnose the default input device from what probing it found.
    pub fn probe(probe: DeviceProbe) -> (d: Self)
        ensures
            (d.summary@, opt_view(d.device_name), d.ok, d.init_ok) == diagnosis(probe, "input"@),
    {
        let diag = platform::probe_input_device(probe);
        CaptureDiagnostics {
            summary: diag.summary,
            device_name: diag.device_name,
            ok: diag.ok,
            init_ok: diag.init_ok,
        }
    }
}

/// The duration in milliseconds of `sample_count` mono samples at
/// `sample_rate` (rounded down).
pub open spec fn capture_duration_ms(sample_count: nat, sample_rate: nat) -> nat {
    if sample_count == 0 {
        0
    } else {
        (sample_count * 1000) / sample_rate
    }
}

/// The report of a finished capture: a mono WAV file at `path` holding
/// `sample_count` samples at `sample_rate`, `file_size` bytes long.
pub fn capture_result(
    path: String,
    sample_rate: u32,
    sample_count: usize,
    file_size: u64,
    reason: StopReason,
) -> (r: CaptureResult)
    requires
        sample_count == 0 || sample_rate > 0,
        sample_count * 1000 <= u64::MAX,
    ensures
        r.temp_audio_path == path,
        r.format@ == "wav"@,
        r.duration_ms == capture_duration_ms(sample_count as nat, sample_rate as nat),
        r.sample_rate == sample_rate,
        r.channels == 1,
        r.file_size_bytes == file_size,
        r.stopped_by == platform::map_stop_reason_spec(reason),
        r.stopped_by != StoppedBy::Manual,
{
    let duration_ms = if sample_count == 0 {
        0
    } else {
        (sample_count as u64 * 1000) / sample_rate as u64
    };
    CaptureResult {
        temp_audio_path: path,
        format: copy_str("wav"),
        duration_ms,
        sample_rate,
        channels: 1,
        file_size_bytes: file_size,
        stopped_by: platform::map_stop_reason(reason),
    }
}

} // verus!
