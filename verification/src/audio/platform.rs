//! What the platform's audio backend reports, turned into diagnostics.
//!
//! The backend itself (device enumeration, streams) runs outside this
//! library; it hands over what it found as a [`DeviceProbe`].
use vstd::prelude::*;

use crate::audio::vad::StopReason;
use crate::text::{lemma_mentions_middle, mentions, push_str, string_of};
use crate::types::StoppedBy;

verus! {

/// What probing a default audio device found.
#[derive(Debug)]
pub enum DeviceProbe {
    /// The platform has no audio backend.
    UnsupportedPlatform,
    /// No default device exists.
    NotFound,
    /// A default device exists; `stream_ok` tells whether a stream on it
    /// could be opened.
    Found { name: String, stream_ok: bool },
}

/// Diagnostics about the default input device.
#[derive(Debug)]
pub struct InputDeviceDiagnostics {
    pub summary: String,
    pub device_name: Option<String>,
    pub ok: bool,
    /// Whether a stream could actually be opened (not just device enumeration).
    pub init_ok: bool,
}

/// Diagnostics about the default output device.
#[derive(Debug)]
pub struct OutputDeviceDiagnostics {
    pub summary: String,
    pub device_name: Option<String>,
    pub ok: bool,
    /// Whether a stream could actually be opened (not just device enumeration).
    pub init_ok: bool,
}

/// The diagnostics fields for a probe of the device of the given kind
/// (`"input"` or `"output"`): summary, device name, availability, stream.
pub open spec fn diagnosis(probe: DeviceProbe, kind: Seq<char>) -> (
    Seq<char>,
    Option<Seq<char>>,
    bool,
    bool,
) {
    match probe {
        DeviceProbe::UnsupportedPlatform => (
            "unsupported platform: no "@ + kind + " device"@,
            None,
            false,
            false,
        ),
        DeviceProbe::NotFound => ("no default "@ + kind + " device found"@, None, false, false),
        DeviceProbe::Found { name, stream_ok } => (
            "default "@ + kind + " device: "@ + name@ + if stream_ok {
                Seq::<char>::empty()
            } else {
                " (stream init failed)"@
            },
            Some(name@),
            true,
            stream_ok,
        ),
    }
}

/// Every summary names the kind of device it is about, whatever the probe
/// found.
pub proof fn lemma_summary_names_kind(probe: DeviceProbe, kind: Seq<char>)
    ensures
        mentions(diagnosis(probe, kind).0, kind),
{
    match probe {
        DeviceProbe::UnsupportedPlatform => {
            lemma_mentions_middle("unsupported platform: no "@, kind, " device"@);
        },
        DeviceProbe::NotFound => {
            lemma_mentions_middle("no default "@, kind, " device found"@);
        },
        DeviceProbe::Found { name, stream_ok } => {
            let rest = " device: "@ + name@ + if stream_ok {
                Seq::<char>::empty()
            } else {
                " (stream init failed)"@
            };
            lemma_mentions_middle("default "@, kind, rest);
            assert("default "@ + kind + rest =~= diagnosis(probe, kind).0);
        },
    }
}

/// The fields of a diagnosis as computed.
fn diagnose(probe: DeviceProbe, kind: &str) -> (r: (String, Option<String>, bool, bool))
    ensures
        (r.0@, crate::text::opt_view(r.1), r.2, r.3) == diagnosis(probe, kind@),
{
    match probe {
        DeviceProbe::UnsupportedPlatform => {
            let mut v: Vec<char> = Vec::new();
            push_str(&mut v, "unsupported platform: no ");
            push_str(&mut v, kind);
            push_str(&mut v, " device");
            (string_of(&v), None, false, false)
        },
        DeviceProbe::NotFound => {
            let mut v: Vec<char> = Vec::new();
            push_str(&mut v, "no default ");
            push_str(&mut v, kind);
            push_str(&mut v, " device found");
            (string_of(&v), None, false, false)
        },
        DeviceProbe::Found { name, stream_ok } => {
            let mut v: Vec<char> = Vec::new();
            push_str(&mut v, "default ");
            push_str(&mut v, kind);
            push_str(&mut v, " device: ");
            push_str(&mut v, name.as_str());
            if !stream_ok {
                push_str(&mut v, " (stream init failed)");
            } else {
                assert(v@ =~= v@ + Seq::<char>::empty());
            }
            (string_of(&v), Some(name), true, stream_ok)
        },
    }
}

/// Diagnose the default input device from what probing it found.
pub fn probe_input_device(probe: DeviceProbe) -> (d: InputDeviceDiagnostics)
    ensures
        (d.summary@, crate::text::opt_view(d.device_name), d.ok, d.init_ok) == diagnosis(
            probe,
            "input"@,
        ),
{
    let (summary, device_name, ok, init_ok) = diagnose(probe, "input");
    InputDeviceDiagnostics { summary, device_name, ok, init_ok }
}

/// Diagnose the default output device from what probing it found.
pub fn probe_output_device(probe: DeviceProbe) -> (d: OutputDeviceDiagnostics)
    ensures
        (d.summary@, crate::text::opt_view(d.device_name), d.ok, d.init_ok) == diagnosis(
            probe,
            "output"@,
        ),
{
    let (summary, device_name, ok, init_ok) = diagnose(probe, "output");
    OutputDeviceDiagnostics { summary, device_name, ok, init_ok }
}

/// The reported `StoppedBy` for a VAD stop reason.
pub open spec fn map_stop_reason_spec(reason: StopReason) -> StoppedBy {
    match reason {
        StopReason::NoSpeech => StoppedBy::NoSpeech,
        StopReason::Silence => StoppedBy::Silence,
        StopReason::Timeout => StoppedBy::Timeout,
    }
}

/// Map a VAD stop reason to the reported `StoppedBy`.
pub fn map_stop_reason(reason: StopReason) -> (r: StoppedBy)
    ensures
        r == map_stop_reason_spec(reason),
{
    match reason {
        StopReason::NoSpeech => StoppedBy::NoSpeech,
        StopReason::Silence => StoppedBy::Silence,
        StopReason::Timeout => StoppedBy::Timeout,
    }
}

} // verus!
