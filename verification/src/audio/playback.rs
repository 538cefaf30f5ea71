//! Audio playback diagnostics.
use vstd::prelude::*;

use crate::audio::platform::{self, diagnosis, DeviceProbe};
use crate::text::opt_view;

verus! {

/// Diagnostics about the default output device.
#[derive(Debug)]
pub struct PlaybackDiagnostics {
    pub summary: String,
    pub device_name: Option<String>,
    pub ok: bool,
    /// Whether a stream could actually be opened (not just device enumeration).
    pub init_ok: bool,
}

impl PlaybackDiagnostics {
    /// Diagnose the default output device from what probing it found.
    pub fn probe(probe: DeviceProbe) -> (d: Self)
        ensures
            (d.summary@, opt_view(d.device_name), d.ok, d.init_ok) == diagnosis(probe, "output"@),
    {
        let diag = platform::probe_output_device(probe);
        PlaybackDiagnostics {
            summary: diag.summary,
            device_name: diag.device_name,
            ok: diag.ok,
            init_ok: diag.init_ok,
        }
    }
}

} // verus!
