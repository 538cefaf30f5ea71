//! himd: the verified core of a voice-first companion.
use vstd::prelude::*;

pub mod acoustic;
pub mod audio;
pub mod doctor;
pub mod errors;
pub mod json;
pub mod provider;
pub mod runtime_paths;
pub mod text;
pub mod tools;
pub mod tts;
pub mod types;

verus! {

/// The package version.
pub fn version() -> (v: &'static str)
    ensures
        v@ == "0.1.0"@,
{
    "0.1.0"
}

} // verus!
