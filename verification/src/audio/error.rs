//! Audio-specific error types.
use vstd::prelude::*;

use crate::text::{has_prefix, push_str, string_of};

verus! {

#[verifier::external_type_specification]
#[verifier::external_body]
pub struct ExIoError(std::io::Error);

/// Audio-specific errors.
#[derive(Debug)]
pub enum AudioError {
    Device(String),
    Stream(String),
    /// An I/O error, kept whole (its kind and its source).
    Io(std::io::Error),
}

/// The text that describes an audio error whose message is fixed by the
/// library (`None` for an I/O error, whose text is the system's).
pub open spec fn audio_error_text(e: AudioError) -> Option<Seq<char>> {
    match e {
        AudioError::Device(m) => Some("device error: "@ + m@),
        AudioError::Stream(m) => Some("stream error: "@ + m@),
        AudioError::Io(_) => None,
    }
}

/// The `Display` text of an I/O error.
///
/// Calls `std::io::Error`'s `Display`; nothing is claimed of the text, which
/// for an operating-system error is the system's description of the code.
#[verifier::external_body]
fn io_error_display(e: &std::io::Error) -> (r: String) {
    format!("{e}")
}

impl AudioError {
    /// The text that describes this error: the fixed text of a device or
    /// stream error; `io error: ` followed by the I/O error's own text.
    pub fn message(&self) -> (r: String)
        ensures
            match audio_error_text(*self) {
                Some(t) => r@ == t,
                None => has_prefix(r@, "io error: "@),
            },
    {
        let mut v: Vec<char> = Vec::new();
        match self {
            AudioError::Device(m) => {
                push_str(&mut v, "device error: ");
                push_str(&mut v, m.as_str());
            },
            AudioError::Stream(m) => {
                push_str(&mut v, "stream error: ");
                push_str(&mut v, m.as_str());
            },
            AudioError::Io(e) => {
                push_str(&mut v, "io error: ");
                let t = io_error_display(e);
                push_str(&mut v, t.as_str());
                assert(v@.subrange(0, "io error: "@.len() as int) =~= "io error: "@);
            },
        }
        string_of(&v)
    }
}

} // verus!
