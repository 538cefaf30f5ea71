//! Error types for the himd voice bridge.
use vstd::prelude::*;

use crate::text::{decimal, push_decimal, push_str, string_of};

verus! {

/// Top-level error type for himd operations.
#[derive(Debug)]
pub enum HimdError {
    /// An API key or credential is missing.
    Config(String),
    /// A file was not found or could not be read.
    FileNotFound(String),
    /// Input validation failed (e.g. file too large, wrong format).
    Validation(String),
    /// An HTTP request to a remote API failed.
    Api { status: u16, message: String },
    /// An I/O or system error occurred.
    Io(String),
    /// A required system dependency is missing.
    Dependency(String),
}

/// The text that describes an error to a user.
pub open spec fn error_text(e: HimdError) -> Seq<char> {
    match e {
        HimdError::Config(m) => m@,
        HimdError::FileNotFound(p) => "File not found: "@ + p@,
        HimdError::Validation(m) => m@,
        HimdError::Api { status, message } => "API error ("@ + decimal(status as nat) + "): "@
            + message@,
        HimdError::Io(m) => m@,
        HimdError::Dependency(m) => m@,
    }
}

impl HimdError {
    /// The text that describes this error to a user.
    pub fn message(&self) -> (r: String)
        ensures
            r@ == error_text(*self),
    {
        match self {
            HimdError::Config(m) => string_of(&crate::text::chars_of(m.as_str())),
            HimdError::FileNotFound(p) => {
                let mut v: Vec<char> = Vec::new();
                push_str(&mut v, "File not found: ");
                push_str(&mut v, p.as_str());
                string_of(&v)
            },
            HimdError::Validation(m) => string_of(&crate::text::chars_of(m.as_str())),
            HimdError::Api { status, message } => {
                let mut v: Vec<char> = Vec::new();
                push_str(&mut v, "API error (");
                push_decimal(&mut v, *status as u128);
                push_str(&mut v, "): ");
                push_str(&mut v, message.as_str());
                string_of(&v)
            },
            HimdError::Io(m) => string_of(&crate::text::chars_of(m.as_str())),
            HimdError::Dependency(m) => string_of(&crate::text::chars_of(m.as_str())),
        }
    }
}

} // verus!
