//! Failures of the PipeWire audio adapter.

use std::time::Duration;
use vstd::prelude::*;

use crate::duration::{debug_text, duration_debug_text};
use crate::text::push_text;

verus! {

/// Failure while connecting to or operating a PipeWire audio adapter.
#[derive(Clone, Debug, PartialEq, Eq)]
pub enum PipeWireError {
    /// A caller supplied a zero or otherwise unusable limit.
    InvalidConfiguration(&'static str),
    /// PipeWire rejected setup or a server operation.
    PipeWire(String),
    /// Source enumeration did not complete within the caller's bound.
    EnumerationTimeout(Duration),
    /// Capture did not reach a streaming state within the caller's bound.
    StartupTimeout(Duration),
    /// The capture worker terminated before reporting its state.
    WorkerStopped,
    /// The capture worker could not be created or joined cleanly.
    Worker(String),
    /// The capture stream entered PipeWire's error state.
    StreamFailure(String),
    /// The selected source disappeared and capture is not rerouted.
    SelectedSourceUnavailable,
    /// PipeWire negotiated a format the adapter cannot decode.
    InvalidNegotiatedFormat(String),
    /// A PipeWire buffer was inconsistent with its metadata.
    MalformedBuffer(String),
}

/// What a failure of the PipeWire adapter reports (what `to_string` shows).
pub open spec fn pipewire_error_message(e: PipeWireError) -> Seq<char> {
    match e {
        PipeWireError::InvalidConfiguration(m) => "invalid PipeWire capture configuration: "@ + m@,
        PipeWireError::PipeWire(m) => "PipeWire operation failed: "@ + m@,
        PipeWireError::EnumerationTimeout(t) => "PipeWire source enumeration did not finish within "@
            + duration_debug_text(t),
        PipeWireError::StartupTimeout(t) => "PipeWire capture did not start within "@
            + duration_debug_text(t) + "; check that the selected source is available"@,
        PipeWireError::WorkerStopped => "PipeWire capture worker stopped unexpectedly"@,
        PipeWireError::Worker(m) => "PipeWire capture worker failed: "@ + m@,
        PipeWireError::StreamFailure(m) => "PipeWire capture stream failed: "@ + m@,
        PipeWireError::SelectedSourceUnavailable =>
            "the selected PipeWire source is no longer available; select another source"@,
        PipeWireError::InvalidNegotiatedFormat(m) => "PipeWire negotiated an unusable audio format: "@
            + m@,
        PipeWireError::MalformedBuffer(m) => "PipeWire delivered a malformed buffer: "@ + m@,
    }
}

impl PipeWireError {
    /// The error message (what `to_string` shows).
    pub fn message(&self) -> (s: String)
        ensures
            s@ == pipewire_error_message(*self),
    {
        let mut s = String::new();
        match self {
            PipeWireError::InvalidConfiguration(m) => {
                push_text(&mut s, "invalid PipeWire capture configuration: ");
                push_text(&mut s, m);
            },
            PipeWireError::PipeWire(m) => {
                push_text(&mut s, "PipeWire operation failed: ");
                push_text(&mut s, m.as_str());
            },
            PipeWireError::EnumerationTimeout(t) => {
                push_text(&mut s, "PipeWire source enumeration did not finish within ");
                let d = debug_text(*t);
                push_text(&mut s, d.as_str());
            },
            PipeWireError::StartupTimeout(t) => {
                push_text(&mut s, "PipeWire capture did not start within ");
                let d = debug_text(*t);
                push_text(&mut s, d.as_str());
                push_text(&mut s, "; check that the selected source is available");
            },
            PipeWireError::WorkerStopped => {
                push_text(&mut s, "PipeWire capture worker stopped unexpectedly");
            },
            PipeWireError::Worker(m) => {
                push_text(&mut s, "PipeWire capture worker failed: ");
                push_text(&mut s, m.as_str());
            },
            PipeWireError::StreamFailure(m) => {
                push_text(&mut s, "PipeWire capture stream failed: ");
                push_text(&mut s, m.as_str());
            },
            PipeWireError::SelectedSourceUnavailable => {
                push_text(
                    &mut s,
                    "the selected PipeWire source is no longer available; select another source",
                );
            },
            PipeWireError::InvalidNegotiatedFormat(m) => {
                push_text(&mut s, "PipeWire negotiated an unusable audio format: ");
                push_text(&mut s, m.as_str());
            },
            PipeWireError::MalformedBuffer(m) => {
                push_text(&mut s, "PipeWire delivered a malformed buffer: ");
                push_text(&mut s, m.as_str());
            },
        }
        s
    }
}

} // verus!
