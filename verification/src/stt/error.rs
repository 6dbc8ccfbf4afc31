//! Failures of the local speech-to-text backend.

use std::path::PathBuf;
use std::time::Duration;
use vstd::prelude::*;

use crate::duration::{debug_text, duration_debug_text};
use crate::text::{decimal, push_decimal, push_text};

verus! {

#[verifier::external_type_specification]
#[verifier::external_body]
pub struct ExPathBuf(PathBuf);

/// `PathBuf`'s `Clone`; nothing is claimed of the copy.
pub assume_specification[ <PathBuf as Clone>::clone ](p: &PathBuf) -> PathBuf;

/// The text `Path::display` shows for a path.
pub uninterp spec fn path_display_text(p: PathBuf) -> Seq<char>;

/// `path.display().to_string()`: the path as text, with anything that is
/// not UTF-8 replaced.
#[verifier::external_body]
fn display_path(path: &PathBuf) -> (s: String)
    ensures
        s@ == path_display_text(*path),
{
    path.display().to_string()
}

/// Failure while configuring or running the local whisper.cpp backend.
#[derive(Clone, Debug, PartialEq, Eq)]
pub enum WhisperBackendError {
    /// A runtime limit or language value was invalid.
    InvalidConfiguration(String),
    /// The configured model path did not point to a readable model file.
    ModelUnavailable(PathBuf),
    /// Model loading or speech inference failed.
    Whisper(String),
    /// Input audio changed format during a live session.
    AudioFormatChanged,
    /// Audio conversion or resampling failed.
    AudioConversion(String),
    /// The bounded input queue could not accept more captured audio.
    InputQueueFull(usize),
    /// A bounded producer wait expired while the input queue remained full.
    InputQueueTimeout { capacity: usize, timeout: Duration },
    /// The worker did not start within the configured limit.
    StartupTimeout(Duration),
    /// The worker did not flush within the configured limit.
    FinishTimeout(Duration),
    /// The worker channel disconnected or the thread panicked.
    Worker(String),
}

/// What a backend failure reports (what `to_string` shows).
pub open spec fn backend_error_message(e: WhisperBackendError) -> Seq<char> {
    match e {
        WhisperBackendError::InvalidConfiguration(m) => "invalid Whisper configuration: "@ + m@,
        WhisperBackendError::ModelUnavailable(p) => "Whisper model is unavailable at "@
            + path_display_text(p)
            + "; download a compatible ggml model and configure its path"@,
        WhisperBackendError::Whisper(m) => "whisper.cpp failed: "@ + m@,
        WhisperBackendError::AudioFormatChanged =>
            "audio sample rate or channel count changed during transcription; restart captioning"@,
        WhisperBackendError::AudioConversion(m) => "audio conversion for Whisper failed: "@ + m@,
        WhisperBackendError::InputQueueFull(capacity) => "Whisper input queue reached its "@
            + decimal(capacity as nat)
            + "-chunk bound; transcription cannot keep up with capture"@,
        WhisperBackendError::InputQueueTimeout { capacity, timeout } =>
            "Whisper input queue remained at its "@ + decimal(capacity as nat) + "-chunk bound for "@
                + duration_debug_text(timeout)
                + "; transcription cannot keep up with the producer"@,
        WhisperBackendError::StartupTimeout(t) => "Whisper model did not load within "@
            + duration_debug_text(t),
        WhisperBackendError::FinishTimeout(t) => "Whisper worker did not flush within "@
            + duration_debug_text(t),
        WhisperBackendError::Worker(m) => "Whisper worker failed: "@ + m@,
    }
}

impl WhisperBackendError {
    /// The error message (what `to_string` shows).
    pub fn message(&self) -> (s: String)
        ensures
            s@ == backend_error_message(*self),
    {
        let mut s = String::new();
        match self {
            WhisperBackendError::InvalidConfiguration(m) => {
                push_text(&mut s, "invalid Whisper configuration: ");
                push_text(&mut s, m.as_str());
            },
            WhisperBackendError::ModelUnavailable(p) => {
                push_text(&mut s, "Whisper model is unavailable at ");
                let shown = display_path(p);
                push_text(&mut s, shown.as_str());
                push_text(&mut s, "; download a compatible ggml model and configure its path");
            },
            WhisperBackendError::Whisper(m) => {
                push_text(&mut s, "whisper.cpp failed: ");
                push_text(&mut s, m.as_str());
            },
            WhisperBackendError::AudioFormatChanged => {
                push_text(
                    &mut s,
                    "audio sample rate or channel count changed during transcription; restart captioning",
                );
            },
            WhisperBackendError::AudioConversion(m) => {
                push_text(&mut s, "audio conversion for Whisper failed: ");
                push_text(&mut s, m.as_str());
            },
            WhisperBackendError::InputQueueFull(capacity) => {
                push_text(&mut s, "Whisper input queue reached its ");
                push_decimal(&mut s, *capacity as u64);
                push_text(&mut s, "-chunk bound; transcription cannot keep up with capture");
            },
            WhisperBackendError::InputQueueTimeout { capacity, timeout } => {
                push_text(&mut s, "Whisper input queue remained at its ");
                push_decimal(&mut s, *capacity as u64);
                push_text(&mut s, "-chunk bound for ");
                let d = debug_text(*timeout);
                push_text(&mut s, d.as_str());
                push_text(&mut s, "; transcription cannot keep up with the producer");
            },
            WhisperBackendError::StartupTimeout(t) => {
                push_text(&mut s, "Whisper model did not load within ");
                let d = debug_text(*t);
                push_text(&mut s, d.as_str());
            },
            WhisperBackendError::FinishTimeout(t) => {
                push_text(&mut s, "Whisper worker did not flush within ");
                let d = debug_text(*t);
                push_text(&mut s, d.as_str());
            },
            WhisperBackendError::Worker(m) => {
                push_text(&mut s, "Whisper worker failed: ");
                push_text(&mut s, m.as_str());
            },
        }
        s
    }
}

} // verus!
