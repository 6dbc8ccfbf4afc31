//! Limits and inference settings of local streaming speech-to-text, checked
//! before a model is loaded.

use std::time::Duration;
use vstd::prelude::*;

use crate::duration::{duration_nanos, from_millis, from_secs, is_zero, longer_than};
use crate::stt::error::WhisperBackendError;
use crate::text::chars_of;

verus! {

broadcast use vstd::string::group_string_axioms;

/// Explicit limits and inference behavior for local streaming STT (all of its
/// configuration except the model path).
#[derive(Clone, Debug, PartialEq, Eq)]
pub struct WhisperLimits {
    /// ISO language code, `auto`, or `None` for automatic detection.
    pub language: Option<String>,
    /// CPU threads used by whisper.cpp inference.
    pub inference_threads: u8,
    /// Maximum captured audio chunks waiting behind inference.
    pub input_queue_capacity: usize,
    /// Rolling audio context retained for each inference pass.
    pub window_duration: Duration,
    /// New audio required between partial inference passes.
    pub partial_step: Duration,
    /// Minimum buffered speech before the first inference pass.
    pub minimum_speech: Duration,
    /// Consecutive low-energy audio that finalizes the current utterance.
    pub final_silence: Duration,
    /// RMS threshold of the energy gate, in normalized PCM units, as the bit
    /// pattern of an `f32` (`f32::to_bits`).
    pub speech_rms_threshold_bits: u32,
    /// Maximum UTF-8 bytes retained across committed and partial transcript text.
    pub max_transcript_bytes: usize,
    /// Maximum time allowed for model loading.
    pub startup_timeout: Duration,
    /// Maximum time allowed to flush queued audio on stop.
    pub finish_timeout: Duration,
}

/// Bits of the `f32` value 0.008.
pub const DEFAULT_SPEECH_RMS_THRESHOLD_BITS: u32 = 0x3C03_126F;

impl WhisperLimits {
    /// Practical CPU defaults.
    pub fn new() -> (l: Self)
        ensures
            l.language is None,
            l.inference_threads == 4,
            l.input_queue_capacity == 256,
            duration_nanos(l.window_duration) == 8_000_000_000,
            duration_nanos(l.partial_step) == 1_500_000_000,
            duration_nanos(l.minimum_speech) == 750_000_000,
            duration_nanos(l.final_silence) == 900_000_000,
            l.speech_rms_threshold_bits == DEFAULT_SPEECH_RMS_THRESHOLD_BITS,
            l.max_transcript_bytes == 16 * 1_024,
            duration_nanos(l.startup_timeout) == 30_000_000_000,
            duration_nanos(l.finish_timeout) == 30_000_000_000,
    {
        Self {
            language: None,
            inference_threads: 4,
            input_queue_capacity: 256,
            window_duration: from_secs(8),
            partial_step: from_millis(1_500),
            minimum_speech: from_millis(750),
            final_silence: from_millis(900),
            speech_rms_threshold_bits: DEFAULT_SPEECH_RMS_THRESHOLD_BITS,
            max_transcript_bytes: 16 * 1_024,
            startup_timeout: from_secs(30),
            finish_timeout: from_secs(30),
        }
    }
}

/// Whether the `f32` with these bits is finite and within `0.0..=1.0`:
/// exactly the bit patterns from `+0.0` up to `1.0`, and `-0.0`.
pub open spec fn unit_interval_bits(bits: u32) -> bool {
    bits <= 0x3F80_0000 || bits == 0x8000_0000
}

/// A language must be non-empty and hold no NUL character.
pub open spec fn language_ok(language: Option<String>) -> bool {
    match language {
        Some(l) => l@.len() > 0 && !l@.contains('\0'),
        None => true,
    }
}

/// The message of the first violated limit, if any.
pub open spec fn limits_check(l: WhisperLimits) -> Option<Seq<char>> {
    if !language_ok(l.language) {
        Some("language must be non-empty and contain no NUL byte"@)
    } else if l.inference_threads == 0 {
        Some("inference thread count must be greater than zero"@)
    } else if l.input_queue_capacity == 0 {
        Some("input queue capacity must be greater than zero"@)
    } else if duration_nanos(l.partial_step) == 0 || duration_nanos(l.minimum_speech) == 0
        || duration_nanos(l.window_duration) == 0 || duration_nanos(l.final_silence) == 0 {
        Some("window, step, minimum speech, and final silence must be greater than zero"@)
    } else if duration_nanos(l.partial_step) > duration_nanos(l.window_duration) || duration_nanos(
        l.minimum_speech,
    ) > duration_nanos(l.window_duration) || duration_nanos(l.final_silence) > duration_nanos(
        l.window_duration,
    ) {
        Some("step, minimum speech, and final silence must not exceed the rolling window"@)
    } else if !unit_interval_bits(l.speech_rms_threshold_bits) {
        Some("speech RMS threshold must be finite and between zero and one"@)
    } else if l.max_transcript_bytes < 16 {
        Some("maximum transcript bytes must be at least 16"@)
    } else if duration_nanos(l.startup_timeout) == 0 || duration_nanos(l.finish_timeout) == 0 {
        Some("startup and finish timeouts must be greater than zero"@)
    } else {
        None
    }
}

fn language_text_ok(l: &str) -> (b: bool)
    ensures
        b == (l@.len() > 0 && !l@.contains('\0')),
{
    let chars = chars_of(l);
    if chars.len() == 0 {
        return false;
    }
    let mut i: usize = 0;
    while i < chars.len()
        invariant
            chars@ == l@,
            i <= chars@.len(),
            forall|j: int| 0 <= j < i ==> chars@[j] != '\0',
        decreases chars.len() - i,
    {
        if chars[i] == '\0' {
            assert(l@[i as int] == '\0');
            return false;
        }
        i += 1;
    }
    true
}

fn language_is_valid(language: &Option<String>) -> (b: bool)
    ensures
        b == language_ok(*language),
{
    match language {
        Some(l) => language_text_ok(l.as_str()),
        None => true,
    }
}

fn invalid(message: &str) -> (r: Result<(), WhisperBackendError>)
    ensures
        r matches Err(WhisperBackendError::InvalidConfiguration(m)) && m@ == message@,
{
    Err(WhisperBackendError::InvalidConfiguration(message.to_owned()))
}

impl WhisperLimits {
    /// Validates every limit; the first violation is reported as
    /// `InvalidConfiguration` with its message.
    pub fn validate(&self) -> (r: Result<(), WhisperBackendError>)
        ensures
            match limits_check(*self) {
                None => r is Ok,
                Some(message) => r matches Err(WhisperBackendError::InvalidConfiguration(m))
                    && m@ == message,
            },
    {
        if !language_is_valid(&self.language) {
            return invalid("language must be non-empty and contain no NUL byte");
        }
        if self.inference_threads == 0 {
            return invalid("inference thread count must be greater than zero");
        }
        if self.input_queue_capacity == 0 {
            return invalid("input queue capacity must be greater than zero");
        }
        if is_zero(self.partial_step) || is_zero(self.minimum_speech) || is_zero(
            self.window_duration,
        ) || is_zero(self.final_silence) {
            return invalid(
                "window, step, minimum speech, and final silence must be greater than zero",
            );
        }
        if longer_than(self.partial_step, self.window_duration) || longer_than(
            self.minimum_speech,
            self.window_duration,
        ) || longer_than(self.final_silence, self.window_duration) {
            return invalid(
                "step, minimum speech, and final silence must not exceed the rolling window",
            );
        }
        let bits = self.speech_rms_threshold_bits;
        if !(bits <= 0x3F80_0000 || bits == 0x8000_0000) {
            return invalid("speech RMS threshold must be finite and between zero and one");
        }
        if self.max_transcript_bytes < 16 {
            return invalid("maximum transcript bytes must be at least 16");
        }
        if is_zero(self.startup_timeout) || is_zero(self.finish_timeout) {
            return invalid("startup and finish timeouts must be greater than zero");
        }
        Ok(())
    }
}

} // verus!
