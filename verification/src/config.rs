//! Explicit runtime configuration shared by application frontends.

use std::time::Duration;
use vstd::prelude::*;

use crate::duration::{duration_nanos, from_millis, is_zero};

verus! {

/// Portable pipeline runtime configuration.
#[derive(Clone, Debug, PartialEq, Eq)]
pub struct RuntimeConfig {
    /// Maximum time one audio read may block before checking for shutdown.
    pub audio_poll_timeout: Duration,
    /// Maximum number of interleaved samples accepted in one adapter chunk.
    pub max_audio_chunk_samples: usize,
}

impl Default for RuntimeConfig {
    fn default() -> (c: Self)
        ensures
            duration_nanos(c.audio_poll_timeout) == 50_000_000,
            c.max_audio_chunk_samples == 48_000,
    {
        Self { audio_poll_timeout: from_millis(50), max_audio_chunk_samples: 48_000 }
    }
}

/// Invalid runtime configuration.
#[derive(Clone, Copy, Debug, PartialEq, Eq, Structural)]
pub enum RuntimeConfigError {
    /// Audio reads would never wait, causing a busy loop.
    ZeroAudioPollTimeout,
    /// Every non-empty audio chunk would be rejected.
    ZeroMaxAudioChunkSamples,
}

impl RuntimeConfigError {
    /// The error message (what `to_string` shows).
    pub fn message(&self) -> (s: String)
        ensures
            *self == RuntimeConfigError::ZeroAudioPollTimeout ==> s@
                == "audio poll timeout must be greater than zero"@,
            *self == RuntimeConfigError::ZeroMaxAudioChunkSamples ==> s@
                == "maximum audio chunk size must be greater than zero"@,
    {
        match self {
            RuntimeConfigError::ZeroAudioPollTimeout => "audio poll timeout must be greater than zero".to_owned(),
            RuntimeConfigError::ZeroMaxAudioChunkSamples => "maximum audio chunk size must be greater than zero".to_owned(),
        }
    }
}

/// The first violated runtime limit, if any.
pub open spec fn runtime_config_check(c: RuntimeConfig) -> Result<(), RuntimeConfigError> {
    if duration_nanos(c.audio_poll_timeout) == 0 {
        Err(RuntimeConfigError::ZeroAudioPollTimeout)
    } else if c.max_audio_chunk_samples == 0 {
        Err(RuntimeConfigError::ZeroMaxAudioChunkSamples)
    } else {
        Ok(())
    }
}

impl RuntimeConfig {
    /// Validates runtime limits before capture starts.
    pub fn validate(&self) -> (r: Result<(), RuntimeConfigError>)
        ensures
            r == runtime_config_check(*self),
    {
        if is_zero(self.audio_poll_timeout) {
            return Err(RuntimeConfigError::ZeroAudioPollTimeout);
        }
        if self.max_audio_chunk_samples == 0 {
            return Err(RuntimeConfigError::ZeroMaxAudioChunkSamples);
        }
        Ok(())
    }
}

} // verus!
