//! Bounds on PipeWire capture startup and buffering.

use std::time::Duration;
use vstd::prelude::*;

use crate::capture::error::PipeWireError;
use crate::duration::{duration_nanos, from_secs, is_zero, saturating_sub};

verus! {

/// Bounds PipeWire capture startup and buffering.
#[derive(Clone, Debug, PartialEq, Eq)]
pub struct PipeWireCaptureConfig {
    /// Maximum number of PCM chunks waiting for the application pipeline.
    pub queue_capacity: usize,
    /// Maximum time to wait for PipeWire to enter the streaming state.
    pub startup_timeout: Duration,
    /// Maximum time to wait for the worker to stop after capture is stopped.
    pub shutdown_timeout: Duration,
}

impl Default for PipeWireCaptureConfig {
    fn default() -> (c: Self)
        ensures
            c.queue_capacity == 8,
            duration_nanos(c.startup_timeout) == 5_000_000_000,
            duration_nanos(c.shutdown_timeout) == 5_000_000_000,
    {
        Self { queue_capacity: 8, startup_timeout: from_secs(5), shutdown_timeout: from_secs(5) }
    }
}

/// The first violated capture limit, if any.
pub open spec fn capture_config_check(c: PipeWireCaptureConfig) -> Result<(), PipeWireError> {
    if c.queue_capacity == 0 {
        Err(PipeWireError::InvalidConfiguration("queue capacity must be greater than zero"))
    } else if duration_nanos(c.startup_timeout) == 0 {
        Err(PipeWireError::InvalidConfiguration("startup timeout must be greater than zero"))
    } else if duration_nanos(c.shutdown_timeout) == 0 {
        Err(PipeWireError::InvalidConfiguration("shutdown timeout must be greater than zero"))
    } else {
        Ok(())
    }
}

impl PipeWireCaptureConfig {
    /// Rejects an unbounded (zero-capacity) queue and zero timeouts.
    pub fn validate(&self) -> (r: Result<(), PipeWireError>)
        ensures
            r == capture_config_check(*self),
    {
        if self.queue_capacity == 0 {
            return Err(PipeWireError::InvalidConfiguration("queue capacity must be greater than zero"));
        }
        if is_zero(self.startup_timeout) {
            return Err(PipeWireError::InvalidConfiguration("startup timeout must be greater than zero"));
        }
        if is_zero(self.shutdown_timeout) {
            return Err(
                PipeWireError::InvalidConfiguration("shutdown timeout must be greater than zero"),
            );
        }
        Ok(())
    }
}

/// What is left of a time limit after `elapsed`; zero once it is used up.
pub fn remaining_budget(limit: Duration, elapsed: Duration) -> (d: Duration)
    ensures
        duration_nanos(d) == if duration_nanos(limit) >= duration_nanos(elapsed) {
            duration_nanos(limit) - duration_nanos(elapsed)
        } else {
            0
        },
{
    saturating_sub(limit, elapsed)
}

} // verus!
