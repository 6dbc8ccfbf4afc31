//! Bounded waits for a worker thread to report that it is ready, and what a
//! failed start leads to.

use std::time::Duration;
use vstd::prelude::*;

use crate::capture::error::PipeWireError;
use crate::stt::error::WhisperBackendError;

verus! {

/// One bounded wait for a worker's readiness report.
#[derive(Debug)]
pub enum StartupWait {
    /// The worker is ready.
    Ready,
    /// The worker reported this failure.
    Failed(String),
    /// No report arrived in time.
    Timeout,
    /// The worker went away without reporting.
    Disconnected,
}

/// How a capture start ends.
#[derive(Debug)]
pub enum CaptureStartup {
    /// The stream is running.
    Streaming,
    /// The start failed: ask the worker to stop first when `send_stop`,
    /// give it what is left of the startup budget to finish, and report
    /// `error`.
    Abort { send_stop: bool, error: PipeWireError },
}

/// What a readiness report means for a PipeWire capture start: a reported
/// failure or a timeout stops the worker; a worker that went away needs no
/// stop request.
pub fn capture_startup(wait: StartupWait, startup_timeout: Duration) -> (r: CaptureStartup)
    ensures
        match wait {
            StartupWait::Ready => r is Streaming,
            StartupWait::Failed(m) => r matches CaptureStartup::Abort {
                send_stop,
                error: PipeWireError::PipeWire(x),
            } && send_stop && x == m,
            StartupWait::Timeout => r == (CaptureStartup::Abort {
                send_stop: true,
                error: PipeWireError::StartupTimeout(startup_timeout),
            }),
            StartupWait::Disconnected => r == (CaptureStartup::Abort {
                send_stop: false,
                error: PipeWireError::WorkerStopped,
            }),
        },
{
    match wait {
        StartupWait::Ready => CaptureStartup::Streaming,
        StartupWait::Failed(message) => CaptureStartup::Abort {
            send_stop: true,
            error: PipeWireError::PipeWire(message),
        },
        StartupWait::Timeout => CaptureStartup::Abort {
            send_stop: true,
            error: PipeWireError::StartupTimeout(startup_timeout),
        },
        StartupWait::Disconnected => CaptureStartup::Abort {
            send_stop: false,
            error: PipeWireError::WorkerStopped,
        },
    }
}

/// How loading a Whisper model ends.
#[derive(Debug)]
pub enum ModelStartup {
    /// The model is loaded and the worker waits for audio.
    Ready,
    /// Loading failed: close the command channel; join the worker when
    /// `join_worker`, otherwise ask it to cancel and detach it; report
    /// `error`.
    Abort { join_worker: bool, error: WhisperBackendError },
}

/// What a readiness report means for a model load: a worker that reported
/// or went away has ended and is joined; one that did not answer in time is
/// cancelled and detached, never waited for.
pub fn model_startup(wait: StartupWait, startup_timeout: Duration) -> (r: ModelStartup)
    ensures
        match wait {
            StartupWait::Ready => r is Ready,
            StartupWait::Failed(m) => r matches ModelStartup::Abort {
                join_worker,
                error: WhisperBackendError::Whisper(x),
            } && join_worker && x == m,
            StartupWait::Timeout => r == (ModelStartup::Abort {
                join_worker: false,
                error: WhisperBackendError::StartupTimeout(startup_timeout),
            }),
            StartupWait::Disconnected => r matches ModelStartup::Abort {
                join_worker,
                error: WhisperBackendError::Worker(x),
            } && join_worker && x@ == "worker stopped while loading the model"@,
        },
{
    match wait {
        StartupWait::Ready => ModelStartup::Ready,
        StartupWait::Failed(message) => ModelStartup::Abort {
            join_worker: true,
            error: WhisperBackendError::Whisper(message),
        },
        StartupWait::Timeout => ModelStartup::Abort {
            join_worker: false,
            error: WhisperBackendError::StartupTimeout(startup_timeout),
        },
        StartupWait::Disconnected => ModelStartup::Abort {
            join_worker: true,
            error: WhisperBackendError::Worker("worker stopped while loading the model".to_owned()),
        },
    }
}

} // verus!
