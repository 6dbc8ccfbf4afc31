//! How the capture worker reacts when its PipeWire stream changes state.

use vstd::prelude::*;

use crate::capture::error::PipeWireError;

verus! {

/// The states of a capture stream, as PipeWire reports them.
#[derive(Clone, Debug, PartialEq, Eq)]
pub enum StreamStatus {
    Error(String),
    Unconnected,
    Connecting,
    Paused,
    Streaming,
}

/// What the worker does about a change of stream state.
#[derive(Clone, Debug, PartialEq, Eq)]
pub enum StreamReaction {
    /// Tell a caller waiting for startup that capture is streaming.
    ReportStarted,
    /// End capture with this failure.
    Fatal(PipeWireError),
    /// Nothing to do.
    Ignore,
}

/// The reaction to a change from `old` to `new`: streaming completes
/// startup; an error state is fatal; losing the connection is fatal unless
/// a stop was requested or the stream was never connected, since the
/// selected source is never replaced by another.
pub open spec fn stream_reaction_spec(old: StreamStatus, new: StreamStatus, stop_requested: bool) -> StreamReaction {
    match new {
        StreamStatus::Streaming => StreamReaction::ReportStarted,
        StreamStatus::Error(message) => StreamReaction::Fatal(PipeWireError::StreamFailure(message)),
        StreamStatus::Unconnected => if !stop_requested && !(old is Unconnected) {
            StreamReaction::Fatal(PipeWireError::SelectedSourceUnavailable)
        } else {
            StreamReaction::Ignore
        },
        _ => StreamReaction::Ignore,
    }
}

/// Decides what a change of stream state calls for.
pub fn stream_state_reaction(old: &StreamStatus, new: StreamStatus, stop_requested: bool) -> (r:
    StreamReaction)
    ensures
        r == stream_reaction_spec(*old, new, stop_requested),
{
    match new {
        StreamStatus::Streaming => StreamReaction::ReportStarted,
        StreamStatus::Error(message) => StreamReaction::Fatal(PipeWireError::StreamFailure(message)),
        StreamStatus::Unconnected => {
            let was_unconnected = match old {
                StreamStatus::Unconnected => true,
                _ => false,
            };
            if !stop_requested && !was_unconnected {
                StreamReaction::Fatal(PipeWireError::SelectedSourceUnavailable)
            } else {
                StreamReaction::Ignore
            }
        },
        _ => StreamReaction::Ignore,
    }
}

} // verus!
