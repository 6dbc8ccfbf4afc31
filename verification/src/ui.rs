//! UI adapter boundary.

use vstd::prelude::*;

use crate::caption::CaptionSnapshot;

verus! {

/// Actionable error reported by a native UI adapter.
#[derive(Clone, Debug, PartialEq, Eq)]
pub struct CaptionSinkError {
    message: String,
}

impl CaptionSinkError {
    /// The error message.
    pub closed spec fn message_view(&self) -> Seq<char> {
        self.message@
    }

    /// Creates a UI adapter error with user-actionable context.
    pub fn new(message: &str) -> (e: Self)
        ensures
            e.message_view() == message@,
    {
        Self { message: message.to_owned() }
    }

    /// Returns the message (what `to_string` shows).
    pub fn message(&self) -> (s: &str)
        ensures
            s@ == self.message_view(),
    {
        self.message.as_str()
    }
}

/// Receives immutable caption snapshots for native presentation.
pub trait CaptionSink: Send {
    /// Publishes the newest caption state without blocking on expensive work.
    fn publish(&mut self, snapshot: CaptionSnapshot) -> Result<(), CaptionSinkError>;
}

} // verus!
