//! Speech-to-text adapter boundary and incremental update types.

use vstd::prelude::*;
use vstd::string::StrSliceExecFns;

use crate::audio::AudioChunk;
use crate::caption::CaptionStatus;
use crate::text::{all_white_space, chars_of, is_blank, leading_white_space, trim_start};

verus! {

broadcast use vstd::string::group_string_axioms;

/// Message of [`TranscriptUpdateError::EmptyText`].
pub open spec fn empty_text_message() -> Seq<char> {
    "transcript update text must not be empty"@
}

/// An incremental or final speech-to-text result.
///
/// Its text starts with a stable prefix that later partial updates keep; the
/// rest is the replaceable hypothesis.
#[derive(Debug, PartialEq, Eq)]
pub struct TranscriptUpdate {
    text: String,
    status: CaptionStatus,
    stable_prefix_chars: usize,
}

impl Clone for TranscriptUpdate {
    fn clone(&self) -> (c: Self)
        ensures
            c == *self,
    {
        proof {
            use_type_invariant(self);
        }
        Self {
            text: self.text.clone(),
            status: self.status,
            stable_prefix_chars: self.stable_prefix_chars,
        }
    }
}

/// Invalid speech-to-text update.
#[derive(Clone, Copy, Debug, PartialEq, Eq, Structural)]
pub enum TranscriptUpdateError {
    /// Empty updates are not meaningful caption state.
    EmptyText,
}

impl TranscriptUpdateError {
    /// The error message (what `to_string` shows).
    pub fn message(&self) -> (s: String)
        ensures
            s@ == empty_text_message(),
    {
        "transcript update text must not be empty".to_owned()
    }
}

impl TranscriptUpdate {
    #[verifier::type_invariant]
    closed spec fn prefix_within_text(&self) -> bool {
        self.stable_prefix_chars <= self.text@.len()
    }

    /// The full update text.
    pub closed spec fn text_view(&self) -> Seq<char> {
        self.text@
    }

    /// Partial or final.
    pub closed spec fn status_view(&self) -> CaptionStatus {
        self.status
    }

    /// Number of characters in the stable prefix.
    pub closed spec fn stable_len(&self) -> nat {
        self.stable_prefix_chars as nat
    }

    /// Creates an update whose text is `text` with a stable prefix of
    /// `stable_prefix_chars` characters; text that is white space only is
    /// rejected.
    pub(crate) fn with_stable_prefix(
        text: String,
        status: CaptionStatus,
        stable_prefix_chars: usize,
    ) -> (r: Result<Self, TranscriptUpdateError>)
        requires
            stable_prefix_chars <= text@.len(),
        ensures
            all_white_space(text@) ==> r == Err::<Self, TranscriptUpdateError>(
                TranscriptUpdateError::EmptyText,
            ),
            !all_white_space(text@) ==> (r matches Ok(u) && u.text_view() == text@
                && u.status_view() == status && u.stable_len() == stable_prefix_chars),
    {
        if is_blank(text.as_str()) {
            return Err(TranscriptUpdateError::EmptyText);
        }
        Ok(Self { text, status, stable_prefix_chars })
    }

    /// Creates an incremental result that may be superseded.
    pub fn partial(text: &str) -> (r: Result<Self, TranscriptUpdateError>)
        ensures
            all_white_space(text@) ==> r == Err::<Self, TranscriptUpdateError>(
                TranscriptUpdateError::EmptyText,
            ),
            !all_white_space(text@) ==> (r matches Ok(u) && u.text_view() == text@
                && u.status_view() == CaptionStatus::Partial && u.stable_len() == 0),
    {
        Self::with_stable_prefix(text.to_owned(), CaptionStatus::Partial, 0)
    }

    /// Creates a finalized result; all of its text is stable.
    pub fn finalized(text: &str) -> (r: Result<Self, TranscriptUpdateError>)
        ensures
            all_white_space(text@) ==> r == Err::<Self, TranscriptUpdateError>(
                TranscriptUpdateError::EmptyText,
            ),
            !all_white_space(text@) ==> (r matches Ok(u) && u.text_view() == text@
                && u.status_view() == CaptionStatus::Final && u.stable_len() == text@.len()),
    {
        let len = chars_of(text).len();
        Self::with_stable_prefix(text.to_owned(), CaptionStatus::Final, len)
    }

    /// Creates a partial result with a stable prefix and replaceable tail.
    ///
    /// This lets rolling-window transcribers retain accepted text while still
    /// replacing only the newest hypothesis on later inference passes.
    pub fn incremental(stable_text: &str, partial_text: &str) -> (r: Result<
        Self,
        TranscriptUpdateError,
    >)
        ensures
            all_white_space(partial_text@) ==> r == Err::<Self, TranscriptUpdateError>(
                TranscriptUpdateError::EmptyText,
            ),
            !all_white_space(partial_text@) ==> (r matches Ok(u) && u.text_view() == stable_text@
                + partial_text@ && u.status_view() == CaptionStatus::Partial && u.stable_len()
                == stable_text@.len()),
    {
        if is_blank(partial_text) {
            return Err(TranscriptUpdateError::EmptyText);
        }
        let stable = chars_of(stable_text);
        let mut text = stable_text.to_owned();
        crate::text::push_text(&mut text, partial_text);
        proof {
            // A text containing a non-space character of its tail is not blank.
            let k = choose|i: int|
                0 <= i < partial_text@.len() && !crate::text::is_white_space(
                    #[trigger] partial_text@[i],
                );
            assert(text@[stable_text@.len() + k] == partial_text@[k]);
        }
        Self::with_stable_prefix(text, CaptionStatus::Partial, stable.len())
    }

    /// Returns the update text.
    pub fn text(&self) -> (s: &str)
        ensures
            s@ == self.text_view(),
    {
        self.text.as_str()
    }

    /// Returns the accepted prefix that later partial updates must preserve.
    pub fn stable_text(&self) -> (s: &str)
        ensures
            s@ == self.text_view().take(self.stable_len() as int),
    {
        proof {
            use_type_invariant(self);
        }
        self.text.as_str().substring_char(0, self.stable_prefix_chars)
    }

    /// Returns the replaceable tail of a partial update, without its leading
    /// white space.
    pub fn partial_text(&self) -> (s: &str)
        ensures
            s@ == trim_start(self.text_view().skip(self.stable_len() as int)),
    {
        proof {
            use_type_invariant(self);
        }
        let chars = chars_of(self.text.as_str());
        let tail = chars.as_slice().split_at(self.stable_prefix_chars).1;
        let skip = leading_white_space(tail);
        assert(tail@.len() == chars@.len() - self.stable_prefix_chars);
        proof {
            assert(tail@ =~= self.text@.skip(self.stable_prefix_chars as int));
            assert(tail@.skip(skip as int) =~= self.text@.subrange(
                self.stable_prefix_chars + skip,
                self.text@.len() as int,
            ));
        }
        self.text.as_str().substring_char(self.stable_prefix_chars + skip, chars.len())
    }

    /// Consumes the update and returns its text.
    pub(crate) fn into_text(self) -> (s: String)
        ensures
            s@ == self.text_view(),
    {
        self.text
    }

    /// Returns whether this update is partial or final.
    pub fn status(&self) -> (s: CaptionStatus)
        ensures
            s == self.status_view(),
    {
        self.status
    }
}

/// Actionable error reported by a speech-to-text adapter.
#[derive(Clone, Debug, PartialEq, Eq)]
pub struct TranscriptionError {
    message: String,
}

impl TranscriptionError {
    /// The error message.
    pub closed spec fn message_view(&self) -> Seq<char> {
        self.message@
    }

    /// Creates a backend error with user-actionable context.
    pub fn new(message: &str) -> (e: Self)
        ensures
            e.message_view() == message@,
    {
        Self { message: message.to_owned() }
    }

    /// Returns the message (what `to_string` shows).
    pub fn message(&self) -> (s: &str)
        ensures
            s@ == self.message_view(),
    {
        self.message.as_str()
    }
}

/// A local or remote-replaceable speech-to-text backend.
pub trait Transcriber: Send {
    /// Consumes one bounded audio chunk and returns zero or more caption updates.
    fn push_audio(&mut self, chunk: AudioChunk) -> Result<Vec<TranscriptUpdate>, TranscriptionError>;

    /// Flushes any buffered speech when capture stops.
    fn finish(&mut self) -> Result<Vec<TranscriptUpdate>, TranscriptionError>;
}

} // verus!
