//! Caption domain state.

use vstd::prelude::*;

use crate::transcription::TranscriptUpdate;

verus! {

/// Whether a caption may still change or has been finalized by transcription.
#[derive(Clone, Copy, Debug, PartialEq, Eq, Structural)]
pub enum CaptionStatus {
    /// The caption contains an incremental transcription result.
    Partial,
    /// The caption contains a completed transcription result.
    Final,
}

/// A platform-independent caption produced by the transcription pipeline.
#[derive(Clone, Debug, PartialEq, Eq)]
pub struct Caption {
    text: String,
    status: CaptionStatus,
}

impl Caption {
    /// Caption text.
    pub closed spec fn text_view(&self) -> Seq<char> {
        self.text@
    }

    /// Partial or final.
    pub closed spec fn status_view(&self) -> CaptionStatus {
        self.status
    }

    /// Creates a caption from an incremental transcription result.
    pub fn partial(text: &str) -> (c: Self)
        ensures
            c.text_view() == text@,
            c.status_view() == CaptionStatus::Partial,
    {
        Self { text: text.to_owned(), status: CaptionStatus::Partial }
    }

    /// Returns the caption text.
    pub fn text(&self) -> (s: &str)
        ensures
            s@ == self.text_view(),
    {
        self.text.as_str()
    }

    /// Returns whether the caption is partial or final.
    pub fn status(&self) -> (s: CaptionStatus)
        ensures
            s == self.status_view(),
    {
        self.status
    }

    /// Marks the caption as final while preserving its text.
    pub fn finalize(&mut self)
        ensures
            final(self).text_view() == old(self).text_view(),
            final(self).status_view() == CaptionStatus::Final,
    {
        self.status = CaptionStatus::Final;
    }

    /// A copy with the same text and status.
    pub fn duplicate(&self) -> (c: Self)
        ensures
            c.text_view() == self.text_view(),
            c.status_view() == self.status_view(),
    {
        Self { text: self.text.clone(), status: self.status }
    }
}

/// Immutable caption state sent to a UI adapter.
#[derive(Clone, Debug, PartialEq, Eq)]
pub struct CaptionSnapshot {
    revision: u64,
    caption: Caption,
}

impl CaptionSnapshot {
    /// Revision number.
    pub closed spec fn revision_view(&self) -> u64 {
        self.revision
    }

    /// Caption text.
    pub closed spec fn text_view(&self) -> Seq<char> {
        self.caption.text_view()
    }

    /// Caption status.
    pub closed spec fn status_view(&self) -> CaptionStatus {
        self.caption.status_view()
    }

    /// Returns a monotonically increasing state revision.
    pub fn revision(&self) -> (r: u64)
        ensures
            r == self.revision_view(),
    {
        self.revision
    }

    /// Returns the current caption.
    pub fn caption(&self) -> (c: &Caption)
        ensures
            c.text_view() == self.text_view(),
            c.status_view() == self.status_view(),
    {
        &self.caption
    }

    /// A copy with the same revision, text and status.
    pub fn duplicate(&self) -> (s: Self)
        ensures
            s.revision_view() == self.revision_view(),
            s.text_view() == self.text_view(),
            s.status_view() == self.status_view(),
    {
        Self { revision: self.revision, caption: self.caption.duplicate() }
    }
}

/// Mutable caption state owned by the application pipeline.
#[derive(Clone, Debug)]
pub struct CaptionState {
    revision: u64,
    current: Option<Caption>,
}

/// Failure while updating caption state.
#[derive(Clone, Copy, Debug, PartialEq, Eq, Structural)]
pub enum CaptionStateError {
    /// The monotonically increasing revision counter was exhausted.
    RevisionOverflow,
}

impl CaptionStateError {
    /// The error message (what `to_string` shows).
    pub fn message(&self) -> (s: String)
        ensures
            s@ == "caption revision counter overflowed"@,
    {
        "caption revision counter overflowed".to_owned()
    }
}

impl CaptionState {
    /// Number of updates applied so far.
    pub closed spec fn revision_view(&self) -> u64 {
        self.revision
    }

    /// The current caption, if any update was applied.
    pub closed spec fn current_view(&self) -> Option<(Seq<char>, CaptionStatus)> {
        match self.current {
            Some(c) => Some((c.text_view(), c.status_view())),
            None => None,
        }
    }

    /// Every applied update left a caption behind; only the empty state has
    /// none.
    pub open spec fn wf(&self) -> bool {
        self.current_view() is None <==> self.revision_view() == 0
    }

    /// Creates empty caption state.
    pub fn new() -> (s: Self)
        ensures
            s.revision_view() == 0,
            s.current_view() is None,
            s.wf(),
    {
        Self { revision: 0, current: None }
    }

    /// Applies one transcription update and returns the new UI snapshot.
    ///
    /// The revision grows by exactly one; the snapshot and the new current
    /// caption carry the update's text and status. Once the revision counter
    /// is exhausted the state is left unchanged and the update is refused.
    pub fn apply(&mut self, update: TranscriptUpdate) -> (r: Result<
        CaptionSnapshot,
        CaptionStateError,
    >)
        ensures
            old(self).revision_view() == u64::MAX ==> r == Err::<
                CaptionSnapshot,
                CaptionStateError,
            >(CaptionStateError::RevisionOverflow) && *final(self) == *old(self),
            old(self).revision_view() < u64::MAX ==> (r matches Ok(snap)
                && final(self).revision_view() == old(self).revision_view() + 1
                && snap.revision_view() == final(self).revision_view() && snap.text_view()
                == update.text_view() && snap.status_view() == update.status_view()
                && final(self).current_view() == Some((update.text_view(), update.status_view()))),
            old(self).wf() ==> final(self).wf(),
    {
        if self.revision == u64::MAX {
            return Err(CaptionStateError::RevisionOverflow);
        }
        self.revision = self.revision + 1;
        let status = update.status();
        let text = update.into_text();
        let caption = Caption { text: text.clone(), status };
        self.current = Some(Caption { text, status });
        Ok(CaptionSnapshot { revision: self.revision, caption })
    }

    /// Returns the current state without changing its revision.
    pub fn snapshot(&self) -> (r: Option<CaptionSnapshot>)
        ensures
            shows(*self, r),
    {
        match &self.current {
            Some(caption) => Some(
                CaptionSnapshot { revision: self.revision, caption: caption.duplicate() },
            ),
            None => None,
        }
    }
}

/// What `snapshot` gives for `state`: nothing before the first update,
/// otherwise the current caption at the current revision.
pub open spec fn shows(state: CaptionState, r: Option<CaptionSnapshot>) -> bool {
    match state.current_view() {
        None => r is None,
        Some((text, status)) => r matches Some(snap) && snap.revision_view() == state.revision_view()
            && snap.text_view() == text && snap.status_view() == status,
    }
}

/// The revision a snapshot shows, 0 when there is none.
pub open spec fn shown_revision(r: Option<CaptionSnapshot>) -> int {
    match r {
        Some(snap) => snap.revision_view() as int,
        None => 0,
    }
}

/// Applying an update to the state whose snapshot was `shown_before` gives
/// the snapshot one revision past it (past 0 when there was none), with the
/// update's text and status; the state's snapshot afterwards is exactly
/// that snapshot.
pub proof fn law_snapshot_after_apply(
    before: CaptionState,
    shown_before: Option<CaptionSnapshot>,
    update: TranscriptUpdate,
    after: CaptionState,
    applied: CaptionSnapshot,
    shown_after: Option<CaptionSnapshot>,
)
    requires
        before.wf(),
        shows(before, shown_before),
        before.revision_view() < u64::MAX,
        after.revision_view() == before.revision_view() + 1,
        applied.revision_view() == after.revision_view(),
        applied.text_view() == update.text_view(),
        applied.status_view() == update.status_view(),
        after.current_view() == Some((update.text_view(), update.status_view())),
        shows(after, shown_after),
    ensures
        applied.revision_view() == shown_revision(shown_before) + 1,
        shown_after matches Some(snap) && snap.revision_view() == applied.revision_view()
            && snap.text_view() == applied.text_view() && snap.status_view()
            == applied.status_view(),
{
}

} // verus!
