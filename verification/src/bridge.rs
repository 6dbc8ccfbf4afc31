//! Bounded caption-state bridge between the caption controller and the GTK
//! thread.
//!
//! The bridge retains at most one pending final presentation and one current,
//! replaceable presentation. Lifecycle state does not compete with captions
//! for queue capacity, and ordinary GTK lag cannot reject a publication.

use std::sync::atomic::{AtomicBool, Ordering};
use std::sync::Arc;
use vstd::prelude::*;
use vstd::rwlock::{RwLock, RwLockPredicate};

use crate::caption::{CaptionSnapshot, CaptionStatus};
use crate::text::is_blank;
use crate::ui::{CaptionSink, CaptionSinkError};

verus! {

broadcast use vstd::string::group_string_axioms;

/// User intent emitted by the native window.
#[derive(Clone, Debug, PartialEq, Eq)]
pub enum CaptionUiAction {
    /// Start caption processing.
    Start {
        /// Stable platform adapter identifier selected in the window.
        source_id: String,
    },
    /// Stop caption processing and release capture resources.
    Stop,
    /// Terminate the controller after cancelling any active caption session.
    Shutdown,
}

/// Status shown while a caption is still partial.
pub open spec fn listening_status() -> Seq<char> {
    "Listening\u{2026}"@
}

/// Status shown once a caption is final.
pub open spec fn final_status() -> Seq<char> {
    "Final"@
}

/// Status shown once captioning stopped.
pub open spec fn stopped_status() -> Seq<char> {
    "Stopped"@
}

/// What a snapshot shows: revision, text and status.
pub open spec fn snapshot_model(s: CaptionSnapshot) -> (u64, Seq<char>, CaptionStatus) {
    (s.revision_view(), s.text_view(), s.status_view())
}

/// Abstract presentation: each part is present only when it changed.
pub struct PresentationModel {
    pub caption: Option<(u64, Seq<char>, CaptionStatus)>,
    pub running: Option<bool>,
    pub status: Option<Seq<char>>,
}

/// The presentation that changes nothing.
pub open spec fn empty_presentation() -> PresentationModel {
    PresentationModel { caption: None, running: None, status: None }
}

/// `older` overwritten by every part that `newer` carries.
pub open spec fn merged(older: PresentationModel, newer: PresentationModel) -> PresentationModel {
    PresentationModel {
        caption: if newer.caption is Some {
            newer.caption
        } else {
            older.caption
        },
        running: if newer.running is Some {
            newer.running
        } else {
            older.running
        },
        status: if newer.status is Some {
            newer.status
        } else {
            older.status
        },
    }
}

/// Changes the GTK thread should apply during one bounded poll.
#[derive(Clone, Debug, PartialEq, Eq)]
pub struct UiPresentation {
    pub caption: Option<CaptionSnapshot>,
    pub running: Option<bool>,
    pub status: Option<String>,
}

impl UiPresentation {
    /// The abstract presentation.
    pub open spec fn model(&self) -> PresentationModel {
        PresentationModel {
            caption: match self.caption {
                Some(s) => Some(snapshot_model(s)),
                None => None,
            },
            running: self.running,
            status: match self.status {
                Some(s) => Some(s@),
                None => None,
            },
        }
    }

    /// The presentation that changes nothing.
    pub fn empty() -> (p: Self)
        ensures
            p.model() == empty_presentation(),
    {
        Self { caption: None, running: None, status: None }
    }

    /// Overwrites every part that `newer` carries.
    pub fn merge(&mut self, newer: Self)
        ensures
            final(self).model() == merged(old(self).model(), newer.model()),
    {
        if newer.caption.is_some() {
            self.caption = newer.caption;
        }
        if newer.running.is_some() {
            self.running = newer.running;
        }
        if newer.status.is_some() {
            self.status = newer.status;
        }
    }

    /// Whether this presentation changes nothing.
    pub fn is_empty(&self) -> (b: bool)
        ensures
            b == (self.model() == empty_presentation()),
    {
        self.caption.is_none() && self.running.is_none() && self.status.is_none()
    }
}

/// The changes the GTK thread should apply during one bounded poll.
#[derive(Clone, Debug, PartialEq, Eq)]
pub struct UiUpdate {
    pub presentation: Option<UiPresentation>,
    pub error: Option<Option<String>>,
    pub quit: bool,
}

/// Abstract bridge state.
pub struct BridgeModel {
    pub pending_final: Option<PresentationModel>,
    pub current: PresentationModel,
    pub latest_caption: Option<(u64, CaptionStatus)>,
    pub error: Option<Option<Seq<char>>>,
    pub quit: bool,
}

/// One publication to the bridge.
#[derive(Clone, Debug, PartialEq, Eq)]
pub enum BridgeCommand {
    /// Captioning started (`true`) or stopped (`false`).
    SetRunning(bool),
    /// A short lifecycle status.
    SetStatus(String),
    /// An actionable error to show.
    ShowError(String),
    /// Hide the shown error.
    ClearError,
    /// An orderly application exit.
    Quit,
    /// A caption snapshot.
    Publish(CaptionSnapshot),
}

/// What a publication tells the window, with texts as character sequences;
/// a caption is named by its revision.
pub enum NoticeView {
    Running(bool),
    Status(Seq<char>),
    Error(Seq<char>),
    ClearError,
    Quit,
    Caption(u64),
}

pub open spec fn notice_view(c: BridgeCommand) -> NoticeView {
    match c {
        BridgeCommand::SetRunning(b) => NoticeView::Running(b),
        BridgeCommand::SetStatus(s) => NoticeView::Status(s@),
        BridgeCommand::ShowError(m) => NoticeView::Error(m@),
        BridgeCommand::ClearError => NoticeView::ClearError,
        BridgeCommand::Quit => NoticeView::Quit,
        BridgeCommand::Publish(snapshot) => NoticeView::Caption(snapshot.revision_view()),
    }
}

/// What a sequence of publications tells the window, in order.
pub open spec fn notice_seq(cs: Seq<BridgeCommand>) -> Seq<NoticeView> {
    cs.map_values(|c: BridgeCommand| notice_view(c))
}

/// The presentation a control change (running or status) lands in: the
/// unobserved final when nothing newer is pending, the current one otherwise.
pub open spec fn control_lands_in_pending(m: BridgeModel) -> bool {
    m.current == empty_presentation() && m.pending_final is Some
}

/// `m` with a control change applied to the presentation it lands in.
pub open spec fn with_control(
    m: BridgeModel,
    running: Option<bool>,
    status: Option<Seq<char>>,
) -> BridgeModel {
    let change = PresentationModel { caption: None, running, status };
    if control_lands_in_pending(m) {
        BridgeModel { pending_final: Some(merged(m.pending_final->0, change)), ..m }
    } else {
        BridgeModel { current: merged(m.current, change), ..m }
    }
}

/// Whether a snapshot with this revision and status replaces the latest one:
/// newer revisions do, older ones never do, and at an equal revision only a
/// final replaces a partial.
pub open spec fn replaces(latest: Option<(u64, CaptionStatus)>, revision: u64, status: CaptionStatus) -> bool {
    match latest {
        None => true,
        Some((r, s)) => if revision > r {
            true
        } else if revision < r {
            false
        } else {
            s == CaptionStatus::Partial && status == CaptionStatus::Final
        },
    }
}

/// Bridge state after one publication.
pub open spec fn model_apply(m: BridgeModel, command: BridgeCommand) -> BridgeModel {
    match command {
        BridgeCommand::SetRunning(true) => BridgeModel {
            current: PresentationModel {
                caption: None,
                running: Some(true),
                status: Some(listening_status()),
            },
            latest_caption: None,
            ..m
        },
        BridgeCommand::SetRunning(false) => with_control(m, Some(false), Some(stopped_status())),
        BridgeCommand::SetStatus(s) => with_control(m, None, Some(s@)),
        BridgeCommand::ShowError(e) => BridgeModel { error: Some(Some(e@)), ..m },
        BridgeCommand::ClearError => BridgeModel { error: Some(None), ..m },
        BridgeCommand::Quit => BridgeModel { quit: true, ..m },
        BridgeCommand::Publish(snap) => {
            let (revision, text, status) = snapshot_model(snap);
            if !replaces(m.latest_caption, revision, status) {
                m
            } else {
                let shown = PresentationModel {
                    caption: Some((revision, text, status)),
                    status: Some(
                        if status == CaptionStatus::Partial {
                            listening_status()
                        } else {
                            final_status()
                        },
                    ),
                    ..m.current
                };
                if status == CaptionStatus::Final {
                    BridgeModel {
                        pending_final: Some(
                            match m.pending_final {
                                Some(p) => merged(p, shown),
                                None => shown,
                            },
                        ),
                        current: empty_presentation(),
                        latest_caption: Some((revision, status)),
                        ..m
                    }
                } else {
                    BridgeModel {
                        current: shown,
                        latest_caption: Some((revision, status)),
                        ..m
                    }
                }
            }
        },
    }
}

/// What one poll takes: the pending final if there is one, else the current
/// presentation if it carries a change; and the error change.
pub open spec fn model_take(m: BridgeModel) -> (BridgeModel, Option<PresentationModel>, Option<Option<Seq<char>>>) {
    if m.pending_final is Some {
        (BridgeModel { pending_final: None, error: None, ..m }, m.pending_final, m.error)
    } else if m.current != empty_presentation() {
        (
            BridgeModel { current: empty_presentation(), error: None, ..m },
            Some(m.current),
            m.error,
        )
    } else {
        (BridgeModel { error: None, ..m }, None, m.error)
    }
}

/// Mutable bridge state; see [`model_apply`] and [`model_take`].
#[derive(Debug)]
pub struct BridgeState {
    pending_final: Option<UiPresentation>,
    current: UiPresentation,
    latest_caption: Option<(u64, CaptionStatus)>,
    error: Option<Option<String>>,
    quit: bool,
}

/// A pending final always carries a final caption, and the current
/// presentation never carries one.
pub open spec fn model_wf(m: BridgeModel) -> bool {
    &&& m.pending_final matches Some(p) ==> (p.caption matches Some((_, _, s)) && s
        == CaptionStatus::Final)
    &&& m.current.caption matches Some((_, _, s)) ==> s == CaptionStatus::Partial
}

impl BridgeState {
    /// The abstract state.
    pub closed spec fn model(&self) -> BridgeModel {
        BridgeModel {
            pending_final: match self.pending_final {
                Some(p) => Some(p.model()),
                None => None,
            },
            current: self.current.model(),
            latest_caption: self.latest_caption,
            error: match self.error {
                Some(Some(e)) => Some(Some(e@)),
                Some(None) => Some(None),
                None => None,
            },
            quit: self.quit,
        }
    }

    /// The state's invariant.
    pub open spec fn wf(&self) -> bool {
        model_wf(self.model())
    }

    /// A bridge with nothing to show.
    pub fn new() -> (s: Self)
        ensures
            s.model() == (BridgeModel {
                pending_final: None,
                current: empty_presentation(),
                latest_caption: None,
                error: None,
                quit: false,
            }),
            s.wf(),
    {
        Self {
            pending_final: None,
            current: UiPresentation::empty(),
            latest_caption: None,
            error: None,
            quit: false,
        }
    }

    fn apply_control(&mut self, running: Option<bool>, status: Option<String>)
        requires
            old(self).wf(),
        ensures
            final(self).model() == with_control(
                old(self).model(),
                running,
                match status {
                    Some(s) => Some(s@),
                    None => None,
                },
            ),
            final(self).wf(),
    {
        let change = UiPresentation { caption: None, running, status };
        if self.current.is_empty() && self.pending_final.is_some() {
            let mut pending = self.pending_final.take().unwrap();
            pending.merge(change);
            self.pending_final = Some(pending);
        } else {
            self.current.merge(change);
        }
    }

    /// Applies one publication.
    pub fn apply(&mut self, command: BridgeCommand)
        requires
            old(self).wf(),
        ensures
            final(self).model() == model_apply(old(self).model(), command),
            final(self).wf(),
    {
        match command {
            BridgeCommand::SetRunning(running) => {
                if running {
                    // A new pipeline starts a new caption revision sequence.
                    // Keep an unobserved prior final, but begin new live
                    // state after it.
                    self.current = UiPresentation {
                        caption: None,
                        running: Some(true),
                        status: Some("Listening\u{2026}".to_owned()),
                    };
                    self.latest_caption = None;
                } else {
                    self.apply_control(Some(false), Some("Stopped".to_owned()));
                }
            },
            BridgeCommand::SetStatus(status) => {
                self.apply_control(None, Some(status));
            },
            BridgeCommand::ShowError(message) => {
                self.error = Some(Some(message));
            },
            BridgeCommand::ClearError => {
                self.error = Some(None);
            },
            BridgeCommand::Quit => {
                self.quit = true;
            },
            BridgeCommand::Publish(snapshot) => {
                self.publish_snapshot(snapshot);
            },
        }
    }

    /// A publication as the window's receiver finds it: applied while the
    /// receiver is open, refused (and the state left as it was) once it is
    /// gone.
    pub fn accept(&mut self, command: BridgeCommand, receiver_open: bool) -> (r: Result<
        (),
        CaptionSinkError,
    >)
        requires
            old(self).wf(),
        ensures
            receiver_open ==> r is Ok && final(self).model() == model_apply(
                old(self).model(),
                command,
            ),
            !receiver_open ==> (r matches Err(e) && e.message_view() == window_unavailable_message())
                && final(self).model() == old(self).model(),
            final(self).wf(),
    {
        if !receiver_open {
            return Err(CaptionSinkError::new("GTK caption window is no longer available"));
        }
        self.apply(command);
        Ok(())
    }

    fn publish_snapshot(&mut self, snapshot: CaptionSnapshot)
        requires
            old(self).wf(),
        ensures
            final(self).model() == model_apply(old(self).model(), BridgeCommand::Publish(snapshot)),
            final(self).wf(),
    {
        let status = snapshot.caption().status();
        let revision = snapshot.revision();
        let replace = match self.latest_caption {
            None => true,
            Some((latest_revision, latest_status)) => {
                if revision > latest_revision {
                    true
                } else if revision < latest_revision {
                    false
                } else {
                    match latest_status {
                        CaptionStatus::Partial => match status {
                            CaptionStatus::Final => true,
                            CaptionStatus::Partial => false,
                        },
                        CaptionStatus::Final => false,
                    }
                }
            },
        };
        if !replace {
            return;
        }
        self.latest_caption = Some((revision, status));
        let status_text = match status {
            CaptionStatus::Partial => "Listening\u{2026}".to_owned(),
            CaptionStatus::Final => "Final".to_owned(),
        };
        self.current.caption = Some(snapshot);
        self.current.status = Some(status_text);
        match status {
            CaptionStatus::Final => {
                let finalized = UiPresentation {
                    caption: self.current.caption.take(),
                    running: self.current.running.take(),
                    status: self.current.status.take(),
                };
                match self.pending_final.take() {
                    Some(mut pending) => {
                        pending.merge(finalized);
                        self.pending_final = Some(pending);
                    },
                    None => {
                        self.pending_final = Some(finalized);
                    },
                }
            },
            CaptionStatus::Partial => {},
        }
    }

    /// Takes at most one bounded presentation plus the error change; `None`
    /// when there is nothing to take and no producer remains.
    pub fn take_update(&mut self, producers_alive: bool) -> (r: Option<UiUpdate>)
        requires
            old(self).wf(),
        ensures
            ({
                let (m, presentation, error) = model_take(old(self).model());
                &&& final(self).model() == m
                &&& final(self).wf()
                &&& (!producers_alive && presentation is None && error is None
                    && !old(self).model().quit) ==> r is None
                &&& !(!producers_alive && presentation is None && error is None
                    && !old(self).model().quit) ==> (r matches Some(u) && (match u.presentation {
                    Some(p) => presentation == Some(p.model()),
                    None => presentation is None,
                }) && (match u.error {
                    Some(Some(e)) => error == Some(Some(e@)),
                    Some(None) => error == Some(None::<Seq<char>>),
                    None => error is None,
                }) && u.quit == old(self).model().quit)
            }),
    {
        let presentation = match self.pending_final.take() {
            Some(pending) => Some(pending),
            None => {
                if !self.current.is_empty() {
                    let taken = UiPresentation {
                        caption: self.current.caption.take(),
                        running: self.current.running.take(),
                        status: self.current.status.take(),
                    };
                    Some(taken)
                } else {
                    None
                }
            },
        };
        let error = self.error.take();
        if !producers_alive && presentation.is_none() && error.is_none() && !self.quit {
            return None;
        }
        Some(UiUpdate { presentation, error, quit: self.quit })
    }
}

/// Lock predicate: the bridge state's invariant.
pub struct BridgeInvariant;

impl RwLockPredicate<BridgeState> for BridgeInvariant {
    open spec fn inv(self, v: BridgeState) -> bool {
        v.wf()
    }
}

struct BridgeShared {
    state: RwLock<BridgeState, BridgeInvariant>,
    receiver_open: AtomicBool,
}

/// `Arc::strong_count`: how many handles currently share the bridge. It
/// changes as other threads clone or drop handles, so nothing is claimed of
/// the number.
#[verifier::external_body]
fn handle_count(shared: &Arc<BridgeShared>) -> usize {
    Arc::strong_count(shared)
}

/// `AtomicBool::store` with `Release` ordering, which never panics.
#[verifier::external_body]
fn mark_receiver_closed(flag: &AtomicBool)
    opens_invariants none
    no_unwind
{
    flag.store(false, Ordering::Release)
}

/// Cloneable producer endpoint for the GTK-local caption state bridge.
#[derive(Clone)]
pub struct GtkCaptionSink {
    shared: Arc<BridgeShared>,
}

/// GTK-thread endpoint for the caption state bridge.
///
/// It sees the last producer disappear while retaining pending state long
/// enough to drain it first.
pub struct GtkCaptionReceiver {
    shared: Arc<BridgeShared>,
}

/// Message returned once the receiver is gone.
pub open spec fn window_unavailable_message() -> Seq<char> {
    "GTK caption window is no longer available"@
}

impl GtkCaptionSink {
    /// Whether this sink publishes to the bridge that `receiver` takes
    /// from.
    pub closed spec fn connected_to(&self, receiver: &GtkCaptionReceiver) -> bool {
        self.shared == receiver.shared
    }

    /// Creates a state bridge whose receiver must be owned by the GTK thread:
    /// the sink publishes to what the receiver takes.
    pub fn bridge() -> (r: (Self, GtkCaptionReceiver))
        ensures
            r.0.connected_to(&r.1),
    {
        let state = RwLock::new(BridgeState::new(), Ghost(BridgeInvariant));
        let shared = Arc::new(BridgeShared { state, receiver_open: AtomicBool::new(true) });
        let producer = Self { shared: shared.clone() };
        (producer, GtkCaptionReceiver { shared })
    }

    fn submit(&self, command: BridgeCommand) -> (r: Result<(), CaptionSinkError>)
        ensures
            r matches Err(e) ==> e.message_view() == window_unavailable_message(),
    {
        let (mut state, handle) = self.shared.state.acquire_write();
        let receiver_open = self.shared.receiver_open.load(Ordering::Acquire);
        let r = state.accept(command, receiver_open);
        handle.release_write(state);
        r
    }

    /// Hands one publication to the window, as the method of the same kind
    /// does: a white-space-only status or error is refused.
    pub fn deliver(&self, command: BridgeCommand) -> (r: Result<(), CaptionSinkError>)
        ensures
            command matches BridgeCommand::SetStatus(t) && crate::text::all_white_space(t@) ==> (
            r matches Err(e) && e.message_view() == "GTK caption status must not be empty"@),
            command matches BridgeCommand::ShowError(t) && crate::text::all_white_space(t@) ==> (
            r matches Err(e) && e.message_view() == "GTK caption error message must not be empty"@),
            !(command matches BridgeCommand::SetStatus(t) && crate::text::all_white_space(t@))
                && !(command matches BridgeCommand::ShowError(t) && crate::text::all_white_space(
                t@,
            )) ==> (r matches Err(e) ==> e.message_view() == window_unavailable_message()),
    {
        match command {
            BridgeCommand::SetStatus(status) => self.set_status(status.as_str()),
            BridgeCommand::ShowError(message) => self.show_error(message.as_str()),
            other => self.submit(other),
        }
    }

    /// Updates whether captioning is running.
    pub fn set_running(&self, running: bool) -> (r: Result<(), CaptionSinkError>)
        ensures
            r matches Err(e) ==> e.message_view() == window_unavailable_message(),
    {
        self.submit(BridgeCommand::SetRunning(running))
    }

    /// Shows a short pipeline lifecycle status; white-space-only statuses are
    /// refused.
    pub fn set_status(&self, status: &str) -> (r: Result<(), CaptionSinkError>)
        ensures
            crate::text::all_white_space(status@) ==> (r matches Err(e) && e.message_view()
                == "GTK caption status must not be empty"@),
            !crate::text::all_white_space(status@) ==> (r matches Err(e) ==> e.message_view()
                == window_unavailable_message()),
    {
        if is_blank(status) {
            return Err(CaptionSinkError::new("GTK caption status must not be empty"));
        }
        self.submit(BridgeCommand::SetStatus(status.to_owned()))
    }

    /// Shows an actionable error in the caption window; white-space-only
    /// messages are refused.
    pub fn show_error(&self, message: &str) -> (r: Result<(), CaptionSinkError>)
        ensures
            crate::text::all_white_space(message@) ==> (r matches Err(e) && e.message_view()
                == "GTK caption error message must not be empty"@),
            !crate::text::all_white_space(message@) ==> (r matches Err(e) ==> e.message_view()
                == window_unavailable_message()),
    {
        if is_blank(message) {
            return Err(CaptionSinkError::new("GTK caption error message must not be empty"));
        }
        self.submit(BridgeCommand::ShowError(message.to_owned()))
    }

    /// Clears a previously displayed error.
    pub fn clear_error(&self) -> (r: Result<(), CaptionSinkError>)
        ensures
            r matches Err(e) ==> e.message_view() == window_unavailable_message(),
    {
        self.submit(BridgeCommand::ClearError)
    }

    /// Requests an orderly application exit.
    pub fn quit(&self) -> (r: Result<(), CaptionSinkError>)
        ensures
            r matches Err(e) ==> e.message_view() == window_unavailable_message(),
    {
        self.submit(BridgeCommand::Quit)
    }
}

impl CaptionSink for GtkCaptionSink {
    /// Coalesces obsolete partials while retaining an unobserved final boundary.
    fn publish(&mut self, snapshot: CaptionSnapshot) -> (r: Result<(), CaptionSinkError>)
        ensures
            r matches Err(e) ==> e.message_view() == window_unavailable_message(),
    {
        self.submit(BridgeCommand::Publish(snapshot))
    }
}

/// Message returned once every producer is gone and nothing is left.
pub open spec fn controller_gone_message() -> Seq<char> {
    "GTK caption controller is no longer available"@
}

impl GtkCaptionReceiver {
    /// Takes at most one bounded presentation plus current control state; an
    /// error once no producer remains and nothing is left to take.
    pub fn take_update(&self) -> (r: Result<UiUpdate, CaptionSinkError>)
        ensures
            r matches Err(e) ==> e.message_view() == controller_gone_message(),
    {
        let producers_alive = handle_count(&self.shared) > 1;
        let (mut state, handle) = self.shared.state.acquire_write();
        let update = state.take_update(producers_alive);
        handle.release_write(state);
        match update {
            Some(update) => Ok(update),
            None => Err(CaptionSinkError::new("GTK caption controller is no longer available")),
        }
    }
}

impl Drop for GtkCaptionReceiver {
    fn drop(&mut self)
        opens_invariants none
        no_unwind
    {
        mark_receiver_closed(&self.shared.receiver_open);
    }
}

/// Every publication and every poll keeps the bridge invariant: a pending
/// final always shows a final caption, the current presentation never does.
pub proof fn law_bridge_invariant_preserved(m: BridgeModel, command: BridgeCommand)
    requires
        model_wf(m),
    ensures
        model_wf(model_apply(m, command)),
        model_wf(model_take(m).0),
{
}

/// A stale snapshot, older than the latest one accepted, changes nothing.
pub proof fn law_stale_snapshot_ignored(m: BridgeModel, snap: CaptionSnapshot)
    requires
        m.latest_caption matches Some((revision, _)) && snap.revision_view() < revision,
    ensures
        model_apply(m, BridgeCommand::Publish(snap)) == m,
{
}

/// A partial caption never displaces a final that the GTK thread has not yet
/// taken.
pub proof fn law_pending_final_survives_partials(m: BridgeModel, snap: CaptionSnapshot)
    requires
        m.pending_final is Some,
        snap.status_view() == CaptionStatus::Partial,
    ensures
        model_apply(m, BridgeCommand::Publish(snap)).pending_final == m.pending_final,
{
}

/// A pending final is observed before anything newer, which stays queued.
pub proof fn law_pending_final_taken_first(m: BridgeModel)
    requires
        m.pending_final is Some,
    ensures
        model_take(m).1 == m.pending_final,
        model_take(m).0.current == m.current,
        model_take(m).0.pending_final is None,
{
}

/// A newer partial replaces the shown partial: only the newest partial is
/// retained.
pub proof fn law_newest_partial_retained(m: BridgeModel, snap: CaptionSnapshot)
    requires
        snap.status_view() == CaptionStatus::Partial,
        replaces(m.latest_caption, snap.revision_view(), snap.status_view()),
    ensures
        model_apply(m, BridgeCommand::Publish(snap)).current.caption == Some(snapshot_model(snap)),
        model_apply(m, BridgeCommand::Publish(snap)).current.status == Some(listening_status()),
        model_apply(m, BridgeCommand::Publish(snap)).latest_caption == Some(
            (snap.revision_view(), CaptionStatus::Partial),
        ),
{
}

/// A final is kept until taken; a later final replaces its caption, so at
/// most one final and one partial are ever retained.
pub proof fn law_final_moves_to_pending(m: BridgeModel, snap: CaptionSnapshot)
    requires
        snap.status_view() == CaptionStatus::Final,
        replaces(m.latest_caption, snap.revision_view(), snap.status_view()),
    ensures
        model_apply(m, BridgeCommand::Publish(snap)).pending_final matches Some(p) && p.caption
            == Some(snapshot_model(snap)) && p.status == Some(final_status()),
        model_apply(m, BridgeCommand::Publish(snap)).current == empty_presentation(),
{
}

/// The last control change wins: a status set after a caption overrides the
/// caption's status, wherever the change lands.
pub proof fn law_later_status_wins(m: BridgeModel, status: String)
    ensures
        ({
            let after = model_apply(m, BridgeCommand::SetStatus(status));
            if control_lands_in_pending(m) {
                after.pending_final matches Some(p) && p.status == Some(status@)
            } else {
                after.current.status == Some(status@)
            }
        }),
{
}

/// A started session begins a new caption revision sequence: right after
/// captioning is set running, a published snapshot of any revision is shown,
/// a partial as the current caption and a final as the pending one.
pub proof fn law_started_session_shows_any_revision(m: BridgeModel, snap: CaptionSnapshot)
    ensures
        ({
            let after = model_apply(
                model_apply(m, BridgeCommand::SetRunning(true)),
                BridgeCommand::Publish(snap),
            );
            &&& snap.status_view() == CaptionStatus::Partial ==> after.current.caption == Some(
                snapshot_model(snap),
            )
            &&& snap.status_view() == CaptionStatus::Final ==> (after.pending_final matches Some(p)
                && p.caption == Some(snapshot_model(snap)))
            &&& after.latest_caption == Some((snap.revision_view(), snap.status_view()))
        }),
{
}

} // verus!
