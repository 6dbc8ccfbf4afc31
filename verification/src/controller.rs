//! The application controller: the one owner of a caption session's
//! lifecycle.
//!
//! The program runs the controller's loop: it waits for window actions and
//! session results, performs the commands the controller answers with
//! (starting, cancelling and detaching a session), reports back, and hands
//! the caption window the notifications the controller collected. Every
//! decision, and every notification the window receives, is made here.

use vstd::prelude::*;

use crate::audio::{descriptor_view, AudioSourceDescriptor, AudioSourceKind};
use crate::bridge::{notice_seq, notice_view, BridgeCommand, CaptionUiAction, NoticeView};
use crate::cli::{text_option_view, AppConfig, ModelPath};
use crate::pipeline::RunSummary;
use crate::text::{decimal, push_decimal, push_text, same_text};

verus! {

broadcast use vstd::string::group_string_axioms;

/// How the controller ended.
#[derive(Clone, Copy, Debug, PartialEq, Eq, Structural)]
pub enum ControllerOutcome {
    /// Normal operation ended on request.
    Completed,
    /// A smoke run captioned its source and stopped cleanly.
    SmokeSucceeded,
    /// A smoke run could not complete.
    SmokeFailed,
}

/// Lifecycle of the controller. `Active` while the one caption session runs;
/// a shutdown passes through `ShutdownRequested`, cancels that session if
/// there is one, and ends in `Terminated`.
#[derive(Clone, Copy, Debug, PartialEq, Eq, Structural)]
pub enum ControllerState {
    Idle,
    Active,
    ShutdownRequested,
    Terminated,
}

/// What a shutdown request does from state `s`: the controller ends, and
/// the running session, if there is one, is to be cancelled.
pub open spec fn shutdown_transition(s: ControllerState) -> (ControllerState, bool) {
    (ControllerState::Terminated, s == ControllerState::Active)
}

/// Ends the controller: a running session is to be cancelled (the result
/// says so) and then detached, never waited for.
pub fn request_controller_shutdown(state: &mut ControllerState) -> (cancel_session: bool)
    ensures
        (*final(state), cancel_session) == shutdown_transition(*old(state)),
{
    let previous = *state;
    *state = ControllerState::ShutdownRequested;
    let cancel_session = match previous {
        ControllerState::Active => true,
        _ => false,
    };
    *state = ControllerState::Terminated;
    cancel_session
}

/// A shutdown always terminates the controller, and repeating it changes
/// nothing and cancels nothing.
pub proof fn law_shutdown_is_idempotent(s: ControllerState)
    ensures
        shutdown_transition(s).0 == ControllerState::Terminated,
        shutdown_transition(shutdown_transition(s).0) == (ControllerState::Terminated, false),
{
}

/// The application succeeds only when the window closed cleanly and the
/// controller ended normally or with a successful smoke run.
pub fn application_exit_status(gtk_succeeded: bool, controller_outcome: Option<ControllerOutcome>) -> (success: bool)
    ensures
        success == (gtk_succeeded && (controller_outcome == Some(ControllerOutcome::Completed)
            || controller_outcome == Some(ControllerOutcome::SmokeSucceeded))),
{
    gtk_succeeded && match controller_outcome {
        Some(ControllerOutcome::Completed) | Some(ControllerOutcome::SmokeSucceeded) => true,
        _ => false,
    }
}

pub open spec fn no_model_message() -> Seq<char> {
    "No local Whisper model is configured. Pass --model PATH or set LCRT_MODEL_PATH."@
}

/// The error shown when the window opens: the startup failure, if any, and
/// the missing model, if none is configured, one per line.
pub open spec fn startup_errors(startup_error: Option<Seq<char>>, model_configured: bool) -> Option<
    Seq<char>,
> {
    match startup_error {
        Some(e) => if model_configured {
            Some(e)
        } else {
            Some(e + "\n"@ + no_model_message())
        },
        None => if model_configured {
            None
        } else {
            Some(no_model_message())
        },
    }
}

/// The error to show as the window opens, if there is one.
pub fn startup_error_message(startup_error: Option<String>, model_configured: bool) -> (m: Option<
    String,
>)
    ensures
        text_option_view(m) == startup_errors(text_option_view(startup_error), model_configured),
{
    match startup_error {
        Some(e) => {
            if model_configured {
                Some(e)
            } else {
                let mut m = e;
                push_text(&mut m, "\n");
                push_text(
                    &mut m,
                    "No local Whisper model is configured. Pass --model PATH or set LCRT_MODEL_PATH.",
                );
                Some(m)
            }
        },
        None => {
            if model_configured {
                None
            } else {
                Some(
                    "No local Whisper model is configured. Pass --model PATH or set LCRT_MODEL_PATH.".to_owned(),
                )
            }
        },
    }
}

/// The status shown after a session completed.
pub open spec fn completion_status(summary: RunSummary) -> Seq<char> {
    "Stopped \u{b7} "@ + decimal(summary.audio_chunks as nat) + " chunks \u{b7} "@ + decimal(
        summary.caption_updates as nat,
    ) + " captions"@
}

/// Status text for a completed session, with its chunk and caption counts.
pub fn completion_status_text(summary: &RunSummary) -> (s: String)
    ensures
        s@ == completion_status(*summary),
{
    let mut s = String::new();
    push_text(&mut s, "Stopped \u{b7} ");
    push_decimal(&mut s, summary.audio_chunks);
    push_text(&mut s, " chunks \u{b7} ");
    push_decimal(&mut s, summary.caption_updates);
    push_text(&mut s, " captions");
    s
}

/// What the window is told when a session ends: it is no longer running,
/// and either the counts of a clean stop or the error are shown.
pub open spec fn completion_notice_views(result: Result<RunSummary, String>) -> Seq<NoticeView> {
    match result {
        Ok(summary) => seq![NoticeView::Running(false), NoticeView::Status(completion_status(summary))],
        Err(message) => seq![
            NoticeView::Running(false),
            NoticeView::Status(error_status()),
            NoticeView::Error(message@),
        ],
    }
}

pub open spec fn error_status() -> Seq<char> {
    "Error"@
}

/// The notifications for the window when a session ended with `result`.
pub fn completion_notices(result: Result<RunSummary, String>) -> (v: Vec<BridgeCommand>)
    ensures
        notice_seq(v@) == completion_notice_views(result),
{
    let ghost shown = result;
    let mut v: Vec<BridgeCommand> = Vec::new();
    v.push(BridgeCommand::SetRunning(false));
    match result {
        Ok(summary) => {
            let status = completion_status_text(&summary);
            v.push(BridgeCommand::SetStatus(status));
        },
        Err(message) => {
            v.push(BridgeCommand::SetStatus("Error".to_owned()));
            v.push(BridgeCommand::ShowError(message));
        },
    }
    assert(notice_seq(v@) =~= completion_notice_views(shown));
    v
}

pub open spec fn result_channel_lost_message() -> Seq<char> {
    "caption pipeline result channel disconnected"@
}

pub open spec fn session_worker_panicked_message() -> Seq<char> {
    "caption pipeline worker panicked"@
}

/// The result of a session whose worker was joined: `received` is what its
/// result channel held, `None` when the channel closed without a result. A
/// worker that panicked outweighs whatever it sent.
pub fn completed_session_result(received: Option<Result<RunSummary, String>>, worker_panicked: bool) -> (r:
    Result<RunSummary, String>)
    ensures
        worker_panicked ==> (r matches Err(m) && m@ == session_worker_panicked_message()),
        !worker_panicked && received is None ==> (r matches Err(m) && m@
            == result_channel_lost_message()),
        !worker_panicked && received is Some ==> r == received->0,
{
    if worker_panicked {
        return Err("caption pipeline worker panicked".to_owned());
    }
    match received {
        Some(result) => result,
        None => Err("caption pipeline result channel disconnected".to_owned()),
    }
}

/// What the program must do next on the controller's behalf.
#[derive(Debug)]
pub enum ControllerCommand {
    /// Keep waiting for actions and session results.
    Continue,
    /// Start a caption session, then report `session_started` or
    /// `session_failed_to_start`.
    StartSession {
        source: AudioSourceDescriptor,
        model_path: ModelPath,
        language: Option<String>,
    },
    /// Ask the running session to stop; its result arrives later.
    CancelSession,
    /// The controller has ended; cancel the running session first when
    /// `cancel_session`, and do not wait for it.
    Finish { outcome: ControllerOutcome, cancel_session: bool },
}

/// The outcome of a controller that ends without a finished smoke run.
pub open spec fn shutdown_outcome(smoke: bool) -> ControllerOutcome {
    if smoke {
        ControllerOutcome::SmokeFailed
    } else {
        ControllerOutcome::Completed
    }
}

/// Whether `i` is the first position of a source with identifier `id`.
pub open spec fn first_with_id(
    sources: Seq<(Seq<char>, Seq<char>, AudioSourceKind)>,
    id: Seq<char>,
    i: int,
) -> bool {
    &&& 0 <= i < sources.len()
    &&& sources[i].0 == id
    &&& forall|j: int| 0 <= j < i ==> (#[trigger] sources[j]).0 != id
}

pub open spec fn has_source_with_id(
    sources: Seq<(Seq<char>, Seq<char>, AudioSourceKind)>,
    id: Seq<char>,
) -> bool {
    exists|i: int| 0 <= i < sources.len() && (#[trigger] sources[i]).0 == id
}

pub open spec fn already_running_message() -> Seq<char> {
    "Captioning is already running."@
}

pub open spec fn source_gone_message() -> Seq<char> {
    "The selected PipeWire source is no longer available."@
}

pub open spec fn loading_status() -> Seq<char> {
    "Loading model\u{2026}"@
}

pub open spec fn stopping_status() -> Seq<char> {
    "Stopping\u{2026}"@
}

/// A refused start shows `message`; a smoke run then also asks the window
/// to quit.
pub open spec fn refusal_notices(message: Seq<char>, smoke: bool) -> Seq<NoticeView> {
    if smoke {
        seq![NoticeView::Error(message), NoticeView::Quit]
    } else {
        seq![NoticeView::Error(message)]
    }
}

/// Owns the caption session's lifecycle for one application run.
///
/// What the window is to be told is collected, in order, as notifications
/// that the program takes with `take_notices` and hands to the window.
pub struct Controller {
    smoke: bool,
    model_path: Option<ModelPath>,
    language: Option<String>,
    sources: Vec<AudioSourceDescriptor>,
    notices: Vec<BridgeCommand>,
    state: ControllerState,
}

impl Controller {
    pub closed spec fn state_view(&self) -> ControllerState {
        self.state
    }

    pub closed spec fn smoke_view(&self) -> bool {
        self.smoke
    }

    pub closed spec fn model_view(&self) -> Option<ModelPath> {
        self.model_path
    }

    pub closed spec fn language_view(&self) -> Option<Seq<char>> {
        text_option_view(self.language)
    }

    pub closed spec fn sources_view(&self) -> Seq<(Seq<char>, Seq<char>, AudioSourceKind)> {
        self.sources@.map_values(|d: AudioSourceDescriptor| descriptor_view(d))
    }

    /// The notifications for the window not yet taken, oldest first.
    pub closed spec fn pending_notices(&self) -> Seq<NoticeView> {
        notice_seq(self.notices@)
    }

    /// The configuration and selectable sources stay as they were.
    pub open spec fn same_setup(&self, other: &Self) -> bool {
        &&& self.smoke_view() == other.smoke_view()
        &&& self.model_view() == other.model_view()
        &&& self.language_view() == other.language_view()
        &&& self.sources_view() == other.sources_view()
    }

    /// An idle controller for one application run, with nothing to tell the
    /// window yet.
    pub fn new(config: &AppConfig, sources: Vec<AudioSourceDescriptor>) -> (c: Self)
        ensures
            c.state_view() == ControllerState::Idle,
            c.smoke_view() == (config.smoke is Some),
            c.model_view() == config.model_path,
            c.language_view() == text_option_view(config.language),
            c.sources_view() == sources@.map_values(|d: AudioSourceDescriptor| descriptor_view(d)),
            c.pending_notices() == Seq::<NoticeView>::empty(),
    {
        let language = match &config.language {
            Some(l) => Some(l.clone()),
            None => None,
        };
        let c = Controller {
            smoke: config.smoke.is_some(),
            model_path: config.model_path,
            language,
            sources,
            notices: Vec::new(),
            state: ControllerState::Idle,
        };
        assert(c.pending_notices() =~= Seq::<NoticeView>::empty());
        c
    }

    /// The controller's lifecycle state.
    pub fn state(&self) -> (s: ControllerState)
        ensures
            s == self.state_view(),
    {
        self.state
    }

    /// Takes the notifications for the window, oldest first.
    pub fn take_notices(&mut self) -> (v: Vec<BridgeCommand>)
        ensures
            notice_seq(v@) == old(self).pending_notices(),
            final(self).pending_notices() == Seq::<NoticeView>::empty(),
            final(self).same_setup(old(self)),
            final(self).state_view() == old(self).state_view(),
    {
        let mut v: Vec<BridgeCommand> = Vec::new();
        std::mem::swap(&mut v, &mut self.notices);
        assert(self.pending_notices() =~= Seq::<NoticeView>::empty());
        v
    }

    fn notify(&mut self, command: BridgeCommand)
        ensures
            final(self).pending_notices() == old(self).pending_notices().push(notice_view(command)),
            final(self).same_setup(old(self)),
            final(self).state_view() == old(self).state_view(),
    {
        let ghost c = command;
        self.notices.push(command);
        assert(notice_seq(self.notices@) =~= notice_seq(old(self).notices@).push(notice_view(c)));
    }

    fn notify_all(&mut self, notices: Vec<BridgeCommand>)
        ensures
            final(self).pending_notices() == old(self).pending_notices() + notice_seq(notices@),
            final(self).same_setup(old(self)),
            final(self).state_view() == old(self).state_view(),
    {
        let ghost all = notices@;
        let n = notices.len();
        let mut rest = notices;
        let mut i: usize = 0;
        while rest.len() > 0
            invariant
                i <= all.len(),
                i + rest@.len() == all.len(),
                all.len() == n,
                rest@ == all.skip(i as int),
                self.same_setup(old(self)),
                self.state_view() == old(self).state_view(),
                self.pending_notices() == old(self).pending_notices() + notice_seq(all.take(i as int)),
            decreases rest.len(),
        {
            let notice = rest.remove(0);
            assert(notice == all[i as int]);
            self.notify(notice);
            assert(all.take(i + 1) =~= all.take(i as int).push(all[i as int]));
            assert(notice_seq(all.take(i + 1)) =~= notice_seq(all.take(i as int)).push(
                notice_view(all[i as int]),
            ));
            i += 1;
            assert(rest@ =~= all.skip(i as int));
        }
        assert(all.take(i as int) =~= all);
    }

    fn find_source(&self, id: &str) -> (r: Option<usize>)
        ensures
            match r {
                Some(i) => first_with_id(self.sources_view(), id@, i as int),
                None => !has_source_with_id(self.sources_view(), id@),
            },
    {
        let mut i: usize = 0;
        while i < self.sources.len()
            invariant
                i <= self.sources@.len(),
                forall|j: int| 0 <= j < i ==> (#[trigger] self.sources_view()[j]).0 != id@,
            decreases self.sources.len() - i,
        {
            if same_text(self.sources[i].id(), id) {
                return Some(i);
            }
            i += 1;
        }
        None
    }

    /// A start is refused with `message`: in a smoke run the window is asked
    /// to quit and the controller ends; otherwise it waits for the next
    /// action.
    fn refuse_start(&mut self, message: &str) -> (r: ControllerCommand)
        ensures
            final(self).same_setup(old(self)),
            final(self).state_view() == old(self).state_view(),
            final(self).pending_notices() == old(self).pending_notices() + refusal_notices(
                message@,
                old(self).smoke_view(),
            ),
            old(self).smoke_view() ==> (r matches ControllerCommand::Finish { outcome, cancel_session }
                && outcome == ControllerOutcome::SmokeFailed && !cancel_session),
            !old(self).smoke_view() ==> r is Continue,
    {
        self.notify(BridgeCommand::ShowError(message.to_owned()));
        if self.smoke {
            self.notify(BridgeCommand::Quit);
            assert(self.pending_notices() =~= old(self).pending_notices() + refusal_notices(
                message@,
                true,
            ));
            ControllerCommand::Finish { outcome: ControllerOutcome::SmokeFailed, cancel_session: false }
        } else {
            assert(self.pending_notices() =~= old(self).pending_notices() + refusal_notices(
                message@,
                false,
            ));
            ControllerCommand::Continue
        }
    }

    /// Shutdown on request or once the window's actions can no longer
    /// arrive.
    fn shut_down(&mut self) -> (r: ControllerCommand)
        ensures
            final(self).same_setup(old(self)),
            final(self).pending_notices() == old(self).pending_notices(),
            final(self).state_view() == ControllerState::Terminated,
            r matches ControllerCommand::Finish { outcome, cancel_session } && outcome
                == shutdown_outcome(old(self).smoke_view()) && cancel_session == (old(
                self,
            ).state_view() == ControllerState::Active),
    {
        let cancel_session = request_controller_shutdown(&mut self.state);
        let outcome = if self.smoke {
            ControllerOutcome::SmokeFailed
        } else {
            ControllerOutcome::Completed
        };
        ControllerCommand::Finish { outcome, cancel_session }
    }

    /// Decides what a window action leads to, and what the window is told.
    ///
    /// A start is refused while a session exists, and when the source is gone
    /// or no model is configured; a stop cancels a running session; a
    /// shutdown ends the controller.
    pub fn handle_action(&mut self, action: CaptionUiAction) -> (r: ControllerCommand)
        ensures
            final(self).same_setup(old(self)),
            match action {
                CaptionUiAction::Start { source_id } => {
                    &&& final(self).state_view() == old(self).state_view()
                    &&& if old(self).state_view() != ControllerState::Idle {
                        &&& r is Continue
                        &&& final(self).pending_notices() == old(self).pending_notices().push(
                            NoticeView::Error(already_running_message()),
                        )
                    } else if !has_source_with_id(old(self).sources_view(), source_id@)
                        || old(self).model_view() is None {
                        &&& final(self).pending_notices() == old(self).pending_notices()
                            + refusal_notices(
                            if !has_source_with_id(old(self).sources_view(), source_id@) {
                                source_gone_message()
                            } else {
                                no_model_message()
                            },
                            old(self).smoke_view(),
                        )
                        &&& if old(self).smoke_view() {
                            r matches ControllerCommand::Finish { outcome, cancel_session }
                                && outcome == ControllerOutcome::SmokeFailed && !cancel_session
                        } else {
                            r is Continue
                        }
                    } else {
                        &&& final(self).pending_notices() == old(self).pending_notices() + seq![
                            NoticeView::ClearError,
                            NoticeView::Running(true),
                            NoticeView::Status(loading_status()),
                        ]
                        &&& r matches ControllerCommand::StartSession { source, model_path, language }
                            && (exists|i: int|
                            first_with_id(old(self).sources_view(), source_id@, i)
                                && descriptor_view(source) == old(self).sources_view()[i])
                            && Some(model_path) == old(self).model_view() && text_option_view(
                            language,
                        ) == old(self).language_view()
                    }
                },
                CaptionUiAction::Stop => {
                    &&& final(self).state_view() == old(self).state_view()
                    &&& if old(self).state_view() == ControllerState::Active {
                        &&& r is CancelSession
                        &&& final(self).pending_notices() == old(self).pending_notices().push(
                            NoticeView::Status(stopping_status()),
                        )
                    } else {
                        &&& r is Continue
                        &&& final(self).pending_notices() == old(self).pending_notices()
                    }
                },
                CaptionUiAction::Shutdown => {
                    &&& final(self).state_view() == ControllerState::Terminated
                    &&& final(self).pending_notices() == old(self).pending_notices()
                    &&& r matches ControllerCommand::Finish { outcome, cancel_session } && outcome
                        == shutdown_outcome(old(self).smoke_view()) && cancel_session == (old(
                        self,
                    ).state_view() == ControllerState::Active)
                },
            },
    {
        match action {
            CaptionUiAction::Start { source_id } => {
                match self.state {
                    ControllerState::Idle => {},
                    _ => {
                        self.notify(BridgeCommand::ShowError("Captioning is already running.".to_owned()));
                        return ControllerCommand::Continue;
                    },
                }
                let index = match self.find_source(source_id.as_str()) {
                    Some(i) => i,
                    None => {
                        return self.refuse_start(
                            "The selected PipeWire source is no longer available.",
                        );
                    },
                };
                let model_path = match self.model_path {
                    Some(m) => m,
                    None => {
                        return self.refuse_start(
                            "No local Whisper model is configured. Pass --model PATH or set LCRT_MODEL_PATH.",
                        );
                    },
                };
                let ghost before = self.pending_notices();
                self.notify(BridgeCommand::ClearError);
                self.notify(BridgeCommand::SetRunning(true));
                self.notify(BridgeCommand::SetStatus("Loading model\u{2026}".to_owned()));
                assert(self.pending_notices() =~= before + seq![
                    NoticeView::ClearError,
                    NoticeView::Running(true),
                    NoticeView::Status(loading_status()),
                ]);
                let source = self.sources[index].duplicate();
                let language = match &self.language {
                    Some(l) => Some(l.clone()),
                    None => None,
                };
                proof {
                    assert(descriptor_view(source) == self.sources_view()[index as int]);
                }
                ControllerCommand::StartSession { source, model_path, language }
            },
            CaptionUiAction::Stop => {
                match self.state {
                    ControllerState::Active => {
                        self.notify(BridgeCommand::SetStatus("Stopping\u{2026}".to_owned()));
                        ControllerCommand::CancelSession
                    },
                    _ => ControllerCommand::Continue,
                }
            },
            CaptionUiAction::Shutdown => self.shut_down(),
        }
    }

    /// The window's action channel closed: the controller ends as on a
    /// shutdown request.
    pub fn actions_closed(&mut self) -> (r: ControllerCommand)
        ensures
            final(self).same_setup(old(self)),
            final(self).pending_notices() == old(self).pending_notices(),
            final(self).state_view() == ControllerState::Terminated,
            r matches ControllerCommand::Finish { outcome, cancel_session } && outcome
                == shutdown_outcome(old(self).smoke_view()) && cancel_session == (old(
                self,
            ).state_view() == ControllerState::Active),
    {
        self.shut_down()
    }

    /// The session asked for by `StartSession` is running.
    pub fn session_started(&mut self)
        ensures
            final(self).same_setup(old(self)),
            final(self).pending_notices() == old(self).pending_notices(),
            final(self).state_view() == ControllerState::Active,
    {
        self.state = ControllerState::Active;
    }

    /// The session asked for by `StartSession` could not start: the window
    /// shows that captioning stopped with an error, and the error; a smoke
    /// run asks the window to quit and ends failed.
    pub fn session_failed_to_start(&mut self, message: &str) -> (r: Option<ControllerOutcome>)
        ensures
            final(self).same_setup(old(self)),
            final(self).state_view() == old(self).state_view(),
            final(self).pending_notices() == old(self).pending_notices() + seq![
                NoticeView::Running(false),
                NoticeView::Status(error_status()),
                NoticeView::Error(message@),
            ] + if old(self).smoke_view() {
                seq![NoticeView::Quit]
            } else {
                Seq::<NoticeView>::empty()
            },
            r == (if old(self).smoke_view() {
                Some(ControllerOutcome::SmokeFailed)
            } else {
                None
            }),
    {
        let ghost before = self.pending_notices();
        self.notify(BridgeCommand::SetRunning(false));
        self.notify(BridgeCommand::SetStatus("Error".to_owned()));
        self.notify(BridgeCommand::ShowError(message.to_owned()));
        if self.smoke {
            self.notify(BridgeCommand::Quit);
            assert(self.pending_notices() =~= before + seq![
                NoticeView::Running(false),
                NoticeView::Status(error_status()),
                NoticeView::Error(message@),
            ] + seq![NoticeView::Quit]);
            Some(ControllerOutcome::SmokeFailed)
        } else {
            assert(self.pending_notices() =~= before + seq![
                NoticeView::Running(false),
                NoticeView::Status(error_status()),
                NoticeView::Error(message@),
            ] + Seq::<NoticeView>::empty());
            None
        }
    }

    /// The running session ended with `result`: the controller is idle
    /// again and the window is told how it ended; a smoke run asks the
    /// window to quit and ends here, successfully exactly when the session
    /// did.
    pub fn session_finished(&mut self, result: Result<RunSummary, String>) -> (r: Option<
        ControllerOutcome,
    >)
        ensures
            final(self).same_setup(old(self)),
            final(self).state_view() == ControllerState::Idle,
            final(self).pending_notices() == old(self).pending_notices() + completion_notice_views(
                result,
            ) + if old(self).smoke_view() {
                seq![NoticeView::Quit]
            } else {
                Seq::<NoticeView>::empty()
            },
            r == (if old(self).smoke_view() {
                Some(
                    if result is Ok {
                        ControllerOutcome::SmokeSucceeded
                    } else {
                        ControllerOutcome::SmokeFailed
                    },
                )
            } else {
                None
            }),
    {
        let ghost before = self.pending_notices();
        let ghost ended = result;
        self.state = ControllerState::Idle;
        let succeeded = result.is_ok();
        let notices = completion_notices(result);
        self.notify_all(notices);
        if self.smoke {
            self.notify(BridgeCommand::Quit);
            assert(self.pending_notices() =~= before + completion_notice_views(ended) + seq![
                NoticeView::Quit,
            ]);
            Some(
                if succeeded {
                    ControllerOutcome::SmokeSucceeded
                } else {
                    ControllerOutcome::SmokeFailed
                },
            )
        } else {
            assert(self.pending_notices() =~= before + completion_notice_views(ended)
                + Seq::<NoticeView>::empty());
            None
        }
    }
}

} // verus!
