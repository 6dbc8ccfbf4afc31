//! The caption window's deterministic demo: three fixed captions, two
//! partial and one final, published through the caption bridge. The program
//! paces them and waits for window actions between them.

use vstd::prelude::*;

use crate::bridge::{window_unavailable_message, CaptionUiAction, GtkCaptionSink};
use crate::caption::{CaptionState, CaptionStatus};
use crate::text::all_white_space;
use crate::transcription::TranscriptUpdate;
use crate::ui::CaptionSink;

verus! {

broadcast use vstd::string::group_string_axioms;

/// The demo application succeeds only when the window closed cleanly and
/// the controller finished without error.
pub fn application_succeeded(gtk_succeeded: bool, controller_outcome: Option<Result<(), String>>) -> (success: bool)
    ensures
        success == (gtk_succeeded && controller_outcome matches Some(Ok(()))),
{
    gtk_succeeded && match controller_outcome {
        Some(Ok(())) => true,
        _ => false,
    }
}

/// Number of demo captions.
pub const DEMO_CAPTIONS: usize = 3;

pub open spec fn demo_text(step: int) -> Seq<char> {
    if step == 0 {
        "Native captions"@
    } else if step == 1 {
        "Native captions update incrementally"@
    } else {
        "Native captions update incrementally on Ubuntu."@
    }
}

/// The demo caption at `step`: its text, and whether it is final (only the
/// last one is).
pub fn demo_caption(step: usize) -> (r: (&'static str, bool))
    requires
        step < DEMO_CAPTIONS,
    ensures
        r.0@ == demo_text(step as int),
        r.1 == (step == 2),
{
    if step == 0 {
        ("Native captions", false)
    } else if step == 1 {
        ("Native captions update incrementally", false)
    } else {
        ("Native captions update incrementally on Ubuntu.", true)
    }
}

/// Starts the demo: the error is cleared and captioning shows as running.
/// It fails only once the window is gone.
pub fn begin_demo(sink: &GtkCaptionSink) -> (r: Result<(), String>)
    ensures
        r matches Err(m) ==> m@ == window_unavailable_message(),
{
    match sink.clear_error() {
        Ok(()) => {},
        Err(e) => {
            return Err(e.message().to_owned());
        },
    }
    match sink.set_running(true) {
        Ok(()) => Ok(()),
        Err(e) => Err(e.message().to_owned()),
    }
}

/// Applies demo caption `step` to `state` and publishes the snapshot.
pub fn publish_demo_caption(sink: &GtkCaptionSink, state: &mut CaptionState, step: usize) -> (r:
    Result<(), String>)
    requires
        step < DEMO_CAPTIONS,
    ensures
        old(state).revision_view() < u64::MAX ==> (final(state).revision_view() == old(
            state,
        ).revision_view() + 1 && final(state).current_view() == Some(
            (
                demo_text(step as int),
                if step == 2 {
                    CaptionStatus::Final
                } else {
                    CaptionStatus::Partial
                },
            ),
        )),
        old(state).revision_view() == u64::MAX ==> (r matches Err(m) && m@
            == "caption revision counter overflowed"@),
        old(state).revision_view() < u64::MAX ==> (r matches Err(m) ==> m@
            == window_unavailable_message()),
{
    let (text, is_final) = demo_caption(step);
    proof {
        reveal_strlit("Native captions");
        reveal_strlit("Native captions update incrementally");
        reveal_strlit("Native captions update incrementally on Ubuntu.");
        assert(!all_white_space(text@)) by {
            assert(!crate::text::is_white_space(text@[0]));
        }
    }
    let update = if is_final {
        TranscriptUpdate::finalized(text)
    } else {
        TranscriptUpdate::partial(text)
    };
    let update = match update {
        Ok(update) => update,
        Err(e) => {
            return Err(e.message());
        },
    };
    let snapshot = match state.apply(update) {
        Ok(snapshot) => snapshot,
        Err(e) => {
            return Err(e.message());
        },
    };
    let mut caption_sink = sink.clone();
    match caption_sink.publish(snapshot) {
        Ok(()) => Ok(()),
        Err(e) => Err(e.message().to_owned()),
    }
}

/// Ends the demo: captioning shows as stopped. It fails only once the
/// window is gone.
pub fn end_demo(sink: &GtkCaptionSink) -> (r: Result<(), String>)
    ensures
        r matches Err(m) ==> m@ == window_unavailable_message(),
{
    match sink.set_running(false) {
        Ok(()) => Ok(()),
        Err(e) => Err(e.message().to_owned()),
    }
}

/// One bounded wait for a window action.
#[derive(Debug)]
pub enum ActionWait {
    /// The window sent an action.
    Action(CaptionUiAction),
    /// No action arrived in time.
    Timeout,
    /// The window's action channel closed.
    Disconnected,
}

/// The demo stops early on a stop or shutdown request, or once the window
/// is gone; a start request or a quiet interval lets it go on.
pub fn demo_interrupted(wait: &ActionWait) -> (stop: bool)
    ensures
        stop == (wait matches ActionWait::Action(CaptionUiAction::Stop) || wait matches ActionWait::Action(
            CaptionUiAction::Shutdown,
        ) || wait is Disconnected),
{
    match wait {
        ActionWait::Action(CaptionUiAction::Stop) | ActionWait::Action(CaptionUiAction::Shutdown)
        | ActionWait::Disconnected => true,
        ActionWait::Action(CaptionUiAction::Start { .. }) | ActionWait::Timeout => false,
    }
}

} // verus!
