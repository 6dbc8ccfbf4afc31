//! What the transcription worker does around each Whisper pass: joining the
//! segments Whisper returns into one hypothesis, and recording a finished
//! pass in the window and the transcript.

use vstd::prelude::*;

use crate::stt::error::WhisperBackendError;
use crate::stt::transcript::{assembler_step, outcome_view, TranscriptAssembler};
use crate::stt::window::{reset_model, InferenceKind, StreamingWindow, WindowModel};
use crate::text::{chars_of, push_char, push_chars, trim, trimmed_chars};
use crate::transcription::TranscriptUpdate;

verus! {

broadcast use vstd::string::group_string_axioms;

/// The hypothesis of one pass: its segments trimmed, blank ones skipped,
/// the rest joined by single spaces.
pub open spec fn segments_text(segments: Seq<Seq<char>>) -> Seq<char>
    decreases segments.len(),
{
    if segments.len() == 0 {
        seq![]
    } else {
        let before = segments_text(segments.drop_last());
        let t = trim(segments.last());
        if t.len() == 0 {
            before
        } else if before.len() == 0 {
            t
        } else {
            before + seq![' '] + t
        }
    }
}

pub open spec fn texts_view(segments: Seq<String>) -> Seq<Seq<char>> {
    segments.map_values(|s: String| s@)
}

/// Joins the segments of one Whisper pass into its hypothesis.
pub fn join_segments(segments: &Vec<String>) -> (text: String)
    ensures
        text@ == segments_text(texts_view(segments@)),
{
    let ghost all = texts_view(segments@);
    let mut text = String::new();
    let mut started = false;
    let mut i: usize = 0;
    while i < segments.len()
        invariant
            i <= segments@.len(),
            all == texts_view(segments@),
            text@ == segments_text(all.take(i as int)),
            started == (text@.len() > 0),
        decreases segments.len() - i,
    {
        let raw = chars_of(segments[i].as_str());
        let t = trimmed_chars(raw.as_slice());
        proof {
            assert(all.take(i + 1).drop_last() =~= all.take(i as int));
            assert(all.take(i + 1).last() == segments@[i as int]@);
        }
        if t.len() > 0 {
            if started {
                push_char(&mut text, ' ');
            }
            push_chars(&mut text, t.as_slice());
            started = true;
        }
        assert(text@ =~= segments_text(all.take(i + 1)));
        i += 1;
    }
    assert(all.take(segments@.len() as int) =~= all);
    text
}

/// Records a finished pass of `kind` whose hypothesis is `text`: the window
/// starts counting towards the next pass (a final pass ends its utterance),
/// and the transcript turns the hypothesis into the caption update to
/// publish, if any. Whether the window rolled since the previous pass is
/// read before it is reset.
pub fn record_inference(
    window: &mut StreamingWindow,
    transcript: &mut TranscriptAssembler,
    kind: InferenceKind,
    text: &str,
) -> (r: Result<Option<TranscriptUpdate>, WhisperBackendError>)
    requires
        old(window).wf(),
        old(transcript).wf(),
    ensures
        kind == InferenceKind::Final ==> final(window).model() == reset_model(old(window).model()),
        kind == InferenceKind::Partial ==> final(window).model() == (WindowModel {
            speech_samples_since_inference: 0,
            rolled_since_inference: false,
            ..old(window).model()
        }),
        final(window).wf(),
        ({
            let (c, p, out) = assembler_step(
                old(transcript).committed_view(),
                old(transcript).partial_view(),
                old(transcript).max_bytes_view(),
                kind,
                text@,
                old(window).model().rolled_since_inference,
            );
            &&& final(transcript).committed_view() == c
            &&& final(transcript).partial_view() == p
            &&& outcome_view(r) == out
        }),
        final(transcript).max_bytes_view() == old(transcript).max_bytes_view(),
        final(transcript).wf(),
{
    let window_rolled = window.rolled_since_inference();
    window.mark_inferred(kind);
    transcript.apply(kind, text, window_rolled)
}

/// What the worker does once it has drained its queue behind one chunk.
#[derive(Clone, Copy, Debug, PartialEq, Eq, Structural)]
pub enum WorkerStep {
    /// Flush the utterance and stop.
    Finish,
    /// Run this inference pass.
    Infer(InferenceKind),
    /// Nothing is owed; wait for the next command.
    Wait,
}

/// The pass owed after a drained chunk asked for `requested`: a new request
/// replaces the older one, and a chunk that asks for nothing keeps it.
pub fn pending_after(pending: Option<InferenceKind>, requested: Option<InferenceKind>) -> (r: Option<
    InferenceKind,
>)
    ensures
        r == (if requested is Some {
            requested
        } else {
            pending
        }),
{
    match requested {
        Some(kind) => Some(kind),
        None => pending,
    }
}

/// After draining: a finish request wins over the owed pass; otherwise the
/// owed pass runs, if there is one.
pub fn step_after_drain(finish_requested: bool, pending: Option<InferenceKind>) -> (r: WorkerStep)
    ensures
        finish_requested ==> r == WorkerStep::Finish,
        !finish_requested ==> r == (match pending {
            Some(kind) => WorkerStep::Infer(kind),
            None => WorkerStep::Wait,
        }),
{
    if finish_requested {
        WorkerStep::Finish
    } else {
        match pending {
            Some(kind) => WorkerStep::Infer(kind),
            None => WorkerStep::Wait,
        }
    }
}

} // verus!
