//! Portable audio-to-caption orchestration.

use std::sync::atomic::{AtomicBool, Ordering};
use vstd::prelude::*;

use crate::audio::{AudioCapture, AudioCaptureError, AudioInputEvent};
use crate::audio::AudioChunk;
use crate::caption::{CaptionSnapshot, CaptionState, CaptionStateError};
use crate::config::{runtime_config_check, RuntimeConfig, RuntimeConfigError};
use crate::text::{decimal, push_decimal, push_text};
use crate::transcription::{Transcriber, TranscriptUpdate, TranscriptionError};
use crate::ui::{CaptionSink, CaptionSinkError};

verus! {

/// Counts useful work completed by one bounded pipeline run.
#[derive(Clone, Copy, Debug, PartialEq, Eq, Structural)]
pub struct RunSummary {
    /// Number of audio chunks passed to transcription.
    pub audio_chunks: u64,
    /// Number of caption snapshots published to the UI.
    pub caption_updates: u64,
}

impl Default for RunSummary {
    fn default() -> (s: Self)
        ensures
            s.audio_chunks == 0,
            s.caption_updates == 0,
    {
        Self { audio_chunks: 0, caption_updates: 0 }
    }
}

/// Typed failure from a pipeline boundary.
#[derive(Debug)]
pub enum PipelineError {
    /// Runtime limits were invalid.
    Configuration(RuntimeConfigError),
    /// The audio adapter failed.
    Audio(AudioCaptureError),
    /// An adapter violated the configured per-chunk bound.
    AudioChunkTooLarge { actual_samples: usize, maximum_samples: usize },
    /// The speech-to-text backend failed.
    Transcription(TranscriptionError),
    /// Caption state could not be advanced.
    CaptionState(CaptionStateError),
    /// The native UI sink failed.
    CaptionSink(CaptionSinkError),
}

/// The message of an oversized chunk.
pub open spec fn chunk_too_large_message(actual: nat, maximum: nat) -> Seq<char> {
    "audio adapter produced "@ + decimal(actual) + " samples; configured maximum is "@ + decimal(
        maximum,
    )
}

impl PipelineError {
    /// The error message (what `to_string` shows): the boundary that failed,
    /// then the message of the error it reported.
    pub fn message(&self) -> (s: String)
        ensures
            self matches PipelineError::AudioChunkTooLarge { actual_samples, maximum_samples }
                ==> s@ == chunk_too_large_message(actual_samples as nat, maximum_samples as nat),
            self matches PipelineError::Audio(e) ==> s@ == "audio capture failed: "@
                + e.message_view(),
            self matches PipelineError::Transcription(e) ==> s@ == "transcription failed: "@
                + e.message_view(),
            self matches PipelineError::CaptionSink(e) ==> s@ == "caption UI failed: "@
                + e.message_view(),
            self matches PipelineError::CaptionState(e) ==> s@ == "caption state failed: "@
                + "caption revision counter overflowed"@,
            self matches PipelineError::Configuration(e) ==> (s@ == "invalid runtime configuration: "@
                + (if e == RuntimeConfigError::ZeroAudioPollTimeout {
                "audio poll timeout must be greater than zero"@
            } else {
                "maximum audio chunk size must be greater than zero"@
            })),
    {
        let mut s = String::new();
        match self {
            PipelineError::Configuration(e) => {
                push_text(&mut s, "invalid runtime configuration: ");
                let m = e.message();
                push_text(&mut s, m.as_str());
            },
            PipelineError::Audio(e) => {
                push_text(&mut s, "audio capture failed: ");
                push_text(&mut s, e.message());
            },
            PipelineError::AudioChunkTooLarge { actual_samples, maximum_samples } => {
                push_text(&mut s, "audio adapter produced ");
                push_decimal(&mut s, *actual_samples as u64);
                push_text(&mut s, " samples; configured maximum is ");
                push_decimal(&mut s, *maximum_samples as u64);
            },
            PipelineError::Transcription(e) => {
                push_text(&mut s, "transcription failed: ");
                push_text(&mut s, e.message());
            },
            PipelineError::CaptionState(e) => {
                push_text(&mut s, "caption state failed: ");
                let m = e.message();
                push_text(&mut s, m.as_str());
            },
            PipelineError::CaptionSink(e) => {
                push_text(&mut s, "caption UI failed: ");
                push_text(&mut s, e.message());
            },
        }
        s
    }
}

/// `AtomicBool::load` with `Acquire` ordering: whether cancellation was
/// requested. Another thread sets the flag, so any value may come back.
#[verifier::external_body]
fn cancellation_requested(cancelled: &AtomicBool) -> bool {
    cancelled.load(Ordering::Acquire)
}

/// The result of a run once the audio adapter was stopped: a capture
/// failure is kept even when stopping failed too; a failed stop after a
/// clean capture is the run's error.
pub fn result_after_stop(
    capture_result: Result<RunSummary, PipelineError>,
    stop_result: Result<(), AudioCaptureError>,
) -> (r: Result<RunSummary, PipelineError>)
    ensures
        capture_result is Err ==> r == capture_result,
        capture_result is Ok && stop_result is Ok ==> r == capture_result,
        capture_result is Ok ==> (stop_result matches Err(e) ==> r == Err::<
            RunSummary,
            PipelineError,
        >(PipelineError::Audio(e))),
{
    match (capture_result, stop_result) {
        (Ok(summary), Ok(())) => Ok(summary),
        (Err(error), Ok(())) => Err(error),
        (Ok(_), Err(stop_error)) => Err(PipelineError::Audio(stop_error)),
        (Err(error), Err(_)) => Err(error),
    }
}

/// A call the pipeline makes on one of its adapters, with what it handed
/// over and what came back.
pub enum AdapterCall {
    /// Waited for captured audio; this came back.
    ReadAudio(Result<AudioInputEvent, AudioCaptureError>),
    /// Handed this chunk to transcription; this came back.
    Transcribe(AudioChunk, Result<Vec<TranscriptUpdate>, TranscriptionError>),
    /// Published this caption snapshot; this came back.
    Publish(CaptionSnapshot, Result<(), CaptionSinkError>),
    /// Stopped the audio adapter; this came back.
    StopAudio(Result<(), AudioCaptureError>),
    /// Flushed transcription; this came back.
    Flush(Result<Vec<TranscriptUpdate>, TranscriptionError>),
}

/// A call made while capturing: a read, a transcription or a publication.
pub open spec fn is_capture_call(call: AdapterCall) -> bool {
    call is ReadAudio || call is Transcribe || call is Publish
}

/// A call made after the audio adapter stopped: the flush or a
/// publication.
pub open spec fn is_wind_down_call(call: AdapterCall) -> bool {
    call is Flush || call is Publish
}

/// One run's calls: capture, then exactly one stop of the audio adapter,
/// then at most the flush and its publications. Nothing is read from the
/// adapter once it is stopped, and transcription is flushed only after it.
pub open spec fn run_calls(calls: Seq<AdapterCall>) -> bool {
    exists|stop: int|
        0 <= stop < calls.len() && #[trigger] calls[stop] is StopAudio && (forall|j: int|
            0 <= j < stop ==> is_capture_call(#[trigger] calls[j])) && (forall|j: int|
            stop < j < calls.len() ==> is_wind_down_call(#[trigger] calls[j]))
}

/// Where a run stands.
pub enum RunPhase {
    /// Waiting for the next read; capture may also end here.
    Capturing,
    /// A chunk within the limit was read; it is to be transcribed next.
    Transcribing(AudioChunk),
    /// These updates are still to be applied and published, in order;
    /// `flushed` says whether they came from the final flush.
    Publishing { updates: Seq<TranscriptUpdate>, flushed: bool },
    /// Capture ended, cleanly (`None`) or with this error; the audio is to
    /// be stopped next.
    Stopping(Option<PipelineError>),
    /// The audio stopped cleanly after a clean capture; transcription is to
    /// be flushed next.
    Flushing,
    /// The run ended with this error.
    Failed(PipelineError),
    /// The run ended successfully.
    Succeeded,
}

/// A run's state: its phase, the caption revision, and how many chunks
/// were handed to transcription and captions published so far.
pub struct RunState {
    pub phase: RunPhase,
    pub revision: nat,
    pub chunks: nat,
    pub captions: nat,
}

/// A run of a pipeline at caption revision `revision`, before any call.
pub open spec fn run_start(revision: nat) -> RunState {
    RunState { phase: RunPhase::Capturing, revision, chunks: 0, captions: 0 }
}

/// Leaves the publishing phase where no adapter call is owed: once every
/// update is published, capture goes on (or, after the flush, the run
/// succeeds); when the revision counter is exhausted, applying the next
/// update fails.
pub open spec fn settle(s: RunState) -> RunState {
    match s.phase {
        RunPhase::Publishing { updates, flushed } => if updates.len() == 0 {
            RunState {
                phase: if flushed {
                    RunPhase::Succeeded
                } else {
                    RunPhase::Capturing
                },
                ..s
            }
        } else if s.revision >= u64::MAX {
            let e = PipelineError::CaptionState(CaptionStateError::RevisionOverflow);
            RunState {
                phase: if flushed {
                    RunPhase::Failed(e)
                } else {
                    RunPhase::Stopping(Some(e))
                },
                ..s
            }
        } else {
            s
        },
        _ => s,
    }
}

/// What a run does with the response to one adapter call, or `None` when
/// the run would not make that call in that state:
/// - a read error, or a chunk over `max` samples, ends capture with that
///   error; a chunk within the limit is to be transcribed; an idle read
///   changes nothing; the end of the stream ends capture cleanly;
/// - the chunk just read is transcribed, and the updates that come back are
///   applied and published in order; a transcription error ends capture;
/// - each publication carries the snapshot that applying the next update
///   gives, at the next revision; a sink error ends capture (or, after the
///   flush, the run);
/// - the stop of the audio ends a failed capture with its error; after a
///   clean capture a stop error ends the run, and a clean stop is followed by
///   the flush, whose updates are published in turn, or whose error ends the
///   run.
pub open spec fn step(s: RunState, call: AdapterCall, max: usize) -> Option<RunState> {
    match s.phase {
        RunPhase::Capturing => match call {
            AdapterCall::ReadAudio(Err(e)) => Some(
                RunState { phase: RunPhase::Stopping(Some(PipelineError::Audio(e))), ..s },
            ),
            AdapterCall::ReadAudio(Ok(AudioInputEvent::Chunk(c))) => Some(
                if c.samples_view().len() > max {
                    RunState {
                        phase: RunPhase::Stopping(
                            Some(
                                PipelineError::AudioChunkTooLarge {
                                    actual_samples: c.samples_view().len() as usize,
                                    maximum_samples: max,
                                },
                            ),
                        ),
                        ..s
                    }
                } else {
                    RunState { phase: RunPhase::Transcribing(c), chunks: s.chunks + 1, ..s }
                },
            ),
            AdapterCall::ReadAudio(Ok(AudioInputEvent::Idle)) => Some(s),
            AdapterCall::ReadAudio(Ok(AudioInputEvent::EndOfStream)) => Some(
                RunState { phase: RunPhase::Stopping(None), ..s },
            ),
            AdapterCall::StopAudio(result) => Some(stopped(s, result)),
            _ => None,
        },
        RunPhase::Stopping(None) => match call {
            AdapterCall::StopAudio(result) => Some(stopped(s, result)),
            _ => None,
        },
        RunPhase::Stopping(Some(e)) => match call {
            AdapterCall::StopAudio(_) => Some(RunState { phase: RunPhase::Failed(e), ..s }),
            _ => None,
        },
        RunPhase::Transcribing(chunk) => match call {
            AdapterCall::Transcribe(c, result) => if c == chunk {
                Some(
                    match result {
                        Ok(updates) => settle(
                            RunState {
                                phase: RunPhase::Publishing { updates: updates@, flushed: false },
                                ..s
                            },
                        ),
                        Err(e) => RunState {
                            phase: RunPhase::Stopping(Some(PipelineError::Transcription(e))),
                            ..s
                        },
                    },
                )
            } else {
                None
            },
            _ => None,
        },
        RunPhase::Publishing { updates, flushed } => match call {
            AdapterCall::Publish(snapshot, result) => if updates.len() > 0 && s.revision
                < u64::MAX && snapshot.revision_view() == s.revision + 1
                && snapshot.text_view() == updates[0].text_view() && snapshot.status_view()
                == updates[0].status_view() {
                Some(
                    match result {
                        Ok(()) => settle(
                            RunState {
                                phase: RunPhase::Publishing {
                                    updates: updates.drop_first(),
                                    flushed,
                                },
                                revision: s.revision + 1,
                                captions: s.captions + 1,
                                ..s
                            },
                        ),
                        Err(e) => RunState {
                            phase: if flushed {
                                RunPhase::Failed(PipelineError::CaptionSink(e))
                            } else {
                                RunPhase::Stopping(Some(PipelineError::CaptionSink(e)))
                            },
                            revision: s.revision + 1,
                            ..s
                        },
                    },
                )
            } else {
                None
            },
            _ => None,
        },
        RunPhase::Flushing => match call {
            AdapterCall::Flush(Ok(updates)) => Some(
                settle(
                    RunState {
                        phase: RunPhase::Publishing { updates: updates@, flushed: true },
                        ..s
                    },
                ),
            ),
            AdapterCall::Flush(Err(e)) => Some(
                RunState { phase: RunPhase::Failed(PipelineError::Transcription(e)), ..s },
            ),
            _ => None,
        },
        _ => None,
    }
}

/// After a clean capture, the stop of the audio: a clean stop leads to the
/// flush, a failed one ends the run with its error.
pub open spec fn stopped(s: RunState, result: Result<(), AudioCaptureError>) -> RunState {
    match result {
        Ok(()) => RunState { phase: RunPhase::Flushing, ..s },
        Err(e) => RunState { phase: RunPhase::Failed(PipelineError::Audio(e)), ..s },
    }
}

/// The state a run reaches from `start` through `calls`, or `None` when the
/// calls are not ones a run makes.
pub open spec fn replay(start: RunState, calls: Seq<AdapterCall>, max: usize) -> Option<RunState>
    decreases calls.len(),
{
    if calls.len() == 0 {
        Some(start)
    } else {
        match replay(start, calls.drop_last(), max) {
            Some(s) => step(s, calls.last(), max),
            None => None,
        }
    }
}

/// `n`, or `u64::MAX` where `n` is larger: a counter that saturates.
pub open spec fn saturating_count(n: nat) -> nat {
    if n > u64::MAX {
        u64::MAX as nat
    } else {
        n
    }
}

/// The summary of a run in state `s`: the chunks handed to transcription
/// (saturating at `u64::MAX`) and the captions published.
pub open spec fn summary_of(s: RunState) -> RunSummary {
    RunSummary {
        audio_chunks: saturating_count(s.chunks) as u64,
        caption_updates: s.captions as u64,
    }
}

/// What a run that ended in state `s` returns.
pub open spec fn run_result(s: RunState) -> Option<Result<RunSummary, PipelineError>> {
    match s.phase {
        RunPhase::Failed(e) => Some(Err(e)),
        RunPhase::Succeeded => Some(Ok(summary_of(s))),
        _ => None,
    }
}

/// A call appended to the record moves the run by one step.
proof fn lemma_replay_push(
    start: RunState,
    calls: Seq<AdapterCall>,
    call: AdapterCall,
    from: int,
    max: usize,
)
    requires
        0 <= from <= calls.len(),
    ensures
        replay(start, calls.push(call).skip(from), max) == match replay(
            start,
            calls.skip(from),
            max,
        ) {
            Some(s) => step(s, call, max),
            None => None,
        },
{
    assert(calls.push(call).skip(from) =~= calls.skip(from).push(call));
    assert(calls.skip(from).push(call).drop_last() =~= calls.skip(from));
}

/// Portable caption application pipeline.
pub struct CaptionPipeline<A, T, U> {
    audio: A,
    transcriber: T,
    sink: U,
    captions: CaptionState,
    config: RuntimeConfig,
    /// Every adapter call made so far, in order, with what came back.
    calls: Ghost<Seq<AdapterCall>>,
}

impl<A: AudioCapture, T: Transcriber, U: CaptionSink> CaptionPipeline<A, T, U> {
    /// The pipeline's runtime limits.
    pub closed spec fn config_view(&self) -> RuntimeConfig {
        self.config
    }

    /// Caption updates applied so far.
    pub closed spec fn revision_view(&self) -> u64 {
        self.captions.revision_view()
    }

    /// The adapter calls made so far.
    pub closed spec fn calls_view(&self) -> Seq<AdapterCall> {
        self.calls@
    }

    /// This pipeline's calls begin with those of `earlier`.
    pub open spec fn extends(&self, earlier: &Self) -> bool {
        &&& earlier.calls_view().len() <= self.calls_view().len()
        &&& forall|j: int|
            0 <= j < earlier.calls_view().len() ==> #[trigger] self.calls_view()[j]
                == earlier.calls_view()[j]
    }

    /// Every call made since `earlier` was made while capturing.
    pub open spec fn captured_since(&self, earlier: &Self) -> bool {
        forall|j: int|
            earlier.calls_view().len() <= j < self.calls_view().len() ==> is_capture_call(
                #[trigger] self.calls_view()[j],
            )
    }

    /// Every call made since `earlier` was a publication.
    pub open spec fn published_since(&self, earlier: &Self) -> bool {
        forall|j: int|
            earlier.calls_view().len() <= j < self.calls_view().len() ==> #[trigger] self.calls_view()[j] is Publish
    }

    /// The calls made since `earlier`.
    pub open spec fn calls_since(&self, earlier: &Self) -> Seq<AdapterCall> {
        self.calls_view().skip(earlier.calls_view().len() as int)
    }

    fn record(&mut self, call: Ghost<AdapterCall>)
        ensures
            final(self).calls_view() == old(self).calls_view().push(call@),
            final(self).config_view() == old(self).config_view(),
            final(self).revision_view() == old(self).revision_view(),
    {
        self.calls = Ghost(self.calls@.push(call@));
    }

    /// Creates a validated pipeline from concrete platform adapters.
    pub fn new(audio: A, transcriber: T, sink: U, config: RuntimeConfig) -> (r: Result<
        Self,
        PipelineError,
    >)
        ensures
            match runtime_config_check(config) {
                Ok(()) => r matches Ok(p) && p.config_view() == config && p.revision_view() == 0
                    && p.calls_view().len() == 0,
                Err(e) => r matches Err(PipelineError::Configuration(x)) && x == e,
            },
    {
        match config.validate() {
            Ok(()) => {},
            Err(e) => {
                return Err(PipelineError::Configuration(e));
            },
        }
        Ok(
            Self {
                audio,
                transcriber,
                sink,
                captions: CaptionState::new(),
                config,
                calls: Ghost(Seq::empty()),
            },
        )
    }

    fn publish(&mut self, snapshot: CaptionSnapshot) -> (r: Result<(), CaptionSinkError>)
        ensures
            final(self).calls_view() == old(self).calls_view().push(
                AdapterCall::Publish(snapshot, r),
            ),
            final(self).config_view() == old(self).config_view(),
            final(self).revision_view() == old(self).revision_view(),
    {
        let ghost shown = snapshot;
        let r = self.sink.publish(snapshot);
        self.record(Ghost(AdapterCall::Publish(shown, r)));
        r
    }

    fn read_audio(&mut self) -> (r: Result<AudioInputEvent, AudioCaptureError>)
        ensures
            final(self).calls_view() == old(self).calls_view().push(AdapterCall::ReadAudio(r)),
            final(self).config_view() == old(self).config_view(),
            final(self).revision_view() == old(self).revision_view(),
    {
        let r = self.audio.next_event(self.config.audio_poll_timeout);
        self.record(Ghost(AdapterCall::ReadAudio(r)));
        r
    }

    fn transcribe(&mut self, chunk: AudioChunk) -> (r: Result<Vec<TranscriptUpdate>, TranscriptionError>)
        ensures
            final(self).calls_view() == old(self).calls_view().push(
                AdapterCall::Transcribe(chunk, r),
            ),
            final(self).config_view() == old(self).config_view(),
            final(self).revision_view() == old(self).revision_view(),
    {
        let ghost handed = chunk;
        let r = self.transcriber.push_audio(chunk);
        self.record(Ghost(AdapterCall::Transcribe(handed, r)));
        r
    }

    fn stop_audio(&mut self) -> (r: Result<(), AudioCaptureError>)
        ensures
            final(self).calls_view() == old(self).calls_view().push(AdapterCall::StopAudio(r)),
            final(self).config_view() == old(self).config_view(),
            final(self).revision_view() == old(self).revision_view(),
    {
        let r = self.audio.stop();
        self.record(Ghost(AdapterCall::StopAudio(r)));
        r
    }

    fn flush(&mut self) -> (r: Result<Vec<TranscriptUpdate>, TranscriptionError>)
        ensures
            final(self).calls_view() == old(self).calls_view().push(AdapterCall::Flush(r)),
            final(self).config_view() == old(self).config_view(),
            final(self).revision_view() == old(self).revision_view(),
    {
        let r = self.transcriber.finish();
        self.record(Ghost(AdapterCall::Flush(r)));
        r
    }

    /// Applies `updates` in order, publishing each snapshot and counting it,
    /// as the run from `start` at position `from` of the record does in its
    /// publishing phase.
    fn publish_updates(
        &mut self,
        updates: Vec<TranscriptUpdate>,
        summary: &mut RunSummary,
        Ghost(start): Ghost<RunState>,
        Ghost(from): Ghost<int>,
        Ghost(chunks): Ghost<nat>,
        Ghost(flushed): Ghost<bool>,
    ) -> (r: Result<(), PipelineError>)
        requires
            0 <= from <= old(self).calls_view().len(),
            replay(start, old(self).calls_view().skip(from), old(self).config_view().max_audio_chunk_samples)
                == Some(
                settle(
                    RunState {
                        phase: RunPhase::Publishing { updates: updates@, flushed },
                        revision: old(self).revision_view() as nat,
                        chunks,
                        captions: old(summary).caption_updates as nat,
                    },
                ),
            ),
            old(summary).caption_updates <= old(self).revision_view(),
        ensures
            final(self).config_view() == old(self).config_view(),
            final(self).extends(old(self)),
            final(self).published_since(old(self)),
            final(summary).audio_chunks == old(summary).audio_chunks,
            final(summary).caption_updates <= final(self).revision_view(),
            replay(start, final(self).calls_view().skip(from), old(self).config_view().max_audio_chunk_samples)
                == Some(
                RunState {
                    phase: match r {
                        Ok(()) => if flushed {
                            RunPhase::Succeeded
                        } else {
                            RunPhase::Capturing
                        },
                        Err(e) => if flushed {
                            RunPhase::Failed(e)
                        } else {
                            RunPhase::Stopping(Some(e))
                        },
                    },
                    revision: final(self).revision_view() as nat,
                    chunks,
                    captions: final(summary).caption_updates as nat,
                },
            ),
    {
        let n = updates.len();
        let ghost all = updates@;
        let ghost max = old(self).config_view().max_audio_chunk_samples;
        let mut pending = updates;
        let mut i: usize = 0;
        assert(all.skip(0) =~= all);
        while i < n
            invariant
                n == all.len(),
                0 <= i <= n,
                pending@ == all.skip(i as int),
                0 <= from <= self.calls_view().len(),
                max == old(self).config_view().max_audio_chunk_samples,
                self.config_view() == old(self).config_view(),
                self.extends(old(self)),
                self.published_since(old(self)),
                summary.audio_chunks == old(summary).audio_chunks,
                summary.caption_updates <= self.revision_view(),
                replay(start, self.calls_view().skip(from), max) == Some(
                    settle(
                        RunState {
                            phase: RunPhase::Publishing { updates: all.skip(i as int), flushed },
                            revision: self.revision_view() as nat,
                            chunks,
                            captions: summary.caption_updates as nat,
                        },
                    ),
                ),
            decreases n - i,
        {
            let update = pending.remove(0);
            assert(update == all[i as int]);
            let ghost before = self.calls_view();
            let ghost revision = self.revision_view() as nat;
            let ghost captions = summary.caption_updates as nat;
            match self.captions.apply(update) {
                Ok(snapshot) => {
                    let ghost shown = snapshot;
                    let result = self.publish(snapshot);
                    proof {
                        lemma_replay_push(start, before, AdapterCall::Publish(shown, result), from, max);
                        assert(all.skip(i as int).drop_first() =~= all.skip(i + 1));
                    }
                    match result {
                        Ok(()) => {},
                        Err(e) => {
                            return Err(PipelineError::CaptionSink(e));
                        },
                    }
                },
                Err(e) => {
                    return Err(PipelineError::CaptionState(e));
                },
            }
            summary.caption_updates = summary.caption_updates + 1;
            i += 1;
            assert(pending@ =~= all.skip(i as int));
        }
        proof {
            assert(all.skip(n as int) =~= Seq::<TranscriptUpdate>::empty());
        }
        Ok(())
    }

    /// Captures and transcribes until cancellation, end of stream, or an
    /// error. After `u64::MAX` polls the run ends as if it had been
    /// cancelled.
    fn capture_until_stopped(&mut self, cancelled: &AtomicBool) -> (r: Result<
        RunSummary,
        PipelineError,
    >)
        ensures
            final(self).config_view() == old(self).config_view(),
            final(self).extends(old(self)),
            final(self).captured_since(old(self)),
            replay(
                run_start(old(self).revision_view() as nat),
                final(self).calls_since(old(self)),
                old(self).config_view().max_audio_chunk_samples,
            ) matches Some(s) && s.revision == final(self).revision_view() && match r {
                Ok(summary) => (s.phase is Capturing || s.phase == RunPhase::Stopping(None))
                    && summary == summary_of(s) && s.captions == summary.caption_updates
                    && s.captions <= s.revision,
                Err(e) => s.phase == RunPhase::Stopping(Some(e)),
            },
    {
        let mut summary = RunSummary::default();
        let mut polls: u64 = 0;
        let mut ended = false;
        let ghost from = old(self).calls_view().len() as int;
        let ghost max = old(self).config_view().max_audio_chunk_samples;
        let ghost start = run_start(old(self).revision_view() as nat);
        let ghost mut chunks: nat = 0;
        proof {
            assert(self.calls_view().skip(from) =~= Seq::<AdapterCall>::empty());
        }
        while !ended && polls < u64::MAX && !cancellation_requested(cancelled)
            invariant
                from == old(self).calls_view().len(),
                max == old(self).config_view().max_audio_chunk_samples,
                start == run_start(old(self).revision_view() as nat),
                self.config_view() == old(self).config_view(),
                self.extends(old(self)),
                self.captured_since(old(self)),
                summary.caption_updates <= self.revision_view(),
                summary.audio_chunks == saturating_count(chunks),
                replay(start, self.calls_view().skip(from), max) == Some(
                    RunState {
                        phase: if ended {
                            RunPhase::Stopping(None)
                        } else {
                            RunPhase::Capturing
                        },
                        revision: self.revision_view() as nat,
                        chunks,
                        captions: summary.caption_updates as nat,
                    },
                ),
            decreases u64::MAX - polls,
        {
            polls = polls + 1;
            let ghost before_read = self.calls_view();
            let read = self.read_audio();
            proof {
                lemma_replay_push(start, before_read, AdapterCall::ReadAudio(read), from, max);
            }
            let event = match read {
                Ok(event) => event,
                Err(e) => {
                    return Err(PipelineError::Audio(e));
                },
            };
            match event {
                AudioInputEvent::Chunk(chunk) => {
                    let samples = chunk.sample_count();
                    if samples > self.config.max_audio_chunk_samples {
                        return Err(
                            PipelineError::AudioChunkTooLarge {
                                actual_samples: samples,
                                maximum_samples: self.config.max_audio_chunk_samples,
                            },
                        );
                    }
                    summary.audio_chunks = summary.audio_chunks.saturating_add(1);
                    proof {
                        chunks = chunks + 1;
                    }
                    let ghost after_read = self.calls_view();
                    let ghost handed = chunk;
                    let transcribed = self.transcribe(chunk);
                    proof {
                        lemma_replay_push(
                            start,
                            after_read,
                            AdapterCall::Transcribe(handed, transcribed),
                            from,
                            max,
                        );
                    }
                    let updates = match transcribed {
                        Ok(updates) => updates,
                        Err(e) => {
                            return Err(PipelineError::Transcription(e));
                        },
                    };
                    match self.publish_updates(
                        updates,
                        &mut summary,
                        Ghost(start),
                        Ghost(from),
                        Ghost(chunks),
                        Ghost(false),
                    ) {
                        Ok(()) => {},
                        Err(e) => {
                            return Err(e);
                        },
                    }
                },
                AudioInputEvent::Idle => {},
                AudioInputEvent::EndOfStream => {
                    ended = true;
                },
            }
        }
        Ok(summary)
    }

    /// Runs until cancellation, clean end-of-stream, or an adapter error.
    ///
    /// The pipeline's record of adapter calls, with what each handed over and
    /// got back, is one run as [`step`] describes it, and the result is the
    /// one that run ends with. So the audio adapter is stopped exactly once,
    /// after capture, also when capture failed; every chunk read within the
    /// limit is transcribed, and every update transcription returns is
    /// applied and published as the next caption revision; a capture error
    /// is returned even when stopping fails too, a stop error after a clean
    /// capture is returned, and only a clean stop is followed by the flush,
    /// whose updates are published in turn; a run without errors succeeds,
    /// counting the chunks transcribed and the captions published.
    pub fn run(&mut self, cancelled: &AtomicBool) -> (r: Result<RunSummary, PipelineError>)
        ensures
            final(self).extends(old(self)),
            final(self).config_view() == old(self).config_view(),
            run_calls(final(self).calls_since(old(self))),
            replay(
                run_start(old(self).revision_view() as nat),
                final(self).calls_since(old(self)),
                old(self).config_view().max_audio_chunk_samples,
            ) matches Some(s) && run_result(s) == Some(r),
    {
        let ghost start = self.calls_view();
        let ghost from = start.len() as int;
        let ghost max = self.config_view().max_audio_chunk_samples;
        let ghost init = run_start(self.revision_view() as nat);
        let capture_result = self.capture_until_stopped(cancelled);
        let ghost captured = self.calls_view();
        let ghost after_capture = replay(init, captured.skip(from), max)->0;
        let stop_result = self.stop_audio();
        let ghost stop = self.calls_view().len() - 1;
        proof {
            lemma_replay_push(init, captured, AdapterCall::StopAudio(stop_result), from, max);
        }
        let mut summary = match result_after_stop(capture_result, stop_result) {
            Ok(summary) => summary,
            Err(e) => {
                proof {
                    lemma_run_calls(start, self.calls_view(), stop);
                }
                return Err(e);
            },
        };
        let ghost stopped_calls = self.calls_view();
        let flushed = self.flush();
        proof {
            lemma_replay_push(init, stopped_calls, AdapterCall::Flush(flushed), from, max);
        }
        let final_updates = match flushed {
            Ok(updates) => updates,
            Err(e) => {
                proof {
                    lemma_run_calls(start, self.calls_view(), stop);
                }
                return Err(PipelineError::Transcription(e));
            },
        };
        let r = match self.publish_updates(
            final_updates,
            &mut summary,
            Ghost(init),
            Ghost(from),
            Ghost(after_capture.chunks),
            Ghost(true),
        ) {
            Ok(()) => Ok(summary),
            Err(e) => Err(e),
        };
        proof {
            lemma_run_calls(start, self.calls_view(), stop);
        }
        r
    }
}

/// Calls that extend `start` with capture calls up to `stop`, the stop
/// there, and wind-down calls after it form a run.
proof fn lemma_run_calls(start: Seq<AdapterCall>, end: Seq<AdapterCall>, stop: int)
    requires
        start.len() <= stop < end.len(),
        end[stop] is StopAudio,
        forall|j: int| start.len() <= j < stop ==> is_capture_call(#[trigger] end[j]),
        forall|j: int| stop < j < end.len() ==> is_wind_down_call(#[trigger] end[j]),
    ensures
        run_calls(end.skip(start.len() as int)),
{
    let calls = end.skip(start.len() as int);
    let at = stop - start.len();
    assert(calls[at] == end[stop]);
    assert forall|j: int| 0 <= j < at implies is_capture_call(#[trigger] calls[j]) by {
        assert(calls[j] == end[start.len() + j]);
    }
    assert forall|j: int| at < j < calls.len() implies is_wind_down_call(#[trigger] calls[j]) by {
        assert(calls[j] == end[start.len() + j]);
    }
}

/// An idle read, a poll that timed out without audio, changes nothing in a
/// capturing run: any number of them leaves the run exactly where it was.
pub proof fn law_idle_reads_change_nothing(s: RunState, calls: Seq<AdapterCall>, max: usize)
    requires
        s.phase is Capturing,
        forall|j: int| 0 <= j < calls.len() ==> #[trigger] calls[j] == AdapterCall::ReadAudio(
            Ok(AudioInputEvent::Idle),
        ),
    ensures
        replay(s, calls, max) == Some(s),
    decreases calls.len(),
{
    if calls.len() > 0 {
        let rest = calls.drop_last();
        assert forall|j: int| 0 <= j < rest.len() implies #[trigger] rest[j]
            == AdapterCall::ReadAudio(Ok(AudioInputEvent::Idle)) by {
            assert(rest[j] == calls[j]);
        }
        law_idle_reads_change_nothing(s, rest, max);
        assert(calls.last() == calls[calls.len() - 1]);
    }
}

/// A capturing run stops capturing only for a reason: a read error, the end
/// of the stream, a chunk over the limit, or a stop of the audio
/// (cancellation). Every other read keeps capturing or hands the chunk to
/// transcription.
pub proof fn law_capture_ends_only_for_a_reason(s: RunState, call: AdapterCall, max: usize)
    requires
        s.phase is Capturing,
    ensures
        step(s, call, max) matches Some(next) && !(next.phase is Capturing)
            && !(next.phase is Transcribing) ==> (call matches AdapterCall::ReadAudio(Err(_)))
            || call == AdapterCall::ReadAudio(Ok(AudioInputEvent::EndOfStream))
            || (call matches AdapterCall::ReadAudio(Ok(AudioInputEvent::Chunk(c)))
            && c.samples_view().len() > max) || call is StopAudio,
{
}

} // verus!
