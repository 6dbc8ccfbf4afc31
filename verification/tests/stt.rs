use std::path::PathBuf;
use std::time::Duration;

use lcrt::capture::error::PipeWireError;
use lcrt::caption::CaptionStatus;
use lcrt::startup::{capture_startup, model_startup, CaptureStartup, ModelStartup, StartupWait};
use lcrt::stt::command::{parse_transcribe_arguments, TranscribeCommand, TranscribeInput};
use lcrt::stt::error::WhisperBackendError;
use lcrt::stt::limits::WhisperLimits;
use lcrt::stt::link::{
    finish_offer_outcome, AudioOffer, CommandOffer, Drained, EventPoll, FinishOffer, FlushStep,
    Pushed, WorkerCommand, WorkerEvent,
};
use lcrt::stt::report::{escape_json, paced_chunk_frames, BenchmarkMode, TranscriptMetrics};
use lcrt::stt::transcript::TranscriptAssembler;
use lcrt::stt::wav::{wav_encoding, wav_frames_check, WavEncoding};
use lcrt::stt::window::{inference_due_before_drain, InferenceKind, StreamingWindow, WindowLimits};
use lcrt::stt::worker::{
    join_segments, pending_after, record_inference, step_after_drain, WorkerStep,
};
use lcrt::transcription::TranscriptUpdate;

/// A 2 s window, 500 ms partial step, 250 ms minimum speech and 300 ms final
/// silence, at 16 kHz.
fn test_limits() -> WindowLimits {
    WindowLimits {
        max_samples: 32_000,
        step_samples: 8_000,
        minimum_samples: 4_000,
        final_silence_samples: 4_800,
    }
}

/// Pushes `count` samples of `level`; with a 0.01 RMS gate a level of 0.1 is
/// speech and 0.0 is silence.
fn push(window: &mut StreamingWindow, level: f32, count: usize) -> Option<InferenceKind> {
    let contains_speech = level * level >= 0.01 * 0.01;
    window.push(&vec![level.to_bits(); count], contains_speech)
}

#[test]
fn emits_partial_then_final_after_bounded_silence() {
    let mut window = StreamingWindow::new(test_limits());

    assert_eq!(push(&mut window, 0.1, 8_000), Some(InferenceKind::Partial));
    window.mark_inferred(InferenceKind::Partial);
    assert_eq!(push(&mut window, 0.0, 4_800), Some(InferenceKind::Final));
    window.mark_inferred(InferenceKind::Final);
    assert!(window.samples().is_empty());
}

#[test]
fn rolling_window_never_exceeds_configured_bound() {
    let mut window = StreamingWindow::new(test_limits());
    push(&mut window, 0.1, 48_000);

    assert_eq!(window.samples().len(), 32_000);
}

#[test]
fn leading_silence_does_not_satisfy_speech_or_step_gates() {
    let mut window = StreamingWindow::new(test_limits());

    assert_eq!(push(&mut window, 0.0, 32_000), None);
    assert!(window.samples().is_empty());
    assert_eq!(push(&mut window, 0.1, 4_000), None);
    assert_eq!(push(&mut window, 0.0, 1_600), None);
    assert_eq!(push(&mut window, 0.1, 4_000), Some(InferenceKind::Partial));
}

#[test]
fn short_speech_is_discarded_after_final_silence() {
    let mut window = StreamingWindow::new(test_limits());

    assert_eq!(push(&mut window, 0.1, 1_600), None);
    assert_eq!(push(&mut window, 0.0, 4_800), None);
    assert!(window.samples().is_empty());
    assert_eq!(window.finish_kind(), None);
}

#[test]
fn backlog_drain_stops_before_a_pending_partial_loses_audio() {
    let mut window = StreamingWindow::new(test_limits());
    let mut pending_kind = None;
    let mut drained_chunks = 0;

    while !inference_due_before_drain(pending_kind, &window) {
        if let Some(kind) = push(&mut window, 0.1, 4_000) {
            pending_kind = Some(kind);
        }
        drained_chunks += 1;
    }

    assert_eq!(pending_kind, Some(InferenceKind::Partial));
    assert_eq!(drained_chunks, 8);
    assert!(window.is_at_capacity());
    assert!(!window.rolled_since_inference());
}

#[test]
fn continuous_speech_beyond_window_preserves_accepted_beginning() {
    let mut window = StreamingWindow::new(test_limits());
    let mut transcript = TranscriptAssembler::new(16 * 1_024);
    let hypotheses = [
        "zero",
        "zero one",
        "zero one two",
        "zero one two three",
        "one two three four",
        "two three four five",
    ];
    let mut last = None;

    for hypothesis in hypotheses {
        let kind = push(&mut window, 0.1, 8_000).unwrap();
        let rolled = window.rolled_since_inference();
        window.mark_inferred(kind);
        last = transcript
            .apply(kind, hypothesis, rolled)
            .unwrap()
            .or(last);
    }

    let last = last.unwrap();
    assert_eq!(window.samples().len(), 32_000);
    assert_eq!(last.text(), "zero one two three four five");
    assert_eq!(last.stable_text(), "zero one");
}

#[test]
fn recorded_inference_resets_the_window_and_updates_the_transcript() {
    let mut window = StreamingWindow::new(test_limits());
    let mut transcript = TranscriptAssembler::new(256);
    let kind = push(&mut window, 0.1, 8_000).unwrap();
    assert_eq!(kind, InferenceKind::Partial);

    let update = record_inference(&mut window, &mut transcript, kind, "  hello there ")
        .unwrap()
        .unwrap();
    assert_eq!(update.text(), "hello there");
    assert_eq!(update.status(), CaptionStatus::Partial);
    assert_eq!(window.samples().len(), 8_000);
    assert!(!window.rolled_since_inference());

    let update = record_inference(&mut window, &mut transcript, InferenceKind::Final, "")
        .unwrap()
        .unwrap();
    assert_eq!(update.text(), "hello there");
    assert_eq!(update.status(), CaptionStatus::Final);
    assert!(window.samples().is_empty());
}

#[test]
fn whisper_segments_are_trimmed_and_joined_by_single_spaces() {
    let segments = vec![
        " Hello".to_owned(),
        "   ".to_owned(),
        "world. ".to_owned(),
        String::new(),
        "\tAgain".to_owned(),
    ];
    assert_eq!(join_segments(&segments), "Hello world. Again");
    assert_eq!(join_segments(&Vec::new()), "");
}

#[test]
fn calculates_audio_duration_and_paced_chunk_frames() {
    assert_eq!(paced_chunk_frames(16_000), 320);
    assert_eq!(paced_chunk_frames(48_000), 960);
}

#[test]
fn paced_chunks_hold_at_least_one_frame() {
    assert_eq!(paced_chunk_frames(1), 1);
    assert_eq!(paced_chunk_frames(49), 1);
    assert_eq!(paced_chunk_frames(50), 1);
    assert_eq!(paced_chunk_frames(100), 2);
}

#[test]
fn records_only_first_partial_and_final_timestamps() {
    let mut metrics = TranscriptMetrics::default();
    metrics.observe(
        vec![TranscriptUpdate::partial("first").unwrap()],
        Duration::from_millis(800),
    );
    metrics.observe(
        vec![
            TranscriptUpdate::partial("second").unwrap(),
            TranscriptUpdate::finalized("done").unwrap(),
        ],
        Duration::from_millis(1_900),
    );

    assert_eq!(metrics.first_partial, Some(Duration::from_millis(800)));
    assert_eq!(metrics.first_final, Some(Duration::from_millis(1_900)));
    assert_eq!(metrics.latest_text, "done");
    assert_eq!(metrics.update_count, 3);
}

#[test]
fn escapes_transcript_as_json_string_content() {
    assert_eq!(
        escape_json("say \"hi\"\\next\n"),
        "say \\\"hi\\\"\\\\next\\n"
    );
}

#[test]
fn escapes_control_characters_as_unicode_escapes() {
    assert_eq!(escape_json("a\u{1}b\rc\td"), "a\\u0001b\\rc\\td");
    assert_eq!(escape_json("caf\u{e9}"), "caf\u{e9}");
}

#[test]
fn benchmark_modes_have_stable_names() {
    assert_eq!(BenchmarkMode::Offline.name(), "offline");
    assert_eq!(BenchmarkMode::Paced.name(), "paced");
}

#[test]
fn default_limits_are_valid() {
    assert_eq!(WhisperLimits::new().validate(), Ok(()));
}

#[test]
fn limits_reject_unusable_settings() {
    let mut limits = WhisperLimits::new();
    limits.inference_threads = 0;
    assert_eq!(
        limits.validate(),
        Err(WhisperBackendError::InvalidConfiguration(
            "inference thread count must be greater than zero".to_owned()
        ))
    );

    let mut limits = WhisperLimits::new();
    limits.language = Some(String::new());
    assert_eq!(
        limits.validate(),
        Err(WhisperBackendError::InvalidConfiguration(
            "language must be non-empty and contain no NUL byte".to_owned()
        ))
    );

    let mut limits = WhisperLimits::new();
    limits.partial_step = Duration::from_secs(9);
    assert_eq!(
        limits.validate(),
        Err(WhisperBackendError::InvalidConfiguration(
            "step, minimum speech, and final silence must not exceed the rolling window".to_owned()
        ))
    );

    let mut limits = WhisperLimits::new();
    limits.speech_rms_threshold_bits = f32::NAN.to_bits();
    assert_eq!(
        limits.validate(),
        Err(WhisperBackendError::InvalidConfiguration(
            "speech RMS threshold must be finite and between zero and one".to_owned()
        ))
    );

    let mut limits = WhisperLimits::new();
    limits.max_transcript_bytes = 15;
    assert_eq!(
        limits.validate(),
        Err(WhisperBackendError::InvalidConfiguration(
            "maximum transcript bytes must be at least 16".to_owned()
        ))
    );
}

#[test]
fn backend_errors_describe_their_cause() {
    assert_eq!(
        WhisperBackendError::InputQueueFull(256).message(),
        "Whisper input queue reached its 256-chunk bound; transcription cannot keep up with capture"
    );
    assert_eq!(
        WhisperBackendError::FinishTimeout(Duration::from_millis(250)).message(),
        "Whisper worker did not flush within 250ms"
    );
    assert_eq!(
        WhisperBackendError::ModelUnavailable(PathBuf::from("/models/base.bin")).message(),
        "Whisper model is unavailable at /models/base.bin; download a compatible ggml model and configure its path"
    );
}

#[test]
fn transcribe_tool_reads_model_audio_and_optional_language() {
    let args = |values: &[&str]| -> Vec<Option<String>> {
        values.iter().map(|value| Some((*value).to_owned())).collect()
    };
    assert_eq!(
        parse_transcribe_arguments(args(&["model.bin", "audio.wav"])),
        Ok(TranscribeCommand::Transcribe(TranscribeInput {
            model_path: 0,
            wav_path: 1,
            language: None
        }))
    );
    assert_eq!(
        parse_transcribe_arguments(args(&["benchmark", "offline", "m.bin", "a.wav", "de"])),
        Ok(TranscribeCommand::Benchmark(
            BenchmarkMode::Offline,
            TranscribeInput {
                model_path: 2,
                wav_path: 3,
                language: Some("de".to_owned())
            }
        ))
    );
    let usage = lcrt::stt::command::transcribe_usage_text();
    assert_eq!(parse_transcribe_arguments(Vec::new()), Err(usage.to_owned()));
    assert_eq!(parse_transcribe_arguments(args(&["model.bin"])), Err(usage.to_owned()));
    assert_eq!(
        parse_transcribe_arguments(args(&["benchmark", "fast", "m", "a"])),
        Err(usage.to_owned())
    );
    assert_eq!(
        parse_transcribe_arguments(args(&["m", "a", "en", "extra"])),
        Err(usage.to_owned())
    );
    assert_eq!(
        parse_transcribe_arguments(vec![Some("m".to_owned()), None, None]),
        Err("language must be UTF-8".to_owned())
    );
}

#[test]
fn startup_reports_decide_how_a_failed_start_is_cleaned_up() {
    let budget = Duration::from_secs(5);
    assert!(matches!(capture_startup(StartupWait::Ready, budget), CaptureStartup::Streaming));
    match capture_startup(StartupWait::Failed("no such node".to_owned()), budget) {
        CaptureStartup::Abort { send_stop, error } => {
            assert!(send_stop);
            assert_eq!(error, PipeWireError::PipeWire("no such node".to_owned()));
        }
        other => panic!("expected an abort, got {other:?}"),
    }
    match capture_startup(StartupWait::Timeout, budget) {
        CaptureStartup::Abort { send_stop, error } => {
            assert!(send_stop);
            assert_eq!(error, PipeWireError::StartupTimeout(budget));
        }
        other => panic!("expected an abort, got {other:?}"),
    }
    match capture_startup(StartupWait::Disconnected, budget) {
        CaptureStartup::Abort { send_stop, error } => {
            assert!(!send_stop);
            assert_eq!(error, PipeWireError::WorkerStopped);
        }
        other => panic!("expected an abort, got {other:?}"),
    }
    assert!(matches!(model_startup(StartupWait::Ready, budget), ModelStartup::Ready));
    match model_startup(StartupWait::Timeout, budget) {
        ModelStartup::Abort { join_worker, error } => {
            assert!(!join_worker);
            assert_eq!(error, WhisperBackendError::StartupTimeout(budget));
        }
        other => panic!("expected an abort, got {other:?}"),
    }
    match model_startup(StartupWait::Disconnected, budget) {
        ModelStartup::Abort { join_worker, error } => {
            assert!(join_worker);
            assert_eq!(
                error,
                WhisperBackendError::Worker("worker stopped while loading the model".to_owned())
            );
        }
        other => panic!("expected an abort, got {other:?}"),
    }
}

fn link_with_capacity(
    capacity: usize,
) -> (
    lcrt::stt::link::WorkerLink,
    std::sync::mpsc::Receiver<lcrt::stt::link::WorkerCommand>,
    std::sync::mpsc::SyncSender<lcrt::stt::link::WorkerEvent>,
) {
    let (commands, command_receiver) = std::sync::mpsc::sync_channel(capacity);
    let (event_sender, events) = std::sync::mpsc::sync_channel(8);
    let link = lcrt::stt::link::WorkerLink::new(
        commands,
        events,
        capacity,
        Duration::from_millis(250),
    );
    (link, command_receiver, event_sender)
}

fn one_chunk() -> lcrt::audio::AudioChunk {
    lcrt::audio::AudioChunk::new(vec![0.25f32.to_bits(), 0.5f32.to_bits()], 16_000, 1).unwrap()
}

#[test]
fn worker_link_collects_updates_until_done() {
    let (mut link, command_receiver, event_sender) = link_with_capacity(2);
    event_sender
        .send(WorkerEvent::Update(TranscriptUpdate::partial("hello").unwrap()))
        .unwrap();
    event_sender.send(WorkerEvent::Done).unwrap();
    match link.push_audio(one_chunk()) {
        Pushed::Queued(Drained::Done(updates)) => {
            assert_eq!(updates, vec![TranscriptUpdate::partial("hello").unwrap()]);
        }
        other => panic!("unexpected outcome: {other:?}"),
    }
    assert!(link.finished());
    assert!(matches!(command_receiver.try_recv(), Ok(WorkerCommand::Audio(_))));
    match link.push_audio(one_chunk()) {
        Pushed::Refused(error) => assert_eq!(
            error.message(),
            "Whisper transcriber received audio after it was finished"
        ),
        other => panic!("unexpected outcome: {other:?}"),
    }
}

#[test]
fn worker_link_refuses_audio_when_queue_is_full() {
    let (mut link, _command_receiver, _event_sender) = link_with_capacity(1);
    assert!(matches!(link.push_audio(one_chunk()), Pushed::Queued(_)));
    match link.push_audio(one_chunk()) {
        Pushed::Refused(error) => assert_eq!(
            error.message(),
            WhisperBackendError::InputQueueFull(1).message()
        ),
        other => panic!("unexpected outcome: {other:?}"),
    }
    assert!(!link.finished());
}

#[test]
fn worker_link_reports_a_broken_event_channel() {
    let (mut link, _command_receiver, event_sender) = link_with_capacity(1);
    drop(event_sender);
    match link.collect_available() {
        Drained::Broken(error) => assert_eq!(
            error,
            WhisperBackendError::Worker("result channel disconnected unexpectedly".to_owned())
        ),
        other => panic!("unexpected outcome: {other:?}"),
    }
}

#[test]
fn worker_link_reports_worker_failure() {
    let (mut link, _command_receiver, event_sender) = link_with_capacity(1);
    event_sender.send(WorkerEvent::Failure("boom".to_owned())).unwrap();
    match link.collect_available() {
        Drained::Failed(error) => {
            assert_eq!(error, WhisperBackendError::Whisper("boom".to_owned()))
        }
        other => panic!("unexpected outcome: {other:?}"),
    }
    assert!(link.finished());
}

#[test]
fn worker_link_finish_offer_and_flush_timeout() {
    let (mut link, command_receiver, _event_sender) = link_with_capacity(1);
    assert!(matches!(link.offer_finish(false), FinishOffer::Sent));
    assert!(matches!(command_receiver.try_recv(), Ok(WorkerCommand::Finish)));
    assert!(matches!(link.offer_finish(false), FinishOffer::Sent));
    assert!(matches!(link.offer_finish(false), FinishOffer::Full));
    match link.offer_finish(true) {
        FinishOffer::Failed(error) => {
            assert_eq!(error, WhisperBackendError::FinishTimeout(Duration::from_millis(250)))
        }
        other => panic!("unexpected outcome: {other:?}"),
    }
    match link.next_flush_step(Duration::from_millis(1)) {
        FlushStep::Broken(error) => {
            assert_eq!(error, WhisperBackendError::FinishTimeout(Duration::from_millis(250)))
        }
        other => panic!("unexpected outcome: {other:?}"),
    }
    link.close_commands();
    assert!(link.command_sender().is_none());
    assert!(matches!(link.offer_finish(true), FinishOffer::Sent));
}

#[test]
fn worker_link_flush_ends_when_worker_is_done() {
    let (mut link, _command_receiver, event_sender) = link_with_capacity(1);
    event_sender
        .send(WorkerEvent::Update(TranscriptUpdate::finalized("bye").unwrap()))
        .unwrap();
    event_sender.send(WorkerEvent::Done).unwrap();
    match link.next_flush_step(Duration::from_millis(50)) {
        FlushStep::Update(update) => {
            assert_eq!(update, TranscriptUpdate::finalized("bye").unwrap())
        }
        other => panic!("unexpected outcome: {other:?}"),
    }
    assert!(matches!(link.next_flush_step(Duration::from_millis(50)), FlushStep::Done));
    assert!(link.finished());
}

#[test]
fn wav_accepts_only_pcm16_and_float32_with_a_format() {
    assert_eq!(wav_encoding(16_000, 1, false, 16), Ok(WavEncoding::Pcm16));
    assert_eq!(wav_encoding(48_000, 2, true, 32), Ok(WavEncoding::Float32));
    let zero = "WAV sample rate and channel count must be greater than zero".to_owned();
    assert_eq!(wav_encoding(0, 1, false, 16), Err(zero.clone()));
    assert_eq!(wav_encoding(16_000, 0, true, 32), Err(zero));
    assert_eq!(
        wav_encoding(16_000, 1, false, 24),
        Err("unsupported WAV encoding: Int/24-bit; use signed 16-bit PCM or 32-bit float".to_owned())
    );
    assert_eq!(
        wav_encoding(16_000, 1, true, 16),
        Err("unsupported WAV encoding: Float/16-bit; use signed 16-bit PCM or 32-bit float".to_owned())
    );
}

#[test]
fn wav_samples_must_be_whole_frames() {
    assert_eq!(wav_frames_check(4, 2), Ok(()));
    assert_eq!(wav_frames_check(0, 1), Err("WAV contains no audio samples".to_owned()));
    assert_eq!(
        wav_frames_check(5, 2),
        Err("WAV contains an incomplete interleaved audio frame".to_owned())
    );
}

#[test]
fn worker_link_offers_audio_once_and_hands_back_a_refused_chunk() {
    let (mut link, command_receiver, _event_sender) = link_with_capacity(1);
    assert!(link.audio_refusal().is_none());
    assert!(matches!(link.offer_audio(one_chunk()), AudioOffer::Sent));
    match link.offer_audio(one_chunk()) {
        AudioOffer::Full(chunk) => assert_eq!(chunk, one_chunk()),
        other => panic!("unexpected outcome: {other:?}"),
    }
    assert_eq!(
        link.input_timed_out(Duration::from_secs(30)).message(),
        WhisperBackendError::InputQueueTimeout { capacity: 1, timeout: Duration::from_secs(30) }
            .message()
    );
    drop(command_receiver);
    match link.offer_audio(one_chunk()) {
        AudioOffer::Refused(error) => assert_eq!(
            error.message(),
            "Whisper worker command channel disconnected unexpectedly"
        ),
        other => panic!("unexpected outcome: {other:?}"),
    }
    link.close_commands();
    assert_eq!(
        link.audio_refusal().unwrap().message(),
        "Whisper worker command channel is unavailable"
    );
}

#[test]
fn finish_offer_outcomes() {
    let timeout = Duration::from_millis(250);
    assert!(matches!(finish_offer_outcome(CommandOffer::Sent, true, timeout), FinishOffer::Sent));
    assert!(matches!(
        finish_offer_outcome(CommandOffer::Full(WorkerCommand::Finish), false, timeout),
        FinishOffer::Full
    ));
    match finish_offer_outcome(CommandOffer::Full(WorkerCommand::Finish), true, timeout) {
        FinishOffer::Failed(error) => assert_eq!(error, WhisperBackendError::FinishTimeout(timeout)),
        other => panic!("unexpected outcome: {other:?}"),
    }
    match finish_offer_outcome(CommandOffer::Disconnected, false, timeout) {
        FinishOffer::Failed(error) => assert_eq!(
            error,
            WhisperBackendError::Worker("command channel disconnected before flush".to_owned())
        ),
        other => panic!("unexpected outcome: {other:?}"),
    }
}

#[test]
fn absorbing_events_collects_updates_until_an_end() {
    let (mut link, _command_receiver, _event_sender) = link_with_capacity(1);
    let mut updates = Vec::new();
    let update = TranscriptUpdate::partial("hi").unwrap();
    assert!(link
        .absorb_event(EventPoll::Event(WorkerEvent::Update(update.clone())), &mut updates)
        .is_none());
    assert_eq!(updates, vec![update.clone()]);
    match link.absorb_event(EventPoll::Empty, &mut updates) {
        Some(Drained::Pending(taken)) => assert_eq!(taken, vec![update.clone()]),
        other => panic!("unexpected outcome: {other:?}"),
    }
    assert!(!link.finished());
    match link.absorb_event(EventPoll::Disconnected, &mut Vec::new()) {
        Some(Drained::Broken(error)) => assert_eq!(
            error,
            WhisperBackendError::Worker("result channel disconnected unexpectedly".to_owned())
        ),
        other => panic!("unexpected outcome: {other:?}"),
    }
    let mut more = vec![update.clone()];
    match link.absorb_event(EventPoll::Event(WorkerEvent::Done), &mut more) {
        Some(Drained::Done(taken)) => assert_eq!(taken, vec![update]),
        other => panic!("unexpected outcome: {other:?}"),
    }
    assert!(link.finished());
    assert!(matches!(
        link.absorb_event(EventPoll::Disconnected, &mut Vec::new()),
        Some(Drained::Pending(_))
    ));
}

#[test]
fn worker_keeps_the_newest_owed_pass_and_finishes_first() {
    assert_eq!(pending_after(None, Some(InferenceKind::Partial)), Some(InferenceKind::Partial));
    assert_eq!(pending_after(Some(InferenceKind::Final), None), Some(InferenceKind::Final));
    assert_eq!(
        pending_after(Some(InferenceKind::Partial), Some(InferenceKind::Final)),
        Some(InferenceKind::Final)
    );
    assert_eq!(step_after_drain(true, Some(InferenceKind::Partial)), WorkerStep::Finish);
    assert_eq!(
        step_after_drain(false, Some(InferenceKind::Final)),
        WorkerStep::Infer(InferenceKind::Final)
    );
    assert_eq!(step_after_drain(false, None), WorkerStep::Wait);
}
