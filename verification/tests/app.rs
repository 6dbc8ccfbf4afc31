use std::collections::VecDeque;
use std::sync::atomic::{AtomicBool, Ordering};
use std::sync::Arc;
use std::time::Duration;

use lcrt::audio::{
    AudioCapture, AudioCaptureError, AudioChunk, AudioInputEvent, AudioSourceDescriptor,
    AudioSourceKind,
};
use lcrt::bridge::{BridgeCommand, CaptionUiAction, GtkCaptionSink, UiPresentation, UiUpdate};
use lcrt::caption::{CaptionSnapshot, CaptionState, CaptionStatus};
use lcrt::cli::{parse_arguments, usage, AppConfig, ModelPath, ParsedCommand, SmokeConfig};
use lcrt::config::{RuntimeConfig, RuntimeConfigError};
use lcrt::controller::{
    application_exit_status, completed_session_result, completion_notices, completion_status_text,
    request_controller_shutdown,
    startup_error_message, Controller, ControllerCommand, ControllerOutcome, ControllerState,
};
use lcrt::demo::{
    application_succeeded, begin_demo, demo_interrupted, end_demo, publish_demo_caption, ActionWait,
};
use lcrt::pipeline::{result_after_stop, CaptionPipeline, PipelineError, RunSummary};
use lcrt::transcription::{Transcriber, TranscriptUpdate, TranscriptionError};
use lcrt::ui::{CaptionSink, CaptionSinkError};

fn arguments(values: &[&str]) -> Vec<Option<String>> {
    values.iter().map(|value| Some((*value).to_owned())).collect()
}

#[test]
fn config_rejects_zero_poll_timeout() {
    let config = RuntimeConfig {
        audio_poll_timeout: Duration::ZERO,
        ..RuntimeConfig::default()
    };
    assert_eq!(
        config.validate(),
        Err(RuntimeConfigError::ZeroAudioPollTimeout)
    );
}

#[test]
fn config_rejects_zero_chunk_bound_and_accepts_defaults() {
    let config = RuntimeConfig {
        max_audio_chunk_samples: 0,
        ..RuntimeConfig::default()
    };
    assert_eq!(
        config.validate(),
        Err(RuntimeConfigError::ZeroMaxAudioChunkSamples)
    );
    assert_eq!(RuntimeConfig::default().validate(), Ok(()));
    assert_eq!(
        RuntimeConfig::default().audio_poll_timeout,
        Duration::from_millis(50)
    );
    assert_eq!(RuntimeConfig::default().max_audio_chunk_samples, 48_000);
    assert_eq!(
        RuntimeConfigError::ZeroMaxAudioChunkSamples.message(),
        "maximum audio chunk size must be greater than zero"
    );
}

#[test]
fn parses_model_language_and_bounded_smoke_configuration() {
    let command = parse_arguments(
        arguments(&[
            "--model",
            "model.bin",
            "--language",
            "en",
            "--smoke-source",
            "source-id",
            "--smoke-seconds",
            "12",
        ]),
        false,
    )
    .unwrap();

    assert!(matches!(
        command,
        ParsedCommand::Run(AppConfig {
            model_path: Some(ModelPath::Argument(1)),
            language: Some(language),
            smoke: Some(SmokeConfig { source_id, duration }),
            list_sources: false,
        }) if language == "en"
            && source_id == "source-id"
            && duration == Duration::from_secs(12)
    ));
}

#[test]
fn rejects_unbounded_or_unknown_arguments() {
    assert!(parse_arguments(arguments(&["--smoke-seconds", "0"]), false).is_err());
    assert!(parse_arguments(arguments(&["--smoke-seconds", "5"]), false).is_err());
    assert!(parse_arguments(arguments(&["--unknown"]), false).is_err());
}

#[test]
fn argument_errors_name_the_problem() {
    assert_eq!(
        parse_arguments(arguments(&["--smoke-seconds", "121"]), false),
        Err("--smoke-seconds must be an integer from 1 to 120".to_owned())
    );
    assert_eq!(
        parse_arguments(arguments(&["--smoke-seconds", "5"]), false),
        Err("--smoke-seconds requires --smoke-source".to_owned())
    );
    assert_eq!(
        parse_arguments(arguments(&["--unknown"]), false),
        Err("unknown argument: --unknown".to_owned())
    );
    assert_eq!(
        parse_arguments(arguments(&["--language"]), false),
        Err("--language requires a value".to_owned())
    );
    assert_eq!(
        parse_arguments(vec![Some("--list-sources".to_owned()), None], false),
        Err("arguments must be valid UTF-8".to_owned())
    );
}

#[test]
fn help_environment_model_and_non_text_model_paths() {
    assert_eq!(
        parse_arguments(arguments(&["--list-sources", "-h", "--bogus"]), false),
        Ok(ParsedCommand::Help)
    );
    assert_eq!(
        parse_arguments(Vec::new(), true),
        Ok(ParsedCommand::Run(AppConfig {
            model_path: Some(ModelPath::Environment),
            language: None,
            list_sources: false,
            smoke: None,
        }))
    );
    assert_eq!(
        parse_arguments(vec![Some("--model".to_owned()), None], true),
        Ok(ParsedCommand::Run(AppConfig {
            model_path: Some(ModelPath::Argument(1)),
            language: None,
            list_sources: false,
            smoke: None,
        }))
    );
    assert_eq!(
        parse_arguments(arguments(&["--smoke-source", "mic", "--smoke-seconds", "+7"]), false),
        Ok(ParsedCommand::Run(AppConfig {
            model_path: None,
            language: None,
            list_sources: false,
            smoke: Some(SmokeConfig {
                source_id: "mic".to_owned(),
                duration: Duration::from_secs(7),
            }),
        }))
    );
    assert_eq!(
        parse_arguments(arguments(&["--smoke-source", "mic"]), false),
        Ok(ParsedCommand::Run(AppConfig {
            model_path: None,
            language: None,
            list_sources: false,
            smoke: Some(SmokeConfig {
                source_id: "mic".to_owned(),
                duration: Duration::from_secs(10),
            }),
        }))
    );
    assert!(usage().starts_with("LCRT live captions"));
}

#[test]
fn successful_smoke_outcome_returns_success() {
    assert!(application_exit_status(
        true,
        Some(ControllerOutcome::SmokeSucceeded)
    ));
}

#[test]
fn failed_smoke_outcome_returns_failure() {
    assert!(!application_exit_status(
        true,
        Some(ControllerOutcome::SmokeFailed)
    ));
}

#[test]
fn exit_status_requires_a_clean_window_and_controller() {
    assert!(application_exit_status(true, Some(ControllerOutcome::Completed)));
    assert!(!application_exit_status(false, Some(ControllerOutcome::Completed)));
    assert!(!application_exit_status(true, None));
}

#[test]
fn shutdown_without_a_session_terminates_the_controller() {
    let mut state = ControllerState::Idle;

    let cancel = request_controller_shutdown(&mut state);

    assert!(!cancel);
    assert!(matches!(state, ControllerState::Terminated));
}

#[test]
fn shutdown_cancels_an_active_session_without_waiting_for_its_worker() {
    let mut state = ControllerState::Active;

    let cancel = request_controller_shutdown(&mut state);

    assert!(cancel);
    assert!(matches!(state, ControllerState::Terminated));
}

#[test]
fn repeated_shutdown_is_idempotent() {
    let mut state = ControllerState::Idle;

    request_controller_shutdown(&mut state);
    let cancel = request_controller_shutdown(&mut state);

    assert!(!cancel);
    assert!(matches!(state, ControllerState::Terminated));
}

fn config(model: bool, smoke: bool) -> AppConfig {
    AppConfig {
        model_path: if model { Some(ModelPath::Environment) } else { None },
        language: Some("en".to_owned()),
        list_sources: false,
        smoke: if smoke {
            Some(SmokeConfig {
                source_id: "mic".to_owned(),
                duration: Duration::from_secs(1),
            })
        } else {
            None
        },
    }
}

fn sources() -> Vec<AudioSourceDescriptor> {
    vec![
        AudioSourceDescriptor::new("mic", "Microphone", AudioSourceKind::Microphone),
        AudioSourceDescriptor::new("out", "Speakers", AudioSourceKind::SystemOutput),
    ]
}

fn start(source_id: &str) -> CaptionUiAction {
    CaptionUiAction::Start {
        source_id: source_id.to_owned(),
    }
}

#[test]
fn controller_starts_one_session_and_refuses_a_second() {
    let mut controller = Controller::new(&config(true, false), sources());

    match controller.handle_action(start("out")) {
        ControllerCommand::StartSession {
            source,
            model_path,
            language,
        } => {
            assert_eq!(source.id(), "out");
            assert_eq!(source.kind(), AudioSourceKind::SystemOutput);
            assert_eq!(model_path, ModelPath::Environment);
            assert_eq!(language.as_deref(), Some("en"));
        }
        other => panic!("expected a session start, got {other:?}"),
    }
    controller.session_started();
    assert_eq!(controller.state(), ControllerState::Active);
    assert!(matches!(
        controller.handle_action(start("mic")),
        ControllerCommand::Continue
    ));
    assert!(matches!(
        controller.handle_action(CaptionUiAction::Stop),
        ControllerCommand::CancelSession
    ));
    assert_eq!(
        controller.session_finished(Ok(RunSummary {
            audio_chunks: 3,
            caption_updates: 2
        })),
        None
    );
    assert_eq!(controller.state(), ControllerState::Idle);
    assert!(matches!(
        controller.handle_action(CaptionUiAction::Stop),
        ControllerCommand::Continue
    ));
}

#[test]
fn controller_refuses_unknown_sources_and_missing_models() {
    let mut controller = Controller::new(&config(true, false), sources());
    assert!(matches!(
        controller.handle_action(start("gone")),
        ControllerCommand::Continue
    ));

    let mut controller = Controller::new(&config(false, false), sources());
    assert!(matches!(
        controller.handle_action(start("mic")),
        ControllerCommand::Continue
    ));
    assert_eq!(controller.state(), ControllerState::Idle);

    let mut controller = Controller::new(&config(false, true), sources());
    assert!(matches!(
        controller.handle_action(start("mic")),
        ControllerCommand::Finish {
            outcome: ControllerOutcome::SmokeFailed,
            cancel_session: false
        }
    ));
}

#[test]
fn smoke_run_outcome_follows_its_session() {
    let mut controller = Controller::new(&config(true, true), sources());
    assert!(matches!(
        controller.handle_action(start("mic")),
        ControllerCommand::StartSession { .. }
    ));
    controller.session_started();
    assert_eq!(
        controller.session_finished(Ok(RunSummary::default())),
        Some(ControllerOutcome::SmokeSucceeded)
    );

    let mut controller = Controller::new(&config(true, true), sources());
    controller.session_started();
    assert_eq!(
        controller.session_finished(Err("capture failed".to_owned())),
        Some(ControllerOutcome::SmokeFailed)
    );

    let mut controller = Controller::new(&config(true, true), sources());
    assert_eq!(
        controller.session_failed_to_start("model missing"),
        Some(ControllerOutcome::SmokeFailed)
    );
}

#[test]
fn controller_shutdown_cancels_a_running_session() {
    let mut controller = Controller::new(&config(true, false), sources());
    controller.session_started();
    assert!(matches!(
        controller.handle_action(CaptionUiAction::Shutdown),
        ControllerCommand::Finish {
            outcome: ControllerOutcome::Completed,
            cancel_session: true
        }
    ));
    assert_eq!(controller.state(), ControllerState::Terminated);

    let mut controller = Controller::new(&config(true, true), sources());
    assert!(matches!(
        controller.actions_closed(),
        ControllerCommand::Finish {
            outcome: ControllerOutcome::SmokeFailed,
            cancel_session: false
        }
    ));
}

#[test]
fn completed_sessions_report_their_counts() {
    assert_eq!(
        completion_status_text(&RunSummary {
            audio_chunks: 42,
            caption_updates: 7
        }),
        "Stopped \u{b7} 42 chunks \u{b7} 7 captions"
    );
}

#[test]
fn startup_errors_are_joined_one_per_line() {
    let no_model =
        "No local Whisper model is configured. Pass --model PATH or set LCRT_MODEL_PATH.";
    assert_eq!(startup_error_message(None, true), None);
    assert_eq!(startup_error_message(None, false), Some(no_model.to_owned()));
    assert_eq!(
        startup_error_message(Some("discovery failed".to_owned()), true),
        Some("discovery failed".to_owned())
    );
    assert_eq!(
        startup_error_message(Some("discovery failed".to_owned()), false),
        Some(format!("discovery failed\n{no_model}"))
    );
}

struct FakeAudio {
    source: AudioSourceDescriptor,
    events: VecDeque<AudioInputEvent>,
    stopped: Arc<AtomicBool>,
}

impl AudioCapture for FakeAudio {
    fn source(&self) -> &AudioSourceDescriptor {
        &self.source
    }

    fn next_event(&mut self, _timeout: Duration) -> Result<AudioInputEvent, AudioCaptureError> {
        Ok(self
            .events
            .pop_front()
            .unwrap_or(AudioInputEvent::EndOfStream))
    }

    fn stop(&mut self) -> Result<(), AudioCaptureError> {
        self.stopped.store(true, Ordering::Release);
        Ok(())
    }
}

struct FakeTranscriber {
    audio_stopped: Arc<AtomicBool>,
}

impl Transcriber for FakeTranscriber {
    fn push_audio(
        &mut self,
        _chunk: AudioChunk,
    ) -> Result<Vec<TranscriptUpdate>, TranscriptionError> {
        Ok(vec![TranscriptUpdate::partial("hello").unwrap()])
    }

    fn finish(&mut self) -> Result<Vec<TranscriptUpdate>, TranscriptionError> {
        if !self.audio_stopped.load(Ordering::Acquire) {
            return Err(TranscriptionError::new(
                "audio was not stopped before transcription flush",
            ));
        }
        Ok(vec![TranscriptUpdate::finalized("hello world").unwrap()])
    }
}

#[derive(Default)]
struct CollectingSink {
    snapshots: Vec<CaptionSnapshot>,
}

impl CaptionSink for CollectingSink {
    fn publish(&mut self, snapshot: CaptionSnapshot) -> Result<(), CaptionSinkError> {
        self.snapshots.push(snapshot);
        Ok(())
    }
}

fn audio_with(events: Vec<AudioInputEvent>, stopped: Arc<AtomicBool>) -> FakeAudio {
    FakeAudio {
        source: AudioSourceDescriptor::new(
            "test-mic",
            "Test microphone",
            AudioSourceKind::Microphone,
        ),
        events: events.into(),
        stopped,
    }
}

fn zeros(count: usize) -> Vec<u32> {
    vec![0.0f32.to_bits(); count]
}

#[test]
fn pipeline_publishes_incremental_and_final_updates_then_stops_audio() {
    let stopped = Arc::new(AtomicBool::new(false));
    let audio = audio_with(
        vec![
            AudioInputEvent::Chunk(AudioChunk::new(zeros(160), 16_000, 1).unwrap()),
            AudioInputEvent::EndOfStream,
        ],
        Arc::clone(&stopped),
    );
    let mut pipeline = CaptionPipeline::new(
        audio,
        FakeTranscriber {
            audio_stopped: Arc::clone(&stopped),
        },
        CollectingSink::default(),
        RuntimeConfig::default(),
    )
    .unwrap();
    let summary = pipeline.run(&AtomicBool::new(false)).unwrap();
    assert_eq!(
        summary,
        RunSummary {
            audio_chunks: 1,
            caption_updates: 2
        }
    );
    assert!(stopped.load(Ordering::Acquire));
}

#[test]
fn pipeline_enforces_chunk_bound_and_still_stops_audio() {
    let stopped = Arc::new(AtomicBool::new(false));
    let audio = audio_with(
        vec![AudioInputEvent::Chunk(
            AudioChunk::new(zeros(5), 16_000, 1).unwrap(),
        )],
        Arc::clone(&stopped),
    );
    let config = RuntimeConfig {
        max_audio_chunk_samples: 4,
        ..RuntimeConfig::default()
    };
    let mut pipeline = CaptionPipeline::new(
        audio,
        FakeTranscriber {
            audio_stopped: Arc::clone(&stopped),
        },
        CollectingSink::default(),
        config,
    )
    .unwrap();
    let error = pipeline.run(&AtomicBool::new(false)).unwrap_err();
    assert!(matches!(
        error,
        PipelineError::AudioChunkTooLarge {
            actual_samples: 5,
            maximum_samples: 4
        }
    ));
    assert_eq!(
        error.message(),
        "audio adapter produced 5 samples; configured maximum is 4"
    );
    assert!(stopped.load(Ordering::Acquire));
}

#[test]
fn cancelled_pipeline_stops_without_reading_audio() {
    let stopped = Arc::new(AtomicBool::new(false));
    let audio = audio_with(
        vec![AudioInputEvent::Chunk(
            AudioChunk::new(zeros(5), 16_000, 1).unwrap(),
        )],
        Arc::clone(&stopped),
    );
    let mut pipeline = CaptionPipeline::new(
        audio,
        FakeTranscriber {
            audio_stopped: Arc::clone(&stopped),
        },
        CollectingSink::default(),
        RuntimeConfig::default(),
    )
    .unwrap();
    let summary = pipeline.run(&AtomicBool::new(true)).unwrap();
    assert_eq!(
        summary,
        RunSummary {
            audio_chunks: 0,
            caption_updates: 1
        }
    );
    assert!(stopped.load(Ordering::Acquire));
}

#[test]
fn pipeline_rejects_invalid_runtime_limits() {
    let stopped = Arc::new(AtomicBool::new(false));
    let config = RuntimeConfig {
        audio_poll_timeout: Duration::ZERO,
        ..RuntimeConfig::default()
    };
    let result = CaptionPipeline::new(
        audio_with(Vec::new(), Arc::clone(&stopped)),
        FakeTranscriber {
            audio_stopped: Arc::clone(&stopped),
        },
        CollectingSink::default(),
        config,
    );
    match result {
        Err(error @ PipelineError::Configuration(RuntimeConfigError::ZeroAudioPollTimeout)) => {
            assert_eq!(
                error.message(),
                "invalid runtime configuration: audio poll timeout must be greater than zero"
            )
        }
        _ => panic!("expected a configuration error"),
    }
}

#[test]
fn processing_error_is_kept_when_stopping_also_fails() {
    let kept = result_after_stop(
        Err(PipelineError::Transcription(TranscriptionError::new("decoder crashed"))),
        Err(AudioCaptureError::new("device busy")),
    );
    match kept {
        Err(PipelineError::Transcription(error)) => assert_eq!(error.message(), "decoder crashed"),
        other => panic!("expected the processing error, got {other:?}"),
    }
    match result_after_stop(Ok(RunSummary::default()), Err(AudioCaptureError::new("device busy"))) {
        Err(error @ PipelineError::Audio(_)) => {
            assert_eq!(error.message(), "audio capture failed: device busy")
        }
        other => panic!("expected the stop error, got {other:?}"),
    }
}

#[test]
fn diagnostic_failure_produces_a_failed_application_outcome() {
    assert!(!application_succeeded(
        true,
        Some(Err("caption publication failed".to_owned()))
    ));
    assert!(!application_succeeded(false, Some(Ok(()))));
    assert!(!application_succeeded(true, None));
}

#[test]
fn diagnostic_success_requires_gtk_and_controller_success() {
    assert!(application_succeeded(true, Some(Ok(()))));
}

#[test]
fn demo_publishes_through_the_bridge_and_fails_once_it_is_torn_down() {
    let (sink, receiver) = GtkCaptionSink::bridge();
    let mut state = CaptionState::new();
    assert_eq!(begin_demo(&sink), Ok(()));
    assert_eq!(publish_demo_caption(&sink, &mut state, 0), Ok(()));
    assert_eq!(publish_demo_caption(&sink, &mut state, 2), Ok(()));
    let snapshot = state.snapshot().unwrap();
    assert_eq!(snapshot.caption().text(), "Native captions update incrementally on Ubuntu.");
    assert_eq!(snapshot.caption().status(), CaptionStatus::Final);
    drop(receiver);
    assert!(begin_demo(&sink).is_err());
    assert!(publish_demo_caption(&sink, &mut state, 1).is_err());
}

#[test]
fn demo_stops_on_stop_shutdown_or_a_closed_window() {
    assert!(demo_interrupted(&ActionWait::Action(CaptionUiAction::Stop)));
    assert!(demo_interrupted(&ActionWait::Action(CaptionUiAction::Shutdown)));
    assert!(demo_interrupted(&ActionWait::Disconnected));
    assert!(!demo_interrupted(&ActionWait::Timeout));
    assert!(!demo_interrupted(&ActionWait::Action(start("mic"))));
}

#[test]
fn completed_session_reports_panics_and_lost_results() {
    let summary = RunSummary { audio_chunks: 4, caption_updates: 2 };
    assert_eq!(completed_session_result(Some(Ok(summary)), false), Ok(summary));
    assert_eq!(
        completed_session_result(Some(Err("capture failed".to_owned())), false),
        Err("capture failed".to_owned())
    );
    assert_eq!(
        completed_session_result(None, false),
        Err("caption pipeline result channel disconnected".to_owned())
    );
    assert_eq!(
        completed_session_result(Some(Ok(summary)), true),
        Err("caption pipeline worker panicked".to_owned())
    );
}

fn deliver_all(sink: &GtkCaptionSink, notices: Vec<BridgeCommand>) {
    for notice in notices {
        sink.deliver(notice).unwrap();
    }
}

#[test]
fn smoke_start_without_a_model_shows_the_error_and_quits() {
    let (sink, receiver) = GtkCaptionSink::bridge();
    let mut controller = Controller::new(&config(false, true), sources());
    assert!(matches!(
        controller.handle_action(start("mic")),
        ControllerCommand::Finish {
            outcome: ControllerOutcome::SmokeFailed,
            cancel_session: false
        }
    ));
    deliver_all(&sink, controller.take_notices());
    assert!(controller.take_notices().is_empty());
    assert_eq!(
        receiver.take_update(),
        Ok(UiUpdate {
            presentation: None,
            error: Some(Some(
                "No local Whisper model is configured. Pass --model PATH or set LCRT_MODEL_PATH."
                    .to_owned()
            )),
            quit: true,
        })
    );
}

#[test]
fn start_on_a_missing_source_shows_the_source_error() {
    let (sink, receiver) = GtkCaptionSink::bridge();
    let mut controller = Controller::new(&config(false, false), Vec::new());
    assert!(matches!(
        controller.handle_action(start("gone")),
        ControllerCommand::Continue
    ));
    assert!(matches!(
        controller.handle_action(CaptionUiAction::Shutdown),
        ControllerCommand::Finish {
            outcome: ControllerOutcome::Completed,
            cancel_session: false
        }
    ));
    deliver_all(&sink, controller.take_notices());
    assert_eq!(
        receiver.take_update(),
        Ok(UiUpdate {
            presentation: None,
            error: Some(Some(
                "The selected PipeWire source is no longer available.".to_owned()
            )),
            quit: false,
        })
    );
}

#[test]
fn completion_shows_the_counts_and_stops_running() {
    let (sink, receiver) = GtkCaptionSink::bridge();
    deliver_all(
        &sink,
        completion_notices(Ok(RunSummary {
            audio_chunks: 3,
            caption_updates: 5,
        })),
    );
    assert_eq!(
        receiver.take_update(),
        Ok(UiUpdate {
            presentation: Some(UiPresentation {
                caption: None,
                running: Some(false),
                status: Some("Stopped \u{b7} 3 chunks \u{b7} 5 captions".to_owned()),
            }),
            error: None,
            quit: false,
        })
    );
    let (sink, receiver) = GtkCaptionSink::bridge();
    deliver_all(&sink, completion_notices(Err("capture failed".to_owned())));
    let update = receiver.take_update().unwrap();
    assert_eq!(update.error, Some(Some("capture failed".to_owned())));
    assert_eq!(update.presentation.unwrap().status.as_deref(), Some("Error"));
}

#[test]
fn started_session_and_its_stop_are_announced() {
    let mut controller = Controller::new(&config(true, false), sources());
    assert!(matches!(
        controller.handle_action(start("mic")),
        ControllerCommand::StartSession { .. }
    ));
    assert_eq!(
        controller.take_notices(),
        vec![
            BridgeCommand::ClearError,
            BridgeCommand::SetRunning(true),
            BridgeCommand::SetStatus("Loading model\u{2026}".to_owned()),
        ]
    );
    controller.session_started();
    assert!(matches!(
        controller.handle_action(CaptionUiAction::Stop),
        ControllerCommand::CancelSession
    ));
    assert_eq!(
        controller.take_notices(),
        vec![BridgeCommand::SetStatus("Stopping\u{2026}".to_owned())]
    );
    assert_eq!(controller.session_failed_to_start("model missing"), None);
    assert_eq!(
        controller.take_notices(),
        vec![
            BridgeCommand::SetRunning(false),
            BridgeCommand::SetStatus("Error".to_owned()),
            BridgeCommand::ShowError("model missing".to_owned()),
        ]
    );
}

#[test]
fn demo_reports_bridge_teardown_as_failure() {
    let (sink, receiver) = GtkCaptionSink::bridge();
    drop(receiver);

    assert!(begin_demo(&sink).is_err());
    let mut state = CaptionState::new();
    assert!(publish_demo_caption(&sink, &mut state, 0).is_err());
    assert!(end_demo(&sink).is_err());
}
