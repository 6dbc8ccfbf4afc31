use std::cell::Cell;
use std::sync::mpsc::{sync_channel, RecvTimeoutError};
use std::time::Duration;

use lcrt::audio::{AudioChunk, AudioChunkError, AudioSourceKind};
use lcrt::capture::chunk::{
    chunk_layout, decode_chunk, decode_f32le, decode_silence, negotiated_format, raw_audio_check,
    normalized_chunk_bytes, ChunkLayout, ChunkOutcome, NegotiatedFormat, CHUNK_FLAG_CORRUPTED,
    SPA_CHUNK_FLAG_EMPTY,
};
use lcrt::capture::config::{remaining_budget, PipeWireCaptureConfig};
use lcrt::capture::control::{
    audio_wait_result, disconnect_outcome, end_of_run_event, joined_worker_result,
    result_after_audio_disconnect, terminal_failure_event, AudioWait,
    try_send_terminal_failure, AudioEvent, CaptureEvents, ControlEvent, ControlPoll,
    ShutdownStart, WorkerAwait, WorkerJoin,
};
use lcrt::capture::diagnostic::{find_capture_source, parse_capture_arguments, CaptureArgsError, CaptureCommand};
use lcrt::capture::error::PipeWireError;
use lcrt::capture::stream::{stream_state_reaction, StreamReaction, StreamStatus};
use lcrt::capture::sources::{
    enumeration_timeout_check, ordered_sources, source_from_global, source_kind,
};
use lcrt::audio::{AudioInputEvent, AudioSourceDescriptor};

fn bits(samples: &[f32]) -> Vec<u32> {
    samples.iter().map(|sample| sample.to_bits()).collect()
}

#[test]
fn config_rejects_an_unbounded_zero_capacity_queue() {
    let config = PipeWireCaptureConfig {
        queue_capacity: 0,
        ..PipeWireCaptureConfig::default()
    };
    assert_eq!(
        config.validate(),
        Err(PipeWireError::InvalidConfiguration(
            "queue capacity must be greater than zero"
        ))
    );
}

#[test]
fn config_rejects_zero_startup_timeout() {
    let config = PipeWireCaptureConfig {
        startup_timeout: Duration::ZERO,
        ..PipeWireCaptureConfig::default()
    };
    assert_eq!(
        config.validate(),
        Err(PipeWireError::InvalidConfiguration(
            "startup timeout must be greater than zero"
        ))
    );
}

#[test]
fn config_rejects_zero_shutdown_timeout() {
    let config = PipeWireCaptureConfig {
        shutdown_timeout: Duration::ZERO,
        ..PipeWireCaptureConfig::default()
    };
    assert_eq!(
        config.validate(),
        Err(PipeWireError::InvalidConfiguration(
            "shutdown timeout must be greater than zero"
        ))
    );
}

#[test]
fn default_capture_config_is_valid_and_bounded() {
    let config = PipeWireCaptureConfig::default();
    assert_eq!(config.queue_capacity, 8);
    assert_eq!(config.startup_timeout, Duration::from_secs(5));
    assert_eq!(config.shutdown_timeout, Duration::from_secs(5));
    assert_eq!(config.validate(), Ok(()));
}

#[test]
fn normalizes_a_contiguous_chunk_range() {
    let layout = chunk_layout(4, 1, 2, 0).unwrap();
    assert_eq!(
        layout,
        ChunkLayout::Payload {
            start: 1,
            byte_len: 2
        }
    );
    let bytes = normalized_chunk_bytes(&[0, 1, 2, 3], 4, 1, 2).unwrap();
    assert_eq!(bytes.as_slice(), &[1, 2]);
}

#[test]
fn normalizes_large_offset_and_reconstructs_wrapped_chunk_range() {
    assert_eq!(
        chunk_layout(4, u32::MAX, 3, 0).unwrap(),
        ChunkLayout::Payload {
            start: 3,
            byte_len: 3
        }
    );
    let bytes = normalized_chunk_bytes(&[0, 1, 2, 3], 4, 3, 3).unwrap();
    assert_eq!(bytes.as_slice(), &[3, 0, 1]);
}

#[test]
fn clamps_oversized_contiguous_and_wrapped_chunk_ranges() {
    assert_eq!(
        chunk_layout(4, 0, 5, 0).unwrap(),
        ChunkLayout::Payload {
            start: 0,
            byte_len: 4
        }
    );
    assert_eq!(
        normalized_chunk_bytes(&[0, 1, 2, 3], 4, 0, 4)
            .unwrap()
            .as_slice(),
        &[0, 1, 2, 3]
    );
    assert_eq!(
        chunk_layout(4, 3, u32::MAX, 0).unwrap(),
        ChunkLayout::Payload {
            start: 3,
            byte_len: 4
        }
    );
    assert_eq!(
        normalized_chunk_bytes(&[0, 1, 2, 3], 4, 3, 4)
            .unwrap()
            .as_slice(),
        &[3, 0, 1, 2]
    );
}

#[test]
fn handles_zero_size_and_rejects_empty_backing_with_media() {
    assert_eq!(
        chunk_layout(0, u32::MAX, 0, 0).unwrap(),
        ChunkLayout::NoMedia
    );
    assert_eq!(
        chunk_layout(0, 0, 1, 0),
        Err("chunk contains media but its maximum backing size is zero".to_owned())
    );
}

#[test]
fn empty_chunk_becomes_bounded_neutral_pcm_without_reading_backing_bytes() {
    let layout = chunk_layout(16, u32::MAX, 8, SPA_CHUNK_FLAG_EMPTY).unwrap();
    assert_eq!(layout, ChunkLayout::Silence { byte_len: 8 });
    let chunk = decode_silence(
        8,
        NegotiatedFormat {
            sample_rate_hz: 48_000,
            channels: 2,
        },
    )
    .unwrap();

    assert_eq!(chunk.samples(), bits(&[0.0, 0.0]).as_slice());
    assert_eq!(chunk.frame_count(), 1);
}

#[test]
fn empty_chunk_requires_complete_samples_and_frames() {
    assert_eq!(
        decode_silence(
            3,
            NegotiatedFormat {
                sample_rate_hz: 48_000,
                channels: 1,
            }
        ),
        Err("PipeWire returned an EMPTY chunk with a partial F32 sample".to_owned())
    );
    assert_eq!(
        decode_silence(
            4,
            NegotiatedFormat {
                sample_rate_hz: 48_000,
                channels: 2,
            }
        ),
        Err(
            "PipeWire returned an EMPTY chunk whose 1 samples do not form complete 2-channel frames"
                .to_owned()
        )
    );
}

#[test]
fn corrupted_chunk_is_dropped_without_becoming_a_terminal_error() {
    assert_eq!(
        chunk_layout(4, 0, 4, CHUNK_FLAG_CORRUPTED).unwrap(),
        ChunkLayout::Corrupted
    );
}

#[test]
fn malformed_backing_relationship_is_rejected() {
    assert_eq!(
        normalized_chunk_bytes(&[0, 1, 2], 4, 0, 2),
        Err("mapped backing length 3 does not match advertised maximum size 4".to_owned())
    );
}

#[test]
fn fatal_control_event_survives_a_full_audio_queue() {
    let (audio_sender, _audio_receiver) = sync_channel(1);
    let (control_sender, control_receiver) = sync_channel(1);
    audio_sender
        .try_send(AudioEvent::Audio(
            AudioChunk::new(bits(&[0.0]), 48_000, 1).unwrap(),
        ))
        .unwrap();
    control_sender
        .try_send(ControlEvent::Failure(
            "selected source disconnected".to_owned(),
        ))
        .unwrap();

    match control_receiver.try_recv().unwrap() {
        ControlEvent::Failure(message) => assert_eq!(message, "selected source disconnected"),
        ControlEvent::Stopped => panic!("expected fatal failure"),
    }
}

#[test]
fn queued_terminal_failure_wins_after_blocked_audio_receive_disconnects() {
    let (audio_sender, audio_receiver) = sync_channel::<AudioEvent>(1);
    let (control_sender, control_receiver) = sync_channel(1);
    control_sender
        .try_send(ControlEvent::Failure(
            "selected source disconnected".to_owned(),
        ))
        .unwrap();
    drop(audio_sender);

    assert!(matches!(
        audio_receiver.recv_timeout(Duration::from_secs(1)),
        Err(RecvTimeoutError::Disconnected)
    ));
    let mut terminal = false;
    let error = result_after_audio_disconnect(&control_receiver, &mut terminal).unwrap_err();

    assert_eq!(error.message(), "selected source disconnected");
    assert!(terminal);
}

#[test]
fn terminal_failure_is_emitted_exactly_once() {
    let (control_sender, control_receiver) = sync_channel(1);
    let terminal_sent = Cell::new(false);

    try_send_terminal_failure(&control_sender, &terminal_sent, "first failure".to_owned());
    try_send_terminal_failure(&control_sender, &terminal_sent, "second failure".to_owned());

    match control_receiver.try_recv().unwrap() {
        ControlEvent::Failure(message) => assert_eq!(message, "first failure"),
        ControlEvent::Stopped => panic!("expected fatal failure"),
    }
    assert!(control_receiver.try_recv().is_err());
}

#[test]
fn startup_cleanup_uses_only_the_remaining_startup_budget() {
    assert_eq!(
        remaining_budget(Duration::from_secs(5), Duration::from_secs(3)),
        Duration::from_secs(2)
    );
    assert_eq!(
        remaining_budget(Duration::from_secs(5), Duration::from_secs(5)),
        Duration::ZERO
    );
    assert_eq!(
        remaining_budget(Duration::from_secs(5), Duration::from_secs(9)),
        Duration::ZERO
    );
}

#[test]
fn decoder_preserves_f32le_samples_and_format() {
    let bytes = [0.25_f32.to_le_bytes(), (-0.5_f32).to_le_bytes()].concat();
    let chunk = decode_f32le(
        &bytes,
        NegotiatedFormat {
            sample_rate_hz: 48_000,
            channels: 1,
        },
    )
    .unwrap();

    assert_eq!(chunk.samples(), bits(&[0.25, -0.5]).as_slice());
    assert_eq!(chunk.sample_rate_hz(), 48_000);
    assert_eq!(chunk.channels(), 1);
}

#[test]
fn decoder_rejects_partial_f32_sample() {
    let error = decode_f32le(
        &[0, 1, 2],
        NegotiatedFormat {
            sample_rate_hz: 48_000,
            channels: 1,
        },
    )
    .unwrap_err();

    assert_eq!(error, "PipeWire returned a partial F32 sample");
}

#[test]
fn classifies_microphones_and_output_sinks_only() {
    assert_eq!(
        source_kind("Audio/Source"),
        Some(AudioSourceKind::Microphone)
    );
    assert_eq!(
        source_kind("Audio/Sink"),
        Some(AudioSourceKind::SystemOutput)
    );
    assert_eq!(source_kind("Video/Source"), None);
}

#[test]
fn registry_globals_become_sources_only_when_named_audio_nodes() {
    let mic = source_from_global(
        true,
        Some("Audio/Source"),
        Some("alsa_input.usb"),
        Some("USB microphone"),
        Some("mic"),
    )
    .unwrap();
    assert_eq!(mic.id(), "alsa_input.usb");
    assert_eq!(mic.name(), "USB microphone");
    assert_eq!(mic.kind(), AudioSourceKind::Microphone);

    let sink = source_from_global(true, Some("Audio/Sink"), Some("speakers"), None, Some("Spk"))
        .unwrap();
    assert_eq!(sink.name(), "Spk");
    assert_eq!(sink.kind(), AudioSourceKind::SystemOutput);

    let bare = source_from_global(true, Some("Audio/Sink"), Some("hdmi"), None, None).unwrap();
    assert_eq!(bare.name(), "hdmi");

    assert!(source_from_global(false, Some("Audio/Source"), Some("x"), None, None).is_none());
    assert!(source_from_global(true, None, Some("x"), None, None).is_none());
    assert!(source_from_global(true, Some("Video/Source"), Some("x"), None, None).is_none());
    assert!(source_from_global(true, Some("Audio/Source"), None, Some("Mic"), None).is_none());
}

#[test]
fn discovered_sources_are_ordered_by_name_then_id_without_adjacent_duplicates() {
    let found = vec![
        AudioSourceDescriptor::new("b", "Speakers", AudioSourceKind::SystemOutput),
        AudioSourceDescriptor::new("z", "Alpha", AudioSourceKind::Microphone),
        AudioSourceDescriptor::new("a", "Alpha", AudioSourceKind::Microphone),
        AudioSourceDescriptor::new("a", "Alpha", AudioSourceKind::SystemOutput),
        AudioSourceDescriptor::new("c", "\u{e9}cran", AudioSourceKind::SystemOutput),
    ];
    let ordered = ordered_sources(found);
    let listed: Vec<(&str, &str, AudioSourceKind)> = ordered
        .iter()
        .map(|source| (source.id(), source.name(), source.kind()))
        .collect();
    assert_eq!(
        listed,
        vec![
            ("a", "Alpha", AudioSourceKind::Microphone),
            ("z", "Alpha", AudioSourceKind::Microphone),
            ("b", "Speakers", AudioSourceKind::SystemOutput),
            ("c", "\u{e9}cran", AudioSourceKind::SystemOutput),
        ]
    );
}

#[test]
fn dedup_only_removes_neighbouring_identifiers() {
    let found = vec![
        AudioSourceDescriptor::new("x", "Bravo", AudioSourceKind::Microphone),
        AudioSourceDescriptor::new("x", "Alpha", AudioSourceKind::Microphone),
        AudioSourceDescriptor::new("y", "Alpha", AudioSourceKind::Microphone),
        AudioSourceDescriptor::new("y", "Charlie", AudioSourceKind::Microphone),
    ];
    let ordered = ordered_sources(found);
    let listed: Vec<(&str, &str)> = ordered
        .iter()
        .map(|source| (source.id(), source.name()))
        .collect();
    assert_eq!(
        listed,
        vec![("x", "Alpha"), ("y", "Alpha"), ("x", "Bravo"), ("y", "Charlie")]
    );
}

#[test]
fn negotiated_format_requires_f32le_and_usable_rate_and_channels() {
    assert_eq!(
        negotiated_format(true, 48_000, 2),
        Ok(NegotiatedFormat {
            sample_rate_hz: 48_000,
            channels: 2
        })
    );
    assert_eq!(
        negotiated_format(false, 48_000, 2),
        Err(PipeWireError::InvalidNegotiatedFormat(
            "only interleaved F32LE PCM is supported".to_owned()
        ))
    );
    for (rate, channels) in [(0, 2), (48_000, 0), (48_000, 70_000)] {
        assert_eq!(
            negotiated_format(true, rate, channels),
            Err(PipeWireError::InvalidNegotiatedFormat(
                "channel count or sample rate was zero or too large".to_owned()
            ))
        );
    }
}

#[test]
fn dequeued_chunks_are_decoded_dropped_or_rejected() {
    let format = NegotiatedFormat {
        sample_rate_hz: 16_000,
        channels: 1,
    };
    let backing = [0.5_f32.to_le_bytes(), 0.25_f32.to_le_bytes()].concat();
    match decode_chunk(format, 8, 4, 8, 0, Some(&backing)) {
        ChunkOutcome::Audio(chunk) => assert_eq!(chunk.samples(), bits(&[0.25, 0.5]).as_slice()),
        other => panic!("expected audio, got {other:?}"),
    }
    assert!(matches!(
        decode_chunk(format, 8, 0, 8, CHUNK_FLAG_CORRUPTED, Some(&backing)),
        ChunkOutcome::Corrupted
    ));
    assert!(matches!(
        decode_chunk(format, 8, 0, 0, 0, Some(&backing)),
        ChunkOutcome::NoMedia
    ));
    match decode_chunk(format, 8, 0, 8, SPA_CHUNK_FLAG_EMPTY, None) {
        ChunkOutcome::Audio(chunk) => assert_eq!(chunk.samples(), &[0, 0]),
        other => panic!("expected silence, got {other:?}"),
    }
    match decode_chunk(format, 8, 0, 8, 0, None) {
        ChunkOutcome::Malformed(message) => assert_eq!(message, "mapped PCM data was unavailable"),
        other => panic!("expected a malformed buffer, got {other:?}"),
    }
    match decode_chunk(format, 8, 0, 6, 0, Some(&backing)) {
        ChunkOutcome::Malformed(message) => {
            assert_eq!(message, "PipeWire returned a partial F32 sample")
        }
        other => panic!("expected a malformed buffer, got {other:?}"),
    }
}

#[test]
fn disconnect_without_a_queued_event_reports_the_disconnect() {
    let mut terminal = false;
    let error = disconnect_outcome(ControlPoll::Empty, &mut terminal).unwrap_err();
    assert_eq!(
        error.message(),
        "PipeWire capture audio channel disconnected unexpectedly"
    );
    assert!(!terminal);
    let error = disconnect_outcome(ControlPoll::Event(ControlEvent::Stopped), &mut terminal)
        .unwrap_err();
    assert_eq!(
        error.message(),
        "PipeWire capture stopped before the application requested shutdown"
    );
    assert!(terminal);
}

#[test]
fn capture_events_report_audio_then_end_of_stream_once_ended() {
    let (audio_sender, audio_events) = sync_channel(2);
    let (control_sender, control_events) = sync_channel(1);
    let (_done_sender, worker_done) = sync_channel(1);
    let mut events = CaptureEvents::new(audio_events, control_events, worker_done);
    audio_sender
        .try_send(AudioEvent::Audio(
            AudioChunk::new(bits(&[0.1, 0.2]), 16_000, 1).unwrap(),
        ))
        .unwrap();
    match events.next_event(Duration::from_millis(10)).unwrap() {
        AudioInputEvent::Chunk(chunk) => assert_eq!(chunk.sample_count(), 2),
        other => panic!("expected audio, got {other:?}"),
    }
    assert_eq!(
        events.next_event(Duration::from_millis(1)),
        Ok(AudioInputEvent::Idle)
    );
    control_sender.try_send(ControlEvent::Stopped).unwrap();
    let error = events.next_event(Duration::from_millis(1)).unwrap_err();
    assert_eq!(
        error.message(),
        "PipeWire capture stopped before the application requested shutdown"
    );
    assert!(events.terminal());
    assert_eq!(
        events.next_event(Duration::from_millis(1)),
        Ok(AudioInputEvent::EndOfStream)
    );
}

#[test]
fn stopping_capture_ends_the_event_stream() {
    let (_audio_sender, audio_events) = sync_channel::<AudioEvent>(1);
    let (_control_sender, control_events) = sync_channel(1);
    let (_done_sender, worker_done) = sync_channel(1);
    let mut events = CaptureEvents::new(audio_events, control_events, worker_done);
    assert_eq!(events.begin_shutdown(), ShutdownStart::SendStop);
    assert!(events.stop_requested());
    assert_eq!(
        events.next_event(Duration::from_millis(1)),
        Ok(AudioInputEvent::EndOfStream)
    );
}

#[test]
fn pipewire_errors_describe_their_cause() {
    assert!(PipeWireError::SelectedSourceUnavailable
        .message()
        .contains("select another source"));
    assert_eq!(
        PipeWireError::InvalidConfiguration("queue capacity must be greater than zero").message(),
        "invalid PipeWire capture configuration: queue capacity must be greater than zero"
    );
    assert_eq!(
        PipeWireError::StartupTimeout(Duration::from_secs(5)).message(),
        "PipeWire capture did not start within 5s; check that the selected source is available"
    );
}

#[test]
fn audio_chunk_reports_complete_interleaved_frames() {
    let chunk = AudioChunk::new(bits(&[0.1, -0.1, 0.2, -0.2]), 48_000, 2).unwrap();
    assert_eq!(chunk.frame_count(), 2);
    assert_eq!(chunk.channels(), 2);
    assert_eq!(chunk.sample_rate_hz(), 48_000);
}

#[test]
fn audio_chunk_rejects_incomplete_frames() {
    let error = AudioChunk::new(bits(&[0.1, -0.1, 0.2]), 48_000, 2).unwrap_err();
    assert_eq!(
        error,
        AudioChunkError::IncompleteFrame {
            sample_count: 3,
            channels: 2
        }
    );
}

#[test]
fn audio_chunk_rejects_empty_silent_rate_and_non_finite_input() {
    assert_eq!(AudioChunk::new(Vec::new(), 48_000, 1), Err(AudioChunkError::Empty));
    assert_eq!(
        AudioChunk::new(bits(&[0.0]), 0, 1),
        Err(AudioChunkError::ZeroSampleRate)
    );
    assert_eq!(
        AudioChunk::new(bits(&[0.0]), 48_000, 0),
        Err(AudioChunkError::ZeroChannels)
    );
    assert!(matches!(
        AudioChunk::new(bits(&[0.0, f32::NAN]), 48_000, 1),
        Err(AudioChunkError::NonFiniteSample)
    ));
    assert!(matches!(
        AudioChunk::new(bits(&[f32::INFINITY]), 48_000, 1),
        Err(AudioChunkError::NonFiniteSample)
    ));
}

#[test]
fn timed_out_shutdown_remains_retryable_until_worker_is_joined() {
    let (_audio_sender, audio_events) = sync_channel::<AudioEvent>(1);
    let (_control_sender, control_events) = sync_channel(1);
    let (worker_done_sender, worker_done) = sync_channel(1);
    let mut events = CaptureEvents::new(audio_events, control_events, worker_done);

    assert_eq!(events.begin_shutdown(), ShutdownStart::SendStop);
    match events.await_worker(true, Duration::ZERO) {
        WorkerAwait::Pending(error) => {
            assert!(error.message().contains("shutdown remains pending"))
        }
        other => panic!("expected a pending shutdown, got {other:?}"),
    }
    assert!(events.stop_requested());
    assert!(!events.stopped());

    worker_done_sender.try_send(()).unwrap();
    assert_eq!(events.begin_shutdown(), ShutdownStart::AwaitWorker);
    assert!(matches!(
        events.await_worker(true, Duration::ZERO),
        WorkerAwait::Join
    ));
    assert_eq!(joined_worker_result(WorkerJoin::Returned(Ok(()))), Ok(()));
    assert!(events.stopped());
    assert_eq!(events.begin_shutdown(), ShutdownStart::AlreadyStopped);
    assert_eq!(events.begin_shutdown(), ShutdownStart::AlreadyStopped);
}

#[test]
fn shutdown_without_a_worker_stops_at_once_and_reports_worker_failures() {
    let (_audio_sender, audio_events) = sync_channel::<AudioEvent>(1);
    let (_control_sender, control_events) = sync_channel(1);
    let (_done_sender, worker_done) = sync_channel(1);
    let mut events = CaptureEvents::new(audio_events, control_events, worker_done);
    assert_eq!(events.begin_shutdown(), ShutdownStart::SendStop);
    assert!(matches!(
        events.await_worker(false, Duration::ZERO),
        WorkerAwait::Stopped
    ));
    assert!(events.stopped());

    assert_eq!(
        joined_worker_result(WorkerJoin::Returned(Err(PipeWireError::WorkerStopped)))
            .unwrap_err()
            .message(),
        "PipeWire capture worker stopped unexpectedly"
    );
    assert_eq!(
        joined_worker_result(WorkerJoin::Panicked).unwrap_err().message(),
        "PipeWire capture worker panicked during shutdown"
    );
}

#[test]
fn enumeration_requires_a_non_zero_timeout() {
    assert_eq!(
        enumeration_timeout_check(Duration::ZERO),
        Err(PipeWireError::InvalidConfiguration(
            "enumeration timeout must be greater than zero"
        ))
    );
    assert_eq!(enumeration_timeout_check(Duration::from_secs(3)), Ok(()));
}

#[test]
fn stream_state_changes_map_to_reactions() {
    assert_eq!(
        stream_state_reaction(&StreamStatus::Paused, StreamStatus::Streaming, false),
        StreamReaction::ReportStarted
    );
    assert_eq!(
        stream_state_reaction(&StreamStatus::Streaming, StreamStatus::Error("gone".to_owned()), true),
        StreamReaction::Fatal(PipeWireError::StreamFailure("gone".to_owned()))
    );
    assert_eq!(
        stream_state_reaction(&StreamStatus::Streaming, StreamStatus::Unconnected, false),
        StreamReaction::Fatal(PipeWireError::SelectedSourceUnavailable)
    );
    assert_eq!(
        stream_state_reaction(&StreamStatus::Streaming, StreamStatus::Unconnected, true),
        StreamReaction::Ignore
    );
    assert_eq!(
        stream_state_reaction(&StreamStatus::Unconnected, StreamStatus::Unconnected, false),
        StreamReaction::Ignore
    );
    assert_eq!(
        stream_state_reaction(&StreamStatus::Unconnected, StreamStatus::Connecting, false),
        StreamReaction::Ignore
    );
}

fn strings(values: &[&str]) -> Vec<String> {
    values.iter().map(|value| (*value).to_owned()).collect()
}

#[test]
fn capture_diagnostic_lists_by_default() {
    assert_eq!(parse_capture_arguments(Vec::new()), Ok(CaptureCommand::List));
    assert_eq!(parse_capture_arguments(strings(&["list", "extra"])), Ok(CaptureCommand::List));
}

#[test]
fn capture_diagnostic_clamps_seconds_to_one_through_thirty() {
    let capture = |seconds: u64| CaptureCommand::Capture { source_id: "42".to_owned(), seconds };
    assert_eq!(parse_capture_arguments(strings(&["capture", "42"])), Ok(capture(3)));
    assert_eq!(parse_capture_arguments(strings(&["capture", "42", "0"])), Ok(capture(1)));
    assert_eq!(parse_capture_arguments(strings(&["capture", "42", "12"])), Ok(capture(12)));
    assert_eq!(parse_capture_arguments(strings(&["capture", "42", "+31"])), Ok(capture(30)));
    assert_eq!(
        parse_capture_arguments(strings(&["capture", "42", "18446744073709551615"])),
        Ok(capture(30))
    );
}

#[test]
fn capture_diagnostic_rejects_bad_arguments() {
    let missing = parse_capture_arguments(strings(&["capture"])).unwrap_err();
    assert_eq!(missing, CaptureArgsError::MissingSource);
    assert_eq!(missing.message(), "usage: lcrt-pw-capture capture <source-id> [seconds]");
    let invalid = parse_capture_arguments(strings(&["capture", "42", "3s"])).unwrap_err();
    assert_eq!(invalid.message(), "3s".parse::<u64>().unwrap_err().to_string());
    assert!(matches!(
        parse_capture_arguments(strings(&["capture", "42", "18446744073709551616"])),
        Err(CaptureArgsError::InvalidSeconds(_))
    ));
    assert!(matches!(
        parse_capture_arguments(strings(&["capture", "42", "-1"])),
        Err(CaptureArgsError::InvalidSeconds(_))
    ));
    let unknown = parse_capture_arguments(strings(&["record"])).unwrap_err();
    assert_eq!(unknown.message(), "unknown command `record`; expected `list` or `capture`");
}

#[test]
fn capture_diagnostic_finds_the_first_source_with_the_id() {
    let sources = vec![
        AudioSourceDescriptor::new("7", "Desk microphone", AudioSourceKind::Microphone),
        AudioSourceDescriptor::new("9", "Speakers", AudioSourceKind::SystemOutput),
        AudioSourceDescriptor::new("9", "Other", AudioSourceKind::Microphone),
    ];
    let found = find_capture_source(sources, "9").unwrap();
    assert_eq!(found.name(), "Speakers");
    let missing = find_capture_source(
        vec![AudioSourceDescriptor::new("7", "Desk microphone", AudioSourceKind::Microphone)],
        "8",
    );
    assert_eq!(missing.unwrap_err(), "PipeWire source `8` was not found");
}

#[test]
fn only_raw_audio_formats_are_negotiated() {
    assert_eq!(raw_audio_check(true, true), Ok(()));
    for (is_audio, is_raw) in [(false, true), (true, false), (false, false)] {
        assert_eq!(
            raw_audio_check(is_audio, is_raw),
            Err(PipeWireError::InvalidNegotiatedFormat("expected raw audio".to_owned()))
        );
    }
}

#[test]
fn an_audio_wait_becomes_the_session_event() {
    let chunk = AudioChunk::new(vec![0.5f32.to_bits(); 2], 48_000, 2).unwrap();
    assert_eq!(
        audio_wait_result(AudioWait::Event(AudioEvent::Audio(chunk.clone()))),
        Some(Ok(AudioInputEvent::Chunk(chunk)))
    );
    assert_eq!(audio_wait_result(AudioWait::Timeout), Some(Ok(AudioInputEvent::Idle)));
    assert!(audio_wait_result(AudioWait::Disconnected).is_none());
}

#[test]
fn only_the_first_terminal_event_is_sent() {
    assert!(matches!(
        terminal_failure_event(false, "first failure".to_owned()),
        Some(ControlEvent::Failure(message)) if message == "first failure"
    ));
    assert!(terminal_failure_event(true, "second failure".to_owned()).is_none());
    assert!(matches!(end_of_run_event(false, false), Some(ControlEvent::Stopped)));
    assert!(end_of_run_event(true, false).is_none());
    assert!(end_of_run_event(false, true).is_none());
}

#[test]
fn capture_seconds_are_read_as_u64_from_str_reads_them() {
    for text in ["", "+", "-", "-1", "1_0", " 3", "18446744073709551616", "99999999999999999999x", "3s"] {
        let error = parse_capture_arguments(strings(&["capture", "42", text])).unwrap_err();
        assert_eq!(error.message(), text.parse::<u64>().unwrap_err().to_string(), "{text:?}");
    }
    assert_eq!(
        parse_capture_arguments(strings(&["capture", "42", "+007"])),
        Ok(CaptureCommand::Capture { source_id: "42".to_owned(), seconds: 7 })
    );
}
