use lcrt::bridge::{BridgeCommand, BridgeState, GtkCaptionReceiver, GtkCaptionSink, UiPresentation};
use lcrt::caption::{CaptionSnapshot, CaptionState, CaptionStatus};
use lcrt::transcription::TranscriptUpdate;
use lcrt::ui::CaptionSink;

fn snapshot(
    state: &mut CaptionState,
    text: &str,
    final_caption: bool,
) -> CaptionSnapshot {
    let update = if final_caption {
        TranscriptUpdate::finalized(text)
    } else {
        TranscriptUpdate::partial(text)
    };
    state.apply(update.unwrap()).unwrap()
}

fn presentation(receiver: &GtkCaptionReceiver) -> UiPresentation {
    receiver.take_update().unwrap().presentation.unwrap()
}

#[test]
fn caption_flood_is_coalesced_to_the_newest_snapshot() {
    let (mut sink, receiver) = GtkCaptionSink::bridge();
    let mut captions = CaptionState::new();
    for revision in 1..=10_000 {
        sink.publish(snapshot(
            &mut captions,
            &format!("caption {revision}"),
            false,
        ))
        .unwrap();
    }

    assert_eq!(presentation(&receiver).caption.unwrap().revision(), 10_000);
    assert!(receiver.take_update().unwrap().presentation.is_none());
}

#[test]
fn stale_partial_cannot_replace_a_newer_final() {
    let (mut sink, receiver) = GtkCaptionSink::bridge();
    let mut captions = CaptionState::new();
    let partial = snapshot(&mut captions, "draft", false);
    let final_caption = snapshot(&mut captions, "final", true);

    sink.publish(final_caption).unwrap();
    sink.publish(partial).unwrap();

    let presentation = presentation(&receiver);
    assert_eq!(
        presentation.caption.unwrap().caption().status(),
        CaptionStatus::Final
    );
    assert_eq!(presentation.status.as_deref(), Some("Final"));
}

#[test]
fn final_is_observed_before_a_newer_utterance_partial() {
    let (mut sink, receiver) = GtkCaptionSink::bridge();
    let mut captions = CaptionState::new();

    sink.publish(snapshot(&mut captions, "utterance A", true))
        .unwrap();
    sink.publish(snapshot(&mut captions, "utterance B", false))
        .unwrap();

    let final_presentation = presentation(&receiver);
    assert_eq!(
        final_presentation.caption.unwrap().caption().text(),
        "utterance A"
    );
    assert_eq!(final_presentation.status.as_deref(), Some("Final"));
    let partial_presentation = presentation(&receiver);
    assert_eq!(
        partial_presentation.caption.unwrap().caption().text(),
        "utterance B"
    );
    assert_eq!(partial_presentation.status.as_deref(), Some("Listening…"));
    assert!(receiver.take_update().unwrap().presentation.is_none());
}

#[test]
fn repeated_rollover_retains_only_one_final_and_one_partial() {
    let (mut sink, receiver) = GtkCaptionSink::bridge();
    let mut captions = CaptionState::new();
    for utterance in 0..1_000 {
        sink.publish(snapshot(&mut captions, &format!("final {utterance}"), true))
            .unwrap();
        sink.publish(snapshot(
            &mut captions,
            &format!("partial {utterance}"),
            false,
        ))
        .unwrap();
    }

    assert_eq!(
        presentation(&receiver).caption.unwrap().caption().text(),
        "final 999"
    );
    assert_eq!(
        presentation(&receiver).caption.unwrap().caption().text(),
        "partial 999"
    );
    assert!(receiver.take_update().unwrap().presentation.is_none());
}

#[test]
fn later_caption_status_wins_over_earlier_explicit_status() {
    let (mut sink, receiver) = GtkCaptionSink::bridge();
    let mut captions = CaptionState::new();
    sink.set_status("Listening…").unwrap();
    sink.publish(snapshot(&mut captions, "complete", true))
        .unwrap();
    assert_eq!(presentation(&receiver).status.as_deref(), Some("Final"));

    sink.set_status("Stopping…").unwrap();
    sink.publish(snapshot(&mut captions, "next words", false))
        .unwrap();
    assert_eq!(
        presentation(&receiver).status.as_deref(),
        Some("Listening…")
    );
}

#[test]
fn later_explicit_status_wins_over_final_caption_status() {
    let (mut sink, receiver) = GtkCaptionSink::bridge();
    let mut captions = CaptionState::new();
    sink.publish(snapshot(&mut captions, "complete", true))
        .unwrap();
    sink.set_status("Error").unwrap();

    let presentation = presentation(&receiver);
    assert_eq!(
        presentation.caption.unwrap().caption().status(),
        CaptionStatus::Final
    );
    assert_eq!(presentation.status.as_deref(), Some("Error"));
}

#[test]
fn running_and_status_follow_publication_order() {
    let (sink, receiver) = GtkCaptionSink::bridge();
    sink.set_running(false).unwrap();
    sink.set_status("Error").unwrap();
    let first_presentation = presentation(&receiver);
    assert_eq!(first_presentation.running, Some(false));
    assert_eq!(first_presentation.status.as_deref(), Some("Error"));

    sink.set_status("Stopping…").unwrap();
    sink.set_running(false).unwrap();
    assert_eq!(presentation(&receiver).status.as_deref(), Some("Stopped"));
}

#[test]
fn control_state_remains_observable_during_caption_saturation() {
    let (mut sink, receiver) = GtkCaptionSink::bridge();
    let mut captions = CaptionState::new();
    for revision in 0..1_024 {
        sink.publish(snapshot(
            &mut captions,
            &format!("caption {revision}"),
            false,
        ))
        .unwrap();
    }
    sink.show_error("capture failed").unwrap();
    sink.set_running(false).unwrap();
    sink.set_status("Error").unwrap();
    sink.quit().unwrap();

    let update = receiver.take_update().unwrap();
    assert_eq!(
        update.presentation.unwrap().caption.unwrap().revision(),
        1_024
    );
    assert_eq!(update.error, Some(Some("capture failed".to_owned())));
    assert!(update.quit);
}

#[test]
fn last_producer_disappearance_is_terminal_for_receiver() {
    let (sink, receiver) = GtkCaptionSink::bridge();
    drop(sink);

    assert!(receiver.take_update().is_err());
}

#[test]
fn last_producer_state_is_drained_before_disconnect() {
    let (sink, receiver) = GtkCaptionSink::bridge();
    sink.quit().unwrap();
    drop(sink);

    assert!(receiver.take_update().unwrap().quit);
}

#[test]
fn receiver_disappearance_is_terminal_for_producer() {
    let (sink, receiver) = GtkCaptionSink::bridge();
    drop(receiver);

    assert!(sink.quit().is_err());
}

#[test]
fn bridge_rejects_empty_errors_and_statuses() {
    let (sink, _receiver) = GtkCaptionSink::bridge();
    assert!(sink.show_error("  ").is_err());
    assert!(sink.set_status("").is_err());
}

#[test]
fn bridge_state_applies_only_while_the_receiver_is_open() {
    let mut state = BridgeState::new();
    let refused = state.accept(BridgeCommand::Quit, false).unwrap_err();
    assert_eq!(refused.message(), "GTK caption window is no longer available");
    let update = state.take_update(true).unwrap();
    assert!(!update.quit);
    assert!(state.accept(BridgeCommand::Quit, true).is_ok());
    assert!(state.take_update(true).unwrap().quit);
}
