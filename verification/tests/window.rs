use lcrt::audio::{AudioSourceDescriptor, AudioSourceKind};
use lcrt::bridge::{CaptionUiAction, GtkCaptionSink};
use lcrt::caption::CaptionState;
use lcrt::transcription::TranscriptUpdate;
use lcrt::ui::CaptionSink;
use lcrt::window::{button_action, source_label, CaptionView};

fn sources() -> Vec<AudioSourceDescriptor> {
    vec![
        AudioSourceDescriptor::new("mic", "Built-in microphone", AudioSourceKind::Microphone),
        AudioSourceDescriptor::new("out", "Speakers", AudioSourceKind::SystemOutput),
    ]
}

#[test]
fn window_opens_ready_and_warns_without_sources() {
    let view = CaptionView::new(true);
    assert_eq!(view.caption_text, "Press Start to begin live captions");
    assert_eq!(view.status_text, "Ready");
    assert!(!view.running);
    assert_eq!(view.error, None);
    assert_eq!(view.button_label(), "Start");
    assert!(view.source_picker_enabled(true));

    let view = CaptionView::new(false);
    assert_eq!(
        view.error.as_deref(),
        Some("No PipeWire microphone or system-audio source is available.")
    );
    assert!(!view.source_picker_enabled(false));
}

#[test]
fn window_shows_what_the_bridge_delivers() {
    let (mut sink, receiver) = GtkCaptionSink::bridge();
    let mut state = CaptionState::new();
    let mut view = CaptionView::new(true);

    sink.set_running(true).unwrap();
    let snapshot = state
        .apply(TranscriptUpdate::partial("hello there").unwrap())
        .unwrap();
    sink.publish(snapshot).unwrap();
    sink.show_error("model warming up").unwrap();
    assert!(!view.apply(receiver.take_update().unwrap()));
    assert_eq!(view.caption_text, "hello there");
    assert_eq!(view.status_text, "Listening\u{2026}");
    assert!(view.running);
    assert_eq!(view.button_label(), "Stop");
    assert!(!view.source_picker_enabled(true));
    assert_eq!(view.error.as_deref(), Some("model warming up"));

    sink.clear_error().unwrap();
    sink.set_running(false).unwrap();
    sink.quit().unwrap();
    assert!(view.apply(receiver.take_update().unwrap()));
    assert_eq!(view.error, None);
    assert!(!view.running);
    assert_eq!(view.status_text, "Stopped");
    assert_eq!(view.caption_text, "hello there");
}

#[test]
fn window_reports_a_lost_controller() {
    let mut view = CaptionView::new(true);
    view.running = true;
    view.controller_lost();
    assert!(!view.running);
    assert_eq!(
        view.error.as_deref(),
        Some("Caption controller stopped unexpectedly.")
    );
}

#[test]
fn button_stops_a_running_session_or_starts_the_selected_source() {
    let sources = sources();
    assert_eq!(button_action(true, &sources, 7), Ok(CaptionUiAction::Stop));
    assert_eq!(
        button_action(false, &sources, 1),
        Ok(CaptionUiAction::Start {
            source_id: "out".to_owned()
        })
    );
    assert_eq!(
        button_action(false, &sources, u32::MAX),
        Err("Select an audio source before starting captions.")
    );
    assert_eq!(
        button_action(false, &Vec::new(), 0),
        Err("Select an audio source before starting captions.")
    );
}

#[test]
fn sources_are_labelled_by_kind_and_name() {
    let sources = sources();
    assert_eq!(source_label(&sources[0]), "Microphone \u{2014} Built-in microphone");
    assert_eq!(source_label(&sources[1]), "System audio \u{2014} Speakers");
}
