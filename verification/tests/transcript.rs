use lcrt::caption::{Caption, CaptionState, CaptionStatus};
use lcrt::stt::transcript::{TranscriptAssembler, TRUNCATION_MARKER};
use lcrt::stt::window::InferenceKind;
use lcrt::transcription::{TranscriptUpdate, TranscriptUpdateError};

#[test]
fn finalizing_a_partial_caption_preserves_its_text() {
    let mut caption = Caption::partial("low-latency captions");
    assert_eq!(caption.status(), CaptionStatus::Partial);
    caption.finalize();
    assert_eq!(caption.text(), "low-latency captions");
    assert_eq!(caption.status(), CaptionStatus::Final);
}

#[test]
fn applying_updates_advances_revision_and_replaces_current_caption() {
    let mut state = CaptionState::new();
    let partial = state
        .apply(TranscriptUpdate::partial("hello").unwrap())
        .unwrap();
    let final_caption = state
        .apply(TranscriptUpdate::finalized("hello world").unwrap())
        .unwrap();
    assert_eq!(partial.revision(), 1);
    assert_eq!(partial.caption().status(), CaptionStatus::Partial);
    assert_eq!(final_caption.revision(), 2);
    assert_eq!(final_caption.caption().text(), "hello world");
    assert_eq!(final_caption.caption().status(), CaptionStatus::Final);
    assert_eq!(state.snapshot(), Some(final_caption));
}

#[test]
fn transcript_update_rejects_whitespace_only_text() {
    assert_eq!(
        TranscriptUpdate::partial("   ").unwrap_err(),
        TranscriptUpdateError::EmptyText
    );
}

#[test]
fn incremental_update_exposes_stable_and_replaceable_text() {
    let update = TranscriptUpdate::incremental("accepted words ", "new hypothesis").unwrap();

    assert_eq!(update.text(), "accepted words new hypothesis");
    assert_eq!(update.stable_text(), "accepted words ");
    assert_eq!(update.partial_text(), "new hypothesis");
}

#[test]
fn rolling_windows_commit_disappearing_prefix_without_duplicates() {
    let mut transcript = TranscriptAssembler::new(256);

    transcript
        .apply(InferenceKind::Partial, "alpha beta gamma delta", false)
        .unwrap();
    let second = transcript
        .apply(InferenceKind::Partial, "gamma delta epsilon zeta", true)
        .unwrap()
        .unwrap();
    let third = transcript
        .apply(InferenceKind::Partial, "epsilon zeta eta theta", true)
        .unwrap()
        .unwrap();

    assert_eq!(second.text(), "alpha beta gamma delta epsilon zeta");
    assert_eq!(second.stable_text(), "alpha beta");
    assert_eq!(
        third.text(),
        "alpha beta gamma delta epsilon zeta eta theta"
    );
    assert_eq!(third.stable_text(), "alpha beta gamma delta");
}

#[test]
fn empty_final_preserves_and_finalizes_last_valid_partial() {
    let mut transcript = TranscriptAssembler::new(256);
    transcript
        .apply(InferenceKind::Partial, "keep this caption", false)
        .unwrap();

    let final_update = transcript
        .apply(InferenceKind::Final, "", false)
        .unwrap()
        .unwrap();

    assert_eq!(final_update.text(), "keep this caption");
    assert_eq!(final_update.status(), CaptionStatus::Final);
}

#[test]
fn transcript_memory_and_visible_text_stay_bounded() {
    let mut transcript = TranscriptAssembler::new(48);
    transcript
        .apply(
            InferenceKind::Partial,
            "one two three four five six seven eight",
            false,
        )
        .unwrap();
    let update = transcript
        .apply(
            InferenceKind::Partial,
            "seven eight nine ten eleven twelve thirteen",
            true,
        )
        .unwrap()
        .unwrap();

    assert!(update.text().len() <= 48);
    assert!(update.text().starts_with(TRUNCATION_MARKER));
}

#[test]
fn overlap_ignores_case_and_surrounding_punctuation() {
    let mut transcript = TranscriptAssembler::new(256);
    transcript
        .apply(InferenceKind::Partial, "Alpha beta Gamma,", false)
        .unwrap();
    let update = transcript
        .apply(InferenceKind::Partial, "gamma delta", true)
        .unwrap()
        .unwrap();
    assert_eq!(update.text(), "Alpha beta gamma delta");
    assert_eq!(update.stable_text(), "Alpha beta");
}

#[test]
fn unchanged_hypothesis_publishes_nothing() {
    let mut transcript = TranscriptAssembler::new(256);
    assert!(transcript
        .apply(InferenceKind::Partial, "same words", false)
        .unwrap()
        .is_some());
    assert!(transcript
        .apply(InferenceKind::Partial, "  same words ", false)
        .unwrap()
        .is_none());
    assert!(transcript
        .apply(InferenceKind::Partial, "   ", false)
        .unwrap()
        .is_none());
}
