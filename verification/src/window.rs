//! What the caption window shows and what its controls ask for, apart from
//! the GTK widgets themselves: the window applies each bridge update to a
//! `CaptionView` and renders it.

use vstd::prelude::*;

use crate::audio::{AudioSourceDescriptor, AudioSourceKind};
use crate::bridge::{CaptionUiAction, UiUpdate};
use crate::cli::text_option_view;
use crate::text::push_text;

verus! {

broadcast use vstd::string::group_string_axioms;

pub open spec fn no_sources_message() -> Seq<char> {
    "No PipeWire microphone or system-audio source is available."@
}

pub open spec fn controller_lost_message() -> Seq<char> {
    "Caption controller stopped unexpectedly."@
}

pub open spec fn select_source_message() -> Seq<char> {
    "Select an audio source before starting captions."@
}

/// What the caption window shows.
pub struct CaptionView {
    /// The caption text.
    pub caption_text: String,
    /// The short status next to the controls.
    pub status_text: String,
    /// Whether captioning runs (the button then offers to stop it).
    pub running: bool,
    /// The error shown above the caption, if any.
    pub error: Option<String>,
}

impl CaptionView {
    /// The window as it opens: a prompt to start, `Ready`, and an error
    /// when there is no source to caption.
    pub fn new(sources_available: bool) -> (v: Self)
        ensures
            v.caption_text@ == "Press Start to begin live captions"@,
            v.status_text@ == "Ready"@,
            !v.running,
            text_option_view(v.error) == (if sources_available {
                None
            } else {
                Some(no_sources_message())
            }),
    {
        CaptionView {
            caption_text: "Press Start to begin live captions".to_owned(),
            status_text: "Ready".to_owned(),
            running: false,
            error: if sources_available {
                None
            } else {
                Some("No PipeWire microphone or system-audio source is available.".to_owned())
            },
        }
    }

    /// Applies one bridge update: each part it carries replaces what is
    /// shown. Says whether the window is to close.
    pub fn apply(&mut self, update: UiUpdate) -> (quit: bool)
        ensures
            quit == update.quit,
            match update.presentation {
                Some(p) => {
                    &&& final(self).caption_text@ == (match p.caption {
                        Some(s) => s.text_view(),
                        None => old(self).caption_text@,
                    })
                    &&& final(self).running == (match p.running {
                        Some(r) => r,
                        None => old(self).running,
                    })
                    &&& final(self).status_text@ == (match p.status {
                        Some(s) => s@,
                        None => old(self).status_text@,
                    })
                },
                None => {
                    &&& final(self).caption_text@ == old(self).caption_text@
                    &&& final(self).running == old(self).running
                    &&& final(self).status_text@ == old(self).status_text@
                },
            },
            text_option_view(final(self).error) == (match update.error {
                Some(e) => text_option_view(e),
                None => text_option_view(old(self).error),
            }),
    {
        match update.presentation {
            Some(p) => {
                match p.caption {
                    Some(snapshot) => {
                        self.caption_text = snapshot.caption().text().to_owned();
                    },
                    None => {},
                }
                match p.running {
                    Some(r) => {
                        self.running = r;
                    },
                    None => {},
                }
                match p.status {
                    Some(s) => {
                        self.status_text = s;
                    },
                    None => {},
                }
            },
            None => {},
        }
        match update.error {
            Some(e) => {
                self.error = e;
            },
            None => {},
        }
        update.quit
    }

    /// The controller is gone for good: the window says so and no longer
    /// shows captioning as running.
    pub fn controller_lost(&mut self)
        ensures
            text_option_view(final(self).error) == Some(controller_lost_message()),
            !final(self).running,
            final(self).caption_text@ == old(self).caption_text@,
            final(self).status_text@ == old(self).status_text@,
    {
        self.error = Some("Caption controller stopped unexpectedly.".to_owned());
        self.running = false;
    }

    /// Shows an error raised by the window itself.
    pub fn show_error(&mut self, message: &str)
        ensures
            text_option_view(final(self).error) == Some(message@),
            final(self).running == old(self).running,
            final(self).caption_text@ == old(self).caption_text@,
            final(self).status_text@ == old(self).status_text@,
    {
        self.error = Some(message.to_owned());
    }

    /// The start/stop button's label.
    pub fn button_label(&self) -> (s: &'static str)
        ensures
            s@ == (if self.running {
                "Stop"@
            } else {
                "Start"@
            }),
    {
        if self.running {
            "Stop"
        } else {
            "Start"
        }
    }

    /// The source picker can be used while captioning is stopped and there
    /// is a source.
    pub fn source_picker_enabled(&self, sources_available: bool) -> (b: bool)
        ensures
            b == (!self.running && sources_available),
    {
        !self.running && sources_available
    }
}

/// What the start/stop button asks for: a stop while captioning runs,
/// otherwise a start on the selected source, which must exist.
pub fn button_action(running: bool, sources: &Vec<AudioSourceDescriptor>, selected: u32) -> (r:
    Result<CaptionUiAction, &'static str>)
    ensures
        running ==> r == Ok::<CaptionUiAction, &'static str>(CaptionUiAction::Stop),
        !running && selected < sources@.len() ==> (r matches Ok(CaptionUiAction::Start { source_id })
            && source_id@ == sources@[selected as int].id_view()),
        !running && selected >= sources@.len() ==> (r matches Err(m) && m@
            == select_source_message()),
{
    if running {
        return Ok(CaptionUiAction::Stop);
    }
    let index = selected as usize;
    if index >= sources.len() {
        return Err("Select an audio source before starting captions.");
    }
    Ok(CaptionUiAction::Start { source_id: sources[index].id().to_owned() })
}

/// How a source is offered in the picker: its kind, a dash, its name.
pub open spec fn source_label_text(kind: AudioSourceKind, name: Seq<char>) -> Seq<char> {
    (if kind == AudioSourceKind::Microphone {
        "Microphone"@
    } else {
        "System audio"@
    }) + " \u{2014} "@ + name
}

/// The picker entry for a source.
pub fn source_label(source: &AudioSourceDescriptor) -> (s: String)
    ensures
        s@ == source_label_text(source.kind_view(), source.name_view()),
{
    let mut s = String::new();
    match source.kind() {
        AudioSourceKind::Microphone => push_text(&mut s, "Microphone"),
        AudioSourceKind::SystemOutput => push_text(&mut s, "System audio"),
    }
    push_text(&mut s, " \u{2014} ");
    push_text(&mut s, source.name());
    s
}

} // verus!
