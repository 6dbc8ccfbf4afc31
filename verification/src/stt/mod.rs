//! Local streaming speech-to-text: rolling-window gating, transcript assembly,
//! configuration limits and offline diagnostics.

pub mod command;
pub mod error;
pub mod limits;
pub mod link;
pub mod report;
pub mod transcript;
pub mod wav;
pub mod window;
pub mod worker;
