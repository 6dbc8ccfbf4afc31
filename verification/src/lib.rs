//! Verified core of a live-caption application: audio chunk validation,
//! caption and transcript state, streaming-window gating, the caption
//! bridge state machine and the capture/transcription pipeline decisions.

pub mod audio;
pub mod bridge;
pub mod caption;
pub mod capture;
pub mod cli;
pub mod config;
pub mod controller;
pub mod demo;
pub mod duration;
pub mod pipeline;
pub mod startup;
pub mod stt;
pub mod text;
pub mod transcription;
pub mod ui;
pub mod window;
