//! PipeWire capture logic that does not need a PipeWire connection: limits,
//! buffer-chunk layout and decoding, terminal-failure handling and source
//! classification.

pub mod chunk;
pub mod diagnostic;
pub mod config;
pub mod control;
pub mod error;
pub mod sources;
pub mod stream;
