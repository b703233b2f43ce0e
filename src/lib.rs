//! Dictation pipeline core: the recording/transcription state machine, the
//! coordinator that owns it for a long-running service, and the pure pieces
//! of the capture → encode → transcribe cycle.
pub mod state;
pub mod errors;
pub mod audio;
pub mod wav;
pub mod service;
pub mod config;
pub mod output;
pub mod provider;
