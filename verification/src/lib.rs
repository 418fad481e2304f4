//! Session coordination for a voice transcription tool.
//!
//! Independent trigger sources (hotkey press/release edges, an OS signal
//! listener, an explicit cancel command) feed events into a single
//! coordinator that owns the recording/transcription session lifecycle.
//! This crate holds the decision logic: the session state machine, the
//! shortcut event router, the trigger event synthesized for the OS signal,
//! the transcription request builder and response interpreter, and the
//! desktop-environment detection helpers. Callers perform the side effects
//! (audio capture, the HTTP upload, overlay and tray updates) that each
//! returned decision asks for.

pub mod platform;
pub mod router;
pub mod session;
pub mod signal;
pub mod strutil;
pub mod transcribe;
