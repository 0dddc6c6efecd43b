//! Core logic of a small writing assistant: a debounced global-hotkey
//! bridge, an enabled/disabled application state machine, and the
//! request/response pipeline of a remote text-rewriting service.

pub mod client;
pub mod clipboard;
pub mod shell;
pub mod shortcuts;
pub mod text;
pub mod tray;
