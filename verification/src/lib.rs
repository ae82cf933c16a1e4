//! Event and command core of a terminal client for a remote media player.
//!
//! Terminal input, a periodic playback watcher and programmatic callers all
//! produce [`event::ClientRequest`]s for one ordered request queue. The
//! modules here hold the rules of that core as functions on plain values:
//! key-sequence matching against a keymap, the global command table, the
//! watcher's per-tick decisions and the queue itself.

pub mod key;
pub mod command;
pub mod config;
pub mod state;
pub mod event;
pub mod client;
