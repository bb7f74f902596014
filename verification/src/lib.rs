//! Core logic of a single-track terminal audio player.
//!
//! The library holds the parts of the player that can be stated and proved:
//! the shared pause intent and its toggle protocol, the progress-bar
//! rendering, the terminal-session lifecycle, the per-tick decisions of the
//! audio worker and of the foreground control loop, and the discovery and
//! selection of playable tracks.  Directory walking, audio output, terminal
//! mode switching and signal registration are performed by the surrounding
//! binary, which feeds this library plain values.

pub mod control;
pub mod files;
pub mod progress;
pub mod session;
pub mod state;
pub mod worker;
