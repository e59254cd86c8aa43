//! Verified core of a local music-library playback application.
//!
//! The library models the playback engine: an ordered queue of tracks with a
//! cursor and play flag, the engine state machine that turns UI commands and
//! completion signals into state changes, audio commands and events, and the
//! watcher that detects track completion from a shared counter. Audio device
//! I/O, tag probing and the UI live outside, in the application shell, which
//! hands this library plain values and carries out the commands it returns.

pub mod album;
pub mod assets;
pub mod events;
pub mod library;
pub mod playback;
pub mod queue;
pub mod text;
pub mod theme;
pub mod track;
pub mod watcher;
pub mod window;
