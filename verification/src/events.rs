//! The in-process interfaces of the engine: commands coming in from the UI
//! layer and playback events going out to it.

use vstd::prelude::*;
use std::sync::Arc;

use crate::track::{arc_clone, Track};

verus! {

/// A command issued by the UI layer.
pub enum UiEvent {
    PlayClicked(PlayClickedEvent),
    PauseClicked,
}

/// The payload of a play command: the track the user asked for.
pub struct PlayClickedEvent {
    pub track: Arc<Track>,
}

impl UiEvent {
    /// The play command for one track.
    pub fn play(track: &Arc<Track>) -> (r: UiEvent)
        ensures
            r == UiEvent::PlayClicked(PlayClickedEvent { track: *track }),
    {
        UiEvent::PlayClicked(PlayClickedEvent { track: arc_clone(track) })
    }
}

/// A state-change notification published by the engine, in the order the
/// transitions happen: a `TrackEnded` always precedes the `TrackStarted`
/// that follows it.
pub enum PlaybackEvent {
    TrackStarted(Arc<Track>),
    TrackEnded,
    Paused,
    Resumed,
}

impl PlaybackEvent {
    /// The started notification for one track.
    pub fn start(track: &Arc<Track>) -> (r: PlaybackEvent)
        ensures
            r == PlaybackEvent::TrackStarted(*track),
    {
        PlaybackEvent::TrackStarted(arc_clone(track))
    }
}

} // verus!
