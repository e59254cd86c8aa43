use std::sync::Arc;

use ggmusic::events::{PlaybackEvent, UiEvent};
use ggmusic::playback::{AudioCommand, Playback};
use ggmusic::queue::Queue;
use ggmusic::track::Track;

fn track(path: &str) -> Arc<Track> {
    Arc::new(Track::new(path))
}

fn file_of(t: &Track) -> &str {
    t.file.as_deref().unwrap()
}

fn is_started(e: &PlaybackEvent, path: &str) -> bool {
    matches!(e, PlaybackEvent::TrackStarted(t) if file_of(t) == path)
}

#[test]
fn single_active_track() {
    // However many play commands arrive, the most recent one wins and each
    // command replaces the sink's single source.
    let mut engine = Playback::init();
    for path in ["/music/a.mp3", "/music/b.mp3", "/music/c.mp3"] {
        let (_, cmd) = engine.play(&track(path));
        match cmd {
            AudioCommand::Play(t) => assert_eq!(file_of(&t), path),
            AudioCommand::Pause => panic!("a play command must start a track"),
        }
    }
    assert_eq!(engine.queue.tracks.len(), 1);
    assert_eq!(engine.queue.current, Some(0));
    let cur = engine.queue.get_current().unwrap();
    assert_eq!(file_of(&cur), "/music/c.mp3");
}

#[test]
fn play_from_idle_emits_started_only() {
    let mut engine = Playback::init();
    let (events, _) = engine.play(&track("/music/a.mp3"));
    assert_eq!(events.len(), 1);
    assert!(is_started(&events[0], "/music/a.mp3"));
}

#[test]
fn play_over_playing_synthesizes_ended_first() {
    let mut engine = Playback::init();
    engine.play(&track("/music/a.mp3"));
    let (events, _) = engine.play(&track("/music/b.mp3"));
    assert_eq!(events.len(), 2);
    assert!(matches!(events[0], PlaybackEvent::TrackEnded));
    assert!(is_started(&events[1], "/music/b.mp3"));
}

#[test]
fn pause_idempotence() {
    // The first pause flips the flag and emits one Paused; the second call
    // changes nothing and emits nothing.
    let mut engine = Playback::init();
    engine.play(&track("/music/a.mp3"));
    let (events, cmd) = engine.pause();
    assert_eq!(events.len(), 1);
    assert!(matches!(events[0], PlaybackEvent::Paused));
    assert!(matches!(cmd, Some(AudioCommand::Pause)));
    assert!(!engine.queue.playing);
    let (events2, cmd2) = engine.pause();
    assert!(events2.is_empty());
    assert!(cmd2.is_none());
    assert!(!engine.queue.playing);
}

#[test]
fn event_ordering_on_auto_advance() {
    // A finished track with a successor queued: exactly TrackEnded then
    // TrackStarted(next), never the other order.
    let mut engine = Playback {
        queue: Queue {
            tracks: vec![track("/music/a.mp3"), track("/music/b.mp3")],
            current: Some(0),
            playing: true,
        },
    };
    let (events, cmd) = engine.on_track_end();
    assert_eq!(events.len(), 2);
    assert!(matches!(events[0], PlaybackEvent::TrackEnded));
    assert!(is_started(&events[1], "/music/b.mp3"));
    match cmd {
        Some(AudioCommand::Play(t)) => assert_eq!(file_of(&t), "/music/b.mp3"),
        _ => panic!("the next track must be started"),
    }
    assert_eq!(engine.queue.current, Some(1));
    assert!(engine.queue.playing);
}

#[test]
fn decode_failure_isolation() {
    // A play whose decode fails is corrected to idle; a following play
    // succeeds and announces its track as if nothing had happened.
    let mut engine = Playback::init();
    engine.play(&track("/music/corrupt.mp3"));
    let events = engine.on_decode_error();
    assert_eq!(events.len(), 1);
    assert!(matches!(events[0], PlaybackEvent::TrackEnded));
    assert_eq!(engine.queue.current, None);
    assert!(!engine.queue.playing);
    let (events, cmd) = engine.play(&track("/music/valid.mp3"));
    assert_eq!(events.len(), 1);
    assert!(is_started(&events[0], "/music/valid.mp3"));
    match cmd {
        AudioCommand::Play(t) => assert_eq!(file_of(&t), "/music/valid.mp3"),
        AudioCommand::Pause => panic!("a play command must start a track"),
    }
}

#[test]
fn idle_on_empty_completion() {
    // tracks = [A]: after the exhausting advance, a further completion
    // signal is a no-op.
    let mut engine = Playback {
        queue: Queue { tracks: vec![track("/music/a.mp3")], current: Some(0), playing: true },
    };
    let (events, cmd) = engine.on_track_end();
    assert_eq!(events.len(), 1);
    assert!(matches!(events[0], PlaybackEvent::TrackEnded));
    assert!(cmd.is_none());
    assert_eq!(engine.queue.current, None);
    assert!(!engine.queue.playing);
    let (events2, cmd2) = engine.on_track_end();
    assert!(events2.is_empty());
    assert!(cmd2.is_none());
    assert_eq!(engine.queue.current, None);
}

#[test]
fn ui_events_dispatch() {
    let mut engine = Playback::init();
    let t = track("/music/a.mp3");
    let (events, cmd) = engine.handle_ui_event(&UiEvent::play(&t));
    assert!(is_started(&events[0], "/music/a.mp3"));
    assert!(matches!(cmd, Some(AudioCommand::Play(_))));
    let (events, cmd) = engine.handle_ui_event(&UiEvent::PauseClicked);
    assert!(matches!(events[0], PlaybackEvent::Paused));
    assert!(matches!(cmd, Some(AudioCommand::Pause)));
}

#[test]
fn start_builds_started_event() {
    let t = track("/music/a.mp3");
    let e = PlaybackEvent::start(&t);
    assert!(is_started(&e, "/music/a.mp3"));
}
