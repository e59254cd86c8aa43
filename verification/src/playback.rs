//! The playback engine: the state machine that turns UI commands and
//! completion signals into queue transitions, audio commands and events.
//!
//! The engine owns no device. Each method returns the events to publish, in
//! transition order, and the command the audio output must carry out; the
//! application shell performs the command on its background worker and feeds
//! completion signals back through [`Playback::on_track_end`] and decode
//! failures through [`Playback::on_decode_error`].

use vstd::prelude::*;
use std::sync::Arc;

use crate::events::{PlaybackEvent, UiEvent};
use crate::queue::{current_track_of, queue_advance, queue_play, queue_wf, Queue, QueueModel};
use crate::track::{arc_clone, Track};

verus! {

/// What the audio output is asked to do. `Play` replaces whatever the sink
/// holds with the one track's decoded stream — at most one source is ever
/// live — and `Pause` suspends rendering.
pub enum AudioCommand {
    Play(Arc<Track>),
    Pause,
}

/// Engine well-formedness: the queue is well formed and holds only playable
/// tracks, since non-playable entries are filtered out upstream and the
/// audio output needs a file path to read from.
pub open spec fn engine_wf(q: QueueModel) -> bool {
    &&& queue_wf(q)
    &&& forall|i: int| 0 <= i < q.tracks.len() ==> (#[trigger] q.tracks[i]).file is Some
}

/// The play transition: if a track was current, a `TrackEnded` for it is
/// synthesized first; the queue becomes a singleton of the requested track;
/// the audio output is told to start it; `TrackStarted` closes the events.
pub open spec fn engine_play(q: QueueModel, t: Arc<Track>) -> (QueueModel, Seq<PlaybackEvent>, AudioCommand) {
    let events = if q.current is Some {
        seq![PlaybackEvent::TrackEnded, PlaybackEvent::TrackStarted(t)]
    } else {
        seq![PlaybackEvent::TrackStarted(t)]
    };
    (queue_play(t), events, AudioCommand::Play(t))
}

/// The pause transition: only an actual change from playing to paused
/// touches the sink and emits `Paused`; pausing an already paused or idle
/// engine does nothing.
pub open spec fn engine_pause(q: QueueModel) -> (QueueModel, Seq<PlaybackEvent>, Option<AudioCommand>) {
    if q.playing {
        (
            QueueModel { tracks: q.tracks, current: q.current, playing: false },
            seq![PlaybackEvent::Paused],
            Some(AudioCommand::Pause),
        )
    } else {
        (q, Seq::<PlaybackEvent>::empty(), None::<AudioCommand>)
    }
}

/// The completion transition: an idle queue ignores the signal; otherwise
/// the queue advances, `TrackEnded` is emitted, and when a next track
/// exists it is started and announced after the ending, never before.
pub open spec fn engine_track_end(q: QueueModel) -> (QueueModel, Seq<PlaybackEvent>, Option<AudioCommand>) {
    if q.current is None {
        (q, Seq::<PlaybackEvent>::empty(), None::<AudioCommand>)
    } else {
        let advanced = queue_advance(q);
        match current_track_of(advanced) {
            Some(t) => (
                advanced,
                seq![PlaybackEvent::TrackEnded, PlaybackEvent::TrackStarted(t)],
                Some(AudioCommand::Play(t)),
            ),
            None => (advanced, seq![PlaybackEvent::TrackEnded], None::<AudioCommand>),
        }
    }
}

/// The decode-failure transition: the queue falls back to idle and, when a
/// track had already been made current, a `TrackEnded` corrects the UI.
/// The engine stays usable for further commands.
pub open spec fn engine_decode_error(q: QueueModel) -> (QueueModel, Seq<PlaybackEvent>) {
    if q.current is Some {
        (
            QueueModel { tracks: q.tracks, current: None::<int>, playing: false },
            seq![PlaybackEvent::TrackEnded],
        )
    } else {
        (q, Seq::<PlaybackEvent>::empty())
    }
}

/// The playback engine. Its whole state is the queue; the audio device and
/// the completion watcher live with the application shell.
pub struct Playback {
    pub queue: Queue,
}

impl View for Playback {
    type V = QueueModel;

    open spec fn view(&self) -> QueueModel {
        self.queue@
    }
}

impl Playback {
    /// A fresh engine: empty queue, idle, not playing.
    pub fn init() -> (r: Playback)
        ensures
            r@.tracks.len() == 0,
            r@.current is None,
            !r@.playing,
            engine_wf(r@),
    {
        Playback { queue: Queue::new() }
    }

    /// Handle a `Play` command. Always succeeds: the queue is replaced by
    /// the requested track and the audio output is told to start it.
    pub fn play(&mut self, track: &Arc<Track>) -> (r: (Vec<PlaybackEvent>, AudioCommand))
        requires
            engine_wf(old(self)@),
            track.file is Some,
        ensures
            engine_wf(final(self)@),
            (final(self)@, r.0@, r.1) == engine_play(old(self)@, *track),
    {
        let mut events: Vec<PlaybackEvent> = Vec::new();
        if self.queue.current.is_some() {
            events.push(PlaybackEvent::TrackEnded);
        }
        self.queue.play(track);
        events.push(PlaybackEvent::start(track));
        let command = AudioCommand::Play(arc_clone(track));
        proof {
            assert(events@ =~= engine_play(old(self)@, *track).1);
        }
        (events, command)
    }

    /// Handle a `Pause` command: suspend the sink and emit `Paused`, but
    /// only on an actual change from playing to paused.
    pub fn pause(&mut self) -> (r: (Vec<PlaybackEvent>, Option<AudioCommand>))
        requires
            engine_wf(old(self)@),
        ensures
            engine_wf(final(self)@),
            (final(self)@, r.0@, r.1) == engine_pause(old(self)@),
    {
        if self.queue.playing {
            self.queue.set_playing(false);
            let mut events: Vec<PlaybackEvent> = Vec::new();
            events.push(PlaybackEvent::Paused);
            proof {
                assert(events@ =~= seq![PlaybackEvent::Paused]);
            }
            (events, Some(AudioCommand::Pause))
        } else {
            (Vec::new(), None)
        }
    }

    /// Handle the completion watcher's signal that the current track has
    /// finished rendering: advance the queue and start the next track when
    /// one exists. On an already idle queue this is a no-op.
    pub fn on_track_end(&mut self) -> (r: (Vec<PlaybackEvent>, Option<AudioCommand>))
        requires
            engine_wf(old(self)@),
        ensures
            engine_wf(final(self)@),
            (final(self)@, r.0@, r.1) == engine_track_end(old(self)@),
    {
        if self.queue.current.is_none() {
            return (Vec::new(), None);
        }
        let next = self.queue.get_next();
        let mut events: Vec<PlaybackEvent> = Vec::new();
        events.push(PlaybackEvent::TrackEnded);
        match next {
            Some(track) => {
                events.push(PlaybackEvent::start(&track));
                proof {
                    assert(events@ =~= engine_track_end(old(self)@).1);
                }
                (events, Some(AudioCommand::Play(track)))
            },
            None => {
                proof {
                    assert(events@ =~= engine_track_end(old(self)@).1);
                }
                (events, None)
            },
        }
    }

    /// Handle the shell's report that the dispatched decode failed: fall
    /// back to idle and correct the UI with a `TrackEnded`. The error
    /// itself goes to the command issuer; the engine keeps working.
    pub fn on_decode_error(&mut self) -> (r: Vec<PlaybackEvent>)
        requires
            engine_wf(old(self)@),
        ensures
            engine_wf(final(self)@),
            (final(self)@, r@) == engine_decode_error(old(self)@),
    {
        if self.queue.current.is_some() {
            self.queue.current = None;
            self.queue.playing = false;
            let mut events: Vec<PlaybackEvent> = Vec::new();
            events.push(PlaybackEvent::TrackEnded);
            proof {
                assert(events@ =~= seq![PlaybackEvent::TrackEnded]);
            }
            events
        } else {
            Vec::new()
        }
    }

    /// Dispatch a UI command to the matching transition.
    pub fn handle_ui_event(&mut self, event: &UiEvent) -> (r: (Vec<PlaybackEvent>, Option<AudioCommand>))
        requires
            engine_wf(old(self)@),
            (*event matches UiEvent::PlayClicked(e) ==> e.track.file is Some),
        ensures
            engine_wf(final(self)@),
            (*event matches UiEvent::PlayClicked(e) ==> (final(self)@, r.0@, r.1) == (
                engine_play(old(self)@, e.track).0,
                engine_play(old(self)@, e.track).1,
                Some(engine_play(old(self)@, e.track).2),
            )),
            (*event matches UiEvent::PauseClicked ==> (final(self)@, r.0@, r.1) == engine_pause(
                old(self)@,
            )),
    {
        match event {
            UiEvent::PlayClicked(e) => {
                let (events, command) = self.play(&e.track);
                (events, Some(command))
            },
            UiEvent::PauseClicked => self.pause(),
        }
    }
}

/// A play command's outcome does not depend on what went before: after any
/// sequence of plays the queue holds exactly the most recently requested
/// track, that track is current, and the single audio command replaces the
/// sink's contents, so at most one source is ever live.
pub proof fn lemma_single_active_track(q1: QueueModel, q2: QueueModel, t: Arc<Track>)
    ensures
        engine_play(q1, t).0 == engine_play(q2, t).0,
        engine_play(q1, t).0.tracks =~= seq![t],
        current_track_of(engine_play(q1, t).0) == Some(t),
        engine_play(q1, t).2 == AudioCommand::Play(t),
{
}

/// The queue state left by a whole sequence of play commands, applied in
/// order.
pub open spec fn queue_after_plays(q: QueueModel, ts: Seq<Arc<Track>>) -> QueueModel
    decreases ts.len(),
{
    if ts.len() == 0 {
        q
    } else {
        engine_play(queue_after_plays(q, ts.drop_last()), ts.last()).0
    }
}

/// After any sequence of play commands, from any starting state, the queue
/// holds exactly the most recently requested track and the cursor points
/// at it.
pub proof fn lemma_plays_last_wins(q: QueueModel, ts: Seq<Arc<Track>>)
    requires
        ts.len() > 0,
    ensures
        queue_after_plays(q, ts).tracks =~= seq![ts.last()],
        current_track_of(queue_after_plays(q, ts)) == Some(ts.last()),
        queue_after_plays(q, ts).playing,
{
}

/// Pausing is idempotent: the first pause clears the playing flag and emits
/// `Paused` exactly when the engine was playing; a second pause changes
/// nothing and emits nothing.
pub proof fn lemma_pause_idempotent(q: QueueModel)
    ensures
        !engine_pause(q).0.playing,
        engine_pause(engine_pause(q).0).0 == engine_pause(q).0,
        engine_pause(engine_pause(q).0).1 =~= Seq::<PlaybackEvent>::empty(),
        engine_pause(engine_pause(q).0).2 is None,
        q.playing ==> engine_pause(q).1 =~= seq![PlaybackEvent::Paused],
        !q.playing ==> engine_pause(q).1 =~= Seq::<PlaybackEvent>::empty(),
{
}

/// On a completion signal the events keep transition order: `TrackEnded`
/// comes first, and any event after it is the `TrackStarted` of exactly the
/// track that became current — never the other way round.
pub proof fn lemma_track_end_event_order(q: QueueModel)
    requires
        queue_wf(q),
        q.current is Some,
    ensures
        engine_track_end(q).1.len() >= 1,
        engine_track_end(q).1[0] == PlaybackEvent::TrackEnded,
        forall|i: int|
            1 <= i < engine_track_end(q).1.len() ==> engine_track_end(q).1[i]
                == PlaybackEvent::TrackStarted(current_track_of(engine_track_end(q).0)->Some_0),
{
}

/// A failed decode does not poison the engine: the error transition leaves
/// it idle, and a play issued afterwards starts the requested track and
/// announces it, exactly as a play from any other state would.
pub proof fn lemma_decode_failure_isolation(q: QueueModel, t: Arc<Track>)
    requires
        queue_wf(q),
    ensures
        engine_decode_error(q).0.current is None,
        !engine_decode_error(q).0.playing,
        current_track_of(engine_play(engine_decode_error(q).0, t).0) == Some(t),
        engine_play(engine_decode_error(q).0, t).1.last() == PlaybackEvent::TrackStarted(t),
        engine_play(engine_decode_error(q).0, t).2 == AudioCommand::Play(t),
{
}

/// A completion signal on an idle queue is a no-op: no state change, no
/// events, no command.
pub proof fn lemma_idle_completion_noop(q: QueueModel)
    requires
        q.current is None,
    ensures
        engine_track_end(q).0 == q,
        engine_track_end(q).1 =~= Seq::<PlaybackEvent>::empty(),
        engine_track_end(q).2 is None,
{
}

} // verus!
