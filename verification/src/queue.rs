//! The playback queue: an ordered sequence of tracks, a cursor marking the
//! current one, and a play/pause flag. A pure in-memory state machine.
//!
//! Every transition is described first as a spec function over the abstract
//! queue state [`QueueModel`]; the executable methods are proved to realise
//! those transitions exactly.

use vstd::prelude::*;
use std::sync::Arc;

use crate::track::{arc_clone, Track};

verus! {

/// Abstract state of a queue: the track sequence, the cursor and the flag.
pub ghost struct QueueModel {
    pub tracks: Seq<Arc<Track>>,
    pub current: Option<int>,
    pub playing: bool,
}

/// Well-formedness: the cursor, when present, indexes into the tracks, and
/// the queue only plays when a track is current.
pub open spec fn queue_wf(q: QueueModel) -> bool {
    &&& (q.current matches Some(i) ==> 0 <= i < q.tracks.len())
    &&& (q.playing ==> q.current is Some)
}

/// Replacing the queue: a singleton of the requested track, cursor at its
/// start, playing.
pub open spec fn queue_play(t: Arc<Track>) -> QueueModel {
    QueueModel { tracks: seq![t], current: Some(0), playing: true }
}

/// Advancing: the cursor moves to the next index if one exists, else clears;
/// the flag afterwards says whether a track remains.
pub open spec fn queue_advance(q: QueueModel) -> QueueModel {
    let next = match q.current {
        Some(i) => if i + 1 < q.tracks.len() {
            Some(i + 1)
        } else {
            None
        },
        None => None,
    };
    QueueModel { tracks: q.tracks, current: next, playing: next is Some }
}

/// Projection of the cursor into the tracks.
pub open spec fn current_track_of(q: QueueModel) -> Option<Arc<Track>> {
    match q.current {
        Some(i) => if 0 <= i < q.tracks.len() {
            Some(q.tracks[i])
        } else {
            None
        },
        None => None,
    }
}

/// The playback queue. Created empty and idle; replaced wholesale by `play`;
/// mutated in place by `next` and `set_playing`.
pub struct Queue {
    pub tracks: Vec<Arc<Track>>,
    pub current: Option<usize>,
    pub playing: bool,
}

impl View for Queue {
    type V = QueueModel;

    open spec fn view(&self) -> QueueModel {
        QueueModel {
            tracks: self.tracks@,
            current: match self.current {
                Some(i) => Some(i as int),
                None => None,
            },
            playing: self.playing,
        }
    }
}

impl Queue {
    /// The empty, idle queue.
    pub fn new() -> (r: Queue)
        ensures
            r@.tracks.len() == 0,
            r@.current is None,
            !r@.playing,
            queue_wf(r@),
    {
        Queue { tracks: Vec::new(), current: None, playing: false }
    }

    /// Replace the whole queue with the one requested track and start
    /// playing it. Always succeeds.
    pub fn play(&mut self, track: &Arc<Track>)
        ensures
            final(self)@ == queue_play(*track),
            queue_wf(final(self)@),
    {
        let mut tracks: Vec<Arc<Track>> = Vec::new();
        tracks.push(arc_clone(track));
        self.tracks = tracks;
        self.current = Some(0);
        self.playing = true;
        proof {
            assert(self@.tracks =~= queue_play(*track).tracks);
        }
    }

    /// The track under the cursor, `None` when idle.
    pub fn get_current(&self) -> (r: Option<Arc<Track>>)
        ensures
            r == current_track_of(self@),
    {
        match self.current {
            Some(index) => {
                if index < self.tracks.len() {
                    Some(arc_clone(&self.tracks[index]))
                } else {
                    None
                }
            },
            None => None,
        }
    }

    /// Move the cursor to the next track if one exists, else clear it; the
    /// flag afterwards reflects whether a track remains.
    pub fn next(&mut self)
        requires
            queue_wf(old(self)@),
        ensures
            final(self)@ == queue_advance(old(self)@),
            queue_wf(final(self)@),
    {
        let len = self.tracks.len();
        self.current = match self.current {
            Some(index) => {
                if index + 1 < len {
                    Some(index + 1)
                } else {
                    None
                }
            },
            None => None,
        };
        self.playing = self.current.is_some();
    }

    /// Advance and hand back the new current track, `None` once the queue
    /// is exhausted.
    pub fn get_next(&mut self) -> (r: Option<Arc<Track>>)
        requires
            queue_wf(old(self)@),
        ensures
            final(self)@ == queue_advance(old(self)@),
            queue_wf(final(self)@),
            r == current_track_of(final(self)@),
    {
        self.next();
        self.get_current()
    }

    /// Toggle the play/pause flag without touching the cursor. Setting it
    /// to playing asks for a current track, since an idle queue cannot play.
    pub fn set_playing(&mut self, playing: bool)
        requires
            playing ==> old(self)@.current is Some,
        ensures
            final(self)@.tracks == old(self)@.tracks,
            final(self)@.current == old(self)@.current,
            final(self)@.playing == playing,
            queue_wf(old(self)@) ==> queue_wf(final(self)@),
    {
        self.playing = playing;
    }
}

/// Advancing is monotone and in bounds: the cursor either steps forward by
/// one to a valid index or clears, it never moves backwards, and an idle
/// queue stays idle. The flag afterwards says exactly whether a track is
/// current.
pub proof fn lemma_advance_bounds(q: QueueModel)
    requires
        queue_wf(q),
    ensures
        queue_wf(queue_advance(q)),
        queue_advance(q).tracks == q.tracks,
        queue_advance(q).playing == (queue_advance(q).current is Some),
        q.current is None ==> queue_advance(q).current is None,
        queue_advance(q).current matches Some(j) ==> q.current == Some(j - 1) && j < q.tracks.len(),
{
}

} // verus!
