//! The music library: of everything the scanning step turned up, exactly
//! the playable songs, in scan order.
//!
//! The directory walk, the parallel per-file probing and the tag reading
//! are the scanner's work in the application shell; the rule deciding what
//! enters the library is verified here.

use vstd::prelude::*;

use crate::track::Track;

verus! {

/// Exactly the playable songs of a scan, in scan order.
pub open spec fn songs_of(scanned: Seq<Track>) -> Seq<Track>
    decreases scanned.len(),
{
    if scanned.len() == 0 {
        Seq::<Track>::empty()
    } else {
        let rest = songs_of(scanned.drop_last());
        if scanned.last().file_type is Some {
            rest.push(scanned.last())
        } else {
            rest
        }
    }
}

/// The library handed to the rest of the application.
pub struct Library(pub Vec<Track>);

impl Library {
    /// Keep, of the scanned entries, exactly the playable songs, in order.
    pub fn load_tracks(scanned: Vec<Track>) -> (r: Library)
        ensures
            r.0@ == songs_of(scanned@),
    {
        let ghost orig = scanned@;
        let mut remaining = scanned;
        let mut songs: Vec<Track> = Vec::new();
        proof {
            assert(orig.take(0) =~= Seq::<Track>::empty());
        }
        while remaining.len() > 0
            invariant
                remaining@.len() <= orig.len(),
                remaining@ == orig.skip(orig.len() - remaining@.len()),
                songs@ == songs_of(orig.take(orig.len() - remaining@.len())),
            decreases remaining@.len(),
        {
            let ghost k: int = orig.len() - remaining@.len();
            let track = remaining.remove(0);
            proof {
                assert(track == orig[k]);
                assert(remaining@ =~= orig.skip(k + 1));
                assert(orig.take(k + 1).drop_last() =~= orig.take(k));
                assert(orig.take(k + 1).last() == orig[k]);
            }
            if track.is_song() {
                songs.push(track);
            }
        }
        proof {
            assert(orig.take(orig.len() as int) =~= orig);
        }
        Library(songs)
    }
}

} // verus!
