//! Albums: groups of tracks under one title and artist. Two albums are the
//! same album exactly when title and artist agree, whatever tracks or year
//! or artwork they carry.

use vstd::prelude::*;
use std::sync::Arc;

use crate::track::{CoverArt, Track};

verus! {

/// One album of the library.
pub struct Album {
    pub title: String,
    pub artist: String,
    pub year: u32,
    pub tracks: Vec<Arc<Track>>,
    pub picture: Option<CoverArt>,
}

impl PartialEq for Album {
    /// Album identity: the title and the artist.
    fn eq(&self, other: &Self) -> (r: bool) {
        self.title.eq(&other.title) && self.artist.eq(&other.artist)
    }
}

impl vstd::std_specs::cmp::PartialEqSpecImpl for Album {
    open spec fn obeys_eq_spec() -> bool {
        true
    }

    open spec fn eq_spec(&self, other: &Album) -> bool {
        self.title@ == other.title@ && self.artist@ == other.artist@
    }
}

/// The album collection shown by the browser.
pub struct Albums {
    pub albums: Vec<Arc<Album>>,
}

} // verus!
