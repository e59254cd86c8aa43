//! The immutable track record that the playback engine consumes.
//!
//! A track is assembled once, from the file path and from whatever the
//! tag-probing step reported, and is then shared unchanged through a
//! reference-counted handle.

use vstd::prelude::*;
use std::sync::Arc;

use crate::text::{default_title, parse_u64, parse_u64_spec};

verus! {

/// Container kind reported by the tag-probing step for a file that it
/// recognised as audio. Playback never reads which kind it is: its presence
/// is what marks a track as a playable song.
#[derive(Clone, Copy, PartialEq, Eq, Structural, Debug)]
pub enum FileKind {
    Aac,
    Aiff,
    Ape,
    Flac,
    Mpeg,
    Mp4,
    Opus,
    Vorbis,
    Speex,
    Wav,
    WavPack,
    Other,
}

/// A decoded cover image: dimensions and tightly packed pixel bytes,
/// four bytes per pixel in RGBA order.
#[derive(Debug)]
pub struct CoverArt {
    pub width: u32,
    pub height: u32,
    pub data: Vec<u8>,
}

/// One playable item of the library. `file` is the path the audio device
/// reads from; `None` marks an entry that cannot be played. `duration_ms`
/// is the container's reported length, overridden by a length tag when one
/// is present.
#[derive(Debug)]
pub struct Track {
    pub artist: String,
    pub title: String,
    pub album: String,
    pub file: Option<String>,
    pub duration_ms: u64,
    pub cover: Option<CoverArt>,
    pub file_type: Option<FileKind>,
}

/// The items of a file's primary tag, already reduced to plain values by
/// the probing step.
pub struct TagFields {
    pub length_tag: Option<String>,
    pub artist: Option<String>,
    pub album: Option<String>,
    pub title: Option<String>,
    pub cover_bytes: Option<Vec<u8>>,
}

/// What probing reports for a file it could read: the recognised container
/// kind, the duration the container claims, and the primary tag when the
/// file carries one.
pub struct TagData {
    pub file_type: FileKind,
    pub duration_ms: u64,
    pub tag: Option<TagFields>,
}

/// Why assembling a track failed.
#[derive(Clone, Copy, PartialEq, Eq, Structural, Debug)]
pub enum TrackError {
    /// The length tag is present but is not a decimal number of milliseconds.
    LengthTag,
    /// The embedded picture bytes are not a decodable image.
    CoverDecode,
}

/// What decoding embedded picture bytes yields: the dimensions and packed
/// RGBA pixel bytes when the bytes are a supported image, nothing when they
/// are not. A function of the bytes alone.
pub uninterp spec fn decoded_cover(bytes: Seq<u8>) -> Option<(u32, u32, Seq<u8>)>;

/// Relies on image::load_from_memory: whether the bytes decode, and to
/// which image, is a function of the bytes alone. The decoded image is
/// handed on as its dimensions and tightly packed RGBA bytes.
#[verifier::external_body]
fn decode_cover_bytes(bytes: &Vec<u8>) -> (r: Option<CoverArt>)
    ensures
        match r {
            Some(c) => decoded_cover(bytes@) == Some((c.width, c.height, c.data@)),
            None => decoded_cover(bytes@) is None,
        },
{
    match image::load_from_memory(bytes) {
        Ok(img) => {
            let rgba = img.into_rgba8();
            let (width, height) = rgba.dimensions();
            Some(CoverArt { width, height, data: rgba.into_raw() })
        },
        Err(_) => None,
    }
}

/// The fields a track assembled from its path alone carries.
pub open spec fn new_track_fields(t: Track, p: Seq<char>) -> bool {
    &&& t.artist@ == Seq::<char>::empty()
    &&& t.album@ == Seq::<char>::empty()
    &&& t.title@ == default_title(p)
    &&& (t.file matches Some(f) && f@ == p)
    &&& t.duration_ms == 0
    &&& t.cover is None
    &&& t.file_type is None
}

/// A tag item when it is present, the placeholder otherwise.
pub open spec fn tag_or_unknown(item: Option<String>, got: String) -> bool {
    match item {
        Some(s) => got@ == s@,
        None => got@ == "UNKNOWN"@,
    }
}

/// Which error assembling a track from this probe report runs into, if any:
/// an unparsable length tag is found first, undecodable picture bytes after.
pub open spec fn read_err(probed: Option<TagData>) -> Option<TrackError> {
    match probed {
        Some(td) => match td.tag {
            Some(tf) => if tf.length_tag matches Some(s) && parse_u64_spec(s@) is None {
                Some(TrackError::LengthTag)
            } else if tf.cover_bytes matches Some(b) && decoded_cover(b@) is None {
                Some(TrackError::CoverDecode)
            } else {
                None
            },
            None => None,
        },
        None => None,
    }
}

/// The fields of a successfully assembled track. With no probe report the
/// track is bare; a report sets the container kind and duration; a tag
/// overrides the duration through its length tag, replaces the texts —
/// absent items become the placeholder — and supplies the cover.
pub open spec fn read_ok(t: Track, p: Seq<char>, probed: Option<TagData>) -> bool {
    match probed {
        None => new_track_fields(t, p),
        Some(td) => {
            &&& (t.file matches Some(f) && f@ == p)
            &&& t.file_type == Some(td.file_type)
            &&& match td.tag {
                None => {
                    &&& t.artist@ == Seq::<char>::empty()
                    &&& t.album@ == Seq::<char>::empty()
                    &&& t.title@ == default_title(p)
                    &&& t.duration_ms == td.duration_ms
                    &&& t.cover is None
                },
                Some(tf) => {
                    &&& tag_or_unknown(tf.artist, t.artist)
                    &&& tag_or_unknown(tf.album, t.album)
                    &&& tag_or_unknown(tf.title, t.title)
                    &&& match tf.length_tag {
                        Some(s) => parse_u64_spec(s@) == Some(t.duration_ms),
                        None => t.duration_ms == td.duration_ms,
                    }
                    &&& match tf.cover_bytes {
                        Some(b) => t.cover matches Some(c) && decoded_cover(b@) == Some(
                            (c.width, c.height, c.data@),
                        ),
                        None => t.cover is None,
                    }
                },
            }
        },
    }
}

/// A tag item when it is present, the placeholder otherwise.
fn unknown_or(item: Option<String>) -> (r: String)
    ensures
        tag_or_unknown(item, r),
{
    match item {
        Some(s) => s,
        None => "UNKNOWN".to_owned(),
    }
}

impl Track {
    /// A track is a playable song exactly when probing recognised its file.
    pub fn is_song(&self) -> (r: bool)
        ensures
            r == (self.file_type is Some),
    {
        self.file_type.is_some()
    }

    /// A bare track for a path: titled by the file stem, not yet probed,
    /// not yet tagged.
    pub fn new(path: &str) -> (r: Track)
        ensures
            new_track_fields(r, path@),
    {
        let stem = crate::text::title_from_path(path);
        let title = if stem.as_str().is_empty() {
            "UNKNOWN".to_owned()
        } else {
            stem
        };
        Track {
            artist: String::new(),
            title,
            album: String::new(),
            file: Some(path.to_owned()),
            duration_ms: 0,
            cover: None,
            file_type: None,
        }
    }

    /// Assemble the track for a path from what probing reported. Fails
    /// exactly when the tag carries a length that is no decimal number, or
    /// picture bytes that decode to no image; either error leaves no track
    /// behind and is handed to the caller.
    pub fn read(path: &str, probed: Option<TagData>) -> (r: Result<Track, TrackError>)
        ensures
            (r matches Ok(t) ==> read_err(probed) is None && read_ok(t, path@, probed)),
            (r matches Err(e) ==> read_err(probed) == Some(e)),
    {
        let mut song = Track::new(path);
        match probed {
            None => Ok(song),
            Some(td) => {
                song.duration_ms = td.duration_ms;
                song.file_type = Some(td.file_type);
                match td.tag {
                    None => Ok(song),
                    Some(tf) => {
                        match &tf.length_tag {
                            Some(s) => match parse_u64(s.as_str()) {
                                Some(ms) => {
                                    song.duration_ms = ms;
                                },
                                None => {
                                    return Err(TrackError::LengthTag);
                                },
                            },
                            None => {},
                        }
                        song.artist = unknown_or(tf.artist);
                        song.album = unknown_or(tf.album);
                        song.title = unknown_or(tf.title);
                        match &tf.cover_bytes {
                            Some(bytes) => match decode_cover_bytes(bytes) {
                                Some(cover) => {
                                    song.cover = Some(cover);
                                },
                                None => {
                                    return Err(TrackError::CoverDecode);
                                },
                            },
                            None => {},
                        }
                        Ok(song)
                    },
                }
            },
        }
    }
}

impl PartialEq for Track {
    /// Two tracks are the same when they point at the same file.
    fn eq(&self, other: &Self) -> (r: bool) {
        match (&self.file, &other.file) {
            (Some(a), Some(b)) => a.eq(b),
            (None, None) => true,
            _ => false,
        }
    }
}

impl vstd::std_specs::cmp::PartialEqSpecImpl for Track {
    open spec fn obeys_eq_spec() -> bool {
        true
    }

    open spec fn eq_spec(&self, other: &Track) -> bool {
        match (self.file, other.file) {
            (Some(a), Some(b)) => a@ == b@,
            (None, None) => true,
            _ => false,
        }
    }
}

/// Relies on Arc::clone: the result is another handle to the same
/// allocation, so it carries the very same track value.
#[verifier::external_body]
pub(crate) fn arc_clone(t: &Arc<Track>) -> (r: Arc<Track>)
    ensures
        r == *t,
{
    Arc::clone(t)
}

} // verus!
