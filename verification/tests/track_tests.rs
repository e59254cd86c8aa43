use ggmusic::track::{FileKind, TagData, TagFields, Track, TrackError};

fn bare_tag() -> TagFields {
    TagFields { length_tag: None, artist: None, album: None, title: None, cover_bytes: None }
}

fn probed(tag: Option<TagFields>) -> Option<TagData> {
    Some(TagData { file_type: FileKind::Mpeg, duration_ms: 200_000, tag })
}

/// A complete one-pixel 24-bit BMP image: a single red pixel.
fn one_red_pixel_bmp() -> Vec<u8> {
    let mut bytes = vec![
        0x42, 0x4D, // "BM"
        58, 0, 0, 0, // file size
        0, 0, 0, 0, // reserved
        54, 0, 0, 0, // pixel data offset
        40, 0, 0, 0, // header size
        1, 0, 0, 0, // width
        1, 0, 0, 0, // height
        1, 0, // planes
        24, 0, // bits per pixel
        0, 0, 0, 0, // no compression
        4, 0, 0, 0, // pixel data size
        0, 0, 0, 0, // x pixels per metre
        0, 0, 0, 0, // y pixels per metre
        0, 0, 0, 0, // colours
        0, 0, 0, 0, // important colours
    ];
    bytes.extend_from_slice(&[0x00, 0x00, 0xFF, 0x00]); // one BGR pixel, padded
    bytes
}

#[test]
fn new_track_takes_title_from_stem() {
    let t = Track::new("/home/user/Music/Some Song.mp3");
    assert_eq!(t.title, "Some Song");
    assert_eq!(t.file.as_deref(), Some("/home/user/Music/Some Song.mp3"));
    assert_eq!(t.artist, "");
    assert_eq!(t.album, "");
    assert_eq!(t.duration_ms, 0);
    assert!(t.cover.is_none());
    assert!(!t.is_song());
}

#[test]
fn stem_keeps_inner_dots_and_hidden_names() {
    assert_eq!(Track::new("a/b/archive.tar.gz").title, "archive.tar");
    assert_eq!(Track::new(".hidden").title, ".hidden");
    assert_eq!(Track::new("dir/.config.bak").title, ".config");
    assert_eq!(Track::new("noext").title, "noext");
}

#[test]
fn empty_stem_becomes_placeholder() {
    assert_eq!(Track::new("some/dir/").title, "UNKNOWN");
    assert_eq!(Track::new("").title, "UNKNOWN");
}

#[test]
fn read_without_probe_is_bare() {
    let t = Track::read("/m/x.mp3", None).unwrap();
    assert!(!t.is_song());
    assert_eq!(t.title, "x");
    assert_eq!(t.duration_ms, 0);
}

#[test]
fn read_with_probe_sets_kind_and_duration() {
    let t = Track::read("/m/x.mp3", probed(None)).unwrap();
    assert!(t.is_song());
    assert_eq!(t.duration_ms, 200_000);
    assert_eq!(t.title, "x");
}

#[test]
fn read_with_tag_overrides_texts() {
    let tag = TagFields {
        artist: Some("Artist".into()),
        album: Some("Album".into()),
        title: Some("Title".into()),
        ..bare_tag()
    };
    let t = Track::read("/m/x.mp3", probed(Some(tag))).unwrap();
    assert_eq!(t.artist, "Artist");
    assert_eq!(t.album, "Album");
    assert_eq!(t.title, "Title");
}

#[test]
fn missing_tag_items_become_placeholder() {
    let t = Track::read("/m/x.mp3", probed(Some(bare_tag()))).unwrap();
    assert_eq!(t.artist, "UNKNOWN");
    assert_eq!(t.album, "UNKNOWN");
    assert_eq!(t.title, "UNKNOWN");
}

#[test]
fn length_tag_overrides_duration() {
    let tag = TagFields { length_tag: Some("123456".into()), ..bare_tag() };
    let t = Track::read("/m/x.mp3", probed(Some(tag))).unwrap();
    assert_eq!(t.duration_ms, 123_456);
    let tag = TagFields { length_tag: Some("+42".into()), ..bare_tag() };
    let t = Track::read("/m/x.mp3", probed(Some(tag))).unwrap();
    assert_eq!(t.duration_ms, 42);
}

#[test]
fn bad_length_tag_is_an_error() {
    for bad in ["12x", "", "-3", "  7", "99999999999999999999999"] {
        let tag = TagFields { length_tag: Some(bad.into()), ..bare_tag() };
        let r = Track::read("/m/x.mp3", probed(Some(tag)));
        assert_eq!(r.unwrap_err(), TrackError::LengthTag);
    }
}

#[test]
fn length_tag_bounds() {
    let tag = TagFields { length_tag: Some("18446744073709551615".into()), ..bare_tag() };
    let t = Track::read("/m/x.mp3", probed(Some(tag))).unwrap();
    assert_eq!(t.duration_ms, u64::MAX);
    let tag = TagFields { length_tag: Some("18446744073709551616".into()), ..bare_tag() };
    let r = Track::read("/m/x.mp3", probed(Some(tag)));
    assert_eq!(r.unwrap_err(), TrackError::LengthTag);
    let tag = TagFields { length_tag: Some("007".into()), ..bare_tag() };
    let t = Track::read("/m/x.mp3", probed(Some(tag))).unwrap();
    assert_eq!(t.duration_ms, 7);
}

#[test]
fn stem_handles_multibyte_characters() {
    assert_eq!(Track::new("música/ünïcode.mp3").title, "ünïcode");
}

#[test]
fn cover_bytes_decode_to_pixels() {
    let tag = TagFields { cover_bytes: Some(one_red_pixel_bmp()), ..bare_tag() };
    let t = Track::read("/m/x.mp3", probed(Some(tag))).unwrap();
    let cover = t.cover.expect("the pixel must decode");
    assert_eq!((cover.width, cover.height), (1, 1));
    assert_eq!(cover.data, vec![0xFF, 0x00, 0x00, 0xFF]);
}

#[test]
fn corrupt_cover_bytes_are_an_error() {
    let tag = TagFields { cover_bytes: Some(vec![1, 2, 3, 4]), ..bare_tag() };
    let r = Track::read("/m/x.mp3", probed(Some(tag)));
    assert_eq!(r.unwrap_err(), TrackError::CoverDecode);
}

#[test]
fn tracks_compare_by_file() {
    let a = Track::new("/m/same.mp3");
    let b = Track::read("/m/same.mp3", probed(Some(bare_tag()))).unwrap();
    let c = Track::new("/m/other.mp3");
    assert!(a == b);
    assert!(a != c);
}
