use ggmusic::assets::Assets;
use ggmusic::library::Library;
use ggmusic::track::{FileKind, TagData, Track};
use ggmusic::watcher::CompletionWatcher;
use ggmusic::window::Window;

fn song(path: &str) -> Track {
    let probed = Some(TagData { file_type: FileKind::Flac, duration_ms: 1000, tag: None });
    Track::read(path, probed).unwrap()
}

#[test]
fn library_keeps_only_songs_in_order() {
    let scanned = vec![
        song("/m/1.flac"),
        Track::new("/m/readme.txt"),
        song("/m/2.flac"),
        Track::new("/m/cover.jpg"),
        song("/m/3.flac"),
    ];
    let library = Library::load_tracks(scanned);
    let files: Vec<&str> = library.0.iter().map(|t| t.file.as_deref().unwrap()).collect();
    assert_eq!(files, vec!["/m/1.flac", "/m/2.flac", "/m/3.flac"]);
}

#[test]
fn library_of_no_songs_is_empty() {
    let library = Library::load_tracks(vec![Track::new("/m/a.txt")]);
    assert!(library.0.is_empty());
    let library = Library::load_tracks(Vec::new());
    assert!(library.0.is_empty());
}

#[test]
fn asset_listing_filters_by_prefix() {
    let paths = vec![
        "icons/play.svg".to_string(),
        "fonts/Inter.ttf".to_string(),
        "icons/pause.svg".to_string(),
        "ico".to_string(),
    ];
    let listed = Assets::list(paths, "icons");
    assert_eq!(listed, vec!["icons/play.svg".to_string(), "icons/pause.svg".to_string()]);
}

#[test]
fn asset_listing_with_empty_prefix_keeps_all() {
    let paths = vec!["a".to_string(), "b".to_string()];
    assert_eq!(Assets::list(paths.clone(), ""), paths);
}

#[test]
fn watcher_signals_only_on_drop() {
    let mut w = CompletionWatcher::new();
    assert_eq!(w.prev, 0);
    assert!(!w.observe(1)); // a source was enqueued
    assert!(!w.observe(1)); // still rendering
    assert!(w.observe(0)); // it finished
    assert!(!w.observe(0)); // nothing new
    assert!(!w.observe(5));
    assert!(w.observe(4));
}

#[test]
fn window_state_transitions() {
    let mut w = Window::init();
    assert!(w.is_open());
    assert!(!w.open()); // already visible: no activation needed
    w.close();
    assert!(!w.is_open());
    assert!(w.open()); // was hidden: activation needed
    assert!(w.is_open());
}
