use tunes::library::{EntryKind, Library, ScanSession};
use tunes::text::has_supported_extension;
use tunes::track::SongInfo;

fn song(
    title: Option<&str>,
    album: Option<&str>,
    artist: Option<&str>,
    track: Option<u16>,
    duration_ms: u64,
    path: &str,
) -> SongInfo {
    SongInfo::new(
        title.map(String::from),
        album.map(String::from),
        artist.map(String::from),
        None,
        None,
        None,
        (track, None),
        (None, None),
        duration_ms,
        String::from(path),
    )
}

#[test]
fn test_library_scans_empty_dir() {
    let l = Library::new("music");
    assert!(l.files().is_empty());
}

#[test]
fn test_library_scans_flat_dir_no_valid_files() {
    // One supported file whose metadata cannot be parsed: seen, not loaded.
    let mut session = ScanSession::new(String::from("music"));
    let dir = session.next_dir().unwrap();
    assert_eq!(dir, "music");
    let wants_meta = session.on_entry(format!("{}/test_file.mp3", dir), EntryKind::File);
    assert!(wants_meta);
    // Metadata extraction fails: the walk simply never reports a track.
    assert!(session.next_dir().is_none());
    let mut l = Library::new("music");
    assert_eq!(l.scan(session), 1);
    // We don't add files unless they can be parsed as valid mp3/flac
    assert!(l.files().is_empty());
}

#[test]
fn test_library_scans_nested_dir_no_valid_files() {
    // music/subdir_{1,2,3}, subdir_1/subsubdir_1, one unparseable mp3 in
    // each of the four leaf directories.
    let mut session = ScanSession::new(String::from("music"));
    let root = session.next_dir().unwrap();
    assert!(!session.on_entry(format!("{root}/subdir_1"), EntryKind::Directory));
    assert!(!session.on_entry(format!("{root}/subdir_2"), EntryKind::Directory));
    assert!(!session.on_entry(format!("{root}/subdir_3"), EntryKind::Directory));
    while let Some(dir) = session.next_dir() {
        if dir.ends_with("/subdir_1") {
            assert!(!session.on_entry(format!("{dir}/subsubdir_1"), EntryKind::Directory));
        }
        assert!(session.on_entry(format!("{dir}/test_file.mp3"), EntryKind::File));
    }
    let mut l = Library::new("music");
    assert_eq!(l.scan(session), 4);
    // We don't add files unless they can be parsed as valid mp3/flac
    assert!(l.files().is_empty());
}

#[test]
fn scan_counts_only_supported_extensions() {
    let mut session = ScanSession::new(String::from("music"));
    let dir = session.next_dir().unwrap();
    assert!(!session.on_entry(format!("{dir}/readme.txt"), EntryKind::File));
    assert!(!session.on_entry(format!("{dir}/cover.jpg"), EntryKind::File));
    assert!(!session.on_entry(format!("{dir}/weird.mp3.bak"), EntryKind::File));
    assert!(!session.on_entry(format!("{dir}/.mp3"), EntryKind::File));
    assert!(!session.on_entry(format!("{dir}/socket"), EntryKind::Other));
    assert!(session.on_entry(format!("{dir}/one.mp3"), EntryKind::File));
    assert!(session.on_entry(format!("{dir}/two.flac"), EntryKind::File));
    assert_eq!(session.files_seen(), 2);
}

#[test]
fn scan_excludes_unparseable_but_counts_them() {
    let mut session = ScanSession::new(String::from("music"));
    let dir = session.next_dir().unwrap();
    assert!(session.on_entry(format!("{dir}/good.mp3"), EntryKind::File));
    session.on_track(song(Some("Good"), None, None, None, 1000, "music/good.mp3"));
    assert!(session.on_entry(format!("{dir}/bad.mp3"), EntryKind::File));
    // bad.mp3 fails to parse: no on_track call.
    let mut l = Library::new("music");
    assert_eq!(l.scan(session), 2);
    assert_eq!(l.files().len(), 1);
    assert_eq!(l.files()[0].title(), Some("Good"));
}

#[test]
fn supported_extension_is_exact_and_case_sensitive() {
    assert!(has_supported_extension("a/b/track.mp3"));
    assert!(has_supported_extension("track.flac"));
    assert!(has_supported_extension("dir.d/x.tar.mp3"));
    assert!(!has_supported_extension("track.MP3"));
    assert!(!has_supported_extension("track.Flac"));
    assert!(!has_supported_extension("track.wav"));
    assert!(!has_supported_extension("mp3"));
    assert!(!has_supported_extension(".mp3"));
    assert!(!has_supported_extension("dir/.mp3"));
    assert!(!has_supported_extension("dir.mp3/track"));
    assert!(!has_supported_extension("track.mp3x"));
    assert!(!has_supported_extension("track."));
}

#[test]
fn scan_sorts_by_artist_album_track() {
    // a.mp3 by Bob and b.flac by Alice: the scan sees both, Alice sorts first.
    let mut session = ScanSession::new(String::from("root"));
    let dir = session.next_dir().unwrap();
    assert!(session.on_entry(format!("{dir}/a.mp3"), EntryKind::File));
    session.on_track(song(Some("A"), Some("X"), Some("Bob"), Some(2), 10_000, "root/a.mp3"));
    assert!(session.on_entry(format!("{dir}/b.flac"), EntryKind::File));
    session.on_track(song(Some("B"), Some("Y"), Some("Alice"), Some(1), 5_000, "root/b.flac"));
    assert!(session.next_dir().is_none());
    let mut l = Library::new("root");
    let seen = l.scan(session);
    assert_eq!(seen, 2);
    assert_eq!(l.files().len(), 2);
    assert_eq!(l.files()[0].artist(), Some("Alice"));
    assert_eq!(l.files()[0]._file_path(), "root/b.flac");
    assert_eq!(l.files()[1].artist(), Some("Bob"));
    assert_eq!(l.files()[1]._file_path(), "root/a.mp3");
}

#[test]
fn sort_reads_missing_fields_as_unknown_and_zero() {
    let mut session = ScanSession::new(String::from("r"));
    let _ = session.next_dir();
    // Missing artist sorts as the literal "Unknown": after "Alice",
    // before "Zeta".
    session.on_track(song(Some("t1"), None, Some("Zeta"), None, 1, "r/1.mp3"));
    session.on_track(song(Some("t2"), None, None, None, 1, "r/2.mp3"));
    session.on_track(song(Some("t3"), None, Some("Alice"), None, 1, "r/3.mp3"));
    let l = Library::new("r").with_scan(session);
    let titles: Vec<_> = l.files().iter().map(|s| s.title().unwrap().to_string()).collect();
    assert_eq!(titles, vec!["t3", "t2", "t1"]);
}

#[test]
fn sort_breaks_ties_by_album_then_track_number() {
    let mut session = ScanSession::new(String::from("r"));
    let _ = session.next_dir();
    session.on_track(song(Some("b2"), Some("B"), Some("Ann"), Some(2), 1, "r/b2.mp3"));
    session.on_track(song(Some("a9"), Some("A"), Some("Ann"), Some(9), 1, "r/a9.mp3"));
    session.on_track(song(Some("b1"), Some("B"), Some("Ann"), Some(1), 1, "r/b1.mp3"));
    session.on_track(song(Some("bx"), Some("B"), Some("Ann"), None, 1, "r/bx.mp3"));
    let l = Library::new("r").with_scan(session);
    let titles: Vec<_> = l.files().iter().map(|s| s.title().unwrap().to_string()).collect();
    // Album A before B; inside B the missing track number reads as 0.
    assert_eq!(titles, vec!["a9", "bx", "b1", "b2"]);
}

#[test]
fn rescan_replaces_previous_contents() {
    let mut first = ScanSession::new(String::from("r"));
    let _ = first.next_dir();
    first.on_track(song(Some("old"), None, None, None, 1, "r/old.mp3"));
    let mut l = Library::new("r").with_scan(first);
    assert_eq!(l.files().len(), 1);

    let mut second = ScanSession::new(String::from("r"));
    let _ = second.next_dir();
    second.on_track(song(Some("new1"), None, None, None, 1, "r/new1.mp3"));
    second.on_track(song(Some("new2"), None, None, None, 1, "r/new2.mp3"));
    assert_eq!(l.scan(second), 0);
    assert_eq!(l.files().len(), 2);
    assert!(l.files().iter().all(|s| s.title() != Some("old")));
}

#[test]
fn failed_scan_leaves_library_cleared() {
    let mut session = ScanSession::new(String::from("r"));
    let _ = session.next_dir();
    session.on_track(song(Some("t"), None, None, None, 1, "r/t.mp3"));
    let mut l = Library::new("r").with_scan(session);
    assert_eq!(l.files().len(), 1);
    // A directory fails to list: the walk aborts and the library clears.
    l.clear();
    assert!(l.files().is_empty());
    assert_eq!(l.root_dir(), "r");
}

#[test]
fn song_info_keeps_absent_fields_absent() {
    let s = song(None, None, None, None, 0, "p.mp3");
    assert_eq!(s.title(), None);
    assert_eq!(s.album(), None);
    assert_eq!(s.artist(), None);
    assert_eq!(s.track(), (None, None));
    assert_eq!(s.duration(), 0);
    let t = SongInfo::new(
        Some(String::from("T")),
        Some(String::from("Al")),
        Some(String::from("Ar")),
        Some(String::from("AA")),
        Some(1999),
        Some(String::from("G")),
        (Some(3), Some(12)),
        (Some(1), Some(2)),
        61_000,
        String::from("x/y.flac"),
    );
    assert_eq!(t.title(), Some("T"));
    assert_eq!(t._album_artist(), Some("AA"));
    assert_eq!(t._year(), &Some(1999));
    assert_eq!(t._genre(), Some("G"));
    assert_eq!(t.track(), (Some(3), Some(12)));
    assert_eq!(t._disc(), (Some(1), Some(2)));
    assert_eq!(t.duration(), 61_000);
    assert_eq!(t._file_path(), "x/y.flac");
}
