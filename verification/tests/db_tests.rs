use rustwav::db::{DownloadDB, TrackEntry};
use rustwav::paths::probe_all;

fn entry(artist: &str, title: &str, path: &str) -> TrackEntry {
    TrackEntry { artist: artist.to_string(), title: title.to_string(), path: path.to_string() }
}

fn paths(db: &DownloadDB) -> Vec<String> {
    db.all_tracks().iter().map(|t| t.path.clone()).collect()
}

#[test]
fn a_new_catalog_is_empty_and_saved() {
    let db = DownloadDB::new("data/cache/downloaded_songs.json");
    assert_eq!(db.len(), 0);
    assert!(!db.needs_save());
    assert_eq!(db.file_path(), "data/cache/downloaded_songs.json");
    assert!(!db.contains(&entry("a", "t", "p")));
    assert!(db.find_by_path("p").is_none());
}

#[test]
fn adding_the_same_entry_twice_leaves_one_record() {
    let mut db = DownloadDB::new("db.json");
    db.add(entry("Artist", "Title", "music/a.mp3"));
    assert!(db.needs_save());
    db.mark_saved();
    db.add(entry("Artist", "Title", "music/a.mp3"));
    assert_eq!(db.len(), 1);
    assert!(db.needs_save(), "a second add asks for a rewrite too");
    let same = db
        .all_tracks()
        .iter()
        .filter(|t| t.artist == "Artist" && t.title == "Title" && t.path == "music/a.mp3")
        .count();
    assert_eq!(same, 1);
}

#[test]
fn contains_looks_at_artist_title_and_path() {
    let mut db = DownloadDB::new("db.json");
    db.add(entry("Artist", "Title", "music/a.mp3"));
    assert!(db.contains(&entry("Artist", "Title", "music/a.mp3")));
    assert!(!db.contains(&entry("artist", "Title", "music/a.mp3")));
    assert!(!db.contains(&entry("Artist", "Title", "music/a.flac")));
    assert!(!db.contains(&entry("Artist", "Other", "music/a.mp3")));
}

#[test]
fn stored_records_are_taken_once_each() {
    let db = DownloadDB::from_entries(
        "db.json",
        vec![entry("a", "1", "p1"), entry("b", "2", "p2"), entry("a", "1", "p1")],
    );
    assert_eq!(paths(&db), vec!["p1", "p2"]);
    assert!(!db.needs_save());
}

#[test]
fn update_path_moves_the_first_entry_with_that_path() {
    let mut db = DownloadDB::from_entries(
        "db.json",
        vec![entry("a", "1", "old.mp3"), entry("b", "2", "other.mp3")],
    );
    assert!(db.update_path("old.mp3", "old.flac"));
    assert!(db.needs_save());
    assert!(db.contains(&entry("a", "1", "old.flac")));
    assert!(!db.contains(&entry("a", "1", "old.mp3")));
    assert_eq!(db.len(), 2);
    assert_eq!(db.find_by_path("old.flac").unwrap().artist, "a");
}

#[test]
fn update_path_of_an_unknown_path_changes_nothing() {
    let mut db = DownloadDB::from_entries("db.json", vec![entry("a", "1", "old.mp3")]);
    assert!(!db.update_path("missing.mp3", "x.flac"));
    assert!(!db.needs_save());
    assert_eq!(paths(&db), vec!["old.mp3"]);
}

#[test]
fn update_path_onto_an_existing_record_keeps_one_copy() {
    let mut db = DownloadDB::from_entries(
        "db.json",
        vec![entry("a", "1", "old.mp3"), entry("a", "1", "new.flac")],
    );
    assert!(db.update_path("old.mp3", "new.flac"));
    assert_eq!(paths(&db), vec!["new.flac"]);
}

#[test]
fn remove_by_path_takes_one_record() {
    let mut db = DownloadDB::from_entries(
        "db.json",
        vec![entry("a", "1", "p"), entry("b", "2", "p"), entry("c", "3", "q")],
    );
    assert!(db.remove_by_path("p"));
    assert!(db.needs_save());
    assert_eq!(db.len(), 2);
    assert!(!db.contains(&entry("a", "1", "p")));
    assert!(db.contains(&entry("b", "2", "p")));
    assert!(!db.remove_by_path("zzz"));
}

#[test]
fn retain_present_keeps_exactly_the_records_whose_file_exists() {
    let mut db = DownloadDB::from_entries(
        "db.json",
        vec![entry("a", "1", "p1"), entry("b", "2", "p2"), entry("c", "3", "p3"), entry("d", "4", "p4")],
    );
    let counts = db.retain_present(&vec![true, false, true, false]);
    assert_eq!(counts, (2, 4));
    assert_eq!(paths(&db), vec!["p1", "p3"]);
    assert!(db.needs_save());
}

#[test]
fn retain_present_without_missing_files_asks_for_no_rewrite() {
    let mut db = DownloadDB::from_entries("db.json", vec![entry("a", "1", "p1")]);
    assert_eq!(db.retain_present(&vec![true]), (0, 1));
    assert!(!db.needs_save());
    // A record without an answer stays.
    assert_eq!(db.retain_present(&vec![]), (0, 1));
    assert_eq!(db.len(), 1);
}

#[test]
fn cleanup_asks_the_disk_about_every_record() {
    let mut db = DownloadDB::from_entries(
        "db.json",
        vec![entry("a", "root", "/"), entry("b", "gone", "/surely/not/there/track.mp3")],
    );
    assert_eq!(db.probe_files(), vec![true, false]);
    let (removed, total_before) = db.cleanup();
    assert_eq!((removed, total_before), (1, 2));
    assert_eq!(paths(&db), vec!["/"]);
    assert!(db.needs_save());
    let (removed, total_before) = db.cleanup();
    assert_eq!((removed, total_before), (0, 1));
}

#[test]
fn cleanup_of_an_empty_catalog_removes_nothing() {
    let mut db = DownloadDB::new("db.json");
    assert_eq!(db.cleanup(), (0, 0));
    assert!(!db.needs_save());
}

#[test]
fn the_missing_records_are_named_without_taking_them_out() {
    let entries = vec![
        TrackEntry { artist: "A".to_string(), title: "1".to_string(), path: "a/1.mp3".to_string() },
        TrackEntry { artist: "B".to_string(), title: "2".to_string(), path: "b/2.mp3".to_string() },
        TrackEntry { artist: "C".to_string(), title: "3".to_string(), path: "c/3.mp3".to_string() },
    ];
    let mut db = DownloadDB::from_entries("db.json", entries);
    let gone = db.missing_tracks(&vec![false, true, false]);
    let titles: Vec<&str> = gone.iter().map(|e| e.title.as_str()).collect();
    assert_eq!(titles, vec!["1", "3"]);
    assert_eq!(db.len(), 3);
    assert!(!db.needs_save());
    // An answer that is not there counts as present.
    assert_eq!(db.missing_tracks(&vec![true]).len(), 0);
    assert_eq!(db.missing_tracks(&vec![]).len(), 0);
    assert_eq!(db.missing_tracks(&vec![true, false]).len(), 1);
    // What is named is what a clean-up takes out.
    let (removed, total) = db.retain_present(&vec![false, true, false]);
    assert_eq!((removed, total), (2, 3));
    assert_eq!(db.all_tracks()[0].title, "2");
}

#[test]
fn the_disk_is_asked_about_the_path_of_each_record_in_order() {
    let db = DownloadDB::from_entries(
        "db.json",
        vec![
            entry("A", "1", "/surely/not/there/1.mp3"),
            entry("B", "2", "/"),
            entry("C", "3", "/surely/not/there/3.mp3"),
        ],
    );
    assert_eq!(db.paths(), vec!["/surely/not/there/1.mp3", "/", "/surely/not/there/3.mp3"]);
    assert_eq!(probe_all(&db.paths()), vec![false, true, false]);
    assert_eq!(db.probe_files(), vec![false, true, false]);
    assert_eq!(DownloadDB::new("db.json").paths(), Vec::<String>::new());
    assert_eq!(probe_all(&vec![]), Vec::<bool>::new());
}
