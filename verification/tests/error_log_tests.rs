use rustwav::error_log::clock::is_text_before;
use rustwav::error_log::{
    ConvertErrorEntry, DownloadErrorEntry, ErrorLogManager, ErrorType, Partition,
    RefreshErrorEntry, StoreOp, Timestamp,
};

fn at(secs: i64) -> Timestamp {
    Timestamp { secs, nanos: 0 }
}

fn download(id: &str, secs: i64) -> DownloadErrorEntry {
    DownloadErrorEntry {
        id: id.to_string(),
        timestamp: at(secs),
        link: "https://open.spotify.com/album/abc".to_string(),
        link_type: "album".to_string(),
        format: "mp3".to_string(),
        quality: "high".to_string(),
        portable: false,
        artist: Some("Artist".to_string()),
        title: Some("Title".to_string()),
        error: "yt-dlp failed for query: Artist Title".to_string(),
        retry_count: 0,
    }
}

fn convert(id: &str, secs: i64) -> ConvertErrorEntry {
    ConvertErrorEntry {
        id: id.to_string(),
        timestamp: at(secs),
        input_path: "music/a.mp3".to_string(),
        target_format: "flac".to_string(),
        quality: "high".to_string(),
        refresh_metadata: true,
        artist: "Artist".to_string(),
        title: "Title".to_string(),
        error: "FFmpeg conversion failed for: music/a.mp3".to_string(),
        retry_count: 0,
    }
}

fn refresh(id: &str, secs: i64) -> RefreshErrorEntry {
    RefreshErrorEntry {
        id: id.to_string(),
        timestamp: at(secs),
        input_path: "music/a.mp3".to_string(),
        artist: "Artist".to_string(),
        title: "Title".to_string(),
        error: "Track not found on Spotify".to_string(),
        retry_count: 0,
    }
}

fn ids(list: &[DownloadErrorEntry]) -> Vec<String> {
    list.iter().map(|e| e.id.clone()).collect()
}

#[test]
fn kinds_name_their_files() {
    assert_eq!(ErrorType::Download.filename(), "download.json");
    assert_eq!(ErrorType::Convert.filename(), "convert.json");
    assert_eq!(ErrorType::Refresh.filename(), "refresh.json");
    assert_eq!(ErrorType::Download.display_name(), "Download");
    assert_eq!(ErrorType::Convert.display_name(), "Convert");
    assert_eq!(ErrorType::Refresh.display_name(), "Refresh");
}

#[test]
fn log_path_is_base_date_and_kind() {
    let log = ErrorLogManager::new("data/errors");
    assert_eq!(log.get_log_path("2025-12-29", ErrorType::Convert), "data/errors/2025-12-29/convert.json");
}

#[test]
fn new_entries_start_with_zero_retries_and_an_identifier() {
    let a = DownloadErrorEntry::new(
        "link".to_string(),
        "playlist".to_string(),
        "flac".to_string(),
        "low".to_string(),
        true,
        None,
        Some("Name".to_string()),
        "boom".to_string(),
    );
    let b = ConvertErrorEntry::new(
        "in.mp3".to_string(),
        "flac".to_string(),
        "high".to_string(),
        false,
        "A".to_string(),
        "T".to_string(),
        "boom".to_string(),
    );
    let c = RefreshErrorEntry::new("in.mp3".to_string(), "A".to_string(), "T".to_string(), "boom".to_string());
    assert_eq!(a.retry_count, 0);
    assert_eq!(b.retry_count, 0);
    assert_eq!(c.retry_count, 0);
    assert_eq!(a.link, "link");
    assert_eq!(a.link_type, "playlist");
    assert_eq!(a.format, "flac");
    assert_eq!(a.quality, "low");
    assert!(a.portable);
    assert_eq!(a.artist, None);
    assert_eq!(a.title, Some("Name".to_string()));
    assert_eq!(a.error, "boom");
    assert_eq!(b.input_path, "in.mp3");
    assert!(!b.refresh_metadata);
    assert_eq!(c.artist, "A");
    // Identifiers are hyphenated and differ from one entry to the next.
    assert_eq!(a.id.len(), 36);
    assert_eq!(a.id.matches('-').count(), 4);
    assert_ne!(a.id, b.id);
    assert_ne!(b.id, c.id);
    // The clock is past the year 2020.
    assert!(a.timestamp.secs > 1_577_836_800);
    assert!(a.timestamp.nanos < 1_000_000_000);
}

#[test]
fn add_appends_and_never_overwrites() {
    let mut log = ErrorLogManager::new("data/errors");
    log.add_download_error_on("2025-01-02", download("a", 10));
    log.add_download_error_on("2025-01-02", download("b", 5));
    log.add_download_error_on("2025-01-02", download("a", 7));
    assert_eq!(ids(&log.get_download_errors_for_date("2025-01-02")), vec!["a", "b", "a"]);
    assert_eq!(log.get_download_errors_for_date("2025-01-03").len(), 0);
    assert_eq!(log.get_convert_errors_for_date("2025-01-02").len(), 0);
    assert_eq!(log.get_error_counts("2025-01-02"), (3, 0, 0));
}

#[test]
fn add_puts_the_entry_into_the_partition_of_today() {
    let mut log = ErrorLogManager::new("data/errors");
    log.add_convert_error(convert("c1", 1));
    let dates = log.list_dates();
    assert_eq!(dates.len(), 1, "today is a date that reads as a date");
    assert_eq!(dates[0].len(), 10);
    assert_eq!(log.get_convert_errors_for_date(&dates[0]).len(), 1);
    assert_eq!(log.get_total_error_counts(), (0, 1, 0));
    match &log.take_pending()[..] {
        [StoreOp::Write { date, kind }] => {
            assert_eq!(date, &dates[0]);
            assert_eq!(*kind, ErrorType::Convert);
        }
        other => panic!("unexpected: {:?}", other),
    }
}

#[test]
fn dates_are_listed_latest_first_and_only_if_they_read_as_dates() {
    let mut log = ErrorLogManager::new("data/errors");
    log.add_download_error_on("2025-01-02", download("a", 1));
    log.add_refresh_error_on("2025-03-01", refresh("b", 2));
    log.add_convert_error_on("2024-12-31", convert("c", 3));
    log.add_convert_error_on("not-a-date", convert("d", 4));
    log.add_convert_error_on("2025-13-45", convert("e", 5));
    assert_eq!(log.list_dates(), vec!["2025-03-01", "2025-01-02", "2024-12-31"]);
    // What is filed under a name that is no date is not counted either.
    assert_eq!(log.get_total_error_counts(), (1, 1, 1));
    assert_eq!(log.get_error_counts("not-a-date"), (0, 1, 0));
}

#[test]
fn all_errors_come_newest_first() {
    let mut log = ErrorLogManager::new("data/errors");
    log.add_download_error_on("2025-01-01", download("old", 100));
    log.add_download_error_on("2025-01-02", download("mid", 200));
    log.add_download_error_on("2025-01-01", download("new", 300));
    log.add_download_error_on("2025-01-02", download("tie", 200));
    let all = log.get_all_download_errors();
    let seen: Vec<(String, String)> = all.iter().map(|(d, e)| (d.clone(), e.id.clone())).collect();
    assert_eq!(
        seen,
        vec![
            ("2025-01-01".to_string(), "new".to_string()),
            ("2025-01-02".to_string(), "mid".to_string()),
            ("2025-01-02".to_string(), "tie".to_string()),
            ("2025-01-01".to_string(), "old".to_string()),
        ]
    );
}

#[test]
fn nanoseconds_break_ties_between_seconds() {
    let mut log = ErrorLogManager::new("data/errors");
    let mut early = refresh("early", 50);
    early.timestamp = Timestamp { secs: 50, nanos: 1 };
    let mut late = refresh("late", 50);
    late.timestamp = Timestamp { secs: 50, nanos: 2 };
    log.add_refresh_error_on("2025-01-01", early);
    log.add_refresh_error_on("2025-01-01", late);
    let all = log.get_all_refresh_errors();
    assert_eq!(all[0].1.id, "late");
    assert_eq!(all[1].1.id, "early");
}

#[test]
fn add_then_remove_leaves_no_trace() {
    let mut log = ErrorLogManager::new("data/errors");
    log.add_download_error_on("2025-01-01", download("keep", 1));
    log.add_download_error_on("2025-02-02", download("only", 2));
    assert_eq!(log.list_dates(), vec!["2025-02-02", "2025-01-01"]);
    assert!(log.remove_download_error("2025-02-02", "only"));
    assert!(log.get_all_download_errors().iter().all(|(_, e)| e.id != "only"));
    assert_eq!(log.list_dates(), vec!["2025-01-01"]);
    assert!(!log.remove_download_error("2025-02-02", "only"), "an entry is removed once");
}

#[test]
fn remove_keeps_the_partition_while_it_has_other_files() {
    let mut log = ErrorLogManager::new("data/errors");
    log.add_download_error_on("2025-02-02", download("d", 1));
    log.add_convert_error_on("2025-02-02", convert("c", 2));
    let _ = log.take_pending();
    assert!(log.remove_download_error("2025-02-02", "d"));
    assert_eq!(log.list_dates(), vec!["2025-02-02"]);
    assert_eq!(log.get_error_counts("2025-02-02"), (0, 1, 0));
    match &log.take_pending()[..] {
        [StoreOp::Delete { date, kind }] => {
            assert_eq!(date, "2025-02-02");
            assert_eq!(*kind, ErrorType::Download);
        }
        other => panic!("unexpected: {:?}", other),
    }
    assert!(log.remove_convert_error("2025-02-02", "c"));
    assert_eq!(log.list_dates().len(), 0);
    assert_eq!(log.partitions().len(), 0);
}

#[test]
fn remove_rewrites_a_file_that_keeps_entries() {
    let mut log = ErrorLogManager::new("data/errors");
    log.add_refresh_error_on("2025-02-02", refresh("a", 1));
    log.add_refresh_error_on("2025-02-02", refresh("b", 2));
    let _ = log.take_pending();
    assert!(log.remove_refresh_error("2025-02-02", "a"));
    match &log.take_pending()[..] {
        [StoreOp::Write { date, kind }] => {
            assert_eq!(date, "2025-02-02");
            assert_eq!(*kind, ErrorType::Refresh);
        }
        other => panic!("unexpected: {:?}", other),
    }
    assert!(!log.remove_refresh_error("2025-02-02", "zzz"));
    assert!(!log.remove_refresh_error("1999-01-01", "b"));
    assert!(!log.has_pending());
}

#[test]
fn a_failed_retry_moves_the_counter_up_and_sets_the_moment() {
    let mut log = ErrorLogManager::new("data/errors");
    log.add_convert_error_on("2025-01-01", convert("a", 1));
    log.add_convert_error_on("2025-01-01", convert("b", 2));
    log.increment_convert_retry_at("2025-01-01", "b", at(99));
    log.increment_convert_retry_at("2025-01-01", "b", at(100));
    let list = log.get_convert_errors_for_date("2025-01-01");
    assert_eq!(list[0].retry_count, 0);
    assert_eq!(list[0].timestamp, at(1));
    assert_eq!(list[1].retry_count, 2);
    assert_eq!(list[1].timestamp, at(100));
    assert_eq!(list[1].id, "b");
    // An identifier that is not there changes nothing.
    let _ = log.take_pending();
    log.increment_convert_retry_at("2025-01-01", "zzz", at(5));
    assert!(!log.has_pending());
}

#[test]
fn a_retry_counter_never_goes_down_and_stays_at_its_largest_value() {
    let mut log = ErrorLogManager::new("data/errors");
    let mut full = download("full", 1);
    full.retry_count = u32::MAX;
    log.add_download_error_on("2025-01-01", full);
    log.increment_download_retry_at("2025-01-01", "full", at(7));
    let list = log.get_download_errors_for_date("2025-01-01");
    assert_eq!(list[0].retry_count, u32::MAX);
    assert_eq!(list[0].timestamp, at(7));
}

#[test]
fn a_retry_now_takes_its_moment_from_the_clock() {
    let mut log = ErrorLogManager::new("data/errors");
    log.add_refresh_error_on("2025-01-01", refresh("a", 1));
    log.increment_refresh_retry("2025-01-01", "a");
    let list = log.get_refresh_errors_for_date("2025-01-01");
    assert_eq!(list[0].retry_count, 1);
    assert!(list[0].timestamp.secs > 1_577_836_800);
}

#[test]
fn an_entry_is_found_by_its_identifier_in_the_latest_date_first() {
    let mut log = ErrorLogManager::new("data/errors");
    log.add_download_error_on("2025-01-01", download("x", 1));
    log.add_download_error_on("2025-03-03", download("x", 2));
    log.add_download_error_on("bogus", download("y", 3));
    let (date, e) = log.get_download_error("x").unwrap();
    assert_eq!(date, "2025-03-03");
    assert_eq!(e.timestamp, at(2));
    assert!(log.get_download_error("y").is_none(), "a name that is no date is not searched");
    assert!(log.get_convert_error("x").is_none());
    assert!(log.get_refresh_error("x").is_none());
}

#[test]
fn clearing_a_date_a_kind_or_everything() {
    let mut log = ErrorLogManager::new("data/errors");
    log.add_download_error_on("2025-01-01", download("a", 1));
    log.add_convert_error_on("2025-01-01", convert("b", 2));
    log.add_download_error_on("2025-01-02", download("c", 3));
    log.add_refresh_error_on("2025-01-03", refresh("d", 4));
    let _ = log.take_pending();

    log.clear_error_type(ErrorType::Download);
    assert_eq!(log.get_total_error_counts(), (0, 1, 1));
    assert_eq!(log.list_dates(), vec!["2025-01-03", "2025-01-01"]);
    let ops = log.take_pending();
    assert_eq!(ops.len(), 3);
    match &ops[0] {
        StoreOp::Delete { date, kind } => {
            assert_eq!(date, "2025-01-03");
            assert_eq!(*kind, ErrorType::Download);
        }
        other => panic!("unexpected: {:?}", other),
    }

    log.clear_date("2025-01-01");
    assert_eq!(log.list_dates(), vec!["2025-01-03"]);
    match &log.take_pending()[..] {
        [StoreOp::DeleteDate { date }] => assert_eq!(date, "2025-01-01"),
        other => panic!("unexpected: {:?}", other),
    }

    log.clear_all();
    assert_eq!(log.list_dates().len(), 0);
    assert_eq!(log.get_total_error_counts(), (0, 0, 0));
    match &log.take_pending()[..] {
        [StoreOp::DeleteAll] => {}
        other => panic!("unexpected: {:?}", other),
    }
}

#[test]
fn stored_partitions_are_taken_as_they_are() {
    let log = ErrorLogManager::from_partitions(
        "data/errors",
        vec![
            Partition {
                date: "2025-01-01".to_string(),
                download: Some(vec![download("a", 1)]),
                convert: None,
                refresh: None,
            },
            Partition { date: "2025-01-02".to_string(), download: None, convert: None, refresh: None },
            Partition {
                date: "2025-01-01".to_string(),
                download: None,
                convert: Some(vec![convert("b", 2)]),
                refresh: None,
            },
            Partition {
                date: "2025-01-03".to_string(),
                download: None,
                convert: None,
                refresh: Some(vec![]),
            },
        ],
    );
    assert_eq!(log.list_dates(), vec!["2025-01-03", "2025-01-01"]);
    assert_eq!(log.get_error_counts("2025-01-01"), (1, 0, 0));
    assert!(!log.has_pending());
}

#[test]
fn dictionary_order_of_dates() {
    assert!(is_text_before("2025-01-01", "2025-01-02"));
    assert!(!is_text_before("2025-01-02", "2025-01-01"));
    assert!(!is_text_before("2025-01-01", "2025-01-01"));
    assert!(is_text_before("2025-01", "2025-01-01"));
    assert!(is_text_before("", "a"));
    assert!(!is_text_before("", ""));
}

#[test]
fn a_failed_retry_of_each_kind_is_counted_now() {
    let mut log = ErrorLogManager::new("data/errors");
    log.add_download_error_on("2025-01-01", download("d", 1));
    log.add_convert_error_on("2025-01-01", convert("c", 1));
    log.increment_download_retry("2025-01-01", "d");
    log.increment_download_retry("2025-01-01", "d");
    log.increment_convert_retry("2025-01-01", "c");
    log.increment_convert_retry("2025-01-01", "absent");
    log.increment_convert_retry("2024-12-31", "c");
    let downloads = log.get_download_errors_for_date("2025-01-01");
    assert_eq!(downloads.len(), 1);
    assert_eq!(downloads[0].retry_count, 2);
    assert!(downloads[0].timestamp.secs > 1_577_836_800);
    let conversions = log.get_convert_errors_for_date("2025-01-01");
    assert_eq!(conversions.len(), 1);
    assert_eq!(conversions[0].retry_count, 1);
    assert_eq!(log.list_dates(), vec!["2025-01-01"]);
}
