use rustwav::db::{DownloadDB, TrackEntry};
use rustwav::error_log::{
    ConvertErrorEntry, DownloadErrorEntry, ErrorLogManager, RefreshErrorEntry, Timestamp,
};
use rustwav::sources::spotify::{Album, AlbumTrack, PlaylistItem, PlaylistTrack};
use rustwav::tui::app::{
    format_option, quality_option, App, CleanupPreview, ConvertDeletePending, ConvertPending,
    ErrorTab, JobStatus, LinkType, M3UPending, RetryTicket, Screen, SettingsField,
};
use rustwav::tui::event::{handle_events, Intent, Key};
use rustwav::tui::m3u::{
    album_pairs, do_generate_m3u, m3u_link_kind, match_tracks, playlist_pairs, M3UCheckResult,
};
use rustwav::tui::worker::{ConvertTrackInfo, DownloadEvent, DownloadRequest};

fn entry(artist: &str, title: &str, path: &str) -> TrackEntry {
    TrackEntry { artist: artist.to_string(), title: title.to_string(), path: path.to_string() }
}

fn app_with(entries: Vec<TrackEntry>, log: ErrorLogManager) -> App {
    App::new("data/music", "data/playlists", DownloadDB::from_entries("db.json", entries), log)
}

fn app() -> App {
    app_with(vec![], ErrorLogManager::new("data/errors"))
}

fn queued(app: &mut App, link: &str, kind: LinkType) -> DownloadRequest {
    app.start_add(kind);
    for c in link.chars() {
        app.type_char(c);
    }
    app.submit_input();
    app.submit_settings().unwrap()
}

#[test]
fn the_interface_starts_on_the_main_screen() {
    let a = app_with(vec![entry("a", "t", "p")], ErrorLogManager::new("data/errors"));
    assert!(a.running);
    assert_eq!(a.view, Screen::Main);
    assert_eq!(a.library.len(), 1);
    assert_eq!(a.status_message, "Welcome! Press 'a' for album, 'p' for playlist, 'P' for portable mode");
    assert!(a.log_auto_scroll);
    assert!(a.convert_refresh_metadata);
    assert_eq!(a.next_id, 0);
    assert!(a.queue.is_empty());
}

#[test]
fn a_link_goes_through_its_settings_into_the_queue() {
    let mut a = app();
    a.start_add_album();
    assert_eq!(a.view, Screen::AddLink);
    assert!(a.input_mode);
    assert_eq!(a.status_message, "Enter Spotify album link:");
    for c in "https://open.spotify.com/album/abc".chars() {
        a.type_char(c);
    }
    a.type_char('x');
    a.erase_char();
    a.submit_input();
    assert_eq!(a.view, Screen::LinkSettings);
    assert_eq!(a.pending_link.as_deref(), Some("https://open.spotify.com/album/abc"));
    assert_eq!(a.status_message, "Select format and quality, then press Enter");
    a.settings_right();
    a.settings_down();
    a.settings_right();
    a.settings_right();
    a.settings_right();
    assert_eq!((a.selected_format, a.selected_quality), (1, 2));
    let request = a.submit_settings().unwrap();
    assert_eq!(
        request,
        DownloadRequest::Album {
            id: 1,
            link: "https://open.spotify.com/album/abc".to_string(),
            portable: false,
            format: "flac".to_string(),
            quality: "low".to_string(),
        }
    );
    assert_eq!(a.view, Screen::Queue);
    assert_eq!(a.queue.len(), 1);
    assert_eq!(a.queue[0].id, 1);
    assert_eq!(a.queue[0].name, "Fetching album...");
    assert_eq!(a.queue[0].status, JobStatus::Fetching);
    assert_eq!(a.queue[0].progress, (0, 0));
    assert_eq!(a.status_message, "Added to queue (flac, low)");
    assert_eq!(a.pending_link, None);
    assert!(a.submit_settings().is_none());
    assert_eq!(a.status_message, "No link pending");
    assert_eq!(a.view, Screen::Main);
}

#[test]
fn job_identifiers_go_up_by_one() {
    let mut a = app();
    let first = queued(&mut a, "l1", LinkType::Album);
    let second = queued(&mut a, "l2", LinkType::Playlist);
    assert_eq!(first.id(), 1);
    assert_eq!(second.id(), 2);
    assert!(matches!(second, DownloadRequest::Playlist { .. }));
    assert_eq!(a.queue[1].name, "Fetching playlist...");
}

#[test]
fn portable_mode_asks_for_mp3_and_marks_the_prompt() {
    let mut a = app();
    a.toggle_portable();
    assert_eq!(a.status_message, "Portable mode: ON (FAT32-safe, small covers, MP3 only)");
    a.start_add_playlist();
    assert_eq!(a.status_message, "Enter Spotify playlist link [portable]:");
    a.selected_format = 2;
    let request = queued(&mut a, "link", LinkType::Playlist);
    match request {
        DownloadRequest::Playlist { portable, format, .. } => {
            assert!(portable);
            assert_eq!(format, "mp3");
        }
        other => panic!("unexpected: {:?}", other),
    }
    a.toggle_portable();
    assert_eq!(a.status_message, "Portable mode: OFF");
}

#[test]
fn a_link_to_a_playlist_of_the_video_site_is_taken_as_one() {
    let mut a = app();
    let request = queued(&mut a, "https://www.youtube.com/playlist?list=PL1", LinkType::Album);
    assert!(matches!(request, DownloadRequest::YouTubePlaylist { .. }));
    assert_eq!(a.queue[0].name, "Fetching YouTube playlist...");
    assert_eq!(a.link_type, LinkType::YouTubePlaylist);
}

#[test]
fn an_empty_entry_leads_back() {
    let mut a = app();
    a.start_add_youtube_playlist();
    assert_eq!(a.status_message, "Enter YouTube playlist link:");
    a.submit_input();
    assert_eq!(a.view, Screen::Main);
    assert!(!a.input_mode);
    assert_eq!(a.status_message, "No link provided");
    a.start_add_album();
    a.type_char('x');
    a.cancel_input();
    assert_eq!(a.input, "");
    assert_eq!(a.status_message, "Cancelled");
    a.erase_char();
    assert_eq!(a.input, "");
}

#[test]
fn choices_stay_within_their_lists() {
    assert_eq!(format_option(0), "mp3");
    assert_eq!(format_option(3), "aac");
    assert_eq!(format_option(9), "aac");
    assert_eq!(quality_option(1), "medium");
    assert_eq!(quality_option(7), "low");
    let mut a = app();
    a.settings_left();
    assert_eq!(a.selected_format, 0);
    for _ in 0..9 {
        a.settings_right();
    }
    assert_eq!(a.selected_format, 3);
    a.settings_down();
    assert_eq!(a.settings_field, SettingsField::Quality);
    for _ in 0..9 {
        a.settings_right();
    }
    assert_eq!(a.selected_quality, 2);
    a.settings_left();
    assert_eq!(a.selected_quality, 1);
    a.settings_up();
    assert_eq!(a.settings_field, SettingsField::Format);
    for _ in 0..9 {
        a.convert_settings_right();
        a.convert_quality_right();
    }
    assert_eq!((a.convert_target_format, a.convert_quality), (3, 2));
    a.convert_settings_left();
    a.convert_quality_left();
    assert_eq!((a.convert_target_format, a.convert_quality), (2, 1));
    a.convert_toggle_refresh();
    assert!(!a.convert_refresh_metadata);
}

#[test]
fn the_tab_key_walks_through_the_main_screens() {
    let mut a = app();
    let mut seen = Vec::new();
    for _ in 0..5 {
        a.next_view();
        seen.push(a.view);
    }
    assert_eq!(seen, vec![Screen::Queue, Screen::Library, Screen::Logs, Screen::Main, Screen::Queue]);
    a.view = Screen::ErrorLog;
    a.next_view();
    assert_eq!(a.view, Screen::Main);
    a.quit();
    assert!(!a.running);
}

fn feed(a: &mut App, events: Vec<DownloadEvent>) {
    for e in events {
        a.process_event(e);
    }
}

#[test]
fn events_move_a_job_through_the_queue() {
    let mut a = app();
    queued(&mut a, "link", LinkType::Album);
    let effect = a.process_event(DownloadEvent::MetadataFetched { id: 1, name: "A - B".to_string() });
    assert!(!effect.reload);
    assert!(effect.settlement.is_none());
    assert_eq!(a.queue[0].name, "Fetching: A - B");
    assert_eq!(a.queue[0].status, JobStatus::Fetching);
    assert_eq!(a.status_message, "Added to queue (mp3, high)");
    a.process_event(DownloadEvent::Started { id: 1, name: "A - B".to_string(), total_tracks: 2 });
    assert_eq!(a.queue[0].name, "A - B");
    assert_eq!(a.queue[0].status, JobStatus::Downloading);
    assert_eq!(a.queue[0].progress, (0, 2));
    a.process_event(DownloadEvent::TrackStarted {
        id: 1,
        artist: "A".to_string(),
        title: "T1".to_string(),
        track_num: 1,
    });
    assert_eq!(a.queue[0].current_track.as_deref(), Some("A - T1"));
    assert_eq!(a.status_message, "Downloading: A - T1");
    a.process_event(DownloadEvent::TrackComplete {
        id: 1,
        artist: "A".to_string(),
        title: "T1".to_string(),
        path: "p1".to_string(),
    });
    assert_eq!(a.queue[0].progress, (1, 2));
    assert_eq!(a.queue[0].current_track, None);
    assert_eq!(a.library, vec![entry("A", "T1", "p1")]);
    assert_eq!(a.status_message, "Complete: A - T1");
    a.process_event(DownloadEvent::TrackFailed {
        id: 1,
        artist: "A".to_string(),
        title: "T2".to_string(),
        error: "boom".to_string(),
    });
    assert_eq!(a.queue[0].progress, (2, 2));
    assert_eq!(a.status_message, "Failed: A - T2 (boom)");
    a.process_event(DownloadEvent::Complete { id: 1, name: "A - B".to_string() });
    assert_eq!(a.queue[0].status, JobStatus::Complete);
    assert_eq!(a.status_message, "Finished: A - B");
    let logs: Vec<&str> = a.download_logs.iter().map(|s| s.as_str()).collect();
    assert_eq!(
        logs,
        vec![
            "[1] Started: A - B (2 tracks)",
            "[1] Downloading: A - T1",
            "[1] Complete: A - T1",
            "[1] FAILED: A - T2 - boom",
            "[1] Finished: A - B",
        ]
    );
    assert_eq!(a.log_scroll, 4);
}

#[test]
fn a_job_level_error_marks_the_job_as_failed() {
    let mut a = app();
    queued(&mut a, "link", LinkType::Album);
    a.process_event(DownloadEvent::Error { id: 1, error: "no such album".to_string() });
    assert_eq!(a.queue[0].status, JobStatus::Failed("no such album".to_string()));
    assert_eq!(a.status_message, "Error: no such album");
    assert_eq!(a.download_logs.back().unwrap(), "[1] ERROR: no such album");
    // An event of a job that is not in the queue changes no entry.
    a.process_event(DownloadEvent::Complete { id: 42, name: "x".to_string() });
    assert_eq!(a.queue.len(), 1);
    assert_eq!(a.queue[0].status, JobStatus::Failed("no such album".to_string()));
}

#[test]
fn skipped_and_repeated_tracks_are_listed_once() {
    let mut a = app_with(vec![entry("A", "T1", "old")], ErrorLogManager::new("e"));
    queued(&mut a, "link", LinkType::Album);
    feed(
        &mut a,
        vec![
            DownloadEvent::TrackSkipped { id: 1, artist: "A".to_string(), title: "T1".to_string() },
            DownloadEvent::TrackComplete {
                id: 1,
                artist: "A".to_string(),
                title: "T1".to_string(),
                path: "new".to_string(),
            },
        ],
    );
    assert_eq!(a.library, vec![entry("A", "T1", "old")]);
    assert_eq!(a.queue[0].progress, (2, 0));
    assert_eq!(a.download_logs[0], "[1] Skipped: A - T1");
}

#[test]
fn the_log_window_keeps_five_hundred_lines() {
    let mut a = app();
    for i in 0..503 {
        a.process_event(DownloadEvent::LogLine { id: 1, line: format!("line {}", i) });
    }
    assert_eq!(a.download_logs.len(), 500);
    assert_eq!(a.download_logs.front().unwrap(), "[1] line 3");
    assert_eq!(a.download_logs.back().unwrap(), "[1] line 502");
    assert_eq!(a.log_scroll, 499);
    a.logs_up();
    assert!(!a.log_auto_scroll);
    assert_eq!(a.log_scroll, 498);
    a.add_log("x".to_string());
    assert_eq!(a.log_scroll, 498, "a window that does not follow stays where it is");
    a.logs_down();
    assert_eq!(a.log_scroll, 499);
    assert!(a.log_auto_scroll);
    a.logs_top();
    assert_eq!(a.log_scroll, 0);
    a.logs_bottom();
    assert_eq!(a.log_scroll, 499);
    assert!(a.log_auto_scroll);
    a.show_logs();
    assert_eq!(a.view, Screen::Logs);
}

#[test]
fn questions_from_the_worker_change_the_screen() {
    let mut a = app();
    a.m3u_generating = true;
    a.process_event(DownloadEvent::M3UConfirm {
        name: "Mix".to_string(),
        found: 2,
        missing: 1,
        paths: vec!["a".to_string(), "b".to_string()],
    });
    assert!(!a.m3u_generating);
    assert_eq!(a.view, Screen::M3UConfirm);
    assert_eq!(a.status_message, "Some tracks are missing. Press Enter to generate anyway, Esc to cancel.");
    let pending = a.confirm_m3u().unwrap();
    assert_eq!(
        pending,
        M3UPending { name: "Mix".to_string(), found: 2, missing: 1, paths: vec!["a".to_string(), "b".to_string()] }
    );
    assert_eq!(a.view, Screen::Main);
    assert!(a.confirm_m3u().is_none());
    a.process_event(DownloadEvent::M3UGenerated { result: "Created: Mix.m3u (2 tracks)".to_string() });
    assert_eq!(a.status_message, "Created: Mix.m3u (2 tracks)");
    a.cancel_m3u();
    assert_eq!(a.status_message, "M3U generation cancelled");

    a.process_event(DownloadEvent::ConvertDeleteConfirm {
        id: 3,
        old_path: "a.mp3".to_string(),
        new_path: "a.flac".to_string(),
    });
    assert_eq!(a.view, Screen::ConvertConfirm);
    assert_eq!(
        a.convert_delete_pending,
        Some(ConvertDeletePending { old_path: "a.mp3".to_string(), new_path: "a.flac".to_string() })
    );
    assert_eq!(a.status_message, "Delete original file? Press 'y' to delete, 'n' to keep.");
    a.confirm_delete_original(Err("denied".to_string()));
    assert_eq!(a.status_message, "Failed to delete original: denied");
    assert_eq!(a.view, Screen::Library);
    assert_eq!(a.convert_delete_pending, None);
    a.confirm_delete_original(Ok(()));
    assert_eq!(a.status_message, "Failed to delete original: denied", "nothing was waiting");
    a.cancel_delete_original();
    assert_eq!(a.status_message, "Original file kept");

    a.process_event(DownloadEvent::ConvertBatchDeleteConfirm {
        converted_files: vec![("a".to_string(), "b".to_string()), ("c".to_string(), "d".to_string())],
    });
    assert_eq!(a.view, Screen::ConvertBatchConfirm);
    assert_eq!(a.status_message, "Delete 2 original file(s)? Press 'y' to delete all, 'n' to keep all.");
    a.confirm_batch_delete_originals(vec![entry("x", "y", "z")]);
    assert_eq!(a.convert_batch_delete_pending, None);
    assert_eq!(a.view, Screen::Library);
    assert_eq!(a.library, vec![entry("x", "y", "z")]);
    assert_eq!(a.status_message, "Library refreshed: 1 tracks");
    a.cancel_batch_delete_originals(vec![]);
    assert_eq!(a.status_message, "Library refreshed: 0 tracks");
}

#[test]
fn conversion_and_refresh_events_are_logged() {
    let mut a = app();
    a.process_event(DownloadEvent::ConvertStarted {
        id: 2,
        path: "a.mp3".to_string(),
        target_format: "flac".to_string(),
    });
    assert_eq!(a.status_message, "Converting to flac...");
    let effect = a.process_event(DownloadEvent::ConvertComplete {
        id: 2,
        old_path: "a.mp3".to_string(),
        new_path: "a.flac".to_string(),
    });
    assert!(effect.reload, "the library is read again after a conversion");
    assert_eq!(a.status_message, "Conversion complete: a.flac");
    a.process_event(DownloadEvent::ConvertFailed {
        id: 2,
        path: "b.mp3".to_string(),
        error: "bad".to_string(),
    });
    assert_eq!(a.status_message, "Conversion failed: bad");
    a.process_event(DownloadEvent::ConvertBatchComplete { id: 2, total: 3, successful: 2 });
    assert_eq!(a.status_message, "Batch conversion complete: 2/3 tracks converted");
    a.process_event(DownloadEvent::RefreshStarted { id: 4, artist: "A".to_string(), title: "T".to_string() });
    assert_eq!(a.status_message, "Refreshing metadata: A - T");
    a.process_event(DownloadEvent::RefreshComplete { id: 4, artist: "A".to_string(), title: "T".to_string() });
    assert_eq!(a.status_message, "Metadata refreshed: A - T");
    a.process_event(DownloadEvent::RefreshFailed {
        id: 4,
        artist: "A".to_string(),
        title: "T".to_string(),
        error: "gone".to_string(),
    });
    assert_eq!(a.status_message, "Refresh failed: A - T");
    a.process_event(DownloadEvent::RefreshBatchComplete { id: 4, total: 5, successful: 5 });
    assert_eq!(a.status_message, "Batch metadata refresh complete: 5/5 tracks refreshed");
    let logs: Vec<&str> = a.download_logs.iter().map(|s| s.as_str()).collect();
    assert_eq!(
        logs,
        vec![
            "[2] Converting: a.mp3 -> flac",
            "[2] Converted: a.mp3 -> a.flac",
            "[2] Conversion failed: b.mp3 - bad",
            "Batch conversion complete: 2/3 successful",
            "[4] Refreshing metadata: A - T",
            "[4] Metadata refreshed: A - T",
            "[4] Metadata refresh failed: A - T - gone",
            "Batch metadata refresh complete: 5/5 successful",
        ]
    );
}

#[test]
fn events_are_taken_in_order_and_the_library_is_read_again_where_asked() {
    let mut a = app();
    let stored = vec![entry("A", "T", "a.flac")];
    let settled = a.process_events(
        vec![
            DownloadEvent::LogLine { id: 1, line: "one".to_string() },
            DownloadEvent::ConvertComplete {
                id: 1,
                old_path: "a.mp3".to_string(),
                new_path: "a.flac".to_string(),
            },
            DownloadEvent::LogLine { id: 1, line: "two".to_string() },
        ],
        &stored,
    );
    assert!(settled.is_empty());
    assert_eq!(a.library, stored);
    assert_eq!(a.status_message, "Library refreshed: 1 tracks");
    assert_eq!(a.download_logs.len(), 3);
    assert_eq!(a.download_logs[2], "[1] two");
    // The copy of the catalog is the stored one now.
    assert_eq!(a.db.len(), 1);
    assert!(a.db.contains(&entry("A", "T", "a.flac")));
    assert!(!a.db.needs_save());
}

#[test]
fn events_change_nothing_but_what_they_tell_of() {
    let mut a = app_with(vec![entry("Old", "One", "old.mp3")], journal());
    a.start_add_album();
    a.type_char('x');
    a.toggle_portable();
    a.db.add(entry("New", "Two", "new.mp3"));
    let stored = vec![entry("A", "T", "a.flac")];
    let settled = a.process_events(
        vec![
            DownloadEvent::LogLine { id: 1, line: "one".to_string() },
            DownloadEvent::TrackFailed {
                id: 9,
                artist: "A".to_string(),
                title: "T".to_string(),
                error: "no".to_string(),
            },
            DownloadEvent::Error { id: 9, error: "gone".to_string() },
        ],
        &stored,
    );
    assert!(settled.is_empty());
    // No event asked for the library: the copy of the catalog is as it was.
    assert_eq!(a.db.len(), 2);
    assert!(a.db.contains(&entry("New", "Two", "new.mp3")));
    assert!(a.db.needs_save());
    assert_eq!(a.library, vec![entry("Old", "One", "old.mp3")]);
    // What events do not tell of stays.
    assert!(a.running);
    assert_eq!(a.input, "x");
    assert!(a.input_mode);
    assert!(a.portable_mode);
    assert_eq!(a.link_type, LinkType::Album);
    assert_eq!(a.next_id, 0);
    assert!(!a.paused);
    assert_eq!(a.selected_format, 0);
    assert_eq!(a.errors.error_log.get_total_error_counts(), (3, 1, 1));
    assert!(a.cleanup_preview.is_none());
    assert!(a.convert_pending.is_none());
}

#[test]
fn a_retry_asks_the_disk_about_the_input_of_the_selected_record() {
    let mut a = app_with(vec![], journal());
    a.show_error_log();
    assert_eq!(a.errors.source_file(), None);
    a.errors.error_tab_next();
    assert_eq!(a.errors.source_file().as_deref(), Some("/"));
    a.errors.error_selected = 1;
    assert_eq!(a.errors.source_file(), None);
    a.errors.error_selected = 0;
    a.errors.error_tab_next();
    assert_eq!(a.errors.source_file().as_deref(), Some("/surely/not/there.mp3"));
    a.errors.error_selected = 7;
    assert_eq!(a.errors.source_file(), None);
}

#[test]
fn the_selection_moves_within_the_lists() {
    let mut a = app_with(vec![entry("a", "1", "p1"), entry("b", "2", "p2")], ErrorLogManager::new("e"));
    a.library_down();
    a.library_down();
    assert_eq!(a.library_selected, 1);
    a.library_up();
    a.library_up();
    assert_eq!(a.library_selected, 0);
    a.queue_down();
    assert_eq!(a.queue_selected, 0);
    queued(&mut a, "l", LinkType::Album);
    queued(&mut a, "m", LinkType::Album);
    a.queue_down();
    a.queue_down();
    assert_eq!(a.queue_selected, 1);
    a.queue_up();
    assert_eq!(a.queue_selected, 0);
}

#[test]
fn pausing_tells_the_worker() {
    let mut a = app();
    assert!(a.toggle_pause());
    assert!(a.paused);
    assert_eq!(a.status_message, "PAUSED - press Space to resume");
    assert!(!a.toggle_pause());
    assert_eq!(a.status_message, "Resumed");
}

#[test]
fn a_playlist_file_is_asked_for_by_a_link() {
    let mut a = app();
    a.start_generate_m3u();
    assert_eq!(a.view, Screen::GenerateM3U);
    assert_eq!(a.status_message, "Enter Spotify album/playlist link to generate M3U:");
    assert_eq!(a.submit_m3u_input(), None);
    assert_eq!(a.status_message, "No link provided");
    a.start_generate_m3u();
    for c in "x/album/1".chars() {
        a.type_char(c);
    }
    assert_eq!(a.submit_m3u_input(), Some("x/album/1".to_string()));
    assert!(a.m3u_generating);
    assert_eq!(a.view, Screen::Main);
    assert_eq!(a.status_message, "Fetching track list from Spotify...");
}

#[test]
fn a_conversion_of_the_selected_track_or_of_all() {
    let mut a = app_with(vec![entry("a", "1", "p1.mp3"), entry("b", "2", "p2.mp3")], ErrorLogManager::new("e"));
    a.library_down();
    a.start_convert();
    assert_eq!(a.view, Screen::ConvertSettings);
    assert_eq!(
        a.convert_pending,
        Some(ConvertPending { track_path: "p2.mp3".to_string(), artist: "b".to_string(), title: "2".to_string() })
    );
    assert_eq!(a.status_message, "Convert: b - 2. Select format and press Enter.");
    a.convert_settings_right();
    let request = a.submit_convert().unwrap();
    assert_eq!(
        request,
        DownloadRequest::Convert {
            id: 1,
            input_path: "p2.mp3".to_string(),
            target_format: "flac".to_string(),
            quality: "high".to_string(),
            refresh_metadata: true,
            artist: "b".to_string(),
            title: "2".to_string(),
        }
    );
    assert_eq!(a.view, Screen::Logs);
    assert_eq!(a.status_message, "Converting to flac (quality: high)...");
    assert!(a.submit_convert().is_none());
    assert_eq!(a.status_message, "No conversion pending");

    a.start_convert_all();
    assert_eq!(a.status_message, "Convert ALL 2 tracks. Select format and press Enter.");
    match a.submit_convert().unwrap() {
        DownloadRequest::ConvertBatch { id, tracks, target_format, .. } => {
            assert_eq!(id, 2);
            assert_eq!(target_format, "flac");
            assert_eq!(
                tracks,
                vec![
                    ConvertTrackInfo { input_path: "p1.mp3".to_string(), artist: "a".to_string(), title: "1".to_string() },
                    ConvertTrackInfo { input_path: "p2.mp3".to_string(), artist: "b".to_string(), title: "2".to_string() },
                ]
            );
        }
        other => panic!("unexpected: {:?}", other),
    }
    assert_eq!(a.status_message, "Converting 2 tracks to flac (quality: high)...");
    assert!(!a.convert_all_mode);
    a.start_convert();
    a.cancel_convert();
    assert_eq!(a.view, Screen::Library);
    assert_eq!(a.status_message, "Conversion cancelled");
}

#[test]
fn nothing_is_converted_or_refreshed_from_an_empty_library() {
    let mut a = app();
    a.start_convert();
    assert_eq!(a.status_message, "Library is empty, nothing to convert");
    a.start_convert_all();
    assert_eq!(a.status_message, "Library is empty, nothing to convert");
    assert!(a.start_refresh_metadata().is_none());
    assert_eq!(a.status_message, "Library is empty, nothing to refresh");
    assert!(a.start_refresh_all_metadata().is_none());
    assert_eq!(a.view, Screen::Main);
    assert_eq!(a.next_id, 0);
}

#[test]
fn metadata_is_refreshed_for_the_selected_track_or_for_all() {
    let mut a = app_with(vec![entry("a", "1", "p1.mp3"), entry("b", "2", "p2.mp3")], ErrorLogManager::new("e"));
    assert_eq!(
        a.start_refresh_metadata(),
        Some(DownloadRequest::RefreshMetadata {
            id: 1,
            input_path: "p1.mp3".to_string(),
            artist: "a".to_string(),
            title: "1".to_string(),
        })
    );
    assert_eq!(a.status_message, "Refreshing metadata for: a - 1");
    assert_eq!(a.view, Screen::Logs);
    match a.start_refresh_all_metadata().unwrap() {
        DownloadRequest::RefreshMetadataBatch { id, tracks } => {
            assert_eq!(id, 2);
            assert_eq!(tracks.len(), 2);
        }
        other => panic!("unexpected: {:?}", other),
    }
    assert_eq!(a.status_message, "Refreshing metadata for 2 tracks...");
}

#[test]
fn a_clean_up_shows_what_it_would_remove_and_then_removes_it() {
    let mut a = app_with(
        vec![entry("a", "1", "p1"), entry("b", "2", "p2"), entry("c", "3", "p3")],
        ErrorLogManager::new("e"),
    );
    a.library_selected = 2;
    a.preview_cleanup(&vec![true, false, false]);
    assert_eq!(a.cleanup_preview, Some(CleanupPreview { missing_count: 2, total_count: 3 }));
    assert_eq!(a.view, Screen::CleanupConfirm);
    assert_eq!(a.status_message, "Found 2 entries with missing files. Press 'y' to clean up, 'n' to cancel.");
    a.confirm_cleanup_with(&vec![true, false, false]);
    assert_eq!(a.library, vec![entry("a", "1", "p1")]);
    assert_eq!(a.library_selected, 0);
    assert_eq!(a.cleanup_preview, None);
    assert_eq!(a.view, Screen::Library);
    assert_eq!(a.status_message, "Cleanup complete: removed 2 of 3 entries. 1 remaining.");
    assert_eq!(a.download_logs.back().unwrap(), "Database cleanup: removed 2 entries (1 remaining)");
    assert!(a.db.needs_save());
    a.preview_cleanup(&vec![true]);
    assert_eq!(a.status_message, "Database is clean! All entries point to existing files.");
    a.cancel_cleanup();
    assert_eq!(a.status_message, "Cleanup cancelled.");
}

#[test]
fn a_clean_up_asks_the_disk() {
    let mut a = app_with(
        vec![entry("a", "1", "/"), entry("b", "2", "/surely/not/there.mp3")],
        ErrorLogManager::new("e"),
    );
    a.start_cleanup_database();
    assert_eq!(a.cleanup_preview, Some(CleanupPreview { missing_count: 1, total_count: 2 }));
    a.confirm_cleanup();
    assert_eq!(a.library, vec![entry("a", "1", "/")]);
    assert_eq!(a.status_message, "Cleanup complete: removed 1 of 2 entries. 1 remaining.");
}

fn download_error(id: &str, secs: i64, link_type: &str, track: Option<(&str, &str)>) -> DownloadErrorEntry {
    DownloadErrorEntry {
        id: id.to_string(),
        timestamp: Timestamp { secs, nanos: 0 },
        link: "https://open.spotify.com/album/0123456789abcdefghijklmnopqrstuvwxyz".to_string(),
        link_type: link_type.to_string(),
        format: "flac".to_string(),
        quality: "low".to_string(),
        portable: true,
        artist: track.map(|t| t.0.to_string()),
        title: track.map(|t| t.1.to_string()),
        error: "boom".to_string(),
        retry_count: 0,
    }
}

fn convert_error(id: &str, path: &str) -> ConvertErrorEntry {
    ConvertErrorEntry {
        id: id.to_string(),
        timestamp: Timestamp { secs: 1, nanos: 0 },
        input_path: path.to_string(),
        target_format: "wav".to_string(),
        quality: "medium".to_string(),
        refresh_metadata: false,
        artist: "A".to_string(),
        title: "T".to_string(),
        error: "boom".to_string(),
        retry_count: 0,
    }
}

fn refresh_error(id: &str, path: &str) -> RefreshErrorEntry {
    RefreshErrorEntry {
        id: id.to_string(),
        timestamp: Timestamp { secs: 1, nanos: 0 },
        input_path: path.to_string(),
        artist: "A".to_string(),
        title: "T".to_string(),
        error: "boom".to_string(),
        retry_count: 0,
    }
}

fn journal() -> ErrorLogManager {
    let mut log = ErrorLogManager::new("data/errors");
    log.add_download_error_on("2025-01-01", download_error("d1", 1, "album", Some(("A", "T"))));
    log.add_download_error_on("2025-01-02", download_error("d2", 2, "playlist", None));
    log.add_download_error_on("2025-01-02", download_error("d3", 3, "podcast", None));
    log.add_convert_error_on("2025-01-02", convert_error("c1", "/"));
    log.add_refresh_error_on("2025-01-02", refresh_error("r1", "/surely/not/there.mp3"));
    let _ = log.take_pending();
    log
}

#[test]
fn the_journal_window_shows_the_latest_date_first() {
    let mut a = app_with(vec![], journal());
    a.show_error_log();
    assert_eq!(a.view, Screen::ErrorLog);
    assert_eq!(a.status_message, "Error Log: 3 download, 1 convert, 1 refresh errors");
    assert_eq!(a.errors.error_dates, vec!["2025-01-02", "2025-01-01"]);
    assert_eq!(a.errors.error_date_selected, 0);
    assert_eq!(a.errors.download_errors.len(), 2);
    assert_eq!(a.errors.current_error_count(), 2);
    a.errors.error_down();
    a.errors.error_down();
    assert_eq!(a.errors.error_selected, 1);
    a.errors.error_up();
    assert_eq!(a.errors.error_selected, 0);
    a.errors.error_tab_next();
    assert_eq!(a.errors.error_tab, ErrorTab::Convert);
    assert_eq!(a.errors.current_error_count(), 1);
    a.errors.error_tab_next();
    a.errors.error_tab_next();
    assert_eq!(a.errors.error_tab, ErrorTab::Download);
    a.errors.error_tab_prev();
    assert_eq!(a.errors.error_tab, ErrorTab::Refresh);
    a.errors.error_date_next();
    assert_eq!(a.errors.error_date_selected, 1);
    assert_eq!(a.errors.download_errors.len(), 1);
    assert_eq!(a.errors.refresh_errors.len(), 0);
    a.errors.error_date_next();
    assert_eq!(a.errors.error_date_selected, 0);
    a.errors.error_date_prev();
    assert_eq!(a.errors.error_date_selected, 1);
    assert_eq!(
        a.errors.get_selected_error_info(),
        None,
        "the list of refresh failures of that date is empty"
    );
    a.errors.error_tab_next();
    assert_eq!(
        a.errors.get_selected_error_info(),
        Some(("d1".to_string(), "2025-01-01".to_string(), ErrorTab::Download))
    );
    a.leave_error_log();
    assert_eq!(a.view, Screen::Main);
    assert_eq!(a.status_message, "Returned to main view");
}

#[test]
fn an_empty_journal_says_so() {
    let mut a = app();
    a.show_error_log();
    assert_eq!(a.status_message, "No errors logged.");
    assert!(a.errors.error_dates.is_empty());
    a.errors.error_date_next();
    a.errors.error_date_prev();
    a.delete_selected_error();
    a.clear_current_date_errors();
    assert_eq!(a.status_message, "No errors logged.");
    assert!(a.retry_selected_error().is_none());
    assert_eq!(a.status_message, "No errors to retry");
}

#[test]
fn deleting_and_clearing_in_the_journal_window() {
    let mut a = app_with(vec![], journal());
    a.show_error_log();
    a.errors.error_down();
    a.delete_selected_error();
    assert_eq!(a.status_message, "Error deleted.");
    assert_eq!(a.errors.download_errors.len(), 1);
    assert_eq!(a.errors.download_errors[0].id, "d2");
    assert_eq!(a.errors.error_log.get_error_counts("2025-01-02"), (1, 1, 1));
    assert!(a.errors.error_log.has_pending());
    a.clear_current_date_errors();
    assert_eq!(a.status_message, "Cleared all errors from 2025-01-02.");
    assert_eq!(a.errors.error_dates, vec!["2025-01-01"]);
    assert_eq!(a.errors.download_errors.len(), 1);
    assert_eq!(a.errors.download_errors[0].id, "d1");
    a.delete_selected_error();
    assert!(a.errors.error_dates.is_empty());
    assert!(a.errors.download_errors.is_empty());
}

#[test]
fn a_retry_of_a_download_makes_a_job_and_keeps_the_record_until_it_is_settled() {
    let mut a = app_with(vec![], journal());
    a.show_error_log();
    a.errors.error_date_next();
    let request = a.retry_selected_error().unwrap();
    assert_eq!(
        request,
        DownloadRequest::Album {
            id: 1,
            link: "https://open.spotify.com/album/0123456789abcdefghijklmnopqrstuvwxyz".to_string(),
            portable: true,
            format: "flac".to_string(),
            quality: "low".to_string(),
        }
    );
    assert_eq!(a.view, Screen::Queue);
    assert_eq!(a.status_message, "Retrying: A - T (retry)");
    assert_eq!(a.queue[0].name, "A - T (retry)");
    assert_eq!(a.queue[0].status, JobStatus::Fetching);
    assert_eq!(a.retries.len(), 1);
    assert_eq!(a.errors.error_log.get_error_counts("2025-01-01"), (1, 0, 0), "the record stays for now");

    // The track fails again, and the job ends: the retry has failed.
    a.process_event(DownloadEvent::TrackFailed {
        id: 1,
        artist: "A".to_string(),
        title: "T".to_string(),
        error: "again".to_string(),
    });
    assert!(a.retries[0].failed);
    let effect = a.process_event(DownloadEvent::Complete { id: 1, name: "x".to_string() });
    let (ticket, succeeded) = effect.settlement.unwrap();
    assert!(!succeeded);
    assert!(a.retries.is_empty());
    a.settle_at(&ticket, succeeded, Timestamp { secs: 500, nanos: 0 });
    let kept = a.errors.error_log.get_download_errors_for_date("2025-01-01");
    assert_eq!(kept.len(), 1);
    assert_eq!(kept[0].retry_count, 1);
    assert_eq!(kept[0].timestamp, Timestamp { secs: 500, nanos: 0 });
}

#[test]
fn a_retry_that_succeeds_takes_its_record_out_of_the_journal() {
    let mut a = app_with(vec![], journal());
    a.show_error_log();
    a.errors.error_date_next();
    a.retry_selected_error().unwrap();
    a.process_event(DownloadEvent::TrackFailed {
        id: 1,
        artist: "Someone".to_string(),
        title: "Else".to_string(),
        error: "x".to_string(),
    });
    let effect = a.process_event(DownloadEvent::Complete { id: 1, name: "x".to_string() });
    let (ticket, succeeded) = effect.settlement.unwrap();
    assert!(succeeded, "the failure of another track does not count");
    assert_eq!(
        ticket,
        RetryTicket {
            job_id: 1,
            tab: ErrorTab::Download,
            date: "2025-01-01".to_string(),
            entry_id: "d1".to_string(),
            artist: Some("A".to_string()),
            title: Some("T".to_string()),
            failed: false,
        }
    );
    a.settle(&ticket, succeeded);
    assert_eq!(a.errors.error_log.get_error_counts("2025-01-01"), (0, 0, 0));
    assert_eq!(a.errors.error_dates, vec!["2025-01-02"]);
}

#[test]
fn a_retry_names_a_job_without_a_track_after_the_head_of_its_link() {
    let mut a = app_with(vec![], journal());
    a.show_error_log();
    let request = a.retry_selected_error_with(true).unwrap();
    assert!(matches!(request, DownloadRequest::Playlist { id: 1, .. }));
    assert_eq!(a.queue[0].name, "Retry: https://open.spotify.com/album/012345678");
    let effect = a.process_event(DownloadEvent::Error { id: 1, error: "no".to_string() });
    assert_eq!(effect.settlement.unwrap().1, false);
    // A kind of link that is not known is refused.
    a.errors.error_down();
    assert!(a.retry_selected_error_with(true).is_none());
    assert_eq!(a.status_message, "Unknown link type: podcast");
    assert_eq!(a.next_id, 1);
    a.errors.error_down();
    a.errors.error_selected = 7;
    assert!(a.retry_selected_error_with(true).is_none());
    assert_eq!(a.status_message, "No download error selected");
}

#[test]
fn a_retry_of_a_conversion_or_refresh_needs_its_file() {
    let mut a = app_with(vec![], journal());
    a.show_error_log();
    a.errors.error_tab_next();
    let request = a.retry_selected_error().unwrap();
    assert_eq!(
        request,
        DownloadRequest::Convert {
            id: 1,
            input_path: "/".to_string(),
            target_format: "wav".to_string(),
            quality: "medium".to_string(),
            refresh_metadata: false,
            artist: "A".to_string(),
            title: "T".to_string(),
        }
    );
    assert_eq!(a.view, Screen::Logs);
    assert_eq!(a.status_message, "Retrying conversion: A - T");
    assert!(a.queue.is_empty());
    let effect = a.process_event(DownloadEvent::ConvertFailed {
        id: 1,
        path: "/".to_string(),
        error: "bad".to_string(),
    });
    assert_eq!(effect.settlement.map(|s| s.1), Some(false));

    a.errors.error_tab_next();
    assert!(a.retry_selected_error().is_none(), "the file of the refresh is gone");
    assert_eq!(a.status_message, "Source file no longer exists: /surely/not/there.mp3");
    let request = a.retry_selected_error_with(true).unwrap();
    assert!(matches!(request, DownloadRequest::RefreshMetadata { id: 2, .. }));
    assert_eq!(a.status_message, "Retrying metadata refresh: A - T");
    let effect = a.process_event(DownloadEvent::RefreshComplete {
        id: 2,
        artist: "A".to_string(),
        title: "T".to_string(),
    });
    let (ticket, ok) = effect.settlement.unwrap();
    assert!(ok);
    a.settle(&ticket, ok);
    assert_eq!(a.errors.error_log.get_error_counts("2025-01-02"), (2, 1, 0));
    a.errors.error_selected = 3;
    assert!(a.retry_selected_error_with(true).is_none());
    assert_eq!(a.status_message, "No refresh error selected");
    a.errors.error_tab_prev();
    a.errors.error_selected = 3;
    assert!(a.retry_selected_error_with(true).is_none());
    assert_eq!(a.status_message, "No convert error selected");
}

#[test]
fn the_journal_window_is_read_again_on_request() {
    let mut a = app_with(vec![], journal());
    a.show_error_log();
    a.errors.error_date_selected = 5;
    a.errors.error_log.add_download_error_on("2025-06-01", download_error("d9", 9, "album", None));
    a.errors.refresh_error_logs();
    assert_eq!(a.errors.error_dates, vec!["2025-06-01", "2025-01-02", "2025-01-01"]);
    assert_eq!(a.errors.error_date_selected, 0);
    assert_eq!(a.errors.download_errors[0].id, "d9");
}

#[test]
fn keys_mean_what_the_screen_says() {
    let mut a = app();
    let key = |a: &App, k: Key| handle_events(a, k, false);
    assert_eq!(key(&a, Key::Char('a')), Intent::StartAddAlbum);
    assert_eq!(key(&a, Key::Char('p')), Intent::StartAddPlaylist);
    assert_eq!(key(&a, Key::Char('y')), Intent::StartAddYoutubePlaylist);
    assert_eq!(key(&a, Key::Char('P')), Intent::TogglePortable);
    assert_eq!(key(&a, Key::Char(' ')), Intent::TogglePause);
    assert_eq!(key(&a, Key::Char('q')), Intent::Quit);
    assert_eq!(key(&a, Key::Char('c')), Intent::Nothing);
    assert_eq!(handle_events(&a, Key::Char('c'), true), Intent::Quit);
    assert_eq!(key(&a, Key::Char('e')), Intent::ShowErrorLog);
    assert_eq!(key(&a, Key::Char('l')), Intent::ShowLogs);
    assert_eq!(key(&a, Key::Char('m')), Intent::StartGenerateM3u);
    assert_eq!(key(&a, Key::Char('r')), Intent::RefreshLibrary);
    assert_eq!(key(&a, Key::Tab), Intent::NextView);
    assert_eq!(key(&a, Key::Up), Intent::Nothing);
    a.view = Screen::Queue;
    assert_eq!(key(&a, Key::Up), Intent::QueueUp);
    assert_eq!(key(&a, Key::Char('j')), Intent::QueueDown);
    a.view = Screen::Library;
    assert_eq!(key(&a, Key::Char('k')), Intent::LibraryUp);
    assert_eq!(key(&a, Key::Down), Intent::LibraryDown);
    assert_eq!(key(&a, Key::Char('c')), Intent::StartConvert);
    assert_eq!(key(&a, Key::Char('C')), Intent::StartConvertAll);
    assert_eq!(key(&a, Key::Char('x')), Intent::StartRefreshMetadata);
    assert_eq!(key(&a, Key::Char('X')), Intent::StartRefreshAllMetadata);
    assert_eq!(key(&a, Key::Char('z')), Intent::StartCleanup);
    a.view = Screen::Logs;
    assert_eq!(key(&a, Key::Char('g')), Intent::LogsTop);
    assert_eq!(key(&a, Key::Char('G')), Intent::LogsBottom);
    assert_eq!(key(&a, Key::Home), Intent::LogsTop);
    assert_eq!(key(&a, Key::End), Intent::LogsBottom);
    assert_eq!(key(&a, Key::Char('e')), Intent::Nothing);
    a.view = Screen::LinkSettings;
    assert_eq!(key(&a, Key::Enter), Intent::SubmitSettings);
    assert_eq!(key(&a, Key::Char('h')), Intent::SettingsLeft);
    assert_eq!(key(&a, Key::Esc), Intent::CancelSettings);
    assert_eq!(key(&a, Key::Char('q')), Intent::Nothing);
    a.view = Screen::M3UConfirm;
    assert_eq!(key(&a, Key::Char('y')), Intent::ConfirmM3u);
    assert_eq!(key(&a, Key::Enter), Intent::ConfirmM3u);
    assert_eq!(key(&a, Key::Char('n')), Intent::CancelM3u);
    a.view = Screen::ConvertSettings;
    assert_eq!(key(&a, Key::Left), Intent::ConvertSettingsLeft);
    assert_eq!(key(&a, Key::Char('l')), Intent::ConvertQualityRight);
    assert_eq!(key(&a, Key::Char(' ')), Intent::ConvertToggleRefresh);
    assert_eq!(key(&a, Key::Enter), Intent::SubmitConvert);
    a.view = Screen::ConvertConfirm;
    assert_eq!(key(&a, Key::Char('y')), Intent::ConfirmDeleteOriginal);
    assert_eq!(key(&a, Key::Esc), Intent::CancelDeleteOriginal);
    assert_eq!(key(&a, Key::Enter), Intent::Nothing);
    a.view = Screen::ConvertBatchConfirm;
    assert_eq!(key(&a, Key::Char('y')), Intent::ConfirmBatchDelete);
    assert_eq!(key(&a, Key::Char('n')), Intent::CancelBatchDelete);
    a.view = Screen::CleanupConfirm;
    assert_eq!(key(&a, Key::Char('y')), Intent::ConfirmCleanup);
    assert_eq!(key(&a, Key::Char('n')), Intent::CancelCleanup);
    a.view = Screen::ErrorLog;
    assert_eq!(key(&a, Key::Char('d')), Intent::DeleteSelectedError);
    assert_eq!(key(&a, Key::Char('D')), Intent::ClearDateErrors);
    assert_eq!(key(&a, Key::Tab), Intent::ErrorTabNext);
    assert_eq!(key(&a, Key::BackTab), Intent::ErrorTabPrev);
    assert_eq!(key(&a, Key::Left), Intent::ErrorDatePrev);
    assert_eq!(key(&a, Key::Char('l')), Intent::ErrorDateNext);
    assert_eq!(key(&a, Key::Esc), Intent::LeaveErrorLog);
    assert_eq!(key(&a, Key::Char('r')), Intent::RefreshErrorLogs);
    // While text is entered every character is text.
    a.view = Screen::AddLink;
    a.input_mode = true;
    assert_eq!(key(&a, Key::Char('q')), Intent::Type('q'));
    assert_eq!(key(&a, Key::Backspace), Intent::Erase);
    assert_eq!(key(&a, Key::Enter), Intent::SubmitInput);
    assert_eq!(key(&a, Key::Esc), Intent::CancelInput);
    assert_eq!(key(&a, Key::Tab), Intent::Nothing);
    a.view = Screen::GenerateM3U;
    assert_eq!(key(&a, Key::Enter), Intent::SubmitM3uInput);
}

#[test]
fn tracks_are_matched_with_the_library_whatever_the_case() {
    let library = vec![
        entry("Daft Punk", "One More Time", "m/one.mp3"),
        entry("daft punk", "ONE MORE TIME", "m/dup.mp3"),
        entry("Air", "La Femme d'Argent", "m/air.mp3"),
    ];
    let wanted = |pairs: &[(&str, &str)]| -> Vec<(String, String)> {
        pairs.iter().map(|(a, t)| (a.to_string(), t.to_string())).collect()
    };
    assert_eq!(
        match_tracks(
            &wanted(&[("DAFT PUNK", "one more time"), ("air", "la femme d'argent")]),
            &library,
            "Mix".to_string()
        ),
        M3UCheckResult::AllFound {
            name: "Mix".to_string(),
            paths: vec!["m/one.mp3".to_string(), "m/air.mp3".to_string()],
        }
    );
    assert_eq!(
        match_tracks(&wanted(&[("Air", "Sexy Boy"), ("Air", "La Femme d'Argent")]), &library, "Mix".to_string()),
        M3UCheckResult::SomeMissing {
            name: "Mix".to_string(),
            found: 1,
            missing: 1,
            paths: vec!["m/air.mp3".to_string()],
        }
    );
    assert_eq!(
        match_tracks(&wanted(&[("Air", "Sexy Boy"), ("x", "y")]), &library, "Mix".to_string()),
        M3UCheckResult::NoneFound { total: 2 }
    );
    assert_eq!(match_tracks(&wanted(&[]), &library, "Mix".to_string()), M3UCheckResult::NoneFound { total: 0 });
}

#[test]
fn playlist_files_are_made_for_albums_and_playlists_only() {
    assert_eq!(m3u_link_kind("https://open.spotify.com/album/abc"), Some(LinkType::Album));
    assert_eq!(m3u_link_kind("https://open.spotify.com/playlist/abc"), Some(LinkType::Playlist));
    assert_eq!(m3u_link_kind("https://open.spotify.com/track/abc"), None);
    let (pairs, name) = album_pairs(&Album {
        name: "Moon Safari".to_string(),
        artists: vec![],
        tracks: vec![
            AlbumTrack { name: "Sexy Boy".to_string(), artists: vec!["Air".to_string()] },
            AlbumTrack { name: "Remember".to_string(), artists: vec![] },
        ],
        cover_url: None,
        genre: None,
    });
    assert_eq!(name, "Unknown - Moon Safari");
    assert_eq!(
        pairs,
        vec![("Air".to_string(), "Sexy Boy".to_string()), ("Unknown".to_string(), "Remember".to_string())]
    );
    let pairs = playlist_pairs(&vec![
        PlaylistItem { track: None },
        PlaylistItem {
            track: Some(PlaylistTrack {
                name: "T".to_string(),
                artists: vec![],
                album: "X".to_string(),
                track_number: 1,
            }),
        },
    ]);
    assert_eq!(pairs, vec![("Unknown".to_string(), "T".to_string())]);
    assert_eq!(do_generate_m3u("Road: Trip", 12, Ok(())), "Created: Road_ Trip.m3u (12 tracks)");
    assert_eq!(do_generate_m3u("x", 1, Err("disk full".to_string())), "Failed: disk full");
}

#[test]
fn the_disk_is_asked_only_where_a_retry_needs_a_file() {
    let mut a = app_with(vec![], journal());
    a.show_error_log();
    assert_eq!(a.errors.error_tab, ErrorTab::Download);
    assert!(a.errors.probe_source());
    a.errors.error_tab_next();
    assert!(a.errors.probe_source(), "the input of the conversion is there");
    a.errors.error_selected = 99;
    assert!(a.errors.probe_source());
    a.errors.error_selected = 0;
    a.errors.error_tab_next();
    assert!(!a.errors.probe_source(), "the input of the refresh is gone");
    a.errors.error_selected = 99;
    assert!(a.errors.probe_source());
}
