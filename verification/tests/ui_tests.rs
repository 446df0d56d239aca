use rustwav::db::DownloadDB;
use rustwav::error_log::ErrorLogManager;
use rustwav::tui::app::{App, JobStatus, QueueItem, Screen};
use rustwav::tui::m3u::{invalid_link, lookup_error, none_found_report, M3UCheckResult};
use rustwav::tui::ui::{
    header_tab, log_tone, log_window_start, progress_text, queue_count, scroll_info, Tone,
};

fn item(id: usize, status: JobStatus) -> QueueItem {
    QueueItem { id, name: format!("job {}", id), status, current_track: None, progress: (0, 0) }
}

#[test]
fn each_screen_lights_the_tab_it_belongs_to() {
    assert_eq!(header_tab(Screen::Main), 0);
    assert_eq!(header_tab(Screen::AddLink), 0);
    assert_eq!(header_tab(Screen::LinkSettings), 0);
    assert_eq!(header_tab(Screen::GenerateM3U), 0);
    assert_eq!(header_tab(Screen::M3UConfirm), 0);
    assert_eq!(header_tab(Screen::ErrorLog), 0);
    assert_eq!(header_tab(Screen::Queue), 1);
    assert_eq!(header_tab(Screen::Library), 2);
    assert_eq!(header_tab(Screen::ConvertSettings), 2);
    assert_eq!(header_tab(Screen::ConvertConfirm), 2);
    assert_eq!(header_tab(Screen::ConvertBatchConfirm), 2);
    assert_eq!(header_tab(Screen::CleanupConfirm), 2);
    assert_eq!(header_tab(Screen::Logs), 3);
}

#[test]
fn the_heading_counts_the_jobs_that_are_not_complete() {
    assert_eq!(queue_count(&vec![]), 0);
    let queue = vec![
        item(1, JobStatus::Pending),
        item(2, JobStatus::Complete),
        item(3, JobStatus::Failed("no".to_string())),
        item(4, JobStatus::Downloading),
        item(5, JobStatus::Complete),
        item(6, JobStatus::Fetching),
    ];
    assert_eq!(queue_count(&queue), 4);
}

#[test]
fn the_log_window_never_runs_past_the_last_line() {
    assert_eq!(log_window_start(5, 10, 3), 0);
    assert_eq!(log_window_start(10, 10, 3), 0);
    assert_eq!(log_window_start(30, 10, 3), 3);
    assert_eq!(log_window_start(30, 10, 19), 19);
    assert_eq!(log_window_start(30, 10, 20), 20);
    assert_eq!(log_window_start(30, 10, 25), 20);
    assert_eq!(log_window_start(30, 10, usize::MAX), 20);
    assert_eq!(log_window_start(0, 0, 0), 0);
}

#[test]
fn a_line_of_the_log_is_toned_by_its_first_mark() {
    assert_eq!(log_tone("[1] ERROR: no such video"), Tone::Failure);
    assert_eq!(log_tone("[1] FAILED: a - b"), Tone::Failure);
    assert_eq!(log_tone("Complete, but with an ERROR"), Tone::Failure);
    assert_eq!(log_tone("[1] Complete: a - b"), Tone::Success);
    assert_eq!(log_tone("Finished Skipped"), Tone::Success);
    assert_eq!(log_tone("[1] Skipped: a - b"), Tone::Skipped);
    assert_eq!(log_tone("[1] Downloading: a - b"), Tone::Progress);
    assert_eq!(log_tone("[download] 12.5% of 3.40MiB"), Tone::Progress);
    assert_eq!(log_tone("error, complete, skipped"), Tone::Plain);
    assert_eq!(log_tone(""), Tone::Plain);
}

#[test]
fn the_scroll_note_names_the_lines_that_are_shown() {
    assert_eq!(scroll_info(0, 10, 30, true), " [1-10/30] [auto-scroll]");
    assert_eq!(scroll_info(20, 10, 30, false), " [21-30/30] [manual]");
    assert_eq!(scroll_info(25, 10, 30, false), " [26-30/30] [manual]");
    assert_eq!(scroll_info(0, usize::MAX, 1, true), " [1-1/1] [auto-scroll]");
}

#[test]
fn progress_is_shown_once_the_number_of_tracks_is_known() {
    assert_eq!(progress_text((0, 0)), "");
    assert_eq!(progress_text((3, 0)), "");
    assert_eq!(progress_text((0, 12)), " [0/12]");
    assert_eq!(progress_text((7, 12)), " [7/12]");
}

#[test]
fn a_playlist_file_that_cannot_be_made_says_why() {
    assert_eq!(
        invalid_link(),
        M3UCheckResult::Error("Error: Invalid Spotify link (must be album or playlist)".to_string())
    );
    assert_eq!(
        lookup_error("401 Unauthorized"),
        M3UCheckResult::Error("Spotify error: 401 Unauthorized".to_string())
    );
    assert_eq!(none_found_report(12), "No tracks found in library (0/12 total)");
}

#[test]
fn leaving_the_settings_forgets_the_link() {
    let mut a = App::new(
        "data/music",
        "data/playlists",
        DownloadDB::new("db.json"),
        ErrorLogManager::new("data/errors"),
    );
    a.start_add_album();
    for c in "https://open.spotify.com/album/abc".chars() {
        a.type_char(c);
    }
    a.submit_input();
    assert_eq!(a.view, Screen::LinkSettings);
    assert!(a.pending_link.is_some());
    a.cancel_settings();
    assert_eq!(a.view, Screen::Main);
    assert_eq!(a.pending_link, None);
    assert_eq!(a.status_message, "Cancelled");
    assert_eq!(a.next_id, 0);
    assert!(a.queue.is_empty());
}

#[test]
fn the_settings_of_a_conversion_have_one_row() {
    let mut a = App::new(
        "data/music",
        "data/playlists",
        DownloadDB::new("db.json"),
        ErrorLogManager::new("data/errors"),
    );
    a.convert_target_format = 2;
    a.convert_quality = 1;
    a.convert_settings_up();
    a.convert_settings_down();
    assert_eq!(a.convert_target_format, 2);
    assert_eq!(a.convert_quality, 1);
    assert_eq!(a.view, Screen::Main);
}

#[test]
fn reading_the_journal_window_again_says_so() {
    let mut a = App::new(
        "data/music",
        "data/playlists",
        DownloadDB::new("db.json"),
        ErrorLogManager::new("data/errors"),
    );
    a.show_error_log();
    a.refresh_error_logs();
    assert_eq!(a.status_message, "Error logs refreshed");
    assert_eq!(a.view, Screen::ErrorLog);
    assert!(a.errors.error_dates.is_empty());
}
