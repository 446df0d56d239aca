//! The state of the interactive interface.
//!
//! The interface owns a queue of jobs, a copy of the catalog of fetched
//! tracks, a window onto the journal, and what the user is in the middle
//! of. Events from the worker change it through `process_event`; what the
//! user does changes it through the other methods, which hand back the
//! requests that are to be sent to the worker.

use crate::db::{DownloadDB, TrackEntry, TrackView};
use crate::tui::error_view::ErrorWindow;
use std::collections::VecDeque;
use vstd::prelude::*;

verus! {

/// The formats that a user can choose from, in the order shown.
pub open spec fn format_options() -> Seq<Seq<char>> {
    seq!["mp3"@, "flac"@, "wav"@, "aac"@]
}

/// The qualities that a user can choose from, in the order shown.
pub open spec fn quality_options() -> Seq<Seq<char>> {
    seq!["high"@, "medium"@, "low"@]
}

/// How many formats there are to choose from.
pub const FORMAT_COUNT: usize = 4;

/// How many qualities there are to choose from.
pub const QUALITY_COUNT: usize = 3;

/// The format at `index` of the choice; the last one for an index beyond.
pub fn format_option(index: usize) -> (name: &'static str)
    ensures
        index < FORMAT_COUNT ==> name@ == format_options()[index as int],
        index >= FORMAT_COUNT ==> name@ == "aac"@,
{
    if index == 0 {
        "mp3"
    } else if index == 1 {
        "flac"
    } else if index == 2 {
        "wav"
    } else {
        "aac"
    }
}

/// The quality at `index` of the choice; the last one for an index beyond.
pub fn quality_option(index: usize) -> (name: &'static str)
    ensures
        index < QUALITY_COUNT ==> name@ == quality_options()[index as int],
        index >= QUALITY_COUNT ==> name@ == "low"@,
{
    if index == 0 {
        "high"
    } else if index == 1 {
        "medium"
    } else {
        "low"
    }
}

/// What the interface shows.
#[derive(Clone, Copy, Debug, PartialEq, Eq, Structural)]
pub enum Screen {
    Main,
    AddLink,
    LinkSettings,
    Queue,
    Library,
    Logs,
    GenerateM3U,
    M3UConfirm,
    ConvertSettings,
    ConvertConfirm,
    ConvertBatchConfirm,
    CleanupConfirm,
    ErrorLog,
}

/// The kind of failures that the journal view lists.
#[derive(Clone, Copy, Debug, PartialEq, Eq, Structural)]
pub enum ErrorTab {
    Download,
    Convert,
    Refresh,
}

/// What kind of link a download job follows.
#[derive(Clone, Copy, Debug, PartialEq, Eq, Structural)]
pub enum LinkType {
    Album,
    Playlist,
    YouTubePlaylist,
}

impl LinkType {
    /// The name under which the journal keeps this kind.
    pub open spec fn name(self) -> Seq<char> {
        match self {
            LinkType::Album => "album"@,
            LinkType::Playlist => "playlist"@,
            LinkType::YouTubePlaylist => "youtube_playlist"@,
        }
    }

    pub fn as_str(&self) -> (name: &'static str)
        ensures
            name@ == self.name(),
    {
        match self {
            LinkType::Album => "album",
            LinkType::Playlist => "playlist",
            LinkType::YouTubePlaylist => "youtube_playlist",
        }
    }
}

/// Which of the settings of a link the keys change.
#[derive(Clone, Copy, Debug, PartialEq, Eq, Structural)]
pub enum SettingsField {
    Format,
    Quality,
}

/// How far a job has come.
#[derive(Debug, PartialEq)]
pub enum JobStatus {
    Pending,
    Fetching,
    Downloading,
    Complete,
    Failed(String),
}

/// What a `JobStatus` holds.
pub enum JobStatusView {
    Pending,
    Fetching,
    Downloading,
    Complete,
    Failed(Seq<char>),
}

impl View for JobStatus {
    type V = JobStatusView;

    open spec fn view(&self) -> JobStatusView {
        match self {
            JobStatus::Pending => JobStatusView::Pending,
            JobStatus::Fetching => JobStatusView::Fetching,
            JobStatus::Downloading => JobStatusView::Downloading,
            JobStatus::Complete => JobStatusView::Complete,
            JobStatus::Failed(reason) => JobStatusView::Failed(reason@),
        }
    }
}

impl DeepView for JobStatus {
    type V = JobStatusView;

    open spec fn deep_view(&self) -> JobStatusView {
        self@
    }
}

/// A job as the queue shows it.
#[derive(Debug)]
pub struct QueueItem {
    pub id: usize,
    pub name: String,
    pub status: JobStatus,
    pub current_track: Option<String>,
    /// How many tracks are dealt with, and how many there are.
    pub progress: (usize, usize),
}

/// What a `QueueItem` holds.
pub struct QueueItemView {
    pub id: usize,
    pub name: Seq<char>,
    pub status: JobStatusView,
    pub current_track: Option<Seq<char>>,
    pub progress: (usize, usize),
}

impl View for QueueItem {
    type V = QueueItemView;

    open spec fn view(&self) -> QueueItemView {
        QueueItemView {
            id: self.id,
            name: self.name@,
            status: self.status.deep_view(),
            current_track: self.current_track.deep_view(),
            progress: self.progress,
        }
    }
}

impl DeepView for QueueItem {
    type V = QueueItemView;

    open spec fn deep_view(&self) -> QueueItemView {
        self@
    }
}

/// What a clean-up of the catalog would remove.
#[derive(Clone, Copy, Debug, PartialEq, Eq, Structural)]
pub struct CleanupPreview {
    pub missing_count: usize,
    pub total_count: usize,
}

/// A playlist file that waits for the user to confirm it.
#[derive(Debug, PartialEq)]
pub struct M3UPending {
    pub name: String,
    pub found: usize,
    pub missing: usize,
    pub paths: Vec<String>,
}

/// What a `M3UPending` holds.
pub struct M3UPendingView {
    pub name: Seq<char>,
    pub found: usize,
    pub missing: usize,
    pub paths: Seq<Seq<char>>,
}

impl View for M3UPending {
    type V = M3UPendingView;

    open spec fn view(&self) -> M3UPendingView {
        M3UPendingView {
            name: self.name@,
            found: self.found,
            missing: self.missing,
            paths: self.paths.deep_view(),
        }
    }
}

impl DeepView for M3UPending {
    type V = M3UPendingView;

    open spec fn deep_view(&self) -> M3UPendingView {
        self@
    }
}

/// A conversion whose settings the user is choosing.
#[derive(Debug, PartialEq)]
pub struct ConvertPending {
    pub track_path: String,
    pub artist: String,
    pub title: String,
}

/// What a `ConvertPending` holds.
pub struct ConvertPendingView {
    pub track_path: Seq<char>,
    pub artist: Seq<char>,
    pub title: Seq<char>,
}

impl View for ConvertPending {
    type V = ConvertPendingView;

    open spec fn view(&self) -> ConvertPendingView {
        ConvertPendingView {
            track_path: self.track_path@,
            artist: self.artist@,
            title: self.title@,
        }
    }
}

impl DeepView for ConvertPending {
    type V = ConvertPendingView;

    open spec fn deep_view(&self) -> ConvertPendingView {
        self@
    }
}

/// A converted file whose original waits for the user to decide.
#[derive(Debug, PartialEq)]
pub struct ConvertDeletePending {
    pub old_path: String,
    pub new_path: String,
}

/// What a `ConvertDeletePending` holds.
pub struct ConvertDeletePendingView {
    pub old_path: Seq<char>,
    pub new_path: Seq<char>,
}

impl View for ConvertDeletePending {
    type V = ConvertDeletePendingView;

    open spec fn view(&self) -> ConvertDeletePendingView {
        ConvertDeletePendingView {
            old_path: self.old_path@,
            new_path: self.new_path@,
        }
    }
}

impl DeepView for ConvertDeletePending {
    type V = ConvertDeletePendingView;

    open spec fn deep_view(&self) -> ConvertDeletePendingView {
        self@
    }
}

/// A failure from the journal that is being tried again: the job that tries it, and where the record stands.
#[derive(Debug, PartialEq)]
pub struct RetryTicket {
    pub job_id: usize,
    pub tab: ErrorTab,
    pub date: String,
    pub entry_id: String,
    /// The track, where the record names one.
    pub artist: Option<String>,
    pub title: Option<String>,
    /// Whether the track was seen to fail again.
    pub failed: bool,
}

/// What a `RetryTicket` holds.
pub struct RetryTicketView {
    pub job_id: usize,
    pub tab: ErrorTab,
    pub date: Seq<char>,
    pub entry_id: Seq<char>,
    pub artist: Option<Seq<char>>,
    pub title: Option<Seq<char>>,
    pub failed: bool,
}

impl View for RetryTicket {
    type V = RetryTicketView;

    open spec fn view(&self) -> RetryTicketView {
        RetryTicketView {
            job_id: self.job_id,
            tab: self.tab,
            date: self.date@,
            entry_id: self.entry_id@,
            artist: self.artist.deep_view(),
            title: self.title.deep_view(),
            failed: self.failed,
        }
    }
}

impl DeepView for RetryTicket {
    type V = RetryTicketView;

    open spec fn deep_view(&self) -> RetryTicketView {
        self@
    }
}

/// The state of the interface.
pub struct App {
    pub running: bool,
    pub view: Screen,
    pub input: String,
    pub input_mode: bool,
    pub link_type: LinkType,
    pub portable_mode: bool,
    pub queue: Vec<QueueItem>,
    pub queue_selected: usize,
    pub library: Vec<TrackEntry>,
    pub library_selected: usize,
    pub status_message: String,
    /// The interface's own copy of the catalog of fetched tracks.
    pub db: DownloadDB,
    pub music_path: String,
    pub playlist_path: String,
    /// The identifier that the last job got.
    pub next_id: usize,
    // The link whose settings are being chosen.
    pub pending_link: Option<String>,
    pub selected_format: usize,
    pub selected_quality: usize,
    pub settings_field: SettingsField,
    // The log window.
    pub download_logs: VecDeque<String>,
    pub log_scroll: usize,
    pub log_auto_scroll: bool,
    pub paused: bool,
    // Playlist files.
    pub m3u_generating: bool,
    pub m3u_pending: Option<M3UPending>,
    // Conversions.
    pub convert_pending: Option<ConvertPending>,
    pub convert_target_format: usize,
    pub convert_quality: usize,
    pub convert_refresh_metadata: bool,
    pub convert_delete_pending: Option<ConvertDeletePending>,
    pub convert_all_mode: bool,
    pub convert_batch_delete_pending: Option<Vec<(String, String)>>,
    pub cleanup_preview: Option<CleanupPreview>,
    /// The journal and the window onto it.
    pub errors: ErrorWindow,
    /// The failures that are being tried again.
    pub retries: Vec<RetryTicket>,
}

/// How many lines the log window keeps.
pub const LOG_LIMIT: usize = 500;

/// The texts of a list of strings.
pub open spec fn lines_of(logs: Seq<String>) -> Seq<Seq<char>> {
    Seq::new(logs.len(), |i: int| logs[i]@)
}

/// The part of the state that events change.
pub struct Board {
    pub queue: Seq<QueueItemView>,
    pub library: Seq<TrackView>,
    pub logs: Seq<Seq<char>>,
    pub log_scroll: usize,
    pub log_auto_scroll: bool,
    pub status: Seq<char>,
    pub screen: Screen,
    pub m3u_generating: bool,
    pub m3u_pending: Option<M3UPendingView>,
    pub delete_pending: Option<ConvertDeletePendingView>,
    pub batch_delete_pending: Option<Seq<(Seq<char>, Seq<char>)>>,
    pub retries: Seq<RetryTicketView>,
}

impl App {
    pub open spec fn board(&self) -> Board {
        Board {
            queue: self.queue.deep_view(),
            library: self.library.deep_view(),
            logs: lines_of(self.download_logs@),
            log_scroll: self.log_scroll,
            log_auto_scroll: self.log_auto_scroll,
            status: self.status_message@,
            screen: self.view,
            m3u_generating: self.m3u_generating,
            m3u_pending: self.m3u_pending.deep_view(),
            delete_pending: self.convert_delete_pending.deep_view(),
            batch_delete_pending: self.convert_batch_delete_pending.deep_view(),
            retries: self.retries.deep_view(),
        }
    }

    /// Whether `other` differs from this state in nothing but what events
    /// change.
    pub open spec fn same_but_board(&self, other: &App) -> bool {
        *other == (App {
            queue: other.queue,
            library: other.library,
            download_logs: other.download_logs,
            log_scroll: other.log_scroll,
            log_auto_scroll: other.log_auto_scroll,
            status_message: other.status_message,
            view: other.view,
            m3u_generating: other.m3u_generating,
            m3u_pending: other.m3u_pending,
            convert_delete_pending: other.convert_delete_pending,
            convert_batch_delete_pending: other.convert_batch_delete_pending,
            retries: other.retries,
            ..*self
        })
    }

    /// Whether `other` differs from this state in nothing but what events
    /// change and the copy of the catalog, which is taken again where an
    /// event asks for it.
    pub open spec fn same_but_board_and_catalog(&self, other: &App) -> bool {
        *other == (App {
            queue: other.queue,
            library: other.library,
            download_logs: other.download_logs,
            log_scroll: other.log_scroll,
            log_auto_scroll: other.log_auto_scroll,
            status_message: other.status_message,
            view: other.view,
            m3u_generating: other.m3u_generating,
            m3u_pending: other.m3u_pending,
            convert_delete_pending: other.convert_delete_pending,
            convert_batch_delete_pending: other.convert_batch_delete_pending,
            retries: other.retries,
            db: other.db,
            ..*self
        })
    }
}

} // verus!
