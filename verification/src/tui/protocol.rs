//! The steps of a job: what the worker asks to be done outside, and what
//! comes back.

use crate::sources::spotify::{
    Album, AlbumView, PlaylistItem, PlaylistTrackView, TrackMetadata, TrackMetadataView,
};
use crate::sources::youtube::{YouTubePlaylist, YouTubePlaylistView};
use crate::tui::messages::{
    cover_status, cover_status_text, cover_unreached, cover_unreached_text, cover_unread,
    cover_unread_text, cover_unsaved, cover_unsaved_text,
};
use crate::tui::worker::{DownloadEvent, DownloadEventView};
use vstd::prelude::*;

verus! {

/// Why a cover image could not be fetched.
#[derive(Debug)]
pub enum CoverFailure {
    /// The server answered with a status that is no success.
    Status { status: String },
    /// The image could not be written.
    Unsaved { reason: String },
    /// The answer could not be read.
    Unread { reason: String },
    /// The request could not be made.
    Unreached { reason: String },
}

/// What a `CoverFailure` holds.
pub enum CoverFailureView {
    Status { status: Seq<char> },
    Unsaved { reason: Seq<char> },
    Unread { reason: Seq<char> },
    Unreached { reason: Seq<char> },
}

impl View for CoverFailure {
    type V = CoverFailureView;

    open spec fn view(&self) -> CoverFailureView {
        match self {
            CoverFailure::Status { status } => CoverFailureView::Status { status: status@ },
            CoverFailure::Unsaved { reason } => CoverFailureView::Unsaved { reason: reason@ },
            CoverFailure::Unread { reason } => CoverFailureView::Unread { reason: reason@ },
            CoverFailure::Unreached { reason } => CoverFailureView::Unreached { reason: reason@ },
        }
    }
}

impl DeepView for CoverFailure {
    type V = CoverFailureView;

    open spec fn deep_view(&self) -> CoverFailureView {
        self@
    }
}

/// What came of the work that a step asked for.
#[derive(Debug)]
pub enum Outcome {
    AlbumFetched { album: Album },
    PlaylistFetched { name: String },
    ItemsFetched { items: Vec<PlaylistItem> },
    YouTubeFetched { playlist: YouTubePlaylist },
    /// The work failed, for the reason given.
    Failed { reason: String },
    /// The task that did the work broke.
    TaskFailed { reason: String },
    /// The folder is there, and the cover in it.
    CoverPresent,
    /// The folder is there, without a cover.
    CoverAbsent,
    CoverSaved,
    CoverFailed { failure: CoverFailure },
    /// The worker is not paused, or no longer.
    Resumed,
    /// Nobody is left who could end a pause.
    PauseClosed,
    Downloaded,
    Tagged,
    Converted { path: String },
    MetadataFound { metadata: TrackMetadata },
    /// The catalog does not know the track.
    MetadataMissing,
    /// Work whose result does not matter is over.
    Done,
}

/// What a `Outcome` holds.
pub enum OutcomeView {
    AlbumFetched { album: AlbumView },
    PlaylistFetched { name: Seq<char> },
    ItemsFetched { items: Seq<Option<PlaylistTrackView>> },
    YouTubeFetched { playlist: YouTubePlaylistView },
    Failed { reason: Seq<char> },
    TaskFailed { reason: Seq<char> },
    CoverPresent,
    CoverAbsent,
    CoverSaved,
    CoverFailed { failure: CoverFailureView },
    Resumed,
    PauseClosed,
    Downloaded,
    Tagged,
    Converted { path: Seq<char> },
    MetadataFound { metadata: TrackMetadataView },
    MetadataMissing,
    Done,
}

impl View for Outcome {
    type V = OutcomeView;

    open spec fn view(&self) -> OutcomeView {
        match self {
            Outcome::AlbumFetched { album } => OutcomeView::AlbumFetched {
                album: album.deep_view(),
            },
            Outcome::PlaylistFetched { name } => OutcomeView::PlaylistFetched { name: name@ },
            Outcome::ItemsFetched { items } => OutcomeView::ItemsFetched {
                items: items.deep_view(),
            },
            Outcome::YouTubeFetched { playlist } => OutcomeView::YouTubeFetched {
                playlist: playlist.deep_view(),
            },
            Outcome::Failed { reason } => OutcomeView::Failed { reason: reason@ },
            Outcome::TaskFailed { reason } => OutcomeView::TaskFailed { reason: reason@ },
            Outcome::CoverPresent => OutcomeView::CoverPresent,
            Outcome::CoverAbsent => OutcomeView::CoverAbsent,
            Outcome::CoverSaved => OutcomeView::CoverSaved,
            Outcome::CoverFailed { failure } => OutcomeView::CoverFailed {
                failure: failure.deep_view(),
            },
            Outcome::Resumed => OutcomeView::Resumed,
            Outcome::PauseClosed => OutcomeView::PauseClosed,
            Outcome::Downloaded => OutcomeView::Downloaded,
            Outcome::Tagged => OutcomeView::Tagged,
            Outcome::Converted { path } => OutcomeView::Converted { path: path@ },
            Outcome::MetadataFound { metadata } => OutcomeView::MetadataFound {
                metadata: metadata.deep_view(),
            },
            Outcome::MetadataMissing => OutcomeView::MetadataMissing,
            Outcome::Done => OutcomeView::Done,
        }
    }
}

impl DeepView for Outcome {
    type V = OutcomeView;

    open spec fn deep_view(&self) -> OutcomeView {
        self@
    }
}

/// The work outside that a job waits for next.
#[derive(Debug, PartialEq)]
#[allow(inconsistent_fields)]
pub enum Action {
    FetchAlbum { link: String },
    FetchPlaylist { link: String },
    FetchPlaylistItems { link: String },
    FetchYouTubePlaylist { link: String },
    /// Make the folder, and say whether the cover is in it.
    PrepareFolder { folder: String, cover: Option<String> },
    FetchCover { url: String, dest: String },
    /// Wait until the worker is not paused, then make the folder if one is named.
    AwaitTurn { folder: Option<String> },
    Download { query: String, file_path: String, format: String, quality: String },
    Tag {
        path: String,
        artist: String,
        album: String,
        title: String,
        track: u32,
        genre: Option<String>,
        cover: Option<String>,
        portable: bool,
    },
    WritePlaylist { name: String, paths: Vec<String>, directory: String },
    Convert { input_path: String, format: String, quality: String },
    SearchTrack { artist: String, title: String },
    RemoveFile { path: String },
    /// Nothing: the job is over.
    Finish,
}

/// What an `Action` holds.
#[allow(inconsistent_fields)]
pub enum ActionView {
    FetchAlbum { link: Seq<char> },
    FetchPlaylist { link: Seq<char> },
    FetchPlaylistItems { link: Seq<char> },
    FetchYouTubePlaylist { link: Seq<char> },
    PrepareFolder { folder: Seq<char>, cover: Option<Seq<char>> },
    FetchCover { url: Seq<char>, dest: Seq<char> },
    AwaitTurn { folder: Option<Seq<char>> },
    Download { query: Seq<char>, file_path: Seq<char>, format: Seq<char>, quality: Seq<char> },
    Tag {
        path: Seq<char>,
        artist: Seq<char>,
        album: Seq<char>,
        title: Seq<char>,
        track: u32,
        genre: Option<Seq<char>>,
        cover: Option<Seq<char>>,
        portable: bool,
    },
    WritePlaylist { name: Seq<char>, paths: Seq<Seq<char>>, directory: Seq<char> },
    Convert { input_path: Seq<char>, format: Seq<char>, quality: Seq<char> },
    SearchTrack { artist: Seq<char>, title: Seq<char> },
    RemoveFile { path: Seq<char> },
    Finish,
}

impl View for Action {
    type V = ActionView;

    open spec fn view(&self) -> ActionView {
        match self {
            Action::FetchAlbum { link } => ActionView::FetchAlbum { link: link@ },
            Action::FetchPlaylist { link } => ActionView::FetchPlaylist { link: link@ },
            Action::FetchPlaylistItems { link } => ActionView::FetchPlaylistItems { link: link@ },
            Action::FetchYouTubePlaylist { link } => ActionView::FetchYouTubePlaylist {
                link: link@,
            },
            Action::PrepareFolder { folder, cover } => ActionView::PrepareFolder {
                folder: folder@,
                cover: cover.deep_view(),
            },
            Action::FetchCover { url, dest } => ActionView::FetchCover { url: url@, dest: dest@ },
            Action::AwaitTurn { folder } => ActionView::AwaitTurn { folder: folder.deep_view() },
            Action::Download { query, file_path, format, quality } => ActionView::Download {
                query: query@,
                file_path: file_path@,
                format: format@,
                quality: quality@,
            },
            Action::Tag {
                path,
                artist,
                album,
                title,
                track,
                genre,
                cover,
                portable,
            } => ActionView::Tag {
                path: path@,
                artist: artist@,
                album: album@,
                title: title@,
                track: *track,
                genre: genre.deep_view(),
                cover: cover.deep_view(),
                portable: *portable,
            },
            Action::WritePlaylist { name, paths, directory } => ActionView::WritePlaylist {
                name: name@,
                paths: paths.deep_view(),
                directory: directory@,
            },
            Action::Convert { input_path, format, quality } => ActionView::Convert {
                input_path: input_path@,
                format: format@,
                quality: quality@,
            },
            Action::SearchTrack { artist, title } => ActionView::SearchTrack {
                artist: artist@,
                title: title@,
            },
            Action::RemoveFile { path } => ActionView::RemoveFile { path: path@ },
            Action::Finish => ActionView::Finish,
        }
    }
}

impl DeepView for Action {
    type V = ActionView;

    open spec fn deep_view(&self) -> ActionView {
        self@
    }
}

/// One step of a job: the events to send, in order, and the work to do
/// after that.
#[derive(Debug)]
pub struct Step {
    pub events: Vec<DownloadEvent>,
    pub action: Action,
}

/// The line that reports why a cover image could not be fetched.
pub open spec fn cover_failure_text(failure: CoverFailureView) -> Seq<char> {
    match failure {
        CoverFailureView::Status { status } => cover_status_text(status),
        CoverFailureView::Unsaved { reason } => cover_unsaved_text(reason),
        CoverFailureView::Unread { reason } => cover_unread_text(reason),
        CoverFailureView::Unreached { reason } => cover_unreached_text(reason),
    }
}

pub fn cover_failure_line(failure: &CoverFailure) -> (text: String)
    ensures
        text@ == cover_failure_text(failure@),
{
    match failure {
        CoverFailure::Status { status } => cover_status(status.as_str()),
        CoverFailure::Unsaved { reason } => cover_unsaved(reason.as_str()),
        CoverFailure::Unread { reason } => cover_unread(reason.as_str()),
        CoverFailure::Unreached { reason } => cover_unreached(reason.as_str()),
    }
}

} // verus!
