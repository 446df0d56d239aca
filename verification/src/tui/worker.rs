//! What passes between the worker and the rest of the program: requests
//! that come in, events that go out.

use crate::db::{DownloadDB, TrackView};
use crate::error_log::ErrorLogManager;
use crate::tui::app::LinkType;
use crate::tui::convert_job::{
    convert_expects, convert_journal_followed, convert_start, convert_step, convert_step_is,
    convert_wf, moves_track, new_conversion, ConvertJob, ConvertStage,
};
use crate::tui::download_job::{
    download_expects, download_start, download_step, download_wf, first_stage, journal_followed,
    step_is, stores_track, DownloadJob, DownloadJobView, DownloadStage,
};
use crate::tui::protocol::{Outcome, OutcomeView, Step};
use crate::tui::refresh_job::{
    refresh_expects, refresh_journal_followed, refresh_start, refresh_step, refresh_step_is,
    new_refresh, refresh_wf, RefreshJob, RefreshStage,
};
use vstd::prelude::*;
use vstd::string::StringExecFns;

verus! {

/// A file to convert or to refresh, with the artist and title under which the catalog knows it.
#[derive(Debug, PartialEq)]
pub struct ConvertTrackInfo {
    pub input_path: String,
    pub artist: String,
    pub title: String,
}

/// What a `ConvertTrackInfo` holds.
pub struct ConvertTrackInfoView {
    pub input_path: Seq<char>,
    pub artist: Seq<char>,
    pub title: Seq<char>,
}

impl View for ConvertTrackInfo {
    type V = ConvertTrackInfoView;

    open spec fn view(&self) -> ConvertTrackInfoView {
        ConvertTrackInfoView {
            input_path: self.input_path@,
            artist: self.artist@,
            title: self.title@,
        }
    }
}

impl DeepView for ConvertTrackInfo {
    type V = ConvertTrackInfoView;

    open spec fn deep_view(&self) -> ConvertTrackInfoView {
        self@
    }
}

impl Clone for ConvertTrackInfo {
    fn clone(&self) -> (copy: ConvertTrackInfo)
        ensures
            copy@ == self@,
    {
        ConvertTrackInfo {
            input_path: self.input_path.clone(),
            artist: self.artist.clone(),
            title: self.title.clone(),
        }
    }
}

/// A job for the worker. Its `id` comes back in every event of the job.
#[derive(Clone, Debug, PartialEq)]
pub enum DownloadRequest {
    /// An album of the catalog.
    Album { id: usize, link: String, portable: bool, format: String, quality: String },
    /// A playlist of the catalog.
    Playlist { id: usize, link: String, portable: bool, format: String, quality: String },
    /// A playlist of the video site.
    YouTubePlaylist { id: usize, link: String, portable: bool, format: String, quality: String },
    /// One file to convert.
    Convert {
        id: usize,
        input_path: String,
        target_format: String,
        quality: String,
        refresh_metadata: bool,
        artist: String,
        title: String,
    },
    /// Several files to convert.
    ConvertBatch {
        id: usize,
        tracks: Vec<ConvertTrackInfo>,
        target_format: String,
        quality: String,
        refresh_metadata: bool,
    },
    /// One file whose metadata is to be fetched again.
    RefreshMetadata { id: usize, input_path: String, artist: String, title: String },
    /// Several files whose metadata is to be fetched again.
    RefreshMetadataBatch { id: usize, tracks: Vec<ConvertTrackInfo> },
}

/// What a `DownloadRequest` holds.
pub enum DownloadRequestView {
    Album { id: usize, link: Seq<char>, portable: bool, format: Seq<char>, quality: Seq<char> },
    Playlist { id: usize, link: Seq<char>, portable: bool, format: Seq<char>, quality: Seq<char> },
    YouTubePlaylist {
        id: usize,
        link: Seq<char>,
        portable: bool,
        format: Seq<char>,
        quality: Seq<char>,
    },
    Convert {
        id: usize,
        input_path: Seq<char>,
        target_format: Seq<char>,
        quality: Seq<char>,
        refresh_metadata: bool,
        artist: Seq<char>,
        title: Seq<char>,
    },
    ConvertBatch {
        id: usize,
        tracks: Seq<ConvertTrackInfoView>,
        target_format: Seq<char>,
        quality: Seq<char>,
        refresh_metadata: bool,
    },
    RefreshMetadata { id: usize, input_path: Seq<char>, artist: Seq<char>, title: Seq<char> },
    RefreshMetadataBatch { id: usize, tracks: Seq<ConvertTrackInfoView> },
}

impl View for DownloadRequest {
    type V = DownloadRequestView;

    open spec fn view(&self) -> DownloadRequestView {
        match self {
            DownloadRequest::Album {
                id,
                link,
                portable,
                format,
                quality,
            } => DownloadRequestView::Album {
                id: *id,
                link: link@,
                portable: *portable,
                format: format@,
                quality: quality@,
            },
            DownloadRequest::Playlist {
                id,
                link,
                portable,
                format,
                quality,
            } => DownloadRequestView::Playlist {
                id: *id,
                link: link@,
                portable: *portable,
                format: format@,
                quality: quality@,
            },
            DownloadRequest::YouTubePlaylist {
                id,
                link,
                portable,
                format,
                quality,
            } => DownloadRequestView::YouTubePlaylist {
                id: *id,
                link: link@,
                portable: *portable,
                format: format@,
                quality: quality@,
            },
            DownloadRequest::Convert {
                id,
                input_path,
                target_format,
                quality,
                refresh_metadata,
                artist,
                title,
            } => DownloadRequestView::Convert {
                id: *id,
                input_path: input_path@,
                target_format: target_format@,
                quality: quality@,
                refresh_metadata: *refresh_metadata,
                artist: artist@,
                title: title@,
            },
            DownloadRequest::ConvertBatch {
                id,
                tracks,
                target_format,
                quality,
                refresh_metadata,
            } => DownloadRequestView::ConvertBatch {
                id: *id,
                tracks: tracks.deep_view(),
                target_format: target_format@,
                quality: quality@,
                refresh_metadata: *refresh_metadata,
            },
            DownloadRequest::RefreshMetadata {
                id,
                input_path,
                artist,
                title,
            } => DownloadRequestView::RefreshMetadata {
                id: *id,
                input_path: input_path@,
                artist: artist@,
                title: title@,
            },
            DownloadRequest::RefreshMetadataBatch {
                id,
                tracks,
            } => DownloadRequestView::RefreshMetadataBatch {
                id: *id,
                tracks: tracks.deep_view(),
            },
        }
    }
}

impl DeepView for DownloadRequest {
    type V = DownloadRequestView;

    open spec fn deep_view(&self) -> DownloadRequestView {
        self@
    }
}

/// What the worker reports while it serves a request.
#[derive(Clone, Debug, PartialEq)]
pub enum DownloadEvent {
    /// The name of the job is known; its tracks are not yet.
    MetadataFetched { id: usize, name: String },
    /// The tracks of the job are known.
    Started { id: usize, name: String, total_tracks: usize },
    TrackStarted { id: usize, artist: String, title: String, track_num: usize },
    TrackComplete { id: usize, artist: String, title: String, path: String },
    TrackSkipped { id: usize, artist: String, title: String },
    TrackFailed { id: usize, artist: String, title: String, error: String },
    Complete { id: usize, name: String },
    /// The job ended before any track was touched.
    Error { id: usize, error: String },
    LogLine { id: usize, line: String },
    /// A playlist file was written, or could not be.
    M3UGenerated { result: String },
    /// Some tracks of a playlist file are missing; the user decides.
    M3UConfirm { name: String, found: usize, missing: usize, paths: Vec<String> },
    ConvertStarted { id: usize, path: String, target_format: String },
    ConvertComplete { id: usize, old_path: String, new_path: String },
    ConvertFailed { id: usize, path: String, error: String },
    /// The user decides whether the original of one converted file goes.
    ConvertDeleteConfirm { id: usize, old_path: String, new_path: String },
    /// The user decides once whether the originals of all converted files
    /// go; each pair is the old and the new path.
    ConvertBatchDeleteConfirm { converted_files: Vec<(String, String)> },
    ConvertBatchComplete { id: usize, total: usize, successful: usize },
    RefreshStarted { id: usize, artist: String, title: String },
    RefreshComplete { id: usize, artist: String, title: String },
    RefreshFailed { id: usize, artist: String, title: String, error: String },
    RefreshBatchComplete { id: usize, total: usize, successful: usize },
}

/// What a `DownloadEvent` holds.
pub enum DownloadEventView {
    MetadataFetched { id: usize, name: Seq<char> },
    Started { id: usize, name: Seq<char>, total_tracks: usize },
    TrackStarted { id: usize, artist: Seq<char>, title: Seq<char>, track_num: usize },
    TrackComplete { id: usize, artist: Seq<char>, title: Seq<char>, path: Seq<char> },
    TrackSkipped { id: usize, artist: Seq<char>, title: Seq<char> },
    TrackFailed { id: usize, artist: Seq<char>, title: Seq<char>, error: Seq<char> },
    Complete { id: usize, name: Seq<char> },
    Error { id: usize, error: Seq<char> },
    LogLine { id: usize, line: Seq<char> },
    M3UGenerated { result: Seq<char> },
    M3UConfirm { name: Seq<char>, found: usize, missing: usize, paths: Seq<Seq<char>> },
    ConvertStarted { id: usize, path: Seq<char>, target_format: Seq<char> },
    ConvertComplete { id: usize, old_path: Seq<char>, new_path: Seq<char> },
    ConvertFailed { id: usize, path: Seq<char>, error: Seq<char> },
    ConvertDeleteConfirm { id: usize, old_path: Seq<char>, new_path: Seq<char> },
    ConvertBatchDeleteConfirm { converted_files: Seq<(Seq<char>, Seq<char>)> },
    ConvertBatchComplete { id: usize, total: usize, successful: usize },
    RefreshStarted { id: usize, artist: Seq<char>, title: Seq<char> },
    RefreshComplete { id: usize, artist: Seq<char>, title: Seq<char> },
    RefreshFailed { id: usize, artist: Seq<char>, title: Seq<char>, error: Seq<char> },
    RefreshBatchComplete { id: usize, total: usize, successful: usize },
}

impl View for DownloadEvent {
    type V = DownloadEventView;

    open spec fn view(&self) -> DownloadEventView {
        match self {
            DownloadEvent::MetadataFetched { id, name } => DownloadEventView::MetadataFetched {
                id: *id,
                name: name@,
            },
            DownloadEvent::Started { id, name, total_tracks } => DownloadEventView::Started {
                id: *id,
                name: name@,
                total_tracks: *total_tracks,
            },
            DownloadEvent::TrackStarted {
                id,
                artist,
                title,
                track_num,
            } => DownloadEventView::TrackStarted {
                id: *id,
                artist: artist@,
                title: title@,
                track_num: *track_num,
            },
            DownloadEvent::TrackComplete {
                id,
                artist,
                title,
                path,
            } => DownloadEventView::TrackComplete {
                id: *id,
                artist: artist@,
                title: title@,
                path: path@,
            },
            DownloadEvent::TrackSkipped { id, artist, title } => DownloadEventView::TrackSkipped {
                id: *id,
                artist: artist@,
                title: title@,
            },
            DownloadEvent::TrackFailed {
                id,
                artist,
                title,
                error,
            } => DownloadEventView::TrackFailed {
                id: *id,
                artist: artist@,
                title: title@,
                error: error@,
            },
            DownloadEvent::Complete { id, name } => DownloadEventView::Complete {
                id: *id,
                name: name@,
            },
            DownloadEvent::Error { id, error } => DownloadEventView::Error {
                id: *id,
                error: error@,
            },
            DownloadEvent::LogLine { id, line } => DownloadEventView::LogLine {
                id: *id,
                line: line@,
            },
            DownloadEvent::M3UGenerated { result } => DownloadEventView::M3UGenerated {
                result: result@,
            },
            DownloadEvent::M3UConfirm {
                name,
                found,
                missing,
                paths,
            } => DownloadEventView::M3UConfirm {
                name: name@,
                found: *found,
                missing: *missing,
                paths: paths.deep_view(),
            },
            DownloadEvent::ConvertStarted {
                id,
                path,
                target_format,
            } => DownloadEventView::ConvertStarted {
                id: *id,
                path: path@,
                target_format: target_format@,
            },
            DownloadEvent::ConvertComplete {
                id,
                old_path,
                new_path,
            } => DownloadEventView::ConvertComplete {
                id: *id,
                old_path: old_path@,
                new_path: new_path@,
            },
            DownloadEvent::ConvertFailed { id, path, error } => DownloadEventView::ConvertFailed {
                id: *id,
                path: path@,
                error: error@,
            },
            DownloadEvent::ConvertDeleteConfirm {
                id,
                old_path,
                new_path,
            } => DownloadEventView::ConvertDeleteConfirm {
                id: *id,
                old_path: old_path@,
                new_path: new_path@,
            },
            DownloadEvent::ConvertBatchDeleteConfirm {
                converted_files,
            } => DownloadEventView::ConvertBatchDeleteConfirm {
                converted_files: converted_files.deep_view(),
            },
            DownloadEvent::ConvertBatchComplete {
                id,
                total,
                successful,
            } => DownloadEventView::ConvertBatchComplete {
                id: *id,
                total: *total,
                successful: *successful,
            },
            DownloadEvent::RefreshStarted {
                id,
                artist,
                title,
            } => DownloadEventView::RefreshStarted {
                id: *id,
                artist: artist@,
                title: title@,
            },
            DownloadEvent::RefreshComplete {
                id,
                artist,
                title,
            } => DownloadEventView::RefreshComplete {
                id: *id,
                artist: artist@,
                title: title@,
            },
            DownloadEvent::RefreshFailed {
                id,
                artist,
                title,
                error,
            } => DownloadEventView::RefreshFailed {
                id: *id,
                artist: artist@,
                title: title@,
                error: error@,
            },
            DownloadEvent::RefreshBatchComplete {
                id,
                total,
                successful,
            } => DownloadEventView::RefreshBatchComplete {
                id: *id,
                total: *total,
                successful: *successful,
            },
        }
    }
}

impl DeepView for DownloadEvent {
    type V = DownloadEventView;

    open spec fn deep_view(&self) -> DownloadEventView {
        self@
    }
}

impl DownloadRequest {
    /// The identifier of the job.
    pub open spec fn job_id(self) -> usize {
        match self {
            DownloadRequest::Album { id, .. } => id,
            DownloadRequest::Playlist { id, .. } => id,
            DownloadRequest::YouTubePlaylist { id, .. } => id,
            DownloadRequest::Convert { id, .. } => id,
            DownloadRequest::ConvertBatch { id, .. } => id,
            DownloadRequest::RefreshMetadata { id, .. } => id,
            DownloadRequest::RefreshMetadataBatch { id, .. } => id,
        }
    }

    pub fn id(&self) -> (id: usize)
        ensures
            id == self.job_id(),
    {
        match self {
            DownloadRequest::Album { id, .. } => *id,
            DownloadRequest::Playlist { id, .. } => *id,
            DownloadRequest::YouTubePlaylist { id, .. } => *id,
            DownloadRequest::Convert { id, .. } => *id,
            DownloadRequest::ConvertBatch { id, .. } => *id,
            DownloadRequest::RefreshMetadata { id, .. } => *id,
            DownloadRequest::RefreshMetadataBatch { id, .. } => *id,
        }
    }
}

/// The event that passes on one line of a job's output.
pub fn log_line(id: usize, line: String) -> (event: DownloadEvent)
    ensures
        event@ == (DownloadEventView::LogLine { id, line: line@ }),
{
    DownloadEvent::LogLine { id, line }
}

/// A job that the worker is serving.
#[derive(Debug)]
pub enum Job {
    Download(DownloadJob),
    Convert(ConvertJob),
    Refresh(RefreshJob),
}

impl Job {
    /// Whether the job is in a state that its steps can lead to.
    pub open spec fn wf(self) -> bool {
        match self {
            Job::Download(j) => download_wf(j@),
            Job::Convert(j) => convert_wf(j@),
            Job::Refresh(j) => refresh_wf(j@),
        }
    }

    /// Whether the job can take `outcome` now.
    pub open spec fn takes(self, outcome: OutcomeView) -> bool {
        match self {
            Job::Download(j) => download_expects(j@, outcome),
            Job::Convert(j) => convert_expects(j@, outcome),
            Job::Refresh(j) => refresh_expects(j@, outcome),
        }
    }

    pub fn expects(&self, outcome: &Outcome) -> (fits: bool)
        ensures
            fits == self.takes(outcome@),
    {
        match self {
            Job::Download(j) => j.expects(outcome),
            Job::Convert(j) => j.expects(outcome),
            Job::Refresh(j) => j.expects(outcome),
        }
    }

    /// Whether the job has reached its last stage.
    pub open spec fn over(self) -> bool {
        match self {
            Job::Download(j) => j@.stage == DownloadStage::Done,
            Job::Convert(j) => j@.stage == ConvertStage::Done,
            Job::Refresh(j) => j@.stage == RefreshStage::Done,
        }
    }

    /// Whether the job is over. A job that is over takes no outcome any
    /// more.
    pub fn is_done(&self) -> (done: bool)
        ensures
            done == self.over(),
            done ==> forall|outcome: OutcomeView| !self.takes(outcome),
    {
        match self {
            Job::Download(j) => j.is_done(),
            Job::Convert(j) => j.is_done(),
            Job::Refresh(j) => j.is_done(),
        }
    }
}

/// The worker: it serves one request at a time, step by step, and owns
/// the catalog of fetched tracks and the journal.
pub struct DownloadWorker {
    pub music_path: String,
    pub playlist_path: String,
    pub db: DownloadDB,
    pub error_log: ErrorLogManager,
}

/// The state in which a download job begins.
pub open spec fn new_download(
    id: usize,
    kind: LinkType,
    link: Seq<char>,
    portable: bool,
    format: Seq<char>,
    quality: Seq<char>,
    music_path: Seq<char>,
    playlist_path: Seq<char>,
) -> DownloadJobView {
    DownloadJobView {
        id,
        kind,
        link,
        portable,
        format,
        quality,
        music_path,
        playlist_path,
        name: Seq::empty(),
        plans: Seq::empty(),
        genre: None,
        cover_url: None,
        folder: Seq::empty(),
        cover: None,
        next: 0,
        paths: Seq::empty(),
        stage: first_stage(kind),
    }
}

/// Whether `job` and `step` are the beginning of the service of `request`
/// by a worker with these two folders.
pub open spec fn begins(
    request: DownloadRequestView,
    music_path: Seq<char>,
    playlist_path: Seq<char>,
    job: Job,
    step: Step,
) -> bool {
    match request {
        DownloadRequestView::Album { id, link, portable, format, quality } => {
            let begun = new_download(
                id,
                LinkType::Album,
                link,
                portable,
                format,
                quality,
                music_path,
                playlist_path,
            );
            job matches Job::Download(j) && j@ == begun && step.events.deep_view()
                == download_start(begun).0 && step.action@ == download_start(begun).1
        },
        DownloadRequestView::Playlist { id, link, portable, format, quality } => {
            let begun = new_download(
                id,
                LinkType::Playlist,
                link,
                portable,
                format,
                quality,
                music_path,
                playlist_path,
            );
            job matches Job::Download(j) && j@ == begun && step.events.deep_view()
                == download_start(begun).0 && step.action@ == download_start(begun).1
        },
        DownloadRequestView::YouTubePlaylist { id, link, portable, format, quality } => {
            let begun = new_download(
                id,
                LinkType::YouTubePlaylist,
                link,
                portable,
                format,
                quality,
                music_path,
                playlist_path,
            );
            job matches Job::Download(j) && j@ == begun && step.events.deep_view()
                == download_start(begun).0 && step.action@ == download_start(begun).1
        },
        DownloadRequestView::Convert {
            id,
            input_path,
            target_format,
            quality,
            refresh_metadata,
            artist,
            title,
        } => {
            let begun = new_conversion(
                id,
                seq![ConvertTrackInfoView { input_path, artist, title }],
                false,
                target_format,
                quality,
                refresh_metadata,
            );
            job matches Job::Convert(j) && convert_step_is(
                j@,
                step,
                convert_start(begun, Seq::empty()),
            )
        },
        DownloadRequestView::ConvertBatch {
            id,
            tracks,
            target_format,
            quality,
            refresh_metadata,
        } => {
            let begun = new_conversion(id, tracks, true, target_format, quality, refresh_metadata);
            job matches Job::Convert(j) && convert_step_is(
                j@,
                step,
                convert_start(begun, Seq::empty()),
            )
        },
        DownloadRequestView::RefreshMetadata { id, input_path, artist, title } => {
            let begun = new_refresh(
                id,
                seq![ConvertTrackInfoView { input_path, artist, title }],
                false,
            );
            job matches Job::Refresh(j) && refresh_step_is(j@, step, refresh_start(begun))
        },
        DownloadRequestView::RefreshMetadataBatch { id, tracks } => {
            let begun = new_refresh(id, tracks, true);
            job matches Job::Refresh(j) && refresh_step_is(j@, step, refresh_start(begun))
        },
    }
}

/// Whether a worker went from `before` to `after`, and its job from `job`
/// to `next` with the step `step`, as the kind of the job says for
/// `outcome`.
pub open spec fn resumes(
    before: DownloadWorker,
    after: DownloadWorker,
    job: Job,
    next: Job,
    outcome: OutcomeView,
    step: Step,
) -> bool {
    &&& after.music_path@ == before.music_path@
    &&& after.playlist_path@ == before.playlist_path@
    &&& after.db.location() == before.db.location()
    &&& match job {
        Job::Download(j) => {
            let r = download_step(j@, before.db@, outcome);
            &&& next matches Job::Download(n)
            &&& step_is(n@, step, r)
            &&& after.db@ == r.db
            &&& after.db.is_unsaved() == (before.db.is_unsaved() || stores_track(j@, outcome))
            &&& journal_followed(before.error_log, after.error_log, r.failure)
        },
        Job::Convert(j) => {
            let r = convert_step(j@, before.db@, outcome);
            &&& next matches Job::Convert(n)
            &&& convert_step_is(n@, step, r)
            &&& after.db@ == r.db
            &&& after.db.is_unsaved() == (before.db.is_unsaved() || moves_track(
                j@,
                before.db@,
                outcome,
            ))
            &&& convert_journal_followed(before.error_log, after.error_log, r.failure)
        },
        Job::Refresh(j) => {
            let r = refresh_step(j@, outcome);
            &&& next matches Job::Refresh(n)
            &&& refresh_step_is(n@, step, r)
            &&& after.db@ == before.db@
            &&& after.db.is_unsaved() == before.db.is_unsaved()
            &&& refresh_journal_followed(before.error_log, after.error_log, r.failure)
        },
    }
}

impl DownloadWorker {
    /// A worker that writes music under `music_path` and playlist files
    /// under `playlist_path`.
    pub fn new(
        music_path: &str,
        playlist_path: &str,
        db: DownloadDB,
        error_log: ErrorLogManager,
    ) -> (worker:
        DownloadWorker)
        ensures
            worker.music_path@ == music_path@,
            worker.playlist_path@ == playlist_path@,
            worker.db == db,
            worker.error_log == error_log,
    {
        DownloadWorker {
            music_path: String::from_str(music_path),
            playlist_path: String::from_str(playlist_path),
            db,
            error_log,
        }
    }

    /// Begins to serve `request`: the job, and its first step.
    pub fn start(&self, request: DownloadRequest) -> (started: (Job, Step))
        ensures
            begins(request@, self.music_path@, self.playlist_path@, started.0, started.1),
            started.0.wf(),
    {
        let music = self.music_path.as_str();
        let lists = self.playlist_path.as_str();
        match request {
            DownloadRequest::Album { id, link, portable, format, quality } => {
                let (job, step) = DownloadJob::new(
                    id,
                    LinkType::Album,
                    link,
                    portable,
                    format,
                    quality,
                    music,
                    lists,
                );
                (Job::Download(job), step)
            },
            DownloadRequest::Playlist { id, link, portable, format, quality } => {
                let (job, step) = DownloadJob::new(
                    id,
                    LinkType::Playlist,
                    link,
                    portable,
                    format,
                    quality,
                    music,
                    lists,
                );
                (Job::Download(job), step)
            },
            DownloadRequest::YouTubePlaylist { id, link, portable, format, quality } => {
                let (job, step) = DownloadJob::new(
                    id,
                    LinkType::YouTubePlaylist,
                    link,
                    portable,
                    format,
                    quality,
                    music,
                    lists,
                );
                (Job::Download(job), step)
            },
            DownloadRequest::Convert {
                id,
                input_path,
                target_format,
                quality,
                refresh_metadata,
                artist,
                title,
            } => {
                let (job, step) = ConvertJob::single(
                    id,
                    input_path,
                    target_format,
                    quality,
                    refresh_metadata,
                    artist,
                    title,
                );
                (Job::Convert(job), step)
            },
            DownloadRequest::ConvertBatch {
                id,
                tracks,
                target_format,
                quality,
                refresh_metadata,
            } => {
                let (job, step) = ConvertJob::batch(
                    id,
                    tracks,
                    target_format,
                    quality,
                    refresh_metadata,
                );
                (Job::Convert(job), step)
            },
            DownloadRequest::RefreshMetadata { id, input_path, artist, title } => {
                let (job, step) = RefreshJob::single(id, input_path, artist, title);
                (Job::Refresh(job), step)
            },
            DownloadRequest::RefreshMetadataBatch { id, tracks } => {
                let (job, step) = RefreshJob::batch(id, tracks);
                (Job::Refresh(job), step)
            },
        }
    }

    /// Goes on with `job`: takes what came of the work that its last step
    /// asked for, and makes its next step.
    pub fn resume(&mut self, job: Job, outcome: Outcome) -> (resumed: (Job, Step))
        requires
            job.wf(),
            job.takes(outcome@),
        ensures
            resumes(*old(self), *final(self), job, resumed.0, outcome@, resumed.1),
            resumed.0.wf(),
    {
        match job {
            Job::Download(mut j) => {
                let step = j.step(&mut self.db, &mut self.error_log, outcome);
                (Job::Download(j), step)
            },
            Job::Convert(mut j) => {
                let step = j.step(&mut self.db, &mut self.error_log, outcome);
                (Job::Convert(j), step)
            },
            Job::Refresh(mut j) => {
                let step = j.step(&mut self.error_log, outcome);
                (Job::Refresh(j), step)
            },
        }
    }
}

} // verus!
