//! A download job, step by step.
//!
//! A job looks its link up, learns its tracks, and then takes the tracks in
//! order. Before each track it waits for its turn, so that a pause holds it
//! between two tracks. A track that the catalog of fetched tracks holds is
//! skipped; the others are downloaded and tagged. A track that fails is
//! written to the journal and the job goes on.

use crate::cli::PortableConfig;
use crate::db::{inserted, DownloadDB, TrackEntry, TrackView};
use crate::error_log::clock::Timestamp;
use crate::error_log::entries::{DownloadErrorEntry, DownloadErrorView};
use crate::error_log::journal::{well_formed, with_entry, StoreOpView};
use crate::error_log::{ErrorLogManager, ErrorType};
use crate::file_utils::{build_filename, filename_of, sanitize_filename, sanitized};
use crate::paths::{join, joined};
use crate::sources::spotify::{
    first_name_or, first_or, Album, AlbumTrackView, AlbumView, PlaylistItem, PlaylistTrackView,
};
use crate::sources::youtube::{YouTubePlaylist, YouTubePlaylistView, YouTubeTrackView};
use crate::text::{contains, contains_text, lowercase_of};
use crate::tui::app::LinkType;
use crate::tui::messages::{
    album_failure, album_failure_shown, album_failure_shown_text, album_failure_text,
    display_name, display_name_text, downloading, downloading_text, fetching_tracks,
    fetching_tracks_text, fetching_youtube, fetching_youtube_text, found_album,
    found_album_text, found_playlist, found_playlist_text, hint, hint_text, items_failure,
    items_failure_shown, items_failure_shown_text, items_failure_text, playlist_failure,
    playlist_failure_shown, playlist_failure_shown_text, playlist_failure_text, search_text,
    search_text_text, tagging_failure, tagging_failure_text, task_failure, task_failure_text,
    youtube_failure,
    youtube_failure_text,
};
use crate::tui::protocol::{
    cover_failure_line, cover_failure_text, Action, ActionView, CoverFailure, Outcome,
    OutcomeView, Step,
};
use crate::tui::worker::{DownloadEvent, DownloadEventView};
use vstd::prelude::*;
use vstd::string::StringExecFns;

verus! {

/// Where a download job stands.
#[derive(Clone, Copy, Debug, PartialEq, Eq, Structural)]
pub enum DownloadStage {
    FetchingAlbum,
    FetchingPlaylist,
    FetchingItems,
    FetchingYouTube,
    /// The album folder is being made and looked into.
    Preparing,
    FetchingCover,
    /// Waiting for the turn of the next track.
    AtGate,
    Downloading,
    Tagging,
    /// The playlist file is being written.
    Writing,
    Done,
}

/// All that is decided about one track before its turn comes.
#[derive(Debug)]
pub struct TrackPlan {
    pub artist: String,
    pub title: String,
    pub album: String,
    pub track_number: u32,
    /// What the downloader is asked for.
    pub query: String,
    pub folder: String,
    pub file_path: String,
}

pub struct TrackPlanView {
    pub artist: Seq<char>,
    pub title: Seq<char>,
    pub album: Seq<char>,
    pub track_number: u32,
    pub query: Seq<char>,
    pub folder: Seq<char>,
    pub file_path: Seq<char>,
}

impl View for TrackPlan {
    type V = TrackPlanView;

    open spec fn view(&self) -> TrackPlanView {
        TrackPlanView {
            artist: self.artist@,
            title: self.title@,
            album: self.album@,
            track_number: self.track_number,
            query: self.query@,
            folder: self.folder@,
            file_path: self.file_path@,
        }
    }
}

impl DeepView for TrackPlan {
    type V = TrackPlanView;

    open spec fn deep_view(&self) -> TrackPlanView {
        self@
    }
}

/// A download job.
#[derive(Debug)]
pub struct DownloadJob {
    pub id: usize,
    pub kind: LinkType,
    pub link: String,
    pub portable: bool,
    /// The format that was asked for; portable jobs write MP3 whatever it
    /// is.
    pub format: String,
    pub quality: String,
    pub music_path: String,
    pub playlist_path: String,
    /// The name of the album or playlist, once it is known.
    pub name: String,
    /// The items of the job in order; `None` stands for an item that is no
    /// track.
    pub plans: Vec<Option<TrackPlan>>,
    pub genre: Option<String>,
    pub cover_url: Option<String>,
    /// The folder of an album job.
    pub folder: String,
    /// The cover image, once it is there.
    pub cover: Option<String>,
    /// The index of the item whose turn is next.
    pub next: usize,
    /// The files that go into the playlist file.
    pub paths: Vec<String>,
    pub stage: DownloadStage,
}

pub struct DownloadJobView {
    pub id: usize,
    pub kind: LinkType,
    pub link: Seq<char>,
    pub portable: bool,
    pub format: Seq<char>,
    pub quality: Seq<char>,
    pub music_path: Seq<char>,
    pub playlist_path: Seq<char>,
    pub name: Seq<char>,
    pub plans: Seq<Option<TrackPlanView>>,
    pub genre: Option<Seq<char>>,
    pub cover_url: Option<Seq<char>>,
    pub folder: Seq<char>,
    pub cover: Option<Seq<char>>,
    pub next: usize,
    pub paths: Seq<Seq<char>>,
    pub stage: DownloadStage,
}

impl View for DownloadJob {
    type V = DownloadJobView;

    open spec fn view(&self) -> DownloadJobView {
        DownloadJobView {
            id: self.id,
            kind: self.kind,
            link: self.link@,
            portable: self.portable,
            format: self.format@,
            quality: self.quality@,
            music_path: self.music_path@,
            playlist_path: self.playlist_path@,
            name: self.name@,
            plans: self.plans.deep_view(),
            genre: self.genre.deep_view(),
            cover_url: self.cover_url.deep_view(),
            folder: self.folder@,
            cover: self.cover.deep_view(),
            next: self.next,
            paths: self.paths.deep_view(),
            stage: self.stage,
        }
    }
}

/// What a step of a download job comes to.
pub struct DownloadStepView {
    pub job: DownloadJobView,
    /// The catalog of fetched tracks after the step.
    pub db: Seq<TrackView>,
    pub events: Seq<DownloadEventView>,
    pub action: ActionView,
    /// What the step writes to the journal, but for the identifier and the
    /// moment, which are made when it is written.
    pub failure: Option<DownloadErrorView>,
}

/// The format that a job writes.
pub open spec fn actual_format(job: DownloadJobView) -> Seq<char> {
    if job.portable {
        "mp3"@
    } else {
        job.format
    }
}

/// Whether a failure, written in lower case, looks like a missing item.
pub open spec fn looks_missing(lowered: Seq<char>) -> bool {
    contains_text(lowered, "404"@) || contains_text(lowered, "not found"@)
}

/// A failure with the hint that the item may be private, where `lowered`
/// (the failure in lower case) looks like a missing item.
pub open spec fn with_hint(reason: Seq<char>, lowered: Seq<char>, item: Seq<char>) -> Seq<char> {
    if looks_missing(lowered) {
        reason + hint_text(item)
    } else {
        reason
    }
}

/// A failure of a lookup as a user reads it.
pub open spec fn hinted(reason: Seq<char>, item: Seq<char>) -> Seq<char> {
    with_hint(reason, lowercase_of(reason), item)
}

/// Adds the hint to `reason` where `lowered`, which is `reason` in lower
/// case, looks like a missing item.
pub fn hint_for(reason: &str, lowered: &str, item_type: &str) -> (text: String)
    ensures
        text@ == with_hint(reason@, lowered@, item_type@),
{
    if contains(lowered, "404") || contains(lowered, "not found") {
        let mut text = String::from_str(reason);
        text.append(hint(item_type).as_str());
        text
    } else {
        String::from_str(reason)
    }
}

/// Format a failure of a lookup, with a hint if it looks like a missing
/// item.
pub fn format_error_with_hint(error: &str, item_type: &str) -> (text: String)
    ensures
        text@ == hinted(error@, item_type@),
{
    let lowered = error.to_lowercase();
    hint_for(error, lowered.as_str(), item_type)
}

/// The folder for the tracks of one artist and album.
pub open spec fn track_folder(
    music_path: Seq<char>,
    artist: Seq<char>,
    album: Seq<char>,
    portable: bool,
) -> Seq<char> {
    if portable {
        music_path
    } else {
        joined(joined(music_path, sanitized(artist)), sanitized(album))
    }
}

pub fn folder_for(music_path: &str, artist: &str, album: &str, portable: bool) -> (folder: String)
    ensures
        folder@ == track_folder(music_path@, artist@, album@, portable),
{
    if portable {
        String::from_str(music_path)
    } else {
        let a = sanitize_filename(artist);
        let b = sanitize_filename(album);
        let first = join(music_path, a.as_str());
        join(first.as_str(), b.as_str())
    }
}

/// The low 32 bits of a count.
pub open spec fn low32(n: int) -> u32 {
    (n % 0x1_0000_0000) as u32
}

fn number_of(n: usize) -> (number: u32)
    ensures
        number == low32(n as int),
{
    ((n as u64) % 0x1_0000_0000u64) as u32
}

/// The plan for a track with these names, fetched by `query` into
/// `folder`.
pub open spec fn plan_of(
    artist: Seq<char>,
    title: Seq<char>,
    album: Seq<char>,
    track_number: u32,
    query: Seq<char>,
    folder: Seq<char>,
    format: Seq<char>,
    portable: bool,
) -> TrackPlanView {
    TrackPlanView {
        artist,
        title,
        album,
        track_number,
        query,
        folder,
        file_path: joined(
            folder,
            filename_of(artist, title, format, PortableConfig::profile(portable)),
        ),
    }
}

fn make_plan(
    artist: String,
    title: String,
    album: String,
    track_number: u32,
    query: String,
    folder: String,
    format: &str,
    portable: bool,
) -> (plan: TrackPlan)
    ensures
        plan@ == plan_of(
            artist@,
            title@,
            album@,
            track_number,
            query@,
            folder@,
            format@,
            portable,
        ),
{
    let config = PortableConfig::for_mode(portable);
    let file_name = build_filename(artist.as_str(), title.as_str(), format, &config);
    let file_path = join(folder.as_str(), file_name.as_str());
    TrackPlan { artist, title, album, track_number, query, folder, file_path }
}

/// The plan for the track at index `i` of an album.
pub open spec fn album_plan(
    track: AlbumTrackView,
    i: int,
    main_artist: Seq<char>,
    album: Seq<char>,
    folder: Seq<char>,
    format: Seq<char>,
    portable: bool,
) -> TrackPlanView {
    let artist = first_or(track.artists, main_artist);
    plan_of(
        artist,
        track.name,
        album,
        low32(i + 1),
        search_text_text(artist, track.name),
        folder,
        format,
        portable,
    )
}

pub open spec fn album_plans(
    album: AlbumView,
    main_artist: Seq<char>,
    folder: Seq<char>,
    format: Seq<char>,
    portable: bool,
) -> Seq<Option<TrackPlanView>> {
    Seq::new(
        album.tracks.len(),
        |i: int| Some(album_plan(album.tracks[i], i, main_artist, album.name, folder, format, portable)),
    )
}

/// The plan for an item of a playlist; none for an item that is no track.
pub open spec fn playlist_plan(
    item: Option<PlaylistTrackView>,
    music_path: Seq<char>,
    format: Seq<char>,
    portable: bool,
) -> Option<TrackPlanView> {
    match item {
        Some(t) => {
            let artist = first_or(t.artists, "Unknown Artist"@);
            Some(
                plan_of(
                    artist,
                    t.name,
                    t.album,
                    t.track_number,
                    search_text_text(artist, t.name),
                    track_folder(music_path, artist, t.album, portable),
                    format,
                    portable,
                ),
            )
        },
        None => None,
    }
}

pub open spec fn playlist_plans(
    items: Seq<Option<PlaylistTrackView>>,
    music_path: Seq<char>,
    format: Seq<char>,
    portable: bool,
) -> Seq<Option<TrackPlanView>> {
    Seq::new(items.len(), |i: int| playlist_plan(items[i], music_path, format, portable))
}

/// The plan for the track at index `i` of a playlist of the video site.
/// The playlist stands for the album, and the track is fetched from its own
/// address.
pub open spec fn youtube_plan(
    track: YouTubeTrackView,
    i: int,
    playlist_name: Seq<char>,
    music_path: Seq<char>,
    format: Seq<char>,
    portable: bool,
) -> TrackPlanView {
    plan_of(
        track.artist,
        track.title,
        playlist_name,
        low32(i + 1),
        track.url,
        track_folder(music_path, track.artist, playlist_name, portable),
        format,
        portable,
    )
}

pub open spec fn youtube_plans(
    playlist: YouTubePlaylistView,
    music_path: Seq<char>,
    format: Seq<char>,
    portable: bool,
) -> Seq<Option<TrackPlanView>> {
    Seq::new(
        playlist.tracks.len(),
        |i: int| Some(youtube_plan(playlist.tracks[i], i, playlist.title, music_path, format, portable)),
    )
}

/// The record of the catalog of fetched tracks for a plan.
pub open spec fn entry_of(plan: TrackPlanView) -> TrackView {
    TrackView { artist: plan.artist, title: plan.title, path: plan.file_path }
}

/// What the journal keeps of a failure of this job, with an empty
/// identifier and moment.
pub open spec fn failure_of(
    job: DownloadJobView,
    format: Seq<char>,
    artist: Option<Seq<char>>,
    title: Option<Seq<char>>,
    error: Seq<char>,
) -> DownloadErrorView {
    DownloadErrorView {
        id: Seq::empty(),
        timestamp: Timestamp { secs: 0, nanos: 0 },
        link: job.link,
        link_type: job.kind.name(),
        format,
        quality: job.quality,
        portable: job.portable,
        artist,
        title,
        error,
        retry_count: 0,
    }
}

/// Whether `e` is the record `f` with an identifier and a moment of its
/// own.
pub open spec fn records(e: DownloadErrorView, f: DownloadErrorView) -> bool {
    e == (DownloadErrorView { id: e.id, timestamp: e.timestamp, ..f })
}

/// The job is over.
pub open spec fn ended(
    job: DownloadJobView,
    db: Seq<TrackView>,
    events: Seq<DownloadEventView>,
    failure: Option<DownloadErrorView>,
) -> DownloadStepView {
    DownloadStepView {
        job: DownloadJobView { stage: DownloadStage::Done, ..job },
        db,
        events,
        action: ActionView::Finish,
        failure,
    }
}

/// The folder that has to be there for the item at index `i`.
pub open spec fn folder_at(job: DownloadJobView, i: int) -> Option<Seq<char>> {
    match job.plans[i] {
        Some(p) => Some(p.folder),
        None => None,
    }
}

/// On to the next item: the job waits for its turn, or, with no item left,
/// comes to its end. An album ends at once; the others write their
/// playlist file first.
pub open spec fn to_gate(
    job: DownloadJobView,
    db: Seq<TrackView>,
    events: Seq<DownloadEventView>,
    failure: Option<DownloadErrorView>,
) -> DownloadStepView {
    if job.next < job.plans.len() {
        DownloadStepView {
            job: DownloadJobView { stage: DownloadStage::AtGate, ..job },
            db,
            events,
            action: ActionView::AwaitTurn { folder: folder_at(job, job.next as int) },
            failure,
        }
    } else if job.kind == LinkType::Album {
        ended(
            job,
            db,
            events.push(DownloadEventView::Complete { id: job.id, name: job.name }),
            failure,
        )
    } else {
        DownloadStepView {
            job: DownloadJobView { stage: DownloadStage::Writing, ..job },
            db,
            events,
            action: ActionView::WritePlaylist {
                name: job.name,
                paths: job.paths,
                directory: job.playlist_path,
            },
            failure,
        }
    }
}

/// The job whose item at `next` is dealt with.
pub open spec fn advanced(job: DownloadJobView) -> DownloadJobView {
    DownloadJobView { next: (job.next + 1) as usize, ..job }
}

/// The first step of a job: it announces the lookup and asks for it.
pub open spec fn download_start(job: DownloadJobView) -> (Seq<DownloadEventView>, ActionView) {
    match job.kind {
        LinkType::Album => (
            Seq::empty().push(
                DownloadEventView::LogLine {
                    id: job.id,
                    line: "Fetching album info from Spotify..."@,
                },
            ),
            ActionView::FetchAlbum { link: job.link },
        ),
        LinkType::Playlist => (
            Seq::empty().push(
                DownloadEventView::LogLine {
                    id: job.id,
                    line: "Fetching playlist info from Spotify..."@,
                },
            ),
            ActionView::FetchPlaylist { link: job.link },
        ),
        LinkType::YouTubePlaylist => (
            Seq::empty().push(
                DownloadEventView::LogLine { id: job.id, line: fetching_youtube_text(job.link) },
            ),
            ActionView::FetchYouTubePlaylist { link: job.link },
        ),
    }
}

/// The stage in which a new job of a kind waits for its lookup.
pub open spec fn first_stage(kind: LinkType) -> DownloadStage {
    match kind {
        LinkType::Album => DownloadStage::FetchingAlbum,
        LinkType::Playlist => DownloadStage::FetchingPlaylist,
        LinkType::YouTubePlaylist => DownloadStage::FetchingYouTube,
    }
}

/// The name under which the job of an album is shown: its first artist
/// and its name.
pub open spec fn album_label(album: AlbumView) -> Seq<char> {
    display_name_text(first_or(album.artists, "Unknown Artist"@), album.name)
}

/// The name under which the job of `album` is shown.
pub fn album_name(album: &Album) -> (name: String)
    ensures
        name@ == album_label(album@),
{
    let main_artist = first_name_or(&album.artists, "Unknown Artist");
    display_name(main_artist.as_str(), album.name.as_str())
}

/// The album was looked up: the job announces it, plans its tracks and
/// asks for the folder.
pub open spec fn album_fetched(
    job: DownloadJobView,
    db: Seq<TrackView>,
    album: AlbumView,
) -> DownloadStepView {
    let main_artist = first_or(album.artists, "Unknown Artist"@);
    let name = display_name_text(main_artist, album.name);
    let folder = track_folder(job.music_path, main_artist, album.name, job.portable);
    let total = album.tracks.len();
    DownloadStepView {
        job: DownloadJobView {
            name,
            plans: album_plans(album, main_artist, folder, actual_format(job), job.portable),
            next: 0,
            genre: album.genre,
            cover_url: album.cover_url,
            folder,
            stage: DownloadStage::Preparing,
            ..job
        },
        db,
        events: Seq::empty().push(DownloadEventView::MetadataFetched { id: job.id, name }).push(
            DownloadEventView::LogLine {
                id: job.id,
                line: found_album_text(
                    main_artist,
                    album.name,
                    total,
                    actual_format(job),
                    job.quality,
                ),
            },
        ).push(DownloadEventView::Started { id: job.id, name, total_tracks: total as usize }),
        action: ActionView::PrepareFolder {
            folder,
            cover: if album.cover_url is Some {
                Some(joined(folder, "cover.jpg"@))
            } else {
                None
            },
        },
        failure: None,
    }
}

/// The lookup of the album or playlist failed: the failure goes to the
/// journal without artist or title, and the job ends with an error.
pub open spec fn lookup_failed(
    job: DownloadJobView,
    db: Seq<TrackView>,
    reason: Seq<char>,
) -> DownloadStepView {
    match job.kind {
        LinkType::Album => {
            let shown = hinted(reason, "album"@);
            ended(
                job,
                db,
                Seq::empty().push(
                    DownloadEventView::Error {
                        id: job.id,
                        error: album_failure_shown_text(job.link, shown),
                    },
                ),
                Some(failure_of(job, job.format, None, None, album_failure_text(shown))),
            )
        },
        LinkType::Playlist => {
            let shown = hinted(reason, "playlist"@);
            ended(
                job,
                db,
                Seq::empty().push(
                    DownloadEventView::Error {
                        id: job.id,
                        error: playlist_failure_shown_text(job.link, shown),
                    },
                ),
                Some(failure_of(job, job.format, None, None, playlist_failure_text(shown))),
            )
        },
        LinkType::YouTubePlaylist => {
            let shown = youtube_failure_text(reason);
            ended(
                job,
                db,
                Seq::empty().push(DownloadEventView::Error { id: job.id, error: shown }),
                Some(failure_of(job, actual_format(job), None, None, shown)),
            )
        },
    }
}

/// The name of the playlist is known: the job announces it and asks for
/// the tracks.
pub open spec fn playlist_fetched(
    job: DownloadJobView,
    db: Seq<TrackView>,
    name: Seq<char>,
) -> DownloadStepView {
    DownloadStepView {
        job: DownloadJobView { name, stage: DownloadStage::FetchingItems, ..job },
        db,
        events: Seq::empty().push(DownloadEventView::MetadataFetched { id: job.id, name }).push(
            DownloadEventView::LogLine { id: job.id, line: fetching_tracks_text(name) },
        ),
        action: ActionView::FetchPlaylistItems { link: job.link },
        failure: None,
    }
}

/// The tracks are known: the job announces them and turns to the first.
pub open spec fn tracks_known(
    job: DownloadJobView,
    db: Seq<TrackView>,
    name: Seq<char>,
    plans: Seq<Option<TrackPlanView>>,
) -> DownloadStepView {
    to_gate(
        DownloadJobView { name, plans, next: 0, ..job },
        db,
        Seq::empty().push(
            DownloadEventView::LogLine {
                id: job.id,
                line: found_playlist_text(name, plans.len(), actual_format(job), job.quality),
            },
        ).push(DownloadEventView::Started { id: job.id, name, total_tracks: plans.len() as usize }),
        None,
    )
}

/// The tracks of the playlist could not be listed: the failure goes to the
/// journal without artist or title, and the job ends with an error.
pub open spec fn items_failed(
    job: DownloadJobView,
    db: Seq<TrackView>,
    reason: Seq<char>,
) -> DownloadStepView {
    ended(
        job,
        db,
        Seq::empty().push(
            DownloadEventView::Error {
                id: job.id,
                error: items_failure_shown_text(job.name, reason),
            },
        ),
        Some(failure_of(job, job.format, None, None, items_failure_text(reason))),
    )
}

/// The task that looks the playlist up broke: the failure goes to the
/// journal without artist or title, with the format that the job writes,
/// and the job ends with an error.
pub open spec fn lookup_task_failed(
    job: DownloadJobView,
    db: Seq<TrackView>,
    reason: Seq<char>,
) -> DownloadStepView {
    ended(
        job,
        db,
        Seq::empty().push(
            DownloadEventView::Error { id: job.id, error: task_failure_text(reason) },
        ),
        Some(failure_of(job, actual_format(job), None, None, task_failure_text(reason))),
    )
}

/// Where the cover of an album job goes.
pub open spec fn cover_dest(job: DownloadJobView) -> Seq<char> {
    joined(job.folder, "cover.jpg"@)
}

/// The folder is there. With the cover in it, or without a cover to fetch,
/// the job turns to the first track; else it fetches the cover.
pub open spec fn folder_ready(
    job: DownloadJobView,
    db: Seq<TrackView>,
    cover_present: bool,
) -> DownloadStepView {
    match job.cover_url {
        Some(url) => if cover_present {
            to_gate(DownloadJobView { cover: Some(cover_dest(job)), ..job }, db, Seq::empty(), None)
        } else {
            DownloadStepView {
                job: DownloadJobView { stage: DownloadStage::FetchingCover, ..job },
                db,
                events: Seq::empty().push(
                    DownloadEventView::LogLine { id: job.id, line: "Downloading cover art..."@ },
                ),
                action: ActionView::FetchCover { url, dest: cover_dest(job) },
                failure: None,
            }
        },
        None => to_gate(job, db, Seq::empty(), None),
    }
}

/// The turn of the item at `next` has come. What is no track is passed
/// over. A track that the catalog holds is skipped, and nothing is
/// downloaded for it. Any other track is announced and asked for.
pub open spec fn at_gate(job: DownloadJobView, db: Seq<TrackView>) -> DownloadStepView {
    match job.plans[job.next as int] {
        None => to_gate(advanced(job), db, Seq::empty(), None),
        Some(p) => if db.contains(entry_of(p)) {
            to_gate(
                DownloadJobView {
                    paths: if job.kind == LinkType::Playlist {
                        job.paths.push(p.file_path)
                    } else {
                        job.paths
                    },
                    ..advanced(job)
                },
                db,
                Seq::empty().push(
                    DownloadEventView::TrackSkipped { id: job.id, artist: p.artist, title: p.title },
                ),
                None,
            )
        } else {
            let announced = if job.kind == LinkType::YouTubePlaylist {
                Seq::empty().push(
                    DownloadEventView::LogLine {
                        id: job.id,
                        line: downloading_text(
                            (job.next + 1) as nat,
                            job.plans.len(),
                            p.artist,
                            p.title,
                        ),
                    },
                )
            } else {
                Seq::empty()
            };
            DownloadStepView {
                job: DownloadJobView { stage: DownloadStage::Downloading, ..job },
                db,
                events: announced.push(
                    DownloadEventView::TrackStarted {
                        id: job.id,
                        artist: p.artist,
                        title: p.title,
                        track_num: (job.next + 1) as usize,
                    },
                ),
                action: ActionView::Download {
                    query: p.query,
                    file_path: p.file_path,
                    format: actual_format(job),
                    quality: job.quality,
                },
                failure: None,
            }
        },
    }
}

/// The track at `next` is downloaded: the job asks for its tags.
pub open spec fn downloaded(job: DownloadJobView, db: Seq<TrackView>) -> DownloadStepView {
    let p = job.plans[job.next as int]->0;
    DownloadStepView {
        job: DownloadJobView { stage: DownloadStage::Tagging, ..job },
        db,
        events: Seq::empty(),
        action: ActionView::Tag {
            path: p.file_path,
            artist: p.artist,
            album: p.album,
            title: p.title,
            track: p.track_number,
            genre: job.genre,
            cover: job.cover,
            portable: job.portable,
        },
        failure: None,
    }
}

/// The track at `next` failed: the failure goes to the journal with
/// artist and title, and the job turns to the next track.
pub open spec fn track_failed(
    job: DownloadJobView,
    db: Seq<TrackView>,
    error: Seq<char>,
) -> DownloadStepView {
    let p = job.plans[job.next as int]->0;
    to_gate(
        advanced(job),
        db,
        Seq::empty().push(
            DownloadEventView::TrackFailed {
                id: job.id,
                artist: p.artist,
                title: p.title,
                error,
            },
        ),
        Some(failure_of(job, actual_format(job), Some(p.artist), Some(p.title), error)),
    )
}

/// The track at `next` is there: it goes into the catalog of fetched
/// tracks, and the job turns to the next track.
pub open spec fn track_done(
    job: DownloadJobView,
    db: Seq<TrackView>,
    events: Seq<DownloadEventView>,
) -> DownloadStepView {
    let p = job.plans[job.next as int]->0;
    to_gate(
        DownloadJobView {
            paths: if job.kind == LinkType::Album {
                job.paths
            } else {
                job.paths.push(p.file_path)
            },
            ..advanced(job)
        },
        inserted(db, entry_of(p)),
        events.push(
            DownloadEventView::TrackComplete {
                id: job.id,
                artist: p.artist,
                title: p.title,
                path: p.file_path,
            },
        ),
        None,
    )
}

/// The track at `next` was downloaded but could not be tagged: it has
/// failed like a track that could not be downloaded, whatever the kind of
/// the job, and does not go into the catalog of fetched tracks.
pub open spec fn tagging_failed(
    job: DownloadJobView,
    db: Seq<TrackView>,
    reason: Seq<char>,
) -> DownloadStepView {
    track_failed(job, db, tagging_failure_text(reason))
}

/// Whether the lists in `outcome` are of a length that a machine can hold.
pub open spec fn sized(outcome: OutcomeView) -> bool {
    match outcome {
        OutcomeView::AlbumFetched { album } => album.tracks.len() <= usize::MAX,
        OutcomeView::ItemsFetched { items } => items.len() <= usize::MAX,
        OutcomeView::YouTubeFetched { playlist } => playlist.tracks.len() <= usize::MAX,
        _ => true,
    }
}

/// Whether a job in this state can take `outcome`.
pub open spec fn download_expects(job: DownloadJobView, outcome: OutcomeView) -> bool {
    sized(outcome) && match job.stage {
        DownloadStage::FetchingAlbum => outcome is AlbumFetched || outcome is Failed,
        DownloadStage::FetchingPlaylist => outcome is PlaylistFetched || outcome is Failed,
        DownloadStage::FetchingItems => outcome is ItemsFetched || outcome is Failed,
        DownloadStage::FetchingYouTube => outcome is YouTubeFetched || outcome is Failed
            || outcome is TaskFailed,
        DownloadStage::Preparing => outcome is CoverPresent || outcome is CoverAbsent,
        DownloadStage::FetchingCover => outcome is CoverSaved || outcome is CoverFailed,
        DownloadStage::AtGate => outcome is Resumed || outcome is PauseClosed,
        DownloadStage::Downloading => outcome is Downloaded || outcome is Failed
            || outcome is TaskFailed,
        DownloadStage::Tagging => outcome is Tagged || outcome is Failed,
        DownloadStage::Writing => outcome is Done || outcome is Failed,
        DownloadStage::Done => false,
    }
}

/// Whether a job is in a state that its steps can lead to.
pub open spec fn download_wf(job: DownloadJobView) -> bool {
    &&& job.next <= job.plans.len() <= usize::MAX
    &&& (job.stage == DownloadStage::AtGate || job.stage == DownloadStage::Downloading
        || job.stage == DownloadStage::Tagging) ==> job.next < job.plans.len()
    &&& (job.stage == DownloadStage::Downloading || job.stage == DownloadStage::Tagging)
        ==> job.plans[job.next as int] is Some
    &&& job.stage == DownloadStage::FetchingCover ==> job.cover_url is Some
    &&& (job.stage == DownloadStage::FetchingAlbum || job.stage == DownloadStage::FetchingPlaylist
        || job.stage == DownloadStage::FetchingItems || job.stage
        == DownloadStage::FetchingYouTube) ==> job.next == 0
    &&& job.stage == DownloadStage::FetchingAlbum ==> job.kind == LinkType::Album
    &&& job.stage == DownloadStage::FetchingPlaylist ==> job.kind == LinkType::Playlist
    &&& job.stage == DownloadStage::FetchingItems ==> job.kind == LinkType::Playlist
    &&& job.stage == DownloadStage::FetchingYouTube ==> job.kind == LinkType::YouTubePlaylist
}

/// What a job in the state `job` makes of `outcome`, with the catalog of
/// fetched tracks being `db`.
pub open spec fn download_step(
    job: DownloadJobView,
    db: Seq<TrackView>,
    outcome: OutcomeView,
) -> DownloadStepView {
    match job.stage {
        DownloadStage::FetchingAlbum => match outcome {
            OutcomeView::AlbumFetched { album } => album_fetched(job, db, album),
            OutcomeView::Failed { reason } => lookup_failed(job, db, reason),
            _ => ended(job, db, Seq::empty(), None),
        },
        DownloadStage::FetchingPlaylist => match outcome {
            OutcomeView::PlaylistFetched { name } => playlist_fetched(job, db, name),
            OutcomeView::Failed { reason } => lookup_failed(job, db, reason),
            _ => ended(job, db, Seq::empty(), None),
        },
        DownloadStage::FetchingItems => match outcome {
            OutcomeView::ItemsFetched { items } => tracks_known(
                job,
                db,
                job.name,
                playlist_plans(items, job.music_path, actual_format(job), job.portable),
            ),
            OutcomeView::Failed { reason } => items_failed(job, db, reason),
            _ => ended(job, db, Seq::empty(), None),
        },
        DownloadStage::FetchingYouTube => match outcome {
            OutcomeView::YouTubeFetched { playlist } => tracks_known(
                job,
                db,
                playlist.title,
                youtube_plans(playlist, job.music_path, actual_format(job), job.portable),
            ),
            OutcomeView::Failed { reason } => lookup_failed(job, db, reason),
            OutcomeView::TaskFailed { reason } => lookup_task_failed(job, db, reason),
            _ => ended(job, db, Seq::empty(), None),
        },
        DownloadStage::Preparing => folder_ready(job, db, outcome is CoverPresent),
        DownloadStage::FetchingCover => match outcome {
            OutcomeView::CoverFailed { failure } => to_gate(
                job,
                db,
                Seq::empty().push(
                    DownloadEventView::LogLine { id: job.id, line: cover_failure_text(failure) },
                ),
                None,
            ),
            _ => to_gate(
                DownloadJobView { cover: Some(cover_dest(job)), ..job },
                db,
                Seq::empty(),
                None,
            ),
        },
        DownloadStage::AtGate => match outcome {
            OutcomeView::Resumed => at_gate(job, db),
            _ => ended(job, db, Seq::empty(), None),
        },
        DownloadStage::Downloading => match outcome {
            OutcomeView::Downloaded => downloaded(job, db),
            OutcomeView::Failed { reason } => track_failed(job, db, reason),
            OutcomeView::TaskFailed { reason } => track_failed(job, db, reason),
            _ => ended(job, db, Seq::empty(), None),
        },
        DownloadStage::Tagging => match outcome {
            OutcomeView::Tagged => track_done(job, db, Seq::empty()),
            OutcomeView::Failed { reason } => tagging_failed(job, db, reason),
            _ => ended(job, db, Seq::empty(), None),
        },
        DownloadStage::Writing => ended(
            job,
            db,
            Seq::empty().push(DownloadEventView::Complete { id: job.id, name: job.name }),
            None,
        ),
        DownloadStage::Done => ended(job, db, Seq::empty(), None),
    }
}

/// Whether the journal went from `before` to `after` by taking the record
/// `failure` (with an identifier and a moment of its own, on some date),
/// or by staying as it was where there is none.
pub open spec fn journal_followed(
    before: ErrorLogManager,
    after: ErrorLogManager,
    failure: Option<DownloadErrorView>,
) -> bool {
    &&& after.base() == before.base()
    &&& match failure {
        None => after@ == before@ && after.pending_ops() == before.pending_ops(),
        Some(f) => exists|date: Seq<char>, e: DownloadErrorView|
            records(e, f) && after@ == #[trigger] with_entry::<DownloadErrorEntry>(
                before@,
                date,
                e,
            ) && after.pending_ops() == before.pending_ops().push(
                StoreOpView::Write { date, kind: ErrorType::Download },
            ),
    }
}

/// Whether a step of a job in the state `job` puts a track into the
/// catalog of fetched tracks.
pub open spec fn stores_track(job: DownloadJobView, outcome: OutcomeView) -> bool {
    job.stage == DownloadStage::Tagging && outcome is Tagged
}

/// Whether the executable step `step` and job `job` are what `r` says.
pub open spec fn step_is(job: DownloadJobView, step: Step, r: DownloadStepView) -> bool {
    job == r.job && step.events.deep_view() == r.events && step.action@ == r.action
}

/// No events.
pub fn no_events() -> (events: Vec<DownloadEvent>)
    ensures
        events.deep_view() == Seq::<DownloadEventView>::empty(),
{
    let events: Vec<DownloadEvent> = Vec::new();
    assert(events.deep_view() =~= Seq::<DownloadEventView>::empty());
    events
}

/// Puts `event` behind `events`.
pub fn add_event(events: &mut Vec<DownloadEvent>, event: DownloadEvent)
    ensures
        final(events).deep_view() == old(events).deep_view().push(event@),
{
    let ghost before = events.deep_view();
    let ghost e = event@;
    events.push(event);
    assert(events.deep_view() =~= before.push(e));
}

/// A copy of an optional text.
pub fn copy_opt(text: &Option<String>) -> (copy: Option<String>)
    ensures
        copy.deep_view() == text.deep_view(),
{
    match text {
        Some(t) => Some(t.clone()),
        None => None,
    }
}

/// A copy of a list of texts with one more at its end.
fn push_text(texts: &mut Vec<String>, text: String)
    ensures
        final(texts).deep_view() == old(texts).deep_view().push(text@),
{
    let ghost before = texts.deep_view();
    let ghost t = text@;
    texts.push(text);
    assert(texts.deep_view() =~= before.push(t));
}

fn entry_for(plan: &TrackPlan) -> (entry: TrackEntry)
    ensures
        entry@ == entry_of(plan@),
{
    TrackEntry {
        artist: plan.artist.clone(),
        title: plan.title.clone(),
        path: plan.file_path.clone(),
    }
}

impl DownloadJob {
    /// A new job and its first step.
    pub fn new(
        id: usize,
        kind: LinkType,
        link: String,
        portable: bool,
        format: String,
        quality: String,
        music_path: &str,
        playlist_path: &str,
    ) -> (started: (DownloadJob, Step))
        ensures
            started.0@ == (DownloadJobView {
                id,
                kind,
                link: link@,
                portable,
                format: format@,
                quality: quality@,
                music_path: music_path@,
                playlist_path: playlist_path@,
                name: Seq::empty(),
                plans: Seq::empty(),
                genre: None,
                cover_url: None,
                folder: Seq::empty(),
                cover: None,
                next: 0,
                paths: Seq::empty(),
                stage: first_stage(kind),
            }),
            download_wf(started.0@),
            started.1.events.deep_view() == download_start(started.0@).0,
            started.1.action@ == download_start(started.0@).1,
    {
        let plans: Vec<Option<TrackPlan>> = Vec::new();
        let paths: Vec<String> = Vec::new();
        assert(plans.deep_view() =~= Seq::<Option<TrackPlanView>>::empty());
        assert(paths.deep_view() =~= Seq::<Seq<char>>::empty());
        let mut events = no_events();
        let (stage, action) = match kind {
            LinkType::Album => {
                add_event(
                    &mut events,
                    DownloadEvent::LogLine {
                        id,
                        line: String::from_str("Fetching album info from Spotify..."),
                    },
                );
                (DownloadStage::FetchingAlbum, Action::FetchAlbum { link: link.clone() })
            },
            LinkType::Playlist => {
                add_event(
                    &mut events,
                    DownloadEvent::LogLine {
                        id,
                        line: String::from_str("Fetching playlist info from Spotify..."),
                    },
                );
                (DownloadStage::FetchingPlaylist, Action::FetchPlaylist { link: link.clone() })
            },
            LinkType::YouTubePlaylist => {
                add_event(
                    &mut events,
                    DownloadEvent::LogLine { id, line: fetching_youtube(link.as_str()) },
                );
                (
                    DownloadStage::FetchingYouTube,
                    Action::FetchYouTubePlaylist { link: link.clone() },
                )
            },
        };
        let job = DownloadJob {
            id,
            kind,
            link,
            portable,
            format,
            quality,
            music_path: String::from_str(music_path),
            playlist_path: String::from_str(playlist_path),
            name: String::new(),
            plans,
            genre: None,
            cover_url: None,
            folder: String::new(),
            cover: None,
            next: 0,
            paths,
            stage,
        };
        (job, Step { events, action })
    }

    /// Whether the job can take `outcome` now.
    pub fn expects(&self, outcome: &Outcome) -> (fits: bool)
        ensures
            fits == download_expects(self@, outcome@),
    {
        proof {
            match outcome {
                Outcome::AlbumFetched { album } => {
                    assert(album@.tracks.len() == album.tracks.len());
                },
                Outcome::ItemsFetched { items } => {
                    assert(items.deep_view().len() == items.len());
                },
                Outcome::YouTubeFetched { playlist } => {
                    assert(playlist@.tracks.len() == playlist.tracks.len());
                },
                _ => {},
            }
        }
        match self.stage {
            DownloadStage::FetchingAlbum => matches!(
                outcome,
                Outcome::AlbumFetched { .. } | Outcome::Failed { .. }
            ),
            DownloadStage::FetchingPlaylist => matches!(
                outcome,
                Outcome::PlaylistFetched { .. } | Outcome::Failed { .. }
            ),
            DownloadStage::FetchingItems => matches!(
                outcome,
                Outcome::ItemsFetched { .. } | Outcome::Failed { .. }
            ),
            DownloadStage::FetchingYouTube => matches!(
                outcome,
                Outcome::YouTubeFetched { .. } | Outcome::Failed { .. } | Outcome::TaskFailed { .. }
            ),
            DownloadStage::Preparing => matches!(
                outcome,
                Outcome::CoverPresent | Outcome::CoverAbsent
            ),
            DownloadStage::FetchingCover => matches!(
                outcome,
                Outcome::CoverSaved | Outcome::CoverFailed { .. }
            ),
            DownloadStage::AtGate => matches!(outcome, Outcome::Resumed | Outcome::PauseClosed),
            DownloadStage::Downloading => matches!(
                outcome,
                Outcome::Downloaded | Outcome::Failed { .. } | Outcome::TaskFailed { .. }
            ),
            DownloadStage::Tagging => matches!(outcome, Outcome::Tagged | Outcome::Failed { .. }),
            DownloadStage::Writing => matches!(outcome, Outcome::Done | Outcome::Failed { .. }),
            DownloadStage::Done => false,
        }
    }

    /// Whether the job is over.
    pub fn is_done(&self) -> (done: bool)
        ensures
            done == (self@.stage == DownloadStage::Done),
    {
        match self.stage {
            DownloadStage::Done => true,
            _ => false,
        }
    }

    fn written_format(&self) -> (format: String)
        ensures
            format@ == actual_format(self@),
    {
        if self.portable {
            String::from_str("mp3")
        } else {
            self.format.clone()
        }
    }

    fn end(&mut self, events: Vec<DownloadEvent>) -> (step: Step)
        ensures
            forall|db: Seq<TrackView>, failure: Option<DownloadErrorView>|
                step_is(
                    final(self)@,
                    step,
                    #[trigger] ended(old(self)@, db, events.deep_view(), failure),
                ),
    {
        self.stage = DownloadStage::Done;
        Step { events, action: Action::Finish }
    }

    fn go_on(&mut self, events: Vec<DownloadEvent>) -> (step: Step)
        requires
            old(self).next <= old(self).plans.len(),
        ensures
            forall|db: Seq<TrackView>, failure: Option<DownloadErrorView>|
                step_is(
                    final(self)@,
                    step,
                    #[trigger] to_gate(old(self)@, db, events.deep_view(), failure),
                ),
            download_wf(final(self)@),
    {
        if self.next < self.plans.len() {
            let folder = match &self.plans[self.next] {
                Some(p) => Some(p.folder.clone()),
                None => None,
            };
            self.stage = DownloadStage::AtGate;
            Step { events, action: Action::AwaitTurn { folder } }
        } else {
            match self.kind {
                LinkType::Album => {
                    let mut events = events;
                    add_event(
                        &mut events,
                        DownloadEvent::Complete { id: self.id, name: self.name.clone() },
                    );
                    self.stage = DownloadStage::Done;
                    Step { events, action: Action::Finish }
                },
                _ => {
                    self.stage = DownloadStage::Writing;
                    Step {
                        events,
                        action: Action::WritePlaylist {
                            name: self.name.clone(),
                            paths: crate::sources::spotify::copy_names(&self.paths),
                            directory: self.playlist_path.clone(),
                        },
                    }
                },
            }
        }
    }

    /// Writes a failure of this job to the journal.
    fn record(
        &self,
        journal: &mut ErrorLogManager,
        format: String,
        artist: Option<String>,
        title: Option<String>,
        error: String,
    )
        ensures
            journal_followed(
                *old(journal),
                *final(journal),
                Some(
                    failure_of(self@, format@, artist.deep_view(), title.deep_view(), error@),
                ),
            ),
    {
        let ghost f = failure_of(self@, format@, artist.deep_view(), title.deep_view(), error@);
        let entry = DownloadErrorEntry::new(
            self.link.clone(),
            String::from_str(self.kind.as_str()),
            format,
            self.quality.clone(),
            self.portable,
            artist,
            title,
            error,
        );
        assert(records(entry@, f));
        journal.add_download_error(entry);
    }

    fn plans_for_album(&self, album: &Album, main_artist: &str, folder: &str) -> (plans: Vec<
        Option<TrackPlan>,
    >)
        ensures
            plans.deep_view() == album_plans(
                album@,
                main_artist@,
                folder@,
                actual_format(self@),
                self.portable,
            ),
    {
        let format = self.written_format();
        let mut plans: Vec<Option<TrackPlan>> = Vec::new();
        let mut i: usize = 0;
        while i < album.tracks.len()
            invariant
                i <= album.tracks.len(),
                plans.len() == i,
                format@ == actual_format(self@),
                forall|k: int|
                    0 <= k < i ==> (#[trigger] plans@[k]).deep_view() == Some(
                        album_plan(
                            album@.tracks[k],
                            k,
                            main_artist@,
                            album@.name,
                            folder@,
                            format@,
                            self.portable,
                        ),
                    ),
            decreases album.tracks.len() - i,
        {
            let track = &album.tracks[i];
            assert(album@.tracks[i as int] == track@);
            let artist = first_name_or(&track.artists, main_artist);
            let query = search_text(artist.as_str(), track.name.as_str());
            let plan = make_plan(
                artist,
                track.name.clone(),
                album.name.clone(),
                number_of(i + 1),
                query,
                String::from_str(folder),
                format.as_str(),
                self.portable,
            );
            plans.push(Some(plan));
            i += 1;
        }
        assert(plans.deep_view() =~= album_plans(
            album@,
            main_artist@,
            folder@,
            actual_format(self@),
            self.portable,
        ));
        plans
    }

    fn plans_for_items(&self, items: &Vec<PlaylistItem>) -> (plans: Vec<Option<TrackPlan>>)
        ensures
            plans.deep_view() == playlist_plans(
                items.deep_view(),
                self.music_path@,
                actual_format(self@),
                self.portable,
            ),
    {
        let format = self.written_format();
        let mut plans: Vec<Option<TrackPlan>> = Vec::new();
        let mut i: usize = 0;
        while i < items.len()
            invariant
                i <= items.len(),
                plans.len() == i,
                format@ == actual_format(self@),
                forall|k: int|
                    0 <= k < i ==> (#[trigger] plans@[k]).deep_view() == playlist_plan(
                        items.deep_view()[k],
                        self.music_path@,
                        format@,
                        self.portable,
                    ),
            decreases items.len() - i,
        {
            assert(items.deep_view()[i as int] == items@[i as int]@);
            let plan = match &items[i].track {
                Some(t) => {
                    let artist = first_name_or(&t.artists, "Unknown Artist");
                    let query = search_text(artist.as_str(), t.name.as_str());
                    let folder = folder_for(
                        self.music_path.as_str(),
                        artist.as_str(),
                        t.album.as_str(),
                        self.portable,
                    );
                    Some(
                        make_plan(
                            artist,
                            t.name.clone(),
                            t.album.clone(),
                            t.track_number,
                            query,
                            folder,
                            format.as_str(),
                            self.portable,
                        ),
                    )
                },
                None => None,
            };
            plans.push(plan);
            i += 1;
        }
        assert(plans.deep_view() =~= playlist_plans(
            items.deep_view(),
            self.music_path@,
            actual_format(self@),
            self.portable,
        ));
        plans
    }

    fn plans_for_youtube(&self, playlist: &YouTubePlaylist) -> (plans: Vec<Option<TrackPlan>>)
        ensures
            plans.deep_view() == youtube_plans(
                playlist@,
                self.music_path@,
                actual_format(self@),
                self.portable,
            ),
    {
        let format = self.written_format();
        let mut plans: Vec<Option<TrackPlan>> = Vec::new();
        let mut i: usize = 0;
        while i < playlist.tracks.len()
            invariant
                i <= playlist.tracks.len(),
                plans.len() == i,
                format@ == actual_format(self@),
                forall|k: int|
                    0 <= k < i ==> (#[trigger] plans@[k]).deep_view() == Some(
                        youtube_plan(
                            playlist@.tracks[k],
                            k,
                            playlist@.title,
                            self.music_path@,
                            format@,
                            self.portable,
                        ),
                    ),
            decreases playlist.tracks.len() - i,
        {
            let track = &playlist.tracks[i];
            assert(playlist@.tracks[i as int] == track@);
            let folder = folder_for(
                self.music_path.as_str(),
                track.artist.as_str(),
                playlist.title.as_str(),
                self.portable,
            );
            let plan = make_plan(
                track.artist.clone(),
                track.title.clone(),
                playlist.title.clone(),
                number_of(i + 1),
                track.url.clone(),
                folder,
                format.as_str(),
                self.portable,
            );
            plans.push(Some(plan));
            i += 1;
        }
        assert(plans.deep_view() =~= youtube_plans(
            playlist@,
            self.music_path@,
            actual_format(self@),
            self.portable,
        ));
        plans
    }
}

impl DownloadJob {
    /// Takes what came of the work that the last step asked for, and makes
    /// the next step: it changes the job, the catalog of fetched tracks
    /// and the journal, and gives the events to send and the work to do.
    pub fn step(
        &mut self,
        db: &mut DownloadDB,
        journal: &mut ErrorLogManager,
        outcome: Outcome,
    ) -> (step: Step)
        requires
            download_wf(old(self)@),
            download_expects(old(self)@, outcome@),
        ensures
            step_is(final(self)@, step, download_step(old(self)@, old(db)@, outcome@)),
            final(db)@ == download_step(old(self)@, old(db)@, outcome@).db,
            final(db).location() == old(db).location(),
            final(db).is_unsaved() == (old(db).is_unsaved() || stores_track(
                old(self)@,
                outcome@,
            )),
            journal_followed(
                *old(journal),
                *final(journal),
                download_step(old(self)@, old(db)@, outcome@).failure,
            ),
            download_wf(final(self)@),
    {
        match self.stage {
            DownloadStage::FetchingAlbum => match outcome {
                Outcome::AlbumFetched { album } => self.on_album(&album),
                Outcome::Failed { reason } => self.on_lookup_failure(journal, reason.as_str()),
                _ => self.end(no_events()),
            },
            DownloadStage::FetchingPlaylist => match outcome {
                Outcome::PlaylistFetched { name } => self.on_playlist(name),
                Outcome::Failed { reason } => self.on_lookup_failure(journal, reason.as_str()),
                _ => self.end(no_events()),
            },
            DownloadStage::FetchingItems => match outcome {
                Outcome::ItemsFetched { items } => {
                    let plans = self.plans_for_items(&items);
                    let name = self.name.clone();
                    self.on_tracks(name, plans)
                },
                Outcome::Failed { reason } => self.on_items_failure(journal, reason.as_str()),
                _ => self.end(no_events()),
            },
            DownloadStage::FetchingYouTube => match outcome {
                Outcome::YouTubeFetched { playlist } => {
                    let plans = self.plans_for_youtube(&playlist);
                    self.on_tracks(playlist.title, plans)
                },
                Outcome::Failed { reason } => self.on_lookup_failure(journal, reason.as_str()),
                Outcome::TaskFailed { reason } => self.on_task_failure(journal, reason.as_str()),
                _ => self.end(no_events()),
            },
            DownloadStage::Preparing => {
                let present = matches!(outcome, Outcome::CoverPresent);
                self.on_folder(present)
            },
            DownloadStage::FetchingCover => match outcome {
                Outcome::CoverFailed { failure } => {
                    let mut events = no_events();
                    add_event(
                        &mut events,
                        DownloadEvent::LogLine { id: self.id, line: cover_failure_line(&failure) },
                    );
                    self.go_on(events)
                },
                _ => {
                    self.cover = Some(join(self.folder.as_str(), "cover.jpg"));
                    self.go_on(no_events())
                },
            },
            DownloadStage::AtGate => match outcome {
                Outcome::Resumed => self.on_turn(db),
                _ => self.end(no_events()),
            },
            DownloadStage::Downloading => match outcome {
                Outcome::Downloaded => self.on_downloaded(),
                Outcome::Failed { reason } => self.on_track_failure(journal, reason),
                Outcome::TaskFailed { reason } => self.on_track_failure(journal, reason),
                _ => self.end(no_events()),
            },
            DownloadStage::Tagging => match outcome {
                Outcome::Tagged => self.on_track_done(db, no_events()),
                Outcome::Failed { reason } => {
                    self.on_track_failure(journal, tagging_failure(reason.as_str()))
                },
                _ => self.end(no_events()),
            },
            DownloadStage::Writing => {
                let mut events = no_events();
                add_event(
                    &mut events,
                    DownloadEvent::Complete { id: self.id, name: self.name.clone() },
                );
                self.end(events)
            },
            DownloadStage::Done => self.end(no_events()),
        }
    }

    fn on_album(&mut self, album: &Album) -> (step: Step)
        requires
            old(self).stage == DownloadStage::FetchingAlbum,
            download_wf(old(self)@),
        ensures
            forall|db: Seq<TrackView>|
                step_is(final(self)@, step, #[trigger] album_fetched(old(self)@, db, album@)),
            download_wf(final(self)@),
    {
        let main_artist = first_name_or(&album.artists, "Unknown Artist");
        let name = display_name(main_artist.as_str(), album.name.as_str());
        let folder = folder_for(
            self.music_path.as_str(),
            main_artist.as_str(),
            album.name.as_str(),
            self.portable,
        );
        let total = album.tracks.len();
        let format = self.written_format();
        let plans = self.plans_for_album(album, main_artist.as_str(), folder.as_str());
        let mut events = no_events();
        add_event(&mut events, DownloadEvent::MetadataFetched { id: self.id, name: name.clone() });
        add_event(
            &mut events,
            DownloadEvent::LogLine {
                id: self.id,
                line: found_album(
                    main_artist.as_str(),
                    album.name.as_str(),
                    total,
                    format.as_str(),
                    self.quality.as_str(),
                ),
            },
        );
        add_event(
            &mut events,
            DownloadEvent::Started { id: self.id, name: name.clone(), total_tracks: total },
        );
        let cover = match &album.cover_url {
            Some(_) => Some(join(folder.as_str(), "cover.jpg")),
            None => None,
        };
        let action = Action::PrepareFolder { folder: folder.clone(), cover };
        self.name = name;
        self.plans = plans;
        self.next = 0;
        self.genre = copy_opt(&album.genre);
        self.cover_url = copy_opt(&album.cover_url);
        self.folder = folder;
        self.stage = DownloadStage::Preparing;
        Step { events, action }
    }

    fn on_lookup_failure(&mut self, journal: &mut ErrorLogManager, reason: &str) -> (step: Step)
        ensures
            forall|db: Seq<TrackView>|
                step_is(final(self)@, step, #[trigger] lookup_failed(old(self)@, db, reason@)),
            journal_followed(
                *old(journal),
                *final(journal),
                lookup_failed(old(self)@, Seq::empty(), reason@).failure,
            ),
            forall|db: Seq<TrackView>|
                (#[trigger] lookup_failed(old(self)@, db, reason@)).failure == lookup_failed(
                    old(self)@,
                    Seq::empty(),
                    reason@,
                ).failure,
            final(self)@.stage == DownloadStage::Done,
    {
        let mut events = no_events();
        match self.kind {
            LinkType::Album => {
                let shown = format_error_with_hint(reason, "album");
                self.record(
                    journal,
                    self.format.clone(),
                    None,
                    None,
                    album_failure(shown.as_str()),
                );
                add_event(
                    &mut events,
                    DownloadEvent::Error {
                        id: self.id,
                        error: album_failure_shown(self.link.as_str(), shown.as_str()),
                    },
                );
            },
            LinkType::Playlist => {
                let shown = format_error_with_hint(reason, "playlist");
                self.record(
                    journal,
                    self.format.clone(),
                    None,
                    None,
                    playlist_failure(shown.as_str()),
                );
                add_event(
                    &mut events,
                    DownloadEvent::Error {
                        id: self.id,
                        error: playlist_failure_shown(self.link.as_str(), shown.as_str()),
                    },
                );
            },
            LinkType::YouTubePlaylist => {
                let shown = youtube_failure(reason);
                self.record(journal, self.written_format(), None, None, shown.clone());
                add_event(&mut events, DownloadEvent::Error { id: self.id, error: shown });
            },
        }
        self.end(events)
    }

    fn on_playlist(&mut self, name: String) -> (step: Step)
        requires
            old(self).stage == DownloadStage::FetchingPlaylist,
            download_wf(old(self)@),
        ensures
            forall|db: Seq<TrackView>|
                step_is(final(self)@, step, #[trigger] playlist_fetched(old(self)@, db, name@)),
            download_wf(final(self)@),
    {
        let mut events = no_events();
        add_event(&mut events, DownloadEvent::MetadataFetched { id: self.id, name: name.clone() });
        add_event(
            &mut events,
            DownloadEvent::LogLine { id: self.id, line: fetching_tracks(name.as_str()) },
        );
        self.name = name;
        self.stage = DownloadStage::FetchingItems;
        Step { events, action: Action::FetchPlaylistItems { link: self.link.clone() } }
    }

    fn on_tracks(&mut self, name: String, plans: Vec<Option<TrackPlan>>) -> (step: Step)
        ensures
            forall|db: Seq<TrackView>|
                step_is(
                    final(self)@,
                    step,
                    #[trigger] tracks_known(old(self)@, db, name@, plans.deep_view()),
                ),
            download_wf(final(self)@),
    {
        let format = self.written_format();
        let mut events = no_events();
        add_event(
            &mut events,
            DownloadEvent::LogLine {
                id: self.id,
                line: found_playlist(
                    name.as_str(),
                    plans.len(),
                    format.as_str(),
                    self.quality.as_str(),
                ),
            },
        );
        add_event(
            &mut events,
            DownloadEvent::Started { id: self.id, name: name.clone(), total_tracks: plans.len() },
        );
        self.name = name;
        self.plans = plans;
        self.next = 0;
        self.go_on(events)
    }

    fn on_task_failure(&mut self, journal: &mut ErrorLogManager, reason: &str) -> (step: Step)
        ensures
            forall|db: Seq<TrackView>|
                step_is(
                    final(self)@,
                    step,
                    #[trigger] lookup_task_failed(old(self)@, db, reason@),
                ),
            journal_followed(
                *old(journal),
                *final(journal),
                lookup_task_failed(old(self)@, Seq::empty(), reason@).failure,
            ),
            final(self)@.stage == DownloadStage::Done,
    {
        self.record(journal, self.written_format(), None, None, task_failure(reason));
        let mut events = no_events();
        add_event(&mut events, DownloadEvent::Error { id: self.id, error: task_failure(reason) });
        self.end(events)
    }

    fn on_items_failure(&mut self, journal: &mut ErrorLogManager, reason: &str) -> (step: Step)
        ensures
            forall|db: Seq<TrackView>|
                step_is(final(self)@, step, #[trigger] items_failed(old(self)@, db, reason@)),
            journal_followed(
                *old(journal),
                *final(journal),
                items_failed(old(self)@, Seq::empty(), reason@).failure,
            ),
            final(self)@.stage == DownloadStage::Done,
    {
        self.record(journal, self.format.clone(), None, None, items_failure(reason));
        let mut events = no_events();
        add_event(
            &mut events,
            DownloadEvent::Error {
                id: self.id,
                error: items_failure_shown(self.name.as_str(), reason),
            },
        );
        self.end(events)
    }

    fn on_folder(&mut self, cover_present: bool) -> (step: Step)
        requires
            download_wf(old(self)@),
        ensures
            forall|db: Seq<TrackView>|
                step_is(
                    final(self)@,
                    step,
                    #[trigger] folder_ready(old(self)@, db, cover_present),
                ),
            download_wf(final(self)@),
    {
        let dest = join(self.folder.as_str(), "cover.jpg");
        let url = copy_opt(&self.cover_url);
        match url {
            Some(url) => {
                if cover_present {
                    self.cover = Some(dest);
                    self.go_on(no_events())
                } else {
                    let mut events = no_events();
                    add_event(
                        &mut events,
                        DownloadEvent::LogLine {
                            id: self.id,
                            line: String::from_str("Downloading cover art..."),
                        },
                    );
                    self.stage = DownloadStage::FetchingCover;
                    Step { events, action: Action::FetchCover { url, dest } }
                }
            },
            None => self.go_on(no_events()),
        }
    }

    fn on_turn(&mut self, db: &DownloadDB) -> (step: Step)
        requires
            download_wf(old(self)@),
            old(self).stage == DownloadStage::AtGate,
        ensures
            step_is(final(self)@, step, at_gate(old(self)@, db@)),
            at_gate(old(self)@, db@).db == db@,
            at_gate(old(self)@, db@).failure is None,
            download_wf(final(self)@),
    {
        let format = self.written_format();
        assert(self.plans.deep_view().len() == self.plans.len());
        assert(self.plans.deep_view()[self.next as int] == self.plans@[self.next as int].deep_view());
        let (entry, artist, title, query, file_path) = match &self.plans[self.next] {
            None => {
                self.next = self.next + 1;
                return self.go_on(no_events());
            },
            Some(p) => (
                entry_for(p),
                p.artist.clone(),
                p.title.clone(),
                p.query.clone(),
                p.file_path.clone(),
            ),
        };
        if db.contains(&entry) {
            let mut events = no_events();
            add_event(&mut events, DownloadEvent::TrackSkipped { id: self.id, artist, title });
            match self.kind {
                LinkType::Playlist => {
                    push_text(&mut self.paths, file_path);
                },
                _ => {},
            }
            self.next = self.next + 1;
            self.go_on(events)
        } else {
            let mut events = no_events();
            match self.kind {
                LinkType::YouTubePlaylist => {
                    add_event(
                        &mut events,
                        DownloadEvent::LogLine {
                            id: self.id,
                            line: downloading(
                                self.next + 1,
                                self.plans.len(),
                                artist.as_str(),
                                title.as_str(),
                            ),
                        },
                    );
                },
                _ => {},
            }
            add_event(
                &mut events,
                DownloadEvent::TrackStarted {
                    id: self.id,
                    artist,
                    title,
                    track_num: self.next + 1,
                },
            );
            self.stage = DownloadStage::Downloading;
            Step {
                events,
                action: Action::Download {
                    query,
                    file_path,
                    format,
                    quality: self.quality.clone(),
                },
            }
        }
    }

    fn on_downloaded(&mut self) -> (step: Step)
        requires
            download_wf(old(self)@),
            old(self).stage == DownloadStage::Downloading,
        ensures
            forall|db: Seq<TrackView>|
                step_is(final(self)@, step, #[trigger] downloaded(old(self)@, db)),
            download_wf(final(self)@),
    {
        assert(self.plans.deep_view().len() == self.plans.len());
        assert(self.plans.deep_view()[self.next as int] == self.plans@[self.next as int].deep_view());
        let action = match &self.plans[self.next] {
            Some(p) => Action::Tag {
                path: p.file_path.clone(),
                artist: p.artist.clone(),
                album: p.album.clone(),
                title: p.title.clone(),
                track: p.track_number,
                genre: copy_opt(&self.genre),
                cover: copy_opt(&self.cover),
                portable: self.portable,
            },
            None => Action::Finish,
        };
        self.stage = DownloadStage::Tagging;
        Step { events: no_events(), action }
    }

    fn on_track_failure(&mut self, journal: &mut ErrorLogManager, error: String) -> (step: Step)
        requires
            download_wf(old(self)@),
            old(self).stage == DownloadStage::Downloading || old(self).stage
                == DownloadStage::Tagging,
        ensures
            forall|db: Seq<TrackView>|
                step_is(final(self)@, step, #[trigger] track_failed(old(self)@, db, error@)),
            journal_followed(
                *old(journal),
                *final(journal),
                track_failed(old(self)@, Seq::empty(), error@).failure,
            ),
            download_wf(final(self)@),
    {
        assert(self.plans.deep_view().len() == self.plans.len());
        assert(self.plans.deep_view()[self.next as int] == self.plans@[self.next as int].deep_view());
        let (artist, title) = match &self.plans[self.next] {
            Some(p) => (p.artist.clone(), p.title.clone()),
            None => (String::new(), String::new()),
        };
        self.record(
            journal,
            self.written_format(),
            Some(artist.clone()),
            Some(title.clone()),
            error.clone(),
        );
        let mut events = no_events();
        add_event(&mut events, DownloadEvent::TrackFailed { id: self.id, artist, title, error });
        self.next = self.next + 1;
        self.go_on(events)
    }

    fn on_track_done(&mut self, db: &mut DownloadDB, events: Vec<DownloadEvent>) -> (step: Step)
        requires
            download_wf(old(self)@),
            old(self).stage == DownloadStage::Tagging,
        ensures
            step_is(
                final(self)@,
                step,
                track_done(old(self)@, old(db)@, events.deep_view()),
            ),
            final(db)@ == track_done(old(self)@, old(db)@, events.deep_view()).db,
            track_done(old(self)@, old(db)@, events.deep_view()).failure is None,
            final(db).location() == old(db).location(),
            final(db).is_unsaved(),
            download_wf(final(self)@),
    {
        assert(self.plans.deep_view().len() == self.plans.len());
        assert(self.plans.deep_view()[self.next as int] == self.plans@[self.next as int].deep_view());
        let (entry, artist, title, path) = match &self.plans[self.next] {
            Some(p) => (entry_for(p), p.artist.clone(), p.title.clone(), p.file_path.clone()),
            None => (
                TrackEntry { artist: String::new(), title: String::new(), path: String::new() },
                String::new(),
                String::new(),
                String::new(),
            ),
        };
        db.add(entry);
        match self.kind {
            LinkType::Album => {},
            _ => {
                push_text(&mut self.paths, path.clone());
            },
        }
        let mut events = events;
        add_event(&mut events, DownloadEvent::TrackComplete { id: self.id, artist, title, path });
        self.next = self.next + 1;
        self.go_on(events)
    }
}

} // verus!
