//! What the user asks the worker for: the methods of the interface that
//! make requests, and those that clean the catalog of fetched tracks.

use crate::db::{distinct, kept, missing_count, DownloadDB, TrackEntry, TrackView};
use crate::tui::app::{
    format_option, format_options, lines_of, quality_option, quality_options, App,
    CleanupPreview,
    JobStatus, JobStatusView, LinkType, QueueItem, QueueItemView, Screen, FORMAT_COUNT,
    QUALITY_COUNT,
};
use crate::tui::app_messages::{
    added_to_queue, added_to_queue_text, cleanup_done, cleanup_done_text, cleanup_log,
    cleanup_log_text, converting_many, converting_many_text, converting_one,
    converting_one_text, library_refreshed_text, missing_found, missing_found_text,
    refreshing_many, refreshing_many_text, refreshing_one, refreshing_one_text,
};
use crate::tui::navigation::library_of;
use crate::tui::reducer::{push_log, scrolled, with_line};
use crate::tui::worker::{
    ConvertTrackInfo, ConvertTrackInfoView, DownloadRequest, DownloadRequestView,
};
use vstd::prelude::*;
use vstd::string::StringExecFns;

verus! {

/// The format at `index` of the choice; the last one for an index beyond.
pub open spec fn format_at(index: usize) -> Seq<char> {
    if index < FORMAT_COUNT {
        format_options()[index as int]
    } else {
        "aac"@
    }
}

/// The quality at `index` of the choice; the last one for an index beyond.
pub open spec fn quality_at(index: usize) -> Seq<char> {
    if index < QUALITY_COUNT {
        quality_options()[index as int]
    } else {
        "low"@
    }
}

/// The name of a queue entry whose lookup has not answered yet.
pub open spec fn placeholder_name(kind: LinkType) -> Seq<char> {
    match kind {
        LinkType::Album => "Fetching album..."@,
        LinkType::Playlist => "Fetching playlist..."@,
        LinkType::YouTubePlaylist => "Fetching YouTube playlist..."@,
    }
}

/// The queue entry of a job that waits for its lookup.
pub open spec fn waiting_item(id: usize, name: Seq<char>) -> QueueItemView {
    QueueItemView {
        id,
        name,
        status: JobStatusView::Fetching,
        current_track: None,
        progress: (0, 0),
    }
}

/// The request to fetch what `link` names.
pub open spec fn download_request(
    kind: LinkType,
    id: usize,
    link: Seq<char>,
    portable: bool,
    format: Seq<char>,
    quality: Seq<char>,
) -> DownloadRequestView {
    match kind {
        LinkType::Album => DownloadRequestView::Album { id, link, portable, format, quality },
        LinkType::Playlist => DownloadRequestView::Playlist { id, link, portable, format, quality },
        LinkType::YouTubePlaylist => DownloadRequestView::YouTubePlaylist {
            id,
            link,
            portable,
            format,
            quality,
        },
    }
}

/// The tracks of the library as files to convert or to refresh.
pub open spec fn as_tracks(library: Seq<TrackView>) -> Seq<ConvertTrackInfoView> {
    Seq::new(
        library.len(),
        |i: int|
            ConvertTrackInfoView {
                input_path: library[i].path,
                artist: library[i].artist,
                title: library[i].title,
            },
    )
}

/// Adds an entry to the queue.
pub fn enqueue(queue: &mut Vec<QueueItem>, id: usize, name: String)
    ensures
        final(queue).deep_view() == old(queue).deep_view().push(waiting_item(id, name@)),
{
    let ghost before = queue.deep_view();
    let item = QueueItem {
        id,
        name,
        status: JobStatus::Fetching,
        current_track: None,
        progress: (0, 0),
    };
    let ghost iv = item@;
    queue.push(item);
    assert(queue.deep_view() =~= before.push(iv));
}

/// Makes the request to fetch what `link` names.
pub fn make_download_request(
    kind: LinkType,
    id: usize,
    link: String,
    portable: bool,
    format: String,
    quality: String,
) -> (request: DownloadRequest)
    ensures
        request@ == download_request(kind, id, link@, portable, format@, quality@),
{
    match kind {
        LinkType::Album => DownloadRequest::Album { id, link, portable, format, quality },
        LinkType::Playlist => DownloadRequest::Playlist { id, link, portable, format, quality },
        LinkType::YouTubePlaylist => DownloadRequest::YouTubePlaylist {
            id,
            link,
            portable,
            format,
            quality,
        },
    }
}

/// The tracks of the library as files to convert or to refresh.
pub fn tracks_of_library(library: &Vec<TrackEntry>) -> (tracks: Vec<ConvertTrackInfo>)
    ensures
        tracks.deep_view() == as_tracks(library.deep_view()),
{
    let mut tracks: Vec<ConvertTrackInfo> = Vec::new();
    let mut i: usize = 0;
    while i < library.len()
        invariant
            i <= library.len(),
            tracks.len() == i,
            forall|k: int|
                0 <= k < i ==> (#[trigger] tracks@[k])@ == (ConvertTrackInfoView {
                    input_path: library@[k]@.path,
                    artist: library@[k]@.artist,
                    title: library@[k]@.title,
                }),
        decreases library.len() - i,
    {
        let t = &library[i];
        tracks.push(
            ConvertTrackInfo {
                input_path: t.path.clone(),
                artist: t.artist.clone(),
                title: t.title.clone(),
            },
        );
        i += 1;
    }
    assert(tracks.deep_view() =~= as_tracks(library.deep_view()));
    tracks
}

/// How many of `outcomes` are true.
pub open spec fn count_true(outcomes: Seq<bool>) -> nat
    decreases outcomes.len(),
{
    if outcomes.len() == 0 {
        0
    } else {
        count_true(outcomes.drop_last()) + if outcomes.last() {
            1nat
        } else {
            0nat
        }
    }
}

impl App {
    /// Puts the link whose settings were chosen into the queue, and gives
    /// the request for the worker. A portable job asks for MP3 whatever
    /// format was chosen.
    pub fn submit_settings(&mut self) -> (request: Option<DownloadRequest>)
        requires
            old(self).next_id < usize::MAX,
        ensures
            old(self).pending_link is None ==> request is None && *final(self) == (App {
                view: Screen::Main,
                status_message: final(self).status_message,
                ..*old(self)
            }) && final(self).status_message@ == "No link pending"@,
            old(self).pending_link is Some ==> ({
                let id = (old(self).next_id + 1) as usize;
                let format = if old(self).portable_mode {
                    "mp3"@
                } else {
                    format_at(old(self).selected_format)
                };
                let quality = quality_at(old(self).selected_quality);
                &&& request.deep_view() == Some(
                    download_request(
                        old(self).link_type,
                        id,
                        old(self).pending_link->0@,
                        old(self).portable_mode,
                        format,
                        quality,
                    ),
                )
                &&& *final(self) == (App {
                    view: Screen::Queue,
                    next_id: id,
                    pending_link: None,
                    queue: final(self).queue,
                    status_message: final(self).status_message,
                    ..*old(self)
                })
                &&& final(self).queue.deep_view() == old(self).queue.deep_view().push(
                    waiting_item(id, placeholder_name(old(self).link_type)),
                )
                &&& final(self).status_message@ == added_to_queue_text(format, quality)
            }),
    {
        let link = match self.pending_link.take() {
            Some(l) => l,
            None => {
                self.view = Screen::Main;
                self.status_message = String::from_str("No link pending");
                return None;
            },
        };
        self.view = Screen::Queue;
        self.next_id = self.next_id + 1;
        let id = self.next_id;
        let format = if self.portable_mode {
            String::from_str("mp3")
        } else {
            String::from_str(format_option(self.selected_format))
        };
        let quality = String::from_str(quality_option(self.selected_quality));
        let name = match self.link_type {
            LinkType::Album => String::from_str("Fetching album..."),
            LinkType::Playlist => String::from_str("Fetching playlist..."),
            LinkType::YouTubePlaylist => String::from_str("Fetching YouTube playlist..."),
        };
        enqueue(&mut self.queue, id, name);
        self.status_message = added_to_queue(format.as_str(), quality.as_str());
        Some(
            make_download_request(self.link_type, id, link, self.portable_mode, format, quality),
        )
    }

    /// Gives the request for the conversion whose settings were chosen:
    /// of every track of the library, or of the selected one. Nothing is
    /// asked for where no conversion was being set up, or no track is
    /// selected.
    pub fn submit_convert(&mut self) -> (request: Option<DownloadRequest>)
        requires
            old(self).next_id < usize::MAX,
        ensures
            ({
                let id = (old(self).next_id + 1) as usize;
                let format = format_at(old(self).convert_target_format);
                let quality = quality_at(old(self).convert_quality);
                let library = old(self).library.deep_view();
                if old(self).convert_pending is None || (!old(self).convert_all_mode && old(
                    self,
                ).library_selected >= library.len()) {
                    &&& request is None
                    &&& *final(self) == (App {
                        view: Screen::Library,
                        convert_pending: None,
                        status_message: final(self).status_message,
                        ..*old(self)
                    })
                    &&& final(self).status_message@ == "No conversion pending"@
                } else if old(self).convert_all_mode {
                    &&& request.deep_view() == Some(
                        DownloadRequestView::ConvertBatch {
                            id,
                            tracks: as_tracks(library),
                            target_format: format,
                            quality,
                            refresh_metadata: old(self).convert_refresh_metadata,
                        },
                    )
                    &&& *final(self) == (App {
                        view: Screen::Logs,
                        convert_pending: None,
                        convert_all_mode: false,
                        next_id: id,
                        status_message: final(self).status_message,
                        ..*old(self)
                    })
                    &&& final(self).status_message@ == converting_many_text(
                        library.len(),
                        format,
                        quality,
                    )
                } else {
                    let selected = library[old(self).library_selected as int];
                    &&& request.deep_view() == Some(
                        DownloadRequestView::Convert {
                            id,
                            input_path: selected.path,
                            target_format: format,
                            quality,
                            refresh_metadata: old(self).convert_refresh_metadata,
                            artist: selected.artist,
                            title: selected.title,
                        },
                    )
                    &&& *final(self) == (App {
                        view: Screen::Logs,
                        convert_pending: None,
                        next_id: id,
                        status_message: final(self).status_message,
                        ..*old(self)
                    })
                    &&& final(self).status_message@ == converting_one_text(format, quality)
                }
            }),
    {
        assert(self.library.deep_view().len() == self.library.len());
        if self.convert_pending.is_none() || (!self.convert_all_mode && self.library_selected
            >= self.library.len()) {
            self.convert_pending = None;
            self.view = Screen::Library;
            self.status_message = String::from_str("No conversion pending");
            return None;
        }
        self.convert_pending = None;
        self.view = Screen::Logs;
        let format = String::from_str(format_option(self.convert_target_format));
        let quality = String::from_str(quality_option(self.convert_quality));
        let refresh_metadata = self.convert_refresh_metadata;
        self.next_id = self.next_id + 1;
        let id = self.next_id;
        if self.convert_all_mode {
            let tracks = tracks_of_library(&self.library);
            self.convert_all_mode = false;
            self.status_message = converting_many(
                tracks.len(),
                format.as_str(),
                quality.as_str(),
            );
            assert(tracks.deep_view().len() == tracks.len());
            Some(
                DownloadRequest::ConvertBatch {
                    id,
                    tracks,
                    target_format: format,
                    quality,
                    refresh_metadata,
                },
            )
        } else {
            let selected = &self.library[self.library_selected];
            assert(self.library.deep_view()[self.library_selected as int] == selected@);
            let request = DownloadRequest::Convert {
                id,
                input_path: selected.path.clone(),
                target_format: format.clone(),
                quality: quality.clone(),
                refresh_metadata,
                artist: selected.artist.clone(),
                title: selected.title.clone(),
            };
            self.status_message = converting_one(format.as_str(), quality.as_str());
            Some(request)
        }
    }

    /// Gives the request to fetch the metadata of the selected track of
    /// the library again.
    pub fn start_refresh_metadata(&mut self) -> (request: Option<DownloadRequest>)
        requires
            old(self).next_id < usize::MAX,
        ensures
            ({
                let library = old(self).library.deep_view();
                if library.len() == 0 {
                    &&& request is None
                    &&& *final(self) == (App {
                        status_message: final(self).status_message,
                        ..*old(self)
                    })
                    &&& final(self).status_message@ == "Library is empty, nothing to refresh"@
                } else if old(self).library_selected >= library.len() {
                    request is None && *final(self) == *old(self)
                } else {
                    let selected = library[old(self).library_selected as int];
                    let id = (old(self).next_id + 1) as usize;
                    &&& request.deep_view() == Some(
                        DownloadRequestView::RefreshMetadata {
                            id,
                            input_path: selected.path,
                            artist: selected.artist,
                            title: selected.title,
                        },
                    )
                    &&& *final(self) == (App {
                        view: Screen::Logs,
                        next_id: id,
                        status_message: final(self).status_message,
                        ..*old(self)
                    })
                    &&& final(self).status_message@ == refreshing_one_text(
                        selected.artist,
                        selected.title,
                    )
                }
            }),
    {
        assert(self.library.deep_view().len() == self.library.len());
        if self.library.len() == 0 {
            self.status_message = String::from_str("Library is empty, nothing to refresh");
            return None;
        }
        if self.library_selected >= self.library.len() {
            return None;
        }
        let selected = &self.library[self.library_selected];
        assert(self.library.deep_view()[self.library_selected as int] == selected@);
        let id = self.next_id + 1;
        let request = DownloadRequest::RefreshMetadata {
            id,
            input_path: selected.path.clone(),
            artist: selected.artist.clone(),
            title: selected.title.clone(),
        };
        let status = refreshing_one(selected.artist.as_str(), selected.title.as_str());
        self.next_id = id;
        self.view = Screen::Logs;
        self.status_message = status;
        Some(request)
    }

    /// Gives the request to fetch the metadata of every track of the
    /// library again.
    pub fn start_refresh_all_metadata(&mut self) -> (request: Option<DownloadRequest>)
        requires
            old(self).next_id < usize::MAX,
        ensures
            ({
                let library = old(self).library.deep_view();
                if library.len() == 0 {
                    &&& request is None
                    &&& *final(self) == (App {
                        status_message: final(self).status_message,
                        ..*old(self)
                    })
                    &&& final(self).status_message@ == "Library is empty, nothing to refresh"@
                } else {
                    let id = (old(self).next_id + 1) as usize;
                    &&& request.deep_view() == Some(
                        DownloadRequestView::RefreshMetadataBatch { id, tracks: as_tracks(library) },
                    )
                    &&& *final(self) == (App {
                        view: Screen::Logs,
                        next_id: id,
                        status_message: final(self).status_message,
                        ..*old(self)
                    })
                    &&& final(self).status_message@ == refreshing_many_text(library.len())
                }
            }),
    {
        assert(self.library.deep_view().len() == self.library.len());
        if self.library.len() == 0 {
            self.status_message = String::from_str("Library is empty, nothing to refresh");
            return None;
        }
        let id = self.next_id + 1;
        let tracks = tracks_of_library(&self.library);
        assert(tracks.deep_view().len() == tracks.len());
        self.next_id = id;
        self.view = Screen::Logs;
        self.status_message = refreshing_many(tracks.len());
        Some(DownloadRequest::RefreshMetadataBatch { id, tracks })
    }

    /// The user decided about the originals of the files that a job
    /// converted, and whatever was to be deleted is deleted: the question
    /// goes, and the library is read again from the stored catalog, whose
    /// records are `stored`.
    pub fn close_batch_delete(&mut self, stored: Vec<TrackEntry>)
        ensures
            *final(self) == (App {
                view: Screen::Library,
                convert_batch_delete_pending: None,
                db: final(self).db,
                library: final(self).library,
                status_message: final(self).status_message,
                ..*old(self)
            }),
            final(self).db@ == distinct(stored.deep_view()),
            final(self).db.location() == old(self).db.location(),
            !final(self).db.is_unsaved(),
            final(self).library.deep_view() == distinct(stored.deep_view()),
            final(self).status_message@ == library_refreshed_text(
                distinct(stored.deep_view()).len(),
            ),
    {
        self.convert_batch_delete_pending = None;
        self.view = Screen::Library;
        self.refresh_library(stored);
    }

    /// The user wanted the originals of all converted files deleted.
    pub fn confirm_batch_delete_originals(&mut self, stored: Vec<TrackEntry>)
        ensures
            *final(self) == (App {
                view: Screen::Library,
                convert_batch_delete_pending: None,
                db: final(self).db,
                library: final(self).library,
                status_message: final(self).status_message,
                ..*old(self)
            }),
            final(self).db@ == distinct(stored.deep_view()),
            final(self).db.location() == old(self).db.location(),
            !final(self).db.is_unsaved(),
            final(self).library.deep_view() == distinct(stored.deep_view()),
            final(self).status_message@ == library_refreshed_text(
                distinct(stored.deep_view()).len(),
            ),
    {
        self.close_batch_delete(stored);
    }

    /// The user wanted the originals of all converted files kept.
    pub fn cancel_batch_delete_originals(&mut self, stored: Vec<TrackEntry>)
        ensures
            *final(self) == (App {
                view: Screen::Library,
                convert_batch_delete_pending: None,
                db: final(self).db,
                library: final(self).library,
                status_message: final(self).status_message,
                ..*old(self)
            }),
            final(self).db@ == distinct(stored.deep_view()),
            final(self).db.location() == old(self).db.location(),
            !final(self).db.is_unsaved(),
            final(self).library.deep_view() == distinct(stored.deep_view()),
            final(self).status_message@ == library_refreshed_text(
                distinct(stored.deep_view()).len(),
            ),
    {
        self.close_batch_delete(stored);
    }

    /// Shows what a clean-up of the catalog would remove: `present[i]`
    /// says whether the file of the record at index `i` exists.
    pub fn preview_cleanup(&mut self, present: &Vec<bool>)
        ensures
            *final(self) == (App {
                view: Screen::CleanupConfirm,
                cleanup_preview: Some(
                    CleanupPreview {
                        missing_count: missing_count(present@, old(self).db@.len()) as usize,
                        total_count: old(self).db@.len() as usize,
                    },
                ),
                status_message: final(self).status_message,
                ..*old(self)
            }),
            final(self).status_message@ == if missing_count(present@, old(self).db@.len()) == 0 {
                "Database is clean! All entries point to existing files."@
            } else {
                missing_found_text(missing_count(present@, old(self).db@.len()))
            },
    {
        let total = self.db.len();
        let mut missing: usize = 0;
        let mut i: usize = 0;
        while i < total
            invariant
                i <= total,
                missing == missing_count(present@, i as nat),
                missing <= i,
            decreases total - i,
        {
            if i < present.len() && !present[i] {
                missing += 1;
            }
            i += 1;
        }
        self.cleanup_preview = Some(CleanupPreview { missing_count: missing, total_count: total });
        self.view = Screen::CleanupConfirm;
        self.status_message = if missing == 0 {
            String::from_str("Database is clean! All entries point to existing files.")
        } else {
            missing_found(missing)
        };
    }

    /// Start the clean-up of the catalog: shows what it would remove.
    /// Which files are missing is asked of the disk; the state is the one
    /// that `preview_cleanup` gives for some answers.
    pub fn start_cleanup_database(&mut self)
        ensures
            exists|present: Seq<bool>|
                #![trigger missing_count(present, old(self).db@.len())]
                {
                    &&& *final(self) == (App {
                        view: Screen::CleanupConfirm,
                        cleanup_preview: Some(
                            CleanupPreview {
                                missing_count: missing_count(present, old(self).db@.len()) as usize,
                                total_count: old(self).db@.len() as usize,
                            },
                        ),
                        status_message: final(self).status_message,
                        ..*old(self)
                    })
                    &&& final(self).status_message@ == if missing_count(
                        present,
                        old(self).db@.len(),
                    ) == 0 {
                        "Database is clean! All entries point to existing files."@
                    } else {
                        missing_found_text(missing_count(present, old(self).db@.len()))
                    }
                },
    {
        let present = self.db.probe_files();
        self.preview_cleanup(&present);
    }
}

/// The selection in a list of `count` places: it stays where it is unless
/// it points beyond the last place.
pub open spec fn clamped(selected: usize, count: nat) -> usize {
    if selected >= count && count > 0 {
        (count - 1) as usize
    } else {
        selected
    }
}

impl App {
    /// Cleans the catalog: every record whose file is reported missing
    /// goes; `present[i]` says whether the file of the record at index `i`
    /// exists. The library shows what is left.
    #[verifier::rlimit(100)]
    pub fn confirm_cleanup_with(&mut self, present: &Vec<bool>)
        ensures
            ({
                let before = old(self).db@;
                let after = kept(before, present@);
                let removed = missing_count(present@, before.len());
                &&& final(self).db@ == after
                &&& final(self).db.location() == old(self).db.location()
                &&& final(self).db.is_unsaved() == (removed > 0 || old(self).db.is_unsaved())
                &&& final(self).library.deep_view() == after
                &&& final(self).library_selected == clamped(old(self).library_selected, after.len())
                &&& final(self).cleanup_preview is None
                &&& final(self).view == Screen::Library
                &&& final(self).status_message@ == cleanup_done_text(
                    removed,
                    before.len(),
                    after.len(),
                )
                &&& lines_of(final(self).download_logs@) == with_line(
                    lines_of(old(self).download_logs@),
                    cleanup_log_text(removed, after.len()),
                )
                &&& final(self).log_scroll == scrolled(
                    old(self).log_scroll,
                    old(self).log_auto_scroll,
                    lines_of(final(self).download_logs@).len(),
                )
                &&& *final(self) == (App {
                    db: final(self).db,
                    library: final(self).library,
                    library_selected: final(self).library_selected,
                    cleanup_preview: None,
                    view: Screen::Library,
                    status_message: final(self).status_message,
                    download_logs: final(self).download_logs,
                    log_scroll: final(self).log_scroll,
                    ..*old(self)
                })
            }),
    {
        let (removed, total_before) = self.db.retain_present(present);
        let remaining = total_before - removed;
        self.library = library_of(&self.db);
        assert(self.library.deep_view().len() == self.library.len());
        if self.library_selected >= self.library.len() && self.library.len() > 0 {
            self.library_selected = self.library.len() - 1;
        }
        self.cleanup_preview = None;
        self.view = Screen::Library;
        self.status_message = cleanup_done(removed, total_before, remaining);
        push_log(
            &mut self.download_logs,
            &mut self.log_scroll,
            self.log_auto_scroll,
            cleanup_log(removed, remaining),
        );
    }

    /// Confirm and execute the clean-up of the catalog. Which files are
    /// missing is asked of the disk; what is left is what
    /// `confirm_cleanup_with` leaves for some answers.
    pub fn confirm_cleanup(&mut self)
        ensures
            exists|present: Seq<bool>|
                #![trigger kept(old(self).db@, present)]
                {
                    let before = old(self).db@;
                    let after = kept(before, present);
                    let removed = missing_count(present, before.len());
                    &&& final(self).db@ == after
                    &&& final(self).library.deep_view() == after
                    &&& final(self).status_message@ == cleanup_done_text(
                        removed,
                        before.len(),
                        after.len(),
                    )
                    &&& final(self).db.is_unsaved() == (removed > 0 || old(self).db.is_unsaved())
                },
            final(self).db.location() == old(self).db.location(),
            final(self).cleanup_preview is None,
            final(self).view == Screen::Library,
            *final(self) == (App {
                db: final(self).db,
                library: final(self).library,
                library_selected: final(self).library_selected,
                cleanup_preview: None,
                view: Screen::Library,
                status_message: final(self).status_message,
                download_logs: final(self).download_logs,
                log_scroll: final(self).log_scroll,
                ..*old(self)
            }),
    {
        let present = self.db.probe_files();
        self.confirm_cleanup_with(&present);
    }
}

} // verus!
