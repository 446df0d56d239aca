//! The journal in the interface: the window onto it, and the retry of a
//! failure that it lists.
//!
//! A failure that is tried again stays in the journal until the job that
//! tries it is over. Then the retry is settled: a retry that succeeded
//! takes its record out of the journal, a retry that failed moves the
//! counter of its record up.

use crate::db::{DownloadDB, TrackEntry};
use crate::error_log::clock::Timestamp;
use crate::error_log::entries::{ConvertErrorView, DownloadErrorView, RefreshErrorView};
use crate::error_log::ErrorLogManager;
use crate::paths::file_exists;
use crate::text::{chars_of, string_of_range, text_eq};
use crate::tui::app::{
    lines_of, App, ErrorTab, LinkType, QueueItemView, RetryTicket, RetryTicketView, Screen,
    SettingsField,
};
use crate::tui::app_messages::{
    retry_label, retry_label_text, retry_link_label, retry_link_label_text, retrying,
    retrying_conversion, retrying_conversion_text, retrying_refresh, retrying_refresh_text,
    retrying_text, source_gone, source_gone_text, track_label, track_label_text,
    unknown_link_type, unknown_link_type_text,
};
use crate::tui::download_job::copy_opt;
use crate::tui::error_view::{summary_of, ErrorWindow};
use crate::tui::navigation::library_of;
use crate::tui::requests::{download_request, enqueue, make_download_request, waiting_item};
use crate::tui::worker::{DownloadRequest, DownloadRequestView};
use std::collections::VecDeque;
use vstd::prelude::*;
use vstd::string::StringExecFns;

verus! {

/// The kind of link that the journal keeps under `name`.
pub open spec fn link_type_named(name: Seq<char>) -> Option<LinkType> {
    if name == "album"@ {
        Some(LinkType::Album)
    } else if name == "playlist"@ {
        Some(LinkType::Playlist)
    } else if name == "youtube_playlist"@ {
        Some(LinkType::YouTubePlaylist)
    } else {
        None
    }
}

pub fn link_type_of(name: &str) -> (kind: Option<LinkType>)
    ensures
        kind == link_type_named(name@),
{
    if text_eq(name, "album") {
        Some(LinkType::Album)
    } else if text_eq(name, "playlist") {
        Some(LinkType::Playlist)
    } else if text_eq(name, "youtube_playlist") {
        Some(LinkType::YouTubePlaylist)
    } else {
        None
    }
}

/// The first 40 characters of `link`.
pub open spec fn link_head(link: Seq<char>) -> Seq<char> {
    if link.len() > 40 {
        link.take(40)
    } else {
        link
    }
}

/// The name under which the retry of a failed download stands in the
/// queue.
pub open spec fn retry_name(e: DownloadErrorView) -> Seq<char> {
    if e.artist is Some && e.title is Some {
        retry_label_text(e.artist->0, e.title->0)
    } else {
        retry_link_label_text(link_head(e.link))
    }
}

fn name_of_retry(artist: &Option<String>, title: &Option<String>, link: &str) -> (name: String)
    ensures
        name@ == if artist is Some && title is Some {
            retry_label_text(artist->0@, title->0@)
        } else {
            retry_link_label_text(link_head(link@))
        },
{
    match (artist, title) {
        (Some(a), Some(t)) => retry_label(a.as_str(), t.as_str()),
        _ => {
            let l = chars_of(link);
            let end = if l.len() > 40 {
                40
            } else {
                l.len()
            };
            let head = string_of_range(&l, 0, end);
            assert(l@.subrange(0, end as int) =~= link_head(link@));
            retry_link_label(head.as_str())
        },
    }
}

/// Adds a ticket to the tickets.
fn add_ticket(retries: &mut Vec<RetryTicket>, ticket: RetryTicket)
    ensures
        final(retries).deep_view() == old(retries).deep_view().push(ticket@),
{
    let ghost before = retries.deep_view();
    let ghost t = ticket@;
    retries.push(ticket);
    assert(retries.deep_view() =~= before.push(t));
}

/// What a retry of the selected record comes to.
pub enum RetryPlan {
    /// Nothing is tried again; the status line says why.
    Refused { status: Seq<char> },
    /// A job is made: the request, the name of its queue entry if it gets
    /// one, the ticket, the screen to show and the status line.
    Begun {
        request: DownloadRequestView,
        queued: Option<Seq<char>>,
        ticket: RetryTicketView,
        screen: Screen,
        status: Seq<char>,
    },
}

/// The ticket of a retry by the job `id`.
pub open spec fn ticket_of(
    id: usize,
    tab: ErrorTab,
    date: Seq<char>,
    entry_id: Seq<char>,
    artist: Option<Seq<char>>,
    title: Option<Seq<char>>,
) -> RetryTicketView {
    RetryTicketView { job_id: id, tab, date, entry_id, artist, title, failed: false }
}

/// What a retry of the selected record of `window` comes to, for a job
/// with the identifier `id`. `source_exists` says whether the file of a
/// conversion or refresh is still there.
pub open spec fn retry_plan(window: ErrorWindow, id: usize, source_exists: bool) -> RetryPlan {
    match window.selected_date() {
        None => RetryPlan::Refused { status: "No errors to retry"@ },
        Some(date) => match window.error_tab {
            ErrorTab::Download => if window.error_selected >= window.download_errors@.len() {
                RetryPlan::Refused { status: "No download error selected"@ }
            } else {
                let e = window.download_errors.deep_view()[window.error_selected as int];
                match link_type_named(e.link_type) {
                    None => RetryPlan::Refused { status: unknown_link_type_text(e.link_type) },
                    Some(kind) => RetryPlan::Begun {
                        request: download_request(
                            kind,
                            id,
                            e.link,
                            e.portable,
                            e.format,
                            e.quality,
                        ),
                        queued: Some(retry_name(e)),
                        ticket: ticket_of(id, ErrorTab::Download, date, e.id, e.artist, e.title),
                        screen: Screen::Queue,
                        status: retrying_text(retry_name(e)),
                    },
                }
            },
            ErrorTab::Convert => if window.error_selected >= window.convert_errors@.len() {
                RetryPlan::Refused { status: "No convert error selected"@ }
            } else {
                let e = window.convert_errors.deep_view()[window.error_selected as int];
                if !source_exists {
                    RetryPlan::Refused { status: source_gone_text(e.input_path) }
                } else {
                    RetryPlan::Begun {
                        request: DownloadRequestView::Convert {
                            id,
                            input_path: e.input_path,
                            target_format: e.target_format,
                            quality: e.quality,
                            refresh_metadata: e.refresh_metadata,
                            artist: e.artist,
                            title: e.title,
                        },
                        queued: None,
                        ticket: ticket_of(
                            id,
                            ErrorTab::Convert,
                            date,
                            e.id,
                            Some(e.artist),
                            Some(e.title),
                        ),
                        screen: Screen::Logs,
                        status: retrying_conversion_text(track_label_text(e.artist, e.title)),
                    }
                }
            },
            ErrorTab::Refresh => if window.error_selected >= window.refresh_errors@.len() {
                RetryPlan::Refused { status: "No refresh error selected"@ }
            } else {
                let e = window.refresh_errors.deep_view()[window.error_selected as int];
                if !source_exists {
                    RetryPlan::Refused { status: source_gone_text(e.input_path) }
                } else {
                    RetryPlan::Begun {
                        request: DownloadRequestView::RefreshMetadata {
                            id,
                            input_path: e.input_path,
                            artist: e.artist,
                            title: e.title,
                        },
                        queued: None,
                        ticket: ticket_of(
                            id,
                            ErrorTab::Refresh,
                            date,
                            e.id,
                            Some(e.artist),
                            Some(e.title),
                        ),
                        screen: Screen::Logs,
                        status: retrying_refresh_text(track_label_text(e.artist, e.title)),
                    }
                }
            },
        },
    }
}

/// A retry as executable values.
pub struct Retry {
    pub request: DownloadRequest,
    pub queued: Option<String>,
    pub ticket: RetryTicket,
    pub screen: Screen,
    pub status: String,
}

impl ErrorWindow {
    /// Plans the retry of the selected record for a job with the
    /// identifier `id`.
    pub fn plan_retry(&self, id: usize, source_exists: bool) -> (plan: Result<Retry, String>)
        ensures
            match plan {
                Ok(r) => retry_plan(*self, id, source_exists) == (RetryPlan::Begun {
                    request: r.request@,
                    queued: r.queued.deep_view(),
                    ticket: r.ticket@,
                    screen: r.screen,
                    status: r.status@,
                }),
                Err(status) => retry_plan(*self, id, source_exists) == (RetryPlan::Refused {
                    status: status@,
                }),
            },
    {
        let date = match self.selected_date_text() {
            Some(d) => d,
            None => {
                return Err(String::from_str("No errors to retry"));
            },
        };
        match self.error_tab {
            ErrorTab::Download => {
                if self.error_selected >= self.download_errors.len() {
                    return Err(String::from_str("No download error selected"));
                }
                let e = &self.download_errors[self.error_selected];
                assert(self.download_errors.deep_view()[self.error_selected as int] == e@);
                let kind = match link_type_of(e.link_type.as_str()) {
                    Some(k) => k,
                    None => {
                        return Err(unknown_link_type(e.link_type.as_str()));
                    },
                };
                let name = name_of_retry(&e.artist, &e.title, e.link.as_str());
                Ok(
                    Retry {
                        request: make_download_request(
                            kind,
                            id,
                            e.link.clone(),
                            e.portable,
                            e.format.clone(),
                            e.quality.clone(),
                        ),
                        status: retrying(name.as_str()),
                        queued: Some(name),
                        ticket: RetryTicket {
                            job_id: id,
                            tab: ErrorTab::Download,
                            date,
                            entry_id: e.id.clone(),
                            artist: copy_opt(&e.artist),
                            title: copy_opt(&e.title),
                            failed: false,
                        },
                        screen: Screen::Queue,
                    },
                )
            },
            ErrorTab::Convert => {
                if self.error_selected >= self.convert_errors.len() {
                    return Err(String::from_str("No convert error selected"));
                }
                let e = &self.convert_errors[self.error_selected];
                assert(self.convert_errors.deep_view()[self.error_selected as int] == e@);
                if !source_exists {
                    return Err(source_gone(e.input_path.as_str()));
                }
                let name = track_label(e.artist.as_str(), e.title.as_str());
                Ok(
                    Retry {
                        request: DownloadRequest::Convert {
                            id,
                            input_path: e.input_path.clone(),
                            target_format: e.target_format.clone(),
                            quality: e.quality.clone(),
                            refresh_metadata: e.refresh_metadata,
                            artist: e.artist.clone(),
                            title: e.title.clone(),
                        },
                        queued: None,
                        ticket: RetryTicket {
                            job_id: id,
                            tab: ErrorTab::Convert,
                            date,
                            entry_id: e.id.clone(),
                            artist: Some(e.artist.clone()),
                            title: Some(e.title.clone()),
                            failed: false,
                        },
                        screen: Screen::Logs,
                        status: retrying_conversion(name.as_str()),
                    },
                )
            },
            ErrorTab::Refresh => {
                if self.error_selected >= self.refresh_errors.len() {
                    return Err(String::from_str("No refresh error selected"));
                }
                let e = &self.refresh_errors[self.error_selected];
                assert(self.refresh_errors.deep_view()[self.error_selected as int] == e@);
                if !source_exists {
                    return Err(source_gone(e.input_path.as_str()));
                }
                let name = track_label(e.artist.as_str(), e.title.as_str());
                Ok(
                    Retry {
                        request: DownloadRequest::RefreshMetadata {
                            id,
                            input_path: e.input_path.clone(),
                            artist: e.artist.clone(),
                            title: e.title.clone(),
                        },
                        queued: None,
                        ticket: RetryTicket {
                            job_id: id,
                            tab: ErrorTab::Refresh,
                            date,
                            entry_id: e.id.clone(),
                            artist: Some(e.artist.clone()),
                            title: Some(e.title.clone()),
                            failed: false,
                        },
                        screen: Screen::Logs,
                        status: retrying_refresh(name.as_str()),
                    },
                )
            },
        }
    }

    /// The path of the file that a retry of the selected record needs:
    /// the input of the selected conversion or refresh. A download needs
    /// no file, and neither does a selection that names no record.
    pub open spec fn source_path(&self) -> Option<Seq<char>> {
        match self.error_tab {
            ErrorTab::Download => None,
            ErrorTab::Convert => if self.error_selected < self.convert_errors@.len() {
                Some(self.convert_errors.deep_view()[self.error_selected as int].input_path)
            } else {
                None
            },
            ErrorTab::Refresh => if self.error_selected < self.refresh_errors@.len() {
                Some(self.refresh_errors.deep_view()[self.error_selected as int].input_path)
            } else {
                None
            },
        }
    }

    /// The path of the file that a retry of the selected record needs, if
    /// it needs one.
    pub fn source_file(&self) -> (path: Option<String>)
        ensures
            path.deep_view() == self.source_path(),
    {
        match self.error_tab {
            ErrorTab::Download => None,
            ErrorTab::Convert => if self.error_selected < self.convert_errors.len() {
                assert(self.convert_errors.deep_view()[self.error_selected as int]
                    == self.convert_errors@[self.error_selected as int]@);
                Some(self.convert_errors[self.error_selected].input_path.clone())
            } else {
                None
            },
            ErrorTab::Refresh => if self.error_selected < self.refresh_errors.len() {
                assert(self.refresh_errors.deep_view()[self.error_selected as int]
                    == self.refresh_errors@[self.error_selected as int]@);
                Some(self.refresh_errors[self.error_selected].input_path.clone())
            } else {
                None
            },
        }
    }

    /// Whether the file that a retry of the selected record needs is still
    /// there, as the disk says now: the disk is asked about the path that
    /// `source_file` gives. Where the retry needs no file the answer is
    /// yes, and the disk is not asked.
    pub fn probe_source(&self) -> (there: bool)
        ensures
            self.source_path() is None ==> there,
    {
        match self.source_file() {
            Some(path) => file_exists(path.as_str()),
            None => true,
        }
    }
}

impl App {
    /// The state in which the interface starts: with the main screen, the
    /// library as the catalog `db` lists it, and the dates of the journal.
    pub fn new(music_path: &str, playlist_path: &str, db: DownloadDB, error_log: ErrorLogManager) -> (app:
        App)
        ensures
            app.running,
            app.view == Screen::Main,
            app.input@ == Seq::<char>::empty(),
            !app.input_mode,
            app.link_type == LinkType::Album,
            !app.portable_mode,
            app.queue@.len() == 0,
            app.queue_selected == 0,
            app.library.deep_view() == db@,
            app.library_selected == 0,
            app.status_message@
                == "Welcome! Press 'a' for album, 'p' for playlist, 'P' for portable mode"@,
            app.db == db,
            app.music_path@ == music_path@,
            app.playlist_path@ == playlist_path@,
            app.next_id == 0,
            app.pending_link is None,
            app.selected_format == 0,
            app.selected_quality == 0,
            app.settings_field == SettingsField::Format,
            app.download_logs@.len() == 0,
            app.log_scroll == 0,
            app.log_auto_scroll,
            !app.paused,
            !app.m3u_generating,
            app.m3u_pending is None,
            app.convert_pending is None,
            app.convert_target_format == 0,
            app.convert_quality == 0,
            app.convert_refresh_metadata,
            app.convert_delete_pending is None,
            !app.convert_all_mode,
            app.convert_batch_delete_pending is None,
            app.cleanup_preview is None,
            app.errors.error_log == error_log,
            app.errors.error_dates.deep_view() == crate::error_log::journal::dates_listed(
                error_log@,
            ),
            app.retries@.len() == 0,
    {
        let library = library_of(&db);
        App {
            running: true,
            view: Screen::Main,
            input: String::new(),
            input_mode: false,
            link_type: LinkType::Album,
            portable_mode: false,
            queue: Vec::new(),
            queue_selected: 0,
            library,
            library_selected: 0,
            status_message: String::from_str(
                "Welcome! Press 'a' for album, 'p' for playlist, 'P' for portable mode",
            ),
            db,
            music_path: String::from_str(music_path),
            playlist_path: String::from_str(playlist_path),
            next_id: 0,
            pending_link: None,
            selected_format: 0,
            selected_quality: 0,
            settings_field: SettingsField::Format,
            download_logs: VecDeque::new(),
            log_scroll: 0,
            log_auto_scroll: true,
            paused: false,
            m3u_generating: false,
            m3u_pending: None,
            convert_pending: None,
            convert_target_format: 0,
            convert_quality: 0,
            convert_refresh_metadata: true,
            convert_delete_pending: None,
            convert_all_mode: false,
            convert_batch_delete_pending: None,
            cleanup_preview: None,
            errors: ErrorWindow::new(error_log),
            retries: Vec::new(),
        }
    }

    /// Show the window onto the journal.
    pub fn show_error_log(&mut self)
        ensures
            *final(self) == (App {
                errors: final(self).errors,
                view: Screen::ErrorLog,
                status_message: final(self).status_message,
                ..*old(self)
            }),
            ErrorWindow::opened(old(self).errors, final(self).errors),
            final(self).status_message@ == summary_of(old(self).errors.error_log@),
    {
        self.status_message = self.errors.open();
        self.view = Screen::ErrorLog;
    }

    /// Delete the selected record from the journal.
    pub fn delete_selected_error(&mut self)
        ensures
            *final(self) == (App {
                errors: final(self).errors,
                status_message: final(self).status_message,
                ..*old(self)
            }),
            ErrorWindow::deleted(old(self).errors, final(self).errors),
            old(self).errors.can_delete() ==> final(self).status_message@ == "Error deleted."@,
            !old(self).errors.can_delete() ==> final(self).status_message == old(
                self,
            ).status_message,
    {
        if self.errors.delete_selected_error() {
            self.status_message = String::from_str("Error deleted.");
        }
    }

    /// Reads the journal window again and says so in the status line.
    pub fn refresh_error_logs(&mut self)
        ensures
            *final(self) == (App {
                errors: final(self).errors,
                status_message: final(self).status_message,
                ..*old(self)
            }),
            ErrorWindow::refreshed(old(self).errors, final(self).errors),
            final(self).status_message@ == "Error logs refreshed"@,
    {
        self.errors.refresh_error_logs();
        self.status_message = String::from_str("Error logs refreshed");
    }

    /// Clear all records of the selected date.
    pub fn clear_current_date_errors(&mut self)
        ensures
            *final(self) == (App {
                errors: final(self).errors,
                status_message: final(self).status_message,
                ..*old(self)
            }),
            ErrorWindow::date_cleared(old(self).errors, final(self).errors),
            match old(self).errors.selected_date() {
                Some(date) => final(self).status_message@
                    == crate::tui::app_messages::cleared_date_text(date),
                None => final(self).status_message == old(self).status_message,
            },
    {
        match self.errors.clear_current_date_errors() {
            Some(status) => {
                self.status_message = status;
            },
            None => {},
        }
    }

    /// Tries the selected record of the journal window again: gives the
    /// request for the worker, and keeps a ticket by which the retry is
    /// settled when the job is over. `source_exists` says whether the file
    /// of a conversion or refresh is still there.
    pub fn retry_selected_error_with(&mut self, source_exists: bool) -> (request: Option<
        DownloadRequest,
    >)
        requires
            old(self).next_id < usize::MAX,
        ensures
            match retry_plan(old(self).errors, (old(self).next_id + 1) as usize, source_exists) {
                RetryPlan::Refused { status } => {
                    &&& request is None
                    &&& *final(self) == (App {
                        status_message: final(self).status_message,
                        ..*old(self)
                    })
                    &&& final(self).status_message@ == status
                },
                RetryPlan::Begun { request: wanted, queued, ticket, screen, status } => {
                    &&& request.deep_view() == Some(wanted)
                    &&& *final(self) == (App {
                        next_id: (old(self).next_id + 1) as usize,
                        queue: final(self).queue,
                        retries: final(self).retries,
                        view: screen,
                        status_message: final(self).status_message,
                        ..*old(self)
                    })
                    &&& final(self).queue.deep_view() == match queued {
                        Some(name) => old(self).queue.deep_view().push(
                            waiting_item((old(self).next_id + 1) as usize, name),
                        ),
                        None => old(self).queue.deep_view(),
                    }
                    &&& final(self).retries.deep_view() == old(self).retries.deep_view().push(
                        ticket,
                    )
                    &&& final(self).status_message@ == status
                },
            },
    {
        let id = self.next_id + 1;
        match self.errors.plan_retry(id, source_exists) {
            Err(status) => {
                self.status_message = status;
                None
            },
            Ok(retry) => {
                self.next_id = id;
                match retry.queued {
                    Some(name) => {
                        enqueue(&mut self.queue, id, name);
                    },
                    None => {},
                }
                add_ticket(&mut self.retries, retry.ticket);
                self.view = retry.screen;
                self.status_message = retry.status;
                Some(retry.request)
            },
        }
    }

    /// Tries the selected record of the journal window again. Whether the
    /// file of a conversion or refresh is still there is asked of the
    /// disk, about the path that `ErrorWindow::source_file` gives; the
    /// result is what `retry_selected_error_with` gives for one of the two
    /// answers.
    pub fn retry_selected_error(&mut self) -> (request: Option<DownloadRequest>)
        requires
            old(self).next_id < usize::MAX,
        ensures
            exists|source_exists: bool|
                match #[trigger] retry_plan(
                    old(self).errors,
                    (old(self).next_id + 1) as usize,
                    source_exists,
                ) {
                    RetryPlan::Refused { status } => {
                        &&& request is None
                        &&& *final(self) == (App {
                            status_message: final(self).status_message,
                            ..*old(self)
                        })
                        &&& final(self).status_message@ == status
                    },
                    RetryPlan::Begun { request: wanted, queued, ticket, screen, status } => {
                        &&& request.deep_view() == Some(wanted)
                        &&& *final(self) == (App {
                            next_id: (old(self).next_id + 1) as usize,
                            queue: final(self).queue,
                            retries: final(self).retries,
                            view: screen,
                            status_message: final(self).status_message,
                            ..*old(self)
                        })
                        &&& final(self).queue.deep_view() == match queued {
                            Some(name) => old(self).queue.deep_view().push(
                                waiting_item((old(self).next_id + 1) as usize, name),
                            ),
                            None => old(self).queue.deep_view(),
                        }
                        &&& final(self).retries.deep_view() == old(self).retries.deep_view().push(
                            ticket,
                        )
                        &&& final(self).status_message@ == status
                    },
                },
    {
        let source_exists = self.errors.probe_source();
        self.retry_selected_error_with(source_exists)
    }

    /// Settles the retry of `ticket` at the moment `at`, which is the
    /// moment of the failure where the retry failed.
    pub fn settle_at(&mut self, ticket: &RetryTicket, succeeded: bool, at: Timestamp)
        ensures
            *final(self) == (App { errors: final(self).errors, ..*old(self) }),
            ErrorWindow::settled(
                old(self).errors,
                final(self).errors,
                ticket.tab,
                ticket.date@,
                ticket.entry_id@,
                succeeded,
                at,
            ),
    {
        self.errors.settle_at(
            ticket.tab,
            ticket.date.as_str(),
            ticket.entry_id.as_str(),
            succeeded,
            at,
        );
    }

    /// Settles the retry of `ticket` now.
    pub fn settle(&mut self, ticket: &RetryTicket, succeeded: bool)
        ensures
            *final(self) == (App { errors: final(self).errors, ..*old(self) }),
            exists|at: Timestamp|
                #[trigger] ErrorWindow::settled(
                    old(self).errors,
                    final(self).errors,
                    ticket.tab,
                    ticket.date@,
                    ticket.entry_id@,
                    succeeded,
                    at,
                ),
    {
        self.errors.settle(
            ticket.tab,
            ticket.date.as_str(),
            ticket.entry_id.as_str(),
            succeeded,
        );
    }
}

} // verus!
