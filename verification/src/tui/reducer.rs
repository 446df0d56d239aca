//! How events from the worker change the state of the interface.

use crate::db::{distinct, TrackEntry, TrackView};
use crate::tui::app_messages::library_refreshed_text;
use crate::tui::navigation::copy_entries;
use crate::tui::app::{
    lines_of, App, Board, ConvertDeletePending, ConvertDeletePendingView, ErrorTab, JobStatus,
    JobStatusView, M3UPending, M3UPendingView, QueueItem, QueueItemView, RetryTicket,
    RetryTicketView, Screen, LOG_LIMIT,
};
use crate::tui::app_messages::{
    batch_converted_log, batch_converted_log_text, batch_converted_status,
    batch_converted_status_text, batch_refreshed_log, batch_refreshed_log_text,
    batch_refreshed_status, batch_refreshed_status_text, complete_log, complete_log_text,
    complete_status, complete_status_text, convert_failed_log, convert_failed_log_text,
    convert_failed_status, convert_failed_status_text, converted_log, converted_log_text,
    converted_status, converted_status_text, converting_log, converting_log_text,
    converting_status, converting_status_text, delete_originals_question,
    delete_originals_question_text, downloading_log, downloading_log_text, downloading_status,
    downloading_status_text, error_log, error_log_text, error_status, error_status_text,
    failed_log, failed_log_text, failed_status, failed_status_text, fetching_name,
    fetching_name_text, finished_log, finished_log_text, finished_status, finished_status_text,
    plain_log, plain_log_text, refresh_failed_log, refresh_failed_log_text,
    refresh_failed_status, refresh_failed_status_text, refreshed_log, refreshed_log_text,
    refreshed_status, refreshed_status_text, refreshing_log, refreshing_log_text,
    refreshing_status, refreshing_status_text, skipped_log, skipped_log_text, skipped_status,
    skipped_status_text, started_log, started_log_text, track_label, track_label_text,
};
use crate::tui::download_job::copy_opt;
use crate::tui::worker::{DownloadEvent, DownloadEventView};
use crate::text::text_eq;
use std::collections::VecDeque;
use vstd::prelude::*;
use vstd::string::StringExecFns;

verus! {

/// One more, as far as a machine word holds it.
pub open spec fn one_more(n: usize) -> usize {
    if n < usize::MAX {
        (n + 1) as usize
    } else {
        n
    }
}

/// The job whose queue entry `event` changes, if it changes one.
pub open spec fn queue_job(event: DownloadEventView) -> Option<usize> {
    match event {
        DownloadEventView::MetadataFetched { id, .. } => Some(id),
        DownloadEventView::Started { id, .. } => Some(id),
        DownloadEventView::TrackStarted { id, .. } => Some(id),
        DownloadEventView::TrackComplete { id, .. } => Some(id),
        DownloadEventView::TrackSkipped { id, .. } => Some(id),
        DownloadEventView::TrackFailed { id, .. } => Some(id),
        DownloadEventView::Complete { id, .. } => Some(id),
        DownloadEventView::Error { id, .. } => Some(id),
        _ => None,
    }
}

/// The queue entry `item` after `event` of its job.
pub open spec fn item_after(item: QueueItemView, event: DownloadEventView) -> QueueItemView {
    match event {
        DownloadEventView::MetadataFetched { name, .. } => QueueItemView {
            name: fetching_name_text(name),
            ..item
        },
        DownloadEventView::Started { name, total_tracks, .. } => QueueItemView {
            name,
            status: JobStatusView::Downloading,
            progress: (0, total_tracks),
            ..item
        },
        DownloadEventView::TrackStarted { artist, title, .. } => QueueItemView {
            current_track: Some(track_label_text(artist, title)),
            ..item
        },
        DownloadEventView::TrackComplete { .. } => QueueItemView {
            progress: (one_more(item.progress.0), item.progress.1),
            current_track: None,
            ..item
        },
        DownloadEventView::TrackSkipped { .. } => QueueItemView {
            progress: (one_more(item.progress.0), item.progress.1),
            ..item
        },
        DownloadEventView::TrackFailed { .. } => QueueItemView {
            progress: (one_more(item.progress.0), item.progress.1),
            ..item
        },
        DownloadEventView::Complete { .. } => QueueItemView {
            status: JobStatusView::Complete,
            current_track: None,
            ..item
        },
        DownloadEventView::Error { error, .. } => QueueItemView {
            status: JobStatusView::Failed(error),
            ..item
        },
        _ => item,
    }
}

/// The index of the first queue entry of the job `id`, or -1.
pub open spec fn find_job(queue: Seq<QueueItemView>, id: usize) -> int
    decreases queue.len(),
{
    if queue.len() == 0 {
        -1
    } else if queue[0].id == id {
        0
    } else {
        let later = find_job(queue.drop_first(), id);
        if later < 0 {
            -1
        } else {
            later + 1
        }
    }
}

/// The queue after `event`: the first entry of its job changes, where
/// there is one.
pub open spec fn queue_after(queue: Seq<QueueItemView>, event: DownloadEventView) -> Seq<
    QueueItemView,
> {
    match queue_job(event) {
        Some(id) => {
            let i = find_job(queue, id);
            if i < 0 {
                queue
            } else {
                queue.update(i, item_after(queue[i], event))
            }
        },
        None => queue,
    }
}

/// Whether the library lists a track of this artist and title.
pub open spec fn lists_track(library: Seq<TrackView>, artist: Seq<char>, title: Seq<char>) -> bool {
    exists|i: int| 0 <= i < library.len() && library[i].artist == artist && library[i].title == title
}

/// The library after `event`: a track that was fetched is listed, once.
pub open spec fn library_after(library: Seq<TrackView>, event: DownloadEventView) -> Seq<TrackView> {
    match event {
        DownloadEventView::TrackComplete { artist, title, path, .. } => if lists_track(
            library,
            artist,
            title,
        ) {
            library
        } else {
            library.push(TrackView { artist, title, path })
        },
        _ => library,
    }
}

/// The status line after `event`.
pub open spec fn status_after(status: Seq<char>, event: DownloadEventView) -> Seq<char> {
    match event {
        DownloadEventView::MetadataFetched { .. } => status,
        DownloadEventView::Started { .. } => status,
        DownloadEventView::TrackStarted { artist, title, .. } => downloading_status_text(
            artist,
            title,
        ),
        DownloadEventView::TrackComplete { artist, title, .. } => complete_status_text(
            artist,
            title,
        ),
        DownloadEventView::TrackSkipped { artist, title, .. } => skipped_status_text(artist, title),
        DownloadEventView::TrackFailed { artist, title, error, .. } => failed_status_text(
            artist,
            title,
            error,
        ),
        DownloadEventView::Complete { name, .. } => finished_status_text(name),
        DownloadEventView::Error { error, .. } => error_status_text(error),
        DownloadEventView::LogLine { .. } => status,
        DownloadEventView::M3UGenerated { result } => result,
        DownloadEventView::M3UConfirm { .. } =>
            "Some tracks are missing. Press Enter to generate anyway, Esc to cancel."@,
        DownloadEventView::ConvertStarted { target_format, .. } => converting_status_text(
            target_format,
        ),
        DownloadEventView::ConvertComplete { new_path, .. } => converted_status_text(new_path),
        DownloadEventView::ConvertFailed { error, .. } => convert_failed_status_text(error),
        DownloadEventView::ConvertDeleteConfirm { .. } =>
            "Delete original file? Press 'y' to delete, 'n' to keep."@,
        DownloadEventView::ConvertBatchDeleteConfirm { converted_files } =>
            delete_originals_question_text(converted_files.len()),
        DownloadEventView::ConvertBatchComplete { total, successful, .. } =>
            batch_converted_status_text(successful as nat, total as nat),
        DownloadEventView::RefreshStarted { artist, title, .. } => refreshing_status_text(
            artist,
            title,
        ),
        DownloadEventView::RefreshComplete { artist, title, .. } => refreshed_status_text(
            artist,
            title,
        ),
        DownloadEventView::RefreshFailed { artist, title, .. } => refresh_failed_status_text(
            artist,
            title,
        ),
        DownloadEventView::RefreshBatchComplete { total, successful, .. } =>
            batch_refreshed_status_text(successful as nat, total as nat),
    }
}

/// The line that `event` adds to the log window, if it adds one.
pub open spec fn log_of(event: DownloadEventView) -> Option<Seq<char>> {
    match event {
        DownloadEventView::Started { id, name, total_tracks } => Some(
            started_log_text(id as nat, name, total_tracks as nat),
        ),
        DownloadEventView::TrackStarted { id, artist, title, .. } => Some(
            downloading_log_text(id as nat, artist, title),
        ),
        DownloadEventView::TrackComplete { id, artist, title, .. } => Some(
            complete_log_text(id as nat, artist, title),
        ),
        DownloadEventView::TrackSkipped { id, artist, title } => Some(
            skipped_log_text(id as nat, artist, title),
        ),
        DownloadEventView::TrackFailed { id, artist, title, error } => Some(
            failed_log_text(id as nat, artist, title, error),
        ),
        DownloadEventView::Complete { id, name } => Some(finished_log_text(id as nat, name)),
        DownloadEventView::Error { id, error } => Some(error_log_text(id as nat, error)),
        DownloadEventView::LogLine { id, line } => Some(plain_log_text(id as nat, line)),
        DownloadEventView::ConvertStarted { id, path, target_format } => Some(
            converting_log_text(id as nat, path, target_format),
        ),
        DownloadEventView::ConvertComplete { id, old_path, new_path } => Some(
            converted_log_text(id as nat, old_path, new_path),
        ),
        DownloadEventView::ConvertFailed { id, path, error } => Some(
            convert_failed_log_text(id as nat, path, error),
        ),
        DownloadEventView::ConvertBatchComplete { total, successful, .. } => Some(
            batch_converted_log_text(successful as nat, total as nat),
        ),
        DownloadEventView::RefreshStarted { id, artist, title } => Some(
            refreshing_log_text(id as nat, artist, title),
        ),
        DownloadEventView::RefreshComplete { id, artist, title } => Some(
            refreshed_log_text(id as nat, artist, title),
        ),
        DownloadEventView::RefreshFailed { id, artist, title, error } => Some(
            refresh_failed_log_text(id as nat, artist, title, error),
        ),
        DownloadEventView::RefreshBatchComplete { total, successful, .. } => Some(
            batch_refreshed_log_text(successful as nat, total as nat),
        ),
        _ => None,
    }
}

/// The log window with one more line: the oldest line goes when the
/// window is full.
pub open spec fn with_line(logs: Seq<Seq<char>>, line: Seq<char>) -> Seq<Seq<char>> {
    if logs.len() + 1 > LOG_LIMIT {
        logs.push(line).drop_first()
    } else {
        logs.push(line)
    }
}

/// The place of a log window after a line was added to a log that holds
/// `count` lines now: a window that follows the log shows the last line.
pub open spec fn scrolled(scroll: usize, follow: bool, count: nat) -> usize {
    if follow && count > 0 {
        (count - 1) as usize
    } else {
        scroll
    }
}

/// The board with one more line in the log window.
pub open spec fn logged(board: Board, line: Seq<char>) -> Board {
    let logs = with_line(board.logs, line);
    Board { logs, log_scroll: scrolled(board.log_scroll, board.log_auto_scroll, logs.len()), ..board }
}

/// The index of the first ticket of the job `id`, or -1.
pub open spec fn find_ticket(retries: Seq<RetryTicketView>, id: usize) -> int
    decreases retries.len(),
{
    if retries.len() == 0 {
        -1
    } else if retries[0].job_id == id {
        0
    } else {
        let later = find_ticket(retries.drop_first(), id);
        if later < 0 {
            -1
        } else {
            later + 1
        }
    }
}

/// What an event says about a retry.
pub enum Verdict {
    /// Nothing.
    Open,
    /// The track of the ticket failed again; the job goes on.
    Failing,
    /// The retry is over, and this is whether it succeeded.
    Settled(bool),
}

/// What `event` says about the retry of `ticket`, which belongs to its
/// job.
pub open spec fn verdict(ticket: RetryTicketView, event: DownloadEventView) -> Verdict {
    match ticket.tab {
        ErrorTab::Download => match event {
            DownloadEventView::TrackFailed { artist, title, .. } => if ticket.artist == Some(artist)
                && ticket.title == Some(title) {
                Verdict::Failing
            } else {
                Verdict::Open
            },
            DownloadEventView::Complete { .. } => Verdict::Settled(!ticket.failed),
            DownloadEventView::Error { .. } => Verdict::Settled(false),
            _ => Verdict::Open,
        },
        ErrorTab::Convert => match event {
            DownloadEventView::ConvertComplete { .. } => Verdict::Settled(true),
            DownloadEventView::ConvertFailed { .. } => Verdict::Settled(false),
            _ => Verdict::Open,
        },
        ErrorTab::Refresh => match event {
            DownloadEventView::RefreshComplete { .. } => Verdict::Settled(true),
            DownloadEventView::RefreshFailed { .. } => Verdict::Settled(false),
            _ => Verdict::Open,
        },
    }
}

/// The job that `event` belongs to, if it names one.
pub open spec fn event_job(event: DownloadEventView) -> Option<usize> {
    match event {
        DownloadEventView::MetadataFetched { id, .. } => Some(id),
        DownloadEventView::Started { id, .. } => Some(id),
        DownloadEventView::TrackStarted { id, .. } => Some(id),
        DownloadEventView::TrackComplete { id, .. } => Some(id),
        DownloadEventView::TrackSkipped { id, .. } => Some(id),
        DownloadEventView::TrackFailed { id, .. } => Some(id),
        DownloadEventView::Complete { id, .. } => Some(id),
        DownloadEventView::Error { id, .. } => Some(id),
        DownloadEventView::LogLine { id, .. } => Some(id),
        DownloadEventView::ConvertStarted { id, .. } => Some(id),
        DownloadEventView::ConvertComplete { id, .. } => Some(id),
        DownloadEventView::ConvertFailed { id, .. } => Some(id),
        DownloadEventView::ConvertDeleteConfirm { id, .. } => Some(id),
        DownloadEventView::ConvertBatchComplete { id, .. } => Some(id),
        DownloadEventView::RefreshStarted { id, .. } => Some(id),
        DownloadEventView::RefreshComplete { id, .. } => Some(id),
        DownloadEventView::RefreshFailed { id, .. } => Some(id),
        DownloadEventView::RefreshBatchComplete { id, .. } => Some(id),
        _ => None,
    }
}

/// The ticket that `event` settles, and whether the retry succeeded.
pub open spec fn settlement(retries: Seq<RetryTicketView>, event: DownloadEventView) -> Option<
    (RetryTicketView, bool),
> {
    match event_job(event) {
        Some(id) => {
            let i = find_ticket(retries, id);
            if i < 0 {
                None
            } else {
                match verdict(retries[i], event) {
                    Verdict::Settled(ok) => Some((retries[i], ok)),
                    _ => None,
                }
            }
        },
        None => None,
    }
}

/// The tickets after `event`: a ticket that is settled goes, a ticket
/// whose track failed again is marked.
pub open spec fn retries_after(retries: Seq<RetryTicketView>, event: DownloadEventView) -> Seq<
    RetryTicketView,
> {
    match event_job(event) {
        Some(id) => {
            let i = find_ticket(retries, id);
            if i < 0 {
                retries
            } else {
                match verdict(retries[i], event) {
                    Verdict::Settled(_) => retries.remove(i),
                    Verdict::Failing => retries.update(
                        i,
                        RetryTicketView { failed: true, ..retries[i] },
                    ),
                    Verdict::Open => retries,
                }
            }
        },
        None => retries,
    }
}

/// The board after `event`.
pub open spec fn reduced(board: Board, event: DownloadEventView) -> Board {
    let changed = Board {
        queue: queue_after(board.queue, event),
        library: library_after(board.library, event),
        status: status_after(board.status, event),
        screen: screen_after(board.screen, event),
        m3u_generating: board.m3u_generating && !(event is M3UGenerated || event is M3UConfirm),
        m3u_pending: match event {
            DownloadEventView::M3UConfirm { name, found, missing, paths } => Some(
                M3UPendingView { name, found, missing, paths },
            ),
            _ => board.m3u_pending,
        },
        delete_pending: match event {
            DownloadEventView::ConvertDeleteConfirm { old_path, new_path, .. } => Some(
                ConvertDeletePendingView { old_path, new_path },
            ),
            _ => board.delete_pending,
        },
        batch_delete_pending: match event {
            DownloadEventView::ConvertBatchDeleteConfirm { converted_files } => Some(
                converted_files,
            ),
            _ => board.batch_delete_pending,
        },
        retries: retries_after(board.retries, event),
        ..board
    };
    match log_of(event) {
        Some(line) => logged(changed, line),
        None => changed,
    }
}

/// What the owner of the state has to do after an event.
#[derive(Debug)]
pub struct Effect {
    /// Whether the library has to be read again from the stored catalog.
    pub reload: bool,
    /// The retry that the event settled, and whether it succeeded.
    pub settlement: Option<(RetryTicket, bool)>,
}

fn bump(n: usize) -> (m: usize)
    ensures
        m == one_more(n),
{
    if n < usize::MAX {
        n + 1
    } else {
        n
    }
}

/// The queue entry `item` after `event` of its job.
fn apply_to_item(item: QueueItem, event: &DownloadEvent) -> (after: QueueItem)
    ensures
        after@ == item_after(item@, event@),
{
    match event {
        DownloadEvent::MetadataFetched { name, .. } => QueueItem {
            name: fetching_name(name.as_str()),
            ..item
        },
        DownloadEvent::Started { name, total_tracks, .. } => QueueItem {
            name: name.clone(),
            status: JobStatus::Downloading,
            progress: (0, *total_tracks),
            ..item
        },
        DownloadEvent::TrackStarted { artist, title, .. } => QueueItem {
            current_track: Some(track_label(artist.as_str(), title.as_str())),
            ..item
        },
        DownloadEvent::TrackComplete { .. } => QueueItem {
            progress: (bump(item.progress.0), item.progress.1),
            current_track: None,
            ..item
        },
        DownloadEvent::TrackSkipped { .. } => QueueItem {
            progress: (bump(item.progress.0), item.progress.1),
            ..item
        },
        DownloadEvent::TrackFailed { .. } => QueueItem {
            progress: (bump(item.progress.0), item.progress.1),
            ..item
        },
        DownloadEvent::Complete { .. } => QueueItem {
            status: JobStatus::Complete,
            current_track: None,
            ..item
        },
        DownloadEvent::Error { error, .. } => QueueItem {
            status: JobStatus::Failed(error.clone()),
            ..item
        },
        _ => item,
    }
}

fn job_of_queue_event(event: &DownloadEvent) -> (id: Option<usize>)
    ensures
        id == queue_job(event@),
{
    match event {
        DownloadEvent::MetadataFetched { id, .. } => Some(*id),
        DownloadEvent::Started { id, .. } => Some(*id),
        DownloadEvent::TrackStarted { id, .. } => Some(*id),
        DownloadEvent::TrackComplete { id, .. } => Some(*id),
        DownloadEvent::TrackSkipped { id, .. } => Some(*id),
        DownloadEvent::TrackFailed { id, .. } => Some(*id),
        DownloadEvent::Complete { id, .. } => Some(*id),
        DownloadEvent::Error { id, .. } => Some(*id),
        _ => None,
    }
}

fn job_of_event(event: &DownloadEvent) -> (id: Option<usize>)
    ensures
        id == event_job(event@),
{
    match event {
        DownloadEvent::MetadataFetched { id, .. } => Some(*id),
        DownloadEvent::Started { id, .. } => Some(*id),
        DownloadEvent::TrackStarted { id, .. } => Some(*id),
        DownloadEvent::TrackComplete { id, .. } => Some(*id),
        DownloadEvent::TrackSkipped { id, .. } => Some(*id),
        DownloadEvent::TrackFailed { id, .. } => Some(*id),
        DownloadEvent::Complete { id, .. } => Some(*id),
        DownloadEvent::Error { id, .. } => Some(*id),
        DownloadEvent::LogLine { id, .. } => Some(*id),
        DownloadEvent::ConvertStarted { id, .. } => Some(*id),
        DownloadEvent::ConvertComplete { id, .. } => Some(*id),
        DownloadEvent::ConvertFailed { id, .. } => Some(*id),
        DownloadEvent::ConvertDeleteConfirm { id, .. } => Some(*id),
        DownloadEvent::ConvertBatchComplete { id, .. } => Some(*id),
        DownloadEvent::RefreshStarted { id, .. } => Some(*id),
        DownloadEvent::RefreshComplete { id, .. } => Some(*id),
        DownloadEvent::RefreshFailed { id, .. } => Some(*id),
        DownloadEvent::RefreshBatchComplete { id, .. } => Some(*id),
        _ => None,
    }
}

proof fn lemma_find_job(queue: Seq<QueueItemView>, id: usize, i: int)
    requires
        0 <= i <= queue.len(),
        forall|k: int| 0 <= k < i ==> (#[trigger] queue[k]).id != id,
        i < queue.len() ==> queue[i].id == id,
    ensures
        find_job(queue, id) == if i < queue.len() {
            i
        } else {
            -1
        },
    decreases i,
{
    if queue.len() == 0 {
    } else if i == 0 {
    } else {
        let rest = queue.drop_first();
        assert forall|k: int| 0 <= k < i - 1 implies (#[trigger] rest[k]).id != id by {
            assert(rest[k] == queue[k + 1]);
        }
        assert(queue[0].id != id);
        lemma_find_job(rest, id, i - 1);
    }
}

proof fn lemma_find_ticket(retries: Seq<RetryTicketView>, id: usize, i: int)
    requires
        0 <= i <= retries.len(),
        forall|k: int| 0 <= k < i ==> (#[trigger] retries[k]).job_id != id,
        i < retries.len() ==> retries[i].job_id == id,
    ensures
        find_ticket(retries, id) == if i < retries.len() {
            i
        } else {
            -1
        },
    decreases i,
{
    if retries.len() == 0 {
    } else if i == 0 {
    } else {
        let rest = retries.drop_first();
        assert forall|k: int| 0 <= k < i - 1 implies (#[trigger] rest[k]).job_id != id by {
            assert(rest[k] == retries[k + 1]);
        }
        assert(retries[0].job_id != id);
        lemma_find_ticket(rest, id, i - 1);
    }
}

/// The index of the first queue entry of the job `id`.
#[verifier::loop_isolation(false)]
fn position_in_queue(queue: &Vec<QueueItem>, id: usize) -> (at: Option<usize>)
    ensures
        match at {
            Some(i) => i < queue.len() && find_job(queue.deep_view(), id) == i,
            None => find_job(queue.deep_view(), id) == -1,
        },
{
    let ghost q = queue.deep_view();
    let mut i: usize = 0;
    while i < queue.len()
        invariant
            i <= queue.len(),
            forall|k: int| 0 <= k < i ==> (#[trigger] q[k]).id != id,
        decreases queue.len() - i,
    {
        if queue[i].id == id {
            proof {
                assert(q[i as int] == queue@[i as int]@);
                lemma_find_job(q, id, i as int);
            }
            return Some(i);
        }
        assert(q[i as int] == queue@[i as int]@);
        i += 1;
    }
    proof {
        lemma_find_job(q, id, q.len() as int);
    }
    None
}

/// The index of the first ticket of the job `id`.
#[verifier::loop_isolation(false)]
fn position_in_retries(retries: &Vec<RetryTicket>, id: usize) -> (at: Option<usize>)
    ensures
        match at {
            Some(i) => i < retries.len() && find_ticket(retries.deep_view(), id) == i,
            None => find_ticket(retries.deep_view(), id) == -1,
        },
{
    let ghost q = retries.deep_view();
    let mut i: usize = 0;
    while i < retries.len()
        invariant
            i <= retries.len(),
            forall|k: int| 0 <= k < i ==> (#[trigger] q[k]).job_id != id,
        decreases retries.len() - i,
    {
        if retries[i].job_id == id {
            proof {
                assert(q[i as int] == retries@[i as int]@);
                lemma_find_ticket(q, id, i as int);
            }
            return Some(i);
        }
        assert(q[i as int] == retries@[i as int]@);
        i += 1;
    }
    proof {
        lemma_find_ticket(q, id, q.len() as int);
    }
    None
}

/// Whether `library` lists a track of this artist and title.
#[verifier::loop_isolation(false)]
fn library_lists(library: &Vec<TrackEntry>, artist: &str, title: &str) -> (listed: bool)
    ensures
        listed == lists_track(library.deep_view(), artist@, title@),
{
    let ghost l = library.deep_view();
    let mut i: usize = 0;
    while i < library.len()
        invariant
            i <= library.len(),
            forall|k: int|
                0 <= k < i ==> !((#[trigger] l[k]).artist == artist@ && l[k].title == title@),
        decreases library.len() - i,
    {
        assert(l[i as int] == library@[i as int]@);
        if text_eq(library[i].artist.as_str(), artist) && text_eq(
            library[i].title.as_str(),
            title,
        ) {
            return true;
        }
        i += 1;
    }
    false
}

/// What `event` says about the retry of `ticket`.
fn judge(ticket: &RetryTicket, event: &DownloadEvent) -> (v: Verdict)
    ensures
        v == verdict(ticket@, event@),
{
    match ticket.tab {
        ErrorTab::Download => match event {
            DownloadEvent::TrackFailed { artist, title, .. } => {
                let same_artist = match &ticket.artist {
                    Some(a) => text_eq(a.as_str(), artist.as_str()),
                    None => false,
                };
                let same_title = match &ticket.title {
                    Some(t) => text_eq(t.as_str(), title.as_str()),
                    None => false,
                };
                if same_artist && same_title {
                    Verdict::Failing
                } else {
                    Verdict::Open
                }
            },
            DownloadEvent::Complete { .. } => Verdict::Settled(!ticket.failed),
            DownloadEvent::Error { .. } => Verdict::Settled(false),
            _ => Verdict::Open,
        },
        ErrorTab::Convert => match event {
            DownloadEvent::ConvertComplete { .. } => Verdict::Settled(true),
            DownloadEvent::ConvertFailed { .. } => Verdict::Settled(false),
            _ => Verdict::Open,
        },
        ErrorTab::Refresh => match event {
            DownloadEvent::RefreshComplete { .. } => Verdict::Settled(true),
            DownloadEvent::RefreshFailed { .. } => Verdict::Settled(false),
            _ => Verdict::Open,
        },
    }
}

/// The status line after `event`.
fn status_for(status: &String, event: &DownloadEvent) -> (text: String)
    ensures
        text@ == status_after(status@, event@),
{
    match event {
        DownloadEvent::MetadataFetched { .. } => status.clone(),
        DownloadEvent::Started { .. } => status.clone(),
        DownloadEvent::TrackStarted { artist, title, .. } => downloading_status(
            artist.as_str(),
            title.as_str(),
        ),
        DownloadEvent::TrackComplete { artist, title, .. } => complete_status(
            artist.as_str(),
            title.as_str(),
        ),
        DownloadEvent::TrackSkipped { artist, title, .. } => skipped_status(
            artist.as_str(),
            title.as_str(),
        ),
        DownloadEvent::TrackFailed { artist, title, error, .. } => failed_status(
            artist.as_str(),
            title.as_str(),
            error.as_str(),
        ),
        DownloadEvent::Complete { name, .. } => finished_status(name.as_str()),
        DownloadEvent::Error { error, .. } => error_status(error.as_str()),
        DownloadEvent::LogLine { .. } => status.clone(),
        DownloadEvent::M3UGenerated { result } => result.clone(),
        DownloadEvent::M3UConfirm { .. } => String::from_str(
            "Some tracks are missing. Press Enter to generate anyway, Esc to cancel.",
        ),
        DownloadEvent::ConvertStarted { target_format, .. } => converting_status(
            target_format.as_str(),
        ),
        DownloadEvent::ConvertComplete { new_path, .. } => converted_status(new_path.as_str()),
        DownloadEvent::ConvertFailed { error, .. } => convert_failed_status(error.as_str()),
        DownloadEvent::ConvertDeleteConfirm { .. } => String::from_str(
            "Delete original file? Press 'y' to delete, 'n' to keep.",
        ),
        DownloadEvent::ConvertBatchDeleteConfirm { converted_files } => {
            assert(converted_files.deep_view().len() == converted_files.len());
            delete_originals_question(converted_files.len())
        },
        DownloadEvent::ConvertBatchComplete { total, successful, .. } => batch_converted_status(
            *successful,
            *total,
        ),
        DownloadEvent::RefreshStarted { artist, title, .. } => refreshing_status(
            artist.as_str(),
            title.as_str(),
        ),
        DownloadEvent::RefreshComplete { artist, title, .. } => refreshed_status(
            artist.as_str(),
            title.as_str(),
        ),
        DownloadEvent::RefreshFailed { artist, title, .. } => refresh_failed_status(
            artist.as_str(),
            title.as_str(),
        ),
        DownloadEvent::RefreshBatchComplete { total, successful, .. } => batch_refreshed_status(
            *successful,
            *total,
        ),
    }
}

/// The line that `event` adds to the log window.
fn log_for(event: &DownloadEvent) -> (line: Option<String>)
    ensures
        line.deep_view() == log_of(event@),
{
    match event {
        DownloadEvent::Started { id, name, total_tracks } => Some(
            started_log(*id, name.as_str(), *total_tracks),
        ),
        DownloadEvent::TrackStarted { id, artist, title, .. } => Some(
            downloading_log(*id, artist.as_str(), title.as_str()),
        ),
        DownloadEvent::TrackComplete { id, artist, title, .. } => Some(
            complete_log(*id, artist.as_str(), title.as_str()),
        ),
        DownloadEvent::TrackSkipped { id, artist, title } => Some(
            skipped_log(*id, artist.as_str(), title.as_str()),
        ),
        DownloadEvent::TrackFailed { id, artist, title, error } => Some(
            failed_log(*id, artist.as_str(), title.as_str(), error.as_str()),
        ),
        DownloadEvent::Complete { id, name } => Some(finished_log(*id, name.as_str())),
        DownloadEvent::Error { id, error } => Some(error_log(*id, error.as_str())),
        DownloadEvent::LogLine { id, line } => Some(plain_log(*id, line.as_str())),
        DownloadEvent::ConvertStarted { id, path, target_format } => Some(
            converting_log(*id, path.as_str(), target_format.as_str()),
        ),
        DownloadEvent::ConvertComplete { id, old_path, new_path } => Some(
            converted_log(*id, old_path.as_str(), new_path.as_str()),
        ),
        DownloadEvent::ConvertFailed { id, path, error } => Some(
            convert_failed_log(*id, path.as_str(), error.as_str()),
        ),
        DownloadEvent::ConvertBatchComplete { total, successful, .. } => Some(
            batch_converted_log(*successful, *total),
        ),
        DownloadEvent::RefreshStarted { id, artist, title } => Some(
            refreshing_log(*id, artist.as_str(), title.as_str()),
        ),
        DownloadEvent::RefreshComplete { id, artist, title } => Some(
            refreshed_log(*id, artist.as_str(), title.as_str()),
        ),
        DownloadEvent::RefreshFailed { id, artist, title, error } => Some(
            refresh_failed_log(*id, artist.as_str(), title.as_str(), error.as_str()),
        ),
        DownloadEvent::RefreshBatchComplete { total, successful, .. } => Some(
            batch_refreshed_log(*successful, *total),
        ),
        _ => None,
    }
}

/// Adds a line to a log window whose position is `scroll`.
pub fn push_log(logs: &mut VecDeque<String>, scroll: &mut usize, follow: bool, line: String)
    ensures
        lines_of(final(logs)@) == with_line(lines_of(old(logs)@), line@),
        *final(scroll) == scrolled(*old(scroll), follow, lines_of(final(logs)@).len()),
{
    let ghost before = lines_of(logs@);
    let ghost l = line@;
    logs.push_back(line);
    assert(lines_of(logs@) =~= before.push(l));
    if logs.len() > LOG_LIMIT {
        logs.pop_front();
        assert(lines_of(logs@) =~= before.push(l).drop_first());
    }
    assert(lines_of(logs@).len() == logs@.len());
    if follow && logs.len() > 0 {
        *scroll = logs.len() - 1;
    }
}

fn update_queue(queue: &mut Vec<QueueItem>, event: &DownloadEvent)
    ensures
        final(queue).deep_view() == queue_after(old(queue).deep_view(), event@),
{
    match job_of_queue_event(event) {
        Some(id) => match position_in_queue(queue, id) {
            Some(i) => {
                let ghost before = queue.deep_view();
                let item = queue.remove(i);
                assert(item@ == before[i as int]);
                let after = apply_to_item(item, event);
                let ghost a = after@;
                queue.insert(i, after);
                assert(queue.deep_view() =~= before.update(i as int, a));
            },
            None => {},
        },
        None => {},
    }
}

fn update_library(library: &mut Vec<TrackEntry>, event: &DownloadEvent)
    ensures
        final(library).deep_view() == library_after(old(library).deep_view(), event@),
{
    match event {
        DownloadEvent::TrackComplete { artist, title, path, .. } => {
            if !library_lists(library, artist.as_str(), title.as_str()) {
                let ghost before = library.deep_view();
                let entry = TrackEntry {
                    artist: artist.clone(),
                    title: title.clone(),
                    path: path.clone(),
                };
                let ghost e = entry@;
                library.push(entry);
                assert(library.deep_view() =~= before.push(e));
            }
        },
        _ => {},
    }
}

fn update_retries(retries: &mut Vec<RetryTicket>, event: &DownloadEvent) -> (settled: Option<
    (RetryTicket, bool),
>)
    ensures
        final(retries).deep_view() == retries_after(old(retries).deep_view(), event@),
        settled.deep_view() == settlement(old(retries).deep_view(), event@),
{
    match job_of_event(event) {
        Some(id) => match position_in_retries(retries, id) {
            Some(i) => {
                let ghost before = retries.deep_view();
                assert(before[i as int] == retries@[i as int]@);
                let v = judge(&retries[i], event);
                match v {
                    Verdict::Settled(ok) => {
                        let ticket = retries.remove(i);
                        assert(retries.deep_view() =~= before.remove(i as int));
                        Some((ticket, ok))
                    },
                    Verdict::Failing => {
                        let ticket = retries.remove(i);
                        let marked = RetryTicket { failed: true, ..ticket };
                        let ghost m = marked@;
                        retries.insert(i, marked);
                        assert(retries.deep_view() =~= before.update(i as int, m));
                        None
                    },
                    Verdict::Open => None,
                }
            },
            None => None,
        },
        None => None,
    }
}

/// The screen after `event`.
pub open spec fn screen_after(screen: Screen, event: DownloadEventView) -> Screen {
    match event {
        DownloadEventView::M3UConfirm { .. } => Screen::M3UConfirm,
        DownloadEventView::ConvertDeleteConfirm { .. } => Screen::ConvertConfirm,
        DownloadEventView::ConvertBatchDeleteConfirm { .. } => Screen::ConvertBatchConfirm,
        _ => screen,
    }
}

fn screen_for(screen: Screen, event: &DownloadEvent) -> (after: Screen)
    ensures
        after == screen_after(screen, event@),
{
    match event {
        DownloadEvent::M3UConfirm { .. } => Screen::M3UConfirm,
        DownloadEvent::ConvertDeleteConfirm { .. } => Screen::ConvertConfirm,
        DownloadEvent::ConvertBatchDeleteConfirm { .. } => Screen::ConvertBatchConfirm,
        _ => screen,
    }
}

impl App {
    /// Adds a line to the log window.
    pub fn add_log(&mut self, line: String)
        ensures
            final(self).board() == logged(old(self).board(), line@),
            *final(self) == (App {
                download_logs: final(self).download_logs,
                log_scroll: final(self).log_scroll,
                ..*old(self)
            }),
    {
        push_log(&mut self.download_logs, &mut self.log_scroll, self.log_auto_scroll, line);
    }

    /// Takes one event from the worker into the state. The result says
    /// what is left to do for the owner of the state: to read the library
    /// again, and to settle a retry.
    #[verifier::rlimit(60)]
    pub fn process_event(&mut self, event: DownloadEvent) -> (effect: Effect)
        ensures
            final(self).board() == reduced(old(self).board(), event@),
            old(self).same_but_board(final(self)),
            effect.reload == (event@ is ConvertComplete),
            effect.settlement.deep_view() == settlement(old(self).board().retries, event@),
    {
        update_queue(&mut self.queue, &event);
        update_library(&mut self.library, &event);
        let settled = update_retries(&mut self.retries, &event);
        self.status_message = status_for(&self.status_message, &event);
        self.view = screen_for(self.view, &event);
        let line = log_for(&event);
        let reload = matches!(event, DownloadEvent::ConvertComplete { .. });
        match event {
            DownloadEvent::M3UGenerated { .. } => {
                self.m3u_generating = false;
            },
            DownloadEvent::M3UConfirm { name, found, missing, paths } => {
                self.m3u_generating = false;
                self.m3u_pending = Some(M3UPending { name, found, missing, paths });
            },
            DownloadEvent::ConvertDeleteConfirm { old_path, new_path, .. } => {
                self.convert_delete_pending = Some(ConvertDeletePending { old_path, new_path });
            },
            DownloadEvent::ConvertBatchDeleteConfirm { converted_files } => {
                self.convert_batch_delete_pending = Some(converted_files);
            },
            _ => {},
        }
        match line {
            Some(l) => {
                push_log(&mut self.download_logs, &mut self.log_scroll, self.log_auto_scroll, l);
            },
            None => {},
        }
        Effect { reload, settlement: settled }
    }
}

/// The board after the library was read again from the stored catalog,
/// whose records are `stored`.
pub open spec fn reloaded(board: Board, stored: Seq<TrackView>) -> Board {
    Board {
        library: distinct(stored),
        status: library_refreshed_text(distinct(stored).len()),
        ..board
    }
}

/// The board after `event`, with the library read again where the event
/// asks for it.
pub open spec fn taken(board: Board, event: DownloadEventView, stored: Seq<TrackView>) -> Board {
    if event is ConvertComplete {
        reloaded(reduced(board, event), stored)
    } else {
        reduced(board, event)
    }
}

/// The board after `events`, one after the other.
pub open spec fn reduced_all(
    board: Board,
    events: Seq<DownloadEventView>,
    stored: Seq<TrackView>,
) -> Board
    decreases events.len(),
{
    if events.len() == 0 {
        board
    } else {
        reduced_all(taken(board, events[0], stored), events.drop_first(), stored)
    }
}

/// The retries that `events` settle, in the order of the events.
pub open spec fn settled_by(
    board: Board,
    events: Seq<DownloadEventView>,
    stored: Seq<TrackView>,
) -> Seq<(RetryTicketView, bool)>
    decreases events.len(),
{
    if events.len() == 0 {
        Seq::empty()
    } else {
        let rest = settled_by(taken(board, events[0], stored), events.drop_first(), stored);
        match settlement(board.retries, events[0]) {
            Some(s) => seq![s] + rest,
            None => rest,
        }
    }
}

/// Whether one of `events` asks for the library to be read again.
pub open spec fn asks_reload(events: Seq<DownloadEventView>) -> bool {
    exists|k: int| 0 <= k < events.len() && (#[trigger] events[k]) is ConvertComplete
}

/// Two changes of the kind that events make add up to one.
proof fn lemma_same_twice(a: &App, b: &App, c: &App)
    requires
        a.same_but_board_and_catalog(b),
        b.same_but_board_and_catalog(c),
    ensures
        a.same_but_board_and_catalog(c),
{
}

impl App {
    /// Takes one event from the worker into the state, and reads the
    /// library again from the stored catalog, whose records are `stored`,
    /// where the event asks for it. The result is the retry that the
    /// event settles, if it settles one.
    pub fn take_event(&mut self, event: DownloadEvent, stored: &Vec<TrackEntry>) -> (settled:
        Option<(RetryTicket, bool)>)
        ensures
            final(self).board() == taken(old(self).board(), event@, stored.deep_view()),
            settled.deep_view() == settlement(old(self).board().retries, event@),
            old(self).same_but_board_and_catalog(final(self)),
            final(self).db.location() == old(self).db.location(),
            event@ is ConvertComplete ==> final(self).db@ == distinct(stored.deep_view())
                && !final(self).db.is_unsaved(),
            !(event@ is ConvertComplete) ==> final(self).db == old(self).db,
    {
        let effect = self.process_event(event);
        if effect.reload {
            self.refresh_library(copy_entries(stored));
        }
        effect.settlement
    }

    /// Takes the events `events` from the worker into the state, one after
    /// the other. Where an event asks for it, the library and the copy of
    /// the catalog are read again from the stored catalog, whose records
    /// are `stored`; without such an event the copy of the catalog stays
    /// as it is. Nothing else changes but what events change. The result
    /// lists the retries that the events settled.
    pub fn process_events(
        &mut self,
        events: Vec<DownloadEvent>,
        stored: &Vec<TrackEntry>,
    ) -> (settled: Vec<(RetryTicket, bool)>)
        ensures
            final(self).board() == reduced_all(
                old(self).board(),
                events.deep_view(),
                stored.deep_view(),
            ),
            settled.deep_view() == settled_by(
                old(self).board(),
                events.deep_view(),
                stored.deep_view(),
            ),
            old(self).same_but_board_and_catalog(final(self)),
            final(self).db.location() == old(self).db.location(),
            asks_reload(events.deep_view()) ==> final(self).db@ == distinct(stored.deep_view())
                && !final(self).db.is_unsaved(),
            !asks_reload(events.deep_view()) ==> final(self).db == old(self).db,
            final(self).errors == old(self).errors,
            final(self).next_id == old(self).next_id,
    {
        let ghost all = events.deep_view();
        let ghost st = stored.deep_view();
        let ghost board0 = self.board();
        let mut rest = events;
        let mut stack: Vec<DownloadEvent> = Vec::new();
        while rest.len() > 0
            invariant
                rest.len() + stack.len() == all.len(),
                forall|k: int| 0 <= k < rest.len() ==> (#[trigger] rest@[k])@ == all[k],
                forall|k: int|
                    0 <= k < stack.len() ==> (#[trigger] stack@[k])@ == all[all.len() - 1 - k],
            decreases rest.len(),
        {
            let e = rest.pop().unwrap();
            stack.push(e);
        }
        let mut settled: Vec<(RetryTicket, bool)> = Vec::new();
        assert(settled.deep_view() =~= Seq::<(RetryTicketView, bool)>::empty());
        assert(all.skip(0) =~= all);
        assert(!asks_reload(all.take(0)));
        while stack.len() > 0
            invariant
                stack.len() <= all.len(),
                st == stored.deep_view(),
                forall|k: int|
                    0 <= k < stack.len() ==> (#[trigger] stack@[k])@ == all[all.len() - 1 - k],
                reduced_all(board0, all, st) == reduced_all(
                    self.board(),
                    all.skip(all.len() - stack.len()),
                    st,
                ),
                settled_by(board0, all, st) == settled.deep_view() + settled_by(
                    self.board(),
                    all.skip(all.len() - stack.len()),
                    st,
                ),
                old(self).same_but_board_and_catalog(self),
                self.db.location() == old(self).db.location(),
                asks_reload(all.take(all.len() - stack.len())) ==> self.db@ == distinct(st)
                    && !self.db.is_unsaved(),
                !asks_reload(all.take(all.len() - stack.len())) ==> self.db == old(self).db,
            decreases stack.len(),
        {
            let ghost done = all.len() - stack.len();
            let ghost before = self.board();
            let ghost was = *self;
            let ghost acc = settled.deep_view();
            let event = stack.pop().unwrap();
            let ghost ev = event@;
            proof {
                assert(all.skip(done)[0] == ev);
                assert(all.skip(done).drop_first() =~= all.skip(done + 1));
            }
            let one = self.take_event(event, stored);
            proof {
                lemma_same_twice(old(self), &was, self);
                let seen = all.take(done);
                let now = all.take(done + 1);
                assert(now[done] == ev);
                if asks_reload(seen) {
                    let k = choose|k: int|
                        0 <= k < seen.len() && (#[trigger] seen[k]) is ConvertComplete;
                    assert(now[k] == seen[k]);
                }
                if asks_reload(now) {
                    let k = choose|k: int|
                        0 <= k < now.len() && (#[trigger] now[k]) is ConvertComplete;
                    if k < done {
                        assert(seen[k] == now[k]);
                    }
                }
            }
            match one {
                Some(s) => {
                    let ghost sv = s.deep_view();
                    settled.push(s);
                    proof {
                        assert(settled.deep_view() =~= acc.push(sv));
                        assert(acc.push(sv) + settled_by(self.board(), all.skip(done + 1), st)
                            =~= acc + (seq![sv] + settled_by(
                            self.board(),
                            all.skip(done + 1),
                            st,
                        )));
                    }
                },
                None => {},
            }
        }
        assert(all.skip(all.len() as int) =~= Seq::<DownloadEventView>::empty());
        assert(all.take(all.len() as int) =~= all);
        settled
    }
}

} // verus!
