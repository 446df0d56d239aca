//! What the drawing of the interface decides before it draws: which tab
//! is lit, which lines of the log are shown and in which tone.

use crate::text::{contains, contains_text, decimal, decimal_of};
use crate::tui::app::{JobStatus, JobStatusView, QueueItem, QueueItemView, Screen};
use vstd::prelude::*;
use vstd::string::StringExecFns;

verus! {

/// The tab of the heading that is lit for a screen.
pub open spec fn tab_of(screen: Screen) -> usize {
    match screen {
        Screen::Queue => 1,
        Screen::Library => 2,
        Screen::ConvertSettings => 2,
        Screen::ConvertConfirm => 2,
        Screen::ConvertBatchConfirm => 2,
        Screen::CleanupConfirm => 2,
        Screen::Logs => 3,
        _ => 0,
    }
}

pub fn header_tab(screen: Screen) -> (tab: usize)
    ensures
        tab == tab_of(screen),
{
    match screen {
        Screen::Queue => 1,
        Screen::Library => 2,
        Screen::ConvertSettings => 2,
        Screen::ConvertConfirm => 2,
        Screen::ConvertBatchConfirm => 2,
        Screen::CleanupConfirm => 2,
        Screen::Logs => 3,
        _ => 0,
    }
}

/// How many of the jobs of the queue are not complete.
pub open spec fn open_jobs(queue: Seq<QueueItemView>) -> nat
    decreases queue.len(),
{
    if queue.len() == 0 {
        0
    } else {
        open_jobs(queue.drop_last()) + if queue.last().status is Complete {
            0nat
        } else {
            1nat
        }
    }
}

/// How many of the jobs of the queue are not complete.
pub fn queue_count(queue: &Vec<QueueItem>) -> (count: usize)
    ensures
        count == open_jobs(queue.deep_view()),
{
    let ghost q = queue.deep_view();
    let mut count: usize = 0;
    let mut i: usize = 0;
    while i < queue.len()
        invariant
            i <= queue.len(),
            q == queue.deep_view(),
            count == open_jobs(q.take(i as int)),
            count <= i,
        decreases queue.len() - i,
    {
        proof {
            assert(q.take(i + 1).drop_last() =~= q.take(i as int));
            assert(q.take(i + 1).last() == queue@[i as int]@);
        }
        match queue[i].status {
            JobStatus::Complete => {},
            _ => {
                count += 1;
            },
        }
        i += 1;
    }
    assert(q.take(q.len() as int) =~= q);
    count
}

/// The index of the first line of the log that is shown in a window of
/// `visible` lines.
pub open spec fn window_start(total: usize, visible: usize, scroll: usize) -> usize {
    if total <= visible {
        0
    } else if scroll < total - visible {
        scroll
    } else {
        (total - visible) as usize
    }
}

pub fn log_window_start(total: usize, visible: usize, scroll: usize) -> (start: usize)
    ensures
        start == window_start(total, visible, scroll),
        start + visible <= total || start == 0,
{
    if total <= visible {
        0
    } else if scroll < total - visible {
        scroll
    } else {
        total - visible
    }
}

/// The tone in which a line of the log is shown.
#[derive(Clone, Copy, Debug, PartialEq, Eq, Structural)]
pub enum Tone {
    Failure,
    Success,
    Skipped,
    Progress,
    Plain,
}

pub open spec fn tone_of(line: Seq<char>) -> Tone {
    if contains_text(line, "ERROR"@) || contains_text(line, "FAILED"@) {
        Tone::Failure
    } else if contains_text(line, "Complete"@) || contains_text(line, "Finished"@) {
        Tone::Success
    } else if contains_text(line, "Skipped"@) {
        Tone::Skipped
    } else if contains_text(line, "Downloading"@) || contains_text(line, "[download]"@) {
        Tone::Progress
    } else {
        Tone::Plain
    }
}

pub fn log_tone(line: &str) -> (tone: Tone)
    ensures
        tone == tone_of(line@),
{
    if contains(line, "ERROR") || contains(line, "FAILED") {
        Tone::Failure
    } else if contains(line, "Complete") || contains(line, "Finished") {
        Tone::Success
    } else if contains(line, "Skipped") {
        Tone::Skipped
    } else if contains(line, "Downloading") || contains(line, "[download]") {
        Tone::Progress
    } else {
        Tone::Plain
    }
}

/// The note that tells which lines of the log are shown.
pub open spec fn scroll_note(start: nat, visible: nat, total: nat, follow: bool) -> Seq<char> {
    " ["@ + decimal_of(start + 1) + "-"@ + decimal_of(
        if start + visible < total {
            start + visible
        } else {
            total
        },
    ) + "/"@ + decimal_of(total) + "] "@ + if follow {
        "[auto-scroll]"@
    } else {
        "[manual]"@
    }
}

pub fn scroll_info(start: usize, visible: usize, total: usize, follow: bool) -> (note: String)
    requires
        start < total,
    ensures
        note@ == scroll_note(start as nat, visible as nat, total as nat, follow),
{
    let last = if visible < total - start {
        start + visible
    } else {
        total
    };
    let mut note = String::from_str(" [");
    note.append(decimal(start + 1).as_str());
    note.append("-");
    note.append(decimal(last).as_str());
    note.append("/");
    note.append(decimal(total).as_str());
    note.append("] ");
    if follow {
        note.append("[auto-scroll]");
    } else {
        note.append("[manual]");
    }
    note
}

/// The progress of a job as the queue shows it behind its name; nothing
/// while the number of its tracks is not known.
pub open spec fn progress_note(done: nat, total: nat) -> Seq<char> {
    if total > 0 {
        " ["@ + decimal_of(done) + "/"@ + decimal_of(total) + "]"@
    } else {
        Seq::empty()
    }
}

pub fn progress_text(progress: (usize, usize)) -> (note: String)
    ensures
        note@ == progress_note(progress.0 as nat, progress.1 as nat),
{
    if progress.1 > 0 {
        let mut note = String::from_str(" [");
        note.append(decimal(progress.0).as_str());
        note.append("/");
        note.append(decimal(progress.1).as_str());
        note.append("]");
        note
    } else {
        String::new()
    }
}

} // verus!
