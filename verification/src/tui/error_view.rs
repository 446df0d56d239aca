//! The window onto the journal: what it lists, what is selected in it, and
//! what deleting and retrying do.

use crate::error_log::entries::{
    ConvertErrorEntry, ConvertErrorView, DownloadErrorEntry, DownloadErrorView, RefreshErrorEntry,
    RefreshErrorView,
};
use crate::error_log::clock::{now, Timestamp};
use crate::error_log::journal::{
    capped, counts_over, dates_listed, file_for, holds_id, listed, store_op, with_retried,
    without_date, without_entry, without_id, Filed, PartitionView, StoreOpView,
};
use crate::error_log::ErrorType;
use crate::tui::requests::clamped;
use crate::error_log::ErrorLogManager;
use crate::tui::app::ErrorTab;
use crate::tui::app_messages::{
    cleared_date, cleared_date_text, error_summary, error_summary_text,
};
use crate::tui::navigation::{step_down, step_up};
use vstd::prelude::*;
use vstd::string::StringExecFns;

verus! {

/// The three lists of the window.
pub struct Lists {
    pub download: Seq<DownloadErrorView>,
    pub convert: Seq<ConvertErrorView>,
    pub refresh: Seq<RefreshErrorView>,
}

/// What the journal `j` holds for `date`.
pub open spec fn lists_on(j: Seq<PartitionView>, date: Seq<char>) -> Lists {
    Lists {
        download: listed::<DownloadErrorEntry>(j, date),
        convert: listed::<ConvertErrorEntry>(j, date),
        refresh: listed::<RefreshErrorEntry>(j, date),
    }
}

pub open spec fn no_lists() -> Lists {
    Lists { download: Seq::empty(), convert: Seq::empty(), refresh: Seq::empty() }
}

/// What the lists of the window show after they were read again for the
/// date at `selected` of `dates`: the records of that date, or, where no
/// date is selected, what they showed before.
pub open spec fn lists_read(
    j: Seq<PartitionView>,
    dates: Seq<Seq<char>>,
    selected: usize,
    before: Lists,
) -> Lists {
    if selected < dates.len() {
        lists_on(j, dates[selected as int])
    } else {
        before
    }
}

/// The journal and the window onto it: the dates that it lists, the
/// records of the selected date, and what is selected among them.
pub struct ErrorWindow {
    pub error_log: ErrorLogManager,
    pub error_dates: Vec<String>,
    pub error_date_selected: usize,
    pub error_tab: ErrorTab,
    pub error_selected: usize,
    pub download_errors: Vec<DownloadErrorEntry>,
    pub convert_errors: Vec<ConvertErrorEntry>,
    pub refresh_errors: Vec<RefreshErrorEntry>,
}

impl ErrorWindow {
    /// The three lists of the window.
    pub open spec fn lists(&self) -> Lists {
        Lists {
            download: self.download_errors.deep_view(),
            convert: self.convert_errors.deep_view(),
            refresh: self.refresh_errors.deep_view(),
        }
    }

    /// How many records the list of the selected kind holds.
    pub open spec fn shown_count(&self) -> nat {
        match self.error_tab {
            ErrorTab::Download => self.download_errors@.len(),
            ErrorTab::Convert => self.convert_errors@.len(),
            ErrorTab::Refresh => self.refresh_errors@.len(),
        }
    }

    /// The date that is selected, if one is.
    pub open spec fn selected_date(&self) -> Option<Seq<char>> {
        if self.error_date_selected < self.error_dates@.len() {
            Some(self.error_dates.deep_view()[self.error_date_selected as int])
        } else {
            None
        }
    }
}

/// Reads the three lists for the date at `selected` of `dates`.
fn read_lists(
    journal: &ErrorLogManager,
    dates: &Vec<String>,
    selected: usize,
    download: &mut Vec<DownloadErrorEntry>,
    convert: &mut Vec<ConvertErrorEntry>,
    refresh: &mut Vec<RefreshErrorEntry>,
) -> (read: bool)
    ensures
        read == (selected < dates.len()),
        (Lists {
            download: final(download).deep_view(),
            convert: final(convert).deep_view(),
            refresh: final(refresh).deep_view(),
        }) == lists_read(
            journal@,
            dates.deep_view(),
            selected,
            Lists {
                download: old(download).deep_view(),
                convert: old(convert).deep_view(),
                refresh: old(refresh).deep_view(),
            },
        ),
        !read ==> *final(download) == *old(download) && *final(convert) == *old(convert)
            && *final(refresh) == *old(refresh),
{
    assert(dates.deep_view().len() == dates.len());
    if selected >= dates.len() {
        return false;
    }
    let date = dates[selected].as_str();
    assert(dates.deep_view()[selected as int] == date@);
    *download = journal.get_download_errors_for_date(date);
    *convert = journal.get_convert_errors_for_date(date);
    *refresh = journal.get_refresh_errors_for_date(date);
    true
}

fn clear_lists(
    download: &mut Vec<DownloadErrorEntry>,
    convert: &mut Vec<ConvertErrorEntry>,
    refresh: &mut Vec<RefreshErrorEntry>,
)
    ensures
        (Lists {
            download: final(download).deep_view(),
            convert: final(convert).deep_view(),
            refresh: final(refresh).deep_view(),
        }) == no_lists(),
{
    *download = Vec::new();
    *convert = Vec::new();
    *refresh = Vec::new();
    assert(download.deep_view() =~= Seq::<DownloadErrorView>::empty());
    assert(convert.deep_view() =~= Seq::<ConvertErrorView>::empty());
    assert(refresh.deep_view() =~= Seq::<RefreshErrorView>::empty());
}

/// The summary of the journal `j` as the status line gives it.
pub open spec fn summary_of(j: Seq<PartitionView>) -> Seq<char> {
    let total = counts_over(j, dates_listed(j));
    if capped(total.0) == 0 && capped(total.1) == 0 && capped(total.2) == 0 {
        "No errors logged."@
    } else {
        error_summary_text(
            capped(total.0) as nat,
            capped(total.1) as nat,
            capped(total.2) as nat,
        )
    }
}

/// The date selection after the dates were listed again: it goes back to
/// the first date when it points beyond the last.
pub open spec fn reselected(selected: usize, count: nat) -> usize {
    if selected >= count {
        0
    } else {
        selected
    }
}

impl ErrorWindow {
    /// A window onto `error_log` that lists its dates and shows nothing
    /// yet.
    pub fn new(error_log: ErrorLogManager) -> (window: ErrorWindow)
        ensures
            window.error_log == error_log,
            window.error_dates.deep_view() == dates_listed(error_log@),
            window.error_date_selected == 0,
            window.error_tab == ErrorTab::Download,
            window.error_selected == 0,
            window.lists() == no_lists(),
    {
        let error_dates = error_log.list_dates();
        let mut download_errors: Vec<DownloadErrorEntry> = Vec::new();
        let mut convert_errors: Vec<ConvertErrorEntry> = Vec::new();
        let mut refresh_errors: Vec<RefreshErrorEntry> = Vec::new();
        clear_lists(&mut download_errors, &mut convert_errors, &mut refresh_errors);
        ErrorWindow {
            error_log,
            error_dates,
            error_date_selected: 0,
            error_tab: ErrorTab::Download,
            error_selected: 0,
            download_errors,
            convert_errors,
            refresh_errors,
        }
    }

    /// Whether `after` is `before` opened: the dates are listed again, the
    /// latest date is selected and its records are shown.
    pub open spec fn opened(before: ErrorWindow, after: ErrorWindow) -> bool {
        let j = before.error_log@;
        &&& after.error_log == before.error_log
        &&& after.error_dates.deep_view() == dates_listed(j)
        &&& after.error_date_selected == if dates_listed(j).len() > 0 {
            0
        } else {
            before.error_date_selected
        }
        &&& after.lists() == if dates_listed(j).len() > 0 {
            lists_on(j, dates_listed(j)[0])
        } else {
            no_lists()
        }
        &&& after.error_tab == ErrorTab::Download
        &&& after.error_selected == 0
    }

    /// Opens the window, and gives the summary of the journal for the
    /// status line.
    pub fn open(&mut self) -> (summary: String)
        ensures
            Self::opened(*old(self), *final(self)),
            summary@ == summary_of(old(self).error_log@),
    {
        self.error_dates = self.error_log.list_dates();
        assert(self.error_dates.deep_view().len() == self.error_dates.len());
        if self.error_dates.len() > 0 {
            self.error_date_selected = 0;
            read_lists(
                &self.error_log,
                &self.error_dates,
                0,
                &mut self.download_errors,
                &mut self.convert_errors,
                &mut self.refresh_errors,
            );
        } else {
            clear_lists(
                &mut self.download_errors,
                &mut self.convert_errors,
                &mut self.refresh_errors,
            );
        }
        self.error_tab = ErrorTab::Download;
        self.error_selected = 0;
        let (d, c, r) = self.error_log.get_total_error_counts();
        if d == 0 && c == 0 && r == 0 {
            String::from_str("No errors logged.")
        } else {
            error_summary(d, c, r)
        }
    }

    /// Whether `after` is `before` with the lists read for the selected
    /// date. Nothing changes where no date is selected.
    pub open spec fn loaded(before: ErrorWindow, after: ErrorWindow) -> bool {
        &&& after == (ErrorWindow {
            download_errors: after.download_errors,
            convert_errors: after.convert_errors,
            refresh_errors: after.refresh_errors,
            error_selected: after.error_selected,
            ..before
        })
        &&& after.lists() == lists_read(
            before.error_log@,
            before.error_dates.deep_view(),
            before.error_date_selected,
            before.lists(),
        )
        &&& after.error_selected == if before.error_date_selected < before.error_dates@.len() {
            0
        } else {
            before.error_selected
        }
    }

    /// Reads the lists of the window for the selected date.
    pub fn load_errors_for_current_date(&mut self)
        ensures
            Self::loaded(*old(self), *final(self)),
    {
        assert(self.error_dates.deep_view().len() == self.error_dates.len());
        let read = read_lists(
            &self.error_log,
            &self.error_dates,
            self.error_date_selected,
            &mut self.download_errors,
            &mut self.convert_errors,
            &mut self.refresh_errors,
        );
        if read {
            self.error_selected = 0;
        }
    }

    /// How many records the list of the selected kind holds.
    pub fn current_error_count(&self) -> (count: usize)
        ensures
            count == self.shown_count(),
    {
        match self.error_tab {
            ErrorTab::Download => self.download_errors.len(),
            ErrorTab::Convert => self.convert_errors.len(),
            ErrorTab::Refresh => self.refresh_errors.len(),
        }
    }

    /// The date after the one at `selected` of `count` dates: the first
    /// one after the last.
    pub open spec fn date_after(selected: usize, count: nat) -> usize {
        if selected >= count - 1 {
            0
        } else {
            (selected + 1) as usize
        }
    }

    /// The date before the one at `selected` of `count` dates: the last
    /// one before the first.
    pub open spec fn date_before(selected: usize, count: nat) -> usize {
        if selected == 0 || selected >= count {
            (count - 1) as usize
        } else {
            (selected - 1) as usize
        }
    }

    /// Whether `after` is `before` with the date at `to` selected and
    /// shown; nothing changes where no dates are listed.
    pub open spec fn turned(before: ErrorWindow, after: ErrorWindow, to: usize) -> bool {
        if before.error_dates@.len() == 0 {
            after == before
        } else {
            &&& after == (ErrorWindow {
                error_date_selected: to,
                download_errors: after.download_errors,
                convert_errors: after.convert_errors,
                refresh_errors: after.refresh_errors,
                error_selected: 0,
                ..before
            })
            &&& to < before.error_dates@.len()
            &&& after.lists() == lists_on(
                before.error_log@,
                before.error_dates.deep_view()[to as int],
            )
        }
    }

    /// Selects the next date.
    pub fn error_date_next(&mut self)
        ensures
            Self::turned(
                *old(self),
                *final(self),
                Self::date_after(old(self).error_date_selected, old(self).error_dates@.len()),
            ),
    {
        assert(self.error_dates.deep_view().len() == self.error_dates.len());
        if self.error_dates.len() > 0 {
            self.error_date_selected = if self.error_date_selected >= self.error_dates.len() - 1 {
                0
            } else {
                self.error_date_selected + 1
            };
            read_lists(
                &self.error_log,
                &self.error_dates,
                self.error_date_selected,
                &mut self.download_errors,
                &mut self.convert_errors,
                &mut self.refresh_errors,
            );
            self.error_selected = 0;
        }
    }

    /// Selects the date before.
    pub fn error_date_prev(&mut self)
        ensures
            Self::turned(
                *old(self),
                *final(self),
                Self::date_before(old(self).error_date_selected, old(self).error_dates@.len()),
            ),
    {
        assert(self.error_dates.deep_view().len() == self.error_dates.len());
        if self.error_dates.len() > 0 {
            self.error_date_selected = if self.error_date_selected == 0
                || self.error_date_selected >= self.error_dates.len() {
                self.error_dates.len() - 1
            } else {
                self.error_date_selected - 1
            };
            read_lists(
                &self.error_log,
                &self.error_dates,
                self.error_date_selected,
                &mut self.download_errors,
                &mut self.convert_errors,
                &mut self.refresh_errors,
            );
            self.error_selected = 0;
        }
    }

    pub open spec fn tab_after(tab: ErrorTab) -> ErrorTab {
        match tab {
            ErrorTab::Download => ErrorTab::Convert,
            ErrorTab::Convert => ErrorTab::Refresh,
            ErrorTab::Refresh => ErrorTab::Download,
        }
    }

    pub open spec fn tab_before(tab: ErrorTab) -> ErrorTab {
        match tab {
            ErrorTab::Download => ErrorTab::Refresh,
            ErrorTab::Convert => ErrorTab::Download,
            ErrorTab::Refresh => ErrorTab::Convert,
        }
    }

    pub fn error_tab_next(&mut self)
        ensures
            *final(self) == (ErrorWindow {
                error_tab: Self::tab_after(old(self).error_tab),
                error_selected: 0,
                ..*old(self)
            }),
    {
        self.error_tab = match self.error_tab {
            ErrorTab::Download => ErrorTab::Convert,
            ErrorTab::Convert => ErrorTab::Refresh,
            ErrorTab::Refresh => ErrorTab::Download,
        };
        self.error_selected = 0;
    }

    pub fn error_tab_prev(&mut self)
        ensures
            *final(self) == (ErrorWindow {
                error_tab: Self::tab_before(old(self).error_tab),
                error_selected: 0,
                ..*old(self)
            }),
    {
        self.error_tab = match self.error_tab {
            ErrorTab::Download => ErrorTab::Refresh,
            ErrorTab::Convert => ErrorTab::Download,
            ErrorTab::Refresh => ErrorTab::Convert,
        };
        self.error_selected = 0;
    }

    pub fn error_up(&mut self)
        ensures
            *final(self) == (ErrorWindow {
                error_selected: step_down(old(self).error_selected),
                ..*old(self)
            }),
    {
        if self.error_selected > 0 {
            self.error_selected = self.error_selected - 1;
        }
    }

    pub fn error_down(&mut self)
        ensures
            *final(self) == (ErrorWindow {
                error_selected: step_up(old(self).error_selected, old(self).shown_count()),
                ..*old(self)
            }),
    {
        let count = self.current_error_count();
        if count > 0 && self.error_selected < count - 1 {
            self.error_selected = self.error_selected + 1;
        }
    }

    /// Whether `after` is `before` read again from the journal: the dates
    /// are listed again, the selection goes back to the first date when it
    /// points beyond the last, and the lists are read for the selected
    /// date.
    pub open spec fn refreshed(before: ErrorWindow, after: ErrorWindow) -> bool {
        let j = before.error_log@;
        &&& after.error_log == before.error_log
        &&& after.error_tab == before.error_tab
        &&& after.error_dates.deep_view() == dates_listed(j)
        &&& after.error_date_selected == reselected(
            before.error_date_selected,
            dates_listed(j).len(),
        )
        &&& after.lists() == lists_read(
            j,
            dates_listed(j),
            after.error_date_selected,
            before.lists(),
        )
        &&& after.error_selected == if dates_listed(j).len() > 0 {
            0
        } else {
            before.error_selected
        }
    }

    /// Reads the window again from the journal.
    pub fn refresh_error_logs(&mut self)
        ensures
            Self::refreshed(*old(self), *final(self)),
    {
        self.error_dates = self.error_log.list_dates();
        assert(self.error_dates.deep_view().len() == self.error_dates.len());
        if self.error_date_selected >= self.error_dates.len() {
            self.error_date_selected = 0;
        }
        let read = read_lists(
            &self.error_log,
            &self.error_dates,
            self.error_date_selected,
            &mut self.download_errors,
            &mut self.convert_errors,
            &mut self.refresh_errors,
        );
        if read {
            self.error_selected = 0;
        }
    }

    /// Whether `after` is `before` with all records of the selected date
    /// cleared, and the window read again with the first date selected.
    pub open spec fn date_cleared(before: ErrorWindow, after: ErrorWindow) -> bool {
        match before.selected_date() {
            None => after == before,
            Some(date) => {
                let j = without_date(before.error_log@, date);
                &&& after.error_log@ == j
                &&& after.error_log.base() == before.error_log.base()
                &&& after.error_log.pending_ops() == before.error_log.pending_ops().push(
                    StoreOpView::DeleteDate { date },
                )
                &&& after.error_tab == before.error_tab
                &&& after.error_dates.deep_view() == dates_listed(j)
                &&& after.error_date_selected == 0
                &&& after.lists() == lists_read(j, dates_listed(j), 0, before.lists())
                &&& after.error_selected == if dates_listed(j).len() > 0 {
                    0
                } else {
                    before.error_selected
                }
            },
        }
    }

    /// Clears all records of the selected date, and gives the text for
    /// the status line; nothing happens where no date is selected.
    pub fn clear_current_date_errors(&mut self) -> (status: Option<String>)
        ensures
            Self::date_cleared(*old(self), *final(self)),
            status.deep_view() == match old(self).selected_date() {
                Some(date) => Some(cleared_date_text(date)),
                None => None,
            },
    {
        assert(self.error_dates.deep_view().len() == self.error_dates.len());
        if self.error_date_selected >= self.error_dates.len() {
            return None;
        }
        let date = self.error_dates[self.error_date_selected].clone();
        assert(self.error_dates.deep_view()[self.error_date_selected as int] == date@);
        self.error_log.clear_date(date.as_str());
        self.error_dates = self.error_log.list_dates();
        self.error_date_selected = 0;
        let read = read_lists(
            &self.error_log,
            &self.error_dates,
            0,
            &mut self.download_errors,
            &mut self.convert_errors,
            &mut self.refresh_errors,
        );
        if read {
            self.error_selected = 0;
        }
        Some(cleared_date(date.as_str()))
    }
}

/// The journal `j` without the records of the kind `tab` that have the
/// identifier `id` in the partition of `date`.
pub open spec fn journal_without(
    j: Seq<PartitionView>,
    tab: ErrorTab,
    date: Seq<char>,
    id: Seq<char>,
) -> Seq<PartitionView> {
    match tab {
        ErrorTab::Download => without_entry::<DownloadErrorEntry>(j, date, id),
        ErrorTab::Convert => without_entry::<ConvertErrorEntry>(j, date, id),
        ErrorTab::Refresh => without_entry::<RefreshErrorEntry>(j, date, id),
    }
}

/// Whether the partition of `date` holds a record of the kind `tab` with
/// the identifier `id`.
pub open spec fn journal_holds(
    j: Seq<PartitionView>,
    tab: ErrorTab,
    date: Seq<char>,
    id: Seq<char>,
) -> bool {
    match tab {
        ErrorTab::Download => holds_id::<DownloadErrorEntry>(j, date, id),
        ErrorTab::Convert => holds_id::<ConvertErrorEntry>(j, date, id),
        ErrorTab::Refresh => holds_id::<RefreshErrorEntry>(j, date, id),
    }
}

/// What the stored form has to do after `journal_without` took a record
/// away.
pub open spec fn removal_op(
    j: Seq<PartitionView>,
    tab: ErrorTab,
    date: Seq<char>,
    id: Seq<char>,
) -> StoreOpView {
    match tab {
        ErrorTab::Download => store_op(
            date,
            DownloadErrorEntry::as_list(
                file_for(without_id::<DownloadErrorEntry>(listed::<DownloadErrorEntry>(j, date), id)),
            ),
        ),
        ErrorTab::Convert => store_op(
            date,
            ConvertErrorEntry::as_list(
                file_for(without_id::<ConvertErrorEntry>(listed::<ConvertErrorEntry>(j, date), id)),
            ),
        ),
        ErrorTab::Refresh => store_op(
            date,
            RefreshErrorEntry::as_list(
                file_for(without_id::<RefreshErrorEntry>(listed::<RefreshErrorEntry>(j, date), id)),
            ),
        ),
    }
}

/// The journal `j` after a retry of the record of the kind `tab` with the
/// identifier `id` in the partition of `date` failed at the moment `at`.
pub open spec fn journal_retried(
    j: Seq<PartitionView>,
    tab: ErrorTab,
    date: Seq<char>,
    id: Seq<char>,
    at: Timestamp,
) -> Seq<PartitionView> {
    match tab {
        ErrorTab::Download => with_retried::<DownloadErrorEntry>(j, date, id, at),
        ErrorTab::Convert => with_retried::<ConvertErrorEntry>(j, date, id, at),
        ErrorTab::Refresh => with_retried::<RefreshErrorEntry>(j, date, id, at),
    }
}

/// The kind of record that a tab of the window lists.
pub open spec fn kind_of(tab: ErrorTab) -> ErrorType {
    match tab {
        ErrorTab::Download => ErrorType::Download,
        ErrorTab::Convert => ErrorType::Convert,
        ErrorTab::Refresh => ErrorType::Refresh,
    }
}

/// Takes the records of the kind `tab` with the identifier `id` out of the
/// partition of `date`.
pub fn remove_from(journal: &mut ErrorLogManager, tab: ErrorTab, date: &str, id: &str) -> (removed:
    bool)
    ensures
        removed == journal_holds(old(journal)@, tab, date@, id@),
        final(journal)@ == journal_without(old(journal)@, tab, date@, id@),
        final(journal).base() == old(journal).base(),
        final(journal).pending_ops() == if removed {
            old(journal).pending_ops().push(removal_op(old(journal)@, tab, date@, id@))
        } else {
            old(journal).pending_ops()
        },
{
    match tab {
        ErrorTab::Download => journal.remove_download_error(date, id),
        ErrorTab::Convert => journal.remove_convert_error(date, id),
        ErrorTab::Refresh => journal.remove_refresh_error(date, id),
    }
}

/// Records that a retry of the record of the kind `tab` with the
/// identifier `id` in the partition of `date` failed at the moment `at`.
pub fn retry_in(journal: &mut ErrorLogManager, tab: ErrorTab, date: &str, id: &str, at: Timestamp)
    ensures
        final(journal)@ == journal_retried(old(journal)@, tab, date@, id@, at),
        final(journal).base() == old(journal).base(),
        final(journal).pending_ops() == if journal_holds(old(journal)@, tab, date@, id@) {
            old(journal).pending_ops().push(
                StoreOpView::Write { date: date@, kind: kind_of(tab) },
            )
        } else {
            old(journal).pending_ops()
        },
{
    match tab {
        ErrorTab::Download => journal.increment_download_retry_at(date, id, at),
        ErrorTab::Convert => journal.increment_convert_retry_at(date, id, at),
        ErrorTab::Refresh => journal.increment_refresh_retry_at(date, id, at),
    }
}

impl ErrorWindow {
    /// The identifier of the selected record, if one is selected.
    pub open spec fn selected_id(&self) -> Option<Seq<char>> {
        match self.error_tab {
            ErrorTab::Download => if self.error_selected < self.download_errors@.len() {
                Some(self.download_errors.deep_view()[self.error_selected as int].id)
            } else {
                None
            },
            ErrorTab::Convert => if self.error_selected < self.convert_errors@.len() {
                Some(self.convert_errors.deep_view()[self.error_selected as int].id)
            } else {
                None
            },
            ErrorTab::Refresh => if self.error_selected < self.refresh_errors@.len() {
                Some(self.refresh_errors.deep_view()[self.error_selected as int].id)
            } else {
                None
            },
        }
    }

    /// The identifier of the selected record.
    pub fn selected_entry_id(&self) -> (id: Option<String>)
        ensures
            id.deep_view() == self.selected_id(),
    {
        match self.error_tab {
            ErrorTab::Download => if self.error_selected < self.download_errors.len() {
                assert(self.download_errors.deep_view()[self.error_selected as int]
                    == self.download_errors@[self.error_selected as int]@);
                Some(self.download_errors[self.error_selected].id.clone())
            } else {
                None
            },
            ErrorTab::Convert => if self.error_selected < self.convert_errors.len() {
                assert(self.convert_errors.deep_view()[self.error_selected as int]
                    == self.convert_errors@[self.error_selected as int]@);
                Some(self.convert_errors[self.error_selected].id.clone())
            } else {
                None
            },
            ErrorTab::Refresh => if self.error_selected < self.refresh_errors.len() {
                assert(self.refresh_errors.deep_view()[self.error_selected as int]
                    == self.refresh_errors@[self.error_selected as int]@);
                Some(self.refresh_errors[self.error_selected].id.clone())
            } else {
                None
            },
        }
    }

    /// The selected date.
    pub fn selected_date_text(&self) -> (date: Option<String>)
        ensures
            date.deep_view() == self.selected_date(),
    {
        assert(self.error_dates.deep_view().len() == self.error_dates.len());
        if self.error_date_selected < self.error_dates.len() {
            assert(self.error_dates.deep_view()[self.error_date_selected as int]
                == self.error_dates@[self.error_date_selected as int]@);
            Some(self.error_dates[self.error_date_selected].clone())
        } else {
            None
        }
    }

    /// The identifier and the date of the selected record, and the kind
    /// of list it stands in.
    pub fn get_selected_error_info(&self) -> (info: Option<(String, String, ErrorTab)>)
        ensures
            match info {
                Some((id, date, tab)) => self.selected_id() == Some(id@) && self.selected_date()
                    == Some(date@) && tab == self.error_tab,
                None => self.selected_id() is None || self.selected_date() is None,
            },
    {
        let date = match self.selected_date_text() {
            Some(d) => d,
            None => {
                return None;
            },
        };
        match self.selected_entry_id() {
            Some(id) => Some((id, date, self.error_tab)),
            None => None,
        }
    }

    /// Whether `after` is `before` read again after the journal changed:
    /// the dates are listed again, a selection beyond the last date goes
    /// to the last date, and the lists are read for the selected date.
    pub open spec fn reread(before: ErrorWindow, after: ErrorWindow) -> bool {
        let j = after.error_log@;
        &&& after.error_tab == before.error_tab
        &&& after.error_dates.deep_view() == dates_listed(j)
        &&& after.error_date_selected == clamped(
            before.error_date_selected,
            dates_listed(j).len(),
        )
        &&& after.lists() == if dates_listed(j).len() > 0 {
            lists_on(j, dates_listed(j)[after.error_date_selected as int])
        } else {
            no_lists()
        }
        &&& after.error_selected == 0
    }

    /// Reads the window again after the journal changed.
    fn reread_after_change(&mut self)
        ensures
            Self::reread(*old(self), *final(self)),
            final(self).error_log == old(self).error_log,
    {
        self.error_dates = self.error_log.list_dates();
        assert(self.error_dates.deep_view().len() == self.error_dates.len());
        if self.error_date_selected >= self.error_dates.len() && self.error_dates.len() > 0 {
            self.error_date_selected = self.error_dates.len() - 1;
        }
        let read = read_lists(
            &self.error_log,
            &self.error_dates,
            self.error_date_selected,
            &mut self.download_errors,
            &mut self.convert_errors,
            &mut self.refresh_errors,
        );
        if !read {
            clear_lists(
                &mut self.download_errors,
                &mut self.convert_errors,
                &mut self.refresh_errors,
            );
        }
        self.error_selected = 0;
    }

    /// Whether the selected record is in the journal, so that deleting it
    /// removes something.
    pub open spec fn can_delete(&self) -> bool {
        self.selected_date() is Some && self.selected_id() is Some && journal_holds(
            self.error_log@,
            self.error_tab,
            self.selected_date()->0,
            self.selected_id()->0,
        )
    }

    /// Whether `after` is `before` with the selected record deleted from
    /// the journal and the window read again; nothing changes where
    /// nothing is deleted.
    pub open spec fn deleted(before: ErrorWindow, after: ErrorWindow) -> bool {
        if before.can_delete() {
            let date = before.selected_date()->0;
            let id = before.selected_id()->0;
            &&& after.error_log@ == journal_without(
                before.error_log@,
                before.error_tab,
                date,
                id,
            )
            &&& after.error_log.base() == before.error_log.base()
            &&& after.error_log.pending_ops() == before.error_log.pending_ops().push(
                removal_op(before.error_log@, before.error_tab, date, id),
            )
            &&& Self::reread(before, after)
        } else {
            &&& after == (ErrorWindow { error_log: after.error_log, ..before })
            &&& after.error_log@ == before.error_log@
            &&& after.error_log.base() == before.error_log.base()
            &&& after.error_log.pending_ops() == before.error_log.pending_ops()
        }
    }

    /// Deletes the selected record from the journal, and says whether
    /// something was deleted.
    pub fn delete_selected_error(&mut self) -> (removed: bool)
        ensures
            removed == old(self).can_delete(),
            Self::deleted(*old(self), *final(self)),
    {
        let date = match self.selected_date_text() {
            Some(d) => d,
            None => {
                return false;
            },
        };
        let id = match self.selected_entry_id() {
            Some(i) => i,
            None => {
                return false;
            },
        };
        let removed = remove_from(&mut self.error_log, self.error_tab, date.as_str(), id.as_str());
        if removed {
            self.reread_after_change();
        }
        removed
    }

    /// Whether `after` is `before` with a retry settled at the moment
    /// `at`: the record that was tried again goes from the journal where
    /// the retry succeeded, and has its counter moved up where it failed;
    /// then the window is read again.
    pub open spec fn settled(
        before: ErrorWindow,
        after: ErrorWindow,
        tab: ErrorTab,
        date: Seq<char>,
        id: Seq<char>,
        succeeded: bool,
        at: Timestamp,
    ) -> bool {
        let j = before.error_log@;
        &&& after.error_log@ == if succeeded {
            journal_without(j, tab, date, id)
        } else {
            journal_retried(j, tab, date, id, at)
        }
        &&& after.error_log.base() == before.error_log.base()
        &&& after.error_log.pending_ops() == if !journal_holds(j, tab, date, id) {
            before.error_log.pending_ops()
        } else if succeeded {
            before.error_log.pending_ops().push(removal_op(j, tab, date, id))
        } else {
            before.error_log.pending_ops().push(
                StoreOpView::Write { date, kind: kind_of(tab) },
            )
        }
        &&& Self::reread(before, after)
    }

    /// Settles the retry of the record of the kind `tab` with the
    /// identifier `id` in the partition of `date`; `at` is the moment of
    /// the failure where it failed.
    pub fn settle_at(&mut self, tab: ErrorTab, date: &str, id: &str, succeeded: bool, at: Timestamp)
        ensures
            Self::settled(*old(self), *final(self), tab, date@, id@, succeeded, at),
    {
        if succeeded {
            remove_from(&mut self.error_log, tab, date, id);
        } else {
            retry_in(&mut self.error_log, tab, date, id, at);
        }
        self.reread_after_change();
    }

    /// Settles a retry now. The moment of a failure comes from the clock;
    /// the window is the one that `settle_at` gives for some moment.
    pub fn settle(&mut self, tab: ErrorTab, date: &str, id: &str, succeeded: bool)
        ensures
            exists|at: Timestamp|
                #[trigger] Self::settled(*old(self), *final(self), tab, date@, id@, succeeded, at),
    {
        let at = now();
        self.settle_at(tab, date, id, succeeded, at);
    }
}

} // verus!
