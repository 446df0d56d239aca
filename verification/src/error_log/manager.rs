//! The journal in memory, and the list of changes that its stored form has
//! to follow.

use crate::error_log::clock::{date_parses, now, today, Timestamp};
use crate::error_log::entries::{
    ConvertErrorEntry, DownloadErrorEntry, Entry, ErrorType, RefreshErrorEntry,
};
use crate::error_log::journal::{
    all_listed, blank, capped, counts_on, counts_over, dated, dates_listed, entries, file_for,
    find_date, first_with_id, found_in, gathered, has_files, holds_id, kind_deletions,
    lemma_find_date, lemma_first_with_id, lemma_stored, lemma_without_id, listed, no_file,
    normalized, partition_of, put, store_op, stored, valid_dates, well_formed, with_entry,
    with_retried, with_retry, without_date, without_entry, without_id, without_kind, Filed,
    LatestFirst, Lists, NewestFirst, Partition, PartitionView, StoreOp, StoreOpView,
};
use crate::paths::join;
use crate::sorting::sort_by;
use vstd::prelude::*;
use vstd::string::StringExecFns;

verus! {

/// The partitions, kept well formed.
struct Image {
    partitions: Vec<Partition>,
}

impl Image {
    #[verifier::type_invariant]
    spec fn is_journal(&self) -> bool {
        well_formed(self.partitions.deep_view())
    }

    closed spec fn view(&self) -> Seq<PartitionView> {
        self.partitions.deep_view()
    }

    fn new() -> (image: Image)
        ensures
            image.view() == Seq::<PartitionView>::empty(),
    {
        let partitions: Vec<Partition> = Vec::new();
        assert(partitions.deep_view() =~= Seq::<PartitionView>::empty());
        Image { partitions }
    }

    /// Hands the partitions out and leaves none behind.
    fn take(&mut self) -> (partitions: Vec<Partition>)
        ensures
            partitions.deep_view() == old(self).view(),
            well_formed(partitions.deep_view()),
            final(self).view() == Seq::<PartitionView>::empty(),
    {
        proof {
            use_type_invariant(&*self);
        }
        let mut partitions: Vec<Partition> = Vec::new();
        assert(partitions.deep_view() =~= Seq::<PartitionView>::empty());
        core::mem::swap(&mut self.partitions, &mut partitions);
        partitions
    }

    fn len(&self) -> (n: usize)
        ensures
            n == self.view().len(),
            well_formed(self.view()),
    {
        proof {
            use_type_invariant(self);
        }
        self.partitions.len()
    }

    #[verifier::loop_isolation(false)]
    fn position(&self, date: &str) -> (at: Option<usize>)
        ensures
            well_formed(self.view()),
            match at {
                Some(i) => i < self.view().len() && find_date(self.view(), date@) == i,
                None => find_date(self.view(), date@) == -1,
            },
    {
        proof {
            use_type_invariant(self);
            lemma_find_date(self.view(), date@);
        }
        let mut i: usize = 0;
        while i < self.partitions.len()
            invariant
                i <= self.partitions.len(),
                forall|k: int| 0 <= k < i ==> (#[trigger] self.view()[k]).date != date@,
            decreases self.partitions.len() - i,
        {
            if crate::text::text_eq(self.partitions[i].date.as_str(), date) {
                assert(self.view()[i as int].date == date@);
                return Some(i);
            }
            i += 1;
        }
        None
    }

    fn store(&mut self, date: &str, lists: Lists)
        ensures
            final(self).view() == stored(old(self).view(), date@, lists@),
            well_formed(final(self).view()),
    {
        let at = self.position(date);
        let ghost before = self.view();
        proof {
            lemma_stored(before, date@, lists@);
        }
        let mut partitions = self.take();
        match at {
            None => {
                let p = Partition::blank(date).put(lists);
                if p.has_files() {
                    let ghost q = p@;
                    partitions.push(p);
                    assert(partitions.deep_view() =~= before.push(q));
                }
            },
            Some(i) => {
                let p = partitions.remove(i).put(lists);
                assert(partitions.deep_view() =~= before.remove(i as int));
                if p.has_files() {
                    let ghost q = p@;
                    partitions.insert(i, p);
                    assert(partitions.deep_view() =~= before.update(i as int, q));
                }
            },
        }
        self.partitions = partitions;
    }

    fn drop_date(&mut self, date: &str)
        ensures
            final(self).view() == without_date(old(self).view(), date@),
            well_formed(final(self).view()),
    {
        let at = self.position(date);
        let ghost before = self.view();
        match at {
            None => {},
            Some(i) => {
                let mut partitions = self.take();
                partitions.remove(i);
                proof {
                    let after = before.remove(i as int);
                    assert(partitions.deep_view() =~= after);
                    assert forall|a: int, b: int| 0 <= a < b < after.len() implies after[a].date
                        != after[b].date by {
                        let a0 = if a < i { a } else { a + 1 };
                        let b0 = if b < i { b } else { b + 1 };
                        assert(after[a] == before[a0]);
                        assert(after[b] == before[b0]);
                    }
                    assert forall|a: int| 0 <= a < after.len() implies has_files(
                        #[trigger] after[a],
                    ) by {
                        let a0 = if a < i { a } else { a + 1 };
                        assert(after[a] == before[a0]);
                    }
                }
                self.partitions = partitions;
            },
        }
    }

    fn clear(&mut self)
        ensures
            final(self).view() == Seq::<PartitionView>::empty(),
    {
        let _ = self.take();
    }
}

/// Manages the journal: partitions by date, one list of records per kind.
pub struct ErrorLogManager {
    base_path: String,
    image: Image,
    pending: Vec<StoreOp>,
}

impl View for ErrorLogManager {
    type V = Seq<PartitionView>;

    /// The partitions of the journal.
    closed spec fn view(&self) -> Seq<PartitionView> {
        self.image.view()
    }
}

impl ErrorLogManager {
    /// The directory under which the stored form lives.
    pub closed spec fn base(&self) -> Seq<char> {
        self.base_path@
    }

    /// The changes that the stored form has not followed yet, oldest first.
    pub closed spec fn pending_ops(&self) -> Seq<StoreOpView> {
        self.pending.deep_view()
    }

    /// An empty journal whose stored form lives under `base_path`.
    pub fn new(base_path: &str) -> (manager: ErrorLogManager)
        ensures
            manager@ == Seq::<PartitionView>::empty(),
            manager.base() == base_path@,
            manager.pending_ops() == Seq::<StoreOpView>::empty(),
    {
        let pending: Vec<StoreOp> = Vec::new();
        assert(pending.deep_view() =~= Seq::<StoreOpView>::empty());
        ErrorLogManager { base_path: String::from_str(base_path), image: Image::new(), pending }
    }

    /// The journal that the stored partitions `parts` give.
    #[verifier::loop_isolation(false)]
    pub fn from_partitions(base_path: &str, parts: Vec<Partition>) -> (manager: ErrorLogManager)
        ensures
            manager@ == normalized(parts.deep_view()),
            well_formed(manager@),
            manager.base() == base_path@,
            manager.pending_ops() == Seq::<StoreOpView>::empty(),
    {
        let mut manager = ErrorLogManager::new(base_path);
        let mut rest = parts;
        let ghost all = rest.deep_view();
        let mut kept: Vec<Partition> = Vec::new();
        // The partitions are taken from the end, so they are first turned
        // round.
        let mut stack: Vec<Partition> = Vec::new();
        while rest.len() > 0
            invariant
                rest.len() + stack.len() == all.len(),
                forall|k: int|
                    0 <= k < stack.len() ==> (#[trigger] stack@[k])@ == all[all.len() - 1 - k],
                forall|k: int| 0 <= k < rest.len() ==> (#[trigger] rest@[k])@ == all[k],
            decreases rest.len(),
        {
            let p = rest.pop().unwrap();
            stack.push(p);
        }
        assert(kept.deep_view() =~= normalized(all.take(0)));
        while stack.len() > 0
            invariant
                stack.len() <= all.len(),
                forall|k: int|
                    0 <= k < stack.len() ==> (#[trigger] stack@[k])@ == all[all.len() - 1 - k],
                kept.deep_view() == normalized(all.take(all.len() - stack.len())),
                well_formed(kept.deep_view()),
            decreases stack.len(),
        {
            let ghost done = all.len() - stack.len();
            let p = stack.pop().unwrap();
            let ghost before = kept.deep_view();
            proof {
                assert(all.take(done + 1).drop_last() =~= all.take(done));
                assert(all.take(done + 1).last() == p@);
                lemma_find_date(before, p@.date);
            }
            if p.has_files() && !holds_date(&kept, p.date.as_str()) {
                let ghost q = p@;
                kept.push(p);
                proof {
                    let after = before.push(q);
                    assert(kept.deep_view() =~= after);
                    assert forall|a: int, b: int| 0 <= a < b < after.len() implies after[a].date
                        != after[b].date by {
                        if b < before.len() {
                        } else {
                            assert(after[a] == before[a]);
                        }
                    }
                }
            }
        }
        assert(all.take(all.len() as int) =~= all);
        manager.image = Image { partitions: kept };
        manager
    }

    /// The changes that the stored form has to follow, oldest first; they
    /// count as followed from now on.
    pub fn take_pending(&mut self) -> (ops: Vec<StoreOp>)
        ensures
            ops.deep_view() == old(self).pending_ops(),
            final(self).pending_ops() == Seq::<StoreOpView>::empty(),
            final(self)@ == old(self)@,
            final(self).base() == old(self).base(),
    {
        let mut ops: Vec<StoreOp> = Vec::new();
        assert(ops.deep_view() =~= Seq::<StoreOpView>::empty());
        core::mem::swap(&mut self.pending, &mut ops);
        ops
    }

    /// Whether the stored form has changes to follow.
    pub fn has_pending(&self) -> (any: bool)
        ensures
            any == (self.pending_ops().len() > 0),
    {
        self.pending.len() > 0
    }

    /// The partitions as they stand, for writing them out.
    pub fn partitions(&self) -> (parts: &Vec<Partition>)
        ensures
            parts.deep_view() == self@,
            well_formed(self@),
    {
        proof {
            use_type_invariant(&self.image);
        }
        &self.image.partitions
    }

    /// The directory under which the stored form lives.
    pub fn base_path(&self) -> (path: &str)
        ensures
            path@ == self.base(),
    {
        self.base_path.as_str()
    }

    /// The path of the file for a date and a kind.
    pub fn get_log_path(&self, date: &str, error_type: ErrorType) -> (path: String)
        ensures
            path@ == crate::paths::joined(
                crate::paths::joined(self.base(), date@),
                error_type.file_name(),
            ),
    {
        let dir = join(self.base_path.as_str(), date);
        join(dir.as_str(), error_type.filename())
    }

    fn store(&mut self, date: &str, lists: Lists)
        ensures
            final(self)@ == stored(old(self)@, date@, lists@),
            well_formed(final(self)@),
            final(self).pending_ops() == old(self).pending_ops().push(store_op(date@, lists@)),
            final(self).base() == old(self).base(),
    {
        let op = if lists.is_file() {
            StoreOp::Write { date: String::from_str(date), kind: lists.kind() }
        } else {
            StoreOp::Delete { date: String::from_str(date), kind: lists.kind() }
        };
        self.image.store(date, lists);
        let ghost before = self.pending.deep_view();
        let ghost o = op@;
        self.pending.push(op);
        assert(self.pending.deep_view() =~= before.push(o));
    }

    /// The records of one kind in the partition of `date`.
    fn list_for<E: Filed>(&self, date: &str) -> (list: Vec<E>)
        ensures
            list.deep_view() == listed::<E>(self@, date@),
            well_formed(self@),
    {
        match self.image.position(date) {
            Some(i) => E::copy_from(&self.image.partitions[i]),
            None => {
                proof {
                    E::lemma_filed(blank(date@), None);
                }
                let list: Vec<E> = Vec::new();
                assert(list.deep_view() =~= Seq::<E::V>::empty());
                list
            },
        }
    }

    fn add_entry_on<E: Filed>(&mut self, date: &str, entry: E)
        ensures
            final(self)@ == with_entry::<E>(old(self)@, date@, entry.deep_view()),
            well_formed(final(self)@),
            final(self).pending_ops() == old(self).pending_ops().push(
                StoreOpView::Write { date: date@, kind: E::kind() },
            ),
            final(self).base() == old(self).base(),
    {
        let mut list = self.list_for::<E>(date);
        let ghost before = list.deep_view();
        let ghost e = entry.deep_view();
        list.push(entry);
        assert(list.deep_view() =~= before.push(e));
        proof {
            E::lemma_filed(blank(date@), Some(before.push(e)));
        }
        self.store(date, E::into_lists(Some(list)));
    }

    #[verifier::loop_isolation(false)]
    fn remove_entry<E: Filed>(&mut self, date: &str, id: &str) -> (removed: bool)
        ensures
            removed == holds_id::<E>(old(self)@, date@, id@),
            final(self)@ == without_entry::<E>(old(self)@, date@, id@),
            well_formed(final(self)@),
            final(self).pending_ops() == if removed {
                old(self).pending_ops().push(
                    store_op(
                        date@,
                        E::as_list(file_for(without_id::<E>(listed::<E>(old(self)@, date@), id@))),
                    ),
                )
            } else {
                old(self).pending_ops()
            },
            final(self).base() == old(self).base(),
    {
        let list = self.list_for::<E>(date);
        let ghost all = list.deep_view();
        let mut kept: Vec<E> = Vec::new();
        let mut i: usize = 0;
        assert(kept.deep_view() =~= without_id::<E>(all.take(0), id@));
        while i < list.len()
            invariant
                i <= list.len(),
                all == list.deep_view(),
                kept.deep_view() == without_id::<E>(all.take(i as int), id@),
            decreases list.len() - i,
        {
            proof {
                assert(all.take(i + 1).drop_last() =~= all.take(i as int));
                assert(all.take(i + 1).last() == list@[i as int].deep_view());
            }
            if !list[i].has_id(id) {
                let ghost before = kept.deep_view();
                let e = list[i].duplicate();
                kept.push(e);
                assert(kept.deep_view() =~= before.push(e.deep_view()));
            }
            i += 1;
        }
        proof {
            assert(all.take(all.len() as int) =~= all);
            lemma_without_id::<E>(all, id@);
        }
        if kept.len() != list.len() {
            let file = if kept.len() == 0 {
                None
            } else {
                Some(kept)
            };
            self.store(date, E::into_lists(file));
            true
        } else {
            false
        }
    }

    fn retry_entry_at<E: Filed>(&mut self, date: &str, id: &str, at: Timestamp)
        ensures
            final(self)@ == with_retried::<E>(old(self)@, date@, id@, at),
            well_formed(final(self)@),
            final(self).pending_ops() == if holds_id::<E>(old(self)@, date@, id@) {
                old(self).pending_ops().push(StoreOpView::Write { date: date@, kind: E::kind() })
            } else {
                old(self).pending_ops()
            },
            final(self).base() == old(self).base(),
    {
        let mut list = self.list_for::<E>(date);
        let ghost all = list.deep_view();
        match index_of_id(&list, id) {
            Some(i) => {
                let mut e = list.remove(i);
                e.retry(at);
                let ghost r = e.deep_view();
                list.insert(i, e);
                assert(list.deep_view() =~= all.update(i as int, r));
                proof {
                    E::lemma_filed(blank(date@), Some(list.deep_view()));
                }
                self.store(date, E::into_lists(Some(list)));
            },
            None => {},
        }
    }

    /// List all dates that have records and read as dates, the latest
    /// first.
    #[verifier::loop_isolation(false)]
    pub fn list_dates(&self) -> (dates: Vec<String>)
        ensures
            dates.deep_view() == dates_listed(self@),
            well_formed(self@),
    {
        let n = self.image.len();
        let ghost j = self@;
        let mut valid: Vec<String> = Vec::new();
        let mut i: usize = 0;
        assert(valid.deep_view() =~= valid_dates(j.take(0)));
        while i < n
            invariant
                i <= n,
                n == self.image.partitions.len(),
                j == self.image.partitions.deep_view(),
                valid.deep_view() == valid_dates(j.take(i as int)),
            decreases n - i,
        {
            proof {
                assert(j.take(i + 1).drop_last() =~= j.take(i as int));
                assert(j.take(i + 1).last() == self.image.partitions@[i as int]@);
            }
            if date_parses(self.image.partitions[i].date.as_str()) {
                let ghost before = valid.deep_view();
                let d = self.image.partitions[i].date.clone();
                valid.push(d);
                assert(valid.deep_view() =~= before.push(d@));
            }
            i += 1;
        }
        assert(j.take(j.len() as int) =~= j);
        sort_by::<String, LatestFirst>(valid)
    }

    #[verifier::loop_isolation(false)]
    fn all_entries<E: Filed>(&self) -> (all: Vec<(String, E)>)
        ensures
            all.deep_view() == all_listed::<E>(self@),
            well_formed(self@),
    {
        let dates = self.list_dates();
        let ghost ds = dates.deep_view();
        let ghost j = self@;
        let mut found: Vec<(String, E)> = Vec::new();
        let mut i: usize = 0;
        assert(found.deep_view() =~= gathered::<E>(j, ds.take(0)));
        while i < dates.len()
            invariant
                i <= dates.len(),
                ds == dates.deep_view(),
                j == self@,
                found.deep_view() == gathered::<E>(j, ds.take(i as int)),
            decreases dates.len() - i,
        {
            let list = self.list_for::<E>(dates[i].as_str());
            let ghost l = list.deep_view();
            let ghost base = found.deep_view();
            let ghost date = dates@[i as int]@;
            proof {
                assert(ds.take(i + 1).drop_last() =~= ds.take(i as int));
                assert(ds.take(i + 1).last() == date);
            }
            let mut k: usize = 0;
            assert(found.deep_view() =~= base + dated(date, l.take(0)));
            while k < list.len()
                invariant
                    k <= list.len(),
                    i < dates.len(),
                    l == list.deep_view(),
                    date == dates@[i as int]@,
                    found.deep_view() == base + dated(date, l.take(k as int)),
                decreases list.len() - k,
            {
                let ghost before = found.deep_view();
                let pair = (dates[i].clone(), list[k].duplicate());
                let ghost pv = pair.deep_view();
                found.push(pair);
                proof {
                    assert(found.deep_view() =~= before.push(pv));
                    assert(pv == (date, l[k as int]));
                    assert(dated(date, l.take(k + 1)) =~= dated(date, l.take(k as int)).push(pv));
                    assert(base + dated(date, l.take(k + 1)) =~= (base + dated(
                        date,
                        l.take(k as int),
                    )).push(pv));
                }
                k += 1;
            }
            assert(l.take(l.len() as int) =~= l);
            i += 1;
        }
        assert(ds.take(ds.len() as int) =~= ds);
        sort_by::<(String, E), NewestFirst>(found)
    }

    #[verifier::loop_isolation(false)]
    fn find_entry<E: Filed>(&self, id: &str) -> (hit: Option<(String, E)>)
        ensures
            hit.deep_view() == found_in::<E>(self@, dates_listed(self@), id@),
    {
        let dates = self.list_dates();
        let ghost ds = dates.deep_view();
        let ghost j = self@;
        let mut i: usize = 0;
        assert(ds.skip(0) =~= ds);
        while i < dates.len()
            invariant
                i <= dates.len(),
                ds == dates.deep_view(),
                j == self@,
                found_in::<E>(j, ds, id@) == found_in::<E>(j, ds.skip(i as int), id@),
            decreases dates.len() - i,
        {
            let list = self.list_for::<E>(dates[i].as_str());
            let ghost l = list.deep_view();
            proof {
                lemma_first_with_id::<E>(l, id@);
                assert(ds.skip(i as int)[0] == dates@[i as int]@);
                assert(ds.skip(i as int).drop_first() =~= ds.skip(i + 1));
            }
            match index_of_id(&list, id) {
                Some(k) => {
                    return Some((dates[i].clone(), list[k].duplicate()));
                },
                None => {},
            }
            i += 1;
        }
        None
    }

    /// How many download, convert and refresh records the partition of
    /// `date` holds.
    pub fn get_error_counts(&self, date: &str) -> (counts: (usize, usize, usize))
        ensures
            counts.0 == counts_on(self@, date@).0,
            counts.1 == counts_on(self@, date@).1,
            counts.2 == counts_on(self@, date@).2,
    {
        match self.image.position(date) {
            Some(i) => {
                let p = &self.image.partitions[i];
                (
                    DownloadErrorEntry::count_in(p),
                    ConvertErrorEntry::count_in(p),
                    RefreshErrorEntry::count_in(p),
                )
            },
            None => (0, 0, 0),
        }
    }

    /// How many download, convert and refresh records the partitions of all
    /// listed dates hold together, each count as far as a machine word
    /// holds it.
    pub fn get_total_error_counts(&self) -> (counts: (usize, usize, usize))
        ensures
            counts.0 == capped(counts_over(self@, dates_listed(self@)).0),
            counts.1 == capped(counts_over(self@, dates_listed(self@)).1),
            counts.2 == capped(counts_over(self@, dates_listed(self@)).2),
    {
        let dates = self.list_dates();
        let ghost ds = dates.deep_view();
        let ghost j = self@;
        let mut download_total: usize = 0;
        let mut convert_total: usize = 0;
        let mut refresh_total: usize = 0;
        let mut i: usize = 0;
        while i < dates.len()
            invariant
                i <= dates.len(),
                ds == dates.deep_view(),
                j == self@,
                download_total == capped(counts_over(j, ds.take(i as int)).0),
                convert_total == capped(counts_over(j, ds.take(i as int)).1),
                refresh_total == capped(counts_over(j, ds.take(i as int)).2),
            decreases dates.len() - i,
        {
            proof {
                assert(ds.take(i + 1).drop_last() =~= ds.take(i as int));
                assert(ds.take(i + 1).last() == dates@[i as int]@);
            }
            let (d, c, r) = self.get_error_counts(dates[i].as_str());
            download_total = capped_sum(download_total, d);
            convert_total = capped_sum(convert_total, c);
            refresh_total = capped_sum(refresh_total, r);
            i += 1;
        }
        assert(ds.take(ds.len() as int) =~= ds);
        (download_total, convert_total, refresh_total)
    }

    /// Clear all records of a date.
    pub fn clear_date(&mut self, date: &str)
        ensures
            final(self)@ == without_date(old(self)@, date@),
            well_formed(final(self)@),
            final(self).pending_ops() == old(self).pending_ops().push(
                StoreOpView::DeleteDate { date: date@ },
            ),
            final(self).base() == old(self).base(),
    {
        self.image.drop_date(date);
        let ghost before = self.pending.deep_view();
        let op = StoreOp::DeleteDate { date: String::from_str(date) };
        let ghost o = op@;
        self.pending.push(op);
        assert(self.pending.deep_view() =~= before.push(o));
    }

    /// Clear all records of a kind, in the partitions of all listed dates.
    pub fn clear_error_type(&mut self, error_type: ErrorType)
        ensures
            final(self)@ == without_kind(old(self)@, dates_listed(old(self)@), error_type),
            well_formed(final(self)@),
            final(self).pending_ops() == old(self).pending_ops() + kind_deletions(
                dates_listed(old(self)@),
                error_type,
            ),
            final(self).base() == old(self).base(),
    {
        let dates = self.list_dates();
        let ghost ds = dates.deep_view();
        let ghost j = self@;
        let ghost ops = self.pending_ops();
        let ghost base = self.base();
        let mut i: usize = 0;
        assert(ops + kind_deletions(ds.take(0), error_type) =~= ops);
        while i < dates.len()
            invariant
                i <= dates.len(),
                ds == dates.deep_view(),
                self@ == without_kind(j, ds.take(i as int), error_type),
                well_formed(self@),
                self.pending_ops() == ops + kind_deletions(ds.take(i as int), error_type),
                self.base() == base,
            decreases dates.len() - i,
        {
            proof {
                assert(ds.take(i + 1).drop_last() =~= ds.take(i as int));
                assert(ds.take(i + 1).last() == dates@[i as int]@);
            }
            let ghost before = self.pending_ops();
            self.store(dates[i].as_str(), Lists::none_of(error_type));
            proof {
                let date = dates@[i as int]@;
                assert(store_op(date, no_file(error_type)) == StoreOpView::Delete {
                    date,
                    kind: error_type,
                });
                assert(kind_deletions(ds.take(i + 1), error_type) =~= kind_deletions(
                    ds.take(i as int),
                    error_type,
                ).push(StoreOpView::Delete { date, kind: error_type }));
                assert(ops + kind_deletions(ds.take(i + 1), error_type) =~= before.push(
                    StoreOpView::Delete { date, kind: error_type },
                ));
            }
            i += 1;
        }
        assert(ds.take(ds.len() as int) =~= ds);
    }

    /// Clear the whole journal.
    pub fn clear_all(&mut self)
        ensures
            final(self)@ == Seq::<PartitionView>::empty(),
            final(self).pending_ops() == old(self).pending_ops().push(StoreOpView::DeleteAll),
            final(self).base() == old(self).base(),
    {
        self.image.clear();
        let ghost before = self.pending.deep_view();
        self.pending.push(StoreOp::DeleteAll);
        assert(self.pending.deep_view() =~= before.push(StoreOpView::DeleteAll));
    }

    /// Adds a download record to the partition of `date`, behind the records that
    /// are there.
    pub fn add_download_error_on(&mut self, date: &str, entry: DownloadErrorEntry)
        ensures
            final(self)@ == with_entry::<DownloadErrorEntry>(old(self)@, date@, entry@),
            well_formed(final(self)@),
            final(self).pending_ops() == old(self).pending_ops().push(
                StoreOpView::Write { date: date@, kind: ErrorType::Download },
            ),
            final(self).base() == old(self).base(),
    {
        self.add_entry_on::<DownloadErrorEntry>(date, entry);
    }

    /// Adds a download record to the partition of today. Which date that is
    /// depends on the clock; the journal is the one that
    /// `add_download_error_on` gives for some date.
    pub fn add_download_error(&mut self, entry: DownloadErrorEntry)
        ensures
            exists|date: Seq<char>|
                final(self)@ == #[trigger] with_entry::<DownloadErrorEntry>(old(self)@, date, entry@)
                    && final(self).pending_ops() == old(self).pending_ops().push(
                    StoreOpView::Write { date, kind: ErrorType::Download },
                ),
            well_formed(final(self)@),
            final(self).base() == old(self).base(),
    {
        let date = today();
        self.add_entry_on::<DownloadErrorEntry>(date.as_str(), entry);
    }

    /// Removes the download records with the identifier `id` from the
    /// partition of `date`, and says whether there was one. The file goes
    /// with its last record, the partition with its last file.
    pub fn remove_download_error(&mut self, date: &str, id: &str) -> (removed: bool)
        ensures
            removed == holds_id::<DownloadErrorEntry>(old(self)@, date@, id@),
            final(self)@ == without_entry::<DownloadErrorEntry>(old(self)@, date@, id@),
            well_formed(final(self)@),
            final(self).pending_ops() == if removed {
                old(self).pending_ops().push(
                    store_op(
                        date@,
                        DownloadErrorEntry::as_list(
                            file_for(
                                without_id::<DownloadErrorEntry>(listed::<DownloadErrorEntry>(old(self)@, date@), id@),
                            ),
                        ),
                    ),
                )
            } else {
                old(self).pending_ops()
            },
            final(self).base() == old(self).base(),
    {
        self.remove_entry::<DownloadErrorEntry>(date, id)
    }

    /// The first download record with the identifier `id`, looked for in the
    /// listed dates from the latest on, together with its date.
    pub fn get_download_error(&self, id: &str) -> (hit: Option<(String, DownloadErrorEntry)>)
        ensures
            hit.deep_view() == found_in::<DownloadErrorEntry>(self@, dates_listed(self@), id@),
    {
        self.find_entry::<DownloadErrorEntry>(id)
    }

    /// Records that a retry of the download record with the identifier `id` in
    /// the partition of `date` failed at the moment `at`: its counter goes
    /// one up (it stays at the largest value) and its moment becomes `at`.
    pub fn increment_download_retry_at(&mut self, date: &str, id: &str, at: Timestamp)
        ensures
            final(self)@ == with_retried::<DownloadErrorEntry>(old(self)@, date@, id@, at),
            well_formed(final(self)@),
            final(self).pending_ops() == if holds_id::<DownloadErrorEntry>(old(self)@, date@, id@) {
                old(self).pending_ops().push(
                    StoreOpView::Write { date: date@, kind: ErrorType::Download },
                )
            } else {
                old(self).pending_ops()
            },
            final(self).base() == old(self).base(),
    {
        self.retry_entry_at::<DownloadErrorEntry>(date, id, at);
    }

    /// Records that a retry of the download record with the identifier `id` in
    /// the partition of `date` failed just now. The moment comes from the
    /// clock; the journal is the one that `increment_download_retry_at` gives
    /// for some moment.
    pub fn increment_download_retry(&mut self, date: &str, id: &str)
        ensures
            exists|at: Timestamp|
                final(self)@ == #[trigger] with_retried::<DownloadErrorEntry>(old(self)@, date@, id@, at),
            well_formed(final(self)@),
            final(self).pending_ops() == if holds_id::<DownloadErrorEntry>(old(self)@, date@, id@) {
                old(self).pending_ops().push(
                    StoreOpView::Write { date: date@, kind: ErrorType::Download },
                )
            } else {
                old(self).pending_ops()
            },
            final(self).base() == old(self).base(),
    {
        let at = now();
        self.retry_entry_at::<DownloadErrorEntry>(date, id, at);
    }

    /// The download records of the partition of `date`, in the order in which
    /// they were added; none where there is no such file.
    pub fn get_download_errors_for_date(&self, date: &str) -> (list: Vec<DownloadErrorEntry>)
        ensures
            list.deep_view() == listed::<DownloadErrorEntry>(self@, date@),
    {
        self.list_for::<DownloadErrorEntry>(date)
    }

    /// Every download record of the listed dates with its date, the most
    /// recent failure first.
    pub fn get_all_download_errors(&self) -> (all: Vec<(String, DownloadErrorEntry)>)
        ensures
            all.deep_view() == all_listed::<DownloadErrorEntry>(self@),
    {
        self.all_entries::<DownloadErrorEntry>()
    }

    /// Adds a convert record to the partition of `date`, behind the records that
    /// are there.
    pub fn add_convert_error_on(&mut self, date: &str, entry: ConvertErrorEntry)
        ensures
            final(self)@ == with_entry::<ConvertErrorEntry>(old(self)@, date@, entry@),
            well_formed(final(self)@),
            final(self).pending_ops() == old(self).pending_ops().push(
                StoreOpView::Write { date: date@, kind: ErrorType::Convert },
            ),
            final(self).base() == old(self).base(),
    {
        self.add_entry_on::<ConvertErrorEntry>(date, entry);
    }

    /// Adds a convert record to the partition of today. Which date that is
    /// depends on the clock; the journal is the one that
    /// `add_convert_error_on` gives for some date.
    pub fn add_convert_error(&mut self, entry: ConvertErrorEntry)
        ensures
            exists|date: Seq<char>|
                final(self)@ == #[trigger] with_entry::<ConvertErrorEntry>(old(self)@, date, entry@)
                    && final(self).pending_ops() == old(self).pending_ops().push(
                    StoreOpView::Write { date, kind: ErrorType::Convert },
                ),
            well_formed(final(self)@),
            final(self).base() == old(self).base(),
    {
        let date = today();
        self.add_entry_on::<ConvertErrorEntry>(date.as_str(), entry);
    }

    /// Removes the convert records with the identifier `id` from the
    /// partition of `date`, and says whether there was one. The file goes
    /// with its last record, the partition with its last file.
    pub fn remove_convert_error(&mut self, date: &str, id: &str) -> (removed: bool)
        ensures
            removed == holds_id::<ConvertErrorEntry>(old(self)@, date@, id@),
            final(self)@ == without_entry::<ConvertErrorEntry>(old(self)@, date@, id@),
            well_formed(final(self)@),
            final(self).pending_ops() == if removed {
                old(self).pending_ops().push(
                    store_op(
                        date@,
                        ConvertErrorEntry::as_list(
                            file_for(
                                without_id::<ConvertErrorEntry>(listed::<ConvertErrorEntry>(old(self)@, date@), id@),
                            ),
                        ),
                    ),
                )
            } else {
                old(self).pending_ops()
            },
            final(self).base() == old(self).base(),
    {
        self.remove_entry::<ConvertErrorEntry>(date, id)
    }

    /// The first convert record with the identifier `id`, looked for in the
    /// listed dates from the latest on, together with its date.
    pub fn get_convert_error(&self, id: &str) -> (hit: Option<(String, ConvertErrorEntry)>)
        ensures
            hit.deep_view() == found_in::<ConvertErrorEntry>(self@, dates_listed(self@), id@),
    {
        self.find_entry::<ConvertErrorEntry>(id)
    }

    /// Records that a retry of the convert record with the identifier `id` in
    /// the partition of `date` failed at the moment `at`: its counter goes
    /// one up (it stays at the largest value) and its moment becomes `at`.
    pub fn increment_convert_retry_at(&mut self, date: &str, id: &str, at: Timestamp)
        ensures
            final(self)@ == with_retried::<ConvertErrorEntry>(old(self)@, date@, id@, at),
            well_formed(final(self)@),
            final(self).pending_ops() == if holds_id::<ConvertErrorEntry>(old(self)@, date@, id@) {
                old(self).pending_ops().push(
                    StoreOpView::Write { date: date@, kind: ErrorType::Convert },
                )
            } else {
                old(self).pending_ops()
            },
            final(self).base() == old(self).base(),
    {
        self.retry_entry_at::<ConvertErrorEntry>(date, id, at);
    }

    /// Records that a retry of the convert record with the identifier `id` in
    /// the partition of `date` failed just now. The moment comes from the
    /// clock; the journal is the one that `increment_convert_retry_at` gives
    /// for some moment.
    pub fn increment_convert_retry(&mut self, date: &str, id: &str)
        ensures
            exists|at: Timestamp|
                final(self)@ == #[trigger] with_retried::<ConvertErrorEntry>(old(self)@, date@, id@, at),
            well_formed(final(self)@),
            final(self).pending_ops() == if holds_id::<ConvertErrorEntry>(old(self)@, date@, id@) {
                old(self).pending_ops().push(
                    StoreOpView::Write { date: date@, kind: ErrorType::Convert },
                )
            } else {
                old(self).pending_ops()
            },
            final(self).base() == old(self).base(),
    {
        let at = now();
        self.retry_entry_at::<ConvertErrorEntry>(date, id, at);
    }

    /// The convert records of the partition of `date`, in the order in which
    /// they were added; none where there is no such file.
    pub fn get_convert_errors_for_date(&self, date: &str) -> (list: Vec<ConvertErrorEntry>)
        ensures
            list.deep_view() == listed::<ConvertErrorEntry>(self@, date@),
    {
        self.list_for::<ConvertErrorEntry>(date)
    }

    /// Every convert record of the listed dates with its date, the most
    /// recent failure first.
    pub fn get_all_convert_errors(&self) -> (all: Vec<(String, ConvertErrorEntry)>)
        ensures
            all.deep_view() == all_listed::<ConvertErrorEntry>(self@),
    {
        self.all_entries::<ConvertErrorEntry>()
    }

    /// Adds a refresh record to the partition of `date`, behind the records that
    /// are there.
    pub fn add_refresh_error_on(&mut self, date: &str, entry: RefreshErrorEntry)
        ensures
            final(self)@ == with_entry::<RefreshErrorEntry>(old(self)@, date@, entry@),
            well_formed(final(self)@),
            final(self).pending_ops() == old(self).pending_ops().push(
                StoreOpView::Write { date: date@, kind: ErrorType::Refresh },
            ),
            final(self).base() == old(self).base(),
    {
        self.add_entry_on::<RefreshErrorEntry>(date, entry);
    }

    /// Adds a refresh record to the partition of today. Which date that is
    /// depends on the clock; the journal is the one that
    /// `add_refresh_error_on` gives for some date.
    pub fn add_refresh_error(&mut self, entry: RefreshErrorEntry)
        ensures
            exists|date: Seq<char>|
                final(self)@ == #[trigger] with_entry::<RefreshErrorEntry>(old(self)@, date, entry@)
                    && final(self).pending_ops() == old(self).pending_ops().push(
                    StoreOpView::Write { date, kind: ErrorType::Refresh },
                ),
            well_formed(final(self)@),
            final(self).base() == old(self).base(),
    {
        let date = today();
        self.add_entry_on::<RefreshErrorEntry>(date.as_str(), entry);
    }

    /// Removes the refresh records with the identifier `id` from the
    /// partition of `date`, and says whether there was one. The file goes
    /// with its last record, the partition with its last file.
    pub fn remove_refresh_error(&mut self, date: &str, id: &str) -> (removed: bool)
        ensures
            removed == holds_id::<RefreshErrorEntry>(old(self)@, date@, id@),
            final(self)@ == without_entry::<RefreshErrorEntry>(old(self)@, date@, id@),
            well_formed(final(self)@),
            final(self).pending_ops() == if removed {
                old(self).pending_ops().push(
                    store_op(
                        date@,
                        RefreshErrorEntry::as_list(
                            file_for(
                                without_id::<RefreshErrorEntry>(listed::<RefreshErrorEntry>(old(self)@, date@), id@),
                            ),
                        ),
                    ),
                )
            } else {
                old(self).pending_ops()
            },
            final(self).base() == old(self).base(),
    {
        self.remove_entry::<RefreshErrorEntry>(date, id)
    }

    /// The first refresh record with the identifier `id`, looked for in the
    /// listed dates from the latest on, together with its date.
    pub fn get_refresh_error(&self, id: &str) -> (hit: Option<(String, RefreshErrorEntry)>)
        ensures
            hit.deep_view() == found_in::<RefreshErrorEntry>(self@, dates_listed(self@), id@),
    {
        self.find_entry::<RefreshErrorEntry>(id)
    }

    /// Records that a retry of the refresh record with the identifier `id` in
    /// the partition of `date` failed at the moment `at`: its counter goes
    /// one up (it stays at the largest value) and its moment becomes `at`.
    pub fn increment_refresh_retry_at(&mut self, date: &str, id: &str, at: Timestamp)
        ensures
            final(self)@ == with_retried::<RefreshErrorEntry>(old(self)@, date@, id@, at),
            well_formed(final(self)@),
            final(self).pending_ops() == if holds_id::<RefreshErrorEntry>(old(self)@, date@, id@) {
                old(self).pending_ops().push(
                    StoreOpView::Write { date: date@, kind: ErrorType::Refresh },
                )
            } else {
                old(self).pending_ops()
            },
            final(self).base() == old(self).base(),
    {
        self.retry_entry_at::<RefreshErrorEntry>(date, id, at);
    }

    /// Records that a retry of the refresh record with the identifier `id` in
    /// the partition of `date` failed just now. The moment comes from the
    /// clock; the journal is the one that `increment_refresh_retry_at` gives
    /// for some moment.
    pub fn increment_refresh_retry(&mut self, date: &str, id: &str)
        ensures
            exists|at: Timestamp|
                final(self)@ == #[trigger] with_retried::<RefreshErrorEntry>(old(self)@, date@, id@, at),
            well_formed(final(self)@),
            final(self).pending_ops() == if holds_id::<RefreshErrorEntry>(old(self)@, date@, id@) {
                old(self).pending_ops().push(
                    StoreOpView::Write { date: date@, kind: ErrorType::Refresh },
                )
            } else {
                old(self).pending_ops()
            },
            final(self).base() == old(self).base(),
    {
        let at = now();
        self.retry_entry_at::<RefreshErrorEntry>(date, id, at);
    }

    /// The refresh records of the partition of `date`, in the order in which
    /// they were added; none where there is no such file.
    pub fn get_refresh_errors_for_date(&self, date: &str) -> (list: Vec<RefreshErrorEntry>)
        ensures
            list.deep_view() == listed::<RefreshErrorEntry>(self@, date@),
    {
        self.list_for::<RefreshErrorEntry>(date)
    }

    /// Every refresh record of the listed dates with its date, the most
    /// recent failure first.
    pub fn get_all_refresh_errors(&self) -> (all: Vec<(String, RefreshErrorEntry)>)
        ensures
            all.deep_view() == all_listed::<RefreshErrorEntry>(self@),
    {
        self.all_entries::<RefreshErrorEntry>()
    }
}

/// The sum of two counts as far as a machine word holds it.
fn capped_sum(total: usize, more: usize) -> (sum: usize)
    ensures
        sum == if total + more > usize::MAX {
            usize::MAX
        } else {
            (total + more) as usize
        },
{
    if total > usize::MAX - more {
        usize::MAX
    } else {
        total + more
    }
}

/// The index of the first record of `list` with the identifier `id`.
#[verifier::loop_isolation(false)]
fn index_of_id<E: Entry>(list: &Vec<E>, id: &str) -> (at: Option<usize>)
    ensures
        match at {
            Some(i) => i < list.len() && first_with_id::<E>(list.deep_view(), id@) == i,
            None => first_with_id::<E>(list.deep_view(), id@) == -1,
        },
{
    let ghost all = list.deep_view();
    proof {
        lemma_first_with_id::<E>(all, id@);
    }
    let mut i: usize = 0;
    while i < list.len()
        invariant
            i <= list.len(),
            forall|k: int| 0 <= k < i ==> E::id_of(#[trigger] all[k]) != id@,
        decreases list.len() - i,
    {
        if list[i].has_id(id) {
            assert(E::id_of(all[i as int]) == id@);
            return Some(i);
        }
        i += 1;
    }
    None
}

/// Whether one of `parts` has the date `date`.
#[verifier::loop_isolation(false)]
fn holds_date(parts: &Vec<Partition>, date: &str) -> (held: bool)
    ensures
        held == (find_date(parts.deep_view(), date@) >= 0),
{
    proof {
        lemma_find_date(parts.deep_view(), date@);
    }
    let mut i: usize = 0;
    while i < parts.len()
        invariant
            i <= parts.len(),
            forall|k: int| 0 <= k < i ==> (#[trigger] parts.deep_view()[k]).date != date@,
        decreases parts.len() - i,
    {
        if crate::text::text_eq(parts[i].date.as_str(), date) {
            assert(parts.deep_view()[i as int].date == date@);
            return true;
        }
        i += 1;
    }
    false
}

} // verus!
