//! What holds of the journal whatever is done with it.

use crate::error_log::clock::{
    lemma_text_before_strict, lemma_text_before_transitive, parses_as_date, text_before, Timestamp,
};
use crate::error_log::entries::{bumped, Entry};
use crate::error_log::journal::{
    all_listed, blank, dated, dates_listed, entries, file_for, find_date, first_with_id, gathered,
    has_files, holds_id, lemma_find_date, lemma_first_with_id, lemma_stored, lemma_with_retry,
    lemma_without_id, listed, partition_of, put, stored, valid_dates, well_formed, with_entry,
    with_retried, with_retry, without_entry, without_id, Filed, LatestFirst, NewestFirst,
    PartitionView,
};
use crate::sorting::{is_ranked, lemma_sorted_contains, lemma_sorted_is_ranked, Precedence};
use vstd::prelude::*;

verus! {

/// After a file was replaced, the partition holds the records that were
/// put there.
pub proof fn lemma_listed_after_store<E: Filed>(
    j: Seq<PartitionView>,
    date: Seq<char>,
    file: Option<Seq<E::V>>,
)
    requires
        well_formed(j),
    ensures
        listed::<E>(stored(j, date, E::as_list(file)), date) == entries(file),
        well_formed(stored(j, date, E::as_list(file))),
        forall|other: Seq<char>|
            other != date ==> #[trigger] listed::<E>(stored(j, date, E::as_list(file)), other)
                == listed::<E>(j, other),
{
    let p = partition_of(j, date);
    lemma_stored(j, date, E::as_list(file));
    E::lemma_filed(p, file);
    E::lemma_filed(blank(date), file);
}

/// The dates that `valid_dates` gives are those of the partitions whose
/// date reads as a date.
pub proof fn lemma_valid_dates(j: Seq<PartitionView>, d: Seq<char>)
    ensures
        valid_dates(j).contains(d) <==> (find_date(j, d) >= 0 && parses_as_date(d)),
    decreases j.len(),
{
    if j.len() == 0 {
    } else {
        let init = j.drop_last();
        lemma_valid_dates(init, d);
        let before = valid_dates(init);
        let now = valid_dates(j);
        if parses_as_date(j.last().date) {
            if now.contains(d) {
                let k = choose|k: int| 0 <= k < now.len() && now[k] == d;
                if k < before.len() {
                    assert(before[k] == d);
                    assert(before.contains(d));
                }
            }
            if find_date(j, d) >= 0 && parses_as_date(d) {
                if j.last().date == d {
                    assert(now[before.len() as int] == d);
                } else {
                    assert(before.contains(d));
                    let k = choose|k: int| 0 <= k < before.len() && before[k] == d;
                    assert(now[k] == d);
                }
            }
        }
    }
}

/// The listed dates are the valid dates, in another order.
pub proof fn lemma_dates_listed(j: Seq<PartitionView>, d: Seq<char>)
    ensures
        dates_listed(j).contains(d) <==> (find_date(j, d) >= 0 && parses_as_date(d)),
{
    lemma_valid_dates(j, d);
    lemma_sorted_contains::<String, LatestFirst>(valid_dates(j), d);
}

/// What is gathered from the partitions of `dates` are the records of
/// those partitions, each with its date.
pub proof fn lemma_gathered<E: Filed>(
    j: Seq<PartitionView>,
    dates: Seq<Seq<char>>,
    d: Seq<char>,
    v: E::V,
)
    ensures
        gathered::<E>(j, dates).contains((d, v)) <==> (dates.contains(d) && listed::<E>(
            j,
            d,
        ).contains(v)),
    decreases dates.len(),
{
    if dates.len() == 0 {
    } else {
        let init = dates.drop_last();
        lemma_gathered::<E>(j, init, d, v);
        let before = gathered::<E>(j, init);
        let here = dated(dates.last(), listed::<E>(j, dates.last()));
        let all = before + here;
        if all.contains((d, v)) {
            let k = choose|k: int| 0 <= k < all.len() && all[k] == (d, v);
            if k < before.len() {
                assert(before[k] == (d, v));
                assert(before.contains((d, v)));
                let m = choose|m: int| 0 <= m < init.len() && init[m] == d;
                assert(dates[m] == d);
            } else {
                assert(here[k - before.len()] == (d, v));
                assert(dates[dates.len() - 1] == d);
                assert(listed::<E>(j, d)[k - before.len()] == v);
            }
        }
        if dates.contains(d) && listed::<E>(j, d).contains(v) {
            let m = choose|m: int| 0 <= m < dates.len() && dates[m] == d;
            if d == dates.last() {
                let list = listed::<E>(j, d);
                let n = choose|n: int| 0 <= n < list.len() && list[n] == v;
                assert(here[n] == (d, v));
                assert(all[before.len() + n] == (d, v));
            } else {
                assert(init[m] == d);
                assert(init.contains(d));
                let k = choose|k: int| 0 <= k < before.len() && before[k] == (d, v);
                assert(all[k] == (d, v));
            }
        }
    }
}

/// Every record that `all_listed` gives stands in the partition of its
/// date, and that date is a listed date.
pub proof fn lemma_all_listed<E: Filed>(j: Seq<PartitionView>, d: Seq<char>, v: E::V)
    ensures
        all_listed::<E>(j).contains((d, v)) <==> (dates_listed(j).contains(d) && listed::<E>(
            j,
            d,
        ).contains(v)),
{
    lemma_gathered::<E>(j, dates_listed(j), d, v);
    lemma_sorted_contains::<(String, E), NewestFirst>(gathered::<E>(j, dates_listed(j)), (d, v));
}

/// A record that is added and then removed by its identifier is gone: no
/// record with that identifier is listed any more, provided that no other
/// partition held one. If the partition of the date held nothing else,
/// the date is no longer listed either.
pub proof fn lemma_add_then_remove<E: Filed>(j: Seq<PartitionView>, date: Seq<char>, e: E::V)
    requires
        well_formed(j),
        forall|other: Seq<char>| other != date ==> !#[trigger] holds_id::<E>(j, other, E::id_of(e)),
    ensures
        ({
            let id = E::id_of(e);
            let added = with_entry::<E>(j, date, e);
            let removed = without_entry::<E>(added, date, id);
            &&& holds_id::<E>(added, date, id)
            &&& well_formed(removed)
            &&& listed::<E>(removed, date) == without_id::<E>(listed::<E>(j, date), id)
            &&& forall|d: Seq<char>, v: E::V| #[trigger]
                all_listed::<E>(removed).contains((d, v)) ==> E::id_of(v) != id
            &&& (!has_files(put(partition_of(j, date), E::as_list(None))) && without_id::<E>(
                listed::<E>(j, date),
                id,
            ).len() == 0) ==> !dates_listed(removed).contains(date)
        }),
{
    let id = E::id_of(e);
    let p = partition_of(j, date);
    let l = listed::<E>(j, date);
    let l1 = l.push(e);
    let added = with_entry::<E>(j, date, e);
    lemma_listed_after_store::<E>(j, date, Some(l1));
    assert(listed::<E>(added, date) == l1);
    lemma_first_with_id::<E>(l1, id);
    assert(E::id_of(l1[l.len() as int]) == id);
    assert(holds_id::<E>(added, date, id));
    assert(l1.drop_last() =~= l);
    let k = without_id::<E>(l1, id);
    assert(k == without_id::<E>(l, id));
    let removed = without_entry::<E>(added, date, id);
    assert(removed == stored(added, date, E::as_list(file_for(k))));
    lemma_listed_after_store::<E>(added, date, file_for(k));
    lemma_without_id::<E>(l, id);
    assert(listed::<E>(removed, date) == k);
    assert forall|d: Seq<char>, v: E::V| #[trigger]
        all_listed::<E>(removed).contains((d, v)) implies E::id_of(v) != id by {
        lemma_all_listed::<E>(removed, d, v);
        let list = listed::<E>(removed, d);
        let n = choose|n: int| 0 <= n < list.len() && list[n] == v;
        if d == date {
        } else {
            assert(listed::<E>(added, d) == listed::<E>(j, d));
            assert(list == listed::<E>(j, d));
            assert(!holds_id::<E>(j, d, id));
            lemma_first_with_id::<E>(listed::<E>(j, d), id);
        }
    }
    if !has_files(put(p, E::as_list(None))) && k.len() == 0 {
        lemma_stored(j, date, E::as_list(Some(l1)));
        lemma_stored(added, date, E::as_list(file_for(k)));
        E::lemma_filed(p, Some(l1));
        E::lemma_filed(p, None);
        assert(partition_of(added, date) == put(p, E::as_list(Some(l1))));
        assert(put(partition_of(added, date), E::as_list(None)) == put(p, E::as_list(None)));
        assert(find_date(removed, date) < 0);
        lemma_dates_listed(removed, date);
    }
}

/// A failed retry strictly increases the counter of the record unless it
/// is at its largest value, sets the moment of the record, and lowers no
/// counter.
pub proof fn lemma_retry_counts<E: Filed>(
    j: Seq<PartitionView>,
    date: Seq<char>,
    id: Seq<char>,
    at: Timestamp,
)
    requires
        well_formed(j),
        holds_id::<E>(j, date, id),
    ensures
        ({
            let before = listed::<E>(j, date);
            let after = listed::<E>(with_retried::<E>(j, date, id, at), date);
            let i = first_with_id::<E>(before, id);
            &&& well_formed(with_retried::<E>(j, date, id, at))
            &&& after == with_retry::<E>(before, id, at)
            &&& after.len() == before.len()
            &&& 0 <= i < before.len()
            &&& E::id_of(after[i]) == id
            &&& E::stamp_of(after[i]) == at
            &&& E::retries_of(after[i]) == bumped(E::retries_of(before[i]))
            &&& E::retries_of(before[i]) < u32::MAX ==> E::retries_of(after[i]) > E::retries_of(
                before[i],
            )
            &&& forall|k: int|
                0 <= k < before.len() ==> E::retries_of(#[trigger] after[k]) >= E::retries_of(
                    before[k],
                )
        }),
{
    let before = listed::<E>(j, date);
    lemma_listed_after_store::<E>(j, date, Some(with_retry::<E>(before, id, at)));
    lemma_with_retry::<E>(before, id, at);
    lemma_first_with_id::<E>(before, id);
}

/// The listed dates stand the latest first: no date stands before a later
/// one.
pub proof fn lemma_dates_latest_first(j: Seq<PartitionView>)
    ensures
        is_ranked::<String, LatestFirst>(dates_listed(j)),
        forall|a: int, b: int|
            0 <= a < b < dates_listed(j).len() ==> !text_before(
                #[trigger] dates_listed(j)[a],
                #[trigger] dates_listed(j)[b],
            ),
{
    assert forall|a: Seq<char>, b: Seq<char>, c: Seq<char>|
        #[trigger] LatestFirst::precedes(a, b) && !#[trigger] LatestFirst::precedes(
            c,
            b,
        ) implies LatestFirst::precedes(a, c) by {
        lemma_text_before_strict(b, c);
        if b != c {
            lemma_text_before_transitive(c, b, a);
        }
    }
    assert forall|a: Seq<char>, b: Seq<char>| #[trigger]
        LatestFirst::precedes(a, b) implies !LatestFirst::precedes(b, a) by {
        lemma_text_before_strict(a, b);
    }
    lemma_sorted_is_ranked::<String, LatestFirst>(valid_dates(j));
    let dates = dates_listed(j);
    assert forall|a: int, b: int| 0 <= a < b < dates.len() implies !text_before(
        #[trigger] dates[a],
        #[trigger] dates[b],
    ) by {
        assert(!LatestFirst::precedes(dates[b], dates[a]));
    }
}

/// The records that `all_listed` gives stand the most recent first: no
/// record stands before a more recent one.
pub proof fn lemma_all_listed_newest_first<E: Filed>(j: Seq<PartitionView>)
    ensures
        is_ranked::<(String, E), NewestFirst>(all_listed::<E>(j)),
        forall|a: int, b: int|
            0 <= a < b < all_listed::<E>(j).len() ==> !E::stamp_of(
                (#[trigger] all_listed::<E>(j)[b]).1,
            ).later_than(E::stamp_of((#[trigger] all_listed::<E>(j)[a]).1)),
{
    lemma_sorted_is_ranked::<(String, E), NewestFirst>(gathered::<E>(j, dates_listed(j)));
    let all = all_listed::<E>(j);
    assert forall|a: int, b: int| 0 <= a < b < all.len() implies !E::stamp_of(
        (#[trigger] all[b]).1,
    ).later_than(E::stamp_of((#[trigger] all[a]).1)) by {
        assert(!<NewestFirst as Precedence<(String, E)>>::precedes(all[b], all[a]));
    }
}

} // verus!
