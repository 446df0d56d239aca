//! The journal as a mathematical value, and what each operation makes of
//! it.
//!
//! A journal is a list of partitions. A partition belongs to one date and
//! holds, for each kind of operation, either no file or a file with a list
//! of records. A partition without any file does not exist.

use crate::error_log::clock::{is_text_before, parses_as_date, text_before, Timestamp};
use crate::error_log::entries::{
    bumped, ConvertErrorEntry, ConvertErrorView, DownloadErrorEntry, DownloadErrorView, Entry,
    ErrorType, RefreshErrorEntry, RefreshErrorView,
};
use crate::sorting::{sorted_by, Precedence};
use vstd::prelude::*;
use vstd::string::StringExecFns;

verus! {

/// The files of one date.
pub struct PartitionView {
    pub date: Seq<char>,
    pub download: Option<Seq<DownloadErrorView>>,
    pub convert: Option<Seq<ConvertErrorView>>,
    pub refresh: Option<Seq<RefreshErrorView>>,
}

/// The files of one date, as they are read from and written to the disk.
#[derive(Debug)]
pub struct Partition {
    pub date: String,
    pub download: Option<Vec<DownloadErrorEntry>>,
    pub convert: Option<Vec<ConvertErrorEntry>>,
    pub refresh: Option<Vec<RefreshErrorEntry>>,
}

impl View for Partition {
    type V = PartitionView;

    open spec fn view(&self) -> PartitionView {
        PartitionView {
            date: self.date@,
            download: self.download.deep_view(),
            convert: self.convert.deep_view(),
            refresh: self.refresh.deep_view(),
        }
    }
}

impl DeepView for Partition {
    type V = PartitionView;

    open spec fn deep_view(&self) -> PartitionView {
        self@
    }
}

/// The content of one file, or its absence, together with its kind.
pub enum Lists {
    Download(Option<Vec<DownloadErrorEntry>>),
    Convert(Option<Vec<ConvertErrorEntry>>),
    Refresh(Option<Vec<RefreshErrorEntry>>),
}

impl View for Lists {
    type V = ListView;

    open spec fn view(&self) -> ListView {
        match self {
            Lists::Download(l) => ListView::Download(l.deep_view()),
            Lists::Convert(l) => ListView::Convert(l.deep_view()),
            Lists::Refresh(l) => ListView::Refresh(l.deep_view()),
        }
    }
}

impl Lists {
    /// The file of `kind` that does not exist.
    pub fn none_of(kind: ErrorType) -> (lists: Lists)
        ensures
            lists@ == no_file(kind),
    {
        match kind {
            ErrorType::Download => Lists::Download(None),
            ErrorType::Convert => Lists::Convert(None),
            ErrorType::Refresh => Lists::Refresh(None),
        }
    }

    pub fn kind(&self) -> (kind: ErrorType)
        ensures
            kind == self@.kind(),
    {
        match self {
            Lists::Download(_) => ErrorType::Download,
            Lists::Convert(_) => ErrorType::Convert,
            Lists::Refresh(_) => ErrorType::Refresh,
        }
    }

    pub fn is_file(&self) -> (file: bool)
        ensures
            file == self@.is_file(),
    {
        match self {
            Lists::Download(l) => l.is_some(),
            Lists::Convert(l) => l.is_some(),
            Lists::Refresh(l) => l.is_some(),
        }
    }
}

impl Partition {
    /// The partition of `date` before anything is written to it.
    pub fn blank(date: &str) -> (p: Partition)
        ensures
            p@ == blank(date@),
    {
        Partition { date: String::from_str(date), download: None, convert: None, refresh: None }
    }

    pub fn has_files(&self) -> (any: bool)
        ensures
            any == has_files(self@),
    {
        self.download.is_some() || self.convert.is_some() || self.refresh.is_some()
    }

    /// This partition with the file of one kind replaced.
    pub fn put(self, lists: Lists) -> (p: Partition)
        ensures
            p@ == put(self@, lists@),
    {
        match lists {
            Lists::Download(l) => Partition {
                date: self.date,
                download: l,
                convert: self.convert,
                refresh: self.refresh,
            },
            Lists::Convert(l) => Partition {
                date: self.date,
                download: self.download,
                convert: l,
                refresh: self.refresh,
            },
            Lists::Refresh(l) => Partition {
                date: self.date,
                download: self.download,
                convert: self.convert,
                refresh: l,
            },
        }
    }
}

/// A change that the stored form of the journal has to follow.
#[derive(Debug)]
pub enum StoreOp {
    /// Rewrite the file of this date and kind from the journal.
    Write { date: String, kind: ErrorType },
    /// Delete the file of this date and kind, and the directory of the date
    /// with it if nothing is left there.
    Delete { date: String, kind: ErrorType },
    /// Delete the directory of the date with all that it holds.
    DeleteDate { date: String },
    /// Delete every directory.
    DeleteAll,
}

impl View for StoreOp {
    type V = StoreOpView;

    open spec fn view(&self) -> StoreOpView {
        match self {
            StoreOp::Write { date, kind } => StoreOpView::Write { date: date@, kind: *kind },
            StoreOp::Delete { date, kind } => StoreOpView::Delete { date: date@, kind: *kind },
            StoreOp::DeleteDate { date } => StoreOpView::DeleteDate { date: date@ },
            StoreOp::DeleteAll => StoreOpView::DeleteAll,
        }
    }
}

impl DeepView for StoreOp {
    type V = StoreOpView;

    open spec fn deep_view(&self) -> StoreOpView {
        self@
    }
}

/// The content of one file, or its absence, together with its kind.
pub enum ListView {
    Download(Option<Seq<DownloadErrorView>>),
    Convert(Option<Seq<ConvertErrorView>>),
    Refresh(Option<Seq<RefreshErrorView>>),
}

impl ListView {
    pub open spec fn kind(self) -> ErrorType {
        match self {
            ListView::Download(_) => ErrorType::Download,
            ListView::Convert(_) => ErrorType::Convert,
            ListView::Refresh(_) => ErrorType::Refresh,
        }
    }

    /// Whether this stands for a file that exists.
    pub open spec fn is_file(self) -> bool {
        match self {
            ListView::Download(l) => l is Some,
            ListView::Convert(l) => l is Some,
            ListView::Refresh(l) => l is Some,
        }
    }
}

/// A change that the stored form of the journal has to follow.
pub enum StoreOpView {
    /// The file of this date and kind is rewritten from the journal.
    Write { date: Seq<char>, kind: ErrorType },
    /// The file of this date and kind is deleted, and the directory of the
    /// date with it if nothing is left there.
    Delete { date: Seq<char>, kind: ErrorType },
    /// The directory of the date is deleted with all that it holds.
    DeleteDate { date: Seq<char> },
    /// Every directory is deleted.
    DeleteAll,
}

/// The records of a file; none where there is no file.
pub open spec fn entries<V>(list: Option<Seq<V>>) -> Seq<V> {
    match list {
        Some(s) => s,
        None => Seq::empty(),
    }
}

/// The file for `kept`: no file when nothing is kept.
pub open spec fn file_for<V>(kept: Seq<V>) -> Option<Seq<V>> {
    if kept.len() == 0 {
        None
    } else {
        Some(kept)
    }
}

pub open spec fn has_files(p: PartitionView) -> bool {
    p.download is Some || p.convert is Some || p.refresh is Some
}

/// The partition of `date` before anything is written to it.
pub open spec fn blank(date: Seq<char>) -> PartitionView {
    PartitionView { date, download: None, convert: None, refresh: None }
}

/// `p` with the file of one kind replaced.
pub open spec fn put(p: PartitionView, list: ListView) -> PartitionView {
    match list {
        ListView::Download(l) => PartitionView { download: l, ..p },
        ListView::Convert(l) => PartitionView { convert: l, ..p },
        ListView::Refresh(l) => PartitionView { refresh: l, ..p },
    }
}

/// The index of the partition of `date`, or -1.
pub open spec fn find_date(j: Seq<PartitionView>, date: Seq<char>) -> int
    decreases j.len(),
{
    if j.len() == 0 {
        -1
    } else if j.last().date == date {
        j.len() - 1
    } else {
        find_date(j.drop_last(), date)
    }
}

/// Whether `j` is a journal: no date has two partitions, and every
/// partition has a file.
pub open spec fn well_formed(j: Seq<PartitionView>) -> bool {
    &&& forall|a: int, b: int| 0 <= a < b < j.len() ==> j[a].date != j[b].date
    &&& forall|a: int| 0 <= a < j.len() ==> has_files(#[trigger] j[a])
}

/// The partition of `date` as it stands, blank if there is none.
pub open spec fn partition_of(j: Seq<PartitionView>, date: Seq<char>) -> PartitionView {
    let i = find_date(j, date);
    if i < 0 {
        blank(date)
    } else {
        j[i]
    }
}

/// `j` after the file of one kind was replaced in the partition of `date`:
/// the partition comes into being with its first file and goes with its
/// last.
pub open spec fn stored(j: Seq<PartitionView>, date: Seq<char>, list: ListView) -> Seq<
    PartitionView,
> {
    let i = find_date(j, date);
    let q = put(partition_of(j, date), list);
    if i < 0 {
        if has_files(q) {
            j.push(q)
        } else {
            j
        }
    } else {
        if has_files(q) {
            j.update(i, q)
        } else {
            j.remove(i)
        }
    }
}

/// What the stored form has to do after `stored`.
pub open spec fn store_op(date: Seq<char>, list: ListView) -> StoreOpView {
    if list.is_file() {
        StoreOpView::Write { date, kind: list.kind() }
    } else {
        StoreOpView::Delete { date, kind: list.kind() }
    }
}

/// `j` without the partition of `date`.
pub open spec fn without_date(j: Seq<PartitionView>, date: Seq<char>) -> Seq<PartitionView> {
    let i = find_date(j, date);
    if i < 0 {
        j
    } else {
        j.remove(i)
    }
}

/// What a kind of record knows about its place in a partition.
pub trait Filed: Entry {
    /// The kind of these records.
    spec fn kind() -> ErrorType;

    /// The file of these records in `p`.
    spec fn file_in(p: PartitionView) -> Option<Seq<Self::V>>;

    /// A file of these records, with its kind.
    spec fn as_list(file: Option<Seq<Self::V>>) -> ListView;

    proof fn lemma_filed(p: PartitionView, file: Option<Seq<Self::V>>)
        ensures
            Self::as_list(file).kind() == Self::kind(),
            Self::as_list(file).is_file() == (file is Some),
            Self::file_in(put(p, Self::as_list(file))) == file,
            put(p, Self::as_list(file)).date == p.date,
            Self::file_in(blank(p.date)) is None,
            has_files(put(p, Self::as_list(file))) ==> (file is Some || has_files(p)),
            file is Some ==> has_files(put(p, Self::as_list(file))),
            Self::file_in(p) is Some ==> has_files(p),
            (file is None && has_files(put(p, Self::as_list(file)))) ==> has_files(p),
            forall|earlier: Option<Seq<Self::V>>|
                put(#[trigger] put(p, Self::as_list(earlier)), Self::as_list(file)) == put(
                    p,
                    Self::as_list(file),
                ),
    ;

    /// The records of this kind in `p`, copied.
    fn copy_from(p: &Partition) -> (list: Vec<Self>)
        ensures
            list.deep_view() == entries(Self::file_in(p@)),
    ;

    /// How many records of this kind `p` holds.
    fn count_in(p: &Partition) -> (n: usize)
        ensures
            n == entries(Self::file_in(p@)).len(),
    ;

    fn into_lists(file: Option<Vec<Self>>) -> (lists: Lists)
        ensures
            lists@ == Self::as_list(file.deep_view()),
    ;
}

/// A copy of `list`.
pub fn copy_list<E: Entry>(list: &Vec<E>) -> (copy: Vec<E>)
    ensures
        copy.deep_view() == list.deep_view(),
{
    let mut copy: Vec<E> = Vec::new();
    let mut i: usize = 0;
    while i < list.len()
        invariant
            i <= list.len(),
            copy.len() == i,
            forall|k: int| 0 <= k < i ==> (#[trigger] copy@[k]).deep_view() == list@[k].deep_view(),
        decreases list.len() - i,
    {
        copy.push(list[i].duplicate());
        i += 1;
    }
    assert(copy.deep_view() =~= list.deep_view());
    copy
}

/// A copy of the records of `file`; none where there is no file.
pub fn copy_file<E: Entry>(file: &Option<Vec<E>>) -> (copy: Vec<E>)
    ensures
        copy.deep_view() == entries(file.deep_view()),
{
    match file {
        Some(list) => copy_list(list),
        None => {
            let copy: Vec<E> = Vec::new();
            assert(copy.deep_view() =~= Seq::<E::V>::empty());
            copy
        },
    }
}

/// How many records `file` holds.
pub fn file_len<E: Entry>(file: &Option<Vec<E>>) -> (n: usize)
    ensures
        n == entries(file.deep_view()).len(),
{
    match file {
        Some(list) => list.len(),
        None => 0,
    }
}

impl Filed for DownloadErrorEntry {
    open spec fn kind() -> ErrorType {
        ErrorType::Download
    }

    open spec fn file_in(p: PartitionView) -> Option<Seq<DownloadErrorView>> {
        p.download
    }

    open spec fn as_list(file: Option<Seq<DownloadErrorView>>) -> ListView {
        ListView::Download(file)
    }

    proof fn lemma_filed(p: PartitionView, file: Option<Seq<DownloadErrorView>>) {
    }

    fn copy_from(p: &Partition) -> (list: Vec<DownloadErrorEntry>) {
        copy_file(&p.download)
    }

    fn count_in(p: &Partition) -> (n: usize) {
        file_len(&p.download)
    }

    fn into_lists(file: Option<Vec<DownloadErrorEntry>>) -> (lists: Lists) {
        Lists::Download(file)
    }
}

impl Filed for ConvertErrorEntry {
    open spec fn kind() -> ErrorType {
        ErrorType::Convert
    }

    open spec fn file_in(p: PartitionView) -> Option<Seq<ConvertErrorView>> {
        p.convert
    }

    open spec fn as_list(file: Option<Seq<ConvertErrorView>>) -> ListView {
        ListView::Convert(file)
    }

    proof fn lemma_filed(p: PartitionView, file: Option<Seq<ConvertErrorView>>) {
    }

    fn copy_from(p: &Partition) -> (list: Vec<ConvertErrorEntry>) {
        copy_file(&p.convert)
    }

    fn count_in(p: &Partition) -> (n: usize) {
        file_len(&p.convert)
    }

    fn into_lists(file: Option<Vec<ConvertErrorEntry>>) -> (lists: Lists) {
        Lists::Convert(file)
    }
}

impl Filed for RefreshErrorEntry {
    open spec fn kind() -> ErrorType {
        ErrorType::Refresh
    }

    open spec fn file_in(p: PartitionView) -> Option<Seq<RefreshErrorView>> {
        p.refresh
    }

    open spec fn as_list(file: Option<Seq<RefreshErrorView>>) -> ListView {
        ListView::Refresh(file)
    }

    proof fn lemma_filed(p: PartitionView, file: Option<Seq<RefreshErrorView>>) {
    }

    fn copy_from(p: &Partition) -> (list: Vec<RefreshErrorEntry>) {
        copy_file(&p.refresh)
    }

    fn count_in(p: &Partition) -> (n: usize) {
        file_len(&p.refresh)
    }

    fn into_lists(file: Option<Vec<RefreshErrorEntry>>) -> (lists: Lists) {
        Lists::Refresh(file)
    }
}

/// The records of one kind in the partition of `date`.
pub open spec fn listed<E: Filed>(j: Seq<PartitionView>, date: Seq<char>) -> Seq<E::V> {
    entries(E::file_in(partition_of(j, date)))
}

/// The index of the first record of `s` with the identifier `id`, or -1.
pub open spec fn first_with_id<E: Entry>(s: Seq<E::V>, id: Seq<char>) -> int
    decreases s.len(),
{
    if s.len() == 0 {
        -1
    } else if E::id_of(s[0]) == id {
        0
    } else {
        let later = first_with_id::<E>(s.drop_first(), id);
        if later < 0 {
            -1
        } else {
            later + 1
        }
    }
}

/// The records of `s` whose identifier is not `id`.
pub open spec fn without_id<E: Entry>(s: Seq<E::V>, id: Seq<char>) -> Seq<E::V>
    decreases s.len(),
{
    if s.len() == 0 {
        s
    } else if E::id_of(s.last()) == id {
        without_id::<E>(s.drop_last(), id)
    } else {
        without_id::<E>(s.drop_last(), id).push(s.last())
    }
}

/// `s` after a retry of its first record with the identifier `id` failed
/// at the moment `at`.
pub open spec fn with_retry<E: Entry>(s: Seq<E::V>, id: Seq<char>, at: Timestamp) -> Seq<E::V> {
    let i = first_with_id::<E>(s, id);
    if i < 0 {
        s
    } else {
        s.update(i, E::retried(s[i], at))
    }
}

/// `j` with `e` added at the end of the records of its kind for `date`.
pub open spec fn with_entry<E: Filed>(j: Seq<PartitionView>, date: Seq<char>, e: E::V) -> Seq<
    PartitionView,
> {
    stored(j, date, E::as_list(Some(listed::<E>(j, date).push(e))))
}

/// Whether the partition of `date` holds a record of this kind with the
/// identifier `id`.
pub open spec fn holds_id<E: Filed>(j: Seq<PartitionView>, date: Seq<char>, id: Seq<char>) -> bool {
    first_with_id::<E>(listed::<E>(j, date), id) >= 0
}

/// `j` without the records of one kind that have the identifier `id` in the
/// partition of `date`.
pub open spec fn without_entry<E: Filed>(j: Seq<PartitionView>, date: Seq<char>, id: Seq<char>) -> Seq<
    PartitionView,
> {
    if holds_id::<E>(j, date, id) {
        stored(j, date, E::as_list(file_for(without_id::<E>(listed::<E>(j, date), id))))
    } else {
        j
    }
}

/// `j` after a retry of the record with the identifier `id` in the
/// partition of `date` failed at the moment `at`.
pub open spec fn with_retried<E: Filed>(
    j: Seq<PartitionView>,
    date: Seq<char>,
    id: Seq<char>,
    at: Timestamp,
) -> Seq<PartitionView> {
    if holds_id::<E>(j, date, id) {
        stored(j, date, E::as_list(Some(with_retry::<E>(listed::<E>(j, date), id, at))))
    } else {
        j
    }
}

/// The dates of `j` that read as dates, in the order of the partitions.
pub open spec fn valid_dates(j: Seq<PartitionView>) -> Seq<Seq<char>>
    decreases j.len(),
{
    if j.len() == 0 {
        Seq::empty()
    } else if parses_as_date(j.last().date) {
        valid_dates(j.drop_last()).push(j.last().date)
    } else {
        valid_dates(j.drop_last())
    }
}

/// The rule that puts the later of two dates first.
pub struct LatestFirst;

impl Precedence<String> for LatestFirst {
    open spec fn precedes(a: Seq<char>, b: Seq<char>) -> bool {
        text_before(b, a)
    }

    fn comes_before(a: &String, b: &String) -> (first: bool) {
        is_text_before(b.as_str(), a.as_str())
    }
}

/// The dates of `j`, the latest first.
pub open spec fn dates_listed(j: Seq<PartitionView>) -> Seq<Seq<char>> {
    sorted_by::<String, LatestFirst>(valid_dates(j))
}

/// The rule that puts the more recent of two dated records first.
pub struct NewestFirst;

impl<E: Entry> Precedence<(String, E)> for NewestFirst {
    open spec fn precedes(a: (Seq<char>, E::V), b: (Seq<char>, E::V)) -> bool {
        E::stamp_of(a.1).later_than(E::stamp_of(b.1))
    }

    fn comes_before(a: &(String, E), b: &(String, E)) -> (first: bool) {
        a.1.stamp().is_later_than(&b.1.stamp())
    }
}

/// The records of `s`, each with the date `date`.
pub open spec fn dated<V>(date: Seq<char>, s: Seq<V>) -> Seq<(Seq<char>, V)> {
    Seq::new(s.len(), |i: int| (date, s[i]))
}

/// The records of one kind in the partitions of `dates`, each with its
/// date, partition after partition.
pub open spec fn gathered<E: Filed>(j: Seq<PartitionView>, dates: Seq<Seq<char>>) -> Seq<
    (Seq<char>, E::V),
>
    decreases dates.len(),
{
    if dates.len() == 0 {
        Seq::empty()
    } else {
        gathered::<E>(j, dates.drop_last()) + dated(dates.last(), listed::<E>(j, dates.last()))
    }
}

/// Every record of one kind with its date, the most recent first; records
/// of the same moment stand as their partitions do, the later date first.
pub open spec fn all_listed<E: Filed>(j: Seq<PartitionView>) -> Seq<(Seq<char>, E::V)> {
    sorted_by::<(String, E), NewestFirst>(gathered::<E>(j, dates_listed(j)))
}

/// The first of `dates` whose partition holds a record of this kind with
/// the identifier `id`, and that record.
pub open spec fn found_in<E: Filed>(j: Seq<PartitionView>, dates: Seq<Seq<char>>, id: Seq<char>) -> Option<
    (Seq<char>, E::V),
>
    decreases dates.len(),
{
    if dates.len() == 0 {
        None
    } else {
        let list = listed::<E>(j, dates[0]);
        let i = first_with_id::<E>(list, id);
        if i >= 0 {
            Some((dates[0], list[i]))
        } else {
            found_in::<E>(j, dates.drop_first(), id)
        }
    }
}

/// How many records of each kind the partition of `date` holds.
pub open spec fn counts_on(j: Seq<PartitionView>, date: Seq<char>) -> (nat, nat, nat) {
    let p = partition_of(j, date);
    (entries(p.download).len(), entries(p.convert).len(), entries(p.refresh).len())
}

/// How many records of each kind the partitions of `dates` hold together.
pub open spec fn counts_over(j: Seq<PartitionView>, dates: Seq<Seq<char>>) -> (nat, nat, nat)
    decreases dates.len(),
{
    if dates.len() == 0 {
        (0, 0, 0)
    } else {
        let before = counts_over(j, dates.drop_last());
        let here = counts_on(j, dates.last());
        (before.0 + here.0, before.1 + here.1, before.2 + here.2)
    }
}

/// A count as far as a machine word holds it.
pub open spec fn capped(n: nat) -> usize {
    if n > usize::MAX {
        usize::MAX
    } else {
        n as usize
    }
}

/// The file of `kind` that does not exist.
pub open spec fn no_file(kind: ErrorType) -> ListView {
    match kind {
        ErrorType::Download => ListView::Download(None),
        ErrorType::Convert => ListView::Convert(None),
        ErrorType::Refresh => ListView::Refresh(None),
    }
}

/// `j` after the files of `kind` were deleted in the partitions of
/// `dates`, one after the other.
pub open spec fn without_kind(j: Seq<PartitionView>, dates: Seq<Seq<char>>, kind: ErrorType) -> Seq<
    PartitionView,
>
    decreases dates.len(),
{
    if dates.len() == 0 {
        j
    } else {
        stored(without_kind(j, dates.drop_last(), kind), dates.last(), no_file(kind))
    }
}

/// What the stored form has to do after `without_kind`.
pub open spec fn kind_deletions(dates: Seq<Seq<char>>, kind: ErrorType) -> Seq<StoreOpView> {
    Seq::new(dates.len(), |i: int| StoreOpView::Delete { date: dates[i], kind })
}

/// The journal that the partitions `parts` give: a partition without files
/// is passed over, and so is one whose date was seen before.
pub open spec fn normalized(parts: Seq<PartitionView>) -> Seq<PartitionView>
    decreases parts.len(),
{
    if parts.len() == 0 {
        parts
    } else {
        let before = normalized(parts.drop_last());
        if has_files(parts.last()) && find_date(before, parts.last().date) < 0 {
            before.push(parts.last())
        } else {
            before
        }
    }
}

pub proof fn lemma_find_date(j: Seq<PartitionView>, date: Seq<char>)
    ensures
        ({
            let i = find_date(j, date);
            if i < 0 {
                i == -1 && forall|k: int| 0 <= k < j.len() ==> (#[trigger] j[k]).date != date
            } else {
                i < j.len() && j[i].date == date && forall|k: int|
                    i < k < j.len() ==> (#[trigger] j[k]).date != date
            }
        }),
    decreases j.len(),
{
    if j.len() == 0 {
    } else if j.last().date == date {
    } else {
        let init = j.drop_last();
        lemma_find_date(init, date);
        let i = find_date(init, date);
        if i < 0 {
            assert forall|k: int| 0 <= k < j.len() implies (#[trigger] j[k]).date != date by {
                if k < init.len() {
                    assert(init[k] == j[k]);
                }
            }
        } else {
            assert(init[i] == j[i]);
            assert forall|k: int| i < k < j.len() implies (#[trigger] j[k]).date != date by {
                if k < init.len() {
                    assert(init[k] == j[k]);
                }
            }
        }
    }
}

/// Replacing a file keeps a journal a journal, changes the partition of
/// `date` as `put` says, and leaves every other partition as it was.
pub proof fn lemma_stored(j: Seq<PartitionView>, date: Seq<char>, list: ListView)
    requires
        well_formed(j),
    ensures
        well_formed(stored(j, date, list)),
        has_files(put(partition_of(j, date), list)) ==> partition_of(stored(j, date, list), date)
            == put(partition_of(j, date), list),
        !has_files(put(partition_of(j, date), list)) ==> find_date(stored(j, date, list), date)
            < 0,
        forall|other: Seq<char>|
            other != date ==> #[trigger] partition_of(stored(j, date, list), other)
                == partition_of(j, other),
        forall|other: Seq<char>|
            other != date ==> (#[trigger] find_date(stored(j, date, list), other) >= 0)
                == (find_date(j, other) >= 0),
{
    let i = find_date(j, date);
    let q = put(partition_of(j, date), list);
    let after = stored(j, date, list);
    lemma_find_date(j, date);
    lemma_find_date(after, date);
    assert(q.date == date) by {
        match list {
            ListView::Download(_) => {},
            ListView::Convert(_) => {},
            ListView::Refresh(_) => {},
        }
    }
    if i < 0 {
        if has_files(q) {
            assert(after[j.len() as int] == q);
            assert forall|a: int, b: int| 0 <= a < b < after.len() implies after[a].date
                != after[b].date by {
                if b < j.len() {
                } else {
                    assert(after[a] == j[a]);
                }
            }
        }
    } else {
        if has_files(q) {
            assert(after[i] == q);
        } else {
            assert forall|k: int| 0 <= k < after.len() implies (#[trigger] after[k]).date
                != date by {
                let k0 = if k < i { k } else { k + 1 };
                assert(after[k] == j[k0]);
            }
            assert forall|a: int, b: int| 0 <= a < b < after.len() implies after[a].date
                != after[b].date by {
                let a0 = if a < i { a } else { a + 1 };
                let b0 = if b < i { b } else { b + 1 };
                assert(after[a] == j[a0]);
                assert(after[b] == j[b0]);
            }
            assert forall|a: int| 0 <= a < after.len() implies has_files(#[trigger] after[a]) by {
                let a0 = if a < i { a } else { a + 1 };
                assert(after[a] == j[a0]);
            }
        }
    }
    assert forall|other: Seq<char>| other != date implies #[trigger] partition_of(after, other)
        == partition_of(j, other) by {
        lemma_stored_elsewhere(j, date, list, other);
    }
    assert forall|other: Seq<char>| other != date implies (#[trigger] find_date(after, other)
        >= 0) == (find_date(j, other) >= 0) by {
        lemma_stored_elsewhere(j, date, list, other);
    }
}

/// Replacing a file in the partition of one date changes nothing for
/// another date.
pub proof fn lemma_stored_elsewhere(
    j: Seq<PartitionView>,
    date: Seq<char>,
    list: ListView,
    other: Seq<char>,
)
    requires
        well_formed(j),
        other != date,
    ensures
        partition_of(stored(j, date, list), other) == partition_of(j, other),
        (find_date(stored(j, date, list), other) >= 0) == (find_date(j, other) >= 0),
{
    let i = find_date(j, date);
    let q = put(partition_of(j, date), list);
    let after = stored(j, date, list);
    lemma_find_date(j, date);
    lemma_find_date(j, other);
    lemma_find_date(after, other);
    assert(q.date == date) by {
        match list {
            ListView::Download(_) => {},
            ListView::Convert(_) => {},
            ListView::Refresh(_) => {},
        }
    }
    let a = find_date(j, other);
    let b = find_date(after, other);
    if i < 0 {
        if has_files(q) {
            if a >= 0 {
                assert(after[a] == j[a]);
            }
            if b >= 0 {
                assert(after[b] == j[b]);
            }
        }
    } else {
        if has_files(q) {
            if a >= 0 {
                assert(after[a] == j[a]);
            }
            if b >= 0 {
                assert(after[b] == j[b]);
            }
        } else {
            if a >= 0 {
                let a1 = if a < i { a } else { a - 1 };
                assert(after[a1] == j[a]);
            }
            if b >= 0 {
                let b0 = if b < i { b } else { b + 1 };
                assert(after[b] == j[b0]);
            }
        }
    }
}

/// `first_with_id` either finds the first record with the identifier or
/// says that there is none.
pub proof fn lemma_first_with_id<E: Entry>(s: Seq<E::V>, id: Seq<char>)
    ensures
        ({
            let i = first_with_id::<E>(s, id);
            if i < 0 {
                i == -1 && forall|k: int| 0 <= k < s.len() ==> E::id_of(#[trigger] s[k]) != id
            } else {
                i < s.len() && E::id_of(s[i]) == id && forall|k: int|
                    0 <= k < i ==> E::id_of(#[trigger] s[k]) != id
            }
        }),
    decreases s.len(),
{
    if s.len() == 0 {
    } else if E::id_of(s[0]) == id {
    } else {
        let rest = s.drop_first();
        lemma_first_with_id::<E>(rest, id);
        let later = first_with_id::<E>(rest, id);
        if later < 0 {
            assert forall|k: int| 0 <= k < s.len() implies E::id_of(#[trigger] s[k]) != id by {
                if k > 0 {
                    assert(rest[k - 1] == s[k]);
                }
            }
        } else {
            assert(rest[later] == s[later + 1]);
            assert forall|k: int| 0 <= k < later + 1 implies E::id_of(#[trigger] s[k]) != id by {
                if k > 0 {
                    assert(rest[k - 1] == s[k]);
                }
            }
        }
    }
}

/// What `without_id` keeps: no record with the identifier, every other
/// record, and as many records as before exactly when none had the
/// identifier.
pub proof fn lemma_without_id<E: Entry>(s: Seq<E::V>, id: Seq<char>)
    ensures
        without_id::<E>(s, id).len() <= s.len(),
        (without_id::<E>(s, id).len() == s.len()) == (first_with_id::<E>(s, id) < 0),
        first_with_id::<E>(s, id) < 0 ==> without_id::<E>(s, id) == s,
        forall|k: int|
            0 <= k < without_id::<E>(s, id).len() ==> E::id_of(
                #[trigger] without_id::<E>(s, id)[k],
            ) != id,
        first_with_id::<E>(without_id::<E>(s, id), id) < 0,
    decreases s.len(),
{
    let kept = without_id::<E>(s, id);
    lemma_first_with_id::<E>(s, id);
    if s.len() == 0 {
    } else {
        let init = s.drop_last();
        lemma_without_id::<E>(init, id);
        lemma_first_with_id::<E>(init, id);
        let i = first_with_id::<E>(s, id);
        let i0 = first_with_id::<E>(init, id);
        if i0 >= 0 {
            assert(s[i0] == init[i0]);
        }
        if i >= 0 && i < init.len() {
            assert(s[i] == init[i]);
        }
        if E::id_of(s.last()) == id {
        } else {
            if i < 0 {
                assert forall|k: int| 0 <= k < init.len() implies E::id_of(#[trigger] init[k])
                    != id by {
                    assert(init[k] == s[k]);
                }
                assert(kept =~= s);
            }
        }
    }
    lemma_first_with_id::<E>(kept, id);
}

/// A failed retry moves the counter of the record up and never down, and
/// leaves every other record as it was.
pub proof fn lemma_with_retry<E: Entry>(s: Seq<E::V>, id: Seq<char>, at: Timestamp)
    ensures
        with_retry::<E>(s, id, at).len() == s.len(),
        forall|k: int|
            0 <= k < s.len() ==> E::retries_of(#[trigger] with_retry::<E>(s, id, at)[k])
                >= E::retries_of(s[k]),
        forall|k: int|
            0 <= k < s.len() && k != first_with_id::<E>(s, id) ==> #[trigger] with_retry::<E>(
                s,
                id,
                at,
            )[k] == s[k],
        first_with_id::<E>(s, id) >= 0 ==> ({
            let i = first_with_id::<E>(s, id);
            let e = with_retry::<E>(s, id, at)[i];
            &&& E::id_of(e) == id
            &&& E::stamp_of(e) == at
            &&& E::retries_of(e) == bumped(E::retries_of(s[i]))
            &&& E::retries_of(s[i]) < u32::MAX ==> E::retries_of(e) > E::retries_of(s[i])
        }),
{
    lemma_first_with_id::<E>(s, id);
    let i = first_with_id::<E>(s, id);
    if i >= 0 {
        E::lemma_retried(s[i], at);
    }
}

} // verus!
