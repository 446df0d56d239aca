//! The catalog of tracks that were already fetched.
//!
//! The catalog is a set of `(artist, title, path)` records held in the order
//! in which they were added. It never touches the disk itself: every change
//! raises a flag that tells its owner to rewrite the stored form.

use crate::paths::probe_all;
use crate::text::text_eq;
use vstd::prelude::*;
use vstd::string::StringExecFns;

verus! {

/// One fetched track.
#[derive(Debug, PartialEq, Eq, Hash)]
pub struct TrackEntry {
    pub artist: String,
    pub title: String,
    pub path: String,
}

/// What a `TrackEntry` holds.
pub struct TrackView {
    pub artist: Seq<char>,
    pub title: Seq<char>,
    pub path: Seq<char>,
}

impl View for TrackEntry {
    type V = TrackView;

    open spec fn view(&self) -> TrackView {
        TrackView { artist: self.artist@, title: self.title@, path: self.path@ }
    }
}

impl DeepView for TrackEntry {
    type V = TrackView;

    open spec fn deep_view(&self) -> TrackView {
        self@
    }
}

impl Clone for TrackEntry {
    fn clone(&self) -> (copy: TrackEntry)
        ensures
            copy@ == self@,
    {
        TrackEntry {
            artist: self.artist.clone(),
            title: self.title.clone(),
            path: self.path.clone(),
        }
    }
}

impl TrackEntry {
    /// Whether both entries name the same artist, title and path.
    pub fn same_as(&self, other: &TrackEntry) -> (same: bool)
        ensures
            same == (self@ == other@),
    {
        self.artist == other.artist && self.title == other.title && self.path == other.path
    }
}

/// The index of the first record of `s` with the path `path`, or -1.
pub open spec fn first_with_path(s: Seq<TrackView>, path: Seq<char>) -> int
    decreases s.len(),
{
    if s.len() == 0 {
        -1
    } else if s[0].path == path {
        0
    } else {
        let later = first_with_path(s.drop_first(), path);
        if later < 0 {
            -1
        } else {
            later + 1
        }
    }
}

/// `s` with `e` in it: unchanged when `e` is there already, else with `e` at
/// the end.
pub open spec fn inserted(s: Seq<TrackView>, e: TrackView) -> Seq<TrackView> {
    if s.contains(e) {
        s
    } else {
        s.push(e)
    }
}

/// `s` after the first record with the path `old_path` was taken out and put
/// back with the path `new_path`.
pub open spec fn path_replaced(s: Seq<TrackView>, old_path: Seq<char>, new_path: Seq<char>) -> Seq<
    TrackView,
> {
    let i = first_with_path(s, old_path);
    if i < 0 {
        s
    } else {
        inserted(s.remove(i), TrackView { artist: s[i].artist, title: s[i].title, path: new_path })
    }
}

/// `s` without its first record with the path `path`.
pub open spec fn path_removed(s: Seq<TrackView>, path: Seq<char>) -> Seq<TrackView> {
    let i = first_with_path(s, path);
    if i < 0 {
        s
    } else {
        s.remove(i)
    }
}

/// Whether the record at index `i` goes when the files are checked:
/// `present[i]` says whether its file exists, and a record without an
/// answer stays.
pub open spec fn is_missing(present: Seq<bool>, i: int) -> bool {
    0 <= i < present.len() && !present[i]
}

/// The records of `s` whose file is not reported missing, in order.
pub open spec fn kept(s: Seq<TrackView>, present: Seq<bool>) -> Seq<TrackView>
    decreases s.len(),
{
    if s.len() == 0 {
        s
    } else {
        let before = kept(s.drop_last(), present);
        if is_missing(present, s.len() - 1) {
            before
        } else {
            before.push(s.last())
        }
    }
}

/// The records of `s` whose file is reported missing, in order.
pub open spec fn lost(s: Seq<TrackView>, present: Seq<bool>) -> Seq<TrackView>
    decreases s.len(),
{
    if s.len() == 0 {
        s
    } else {
        let before = lost(s.drop_last(), present);
        if is_missing(present, s.len() - 1) {
            before.push(s.last())
        } else {
            before
        }
    }
}

/// The paths of the records of `s`, in order.
pub open spec fn paths_of(s: Seq<TrackView>) -> Seq<Seq<char>> {
    Seq::new(s.len(), |i: int| s[i].path)
}

/// How many of the first `n` records are reported missing.
pub open spec fn missing_count(present: Seq<bool>, n: nat) -> nat
    decreases n,
{
    if n == 0 {
        0
    } else {
        missing_count(present, (n - 1) as nat) + if is_missing(present, n - 1) {
            1nat
        } else {
            0nat
        }
    }
}

/// The records of `entries` without repetitions, each at its first place.
pub open spec fn distinct(entries: Seq<TrackView>) -> Seq<TrackView>
    decreases entries.len(),
{
    if entries.len() == 0 {
        entries
    } else {
        inserted(distinct(entries.drop_last()), entries.last())
    }
}

pub proof fn lemma_first_with_path_found(s: Seq<TrackView>, path: Seq<char>, i: int)
    requires
        0 <= i < s.len(),
        s[i].path == path,
        forall|j: int| 0 <= j < i ==> s[j].path != path,
    ensures
        first_with_path(s, path) == i,
    decreases i,
{
    if i > 0 {
        lemma_first_with_path_found(s.drop_first(), path, i - 1);
    }
}

pub proof fn lemma_first_with_path_absent(s: Seq<TrackView>, path: Seq<char>)
    requires
        forall|j: int| 0 <= j < s.len() ==> s[j].path != path,
    ensures
        first_with_path(s, path) == -1,
    decreases s.len(),
{
    if s.len() > 0 {
        lemma_first_with_path_absent(s.drop_first(), path);
    }
}

/// `first_with_path` either finds the first record with the path or says
/// that there is none.
pub proof fn lemma_first_with_path(s: Seq<TrackView>, path: Seq<char>)
    ensures
        ({
            let i = first_with_path(s, path);
            if i < 0 {
                i == -1 && forall|j: int| 0 <= j < s.len() ==> s[j].path != path
            } else {
                i < s.len() && s[i].path == path && forall|j: int| 0 <= j < i ==> s[j].path != path
            }
        }),
    decreases s.len(),
{
    if s.len() == 0 {
    } else if s[0].path == path {
    } else {
        let rest = s.drop_first();
        lemma_first_with_path(rest, path);
        let later = first_with_path(rest, path);
        if later < 0 {
            assert forall|j: int| 0 <= j < s.len() implies s[j].path != path by {
                if j > 0 {
                    assert(rest[j - 1] == s[j]);
                }
            }
        } else {
            assert(rest[later] == s[later + 1]);
            assert forall|j: int| 0 <= j < later + 1 implies s[j].path != path by {
                if j > 0 {
                    assert(rest[j - 1] == s[j]);
                }
            }
        }
    }
}

/// Putting a record into a catalog without repetitions leaves it without
/// repetitions.
pub proof fn lemma_inserted_distinct(s: Seq<TrackView>, e: TrackView)
    requires
        s.no_duplicates(),
    ensures
        inserted(s, e).no_duplicates(),
        inserted(s, e).contains(e),
{
    if s.contains(e) {
    } else {
        let t = s.push(e);
        assert(t[s.len() as int] == e);
        assert forall|i: int, j: int| 0 <= i < t.len() && 0 <= j < t.len() && i != j implies t[i]
            != t[j] by {
            if i < s.len() && j < s.len() {
            } else if i < s.len() {
                assert(s.contains(s[i]));
            } else {
                assert(s.contains(s[j]));
            }
        }
    }
}

/// Taking the record at `i` out of a catalog without repetitions leaves it
/// without repetitions, and without that record.
pub proof fn lemma_remove_distinct(s: Seq<TrackView>, i: int)
    requires
        s.no_duplicates(),
        0 <= i < s.len(),
    ensures
        s.remove(i).no_duplicates(),
        !s.remove(i).contains(s[i]),
{
    let t = s.remove(i);
    assert forall|a: int, b: int| 0 <= a < t.len() && 0 <= b < t.len() && a != b implies t[a]
        != t[b] by {
        let a0 = if a < i { a } else { a + 1 };
        let b0 = if b < i { b } else { b + 1 };
        assert(t[a] == s[a0]);
        assert(t[b] == s[b0]);
    }
    if t.contains(s[i]) {
        let a = choose|a: int| 0 <= a < t.len() && t[a] == s[i];
        let a0 = if a < i { a } else { a + 1 };
        assert(t[a] == s[a0]);
    }
}

/// What stays after a check of the files is a selection from the catalog:
/// it keeps the order, holds no repetitions if the catalog held none, and
/// its length and the number of missing records add up to the old length.
pub proof fn lemma_kept(s: Seq<TrackView>, present: Seq<bool>)
    ensures
        kept(s, present).len() + missing_count(present, s.len()) == s.len(),
        forall|e: TrackView| #[trigger]
            kept(s, present).contains(e) <==> exists|i: int|
                0 <= i < s.len() && s[i] == e && !is_missing(present, i),
        s.no_duplicates() ==> kept(s, present).no_duplicates(),
    decreases s.len(),
{
    if s.len() == 0 {
    } else {
        let init = s.drop_last();
        let before = kept(init, present);
        let last = s.len() - 1;
        lemma_kept(init, present);
        let now = kept(s, present);
        assert forall|e: TrackView| #[trigger]
            now.contains(e) <==> exists|i: int|
                0 <= i < s.len() && s[i] == e && !is_missing(present, i) by {
            if now.contains(e) {
                let k = choose|k: int| 0 <= k < now.len() && now[k] == e;
                if k < before.len() {
                    assert(before[k] == e);
                    assert(before.contains(e));
                    let i = choose|i: int|
                        0 <= i < init.len() && init[i] == e && !is_missing(present, i);
                    assert(s[i] == e);
                } else {
                    assert(s[last] == e && !is_missing(present, last));
                }
            }
            if exists|i: int| 0 <= i < s.len() && s[i] == e && !is_missing(present, i) {
                let i = choose|i: int| 0 <= i < s.len() && s[i] == e && !is_missing(present, i);
                if i < last {
                    assert(init[i] == e);
                    assert(before.contains(e));
                    let k = choose|k: int| 0 <= k < before.len() && before[k] == e;
                    assert(now[k] == e);
                } else {
                    assert(now[before.len() as int] == e);
                }
            }
        }
        if s.no_duplicates() {
            assert(init.no_duplicates());
            if !is_missing(present, last) {
                if before.contains(s[last]) {
                    let i = choose|i: int|
                        0 <= i < init.len() && init[i] == s[last] && !is_missing(present, i);
                    assert(s[i] == s[last]);
                }
                lemma_inserted_distinct(before, s[last]);
            }
        }
    }
}

pub proof fn lemma_distinct(entries: Seq<TrackView>)
    ensures
        distinct(entries).no_duplicates(),
        forall|e: TrackView| #[trigger] distinct(entries).contains(e) <==> entries.contains(e),
    decreases entries.len(),
{
    if entries.len() == 0 {
    } else {
        let init = entries.drop_last();
        lemma_distinct(init);
        lemma_inserted_distinct(distinct(init), entries.last());
        let d = distinct(entries);
        assert forall|e: TrackView| #[trigger] d.contains(e) <==> entries.contains(e) by {
            if d.contains(e) {
                if e == entries.last() {
                    assert(entries[entries.len() - 1] == e);
                } else {
                    let k = choose|k: int| 0 <= k < d.len() && d[k] == e;
                    assert(distinct(init)[k] == e);
                    assert(distinct(init).contains(e));
                    assert(init.contains(e));
                    let i = choose|i: int| 0 <= i < init.len() && init[i] == e;
                    assert(entries[i] == e);
                }
            }
            if entries.contains(e) {
                let i = choose|i: int| 0 <= i < entries.len() && entries[i] == e;
                if i < init.len() {
                    assert(init[i] == e);
                    assert(distinct(init).contains(e));
                    let k = choose|k: int| 0 <= k < distinct(init).len() && distinct(init)[k] == e;
                    assert(d[k] == e);
                }
            }
        }
    }
}

/// Adding a record that the catalog holds changes nothing, so adding the
/// same record twice leaves exactly one copy of it.
pub proof fn lemma_add_is_idempotent(s: Seq<TrackView>, e: TrackView)
    requires
        s.no_duplicates(),
    ensures
        inserted(inserted(s, e), e) == inserted(s, e),
        inserted(inserted(s, e), e).to_multiset().count(e) == 1,
{
    lemma_inserted_distinct(s, e);
    let t = inserted(s, e);
    t.lemma_multiset_has_no_duplicates();
    t.to_multiset_ensures();
}

/// The catalog: which tracks were fetched, and where they are. The records
/// stand in a list in which none occurs twice, so that whether one is held
/// is decided by comparing its three texts and by nothing else.
pub struct DownloadDB {
    tracks: Vec<TrackEntry>,
    file_path: String,
    unsaved: bool,
}

impl View for DownloadDB {
    type V = Seq<TrackView>;

    /// The records, in the order in which they were added.
    closed spec fn view(&self) -> Seq<TrackView> {
        self.tracks.deep_view()
    }
}

impl DownloadDB {
    #[verifier::type_invariant]
    spec fn no_repetition(&self) -> bool {
        self.tracks.deep_view().no_duplicates()
    }

    /// Where the stored form of the catalog lives.
    pub closed spec fn location(&self) -> Seq<char> {
        self.file_path@
    }

    /// Whether the catalog changed since it was last stored.
    pub closed spec fn is_unsaved(&self) -> bool {
        self.unsaved
    }

    /// An empty catalog whose stored form lives at `file_path`.
    pub fn new(file_path: &str) -> (db: DownloadDB)
        ensures
            db@ == Seq::<TrackView>::empty(),
            db.location() == file_path@,
            !db.is_unsaved(),
    {
        let tracks: Vec<TrackEntry> = Vec::new();
        assert(tracks.deep_view() =~= Seq::<TrackView>::empty());
        DownloadDB { tracks, file_path: String::from_str(file_path), unsaved: false }
    }

    /// The catalog that the stored records `entries` describe: a record that
    /// is stored twice is held once.
    pub fn from_entries(file_path: &str, entries: Vec<TrackEntry>) -> (db: DownloadDB)
        ensures
            db@ == distinct(entries.deep_view()),
            db.location() == file_path@,
            !db.is_unsaved(),
    {
        let mut db = DownloadDB::new(file_path);
        let mut i: usize = 0;
        let ghost all = entries.deep_view();
        while i < entries.len()
            invariant
                i <= entries.len(),
                all == entries.deep_view(),
                db@ == distinct(all.take(i as int)),
                db.location() == file_path@,
            decreases entries.len() - i,
        {
            proof {
                assert(all.take(i + 1).drop_last() =~= all.take(i as int));
                assert(all.take(i + 1).last() == entries@[i as int]@);
            }
            db.add(entries[i].clone());
            i += 1;
        }
        assert(all.take(all.len() as int) =~= all);
        db.mark_saved();
        db
    }

    /// The stored form is up to date again.
    pub fn mark_saved(&mut self)
        ensures
            final(self)@ == old(self)@,
            final(self).location() == old(self).location(),
            !final(self).is_unsaved(),
    {
        proof {
            use_type_invariant(&*self);
        }
        self.unsaved = false;
    }

    /// Whether the stored form has to be rewritten.
    pub fn needs_save(&self) -> (unsaved: bool)
        ensures
            unsaved == self.is_unsaved(),
    {
        self.unsaved
    }

    pub fn file_path(&self) -> (path: &str)
        ensures
            path@ == self.location(),
    {
        self.file_path.as_str()
    }

    /// The catalog never holds a record twice.
    pub fn len(&self) -> (n: usize)
        ensures
            n == self@.len(),
            self@.no_duplicates(),
    {
        proof {
            use_type_invariant(self);
        }
        self.tracks.len()
    }

    /// Moves the records out, leaving the catalog empty for the moment.
    fn take_tracks(&mut self) -> (tracks: Vec<TrackEntry>)
        ensures
            tracks.deep_view() == old(self)@,
            tracks.deep_view().no_duplicates(),
            final(self)@ == Seq::<TrackView>::empty(),
            final(self).location() == old(self).location(),
            final(self).is_unsaved() == old(self).is_unsaved(),
    {
        proof {
            use_type_invariant(&*self);
        }
        let mut tracks: Vec<TrackEntry> = Vec::new();
        assert(tracks.deep_view() =~= Seq::<TrackView>::empty());
        core::mem::swap(&mut self.tracks, &mut tracks);
        tracks
    }

    fn position(&self, entry: &TrackEntry) -> (at: Option<usize>)
        ensures
            match at {
                Some(i) => i < self@.len() && self@[i as int] == entry@,
                None => !self@.contains(entry@),
            },
    {
        let mut i: usize = 0;
        while i < self.tracks.len()
            invariant
                i <= self.tracks.len(),
                forall|j: int| 0 <= j < i ==> self@[j] != entry@,
            decreases self.tracks.len() - i,
        {
            if self.tracks[i].same_as(entry) {
                return Some(i);
            }
            i += 1;
        }
        None
    }

    fn position_of_path(&self, path: &str) -> (at: Option<usize>)
        ensures
            match at {
                Some(i) => i < self@.len() && first_with_path(self@, path@) == i,
                None => first_with_path(self@, path@) == -1,
            },
    {
        let mut i: usize = 0;
        while i < self.tracks.len()
            invariant
                i <= self.tracks.len(),
                forall|j: int| 0 <= j < i ==> self@[j].path != path@,
            decreases self.tracks.len() - i,
        {
            if text_eq(self.tracks[i].path.as_str(), path) {
                proof {
                    lemma_first_with_path_found(self@, path@, i as int);
                }
                return Some(i);
            }
            i += 1;
        }
        proof {
            lemma_first_with_path_absent(self@, path@);
        }
        None
    }

    /// Puts `entry` into the catalog. The stored form is due for a rewrite
    /// whether or not the catalog held the record already.
    pub fn add(&mut self, entry: TrackEntry)
        ensures
            final(self)@ == inserted(old(self)@, entry@),
            final(self)@.no_duplicates(),
            final(self)@.contains(entry@),
            final(self).location() == old(self).location(),
            final(self).is_unsaved(),
    {
        proof {
            use_type_invariant(&*self);
            lemma_inserted_distinct(self@, entry@);
        }
        if self.position(&entry).is_none() {
            let ghost before = self@;
            let ghost e = entry@;
            let mut tracks = self.take_tracks();
            tracks.push(entry);
            assert(tracks.deep_view() =~= before.push(e));
            self.tracks = tracks;
        }
        self.unsaved = true;
    }

    /// Whether the catalog holds a record with this artist, title and path.
    pub fn contains(&self, entry: &TrackEntry) -> (held: bool)
        ensures
            held == self@.contains(entry@),
    {
        self.position(entry).is_some()
    }

    /// The first record with the path `path`.
    pub fn find_by_path(&self, path: &str) -> (found: Option<&TrackEntry>)
        ensures
            match found {
                Some(e) => first_with_path(self@, path@) >= 0 && e@ == self@[first_with_path(
                    self@,
                    path@,
                )],
                None => first_with_path(self@, path@) == -1,
            },
    {
        match self.position_of_path(path) {
            Some(i) => Some(&self.tracks[i]),
            None => None,
        }
    }

    /// Gives the first record with the path `old_path` the path `new_path`
    /// and says whether there was such a record.
    pub fn update_path(&mut self, old_path: &str, new_path: &str) -> (found: bool)
        ensures
            found == (first_with_path(old(self)@, old_path@) >= 0),
            final(self)@ == path_replaced(old(self)@, old_path@, new_path@),
            final(self)@.no_duplicates(),
            final(self).location() == old(self).location(),
            final(self).is_unsaved() == (found || old(self).is_unsaved()),
    {
        proof {
            use_type_invariant(&*self);
        }
        match self.position_of_path(old_path) {
            Some(i) => {
                let ghost before = self@;
                proof {
                    lemma_remove_distinct(before, i as int);
                }
                let mut tracks = self.take_tracks();
                let old_entry = tracks.remove(i);
                assert(tracks.deep_view() =~= before.remove(i as int));
                self.tracks = tracks;
                let new_entry = TrackEntry {
                    artist: old_entry.artist,
                    title: old_entry.title,
                    path: String::from_str(new_path),
                };
                self.add(new_entry);
                true
            },
            None => false,
        }
    }

    /// Takes the first record with the path `path` out of the catalog and
    /// says whether there was one.
    pub fn remove_by_path(&mut self, path: &str) -> (found: bool)
        ensures
            found == (first_with_path(old(self)@, path@) >= 0),
            final(self)@ == path_removed(old(self)@, path@),
            final(self)@.no_duplicates(),
            final(self).location() == old(self).location(),
            final(self).is_unsaved() == (found || old(self).is_unsaved()),
    {
        proof {
            use_type_invariant(&*self);
        }
        match self.position_of_path(path) {
            Some(i) => {
                let ghost before = self@;
                proof {
                    lemma_remove_distinct(before, i as int);
                }
                let mut tracks = self.take_tracks();
                tracks.remove(i);
                assert(tracks.deep_view() =~= before.remove(i as int));
                self.tracks = tracks;
                self.unsaved = true;
                true
            },
            None => false,
        }
    }

    /// Takes out every record whose file is reported missing: `present[i]`
    /// says whether the file of the record at index `i` exists. Returns how
    /// many records went and how many there were.
    pub fn retain_present(&mut self, present: &Vec<bool>) -> (counts: (usize, usize))
        ensures
            final(self)@ == kept(old(self)@, present@),
            final(self)@.no_duplicates(),
            counts.0 == missing_count(present@, old(self)@.len()),
            counts.0 + final(self)@.len() == old(self)@.len(),
            counts.1 == old(self)@.len(),
            final(self).location() == old(self).location(),
            final(self).is_unsaved() == (counts.0 > 0 || old(self).is_unsaved()),
    {
        proof {
            use_type_invariant(&*self);
        }
        let total = self.tracks.len();
        let ghost all = self.tracks.deep_view();
        let mut staying: Vec<TrackEntry> = Vec::new();
        let mut removed: usize = 0;
        let mut i: usize = 0;
        assert(staying.deep_view() =~= kept(all.take(0), present@));
        while i < total
            invariant
                i <= total,
                total == self.tracks.len(),
                all == self.tracks.deep_view(),
                staying.deep_view() == kept(all.take(i as int), present@),
                removed == missing_count(present@, i as nat),
                removed <= i,
            decreases total - i,
        {
            proof {
                assert(all.take(i + 1).drop_last() =~= all.take(i as int));
                assert(all.take(i + 1).last() == self.tracks@[i as int]@);
            }
            if i < present.len() && !present[i] {
                removed += 1;
            } else {
                let ghost before = staying.deep_view();
                let e = self.tracks[i].clone();
                staying.push(e);
                assert(staying.deep_view() =~= before.push(e@));
            }
            i += 1;
        }
        proof {
            assert(all.take(all.len() as int) =~= all);
            lemma_kept(all, present@);
        }
        self.tracks = staying;
        if removed > 0 {
            self.unsaved = true;
        }
        (removed, total)
    }

    /// The records whose file is reported missing, in order: what
    /// `retain_present` would take out for the same answers. The catalog
    /// stays as it is.
    pub fn missing_tracks(&self, present: &Vec<bool>) -> (gone: Vec<TrackEntry>)
        ensures
            gone.deep_view() == lost(self@, present@),
            gone.len() == missing_count(present@, self@.len()),
    {
        let ghost all = self.tracks.deep_view();
        let mut gone: Vec<TrackEntry> = Vec::new();
        let mut i: usize = 0;
        assert(gone.deep_view() =~= lost(all.take(0), present@));
        while i < self.tracks.len()
            invariant
                i <= self.tracks.len(),
                all == self.tracks.deep_view(),
                gone.deep_view() == lost(all.take(i as int), present@),
                gone.len() == missing_count(present@, i as nat),
                gone.len() <= i,
            decreases self.tracks.len() - i,
        {
            proof {
                assert(all.take(i + 1).drop_last() =~= all.take(i as int));
                assert(all.take(i + 1).last() == self.tracks@[i as int]@);
            }
            if i < present.len() && !present[i] {
                let ghost before = gone.deep_view();
                let e = self.tracks[i].clone();
                gone.push(e);
                assert(gone.deep_view() =~= before.push(e@));
            }
            i += 1;
        }
        proof {
            assert(all.take(all.len() as int) =~= all);
        }
        gone
    }

    /// The paths of the records, in order: what the disk is asked about
    /// when the catalog is cleaned.
    pub fn paths(&self) -> (paths: Vec<String>)
        ensures
            paths.deep_view() == paths_of(self@),
    {
        let ghost all = self.tracks.deep_view();
        let mut paths: Vec<String> = Vec::new();
        let mut i: usize = 0;
        while i < self.tracks.len()
            invariant
                i <= self.tracks.len(),
                all == self.tracks.deep_view(),
                paths.len() == i,
                forall|k: int| 0 <= k < i ==> (#[trigger] paths@[k])@ == all[k].path,
            decreases self.tracks.len() - i,
        {
            assert(all[i as int] == self.tracks@[i as int]@);
            paths.push(self.tracks[i].path.clone());
            i += 1;
        }
        assert(paths.deep_view() =~= paths_of(self@));
        paths
    }

    /// Asks the disk about the path of each record, in order: the paths
    /// are those that `paths` gives. The answers depend on the disk; there
    /// is one for each record.
    pub fn probe_files(&self) -> (present: Vec<bool>)
        ensures
            present.len() == self@.len(),
    {
        let paths = self.paths();
        assert(paths.deep_view().len() == paths.len());
        probe_all(&paths)
    }

    /// Clean up the catalog by removing the records whose files no longer
    /// exist. Returns how many records went and how many there were. Which
    /// records go depends on the disk; whatever it answers, what stays is
    /// what `retain_present` keeps for some answers.
    pub fn cleanup(&mut self) -> (counts: (usize, usize))
        ensures
            exists|present: Seq<bool>|
                present.len() == old(self)@.len()
                    && #[trigger] kept(old(self)@, present) == final(self)@
                    && counts.0 == missing_count(present, old(self)@.len()),
            final(self)@.no_duplicates(),
            counts.0 + final(self)@.len() == old(self)@.len(),
            counts.1 == old(self)@.len(),
            final(self).location() == old(self).location(),
            final(self).is_unsaved() == (counts.0 > 0 || old(self).is_unsaved()),
    {
        let present = self.probe_files();
        self.retain_present(&present)
    }

    /// Every record, in the order in which they were added.
    pub fn all_tracks(&self) -> (all: Vec<&TrackEntry>)
        ensures
            all.len() == self@.len(),
            forall|i: int| 0 <= i < all.len() ==> (#[trigger] all@[i])@ == self@[i],
    {
        let mut all: Vec<&TrackEntry> = Vec::new();
        let mut i: usize = 0;
        while i < self.tracks.len()
            invariant
                i <= self.tracks.len(),
                all.len() == i,
                forall|j: int| 0 <= j < i ==> (#[trigger] all@[j])@ == self@[j],
            decreases self.tracks.len() - i,
        {
            all.push(&self.tracks[i]);
            i += 1;
        }
        all
    }
}

} // verus!
