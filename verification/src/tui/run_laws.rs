//! What holds of a download job that runs through its list.
//!
//! The events that tell of tracks (started, complete, failed, skipped) are
//! the marks of a run. A job that is not cut short tells of its tracks one
//! after the other, in the order of its list: of each track either that it
//! was skipped, or that it was started and then what came of it, before
//! anything is told of the next.

use crate::db::{inserted, TrackView};
use crate::error_log::entries::DownloadErrorView;
use crate::sources::youtube::YouTubePlaylistView;
use crate::tui::download_job::{
    actual_format, advanced, at_gate, cover_dest, download_expects, download_step, download_wf,
    entry_of, to_gate, youtube_plans, DownloadJobView, DownloadStage, TrackPlanView,
};
use crate::tui::messages::{downloading_text, found_playlist_text, tagging_failure_text};
use crate::tui::download_laws::{begun, lemma_step_starts_next_track, run, tracks_known};
use crate::tui::protocol::{cover_failure_text, ActionView, OutcomeView};
use crate::tui::worker::DownloadEventView;
use vstd::prelude::*;

verus! {

/// Whether `e` tells of a track.
pub open spec fn is_mark(e: DownloadEventView) -> bool {
    e is TrackStarted || e is TrackComplete || e is TrackFailed || e is TrackSkipped
}

/// The events of `events` that tell of tracks, in order.
pub open spec fn marks(events: Seq<DownloadEventView>) -> Seq<DownloadEventView>
    decreases events.len(),
{
    if events.len() == 0 {
        events
    } else if is_mark(events[0]) {
        seq![events[0]] + marks(events.drop_first())
    } else {
        marks(events.drop_first())
    }
}

/// The event that tells that the track `p` is skipped.
pub open spec fn skipped_mark(id: usize, p: TrackPlanView) -> DownloadEventView {
    DownloadEventView::TrackSkipped { id, artist: p.artist, title: p.title }
}

/// The event that announces the track `p`, which stands at index `i` of
/// the list.
pub open spec fn started_mark(id: usize, p: TrackPlanView, i: int) -> DownloadEventView {
    DownloadEventView::TrackStarted {
        id,
        artist: p.artist,
        title: p.title,
        track_num: (i + 1) as usize,
    }
}

/// The event that tells that the track `p` failed.
pub open spec fn failed_mark(id: usize, p: TrackPlanView, error: Seq<char>) -> DownloadEventView {
    DownloadEventView::TrackFailed { id, artist: p.artist, title: p.title, error }
}

/// Whether `e` tells what came of the track `p`: that it is complete, or
/// that it failed.
pub open spec fn settles(e: DownloadEventView, id: usize, p: TrackPlanView) -> bool {
    ||| e == (DownloadEventView::TrackComplete {
        id,
        artist: p.artist,
        title: p.title,
        path: p.file_path,
    })
    ||| (e matches DownloadEventView::TrackFailed { id: of, artist, title, .. } && of == id
        && artist == p.artist && title == p.title)
}

/// Whether the marks `m` tell of the items of `plans` from index `i` on,
/// each in its turn and to the last: an item that is no track is passed
/// over in silence; a track is skipped, or it is started and then
/// settled. With `open`, the track at `i` is started already and waits to
/// be settled.
pub open spec fn told(
    m: Seq<DownloadEventView>,
    id: usize,
    plans: Seq<Option<TrackPlanView>>,
    i: int,
    open: bool,
) -> bool
    decreases plans.len() - i, (if open { 0int } else { 1int }),
{
    if i < 0 || i >= plans.len() {
        m.len() == 0 && !open
    } else {
        match plans[i] {
            None => !open && told(m, id, plans, i + 1, false),
            Some(p) => if open {
                m.len() >= 1 && settles(m[0], id, p) && told(
                    m.drop_first(),
                    id,
                    plans,
                    i + 1,
                    false,
                )
            } else {
                m.len() >= 1 && ((m[0] == skipped_mark(id, p) && told(
                    m.drop_first(),
                    id,
                    plans,
                    i + 1,
                    false,
                )) || (m[0] == started_mark(id, p, i) && told(
                    m.drop_first(),
                    id,
                    plans,
                    i,
                    true,
                )))
            },
        }
    }
}

/// Whether a track of the job is started and not yet settled.
pub open spec fn open_track(job: DownloadJobView) -> bool {
    job.stage == DownloadStage::Downloading || job.stage == DownloadStage::Tagging
}

/// Whether the job stands in its list: its tracks are known, and it has
/// come to its end only behind the last of them.
pub open spec fn in_list(job: DownloadJobView) -> bool {
    &&& download_wf(job)
    &&& tracks_known(job)
    &&& (job.stage == DownloadStage::Writing || job.stage == DownloadStage::Done) ==> job.next
        == job.plans.len()
}

/// Whether the job, taking `outcomes` one after the other, comes to its
/// end without being cut short: each outcome fits, the pause never closes
/// while the job waits for its turn, and the last outcome leaves the job
/// over.
pub open spec fn runs_through(
    job: DownloadJobView,
    db: Seq<TrackView>,
    outcomes: Seq<OutcomeView>,
) -> bool
    decreases outcomes.len(),
{
    if outcomes.len() == 0 || !download_expects(job, outcomes[0]) {
        job.stage == DownloadStage::Done
    } else {
        let r = download_step(job, db, outcomes[0]);
        (job.stage == DownloadStage::AtGate ==> outcomes[0] is Resumed) && runs_through(
            r.job,
            r.db,
            outcomes.drop_first(),
        )
    }
}

/// The marks of two lists of events, one after the other, are the marks
/// of the first followed by those of the second.
pub proof fn lemma_marks_of_both(a: Seq<DownloadEventView>, b: Seq<DownloadEventView>)
    ensures
        marks(a + b) == marks(a) + marks(b),
    decreases a.len(),
{
    if a.len() == 0 {
        assert(a + b =~= b);
        assert(marks(a) + marks(b) =~= marks(b));
    } else {
        lemma_marks_of_both(a.drop_first(), b);
        assert((a + b).drop_first() =~= a.drop_first() + b);
        assert((a + b)[0] == a[0]);
        if is_mark(a[0]) {
            assert(seq![a[0]] + (marks(a.drop_first()) + marks(b)) =~= (seq![a[0]] + marks(
                a.drop_first(),
            )) + marks(b));
        }
    }
}

/// The marks of a list with one more event.
pub proof fn lemma_marks_of_one_more(a: Seq<DownloadEventView>, e: DownloadEventView)
    ensures
        marks(a.push(e)) == if is_mark(e) {
            marks(a).push(e)
        } else {
            marks(a)
        },
{
    let one = seq![e];
    lemma_marks_of_both(a, one);
    assert(a.push(e) =~= a + one);
    assert(one.drop_first() =~= Seq::<DownloadEventView>::empty());
    assert(marks(one.drop_first()) =~= Seq::<DownloadEventView>::empty());
    if is_mark(e) {
        assert(marks(one) =~= one);
        assert(marks(a) + one =~= marks(a).push(e));
    } else {
        assert(marks(one) =~= Seq::<DownloadEventView>::empty());
        assert(marks(a) + marks(one) =~= marks(a));
    }
}

/// Every mark of a list of events is one of its events.
pub proof fn lemma_marks_are_events(a: Seq<DownloadEventView>, k: int)
    requires
        0 <= k < marks(a).len(),
    ensures
        a.contains(marks(a)[k]),
        is_mark(marks(a)[k]),
    decreases a.len(),
{
    if a.len() == 0 {
    } else {
        let rest = a.drop_first();
        if is_mark(a[0]) && k == 0 {
            assert(a[0] == marks(a)[0]);
        } else {
            let k1 = if is_mark(a[0]) {
                k - 1
            } else {
                k
            };
            lemma_marks_are_events(rest, k1);
            assert(marks(a)[k] == marks(rest)[k1]);
            let j = choose|j: int| 0 <= j < rest.len() && rest[j] == marks(rest)[k1];
            assert(a[j + 1] == rest[j]);
        }
    }
}

/// Turning to the next item tells of no track, and leaves the job where
/// it stands in its list.
proof fn lemma_to_gate(
    job: DownloadJobView,
    db: Seq<TrackView>,
    events: Seq<DownloadEventView>,
    failure: Option<DownloadErrorView>,
)
    requires
        job.next <= job.plans.len(),
    ensures
        ({
            let r = to_gate(job, db, events, failure);
            &&& r.job.id == job.id
            &&& r.job.plans == job.plans
            &&& r.job.next == job.next
            &&& !open_track(r.job)
            &&& marks(r.events) == marks(events)
            &&& (r.job.stage == DownloadStage::Writing || r.job.stage == DownloadStage::Done)
                ==> r.job.next == r.job.plans.len()
        }),
{
    lemma_marks_of_one_more(
        events,
        DownloadEventView::Complete { id: job.id, name: job.name },
    );
}

/// A step that is not cut short while the job waits for its turn leaves
/// the job in its list, with the list and the identifier that it had.
pub proof fn lemma_step_keeps_in_list(
    job: DownloadJobView,
    db: Seq<TrackView>,
    outcome: OutcomeView,
)
    requires
        in_list(job),
        download_expects(job, outcome),
        job.stage == DownloadStage::AtGate ==> outcome is Resumed,
    ensures
        ({
            let r = download_step(job, db, outcome);
            &&& in_list(r.job)
            &&& r.job.id == job.id
            &&& r.job.plans == job.plans
        }),
{
    lemma_step_starts_next_track(job, db, outcome);
}

/// One step tells of the track whose turn it is, and of no other: if the
/// marks `rest` tell of the list from where the step leaves the job, the
/// marks of the step followed by `rest` tell of it from where the step
/// found the job.
pub proof fn lemma_step_tells(
    job: DownloadJobView,
    db: Seq<TrackView>,
    outcome: OutcomeView,
    rest: Seq<DownloadEventView>,
)
    requires
        in_list(job),
        download_expects(job, outcome),
        job.stage == DownloadStage::AtGate ==> outcome is Resumed,
        ({
            let r = download_step(job, db, outcome);
            told(rest, r.job.id, r.job.plans, r.job.next as int, open_track(r.job))
        }),
    ensures
        ({
            let r = download_step(job, db, outcome);
            &&& in_list(r.job)
            &&& r.job.id == job.id
            &&& r.job.plans == job.plans
            &&& told(
                marks(r.events) + rest,
                job.id,
                job.plans,
                job.next as int,
                open_track(job),
            )
        }),
{
    let r = download_step(job, db, outcome);
    let none = Seq::<DownloadEventView>::empty();
    let i = job.next as int;
    lemma_step_keeps_in_list(job, db, outcome);
    assert(marks(none) =~= none);
    match job.stage {
        DownloadStage::Preparing => {
            match job.cover_url {
                Some(url) => {
                    if outcome is CoverPresent {
                        lemma_to_gate(
                            DownloadJobView { cover: Some(cover_dest(job)), ..job },
                            db,
                            none,
                            None,
                        );
                    } else {
                        lemma_marks_of_one_more(
                            none,
                            DownloadEventView::LogLine {
                                id: job.id,
                                line: "Downloading cover art..."@,
                            },
                        );
                    }
                },
                None => {
                    lemma_to_gate(job, db, none, None);
                },
            }
            assert(marks(r.events) + rest =~= rest);
        },
        DownloadStage::FetchingCover => {
            match outcome {
                OutcomeView::CoverFailed { failure } => {
                    let line = DownloadEventView::LogLine {
                        id: job.id,
                        line: cover_failure_text(failure),
                    };
                    lemma_marks_of_one_more(none, line);
                    lemma_to_gate(job, db, none.push(line), None);
                },
                _ => {
                    lemma_to_gate(
                        DownloadJobView { cover: Some(cover_dest(job)), ..job },
                        db,
                        none,
                        None,
                    );
                },
            }
            assert(marks(r.events) + rest =~= rest);
        },
        DownloadStage::AtGate => {
            assert(r == at_gate(job, db));
            match job.plans[i] {
                None => {
                    lemma_to_gate(advanced(job), db, none, None);
                    assert(marks(r.events) + rest =~= rest);
                },
                Some(p) => {
                    if db.contains(entry_of(p)) {
                        let mark = skipped_mark(job.id, p);
                        lemma_marks_of_one_more(none, mark);
                        lemma_to_gate(r.job, db, none.push(mark), None);
                        assert(r.job.next == i + 1);
                        let m = marks(r.events) + rest;
                        assert(marks(r.events) =~= seq![mark]);
                        assert(m[0] == mark);
                        assert(m.drop_first() =~= rest);
                    } else {
                        let mark = started_mark(job.id, p, i);
                        let line = DownloadEventView::LogLine {
                            id: job.id,
                            line: downloading_text(
                                (job.next + 1) as nat,
                                job.plans.len(),
                                p.artist,
                                p.title,
                            ),
                        };
                        lemma_marks_of_one_more(none, line);
                        lemma_marks_of_one_more(none, mark);
                        lemma_marks_of_one_more(none.push(line), mark);
                        let m = marks(r.events) + rest;
                        assert(marks(r.events) =~= seq![mark]);
                        assert(m[0] == mark);
                        assert(m.drop_first() =~= rest);
                    }
                },
            }
        },
        DownloadStage::Downloading => {
            let p = job.plans[i]->0;
            match outcome {
                OutcomeView::Downloaded => {
                    assert(marks(r.events) + rest =~= rest);
                },
                _ => {
                    let error = match outcome {
                        OutcomeView::Failed { reason } => reason,
                        OutcomeView::TaskFailed { reason } => reason,
                        _ => Seq::empty(),
                    };
                    let mark = failed_mark(job.id, p, error);
                    lemma_marks_of_one_more(none, mark);
                    lemma_to_gate(advanced(job), db, none.push(mark), r.failure);
                    let m = marks(r.events) + rest;
                    assert(marks(r.events) =~= seq![mark]);
                    assert(m[0] == mark);
                    assert(m.drop_first() =~= rest);
                    assert(settles(mark, job.id, p));
                },
            }
        },
        DownloadStage::Tagging => {
            let p = job.plans[i]->0;
            let mark = match outcome {
                OutcomeView::Failed { reason } => failed_mark(
                    job.id,
                    p,
                    tagging_failure_text(reason),
                ),
                _ => DownloadEventView::TrackComplete {
                    id: job.id,
                    artist: p.artist,
                    title: p.title,
                    path: p.file_path,
                },
            };
            lemma_marks_of_one_more(none, mark);
            match outcome {
                OutcomeView::Failed { reason } => {
                    lemma_to_gate(advanced(job), db, none.push(mark), r.failure);
                },
                _ => {
                    lemma_to_gate(
                        DownloadJobView { stage: job.stage, ..r.job },
                        inserted(db, entry_of(p)),
                        none.push(mark),
                        None,
                    );
                },
            }
            let m = marks(r.events) + rest;
            assert(marks(r.events) =~= seq![mark]);
            assert(m[0] == mark);
            assert(m.drop_first() =~= rest);
            assert(settles(mark, job.id, p));
        },
        DownloadStage::Writing => {
            lemma_marks_of_one_more(
                none,
                DownloadEventView::Complete { id: job.id, name: job.name },
            );
            assert(marks(r.events) + rest =~= rest);
        },
        _ => {},
    }
}

/// A job that runs through its list tells of every item in its turn: the
/// marks of the run are, item by item from where the job stands, one
/// skip, or one start followed by what came of the track. So each track
/// is started once at most, the starts come in the order of the list, and
/// what came of a track is told before the next one is started.
pub proof fn lemma_run_tells_the_list(
    job: DownloadJobView,
    db: Seq<TrackView>,
    outcomes: Seq<OutcomeView>,
)
    requires
        in_list(job),
        runs_through(job, db, outcomes),
    ensures
        told(
            marks(run(job, db, outcomes)),
            job.id,
            job.plans,
            job.next as int,
            open_track(job),
        ),
    decreases outcomes.len(),
{
    if outcomes.len() == 0 || !download_expects(job, outcomes[0]) {
        assert(marks(run(job, db, outcomes)) =~= Seq::<DownloadEventView>::empty());
    } else {
        let r = download_step(job, db, outcomes[0]);
        let rest = run(r.job, r.db, outcomes.drop_first());
        lemma_step_starts_next_track(job, db, outcomes[0]);
        // The step leaves the job in its list; so the rest of the run
        // tells of the list from there.
        lemma_step_keeps_in_list(job, db, outcomes[0]);
        lemma_run_tells_the_list(r.job, r.db, outcomes.drop_first());
        lemma_step_tells(job, db, outcomes[0], marks(rest));
        lemma_marks_of_both(r.events, rest);
    }
}

/// The mark at which the track number `k` of a run without skips is
/// started, counted from the first track that the run deals with.
pub open spec fn nth_start(m: Seq<DownloadEventView>, k: int) -> DownloadEventView {
    m[2 * k]
}

/// The mark that follows the start of the track number `k`.
pub open spec fn nth_end(m: Seq<DownloadEventView>, k: int) -> DownloadEventView {
    m[2 * k + 1]
}

/// Marks that tell of a list of tracks without a skip are a start and
/// what came of it for each track, in the order of the list: two marks for
/// each track, and nothing else.
pub proof fn lemma_told_without_skips(
    m: Seq<DownloadEventView>,
    id: usize,
    plans: Seq<Option<TrackPlanView>>,
    i: int,
)
    requires
        0 <= i <= plans.len(),
        told(m, id, plans, i, false),
        forall|k: int| i <= k < plans.len() ==> (#[trigger] plans[k]) is Some,
        forall|k: int| 0 <= k < m.len() ==> !((#[trigger] m[k]) is TrackSkipped),
    ensures
        m.len() == 2 * (plans.len() - i),
        forall|k: int|
            0 <= k < plans.len() - i ==> #[trigger] nth_start(m, k) == started_mark(
                id,
                plans[i + k]->0,
                i + k,
            ) && settles(nth_end(m, k), id, plans[i + k]->0),
    decreases plans.len() - i,
{
    if i < plans.len() {
        let p = plans[i]->0;
        assert(plans[i] is Some);
        assert(!(m[0] is TrackSkipped));
        let m1 = m.drop_first();
        assert(told(m1, id, plans, i, true));
        let m2 = m1.drop_first();
        assert(told(m2, id, plans, i + 1, false));
        assert forall|k: int| 0 <= k < m2.len() implies !((#[trigger] m2[k]) is TrackSkipped) by {
            assert(m2[k] == m[k + 2]);
        }
        lemma_told_without_skips(m2, id, plans, i + 1);
        assert(m[1] == m1[0]);
        assert forall|k: int| 0 <= k < plans.len() - i implies #[trigger] nth_start(m, k)
            == started_mark(id, plans[i + k]->0, i + k) && settles(
            nth_end(m, k),
            id,
            plans[i + k]->0,
        ) by {
            if k > 0 {
                assert(nth_start(m, k) == nth_start(m2, k - 1));
                assert(nth_end(m, k) == nth_end(m2, k - 1));
            }
        }
    }
}

/// Whether the tracks that the job has not begun are all new: each item
/// from `next` on is a track, the catalog of fetched tracks holds none of
/// those that are not begun, and no two of them are the same record.
pub open spec fn all_new(job: DownloadJobView, db: Seq<TrackView>) -> bool {
    &&& forall|k: int| job.next <= k < job.plans.len() ==> (#[trigger] job.plans[k]) is Some
    &&& forall|k: int|
        begun(job) <= k < job.plans.len() ==> !db.contains(entry_of((#[trigger] job.plans[k])->0))
    &&& forall|a: int, b: int|
        job.next <= a < b < job.plans.len() ==> entry_of((#[trigger] job.plans[a])->0)
            != entry_of((#[trigger] job.plans[b])->0)
}

/// A record is in a catalog with one more record if it was in the catalog
/// or is that record.
proof fn lemma_inserted_holds(db: Seq<TrackView>, e: TrackView, x: TrackView)
    requires
        inserted(db, e).contains(x),
    ensures
        db.contains(x) || x == e,
{
    if !db.contains(e) {
        let t = db.push(e);
        let j = choose|j: int| 0 <= j < t.len() && t[j] == x;
        if j < db.len() {
            assert(db[j] == x);
        }
    }
}

/// While the tracks ahead are all new, a step skips none, and the tracks
/// ahead of it are all new again.
pub proof fn lemma_step_skips_no_new_track(
    job: DownloadJobView,
    db: Seq<TrackView>,
    outcome: OutcomeView,
)
    requires
        download_wf(job),
        tracks_known(job),
        download_expects(job, outcome),
        all_new(job, db),
    ensures
        ({
            let r = download_step(job, db, outcome);
            &&& all_new(r.job, r.db)
            &&& forall|a: int|
                0 <= a < r.events.len() ==> !((#[trigger] r.events[a]) is TrackSkipped)
        }),
{
    let r = download_step(job, db, outcome);
    let i = job.next as int;
    lemma_step_starts_next_track(job, db, outcome);
    match job.stage {
        DownloadStage::AtGate => {
            if outcome is Resumed {
                assert(r == at_gate(job, db));
                assert(job.plans[i] is Some);
                assert(!db.contains(entry_of(job.plans[i]->0)));
            }
        },
        DownloadStage::Tagging => {
            if outcome is Tagged {
                let e = entry_of(job.plans[i]->0);
                assert(r.db == inserted(db, e));
                assert forall|k: int| begun(r.job) <= k < r.job.plans.len() implies !r.db.contains(
                    entry_of((#[trigger] r.job.plans[k])->0),
                ) by {
                    let x = entry_of(job.plans[k]->0);
                    if r.db.contains(x) {
                        lemma_inserted_holds(db, e, x);
                        assert(entry_of(job.plans[i]->0) != entry_of(job.plans[k]->0));
                    }
                }
            }
        },
        _ => {},
    }
}

/// While its tracks are all new, a job skips none, whatever comes of the
/// work outside.
pub proof fn lemma_new_tracks_are_not_skipped(
    job: DownloadJobView,
    db: Seq<TrackView>,
    outcomes: Seq<OutcomeView>,
)
    requires
        download_wf(job),
        tracks_known(job),
        all_new(job, db),
    ensures
        forall|a: int|
            0 <= a < run(job, db, outcomes).len() ==> !((#[trigger] run(job, db, outcomes)[a])
                is TrackSkipped),
    decreases outcomes.len(),
{
    if outcomes.len() == 0 || !download_expects(job, outcomes[0]) {
    } else {
        let r = download_step(job, db, outcomes[0]);
        let rest = run(r.job, r.db, outcomes.drop_first());
        lemma_step_starts_next_track(job, db, outcomes[0]);
        lemma_step_skips_no_new_track(job, db, outcomes[0]);
        lemma_new_tracks_are_not_skipped(r.job, r.db, outcomes.drop_first());
        let all = run(job, db, outcomes);
        assert(all == r.events + rest);
        assert forall|a: int| 0 <= a < all.len() implies !((#[trigger] all[a]) is TrackSkipped) by {
            if a < r.events.len() {
                assert(all[a] == r.events[a]);
            } else {
                assert(all[a] == rest[a - r.events.len()]);
            }
        }
    }
}

/// A job whose tracks are all new and that runs through its list starts
/// each of them once, in the order of the list, and tells what came of
/// each before it starts the next: the marks of the run are, for the
/// track at each index from `next` on, its start, with its number, its
/// artist and its title, and then its completion or its failure. So a
/// list of N tracks gives exactly N starts.
pub proof fn lemma_new_tracks_are_each_started_once(
    job: DownloadJobView,
    db: Seq<TrackView>,
    outcomes: Seq<OutcomeView>,
)
    requires
        in_list(job),
        !open_track(job),
        all_new(job, db),
        runs_through(job, db, outcomes),
    ensures
        ({
            let m = marks(run(job, db, outcomes));
            &&& m.len() == 2 * (job.plans.len() - job.next)
            &&& forall|k: int|
                0 <= k < job.plans.len() - job.next ==> #[trigger] nth_start(m, k) == started_mark(
                    job.id,
                    job.plans[job.next + k]->0,
                    job.next + k,
                ) && settles(nth_end(m, k), job.id, job.plans[job.next + k]->0)
        }),
{
    let events = run(job, db, outcomes);
    let m = marks(events);
    lemma_run_tells_the_list(job, db, outcomes);
    lemma_new_tracks_are_not_skipped(job, db, outcomes);
    assert forall|k: int| 0 <= k < m.len() implies !((#[trigger] m[k]) is TrackSkipped) by {
        lemma_marks_are_events(events, k);
        let j = choose|j: int| 0 <= j < events.len() && events[j] == m[k];
        assert(!(events[j] is TrackSkipped));
    }
    lemma_told_without_skips(m, job.id, job.plans, job.next as int);
}

/// Whether `e` tells that a track with this artist and title is complete
/// or has failed.
pub open spec fn settles_track(
    e: DownloadEventView,
    id: usize,
    artist: Seq<char>,
    title: Seq<char>,
) -> bool {
    match e {
        DownloadEventView::TrackComplete { id: of, artist: a, title: t, .. } => of == id && a
            == artist && t == title,
        DownloadEventView::TrackFailed { id: of, artist: a, title: t, .. } => of == id && a
            == artist && t == title,
        _ => false,
    }
}

/// A playlist of the video site whose N tracks are all new, fetched by a
/// job that runs through: the job starts exactly N tracks. The start
/// number i carries the number i and the artist and title of the track
/// number i of the playlist, and what came of that track (complete or
/// failed) is told before the next start.
pub proof fn lemma_video_playlist_is_started_track_by_track(
    job: DownloadJobView,
    db: Seq<TrackView>,
    playlist: YouTubePlaylistView,
    outcomes: Seq<OutcomeView>,
)
    requires
        download_wf(job),
        job.stage == DownloadStage::FetchingYouTube,
        playlist.tracks.len() <= usize::MAX,
        ({
            let fetched = download_step(job, db, OutcomeView::YouTubeFetched { playlist });
            all_new(fetched.job, db) && runs_through(fetched.job, db, outcomes)
        }),
    ensures
        ({
            let all = seq![OutcomeView::YouTubeFetched { playlist }] + outcomes;
            let m = marks(run(job, db, all));
            &&& m.len() == 2 * playlist.tracks.len()
            &&& forall|k: int|
                0 <= k < playlist.tracks.len() ==> #[trigger] nth_start(m, k)
                    == (DownloadEventView::TrackStarted {
                    id: job.id,
                    artist: playlist.tracks[k].artist,
                    title: playlist.tracks[k].title,
                    track_num: (k + 1) as usize,
                }) && settles_track(
                    nth_end(m, k),
                    job.id,
                    playlist.tracks[k].artist,
                    playlist.tracks[k].title,
                )
        }),
{
    let first = OutcomeView::YouTubeFetched { playlist };
    let all = seq![first] + outcomes;
    let r = download_step(job, db, first);
    let none = Seq::<DownloadEventView>::empty();
    assert(all[0] == first);
    assert(all.drop_first() =~= outcomes);
    assert(download_expects(job, first));
    assert(run(job, db, all) == r.events + run(r.job, r.db, outcomes));
    lemma_step_starts_next_track(job, db, first);
    // The step that learns the tracks tells of none.
    let plans = youtube_plans(playlist, job.music_path, actual_format(job), job.portable);
    let known = DownloadJobView { name: playlist.title, plans, next: 0, ..job };
    let line = DownloadEventView::LogLine {
        id: job.id,
        line: found_playlist_text(playlist.title, plans.len(), actual_format(job), job.quality),
    };
    let started = DownloadEventView::Started {
        id: job.id,
        name: playlist.title,
        total_tracks: plans.len() as usize,
    };
    assert(marks(none) =~= none);
    lemma_marks_of_one_more(none, line);
    lemma_marks_of_one_more(none.push(line), started);
    lemma_to_gate(known, db, none.push(line).push(started), None);
    assert(marks(r.events) =~= none);
    lemma_marks_of_both(r.events, run(r.job, r.db, outcomes));
    let m = marks(run(r.job, r.db, outcomes));
    assert(marks(run(job, db, all)) =~= m);
    lemma_new_tracks_are_each_started_once(r.job, r.db, outcomes);
    assert forall|k: int| 0 <= k < playlist.tracks.len() implies #[trigger] nth_start(m, k)
        == (DownloadEventView::TrackStarted {
        id: job.id,
        artist: playlist.tracks[k].artist,
        title: playlist.tracks[k].title,
        track_num: (k + 1) as usize,
    }) && settles_track(
        nth_end(m, k),
        job.id,
        playlist.tracks[k].artist,
        playlist.tracks[k].title,
    ) by {
        let p = r.job.plans[r.job.next + k]->0;
        assert(r.job.plans[k] == plans[k]);
        assert(nth_start(m, k) == started_mark(job.id, p, k));
        assert(settles(nth_end(m, k), job.id, p));
    }
}

/// Whether the catalog of fetched tracks holds every track that the job
/// has still to deal with.
pub open spec fn all_known(job: DownloadJobView, db: Seq<TrackView>) -> bool {
    forall|k: int|
        job.next <= k < job.plans.len() ==> ((#[trigger] job.plans[k]) matches Some(p)
            ==> db.contains(entry_of(p)))
}

/// The work that a job asks for while it takes `outcomes` one after the
/// other; an outcome that does not fit ends the run.
pub open spec fn asked(
    job: DownloadJobView,
    db: Seq<TrackView>,
    outcomes: Seq<OutcomeView>,
) -> Seq<ActionView>
    decreases outcomes.len(),
{
    if outcomes.len() == 0 || !download_expects(job, outcomes[0]) {
        Seq::empty()
    } else {
        let r = download_step(job, db, outcomes[0]);
        seq![r.action] + asked(r.job, r.db, outcomes.drop_first())
    }
}

/// While the catalog holds every track ahead, a step starts none, asks
/// for no download and no tags, writes nothing to the journal, and leaves
/// the catalog as it is.
pub proof fn lemma_step_fetches_no_known_track(
    job: DownloadJobView,
    db: Seq<TrackView>,
    outcome: OutcomeView,
)
    requires
        download_wf(job),
        tracks_known(job),
        !open_track(job),
        all_known(job, db),
        download_expects(job, outcome),
    ensures
        ({
            let r = download_step(job, db, outcome);
            &&& !open_track(r.job)
            &&& all_known(r.job, r.db)
            &&& r.db == db
            &&& r.failure is None
            &&& !(r.action is Download)
            &&& !(r.action is Tag)
            &&& forall|a: int|
                0 <= a < r.events.len() ==> !((#[trigger] r.events[a]) is TrackStarted)
                    && !(r.events[a] is TrackComplete) && !(r.events[a] is TrackFailed)
        }),
{
    let r = download_step(job, db, outcome);
    lemma_step_starts_next_track(job, db, outcome);
    match job.stage {
        DownloadStage::AtGate => {
            if outcome is Resumed {
                assert(r == at_gate(job, db));
                assert(job.plans[job.next as int] matches Some(p) ==> db.contains(entry_of(p)));
            }
        },
        _ => {},
    }
}

/// A job that finds every one of its tracks in the catalog of fetched
/// tracks fetches nothing, whatever comes of the work outside: it starts
/// no track, reports none as complete or failed, and asks for no
/// download and no tags. So a second run of a job whose tracks the first
/// run stored skips every track.
pub proof fn lemma_known_tracks_are_all_skipped(
    job: DownloadJobView,
    db: Seq<TrackView>,
    outcomes: Seq<OutcomeView>,
)
    requires
        download_wf(job),
        tracks_known(job),
        !open_track(job),
        all_known(job, db),
    ensures
        forall|a: int|
            0 <= a < run(job, db, outcomes).len() ==> !((#[trigger] run(job, db, outcomes)[a])
                is TrackStarted) && !(run(job, db, outcomes)[a] is TrackComplete) && !(run(
                job,
                db,
                outcomes,
            )[a] is TrackFailed),
        forall|a: int|
            0 <= a < asked(job, db, outcomes).len() ==> !((#[trigger] asked(job, db, outcomes)[a])
                is Download) && !(asked(job, db, outcomes)[a] is Tag),
    decreases outcomes.len(),
{
    if outcomes.len() == 0 || !download_expects(job, outcomes[0]) {
    } else {
        let r = download_step(job, db, outcomes[0]);
        let rest = run(r.job, r.db, outcomes.drop_first());
        let work = asked(r.job, r.db, outcomes.drop_first());
        lemma_step_starts_next_track(job, db, outcomes[0]);
        lemma_step_fetches_no_known_track(job, db, outcomes[0]);
        lemma_known_tracks_are_all_skipped(r.job, r.db, outcomes.drop_first());
        let all = run(job, db, outcomes);
        assert(all == r.events + rest);
        assert forall|a: int| 0 <= a < all.len() implies !((#[trigger] all[a]) is TrackStarted)
            && !(all[a] is TrackComplete) && !(all[a] is TrackFailed) by {
            if a < r.events.len() {
                assert(all[a] == r.events[a]);
            } else {
                assert(all[a] == rest[a - r.events.len()]);
            }
        }
        let actions = asked(job, db, outcomes);
        assert(actions == seq![r.action] + work);
        assert forall|a: int| 0 <= a < actions.len() implies !((#[trigger] actions[a]) is Download)
            && !(actions[a] is Tag) by {
            if a > 0 {
                assert(actions[a] == work[a - 1]);
            }
        }
    }
}

} // verus!
