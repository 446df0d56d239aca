//! What holds of every download job.

use crate::db::TrackView;
use crate::tui::download_job::{
    actual_format, at_gate, download_expects, download_step, download_wf, entry_of,
    DownloadJobView, DownloadStage,
};
use crate::tui::protocol::{ActionView, OutcomeView};
use crate::tui::worker::DownloadEventView;
use vstd::prelude::*;

verus! {

/// A track that the catalog of fetched tracks holds is skipped when its
/// turn comes: the step reports it as skipped, announces no start, asks
/// for no download, and leaves the catalog and the journal alone.
pub proof fn lemma_known_track_is_skipped(job: DownloadJobView, db: Seq<TrackView>)
    requires
        download_wf(job),
        job.stage == DownloadStage::AtGate,
        job.plans[job.next as int] is Some,
        db.contains(entry_of(job.plans[job.next as int]->0)),
    ensures
        ({
            let p = job.plans[job.next as int]->0;
            let r = download_step(job, db, OutcomeView::Resumed);
            &&& r.events.len() >= 1
            &&& r.events[0] == (DownloadEventView::TrackSkipped {
                id: job.id,
                artist: p.artist,
                title: p.title,
            })
            &&& forall|k: int| 0 <= k < r.events.len() ==> !(#[trigger] r.events[k] is TrackStarted)
            &&& !(r.action is Download)
            &&& r.db == db
            &&& r.failure is None
            &&& r.job.next == job.next + 1
        }),
{
}

/// The downloader is asked for a track only when the turn of that track
/// has come and the catalog of fetched tracks does not hold it.
pub proof fn lemma_download_only_when_unknown(
    job: DownloadJobView,
    db: Seq<TrackView>,
    outcome: OutcomeView,
)
    requires
        download_wf(job),
        download_expects(job, outcome),
        download_step(job, db, outcome).action is Download,
    ensures
        job.stage == DownloadStage::AtGate,
        outcome is Resumed,
        job.plans[job.next as int] is Some,
        !db.contains(entry_of(job.plans[job.next as int]->0)),
        download_step(job, db, outcome).action == (ActionView::Download {
            query: (job.plans[job.next as int]->0).query,
            file_path: (job.plans[job.next as int]->0).file_path,
            format: actual_format(job),
            quality: job.quality,
        }),
{
}

/// The number below which the tracks of a job are dealt with: the track
/// that is being downloaded or tagged counts as begun.
pub open spec fn begun(job: DownloadJobView) -> int {
    if job.stage == DownloadStage::Downloading || job.stage == DownloadStage::Tagging {
        job.next + 1
    } else {
        job.next as int
    }
}

/// Whether the tracks of the job are known.
pub open spec fn tracks_known(job: DownloadJobView) -> bool {
    job.stage != DownloadStage::FetchingAlbum && job.stage != DownloadStage::FetchingPlaylist
        && job.stage != DownloadStage::FetchingItems && job.stage
        != DownloadStage::FetchingYouTube
}

/// One step announces the start of one track at most, and it is the track
/// whose turn has come: the announcement carries its number in the list,
/// its artist and its title. No step goes back in the list.
pub proof fn lemma_step_starts_next_track(
    job: DownloadJobView,
    db: Seq<TrackView>,
    outcome: OutcomeView,
)
    requires
        download_wf(job),
        download_expects(job, outcome),
    ensures
        ({
            let r = download_step(job, db, outcome);
            &&& download_wf(r.job)
            &&& begun(r.job) >= begun(job)
            &&& tracks_known(job) ==> tracks_known(r.job) && r.job.plans == job.plans
            &&& forall|k: int|
                0 <= k < r.events.len() ==> (#[trigger] r.events[k] matches DownloadEventView::TrackStarted {
                    id,
                    artist,
                    title,
                    track_num,
                } ==> {
                    &&& job.stage == DownloadStage::AtGate
                    &&& track_num == job.next + 1
                    &&& track_num == begun(r.job)
                    &&& begun(job) == job.next
                    &&& id == job.id
                    &&& job.plans[job.next as int] matches Some(p)
                    &&& artist == p.artist
                    &&& title == p.title
                })
        }),
{
    let r = download_step(job, db, outcome);
    match job.stage {
        DownloadStage::AtGate => {
            if outcome is Resumed {
                let g = at_gate(job, db);
                assert(r == g);
            }
        },
        _ => {},
    }
}

/// The events of a job that takes the outcomes `outcomes` one after the
/// other; an outcome that does not fit ends the run.
pub open spec fn run(job: DownloadJobView, db: Seq<TrackView>, outcomes: Seq<OutcomeView>) -> Seq<
    DownloadEventView,
>
    decreases outcomes.len(),
{
    if outcomes.len() == 0 || !download_expects(job, outcomes[0]) {
        Seq::empty()
    } else {
        let r = download_step(job, db, outcomes[0]);
        r.events + run(r.job, r.db, outcomes.drop_first())
    }
}

/// The number of the track whose start `e` announces.
pub open spec fn started_number(e: DownloadEventView) -> int {
    match e {
        DownloadEventView::TrackStarted { track_num, .. } => track_num as int,
        _ => 0,
    }
}

/// Whatever comes of the work outside, a job announces the starts of its
/// tracks in the order of its list: of two such announcements the later
/// one carries the larger number, and each one names the track that
/// stands at its number in the list.
pub proof fn lemma_starts_in_order(
    job: DownloadJobView,
    db: Seq<TrackView>,
    outcomes: Seq<OutcomeView>,
)
    requires
        download_wf(job),
    ensures
        forall|a: int|
            0 <= a < run(job, db, outcomes).len() && (#[trigger] run(
                job,
                db,
                outcomes,
            )[a]) is TrackStarted ==> started_number(run(job, db, outcomes)[a]) > begun(job),
        forall|a: int, b: int|
            0 <= a < b < run(job, db, outcomes).len() && (#[trigger] run(
                job,
                db,
                outcomes,
            )[a]) is TrackStarted && (#[trigger] run(job, db, outcomes)[b]) is TrackStarted
                ==> started_number(run(job, db, outcomes)[a]) < started_number(
                run(job, db, outcomes)[b],
            ),
        tracks_known(job) ==> forall|a: int|
            0 <= a < run(job, db, outcomes).len() ==> (#[trigger] run(
                job,
                db,
                outcomes,
            )[a] matches DownloadEventView::TrackStarted { id, artist, title, track_num } ==> {
                &&& 1 <= track_num <= job.plans.len()
                &&& job.plans[track_num - 1] matches Some(p)
                &&& artist == p.artist
                &&& title == p.title
            }),
    decreases outcomes.len(),
{
    let all = run(job, db, outcomes);
    if outcomes.len() == 0 || !download_expects(job, outcomes[0]) {
    } else {
        let r = download_step(job, db, outcomes[0]);
        let rest = run(r.job, r.db, outcomes.drop_first());
        lemma_step_starts_next_track(job, db, outcomes[0]);
        lemma_starts_in_order(r.job, r.db, outcomes.drop_first());
        assert(all == r.events + rest);
        assert forall|a: int| 0 <= a < all.len() && (#[trigger] all[a]) is TrackStarted implies started_number(
            all[a],
        ) > begun(job) by {
            if a < r.events.len() {
                assert(all[a] == r.events[a]);
            } else {
                assert(all[a] == rest[a - r.events.len()]);
            }
        }
        assert forall|a: int, b: int|
            0 <= a < b < all.len() && (#[trigger] all[a]) is TrackStarted && (
            #[trigger] all[b]) is TrackStarted implies started_number(all[a]) < started_number(
            all[b],
        ) by {
            if b < r.events.len() {
                assert(all[a] == r.events[a]);
                assert(all[b] == r.events[b]);
            } else if a < r.events.len() {
                assert(all[a] == r.events[a]);
                assert(all[b] == rest[b - r.events.len()]);
            } else {
                assert(all[a] == rest[a - r.events.len()]);
                assert(all[b] == rest[b - r.events.len()]);
            }
        }
        if tracks_known(job) {
            assert forall|a: int| 0 <= a < all.len() implies (#[trigger] all[a] matches DownloadEventView::TrackStarted {
                id,
                artist,
                title,
                track_num,
            } ==> {
                &&& 1 <= track_num <= job.plans.len()
                &&& job.plans[track_num - 1] matches Some(p)
                &&& artist == p.artist
                &&& title == p.title
            }) by {
                if a < r.events.len() {
                    assert(all[a] == r.events[a]);
                } else {
                    assert(all[a] == rest[a - r.events.len()]);
                }
            }
        }
    }
}

} // verus!
