//! A conversion job, step by step: one file, or several files one after
//! the other.
//!
//! Each file is converted; where that is asked for, its metadata is
//! looked up again and written into the new file; then the catalog of
//! fetched tracks learns the new path. A file that fails is written to the
//! journal and, in a job of several files, the job goes on.

use crate::db::{first_with_path, path_replaced, DownloadDB, TrackView};
use crate::error_log::clock::Timestamp;
use crate::error_log::entries::{ConvertErrorEntry, ConvertErrorView};
use crate::error_log::journal::{with_entry, StoreOpView};
use crate::error_log::{ErrorLogManager, ErrorType};
use crate::paths::{with_file_name, with_file_name_of};
use crate::sources::spotify::{TrackMetadata, TrackMetadataView};
use crate::tui::download_job::{add_event, copy_opt, no_events};
use crate::tui::messages::{
    batch_conversion_done, batch_conversion_done_text, batch_conversion_failure,
    batch_conversion_failure_text, batch_conversion_start, batch_conversion_start_text,
    batch_converting, batch_converting_text, batch_task_failure, batch_task_failure_text,
    conversion_failure, conversion_failure_text, conversion_task_failure,
    conversion_task_failure_text, converted, converted_text, converting, converting_text,
    metadata_warning, metadata_warning_text, refreshing, refreshing_text, search_failure,
    search_failure_text,
};
use crate::tui::protocol::{
    cover_failure_line, cover_failure_text, Action, ActionView, Outcome, OutcomeView, Step,
};
use crate::tui::worker::{
    ConvertTrackInfo, ConvertTrackInfoView, DownloadEvent, DownloadEventView,
};
use vstd::prelude::*;
use vstd::string::StringExecFns;

verus! {

/// Where a conversion job stands with the file at hand.
#[derive(Clone, Copy, Debug, PartialEq, Eq, Structural)]
pub enum ConvertStage {
    Converting,
    /// The catalog is asked for the metadata of the track.
    Searching,
    FetchingCover,
    Tagging,
    /// The cover that was fetched for tagging is being deleted.
    Removing,
    Done,
}

/// A conversion job.
#[derive(Debug)]
pub struct ConvertJob {
    pub id: usize,
    /// The files of the job; exactly one where `batch` is false.
    pub tracks: Vec<ConvertTrackInfo>,
    pub batch: bool,
    pub target_format: String,
    pub quality: String,
    pub refresh_metadata: bool,
    /// The index of the file at hand.
    pub next: usize,
    pub successful: usize,
    /// The old and the new path of every file that was converted.
    pub converted: Vec<(String, String)>,
    /// The path of the converted file at hand.
    pub new_path: String,
    pub metadata: Option<TrackMetadata>,
    /// The cover that was fetched for the file at hand.
    pub cover: Option<String>,
    pub stage: ConvertStage,
}

pub struct ConvertJobView {
    pub id: usize,
    pub tracks: Seq<ConvertTrackInfoView>,
    pub batch: bool,
    pub target_format: Seq<char>,
    pub quality: Seq<char>,
    pub refresh_metadata: bool,
    pub next: usize,
    pub successful: usize,
    pub converted: Seq<(Seq<char>, Seq<char>)>,
    pub new_path: Seq<char>,
    pub metadata: Option<TrackMetadataView>,
    pub cover: Option<Seq<char>>,
    pub stage: ConvertStage,
}

impl View for ConvertJob {
    type V = ConvertJobView;

    open spec fn view(&self) -> ConvertJobView {
        ConvertJobView {
            id: self.id,
            tracks: self.tracks.deep_view(),
            batch: self.batch,
            target_format: self.target_format@,
            quality: self.quality@,
            refresh_metadata: self.refresh_metadata,
            next: self.next,
            successful: self.successful,
            converted: self.converted.deep_view(),
            new_path: self.new_path@,
            metadata: self.metadata.deep_view(),
            cover: self.cover.deep_view(),
            stage: self.stage,
        }
    }
}

/// What a step of a conversion job comes to.
pub struct ConvertStepView {
    pub job: ConvertJobView,
    /// The catalog of fetched tracks after the step.
    pub db: Seq<TrackView>,
    pub events: Seq<DownloadEventView>,
    pub action: ActionView,
    /// What the step writes to the journal, but for the identifier and the
    /// moment.
    pub failure: Option<ConvertErrorView>,
}

/// The state in which a conversion job begins.
pub open spec fn new_conversion(
    id: usize,
    tracks: Seq<ConvertTrackInfoView>,
    batch: bool,
    target_format: Seq<char>,
    quality: Seq<char>,
    refresh_metadata: bool,
) -> ConvertJobView {
    ConvertJobView {
        id,
        tracks,
        batch,
        target_format,
        quality,
        refresh_metadata,
        next: 0,
        successful: 0,
        converted: Seq::empty(),
        new_path: Seq::empty(),
        metadata: None,
        cover: None,
        stage: ConvertStage::Converting,
    }
}

/// Whether a job is in a state that its steps can lead to.
pub open spec fn convert_wf(job: ConvertJobView) -> bool {
    &&& job.next <= job.tracks.len() <= usize::MAX
    &&& job.successful <= job.next
    &&& job.stage != ConvertStage::Done ==> job.next < job.tracks.len()
    &&& (job.stage == ConvertStage::FetchingCover || job.stage == ConvertStage::Tagging)
        ==> job.metadata is Some
    &&& !job.batch ==> job.tracks.len() == 1
}

/// The file at hand.
pub open spec fn current(job: ConvertJobView) -> ConvertTrackInfoView {
    job.tracks[job.next as int]
}

/// `events` in a job of one file; nothing in a job of several, which
/// reports less.
pub open spec fn if_single(job: ConvertJobView, events: Seq<DownloadEventView>) -> Seq<
    DownloadEventView,
> {
    if job.batch {
        Seq::empty()
    } else {
        events
    }
}

pub open spec fn log(id: usize, line: Seq<char>) -> DownloadEventView {
    DownloadEventView::LogLine { id, line }
}

/// What the journal keeps of a failure of the file at hand, with an empty
/// identifier and moment.
pub open spec fn convert_failure_of(job: ConvertJobView, error: Seq<char>) -> ConvertErrorView {
    ConvertErrorView {
        id: Seq::empty(),
        timestamp: Timestamp { secs: 0, nanos: 0 },
        input_path: current(job).input_path,
        target_format: job.target_format,
        quality: job.quality,
        refresh_metadata: job.refresh_metadata,
        artist: current(job).artist,
        title: current(job).title,
        error,
        retry_count: 0,
    }
}

/// Whether `e` is the record `f` with an identifier and a moment of its
/// own.
pub open spec fn convert_records(e: ConvertErrorView, f: ConvertErrorView) -> bool {
    e == (ConvertErrorView { id: e.id, timestamp: e.timestamp, ..f })
}

/// The job is over.
pub open spec fn convert_ended(
    job: ConvertJobView,
    db: Seq<TrackView>,
    events: Seq<DownloadEventView>,
    failure: Option<ConvertErrorView>,
) -> ConvertStepView {
    ConvertStepView {
        job: ConvertJobView { stage: ConvertStage::Done, ..job },
        db,
        events,
        action: ActionView::Finish,
        failure,
    }
}

/// A job of several files turns to the file at `next`, or sums up when
/// none is left. Where a file was converted, the user is asked once
/// whether all originals go.
pub open spec fn convert_next(
    job: ConvertJobView,
    db: Seq<TrackView>,
    events: Seq<DownloadEventView>,
    failure: Option<ConvertErrorView>,
) -> ConvertStepView {
    if job.next < job.tracks.len() {
        let t = current(job);
        ConvertStepView {
            job: ConvertJobView { stage: ConvertStage::Converting, ..job },
            db,
            events: events.push(
                log(
                    job.id,
                    batch_converting_text(
                        (job.next + 1) as nat,
                        job.tracks.len(),
                        t.artist,
                        t.title,
                    ),
                ),
            ).push(
                DownloadEventView::ConvertStarted {
                    id: job.id,
                    path: t.input_path,
                    target_format: job.target_format,
                },
            ),
            action: ActionView::Convert {
                input_path: t.input_path,
                format: job.target_format,
                quality: job.quality,
            },
            failure,
        }
    } else {
        let summed = events.push(
            log(
                job.id,
                batch_conversion_done_text(job.successful as nat, job.tracks.len()),
            ),
        ).push(
            DownloadEventView::ConvertBatchComplete {
                id: job.id,
                total: job.tracks.len() as usize,
                successful: job.successful,
            },
        );
        convert_ended(
            job,
            db,
            if job.converted.len() > 0 {
                summed.push(
                    DownloadEventView::ConvertBatchDeleteConfirm { converted_files: job.converted },
                )
            } else {
                summed
            },
            failure,
        )
    }
}

/// The first step of a job.
pub open spec fn convert_start(job: ConvertJobView, db: Seq<TrackView>) -> ConvertStepView {
    if job.batch {
        convert_next(
            job,
            db,
            Seq::empty().push(
                log(job.id, batch_conversion_start_text(job.tracks.len(), job.target_format)),
            ),
            None,
        )
    } else {
        let t = current(job);
        ConvertStepView {
            job,
            db,
            events: Seq::empty().push(
                DownloadEventView::ConvertStarted {
                    id: job.id,
                    path: t.input_path,
                    target_format: job.target_format,
                },
            ).push(log(job.id, converting_text(t.input_path, job.target_format))),
            action: ActionView::Convert {
                input_path: t.input_path,
                format: job.target_format,
                quality: job.quality,
            },
            failure: None,
        }
    }
}

/// The file at hand is converted, and tagged as far as that was asked
/// for: the catalog of fetched tracks learns its new path. A job of one
/// file asks whether the original goes and ends; a job of several files
/// notes the file and goes on.
pub open spec fn concluded(
    job: ConvertJobView,
    db: Seq<TrackView>,
    events: Seq<DownloadEventView>,
) -> ConvertStepView {
    let t = current(job);
    let db2 = path_replaced(db, t.input_path, job.new_path);
    let complete = DownloadEventView::ConvertComplete {
        id: job.id,
        old_path: t.input_path,
        new_path: job.new_path,
    };
    if job.batch {
        convert_next(
            ConvertJobView {
                converted: job.converted.push((t.input_path, job.new_path)),
                successful: (job.successful + 1) as usize,
                next: (job.next + 1) as usize,
                metadata: None,
                cover: None,
                ..job
            },
            db2,
            events.push(complete),
            None,
        )
    } else {
        convert_ended(
            job,
            db2,
            events.push(
                DownloadEventView::ConvertDeleteConfirm {
                    id: job.id,
                    old_path: t.input_path,
                    new_path: job.new_path,
                },
            ).push(complete),
            None,
        )
    }
}

/// The file at hand could not be converted: the failure is reported and
/// goes to the journal, and nothing changes in the catalog of fetched
/// tracks.
pub open spec fn convert_failed(
    job: ConvertJobView,
    db: Seq<TrackView>,
    line: Seq<char>,
    error: Seq<char>,
) -> ConvertStepView {
    let events = Seq::empty().push(log(job.id, line)).push(
        DownloadEventView::ConvertFailed { id: job.id, path: current(job).input_path, error },
    );
    if job.batch {
        convert_next(
            ConvertJobView { next: (job.next + 1) as usize, metadata: None, cover: None, ..job },
            db,
            events,
            Some(convert_failure_of(job, error)),
        )
    } else {
        convert_ended(job, db, events, Some(convert_failure_of(job, error)))
    }
}

/// Where the cover for the file at hand is kept while it is needed.
pub open spec fn temp_cover(job: ConvertJobView) -> Seq<char> {
    with_file_name_of(job.new_path, "temp_cover.jpg"@)
}

/// The job asks for the tags of the converted file.
pub open spec fn tagging(
    job: ConvertJobView,
    db: Seq<TrackView>,
    events: Seq<DownloadEventView>,
    cover: Option<Seq<char>>,
) -> ConvertStepView {
    let m = job.metadata->0;
    ConvertStepView {
        job: ConvertJobView { cover, stage: ConvertStage::Tagging, ..job },
        db,
        events,
        action: ActionView::Tag {
            path: job.new_path,
            artist: m.artist,
            album: m.album,
            title: m.title,
            track: m.track_number,
            genre: m.genre,
            cover,
            portable: false,
        },
        failure: None,
    }
}

/// Tagging is over, well or not: the cover that was fetched for it goes,
/// and the file is concluded.
pub open spec fn tagged(
    job: ConvertJobView,
    db: Seq<TrackView>,
    events: Seq<DownloadEventView>,
) -> ConvertStepView {
    match job.cover {
        Some(c) => ConvertStepView {
            job: ConvertJobView { stage: ConvertStage::Removing, ..job },
            db,
            events,
            action: ActionView::RemoveFile { path: c },
            failure: None,
        },
        None => concluded(job, db, events),
    }
}

/// Whether a job in this state can take `outcome`.
pub open spec fn convert_expects(job: ConvertJobView, outcome: OutcomeView) -> bool {
    match job.stage {
        ConvertStage::Converting => outcome is Converted || outcome is Failed
            || outcome is TaskFailed,
        ConvertStage::Searching => outcome is MetadataFound || outcome is MetadataMissing
            || outcome is Failed,
        ConvertStage::FetchingCover => outcome is CoverSaved || outcome is CoverFailed,
        ConvertStage::Tagging => outcome is Tagged || outcome is Failed,
        ConvertStage::Removing => outcome is Done || outcome is Failed,
        ConvertStage::Done => false,
    }
}

/// What a job in the state `job` makes of `outcome`, with the catalog of
/// fetched tracks being `db`.
pub open spec fn convert_step(
    job: ConvertJobView,
    db: Seq<TrackView>,
    outcome: OutcomeView,
) -> ConvertStepView {
    let t = current(job);
    match job.stage {
        ConvertStage::Converting => match outcome {
            OutcomeView::Converted { path } => {
                let now = ConvertJobView { new_path: path, metadata: None, cover: None, ..job };
                let reported = if_single(job, Seq::empty().push(log(job.id, converted_text(path))));
                if job.refresh_metadata {
                    ConvertStepView {
                        job: ConvertJobView { stage: ConvertStage::Searching, ..now },
                        db,
                        events: if_single(
                            job,
                            reported.push(log(job.id, refreshing_text(t.artist, t.title))),
                        ),
                        action: ActionView::SearchTrack { artist: t.artist, title: t.title },
                        failure: None,
                    }
                } else {
                    concluded(now, db, reported)
                }
            },
            OutcomeView::Failed { reason } => convert_failed(
                job,
                db,
                if job.batch {
                    batch_conversion_failure_text(t.artist, t.title, reason)
                } else {
                    conversion_failure_text(reason)
                },
                reason,
            ),
            OutcomeView::TaskFailed { reason } => convert_failed(
                job,
                db,
                if job.batch {
                    batch_task_failure_text(t.artist, t.title, reason)
                } else {
                    conversion_task_failure_text(reason)
                },
                reason,
            ),
            _ => convert_ended(job, db, Seq::empty(), None),
        },
        ConvertStage::Searching => match outcome {
            OutcomeView::MetadataFound { metadata } => {
                let now = ConvertJobView { metadata: Some(metadata), ..job };
                match metadata.cover_url {
                    Some(url) => ConvertStepView {
                        job: ConvertJobView { stage: ConvertStage::FetchingCover, ..now },
                        db,
                        events: Seq::empty(),
                        action: ActionView::FetchCover { url, dest: temp_cover(job) },
                        failure: None,
                    },
                    None => tagging(now, db, Seq::empty(), None),
                }
            },
            OutcomeView::MetadataMissing => concluded(
                job,
                db,
                if_single(
                    job,
                    Seq::empty().push(
                        log(
                            job.id,
                            "Could not find track on Spotify, keeping existing metadata"@,
                        ),
                    ),
                ),
            ),
            OutcomeView::Failed { reason } => concluded(
                job,
                db,
                if_single(job, Seq::empty().push(log(job.id, search_failure_text(reason)))),
            ),
            _ => convert_ended(job, db, Seq::empty(), None),
        },
        ConvertStage::FetchingCover => match outcome {
            OutcomeView::CoverFailed { failure } => tagging(
                job,
                db,
                Seq::empty().push(log(job.id, cover_failure_text(failure))),
                None,
            ),
            _ => tagging(job, db, Seq::empty(), Some(temp_cover(job))),
        },
        ConvertStage::Tagging => match outcome {
            OutcomeView::Failed { reason } => tagged(
                job,
                db,
                if_single(job, Seq::empty().push(log(job.id, metadata_warning_text(reason)))),
            ),
            _ => tagged(
                job,
                db,
                if_single(
                    job,
                    Seq::empty().push(log(job.id, "Metadata refreshed successfully"@)),
                ),
            ),
        },
        ConvertStage::Removing => concluded(
            ConvertJobView { cover: None, ..job },
            db,
            Seq::empty(),
        ),
        ConvertStage::Done => convert_ended(job, db, Seq::empty(), None),
    }
}

/// Whether a step of a job in the state `job` concludes the file at hand,
/// so that the catalog of fetched tracks is asked to move its record to
/// the new path.
pub open spec fn concludes(job: ConvertJobView, outcome: OutcomeView) -> bool {
    match job.stage {
        ConvertStage::Converting => outcome is Converted && !job.refresh_metadata,
        ConvertStage::Searching => outcome is MetadataMissing || outcome is Failed,
        ConvertStage::Tagging => job.cover is None,
        ConvertStage::Removing => true,
        _ => false,
    }
}

/// Whether a step of a job in the state `job` changes the path of a
/// record of the catalog of fetched tracks: it concludes the file at
/// hand, and the catalog holds a record with the path of that file. Only
/// then is the stored form of the catalog due for a rewrite.
pub open spec fn moves_track(
    job: ConvertJobView,
    db: Seq<TrackView>,
    outcome: OutcomeView,
) -> bool {
    concludes(job, outcome) && first_with_path(db, current(job).input_path) >= 0
}

/// Whether the journal went from `before` to `after` by taking the record
/// `failure` (with an identifier and a moment of its own, on some date),
/// or by staying as it was where there is none.
pub open spec fn convert_journal_followed(
    before: ErrorLogManager,
    after: ErrorLogManager,
    failure: Option<ConvertErrorView>,
) -> bool {
    &&& after.base() == before.base()
    &&& match failure {
        None => after@ == before@ && after.pending_ops() == before.pending_ops(),
        Some(f) => exists|date: Seq<char>, e: ConvertErrorView|
            convert_records(e, f) && after@ == #[trigger] with_entry::<ConvertErrorEntry>(
                before@,
                date,
                e,
            ) && after.pending_ops() == before.pending_ops().push(
                StoreOpView::Write { date, kind: ErrorType::Convert },
            ),
    }
}

/// Whether the executable step `step` and job `job` are what `r` says.
pub open spec fn convert_step_is(job: ConvertJobView, step: Step, r: ConvertStepView) -> bool {
    job == r.job && step.events.deep_view() == r.events && step.action@ == r.action
}

fn log_event(id: usize, line: String) -> (event: DownloadEvent)
    ensures
        event@ == log(id, line@),
{
    DownloadEvent::LogLine { id, line }
}

fn add_pair(pairs: &mut Vec<(String, String)>, old_path: String, new_path: String)
    ensures
        final(pairs).deep_view() == old(pairs).deep_view().push((old_path@, new_path@)),
{
    let ghost before = pairs.deep_view();
    let ghost pair = (old_path@, new_path@);
    pairs.push((old_path, new_path));
    assert(pairs.deep_view() =~= before.push(pair));
}

fn copy_pairs(pairs: &Vec<(String, String)>) -> (copy: Vec<(String, String)>)
    ensures
        copy.deep_view() == pairs.deep_view(),
{
    let mut copy: Vec<(String, String)> = Vec::new();
    let mut i: usize = 0;
    while i < pairs.len()
        invariant
            i <= pairs.len(),
            copy.len() == i,
            forall|k: int|
                0 <= k < i ==> (#[trigger] copy@[k]).deep_view() == pairs@[k].deep_view(),
        decreases pairs.len() - i,
    {
        copy.push((pairs[i].0.clone(), pairs[i].1.clone()));
        i += 1;
    }
    assert(copy.deep_view() =~= pairs.deep_view());
    copy
}

impl ConvertJob {
    /// Whether the job can take `outcome` now.
    pub fn expects(&self, outcome: &Outcome) -> (fits: bool)
        ensures
            fits == convert_expects(self@, outcome@),
    {
        match self.stage {
            ConvertStage::Converting => matches!(
                outcome,
                Outcome::Converted { .. } | Outcome::Failed { .. } | Outcome::TaskFailed { .. }
            ),
            ConvertStage::Searching => matches!(
                outcome,
                Outcome::MetadataFound { .. } | Outcome::MetadataMissing | Outcome::Failed { .. }
            ),
            ConvertStage::FetchingCover => matches!(
                outcome,
                Outcome::CoverSaved | Outcome::CoverFailed { .. }
            ),
            ConvertStage::Tagging => matches!(outcome, Outcome::Tagged | Outcome::Failed { .. }),
            ConvertStage::Removing => matches!(outcome, Outcome::Done | Outcome::Failed { .. }),
            ConvertStage::Done => false,
        }
    }

    /// Whether the job is over.
    pub fn is_done(&self) -> (done: bool)
        ensures
            done == (self@.stage == ConvertStage::Done),
    {
        match self.stage {
            ConvertStage::Done => true,
            _ => false,
        }
    }

    fn end(&mut self, events: Vec<DownloadEvent>) -> (step: Step)
        ensures
            forall|db: Seq<TrackView>, failure: Option<ConvertErrorView>|
                convert_step_is(
                    final(self)@,
                    step,
                    #[trigger] convert_ended(old(self)@, db, events.deep_view(), failure),
                ),
            final(self)@.stage == ConvertStage::Done,
            final(self)@ == (ConvertJobView { stage: ConvertStage::Done, ..old(self)@ }),
    {
        self.stage = ConvertStage::Done;
        Step { events, action: Action::Finish }
    }

    fn go_on(&mut self, events: Vec<DownloadEvent>) -> (step: Step)
        requires
            old(self).next <= old(self).tracks.len(),
            old(self).successful <= old(self).next,
            old(self).batch,
        ensures
            forall|db: Seq<TrackView>, failure: Option<ConvertErrorView>|
                convert_step_is(
                    final(self)@,
                    step,
                    #[trigger] convert_next(old(self)@, db, events.deep_view(), failure),
                ),
            convert_wf(final(self)@),
    {
        let mut events = events;
        assert(self.tracks.deep_view().len() == self.tracks.len());
        if self.next < self.tracks.len() {
            let t = &self.tracks[self.next];
            assert(self.tracks.deep_view()[self.next as int] == t@);
            add_event(
                &mut events,
                log_event(
                    self.id,
                    batch_converting(
                        self.next + 1,
                        self.tracks.len(),
                        t.artist.as_str(),
                        t.title.as_str(),
                    ),
                ),
            );
            add_event(
                &mut events,
                DownloadEvent::ConvertStarted {
                    id: self.id,
                    path: t.input_path.clone(),
                    target_format: self.target_format.clone(),
                },
            );
            let action = Action::Convert {
                input_path: t.input_path.clone(),
                format: self.target_format.clone(),
                quality: self.quality.clone(),
            };
            self.stage = ConvertStage::Converting;
            Step { events, action }
        } else {
            add_event(
                &mut events,
                log_event(self.id, batch_conversion_done(self.successful, self.tracks.len())),
            );
            add_event(
                &mut events,
                DownloadEvent::ConvertBatchComplete {
                    id: self.id,
                    total: self.tracks.len(),
                    successful: self.successful,
                },
            );
            assert(self.converted.deep_view().len() == self.converted.len());
            if self.converted.len() > 0 {
                add_event(
                    &mut events,
                    DownloadEvent::ConvertBatchDeleteConfirm {
                        converted_files: copy_pairs(&self.converted),
                    },
                );
            }
            self.end(events)
        }
    }
}

impl ConvertJob {
    fn make(
        id: usize,
        tracks: Vec<ConvertTrackInfo>,
        batch: bool,
        target_format: String,
        quality: String,
        refresh_metadata: bool,
    ) -> (job: ConvertJob)
        ensures
            job@ == new_conversion(
                id,
                tracks.deep_view(),
                batch,
                target_format@,
                quality@,
                refresh_metadata,
            ),
    {
        let converted: Vec<(String, String)> = Vec::new();
        assert(converted.deep_view() =~= Seq::<(Seq<char>, Seq<char>)>::empty());
        ConvertJob {
            id,
            tracks,
            batch,
            target_format,
            quality,
            refresh_metadata,
            next: 0,
            successful: 0,
            converted,
            new_path: String::new(),
            metadata: None,
            cover: None,
            stage: ConvertStage::Converting,
        }
    }

    /// A job that converts one file, and its first step.
    pub fn single(
        id: usize,
        input_path: String,
        target_format: String,
        quality: String,
        refresh_metadata: bool,
        artist: String,
        title: String,
    ) -> (started: (ConvertJob, Step))
        ensures
            started.0@ == new_conversion(
                id,
                seq![
                    ConvertTrackInfoView {
                        input_path: input_path@,
                        artist: artist@,
                        title: title@,
                    },
                ],
                false,
                target_format@,
                quality@,
                refresh_metadata,
            ),
            convert_wf(started.0@),
            forall|db: Seq<TrackView>|
                convert_step_is(started.0@, started.1, #[trigger] convert_start(started.0@, db)),
    {
        let mut tracks: Vec<ConvertTrackInfo> = Vec::new();
        let track = ConvertTrackInfo { input_path, artist, title };
        let ghost tv = track@;
        tracks.push(track);
        assert(tracks.deep_view() =~= seq![tv]);
        let job = ConvertJob::make(id, tracks, false, target_format, quality, refresh_metadata);
        let t = &job.tracks[0];
        assert(job.tracks.deep_view()[0] == t@);
        let mut events = no_events();
        add_event(
            &mut events,
            DownloadEvent::ConvertStarted {
                id,
                path: t.input_path.clone(),
                target_format: job.target_format.clone(),
            },
        );
        add_event(
            &mut events,
            log_event(id, converting(t.input_path.as_str(), job.target_format.as_str())),
        );
        let action = Action::Convert {
            input_path: t.input_path.clone(),
            format: job.target_format.clone(),
            quality: job.quality.clone(),
        };
        (job, Step { events, action })
    }

    /// A job that converts several files in order, and its first step.
    pub fn batch(
        id: usize,
        tracks: Vec<ConvertTrackInfo>,
        target_format: String,
        quality: String,
        refresh_metadata: bool,
    ) -> (started: (ConvertJob, Step))
        ensures
            convert_wf(started.0@),
            forall|db: Seq<TrackView>|
                convert_step_is(
                    started.0@,
                    started.1,
                    #[trigger] convert_start(
                        new_conversion(
                            id,
                            tracks.deep_view(),
                            true,
                            target_format@,
                            quality@,
                            refresh_metadata,
                        ),
                        db,
                    ),
                ),
    {
        let mut job = ConvertJob::make(id, tracks, true, target_format, quality, refresh_metadata);
        let mut events = no_events();
        add_event(
            &mut events,
            log_event(id, batch_conversion_start(job.tracks.len(), job.target_format.as_str())),
        );
        assert(job.tracks.deep_view().len() == job.tracks.len());
        let step = job.go_on(events);
        (job, step)
    }

    /// Writes a failure of the file at hand to the journal.
    fn record(&self, journal: &mut ErrorLogManager, error: String)
        requires
            self.next < self.tracks.len(),
        ensures
            convert_journal_followed(
                *old(journal),
                *final(journal),
                Some(convert_failure_of(self@, error@)),
            ),
    {
        let t = &self.tracks[self.next];
        assert(self.tracks.deep_view()[self.next as int] == t@);
        let ghost f = convert_failure_of(self@, error@);
        let entry = ConvertErrorEntry::new(
            t.input_path.clone(),
            self.target_format.clone(),
            self.quality.clone(),
            self.refresh_metadata,
            t.artist.clone(),
            t.title.clone(),
            error,
        );
        assert(convert_records(entry@, f));
        journal.add_convert_error(entry);
    }

    fn conclude(&mut self, db: &mut DownloadDB, events: Vec<DownloadEvent>) -> (step: Step)
        requires
            convert_wf(old(self)@),
            old(self).stage != ConvertStage::Done,
        ensures
            convert_step_is(
                final(self)@,
                step,
                concluded(old(self)@, old(db)@, events.deep_view()),
            ),
            final(db)@ == concluded(old(self)@, old(db)@, events.deep_view()).db,
            concluded(old(self)@, old(db)@, events.deep_view()).failure is None,
            final(db).location() == old(db).location(),
            final(db).is_unsaved() == (old(db).is_unsaved() || first_with_path(
                old(db)@,
                current(old(self)@).input_path,
            ) >= 0),
            convert_wf(final(self)@),
    {
        assert(self.tracks.deep_view().len() == self.tracks.len());
        let t = &self.tracks[self.next];
        assert(self.tracks.deep_view()[self.next as int] == t@);
        let old_path = t.input_path.clone();
        let new_path = self.new_path.clone();
        db.update_path(old_path.as_str(), new_path.as_str());
        let mut events = events;
        if self.batch {
            add_event(
                &mut events,
                DownloadEvent::ConvertComplete {
                    id: self.id,
                    old_path: old_path.clone(),
                    new_path: new_path.clone(),
                },
            );
            add_pair(&mut self.converted, old_path, new_path);
            self.successful = self.successful + 1;
            self.next = self.next + 1;
            self.metadata = None;
            self.cover = None;
            self.go_on(events)
        } else {
            add_event(
                &mut events,
                DownloadEvent::ConvertDeleteConfirm {
                    id: self.id,
                    old_path: old_path.clone(),
                    new_path: new_path.clone(),
                },
            );
            add_event(
                &mut events,
                DownloadEvent::ConvertComplete { id: self.id, old_path, new_path },
            );
            self.end(events)
        }
    }

    fn fail(&mut self, journal: &mut ErrorLogManager, line: String, error: String) -> (step: Step)
        requires
            convert_wf(old(self)@),
            old(self).stage != ConvertStage::Done,
        ensures
            forall|db: Seq<TrackView>|
                convert_step_is(
                    final(self)@,
                    step,
                    #[trigger] convert_failed(old(self)@, db, line@, error@),
                ),
            convert_journal_followed(
                *old(journal),
                *final(journal),
                Some(convert_failure_of(old(self)@, error@)),
            ),
            convert_wf(final(self)@),
    {
        assert(self.tracks.deep_view().len() == self.tracks.len());
        let path = self.tracks[self.next].input_path.clone();
        assert(self.tracks.deep_view()[self.next as int] == self.tracks@[self.next as int]@);
        self.record(journal, error.clone());
        let mut events = no_events();
        add_event(&mut events, log_event(self.id, line));
        add_event(&mut events, DownloadEvent::ConvertFailed { id: self.id, path, error });
        if self.batch {
            self.next = self.next + 1;
            self.metadata = None;
            self.cover = None;
            self.go_on(events)
        } else {
            self.end(events)
        }
    }

    fn tag(&mut self, events: Vec<DownloadEvent>, cover: Option<String>) -> (step: Step)
        requires
            convert_wf(old(self)@),
            old(self).stage != ConvertStage::Done,
            old(self).metadata is Some,
        ensures
            forall|db: Seq<TrackView>|
                convert_step_is(
                    final(self)@,
                    step,
                    #[trigger] tagging(old(self)@, db, events.deep_view(), cover.deep_view()),
                ),
            convert_wf(final(self)@),
    {
        let action = match &self.metadata {
            Some(m) => Action::Tag {
                path: self.new_path.clone(),
                artist: m.artist.clone(),
                album: m.album.clone(),
                title: m.title.clone(),
                track: m.track_number,
                genre: copy_opt(&m.genre),
                cover: copy_opt(&cover),
                portable: false,
            },
            None => Action::Finish,
        };
        self.cover = cover;
        self.stage = ConvertStage::Tagging;
        Step { events, action }
    }

    fn after_tag(&mut self, db: &mut DownloadDB, events: Vec<DownloadEvent>) -> (step: Step)
        requires
            convert_wf(old(self)@),
            old(self).stage != ConvertStage::Done,
        ensures
            convert_step_is(final(self)@, step, tagged(old(self)@, old(db)@, events.deep_view())),
            final(db)@ == tagged(old(self)@, old(db)@, events.deep_view()).db,
            tagged(old(self)@, old(db)@, events.deep_view()).failure is None,
            final(db).location() == old(db).location(),
            final(db).is_unsaved() == (old(db).is_unsaved() || (old(self)@.cover is None
                && first_with_path(old(db)@, current(old(self)@).input_path) >= 0)),
            convert_wf(final(self)@),
    {
        let cover = copy_opt(&self.cover);
        match cover {
            Some(path) => {
                self.stage = ConvertStage::Removing;
                Step { events, action: Action::RemoveFile { path } }
            },
            None => self.conclude(db, events),
        }
    }

    /// `events` in a job of one file; nothing in a job of several.
    fn single_only(&self, events: Vec<DownloadEvent>) -> (kept: Vec<DownloadEvent>)
        ensures
            kept.deep_view() == if_single(self@, events.deep_view()),
    {
        if self.batch {
            no_events()
        } else {
            events
        }
    }

    /// Takes what came of the work that the last step asked for, and makes
    /// the next step.
    pub fn step(
        &mut self,
        db: &mut DownloadDB,
        journal: &mut ErrorLogManager,
        outcome: Outcome,
    ) -> (step: Step)
        requires
            convert_wf(old(self)@),
            convert_expects(old(self)@, outcome@),
        ensures
            convert_step_is(final(self)@, step, convert_step(old(self)@, old(db)@, outcome@)),
            final(db)@ == convert_step(old(self)@, old(db)@, outcome@).db,
            final(db).location() == old(db).location(),
            final(db).is_unsaved() == (old(db).is_unsaved() || moves_track(
                old(self)@,
                old(db)@,
                outcome@,
            )),
            convert_journal_followed(
                *old(journal),
                *final(journal),
                convert_step(old(self)@, old(db)@, outcome@).failure,
            ),
            convert_wf(final(self)@),
    {
        assert(self.tracks.deep_view().len() == self.tracks.len());
        assert(self.tracks.deep_view()[self.next as int] == self.tracks@[self.next as int]@);
        let id = self.id;
        match self.stage {
            ConvertStage::Converting => match outcome {
                Outcome::Converted { path } => {
                    let mut reported = no_events();
                    add_event(&mut reported, log_event(id, converted(path.as_str())));
                    let mut reported = self.single_only(reported);
                    self.new_path = path;
                    self.metadata = None;
                    self.cover = None;
                    if self.refresh_metadata {
                        let t = &self.tracks[self.next];
                        let action = Action::SearchTrack {
                            artist: t.artist.clone(),
                            title: t.title.clone(),
                        };
                        add_event(
                            &mut reported,
                            log_event(id, refreshing(t.artist.as_str(), t.title.as_str())),
                        );
                        let events = self.single_only(reported);
                        self.stage = ConvertStage::Searching;
                        Step { events, action }
                    } else {
                        self.conclude(db, reported)
                    }
                },
                Outcome::Failed { reason } => {
                    let t = &self.tracks[self.next];
                    let line = if self.batch {
                        batch_conversion_failure(
                            t.artist.as_str(),
                            t.title.as_str(),
                            reason.as_str(),
                        )
                    } else {
                        conversion_failure(reason.as_str())
                    };
                    self.fail(journal, line, reason)
                },
                Outcome::TaskFailed { reason } => {
                    let t = &self.tracks[self.next];
                    let line = if self.batch {
                        batch_task_failure(t.artist.as_str(), t.title.as_str(), reason.as_str())
                    } else {
                        conversion_task_failure(reason.as_str())
                    };
                    self.fail(journal, line, reason)
                },
                _ => self.end(no_events()),
            },
            ConvertStage::Searching => match outcome {
                Outcome::MetadataFound { metadata } => {
                    let url = copy_opt(&metadata.cover_url);
                    let dest = with_file_name(self.new_path.as_str(), "temp_cover.jpg");
                    self.metadata = Some(metadata);
                    match url {
                        Some(url) => {
                            self.stage = ConvertStage::FetchingCover;
                            Step { events: no_events(), action: Action::FetchCover { url, dest } }
                        },
                        None => self.tag(no_events(), None),
                    }
                },
                Outcome::MetadataMissing => {
                    let mut events = no_events();
                    add_event(
                        &mut events,
                        log_event(
                            id,
                            String::from_str(
                                "Could not find track on Spotify, keeping existing metadata",
                            ),
                        ),
                    );
                    let events = self.single_only(events);
                    self.conclude(db, events)
                },
                Outcome::Failed { reason } => {
                    let mut events = no_events();
                    add_event(&mut events, log_event(id, search_failure(reason.as_str())));
                    let events = self.single_only(events);
                    self.conclude(db, events)
                },
                _ => self.end(no_events()),
            },
            ConvertStage::FetchingCover => match outcome {
                Outcome::CoverFailed { failure } => {
                    let mut events = no_events();
                    add_event(&mut events, log_event(id, cover_failure_line(&failure)));
                    self.tag(events, None)
                },
                _ => {
                    let dest = with_file_name(self.new_path.as_str(), "temp_cover.jpg");
                    self.tag(no_events(), Some(dest))
                },
            },
            ConvertStage::Tagging => match outcome {
                Outcome::Failed { reason } => {
                    let mut events = no_events();
                    add_event(&mut events, log_event(id, metadata_warning(reason.as_str())));
                    let events = self.single_only(events);
                    self.after_tag(db, events)
                },
                _ => {
                    let mut events = no_events();
                    add_event(
                        &mut events,
                        log_event(id, String::from_str("Metadata refreshed successfully")),
                    );
                    let events = self.single_only(events);
                    self.after_tag(db, events)
                },
            },
            ConvertStage::Removing => {
                self.cover = None;
                self.conclude(db, no_events())
            },
            ConvertStage::Done => self.end(no_events()),
        }
    }
}

/// A conversion that fails writes exactly one record to the journal, with
/// a retry counter of zero, reports the failure, and leaves the catalog
/// of fetched tracks as it was: no record changes, and the stored form is
/// not due for a rewrite on its account.
pub proof fn lemma_failed_conversion(job: ConvertJobView, db: Seq<TrackView>, reason: Seq<char>)
    requires
        convert_wf(job),
        job.stage == ConvertStage::Converting,
    ensures
        ({
            let r = convert_step(job, db, OutcomeView::Failed { reason });
            &&& r.db == db
            &&& !moves_track(job, db, OutcomeView::Failed { reason })
            &&& r.failure == Some(convert_failure_of(job, reason))
            &&& (r.failure->0).retry_count == 0
            &&& r.events.len() >= 2
            &&& r.events[1] == (DownloadEventView::ConvertFailed {
                id: job.id,
                path: current(job).input_path,
                error: reason,
            })
        }),
{
}

} // verus!
