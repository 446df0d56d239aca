//! A metadata job, step by step: the metadata of one file, or of several
//! files one after the other, is looked up again and written into the
//! file.
//!
//! A file whose metadata cannot be found or written is reported and goes
//! to the journal; in a job of several files the job goes on.

use crate::error_log::clock::Timestamp;
use crate::error_log::entries::{RefreshErrorEntry, RefreshErrorView};
use crate::error_log::journal::{with_entry, StoreOpView};
use crate::error_log::{ErrorLogManager, ErrorType};
use crate::paths::{with_file_name, with_file_name_of};
use crate::sources::spotify::{TrackMetadata, TrackMetadataView};
use crate::tui::download_job::{add_event, copy_opt, no_events};
use crate::tui::messages::{
    batch_refresh_done, batch_refresh_done_text, batch_refresh_start, batch_refresh_start_text,
    batch_refreshing, batch_refreshing_text, metadata_failure, metadata_failure_text,
    not_in_catalog, not_in_catalog_text, refreshing, refreshing_text, search_failure,
    search_failure_text,
};
use crate::tui::protocol::{
    cover_failure_line, cover_failure_text, Action, ActionView, Outcome, OutcomeView, Step,
};
use crate::tui::worker::{
    ConvertTrackInfo, ConvertTrackInfoView, DownloadEvent, DownloadEventView,
};
use vstd::prelude::*;
use vstd::string::StringExecFns;

verus! {

/// Where a metadata job stands with the file at hand.
#[derive(Clone, Copy, Debug, PartialEq, Eq, Structural)]
pub enum RefreshStage {
    /// The catalog is asked for the metadata of the track.
    Searching,
    FetchingCover,
    Tagging,
    /// The cover that was fetched for tagging is being deleted.
    Removing,
    Done,
}

/// A metadata job.
#[derive(Debug)]
pub struct RefreshJob {
    pub id: usize,
    /// The files of the job; exactly one where `batch` is false.
    pub tracks: Vec<ConvertTrackInfo>,
    pub batch: bool,
    /// The index of the file at hand.
    pub next: usize,
    pub successful: usize,
    pub metadata: Option<TrackMetadata>,
    /// The cover that was fetched for the file at hand.
    pub cover: Option<String>,
    pub stage: RefreshStage,
}

pub struct RefreshJobView {
    pub id: usize,
    pub tracks: Seq<ConvertTrackInfoView>,
    pub batch: bool,
    pub next: usize,
    pub successful: usize,
    pub metadata: Option<TrackMetadataView>,
    pub cover: Option<Seq<char>>,
    pub stage: RefreshStage,
}

impl View for RefreshJob {
    type V = RefreshJobView;

    open spec fn view(&self) -> RefreshJobView {
        RefreshJobView {
            id: self.id,
            tracks: self.tracks.deep_view(),
            batch: self.batch,
            next: self.next,
            successful: self.successful,
            metadata: self.metadata.deep_view(),
            cover: self.cover.deep_view(),
            stage: self.stage,
        }
    }
}

/// What a step of a metadata job comes to.
pub struct RefreshStepView {
    pub job: RefreshJobView,
    pub events: Seq<DownloadEventView>,
    pub action: ActionView,
    /// What the step writes to the journal, but for the identifier and the
    /// moment.
    pub failure: Option<RefreshErrorView>,
}

/// The state in which a metadata job begins.
pub open spec fn new_refresh(id: usize, tracks: Seq<ConvertTrackInfoView>, batch: bool) -> RefreshJobView {
    RefreshJobView {
        id,
        tracks,
        batch,
        next: 0,
        successful: 0,
        metadata: None,
        cover: None,
        stage: RefreshStage::Searching,
    }
}

/// How many files of the job are dealt with.
pub open spec fn dealt_with(job: RefreshJobView) -> int {
    if job.stage == RefreshStage::Removing {
        job.next + 1
    } else {
        job.next as int
    }
}

/// Whether a job is in a state that its steps can lead to.
pub open spec fn refresh_wf(job: RefreshJobView) -> bool {
    &&& job.next <= job.tracks.len() <= usize::MAX
    &&& job.successful <= dealt_with(job)
    &&& job.stage != RefreshStage::Done ==> job.next < job.tracks.len()
    &&& (job.stage == RefreshStage::FetchingCover || job.stage == RefreshStage::Tagging)
        ==> job.metadata is Some
    &&& job.stage == RefreshStage::Removing ==> job.cover is Some
    &&& !job.batch ==> job.tracks.len() == 1 && job.successful == 0
}

/// The file at hand.
pub open spec fn current(job: RefreshJobView) -> ConvertTrackInfoView {
    job.tracks[job.next as int]
}

/// `events` in a job of one file; nothing in a job of several, which
/// reports less.
pub open spec fn if_single(job: RefreshJobView, events: Seq<DownloadEventView>) -> Seq<
    DownloadEventView,
> {
    if job.batch {
        Seq::empty()
    } else {
        events
    }
}

pub open spec fn log(id: usize, line: Seq<char>) -> DownloadEventView {
    DownloadEventView::LogLine { id, line }
}

/// What the journal keeps of a failure of the file at hand, with an empty
/// identifier and moment.
pub open spec fn refresh_failure_of(job: RefreshJobView, error: Seq<char>) -> RefreshErrorView {
    RefreshErrorView {
        id: Seq::empty(),
        timestamp: Timestamp { secs: 0, nanos: 0 },
        input_path: current(job).input_path,
        artist: current(job).artist,
        title: current(job).title,
        error,
        retry_count: 0,
    }
}

/// Whether `e` is the record `f` with an identifier and a moment of its
/// own.
pub open spec fn refresh_records(e: RefreshErrorView, f: RefreshErrorView) -> bool {
    e == (RefreshErrorView { id: e.id, timestamp: e.timestamp, ..f })
}

/// The job is over.
pub open spec fn refresh_ended(
    job: RefreshJobView,
    events: Seq<DownloadEventView>,
    failure: Option<RefreshErrorView>,
) -> RefreshStepView {
    RefreshStepView {
        job: RefreshJobView { stage: RefreshStage::Done, ..job },
        events,
        action: ActionView::Finish,
        failure,
    }
}

/// A job of several files turns to the file at `next`, or sums up when
/// none is left.
pub open spec fn refresh_next(
    job: RefreshJobView,
    events: Seq<DownloadEventView>,
    failure: Option<RefreshErrorView>,
) -> RefreshStepView {
    if job.next < job.tracks.len() {
        let t = current(job);
        RefreshStepView {
            job: RefreshJobView { stage: RefreshStage::Searching, ..job },
            events: events.push(
                log(
                    job.id,
                    batch_refreshing_text(
                        (job.next + 1) as nat,
                        job.tracks.len(),
                        t.artist,
                        t.title,
                    ),
                ),
            ).push(
                DownloadEventView::RefreshStarted { id: job.id, artist: t.artist, title: t.title },
            ),
            action: ActionView::SearchTrack { artist: t.artist, title: t.title },
            failure,
        }
    } else {
        refresh_ended(
            job,
            events.push(
                log(job.id, batch_refresh_done_text(job.successful as nat, job.tracks.len())),
            ).push(
                DownloadEventView::RefreshBatchComplete {
                    id: job.id,
                    total: job.tracks.len() as usize,
                    successful: job.successful,
                },
            ),
            failure,
        )
    }
}

/// The first step of a job.
pub open spec fn refresh_start(job: RefreshJobView) -> RefreshStepView {
    if job.batch {
        refresh_next(
            job,
            Seq::empty().push(log(job.id, batch_refresh_start_text(job.tracks.len()))),
            None,
        )
    } else {
        let t = current(job);
        RefreshStepView {
            job,
            events: Seq::empty().push(
                DownloadEventView::RefreshStarted { id: job.id, artist: t.artist, title: t.title },
            ).push(log(job.id, refreshing_text(t.artist, t.title))),
            action: ActionView::SearchTrack { artist: t.artist, title: t.title },
            failure: None,
        }
    }
}

/// The file at hand is dealt with: a job of one file ends, a job of
/// several files goes on.
pub open spec fn track_over(
    job: RefreshJobView,
    events: Seq<DownloadEventView>,
    failure: Option<RefreshErrorView>,
) -> RefreshStepView {
    if job.batch {
        refresh_next(
            RefreshJobView {
                next: (job.next + 1) as usize,
                metadata: None,
                cover: None,
                stage: RefreshStage::Searching,
                ..job
            },
            events,
            failure,
        )
    } else {
        refresh_ended(job, events, failure)
    }
}

/// The failure of the file at hand as an event.
pub open spec fn refresh_failed_event(job: RefreshJobView, error: Seq<char>) -> DownloadEventView {
    DownloadEventView::RefreshFailed {
        id: job.id,
        artist: current(job).artist,
        title: current(job).title,
        error,
    }
}

/// Where the cover for the file at hand is kept while it is needed.
pub open spec fn temp_cover(job: RefreshJobView) -> Seq<char> {
    with_file_name_of(current(job).input_path, "temp_cover.jpg"@)
}

/// The job asks for the tags of the file at hand.
pub open spec fn tagging(
    job: RefreshJobView,
    events: Seq<DownloadEventView>,
    cover: Option<Seq<char>>,
) -> RefreshStepView {
    let m = job.metadata->0;
    RefreshStepView {
        job: RefreshJobView { cover, stage: RefreshStage::Tagging, ..job },
        events,
        action: ActionView::Tag {
            path: current(job).input_path,
            artist: m.artist,
            album: m.album,
            title: m.title,
            track: m.track_number,
            genre: m.genre,
            cover,
            portable: false,
        },
        failure: None,
    }
}

/// Tagging is over, well or not: the cover that was fetched for it goes,
/// and the file is dealt with.
pub open spec fn tagged(
    job: RefreshJobView,
    events: Seq<DownloadEventView>,
    failure: Option<RefreshErrorView>,
) -> RefreshStepView {
    match job.cover {
        Some(c) => RefreshStepView {
            job: RefreshJobView { stage: RefreshStage::Removing, ..job },
            events,
            action: ActionView::RemoveFile { path: c },
            failure,
        },
        None => track_over(job, events, failure),
    }
}

/// Whether a job in this state can take `outcome`.
pub open spec fn refresh_expects(job: RefreshJobView, outcome: OutcomeView) -> bool {
    match job.stage {
        RefreshStage::Searching => outcome is MetadataFound || outcome is MetadataMissing
            || outcome is Failed,
        RefreshStage::FetchingCover => outcome is CoverSaved || outcome is CoverFailed,
        RefreshStage::Tagging => outcome is Tagged || outcome is Failed,
        RefreshStage::Removing => outcome is Done || outcome is Failed,
        RefreshStage::Done => false,
    }
}

/// The text that says that the catalog does not know a track.
pub open spec fn unknown_track_text() -> Seq<char> {
    "Track not found on Spotify"@
}

/// What a job in the state `job` makes of `outcome`.
pub open spec fn refresh_step(job: RefreshJobView, outcome: OutcomeView) -> RefreshStepView {
    let t = current(job);
    match job.stage {
        RefreshStage::Searching => match outcome {
            OutcomeView::MetadataFound { metadata } => {
                let now = RefreshJobView { metadata: Some(metadata), ..job };
                match metadata.cover_url {
                    Some(url) => RefreshStepView {
                        job: RefreshJobView { stage: RefreshStage::FetchingCover, ..now },
                        events: Seq::empty(),
                        action: ActionView::FetchCover { url, dest: temp_cover(job) },
                        failure: None,
                    },
                    None => tagging(now, Seq::empty(), None),
                }
            },
            OutcomeView::MetadataMissing => track_over(
                job,
                if_single(
                    job,
                    Seq::empty().push(log(job.id, not_in_catalog_text(t.artist, t.title))),
                ).push(refresh_failed_event(job, unknown_track_text())),
                Some(refresh_failure_of(job, unknown_track_text())),
            ),
            OutcomeView::Failed { reason } => track_over(
                job,
                if_single(job, Seq::empty().push(log(job.id, search_failure_text(reason)))).push(
                    refresh_failed_event(job, reason),
                ),
                Some(refresh_failure_of(job, search_failure_text(reason))),
            ),
            _ => refresh_ended(job, Seq::empty(), None),
        },
        RefreshStage::FetchingCover => match outcome {
            OutcomeView::CoverFailed { failure } => tagging(
                job,
                Seq::empty().push(log(job.id, cover_failure_text(failure))),
                None,
            ),
            _ => tagging(job, Seq::empty(), Some(temp_cover(job))),
        },
        RefreshStage::Tagging => match outcome {
            OutcomeView::Failed { reason } => if job.batch {
                tagged(
                    job,
                    Seq::empty().push(refresh_failed_event(job, "Failed to apply metadata"@)),
                    Some(refresh_failure_of(job, "Failed to apply metadata"@)),
                )
            } else {
                tagged(
                    job,
                    Seq::empty().push(log(job.id, metadata_failure_text(reason))).push(
                        refresh_failed_event(job, reason),
                    ),
                    Some(refresh_failure_of(job, metadata_failure_text(reason))),
                )
            },
            _ => tagged(
                RefreshJobView {
                    successful: if job.batch {
                        (job.successful + 1) as usize
                    } else {
                        job.successful
                    },
                    ..job
                },
                if_single(
                    job,
                    Seq::empty().push(log(job.id, "Metadata refreshed successfully"@)),
                ).push(
                    DownloadEventView::RefreshComplete {
                        id: job.id,
                        artist: t.artist,
                        title: t.title,
                    },
                ),
                None,
            ),
        },
        RefreshStage::Removing => track_over(job, Seq::empty(), None),
        RefreshStage::Done => refresh_ended(job, Seq::empty(), None),
    }
}

/// Whether the journal went from `before` to `after` by taking the record
/// `failure` (with an identifier and a moment of its own, on some date),
/// or by staying as it was where there is none.
pub open spec fn refresh_journal_followed(
    before: ErrorLogManager,
    after: ErrorLogManager,
    failure: Option<RefreshErrorView>,
) -> bool {
    &&& after.base() == before.base()
    &&& match failure {
        None => after@ == before@ && after.pending_ops() == before.pending_ops(),
        Some(f) => exists|date: Seq<char>, e: RefreshErrorView|
            refresh_records(e, f) && after@ == #[trigger] with_entry::<RefreshErrorEntry>(
                before@,
                date,
                e,
            ) && after.pending_ops() == before.pending_ops().push(
                StoreOpView::Write { date, kind: ErrorType::Refresh },
            ),
    }
}

/// Whether the executable step `step` and job `job` are what `r` says.
pub open spec fn refresh_step_is(job: RefreshJobView, step: Step, r: RefreshStepView) -> bool {
    job == r.job && step.events.deep_view() == r.events && step.action@ == r.action
}

fn log_event(id: usize, line: String) -> (event: DownloadEvent)
    ensures
        event@ == log(id, line@),
{
    DownloadEvent::LogLine { id, line }
}

impl RefreshJob {
    /// Whether the job can take `outcome` now.
    pub fn expects(&self, outcome: &Outcome) -> (fits: bool)
        ensures
            fits == refresh_expects(self@, outcome@),
    {
        match self.stage {
            RefreshStage::Searching => matches!(
                outcome,
                Outcome::MetadataFound { .. } | Outcome::MetadataMissing | Outcome::Failed { .. }
            ),
            RefreshStage::FetchingCover => matches!(
                outcome,
                Outcome::CoverSaved | Outcome::CoverFailed { .. }
            ),
            RefreshStage::Tagging => matches!(outcome, Outcome::Tagged | Outcome::Failed { .. }),
            RefreshStage::Removing => matches!(outcome, Outcome::Done | Outcome::Failed { .. }),
            RefreshStage::Done => false,
        }
    }

    /// Whether the job is over.
    pub fn is_done(&self) -> (done: bool)
        ensures
            done == (self@.stage == RefreshStage::Done),
    {
        match self.stage {
            RefreshStage::Done => true,
            _ => false,
        }
    }

    fn end(&mut self, events: Vec<DownloadEvent>) -> (step: Step)
        ensures
            forall|failure: Option<RefreshErrorView>|
                refresh_step_is(
                    final(self)@,
                    step,
                    #[trigger] refresh_ended(old(self)@, events.deep_view(), failure),
                ),
            final(self)@ == (RefreshJobView { stage: RefreshStage::Done, ..old(self)@ }),
    {
        self.stage = RefreshStage::Done;
        Step { events, action: Action::Finish }
    }

    fn go_on(&mut self, events: Vec<DownloadEvent>) -> (step: Step)
        requires
            old(self).next <= old(self).tracks.len(),
            old(self).successful <= old(self).next,
            old(self).batch,
        ensures
            forall|failure: Option<RefreshErrorView>|
                refresh_step_is(
                    final(self)@,
                    step,
                    #[trigger] refresh_next(old(self)@, events.deep_view(), failure),
                ),
            final(self)@.metadata is None && final(self)@.cover is None ==> refresh_wf(
                final(self)@,
            ),
            final(self)@.metadata == old(self)@.metadata,
            final(self)@.cover == old(self)@.cover,
    {
        let mut events = events;
        assert(self.tracks.deep_view().len() == self.tracks.len());
        if self.next < self.tracks.len() {
            let t = &self.tracks[self.next];
            assert(self.tracks.deep_view()[self.next as int] == t@);
            add_event(
                &mut events,
                log_event(
                    self.id,
                    batch_refreshing(
                        self.next + 1,
                        self.tracks.len(),
                        t.artist.as_str(),
                        t.title.as_str(),
                    ),
                ),
            );
            add_event(
                &mut events,
                DownloadEvent::RefreshStarted {
                    id: self.id,
                    artist: t.artist.clone(),
                    title: t.title.clone(),
                },
            );
            let action = Action::SearchTrack { artist: t.artist.clone(), title: t.title.clone() };
            self.stage = RefreshStage::Searching;
            Step { events, action }
        } else {
            add_event(
                &mut events,
                log_event(self.id, batch_refresh_done(self.successful, self.tracks.len())),
            );
            add_event(
                &mut events,
                DownloadEvent::RefreshBatchComplete {
                    id: self.id,
                    total: self.tracks.len(),
                    successful: self.successful,
                },
            );
            self.end(events)
        }
    }

    /// A job that refreshes one file, and its first step.
    pub fn single(id: usize, input_path: String, artist: String, title: String) -> (started: (
        RefreshJob,
        Step,
    ))
        ensures
            started.0@ == new_refresh(
                id,
                seq![
                    ConvertTrackInfoView { input_path: input_path@, artist: artist@, title: title@ },
                ],
                false,
            ),
            refresh_wf(started.0@),
            refresh_step_is(started.0@, started.1, refresh_start(started.0@)),
    {
        let mut tracks: Vec<ConvertTrackInfo> = Vec::new();
        let track = ConvertTrackInfo { input_path, artist, title };
        let ghost tv = track@;
        tracks.push(track);
        assert(tracks.deep_view() =~= seq![tv]);
        let job = RefreshJob {
            id,
            tracks,
            batch: false,
            next: 0,
            successful: 0,
            metadata: None,
            cover: None,
            stage: RefreshStage::Searching,
        };
        let t = &job.tracks[0];
        assert(job.tracks.deep_view()[0] == t@);
        let mut events = no_events();
        add_event(
            &mut events,
            DownloadEvent::RefreshStarted {
                id,
                artist: t.artist.clone(),
                title: t.title.clone(),
            },
        );
        add_event(&mut events, log_event(id, refreshing(t.artist.as_str(), t.title.as_str())));
        let action = Action::SearchTrack { artist: t.artist.clone(), title: t.title.clone() };
        (job, Step { events, action })
    }

    /// A job that refreshes several files in order, and its first step.
    pub fn batch(id: usize, tracks: Vec<ConvertTrackInfo>) -> (started: (RefreshJob, Step))
        ensures
            refresh_wf(started.0@),
            refresh_step_is(
                started.0@,
                started.1,
                refresh_start(new_refresh(id, tracks.deep_view(), true)),
            ),
    {
        let mut job = RefreshJob {
            id,
            tracks,
            batch: true,
            next: 0,
            successful: 0,
            metadata: None,
            cover: None,
            stage: RefreshStage::Searching,
        };
        let mut events = no_events();
        add_event(&mut events, log_event(id, batch_refresh_start(job.tracks.len())));
        assert(job.tracks.deep_view().len() == job.tracks.len());
        let step = job.go_on(events);
        (job, step)
    }

    /// Writes a failure of the file at hand to the journal.
    fn record(&self, journal: &mut ErrorLogManager, error: String)
        requires
            self.next < self.tracks.len(),
        ensures
            refresh_journal_followed(
                *old(journal),
                *final(journal),
                Some(refresh_failure_of(self@, error@)),
            ),
    {
        let t = &self.tracks[self.next];
        assert(self.tracks.deep_view()[self.next as int] == t@);
        let ghost f = refresh_failure_of(self@, error@);
        let entry = RefreshErrorEntry::new(
            t.input_path.clone(),
            t.artist.clone(),
            t.title.clone(),
            error,
        );
        assert(refresh_records(entry@, f));
        journal.add_refresh_error(entry);
    }

    fn over(&mut self, events: Vec<DownloadEvent>) -> (step: Step)
        requires
            refresh_wf(old(self)@),
            old(self).stage != RefreshStage::Done,
        ensures
            forall|failure: Option<RefreshErrorView>|
                refresh_step_is(
                    final(self)@,
                    step,
                    #[trigger] track_over(old(self)@, events.deep_view(), failure),
                ),
            refresh_wf(final(self)@),
    {
        assert(self.tracks.deep_view().len() == self.tracks.len());
        if self.batch {
            self.next = self.next + 1;
            self.metadata = None;
            self.cover = None;
            self.stage = RefreshStage::Searching;
            self.go_on(events)
        } else {
            self.end(events)
        }
    }

    fn tag(&mut self, events: Vec<DownloadEvent>, cover: Option<String>) -> (step: Step)
        requires
            refresh_wf(old(self)@),
            old(self).stage != RefreshStage::Done,
            old(self).stage != RefreshStage::Removing,
            old(self).metadata is Some,
        ensures
            refresh_step_is(
                final(self)@,
                step,
                tagging(old(self)@, events.deep_view(), cover.deep_view()),
            ),
            refresh_wf(final(self)@),
    {
        assert(self.tracks.deep_view().len() == self.tracks.len());
        let t = &self.tracks[self.next];
        assert(self.tracks.deep_view()[self.next as int] == t@);
        let action = match &self.metadata {
            Some(m) => Action::Tag {
                path: t.input_path.clone(),
                artist: m.artist.clone(),
                album: m.album.clone(),
                title: m.title.clone(),
                track: m.track_number,
                genre: copy_opt(&m.genre),
                cover: copy_opt(&cover),
                portable: false,
            },
            None => Action::Finish,
        };
        self.cover = cover;
        self.stage = RefreshStage::Tagging;
        Step { events, action }
    }

    fn after_tag(&mut self, events: Vec<DownloadEvent>) -> (step: Step)
        requires
            old(self).next < old(self).tracks.len(),
            old(self).tracks.len() <= usize::MAX,
            old(self).successful <= old(self).next + 1,
            !old(self).batch ==> old(self).tracks.len() == 1 && old(self).successful == 0,
            old(self).stage == RefreshStage::Tagging,
        ensures
            forall|failure: Option<RefreshErrorView>|
                refresh_step_is(
                    final(self)@,
                    step,
                    #[trigger] tagged(old(self)@, events.deep_view(), failure),
                ),
            refresh_wf(final(self)@),
    {
        assert(self.tracks.deep_view().len() == self.tracks.len());
        let cover = copy_opt(&self.cover);
        match cover {
            Some(path) => {
                self.stage = RefreshStage::Removing;
                Step { events, action: Action::RemoveFile { path } }
            },
            None => {
                if self.batch {
                    self.next = self.next + 1;
                    self.metadata = None;
                    self.cover = None;
                    self.stage = RefreshStage::Searching;
                    self.go_on(events)
                } else {
                    self.end(events)
                }
            },
        }
    }

    /// `events` in a job of one file; nothing in a job of several.
    fn single_only(&self, events: Vec<DownloadEvent>) -> (kept: Vec<DownloadEvent>)
        ensures
            kept.deep_view() == if_single(self@, events.deep_view()),
    {
        if self.batch {
            no_events()
        } else {
            events
        }
    }

    fn failed_event(&self, error: String) -> (event: DownloadEvent)
        requires
            self.next < self.tracks.len(),
        ensures
            event@ == refresh_failed_event(self@, error@),
    {
        let t = &self.tracks[self.next];
        assert(self.tracks.deep_view()[self.next as int] == t@);
        DownloadEvent::RefreshFailed {
            id: self.id,
            artist: t.artist.clone(),
            title: t.title.clone(),
            error,
        }
    }

    /// Takes what came of the work that the last step asked for, and makes
    /// the next step.
    pub fn step(&mut self, journal: &mut ErrorLogManager, outcome: Outcome) -> (step: Step)
        requires
            refresh_wf(old(self)@),
            refresh_expects(old(self)@, outcome@),
        ensures
            refresh_step_is(final(self)@, step, refresh_step(old(self)@, outcome@)),
            refresh_journal_followed(
                *old(journal),
                *final(journal),
                refresh_step(old(self)@, outcome@).failure,
            ),
            refresh_wf(final(self)@),
    {
        assert(self.tracks.deep_view().len() == self.tracks.len());
        assert(self.tracks.deep_view()[self.next as int] == self.tracks@[self.next as int]@);
        let id = self.id;
        match self.stage {
            RefreshStage::Searching => match outcome {
                Outcome::MetadataFound { metadata } => {
                    let url = copy_opt(&metadata.cover_url);
                    let dest = with_file_name(
                        self.tracks[self.next].input_path.as_str(),
                        "temp_cover.jpg",
                    );
                    self.metadata = Some(metadata);
                    match url {
                        Some(url) => {
                            self.stage = RefreshStage::FetchingCover;
                            Step { events: no_events(), action: Action::FetchCover { url, dest } }
                        },
                        None => self.tag(no_events(), None),
                    }
                },
                Outcome::MetadataMissing => {
                    let t = &self.tracks[self.next];
                    let mut events = no_events();
                    add_event(
                        &mut events,
                        log_event(id, not_in_catalog(t.artist.as_str(), t.title.as_str())),
                    );
                    let mut events = self.single_only(events);
                    add_event(
                        &mut events,
                        self.failed_event(String::from_str("Track not found on Spotify")),
                    );
                    self.record(journal, String::from_str("Track not found on Spotify"));
                    self.over(events)
                },
                Outcome::Failed { reason } => {
                    let mut events = no_events();
                    add_event(&mut events, log_event(id, search_failure(reason.as_str())));
                    let mut events = self.single_only(events);
                    self.record(journal, search_failure(reason.as_str()));
                    add_event(&mut events, self.failed_event(reason));
                    self.over(events)
                },
                _ => self.end(no_events()),
            },
            RefreshStage::FetchingCover => match outcome {
                Outcome::CoverFailed { failure } => {
                    let mut events = no_events();
                    add_event(&mut events, log_event(id, cover_failure_line(&failure)));
                    self.tag(events, None)
                },
                _ => {
                    let dest = with_file_name(
                        self.tracks[self.next].input_path.as_str(),
                        "temp_cover.jpg",
                    );
                    self.tag(no_events(), Some(dest))
                },
            },
            RefreshStage::Tagging => match outcome {
                Outcome::Failed { reason } => {
                    let mut events = no_events();
                    if self.batch {
                        self.record(journal, String::from_str("Failed to apply metadata"));
                        add_event(
                            &mut events,
                            self.failed_event(String::from_str("Failed to apply metadata")),
                        );
                    } else {
                        self.record(journal, metadata_failure(reason.as_str()));
                        add_event(&mut events, log_event(id, metadata_failure(reason.as_str())));
                        add_event(&mut events, self.failed_event(reason));
                    }
                    self.after_tag(events)
                },
                _ => {
                    let t = &self.tracks[self.next];
                    let mut events = no_events();
                    add_event(
                        &mut events,
                        log_event(id, String::from_str("Metadata refreshed successfully")),
                    );
                    let mut events = self.single_only(events);
                    add_event(
                        &mut events,
                        DownloadEvent::RefreshComplete {
                            id,
                            artist: t.artist.clone(),
                            title: t.title.clone(),
                        },
                    );
                    if self.batch {
                        self.successful = self.successful + 1;
                    }
                    self.after_tag(events)
                },
            },
            RefreshStage::Removing => self.over(no_events()),
            RefreshStage::Done => self.end(no_events()),
        }
    }
}

} // verus!
