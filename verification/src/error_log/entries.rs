//! The records of the journal, one type for each kind of operation.

use crate::error_log::clock::{fresh_id, now, Timestamp};
use crate::text::text_eq;
use vstd::prelude::*;
use vstd::string::StringExecFns;

verus! {

/// The kinds of operation that the journal keeps apart.
#[derive(Clone, Copy, Debug, PartialEq, Eq, Structural)]
pub enum ErrorType {
    Download,
    Convert,
    Refresh,
}

impl ErrorType {
    /// The name of the file that holds the records of this kind.
    pub open spec fn file_name(self) -> Seq<char> {
        match self {
            ErrorType::Download => "download.json"@,
            ErrorType::Convert => "convert.json"@,
            ErrorType::Refresh => "refresh.json"@,
        }
    }

    /// The name of this kind as a user reads it.
    pub open spec fn title(self) -> Seq<char> {
        match self {
            ErrorType::Download => "Download"@,
            ErrorType::Convert => "Convert"@,
            ErrorType::Refresh => "Refresh"@,
        }
    }

    pub fn filename(&self) -> (name: &'static str)
        ensures
            name@ == self.file_name(),
    {
        match self {
            ErrorType::Download => "download.json",
            ErrorType::Convert => "convert.json",
            ErrorType::Refresh => "refresh.json",
        }
    }

    pub fn display_name(&self) -> (name: &'static str)
        ensures
            name@ == self.title(),
    {
        match self {
            ErrorType::Download => "Download",
            ErrorType::Convert => "Convert",
            ErrorType::Refresh => "Refresh",
        }
    }
}

/// The retry counter after one more failed attempt.
pub open spec fn bumped(count: u32) -> u32 {
    if count < u32::MAX {
        (count + 1) as u32
    } else {
        count
    }
}

fn bump(count: u32) -> (next: u32)
    ensures
        next == bumped(count),
{
    if count < u32::MAX {
        count + 1
    } else {
        count
    }
}

/// What every record of the journal offers: an identifier, the moment of
/// the last failure, and a retry counter.
pub trait Entry: Sized + DeepView {
    spec fn id_of(v: Self::V) -> Seq<char>;

    spec fn stamp_of(v: Self::V) -> Timestamp;

    spec fn retries_of(v: Self::V) -> u32;

    /// The record after an attempt to retry failed at the moment `at`.
    spec fn retried(v: Self::V, at: Timestamp) -> Self::V;

    /// A failed retry keeps the identifier, sets the moment and moves the
    /// counter one up, unless the counter is at its largest value.
    proof fn lemma_retried(v: Self::V, at: Timestamp)
        ensures
            Self::id_of(Self::retried(v, at)) == Self::id_of(v),
            Self::stamp_of(Self::retried(v, at)) == at,
            Self::retries_of(Self::retried(v, at)) == bumped(Self::retries_of(v)),
    ;

    fn has_id(&self, id: &str) -> (same: bool)
        ensures
            same == (Self::id_of(self.deep_view()) == id@),
    ;

    fn stamp(&self) -> (t: Timestamp)
        ensures
            t == Self::stamp_of(self.deep_view()),
    ;

    fn retries(&self) -> (n: u32)
        ensures
            n == Self::retries_of(self.deep_view()),
    ;

    fn retry(&mut self, at: Timestamp)
        ensures
            final(self).deep_view() == Self::retried(old(self).deep_view(), at),
    ;

    fn duplicate(&self) -> (copy: Self)
        ensures
            copy.deep_view() == self.deep_view(),
    ;
}

/// The view of an optional string.
pub open spec fn opt_text(s: Option<String>) -> Option<Seq<char>> {
    match s {
        Some(t) => Some(t@),
        None => None,
    }
}

pub fn clone_opt(s: &Option<String>) -> (copy: Option<String>)
    ensures
        opt_text(copy) == opt_text(*s),
{
    match s {
        Some(t) => Some(t.clone()),
        None => None,
    }
}

/// A failed download: the link of the album or playlist, the settings of
/// the job, and the track where one is known.
#[derive(Debug, PartialEq)]
pub struct DownloadErrorEntry {
    pub id: String,
    pub timestamp: Timestamp,
    pub link: String,
    /// `album`, `playlist` or `youtube_playlist`.
    pub link_type: String,
    pub format: String,
    pub quality: String,
    pub portable: bool,
    pub artist: Option<String>,
    pub title: Option<String>,
    pub error: String,
    pub retry_count: u32,
}

/// What a `DownloadErrorEntry` holds.
pub struct DownloadErrorView {
    pub id: Seq<char>,
    pub timestamp: Timestamp,
    pub link: Seq<char>,
    pub link_type: Seq<char>,
    pub format: Seq<char>,
    pub quality: Seq<char>,
    pub portable: bool,
    pub artist: Option<Seq<char>>,
    pub title: Option<Seq<char>>,
    pub error: Seq<char>,
    pub retry_count: u32,
}

impl View for DownloadErrorEntry {
    type V = DownloadErrorView;

    open spec fn view(&self) -> DownloadErrorView {
        DownloadErrorView {
            id: self.id@,
            timestamp: self.timestamp,
            link: self.link@,
            link_type: self.link_type@,
            format: self.format@,
            quality: self.quality@,
            portable: self.portable,
            artist: opt_text(self.artist),
            title: opt_text(self.title),
            error: self.error@,
            retry_count: self.retry_count,
        }
    }
}

impl DeepView for DownloadErrorEntry {
    type V = DownloadErrorView;

    open spec fn deep_view(&self) -> DownloadErrorView {
        self@
    }
}

impl Clone for DownloadErrorEntry {
    fn clone(&self) -> (copy: DownloadErrorEntry)
        ensures
            copy@ == self@,
    {
        DownloadErrorEntry {
            id: self.id.clone(),
            timestamp: self.timestamp,
            link: self.link.clone(),
            link_type: self.link_type.clone(),
            format: self.format.clone(),
            quality: self.quality.clone(),
            portable: self.portable,
            artist: clone_opt(&self.artist),
            title: clone_opt(&self.title),
            error: self.error.clone(),
            retry_count: self.retry_count,
        }
    }
}

impl DownloadErrorEntry {
    /// A record of a failure that happened just now: with a new identifier,
    /// the current time, and a retry counter of zero.
    pub fn new(
        link: String,
        link_type: String,
        format: String,
        quality: String,
        portable: bool,
        artist: Option<String>,
        title: Option<String>,
        error: String,
    ) -> (entry: DownloadErrorEntry)
        ensures
            entry@ == (DownloadErrorView {
                id: entry@.id,
                timestamp: entry@.timestamp,
                link: link@,
                link_type: link_type@,
                format: format@,
                quality: quality@,
                portable,
                artist: opt_text(artist),
                title: opt_text(title),
                error: error@,
                retry_count: 0,
            }),
    {
        DownloadErrorEntry {
            id: fresh_id(),
            timestamp: now(),
            link,
            link_type,
            format,
            quality,
            portable,
            artist,
            title,
            error,
            retry_count: 0,
        }
    }
}

impl Entry for DownloadErrorEntry {
    open spec fn id_of(v: DownloadErrorView) -> Seq<char> {
        v.id
    }

    open spec fn stamp_of(v: DownloadErrorView) -> Timestamp {
        v.timestamp
    }

    open spec fn retries_of(v: DownloadErrorView) -> u32 {
        v.retry_count
    }

    open spec fn retried(v: DownloadErrorView, at: Timestamp) -> DownloadErrorView {
        DownloadErrorView { timestamp: at, retry_count: bumped(v.retry_count), ..v }
    }

    proof fn lemma_retried(v: DownloadErrorView, at: Timestamp) {
    }

    fn has_id(&self, id: &str) -> (same: bool) {
        text_eq(self.id.as_str(), id)
    }

    fn stamp(&self) -> (t: Timestamp) {
        self.timestamp
    }

    fn retries(&self) -> (n: u32) {
        self.retry_count
    }

    fn retry(&mut self, at: Timestamp) {
        self.retry_count = bump(self.retry_count);
        self.timestamp = at;
    }

    fn duplicate(&self) -> (copy: DownloadErrorEntry) {
        self.clone()
    }
}

/// A failed conversion.
#[derive(Debug, PartialEq)]
pub struct ConvertErrorEntry {
    pub id: String,
    pub timestamp: Timestamp,
    pub input_path: String,
    pub target_format: String,
    pub quality: String,
    pub refresh_metadata: bool,
    pub artist: String,
    pub title: String,
    pub error: String,
    pub retry_count: u32,
}

/// What a `ConvertErrorEntry` holds.
pub struct ConvertErrorView {
    pub id: Seq<char>,
    pub timestamp: Timestamp,
    pub input_path: Seq<char>,
    pub target_format: Seq<char>,
    pub quality: Seq<char>,
    pub refresh_metadata: bool,
    pub artist: Seq<char>,
    pub title: Seq<char>,
    pub error: Seq<char>,
    pub retry_count: u32,
}

impl View for ConvertErrorEntry {
    type V = ConvertErrorView;

    open spec fn view(&self) -> ConvertErrorView {
        ConvertErrorView {
            id: self.id@,
            timestamp: self.timestamp,
            input_path: self.input_path@,
            target_format: self.target_format@,
            quality: self.quality@,
            refresh_metadata: self.refresh_metadata,
            artist: self.artist@,
            title: self.title@,
            error: self.error@,
            retry_count: self.retry_count,
        }
    }
}

impl DeepView for ConvertErrorEntry {
    type V = ConvertErrorView;

    open spec fn deep_view(&self) -> ConvertErrorView {
        self@
    }
}

impl Clone for ConvertErrorEntry {
    fn clone(&self) -> (copy: ConvertErrorEntry)
        ensures
            copy@ == self@,
    {
        ConvertErrorEntry {
            id: self.id.clone(),
            timestamp: self.timestamp,
            input_path: self.input_path.clone(),
            target_format: self.target_format.clone(),
            quality: self.quality.clone(),
            refresh_metadata: self.refresh_metadata,
            artist: self.artist.clone(),
            title: self.title.clone(),
            error: self.error.clone(),
            retry_count: self.retry_count,
        }
    }
}

impl ConvertErrorEntry {
    /// A record of a failure that happened just now: with a new identifier,
    /// the current time, and a retry counter of zero.
    pub fn new(
        input_path: String,
        target_format: String,
        quality: String,
        refresh_metadata: bool,
        artist: String,
        title: String,
        error: String,
    ) -> (entry: ConvertErrorEntry)
        ensures
            entry@ == (ConvertErrorView {
                id: entry@.id,
                timestamp: entry@.timestamp,
                input_path: input_path@,
                target_format: target_format@,
                quality: quality@,
                refresh_metadata,
                artist: artist@,
                title: title@,
                error: error@,
                retry_count: 0,
            }),
    {
        ConvertErrorEntry {
            id: fresh_id(),
            timestamp: now(),
            input_path,
            target_format,
            quality,
            refresh_metadata,
            artist,
            title,
            error,
            retry_count: 0,
        }
    }
}

impl Entry for ConvertErrorEntry {
    open spec fn id_of(v: ConvertErrorView) -> Seq<char> {
        v.id
    }

    open spec fn stamp_of(v: ConvertErrorView) -> Timestamp {
        v.timestamp
    }

    open spec fn retries_of(v: ConvertErrorView) -> u32 {
        v.retry_count
    }

    open spec fn retried(v: ConvertErrorView, at: Timestamp) -> ConvertErrorView {
        ConvertErrorView { timestamp: at, retry_count: bumped(v.retry_count), ..v }
    }

    proof fn lemma_retried(v: ConvertErrorView, at: Timestamp) {
    }

    fn has_id(&self, id: &str) -> (same: bool) {
        text_eq(self.id.as_str(), id)
    }

    fn stamp(&self) -> (t: Timestamp) {
        self.timestamp
    }

    fn retries(&self) -> (n: u32) {
        self.retry_count
    }

    fn retry(&mut self, at: Timestamp) {
        self.retry_count = bump(self.retry_count);
        self.timestamp = at;
    }

    fn duplicate(&self) -> (copy: ConvertErrorEntry) {
        self.clone()
    }
}

/// A failed refresh of a file's metadata.
#[derive(Debug, PartialEq)]
pub struct RefreshErrorEntry {
    pub id: String,
    pub timestamp: Timestamp,
    pub input_path: String,
    pub artist: String,
    pub title: String,
    pub error: String,
    pub retry_count: u32,
}

/// What a `RefreshErrorEntry` holds.
pub struct RefreshErrorView {
    pub id: Seq<char>,
    pub timestamp: Timestamp,
    pub input_path: Seq<char>,
    pub artist: Seq<char>,
    pub title: Seq<char>,
    pub error: Seq<char>,
    pub retry_count: u32,
}

impl View for RefreshErrorEntry {
    type V = RefreshErrorView;

    open spec fn view(&self) -> RefreshErrorView {
        RefreshErrorView {
            id: self.id@,
            timestamp: self.timestamp,
            input_path: self.input_path@,
            artist: self.artist@,
            title: self.title@,
            error: self.error@,
            retry_count: self.retry_count,
        }
    }
}

impl DeepView for RefreshErrorEntry {
    type V = RefreshErrorView;

    open spec fn deep_view(&self) -> RefreshErrorView {
        self@
    }
}

impl Clone for RefreshErrorEntry {
    fn clone(&self) -> (copy: RefreshErrorEntry)
        ensures
            copy@ == self@,
    {
        RefreshErrorEntry {
            id: self.id.clone(),
            timestamp: self.timestamp,
            input_path: self.input_path.clone(),
            artist: self.artist.clone(),
            title: self.title.clone(),
            error: self.error.clone(),
            retry_count: self.retry_count,
        }
    }
}

impl RefreshErrorEntry {
    /// A record of a failure that happened just now: with a new identifier,
    /// the current time, and a retry counter of zero.
    pub fn new(input_path: String, artist: String, title: String, error: String) -> (entry:
        RefreshErrorEntry)
        ensures
            entry@ == (RefreshErrorView {
                id: entry@.id,
                timestamp: entry@.timestamp,
                input_path: input_path@,
                artist: artist@,
                title: title@,
                error: error@,
                retry_count: 0,
            }),
    {
        RefreshErrorEntry {
            id: fresh_id(),
            timestamp: now(),
            input_path,
            artist,
            title,
            error,
            retry_count: 0,
        }
    }
}

impl Entry for RefreshErrorEntry {
    open spec fn id_of(v: RefreshErrorView) -> Seq<char> {
        v.id
    }

    open spec fn stamp_of(v: RefreshErrorView) -> Timestamp {
        v.timestamp
    }

    open spec fn retries_of(v: RefreshErrorView) -> u32 {
        v.retry_count
    }

    open spec fn retried(v: RefreshErrorView, at: Timestamp) -> RefreshErrorView {
        RefreshErrorView { timestamp: at, retry_count: bumped(v.retry_count), ..v }
    }

    proof fn lemma_retried(v: RefreshErrorView, at: Timestamp) {
    }

    fn has_id(&self, id: &str) -> (same: bool) {
        text_eq(self.id.as_str(), id)
    }

    fn stamp(&self) -> (t: Timestamp) {
        self.timestamp
    }

    fn retries(&self) -> (n: u32) {
        self.retry_count
    }

    fn retry(&mut self, at: Timestamp) {
        self.retry_count = bump(self.retry_count);
        self.timestamp = at;
    }

    fn duplicate(&self) -> (copy: RefreshErrorEntry) {
        self.clone()
    }
}

} // verus!
