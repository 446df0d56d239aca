//! Playlist files: which tracks of an album or playlist the library holds.

use crate::db::{TrackEntry, TrackView};
use crate::file_utils::{sanitize_filename, sanitized};
use crate::sources::spotify::{
    first_name_or, first_or, Album, AlbumView, PlaylistItem, PlaylistTrackView,
};
use crate::text::{contains, contains_text, lowercase_of};
use crate::tui::app::LinkType;
use crate::tui::app_messages::{
    catalog_error, catalog_error_text, m3u_created, m3u_created_text, m3u_failed,
    m3u_failed_text, none_in_library, none_in_library_text,
};
use crate::tui::messages::{display_name, display_name_text};
use crate::tui::worker::{DownloadEvent, DownloadEventView};
use vstd::prelude::*;
use vstd::string::StringExecFns;

verus! {

/// What the library holds of the tracks of a link.
#[derive(Debug, PartialEq)]
pub enum M3UCheckResult {
    Error(String),
    AllFound { name: String, paths: Vec<String> },
    SomeMissing { name: String, found: usize, missing: usize, paths: Vec<String> },
    NoneFound { total: usize },
}

pub enum M3UCheckResultView {
    Error(Seq<char>),
    AllFound { name: Seq<char>, paths: Seq<Seq<char>> },
    SomeMissing { name: Seq<char>, found: usize, missing: usize, paths: Seq<Seq<char>> },
    NoneFound { total: usize },
}

impl View for M3UCheckResult {
    type V = M3UCheckResultView;

    open spec fn view(&self) -> M3UCheckResultView {
        match self {
            M3UCheckResult::Error(text) => M3UCheckResultView::Error(text@),
            M3UCheckResult::AllFound { name, paths } => M3UCheckResultView::AllFound {
                name: name@,
                paths: paths.deep_view(),
            },
            M3UCheckResult::SomeMissing { name, found, missing, paths } =>
                M3UCheckResultView::SomeMissing {
                    name: name@,
                    found: *found,
                    missing: *missing,
                    paths: paths.deep_view(),
                },
            M3UCheckResult::NoneFound { total } => M3UCheckResultView::NoneFound { total: *total },
        }
    }
}

/// The kind of link that a playlist file can be made for.
pub open spec fn m3u_kind(link: Seq<char>) -> Option<LinkType> {
    if contains_text(link, "/album/"@) {
        Some(LinkType::Album)
    } else if contains_text(link, "/playlist/"@) {
        Some(LinkType::Playlist)
    } else {
        None
    }
}

/// Says which kind of link `link` is; none for a link that is neither to
/// an album nor to a playlist of the catalog.
pub fn m3u_link_kind(link: &str) -> (kind: Option<LinkType>)
    ensures
        kind == m3u_kind(link@),
{
    if contains(link, "/album/") {
        Some(LinkType::Album)
    } else if contains(link, "/playlist/") {
        Some(LinkType::Playlist)
    } else {
        None
    }
}

/// The text that refuses a link of no known kind.
pub fn invalid_link() -> (result: M3UCheckResult)
    ensures
        result@ == M3UCheckResultView::Error(
            "Error: Invalid Spotify link (must be album or playlist)"@,
        ),
{
    M3UCheckResult::Error(
        String::from_str("Error: Invalid Spotify link (must be album or playlist)"),
    )
}

/// The result for a lookup that failed.
pub fn lookup_error(reason: &str) -> (result: M3UCheckResult)
    ensures
        result@ == M3UCheckResultView::Error(catalog_error_text(reason@)),
{
    M3UCheckResult::Error(catalog_error(reason))
}

/// Artist and title of each track of an album.
pub open spec fn album_pairs_of(album: AlbumView) -> Seq<(Seq<char>, Seq<char>)> {
    let main_artist = first_or(album.artists, "Unknown"@);
    Seq::new(
        album.tracks.len(),
        |i: int| (first_or(album.tracks[i].artists, main_artist), album.tracks[i].name),
    )
}

/// The name of the playlist file of an album.
pub open spec fn album_m3u_name(album: AlbumView) -> Seq<char> {
    display_name_text(first_or(album.artists, "Unknown"@), album.name)
}

/// Artist and title of each track of an album, and the name of its
/// playlist file.
pub fn album_pairs(album: &Album) -> (r: (Vec<(String, String)>, String))
    ensures
        r.0.deep_view() == album_pairs_of(album@),
        r.1@ == album_m3u_name(album@),
{
    let main_artist = first_name_or(&album.artists, "Unknown");
    let mut pairs: Vec<(String, String)> = Vec::new();
    let mut i: usize = 0;
    while i < album.tracks.len()
        invariant
            i <= album.tracks.len(),
            pairs.len() == i,
            main_artist@ == first_or(album@.artists, "Unknown"@),
            forall|k: int|
                0 <= k < i ==> (#[trigger] pairs@[k]).deep_view() == (
                    first_or(album@.tracks[k].artists, main_artist@),
                    album@.tracks[k].name,
                ),
        decreases album.tracks.len() - i,
    {
        let t = &album.tracks[i];
        assert(album@.tracks[i as int] == t@);
        pairs.push((first_name_or(&t.artists, main_artist.as_str()), t.name.clone()));
        i += 1;
    }
    assert(pairs.deep_view() =~= album_pairs_of(album@));
    (pairs, display_name(main_artist.as_str(), album.name.as_str()))
}

/// Artist and title of each track among the items of a playlist.
pub open spec fn playlist_pairs_of(items: Seq<Option<PlaylistTrackView>>) -> Seq<
    (Seq<char>, Seq<char>),
>
    decreases items.len(),
{
    if items.len() == 0 {
        Seq::empty()
    } else {
        match items.last() {
            Some(t) => playlist_pairs_of(items.drop_last()).push(
                (first_or(t.artists, "Unknown"@), t.name),
            ),
            None => playlist_pairs_of(items.drop_last()),
        }
    }
}

/// Artist and title of each track among the items of a playlist.
pub fn playlist_pairs(items: &Vec<PlaylistItem>) -> (pairs: Vec<(String, String)>)
    ensures
        pairs.deep_view() == playlist_pairs_of(items.deep_view()),
{
    let ghost all = items.deep_view();
    let mut pairs: Vec<(String, String)> = Vec::new();
    let mut i: usize = 0;
    assert(pairs.deep_view() =~= playlist_pairs_of(all.take(0)));
    while i < items.len()
        invariant
            i <= items.len(),
            all == items.deep_view(),
            pairs.deep_view() == playlist_pairs_of(all.take(i as int)),
        decreases items.len() - i,
    {
        proof {
            assert(all.take(i + 1).drop_last() =~= all.take(i as int));
            assert(all.take(i + 1).last() == items@[i as int]@);
        }
        match &items[i].track {
            Some(t) => {
                let ghost before = pairs.deep_view();
                let pair = (first_name_or(&t.artists, "Unknown"), t.name.clone());
                let ghost pv = pair.deep_view();
                pairs.push(pair);
                assert(pairs.deep_view() =~= before.push(pv));
            },
            None => {},
        }
        i += 1;
    }
    assert(all.take(all.len() as int) =~= all);
    pairs
}

/// Whether the record `e` is a track of this artist and title, whatever
/// the case of the letters.
pub open spec fn same_track(e: TrackView, artist: Seq<char>, title: Seq<char>) -> bool {
    lowercase_of(e.artist) == lowercase_of(artist) && lowercase_of(e.title) == lowercase_of(title)
}

/// The index of the first record of `db` that is a track of this artist
/// and title, or -1.
pub open spec fn first_same(db: Seq<TrackView>, artist: Seq<char>, title: Seq<char>) -> int
    decreases db.len(),
{
    if db.len() == 0 {
        -1
    } else if same_track(db[0], artist, title) {
        0
    } else {
        let later = first_same(db.drop_first(), artist, title);
        if later < 0 {
            -1
        } else {
            later + 1
        }
    }
}

/// The paths of the wanted tracks that `db` holds, in the order of the
/// wanted tracks.
pub open spec fn found_paths(wanted: Seq<(Seq<char>, Seq<char>)>, db: Seq<TrackView>) -> Seq<
    Seq<char>,
>
    decreases wanted.len(),
{
    if wanted.len() == 0 {
        Seq::empty()
    } else {
        let before = found_paths(wanted.drop_last(), db);
        let i = first_same(db, wanted.last().0, wanted.last().1);
        if i < 0 {
            before
        } else {
            before.push(db[i].path)
        }
    }
}

/// What the library holds of the wanted tracks.
pub open spec fn check_result(
    wanted: Seq<(Seq<char>, Seq<char>)>,
    db: Seq<TrackView>,
    name: Seq<char>,
) -> M3UCheckResultView {
    let paths = found_paths(wanted, db);
    if paths.len() == 0 {
        M3UCheckResultView::NoneFound { total: wanted.len() as usize }
    } else if paths.len() == wanted.len() {
        M3UCheckResultView::AllFound { name, paths }
    } else {
        M3UCheckResultView::SomeMissing {
            name,
            found: paths.len() as usize,
            missing: (wanted.len() - paths.len()) as usize,
            paths,
        }
    }
}

proof fn lemma_first_same(
    db: Seq<TrackView>,
    artist: Seq<char>,
    title: Seq<char>,
    i: int,
)
    requires
        0 <= i <= db.len(),
        forall|k: int| 0 <= k < i ==> !same_track(#[trigger] db[k], artist, title),
        i < db.len() ==> same_track(db[i], artist, title),
    ensures
        first_same(db, artist, title) == if i < db.len() {
            i
        } else {
            -1
        },
    decreases i,
{
    if db.len() == 0 {
    } else if i == 0 {
    } else {
        let rest = db.drop_first();
        assert forall|k: int| 0 <= k < i - 1 implies !same_track(
            #[trigger] rest[k],
            artist,
            title,
        ) by {
            assert(rest[k] == db[k + 1]);
        }
        assert(!same_track(db[0], artist, title));
        lemma_first_same(rest, artist, title, i - 1);
    }
}

/// Matches the wanted tracks with the records of the library, whatever
/// the case of the letters.
#[verifier::loop_isolation(false)]
pub fn match_tracks(wanted: &Vec<(String, String)>, db_tracks: &Vec<TrackEntry>, name: String) -> (result:
    M3UCheckResult)
    ensures
        result@ == check_result(wanted.deep_view(), db_tracks.deep_view(), name@),
{
    let ghost w = wanted.deep_view();
    let ghost db = db_tracks.deep_view();
    let mut lowered: Vec<(String, String)> = Vec::new();
    let mut k: usize = 0;
    while k < db_tracks.len()
        invariant
            k <= db_tracks.len(),
            lowered.len() == k,
            forall|m: int|
                0 <= m < k ==> (#[trigger] lowered@[m]).0@ == lowercase_of(db[m].artist)
                    && lowered@[m].1@ == lowercase_of(db[m].title),
        decreases db_tracks.len() - k,
    {
        assert(db[k as int] == db_tracks@[k as int]@);
        lowered.push(
            (
                db_tracks[k].artist.as_str().to_lowercase(),
                db_tracks[k].title.as_str().to_lowercase(),
            ),
        );
        k += 1;
    }
    let mut paths: Vec<String> = Vec::new();
    let mut i: usize = 0;
    assert(paths.deep_view() =~= found_paths(w.take(0), db));
    while i < wanted.len()
        invariant
            i <= wanted.len(),
            paths.deep_view() == found_paths(w.take(i as int), db),
            paths.len() <= i,
        decreases wanted.len() - i,
    {
        proof {
            assert(w.take(i + 1).drop_last() =~= w.take(i as int));
            assert(w.take(i + 1).last() == wanted@[i as int].deep_view());
        }
        let artist = wanted[i].0.as_str().to_lowercase();
        let title = wanted[i].1.as_str().to_lowercase();
        let ghost a = wanted@[i as int].0@;
        let ghost t = wanted@[i as int].1@;
        let mut j: usize = 0;
        let mut hit: Option<usize> = None;
        while j < lowered.len()
            invariant
                j <= lowered.len(),
                hit is None,
                forall|m: int| 0 <= m < j ==> !same_track(#[trigger] db[m], a, t),
            decreases lowered.len() - j,
        {
            if lowered[j].0 == artist && lowered[j].1 == title {
                hit = Some(j);
                break ;
            }
            j += 1;
        }
        match hit {
            Some(h) => {
                proof {
                    lemma_first_same(db, a, t, h as int);
                }
                let ghost before = paths.deep_view();
                assert(db[h as int] == db_tracks@[h as int]@);
                let p = db_tracks[h].path.clone();
                paths.push(p);
                assert(paths.deep_view() =~= before.push(p@));
            },
            None => {
                proof {
                    lemma_first_same(db, a, t, db.len() as int);
                }
            },
        }
        i += 1;
    }
    assert(w.take(w.len() as int) =~= w);
    assert(paths.deep_view().len() == paths.len());
    if paths.len() == 0 {
        M3UCheckResult::NoneFound { total: wanted.len() }
    } else if paths.len() == wanted.len() {
        M3UCheckResult::AllFound { name, paths }
    } else {
        M3UCheckResult::SomeMissing {
            name,
            found: paths.len(),
            missing: wanted.len() - paths.len(),
            paths,
        }
    }
}

/// What is reported of a playlist file with `count` tracks: that it was
/// written, or why it could not be.
pub open spec fn m3u_report(name: Seq<char>, count: nat, outcome: Result<(), Seq<char>>) -> Seq<char> {
    match outcome {
        Ok(_) => m3u_created_text(sanitized(name), count),
        Err(reason) => m3u_failed_text(reason),
    }
}

/// Reports what came of the writing of a playlist file.
pub fn do_generate_m3u(name: &str, count: usize, outcome: Result<(), String>) -> (report: String)
    ensures
        report@ == m3u_report(
            name@,
            count as nat,
            match outcome {
                Ok(_) => Ok(()),
                Err(reason) => Err(reason@),
            },
        ),
{
    match outcome {
        Ok(_) => m3u_created(sanitize_filename(name).as_str(), count),
        Err(reason) => m3u_failed(reason.as_str()),
    }
}

/// The text that reports that the library holds none of `total` tracks.
pub fn none_found_report(total: usize) -> (report: String)
    ensures
        report@ == none_in_library_text(total as nat),
{
    none_in_library(total)
}

} // verus!
