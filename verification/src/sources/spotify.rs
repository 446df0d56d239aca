//! The streaming catalog: links, and its answers as plain data.

use crate::error_log::entries::{clone_opt, opt_text};
use crate::text::{
    before_char, chars_of, contains_text, find_text, lemma_position_of, occurs_at, position_of, take_until,
};
use vstd::prelude::*;
use vstd::string::StringExecFns;

verus! {

/// The first of `names`, or `fallback` where there is none.
pub open spec fn first_or(names: Seq<Seq<char>>, fallback: Seq<char>) -> Seq<char> {
    if names.len() > 0 {
        names[0]
    } else {
        fallback
    }
}

pub fn first_name_or(names: &Vec<String>, fallback: &str) -> (name: String)
    ensures
        name@ == first_or(names.deep_view(), fallback@),
{
    if names.len() > 0 {
        assert(names.deep_view()[0] == names@[0]@);
        names[0].clone()
    } else {
        String::from_str(fallback)
    }
}

/// A copy of `names`.
pub fn copy_names(names: &Vec<String>) -> (copy: Vec<String>)
    ensures
        copy.deep_view() == names.deep_view(),
{
    let mut copy: Vec<String> = Vec::new();
    let mut i: usize = 0;
    while i < names.len()
        invariant
            i <= names.len(),
            copy.len() == i,
            forall|k: int| 0 <= k < i ==> (#[trigger] copy@[k])@ == names@[k]@,
        decreases names.len() - i,
    {
        copy.push(names[i].clone());
        i += 1;
    }
    assert(copy.deep_view() =~= names.deep_view());
    copy
}

/// Metadata that the catalog holds for one track.
#[derive(Debug)]
pub struct TrackMetadata {
    pub artist: String,
    pub album: String,
    pub title: String,
    pub track_number: u32,
    pub genre: Option<String>,
    pub cover_url: Option<String>,
}

pub struct TrackMetadataView {
    pub artist: Seq<char>,
    pub album: Seq<char>,
    pub title: Seq<char>,
    pub track_number: u32,
    pub genre: Option<Seq<char>>,
    pub cover_url: Option<Seq<char>>,
}

impl View for TrackMetadata {
    type V = TrackMetadataView;

    open spec fn view(&self) -> TrackMetadataView {
        TrackMetadataView {
            artist: self.artist@,
            album: self.album@,
            title: self.title@,
            track_number: self.track_number,
            genre: opt_text(self.genre),
            cover_url: opt_text(self.cover_url),
        }
    }
}

impl DeepView for TrackMetadata {
    type V = TrackMetadataView;

    open spec fn deep_view(&self) -> TrackMetadataView {
        self@
    }
}

impl Clone for TrackMetadata {
    fn clone(&self) -> (copy: TrackMetadata)
        ensures
            copy@ == self@,
    {
        TrackMetadata {
            artist: self.artist.clone(),
            album: self.album.clone(),
            title: self.title.clone(),
            track_number: self.track_number,
            genre: clone_opt(&self.genre),
            cover_url: clone_opt(&self.cover_url),
        }
    }
}

/// One track of an album as the catalog lists it.
#[derive(Debug)]
pub struct AlbumTrack {
    pub name: String,
    pub artists: Vec<String>,
}

pub struct AlbumTrackView {
    pub name: Seq<char>,
    pub artists: Seq<Seq<char>>,
}

impl View for AlbumTrack {
    type V = AlbumTrackView;

    open spec fn view(&self) -> AlbumTrackView {
        AlbumTrackView { name: self.name@, artists: self.artists.deep_view() }
    }
}

impl DeepView for AlbumTrack {
    type V = AlbumTrackView;

    open spec fn deep_view(&self) -> AlbumTrackView {
        self@
    }
}

/// An album as the catalog describes it, with all of its tracks.
#[derive(Debug)]
pub struct Album {
    pub name: String,
    pub artists: Vec<String>,
    pub tracks: Vec<AlbumTrack>,
    /// Where the first of its cover images can be fetched.
    pub cover_url: Option<String>,
    pub genre: Option<String>,
}

pub struct AlbumView {
    pub name: Seq<char>,
    pub artists: Seq<Seq<char>>,
    pub tracks: Seq<AlbumTrackView>,
    pub cover_url: Option<Seq<char>>,
    pub genre: Option<Seq<char>>,
}

impl View for Album {
    type V = AlbumView;

    open spec fn view(&self) -> AlbumView {
        AlbumView {
            name: self.name@,
            artists: self.artists.deep_view(),
            tracks: self.tracks.deep_view(),
            cover_url: opt_text(self.cover_url),
            genre: opt_text(self.genre),
        }
    }
}

impl DeepView for Album {
    type V = AlbumView;

    open spec fn deep_view(&self) -> AlbumView {
        self@
    }
}

/// A track of a playlist as the catalog lists it.
#[derive(Debug)]
pub struct PlaylistTrack {
    pub name: String,
    pub artists: Vec<String>,
    pub album: String,
    pub track_number: u32,
}

pub struct PlaylistTrackView {
    pub name: Seq<char>,
    pub artists: Seq<Seq<char>>,
    pub album: Seq<char>,
    pub track_number: u32,
}

impl View for PlaylistTrack {
    type V = PlaylistTrackView;

    open spec fn view(&self) -> PlaylistTrackView {
        PlaylistTrackView {
            name: self.name@,
            artists: self.artists.deep_view(),
            album: self.album@,
            track_number: self.track_number,
        }
    }
}

impl DeepView for PlaylistTrack {
    type V = PlaylistTrackView;

    open spec fn deep_view(&self) -> PlaylistTrackView {
        self@
    }
}

/// One item of a playlist: a track, or something that is none (an episode,
/// or an item that is no longer available).
#[derive(Debug)]
pub struct PlaylistItem {
    pub track: Option<PlaylistTrack>,
}

impl View for PlaylistItem {
    type V = Option<PlaylistTrackView>;

    open spec fn view(&self) -> Option<PlaylistTrackView> {
        self.track.deep_view()
    }
}

impl DeepView for PlaylistItem {
    type V = Option<PlaylistTrackView>;

    open spec fn deep_view(&self) -> Option<PlaylistTrackView> {
        self@
    }
}

/// A playlist in brief: its name, and the titles and artists of its
/// tracks.
#[derive(Debug)]
pub struct Playlist {
    pub name: String,
    pub tracks: Vec<String>,
    pub artist: Vec<String>,
}

/// The titles of the tracks among `items`, in order.
pub open spec fn track_titles(items: Seq<Option<PlaylistTrackView>>) -> Seq<Seq<char>>
    decreases items.len(),
{
    if items.len() == 0 {
        Seq::empty()
    } else {
        match items.last() {
            Some(t) => track_titles(items.drop_last()).push(t.name),
            None => track_titles(items.drop_last()),
        }
    }
}

/// The first artists of the tracks among `items`, in order.
pub open spec fn track_artists(items: Seq<Option<PlaylistTrackView>>, fallback: Seq<char>) -> Seq<
    Seq<char>,
>
    decreases items.len(),
{
    if items.len() == 0 {
        Seq::empty()
    } else {
        match items.last() {
            Some(t) => track_artists(items.drop_last(), fallback).push(
                first_or(t.artists, fallback),
            ),
            None => track_artists(items.drop_last(), fallback),
        }
    }
}

impl Playlist {
    /// The brief form of a playlist with the name `name` and the items
    /// `items`; what is no track is left out.
    pub fn summary(name: &str, items: &Vec<PlaylistItem>) -> (playlist: Playlist)
        ensures
            playlist.name@ == name@,
            playlist.tracks.deep_view() == track_titles(items.deep_view()),
            playlist.artist.deep_view() == track_artists(items.deep_view(), "Unknown Artist"@),
    {
        let mut tracks: Vec<String> = Vec::new();
        let mut artist: Vec<String> = Vec::new();
        let ghost all = items.deep_view();
        let mut i: usize = 0;
        assert(tracks.deep_view() =~= track_titles(all.take(0)));
        assert(artist.deep_view() =~= track_artists(all.take(0), "Unknown Artist"@));
        while i < items.len()
            invariant
                i <= items.len(),
                all == items.deep_view(),
                tracks.deep_view() == track_titles(all.take(i as int)),
                artist.deep_view() == track_artists(all.take(i as int), "Unknown Artist"@),
            decreases items.len() - i,
        {
            proof {
                assert(all.take(i + 1).drop_last() =~= all.take(i as int));
                assert(all.take(i + 1).last() == items@[i as int]@);
            }
            match &items[i].track {
                Some(t) => {
                    let ghost before_t = tracks.deep_view();
                    let ghost before_a = artist.deep_view();
                    let title = t.name.clone();
                    let first = first_name_or(&t.artists, "Unknown Artist");
                    tracks.push(title);
                    artist.push(first);
                    assert(tracks.deep_view() =~= before_t.push(title@));
                    assert(artist.deep_view() =~= before_a.push(first@));
                },
                None => {},
            }
            i += 1;
        }
        assert(all.take(all.len() as int) =~= all);
        Playlist { name: String::from_str(name), tracks, artist }
    }
}

/// The text that says that `link` holds no identifier of the kind `kind`.
pub open spec fn no_id_text(link: Seq<char>, kind: Seq<char>) -> Seq<char> {
    "Could not extract "@ + kind + " ID from link: "@ + link
}

/// What is read off `link` as the identifier of an album or a playlist. In
/// a link to the catalog it is what follows the first `/kind/`, up to the
/// next `?`; a text that does not name the catalog is the identifier
/// itself.
pub open spec fn id_in_link(link: Seq<char>, kind: Seq<char>) -> Result<Seq<char>, Seq<char>> {
    let pattern = "/"@ + kind + "/"@;
    if !contains_text(link, "spotify.com"@) {
        Ok(link)
    } else if !contains_text(link, pattern) {
        Err(no_id_text(link, kind))
    } else {
        Ok(before_char(link.skip(position_of(link, pattern) + pattern.len()), '?'))
    }
}

/// Reads the identifier of an album or a playlist off `link`.
pub fn extract_id(link: &str, kind: &str) -> (id: Result<String, String>)
    ensures
        match id {
            Ok(found) => id_in_link(link@, kind@) == Ok::<Seq<char>, Seq<char>>(found@),
            Err(text) => id_in_link(link@, kind@) == Err::<Seq<char>, Seq<char>>(text@),
        },
{
    let l = chars_of(link);
    let host = chars_of("spotify.com");
    if find_text(&l, &host).is_none() {
        return Ok(String::from_str(link));
    }
    let mut pattern = String::from_str("/");
    pattern.append(kind);
    pattern.append("/");
    let pat = chars_of(pattern.as_str());
    match find_text(&l, &pat) {
        Some(at) => {
            proof {
                lemma_position_of(l@, pat@, at as int);
                assert(occurs_at(l@, pat@, at as int));
                assert(at + pat@.len() <= l@.len());
                assert(l@.len() == l.len() && pat@.len() == pat.len());
            }
            Ok(take_until(&l, at + pat.len(), '?'))
        },
        None => {
            let mut text = String::from_str("Could not extract ");
            text.append(kind);
            text.append(" ID from link: ");
            text.append(link);
            Err(text)
        },
    }
}

/// The query that finds a track by artist and title.
pub fn search_query(artist: &str, title: &str) -> (query: String)
    ensures
        query@ == "artist:"@ + artist@ + " track:"@ + title@,
{
    let mut query = String::from_str("artist:");
    query.append(artist);
    query.append(" track:");
    query.append(title);
    query
}

} // verus!
