//! The video-sharing site: links, and what its playlists hold.

use crate::error_log::entries::{clone_opt, opt_text};
use crate::text::{
    before_char, chars_of, contains, contains_text, decimal, decimal_of, find_text,
    lemma_position_of, occurs_at, position_of, take_until,
};
use vstd::prelude::*;
use vstd::string::StringExecFns;

verus! {

/// A track of a playlist of the site.
#[derive(Debug)]
pub struct YouTubeTrack {
    pub title: String,
    pub artist: String,
    pub url: String,
    /// The length of the track in whole seconds.
    pub duration: Option<u64>,
}

pub struct YouTubeTrackView {
    pub title: Seq<char>,
    pub artist: Seq<char>,
    pub url: Seq<char>,
    pub duration: Option<u64>,
}

impl View for YouTubeTrack {
    type V = YouTubeTrackView;

    open spec fn view(&self) -> YouTubeTrackView {
        YouTubeTrackView {
            title: self.title@,
            artist: self.artist@,
            url: self.url@,
            duration: self.duration,
        }
    }
}

impl DeepView for YouTubeTrack {
    type V = YouTubeTrackView;

    open spec fn deep_view(&self) -> YouTubeTrackView {
        self@
    }
}

/// A playlist of the site with its tracks.
#[derive(Debug)]
pub struct YouTubePlaylist {
    pub title: String,
    pub uploader: String,
    pub tracks: Vec<YouTubeTrack>,
}

pub struct YouTubePlaylistView {
    pub title: Seq<char>,
    pub uploader: Seq<char>,
    pub tracks: Seq<YouTubeTrackView>,
}

impl View for YouTubePlaylist {
    type V = YouTubePlaylistView;

    open spec fn view(&self) -> YouTubePlaylistView {
        YouTubePlaylistView {
            title: self.title@,
            uploader: self.uploader@,
            tracks: self.tracks.deep_view(),
        }
    }
}

impl DeepView for YouTubePlaylist {
    type V = YouTubePlaylistView;

    open spec fn deep_view(&self) -> YouTubePlaylistView {
        self@
    }
}

/// Whether `url` names the site.
pub open spec fn names_site(url: Seq<char>) -> bool {
    contains_text(url, "youtube.com"@) || contains_text(url, "youtu.be"@)
}

/// Whether `url` names a playlist of the site.
pub open spec fn names_playlist(url: Seq<char>) -> bool {
    names_site(url) && (contains_text(url, "playlist?list="@) || contains_text(url, "&list="@))
}

/// Check if a URL is a URL of the site.
pub fn is_youtube_url(url: &str) -> (yes: bool)
    ensures
        yes == names_site(url@),
{
    contains(url, "youtube.com") || contains(url, "youtu.be")
}

/// Check if a URL is a playlist URL of the site.
pub fn is_youtube_playlist(url: &str) -> (yes: bool)
    ensures
        yes == names_playlist(url@),
{
    is_youtube_url(url) && (contains(url, "playlist?list=") || contains(url, "&list="))
}

/// The playlist identifier in `url`: what follows the first `list=`, up to
/// the next `&`.
pub open spec fn playlist_id_in(url: Seq<char>) -> Option<Seq<char>> {
    if contains_text(url, "list="@) {
        Some(before_char(url.skip(position_of(url, "list="@) + "list="@.len()), '&'))
    } else {
        None
    }
}

/// Extract the playlist identifier from a playlist URL.
pub fn extract_playlist_id(url: &str) -> (id: Option<String>)
    ensures
        match id {
            Some(found) => playlist_id_in(url@) == Some(found@),
            None => playlist_id_in(url@) is None,
        },
{
    let u = chars_of(url);
    let key = chars_of("list=");
    match find_text(&u, &key) {
        Some(at) => {
            proof {
                lemma_position_of(u@, key@, at as int);
                assert(occurs_at(u@, key@, at as int));
                assert(at + key@.len() <= u@.len());
                assert(u@.len() == u.len() && key@.len() == key.len());
            }
            Some(take_until(&u, at + key.len(), '&'))
        },
        None => None,
    }
}

/// One entry of a playlist as the downloader describes it; every field may
/// be missing.
#[derive(Debug)]
pub struct PlaylistEntry {
    pub title: Option<String>,
    pub uploader: Option<String>,
    pub channel: Option<String>,
    pub url: Option<String>,
    pub webpage_url: Option<String>,
    pub duration: Option<u64>,
}

pub struct PlaylistEntryView {
    pub title: Option<Seq<char>>,
    pub uploader: Option<Seq<char>>,
    pub channel: Option<Seq<char>>,
    pub url: Option<Seq<char>>,
    pub webpage_url: Option<Seq<char>>,
    pub duration: Option<u64>,
}

impl View for PlaylistEntry {
    type V = PlaylistEntryView;

    open spec fn view(&self) -> PlaylistEntryView {
        PlaylistEntryView {
            title: opt_text(self.title),
            uploader: opt_text(self.uploader),
            channel: opt_text(self.channel),
            url: opt_text(self.url),
            webpage_url: opt_text(self.webpage_url),
            duration: self.duration,
        }
    }
}

impl DeepView for PlaylistEntry {
    type V = PlaylistEntryView;

    open spec fn deep_view(&self) -> PlaylistEntryView {
        self@
    }
}

/// A whole playlist as the downloader describes it in one piece.
#[derive(Debug)]
pub struct PlaylistInfo {
    pub title: Option<String>,
    pub uploader: Option<String>,
    pub channel: Option<String>,
    pub entries: Option<Vec<PlaylistEntry>>,
}

/// The first of two optional texts that is there.
pub open spec fn either(a: Option<Seq<char>>, b: Option<Seq<char>>) -> Option<Seq<char>> {
    if a is Some {
        a
    } else {
        b
    }
}

/// An optional text, or `fallback` where it is missing.
pub open spec fn text_or(a: Option<Seq<char>>, fallback: Seq<char>) -> Seq<char> {
    match a {
        Some(t) => t,
        None => fallback,
    }
}

fn pick(a: &Option<String>, b: &Option<String>, fallback: &str) -> (text: String)
    ensures
        text@ == text_or(either(opt_text(*a), opt_text(*b)), fallback@),
{
    match a {
        Some(t) => t.clone(),
        None => match b {
            Some(t) => t.clone(),
            None => String::from_str(fallback),
        },
    }
}

/// Where the entry `e` can be fetched: its page, else its stream, else
/// nowhere (the empty text).
pub open spec fn entry_url(e: PlaylistEntryView) -> Seq<char> {
    text_or(either(e.webpage_url, e.url), Seq::empty())
}

/// The track that the entry `e` describes.
pub open spec fn entry_track(e: PlaylistEntryView, fallback_artist: Seq<char>) -> YouTubeTrackView {
    YouTubeTrackView {
        title: text_or(e.title, "Unknown Title"@),
        artist: text_or(either(e.uploader, e.channel), fallback_artist),
        url: entry_url(e),
        duration: e.duration,
    }
}

/// The tracks that `entries` describe: an entry that cannot be fetched is
/// left out.
pub open spec fn entry_tracks(entries: Seq<PlaylistEntryView>, fallback_artist: Seq<char>) -> Seq<
    YouTubeTrackView,
>
    decreases entries.len(),
{
    if entries.len() == 0 {
        Seq::empty()
    } else {
        let before = entry_tracks(entries.drop_last(), fallback_artist);
        if entry_url(entries.last()).len() == 0 {
            before
        } else {
            before.push(entry_track(entries.last(), fallback_artist))
        }
    }
}

/// The artist of the first of `tracks` that has one; the empty text where
/// none has.
pub open spec fn first_artist(tracks: Seq<YouTubeTrackView>) -> Seq<char>
    decreases tracks.len(),
{
    if tracks.len() == 0 {
        Seq::empty()
    } else if tracks[0].artist.len() > 0 {
        tracks[0].artist
    } else {
        first_artist(tracks.drop_first())
    }
}

/// The tracks that `entries` describe.
pub fn tracks_from_entries(entries: &Vec<PlaylistEntry>, fallback_artist: &str) -> (tracks: Vec<
    YouTubeTrack,
>)
    ensures
        tracks.deep_view() == entry_tracks(entries.deep_view(), fallback_artist@),
{
    let mut tracks: Vec<YouTubeTrack> = Vec::new();
    let ghost all = entries.deep_view();
    let mut i: usize = 0;
    assert(tracks.deep_view() =~= entry_tracks(all.take(0), fallback_artist@));
    while i < entries.len()
        invariant
            i <= entries.len(),
            all == entries.deep_view(),
            tracks.deep_view() == entry_tracks(all.take(i as int), fallback_artist@),
        decreases entries.len() - i,
    {
        proof {
            assert(all.take(i + 1).drop_last() =~= all.take(i as int));
            assert(all.take(i + 1).last() == entries@[i as int]@);
        }
        let e = &entries[i];
        let url = pick(&e.webpage_url, &e.url, "");
        proof {
            reveal_strlit("");
            assert(""@ =~= Seq::<char>::empty());
        }
        if url.as_str().unicode_len() > 0 {
            let ghost before = tracks.deep_view();
            let title = match &e.title {
                Some(t) => t.clone(),
                None => String::from_str("Unknown Title"),
            };
            let track = YouTubeTrack {
                title,
                artist: pick(&e.uploader, &e.channel, fallback_artist),
                url,
                duration: e.duration,
            };
            let ghost tv = track@;
            tracks.push(track);
            assert(tracks.deep_view() =~= before.push(tv));
        }
        i += 1;
    }
    assert(all.take(all.len() as int) =~= all);
    tracks
}

/// The artist of the first of `tracks` that has one.
pub fn first_track_artist(tracks: &Vec<YouTubeTrack>) -> (artist: String)
    ensures
        artist@ == first_artist(tracks.deep_view()),
{
    let ghost all = tracks.deep_view();
    let mut i: usize = 0;
    assert(all.skip(0) =~= all);
    while i < tracks.len()
        invariant
            i <= tracks.len(),
            all == tracks.deep_view(),
            first_artist(all) == first_artist(all.skip(i as int)),
        decreases tracks.len() - i,
    {
        proof {
            assert(all.skip(i as int)[0] == tracks@[i as int]@);
            assert(all.skip(i as int).drop_first() =~= all.skip(i + 1));
        }
        if tracks[i].artist.as_str().unicode_len() > 0 {
            return tracks[i].artist.clone();
        }
        i += 1;
    }
    String::new()
}

/// What was read of a playlist so far.
#[derive(Debug)]
pub struct PlaylistDraft {
    pub title: String,
    pub uploader: String,
    pub tracks: Vec<YouTubeTrack>,
}

impl View for PlaylistDraft {
    type V = YouTubePlaylistView;

    open spec fn view(&self) -> YouTubePlaylistView {
        YouTubePlaylistView {
            title: self.title@,
            uploader: self.uploader@,
            tracks: self.tracks.deep_view(),
        }
    }
}

/// What the entries `entries`, described one by one, give: their tracks,
/// the uploader of the first of them, and no title yet.
pub open spec fn drafted(entries: Seq<PlaylistEntryView>) -> YouTubePlaylistView {
    let tracks = entry_tracks(entries, "Unknown Artist"@);
    YouTubePlaylistView { title: Seq::empty(), uploader: first_artist(tracks), tracks }
}

/// Reads a playlist from entries that were described one by one.
pub fn draft_from_entries(entries: &Vec<PlaylistEntry>) -> (draft: PlaylistDraft)
    ensures
        draft@ == drafted(entries.deep_view()),
{
    let tracks = tracks_from_entries(entries, "Unknown Artist");
    let uploader = first_track_artist(&tracks);
    PlaylistDraft { title: String::new(), uploader, tracks }
}

/// What a playlist described in one piece gives. Its entries take the
/// uploader of the playlist where they name none.
pub open spec fn drafted_from_info(
    title: Option<Seq<char>>,
    uploader: Option<Seq<char>>,
    channel: Option<Seq<char>>,
    entries: Option<Seq<PlaylistEntryView>>,
) -> YouTubePlaylistView {
    let up = text_or(either(uploader, channel), "Unknown"@);
    YouTubePlaylistView {
        title: text_or(title, "YouTube Playlist"@),
        uploader: up,
        tracks: match entries {
            Some(es) => entry_tracks(es, up),
            None => Seq::empty(),
        },
    }
}

/// Reads a playlist that was described in one piece.
pub fn draft_from_info(info: &PlaylistInfo) -> (draft: PlaylistDraft)
    ensures
        draft@ == drafted_from_info(
            opt_text(info.title),
            opt_text(info.uploader),
            opt_text(info.channel),
            info.entries.deep_view(),
        ),
{
    let title = match &info.title {
        Some(t) => t.clone(),
        None => String::from_str("YouTube Playlist"),
    };
    let uploader = pick(&info.uploader, &info.channel, "Unknown");
    let tracks = match &info.entries {
        Some(es) => tracks_from_entries(es, uploader.as_str()),
        None => {
            let none: Vec<YouTubeTrack> = Vec::new();
            assert(none.deep_view() =~= Seq::<YouTubeTrackView>::empty());
            none
        },
    };
    PlaylistDraft { title, uploader, tracks }
}

/// The text that says that a playlist holds no track.
pub open spec fn no_tracks_text() -> Seq<char> {
    "No tracks found in playlist. Is the URL correct?"@
}

/// The playlist that a draft gives: none without tracks; a draft without a
/// title is named after the number of its tracks.
pub open spec fn finished(draft: YouTubePlaylistView) -> Result<YouTubePlaylistView, Seq<char>> {
    if draft.tracks.len() == 0 {
        Err(no_tracks_text())
    } else if draft.title.len() == 0 {
        Ok(
            YouTubePlaylistView {
                title: "YouTube Playlist ("@ + decimal_of(draft.tracks.len()) + " tracks)"@,
                ..draft
            },
        )
    } else {
        Ok(draft)
    }
}

/// Makes the playlist of a draft.
pub fn finish_playlist(draft: PlaylistDraft) -> (playlist: Result<YouTubePlaylist, String>)
    ensures
        match playlist {
            Ok(p) => finished(draft@) == Ok::<YouTubePlaylistView, Seq<char>>(p@),
            Err(text) => finished(draft@) == Err::<YouTubePlaylistView, Seq<char>>(text@),
        },
{
    if draft.tracks.len() == 0 {
        return Err(String::from_str("No tracks found in playlist. Is the URL correct?"));
    }
    let title = if draft.title.as_str().unicode_len() == 0 {
        let mut t = String::from_str("YouTube Playlist (");
        t.append(decimal(draft.tracks.len()).as_str());
        t.append(" tracks)");
        t
    } else {
        draft.title
    };
    Ok(YouTubePlaylist { title, uploader: draft.uploader, tracks: draft.tracks })
}

/// The text that reports a failed run of the downloader on a playlist.
pub fn listing_failure(stderr: &str) -> (text: String)
    ensures
        text@ == "yt-dlp failed: "@ + stderr@,
{
    let mut text = String::from_str("yt-dlp failed: ");
    text.append(stderr);
    text
}

} // verus!
