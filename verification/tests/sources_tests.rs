use rustwav::downloader::{download_arguments, download_failure, output_line, quality_to_ytdlp};
use rustwav::sources::spotify::{extract_id, search_query, Playlist, PlaylistItem, PlaylistTrack};
use rustwav::sources::youtube::{
    draft_from_entries, draft_from_info, extract_playlist_id, finish_playlist, is_youtube_playlist,
    is_youtube_url, listing_failure, PlaylistDraft, PlaylistEntry, PlaylistInfo,
};

#[test]
fn links_to_the_video_site_are_recognised() {
    assert!(is_youtube_url("https://www.youtube.com/watch?v=abc"));
    assert!(is_youtube_url("https://youtu.be/abc"));
    assert!(!is_youtube_url("https://open.spotify.com/album/abc"));
    assert!(is_youtube_playlist("https://www.youtube.com/playlist?list=PL123"));
    assert!(is_youtube_playlist("https://www.youtube.com/watch?v=abc&list=PL123"));
    assert!(!is_youtube_playlist("https://www.youtube.com/watch?v=abc"));
    assert!(!is_youtube_playlist("https://example.com/playlist?list=PL123"));
}

#[test]
fn the_playlist_identifier_stands_behind_list() {
    assert_eq!(
        extract_playlist_id("https://www.youtube.com/playlist?list=PL123"),
        Some("PL123".to_string())
    );
    assert_eq!(
        extract_playlist_id("https://www.youtube.com/watch?v=abc&list=PL123&index=2"),
        Some("PL123".to_string())
    );
    assert_eq!(extract_playlist_id("https://www.youtube.com/watch?v=abc"), None);
    assert_eq!(extract_playlist_id("list="), Some("".to_string()));
    assert_eq!(extract_playlist_id("a?list=one&list=two"), Some("one".to_string()));
}

#[test]
fn the_catalog_identifier_is_read_off_a_link() {
    assert_eq!(
        extract_id("https://open.spotify.com/album/abc123?si=xyz", "album"),
        Ok("abc123".to_string())
    );
    assert_eq!(extract_id("https://open.spotify.com/playlist/p1", "playlist"), Ok("p1".to_string()));
    assert_eq!(extract_id("abc123", "album"), Ok("abc123".to_string()));
    assert_eq!(
        extract_id("https://open.spotify.com/playlist/p1", "album"),
        Err("Could not extract album ID from link: https://open.spotify.com/playlist/p1".to_string())
    );
    assert_eq!(extract_id("https://open.spotify.com/album/", "album"), Ok("".to_string()));
    assert_eq!(search_query("Air", "Sexy Boy"), "artist:Air track:Sexy Boy");
}

fn entry(title: Option<&str>, uploader: Option<&str>, channel: Option<&str>, url: Option<&str>, page: Option<&str>) -> PlaylistEntry {
    PlaylistEntry {
        title: title.map(|s| s.to_string()),
        uploader: uploader.map(|s| s.to_string()),
        channel: channel.map(|s| s.to_string()),
        url: url.map(|s| s.to_string()),
        webpage_url: page.map(|s| s.to_string()),
        duration: Some(61),
    }
}

#[test]
fn entries_become_tracks_unless_they_cannot_be_fetched() {
    let draft = draft_from_entries(&vec![
        entry(Some("One"), None, Some("Chan"), Some("u1"), None),
        entry(None, None, None, None, None),
        entry(None, Some("Up"), Some("Chan"), Some("u2"), Some("w2")),
        entry(Some("Three"), None, None, Some(""), None),
        entry(Some("Four"), None, None, None, Some("w4")),
    ]);
    assert_eq!(draft.title, "");
    assert_eq!(draft.uploader, "Chan");
    let seen: Vec<(String, String, String)> =
        draft.tracks.iter().map(|t| (t.title.clone(), t.artist.clone(), t.url.clone())).collect();
    assert_eq!(
        seen,
        vec![
            ("One".to_string(), "Chan".to_string(), "u1".to_string()),
            ("Unknown Title".to_string(), "Up".to_string(), "w2".to_string()),
            ("Four".to_string(), "Unknown Artist".to_string(), "w4".to_string()),
        ]
    );
    assert_eq!(draft.tracks[0].duration, Some(61));
    let playlist = finish_playlist(draft).unwrap();
    assert_eq!(playlist.title, "YouTube Playlist (3 tracks)");
    assert_eq!(playlist.uploader, "Chan");
    assert_eq!(playlist.tracks.len(), 3);
}

#[test]
fn a_playlist_in_one_piece_lends_its_uploader_to_its_entries() {
    let draft = draft_from_info(&PlaylistInfo {
        title: Some("Mix".to_string()),
        uploader: None,
        channel: Some("Chan".to_string()),
        entries: Some(vec![entry(Some("One"), None, None, Some("u1"), None)]),
    });
    assert_eq!(draft.title, "Mix");
    assert_eq!(draft.uploader, "Chan");
    assert_eq!(draft.tracks[0].artist, "Chan");
    assert_eq!(finish_playlist(draft).unwrap().title, "Mix");
    let bare = draft_from_info(&PlaylistInfo { title: None, uploader: None, channel: None, entries: None });
    assert_eq!(bare.title, "YouTube Playlist");
    assert_eq!(bare.uploader, "Unknown");
    assert_eq!(
        finish_playlist(bare).err(),
        Some("No tracks found in playlist. Is the URL correct?".to_string())
    );
    let none = PlaylistDraft { title: String::new(), uploader: String::new(), tracks: vec![] };
    assert!(finish_playlist(none).is_err());
    assert_eq!(listing_failure("ERROR: private"), "yt-dlp failed: ERROR: private");
}

#[test]
fn a_playlist_in_brief_lists_titles_and_first_artists() {
    let p = Playlist::summary(
        "Road Trip",
        &vec![
            PlaylistItem {
                track: Some(PlaylistTrack {
                    name: "A".to_string(),
                    artists: vec!["X".to_string(), "Y".to_string()],
                    album: "L".to_string(),
                    track_number: 1,
                }),
            },
            PlaylistItem { track: None },
            PlaylistItem {
                track: Some(PlaylistTrack {
                    name: "B".to_string(),
                    artists: vec![],
                    album: "L".to_string(),
                    track_number: 2,
                }),
            },
        ],
    );
    assert_eq!(p.name, "Road Trip");
    assert_eq!(p.tracks, vec!["A", "B"]);
    assert_eq!(p.artist, vec!["X", "Unknown Artist"]);
}

#[test]
fn the_downloader_is_asked_for_a_search_in_a_format_and_quality() {
    assert_eq!(quality_to_ytdlp("high"), "0");
    assert_eq!(quality_to_ytdlp("medium"), "5");
    assert_eq!(quality_to_ytdlp("low"), "9");
    assert_eq!(quality_to_ytdlp("anything"), "0");
    assert_eq!(
        download_arguments("Air Sexy Boy", "music/Air/Air - Sexy Boy.flac", "mp3", "medium"),
        vec![
            "-x",
            "--no-playlist",
            "--audio-format",
            "mp3",
            "--audio-quality",
            "5",
            "--newline",
            "--progress",
            "-o",
            "music/Air/Air - Sexy Boy.mp3",
            "ytsearch1:Air Sexy Boy",
        ]
    );
    assert_eq!(download_failure("Air Sexy Boy"), "yt-dlp failed for query: Air Sexy Boy");
}

#[test]
fn lines_of_the_downloader_are_trimmed_and_empty_ones_dropped() {
    assert_eq!(output_line("  [download]  42%  \r\n"), Some("[download]  42%".to_string()));
    assert_eq!(output_line("\u{a0}\u{3000}text\u{2003}"), Some("text".to_string()));
    assert_eq!(output_line(" \t \n"), None);
    assert_eq!(output_line(""), None);
    assert_eq!(output_line("\u{200b}"), Some("\u{200b}".to_string()), "a zero-width space is no white space");
}
