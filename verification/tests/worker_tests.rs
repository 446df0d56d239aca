use rustwav::db::{DownloadDB, TrackEntry};
use rustwav::error_log::ErrorLogManager;
use rustwav::sources::spotify::{Album, AlbumTrack, PlaylistItem, PlaylistTrack, TrackMetadata};
use rustwav::sources::youtube::{YouTubePlaylist, YouTubeTrack};
use rustwav::tui::download_job::{album_name, format_error_with_hint};
use rustwav::tui::protocol::{Action, CoverFailure, Outcome, Step};
use rustwav::tui::worker::{
    log_line, ConvertTrackInfo, DownloadEvent, DownloadRequest, DownloadWorker, Job,
};

fn worker() -> DownloadWorker {
    DownloadWorker::new(
        "data/music",
        "data/playlists",
        DownloadDB::new("data/cache/downloaded_songs.json"),
        ErrorLogManager::new("data/errors"),
    )
}

fn album() -> Album {
    Album {
        name: "Discovery".to_string(),
        artists: vec!["Daft Punk".to_string()],
        tracks: vec![
            AlbumTrack { name: "One More Time".to_string(), artists: vec!["Daft Punk".to_string()] },
            AlbumTrack { name: "Aerodynamic".to_string(), artists: vec![] },
            AlbumTrack { name: "Digital Love".to_string(), artists: vec!["Daft Punk".to_string()] },
        ],
        cover_url: Some("https://img/cover".to_string()),
        genre: Some("House".to_string()),
    }
}

fn album_request(id: usize) -> DownloadRequest {
    DownloadRequest::Album {
        id,
        link: "https://open.spotify.com/album/abc".to_string(),
        portable: false,
        format: "flac".to_string(),
        quality: "high".to_string(),
    }
}

/// What the outside does for a job; it counts how often each kind of work
/// is asked for.
struct Outside {
    downloads: Vec<String>,
    tags: usize,
    failing_query: Option<String>,
    failing_tag: bool,
    cover_present: bool,
    cover_fails: bool,
    conversion: Result<String, String>,
    metadata: Option<Result<Option<TrackMetadata>, String>>,
    removed: Vec<String>,
    written: Vec<(String, Vec<String>, String)>,
    folders: Vec<Option<String>>,
}

impl Outside {
    fn new() -> Outside {
        Outside {
            downloads: Vec::new(),
            tags: 0,
            failing_query: None,
            failing_tag: false,
            cover_present: false,
            cover_fails: false,
            conversion: Ok("out".to_string()),
            metadata: None,
            removed: Vec::new(),
            written: Vec::new(),
            folders: Vec::new(),
        }
    }

    fn answer(&mut self, action: Action) -> Option<Outcome> {
        Some(match action {
            Action::FetchAlbum { .. } => Outcome::AlbumFetched { album: album() },
            Action::FetchPlaylist { .. } => Outcome::PlaylistFetched { name: "Road Trip".to_string() },
            Action::FetchPlaylistItems { .. } => Outcome::ItemsFetched {
                items: vec![
                    PlaylistItem {
                        track: Some(PlaylistTrack {
                            name: "Song A".to_string(),
                            artists: vec!["Band".to_string()],
                            album: "First".to_string(),
                            track_number: 7,
                        }),
                    },
                    PlaylistItem { track: None },
                    PlaylistItem {
                        track: Some(PlaylistTrack {
                            name: "Song B".to_string(),
                            artists: vec![],
                            album: "Second".to_string(),
                            track_number: 2,
                        }),
                    },
                ],
            },
            Action::FetchYouTubePlaylist { .. } => Outcome::YouTubeFetched {
                playlist: YouTubePlaylist {
                    title: "Mix".to_string(),
                    uploader: "Chan".to_string(),
                    tracks: vec![
                        YouTubeTrack {
                            title: "Vid 1".to_string(),
                            artist: "Chan".to_string(),
                            url: "https://youtu.be/1".to_string(),
                            duration: Some(10),
                        },
                        YouTubeTrack {
                            title: "Vid 2".to_string(),
                            artist: "Other".to_string(),
                            url: "https://youtu.be/2".to_string(),
                            duration: None,
                        },
                    ],
                },
            },
            Action::PrepareFolder { .. } => {
                if self.cover_present {
                    Outcome::CoverPresent
                } else {
                    Outcome::CoverAbsent
                }
            }
            Action::FetchCover { .. } => {
                if self.cover_fails {
                    Outcome::CoverFailed { failure: CoverFailure::Status { status: "404 Not Found".to_string() } }
                } else {
                    Outcome::CoverSaved
                }
            }
            Action::AwaitTurn { folder } => {
                self.folders.push(folder);
                Outcome::Resumed
            }
            Action::Download { query, .. } => {
                self.downloads.push(query.clone());
                if self.failing_query.as_deref() == Some(query.as_str()) {
                    Outcome::Failed { reason: format!("yt-dlp failed for query: {}", query) }
                } else {
                    Outcome::Downloaded
                }
            }
            Action::Tag { .. } => {
                self.tags += 1;
                if self.failing_tag {
                    Outcome::Failed { reason: "disk full".to_string() }
                } else {
                    Outcome::Tagged
                }
            }
            Action::WritePlaylist { name, paths, directory } => {
                self.written.push((name, paths, directory));
                Outcome::Done
            }
            Action::Convert { .. } => match &self.conversion {
                Ok(path) => Outcome::Converted { path: path.clone() },
                Err(reason) => Outcome::Failed { reason: reason.clone() },
            },
            Action::SearchTrack { .. } => match self.metadata.take() {
                Some(Ok(Some(m))) => Outcome::MetadataFound { metadata: m },
                Some(Ok(None)) | None => Outcome::MetadataMissing,
                Some(Err(e)) => Outcome::Failed { reason: e },
            },
            Action::RemoveFile { path } => {
                self.removed.push(path);
                Outcome::Done
            }
            Action::Finish => return None,
        })
    }
}

/// Serves `request` to its end and gives the events in order.
fn serve(worker: &mut DownloadWorker, outside: &mut Outside, request: DownloadRequest) -> Vec<DownloadEvent> {
    let (mut job, mut step) = worker.start(request);
    let mut events = Vec::new();
    loop {
        let Step { events: new, action } = step;
        events.extend(new);
        let outcome = match outside.answer(action) {
            Some(o) => o,
            None => break,
        };
        assert!(job.expects(&outcome));
        let (next, s) = worker.resume(job, outcome);
        job = next;
        step = s;
    }
    assert!(job.is_done());
    events
}

fn started(events: &[DownloadEvent]) -> Vec<(usize, String)> {
    events
        .iter()
        .filter_map(|e| match e {
            DownloadEvent::TrackStarted { track_num, title, .. } => Some((*track_num, title.clone())),
            _ => None,
        })
        .collect()
}

fn log(id: usize, line: &str) -> DownloadEvent {
    DownloadEvent::LogLine { id, line: line.to_string() }
}

#[test]
fn an_album_is_fetched_track_by_track() {
    let mut w = worker();
    let mut o = Outside::new();
    let events = serve(&mut w, &mut o, album_request(1));
    let path = |name: &str| format!("data/music/Daft Punk/Discovery/Daft Punk - {}.flac", name);
    let track = |f: fn(usize, String, String, String) -> DownloadEvent, title: &str| {
        f(1, "Daft Punk".to_string(), title.to_string(), path(title))
    };
    let start = |n: usize, title: &str| DownloadEvent::TrackStarted {
        id: 1,
        artist: "Daft Punk".to_string(),
        title: title.to_string(),
        track_num: n,
    };
    let done = |id, artist, title, path| DownloadEvent::TrackComplete { id, artist, title, path };
    assert_eq!(
        events,
        vec![
            log(1, "Fetching album info from Spotify..."),
            DownloadEvent::MetadataFetched { id: 1, name: "Daft Punk - Discovery".to_string() },
            log(1, "Found: Daft Punk - Discovery (3 tracks, format: flac, quality: high)"),
            DownloadEvent::Started { id: 1, name: "Daft Punk - Discovery".to_string(), total_tracks: 3 },
            log(1, "Downloading cover art..."),
            start(1, "One More Time"),
            track(done, "One More Time"),
            start(2, "Aerodynamic"),
            track(done, "Aerodynamic"),
            start(3, "Digital Love"),
            track(done, "Digital Love"),
            DownloadEvent::Complete { id: 1, name: "Daft Punk - Discovery".to_string() },
        ]
    );
    assert_eq!(
        o.downloads,
        vec!["Daft Punk One More Time", "Daft Punk Aerodynamic", "Daft Punk Digital Love"]
    );
    assert_eq!(o.tags, 3);
    assert_eq!(w.db.len(), 3);
    assert!(w.db.needs_save());
    assert!(w.db.contains(&TrackEntry {
        artist: "Daft Punk".to_string(),
        title: "Aerodynamic".to_string(),
        path: path("Aerodynamic"),
    }));
    assert_eq!(w.error_log.get_total_error_counts(), (0, 0, 0));
    assert_eq!(o.folders, vec![Some("data/music/Daft Punk/Discovery".to_string()); 3]);
    assert!(o.written.is_empty(), "an album writes no playlist file");
}

#[test]
fn tags_carry_number_genre_and_cover() {
    let mut w = worker();
    let (mut job, mut step) = w.start(album_request(1));
    let mut tags = Vec::new();
    let mut o = Outside::new();
    loop {
        if let Action::Tag { .. } = &step.action {
            tags.push(format!("{:?}", step.action));
        }
        let outcome = match o.answer(step.action) {
            Some(x) => x,
            None => break,
        };
        let (next, s) = w.resume(job, outcome);
        job = next;
        step = s;
    }
    assert_eq!(tags.len(), 3);
    assert_eq!(
        tags[1],
        format!(
            "{:?}",
            Action::Tag {
                path: "data/music/Daft Punk/Discovery/Daft Punk - Aerodynamic.flac".to_string(),
                artist: "Daft Punk".to_string(),
                album: "Discovery".to_string(),
                title: "Aerodynamic".to_string(),
                track: 2,
                genre: Some("House".to_string()),
                cover: Some("data/music/Daft Punk/Discovery/cover.jpg".to_string()),
                portable: false,
            }
        )
    );
}

#[test]
fn a_second_run_of_the_same_album_skips_every_track() {
    let mut w = worker();
    let mut first = Outside::new();
    serve(&mut w, &mut first, album_request(1));
    assert_eq!(first.downloads.len(), 3);

    let mut second = Outside::new();
    second.cover_present = true;
    let events = serve(&mut w, &mut second, album_request(2));
    assert!(second.downloads.is_empty(), "nothing is downloaded again");
    assert_eq!(second.tags, 0);
    let skipped: Vec<String> = events
        .iter()
        .filter_map(|e| match e {
            DownloadEvent::TrackSkipped { id: 2, title, .. } => Some(title.clone()),
            _ => None,
        })
        .collect();
    assert_eq!(skipped, vec!["One More Time", "Aerodynamic", "Digital Love"]);
    assert!(started(&events).is_empty());
    assert!(matches!(events.last(), Some(DownloadEvent::Complete { id: 2, .. })));
    assert_eq!(w.db.len(), 3);
}

#[test]
fn a_known_track_is_skipped_and_the_others_are_fetched_in_order() {
    let mut w = worker();
    w.db.add(TrackEntry {
        artist: "Daft Punk".to_string(),
        title: "Aerodynamic".to_string(),
        path: "data/music/Daft Punk/Discovery/Daft Punk - Aerodynamic.flac".to_string(),
    });
    let mut o = Outside::new();
    let events = serve(&mut w, &mut o, album_request(1));
    assert_eq!(o.downloads, vec!["Daft Punk One More Time", "Daft Punk Digital Love"]);
    assert_eq!(
        started(&events),
        vec![(1, "One More Time".to_string()), (3, "Digital Love".to_string())]
    );
    assert!(events.contains(&DownloadEvent::TrackSkipped {
        id: 1,
        artist: "Daft Punk".to_string(),
        title: "Aerodynamic".to_string(),
    }));
}

#[test]
fn a_failed_track_goes_to_the_journal_and_the_job_goes_on() {
    let mut w = worker();
    let mut o = Outside::new();
    o.failing_query = Some("Daft Punk Aerodynamic".to_string());
    let events = serve(&mut w, &mut o, album_request(1));
    assert!(events.contains(&DownloadEvent::TrackFailed {
        id: 1,
        artist: "Daft Punk".to_string(),
        title: "Aerodynamic".to_string(),
        error: "yt-dlp failed for query: Daft Punk Aerodynamic".to_string(),
    }));
    assert_eq!(started(&events).len(), 3, "the tracks after the failure are still begun");
    assert!(matches!(events.last(), Some(DownloadEvent::Complete { .. })));
    assert_eq!(w.db.len(), 2);
    let all = w.error_log.get_all_download_errors();
    assert_eq!(all.len(), 1);
    let e = &all[0].1;
    assert_eq!(e.link, "https://open.spotify.com/album/abc");
    assert_eq!(e.link_type, "album");
    assert_eq!(e.format, "flac");
    assert_eq!(e.quality, "high");
    assert!(!e.portable);
    assert_eq!(e.artist.as_deref(), Some("Daft Punk"));
    assert_eq!(e.title.as_deref(), Some("Aerodynamic"));
    assert_eq!(e.error, "yt-dlp failed for query: Daft Punk Aerodynamic");
    assert_eq!(e.retry_count, 0);
}

#[test]
fn a_track_that_cannot_be_tagged_has_failed() {
    let mut w = worker();
    let mut o = Outside::new();
    o.failing_tag = true;
    let events = serve(&mut w, &mut o, album_request(1));
    assert_eq!(w.db.len(), 0);
    assert_eq!(w.error_log.get_total_error_counts(), (3, 0, 0));
    assert!(events.contains(&DownloadEvent::TrackFailed {
        id: 1,
        artist: "Daft Punk".to_string(),
        title: "One More Time".to_string(),
        error: "Tagging failed: disk full".to_string(),
    }));
}

#[test]
fn a_lookup_that_fails_ends_the_job_before_any_track() {
    let mut w = worker();
    let (job, step) = w.start(album_request(4));
    assert_eq!(step.events, vec![log(4, "Fetching album info from Spotify...")]);
    assert_eq!(step.action, Action::FetchAlbum { link: "https://open.spotify.com/album/abc".to_string() });
    let (job, step) = w.resume(job, Outcome::Failed { reason: "http status: 404 Not Found".to_string() });
    assert!(job.is_done());
    assert_eq!(step.action, Action::Finish);
    let hinted = "http status: 404 Not Found (Hint: Is the album private? Only public albums can be downloaded)";
    assert_eq!(
        step.events,
        vec![DownloadEvent::Error {
            id: 4,
            error: format!("Failed to fetch album (https://open.spotify.com/album/abc): {}", hinted),
        }]
    );
    let all = w.error_log.get_all_download_errors();
    assert_eq!(all.len(), 1);
    assert_eq!(all[0].1.artist, None);
    assert_eq!(all[0].1.title, None);
    assert_eq!(all[0].1.error, format!("Failed to fetch album: {}", hinted));
    assert_eq!(all[0].1.retry_count, 0);
    assert_eq!(w.db.len(), 0);
}

#[test]
fn the_hint_comes_with_failures_that_look_like_a_missing_item() {
    assert_eq!(
        format_error_with_hint("Resource NOT FOUND", "playlist"),
        "Resource NOT FOUND (Hint: Is the playlist private? Only public playlists can be downloaded)"
    );
    assert_eq!(
        format_error_with_hint("error 404", "album"),
        "error 404 (Hint: Is the album private? Only public albums can be downloaded)"
    );
    assert_eq!(format_error_with_hint("timed out", "album"), "timed out");
}

#[test]
fn a_pause_holds_the_job_between_two_tracks() {
    let mut w = worker();
    let mut o = Outside::new();
    let (mut job, mut step) = w.start(album_request(1));
    let mut events = Vec::new();
    let mut paused = false;
    // The job runs until the second track has begun; then the pause is set.
    let waiting = loop {
        events.extend(step.events);
        if started(&events).len() == 2 {
            paused = true;
        }
        if paused {
            if let Action::AwaitTurn { .. } = step.action {
                break step.action;
            }
        }
        let outcome = o.answer(step.action).unwrap();
        let (next, s) = w.resume(job, outcome);
        job = next;
        step = s;
    };
    // While the pause lasts the job waits for its turn, and track 3 has not begun.
    assert_eq!(waiting, Action::AwaitTurn { folder: Some("data/music/Daft Punk/Discovery".to_string()) });
    assert_eq!(started(&events), vec![(1, "One More Time".to_string()), (2, "Aerodynamic".to_string())]);
    assert_eq!(o.downloads.len(), 2);
    // The tracks before the pause ended as they would have without it.
    let completed = events.iter().filter(|e| matches!(e, DownloadEvent::TrackComplete { .. })).count();
    assert_eq!(completed, 2);
    assert!(!job.expects(&Outcome::Downloaded), "only the end of the pause moves the job on");
    assert!(job.expects(&Outcome::Resumed));
    // The pause ends.
    let (mut job, mut step) = w.resume(job, Outcome::Resumed);
    loop {
        events.extend(step.events);
        let outcome = match o.answer(step.action) {
            Some(x) => x,
            None => break,
        };
        let (next, s) = w.resume(job, outcome);
        job = next;
        step = s;
    }
    assert_eq!(started(&events).len(), 3);
    assert_eq!(started(&events)[2], (3, "Digital Love".to_string()));
    assert_eq!(w.db.len(), 3);
}

#[test]
fn a_job_whose_pause_can_never_end_stops_without_a_word() {
    let mut w = worker();
    let mut o = Outside::new();
    let (mut job, mut step) = w.start(album_request(1));
    loop {
        if let Action::AwaitTurn { .. } = step.action {
            break;
        }
        let outcome = o.answer(step.action).unwrap();
        let (next, s) = w.resume(job, outcome);
        job = next;
        step = s;
    }
    let (job, step) = w.resume(job, Outcome::PauseClosed);
    assert!(job.is_done());
    assert!(step.events.is_empty());
    assert_eq!(step.action, Action::Finish);
}

#[test]
fn a_cover_that_cannot_be_fetched_is_reported_and_left_out() {
    let mut w = worker();
    let mut o = Outside::new();
    o.cover_fails = true;
    let events = serve(&mut w, &mut o, album_request(1));
    assert!(events.contains(&log(1, "Cover art download failed: HTTP 404 Not Found")));
    assert_eq!(w.db.len(), 3);
}

#[test]
fn a_portable_job_writes_mp3_into_the_music_folder() {
    let mut w = worker();
    let mut o = Outside::new();
    let events = serve(
        &mut w,
        &mut o,
        DownloadRequest::Album {
            id: 1,
            link: "abc".to_string(),
            portable: true,
            format: "flac".to_string(),
            quality: "low".to_string(),
        },
    );
    assert!(events.contains(&log(1, "Found: Daft Punk - Discovery (3 tracks, format: mp3, quality: low)")));
    assert!(events.contains(&DownloadEvent::TrackComplete {
        id: 1,
        artist: "Daft Punk".to_string(),
        title: "One More Time".to_string(),
        path: "data/music/Daft_Punk_-_One_More_Time.mp3".to_string(),
    }));
    assert_eq!(o.folders[0], Some("data/music".to_string()));
}

#[test]
fn a_playlist_passes_over_what_is_no_track_and_writes_its_file() {
    let mut w = worker();
    let mut o = Outside::new();
    let events = serve(
        &mut w,
        &mut o,
        DownloadRequest::Playlist {
            id: 3,
            link: "https://open.spotify.com/playlist/xyz".to_string(),
            portable: false,
            format: "mp3".to_string(),
            quality: "medium".to_string(),
        },
    );
    assert_eq!(
        events[..5].to_vec(),
        vec![
            log(3, "Fetching playlist info from Spotify..."),
            DownloadEvent::MetadataFetched { id: 3, name: "Road Trip".to_string() },
            log(3, "Fetching tracks for 'Road Trip'..."),
            log(3, "Found: Road Trip (3 tracks, format: mp3, quality: medium)"),
            DownloadEvent::Started { id: 3, name: "Road Trip".to_string(), total_tracks: 3 },
        ]
    );
    assert_eq!(started(&events), vec![(1, "Song A".to_string()), (3, "Song B".to_string())]);
    assert_eq!(o.downloads, vec!["Band Song A", "Unknown Artist Song B"]);
    assert_eq!(
        o.folders,
        vec![
            Some("data/music/Band/First".to_string()),
            None,
            Some("data/music/Unknown Artist/Second".to_string()),
        ]
    );
    assert_eq!(
        o.written,
        vec![(
            "Road Trip".to_string(),
            vec![
                "data/music/Band/First/Band - Song A.mp3".to_string(),
                "data/music/Unknown Artist/Second/Unknown Artist - Song B.mp3".to_string(),
            ],
            "data/playlists".to_string(),
        )]
    );
    assert_eq!(events.last(), Some(&DownloadEvent::Complete { id: 3, name: "Road Trip".to_string() }));
}

#[test]
fn a_playlist_whose_tracks_cannot_be_listed_goes_to_the_journal_without_a_track() {
    let mut w = worker();
    let (job, _) = w.start(DownloadRequest::Playlist {
        id: 3,
        link: "xyz".to_string(),
        portable: false,
        format: "mp3".to_string(),
        quality: "high".to_string(),
    });
    let (job, _) = w.resume(job, Outcome::PlaylistFetched { name: "Road Trip".to_string() });
    let (job, step) = w.resume(job, Outcome::Failed { reason: "rate limited".to_string() });
    assert!(job.is_done());
    assert_eq!(
        step.events,
        vec![DownloadEvent::Error {
            id: 3,
            error: "Failed to fetch playlist tracks for 'Road Trip': rate limited".to_string(),
        }]
    );
    let all = w.error_log.get_all_download_errors();
    assert_eq!(all.len(), 1);
    assert_eq!(all[0].1.title, None);
    assert_eq!(all[0].1.artist, None);
    assert_eq!(all[0].1.error, "Failed to fetch playlist tracks: rate limited");
    assert_eq!(all[0].1.link_type, "playlist");
    assert_eq!(all[0].1.link, "xyz");
    assert_eq!(all[0].1.retry_count, 0);
    assert_eq!(w.db.len(), 0);
}

#[test]
fn a_playlist_of_the_video_site_is_fetched_from_the_addresses_of_its_tracks() {
    let mut w = worker();
    let mut o = Outside::new();
    let events = serve(&mut w, &mut o, video_request(5));
    assert_eq!(o.downloads, vec!["https://youtu.be/1", "https://youtu.be/2"]);
    assert_eq!(events[0], log(5, "Fetching YouTube playlist: https://www.youtube.com/playlist?list=PL1"));
    assert!(events.contains(&log(5, "[2/2] Downloading: Other - Vid 2")));
    assert_eq!(o.tags, 2);
    assert_eq!(w.db.len(), 2);
    assert!(w.db.needs_save());
    assert_eq!(w.error_log.get_total_error_counts(), (0, 0, 0));
    assert_eq!(o.written.len(), 1);
    assert_eq!(o.written[0].1.len(), 2);
    assert_eq!(o.written[0].1[1], "data/music/Other/Mix/Other - Vid 2.mp3");
}

fn video_request(id: usize) -> DownloadRequest {
    DownloadRequest::YouTubePlaylist {
        id,
        link: "https://www.youtube.com/playlist?list=PL1".to_string(),
        portable: false,
        format: "mp3".to_string(),
        quality: "high".to_string(),
    }
}

#[test]
fn a_track_of_the_video_site_that_cannot_be_tagged_has_failed() {
    let mut w = worker();
    let mut o = Outside::new();
    o.failing_tag = true;
    let events = serve(&mut w, &mut o, video_request(5));
    // Each track is downloaded, fails at its tags, and the job goes on.
    assert_eq!(o.downloads, vec!["https://youtu.be/1", "https://youtu.be/2"]);
    assert_eq!(o.tags, 2);
    let failed = |artist: &str, title: &str| DownloadEvent::TrackFailed {
        id: 5,
        artist: artist.to_string(),
        title: title.to_string(),
        error: "Tagging failed: disk full".to_string(),
    };
    let outcomes: Vec<&DownloadEvent> = events
        .iter()
        .filter(|e| {
            matches!(
                e,
                DownloadEvent::TrackStarted { .. }
                    | DownloadEvent::TrackFailed { .. }
                    | DownloadEvent::TrackComplete { .. }
            )
        })
        .collect();
    let start = |n: usize, artist: &str, title: &str| DownloadEvent::TrackStarted {
        id: 5,
        artist: artist.to_string(),
        title: title.to_string(),
        track_num: n,
    };
    assert_eq!(
        outcomes,
        vec![
            &start(1, "Chan", "Vid 1"),
            &failed("Chan", "Vid 1"),
            &start(2, "Other", "Vid 2"),
            &failed("Other", "Vid 2"),
        ]
    );
    // Nothing is counted as fetched, and the stored catalog is left alone.
    assert_eq!(w.db.len(), 0);
    assert!(!w.db.needs_save());
    // Each failure is in the journal with what a retry needs.
    assert_eq!(w.error_log.get_total_error_counts(), (2, 0, 0));
    let date = w.error_log.list_dates()[0].clone();
    let list = w.error_log.get_download_errors_for_date(&date);
    assert_eq!(list.len(), 2);
    assert_eq!(list[0].artist.as_deref(), Some("Chan"));
    assert_eq!(list[0].title.as_deref(), Some("Vid 1"));
    assert_eq!(list[0].error, "Tagging failed: disk full");
    assert_eq!(list[0].retry_count, 0);
    assert_eq!(list[0].link, "https://www.youtube.com/playlist?list=PL1");
    assert_eq!(list[0].link_type, "youtube_playlist");
    assert_eq!(list[0].format, "mp3");
    assert_eq!(list[1].artist.as_deref(), Some("Other"));
    assert_eq!(list[1].title.as_deref(), Some("Vid 2"));
    assert_eq!(list[1].retry_count, 0);
}

#[test]
fn a_broken_task_ends_a_video_site_job_and_goes_to_the_journal() {
    let mut w = worker();
    let (job, _) = w.start(DownloadRequest::YouTubePlaylist {
        id: 5,
        link: "l".to_string(),
        portable: true,
        format: "flac".to_string(),
        quality: "high".to_string(),
    });
    let (job, step) = w.resume(job, Outcome::TaskFailed { reason: "panicked".to_string() });
    assert!(job.is_done());
    assert_eq!(step.action, Action::Finish);
    assert_eq!(step.events, vec![DownloadEvent::Error { id: 5, error: "Task error: panicked".to_string() }]);
    assert_eq!(w.error_log.get_total_error_counts(), (1, 0, 0));
    let all = w.error_log.get_all_download_errors();
    assert_eq!(all[0].1.artist, None);
    assert_eq!(all[0].1.title, None);
    assert_eq!(all[0].1.error, "Task error: panicked");
    assert_eq!(all[0].1.link, "l");
    assert_eq!(all[0].1.link_type, "youtube_playlist");
    assert_eq!(all[0].1.format, "mp3");
    assert_eq!(all[0].1.retry_count, 0);
    assert_eq!(w.db.len(), 0);

    let mut w = worker();
    let (job, _) = w.start(DownloadRequest::YouTubePlaylist {
        id: 6,
        link: "l".to_string(),
        portable: true,
        format: "flac".to_string(),
        quality: "high".to_string(),
    });
    let (_, step) = w.resume(job, Outcome::Failed { reason: "no such list".to_string() });
    assert_eq!(
        step.events,
        vec![DownloadEvent::Error { id: 6, error: "Failed to fetch YouTube playlist: no such list".to_string() }]
    );
    let all = w.error_log.get_all_download_errors();
    assert_eq!(all.len(), 1);
    assert_eq!(all[0].1.format, "mp3", "a portable job is journaled with the format it writes");
    assert_eq!(all[0].1.link_type, "youtube_playlist");
}

fn convert_request(id: usize, refresh_metadata: bool) -> DownloadRequest {
    DownloadRequest::Convert {
        id,
        input_path: "music/a/song.mp3".to_string(),
        target_format: "flac".to_string(),
        quality: "high".to_string(),
        refresh_metadata,
        artist: "Artist".to_string(),
        title: "Song".to_string(),
    }
}

fn meta(cover: Option<&str>) -> TrackMetadata {
    TrackMetadata {
        artist: "Artist".to_string(),
        album: "Album".to_string(),
        title: "Song".to_string(),
        track_number: 4,
        genre: None,
        cover_url: cover.map(|c| c.to_string()),
    }
}

#[test]
fn a_conversion_that_fails_writes_one_journal_entry_and_leaves_the_catalog_alone() {
    let mut w = worker();
    w.db.add(TrackEntry {
        artist: "Artist".to_string(),
        title: "Song".to_string(),
        path: "music/a/song.mp3".to_string(),
    });
    w.db.mark_saved();
    let mut o = Outside::new();
    o.conversion = Err("FFmpeg conversion failed for: music/a/song.mp3".to_string());
    let events = serve(&mut w, &mut o, convert_request(9, true));
    assert_eq!(
        events,
        vec![
            DownloadEvent::ConvertStarted {
                id: 9,
                path: "music/a/song.mp3".to_string(),
                target_format: "flac".to_string(),
            },
            log(9, "Converting music/a/song.mp3 to flac"),
            log(9, "Conversion failed: FFmpeg conversion failed for: music/a/song.mp3"),
            DownloadEvent::ConvertFailed {
                id: 9,
                path: "music/a/song.mp3".to_string(),
                error: "FFmpeg conversion failed for: music/a/song.mp3".to_string(),
            },
        ]
    );
    assert_eq!(w.error_log.get_total_error_counts(), (0, 1, 0));
    let all = w.error_log.get_all_convert_errors();
    assert_eq!(all.len(), 1);
    let e = &all[0].1;
    assert_eq!(e.retry_count, 0);
    assert_eq!(e.input_path, "music/a/song.mp3");
    assert_eq!(e.target_format, "flac");
    assert_eq!(e.quality, "high");
    assert!(e.refresh_metadata);
    assert_eq!(e.artist, "Artist");
    assert_eq!(e.title, "Song");
    assert_eq!(e.error, "FFmpeg conversion failed for: music/a/song.mp3");
    assert!(!w.db.needs_save(), "the catalog was not touched");
    assert!(w.db.find_by_path("music/a/song.mp3").is_some());
}

#[test]
fn a_conversion_with_new_metadata_tags_the_new_file_and_moves_the_catalog_entry() {
    let mut w = worker();
    w.db.add(TrackEntry {
        artist: "Artist".to_string(),
        title: "Song".to_string(),
        path: "music/a/song.mp3".to_string(),
    });
    w.db.mark_saved();
    let mut o = Outside::new();
    o.conversion = Ok("music/a/song.flac".to_string());
    o.metadata = Some(Ok(Some(meta(Some("https://img/c")))));
    let events = serve(&mut w, &mut o, convert_request(9, true));
    assert_eq!(
        events,
        vec![
            DownloadEvent::ConvertStarted {
                id: 9,
                path: "music/a/song.mp3".to_string(),
                target_format: "flac".to_string(),
            },
            log(9, "Converting music/a/song.mp3 to flac"),
            log(9, "Conversion complete: music/a/song.flac"),
            log(9, "Refreshing metadata for: Artist - Song"),
            log(9, "Metadata refreshed successfully"),
            DownloadEvent::ConvertDeleteConfirm {
                id: 9,
                old_path: "music/a/song.mp3".to_string(),
                new_path: "music/a/song.flac".to_string(),
            },
            DownloadEvent::ConvertComplete {
                id: 9,
                old_path: "music/a/song.mp3".to_string(),
                new_path: "music/a/song.flac".to_string(),
            },
        ]
    );
    assert_eq!(o.tags, 1);
    assert_eq!(o.removed, vec!["music/a/temp_cover.jpg"]);
    assert!(w.db.find_by_path("music/a/song.flac").is_some());
    assert!(w.db.find_by_path("music/a/song.mp3").is_none());
    assert!(w.db.needs_save(), "the moved record is due for the stored catalog");
}

#[test]
fn a_conversion_of_a_file_that_the_catalog_does_not_hold_asks_for_no_rewrite() {
    let mut w = worker();
    w.db.add(TrackEntry {
        artist: "Artist".to_string(),
        title: "Other".to_string(),
        path: "music/a/other.mp3".to_string(),
    });
    w.db.mark_saved();
    let mut o = Outside::new();
    o.conversion = Ok("music/a/song.flac".to_string());
    let events = serve(&mut w, &mut o, convert_request(9, false));
    assert!(matches!(events.last(), Some(DownloadEvent::ConvertComplete { id: 9, .. })));
    assert_eq!(w.db.len(), 1);
    assert!(w.db.find_by_path("music/a/other.mp3").is_some());
    assert!(!w.db.needs_save());
}

#[test]
fn a_conversion_without_a_catalog_answer_keeps_the_old_metadata() {
    let mut w = worker();
    let mut o = Outside::new();
    o.conversion = Ok("song.flac".to_string());
    o.metadata = Some(Ok(None));
    let events = serve(&mut w, &mut o, convert_request(9, true));
    assert!(events.contains(&log(9, "Could not find track on Spotify, keeping existing metadata")));
    assert_eq!(o.tags, 0);
    let mut o = Outside::new();
    o.conversion = Ok("song.flac".to_string());
    o.metadata = Some(Err("offline".to_string()));
    let events = serve(&mut w, &mut o, convert_request(10, true));
    assert!(events.contains(&log(10, "Spotify search failed: offline")));
    assert!(matches!(events.last(), Some(DownloadEvent::ConvertComplete { id: 10, .. })));
    // Without the wish for new metadata the catalog is not asked.
    let mut o = Outside::new();
    o.conversion = Ok("song.flac".to_string());
    o.metadata = Some(Ok(Some(meta(None))));
    let events = serve(&mut w, &mut o, convert_request(11, false));
    assert_eq!(o.tags, 0);
    assert_eq!(events.len(), 5);
}

fn three_tracks() -> Vec<ConvertTrackInfo> {
    ["a", "b", "c"]
        .iter()
        .map(|n| ConvertTrackInfo {
            input_path: format!("music/{}.mp3", n),
            artist: "Artist".to_string(),
            title: n.to_uppercase(),
        })
        .collect()
}

#[test]
fn a_batch_of_conversions_sums_up_and_asks_once_about_the_originals() {
    let mut w = worker();
    let (mut job, mut step) = w.start(DownloadRequest::ConvertBatch {
        id: 2,
        tracks: three_tracks(),
        target_format: "flac".to_string(),
        quality: "low".to_string(),
        refresh_metadata: false,
    });
    let mut events = Vec::new();
    let mut n = 0;
    loop {
        events.extend(step.events);
        let outcome = match step.action {
            Action::Convert { input_path, .. } => {
                n += 1;
                if n == 2 {
                    Outcome::Failed { reason: "bad file".to_string() }
                } else {
                    Outcome::Converted { path: input_path.replace(".mp3", ".flac") }
                }
            }
            Action::Finish => break,
            other => panic!("unexpected: {:?}", other),
        };
        let (next, s) = w.resume(job, outcome);
        job = next;
        step = s;
    }
    assert_eq!(events[0], log(2, "Starting batch conversion of 3 tracks to flac"));
    assert_eq!(events[1], log(2, "[1/3] Converting: Artist - A"));
    assert!(events.contains(&log(2, "Failed to convert Artist - B: bad file")));
    let tail = &events[events.len() - 3..];
    assert_eq!(tail[0], log(2, "Batch conversion complete: 2/3 successful"));
    assert_eq!(tail[1], DownloadEvent::ConvertBatchComplete { id: 2, total: 3, successful: 2 });
    assert_eq!(
        tail[2],
        DownloadEvent::ConvertBatchDeleteConfirm {
            converted_files: vec![
                ("music/a.mp3".to_string(), "music/a.flac".to_string()),
                ("music/c.mp3".to_string(), "music/c.flac".to_string()),
            ],
        }
    );
    assert_eq!(
        events.iter().filter(|e| matches!(e, DownloadEvent::ConvertBatchDeleteConfirm { .. })).count(),
        1
    );
    assert_eq!(w.error_log.get_total_error_counts(), (0, 1, 0));
}

#[test]
fn an_empty_batch_is_summed_up_at_once() {
    let w = worker();
    let (job, step) = w.start(DownloadRequest::ConvertBatch {
        id: 2,
        tracks: vec![],
        target_format: "flac".to_string(),
        quality: "low".to_string(),
        refresh_metadata: true,
    });
    assert!(job.is_done());
    assert_eq!(
        step.events,
        vec![
            log(2, "Starting batch conversion of 0 tracks to flac"),
            log(2, "Batch conversion complete: 0/0 successful"),
            DownloadEvent::ConvertBatchComplete { id: 2, total: 0, successful: 0 },
        ]
    );
}

#[test]
fn a_refresh_writes_the_metadata_that_the_catalog_has() {
    let mut w = worker();
    let mut o = Outside::new();
    o.metadata = Some(Ok(Some(meta(Some("https://img/c")))));
    let events = serve(
        &mut w,
        &mut o,
        DownloadRequest::RefreshMetadata {
            id: 8,
            input_path: "music/a/song.mp3".to_string(),
            artist: "Artist".to_string(),
            title: "Song".to_string(),
        },
    );
    assert_eq!(
        events,
        vec![
            DownloadEvent::RefreshStarted { id: 8, artist: "Artist".to_string(), title: "Song".to_string() },
            log(8, "Refreshing metadata for: Artist - Song"),
            log(8, "Metadata refreshed successfully"),
            DownloadEvent::RefreshComplete { id: 8, artist: "Artist".to_string(), title: "Song".to_string() },
        ]
    );
    assert_eq!(o.removed, vec!["music/a/temp_cover.jpg"]);
}

#[test]
fn a_refresh_that_finds_nothing_goes_to_the_journal() {
    let mut w = worker();
    let mut o = Outside::new();
    o.metadata = Some(Ok(None));
    let events = serve(
        &mut w,
        &mut o,
        DownloadRequest::RefreshMetadata {
            id: 8,
            input_path: "music/a/song.mp3".to_string(),
            artist: "Artist".to_string(),
            title: "Song".to_string(),
        },
    );
    assert_eq!(events[2], log(8, "Could not find Artist - Song on Spotify"));
    assert_eq!(
        events[3],
        DownloadEvent::RefreshFailed {
            id: 8,
            artist: "Artist".to_string(),
            title: "Song".to_string(),
            error: "Track not found on Spotify".to_string(),
        }
    );
    let all = w.error_log.get_all_refresh_errors();
    assert_eq!(all.len(), 1);
    assert_eq!(all[0].1.error, "Track not found on Spotify");
    assert_eq!(all[0].1.retry_count, 0);

    let mut o = Outside::new();
    o.metadata = Some(Err("offline".to_string()));
    let events = serve(
        &mut w,
        &mut o,
        DownloadRequest::RefreshMetadata {
            id: 9,
            input_path: "music/a/song.mp3".to_string(),
            artist: "Artist".to_string(),
            title: "Song".to_string(),
        },
    );
    assert!(events.contains(&log(9, "Spotify search failed: offline")));
    let all = w.error_log.get_all_refresh_errors();
    assert_eq!(all.len(), 2);
    assert!(all.iter().any(|(_, e)| e.error == "Spotify search failed: offline"));
}

#[test]
fn a_refresh_that_cannot_write_its_tags_has_failed() {
    let mut w = worker();
    let mut o = Outside::new();
    o.metadata = Some(Ok(Some(meta(None))));
    o.failing_tag = true;
    let events = serve(
        &mut w,
        &mut o,
        DownloadRequest::RefreshMetadata {
            id: 8,
            input_path: "song.mp3".to_string(),
            artist: "Artist".to_string(),
            title: "Song".to_string(),
        },
    );
    assert_eq!(events[2], log(8, "Failed to apply metadata: disk full"));
    assert_eq!(
        events[3],
        DownloadEvent::RefreshFailed {
            id: 8,
            artist: "Artist".to_string(),
            title: "Song".to_string(),
            error: "disk full".to_string(),
        }
    );
    assert_eq!(w.error_log.get_all_refresh_errors()[0].1.error, "Failed to apply metadata: disk full");
    assert!(o.removed.is_empty());
}

#[test]
fn a_batch_of_refreshes_counts_its_successes() {
    let mut w = worker();
    let (mut job, mut step) = w.start(DownloadRequest::RefreshMetadataBatch { id: 3, tracks: three_tracks() });
    let mut events = Vec::new();
    let mut searches = 0;
    loop {
        events.extend(step.events);
        let outcome = match step.action {
            Action::SearchTrack { .. } => {
                searches += 1;
                if searches == 2 {
                    Outcome::MetadataMissing
                } else {
                    Outcome::MetadataFound { metadata: meta(None) }
                }
            }
            Action::Tag { .. } => Outcome::Tagged,
            Action::Finish => break,
            other => panic!("unexpected: {:?}", other),
        };
        let (next, s) = w.resume(job, outcome);
        job = next;
        step = s;
    }
    assert_eq!(events[0], log(3, "Starting batch metadata refresh for 3 tracks"));
    assert_eq!(events[1], log(3, "[1/3] Refreshing: Artist - A"));
    let tail = &events[events.len() - 2..];
    assert_eq!(tail[0], log(3, "Batch metadata refresh complete: 2/3 successful"));
    assert_eq!(tail[1], DownloadEvent::RefreshBatchComplete { id: 3, total: 3, successful: 2 });
    assert_eq!(w.error_log.get_total_error_counts(), (0, 0, 1));
}

#[test]
fn lines_of_a_job_are_passed_on_under_its_identifier() {
    assert_eq!(log_line(7, "[download] 42%".to_string()), log(7, "[download] 42%"));
    assert_eq!(album_request(12).id(), 12);
    match worker().start(album_request(1)).0 {
        Job::Download(j) => assert_eq!(j.id, 1),
        other => panic!("unexpected: {:?}", other),
    }
}

#[test]
fn a_job_is_over_at_its_last_stage_only() {
    let mut w = worker();
    let (job, step) = w.start(album_request(4));
    assert!(!job.is_done());
    assert!(matches!(step.action, Action::FetchAlbum { .. }));
    let (job, step) = w.resume(job, Outcome::Failed { reason: "no".to_string() });
    assert!(job.is_done());
    assert_eq!(step.action, Action::Finish);
    assert!(!job.expects(&Outcome::Resumed));

    let (job, _) = w.start(DownloadRequest::RefreshMetadata {
        id: 5,
        input_path: "a.mp3".to_string(),
        artist: "A".to_string(),
        title: "T".to_string(),
    });
    assert!(!job.is_done());
    let (job, _) = w.start(DownloadRequest::ConvertBatch {
        id: 6,
        tracks: vec![],
        target_format: "mp3".to_string(),
        quality: "high".to_string(),
        refresh_metadata: false,
    });
    assert!(job.is_done());
}

#[test]
fn an_album_is_shown_under_its_first_artist_and_its_name() {
    assert_eq!(album_name(&album()), "Daft Punk - Discovery");
    let mut nameless = album();
    nameless.artists.clear();
    assert_eq!(album_name(&nameless), "Unknown Artist - Discovery");
}
