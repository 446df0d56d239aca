//! What the keys of the interface do to its state, as far as no job or
//! journal is involved.

use crate::db::{distinct, DownloadDB, TrackEntry, TrackView};
use crate::sources::youtube::{is_youtube_playlist, names_playlist};
use crate::tui::app::{
    App, ConvertPending, ConvertPendingView, LinkType, M3UPending, Screen, SettingsField,
    FORMAT_COUNT, QUALITY_COUNT,
};
use crate::tui::app_messages::{
    convert_all_prompt, convert_all_prompt_text, convert_one_prompt, convert_one_prompt_text,
    delete_failed, delete_failed_text, deleted_all, deleted_all_text, deleted_some,
    deleted_some_text, enter_album_link, enter_album_link_text, enter_playlist_link,
    enter_playlist_link_text, enter_youtube_link, enter_youtube_link_text, kept_originals,
    kept_originals_text, library_refreshed, library_refreshed_text,
};
use vstd::prelude::*;
use vstd::string::StringExecFns;

verus! {

/// The screen that the tab key leads to.
pub open spec fn next_screen(screen: Screen) -> Screen {
    match screen {
        Screen::Main => Screen::Queue,
        Screen::Queue => Screen::Library,
        Screen::Library => Screen::Logs,
        _ => Screen::Main,
    }
}

/// What is added to a prompt in portable mode.
pub open spec fn mode_mark(portable: bool) -> Seq<char> {
    if portable {
        " [portable]"@
    } else {
        ""@
    }
}

/// The prompt for a link of a kind.
pub open spec fn link_prompt(kind: LinkType, portable: bool) -> Seq<char> {
    match kind {
        LinkType::Album => enter_album_link_text(mode_mark(portable)),
        LinkType::Playlist => enter_playlist_link_text(mode_mark(portable)),
        LinkType::YouTubePlaylist => enter_youtube_link_text(mode_mark(portable)),
    }
}

/// One less, but not below zero.
pub open spec fn step_down(n: usize) -> usize {
    if n > 0 {
        (n - 1) as usize
    } else {
        n
    }
}

/// One more, but not beyond the last of `count` places.
pub open spec fn step_up(n: usize, count: nat) -> usize {
    if count > 0 && n < count - 1 {
        (n + 1) as usize
    } else {
        n
    }
}

fn down(n: usize) -> (m: usize)
    ensures
        m == step_down(n),
{
    if n > 0 {
        n - 1
    } else {
        n
    }
}

fn up(n: usize, count: usize) -> (m: usize)
    ensures
        m == step_up(n, count as nat),
{
    if count > 0 && n < count - 1 {
        n + 1
    } else {
        n
    }
}

/// The records of `entries`, copied.
pub fn copy_entries(entries: &Vec<TrackEntry>) -> (copy: Vec<TrackEntry>)
    ensures
        copy.deep_view() == entries.deep_view(),
{
    let mut copy: Vec<TrackEntry> = Vec::new();
    let mut i: usize = 0;
    while i < entries.len()
        invariant
            i <= entries.len(),
            copy.len() == i,
            forall|k: int| 0 <= k < i ==> (#[trigger] copy@[k])@ == entries@[k]@,
        decreases entries.len() - i,
    {
        copy.push(entries[i].clone());
        i += 1;
    }
    assert(copy.deep_view() =~= entries.deep_view());
    copy
}

/// The records of a catalog, copied in order.
pub fn library_of(db: &DownloadDB) -> (library: Vec<TrackEntry>)
    ensures
        library.deep_view() == db@,
{
    let all = db.all_tracks();
    let mut library: Vec<TrackEntry> = Vec::new();
    let mut i: usize = 0;
    while i < all.len()
        invariant
            i <= all.len(),
            all.len() == db@.len(),
            library.len() == i,
            forall|k: int| 0 <= k < all.len() ==> (#[trigger] all@[k])@ == db@[k],
            forall|k: int| 0 <= k < i ==> (#[trigger] library@[k])@ == db@[k],
        decreases all.len() - i,
    {
        library.push(all[i].clone());
        i += 1;
    }
    assert(library.deep_view() =~= db@);
    library
}

impl App {
    pub fn quit(&mut self)
        ensures
            *final(self) == (App { running: false, ..*old(self) }),
    {
        self.running = false;
    }

    pub fn next_view(&mut self)
        ensures
            *final(self) == (App { view: next_screen(old(self).view), ..*old(self) }),
    {
        self.view = match self.view {
            Screen::Main => Screen::Queue,
            Screen::Queue => Screen::Library,
            Screen::Library => Screen::Logs,
            _ => Screen::Main,
        };
    }

    pub fn toggle_portable(&mut self)
        ensures
            *final(self) == (App {
                portable_mode: !old(self).portable_mode,
                status_message: final(self).status_message,
                ..*old(self)
            }),
            final(self).status_message@ == if final(self).portable_mode {
                "Portable mode: ON (FAT32-safe, small covers, MP3 only)"@
            } else {
                "Portable mode: OFF"@
            },
    {
        self.portable_mode = !self.portable_mode;
        self.status_message = if self.portable_mode {
            String::from_str("Portable mode: ON (FAT32-safe, small covers, MP3 only)")
        } else {
            String::from_str("Portable mode: OFF")
        };
    }

    /// Begins the entry of a link of the kind `kind`.
    pub fn start_add(&mut self, kind: LinkType)
        ensures
            *final(self) == (App {
                view: Screen::AddLink,
                input_mode: true,
                input: final(self).input,
                link_type: kind,
                status_message: final(self).status_message,
                ..*old(self)
            }),
            final(self).input@ == Seq::<char>::empty(),
            final(self).status_message@ == link_prompt(kind, old(self).portable_mode),
    {
        self.view = Screen::AddLink;
        self.input_mode = true;
        self.input = String::new();
        self.link_type = kind;
        let mark = if self.portable_mode {
            " [portable]"
        } else {
            ""
        };
        self.status_message = match kind {
            LinkType::Album => enter_album_link(mark),
            LinkType::Playlist => enter_playlist_link(mark),
            LinkType::YouTubePlaylist => enter_youtube_link(mark),
        };
    }

    pub fn start_add_album(&mut self)
        ensures
            *final(self) == (App {
                view: Screen::AddLink,
                input_mode: true,
                input: final(self).input,
                link_type: LinkType::Album,
                status_message: final(self).status_message,
                ..*old(self)
            }),
            final(self).input@ == Seq::<char>::empty(),
            final(self).status_message@ == link_prompt(LinkType::Album, old(self).portable_mode),
    {
        self.start_add(LinkType::Album);
    }

    pub fn start_add_playlist(&mut self)
        ensures
            *final(self) == (App {
                view: Screen::AddLink,
                input_mode: true,
                input: final(self).input,
                link_type: LinkType::Playlist,
                status_message: final(self).status_message,
                ..*old(self)
            }),
            final(self).input@ == Seq::<char>::empty(),
            final(self).status_message@ == link_prompt(
                LinkType::Playlist,
                old(self).portable_mode,
            ),
    {
        self.start_add(LinkType::Playlist);
    }

    pub fn start_add_youtube_playlist(&mut self)
        ensures
            *final(self) == (App {
                view: Screen::AddLink,
                input_mode: true,
                input: final(self).input,
                link_type: LinkType::YouTubePlaylist,
                status_message: final(self).status_message,
                ..*old(self)
            }),
            final(self).input@ == Seq::<char>::empty(),
            final(self).status_message@ == link_prompt(
                LinkType::YouTubePlaylist,
                old(self).portable_mode,
            ),
    {
        self.start_add(LinkType::YouTubePlaylist);
    }

    pub fn cancel_input(&mut self)
        ensures
            *final(self) == (App {
                view: Screen::Main,
                input_mode: false,
                input: final(self).input,
                pending_link: None,
                status_message: final(self).status_message,
                ..*old(self)
            }),
            final(self).input@ == Seq::<char>::empty(),
            final(self).status_message@ == "Cancelled"@,
    {
        self.input_mode = false;
        self.input = String::new();
        self.pending_link = None;
        self.view = Screen::Main;
        self.status_message = String::from_str("Cancelled");
    }

    /// Takes the link that was entered. An empty entry leads back to the
    /// main screen; any other entry is kept and leads to its settings. A
    /// link to a playlist of the video site is taken as one whatever was
    /// chosen before.
    pub fn submit_input(&mut self)
        ensures
            final(self).input@ == Seq::<char>::empty(),
            old(self).input@.len() == 0 ==> *final(self) == (App {
                view: Screen::Main,
                input_mode: false,
                input: final(self).input,
                status_message: final(self).status_message,
                ..*old(self)
            }) && final(self).status_message@ == "No link provided"@,
            old(self).input@.len() > 0 ==> *final(self) == (App {
                view: Screen::LinkSettings,
                input_mode: false,
                input: final(self).input,
                link_type: if names_playlist(old(self).input@) {
                    LinkType::YouTubePlaylist
                } else {
                    old(self).link_type
                },
                pending_link: final(self).pending_link,
                settings_field: SettingsField::Format,
                status_message: final(self).status_message,
                ..*old(self)
            }) && final(self).pending_link.deep_view() == Some(old(self).input@)
                && final(self).status_message@ == "Select format and quality, then press Enter"@,
    {
        let link = self.input.clone();
        self.input_mode = false;
        self.input = String::new();
        if link.as_str().unicode_len() == 0 {
            self.view = Screen::Main;
            self.status_message = String::from_str("No link provided");
            return ;
        }
        if is_youtube_playlist(link.as_str()) {
            self.link_type = LinkType::YouTubePlaylist;
        }
        self.pending_link = Some(link);
        self.view = Screen::LinkSettings;
        self.settings_field = SettingsField::Format;
        self.status_message = String::from_str("Select format and quality, then press Enter");
    }

    pub fn cancel_settings(&mut self)
        ensures
            *final(self) == (App {
                view: Screen::Main,
                pending_link: None,
                status_message: final(self).status_message,
                ..*old(self)
            }),
            final(self).status_message@ == "Cancelled"@,
    {
        self.pending_link = None;
        self.view = Screen::Main;
        self.status_message = String::from_str("Cancelled");
    }

    pub fn settings_up(&mut self)
        ensures
            *final(self) == (App { settings_field: SettingsField::Format, ..*old(self) }),
    {
        self.settings_field = SettingsField::Format;
    }

    pub fn settings_down(&mut self)
        ensures
            *final(self) == (App { settings_field: SettingsField::Quality, ..*old(self) }),
    {
        self.settings_field = SettingsField::Quality;
    }

    pub fn settings_left(&mut self)
        ensures
            *final(self) == match old(self).settings_field {
                SettingsField::Format => App {
                    selected_format: step_down(old(self).selected_format),
                    ..*old(self)
                },
                SettingsField::Quality => App {
                    selected_quality: step_down(old(self).selected_quality),
                    ..*old(self)
                },
            },
    {
        match self.settings_field {
            SettingsField::Format => {
                self.selected_format = down(self.selected_format);
            },
            SettingsField::Quality => {
                self.selected_quality = down(self.selected_quality);
            },
        }
    }

    pub fn settings_right(&mut self)
        ensures
            *final(self) == match old(self).settings_field {
                SettingsField::Format => App {
                    selected_format: step_up(old(self).selected_format, FORMAT_COUNT as nat),
                    ..*old(self)
                },
                SettingsField::Quality => App {
                    selected_quality: step_up(old(self).selected_quality, QUALITY_COUNT as nat),
                    ..*old(self)
                },
            },
    {
        match self.settings_field {
            SettingsField::Format => {
                self.selected_format = up(self.selected_format, FORMAT_COUNT);
            },
            SettingsField::Quality => {
                self.selected_quality = up(self.selected_quality, QUALITY_COUNT);
            },
        }
    }

    pub fn queue_up(&mut self)
        ensures
            *final(self) == (App {
                queue_selected: step_down(old(self).queue_selected),
                ..*old(self)
            }),
    {
        self.queue_selected = down(self.queue_selected);
    }

    pub fn queue_down(&mut self)
        ensures
            *final(self) == (App {
                queue_selected: step_up(old(self).queue_selected, old(self).queue@.len()),
                ..*old(self)
            }),
    {
        self.queue_selected = up(self.queue_selected, self.queue.len());
    }

    pub fn library_up(&mut self)
        ensures
            *final(self) == (App {
                library_selected: step_down(old(self).library_selected),
                ..*old(self)
            }),
    {
        self.library_selected = down(self.library_selected);
    }

    pub fn library_down(&mut self)
        ensures
            *final(self) == (App {
                library_selected: step_up(old(self).library_selected, old(self).library@.len()),
                ..*old(self)
            }),
    {
        self.library_selected = up(self.library_selected, self.library.len());
    }

    /// Takes a new copy of the stored catalog, whose records are `stored`.
    pub fn refresh_library(&mut self, stored: Vec<TrackEntry>)
        ensures
            *final(self) == (App {
                db: final(self).db,
                library: final(self).library,
                status_message: final(self).status_message,
                ..*old(self)
            }),
            final(self).db@ == distinct(stored.deep_view()),
            final(self).db.location() == old(self).db.location(),
            !final(self).db.is_unsaved(),
            final(self).library.deep_view() == distinct(stored.deep_view()),
            final(self).status_message@ == library_refreshed_text(
                distinct(stored.deep_view()).len(),
            ),
    {
        let path = String::from_str(self.db.file_path());
        self.db = DownloadDB::from_entries(path.as_str(), stored);
        self.library = library_of(&self.db);
        assert(self.library.deep_view().len() == self.library.len());
        self.status_message = library_refreshed(self.library.len());
    }

    pub fn logs_up(&mut self)
        ensures
            *final(self) == (App {
                log_auto_scroll: false,
                log_scroll: step_down(old(self).log_scroll),
                ..*old(self)
            }),
    {
        self.log_auto_scroll = false;
        self.log_scroll = down(self.log_scroll);
    }

    /// Moves the log window one line down; at the last line the window
    /// follows the log again.
    pub fn logs_down(&mut self)
        ensures
            *final(self) == (App {
                log_scroll: step_up(old(self).log_scroll, old(self).download_logs@.len()),
                log_auto_scroll: old(self).log_auto_scroll || step_up(
                    old(self).log_scroll,
                    old(self).download_logs@.len(),
                ) >= step_down(old(self).download_logs@.len() as usize),
                ..*old(self)
            }),
    {
        self.log_scroll = up(self.log_scroll, self.download_logs.len());
        if self.log_scroll >= down(self.download_logs.len()) {
            self.log_auto_scroll = true;
        }
    }

    pub fn logs_top(&mut self)
        ensures
            *final(self) == (App { log_auto_scroll: false, log_scroll: 0, ..*old(self) }),
    {
        self.log_auto_scroll = false;
        self.log_scroll = 0;
    }

    pub fn logs_bottom(&mut self)
        ensures
            *final(self) == (App {
                log_auto_scroll: true,
                log_scroll: step_down(old(self).download_logs@.len() as usize),
                ..*old(self)
            }),
    {
        self.log_auto_scroll = true;
        self.log_scroll = down(self.download_logs.len());
    }

    pub fn show_logs(&mut self)
        ensures
            *final(self) == (App { view: Screen::Logs, ..*old(self) }),
    {
        self.view = Screen::Logs;
    }

    /// Pauses the worker or lets it go on. The result is what the worker
    /// has to be told: whether it is paused now.
    pub fn toggle_pause(&mut self) -> (paused: bool)
        ensures
            paused == !old(self).paused,
            *final(self) == (App {
                paused,
                status_message: final(self).status_message,
                ..*old(self)
            }),
            final(self).status_message@ == if paused {
                "PAUSED - press Space to resume"@
            } else {
                "Resumed"@
            },
    {
        self.paused = !self.paused;
        self.status_message = if self.paused {
            String::from_str("PAUSED - press Space to resume")
        } else {
            String::from_str("Resumed")
        };
        self.paused
    }

    pub fn start_generate_m3u(&mut self)
        ensures
            *final(self) == (App {
                view: Screen::GenerateM3U,
                input_mode: true,
                input: final(self).input,
                status_message: final(self).status_message,
                ..*old(self)
            }),
            final(self).input@ == Seq::<char>::empty(),
            final(self).status_message@ == "Enter Spotify album/playlist link to generate M3U:"@,
    {
        self.view = Screen::GenerateM3U;
        self.input_mode = true;
        self.input = String::new();
        self.status_message = String::from_str(
            "Enter Spotify album/playlist link to generate M3U:",
        );
    }

    /// Takes the link that was entered for a playlist file. The result is
    /// the link whose tracks are to be looked up and matched with the
    /// library; none for an empty entry.
    pub fn submit_m3u_input(&mut self) -> (link: Option<String>)
        ensures
            final(self).input@ == Seq::<char>::empty(),
            link.deep_view() == if old(self).input@.len() == 0 {
                None
            } else {
                Some(old(self).input@)
            },
            *final(self) == (App {
                view: Screen::Main,
                input_mode: false,
                input: final(self).input,
                m3u_generating: old(self).m3u_generating || link is Some,
                status_message: final(self).status_message,
                ..*old(self)
            }),
            final(self).status_message@ == if link is Some {
                "Fetching track list from Spotify..."@
            } else {
                "No link provided"@
            },
    {
        let link = self.input.clone();
        self.input_mode = false;
        self.input = String::new();
        self.view = Screen::Main;
        if link.as_str().unicode_len() == 0 {
            self.status_message = String::from_str("No link provided");
            return None;
        }
        self.m3u_generating = true;
        self.status_message = String::from_str("Fetching track list from Spotify...");
        Some(link)
    }

    /// The user wants the playlist file although tracks are missing. The
    /// result is the file that is to be written.
    pub fn confirm_m3u(&mut self) -> (pending: Option<M3UPending>)
        ensures
            pending == old(self).m3u_pending,
            *final(self) == (App { view: Screen::Main, m3u_pending: None, ..*old(self) }),
    {
        self.view = Screen::Main;
        self.m3u_pending.take()
    }

    pub fn cancel_m3u(&mut self)
        ensures
            *final(self) == (App {
                view: Screen::Main,
                m3u_pending: None,
                status_message: final(self).status_message,
                ..*old(self)
            }),
            final(self).status_message@ == "M3U generation cancelled"@,
    {
        self.m3u_pending = None;
        self.view = Screen::Main;
        self.status_message = String::from_str("M3U generation cancelled");
    }

    /// Begins the conversion of the selected track of the library.
    pub fn start_convert(&mut self)
        ensures
            old(self).library@.len() == 0 ==> *final(self) == (App {
                status_message: final(self).status_message,
                ..*old(self)
            }) && final(self).status_message@ == "Library is empty, nothing to convert"@,
            old(self).library@.len() > 0 && old(self).library_selected >= old(self).library@.len()
                ==> *final(self) == *old(self),
            old(self).library_selected < old(self).library@.len() ==> ({
                let selected = old(self).library@[old(self).library_selected as int]@;
                &&& *final(self) == (App {
                    convert_all_mode: false,
                    convert_pending: final(self).convert_pending,
                    view: Screen::ConvertSettings,
                    status_message: final(self).status_message,
                    ..*old(self)
                })
                &&& final(self).convert_pending.deep_view() == Some(
                    ConvertPendingView {
                        track_path: selected.path,
                        artist: selected.artist,
                        title: selected.title,
                    },
                )
                &&& final(self).status_message@ == convert_one_prompt_text(
                    selected.artist,
                    selected.title,
                )
            }),
    {
        if self.library.len() == 0 {
            self.status_message = String::from_str("Library is empty, nothing to convert");
            return ;
        }
        if self.library_selected >= self.library.len() {
            return ;
        }
        let selected = &self.library[self.library_selected];
        let pending = ConvertPending {
            track_path: selected.path.clone(),
            artist: selected.artist.clone(),
            title: selected.title.clone(),
        };
        let status = convert_one_prompt(selected.artist.as_str(), selected.title.as_str());
        self.convert_all_mode = false;
        self.convert_pending = Some(pending);
        self.view = Screen::ConvertSettings;
        self.status_message = status;
    }

    /// Begins the conversion of every track of the library.
    pub fn start_convert_all(&mut self)
        ensures
            old(self).library@.len() == 0 ==> *final(self) == (App {
                status_message: final(self).status_message,
                ..*old(self)
            }) && final(self).status_message@ == "Library is empty, nothing to convert"@,
            old(self).library@.len() > 0 ==> *final(self) == (App {
                convert_all_mode: true,
                convert_pending: final(self).convert_pending,
                view: Screen::ConvertSettings,
                status_message: final(self).status_message,
                ..*old(self)
            }) && final(self).convert_pending.deep_view() == Some(
                ConvertPendingView {
                    track_path: Seq::empty(),
                    artist: Seq::empty(),
                    title: Seq::empty(),
                },
            ) && final(self).status_message@ == convert_all_prompt_text(old(self).library@.len()),
    {
        if self.library.len() == 0 {
            self.status_message = String::from_str("Library is empty, nothing to convert");
            return ;
        }
        self.convert_all_mode = true;
        self.convert_pending = Some(
            ConvertPending {
                track_path: String::new(),
                artist: String::new(),
                title: String::new(),
            },
        );
        self.view = Screen::ConvertSettings;
        self.status_message = convert_all_prompt(self.library.len());
    }

    pub fn cancel_convert(&mut self)
        ensures
            *final(self) == (App {
                view: Screen::Library,
                convert_pending: None,
                status_message: final(self).status_message,
                ..*old(self)
            }),
            final(self).status_message@ == "Conversion cancelled"@,
    {
        self.convert_pending = None;
        self.view = Screen::Library;
        self.status_message = String::from_str("Conversion cancelled");
    }

    /// The settings of a conversion have one row for the keys to move in.
    pub fn convert_settings_up(&mut self)
        ensures
            *final(self) == *old(self),
    {
    }

    /// The settings of a conversion have one row for the keys to move in.
    pub fn convert_settings_down(&mut self)
        ensures
            *final(self) == *old(self),
    {
    }

    pub fn convert_settings_left(&mut self)
        ensures
            *final(self) == (App {
                convert_target_format: step_down(old(self).convert_target_format),
                ..*old(self)
            }),
    {
        self.convert_target_format = down(self.convert_target_format);
    }

    pub fn convert_settings_right(&mut self)
        ensures
            *final(self) == (App {
                convert_target_format: step_up(
                    old(self).convert_target_format,
                    FORMAT_COUNT as nat,
                ),
                ..*old(self)
            }),
    {
        self.convert_target_format = up(self.convert_target_format, FORMAT_COUNT);
    }

    pub fn convert_toggle_refresh(&mut self)
        ensures
            *final(self) == (App {
                convert_refresh_metadata: !old(self).convert_refresh_metadata,
                ..*old(self)
            }),
    {
        self.convert_refresh_metadata = !self.convert_refresh_metadata;
    }

    pub fn convert_quality_left(&mut self)
        ensures
            *final(self) == (App {
                convert_quality: step_down(old(self).convert_quality),
                ..*old(self)
            }),
    {
        self.convert_quality = down(self.convert_quality);
    }

    pub fn convert_quality_right(&mut self)
        ensures
            *final(self) == (App {
                convert_quality: step_up(old(self).convert_quality, QUALITY_COUNT as nat),
                ..*old(self)
            }),
    {
        self.convert_quality = up(self.convert_quality, QUALITY_COUNT);
    }

    /// The user wanted the original of a converted file deleted, and this
    /// is what came of it: `Err` holds why the file could not be deleted.
    /// Nothing is reported where no file was waiting.
    pub fn confirm_delete_original(&mut self, outcome: Result<(), String>)
        ensures
            *final(self) == (App {
                view: Screen::Library,
                convert_delete_pending: None,
                status_message: final(self).status_message,
                ..*old(self)
            }),
            final(self).status_message@ == if old(self).convert_delete_pending is None {
                old(self).status_message@
            } else {
                match outcome {
                    Ok(_) => "Original file deleted"@,
                    Err(reason) => delete_failed_text(reason@),
                }
            },
    {
        if self.convert_delete_pending.is_some() {
            self.convert_delete_pending = None;
            self.status_message = match outcome {
                Ok(_) => String::from_str("Original file deleted"),
                Err(reason) => delete_failed(reason.as_str()),
            };
        }
        self.view = Screen::Library;
    }

    pub fn cancel_delete_original(&mut self)
        ensures
            *final(self) == (App {
                view: Screen::Library,
                convert_delete_pending: None,
                status_message: final(self).status_message,
                ..*old(self)
            }),
            final(self).status_message@ == "Original file kept"@,
    {
        self.convert_delete_pending = None;
        self.view = Screen::Library;
        self.status_message = String::from_str("Original file kept");
    }

    pub fn cancel_cleanup(&mut self)
        ensures
            *final(self) == (App {
                view: Screen::Library,
                cleanup_preview: None,
                status_message: final(self).status_message,
                ..*old(self)
            }),
            final(self).status_message@ == "Cleanup cancelled."@,
    {
        self.cleanup_preview = None;
        self.view = Screen::Library;
        self.status_message = String::from_str("Cleanup cancelled.");
    }
}

} // verus!
