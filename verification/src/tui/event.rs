//! What a key means: the table that turns a key into what the interface is
//! to do, by the screen that is shown.

use crate::text::{chars_of, string_of_range};
use crate::tui::app::{App, Screen};
use vstd::prelude::*;
use vstd::string::StringExecFns;

verus! {

/// A key of the keyboard.
#[derive(Clone, Copy, Debug, PartialEq, Eq, Structural)]
pub enum Key {
    Char(char),
    Enter,
    Esc,
    Backspace,
    Tab,
    BackTab,
    Up,
    Down,
    Left,
    Right,
    Home,
    End,
    /// Any other key.
    Other,
}

/// What the interface is to do.
#[derive(Clone, Copy, Debug, PartialEq, Eq, Structural)]
pub enum Intent {
    Nothing,
    Quit,
    NextView,
    // Entering text.
    Type(char),
    Erase,
    SubmitInput,
    SubmitM3uInput,
    CancelInput,
    // The settings of a link.
    SubmitSettings,
    CancelSettings,
    SettingsUp,
    SettingsDown,
    SettingsLeft,
    SettingsRight,
    // Playlist files.
    StartGenerateM3u,
    ConfirmM3u,
    CancelM3u,
    // The log window.
    ShowLogs,
    LogsUp,
    LogsDown,
    LogsTop,
    LogsBottom,
    // The main screens.
    StartAddAlbum,
    StartAddPlaylist,
    StartAddYoutubePlaylist,
    TogglePortable,
    TogglePause,
    RefreshLibrary,
    QueueUp,
    QueueDown,
    LibraryUp,
    LibraryDown,
    // The library.
    StartConvert,
    StartConvertAll,
    StartRefreshMetadata,
    StartRefreshAllMetadata,
    StartCleanup,
    // Conversions.
    SubmitConvert,
    CancelConvert,
    ConvertSettingsLeft,
    ConvertSettingsRight,
    ConvertQualityLeft,
    ConvertQualityRight,
    ConvertToggleRefresh,
    ConfirmDeleteOriginal,
    CancelDeleteOriginal,
    ConfirmBatchDelete,
    CancelBatchDelete,
    ConfirmCleanup,
    CancelCleanup,
    // The journal window.
    ShowErrorLog,
    LeaveErrorLog,
    ErrorDatePrev,
    ErrorDateNext,
    ErrorTabNext,
    ErrorTabPrev,
    ErrorUp,
    ErrorDown,
    DeleteSelectedError,
    ClearDateErrors,
    RefreshErrorLogs,
}

/// What a key means while text is entered on `screen`.
pub open spec fn input_intent(screen: Screen, key: Key) -> Intent {
    match key {
        Key::Enter => if screen == Screen::GenerateM3U {
            Intent::SubmitM3uInput
        } else {
            Intent::SubmitInput
        },
        Key::Esc => Intent::CancelInput,
        Key::Backspace => Intent::Erase,
        Key::Char(c) => Intent::Type(c),
        _ => Intent::Nothing,
    }
}

/// What a key means in the settings of a link.
pub open spec fn settings_intent(key: Key) -> Intent {
    match key {
        Key::Enter => Intent::SubmitSettings,
        Key::Esc => Intent::CancelSettings,
        Key::Up => Intent::SettingsUp,
        Key::Down => Intent::SettingsDown,
        Key::Left => Intent::SettingsLeft,
        Key::Right => Intent::SettingsRight,
        Key::Char(c) => if c == 'k' {
            Intent::SettingsUp
        } else if c == 'j' {
            Intent::SettingsDown
        } else if c == 'h' {
            Intent::SettingsLeft
        } else if c == 'l' {
            Intent::SettingsRight
        } else {
            Intent::Nothing
        },
        _ => Intent::Nothing,
    }
}

/// What a key means where the user confirms a playlist file.
pub open spec fn m3u_confirm_intent(key: Key) -> Intent {
    match key {
        Key::Enter => Intent::ConfirmM3u,
        Key::Esc => Intent::CancelM3u,
        Key::Char(c) => if c == 'y' {
            Intent::ConfirmM3u
        } else if c == 'n' {
            Intent::CancelM3u
        } else {
            Intent::Nothing
        },
        _ => Intent::Nothing,
    }
}

/// What a key means in the log window.
pub open spec fn logs_intent(key: Key, ctrl: bool) -> Intent {
    match key {
        Key::Tab => Intent::NextView,
        Key::Up => Intent::LogsUp,
        Key::Down => Intent::LogsDown,
        Key::Home => Intent::LogsTop,
        Key::End => Intent::LogsBottom,
        Key::Char(c) => if c == 'q' {
            Intent::Quit
        } else if c == 'c' && ctrl {
            Intent::Quit
        } else if c == 'k' {
            Intent::LogsUp
        } else if c == 'j' {
            Intent::LogsDown
        } else if c == 'g' {
            Intent::LogsTop
        } else if c == 'G' {
            Intent::LogsBottom
        } else if c == 'a' {
            Intent::StartAddAlbum
        } else if c == 'p' {
            Intent::StartAddPlaylist
        } else if c == 'y' {
            Intent::StartAddYoutubePlaylist
        } else if c == 'P' {
            Intent::TogglePortable
        } else if c == 'r' {
            Intent::RefreshLibrary
        } else if c == 'm' {
            Intent::StartGenerateM3u
        } else if c == ' ' {
            Intent::TogglePause
        } else {
            Intent::Nothing
        },
        _ => Intent::Nothing,
    }
}

/// What a key means on the main screens.
pub open spec fn normal_intent(screen: Screen, key: Key, ctrl: bool) -> Intent {
    match key {
        Key::Tab => Intent::NextView,
        Key::Up => if screen == Screen::Queue {
            Intent::QueueUp
        } else if screen == Screen::Library {
            Intent::LibraryUp
        } else {
            Intent::Nothing
        },
        Key::Down => if screen == Screen::Queue {
            Intent::QueueDown
        } else if screen == Screen::Library {
            Intent::LibraryDown
        } else {
            Intent::Nothing
        },
        Key::Char(c) => if c == 'q' {
            Intent::Quit
        } else if c == 'c' && ctrl {
            Intent::Quit
        } else if c == 'c' && screen == Screen::Library {
            Intent::StartConvert
        } else if c == 'C' && screen == Screen::Library {
            Intent::StartConvertAll
        } else if c == 'x' && screen == Screen::Library {
            Intent::StartRefreshMetadata
        } else if c == 'X' && screen == Screen::Library {
            Intent::StartRefreshAllMetadata
        } else if c == 'z' && screen == Screen::Library {
            Intent::StartCleanup
        } else if c == 'a' {
            Intent::StartAddAlbum
        } else if c == 'p' {
            Intent::StartAddPlaylist
        } else if c == 'y' {
            Intent::StartAddYoutubePlaylist
        } else if c == 'P' {
            Intent::TogglePortable
        } else if c == 'l' {
            Intent::ShowLogs
        } else if c == 'e' {
            Intent::ShowErrorLog
        } else if c == 'm' {
            Intent::StartGenerateM3u
        } else if c == ' ' {
            Intent::TogglePause
        } else if c == 'k' {
            normal_intent_up(screen)
        } else if c == 'j' {
            normal_intent_down(screen)
        } else if c == 'r' {
            Intent::RefreshLibrary
        } else {
            Intent::Nothing
        },
        _ => Intent::Nothing,
    }
}

pub open spec fn normal_intent_up(screen: Screen) -> Intent {
    if screen == Screen::Queue {
        Intent::QueueUp
    } else if screen == Screen::Library {
        Intent::LibraryUp
    } else {
        Intent::Nothing
    }
}

pub open spec fn normal_intent_down(screen: Screen) -> Intent {
    if screen == Screen::Queue {
        Intent::QueueDown
    } else if screen == Screen::Library {
        Intent::LibraryDown
    } else {
        Intent::Nothing
    }
}

/// What a key means in the settings of a conversion.
pub open spec fn convert_settings_intent(key: Key) -> Intent {
    match key {
        Key::Enter => Intent::SubmitConvert,
        Key::Esc => Intent::CancelConvert,
        Key::Left => Intent::ConvertSettingsLeft,
        Key::Right => Intent::ConvertSettingsRight,
        Key::Char(c) => if c == 'h' {
            Intent::ConvertQualityLeft
        } else if c == 'l' {
            Intent::ConvertQualityRight
        } else if c == ' ' {
            Intent::ConvertToggleRefresh
        } else {
            Intent::Nothing
        },
        _ => Intent::Nothing,
    }
}

/// What a key means where the user says yes or no: `y` is yes, `n` and
/// escape are no.
pub open spec fn yes_no_intent(key: Key, yes: Intent, no: Intent) -> Intent {
    match key {
        Key::Esc => no,
        Key::Char(c) => if c == 'y' {
            yes
        } else if c == 'n' {
            no
        } else {
            Intent::Nothing
        },
        _ => Intent::Nothing,
    }
}

/// What a key means in the journal window.
pub open spec fn error_log_intent(key: Key, ctrl: bool) -> Intent {
    match key {
        Key::Esc => Intent::LeaveErrorLog,
        Key::Left => Intent::ErrorDatePrev,
        Key::Right => Intent::ErrorDateNext,
        Key::Tab => Intent::ErrorTabNext,
        Key::BackTab => Intent::ErrorTabPrev,
        Key::Up => Intent::ErrorUp,
        Key::Down => Intent::ErrorDown,
        Key::Char(c) => if c == 'q' {
            Intent::Quit
        } else if c == 'c' && ctrl {
            Intent::Quit
        } else if c == 'h' {
            Intent::ErrorDatePrev
        } else if c == 'l' {
            Intent::ErrorDateNext
        } else if c == 'k' {
            Intent::ErrorUp
        } else if c == 'j' {
            Intent::ErrorDown
        } else if c == 'd' {
            Intent::DeleteSelectedError
        } else if c == 'D' {
            Intent::ClearDateErrors
        } else if c == 'r' {
            Intent::RefreshErrorLogs
        } else {
            Intent::Nothing
        },
        _ => Intent::Nothing,
    }
}

/// What the key `key` means on `screen`; `input_mode` says whether text is
/// being entered, `ctrl` whether the control key is held.
pub open spec fn intent_of(screen: Screen, input_mode: bool, key: Key, ctrl: bool) -> Intent {
    if input_mode {
        input_intent(screen, key)
    } else {
        match screen {
            Screen::LinkSettings => settings_intent(key),
            Screen::Logs => logs_intent(key, ctrl),
            Screen::M3UConfirm => m3u_confirm_intent(key),
            Screen::ConvertSettings => convert_settings_intent(key),
            Screen::ConvertConfirm => yes_no_intent(
                key,
                Intent::ConfirmDeleteOriginal,
                Intent::CancelDeleteOriginal,
            ),
            Screen::ConvertBatchConfirm => yes_no_intent(
                key,
                Intent::ConfirmBatchDelete,
                Intent::CancelBatchDelete,
            ),
            Screen::CleanupConfirm => yes_no_intent(
                key,
                Intent::ConfirmCleanup,
                Intent::CancelCleanup,
            ),
            Screen::ErrorLog => error_log_intent(key, ctrl),
            _ => normal_intent(screen, key, ctrl),
        }
    }
}

fn handle_input_mode(screen: Screen, key: Key) -> (intent: Intent)
    ensures
        intent == input_intent(screen, key),
{
    match key {
        Key::Enter => match screen {
            Screen::GenerateM3U => Intent::SubmitM3uInput,
            _ => Intent::SubmitInput,
        },
        Key::Esc => Intent::CancelInput,
        Key::Backspace => Intent::Erase,
        Key::Char(c) => Intent::Type(c),
        _ => Intent::Nothing,
    }
}

fn handle_settings_mode(key: Key) -> (intent: Intent)
    ensures
        intent == settings_intent(key),
{
    match key {
        Key::Enter => Intent::SubmitSettings,
        Key::Esc => Intent::CancelSettings,
        Key::Up => Intent::SettingsUp,
        Key::Down => Intent::SettingsDown,
        Key::Left => Intent::SettingsLeft,
        Key::Right => Intent::SettingsRight,
        Key::Char(c) => if c == 'k' {
            Intent::SettingsUp
        } else if c == 'j' {
            Intent::SettingsDown
        } else if c == 'h' {
            Intent::SettingsLeft
        } else if c == 'l' {
            Intent::SettingsRight
        } else {
            Intent::Nothing
        },
        _ => Intent::Nothing,
    }
}

fn handle_m3u_confirm_mode(key: Key) -> (intent: Intent)
    ensures
        intent == m3u_confirm_intent(key),
{
    match key {
        Key::Enter => Intent::ConfirmM3u,
        Key::Esc => Intent::CancelM3u,
        Key::Char(c) => if c == 'y' {
            Intent::ConfirmM3u
        } else if c == 'n' {
            Intent::CancelM3u
        } else {
            Intent::Nothing
        },
        _ => Intent::Nothing,
    }
}

fn handle_logs_mode(key: Key, ctrl: bool) -> (intent: Intent)
    ensures
        intent == logs_intent(key, ctrl),
{
    match key {
        Key::Tab => Intent::NextView,
        Key::Up => Intent::LogsUp,
        Key::Down => Intent::LogsDown,
        Key::Home => Intent::LogsTop,
        Key::End => Intent::LogsBottom,
        Key::Char(c) => if c == 'q' {
            Intent::Quit
        } else if c == 'c' && ctrl {
            Intent::Quit
        } else if c == 'k' {
            Intent::LogsUp
        } else if c == 'j' {
            Intent::LogsDown
        } else if c == 'g' {
            Intent::LogsTop
        } else if c == 'G' {
            Intent::LogsBottom
        } else if c == 'a' {
            Intent::StartAddAlbum
        } else if c == 'p' {
            Intent::StartAddPlaylist
        } else if c == 'y' {
            Intent::StartAddYoutubePlaylist
        } else if c == 'P' {
            Intent::TogglePortable
        } else if c == 'r' {
            Intent::RefreshLibrary
        } else if c == 'm' {
            Intent::StartGenerateM3u
        } else if c == ' ' {
            Intent::TogglePause
        } else {
            Intent::Nothing
        },
        _ => Intent::Nothing,
    }
}

fn up_on(screen: Screen) -> (intent: Intent)
    ensures
        intent == normal_intent_up(screen),
{
    match screen {
        Screen::Queue => Intent::QueueUp,
        Screen::Library => Intent::LibraryUp,
        _ => Intent::Nothing,
    }
}

fn down_on(screen: Screen) -> (intent: Intent)
    ensures
        intent == normal_intent_down(screen),
{
    match screen {
        Screen::Queue => Intent::QueueDown,
        Screen::Library => Intent::LibraryDown,
        _ => Intent::Nothing,
    }
}

fn handle_normal_mode(screen: Screen, key: Key, ctrl: bool) -> (intent: Intent)
    ensures
        intent == normal_intent(screen, key, ctrl),
{
    let in_library = matches!(screen, Screen::Library);
    match key {
        Key::Tab => Intent::NextView,
        Key::Up => up_on(screen),
        Key::Down => down_on(screen),
        Key::Char(c) => if c == 'q' {
            Intent::Quit
        } else if c == 'c' && ctrl {
            Intent::Quit
        } else if c == 'c' && in_library {
            Intent::StartConvert
        } else if c == 'C' && in_library {
            Intent::StartConvertAll
        } else if c == 'x' && in_library {
            Intent::StartRefreshMetadata
        } else if c == 'X' && in_library {
            Intent::StartRefreshAllMetadata
        } else if c == 'z' && in_library {
            Intent::StartCleanup
        } else if c == 'a' {
            Intent::StartAddAlbum
        } else if c == 'p' {
            Intent::StartAddPlaylist
        } else if c == 'y' {
            Intent::StartAddYoutubePlaylist
        } else if c == 'P' {
            Intent::TogglePortable
        } else if c == 'l' {
            Intent::ShowLogs
        } else if c == 'e' {
            Intent::ShowErrorLog
        } else if c == 'm' {
            Intent::StartGenerateM3u
        } else if c == ' ' {
            Intent::TogglePause
        } else if c == 'k' {
            up_on(screen)
        } else if c == 'j' {
            down_on(screen)
        } else if c == 'r' {
            Intent::RefreshLibrary
        } else {
            Intent::Nothing
        },
        _ => Intent::Nothing,
    }
}

fn handle_convert_settings_mode(key: Key) -> (intent: Intent)
    ensures
        intent == convert_settings_intent(key),
{
    match key {
        Key::Enter => Intent::SubmitConvert,
        Key::Esc => Intent::CancelConvert,
        Key::Left => Intent::ConvertSettingsLeft,
        Key::Right => Intent::ConvertSettingsRight,
        Key::Char(c) => if c == 'h' {
            Intent::ConvertQualityLeft
        } else if c == 'l' {
            Intent::ConvertQualityRight
        } else if c == ' ' {
            Intent::ConvertToggleRefresh
        } else {
            Intent::Nothing
        },
        _ => Intent::Nothing,
    }
}

fn handle_yes_no(key: Key, yes: Intent, no: Intent) -> (intent: Intent)
    ensures
        intent == yes_no_intent(key, yes, no),
{
    match key {
        Key::Esc => no,
        Key::Char(c) => if c == 'y' {
            yes
        } else if c == 'n' {
            no
        } else {
            Intent::Nothing
        },
        _ => Intent::Nothing,
    }
}

fn handle_error_log_mode(key: Key, ctrl: bool) -> (intent: Intent)
    ensures
        intent == error_log_intent(key, ctrl),
{
    match key {
        Key::Esc => Intent::LeaveErrorLog,
        Key::Left => Intent::ErrorDatePrev,
        Key::Right => Intent::ErrorDateNext,
        Key::Tab => Intent::ErrorTabNext,
        Key::BackTab => Intent::ErrorTabPrev,
        Key::Up => Intent::ErrorUp,
        Key::Down => Intent::ErrorDown,
        Key::Char(c) => if c == 'q' {
            Intent::Quit
        } else if c == 'c' && ctrl {
            Intent::Quit
        } else if c == 'h' {
            Intent::ErrorDatePrev
        } else if c == 'l' {
            Intent::ErrorDateNext
        } else if c == 'k' {
            Intent::ErrorUp
        } else if c == 'j' {
            Intent::ErrorDown
        } else if c == 'd' {
            Intent::DeleteSelectedError
        } else if c == 'D' {
            Intent::ClearDateErrors
        } else if c == 'r' {
            Intent::RefreshErrorLogs
        } else {
            Intent::Nothing
        },
        _ => Intent::Nothing,
    }
}

/// What a key means for the interface in the state `app`.
pub fn handle_events(app: &App, key: Key, ctrl: bool) -> (intent: Intent)
    ensures
        intent == intent_of(app.view, app.input_mode, key, ctrl),
{
    if app.input_mode {
        handle_input_mode(app.view, key)
    } else {
        match app.view {
            Screen::LinkSettings => handle_settings_mode(key),
            Screen::Logs => handle_logs_mode(key, ctrl),
            Screen::M3UConfirm => handle_m3u_confirm_mode(key),
            Screen::ConvertSettings => handle_convert_settings_mode(key),
            Screen::ConvertConfirm => handle_yes_no(
                key,
                Intent::ConfirmDeleteOriginal,
                Intent::CancelDeleteOriginal,
            ),
            Screen::ConvertBatchConfirm => handle_yes_no(
                key,
                Intent::ConfirmBatchDelete,
                Intent::CancelBatchDelete,
            ),
            Screen::CleanupConfirm => handle_yes_no(
                key,
                Intent::ConfirmCleanup,
                Intent::CancelCleanup,
            ),
            Screen::ErrorLog => handle_error_log_mode(key, ctrl),
            _ => handle_normal_mode(app.view, key, ctrl),
        }
    }
}

impl App {
    /// Adds a character to the text that is being entered.
    pub fn type_char(&mut self, c: char)
        ensures
            *final(self) == (App { input: final(self).input, ..*old(self) }),
            final(self).input@ == old(self).input@.push(c),
    {
        self.input.push(c);
    }

    /// Takes the last character off the text that is being entered.
    pub fn erase_char(&mut self)
        ensures
            *final(self) == (App { input: final(self).input, ..*old(self) }),
            final(self).input@ == if old(self).input@.len() > 0 {
                old(self).input@.drop_last()
            } else {
                old(self).input@
            },
    {
        let v = chars_of(self.input.as_str());
        if v.len() > 0 {
            self.input = string_of_range(&v, 0, v.len() - 1);
            assert(v@.subrange(0, v.len() - 1) =~= v@.drop_last());
        }
    }

    /// Leaves the journal window for the main screen.
    pub fn leave_error_log(&mut self)
        ensures
            *final(self) == (App {
                view: Screen::Main,
                status_message: final(self).status_message,
                ..*old(self)
            }),
            final(self).status_message@ == "Returned to main view"@,
    {
        self.view = Screen::Main;
        self.status_message = String::from_str("Returned to main view");
    }
}

} // verus!
