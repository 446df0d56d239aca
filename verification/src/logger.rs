//! What a run without the interactive interface reports, and in which
//! form.
//!
//! The logger decides whether something is reported and what the report
//! holds; writing it out is left to its user.

use crate::cli::{HeadlessConfig, OutputFormat};
use crate::text::{decimal, decimal_of, text_eq};
use vstd::prelude::*;
use vstd::string::StringExecFns;

verus! {

/// A value that a report carries besides its message.
#[derive(Debug, PartialEq)]
pub enum LogValue {
    Text(String),
    Count(usize),
}

pub enum LogValueView {
    Text(Seq<char>),
    Count(usize),
}

impl View for LogValue {
    type V = LogValueView;

    open spec fn view(&self) -> LogValueView {
        match self {
            LogValue::Text(t) => LogValueView::Text(t@),
            LogValue::Count(n) => LogValueView::Count(*n),
        }
    }
}

impl DeepView for LogValue {
    type V = LogValueView;

    open spec fn deep_view(&self) -> LogValueView {
        self@
    }
}

/// A report in structured form.
#[derive(Debug, PartialEq)]
pub struct JsonEvent {
    pub event_type: String,
    pub message: String,
    /// The named values of the report, in order.
    pub data: Option<Vec<(String, LogValue)>>,
}

pub struct JsonEventView {
    pub event_type: Seq<char>,
    pub message: Seq<char>,
    pub data: Option<Seq<(Seq<char>, LogValueView)>>,
}

impl View for JsonEvent {
    type V = JsonEventView;

    open spec fn view(&self) -> JsonEventView {
        JsonEventView {
            event_type: self.event_type@,
            message: self.message@,
            data: self.data.deep_view(),
        }
    }
}

/// A report as it is to be written.
#[derive(Debug, PartialEq)]
pub enum Output {
    /// A line of text.
    Line(String),
    /// A structured report, to be written in one line.
    Json(JsonEvent),
}

pub enum OutputView {
    Line(Seq<char>),
    Json(JsonEventView),
}

impl View for Output {
    type V = OutputView;

    open spec fn view(&self) -> OutputView {
        match self {
            Output::Line(l) => OutputView::Line(l@),
            Output::Json(e) => OutputView::Json(e@),
        }
    }
}

impl DeepView for Output {
    type V = OutputView;

    open spec fn deep_view(&self) -> OutputView {
        self@
    }
}

/// The mark that tells the kind of a line of text.
pub open spec fn prefix_of(event_type: Seq<char>) -> Seq<char> {
    if event_type == "error"@ {
        "[ERROR]"@
    } else if event_type == "warn"@ {
        "[WARN]"@
    } else if event_type == "debug"@ {
        "[DEBUG]"@
    } else if event_type == "progress"@ || event_type == "track_start"@ {
        "[...]"@
    } else if event_type == "success"@ || event_type == "track_complete"@ || event_type
        == "album_complete"@ || event_type == "playlist_complete"@ {
        "[OK]"@
    } else if event_type == "track_skip"@ {
        "[SKIP]"@
    } else {
        "[INFO]"@
    }
}

/// A report as `config` wants it written.
pub open spec fn rendered(
    config: HeadlessConfig,
    event_type: Seq<char>,
    message: Seq<char>,
    data: Option<Seq<(Seq<char>, LogValueView)>>,
) -> OutputView {
    match config.output_format {
        OutputFormat::Json => OutputView::Json(JsonEventView { event_type, message, data }),
        OutputFormat::Text => if config.enabled {
            OutputView::Line(prefix_of(event_type) + " "@ + message)
        } else {
            OutputView::Line(message)
        },
    }
}

/// A report that is left out where `quiet` holds.
pub open spec fn unless(quiet: bool, output: OutputView) -> Option<OutputView> {
    if quiet {
        None
    } else {
        Some(output)
    }
}

fn prefix_for(event_type: &str) -> (prefix: &'static str)
    ensures
        prefix@ == prefix_of(event_type@),
{
    if text_eq(event_type, "error") {
        "[ERROR]"
    } else if text_eq(event_type, "warn") {
        "[WARN]"
    } else if text_eq(event_type, "debug") {
        "[DEBUG]"
    } else if text_eq(event_type, "progress") || text_eq(event_type, "track_start") {
        "[...]"
    } else if text_eq(event_type, "success") || text_eq(event_type, "track_complete") || text_eq(
        event_type,
        "album_complete",
    ) || text_eq(event_type, "playlist_complete") {
        "[OK]"
    } else if text_eq(event_type, "track_skip") {
        "[SKIP]"
    } else {
        "[INFO]"
    }
}

/// The text ` — ` between an artist and a title.
pub open spec fn dash() -> Seq<char> {
    " \u{2014} "@
}

/// The named values of a report about a track.
pub open spec fn track_data(artist: Seq<char>, title: Seq<char>) -> Seq<(Seq<char>, LogValueView)> {
    seq![("artist"@, LogValueView::Text(artist)), ("title"@, LogValueView::Text(title))]
}

fn data_of_track(artist: &str, title: &str) -> (data: Vec<(String, LogValue)>)
    ensures
        data.deep_view() == track_data(artist@, title@),
{
    let mut data: Vec<(String, LogValue)> = Vec::new();
    data.push((String::from_str("artist"), LogValue::Text(String::from_str(artist))));
    data.push((String::from_str("title"), LogValue::Text(String::from_str(title))));
    assert(data.deep_view() =~= track_data(artist@, title@));
    data
}

fn labelled(label: &str, artist: &str, title: &str) -> (text: String)
    ensures
        text@ == label@ + artist@ + dash() + title@,
{
    let mut text = String::from_str(label);
    text.append(artist);
    text.append(" \u{2014} ");
    text.append(title);
    text
}

/// Reports for a run without the interactive interface.
#[derive(Clone, Copy, Debug)]
pub struct Logger {
    pub config: HeadlessConfig,
}

impl Logger {
    pub fn new(config: HeadlessConfig) -> (logger: Logger)
        ensures
            logger.config == config,
    {
        Logger { config }
    }

    /// A report in the form that the settings ask for.
    pub fn output(&self, event_type: &str, message: &str, data: Option<Vec<(String, LogValue)>>) -> (out:
        Output)
        ensures
            out@ == rendered(self.config, event_type@, message@, data.deep_view()),
    {
        match self.config.output_format {
            OutputFormat::Json => Output::Json(
                JsonEvent {
                    event_type: String::from_str(event_type),
                    message: String::from_str(message),
                    data,
                },
            ),
            OutputFormat::Text => if self.config.enabled {
                let mut line = String::from_str(prefix_for(event_type));
                line.append(" ");
                line.append(message);
                Output::Line(line)
            } else {
                Output::Line(String::from_str(message))
            },
        }
    }

    pub fn info(&self, message: &str) -> (out: Option<Output>)
        ensures
            out.deep_view() == unless(
                self.config.quiet,
                rendered(self.config, "info"@, message@, None),
            ),
    {
        if self.config.quiet {
            return None;
        }
        Some(self.output("info", message, None))
    }

    pub fn progress(&self, message: &str) -> (out: Option<Output>)
        ensures
            out.deep_view() == unless(
                self.config.quiet,
                rendered(self.config, "progress"@, message@, None),
            ),
    {
        if self.config.quiet {
            return None;
        }
        Some(self.output("progress", message, None))
    }

    pub fn success(&self, message: &str) -> (out: Option<Output>)
        ensures
            out.deep_view() == unless(
                self.config.quiet,
                rendered(self.config, "success"@, message@, None),
            ),
    {
        if self.config.quiet {
            return None;
        }
        Some(self.output("success", message, None))
    }

    pub fn warn(&self, message: &str) -> (out: Output)
        ensures
            out@ == rendered(self.config, "warn"@, message@, None),
    {
        self.output("warn", message, None)
    }

    pub fn error(&self, message: &str) -> (out: Output)
        ensures
            out@ == rendered(self.config, "error"@, message@, None),
    {
        self.output("error", message, None)
    }

    pub fn debug(&self, message: &str) -> (out: Option<Output>)
        ensures
            out.deep_view() == unless(
                !self.config.verbose,
                rendered(self.config, "debug"@, message@, None),
            ),
    {
        if !self.config.verbose {
            return None;
        }
        Some(self.output("debug", message, None))
    }

    pub fn track_start(&self, artist: &str, title: &str) -> (out: Option<Output>)
        ensures
            out.deep_view() == unless(
                self.config.quiet,
                rendered(
                    self.config,
                    "track_start"@,
                    "Downloading: "@ + artist@ + dash() + title@,
                    Some(track_data(artist@, title@)),
                ),
            ),
    {
        if self.config.quiet {
            return None;
        }
        let message = labelled("Downloading: ", artist, title);
        Some(self.output("track_start", message.as_str(), Some(data_of_track(artist, title))))
    }

    pub fn track_skip(&self, artist: &str, title: &str) -> (out: Option<Output>)
        ensures
            out.deep_view() == unless(
                self.config.quiet,
                rendered(
                    self.config,
                    "track_skip"@,
                    "Skipping: "@ + artist@ + dash() + title@,
                    Some(track_data(artist@, title@)),
                ),
            ),
    {
        if self.config.quiet {
            return None;
        }
        let message = labelled("Skipping: ", artist, title);
        Some(self.output("track_skip", message.as_str(), Some(data_of_track(artist, title))))
    }

    pub fn track_complete(&self, artist: &str, title: &str, path: &str) -> (out: Option<Output>)
        ensures
            out.deep_view() == unless(
                self.config.quiet,
                rendered(
                    self.config,
                    "track_complete"@,
                    "Complete: "@ + artist@ + dash() + title@,
                    Some(track_data(artist@, title@).push(("path"@, LogValueView::Text(path@)))),
                ),
            ),
    {
        if self.config.quiet {
            return None;
        }
        let message = labelled("Complete: ", artist, title);
        let mut data = data_of_track(artist, title);
        let ghost before = data.deep_view();
        data.push((String::from_str("path"), LogValue::Text(String::from_str(path))));
        assert(data.deep_view() =~= before.push(("path"@, LogValueView::Text(path@))));
        Some(self.output("track_complete", message.as_str(), Some(data)))
    }

    pub fn album_complete(&self, name: &str, artist: &str, track_count: usize) -> (out: Output)
        ensures
            out@ == rendered(
                self.config,
                "album_complete"@,
                "Album '"@ + name@ + "' by "@ + artist@ + " finished."@,
                Some(
                    seq![
                        ("album"@, LogValueView::Text(name@)),
                        ("artist"@, LogValueView::Text(artist@)),
                        ("tracks"@, LogValueView::Count(track_count)),
                    ],
                ),
            ),
    {
        let mut message = String::from_str("Album '");
        message.append(name);
        message.append("' by ");
        message.append(artist);
        message.append(" finished.");
        let mut data: Vec<(String, LogValue)> = Vec::new();
        data.push((String::from_str("album"), LogValue::Text(String::from_str(name))));
        data.push((String::from_str("artist"), LogValue::Text(String::from_str(artist))));
        data.push((String::from_str("tracks"), LogValue::Count(track_count)));
        assert(data.deep_view() =~= seq![
            ("album"@, LogValueView::Text(name@)),
            ("artist"@, LogValueView::Text(artist@)),
            ("tracks"@, LogValueView::Count(track_count)),
        ]);
        self.output("album_complete", message.as_str(), Some(data))
    }

    pub fn playlist_complete(&self, name: &str, track_count: usize) -> (out: Output)
        ensures
            out@ == rendered(
                self.config,
                "playlist_complete"@,
                "Playlist '"@ + name@ + "' with "@ + decimal_of(track_count as nat)
                    + " tracks finished."@,
                Some(
                    seq![
                        ("playlist"@, LogValueView::Text(name@)),
                        ("tracks"@, LogValueView::Count(track_count)),
                    ],
                ),
            ),
    {
        let mut message = String::from_str("Playlist '");
        message.append(name);
        message.append("' with ");
        message.append(decimal(track_count).as_str());
        message.append(" tracks finished.");
        let mut data: Vec<(String, LogValue)> = Vec::new();
        data.push((String::from_str("playlist"), LogValue::Text(String::from_str(name))));
        data.push((String::from_str("tracks"), LogValue::Count(track_count)));
        assert(data.deep_view() =~= seq![
            ("playlist"@, LogValueView::Text(name@)),
            ("tracks"@, LogValueView::Count(track_count)),
        ]);
        self.output("playlist_complete", message.as_str(), Some(data))
    }
}

} // verus!
