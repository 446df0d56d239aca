//! Command-line options as plain data, and the runtime profile derived from
//! them.

use vstd::prelude::*;

verus! {

/// One invocation of the program.
pub struct Cli {
    /// The subcommand; without one the interactive interface starts.
    pub command: Option<Commands>,
    /// Portable mode: MP3 only, FAT32-safe names, shallow folders, small
    /// cover art.
    pub portable: bool,
}

pub enum Commands {
    Album { format: String, quality: String, link: String },
    Playlist { format: String, quality: String, link: String },
    /// Convert audio files between formats.
    Convert { input: String, to: String, quality: String, refresh_metadata: bool, recursive: bool },
    /// Remove catalog entries whose files are gone.
    Cleanup { dry_run: bool, verbose: bool },
    /// Inspect, clear or retry journaled failures.
    Retry {
        error_type: String,
        id: Option<String>,
        date: Option<String>,
        list: bool,
        clear: bool,
        clear_date: Option<String>,
    },
}

/// Limits that depend on whether output is meant for a constrained player.
#[derive(Clone, Copy, Debug, PartialEq, Eq, Structural)]
pub struct PortableConfig {
    pub enabled: bool,
    pub max_cover_dim: u32,
    pub max_cover_bytes: usize,
    pub max_filename_len: usize,
}

impl PortableConfig {
    /// The profile for portable mode switched on or off.
    pub open spec fn profile(portable: bool) -> PortableConfig {
        if portable {
            PortableConfig {
                enabled: true,
                max_cover_dim: 128,
                max_cover_bytes: 65536,
                max_filename_len: 64,
            }
        } else {
            PortableConfig {
                enabled: false,
                max_cover_dim: 500,
                max_cover_bytes: 307200,
                max_filename_len: 100,
            }
        }
    }

    pub fn for_mode(portable: bool) -> (config: PortableConfig)
        ensures
            config == Self::profile(portable),
    {
        if portable {
            PortableConfig {
                enabled: true,
                max_cover_dim: 128,
                max_cover_bytes: 65536,
                max_filename_len: 64,
            }
        } else {
            PortableConfig {
                enabled: false,
                max_cover_dim: 500,
                max_cover_bytes: 307200,
                max_filename_len: 100,
            }
        }
    }

    pub fn from_cli(cli: &Cli) -> (config: PortableConfig)
        ensures
            config == Self::profile(cli.portable),
    {
        Self::for_mode(cli.portable)
    }
}

/// How a run without the interactive interface writes what it reports.
#[derive(Clone, Copy, Debug, PartialEq, Eq, Structural)]
pub enum OutputFormat {
    Text,
    Json,
}

/// The settings of a run without the interactive interface.
#[derive(Clone, Copy, Debug, PartialEq, Eq, Structural)]
pub struct HeadlessConfig {
    /// Whether lines of text carry a mark that tells their kind.
    pub enabled: bool,
    /// Whether only warnings, errors and summaries are reported.
    pub quiet: bool,
    /// Whether details are reported too.
    pub verbose: bool,
    pub output_format: OutputFormat,
}

} // verus!
