//! What the external downloader is asked to do, and what is made of its
//! output.

use crate::paths::{with_extension, with_extension_of};
use crate::text::{text_eq, trim, trimmed};
use vstd::prelude::*;
use vstd::string::StringExecFns;

verus! {

/// The downloader's audio quality value, from 0 (best) to 10 (worst).
pub open spec fn ytdlp_quality(quality: Seq<char>) -> Seq<char> {
    if quality == "medium"@ {
        "5"@
    } else if quality == "low"@ {
        "9"@
    } else {
        "0"@
    }
}

/// Convert a quality name to the downloader's audio quality value.
pub fn quality_to_ytdlp(quality: &str) -> (value: &'static str)
    ensures
        value@ == ytdlp_quality(quality@),
{
    if text_eq(quality, "medium") {
        "5"
    } else if text_eq(quality, "low") {
        "9"
    } else {
        "0"
    }
}

/// The downloader's arguments for fetching the audio that `query` finds
/// into `output_file`, in the given format and quality.
pub open spec fn downloader_args(
    query: Seq<char>,
    output_file: Seq<char>,
    format: Seq<char>,
    quality: Seq<char>,
) -> Seq<Seq<char>> {
    seq![
        "-x"@,
        "--no-playlist"@,
        "--audio-format"@,
        format,
        "--audio-quality"@,
        ytdlp_quality(quality),
        "--newline"@,
        "--progress"@,
        "-o"@,
        with_extension_of(output_file, format),
        "ytsearch1:"@ + query,
    ]
}

pub fn download_arguments(query: &str, output_file: &str, format: &str, quality: &str) -> (args:
    Vec<String>)
    ensures
        args.deep_view() == downloader_args(query@, output_file@, format@, quality@),
{
    let mut search = String::from_str("ytsearch1:");
    search.append(query);
    let mut args: Vec<String> = Vec::new();
    args.push(String::from_str("-x"));
    args.push(String::from_str("--no-playlist"));
    args.push(String::from_str("--audio-format"));
    args.push(String::from_str(format));
    args.push(String::from_str("--audio-quality"));
    args.push(String::from_str(quality_to_ytdlp(quality)));
    args.push(String::from_str("--newline"));
    args.push(String::from_str("--progress"));
    args.push(String::from_str("-o"));
    args.push(with_extension(output_file, format));
    args.push(search);
    assert(args.deep_view() =~= downloader_args(query@, output_file@, format@, quality@));
    args
}

/// What is passed on of a line that the downloader printed: the line
/// without surrounding white space, unless nothing is left of it.
pub open spec fn passed_on(line: Seq<char>) -> Option<Seq<char>> {
    if trimmed(line).len() > 0 {
        Some(trimmed(line))
    } else {
        None
    }
}

pub fn output_line(line: &str) -> (kept: Option<String>)
    ensures
        match kept {
            Some(t) => passed_on(line@) == Some(t@),
            None => passed_on(line@) is None,
        },
{
    let t = trim(line);
    if t.as_str().unicode_len() > 0 {
        Some(t)
    } else {
        None
    }
}

/// The text that reports a failed run of the downloader.
pub fn download_failure(query: &str) -> (text: String)
    ensures
        text@ == "yt-dlp failed for query: "@ + query@,
{
    let mut text = String::from_str("yt-dlp failed for query: ");
    text.append(query);
    text
}

} // verus!
