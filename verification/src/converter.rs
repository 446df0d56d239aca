//! What the library decides about a conversion between audio formats: which
//! formats it accepts, what the encoder is asked to do, which of the
//! encoder's output lines are passed on, and how a run is judged.

use crate::paths::{extension, extension_of, file_exists, with_extension, with_extension_of};
use crate::text::{
    chars_of, contains_text, find_text, has_prefix, lowercase_of, matches_at, string_of_range,
    text_eq, trim_bounds, trimmed, Strip,
};
use vstd::prelude::*;
use vstd::string::StringExecFns;

verus! {

/// Whether `format`, written in lower case, is a format the encoder is used
/// for.
pub open spec fn is_known_format(format: Seq<char>) -> bool {
    format == "mp3"@ || format == "flac"@ || format == "wav"@ || format == "aac"@
}

/// The bit rate for a lossy format at a quality; lossless formats have none.
pub open spec fn bitrate_for(format: Seq<char>, quality: Seq<char>) -> Option<Seq<char>> {
    if format == "mp3"@ {
        Some(
            if quality == "medium"@ {
                "192k"@
            } else if quality == "low"@ {
                "128k"@
            } else {
                "320k"@
            },
        )
    } else if format == "aac"@ {
        Some(
            if quality == "medium"@ {
                "192k"@
            } else if quality == "low"@ {
                "128k"@
            } else {
                "256k"@
            },
        )
    } else {
        None
    }
}

/// The codec that the encoder uses for a format.
pub open spec fn codec_for(format: Seq<char>) -> Seq<char> {
    if format == "flac"@ {
        "flac"@
    } else if format == "wav"@ {
        "pcm_s16le"@
    } else if format == "aac"@ {
        "aac"@
    } else {
        "libmp3lame"@
    }
}

/// Convert a quality name to the encoder's bit rate for lossy formats.
pub fn quality_to_bitrate(format: &str, quality: &str) -> (rate: Option<&'static str>)
    ensures
        match rate {
            Some(r) => bitrate_for(format@, quality@) == Some(r@),
            None => bitrate_for(format@, quality@) is None,
        },
{
    if text_eq(format, "mp3") {
        if text_eq(quality, "medium") {
            Some("192k")
        } else if text_eq(quality, "low") {
            Some("128k")
        } else {
            Some("320k")
        }
    } else if text_eq(format, "aac") {
        if text_eq(quality, "medium") {
            Some("192k")
        } else if text_eq(quality, "low") {
            Some("128k")
        } else {
            Some("256k")
        }
    } else {
        None
    }
}

/// The encoder's codec for a format.
pub fn format_to_codec(format: &str) -> (codec: &'static str)
    ensures
        codec@ == codec_for(format@),
{
    if text_eq(format, "flac") {
        "flac"
    } else if text_eq(format, "wav") {
        "pcm_s16le"
    } else if text_eq(format, "aac") {
        "aac"
    } else {
        "libmp3lame"
    }
}

/// Whether a format name that is already in lower case is supported.
pub fn is_supported_lowercase(format: &str) -> (known: bool)
    ensures
        known == is_known_format(format@),
{
    text_eq(format, "mp3") || text_eq(format, "flac") || text_eq(format, "wav") || text_eq(
        format,
        "aac",
    )
}

/// Check if a format is supported, whatever its case.
pub fn is_supported_format(format: &str) -> (known: bool)
    ensures
        known == is_known_format(lowercase_of(format@)),
{
    let lower = format.to_lowercase();
    is_supported_lowercase(lower.as_str())
}

/// The format that the extension of `path` names, in lower case.
pub fn get_format_from_path(path: &str) -> (format: Option<String>)
    ensures
        match format {
            Some(f) => extension_of(path@) is Some && f@ == lowercase_of(extension_of(path@)->0),
            None => extension_of(path@) is None,
        },
{
    match extension(path) {
        Some(ext) => Some(ext.as_str().to_lowercase()),
        None => None,
    }
}

/// Whether files with this extension, in lower case, hold audio.
pub open spec fn is_audio_extension(extension: Seq<char>) -> bool {
    is_known_format(extension) || extension == "m4a"@
}

/// Whether the extension of `path` is that of an audio file, whatever its
/// case.
pub fn is_audio_file(path: &str) -> (audio: bool)
    ensures
        audio == match extension_of(path@) {
            Some(e) => is_audio_extension(lowercase_of(e)),
            None => false,
        },
{
    match get_format_from_path(path) {
        Some(format) => is_supported_lowercase(format.as_str()) || text_eq(format.as_str(), "m4a"),
        None => false,
    }
}

/// Why a conversion did not produce a file.
#[derive(Debug)]
pub enum ConvertError {
    /// The target format (held in lower case) is not supported.
    UnsupportedFormat(String),
    /// The input file (held) does not exist.
    MissingInput(String),
    /// The output would be the input file itself.
    SameFormat,
    /// The encoder could not be started.
    SpawnFailed,
    /// The encoder could not be waited for.
    WaitFailed,
    /// The encoder reported failure for the input (held).
    EncoderFailed(String),
    /// The encoder reported success but the output file (held) is not there.
    MissingOutput(String),
}

/// What a `ConvertError` holds.
pub enum ConvertErrorView {
    UnsupportedFormat(Seq<char>),
    MissingInput(Seq<char>),
    SameFormat,
    SpawnFailed,
    WaitFailed,
    EncoderFailed(Seq<char>),
    MissingOutput(Seq<char>),
}

impl View for ConvertError {
    type V = ConvertErrorView;

    open spec fn view(&self) -> ConvertErrorView {
        match self {
            ConvertError::UnsupportedFormat(f) => ConvertErrorView::UnsupportedFormat(f@),
            ConvertError::MissingInput(p) => ConvertErrorView::MissingInput(p@),
            ConvertError::SameFormat => ConvertErrorView::SameFormat,
            ConvertError::SpawnFailed => ConvertErrorView::SpawnFailed,
            ConvertError::WaitFailed => ConvertErrorView::WaitFailed,
            ConvertError::EncoderFailed(p) => ConvertErrorView::EncoderFailed(p@),
            ConvertError::MissingOutput(p) => ConvertErrorView::MissingOutput(p@),
        }
    }
}

/// The text that a user reads for a `ConvertError`.
pub open spec fn convert_error_text(e: ConvertErrorView) -> Seq<char> {
    match e {
        ConvertErrorView::UnsupportedFormat(f) => "Unsupported output format: "@ + f
            + ". Supported: [\"mp3\", \"flac\", \"wav\", \"aac\"]"@,
        ConvertErrorView::MissingInput(p) => "Input file does not exist: "@ + p,
        ConvertErrorView::SameFormat => "Input and output formats are the same"@,
        ConvertErrorView::SpawnFailed => "Failed to spawn FFmpeg. Is it installed?"@,
        ConvertErrorView::WaitFailed => "Failed to wait for FFmpeg"@,
        ConvertErrorView::EncoderFailed(p) => "FFmpeg conversion failed for: "@ + p,
        ConvertErrorView::MissingOutput(p) => "FFmpeg completed but output file was not created: "@
            + p,
    }
}

impl ConvertError {
    /// The text that a user reads for this error.
    pub fn message(&self) -> (text: String)
        ensures
            text@ == convert_error_text(self@),
    {
        match self {
            ConvertError::UnsupportedFormat(f) => {
                let mut s = String::from_str("Unsupported output format: ");
                s.append(f.as_str());
                s.append(". Supported: [\"mp3\", \"flac\", \"wav\", \"aac\"]");
                s
            },
            ConvertError::MissingInput(p) => {
                let mut s = String::from_str("Input file does not exist: ");
                s.append(p.as_str());
                s
            },
            ConvertError::SameFormat => String::from_str("Input and output formats are the same"),
            ConvertError::SpawnFailed => String::from_str(
                "Failed to spawn FFmpeg. Is it installed?",
            ),
            ConvertError::WaitFailed => String::from_str("Failed to wait for FFmpeg"),
            ConvertError::EncoderFailed(p) => {
                let mut s = String::from_str("FFmpeg conversion failed for: ");
                s.append(p.as_str());
                s
            },
            ConvertError::MissingOutput(p) => {
                let mut s = String::from_str("FFmpeg completed but output file was not created: ");
                s.append(p.as_str());
                s
            },
        }
    }
}

/// One run of the encoder, decided before it starts.
#[derive(Debug)]
pub struct ConversionPlan {
    pub input_path: String,
    pub output_path: String,
    pub codec: String,
    /// The encoder's arguments, in order.
    pub args: Vec<String>,
    /// The line that announces the run.
    pub announcement: String,
}

/// What a `ConversionPlan` holds.
pub struct ConversionPlanView {
    pub input_path: Seq<char>,
    pub output_path: Seq<char>,
    pub codec: Seq<char>,
    pub args: Seq<Seq<char>>,
    pub announcement: Seq<char>,
}

impl View for ConversionPlan {
    type V = ConversionPlanView;

    open spec fn view(&self) -> ConversionPlanView {
        ConversionPlanView {
            input_path: self.input_path@,
            output_path: self.output_path@,
            codec: self.codec@,
            args: self.args.deep_view(),
            announcement: self.announcement@,
        }
    }
}

/// The encoder's arguments for a run that writes `output` from `input` in
/// the supported format `format` (lower case).
pub open spec fn encoder_args(
    input: Seq<char>,
    output: Seq<char>,
    format: Seq<char>,
    quality: Seq<char>,
) -> Seq<Seq<char>> {
    let head = seq!["-i"@, input, "-codec:a"@, codec_for(format)];
    let rate = match bitrate_for(format, quality) {
        Some(r) => seq!["-b:a"@, r],
        None => Seq::<Seq<char>>::empty(),
    };
    head + rate + seq!["-y"@, "-progress"@, "pipe:1"@, output]
}

/// The plan for converting `input` to the format whose lower-case name is
/// `format`, or the reason why there is none. `input_exists` says whether
/// the input file is there.
pub open spec fn planned(
    input: Seq<char>,
    format: Seq<char>,
    quality: Seq<char>,
    input_exists: bool,
) -> Result<ConversionPlanView, ConvertErrorView> {
    let output = with_extension_of(input, format);
    if !is_known_format(format) {
        Err(ConvertErrorView::UnsupportedFormat(format))
    } else if !input_exists {
        Err(ConvertErrorView::MissingInput(input))
    } else if input == output {
        Err(ConvertErrorView::SameFormat)
    } else {
        Ok(
            ConversionPlanView {
                input_path: input,
                output_path: output,
                codec: codec_for(format),
                args: encoder_args(input, output, format, quality),
                announcement: "Converting "@ + input + " -> "@ + output + " (codec: "@
                    + codec_for(format) + ")"@,
            },
        )
    }
}

/// Plans the conversion of `input_path` to the format `format`, which must
/// be given in lower case. `input_exists` says whether the input is there.
pub fn plan_conversion(input_path: &str, format: &str, quality: &str, input_exists: bool) -> (plan:
    Result<ConversionPlan, ConvertError>)
    ensures
        match plan {
            Ok(p) => planned(input_path@, format@, quality@, input_exists) == Ok::<
                ConversionPlanView,
                ConvertErrorView,
            >(p@),
            Err(e) => planned(input_path@, format@, quality@, input_exists) == Err::<
                ConversionPlanView,
                ConvertErrorView,
            >(e@),
        },
{
    if !is_supported_lowercase(format) {
        return Err(ConvertError::UnsupportedFormat(String::from_str(format)));
    }
    if !input_exists {
        return Err(ConvertError::MissingInput(String::from_str(input_path)));
    }
    let output_path = with_extension(input_path, format);
    if text_eq(input_path, output_path.as_str()) {
        return Err(ConvertError::SameFormat);
    }
    let codec = format_to_codec(format);
    let mut args: Vec<String> = Vec::new();
    args.push(String::from_str("-i"));
    args.push(String::from_str(input_path));
    args.push(String::from_str("-codec:a"));
    args.push(String::from_str(codec));
    match quality_to_bitrate(format, quality) {
        Some(rate) => {
            args.push(String::from_str("-b:a"));
            args.push(String::from_str(rate));
        },
        None => {},
    }
    args.push(String::from_str("-y"));
    args.push(String::from_str("-progress"));
    args.push(String::from_str("pipe:1"));
    args.push(output_path.clone());
    let mut announcement = String::from_str("Converting ");
    announcement.append(input_path);
    announcement.append(" -> ");
    announcement.append(output_path.as_str());
    announcement.append(" (codec: ");
    announcement.append(codec);
    announcement.append(")");
    assert(args.deep_view() =~= encoder_args(input_path@, output_path@, format@, quality@));
    Ok(
        ConversionPlan {
            input_path: String::from_str(input_path),
            output_path,
            codec: String::from_str(codec),
            args,
            announcement,
        },
    )
}

/// Plans the conversion of `input_path` to `output_format` (in any case).
/// Whether the input exists is asked of the disk, so the plan is the one
/// that `plan_conversion` makes for one of the two answers.
pub fn prepare_conversion(input_path: &str, output_format: &str, quality: &str) -> (plan: Result<
    ConversionPlan,
    ConvertError,
>)
    ensures
        exists|input_exists: bool|
            match plan {
                Ok(p) => #[trigger] planned(
                    input_path@,
                    lowercase_of(output_format@),
                    quality@,
                    input_exists,
                ) == Ok::<ConversionPlanView, ConvertErrorView>(p@),
                Err(e) => #[trigger] planned(
                    input_path@,
                    lowercase_of(output_format@),
                    quality@,
                    input_exists,
                ) == Err::<ConversionPlanView, ConvertErrorView>(e@),
            },
{
    let format = output_format.to_lowercase();
    let input_exists = file_exists(input_path);
    plan_conversion(input_path, format.as_str(), quality, input_exists)
}

/// How a finished run of the encoder is judged: the output path, or why
/// there is no output.
pub open spec fn judged(plan: ConversionPlanView, succeeded: bool, output_exists: bool) -> Result<
    Seq<char>,
    ConvertErrorView,
> {
    if !succeeded {
        Err(ConvertErrorView::EncoderFailed(plan.input_path))
    } else if !output_exists {
        Err(ConvertErrorView::MissingOutput(plan.output_path))
    } else {
        Ok(plan.output_path)
    }
}

/// Judges a finished run: `succeeded` is the encoder's exit status,
/// `output_exists` whether the output file is there.
pub fn conclude_conversion(plan: &ConversionPlan, succeeded: bool, output_exists: bool) -> (out:
    Result<String, ConvertError>)
    ensures
        match out {
            Ok(p) => judged(plan@, succeeded, output_exists) == Ok::<Seq<char>, ConvertErrorView>(
                p@,
            ),
            Err(e) => judged(plan@, succeeded, output_exists) == Err::<Seq<char>, ConvertErrorView>(
                e@,
            ),
        },
{
    if !succeeded {
        Err(ConvertError::EncoderFailed(plan.input_path.clone()))
    } else if !output_exists {
        Err(ConvertError::MissingOutput(plan.output_path.clone()))
    } else {
        Ok(plan.output_path.clone())
    }
}

/// What is reported for a line of the encoder's progress stream: the time
/// reached, for the lines that give one.
pub open spec fn progress_report(line: Seq<char>) -> Option<Seq<char>> {
    let t = trimmed(line);
    if has_prefix(t, "out_time="@) {
        Some("Progress: "@ + t.skip("out_time="@.len() as int))
    } else {
        None
    }
}

pub fn progress_message(line: &str) -> (report: Option<String>)
    ensures
        match report {
            Some(r) => progress_report(line@) == Some(r@),
            None => progress_report(line@) is None,
        },
{
    let v = chars_of(line);
    let (start, end) = trim_bounds(&v, Strip::Whitespace);
    let prefix = chars_of("out_time=");
    let ghost t = trimmed(line@);
    if prefix.len() <= end - start && matches_at(&v, &prefix, start) {
        let rest = string_of_range(&v, start + prefix.len(), end);
        let mut out = String::from_str("Progress: ");
        out.append(rest.as_str());
        proof {
            assert(t.subrange(0, prefix@.len() as int) =~= v@.subrange(
                start as int,
                start + prefix@.len(),
            ));
            assert(t.skip(prefix@.len() as int) =~= v@.subrange(
                start + prefix@.len(),
                end as int,
            ));
        }
        Some(out)
    } else {
        proof {
            if has_prefix(t, prefix@) {
                assert(t.subrange(0, prefix@.len() as int) =~= v@.subrange(
                    start as int,
                    start + prefix@.len(),
                ));
            }
        }
        None
    }
}

/// Whether a line of the encoder's log is worth passing on.
pub open spec fn is_notable(t: Seq<char>) -> bool {
    contains_text(t, "Error"@) || contains_text(t, "error"@) || contains_text(t, "Warning"@)
        || contains_text(t, "Output"@) || contains_text(t, "Stream"@)
}

/// What is reported for a line of the encoder's log: the trimmed line, if
/// it is notable.
pub open spec fn log_report(line: Seq<char>) -> Option<Seq<char>> {
    let t = trimmed(line);
    if t.len() > 0 && is_notable(t) {
        Some(t)
    } else {
        None
    }
}

fn holds(t: &Vec<char>, word: &str) -> (found: bool)
    ensures
        found == contains_text(t@, word@),
{
    let w = chars_of(word);
    find_text(t, &w).is_some()
}

pub fn log_message(line: &str) -> (report: Option<String>)
    ensures
        match report {
            Some(r) => log_report(line@) == Some(r@),
            None => log_report(line@) is None,
        },
{
    let v = chars_of(line);
    let (start, end) = trim_bounds(&v, Strip::Whitespace);
    let kept = string_of_range(&v, start, end);
    let t = chars_of(kept.as_str());
    if t.len() > 0 && (holds(&t, "Error") || holds(&t, "error") || holds(&t, "Warning") || holds(
        &t,
        "Output",
    ) || holds(&t, "Stream")) {
        Some(kept)
    } else {
        None
    }
}

} // verus!
