//! What the library decides about the tags of audio files: which kind of
//! tag a file carries, what is read off the text of a tag, and how small a
//! cover has to become.

use crate::paths::{extension, extension_of};
use crate::text::{chars_of, decimal, decimal_of, lowercase_of, text_eq};
use vstd::prelude::*;
use vstd::string::StringExecFns;

verus! {

/// All that was read of the tags of an audio file.
#[derive(Debug, PartialEq)]
pub struct AudioTags {
    pub title: Option<String>,
    pub artist: Option<String>,
    pub album: Option<String>,
    pub genre: Option<String>,
    pub track: Option<u32>,
    pub year: Option<i32>,
    pub has_cover: bool,
}

impl AudioTags {
    /// Tags of which nothing is known.
    pub fn empty() -> (tags: AudioTags)
        ensures
            tags.title is None,
            tags.artist is None,
            tags.album is None,
            tags.genre is None,
            tags.track is None,
            tags.year is None,
            !tags.has_cover,
    {
        AudioTags {
            title: None,
            artist: None,
            album: None,
            genre: None,
            track: None,
            year: None,
            has_cover: false,
        }
    }
}

/// A text that may be missing, as a reader sees it.
pub open spec fn shown(text: Option<Seq<char>>) -> Seq<char> {
    match text {
        Some(t) => t,
        None => "(none)"@,
    }
}

/// The decimal numeral of `n`, with a minus sign where it is negative.
pub open spec fn signed_decimal(n: int) -> Seq<char> {
    if n < 0 {
        "-"@ + decimal_of((-n) as nat)
    } else {
        decimal_of(n as nat)
    }
}

/// The tags as lines of text.
pub open spec fn tags_text(
    title: Option<Seq<char>>,
    artist: Option<Seq<char>>,
    album: Option<Seq<char>>,
    genre: Option<Seq<char>>,
    track: Option<u32>,
    year: Option<i32>,
    has_cover: bool,
) -> Seq<char> {
    "  Title:  "@ + shown(title) + "\n  Artist: "@ + shown(artist) + "\n  Album:  "@ + shown(
        album,
    ) + "\n  Genre:  "@ + shown(genre) + "\n  Track:  "@ + (match track {
        Some(t) => decimal_of(t as nat),
        None => "(none)"@,
    }) + "\n  Year:   "@ + (match year {
        Some(y) => signed_decimal(y as int),
        None => "(none)"@,
    }) + "\n  Cover:  "@ + (if has_cover {
        "Yes"@
    } else {
        "No"@
    }) + "\n"@
}

fn append_shown(text: &mut String, value: &Option<String>)
    ensures
        final(text)@ == old(text)@ + shown(value.deep_view()),
{
    match value {
        Some(v) => text.append(v.as_str()),
        None => text.append("(none)"),
    }
}

fn signed(n: i32) -> (text: String)
    ensures
        text@ == signed_decimal(n as int),
{
    if n < 0 {
        let magnitude: usize = if n == i32::MIN {
            2147483648
        } else {
            (-n) as usize
        };
        let mut text = String::from_str("-");
        text.append(decimal(magnitude).as_str());
        text
    } else {
        decimal(n as usize)
    }
}

impl AudioTags {
    /// The tags as lines of text, one line for each tag.
    pub fn to_text(&self) -> (text: String)
        ensures
            text@ == tags_text(
                self.title.deep_view(),
                self.artist.deep_view(),
                self.album.deep_view(),
                self.genre.deep_view(),
                self.track,
                self.year,
                self.has_cover,
            ),
    {
        let mut text = String::from_str("  Title:  ");
        append_shown(&mut text, &self.title);
        text.append("\n  Artist: ");
        append_shown(&mut text, &self.artist);
        text.append("\n  Album:  ");
        append_shown(&mut text, &self.album);
        text.append("\n  Genre:  ");
        append_shown(&mut text, &self.genre);
        text.append("\n  Track:  ");
        match self.track {
            Some(t) => text.append(decimal(t as usize).as_str()),
            None => text.append("(none)"),
        }
        text.append("\n  Year:   ");
        match self.year {
            Some(y) => text.append(signed(y).as_str()),
            None => text.append("(none)"),
        }
        text.append("\n  Cover:  ");
        if self.has_cover {
            text.append("Yes");
        } else {
            text.append("No");
        }
        text.append("\n");
        text
    }
}

/// `s` without its null characters.
pub open spec fn without_nulls(s: Seq<char>) -> Seq<char>
    decreases s.len(),
{
    if s.len() == 0 {
        s
    } else if s.last() == '\0' {
        without_nulls(s.drop_last())
    } else {
        without_nulls(s.drop_last()).push(s.last())
    }
}

/// Sanitize a text for a Vorbis comment: no null characters.
pub fn sanitize_vorbis_string(s: &str) -> (clean: String)
    ensures
        clean@ == without_nulls(s@),
{
    let v = chars_of(s);
    let mut clean = String::new();
    let mut i: usize = 0;
    while i < v.len()
        invariant
            i <= v.len(),
            clean@ == without_nulls(v@.take(i as int)),
        decreases v.len() - i,
    {
        assert(v@.take(i + 1).drop_last() =~= v@.take(i as int));
        if v[i] != '\0' {
            clean.push(v[i]);
        }
        i += 1;
    }
    assert(v@.take(v@.len() as int) =~= v@);
    clean
}

/// The kinds of tag that audio files carry.
#[derive(Clone, Copy, Debug, PartialEq, Eq, Structural)]
pub enum TagFormat {
    /// Vorbis comments in a FLAC file.
    Flac,
    /// An ID3 tag at the head of the file.
    Id3,
    /// An ID3 tag in a chunk of a WAV file.
    Wav,
    /// An ID3 tag in a chunk of an AIFF file.
    Aiff,
}

/// The kind of tag that is read from a file with the extension `ext`
/// (in lower case), if its tags can be read.
pub open spec fn read_format(ext: Option<Seq<char>>) -> Option<TagFormat> {
    match ext {
        Some(e) => if e == "flac"@ {
            Some(TagFormat::Flac)
        } else if e == "mp3"@ {
            Some(TagFormat::Id3)
        } else if e == "wav"@ {
            Some(TagFormat::Wav)
        } else if e == "aiff"@ || e == "aif"@ {
            Some(TagFormat::Aiff)
        } else {
            None
        },
        None => None,
    }
}

/// The kind of tag that is written to a file with the extension `ext`
/// (in lower case).
pub open spec fn write_format(ext: Option<Seq<char>>) -> TagFormat {
    match ext {
        Some(e) => if e == "flac"@ {
            TagFormat::Flac
        } else if e == "wav"@ {
            TagFormat::Wav
        } else if e == "aiff"@ || e == "aif"@ {
            TagFormat::Aiff
        } else {
            TagFormat::Id3
        },
        None => TagFormat::Id3,
    }
}

/// The extension of `path` in lower case.
pub open spec fn lower_extension(path: Seq<char>) -> Option<Seq<char>> {
    match extension_of(path) {
        Some(e) => Some(lowercase_of(e)),
        None => None,
    }
}

fn extension_lowered(path: &str) -> (ext: Option<String>)
    ensures
        ext.deep_view() == lower_extension(path@),
{
    match extension(path) {
        Some(e) => Some(e.as_str().to_lowercase()),
        None => None,
    }
}

/// The kind of tag to read for an extension in lower case.
pub fn reading_format(ext: &Option<String>) -> (format: Option<TagFormat>)
    ensures
        format == read_format(ext.deep_view()),
{
    match ext {
        Some(e) => if text_eq(e.as_str(), "flac") {
            Some(TagFormat::Flac)
        } else if text_eq(e.as_str(), "mp3") {
            Some(TagFormat::Id3)
        } else if text_eq(e.as_str(), "wav") {
            Some(TagFormat::Wav)
        } else if text_eq(e.as_str(), "aiff") || text_eq(e.as_str(), "aif") {
            Some(TagFormat::Aiff)
        } else {
            None
        },
        None => None,
    }
}

/// The kind of tag to write for an extension in lower case.
pub fn writing_format(ext: &Option<String>) -> (format: TagFormat)
    ensures
        format == write_format(ext.deep_view()),
{
    match ext {
        Some(e) => if text_eq(e.as_str(), "flac") {
            TagFormat::Flac
        } else if text_eq(e.as_str(), "wav") {
            TagFormat::Wav
        } else if text_eq(e.as_str(), "aiff") || text_eq(e.as_str(), "aif") {
            TagFormat::Aiff
        } else {
            TagFormat::Id3
        },
        None => TagFormat::Id3,
    }
}

/// The kind of tag that is read from the file `file_path`; none where the
/// tags of such a file cannot be read.
pub fn reading_format_of(file_path: &str) -> (format: Option<TagFormat>)
    ensures
        format == read_format(lower_extension(file_path@)),
{
    reading_format(&extension_lowered(file_path))
}

/// The kind of tag that is written to the file `file_path`.
pub fn writing_format_of(file_path: &str) -> (format: TagFormat)
    ensures
        format == write_format(lower_extension(file_path@)),
{
    writing_format(&extension_lowered(file_path))
}

/// The quality at which a cover is encoded first.
pub const FIRST_COVER_QUALITY: u8 = 85;

/// The quality at which a cover is encoded next, after it came out with
/// `size` bytes at the quality `quality`; none where the cover stays as it
/// is, because it is small enough or the quality cannot go lower.
pub open spec fn lower_quality(quality: u8, size: nat, max_bytes: nat) -> Option<u8> {
    if size <= max_bytes {
        None
    } else if quality > 80 {
        Some(80u8)
    } else if quality <= 30 {
        None
    } else {
        Some((quality - 10) as u8)
    }
}

pub fn next_cover_quality(quality: u8, size: usize, max_bytes: usize) -> (next: Option<u8>)
    ensures
        next == lower_quality(quality, size as nat, max_bytes as nat),
{
    if size <= max_bytes {
        None
    } else if quality > 80 {
        Some(80)
    } else if quality <= 30 {
        None
    } else {
        Some(quality - 10)
    }
}

/// Whether every character of `s` is a decimal digit.
pub open spec fn all_digits(s: Seq<char>) -> bool {
    forall|i: int| 0 <= i < s.len() ==> '0' <= #[trigger] s[i] <= '9'
}

/// The number that the digits `s` write.
pub open spec fn digits_value(s: Seq<char>) -> nat
    decreases s.len(),
{
    if s.len() == 0 {
        0
    } else {
        digits_value(s.drop_last()) * 10 + (s.last() as u32 - '0' as u32) as nat
    }
}

/// The year that the first four characters of `date` write: digits, with
/// a sign before them or without.
pub open spec fn year_of(date: Seq<char>) -> Option<i32> {
    let head = if date.len() > 4 {
        date.take(4)
    } else {
        date
    };
    if head.len() > 0 && (head[0] == '-' || head[0] == '+') {
        let digits = head.skip(1);
        if digits.len() > 0 && all_digits(digits) {
            if head[0] == '-' {
                Some((-(digits_value(digits) as int)) as i32)
            } else {
                Some(digits_value(digits) as i32)
            }
        } else {
            None
        }
    } else if head.len() > 0 && all_digits(head) {
        Some(digits_value(head) as i32)
    } else {
        None
    }
}

/// Reads the digits `v[from..to]`, at most four of them.
fn read_digits(v: &Vec<char>, from: usize, to: usize) -> (value: Option<u32>)
    requires
        from <= to <= v.len(),
        to - from <= 4,
    ensures
        match value {
            Some(n) => all_digits(v@.subrange(from as int, to as int)) && n == digits_value(
                v@.subrange(from as int, to as int),
            ) && n <= 9999,
            None => !all_digits(v@.subrange(from as int, to as int)),
        },
{
    let ghost s = v@.subrange(from as int, to as int);
    let mut value: u32 = 0;
    let mut i: usize = from;
    let ghost mut bound: nat = 0;
    while i < to
        invariant
            from <= i <= to <= v.len(),
            to - from <= 4,
            s == v@.subrange(from as int, to as int),
            all_digits(s.take(i - from)),
            value == digits_value(s.take(i - from)),
            value <= bound,
            bound == (if i - from == 0 {
                0nat
            } else if i - from == 1 {
                9nat
            } else if i - from == 2 {
                99nat
            } else if i - from == 3 {
                999nat
            } else {
                9999nat
            }),
        decreases to - i,
    {
        let c = v[i];
        assert(s[i - from] == c);
        if !('0' <= c && c <= '9') {
            return None;
        }
        proof {
            assert(s.take(i - from + 1).drop_last() =~= s.take(i - from));
            assert(s.take(i - from + 1).last() == c);
            bound = bound * 10 + 9;
        }
        value = value * 10 + (c as u32 - '0' as u32);
        i += 1;
    }
    assert(s.take(s.len() as int) =~= s);
    Some(value)
}

/// Reads the year off the text of a date.
pub fn year_from_date(date: &str) -> (year: Option<i32>)
    ensures
        year == year_of(date@),
{
    let v = chars_of(date);
    let end: usize = if v.len() > 4 {
        4
    } else {
        v.len()
    };
    let ghost head = if date@.len() > 4 {
        date@.take(4)
    } else {
        date@
    };
    assert(v@.subrange(0, end as int) =~= head);
    if end == 0 {
        return None;
    }
    if v[0] == '-' || v[0] == '+' {
        assert(v@.subrange(1, end as int) =~= head.skip(1));
        if end == 1 {
            return None;
        }
        match read_digits(&v, 1, end) {
            Some(n) => if v[0] == '-' {
                Some(-(n as i32))
            } else {
                Some(n as i32)
            },
            None => None,
        }
    } else {
        match read_digits(&v, 0, end) {
            Some(n) => Some(n as i32),
            None => None,
        }
    }
}

} // verus!
