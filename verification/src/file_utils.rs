//! File names that are safe to create, for ordinary and for portable output.

use crate::cli::PortableConfig;
use crate::text::{chars_of, string_of_range, trim_bounds, trimmed, trimmed_by, Strip};
use vstd::prelude::*;
use vstd::string::StringExecFns;

verus! {

/// Characters that file systems reserve.
pub open spec fn is_reserved(c: char) -> bool {
    c == '/' || c == '\\' || c == '?' || c == '%' || c == '*' || c == ':' || c == '|' || c == '"'
        || c == '<' || c == '>'
}

/// What a character of a name becomes in a file name: printable ASCII that
/// is not reserved stays, everything else becomes an underscore.
pub open spec fn safe_char(c: char) -> char {
    if 0x20 <= c as u32 <= 0x7e && !is_reserved(c) {
        c
    } else {
        '_'
    }
}

/// `name` with every character made safe.
pub open spec fn safe_chars(name: Seq<char>) -> Seq<char> {
    Seq::new(name.len(), |i: int| safe_char(name[i]))
}

/// The first `max_len` characters of `s`, or all of it when it is shorter.
pub open spec fn clipped(s: Seq<char>, max_len: nat) -> Seq<char> {
    if s.len() > max_len {
        s.take(max_len as int)
    } else {
        s
    }
}

/// The safe file name made from `name`: every character made safe, white
/// space trimmed from both ends, at most `max_len` characters.
pub open spec fn sanitized_with_len(name: Seq<char>, max_len: nat) -> Seq<char> {
    clipped(trimmed(safe_chars(name)), max_len)
}

/// The safe file name made from `name`, at most 100 characters long.
pub open spec fn sanitized(name: Seq<char>) -> Seq<char> {
    sanitized_with_len(name, 100)
}

/// Characters that portable names keep as they are.
pub open spec fn portable_keeps(c: char) -> bool {
    ('A' <= c <= 'Z') || ('a' <= c <= 'z') || ('0' <= c <= '9') || c == '-' || c == '_'
}

/// `s` reduced to the portable alphabet: kept characters stay, a space
/// becomes an underscore, everything else is dropped.
pub open spec fn portable_chars(s: Seq<char>) -> Seq<char>
    decreases s.len(),
{
    if s.len() == 0 {
        s
    } else {
        let rest = portable_chars(s.drop_last());
        let c = s.last();
        if portable_keeps(c) {
            rest.push(c)
        } else if c == ' ' {
            rest.push('_')
        } else {
            rest
        }
    }
}

/// `s` with every run of underscores shortened to one.
pub open spec fn collapsed(s: Seq<char>) -> Seq<char>
    decreases s.len(),
{
    if s.len() == 0 {
        s
    } else {
        let rest = collapsed(s.drop_last());
        if s.last() == '_' && s.len() >= 2 && s[s.len() - 2] == '_' {
            rest
        } else {
            rest.push(s.last())
        }
    }
}

/// The portable file name made from `name`: portable alphabet, runs of
/// underscores collapsed, underscores trimmed from both ends, at most
/// `max_len` characters.
pub open spec fn sanitized_portable(name: Seq<char>, max_len: nat) -> Seq<char> {
    clipped(trimmed_by(collapsed(portable_chars(name)), Strip::Char('_')), max_len)
}

/// The file name for a track.
pub open spec fn filename_of(
    artist: Seq<char>,
    title: Seq<char>,
    ext: Seq<char>,
    config: PortableConfig,
) -> Seq<char> {
    if config.enabled {
        sanitized_portable(artist, 20) + "_-_"@ + sanitized_portable(
            title,
            (config.max_filename_len - 25) as nat,
        ) + "."@ + ext
    } else {
        sanitized(artist) + " - "@ + sanitized(title) + "."@ + ext
    }
}

fn make_safe(c: char) -> (out: char)
    ensures
        out == safe_char(c),
{
    let n: u32 = c as u32;
    let reserved = c == '/' || c == '\\' || c == '?' || c == '%' || c == '*' || c == ':' || c
        == '|' || c == '"' || c == '<' || c == '>';
    if 0x20 <= n && n <= 0x7e && !reserved {
        c
    } else {
        '_'
    }
}

/// Clips `v[start..end]` to `max_len` characters and makes a string of it.
fn clip_to_string(v: &Vec<char>, start: usize, end: usize, max_len: usize) -> (s: String)
    requires
        start <= end <= v.len(),
    ensures
        s@ == clipped(v@.subrange(start as int, end as int), max_len as nat),
{
    let ghost kept = v@.subrange(start as int, end as int);
    if end - start > max_len {
        let s = string_of_range(v, start, start + max_len);
        assert(kept.take(max_len as int) =~= v@.subrange(start as int, start + max_len));
        s
    } else {
        string_of_range(v, start, end)
    }
}

/// Sanitize a name for use as a file name, with a limit on its length.
pub fn sanitize_filename_with_len(name: &str, max_len: usize) -> (out: String)
    ensures
        out@ == sanitized_with_len(name@, max_len as nat),
{
    let src = chars_of(name);
    let mut safe: Vec<char> = Vec::new();
    let mut i: usize = 0;
    while i < src.len()
        invariant
            i <= src.len(),
            safe.len() == i,
            forall|j: int| 0 <= j < i ==> safe@[j] == safe_char(src@[j]),
        decreases src.len() - i,
    {
        safe.push(make_safe(src[i]));
        i += 1;
    }
    assert(safe@ =~= safe_chars(name@));
    let (start, end) = trim_bounds(&safe, Strip::Whitespace);
    clip_to_string(&safe, start, end, max_len)
}

/// Sanitize a name for use as a file name.
pub fn sanitize_filename(name: &str) -> (out: String)
    ensures
        out@ == sanitized(name@),
{
    sanitize_filename_with_len(name, 100)
}

/// Stricter sanitization for portable mode: letters, digits, hyphen and
/// underscore only, no spaces.
pub fn sanitize_filename_portable(name: &str, max_len: usize) -> (out: String)
    ensures
        out@ == sanitized_portable(name@, max_len as nat),
{
    let src = chars_of(name);
    let mut kept: Vec<char> = Vec::new();
    let mut i: usize = 0;
    while i < src.len()
        invariant
            i <= src.len(),
            kept@ == portable_chars(src@.take(i as int)),
        decreases src.len() - i,
    {
        let c = src[i];
        assert(src@.take(i + 1).drop_last() =~= src@.take(i as int));
        if ('A' <= c && c <= 'Z') || ('a' <= c && c <= 'z') || ('0' <= c && c <= '9') || c == '-'
            || c == '_' {
            kept.push(c);
        } else if c == ' ' {
            kept.push('_');
        }
        i += 1;
    }
    assert(src@.take(src@.len() as int) =~= src@);
    let mut single: Vec<char> = Vec::new();
    let mut k: usize = 0;
    let mut last_was_underscore = false;
    while k < kept.len()
        invariant
            k <= kept.len(),
            single@ == collapsed(kept@.take(k as int)),
            last_was_underscore == (k > 0 && kept@[k - 1] == '_'),
        decreases kept.len() - k,
    {
        let c = kept[k];
        assert(kept@.take(k + 1).drop_last() =~= kept@.take(k as int));
        if c == '_' {
            if !last_was_underscore {
                single.push(c);
            }
            last_was_underscore = true;
        } else {
            single.push(c);
            last_was_underscore = false;
        }
        k += 1;
    }
    assert(kept@.take(kept@.len() as int) =~= kept@);
    let (start, end) = trim_bounds(&single, Strip::Char('_'));
    clip_to_string(&single, start, end, max_len)
}

/// Build the file name of a track for the given profile.
pub fn build_filename(artist: &str, title: &str, ext: &str, config: &PortableConfig) -> (out:
    String)
    requires
        config.enabled ==> config.max_filename_len >= 25,
    ensures
        out@ == filename_of(artist@, title@, ext@, *config),
{
    if config.enabled {
        let mut out = sanitize_filename_portable(artist, 20);
        let title_s = sanitize_filename_portable(title, config.max_filename_len - 25);
        out.append("_-_");
        out.append(title_s.as_str());
        out.append(".");
        out.append(ext);
        out
    } else {
        let mut out = sanitize_filename(artist);
        let title_s = sanitize_filename(title);
        out.append(" - ");
        out.append(title_s.as_str());
        out.append(".");
        out.append(ext);
        out
    }
}

/// The name of the playlist file for a playlist with the name `name`.
pub fn m3u_file_name(name: &str) -> (file_name: String)
    ensures
        file_name@ == sanitized(name@) + ".m3u"@,
{
    let mut file_name = sanitize_filename(name);
    file_name.append(".m3u");
    file_name
}

/// How many components `a` and `b` share at their beginning.
pub open spec fn shared_prefix(a: Seq<Seq<char>>, b: Seq<Seq<char>>) -> nat
    decreases a.len(),
{
    if a.len() == 0 || b.len() == 0 || a[0] != b[0] {
        0
    } else {
        1 + shared_prefix(a.drop_first(), b.drop_first())
    }
}

/// The way from the directory with the components `from` to the file with
/// the components `to`: up to where the two part, then down to the file.
pub open spec fn relative_way(from: Seq<Seq<char>>, to: Seq<Seq<char>>) -> Seq<Seq<char>> {
    let shared = shared_prefix(from, to) as int;
    Seq::new((from.len() - shared) as nat, |i: int| ".."@) + to.skip(shared)
}

proof fn lemma_shared_prefix(a: Seq<Seq<char>>, b: Seq<Seq<char>>, n: int)
    requires
        0 <= n <= a.len(),
        n <= b.len(),
        forall|k: int| 0 <= k < n ==> a[k] == b[k],
        n == a.len() || n == b.len() || a[n] != b[n],
    ensures
        shared_prefix(a, b) == n,
    decreases n,
{
    if n > 0 {
        let a1 = a.drop_first();
        let b1 = b.drop_first();
        assert forall|k: int| 0 <= k < n - 1 implies a1[k] == b1[k] by {
            assert(a1[k] == a[k + 1]);
            assert(b1[k] == b[k + 1]);
        }
        if n < a.len() && n < b.len() {
            assert(a1[n - 1] == a[n]);
            assert(b1[n - 1] == b[n]);
        }
        assert(a[0] == b[0]);
        lemma_shared_prefix(a1, b1, n - 1);
    }
}

/// The components of the way from a directory to a file, both given by
/// their components from the root.
#[verifier::loop_isolation(false)]
pub fn relative_components(from: &Vec<String>, to: &Vec<String>) -> (way: Vec<String>)
    ensures
        way.deep_view() == relative_way(from.deep_view(), to.deep_view()),
{
    let ghost f = from.deep_view();
    let ghost t = to.deep_view();
    let mut shared: usize = 0;
    while shared < from.len() && shared < to.len()
        invariant
            shared <= from.len(),
            shared <= to.len(),
            forall|k: int| 0 <= k < shared ==> f[k] == t[k],
        decreases from.len() - shared,
    {
        assert(f[shared as int] == from@[shared as int]@);
        assert(t[shared as int] == to@[shared as int]@);
        if !crate::text::text_eq(from[shared].as_str(), to[shared].as_str()) {
            break ;
        }
        shared += 1;
    }
    proof {
        if shared < from.len() && shared < to.len() {
            assert(f[shared as int] == from@[shared as int]@);
            assert(t[shared as int] == to@[shared as int]@);
        }
        lemma_shared_prefix(f, t, shared as int);
    }
    let mut way: Vec<String> = Vec::new();
    let mut i: usize = shared;
    while i < from.len()
        invariant
            shared <= i <= from.len(),
            way.len() == i - shared,
            forall|k: int| 0 <= k < way.len() ==> (#[trigger] way@[k])@ == ".."@,
        decreases from.len() - i,
    {
        way.push(String::from_str(".."));
        i += 1;
    }
    let ups = way.len();
    let mut j: usize = shared;
    while j < to.len()
        invariant
            shared <= j <= to.len(),
            ups == from.len() - shared,
            way.len() == ups + (j - shared),
            forall|k: int| 0 <= k < ups ==> (#[trigger] way@[k])@ == ".."@,
            forall|k: int| shared <= k < j ==> (#[trigger] way@[ups + k - shared])@ == t[k],
        decreases to.len() - j,
    {
        assert(t[j as int] == to@[j as int]@);
        way.push(to[j].clone());
        j += 1;
    }
    proof {
        let r = relative_way(f, t);
        assert(way.deep_view().len() == r.len());
        assert forall|m: int| 0 <= m < r.len() implies way.deep_view()[m] == r[m] by {
            if m < ups {
                assert(way@[m]@ == ".."@);
            } else {
                let k = m - ups + shared;
                assert(way@[ups + k - shared]@ == t[k]);
            }
        }
        assert(way.deep_view() =~= r);
    }
    way
}

/// The text of a playlist file that lists `lines`.
pub open spec fn m3u_text_of(lines: Seq<Seq<char>>) -> Seq<char>
    decreases lines.len(),
{
    if lines.len() == 0 {
        "#EXTM3U\n"@
    } else {
        m3u_text_of(lines.drop_last()) + lines.last() + "\n"@
    }
}

/// The text of a playlist file: its heading, then one line for each
/// track.
pub fn m3u_text(lines: &Vec<String>) -> (text: String)
    ensures
        text@ == m3u_text_of(lines.deep_view()),
{
    let ghost all = lines.deep_view();
    let mut text = String::from_str("#EXTM3U\n");
    let mut i: usize = 0;
    while i < lines.len()
        invariant
            i <= lines.len(),
            all == lines.deep_view(),
            text@ == m3u_text_of(all.take(i as int)),
        decreases lines.len() - i,
    {
        proof {
            assert(all.take(i + 1).drop_last() =~= all.take(i as int));
            assert(all.take(i + 1).last() == lines@[i as int]@);
        }
        text.append(lines[i].as_str());
        text.append("\n");
        i += 1;
    }
    assert(all.take(all.len() as int) =~= all);
    text
}

} // verus!
