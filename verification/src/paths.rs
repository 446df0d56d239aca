//! File paths as text, with `/` between components.
//!
//! The file name of a path is whatever follows its last `/` (the whole path
//! when there is none). A file name has an extension when it holds a `.`
//! that is not its first character; the extension is what follows the last
//! `.`.
//!
//! These are rules on the text alone, and they are not those of
//! `std::path::Path`. The two agree on the paths that this library makes
//! and is handed: those that end in a file name. They differ elsewhere:
//! - a path that ends in `/` has an empty file name here and so no
//!   extension, where `Path` passes over the trailing separators and takes
//!   the last component (`a/b.mp3/` has the file name `b.mp3` there and
//!   none here);
//! - the components `.` and `..` are file names like any other here
//!   (`Path` gives no file name for a path that ends in `..`);
//! - repeated separators are kept as they stand, and `\` separates
//!   nothing on any machine.

use crate::text::{chars_of, rfind_char, string_of_range};
use vstd::prelude::*;
use vstd::string::StringExecFns;

verus! {

/// Where the file name of `p` starts.
pub open spec fn name_start(p: Seq<char>) -> int
    decreases p.len(),
{
    if p.len() == 0 || p.last() == '/' {
        p.len() as int
    } else {
        name_start(p.drop_last())
    }
}

/// The file name of `p`.
pub open spec fn file_name_of(p: Seq<char>) -> Seq<char> {
    p.skip(name_start(p))
}

/// The index of the last `.` of `s`, or -1.
pub open spec fn last_dot(s: Seq<char>) -> int
    decreases s.len(),
{
    if s.len() == 0 {
        -1
    } else if s.last() == '.' {
        s.len() - 1
    } else {
        last_dot(s.drop_last())
    }
}

/// Whether the file name `name` can carry an extension at all.
pub open spec fn is_plain_name(name: Seq<char>) -> bool {
    name.len() > 0 && name != seq!['.', '.']
}

/// The extension of `p`, if its file name has one.
pub open spec fn extension_of(p: Seq<char>) -> Option<Seq<char>> {
    let name = file_name_of(p);
    let dot = last_dot(name);
    if is_plain_name(name) && dot > 0 {
        Some(name.skip(dot + 1))
    } else {
        None
    }
}

/// `p` with the extension of its file name replaced by `ext`, or with `ext`
/// added where it had none. A path without a plain file name stays as it is.
pub open spec fn with_extension_of(p: Seq<char>, ext: Seq<char>) -> Seq<char> {
    let start = name_start(p);
    let name = file_name_of(p);
    let dot = last_dot(name);
    if !is_plain_name(name) {
        p
    } else {
        let stem_end = if dot > 0 {
            start + dot
        } else {
            p.len() as int
        };
        if ext.len() == 0 {
            p.take(stem_end)
        } else {
            p.take(stem_end) + seq!['.'] + ext
        }
    }
}

/// `p` with its file name replaced by `name`.
pub open spec fn with_file_name_of(p: Seq<char>, name: Seq<char>) -> Seq<char> {
    p.take(name_start(p)) + name
}

/// `base` extended by the component `part`. An absolute `part` replaces
/// `base`; otherwise one `/` separates the two unless `base` is empty or
/// already ends with one.
pub open spec fn joined(base: Seq<char>, part: Seq<char>) -> Seq<char> {
    if part.len() > 0 && part[0] == '/' {
        part
    } else if base.len() == 0 || base.last() == '/' {
        base + part
    } else {
        base + seq!['/'] + part
    }
}

proof fn lemma_name_start(p: Seq<char>, at: int)
    requires
        0 <= at <= p.len(),
        at == 0 || p[at - 1] == '/',
        forall|j: int| at <= j < p.len() ==> p[j] != '/',
    ensures
        name_start(p) == at,
    decreases p.len(),
{
    if p.len() == 0 || p.last() == '/' {
    } else {
        lemma_name_start(p.drop_last(), at);
    }
}

proof fn lemma_last_dot(s: Seq<char>, at: int)
    requires
        -1 <= at < s.len(),
        at >= 0 ==> s[at] == '.',
        forall|j: int| at < j < s.len() ==> s[j] != '.',
    ensures
        last_dot(s) == at,
    decreases s.len(),
{
    if s.len() == 0 {
    } else if s.last() == '.' {
    } else {
        lemma_last_dot(s.drop_last(), at);
    }
}

/// Where the file name of `p` starts.
fn file_name_start(p: &Vec<char>) -> (start: usize)
    ensures
        start == name_start(p@),
        start <= p.len(),
{
    let start = match rfind_char(p, '/') {
        Some(i) => i + 1,
        None => 0,
    };
    proof {
        lemma_name_start(p@, start as int);
    }
    start
}

/// The index in `p` of the dot that starts the extension, if the file name
/// has one.
fn extension_dot(p: &Vec<char>, start: usize) -> (dot: Option<usize>)
    requires
        start == name_start(p@),
        start <= p.len(),
    ensures
        match dot {
            Some(d) => start < d < p.len() && is_plain_name(file_name_of(p@)) && last_dot(
                file_name_of(p@),
            ) == d - start,
            None => !(is_plain_name(file_name_of(p@)) && last_dot(file_name_of(p@)) > 0),
        },
{
    let ghost name = file_name_of(p@);
    if p.len() - start == 2 && p[start] == '.' && p[start + 1] == '.' {
        assert(name =~= seq!['.', '.']);
        return None;
    }
    let mut i: usize = p.len();
    while i > start
        invariant
            start <= i <= p.len(),
            name == p@.skip(start as int),
            name == file_name_of(p@),
            !(p.len() - start == 2 && p@[start as int] == '.' && p@[start + 1] == '.'),
            forall|j: int| i <= j < p.len() ==> p@[j] != '.',
        decreases i,
    {
        i -= 1;
        if p[i] == '.' {
            proof {
                assert forall|j: int| i - start < j < name.len() implies name[j] != '.' by {
                    assert(name[j] == p@[j + start]);
                }
                lemma_last_dot(name, i - start);
                if name =~= seq!['.', '.'] {
                    assert(name.len() == 2);
                    assert(name[0] == '.' && name[1] == '.');
                    assert(p@[start as int] == name[0]);
                    assert(p@[start + 1] == name[1]);
                }
            }
            if i > start {
                return Some(i);
            } else {
                return None;
            }
        }
    }
    proof {
        assert forall|j: int| -1 < j < name.len() implies name[j] != '.' by {
            assert(name[j] == p@[j + start]);
        }
        lemma_last_dot(name, -1);
    }
    None
}

/// The extension of the file that `path` names, if it has one.
pub fn extension(path: &str) -> (ext: Option<String>)
    ensures
        match ext {
            Some(e) => extension_of(path@) == Some(e@),
            None => extension_of(path@) is None,
        },
{
    let p = chars_of(path);
    let start = file_name_start(&p);
    match extension_dot(&p, start) {
        Some(d) => {
            let e = string_of_range(&p, d + 1, p.len());
            proof {
                let name = file_name_of(p@);
                assert(name.skip(d - start + 1) =~= p@.subrange(d + 1, p@.len() as int));
            }
            Some(e)
        },
        None => None,
    }
}

/// `path` with the extension of its file name set to `ext`.
pub fn with_extension(path: &str, ext: &str) -> (out: String)
    ensures
        out@ == with_extension_of(path@, ext@),
{
    let p = chars_of(path);
    let start = file_name_start(&p);
    let ghost name = file_name_of(p@);
    if p.len() - start == 0 {
        return String::from_str(path);
    }
    if p.len() - start == 2 && p[start] == '.' && p[start + 1] == '.' {
        assert(name =~= seq!['.', '.']);
        return String::from_str(path);
    }
    proof {
        if name =~= seq!['.', '.'] {
            assert(p@[start as int] == name[0]);
            assert(p@[start + 1] == name[1]);
        }
    }
    let stem_end = match extension_dot(&p, start) {
        Some(d) => d,
        None => p.len(),
    };
    let mut out = string_of_range(&p, 0, stem_end);
    assert(p@.subrange(0, stem_end as int) =~= p@.take(stem_end as int));
    if ext.unicode_len() > 0 {
        out.push('.');
        out.append(ext);
        assert(out@ =~= p@.take(stem_end as int) + seq!['.'] + ext@);
    }
    out
}

/// `path` with its file name replaced by `name`.
pub fn with_file_name(path: &str, name: &str) -> (out: String)
    ensures
        out@ == with_file_name_of(path@, name@),
{
    let p = chars_of(path);
    let start = file_name_start(&p);
    let mut out = string_of_range(&p, 0, start);
    assert(p@.subrange(0, start as int) =~= p@.take(start as int));
    out.append(name);
    out
}

/// `base` extended by the component `part`.
pub fn join(base: &str, part: &str) -> (out: String)
    ensures
        out@ == joined(base@, part@),
{
    let b = chars_of(base);
    let q = chars_of(part);
    if q.len() > 0 && q[0] == '/' {
        return String::from_str(part);
    }
    let mut out = String::from_str(base);
    if !(b.len() == 0 || b[b.len() - 1] == '/') {
        out.push('/');
    }
    out.append(part);
    assert(base@ + seq!['/'] + part@ =~= base@.push('/') + part@);
    out
}

/// `Path::exists` asks the file system whether `path` names something that
/// is there now. The answer can differ from one call to the next, so
/// nothing is claimed of it.
#[verifier::external_body]
pub(crate) fn file_exists(path: &str) -> bool {
    std::path::Path::new(path).exists()
}

/// Asks the file system about each of `paths` in turn: one answer for
/// each path, in the order of the paths.
pub fn probe_all(paths: &Vec<String>) -> (present: Vec<bool>)
    ensures
        present.len() == paths.len(),
{
    let mut present: Vec<bool> = Vec::new();
    let mut i: usize = 0;
    while i < paths.len()
        invariant
            i <= paths.len(),
            present.len() == i,
        decreases paths.len() - i,
    {
        present.push(file_exists(paths[i].as_str()));
        i += 1;
    }
    present
}

} // verus!
