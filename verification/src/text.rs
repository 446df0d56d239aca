//! Character-level helpers shared by the rest of the library.
//!
//! Every string that the library reasons about is viewed as a `Seq<char>`.
//! Executable code works on `Vec<char>` copies where it needs random access.

use vstd::prelude::*;
use vstd::std_specs::iter::IteratorSpec;

verus! {

/// `String::push` appends one character to the end of the string.
pub assume_specification[ String::push ](s: &mut String, c: char)
    ensures
        final(s)@ == old(s)@.push(c),
;

/// The characters of `s`, in order.
pub fn chars_of(s: &str) -> (v: Vec<char>)
    ensures
        v@ == s@,
{
    let mut v: Vec<char> = Vec::new();
    for c in it: s.chars()
        invariant
            it.seq() == s@,
            v@ == s@.take(it.index()),
    {
        v.push(c);
        assert(s@.take(it.index() + 1) =~= s@.take(it.index()).push(c));
    }
    assert(s@.take(s@.len() as int) =~= s@);
    v
}

/// A string holding the characters `v[from..to]`.
pub fn string_of_range(v: &Vec<char>, from: usize, to: usize) -> (s: String)
    requires
        from <= to <= v.len(),
    ensures
        s@ == v@.subrange(from as int, to as int),
{
    let mut s = String::new();
    let mut i: usize = from;
    while i < to
        invariant
            from <= i <= to <= v.len(),
            s@ == v@.subrange(from as int, i as int),
        decreases to - i,
    {
        s.push(v[i]);
        assert(v@.subrange(from as int, i + 1) =~= v@.subrange(from as int, i as int).push(
            v@[i as int],
        ));
        i += 1;
    }
    s
}

/// Whether two string slices hold the same characters.
pub fn text_eq(a: &str, b: &str) -> (same: bool)
    ensures
        same == (a@ == b@),
{
    let mut ia = a.chars();
    let mut ib = b.chars();
    let ghost mut k: int = 0;
    loop
        invariant
            0 <= k <= a@.len(),
            k <= b@.len(),
            ia.remaining() == a@.skip(k),
            ib.remaining() == b@.skip(k),
            a@.take(k) == b@.take(k),
        decreases a@.len() - k,
    {
        let ca = ia.next();
        let cb = ib.next();
        match (ca, cb) {
            (None, None) => {
                proof {
                    assert(a@.take(k) =~= a@);
                    assert(b@.take(k) =~= b@);
                }
                return true;
            },
            (Some(x), Some(y)) => {
                if x != y {
                    proof {
                        assert(a@[k] == x);
                        assert(b@[k] == y);
                    }
                    return false;
                }
                proof {
                    assert(a@.take(k + 1) =~= a@.take(k).push(x));
                    assert(b@.take(k + 1) =~= b@.take(k).push(y));
                    assert(a@.skip(k).drop_first() =~= a@.skip(k + 1));
                    assert(b@.skip(k).drop_first() =~= b@.skip(k + 1));
                    k = k + 1;
                }
            },
            _ => {
                return false;
            },
        }
    }
}

/// What `str::to_lowercase` returns for a string with the characters `s`.
pub uninterp spec fn lowercase_of(s: Seq<char>) -> Seq<char>;

/// `str::to_lowercase` maps each character to its Unicode lowercase
/// equivalent; the result is a function of the input characters alone.
pub assume_specification[ str::to_lowercase ](s: &str) -> (lower: String)
    ensures
        lower@ == lowercase_of(s@),
;

/// Whether `n` occurs in `h` starting at index `i`.
pub open spec fn occurs_at(h: Seq<char>, n: Seq<char>, i: int) -> bool {
    0 <= i && i + n.len() <= h.len() && h.subrange(i, i + n.len()) == n
}

/// Whether `n` occurs somewhere in `h`.
pub open spec fn contains_text(h: Seq<char>, n: Seq<char>) -> bool {
    exists|i: int| occurs_at(h, n, i)
}

/// Whether `i` is the first index at or after `from` where `n` occurs in `h`.
pub open spec fn first_occurrence_from(h: Seq<char>, n: Seq<char>, from: int, i: int) -> bool {
    from <= i && occurs_at(h, n, i) && forall|j: int| from <= j < i ==> !occurs_at(h, n, j)
}

/// Whether `n` occurs in `h` at index `i`.
pub fn matches_at(h: &Vec<char>, n: &Vec<char>, i: usize) -> (found: bool)
    ensures
        found == occurs_at(h@, n@, i as int),
{
    if i > h.len() || n.len() > h.len() - i {
        return false;
    }
    let mut k: usize = 0;
    while k < n.len()
        invariant
            i + n.len() <= h.len(),
            k <= n.len(),
            forall|j: int| 0 <= j < k ==> h@[i + j] == n@[j],
        decreases n.len() - k,
    {
        if h[i + k] != n[k] {
            proof {
                assert(h@.subrange(i as int, i + n.len())[k as int] == h@[i + k]);
            }
            return false;
        }
        k += 1;
    }
    assert(h@.subrange(i as int, i + n.len()) =~= n@);
    true
}

/// The first index at or after `from` where `n` occurs in `h`, if any.
pub fn find_text_from(h: &Vec<char>, n: &Vec<char>, from: usize) -> (at: Option<usize>)
    ensures
        match at {
            Some(i) => first_occurrence_from(h@, n@, from as int, i as int),
            None => forall|j: int| from <= j ==> !occurs_at(h@, n@, j),
        },
{
    if from > h.len() {
        return None;
    }
    let mut i: usize = from;
    while i < h.len()
        invariant
            from <= i <= h.len(),
            forall|j: int| from <= j < i ==> !occurs_at(h@, n@, j),
        decreases h.len() - i,
    {
        if matches_at(h, n, i) {
            return Some(i);
        }
        i += 1;
    }
    if matches_at(h, n, i) {
        Some(i)
    } else {
        None
    }
}

/// The first index where `n` occurs in `h`, if any.
pub fn find_text(h: &Vec<char>, n: &Vec<char>) -> (at: Option<usize>)
    ensures
        match at {
            Some(i) => first_occurrence_from(h@, n@, 0, i as int),
            None => !contains_text(h@, n@),
        },
{
    find_text_from(h, n, 0)
}

/// Whether the characters of `needle` occur, in order and adjacent, in `haystack`.
pub fn contains(haystack: &str, needle: &str) -> (found: bool)
    ensures
        found == contains_text(haystack@, needle@),
{
    let h = chars_of(haystack);
    let n = chars_of(needle);
    find_text(&h, &n).is_some()
}

/// Whether `s` begins with `prefix`.
pub open spec fn has_prefix(s: Seq<char>, prefix: Seq<char>) -> bool {
    occurs_at(s, prefix, 0)
}

/// The first index at or after `from` that holds `c`, if any.
pub fn find_char_from(h: &Vec<char>, c: char, from: usize) -> (at: Option<usize>)
    ensures
        match at {
            Some(i) => from <= i < h.len() && h@[i as int] == c && forall|j: int|
                from <= j < i ==> h@[j] != c,
            None => forall|j: int| from <= j < h.len() ==> h@[j] != c,
        },
{
    let mut i: usize = from;
    while i < h.len()
        invariant
            from <= i,
            forall|j: int| from <= j < i && j < h.len() ==> h@[j] != c,
        decreases h.len() - i,
    {
        if h[i] == c {
            return Some(i);
        }
        i += 1;
    }
    None
}

/// The last index that holds `c`, if any.
pub fn rfind_char(h: &Vec<char>, c: char) -> (at: Option<usize>)
    ensures
        match at {
            Some(i) => i < h.len() && h@[i as int] == c && forall|j: int|
                i < j < h.len() ==> h@[j] != c,
            None => forall|j: int| 0 <= j < h.len() ==> h@[j] != c,
        },
{
    let mut i: usize = h.len();
    while i > 0
        invariant
            i <= h.len(),
            forall|j: int| i <= j < h.len() ==> h@[j] != c,
        decreases i,
    {
        i -= 1;
        if h[i] == c {
            return Some(i);
        }
    }
    None
}

/// Whether `c` is white space: the code points with the Unicode property
/// White_Space.
pub open spec fn is_space(c: char) -> bool {
    let n = c as u32;
    ||| 0x09 <= n <= 0x0d
    ||| n == 0x20
    ||| n == 0x85
    ||| n == 0xa0
    ||| n == 0x1680
    ||| 0x2000 <= n <= 0x200a
    ||| n == 0x2028
    ||| n == 0x2029
    ||| n == 0x202f
    ||| n == 0x205f
    ||| n == 0x3000
}

pub fn is_whitespace(c: char) -> (space: bool)
    ensures
        space == is_space(c),
{
    let n: u32 = c as u32;
    (0x09 <= n && n <= 0x0d) || n == 0x20 || n == 0x85 || n == 0xa0 || n == 0x1680 || (0x2000 <= n
        && n <= 0x200a) || n == 0x2028 || n == 0x2029 || n == 0x202f || n == 0x205f || n == 0x3000
}

/// What a trim takes away from the two ends of a string.
#[derive(Clone, Copy, Debug)]
pub enum Strip {
    /// Every white-space character.
    Whitespace,
    /// Every copy of one character.
    Char(char),
}

impl Strip {
    /// Whether a trim of this kind removes `c`.
    pub open spec fn strips(self, c: char) -> bool {
        match self {
            Strip::Whitespace => is_space(c),
            Strip::Char(x) => c == x,
        }
    }

    pub fn removes(&self, c: char) -> (gone: bool)
        ensures
            gone == self.strips(c),
    {
        match self {
            Strip::Whitespace => is_whitespace(c),
            Strip::Char(x) => c == *x,
        }
    }
}

/// `s` without its longest prefix of stripped characters.
pub open spec fn skip_leading(s: Seq<char>, what: Strip) -> Seq<char>
    decreases s.len(),
{
    if s.len() > 0 && what.strips(s[0]) {
        skip_leading(s.drop_first(), what)
    } else {
        s
    }
}

/// `s` without its longest suffix of stripped characters.
pub open spec fn skip_trailing(s: Seq<char>, what: Strip) -> Seq<char>
    decreases s.len(),
{
    if s.len() > 0 && what.strips(s.last()) {
        skip_trailing(s.drop_last(), what)
    } else {
        s
    }
}

/// `s` with the stripped characters removed from both ends.
pub open spec fn trimmed_by(s: Seq<char>, what: Strip) -> Seq<char> {
    skip_trailing(skip_leading(s, what), what)
}

/// `s` without leading and trailing white space.
pub open spec fn trimmed(s: Seq<char>) -> Seq<char> {
    trimmed_by(s, Strip::Whitespace)
}

/// The prefix removed by `skip_leading` is exactly the first `i` characters
/// when those are stripped and the next one is not.
pub proof fn lemma_skip_leading(s: Seq<char>, what: Strip, i: int)
    requires
        0 <= i <= s.len(),
        forall|j: int| 0 <= j < i ==> what.strips(#[trigger] s[j]),
        i == s.len() || !what.strips(s[i]),
    ensures
        skip_leading(s, what) == s.skip(i),
    decreases i,
{
    if i == 0 {
        assert(s.skip(0) =~= s);
    } else {
        let rest = s.drop_first();
        assert forall|j: int| 0 <= j < i - 1 implies what.strips(#[trigger] rest[j]) by {
            assert(rest[j] == s[j + 1]);
        }
        lemma_skip_leading(rest, what, i - 1);
        assert(rest.skip(i - 1) =~= s.skip(i));
    }
}

/// The suffix removed by `skip_trailing` starts at `e` when everything from
/// `e` on is stripped and the character before `e` is not.
pub proof fn lemma_skip_trailing(s: Seq<char>, what: Strip, e: int)
    requires
        0 <= e <= s.len(),
        forall|j: int| e <= j < s.len() ==> what.strips(#[trigger] s[j]),
        e == 0 || !what.strips(s[e - 1]),
    ensures
        skip_trailing(s, what) == s.take(e),
    decreases s.len() - e,
{
    if e == s.len() {
        assert(s.take(e) =~= s);
    } else {
        let rest = s.drop_last();
        assert forall|j: int| e <= j < rest.len() implies what.strips(#[trigger] rest[j]) by {
            assert(rest[j] == s[j]);
        }
        lemma_skip_trailing(rest, what, e);
        assert(rest.take(e) =~= s.take(e));
    }
}

/// The bounds `(start, end)` of what a trim keeps: `v[start..end]`.
pub fn trim_bounds(v: &Vec<char>, what: Strip) -> (bounds: (usize, usize))
    ensures
        bounds.0 <= bounds.1 <= v.len(),
        v@.subrange(bounds.0 as int, bounds.1 as int) == trimmed_by(v@, what),
{
    let mut start: usize = 0;
    while start < v.len() && what.removes(v[start])
        invariant
            start <= v.len(),
            forall|j: int| 0 <= j < start ==> what.strips(#[trigger] v@[j]),
        decreases v.len() - start,
    {
        start += 1;
    }
    let mut end: usize = v.len();
    while end > start && what.removes(v[end - 1])
        invariant
            start <= end <= v.len(),
            forall|j: int| end <= j < v.len() ==> what.strips(#[trigger] v@[j]),
        decreases end,
    {
        end -= 1;
    }
    proof {
        lemma_skip_leading(v@, what, start as int);
        let kept = v@.skip(start as int);
        assert forall|j: int| end - start <= j < kept.len() implies what.strips(
            #[trigger] kept[j],
        ) by {
            assert(kept[j] == v@[j + start]);
        }
        if end > start {
            assert(kept[end - start - 1] == v@[end - 1]);
        }
        lemma_skip_trailing(kept, what, end - start);
        assert(kept.take(end - start) =~= v@.subrange(start as int, end as int));
    }
    (start, end)
}

/// `s` without leading and trailing white space.
pub fn trim(s: &str) -> (t: String)
    ensures
        t@ == trimmed(s@),
{
    let v = chars_of(s);
    let (start, end) = trim_bounds(&v, Strip::Whitespace);
    string_of_range(&v, start, end)
}

/// The character that writes the decimal digit `d`.
pub open spec fn digit_char(d: int) -> char {
    ((48 + d) as u8) as char
}

/// The decimal numeral of `n`, without sign or leading zeros.
pub open spec fn decimal_of(n: nat) -> Seq<char>
    decreases n,
{
    if n < 10 {
        seq![digit_char(n as int)]
    } else {
        decimal_of(n / 10).push(digit_char((n % 10) as int))
    }
}

/// The decimal numeral of `n`.
pub fn decimal(n: usize) -> (s: String)
    ensures
        s@ == decimal_of(n as nat),
    decreases n,
{
    if n < 10 {
        let mut s = String::new();
        s.push((48u8 + (n as u8)) as char);
        assert(s@ =~= seq![digit_char(n as int)]);
        s
    } else {
        let mut s = decimal(n / 10);
        s.push((48u8 + ((n % 10) as u8)) as char);
        s
    }
}

/// The first index where `n` occurs in `h`. It means nothing where `n`
/// does not occur.
pub open spec fn position_of(h: Seq<char>, n: Seq<char>) -> int {
    choose|i: int| first_occurrence_from(h, n, 0, i)
}

/// There is one first occurrence at most.
pub proof fn lemma_position_of(h: Seq<char>, n: Seq<char>, i: int)
    requires
        first_occurrence_from(h, n, 0, i),
    ensures
        position_of(h, n) == i,
        contains_text(h, n),
{
    let k = position_of(h, n);
    assert(first_occurrence_from(h, n, 0, k));
    if k < i {
        assert(!occurs_at(h, n, k));
    }
    if i < k {
        assert(!occurs_at(h, n, i));
    }
}

/// The index of the first `c` in `s`, or the length of `s` where it holds
/// none.
pub open spec fn index_of_char(s: Seq<char>, c: char) -> int
    decreases s.len(),
{
    if s.len() == 0 || s[0] == c {
        0
    } else {
        1 + index_of_char(s.drop_first(), c)
    }
}

/// What stands in `s` before its first `c`: all of `s` where it holds none.
pub open spec fn before_char(s: Seq<char>, c: char) -> Seq<char> {
    s.take(index_of_char(s, c))
}

pub proof fn lemma_index_of_char(s: Seq<char>, c: char, i: int)
    requires
        0 <= i <= s.len(),
        forall|j: int| 0 <= j < i ==> s[j] != c,
        i == s.len() || s[i] == c,
    ensures
        index_of_char(s, c) == i,
    decreases i,
{
    if i > 0 {
        let rest = s.drop_first();
        assert forall|j: int| 0 <= j < i - 1 implies rest[j] != c by {
            assert(rest[j] == s[j + 1]);
        }
        lemma_index_of_char(rest, c, i - 1);
    }
}

/// The characters of `v` from `from` up to the next `c`, or to the end.
pub fn take_until(v: &Vec<char>, from: usize, c: char) -> (s: String)
    requires
        from <= v.len(),
    ensures
        s@ == before_char(v@.skip(from as int), c),
{
    let end = match find_char_from(v, c, from) {
        Some(q) => q,
        None => v.len(),
    };
    proof {
        let rest = v@.skip(from as int);
        assert forall|j: int| 0 <= j < end - from implies rest[j] != c by {
            assert(rest[j] == v@[j + from]);
        }
        if end < v.len() {
            assert(rest[end - from] == v@[end as int]);
        }
        lemma_index_of_char(rest, c, end - from);
        assert(rest.take(end - from) =~= v@.subrange(from as int, end as int));
    }
    string_of_range(v, from, end)
}

} // verus!
