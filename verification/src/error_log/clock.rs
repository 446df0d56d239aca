//! Time, dates and identifiers: what the journal takes from the clock and
//! from the random number generator.

use crate::text::chars_of;
use vstd::prelude::*;

verus! {

/// A moment in time: whole seconds since the Unix epoch, and the
/// nanoseconds into that second. Moments are ranked by the seconds first.
#[derive(Clone, Copy, Debug, PartialEq, Eq, Structural)]
pub struct Timestamp {
    pub secs: i64,
    pub nanos: u32,
}

impl Timestamp {
    /// Whether this moment is strictly later than `other`.
    pub open spec fn later_than(self, other: Timestamp) -> bool {
        self.secs > other.secs || (self.secs == other.secs && self.nanos > other.nanos)
    }

    pub fn is_later_than(&self, other: &Timestamp) -> (later: bool)
        ensures
            later == self.later_than(*other),
    {
        self.secs > other.secs || (self.secs == other.secs && self.nanos > other.nanos)
    }
}

/// `chrono::Utc::now` reads the system clock. The nanoseconds of the
/// moment it gives are below one second; nothing else is known of it.
#[verifier::external_body]
pub(crate) fn now() -> (t: Timestamp)
    ensures
        t.nanos < 1_000_000_000,
{
    let t = chrono::Utc::now();
    Timestamp { secs: t.timestamp(), nanos: t.timestamp_subsec_nanos() }
}

/// `chrono::Local::now`, written as year, month and day: the name of the
/// partition for today. It depends on the clock and on the time zone of
/// the machine, so nothing is claimed of it.
#[verifier::external_body]
pub(crate) fn today() -> String {
    chrono::Local::now().format("%Y-%m-%d").to_string()
}

/// Whether `chrono::NaiveDate::parse_from_str` reads a string with the
/// characters `name` as a date in the form year, month, day.
pub uninterp spec fn parses_as_date(name: Seq<char>) -> bool;

/// `chrono::NaiveDate::parse_from_str` with the format `%Y-%m-%d`: whether
/// it accepts `name` depends on the characters of `name` alone.
#[verifier::external_body]
pub(crate) fn date_parses(name: &str) -> (ok: bool)
    ensures
        ok == parses_as_date(name@),
{
    chrono::NaiveDate::parse_from_str(name, "%Y-%m-%d").is_ok()
}

/// `uuid::Uuid::new_v4`, written in the hyphenated form: 36 characters,
/// drawn at random.
#[verifier::external_body]
pub(crate) fn fresh_id() -> (id: String)
    ensures
        id@.len() == 36,
{
    uuid::Uuid::new_v4().to_string()
}

/// Whether `a` stands before `b` in the dictionary order of their
/// characters.
pub open spec fn text_before(a: Seq<char>, b: Seq<char>) -> bool
    decreases a.len(),
{
    if b.len() == 0 {
        false
    } else if a.len() == 0 {
        true
    } else if a[0] != b[0] {
        a[0] < b[0]
    } else {
        text_before(a.drop_first(), b.drop_first())
    }
}

proof fn lemma_text_before_skip(a: Seq<char>, b: Seq<char>, k: int)
    requires
        0 <= k <= a.len(),
        k <= b.len(),
        a.take(k) == b.take(k),
    ensures
        text_before(a, b) == text_before(a.skip(k), b.skip(k)),
    decreases k,
{
    if k == 0 {
        assert(a.skip(0) =~= a);
        assert(b.skip(0) =~= b);
    } else {
        assert(a[0] == a.take(k)[0]);
        assert(b[0] == b.take(k)[0]);
        let a1 = a.drop_first();
        let b1 = b.drop_first();
        assert(a1.take(k - 1) =~= a.take(k).drop_first());
        assert(b1.take(k - 1) =~= b.take(k).drop_first());
        lemma_text_before_skip(a1, b1, k - 1);
        assert(a1.skip(k - 1) =~= a.skip(k));
        assert(b1.skip(k - 1) =~= b.skip(k));
    }
}

/// The dictionary order is strict: nothing stands before itself, and of
/// two texts at most one stands before the other.
pub proof fn lemma_text_before_strict(a: Seq<char>, b: Seq<char>)
    ensures
        !(text_before(a, b) && text_before(b, a)),
        a == b ==> !text_before(a, b),
        a != b ==> text_before(a, b) || text_before(b, a),
    decreases a.len(),
{
    if a.len() == 0 || b.len() == 0 {
        if a.len() == 0 && b.len() == 0 {
            assert(a =~= b);
        }
    } else if a[0] != b[0] {
    } else {
        lemma_text_before_strict(a.drop_first(), b.drop_first());
        if a.drop_first() == b.drop_first() {
            assert(a =~= seq![a[0]] + a.drop_first());
            assert(b =~= seq![b[0]] + b.drop_first());
        }
    }
}

/// The dictionary order is transitive.
pub proof fn lemma_text_before_transitive(a: Seq<char>, b: Seq<char>, c: Seq<char>)
    requires
        text_before(a, b),
        text_before(b, c),
    ensures
        text_before(a, c),
    decreases a.len(),
{
    if a.len() == 0 {
    } else if a[0] != b[0] {
        if b[0] == c[0] {
        }
    } else if b[0] != c[0] {
    } else {
        lemma_text_before_transitive(a.drop_first(), b.drop_first(), c.drop_first());
    }
}

/// Whether `a` stands before `b` in the dictionary order.
pub fn is_text_before(a: &str, b: &str) -> (before: bool)
    ensures
        before == text_before(a@, b@),
{
    let x = chars_of(a);
    let y = chars_of(b);
    let mut k: usize = 0;
    while k < x.len() && k < y.len()
        invariant
            k <= x.len(),
            k <= y.len(),
            x@ == a@,
            y@ == b@,
            x@.take(k as int) == y@.take(k as int),
        decreases x.len() - k,
    {
        if x[k] != y[k] {
            proof {
                lemma_text_before_skip(x@, y@, k as int);
                assert(x@.skip(k as int)[0] == x@[k as int]);
                assert(y@.skip(k as int)[0] == y@[k as int]);
            }
            return x[k] < y[k];
        }
        assert(x@.take(k + 1) =~= x@.take(k as int).push(x@[k as int]));
        assert(y@.take(k + 1) =~= y@.take(k as int).push(y@[k as int]));
        k += 1;
    }
    proof {
        lemma_text_before_skip(x@, y@, k as int);
    }
    k < y.len()
}

} // verus!
