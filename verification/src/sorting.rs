//! A stable sort whose result is pinned down by a specification.
//!
//! A `Precedence` says which of two items has to come first. Sorting keeps
//! the order of items of which neither has to come first.

use vstd::prelude::*;

verus! {

/// A rule that ranks the items of a list.
pub trait Precedence<T: DeepView> {
    /// Whether `a` has to come before `b`.
    spec fn precedes(a: T::V, b: T::V) -> bool;

    fn comes_before(a: &T, b: &T) -> (first: bool)
        ensures
            first == Self::precedes(a.deep_view(), b.deep_view()),
    ;
}

/// `sorted` with `x` put in: behind every item that it does not have to
/// precede, before the items at the end that it precedes.
pub open spec fn placed<T: DeepView, P: Precedence<T>>(sorted: Seq<T::V>, x: T::V) -> Seq<T::V>
    decreases sorted.len(),
{
    if sorted.len() == 0 {
        seq![x]
    } else if P::precedes(x, sorted.last()) {
        placed::<T, P>(sorted.drop_last(), x).push(sorted.last())
    } else {
        sorted.push(x)
    }
}

/// The items of `s`, sorted by `P`, items of equal rank in their old order.
pub open spec fn sorted_by<T: DeepView, P: Precedence<T>>(s: Seq<T::V>) -> Seq<T::V>
    decreases s.len(),
{
    if s.len() == 0 {
        s
    } else {
        placed::<T, P>(sorted_by::<T, P>(s.drop_last()), s.last())
    }
}

/// Whether no item of `s` stands behind one that it has to precede.
pub open spec fn is_ranked<T: DeepView, P: Precedence<T>>(s: Seq<T::V>) -> bool {
    forall|i: int, j: int| 0 <= i < j < s.len() ==> !P::precedes(s[j], s[i])
}

/// Where `placed` puts `x`.
pub open spec fn place_of<T: DeepView, P: Precedence<T>>(sorted: Seq<T::V>, x: T::V) -> int
    decreases sorted.len(),
{
    if sorted.len() > 0 && P::precedes(x, sorted.last()) {
        place_of::<T, P>(sorted.drop_last(), x)
    } else {
        sorted.len() as int
    }
}

pub proof fn lemma_placed<T: DeepView, P: Precedence<T>>(sorted: Seq<T::V>, x: T::V)
    ensures
        0 <= place_of::<T, P>(sorted, x) <= sorted.len(),
        placed::<T, P>(sorted, x) == sorted.insert(place_of::<T, P>(sorted, x), x),
        forall|k: int|
            place_of::<T, P>(sorted, x) <= k < sorted.len() ==> P::precedes(x, #[trigger] sorted[k]),
        place_of::<T, P>(sorted, x) > 0 ==> !P::precedes(
            x,
            sorted[place_of::<T, P>(sorted, x) - 1],
        ),
    decreases sorted.len(),
{
    if sorted.len() == 0 {
        assert(seq![x] =~= sorted.insert(0, x));
    } else if P::precedes(x, sorted.last()) {
        let init = sorted.drop_last();
        lemma_placed::<T, P>(init, x);
        let at = place_of::<T, P>(init, x);
        assert(init.insert(at, x).push(sorted.last()) =~= sorted.insert(at, x));
        assert forall|k: int| at <= k < sorted.len() implies P::precedes(
            x,
            #[trigger] sorted[k],
        ) by {
            if k < init.len() {
                assert(init[k] == sorted[k]);
            }
        }
    } else {
        assert(sorted.push(x) =~= sorted.insert(sorted.len() as int, x));
    }
}

/// Sorting rearranges: the result holds the same items, each as often as
/// before.
pub proof fn lemma_sorted_is_rearranged<T: DeepView, P: Precedence<T>>(s: Seq<T::V>)
    ensures
        sorted_by::<T, P>(s).to_multiset() == s.to_multiset(),
        sorted_by::<T, P>(s).len() == s.len(),
    decreases s.len(),
{
    broadcast use vstd::seq_lib::group_to_multiset_ensures;

    if s.len() == 0 {
    } else {
        let init = s.drop_last();
        let before = sorted_by::<T, P>(init);
        lemma_sorted_is_rearranged::<T, P>(init);
        lemma_placed::<T, P>(before, s.last());
        let at = place_of::<T, P>(before, s.last());
        let after = before.insert(at, s.last());
        assert(after.remove(at) =~= before);
        assert(after.to_multiset().remove(s.last()) =~= before.to_multiset());
        assert(init.push(s.last()) =~= s);
        assert(s.to_multiset() =~= init.to_multiset().insert(s.last()));
        assert(after.to_multiset() =~= s.to_multiset()) by {
            assert(after[at] == s.last());
            assert(after.contains(s.last()));
            assert(after.to_multiset().count(s.last()) > 0);
            assert(after.to_multiset() =~= after.to_multiset().remove(s.last()).insert(s.last()));
        }
    }
}

/// Sorting neither adds nor drops an item.
pub proof fn lemma_sorted_contains<T: DeepView, P: Precedence<T>>(s: Seq<T::V>, x: T::V)
    ensures
        sorted_by::<T, P>(s).contains(x) <==> s.contains(x),
{
    lemma_sorted_is_rearranged::<T, P>(s);
    vstd::seq_lib::to_multiset_contains(s, x);
    vstd::seq_lib::to_multiset_contains(sorted_by::<T, P>(s), x);
}

/// Sorting by a rule that is transitive in the sense that an item which
/// precedes another also precedes everything that the other does not have
/// to stand behind, gives a ranked list.
pub proof fn lemma_sorted_is_ranked<T: DeepView, P: Precedence<T>>(s: Seq<T::V>)
    requires
        forall|a: T::V, b: T::V, c: T::V|
            #[trigger] P::precedes(a, b) && !#[trigger] P::precedes(c, b) ==> P::precedes(a, c),
        forall|a: T::V, b: T::V| #[trigger] P::precedes(a, b) ==> !P::precedes(b, a),
    ensures
        is_ranked::<T, P>(sorted_by::<T, P>(s)),
    decreases s.len(),
{
    if s.len() == 0 {
    } else {
        let init = s.drop_last();
        let before = sorted_by::<T, P>(init);
        let x = s.last();
        lemma_sorted_is_ranked::<T, P>(init);
        lemma_placed::<T, P>(before, x);
        let at = place_of::<T, P>(before, x);
        let after = before.insert(at, x);
        assert forall|i: int, j: int| 0 <= i < j < after.len() implies !P::precedes(
            after[j],
            after[i],
        ) by {
            if j == at {
                // after[j] is x, after[i] stands before the place of x
                assert(after[i] == before[i]);
                if P::precedes(x, before[i]) {
                    // x does not precede before[at - 1], which does not stand behind before[i]
                    if i < at - 1 {
                        assert(!P::precedes(before[at - 1], before[i]));
                    }
                    // precedes(x, before[i]) and !precedes(before[at-1], before[i])
                    // give precedes(x, before[at - 1])
                    assert(P::precedes(x, before[at - 1]));
                }
            } else if i == at {
                assert(after[j] == before[j - 1]);
                assert(P::precedes(x, before[j - 1]));
            } else {
                let i0 = if i < at { i } else { i - 1 };
                let j0 = if j < at { j } else { j - 1 };
                assert(after[i] == before[i0]);
                assert(after[j] == before[j0]);
            }
        }
    }
}

/// Sorts `v` by `P`, keeping the order of items of equal rank.
pub fn sort_by<T: DeepView, P: Precedence<T>>(v: Vec<T>) -> (sorted: Vec<T>)
    ensures
        sorted.deep_view() == sorted_by::<T, P>(v.deep_view()),
{
    let mut input = v;
    let ghost all = input.deep_view();
    let ghost total = input.len();
    // Items are taken from the end of the input, so the input is first
    // reversed into a stack.
    let mut stack: Vec<T> = Vec::new();
    while input.len() > 0
        invariant
            input.len() + stack.len() == total,
            total == all.len(),
            forall|k: int| 0 <= k < input.len() ==> (#[trigger] input@[k]).deep_view() == all[k],
            forall|k: int|
                0 <= k < stack.len() ==> (#[trigger] stack@[k]).deep_view() == all[total - 1 - k],
        decreases input.len(),
    {
        let x = input.pop().unwrap();
        stack.push(x);
    }
    let mut sorted: Vec<T> = Vec::new();
    assert(sorted.deep_view() =~= sorted_by::<T, P>(all.take(0)));
    while stack.len() > 0
        invariant
            stack.len() <= total,
            total == all.len(),
            forall|k: int|
                0 <= k < stack.len() ==> (#[trigger] stack@[k]).deep_view() == all[total - 1 - k],
            sorted.deep_view() == sorted_by::<T, P>(all.take(total - stack.len())),
        decreases stack.len(),
    {
        let ghost done = total - stack.len();
        let x = stack.pop().unwrap();
        assert(x.deep_view() == all[done]);
        let ghost before = sorted.deep_view();
        let mut at: usize = sorted.len();
        assert(before.take(at as int) =~= before);
        while at > 0 && P::comes_before(&x, &sorted[at - 1])
            invariant
                at <= sorted.len(),
                before == sorted.deep_view(),
                place_of::<T, P>(before, x.deep_view()) == place_of::<T, P>(
                    before.take(at as int),
                    x.deep_view(),
                ),
            decreases at,
        {
            proof {
                let part = before.take(at as int);
                assert(part.last() == sorted@[at - 1].deep_view());
                assert(part.drop_last() =~= before.take(at - 1));
            }
            at -= 1;
        }
        proof {
            let part = before.take(at as int);
            if at > 0 {
                assert(part.last() == sorted@[at - 1].deep_view());
            }
            assert(place_of::<T, P>(part, x.deep_view()) == at);
            lemma_placed::<T, P>(before, x.deep_view());
            assert(all.take(done + 1).drop_last() =~= all.take(done));
            assert(all.take(done + 1).last() == all[done]);
            assert(before.take(before.len() as int) =~= before);
        }
        let ghost xv = x.deep_view();
        sorted.insert(at, x);
        assert(sorted.deep_view() =~= before.insert(at as int, xv));
    }
    assert(all.take(total as int) =~= all);
    sorted
}

} // verus!
