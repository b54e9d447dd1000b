//! Facts about the selection of the elements of a sequence that satisfy a
//! condition.

use vstd::prelude::*;

verus! {

/// Selecting from a sequence with one element more.
pub proof fn lemma_filter_push<A>(s: Seq<A>, x: A, pred: spec_fn(A) -> bool)
    ensures
        s.push(x).filter(pred) == if pred(x) {
            s.filter(pred).push(x)
        } else {
            s.filter(pred)
        },
{
    reveal(Seq::filter);
    assert(s.push(x).drop_last() == s);
}

/// Nothing is selected where no element satisfies the condition.
pub proof fn lemma_filter_none<A>(s: Seq<A>, pred: spec_fn(A) -> bool)
    requires
        forall|k: int| 0 <= k < s.len() ==> !pred(s[k]),
    ensures
        s.filter(pred) == Seq::<A>::empty(),
    decreases s.len(),
{
    reveal(Seq::filter);
    if s.len() > 0 {
        let front = s.drop_last();
        assert forall|k: int| 0 <= k < front.len() implies !pred(front[k]) by {}
        lemma_filter_none(front, pred);
    }
}

/// Where exactly one element satisfies the condition, it alone is selected.
pub proof fn lemma_filter_single<A>(s: Seq<A>, pred: spec_fn(A) -> bool, at: int)
    requires
        0 <= at < s.len(),
        pred(s[at]),
        forall|k: int| 0 <= k < s.len() && k != at ==> !pred(s[k]),
    ensures
        s.filter(pred) == seq![s[at]],
    decreases s.len(),
{
    reveal(Seq::filter);
    let front = s.drop_last();
    if at == s.len() - 1 {
        assert forall|k: int| 0 <= k < front.len() implies !pred(front[k]) by {}
        lemma_filter_none(front, pred);
    } else {
        assert forall|k: int| 0 <= k < front.len() && k != at implies !pred(front[k]) by {}
        lemma_filter_single(front, pred, at);
    }
}

/// Every element that satisfies the condition adds one to the selection.
pub proof fn lemma_filter_counts<A>(s: Seq<A>, pred: spec_fn(A) -> bool, at: int)
    requires
        0 <= at < s.len(),
        pred(s[at]),
    ensures
        s.filter(pred).len() >= s.take(at).filter(pred).len() + 1,
    decreases s.len(),
{
    reveal(Seq::filter);
    let front = s.drop_last();
    if at == s.len() - 1 {
    } else {
        lemma_filter_counts(front, pred, at);
        assert(front.take(at) == s.take(at));
    }
}

/// Where two elements satisfy the condition, at least two are selected.
pub proof fn lemma_filter_two<A>(s: Seq<A>, pred: spec_fn(A) -> bool, first: int, second: int)
    requires
        0 <= first < second < s.len(),
        pred(s[first]),
        pred(s[second]),
    ensures
        s.filter(pred).len() >= 2,
{
    lemma_filter_counts(s, pred, second);
    let front = s.take(second);
    lemma_filter_counts(front, pred, first);
}

} // verus!
