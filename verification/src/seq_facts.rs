//! Facts about filtering a sequence that the laws of the stores rest on.

use vstd::prelude::*;

verus! {

/// A filter that every element passes changes nothing.
pub proof fn lemma_filter_keeps_all<A>(s: Seq<A>, pred: spec_fn(A) -> bool)
    requires
        forall|i: int| 0 <= i < s.len() ==> pred(#[trigger] s[i]),
    ensures
        s.filter(pred) == s,
    decreases s.len(),
{
    reveal(Seq::filter);
    if s.len() > 0 {
        lemma_filter_keeps_all(s.drop_last(), pred);
        assert(s.drop_last().push(s.last()) =~= s);
    }
}

/// A filter that the first `k` elements pass leaves them in place.
pub proof fn lemma_filter_keeps_prefix<A>(s: Seq<A>, pred: spec_fn(A) -> bool, k: int)
    requires
        0 <= k <= s.len(),
        forall|i: int| 0 <= i < k ==> pred(#[trigger] s[i]),
    ensures
        s.filter(pred).len() >= k,
        s.filter(pred).take(k) == s.take(k),
{
    let head = s.take(k);
    let tail = s.skip(k);
    lemma_filter_keeps_all(head, pred);
    assert(s =~= head + tail);
    Seq::filter_distributes_over_add(head, tail, pred);
    assert(s.filter(pred) == head + tail.filter(pred));
    assert(s.filter(pred).take(k) =~= head);
}

/// A filter that the only element fails leaves nothing.
pub proof fn lemma_filter_drops_single<A>(a: A, pred: spec_fn(A) -> bool)
    requires
        !pred(a),
    ensures
        seq![a].filter(pred) == Seq::<A>::empty(),
{
    reveal(Seq::filter);
    assert(seq![a].drop_last() =~= Seq::<A>::empty());
    assert(Seq::<A>::empty().filter(pred) =~= Seq::<A>::empty());
}

/// A filter and its opposite split a sequence between them.
pub proof fn lemma_filter_splits<A>(s: Seq<A>, pred: spec_fn(A) -> bool, rest: spec_fn(A) -> bool)
    requires
        forall|i: int| 0 <= i < s.len() ==> rest(#[trigger] s[i]) == !pred(s[i]),
    ensures
        s.filter(pred).len() + s.filter(rest).len() == s.len(),
    decreases s.len(),
{
    reveal(Seq::filter);
    if s.len() > 0 {
        lemma_filter_splits(s.drop_last(), pred, rest);
    }
}

/// Every element of a filtered sequence passes the filter and comes from the
/// sequence, and the elements keep their order.
pub proof fn lemma_filter_is_ordered_part<A>(s: Seq<A>, pred: spec_fn(A) -> bool) -> (from: Seq<
    int,
>)
    ensures
        from.len() == s.filter(pred).len(),
        forall|i: int|
            0 <= i < from.len() ==> 0 <= #[trigger] from[i] < s.len() && s.filter(pred)[i]
                == s[from[i]] && pred(s[from[i]]),
        forall|i: int, j: int| 0 <= i < j < from.len() ==> #[trigger] from[i] < #[trigger] from[j],
    decreases s.len(),
{
    reveal(Seq::filter);
    if s.len() == 0 {
        Seq::<int>::empty()
    } else {
        let inner = lemma_filter_is_ordered_part(s.drop_last(), pred);
        if pred(s.last()) {
            inner.push(s.len() - 1)
        } else {
            inner
        }
    }
}

} // verus!
