//! Linear-search specifications shared by the lookup helpers.

#[allow(unused_imports)]
use vstd::prelude::*;

verus! {

/// First index at or after `start` whose element satisfies `pred`.
pub open spec fn first_index_from<T>(items: Seq<T>, pred: spec_fn(T) -> bool, start: int) -> Option<
    int,
>
    decreases items.len() - start,
{
    if start < 0 || start >= items.len() {
        None
    } else if pred(items[start]) {
        Some(start)
    } else {
        first_index_from(items, pred, start + 1)
    }
}

/// First index whose element satisfies `pred`.
pub open spec fn first_index<T>(items: Seq<T>, pred: spec_fn(T) -> bool) -> Option<int> {
    first_index_from(items, pred, 0)
}

/// A found index lies in bounds, satisfies `pred`, and nothing before it (from `start`) does.
pub proof fn lemma_first_index_bounds<T>(items: Seq<T>, pred: spec_fn(T) -> bool, start: int)
    requires
        0 <= start,
    ensures
        first_index_from(items, pred, start) matches Some(i) ==> start <= i < items.len() && pred(
            items[i],
        ) && forall|j: int| start <= j < i ==> !pred(#[trigger] items[j]),
        first_index_from(items, pred, start) is None ==> forall|j: int|
            start <= j < items.len() ==> !pred(#[trigger] items[j]),
    decreases items.len() - start,
{
    if start < items.len() && !pred(items[start]) {
        lemma_first_index_bounds(items, pred, start + 1);
    }
}

/// Two sequences of equal length whose elements agree on `pred` have the same first match.
pub proof fn lemma_first_index_same<T>(a: Seq<T>, b: Seq<T>, pred: spec_fn(T) -> bool, start: int)
    requires
        0 <= start,
        a.len() == b.len(),
        forall|j: int| 0 <= j < a.len() ==> pred(#[trigger] a[j]) == pred(b[j]),
    ensures
        first_index_from(a, pred, start) == first_index_from(b, pred, start),
    decreases a.len() - start,
{
    if start < a.len() {
        lemma_first_index_same(a, b, pred, start + 1);
    }
}

/// Appending an element keeps an earlier match, and is the first match when nothing before it
/// matched.
pub proof fn lemma_first_index_push<T>(a: Seq<T>, x: T, pred: spec_fn(T) -> bool, start: int)
    requires
        0 <= start <= a.len(),
    ensures
        first_index_from(a, pred, start) is Some ==> first_index_from(a.push(x), pred, start)
            == first_index_from(a, pred, start),
        first_index_from(a, pred, start) is None ==> first_index_from(a.push(x), pred, start) == (
        if pred(x) {
            Some(a.len() as int)
        } else {
            None::<int>
        }),
    decreases a.len() - start,
{
    assert(a.push(x)[a.len() as int] == x);
    if start < a.len() {
        assert(a.push(x)[start] == a[start]);
        lemma_first_index_push(a, x, pred, start + 1);
    } else {
        assert(first_index_from(a.push(x), pred, start + 1) is None);
    }
}

} // verus!
