use vstd::prelude::*;

verus! {

/// The mathematical values of the items of `items`, in order.
pub open spec fn views_of<T: View>(items: Seq<T>) -> Seq<T::V> {
    items.map_values(|item: T| item@)
}

/// The mathematical value of what `value` holds, if it holds anything.
pub open spec fn option_view<T: View>(value: Option<T>) -> Option<T::V> {
    match value {
        Some(held) => Some(held@),
        None => None,
    }
}

/// The first item of `items` that `wanted` holds of, if there is one.
pub open spec fn first_match<T>(items: Seq<T>, wanted: spec_fn(T) -> bool) -> Option<T>
    decreases items.len(),
{
    if items.len() == 0 {
        None
    } else if wanted(items[0]) {
        Some(items[0])
    } else {
        first_match(items.drop_first(), wanted)
    }
}

/// Where none of the first `n` items is wanted, the first match of the whole is
/// the first match of what follows them.
pub proof fn lemma_first_match_skip<T>(items: Seq<T>, wanted: spec_fn(T) -> bool, n: int)
    requires
        0 <= n <= items.len(),
        forall|i: int| 0 <= i < n ==> !wanted(#[trigger] items[i]),
    ensures
        first_match(items, wanted) == first_match(items.skip(n), wanted),
    decreases n,
{
    if n == 0 {
        assert(items.skip(0) =~= items);
    } else {
        assert(!wanted(items[0]));
        let rest = items.drop_first();
        assert forall|i: int| 0 <= i < n - 1 implies !wanted(#[trigger] rest[i]) by {
            assert(rest[i] == items[i + 1]);
        }
        lemma_first_match_skip(rest, wanted, n - 1);
        assert(rest.skip(n - 1) =~= items.skip(n));
    }
}

/// Filtering one item more: the item joins what was kept exactly where it is wanted.
pub proof fn lemma_filter_step<T>(items: Seq<T>, wanted: spec_fn(T) -> bool, n: int)
    requires
        0 <= n < items.len(),
    ensures
        items.take(n + 1).filter(wanted) == if wanted(items[n]) {
            items.take(n).filter(wanted).push(items[n])
        } else {
            items.take(n).filter(wanted)
        },
{
    reveal(Seq::filter);
    assert(items.take(n + 1).drop_last() =~= items.take(n));
}

} // verus!
