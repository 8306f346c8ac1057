//! Picking items out of a list: the first of a kind, or those that are marked.

use vstd::prelude::*;

verus! {

/// The first item of `s` that satisfies `p`, if there is one.
pub open spec fn first_where<T>(s: Seq<T>, p: spec_fn(T) -> bool) -> Option<T>
    decreases s.len(),
{
    if s.len() == 0 {
        None
    } else if p(s[0]) {
        Some(s[0])
    } else {
        first_where(s.drop_first(), p)
    }
}

/// The items of `items` whose mark is set, in their order. Item `i` is marked
/// when `marks[i]` exists and is true.
pub open spec fn marked<T>(items: Seq<T>, marks: Seq<bool>) -> Seq<T>
    decreases items.len(),
{
    if items.len() == 0 {
        Seq::empty()
    } else {
        let i = items.len() - 1;
        let rest = marked(items.drop_last(), marks);
        if i < marks.len() && marks[i] {
            rest.push(items.last())
        } else {
            rest
        }
    }
}

/// Taking the marked items and turning each into `f` of it is the same as
/// selecting with `pick`, if `pick` gives `f` of an item exactly where the
/// item is marked.
pub proof fn lemma_marked_is_filter_map<A, B>(
    items: Seq<A>,
    marks: Seq<bool>,
    f: spec_fn(A) -> B,
    pick: spec_fn(A) -> Option<B>,
)
    requires
        forall|i: int|
            0 <= i < items.len() ==> pick(#[trigger] items[i]) == if i < marks.len() && marks[i] {
                Some(f(items[i]))
            } else {
                None
            },
    ensures
        marked(items, marks).map_values(f) == items.filter_map(pick),
    decreases items.len(),
{
    if items.len() == 0 {
        assert(marked(items, marks).map_values(f) =~= items.filter_map(pick));
    } else {
        let rest = items.drop_last();
        let i = items.len() - 1;
        assert forall|j: int| 0 <= j < rest.len() implies pick(#[trigger] rest[j]) == if j
            < marks.len() && marks[j] {
            Some(f(rest[j]))
        } else {
            None
        } by {
            assert(rest[j] == items[j]);
        }
        lemma_marked_is_filter_map(rest, marks, f, pick);
        assert(items.last() == items[i]);
        assert(marked(items, marks).map_values(f) =~= items.filter_map(pick));
    }
}

/// Looking at one more item: the marked items among the first `i + 1` are
/// those among the first `i`, and item `i` behind them if it is marked.
pub proof fn lemma_marked_take<T>(items: Seq<T>, marks: Seq<bool>, i: int)
    requires
        0 <= i < items.len(),
    ensures
        marked(items.take(i + 1), marks) == if i < marks.len() && marks[i] {
            marked(items.take(i), marks).push(items[i])
        } else {
            marked(items.take(i), marks)
        },
{
    assert(items.take(i + 1).drop_last() =~= items.take(i));
}

} // verus!
