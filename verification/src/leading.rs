//! The leading run of successes in a sequence of optional results.
//!
//! Both passes over the input array stop at the first element that yields
//! nothing. What they keep is described here once.

use vstd::prelude::*;

verus! {

/// The first position at or after `from` that holds `None`, or the length of
/// `items` where there is none.
pub open spec fn first_none<T>(items: Seq<Option<T>>, from: nat) -> nat
    decreases items.len() - from,
{
    if from >= items.len() {
        items.len()
    } else if items[from as int] is None {
        from
    } else {
        first_none(items, from + 1)
    }
}

/// How many items stand before the first `None`.
pub open spec fn leading_some<T>(items: Seq<Option<T>>) -> nat {
    first_none(items, 0)
}

/// `first_none` finds a `None`, passes only over `Some`, and stays in range.
pub proof fn lemma_first_none<T>(items: Seq<Option<T>>, from: nat)
    requires
        from <= items.len(),
    ensures
        from <= first_none(items, from) <= items.len(),
        forall|j: int| from <= j < first_none(items, from) ==> (#[trigger] items[j]) is Some,
        first_none(items, from) < items.len() ==> items[first_none(items, from) as int] is None,
    decreases items.len() - from,
{
    if from < items.len() && items[from as int] is Some {
        lemma_first_none(items, from + 1);
    }
}

/// The leading run ends at the first `None` and nowhere else.
pub proof fn lemma_leading_some<T>(items: Seq<Option<T>>)
    ensures
        leading_some(items) <= items.len(),
        forall|j: int| 0 <= j < leading_some(items) ==> (#[trigger] items[j]) is Some,
        leading_some(items) < items.len() ==> items[leading_some(items) as int] is None,
{
    lemma_first_none(items, 0);
}

/// A position that ends a run of `Some` is the one that `leading_some` names.
pub proof fn lemma_leading_some_is<T>(items: Seq<Option<T>>, count: nat)
    requires
        count <= items.len(),
        forall|j: int| 0 <= j < count ==> (#[trigger] items[j]) is Some,
        count < items.len() ==> items[count as int] is None,
    ensures
        leading_some(items) == count,
{
    lemma_first_none(items, 0);
    let found = leading_some(items);
    if found < count {
        assert(items[found as int] is Some);
    } else if found > count {
        assert(items[count as int] is Some);
    }
}

/// The leading run covers everything exactly when nothing is `None`.
pub proof fn lemma_leading_some_complete<T>(items: Seq<Option<T>>)
    ensures
        leading_some(items) == items.len() <==> forall|j: int|
            0 <= j < items.len() ==> (#[trigger] items[j]) is Some,
{
    lemma_first_none(items, 0);
    if leading_some(items) < items.len() {
        assert(items[leading_some(items) as int] is None);
    }
}

} // verus!
