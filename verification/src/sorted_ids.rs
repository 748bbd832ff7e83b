//! Reading the identifiers held in a `BTreeSet<usize>` in increasing order.
use std::collections::BTreeSet;
use vstd::prelude::*;
use vstd::std_specs::cmp::OrdSpec;
use vstd::std_specs::iter::IteratorSpec;

verus! {

broadcast use {vstd::std_specs::btree::group_btree_axioms, vstd::laws_cmp::group_laws_cmp};

spec fn ordering_of<K: Ord>(a: K, b: K) -> std::cmp::Ordering {
    a.cmp_spec(&b)
}

proof fn lemma_increasing_refs(items: Seq<&usize>)
    requires
        vstd::std_specs::btree::increasing_seq(items),
    ensures
        forall|i: int, j: int| 0 <= i < j < items.len() ==> *items[i] < *items[j],
{
    assert(vstd::laws_cmp::obeys_cmp::<&usize>());
    vstd::std_specs::btree::axiom_increasing_seq_meaning::<&usize>(items);
    assert forall|i: int, j: int| 0 <= i < j < items.len() implies *items[i] < *items[j] by {
        assert(ordering_of(items[i], items[j]) == std::cmp::Ordering::Less);
    }
}

/// A sequence that is strictly increasing.
pub open spec fn strictly_increasing(s: Seq<usize>) -> bool {
    forall|i: int, j: int| 0 <= i < j < s.len() ==> s[i] < s[j]
}

/// The members of `ids`, smallest first.
pub fn sorted_ids(ids: &BTreeSet<usize>) -> (r: Vec<usize>)
    ensures
        r@.to_set() == ids@,
        r@.no_duplicates(),
        strictly_increasing(r@),
{
    let mut r: Vec<usize> = Vec::new();
    let iter = ids.iter();
    let ghost refs = iter.remaining();
    let ghost items = refs.map_values(|p: &usize| *p);
    assert(items =~= refs.unref());
    for x in it: iter
        invariant
            it.seq().map_values(|p: &usize| *p) == items,
            r@ == items.take(it.index() as int),
    {
        assert(items.take(it.index() + 1) =~= items.take(it.index() as int).push(*x));
        r.push(*x);
    }
    assert(items.take(items.len() as int) =~= items);
    proof {
        lemma_increasing_refs(refs);
    }
    r
}

} // verus!
