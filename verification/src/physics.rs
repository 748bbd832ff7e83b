//! Collision detection: which pairs of colliders are tested against each other.
use vstd::prelude::*;

verus! {

/// Tests the colliders of the world against each other.
pub struct CollisionHandler {}

/// The pairs `(i, j)` with `j < upto` whose keys satisfy `keys[i] > keys[j]`, by increasing `j`.
pub open spec fn row_pairs(keys: Seq<u64>, i: int, upto: int) -> Seq<(usize, usize)>
    decreases upto,
{
    if upto <= 0 {
        Seq::empty()
    } else if keys[i] > keys[upto - 1] {
        row_pairs(keys, i, upto - 1).push((i as usize, (upto - 1) as usize))
    } else {
        row_pairs(keys, i, upto - 1)
    }
}

/// The pairs `(i, j)` with `i < upto` and `keys[i] > keys[j]`, by increasing
/// `i` and then increasing `j`.
pub open spec fn ordered_pairs(keys: Seq<u64>, upto: int) -> Seq<(usize, usize)>
    decreases upto,
{
    if upto <= 0 {
        Seq::empty()
    } else {
        ordered_pairs(keys, upto - 1) + row_pairs(keys, upto - 1, keys.len() as int)
    }
}

proof fn lemma_row_pairs_members(keys: Seq<u64>, i: int, upto: int)
    requires
        0 <= i < keys.len(),
        0 <= upto <= keys.len(),
        keys.len() <= usize::MAX,
    ensures
        forall|p: (usize, usize)| #[trigger] row_pairs(keys, i, upto).contains(p) <==> (p.0 == i && p.1 < upto
            && keys[i] > keys[p.1 as int]),
    decreases upto,
{
    if upto > 0 {
        lemma_row_pairs_members(keys, i, upto - 1);
        let prev = row_pairs(keys, i, upto - 1);
        assert forall|p: (usize, usize)| #[trigger] row_pairs(keys, i, upto).contains(p) <==> (p.0 == i && p.1
            < upto && keys[i] > keys[p.1 as int]) by {
            if keys[i] > keys[upto - 1] {
                let next = prev.push((i as usize, (upto - 1) as usize));
                if prev.contains(p) {
                    let k = choose|k: int| 0 <= k < prev.len() && prev[k] == p;
                    assert(next[k] == p);
                }
                if next.contains(p) {
                    let k = choose|k: int| 0 <= k < next.len() && next[k] == p;
                    if k < prev.len() {
                        assert(prev[k] == p);
                    }
                }
                if p.0 == i && p.1 == upto - 1 {
                    assert(next[prev.len() as int] == p);
                }
            }
        }
    }
}

proof fn lemma_ordered_pairs_members(keys: Seq<u64>, upto: int)
    requires
        0 <= upto <= keys.len(),
        keys.len() <= usize::MAX,
    ensures
        forall|p: (usize, usize)| #[trigger] ordered_pairs(keys, upto).contains(p) <==> (p.0 < upto && p.1
            < keys.len() && keys[p.0 as int] > keys[p.1 as int]),
    decreases upto,
{
    if upto > 0 {
        lemma_ordered_pairs_members(keys, upto - 1);
        lemma_row_pairs_members(keys, upto - 1, keys.len() as int);
        let a = ordered_pairs(keys, upto - 1);
        let b = row_pairs(keys, upto - 1, keys.len() as int);
        assert forall|p: (usize, usize)| #[trigger] ordered_pairs(keys, upto).contains(p) <==> (p.0 < upto
            && p.1 < keys.len() && keys[p.0 as int] > keys[p.1 as int]) by {
            let s = a + b;
            if a.contains(p) {
                let k = choose|k: int| 0 <= k < a.len() && a[k] == p;
                assert(s[k] == p);
            }
            if b.contains(p) {
                let k = choose|k: int| 0 <= k < b.len() && b[k] == p;
                assert(s[a.len() + k] == p);
            }
            if s.contains(p) {
                let k = choose|k: int| 0 <= k < s.len() && s[k] == p;
                if k < a.len() {
                    assert(a[k] == p);
                } else {
                    assert(b[k - a.len()] == p);
                }
            }
        }
    }
}

/// Each pair of colliders with different keys is tested exactly once, as
/// the pair whose first member has the larger key; colliders with equal
/// keys (an entity with itself) are never paired.
pub proof fn law_each_pair_tested_once(keys: Seq<u64>, i: int, j: int)
    requires
        keys.len() <= usize::MAX,
        0 <= i < keys.len(),
        0 <= j < keys.len(),
    ensures
        keys[i] > keys[j] ==> ordered_pairs(keys, keys.len() as int).contains((i as usize, j as usize))
            && !ordered_pairs(keys, keys.len() as int).contains((j as usize, i as usize)),
        keys[i] == keys[j] ==> !ordered_pairs(keys, keys.len() as int).contains((i as usize, j as usize)),
{
    lemma_ordered_pairs_members(keys, keys.len() as int);
    assert(((i as usize) as int) == i && ((j as usize) as int) == j);
}

impl CollisionHandler {
    /// The pairs of colliders to test, as positions in `keys`: position `i`
    /// is paired with position `j` when the key of `i` (its entity's order
    /// key) is larger, rows in increasing `i` and each row in increasing `j`.
    pub fn candidate_pairs(keys: &Vec<u64>) -> (r: Vec<(usize, usize)>)
        ensures
            r@ == ordered_pairs(keys@, keys@.len() as int),
    {
        let n = keys.len();
        let mut r: Vec<(usize, usize)> = Vec::new();
        let mut i: usize = 0;
        while i < n
            invariant
                n == keys@.len(),
                i <= n,
                r@ == ordered_pairs(keys@, i as int),
            decreases n - i,
        {
            let ghost base = r@;
            let mut j: usize = 0;
            while j < n
                invariant
                    n == keys@.len(),
                    i < n,
                    j <= n,
                    base == ordered_pairs(keys@, i as int),
                    r@ == base + row_pairs(keys@, i as int, j as int),
                decreases n - j,
            {
                if keys[i] > keys[j] {
                    r.push((i, j));
                    assert(r@ =~= base + row_pairs(keys@, i as int, j + 1));
                } else {
                    assert(r@ =~= base + row_pairs(keys@, i as int, j + 1));
                }
                j = j + 1;
            }
            i = i + 1;
        }
        r
    }
}

} // verus!
