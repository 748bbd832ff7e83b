//! Screen-space interface: the index data of its quads.
use crate::mesh_data::{MeshError, mesh_check};
use vstd::prelude::*;

verus! {

/// The six indices of the two triangles of quad `q`, whose corners are the
/// vertices `4q .. 4q + 3`.
pub open spec fn quad_index(q: int, corner: int) -> int {
    let offset: int = if corner == 0 || corner == 3 {
        0
    } else if corner == 1 {
        1
    } else if corner == 2 || corner == 4 {
        2
    } else {
        3
    };
    4 * q + offset
}

/// Builds the geometry of the interface boxes.
pub struct UiManager {}

impl UiManager {
    /// The index list of `quad_count` quads drawn as two triangles each:
    /// `[4q, 4q+1, 4q+2, 4q, 4q+2, 4q+3]` for each quad `q` in turn.
    pub fn quad_indices(quad_count: usize) -> (r: Vec<u32>)
        requires
            quad_count * 4 <= u32::MAX,
        ensures
            r@.len() == 6 * quad_count,
            forall|q: int, c: int| 0 <= q < quad_count && 0 <= c < 6 ==> r@[6 * q + c] == quad_index(q, c),
    {
        let mut r: Vec<u32> = Vec::new();
        let mut ic: u32 = 0;
        let mut q: usize = 0;
        while q < quad_count
            invariant
                q <= quad_count,
                quad_count * 4 <= u32::MAX,
                ic == 4 * q,
                r@.len() == 6 * q,
                forall|p: int, c: int| 0 <= p < q && 0 <= c < 6 ==> r@[6 * p + c] == quad_index(p, c),
            decreases quad_count - q,
        {
            let ghost before = r@;
            r.push(ic);
            r.push(ic + 1);
            r.push(ic + 2);
            r.push(ic);
            r.push(ic + 2);
            r.push(ic + 3);
            assert forall|p: int, c: int| 0 <= p < q + 1 && 0 <= c < 6 implies r@[6 * p + c] == quad_index(p, c) by {
                if p < q {
                    assert(r@[6 * p + c] == before[6 * p + c]);
                }
            }
            ic = ic + 4;
            q = q + 1;
        }
        r
    }
}

/// An index list of `n` quads drawn as two triangles each, in the pattern
/// `UiManager::quad_indices` produces.
pub open spec fn is_quad_index_list(s: Seq<u32>, n: int) -> bool {
    &&& s.len() == 6 * n
    &&& forall|q: int, c: int| 0 <= q < n && 0 <= c < 6 ==> s[6 * q + c] == quad_index(q, c)
}

/// The index list of `n` quads (n at least one) is a valid mesh over the
/// `4n` vertices of their corners.
pub proof fn law_quads_form_mesh(s: Seq<u32>, n: int)
    requires
        n >= 1,
        is_quad_index_list(s, n),
    ensures
        mesh_check(4 * n, s) == Ok::<(), MeshError>(()),
{
    assert forall|k: int| 0 <= k < s.len() implies s[k] < 4 * n by {
        let q = k / 6;
        let c = k % 6;
        assert(k == 6 * q + c && 0 <= c < 6 && 0 <= q < n) by (nonlinear_arith)
            requires
                0 <= k < 6 * n,
                q == k / 6,
                c == k % 6,
        ;
        assert(s[6 * q + c] == quad_index(q, c));
    }
}

} // verus!
