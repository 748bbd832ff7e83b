//! Index data of meshes: checking index lists against vertex lists, and
//! reading index buffers stored as little-endian integers.
use vstd::prelude::*;

verus! {

/// Why a vertex and index list do not form a mesh.
#[derive(Debug, PartialEq, Eq, Clone, Copy, Structural)]
pub enum MeshError {
    EmptyVertexList,
    EmptyIndexList,
    IndexOutOfBounds,
}

/// How the integers of an index buffer are stored.
#[derive(Debug, PartialEq, Eq, Clone, Copy, Structural)]
pub enum IndexComponent {
    U8,
    U16,
    U32,
    /// Any other component type; index buffers of this kind are not read.
    Unsupported,
}

/// The outcome of checking `indices` against a list of `vertex_count` vertices.
pub open spec fn mesh_check(vertex_count: int, indices: Seq<u32>) -> Result<(), MeshError> {
    if vertex_count == 0 {
        Err(MeshError::EmptyVertexList)
    } else if indices.len() == 0 {
        Err(MeshError::EmptyIndexList)
    } else if exists|i: int| 0 <= i < indices.len() && indices[i] >= vertex_count {
        Err(MeshError::IndexOutOfBounds)
    } else {
        Ok(())
    }
}

/// Checks that the vertex list (of `vertex_count` vertices) and the index
/// list are not empty and that every index names a vertex.
pub fn check_mesh_data(vertex_count: usize, indices: &Vec<u32>) -> (r: Result<(), MeshError>)
    ensures
        r == mesh_check(vertex_count as int, indices@),
{
    if vertex_count == 0 {
        return Err(MeshError::EmptyVertexList);
    }
    if indices.len() == 0 {
        return Err(MeshError::EmptyIndexList);
    }
    let mut largest: u32 = indices[0];
    let mut i: usize = 1;
    while i < indices.len()
        invariant
            1 <= i <= indices@.len(),
            exists|j: int| 0 <= j < i && indices@[j] == largest,
            forall|j: int| 0 <= j < i ==> indices@[j] <= largest,
        decreases indices@.len() - i,
    {
        if indices[i] > largest {
            largest = indices[i];
        }
        i = i + 1;
    }
    if largest as usize >= vertex_count {
        Err(MeshError::IndexOutOfBounds)
    } else {
        Ok(())
    }
}

/// The number of bytes one index of kind `component` takes.
pub open spec fn component_width(component: IndexComponent) -> int {
    match component {
        IndexComponent::U8 => 1,
        IndexComponent::U16 => 2,
        IndexComponent::U32 => 4,
        IndexComponent::Unsupported => 0,
    }
}

/// The unsigned integer stored little-endian in the `width` bytes of `b` from `at` on.
pub open spec fn le_value(b: Seq<u8>, at: int, width: int) -> int {
    if width == 1 {
        b[at] as int
    } else if width == 2 {
        b[at] + 256 * b[at + 1]
    } else {
        b[at] + 256 * b[at + 1] + 65536 * b[at + 2] + 16777216 * b[at + 3]
    }
}

/// Reads `count` indices of kind `component` from `buffer`, the first at
/// byte `start`, each following the previous one directly. Index buffers of
/// an unsupported kind give nothing.
pub fn decode_indices(buffer: &[u8], start: usize, count: usize, component: IndexComponent) -> (r: Option<Vec<u32>>)
    requires
        count == 0 || start + component_width(component) * count <= buffer@.len(),
    ensures
        component == IndexComponent::Unsupported <==> r is None,
        r matches Some(v) ==> {
            &&& v@.len() == count
            &&& forall|k: int| 0 <= k < count ==> v@[k] == le_value(buffer@, start + component_width(component) * k, component_width(component))
        },
{
    let width: usize = match component {
        IndexComponent::U8 => 1,
        IndexComponent::U16 => 2,
        IndexComponent::U32 => 4,
        IndexComponent::Unsupported => {
            return None;
        },
    };
    let len = buffer.len();
    let mut v: Vec<u32> = Vec::new();
    let mut k: usize = 0;
    while k < count
        invariant
            width == component_width(component),
            component != IndexComponent::Unsupported,
            k <= count,
            len == buffer@.len(),
            count == 0 || start + width * count <= len,
            v@.len() == k,
            forall|j: int| 0 <= j < k ==> v@[j] == le_value(buffer@, start + width * j, width as int),
        decreases count - k,
    {
        assert(start + width * k + width <= len) by (nonlinear_arith)
            requires
                k < count,
                width >= 1,
                start + width * count <= len,
        ;
        let i = start + width * k;
        let x: u32 = if width == 1 {
            buffer[i] as u32
        } else if width == 2 {
            buffer[i] as u32 + (buffer[i + 1] as u32) * 256
        } else {
            buffer[i] as u32 + (buffer[i + 1] as u32) * 256 + (buffer[i + 2] as u32) * 65536 + (
            buffer[i + 3] as u32) * 16777216
        };
        v.push(x);
        k = k + 1;
    }
    Some(v)
}

/// The indices `0 .. n` for a primitive drawn without an index buffer, where
/// `n` is the vertex count taken as a `u32`.
pub fn sequential_indices(vertex_count: usize) -> (r: Vec<u32>)
    ensures
        r@.len() == vertex_count as u32,
        forall|i: int| 0 <= i < r@.len() ==> r@[i] == i,
{
    let n = vertex_count as u32;
    let mut r: Vec<u32> = Vec::new();
    let mut i: u32 = 0;
    while i < n
        invariant
            i <= n,
            r@.len() == i,
            forall|j: int| 0 <= j < i ==> r@[j] == j,
        decreases n - i,
    {
        r.push(i);
        i = i + 1;
    }
    r
}

/// A primitive without an index buffer (at least one vertex, fewer than
/// 2^32) draws through the indices `0 .. n`, which form a valid mesh over
/// its `n` vertices.
pub proof fn law_sequential_indices_form_mesh(s: Seq<u32>, n: int)
    requires
        1 <= n <= u32::MAX,
        s.len() == n,
        forall|i: int| 0 <= i < s.len() ==> s[i] == i,
    ensures
        mesh_check(n, s) == Ok::<(), MeshError>(()),
{
}

/// A vertex and index list form a mesh exactly when both are non-empty and
/// every index names one of the vertices; otherwise the first failing rule,
/// in the order empty vertex list, empty index list, index out of range, is
/// the error. An index at or past the vertex count is refused whatever its size.
pub proof fn law_mesh_check_rules(vertex_count: int, indices: Seq<u32>, i: int)
    requires
        vertex_count >= 0,
    ensures
        (mesh_check(vertex_count, indices) is Ok) <==> (vertex_count > 0 && indices.len() > 0 && forall|k: int|
            0 <= k < indices.len() ==> #[trigger] indices[k] < vertex_count),
        vertex_count == 0 ==> mesh_check(vertex_count, indices) == Err::<(), MeshError>(MeshError::EmptyVertexList),
        (vertex_count > 0 && indices.len() == 0) ==> mesh_check(vertex_count, indices) == Err::<(), MeshError>(
            MeshError::EmptyIndexList,
        ),
        (vertex_count > 0 && 0 <= i < indices.len() && indices[i] >= vertex_count) ==> mesh_check(vertex_count, indices)
            == Err::<(), MeshError>(MeshError::IndexOutOfBounds),
{
}

/// Indices are read little-endian: the lowest byte comes first, each later
/// byte counts 256 times more, and the value fits in the bytes read. An
/// index takes one, two or four bytes as its kind is 8, 16 or 32 bits wide.
pub proof fn law_indices_are_little_endian(b: Seq<u8>, at: int)
    requires
        0 <= at,
        at + 4 <= b.len(),
    ensures
        le_value(b, at, 1) == b[at],
        le_value(b, at, 2) % 256 == b[at],
        le_value(b, at, 2) / 256 == b[at + 1],
        le_value(b, at, 4) % 256 == b[at],
        (le_value(b, at, 4) / 256) % 256 == b[at + 1],
        (le_value(b, at, 4) / 65536) % 256 == b[at + 2],
        le_value(b, at, 4) / 16777216 == b[at + 3],
        0 <= le_value(b, at, 2) < 65536,
        0 <= le_value(b, at, 4) < 4294967296,
        component_width(IndexComponent::U8) == 1,
        component_width(IndexComponent::U16) == 2,
        component_width(IndexComponent::U32) == 4,
{
    let b0 = b[at] as int;
    let b1 = b[at + 1] as int;
    let b2 = b[at + 2] as int;
    let b3 = b[at + 3] as int;
    assert(0 <= b0 < 256 && 0 <= b1 < 256 && 0 <= b2 < 256 && 0 <= b3 < 256);
    assert((b0 + 256 * b1) % 256 == b0 && (b0 + 256 * b1) / 256 == b1) by (nonlinear_arith)
        requires
            0 <= b0 < 256,
            0 <= b1 < 256,
    ;
    let v = b0 + 256 * b1 + 65536 * b2 + 16777216 * b3;
    assert(v % 256 == b0 && (v / 256) % 256 == b1 && (v / 65536) % 256 == b2 && v / 16777216 == b3) by (
    nonlinear_arith)
        requires
            0 <= b0 < 256,
            0 <= b1 < 256,
            0 <= b2 < 256,
            0 <= b3 < 256,
            v == b0 + 256 * b1 + 65536 * b2 + 16777216 * b3,
    ;
}

} // verus!
