//! Compiled shader code: SPIR-V words read from the bytes of a shader file.
use crate::mesh_data::{IndexComponent, decode_indices, le_value};
use vstd::prelude::*;

verus! {

/// The 32-bit words of a SPIR-V module stored little-endian in `bytes`, or
/// nothing when the byte count is not a multiple of four.
pub fn words_from_bytes(bytes: &[u8]) -> (r: Option<Vec<u32>>)
    ensures
        r is Some <==> bytes@.len() % 4 == 0,
        r matches Some(w) ==> {
            &&& 4 * w@.len() == bytes@.len()
            &&& forall|i: int| 0 <= i < w@.len() ==> w@[i] == le_value(bytes@, 4 * i, 4)
        },
{
    let len = bytes.len();
    if len % 4 != 0 {
        return None;
    }
    decode_indices(bytes, 0, len / 4, IndexComponent::U32)
}

} // verus!
