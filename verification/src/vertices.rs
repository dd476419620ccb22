//! Vertex and index buffer sizes.

use vstd::prelude::*;

verus! {

/// Marks a type as vertex data: a layout of vertex elements that the device is told of.
pub trait AnyVertexData {}

/// The size of one index, with the variants of `fna3d::IndexElementSize`.
#[derive(Clone, Copy, Debug, PartialEq, Eq, Structural)]
pub enum IndexElementSize {
    Bits16,
    Bits32,
}

/// Bytes in one index: 2 or 4.
pub fn index_stride(elem_size: IndexElementSize) -> (n: u32)
    ensures
        n == (match elem_size {
            IndexElementSize::Bits16 => 2u32,
            IndexElementSize::Bits32 => 4u32,
        }),
{
    match elem_size {
        IndexElementSize::Bits16 => 2,
        IndexElementSize::Bits32 => 4,
    }
}

/// Bytes of an index buffer of `n_indices` indices, or `None` where that does not fit in
/// a `u32`.
pub fn index_buffer_size(elem_size: IndexElementSize, n_indices: u32) -> (r: Option<u32>)
    ensures
        n_indices * index_stride_spec(elem_size) <= u32::MAX <==> r is Some,
        r matches Some(n) ==> n == n_indices * index_stride_spec(elem_size),
{
    let stride = index_stride(elem_size);
    n_indices.checked_mul(stride)
}

/// Bytes in one index: 2 or 4.
pub open spec fn index_stride_spec(elem_size: IndexElementSize) -> int {
    match elem_size {
        IndexElementSize::Bits16 => 2,
        IndexElementSize::Bits32 => 4,
    }
}

/// The largest vertex buffer, in bytes, is one byte less than this.
pub const VERTEX_BUFFER_LIMIT: u32 = 2_147_483_648;

/// Bytes of a vertex buffer of `n_vertices` vertices of `vertex_stride` bytes, or `None`
/// where that reaches 2^31 bytes.
pub fn vertex_buffer_size(n_vertices: u32, vertex_stride: u32) -> (r: Option<u32>)
    ensures
        n_vertices * vertex_stride < VERTEX_BUFFER_LIMIT <==> r is Some,
        r matches Some(n) ==> n == n_vertices * vertex_stride,
{
    match n_vertices.checked_mul(vertex_stride) {
        Some(size) => {
            if size < VERTEX_BUFFER_LIMIT {
                Some(size)
            } else {
                None
            }
        },
        None => None,
    }
}

} // verus!
