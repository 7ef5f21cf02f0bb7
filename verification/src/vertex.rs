//! The vertex record and its byte layout.
//!
//! A vertex is 32 bytes: a position 4-vector then a color 4-vector,
//! tightly packed, each scalar a 32-bit float stored here as its raw
//! bit pattern.  `vertices_bytes` fixes the layout of a whole upload;
//! the lemmas at the end prove the encoding is read back byte-for-byte.

use vstd::prelude::*;

use crate::bytes::{lemma_u32_le_round_trip, u32_le_bytes, u32_of_le};

verus! {

/// Size of one vertex in bytes.
pub const VERTEX_SIZE: usize = 32;

/// One vertex: position and color, each a float 4-vector kept as raw
/// 32-bit patterns.
#[derive(Clone, Copy, Debug)]
pub struct Vertex {
    /// Clip-space position `(x, y, z, w)`.
    pub pos: [u32; 4],
    /// Color `(r, g, b, a)`.
    pub color: [u32; 4],
}

/// The 32 little-endian bytes of one vertex.
pub open spec fn vertex_bytes(v: Vertex) -> Seq<u8> {
    u32_le_bytes(v.pos[0]) + u32_le_bytes(v.pos[1]) + u32_le_bytes(v.pos[2]) + u32_le_bytes(
        v.pos[3],
    ) + u32_le_bytes(v.color[0]) + u32_le_bytes(v.color[1]) + u32_le_bytes(v.color[2])
        + u32_le_bytes(v.color[3])
}

/// The bytes of a whole vertex upload, record after record.
pub open spec fn vertices_bytes(s: Seq<Vertex>) -> Seq<u8>
    decreases s.len(),
{
    if s.len() == 0 {
        Seq::empty()
    } else {
        vertices_bytes(s.drop_last()) + vertex_bytes(s.last())
    }
}

/// A vertex upload takes 32 bytes per record.
pub proof fn lemma_vertices_bytes_len(s: Seq<Vertex>)
    ensures
        vertices_bytes(s).len() == VERTEX_SIZE * s.len(),
    decreases s.len(),
{
    if s.len() > 0 {
        lemma_vertices_bytes_len(s.drop_last());
    }
}

/// Record `i` of an upload sits at bytes `32 * i .. 32 * i + 32`.
pub proof fn lemma_vertices_bytes_index(s: Seq<Vertex>, i: int)
    requires
        0 <= i < s.len(),
    ensures
        vertices_bytes(s).subrange(VERTEX_SIZE * i, VERTEX_SIZE * i + VERTEX_SIZE) == vertex_bytes(
            s[i],
        ),
    decreases s.len(),
{
    lemma_vertices_bytes_len(s);
    lemma_vertices_bytes_len(s.drop_last());
    if i == s.len() - 1 {
        assert(vertices_bytes(s).subrange(VERTEX_SIZE * i, VERTEX_SIZE * i + VERTEX_SIZE)
            =~= vertex_bytes(s.last()));
    } else {
        lemma_vertices_bytes_index(s.drop_last(), i);
        assert(vertices_bytes(s).subrange(VERTEX_SIZE * i, VERTEX_SIZE * i + VERTEX_SIZE)
            =~= vertices_bytes(s.drop_last()).subrange(
            VERTEX_SIZE * i,
            VERTEX_SIZE * i + VERTEX_SIZE,
        ));
    }
}

/// The scalar stored at 32-bit slot `k` of a byte sequence.
pub open spec fn scalar_at(b: Seq<u8>, k: int) -> u32 {
    u32_of_le(b.subrange(4 * k, 4 * k + 4))
}

/// Reading the eight 32-bit slots of an encoded vertex gives back its
/// eight scalars.
pub proof fn lemma_vertex_bytes_read_back(v: Vertex)
    ensures
        scalar_at(vertex_bytes(v), 0) == v.pos[0],
        scalar_at(vertex_bytes(v), 1) == v.pos[1],
        scalar_at(vertex_bytes(v), 2) == v.pos[2],
        scalar_at(vertex_bytes(v), 3) == v.pos[3],
        scalar_at(vertex_bytes(v), 4) == v.color[0],
        scalar_at(vertex_bytes(v), 5) == v.color[1],
        scalar_at(vertex_bytes(v), 6) == v.color[2],
        scalar_at(vertex_bytes(v), 7) == v.color[3],
{
    let b = vertex_bytes(v);
    assert(b.subrange(0, 4) =~= u32_le_bytes(v.pos[0]));
    assert(b.subrange(4, 8) =~= u32_le_bytes(v.pos[1]));
    assert(b.subrange(8, 12) =~= u32_le_bytes(v.pos[2]));
    assert(b.subrange(12, 16) =~= u32_le_bytes(v.pos[3]));
    assert(b.subrange(16, 20) =~= u32_le_bytes(v.color[0]));
    assert(b.subrange(20, 24) =~= u32_le_bytes(v.color[1]));
    assert(b.subrange(24, 28) =~= u32_le_bytes(v.color[2]));
    assert(b.subrange(28, 32) =~= u32_le_bytes(v.color[3]));
    lemma_u32_le_round_trip(v.pos[0]);
    lemma_u32_le_round_trip(v.pos[1]);
    lemma_u32_le_round_trip(v.pos[2]);
    lemma_u32_le_round_trip(v.pos[3]);
    lemma_u32_le_round_trip(v.color[0]);
    lemma_u32_le_round_trip(v.color[1]);
    lemma_u32_le_round_trip(v.color[2]);
    lemma_u32_le_round_trip(v.color[3]);
}

/// Appends the 32 bytes of one vertex to `out`.
pub fn push_vertex_bytes(out: &mut Vec<u8>, v: &Vertex)
    ensures
        final(out)@ == old(out)@ + vertex_bytes(*v),
{
    crate::bytes::push_u32_le(out, v.pos[0]);
    crate::bytes::push_u32_le(out, v.pos[1]);
    crate::bytes::push_u32_le(out, v.pos[2]);
    crate::bytes::push_u32_le(out, v.pos[3]);
    crate::bytes::push_u32_le(out, v.color[0]);
    crate::bytes::push_u32_le(out, v.color[1]);
    crate::bytes::push_u32_le(out, v.color[2]);
    crate::bytes::push_u32_le(out, v.color[3]);
    assert(out@ =~= old(out)@ + vertex_bytes(*v));
}

} // verus!
