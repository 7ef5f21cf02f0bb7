//! Host-visible vertex and index buffers.
//!
//! Both buffers are sized once at creation and keep a persistent,
//! host-coherent mapping for their whole lifetime; `update_buffer`
//! copies new contents into the front of that mapping.  The mapping is
//! modeled as the byte vector the host would read back, so the upload
//! round trip is a proved fact rather than a convention.

use vstd::prelude::*;

use crate::RenderError;
use crate::allocator::Allocator;
use crate::bytes::{u32_le_bytes, zero_bytes};
use crate::vertex::{
    Vertex, VERTEX_SIZE, lemma_vertices_bytes_index, lemma_vertices_bytes_len,
    lemma_vertex_bytes_read_back, push_vertex_bytes, scalar_at, vertex_bytes, vertices_bytes,
};

verus! {

/// Size of one index in bytes (`uint32` index type).
pub const INDEX_SIZE: usize = 4;

/// The bytes of a whole index upload, little-endian, index after index.
pub open spec fn indices_bytes(s: Seq<u32>) -> Seq<u8>
    decreases s.len(),
{
    if s.len() == 0 {
        Seq::empty()
    } else {
        indices_bytes(s.drop_last()) + u32_le_bytes(s.last())
    }
}

/// An index upload takes 4 bytes per index.
pub proof fn lemma_indices_bytes_len(s: Seq<u32>)
    ensures
        indices_bytes(s).len() == INDEX_SIZE * s.len(),
    decreases s.len(),
{
    if s.len() > 0 {
        lemma_indices_bytes_len(s.drop_last());
    }
}

/// Index `i` of an upload sits at bytes `4 * i .. 4 * i + 4`.
pub proof fn lemma_indices_bytes_index(s: Seq<u32>, i: int)
    requires
        0 <= i < s.len(),
    ensures
        indices_bytes(s).subrange(INDEX_SIZE * i, INDEX_SIZE * i + INDEX_SIZE) == u32_le_bytes(
            s[i],
        ),
    decreases s.len(),
{
    lemma_indices_bytes_len(s);
    lemma_indices_bytes_len(s.drop_last());
    if i == s.len() - 1 {
        assert(indices_bytes(s).subrange(INDEX_SIZE * i, INDEX_SIZE * i + INDEX_SIZE)
            =~= u32_le_bytes(s.last()));
    } else {
        lemma_indices_bytes_index(s.drop_last(), i);
        assert(indices_bytes(s).subrange(INDEX_SIZE * i, INDEX_SIZE * i + INDEX_SIZE)
            =~= indices_bytes(s.drop_last()).subrange(
            INDEX_SIZE * i,
            INDEX_SIZE * i + INDEX_SIZE,
        ));
    }
}

/// Builds a zeroed byte vector of length `n`: a freshly allocated,
/// freshly mapped host-visible block.
fn zeroed_mapping(n: usize) -> (r: Vec<u8>)
    ensures
        r@ == zero_bytes(n as nat),
{
    let mut r: Vec<u8> = Vec::new();
    let mut i: usize = 0;
    while i < n
        invariant
            i <= n,
            r@ == zero_bytes(i as nat),
        decreases n - i,
    {
        r.push(0u8);
        proof {
            assert(r@ =~= zero_bytes((i + 1) as nat));
        }
        i = i + 1;
    }
    r
}

/// A host-visible buffer holding vertex data, mapped for its whole
/// lifetime.
pub struct VertexBuffer {
    /// The bytes the persistent mapping holds; its length is the
    /// capacity fixed at creation.
    pub mapping: Vec<u8>,
    /// How many vertices the last successful update wrote.
    pub vertex_count: usize,
}

impl VertexBuffer {
    /// The byte capacity a buffer for `vertex_count` vertices needs.
    pub fn get_vertex_buffer_size(vertex_count: usize) -> (r: usize)
        requires
            VERTEX_SIZE * vertex_count <= usize::MAX,
        ensures
            r == VERTEX_SIZE * vertex_count,
    {
        vertex_count * VERTEX_SIZE
    }

    /// Allocates a buffer of `size_bytes` bytes of host-visible,
    /// host-coherent memory and maps it.
    pub fn new(gpu_allocator: &mut Allocator, size_bytes: usize) -> (r: VertexBuffer)
        requires
            old(gpu_allocator).live() < usize::MAX,
        ensures
            final(gpu_allocator).live() == old(gpu_allocator).live() + 1,
            r.mapping@ == zero_bytes(size_bytes as nat),
            r.vertex_count == 0,
    {
        gpu_allocator.allocate();
        VertexBuffer { mapping: zeroed_mapping(size_bytes), vertex_count: 0 }
    }

    /// Copies `data` into the front of the mapping.
    ///
    /// Fails with `BufferOverflow` exactly when the encoded data does
    /// not fit the capacity; the buffer is unchanged in that case.  On
    /// success the mapping starts with the encoded vertices, the bytes
    /// past them keep their old values, and the element count is the
    /// number of vertices written.
    pub fn update_buffer(&mut self, data: &[Vertex]) -> (r: Result<(), RenderError>)
        ensures
            match r {
                Ok(()) => {
                    &&& VERTEX_SIZE * data@.len() <= old(self).mapping@.len()
                    &&& final(self).mapping@ == vertices_bytes(data@) + old(
                        self,
                    ).mapping@.skip(VERTEX_SIZE * data@.len() as int)
                    &&& final(self).mapping@.len() == old(self).mapping@.len()
                    &&& final(self).vertex_count == data@.len()
                },
                Err(e) => {
                    &&& e == RenderError::BufferOverflow
                    &&& VERTEX_SIZE * data@.len() > old(self).mapping@.len()
                    &&& *final(self) == *old(self)
                },
            },
    {
        let n = data.len();
        let cap = self.mapping.len();
        let needed = match n.checked_mul(VERTEX_SIZE) {
            Some(needed) => needed,
            None => {
                return Err(RenderError::BufferOverflow);
            },
        };
        if needed > cap {
            return Err(RenderError::BufferOverflow);
        }
        let mut m: Vec<u8> = Vec::new();
        let mut i: usize = 0;
        while i < n
            invariant
                i <= n,
                n == data@.len(),
                m@ == vertices_bytes(data@.take(i as int)),
            decreases n - i,
        {
            push_vertex_bytes(&mut m, &data[i]);
            proof {
                let t = data@.take(i + 1);
                assert(t.drop_last() =~= data@.take(i as int));
                assert(t.last() == data@[i as int]);
            }
            i = i + 1;
        }
        proof {
            assert(data@.take(n as int) =~= data@);
            lemma_vertices_bytes_len(data@);
        }
        let mut j: usize = needed;
        while j < self.mapping.len()
            invariant
                needed <= j <= self.mapping@.len(),
                needed == VERTEX_SIZE * data@.len(),
                m@ == vertices_bytes(data@) + self.mapping@.subrange(needed as int, j as int),
            decreases self.mapping@.len() - j,
        {
            let b = self.mapping[j];
            m.push(b);
            proof {
                assert(m@ =~= vertices_bytes(data@) + self.mapping@.subrange(
                    needed as int,
                    j + 1,
                ));
            }
            j = j + 1;
        }
        proof {
            assert(self.mapping@.subrange(needed as int, self.mapping@.len() as int)
                =~= self.mapping@.skip(needed as int));
        }
        self.mapping = m;
        self.vertex_count = n;
        Ok(())
    }

    /// How many vertices the buffer currently holds.
    pub fn get_vertex_count(&self) -> (r: usize)
        ensures
            r == self.vertex_count,
    {
        self.vertex_count
    }

    /// Unmaps the buffer and returns its memory to the allocator.
    pub fn destroy(self, gpu_allocator: &mut Allocator)
        requires
            old(gpu_allocator).live() >= 1,
        ensures
            final(gpu_allocator).live() == old(gpu_allocator).live() - 1,
    {
        gpu_allocator.free();
    }
}

/// A host-visible buffer holding `uint32` indices, mapped for its whole
/// lifetime.
pub struct IndexBuffer {
    /// The bytes the persistent mapping holds; its length is the
    /// capacity fixed at creation.
    pub mapping: Vec<u8>,
    /// How many indices the last successful update wrote.
    pub index_count: usize,
}

impl IndexBuffer {
    /// The byte capacity a buffer for `index_count` indices needs.
    pub fn get_index_buffer_size(index_count: usize) -> (r: usize)
        requires
            INDEX_SIZE * index_count <= usize::MAX,
        ensures
            r == INDEX_SIZE * index_count,
    {
        index_count * INDEX_SIZE
    }

    /// Allocates a buffer of `size_bytes` bytes of host-visible,
    /// host-coherent memory and maps it.
    pub fn new(gpu_allocator: &mut Allocator, size_bytes: usize) -> (r: IndexBuffer)
        requires
            old(gpu_allocator).live() < usize::MAX,
        ensures
            final(gpu_allocator).live() == old(gpu_allocator).live() + 1,
            r.mapping@ == zero_bytes(size_bytes as nat),
            r.index_count == 0,
    {
        gpu_allocator.allocate();
        IndexBuffer { mapping: zeroed_mapping(size_bytes), index_count: 0 }
    }

    /// Copies `data` into the front of the mapping.
    ///
    /// Fails with `BufferOverflow` exactly when the encoded data does
    /// not fit the capacity; the buffer is unchanged in that case.  On
    /// success the mapping starts with the encoded indices, the bytes
    /// past them keep their old values, and the element count is the
    /// number of indices written.
    pub fn update_buffer(&mut self, data: &[u32]) -> (r: Result<(), RenderError>)
        ensures
            match r {
                Ok(()) => {
                    &&& INDEX_SIZE * data@.len() <= old(self).mapping@.len()
                    &&& final(self).mapping@ == indices_bytes(data@) + old(
                        self,
                    ).mapping@.skip(INDEX_SIZE * data@.len() as int)
                    &&& final(self).mapping@.len() == old(self).mapping@.len()
                    &&& final(self).index_count == data@.len()
                },
                Err(e) => {
                    &&& e == RenderError::BufferOverflow
                    &&& INDEX_SIZE * data@.len() > old(self).mapping@.len()
                    &&& *final(self) == *old(self)
                },
            },
    {
        let n = data.len();
        let cap = self.mapping.len();
        let needed = match n.checked_mul(INDEX_SIZE) {
            Some(needed) => needed,
            None => {
                return Err(RenderError::BufferOverflow);
            },
        };
        if needed > cap {
            return Err(RenderError::BufferOverflow);
        }
        let mut m: Vec<u8> = Vec::new();
        let mut i: usize = 0;
        while i < n
            invariant
                i <= n,
                n == data@.len(),
                m@ == indices_bytes(data@.take(i as int)),
            decreases n - i,
        {
            crate::bytes::push_u32_le(&mut m, data[i]);
            proof {
                let t = data@.take(i + 1);
                assert(t.drop_last() =~= data@.take(i as int));
                assert(t.last() == data@[i as int]);
            }
            i = i + 1;
        }
        proof {
            assert(data@.take(n as int) =~= data@);
            lemma_indices_bytes_len(data@);
        }
        let mut j: usize = needed;
        while j < self.mapping.len()
            invariant
                needed <= j <= self.mapping@.len(),
                needed == INDEX_SIZE * data@.len(),
                m@ == indices_bytes(data@) + self.mapping@.subrange(needed as int, j as int),
            decreases self.mapping@.len() - j,
        {
            let b = self.mapping[j];
            m.push(b);
            proof {
                assert(m@ =~= indices_bytes(data@) + self.mapping@.subrange(
                    needed as int,
                    j + 1,
                ));
            }
            j = j + 1;
        }
        proof {
            assert(self.mapping@.subrange(needed as int, self.mapping@.len() as int)
                =~= self.mapping@.skip(needed as int));
        }
        self.mapping = m;
        self.index_count = n;
        Ok(())
    }

    /// How many indices the buffer currently holds.
    pub fn get_index_count(&self) -> (r: usize)
        ensures
            r == self.index_count,
    {
        self.index_count
    }

    /// Unmaps the buffer and returns its memory to the allocator.
    pub fn destroy(self, gpu_allocator: &mut Allocator)
        requires
            old(gpu_allocator).live() >= 1,
        ensures
            final(gpu_allocator).live() == old(gpu_allocator).live() - 1,
    {
        gpu_allocator.free();
    }
}

/// Upload round trip: after writing vertices `s` into a buffer, reading
/// the mapping back gives `s` byte-for-byte — the 32-bit slots of
/// record `i` are exactly the eight scalars of `s[i]`.
pub proof fn lemma_vertex_upload_round_trip(s: Seq<Vertex>, i: int)
    requires
        0 <= i < s.len(),
    ensures
        vertices_bytes(s).subrange(VERTEX_SIZE * i, VERTEX_SIZE * i + VERTEX_SIZE) == vertex_bytes(
            s[i],
        ),
        scalar_at(vertices_bytes(s).subrange(VERTEX_SIZE * i, VERTEX_SIZE * i + VERTEX_SIZE), 0)
            == s[i].pos[0],
        scalar_at(vertices_bytes(s).subrange(VERTEX_SIZE * i, VERTEX_SIZE * i + VERTEX_SIZE), 1)
            == s[i].pos[1],
        scalar_at(vertices_bytes(s).subrange(VERTEX_SIZE * i, VERTEX_SIZE * i + VERTEX_SIZE), 2)
            == s[i].pos[2],
        scalar_at(vertices_bytes(s).subrange(VERTEX_SIZE * i, VERTEX_SIZE * i + VERTEX_SIZE), 3)
            == s[i].pos[3],
        scalar_at(vertices_bytes(s).subrange(VERTEX_SIZE * i, VERTEX_SIZE * i + VERTEX_SIZE), 4)
            == s[i].color[0],
        scalar_at(vertices_bytes(s).subrange(VERTEX_SIZE * i, VERTEX_SIZE * i + VERTEX_SIZE), 5)
            == s[i].color[1],
        scalar_at(vertices_bytes(s).subrange(VERTEX_SIZE * i, VERTEX_SIZE * i + VERTEX_SIZE), 6)
            == s[i].color[2],
        scalar_at(vertices_bytes(s).subrange(VERTEX_SIZE * i, VERTEX_SIZE * i + VERTEX_SIZE), 7)
            == s[i].color[3],
{
    lemma_vertices_bytes_index(s, i);
    lemma_vertex_bytes_read_back(s[i]);
}

/// Upload round trip for indices: after writing indices `s`, the 4-byte
/// slot of index `i` decodes back to `s[i]`.
pub proof fn lemma_index_upload_round_trip(s: Seq<u32>, i: int)
    requires
        0 <= i < s.len(),
    ensures
        crate::bytes::u32_of_le(
            indices_bytes(s).subrange(INDEX_SIZE * i, INDEX_SIZE * i + INDEX_SIZE),
        ) == s[i],
{
    lemma_indices_bytes_index(s, i);
    crate::bytes::lemma_u32_le_round_trip(s[i]);
}

} // verus!
