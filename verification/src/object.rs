//! A drawable object: one vertex buffer and an optional index buffer.

use vstd::prelude::*;

use crate::allocator::Allocator;
use crate::buffer::{IndexBuffer, VertexBuffer, INDEX_SIZE, indices_bytes};
use crate::bytes::zero_bytes;
use crate::vertex::{Vertex, VERTEX_SIZE, vertices_bytes};

verus! {

/// A drawable object.
///
/// Holds exactly one vertex buffer (kept in a list so draws can iterate
/// it) and, when the object is indexed, one index buffer.
pub struct Object {
    /// The object's vertex buffers; always exactly one.
    pub vertex_buffers: Vec<VertexBuffer>,
    /// The index buffer, present only for indexed objects.
    pub index_buffer: Option<IndexBuffer>,
}

impl Object {
    /// A well-formed object holds exactly one vertex buffer.
    pub open spec fn wf(self) -> bool {
        self.vertex_buffers@.len() == 1
    }

    /// How many allocator blocks the object's buffers hold.
    pub open spec fn blocks(self) -> nat {
        self.vertex_buffers@.len() + if self.index_buffer is Some {
            1nat
        } else {
            0nat
        }
    }

    /// Builds the vertex buffer sized for `vertex_count` vertices and,
    /// when `index_count > 0`, an index buffer sized for `index_count`
    /// indices.
    pub fn new(gpu_allocator: &mut Allocator, vertex_count: usize, index_count: usize) -> (r:
        Object)
        requires
            VERTEX_SIZE * vertex_count <= usize::MAX,
            INDEX_SIZE * index_count <= usize::MAX,
            old(gpu_allocator).live() + 2 <= usize::MAX,
        ensures
            r.wf(),
            r.vertex_buffers@[0].mapping@ == zero_bytes((VERTEX_SIZE * vertex_count) as nat),
            r.vertex_buffers@[0].vertex_count == 0,
            r.index_buffer is Some <==> index_count > 0,
            index_count > 0 ==> r.index_buffer->Some_0.mapping@ == zero_bytes(
                (INDEX_SIZE * index_count) as nat,
            ) && r.index_buffer->Some_0.index_count == 0,
            final(gpu_allocator).live() == old(gpu_allocator).live() + r.blocks(),
    {
        let mut vertex_buffers: Vec<VertexBuffer> = Vec::new();
        let vertex_buffer = VertexBuffer::new(
            gpu_allocator,
            VertexBuffer::get_vertex_buffer_size(vertex_count),
        );
        vertex_buffers.push(vertex_buffer);
        if index_count > 0 {
            let index_buffer = IndexBuffer::new(
                gpu_allocator,
                IndexBuffer::get_index_buffer_size(index_count),
            );
            Object { vertex_buffers, index_buffer: Some(index_buffer) }
        } else {
            Object { vertex_buffers, index_buffer: None }
        }
    }

    /// Copies `data` into the vertex buffer's mapping.
    ///
    /// This is the unchecked update: the caller guarantees the data
    /// fits the capacity chosen at creation.
    pub fn update_vertices_buffer(&mut self, data: &[Vertex])
        requires
            old(self).wf(),
            VERTEX_SIZE * data@.len() <= old(self).vertex_buffers@[0].mapping@.len(),
        ensures
            final(self).wf(),
            final(self).index_buffer == old(self).index_buffer,
            final(self).vertex_buffers@[0].mapping@ == vertices_bytes(data@) + old(
                self,
            ).vertex_buffers@[0].mapping@.skip(VERTEX_SIZE * data@.len() as int),
            final(self).vertex_buffers@[0].mapping@.len() == old(
                self,
            ).vertex_buffers@[0].mapping@.len(),
            final(self).vertex_buffers@[0].vertex_count == data@.len(),
    {
        let mut vertex_buffer = self.vertex_buffers.pop().unwrap();
        let res = vertex_buffer.update_buffer(data);
        assert(res is Ok);
        self.vertex_buffers.push(vertex_buffer);
        assert(final(self).vertex_buffers@ =~= seq![vertex_buffer]);
    }

    /// Copies `data` into the index buffer's mapping.
    ///
    /// The caller guarantees the data fits.  On an object created
    /// without an index buffer this is a diagnosed no-op that still
    /// counts as success.
    pub fn update_indices_buffer(&mut self, data: &[u32])
        requires
            old(self).index_buffer matches Some(b) ==> INDEX_SIZE * data@.len()
                <= b.mapping@.len(),
        ensures
            final(self).vertex_buffers == old(self).vertex_buffers,
            old(self).index_buffer is None ==> *final(self) == *old(self),
            old(self).index_buffer matches Some(b) ==> {
                &&& final(self).index_buffer matches Some(nb)
                &&& nb.mapping@ == indices_bytes(data@) + b.mapping@.skip(
                    INDEX_SIZE * data@.len() as int,
                )
                &&& nb.mapping@.len() == b.mapping@.len()
                &&& nb.index_count == data@.len()
            },
    {
        match &mut self.index_buffer {
            Some(index_buffer) => {
                let res = index_buffer.update_buffer(data);
                assert(res is Ok);
            },
            None => {},
        }
    }

    /// Releases the object's buffers back to the allocator.
    pub fn destroy(self, gpu_allocator: &mut Allocator)
        requires
            old(gpu_allocator).live() >= self.blocks(),
        ensures
            final(gpu_allocator).live() == old(gpu_allocator).live() - self.blocks(),
    {
        let Object { vertex_buffers, index_buffer } = self;
        let mut remaining = vertex_buffers;
        while remaining.len() > 0
            invariant
                remaining@.len() <= self.vertex_buffers@.len(),
                gpu_allocator.live() == old(gpu_allocator).live() - (self.vertex_buffers@.len()
                    - remaining@.len()),
                gpu_allocator.live() >= remaining@.len() + if self.index_buffer is Some {
                    1nat
                } else {
                    0nat
                },
            decreases remaining@.len(),
        {
            let vertex_buffer = remaining.pop().unwrap();
            vertex_buffer.destroy(gpu_allocator);
        }
        match index_buffer {
            Some(ib) => ib.destroy(gpu_allocator),
            None => {},
        }
    }

    /// The object's vertex buffers, in draw order.
    pub fn get_vertex_buffers(&self) -> (r: Vec<&VertexBuffer>)
        ensures
            r@.len() == self.vertex_buffers@.len(),
            forall|i: int| 0 <= i < r@.len() ==> *r@[i] == self.vertex_buffers@[i],
    {
        let mut r: Vec<&VertexBuffer> = Vec::new();
        let mut i: usize = 0;
        while i < self.vertex_buffers.len()
            invariant
                i <= self.vertex_buffers@.len(),
                r@.len() == i,
                forall|k: int| 0 <= k < i ==> *r@[k] == self.vertex_buffers@[k],
            decreases self.vertex_buffers@.len() - i,
        {
            r.push(&self.vertex_buffers[i]);
            i = i + 1;
        }
        r
    }

    /// The object's index buffers: one when the object is indexed,
    /// none otherwise.
    pub fn get_index_buffers(&self) -> (r: Vec<&IndexBuffer>)
        ensures
            r@.len() == if self.index_buffer is Some {
                1int
            } else {
                0int
            },
            self.index_buffer matches Some(b) ==> *r@[0] == b,
    {
        let mut r: Vec<&IndexBuffer> = Vec::new();
        match &self.index_buffer {
            Some(index_buffer) => {
                r.push(index_buffer);
            },
            None => {},
        }
        r
    }
}

} // verus!
