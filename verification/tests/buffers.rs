use reverie::allocator::Allocator;
use reverie::buffer::{IndexBuffer, VertexBuffer};
use reverie::object::Object;
use reverie::push_constants::PushConstantData;
use reverie::vertex::Vertex;
use reverie::RenderError;

fn le(x: u32) -> [u8; 4] {
    x.to_le_bytes()
}

fn vertex(pos: [f32; 4], color: [f32; 4]) -> Vertex {
    Vertex {
        pos: [
            pos[0].to_bits(),
            pos[1].to_bits(),
            pos[2].to_bits(),
            pos[3].to_bits(),
        ],
        color: [
            color[0].to_bits(),
            color[1].to_bits(),
            color[2].to_bits(),
            color[3].to_bits(),
        ],
    }
}

#[test]
fn push_constants_are_48_bytes_with_documented_offsets() {
    let p = PushConstantData {
        transform: [
            1.0f32.to_bits(),
            0.0f32.to_bits(),
            0.0f32.to_bits(),
            1.0f32.to_bits(),
        ],
        offset: [0.25f32.to_bits(), (-0.5f32).to_bits()],
        color: [1.0f32.to_bits(), 0.5f32.to_bits(), 0.0f32.to_bits()],
    };
    let b = p.as_bytes();
    assert_eq!(b.len(), 48);
    // transform at offset 0, column-major, little-endian
    assert_eq!(&b[0..4], &le(1.0f32.to_bits()));
    assert_eq!(&b[4..8], &le(0.0f32.to_bits()));
    assert_eq!(&b[8..12], &le(0.0f32.to_bits()));
    assert_eq!(&b[12..16], &le(1.0f32.to_bits()));
    // offset vec2 at byte 16
    assert_eq!(&b[16..20], &le(0.25f32.to_bits()));
    assert_eq!(&b[20..24], &le((-0.5f32).to_bits()));
    // padding
    assert_eq!(&b[24..32], &[0u8; 8]);
    // color vec3 at byte 32
    assert_eq!(&b[32..36], &le(1.0f32.to_bits()));
    assert_eq!(&b[36..40], &le(0.5f32.to_bits()));
    assert_eq!(&b[40..44], &le(0.0f32.to_bits()));
    // trailing padding
    assert_eq!(&b[44..48], &[0u8; 4]);
}

#[test]
fn vertex_buffer_upload_round_trip() {
    let mut alloc = Allocator::new();
    let mut vb = VertexBuffer::new(&mut alloc, VertexBuffer::get_vertex_buffer_size(2));
    assert_eq!(vb.mapping.len(), 64);
    assert!(vb.mapping.iter().all(|&b| b == 0));

    let v0 = vertex([-0.5, -0.5, 0.0, 1.0], [1.0, 0.0, 0.0, 1.0]);
    let v1 = vertex([0.5, -0.5, 0.0, 1.0], [0.0, 1.0, 0.0, 1.0]);
    let r = vb.update_buffer(&[v0, v1]);
    assert!(r.is_ok());
    assert_eq!(vb.get_vertex_count(), 2);

    let mut expected: Vec<u8> = Vec::new();
    for v in [v0, v1] {
        for s in v.pos.iter().chain(v.color.iter()) {
            expected.extend_from_slice(&le(*s));
        }
    }
    assert_eq!(vb.mapping, expected);
}

#[test]
fn vertex_buffer_second_upload_wins() {
    let mut alloc = Allocator::new();
    let mut vb = VertexBuffer::new(&mut alloc, VertexBuffer::get_vertex_buffer_size(1));
    let a = vertex([0.0, 0.0, 0.0, 1.0], [1.0, 1.0, 1.0, 1.0]);
    let b = vertex([0.25, 0.75, 0.0, 1.0], [0.0, 0.0, 1.0, 1.0]);
    vb.update_buffer(&[a]).unwrap();
    let first = vb.mapping.clone();
    vb.update_buffer(&[b]).unwrap();
    assert_ne!(vb.mapping, first);
    let mut expected: Vec<u8> = Vec::new();
    for s in b.pos.iter().chain(b.color.iter()) {
        expected.extend_from_slice(&le(*s));
    }
    assert_eq!(vb.mapping, expected);
}

#[test]
fn vertex_buffer_overflow_is_reported_and_harmless() {
    let mut alloc = Allocator::new();
    let mut vb = VertexBuffer::new(&mut alloc, VertexBuffer::get_vertex_buffer_size(1));
    let v = vertex([0.0, 0.0, 0.0, 1.0], [1.0, 0.0, 0.0, 1.0]);
    let before = vb.mapping.clone();
    let r = vb.update_buffer(&[v, v]);
    assert_eq!(r, Err(RenderError::BufferOverflow));
    assert_eq!(vb.mapping, before);
    assert_eq!(vb.get_vertex_count(), 0);
}

#[test]
fn index_buffer_upload_round_trip_and_overflow() {
    let mut alloc = Allocator::new();
    let mut ib = IndexBuffer::new(&mut alloc, IndexBuffer::get_index_buffer_size(6));
    assert_eq!(ib.mapping.len(), 24);
    let indices: [u32; 6] = [0, 1, 2, 2, 3, 0];
    ib.update_buffer(&indices).unwrap();
    assert_eq!(ib.get_index_count(), 6);
    let mut expected: Vec<u8> = Vec::new();
    for i in indices.iter() {
        expected.extend_from_slice(&le(*i));
    }
    assert_eq!(ib.mapping, expected);

    let too_many: [u32; 7] = [0, 1, 2, 2, 3, 0, 1];
    assert_eq!(ib.update_buffer(&too_many), Err(RenderError::BufferOverflow));
    assert_eq!(ib.get_index_count(), 6);
}

#[test]
fn object_with_indices_owns_two_blocks() {
    let mut alloc = Allocator::new();
    let o = Object::new(&mut alloc, 4, 6);
    assert_eq!(alloc.leak_count(), 2);
    assert_eq!(o.vertex_buffers.len(), 1);
    assert!(o.index_buffer.is_some());
    assert_eq!(o.get_vertex_buffers().len(), 1);
    assert_eq!(o.get_index_buffers().len(), 1);
    o.destroy(&mut alloc);
    assert_eq!(alloc.leak_count(), 0);
}

#[test]
fn object_without_indices_ignores_index_updates() {
    let mut alloc = Allocator::new();
    let mut o = Object::new(&mut alloc, 3, 0);
    assert_eq!(alloc.leak_count(), 1);
    assert!(o.index_buffer.is_none());
    assert_eq!(o.get_index_buffers().len(), 0);
    // updating indices on an indexless object is a no-op that succeeds
    o.update_indices_buffer(&[0, 1, 2]);
    assert!(o.index_buffer.is_none());
    o.destroy(&mut alloc);
    assert_eq!(alloc.leak_count(), 0);
}

#[test]
fn object_updates_forward_to_buffers() {
    let mut alloc = Allocator::new();
    let mut o = Object::new(&mut alloc, 4, 6);
    let quad = [
        vertex([-0.5, -0.5, 0.0, 1.0], [1.0, 0.0, 0.0, 1.0]),
        vertex([0.5, -0.5, 0.0, 1.0], [0.0, 1.0, 0.0, 1.0]),
        vertex([0.5, 0.5, 0.0, 1.0], [0.0, 0.0, 1.0, 1.0]),
        vertex([-0.5, 0.5, 0.0, 1.0], [1.0, 1.0, 1.0, 1.0]),
    ];
    o.update_vertices_buffer(&quad);
    o.update_indices_buffer(&[0, 1, 2, 2, 3, 0]);
    assert_eq!(o.vertex_buffers[0].get_vertex_count(), 4);
    assert_eq!(o.index_buffer.as_ref().unwrap().get_index_count(), 6);
    // first vertex starts the mapping
    assert_eq!(&o.vertex_buffers[0].mapping[0..4], &le((-0.5f32).to_bits()));
    o.destroy(&mut alloc);
    assert_eq!(alloc.leak_count(), 0);
}
