//! Per-draw push-constant data and its bit-exact layout.
//!
//! The shaders read a 48-byte block: a column-major 2x2 float matrix at
//! offset 0, a float 2-vector at offset 16, 8 bytes of padding, a float
//! 3-vector at offset 32, and 4 final bytes of padding.  The host stores
//! each scalar as its raw 32-bit pattern and serializes the block
//! little-endian; the layout is fixed by `push_constant_bytes` and proved
//! in `lemma_push_constant_layout`.

use vstd::prelude::*;

use crate::bytes::{push_u32_le, u32_le_bytes, zero_bytes};

verus! {

/// Total size of the push-constant block in bytes.
pub const PUSH_CONSTANT_SIZE: usize = 48;

/// Byte offset of the 2x2 transform matrix.
pub const PUSH_TRANSFORM_OFFSET: usize = 0;

/// Byte offset of the translation 2-vector.
pub const PUSH_OFFSET_OFFSET: usize = 16;

/// Byte offset of the RGB color 3-vector.
pub const PUSH_COLOR_OFFSET: usize = 32;

/// The per-draw data pushed into the command buffer.
///
/// Every scalar is the raw bit pattern of the 32-bit float the shader
/// reads; the model never does float arithmetic on them.
#[derive(Clone, Copy, Debug)]
pub struct PushConstantData {
    /// Column-major 2x2 transform matrix: `[m00, m10, m01, m11]`.
    pub transform: [u32; 4],
    /// Translation added after the transform.
    pub offset: [u32; 2],
    /// RGB color, 16-byte aligned in the block.
    pub color: [u32; 3],
}

/// The little-endian bytes of the transform matrix.
pub open spec fn transform_bytes(p: PushConstantData) -> Seq<u8> {
    u32_le_bytes(p.transform[0]) + u32_le_bytes(p.transform[1]) + u32_le_bytes(p.transform[2])
        + u32_le_bytes(p.transform[3])
}

/// The little-endian bytes of the translation vector.
pub open spec fn offset_bytes(p: PushConstantData) -> Seq<u8> {
    u32_le_bytes(p.offset[0]) + u32_le_bytes(p.offset[1])
}

/// The little-endian bytes of the color vector.
pub open spec fn color_bytes(p: PushConstantData) -> Seq<u8> {
    u32_le_bytes(p.color[0]) + u32_le_bytes(p.color[1]) + u32_le_bytes(p.color[2])
}

/// The full 48-byte block: transform, offset, 8 bytes of padding,
/// color, 4 bytes of padding.
pub open spec fn push_constant_bytes(p: PushConstantData) -> Seq<u8> {
    transform_bytes(p) + offset_bytes(p) + zero_bytes(8) + color_bytes(p) + zero_bytes(4)
}

impl PushConstantData {
    /// Serializes the block exactly as the pipeline's push-constant
    /// range expects it.
    pub fn as_bytes(&self) -> (r: Vec<u8>)
        ensures
            r@ == push_constant_bytes(*self),
            r@.len() == PUSH_CONSTANT_SIZE,
    {
        let mut r: Vec<u8> = Vec::new();
        push_u32_le(&mut r, self.transform[0]);
        push_u32_le(&mut r, self.transform[1]);
        push_u32_le(&mut r, self.transform[2]);
        push_u32_le(&mut r, self.transform[3]);
        push_u32_le(&mut r, self.offset[0]);
        push_u32_le(&mut r, self.offset[1]);
        let mut i: usize = 0;
        while i < 8
            invariant
                r@ == transform_bytes(*self) + offset_bytes(*self) + zero_bytes(i as nat),
                i <= 8,
            decreases 8 - i,
        {
            r.push(0u8);
            proof {
                assert(zero_bytes(i as nat).push(0u8) =~= zero_bytes((i + 1) as nat));
                assert(r@ =~= transform_bytes(*self) + offset_bytes(*self) + zero_bytes(
                    (i + 1) as nat,
                ));
            }
            i = i + 1;
        }
        push_u32_le(&mut r, self.color[0]);
        push_u32_le(&mut r, self.color[1]);
        push_u32_le(&mut r, self.color[2]);
        let mut j: usize = 0;
        while j < 4
            invariant
                r@ == transform_bytes(*self) + offset_bytes(*self) + zero_bytes(8) + color_bytes(
                    *self,
                ) + zero_bytes(j as nat),
                j <= 4,
            decreases 4 - j,
        {
            r.push(0u8);
            proof {
                assert(zero_bytes(j as nat).push(0u8) =~= zero_bytes((j + 1) as nat));
                assert(r@ =~= transform_bytes(*self) + offset_bytes(*self) + zero_bytes(8)
                    + color_bytes(*self) + zero_bytes((j + 1) as nat));
            }
            j = j + 1;
        }
        proof {
            assert(r@ =~= push_constant_bytes(*self));
        }
        r
    }
}

/// The block is 48 bytes, and every field sits at its documented offset:
/// the transform at 0, the translation at 16, zero padding at 24, the
/// color at 32, and zero padding at 44.
pub proof fn lemma_push_constant_layout(p: PushConstantData)
    ensures
        push_constant_bytes(p).len() == PUSH_CONSTANT_SIZE,
        push_constant_bytes(p).subrange(
            PUSH_TRANSFORM_OFFSET as int,
            PUSH_TRANSFORM_OFFSET + 16,
        ) == transform_bytes(p),
        push_constant_bytes(p).subrange(PUSH_OFFSET_OFFSET as int, PUSH_OFFSET_OFFSET + 8)
            == offset_bytes(p),
        push_constant_bytes(p).subrange(24, 32) == zero_bytes(8),
        push_constant_bytes(p).subrange(PUSH_COLOR_OFFSET as int, PUSH_COLOR_OFFSET + 12)
            == color_bytes(p),
        push_constant_bytes(p).subrange(44, 48) == zero_bytes(4),
{
    let b = push_constant_bytes(p);
    assert(b.subrange(0, 16) =~= transform_bytes(p));
    assert(b.subrange(16, 24) =~= offset_bytes(p));
    assert(b.subrange(24, 32) =~= zero_bytes(8));
    assert(b.subrange(32, 44) =~= color_bytes(p));
    assert(b.subrange(44, 48) =~= zero_bytes(4));
}

} // verus!
