//! The static geometry: one triangle of three vertices, and the exact byte
//! layout in which it is uploaded into the GPU-resident vertex buffer.
//!
//! Each vertex holds three position components and three colour components.
//! A component is kept as the IEEE 754 bit pattern of a 32-bit float, as an
//! unsigned integer, so that the packed byte layout can be stated exactly:
//! the buffer holds the components of each vertex in order, each component as
//! four little-endian bytes, 24 bytes per vertex with no padding.

use vstd::prelude::*;

verus! {

/// Bit pattern of the 32-bit float 1.0.
pub const F32_ONE_BITS: u32 = 0x3F80_0000;
/// Bit pattern of the 32-bit float 0.5.
pub const F32_HALF_BITS: u32 = 0x3F00_0000;
/// Bit pattern of the 32-bit float -0.5.
pub const F32_NEG_HALF_BITS: u32 = 0xBF00_0000;
/// Bit pattern of the 32-bit float 0.0.
pub const F32_ZERO_BITS: u32 = 0x0000_0000;

/// Number of bytes one packed vertex occupies: six components of four bytes.
pub const VERTEX_STRIDE: u32 = 24;

/// One vertex as uploaded to the GPU: position, then colour, each with three
/// components kept as 32-bit float bit patterns.
#[derive(Clone, Copy, Debug, PartialEq, Eq, Structural)]
pub struct Vertex {
    pub pos_x: u32,
    pub pos_y: u32,
    pub pos_z: u32,
    pub col_r: u32,
    pub col_g: u32,
    pub col_b: u32,
}

/// The four little-endian bytes of a 32-bit value, least significant first.
pub open spec fn le_bytes_32(x: u32) -> Seq<u8> {
    seq![
        (x & 0xff) as u8,
        ((x >> 8) & 0xff) as u8,
        ((x >> 16) & 0xff) as u8,
        ((x >> 24) & 0xff) as u8,
    ]
}

/// The 24 bytes of one packed vertex: the six components in declaration
/// order, each as four little-endian bytes.
pub open spec fn vertex_bytes(v: Vertex) -> Seq<u8> {
    le_bytes_32(v.pos_x) + le_bytes_32(v.pos_y) + le_bytes_32(v.pos_z)
        + le_bytes_32(v.col_r) + le_bytes_32(v.col_g) + le_bytes_32(v.col_b)
}

/// The tightly packed byte image of a vertex sequence: the bytes of each
/// vertex in order, with no padding between vertices.
pub open spec fn packed_bytes(vs: Seq<Vertex>) -> Seq<u8>
    decreases vs.len(),
{
    if vs.len() == 0 {
        Seq::empty()
    } else {
        packed_bytes(vs.drop_last()) + vertex_bytes(vs.last())
    }
}

/// The three vertices of the triangle: positions (1.0, 0.0, 0.0),
/// (0.5, 0.5, 0.0) and (-0.5, 0.5, 0.0), every colour (1.0, 1.0, 1.0).
pub open spec fn triangle() -> Seq<Vertex> {
    seq![
        Vertex {
            pos_x: F32_ONE_BITS,
            pos_y: F32_ZERO_BITS,
            pos_z: F32_ZERO_BITS,
            col_r: F32_ONE_BITS,
            col_g: F32_ONE_BITS,
            col_b: F32_ONE_BITS,
        },
        Vertex {
            pos_x: F32_HALF_BITS,
            pos_y: F32_HALF_BITS,
            pos_z: F32_ZERO_BITS,
            col_r: F32_ONE_BITS,
            col_g: F32_ONE_BITS,
            col_b: F32_ONE_BITS,
        },
        Vertex {
            pos_x: F32_NEG_HALF_BITS,
            pos_y: F32_HALF_BITS,
            pos_z: F32_ZERO_BITS,
            col_r: F32_ONE_BITS,
            col_g: F32_ONE_BITS,
            col_b: F32_ONE_BITS,
        },
    ]
}

/// Builds the triangle's vertices.
pub fn triangle_vertices() -> (vs: Vec<Vertex>)
    ensures
        vs@ == triangle(),
{
    let mut vs: Vec<Vertex> = Vec::new();
    vs.push(Vertex {
        pos_x: F32_ONE_BITS,
        pos_y: F32_ZERO_BITS,
        pos_z: F32_ZERO_BITS,
        col_r: F32_ONE_BITS,
        col_g: F32_ONE_BITS,
        col_b: F32_ONE_BITS,
    });
    vs.push(Vertex {
        pos_x: F32_HALF_BITS,
        pos_y: F32_HALF_BITS,
        pos_z: F32_ZERO_BITS,
        col_r: F32_ONE_BITS,
        col_g: F32_ONE_BITS,
        col_b: F32_ONE_BITS,
    });
    vs.push(Vertex {
        pos_x: F32_NEG_HALF_BITS,
        pos_y: F32_HALF_BITS,
        pos_z: F32_ZERO_BITS,
        col_r: F32_ONE_BITS,
        col_g: F32_ONE_BITS,
        col_b: F32_ONE_BITS,
    });
    proof {
        assert(vs@ =~= triangle());
    }
    vs
}

/// Appends the four little-endian bytes of `x` to `out`.
fn push_le_32(out: &mut Vec<u8>, x: u32)
    ensures
        final(out)@ == old(out)@ + le_bytes_32(x),
{
    out.push((x & 0xff) as u8);
    out.push(((x >> 8) & 0xff) as u8);
    out.push(((x >> 16) & 0xff) as u8);
    out.push(((x >> 24) & 0xff) as u8);
    proof {
        assert(out@ =~= old(out)@ + le_bytes_32(x));
    }
}

/// Packs a vertex sequence into the tightly packed byte layout in which it
/// is uploaded: 24 bytes per vertex, components in order, little endian.
pub fn pack_vertices(vs: &Vec<Vertex>) -> (out: Vec<u8>)
    ensures
        out@ == packed_bytes(vs@),
        out@.len() == VERTEX_STRIDE * vs@.len(),
{
    let mut out: Vec<u8> = Vec::new();
    let mut i: usize = 0;
    proof {
        assert(vs@.take(0) =~= Seq::<Vertex>::empty());
    }
    while i < vs.len()
        invariant
            i <= vs@.len(),
            out@ == packed_bytes(vs@.take(i as int)),
            out@.len() == VERTEX_STRIDE * i,
        decreases vs@.len() - i,
    {
        let v = vs[i];
        push_le_32(&mut out, v.pos_x);
        push_le_32(&mut out, v.pos_y);
        push_le_32(&mut out, v.pos_z);
        push_le_32(&mut out, v.col_r);
        push_le_32(&mut out, v.col_g);
        push_le_32(&mut out, v.col_b);
        proof {
            let t = vs@.take(i + 1);
            assert(t.drop_last() =~= vs@.take(i as int));
            assert(t.last() == vs@[i as int]);
            assert(out@ =~= packed_bytes(vs@.take(i as int)) + vertex_bytes(vs@[i as int]));
        }
        i = i + 1;
    }
    proof {
        assert(vs@.take(vs@.len() as int) =~= vs@);
    }
    out
}

/// The packed image of `n` vertices is exactly `24 * n` bytes long: packing
/// is tight, nothing is dropped and nothing is padded.
pub proof fn lemma_packed_bytes_len(vs: Seq<Vertex>)
    ensures
        packed_bytes(vs).len() == VERTEX_STRIDE * vs.len(),
    decreases vs.len(),
{
    if vs.len() > 0 {
        lemma_packed_bytes_len(vs.drop_last());
    }
}

} // verus!
