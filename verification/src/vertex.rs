//! Vertex data and its byte layout.
//!
//! A vertex is a position and a color of three 32-bit channels each; the
//! channels carry the bit patterns of the application's floating-point
//! values and pass through unchanged. The byte serialization — six
//! little-endian words, position first — is the single place where vertex
//! data becomes the bytes a vertex buffer holds, and the layout constants
//! the pipeline needs are stated against that serialization.
use vstd::prelude::*;

verus! {

/// One vertex: position then color, three 32-bit channels each, carried as
/// bit patterns.
#[derive(Copy, Clone, Debug, PartialEq, Eq, Default)]
pub struct Vertex {
    pub pos: [u32; 3],
    pub color: [u32; 3],
}

impl Vertex {
    pub fn new(pos: [u32; 3], color: [u32; 3]) -> (r: Vertex)
        ensures
            r.pos == pos,
            r.color == color,
    {
        Vertex { pos, color }
    }
}

/// The four little-endian bytes of a 32-bit word.
pub open spec fn le_bytes32(w: u32) -> Seq<u8> {
    seq![
        (w as int % 256) as u8,
        (w as int / 256 % 256) as u8,
        (w as int / 65536 % 256) as u8,
        (w as int / 16777216 % 256) as u8,
    ]
}

/// The two little-endian bytes of a 16-bit index.
pub open spec fn le_bytes16(w: u16) -> Seq<u8> {
    seq![(w as int % 256) as u8, (w as int / 256 % 256) as u8]
}

/// The 24 bytes of one vertex: position channels then color channels, each
/// a little-endian word.
pub open spec fn vertex_bytes_spec(v: Vertex) -> Seq<u8> {
    le_bytes32(v.pos[0]) + le_bytes32(v.pos[1]) + le_bytes32(v.pos[2]) + le_bytes32(v.color[0])
        + le_bytes32(v.color[1]) + le_bytes32(v.color[2])
}

/// The bytes of the first `n` vertices, in order.
pub open spec fn vertices_bytes_upto(s: Seq<Vertex>, n: int) -> Seq<u8>
    decreases n,
{
    if n <= 0 {
        Seq::empty()
    } else {
        vertices_bytes_upto(s, n - 1) + vertex_bytes_spec(s[n - 1])
    }
}

/// The bytes of the first `n` indices, in order.
pub open spec fn indices_bytes_upto(s: Seq<u16>, n: int) -> Seq<u8>
    decreases n,
{
    if n <= 0 {
        Seq::empty()
    } else {
        indices_bytes_upto(s, n - 1) + le_bytes16(s[n - 1])
    }
}

/// Append the little-endian bytes of one word.
fn push_word_le(out: &mut Vec<u8>, w: u32)
    ensures
        final(out)@ == old(out)@ + le_bytes32(w),
{
    out.push((w % 256) as u8);
    out.push((w / 256 % 256) as u8);
    out.push((w / 65536 % 256) as u8);
    out.push((w / 16777216 % 256) as u8);
    proof {
        assert(final(out)@ =~= old(out)@ + le_bytes32(w));
    }
}

/// Serialize vertices into the bytes their vertex buffer holds.
pub fn vertex_buffer_bytes(vertices: &Vec<Vertex>) -> (r: Vec<u8>)
    ensures
        r@ == vertices_bytes_upto(vertices@, vertices@.len() as int),
        r@.len() == 24 * vertices@.len(),
{
    let mut out: Vec<u8> = Vec::new();
    let mut i: usize = 0;
    while i < vertices.len()
        invariant
            i <= vertices@.len(),
            out@ == vertices_bytes_upto(vertices@, i as int),
            out@.len() == 24 * i,
        decreases vertices@.len() - i,
    {
        let v = vertices[i];
        push_word_le(&mut out, v.pos[0]);
        push_word_le(&mut out, v.pos[1]);
        push_word_le(&mut out, v.pos[2]);
        push_word_le(&mut out, v.color[0]);
        push_word_le(&mut out, v.color[1]);
        push_word_le(&mut out, v.color[2]);
        proof {
            assert(out@ =~= vertices_bytes_upto(vertices@, i + 1));
        }
        i = i + 1;
    }
    out
}

/// Serialize indices into the bytes their index buffer holds.
pub fn index_buffer_bytes(indices: &Vec<u16>) -> (r: Vec<u8>)
    ensures
        r@ == indices_bytes_upto(indices@, indices@.len() as int),
        r@.len() == 2 * indices@.len(),
{
    let mut out: Vec<u8> = Vec::new();
    let mut i: usize = 0;
    while i < indices.len()
        invariant
            i <= indices@.len(),
            out@ == indices_bytes_upto(indices@, i as int),
            out@.len() == 2 * i,
        decreases indices@.len() - i,
    {
        let w = indices[i];
        out.push((w % 256) as u8);
        out.push((w / 256 % 256) as u8);
        proof {
            assert(out@ =~= indices_bytes_upto(indices@, i + 1));
        }
        i = i + 1;
    }
    out
}

/// Where the pipeline finds each attribute inside the serialized vertex.
#[derive(Copy, Clone, Debug, PartialEq, Eq, Structural)]
pub struct VertexLayout {
    /// Bytes from one vertex to the next
    pub stride: u32,
    /// Byte offset of the position attribute
    pub position_offset: u32,
    /// Byte offset of the color attribute
    pub color_offset: u32,
}

/// The fixed vertex layout, consistent with the serialization: 24-byte
/// stride, position at the start, color after the three position words.
pub fn vertex_layout() -> (r: VertexLayout)
    ensures
        r.stride == 24,
        r.position_offset == 0,
        r.color_offset == 12,
        forall|v: Vertex| vertex_bytes_spec(v).len() == r.stride,
{
    VertexLayout { stride: 24, position_offset: 0, color_offset: 12 }
}

} // verus!
