//! Binary layout of the vertex and index streams.
//!
//! A vertex occupies [`VERTEX_SIZE`] bytes: the position (two 32-bit floats),
//! the texture coordinate (two 32-bit floats) and the color (four bytes), in
//! that order and without padding. Every multi-byte field is written in
//! little-endian order. Floats travel through this crate as their IEEE-754
//! bit patterns, so encoding never rounds or otherwise changes them.

use vstd::prelude::*;

verus! {

/// Number of bytes one encoded vertex occupies.
pub const VERTEX_SIZE: usize = 20;

/// Byte offset of the position inside an encoded vertex.
pub const POSITION_OFFSET: usize = 0;

/// Byte offset of the texture coordinate inside an encoded vertex.
pub const UV_OFFSET: usize = 8;

/// Byte offset of the color inside an encoded vertex.
pub const COLOR_OFFSET: usize = 16;

/// Number of bytes one encoded index occupies.
pub const INDEX_SIZE: usize = 2;

/// One vertex of the GUI's triangle mesh.
#[derive(Clone, Copy, Debug, PartialEq, Eq)]
pub struct Vertex {
    /// Position in UI space: bit patterns of the two coordinates.
    pub pos: [u32; 2],
    /// Texture coordinate: bit patterns of the two coordinates.
    pub uv: [u32; 2],
    /// Color as red, green, blue, alpha.
    pub col: [u8; 4],
}

/// The four bytes of `x`, least significant first.
pub open spec fn u32_le(x: u32) -> Seq<u8> {
    seq![
        (x % 256) as u8,
        (x / 256 % 256) as u8,
        (x / 65536 % 256) as u8,
        (x / 16777216) as u8,
    ]
}

/// The two bytes of `x`, least significant first.
pub open spec fn u16_le(x: u16) -> Seq<u8> {
    seq![(x % 256) as u8, (x / 256) as u8]
}

/// The encoding of one vertex.
pub open spec fn vertex_bytes(v: Vertex) -> Seq<u8> {
    u32_le(v.pos[0]) + u32_le(v.pos[1]) + u32_le(v.uv[0]) + u32_le(v.uv[1]) + v.col@
}

/// The encoding of a vertex stream: the encodings of its vertices, in order.
pub open spec fn vertices_bytes(vs: Seq<Vertex>) -> Seq<u8>
    decreases vs.len(),
{
    if vs.len() == 0 {
        Seq::empty()
    } else {
        vertices_bytes(vs.drop_last()) + vertex_bytes(vs.last())
    }
}

/// The encoding of an index stream: the encodings of its indices, in order.
pub open spec fn indices_bytes(is: Seq<u16>) -> Seq<u8>
    decreases is.len(),
{
    if is.len() == 0 {
        Seq::empty()
    } else {
        indices_bytes(is.drop_last()) + u16_le(is.last())
    }
}

/// Appends the little-endian bytes of `x` to `out`.
fn push_u32_le(out: &mut Vec<u8>, x: u32)
    ensures
        final(out)@ == old(out)@ + u32_le(x),
{
    out.push((x % 256) as u8);
    out.push((x / 256 % 256) as u8);
    out.push((x / 65536 % 256) as u8);
    out.push((x / 16777216) as u8);
}

/// Appends the encoding of `v` to `out`.
fn push_vertex(out: &mut Vec<u8>, v: &Vertex)
    ensures
        final(out)@ == old(out)@ + vertex_bytes(*v),
{
    push_u32_le(out, v.pos[0]);
    push_u32_le(out, v.pos[1]);
    push_u32_le(out, v.uv[0]);
    push_u32_le(out, v.uv[1]);
    out.push(v.col[0]);
    out.push(v.col[1]);
    out.push(v.col[2]);
    out.push(v.col[3]);
    assert(v.col@ =~= seq![v.col[0], v.col[1], v.col[2], v.col[3]]);
}

/// Encodes a vertex stream into the bytes uploaded to the vertex buffer.
pub fn encode_vertices(vertices: &Vec<Vertex>) -> (bytes: Vec<u8>)
    ensures
        bytes@ == vertices_bytes(vertices@),
{
    let mut bytes: Vec<u8> = Vec::new();
    let mut i: usize = 0;
    while i < vertices.len()
        invariant
            i <= vertices.len(),
            bytes@ == vertices_bytes(vertices@.take(i as int)),
        decreases vertices.len() - i,
    {
        push_vertex(&mut bytes, &vertices[i]);
        proof {
            assert(vertices@.take(i + 1).drop_last() =~= vertices@.take(i as int));
        }
        i += 1;
    }
    proof {
        assert(vertices@.take(i as int) =~= vertices@);
    }
    bytes
}

/// Encodes an index stream into the bytes uploaded to the index buffer.
pub fn encode_indices(indices: &Vec<u16>) -> (bytes: Vec<u8>)
    ensures
        bytes@ == indices_bytes(indices@),
{
    let mut bytes: Vec<u8> = Vec::new();
    let mut i: usize = 0;
    while i < indices.len()
        invariant
            i <= indices.len(),
            bytes@ == indices_bytes(indices@.take(i as int)),
        decreases indices.len() - i,
    {
        let x: u16 = indices[i];
        bytes.push((x % 256) as u8);
        bytes.push((x / 256) as u8);
        proof {
            assert(indices@.take(i + 1).drop_last() =~= indices@.take(i as int));
        }
        i += 1;
    }
    proof {
        assert(indices@.take(i as int) =~= indices@);
    }
    bytes
}

/// Where the fields of an encoded vertex lie.
///
/// An encoded vertex has [`VERTEX_SIZE`] bytes. The two coordinates of the
/// position lie at [`POSITION_OFFSET`], those of the texture coordinate at
/// [`UV_OFFSET`], four bytes each, and the four bytes of the color at
/// [`COLOR_OFFSET`].
pub proof fn lemma_vertex_fields(v: Vertex)
    ensures
        vertex_bytes(v).len() == VERTEX_SIZE,
        vertex_bytes(v).subrange(POSITION_OFFSET as int, POSITION_OFFSET + 8) == u32_le(v.pos[0])
            + u32_le(v.pos[1]),
        vertex_bytes(v).subrange(UV_OFFSET as int, UV_OFFSET + 8) == u32_le(v.uv[0]) + u32_le(
            v.uv[1],
        ),
        vertex_bytes(v).subrange(COLOR_OFFSET as int, COLOR_OFFSET + 4) == v.col@,
{
    assert(vertex_bytes(v).subrange(POSITION_OFFSET as int, POSITION_OFFSET + 8) =~= u32_le(
        v.pos[0],
    ) + u32_le(v.pos[1]));
    assert(vertex_bytes(v).subrange(UV_OFFSET as int, UV_OFFSET + 8) =~= u32_le(v.uv[0]) + u32_le(
        v.uv[1],
    ));
    assert(vertex_bytes(v).subrange(COLOR_OFFSET as int, COLOR_OFFSET + 4) =~= v.col@);
}

/// Where the vertices of an encoded vertex stream lie.
///
/// The stream has [`VERTEX_SIZE`] bytes for each vertex, and vertex `i`
/// occupies the bytes from `i * VERTEX_SIZE` on.
pub proof fn lemma_vertex_at(vs: Seq<Vertex>, i: int)
    requires
        0 <= i < vs.len(),
    ensures
        vertices_bytes(vs).len() == vs.len() * VERTEX_SIZE,
        vertices_bytes(vs).subrange(i * VERTEX_SIZE, i * VERTEX_SIZE + VERTEX_SIZE) == vertex_bytes(
            vs[i],
        ),
    decreases vs.len(),
{
    lemma_vertices_len(vs);
    lemma_vertices_len(vs.drop_last());
    lemma_vertex_fields(vs.last());
    let earlier = vertices_bytes(vs.drop_last());
    if i == vs.len() - 1 {
        assert(vertices_bytes(vs).subrange(i * VERTEX_SIZE, i * VERTEX_SIZE + VERTEX_SIZE)
            =~= vertex_bytes(vs[i]));
    } else {
        lemma_vertex_at(vs.drop_last(), i);
        lemma_vertex_fields(vs[i]);
        assert(vertices_bytes(vs).subrange(i * VERTEX_SIZE, i * VERTEX_SIZE + VERTEX_SIZE)
            =~= earlier.subrange(i * VERTEX_SIZE, i * VERTEX_SIZE + VERTEX_SIZE));
    }
}

/// An encoded vertex stream has [`VERTEX_SIZE`] bytes for each vertex.
pub proof fn lemma_vertices_len(vs: Seq<Vertex>)
    ensures
        vertices_bytes(vs).len() == vs.len() * VERTEX_SIZE,
    decreases vs.len(),
{
    if vs.len() > 0 {
        lemma_vertices_len(vs.drop_last());
        lemma_vertex_fields(vs.last());
    }
}

/// Where the indices of an encoded index stream lie.
///
/// The stream has [`INDEX_SIZE`] bytes for each index, and index `i`
/// occupies the bytes from `i * INDEX_SIZE` on.
pub proof fn lemma_index_at(is: Seq<u16>, i: int)
    requires
        0 <= i < is.len(),
    ensures
        indices_bytes(is).len() == is.len() * INDEX_SIZE,
        indices_bytes(is).subrange(i * INDEX_SIZE, i * INDEX_SIZE + INDEX_SIZE) == u16_le(is[i]),
    decreases is.len(),
{
    lemma_indices_len(is);
    lemma_indices_len(is.drop_last());
    let earlier = indices_bytes(is.drop_last());
    if i == is.len() - 1 {
        assert(indices_bytes(is).subrange(i * INDEX_SIZE, i * INDEX_SIZE + INDEX_SIZE) =~= u16_le(
            is[i],
        ));
    } else {
        lemma_index_at(is.drop_last(), i);
        assert(indices_bytes(is).subrange(i * INDEX_SIZE, i * INDEX_SIZE + INDEX_SIZE)
            =~= earlier.subrange(i * INDEX_SIZE, i * INDEX_SIZE + INDEX_SIZE));
    }
}

/// Where a range of indices lies in an encoded index stream.
///
/// The indices from `first` up to `end` occupy the bytes from
/// `first * INDEX_SIZE` up to `end * INDEX_SIZE`: a draw call that starts
/// at that byte offset reads these indices and no others.
pub proof fn lemma_index_range(is: Seq<u16>, first: int, end: int)
    requires
        0 <= first <= end <= is.len(),
    ensures
        indices_bytes(is).len() == is.len() * INDEX_SIZE,
        indices_bytes(is).subrange(first * INDEX_SIZE, end * INDEX_SIZE) == indices_bytes(
            is.subrange(first, end),
        ),
    decreases end - first,
{
    lemma_indices_len(is);
    let range = is.subrange(first, end);
    if first == end {
        assert(indices_bytes(is).subrange(first * INDEX_SIZE, end * INDEX_SIZE) =~= indices_bytes(
            range,
        ));
    } else {
        lemma_index_range(is, first, end - 1);
        lemma_index_at(is, end - 1);
        lemma_indices_len(is.subrange(first, end - 1));
        assert(range.drop_last() =~= is.subrange(first, end - 1));
        assert(range.last() == is[end - 1]);
        let bytes = indices_bytes(is);
        assert(bytes.subrange(first * INDEX_SIZE, end * INDEX_SIZE) =~= bytes.subrange(
            first * INDEX_SIZE,
            (end - 1) * INDEX_SIZE,
        ) + bytes.subrange((end - 1) * INDEX_SIZE, (end - 1) * INDEX_SIZE + INDEX_SIZE));
    }
}

/// An encoded index stream has [`INDEX_SIZE`] bytes for each index.
pub proof fn lemma_indices_len(is: Seq<u16>)
    ensures
        indices_bytes(is).len() == is.len() * INDEX_SIZE,
    decreases is.len(),
{
    if is.len() > 0 {
        lemma_indices_len(is.drop_last());
    }
}

} // verus!
