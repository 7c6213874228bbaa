//! Geometry upload: the contents of the GPU vertex and index buffers.
//!
//! Vertex data arrives as the exact bytes the platform layer will place in
//! the vertex buffer; indices arrive as 16-bit values and are stored in the
//! little-endian byte order the index buffer uses. Both buffers are created
//! once from immutable CPU-side arrays, and their contents read back equal
//! the source arrays.

use vstd::prelude::*;

use vstd::arithmetic::div_mod::lemma_fundamental_div_mod;

verus! {

/// Low byte of a 16-bit index.
pub open spec fn u16_lo(x: u16) -> u8 {
    (x % 256) as u8
}

/// High byte of a 16-bit index.
pub open spec fn u16_hi(x: u16) -> u8 {
    (x / 256) as u8
}

/// The little-endian byte image of a sequence of 16-bit indices.
pub open spec fn le_bytes_of(s: Seq<u16>) -> Seq<u8> {
    Seq::new(
        2 * s.len(),
        |i: int|
            if i % 2 == 0 {
                u16_lo(s[i / 2])
            } else {
                u16_hi(s[i / 2])
            },
    )
}

/// The 16-bit indices read back from a little-endian byte image.
pub open spec fn u16s_of_le(b: Seq<u8>) -> Seq<u16> {
    Seq::new(b.len() / 2, |k: int| ((b[2 * k] as int) + 256 * (b[2 * k + 1] as int)) as u16)
}

/// Round-trip law: reading the little-endian byte image of an index array
/// back as 16-bit values yields the source array unchanged.
pub proof fn lemma_index_bytes_round_trip(s: Seq<u16>)
    ensures
        u16s_of_le(le_bytes_of(s)) == s,
{
    let b = le_bytes_of(s);
    assert(b.len() == 2 * s.len());
    assert(b.len() / 2 == s.len()) by {
        lemma_fundamental_div_mod(b.len() as int, 2);
    }
    assert forall|k: int| 0 <= k < s.len() implies u16s_of_le(b)[k] == s[k] by {
        assert(b[2 * k] == u16_lo(s[k]));
        assert(b[2 * k + 1] == u16_hi(s[k]));
        lemma_fundamental_div_mod(s[k] as int, 256);
    }
    assert(u16s_of_le(b) =~= s);
}

/// Encode 16-bit indices into the little-endian bytes the index buffer
/// holds.
pub fn encode_indices(indices: &Vec<u16>) -> (r: Vec<u8>)
    ensures
        r@ == le_bytes_of(indices@),
{
    let mut out: Vec<u8> = Vec::new();
    let n: usize = indices.len();
    let mut k: usize = 0;
    while k < n
        invariant
            n == indices@.len(),
            0 <= k <= n,
            out@.len() == 2 * k,
            forall|i: int| 0 <= i < out@.len() ==> out@[i] == le_bytes_of(indices@)[i],
        decreases n - k,
    {
        let x = indices[k];
        out.push((x % 256) as u8);
        out.push((x / 256) as u8);
        k = k + 1;
    }
    assert(out@ =~= le_bytes_of(indices@));
    out
}

/// Read an index buffer's bytes back as the 16-bit values they encode.
pub fn decode_indices(bytes: &Vec<u8>) -> (r: Vec<u16>)
    requires
        bytes@.len() % 2 == 0,
    ensures
        r@ == u16s_of_le(bytes@),
{
    proof {
        lemma_fundamental_div_mod(bytes@.len() as int, 2);
    }
    let n: usize = bytes.len() / 2;
    let mut out: Vec<u16> = Vec::new();
    let mut k: usize = 0;
    while k < n
        invariant
            bytes@.len() % 2 == 0,
            bytes@.len() <= usize::MAX,
            n == bytes@.len() / 2,
            2 * n == bytes@.len(),
            0 <= k <= n,
            out@.len() == k,
            forall|i: int| 0 <= i < out@.len() ==> out@[i] == u16s_of_le(bytes@)[i],
        decreases n - k,
    {
        let lo = bytes[2 * k];
        let hi = bytes[2 * k + 1];
        out.push(lo as u16 + (hi as u16) * 256);
        k = k + 1;
    }
    assert(out@ =~= u16s_of_le(bytes@));
    out
}

/// The immutable CPU-side arrays geometry is created from: the interleaved
/// vertex bytes, the stride of one vertex, and the optional 16-bit index
/// array.
pub struct GeometryAssets {
    pub vertex_data: Vec<u8>,
    pub vertex_stride: u32,
    pub indices: Option<Vec<u16>>,
}

impl GeometryAssets {
    /// A well-formed source array set: the bytes hold whole vertices and the
    /// counts fit the draw call's 32-bit ranges.
    pub open spec fn wf(self) -> bool {
        &&& self.vertex_stride >= 1
        &&& self.vertex_data@.len() as int % (self.vertex_stride as int) == 0
        &&& self.vertex_data@.len() <= u32::MAX
        &&& match self.indices {
            Some(ix) => ix@.len() <= u32::MAX,
            None => true,
        }
    }
}

/// GPU-resident geometry: the vertex buffer's bytes, the optional index
/// buffer's bytes, and the counts a draw call covers. Fixed for the object's
/// lifetime.
pub struct GeometryBuffer {
    pub vertex_data: Vec<u8>,
    pub vertex_stride: u32,
    pub vertex_count: u32,
    pub index_data: Option<Vec<u8>>,
    pub index_count: u32,
}

impl GeometryBuffer {
    /// Invariant: the vertex bytes fill exactly `vertex_count` vertices of
    /// `vertex_stride` bytes each, and the index bytes hold exactly
    /// `index_count` 16-bit indices when an index buffer exists.
    pub open spec fn wf(self) -> bool {
        &&& self.vertex_stride >= 1
        &&& self.vertex_data@.len() == self.vertex_count * self.vertex_stride
        &&& match self.index_data {
            Some(b) => b@.len() == 2 * self.index_count,
            None => self.index_count == 0,
        }
    }

    /// Whether drawing uses an indexed draw over the index buffer rather
    /// than a plain vertex range.
    pub open spec fn indexed(self) -> bool {
        self.index_data is Some
    }
}

/// What creating the geometry buffers from a source array set leaves on the
/// GPU: the vertex bytes unchanged, the little-endian image of the indices,
/// and the exact counts one draw call covers.
pub open spec fn is_upload_of(g: GeometryBuffer, a: GeometryAssets) -> bool {
    &&& g.vertex_data@ == a.vertex_data@
    &&& g.vertex_stride == a.vertex_stride
    &&& g.vertex_count == a.vertex_data@.len() as int / (a.vertex_stride as int)
    &&& match a.indices {
        Some(ix) => {
            &&& g.index_data matches Some(b) && b@ == le_bytes_of(ix@)
            &&& g.index_count == ix@.len()
        },
        None => g.index_data is None && g.index_count == 0,
    }
}

/// Create the geometry buffers from immutable CPU-side arrays: the vertex
/// buffer holds the given bytes unchanged, and the optional index buffer
/// holds the little-endian image of the given indices. The vertex count is
/// the number of whole vertices the bytes contain.
pub fn upload_geometry(assets: GeometryAssets) -> (g: GeometryBuffer)
    requires
        assets.wf(),
    ensures
        g.wf(),
        is_upload_of(g, assets),
{
    proof {
        lemma_fundamental_div_mod(assets.vertex_data@.len() as int, assets.vertex_stride as int);
        vstd::arithmetic::div_mod::lemma_div_nonincreasing(
            assets.vertex_data@.len() as int,
            assets.vertex_stride as int,
        );
    }
    let GeometryAssets { vertex_data, vertex_stride, indices } = assets;
    let vertex_count: u32 = (vertex_data.len() / (vertex_stride as usize)) as u32;
    proof {
        let l = vertex_data@.len() as int;
        let s = vertex_stride as int;
        assert(vertex_count == l / s);
        assert(l == s * (l / s) + l % s);
        vstd::arithmetic::mul::lemma_mul_is_commutative(vertex_count as int, s);
        assert(vertex_count * vertex_stride == l);
    }
    match indices {
        Some(ix) => {
            let index_bytes = encode_indices(&ix);
            let index_count: u32 = ix.len() as u32;
            GeometryBuffer {
                vertex_data,
                vertex_stride,
                vertex_count,
                index_data: Some(index_bytes),
                index_count,
            }
        },
        None => GeometryBuffer {
            vertex_data,
            vertex_stride,
            vertex_count,
            index_data: None,
            index_count: 0,
        },
    }
}

} // verus!
