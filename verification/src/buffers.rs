//! Vertex and index data of a puppet, laid out for the GPU.
//!
//! Each update interleaves the puppet's vertex positions, texture
//! coordinates and deformations, appends the four vertices of the
//! full-screen composite quad, and lays out the index stream: the
//! puppet's 16-bit indices, one zero index of padding when needed to keep
//! the byte length a multiple of 4 (as WebGPU requires for buffer writes),
//! then the six indices of the composite quad. The GPU buffers grow when the
//! data outgrows them, to the larger of the required size and twice their
//! capacity.

use vstd::prelude::*;
use crate::vertex::{Vertex, VERTEX_STRIDE, composite_quad, composite_quad_vertices};

verus! {

/// Initial capacity of the vertex buffer in bytes.
pub const INITIAL_VERTEX_CAPACITY: u64 = 65536;

/// Initial capacity of the index buffer in bytes.
pub const INITIAL_INDEX_CAPACITY: u64 = 16384;

/// Bytes per index.
pub const INDEX_SIZE: usize = 2;

/// Number of indices of the composite quad.
pub const COMPOSITE_INDEX_COUNT: u32 = 6;

/// The interleaved vertices of a puppet's mesh data.
pub open spec fn interleaved(verts: Seq<[u32; 2]>, uvs: Seq<[u32; 2]>, deforms: Seq<[u32; 2]>) -> Seq<Vertex> {
    Seq::new(verts.len(), |i: int| Vertex { position: verts[i], uv: uvs[i], deform: deforms[i] })
}

/// Padding that keeps an index stream of `n` 16-bit indices 4-byte aligned.
pub open spec fn index_padding(n: nat) -> Seq<u16> {
    if n % 2 == 1 {
        seq![0u16]
    } else {
        Seq::empty()
    }
}

/// The two triangles of the composite quad whose first vertex is `base`.
pub open spec fn quad_indices(base: u16) -> Seq<u16> {
    seq![base, (base + 1) as u16, (base + 2) as u16, base, (base + 2) as u16, (base + 3) as u16]
}

/// Offset of corner `k` of the composite quad's triangles from its first vertex.
pub open spec fn quad_corner(k: int) -> int {
    if k == 0 || k == 3 {
        0
    } else if k == 1 {
        1
    } else if k == 2 || k == 4 {
        2
    } else {
        3
    }
}

/// A buffer that must hold `target` bytes but has `capacity` grows to the
/// larger of `target` and twice its capacity.
pub open spec fn spec_grown_capacity(target: u64, capacity: u64) -> u64 {
    if target >= capacity * 2 {
        target
    } else {
        (capacity * 2) as u64
    }
}

/// The capacity a buffer has after it was asked to hold `required` bytes.
pub open spec fn capacity_after(required: u64, capacity: u64) -> u64 {
    if required > capacity {
        spec_grown_capacity(required, capacity)
    } else {
        capacity
    }
}

/// Which GPU buffers must be recreated, and with what capacity, before the
/// staging data is uploaded.
#[derive(Debug, Clone, Copy)]
pub struct BufferResize {
    pub vertex_capacity: Option<u64>,
    pub index_capacity: Option<u64>,
}

/// Abstract state of a buffer manager.
pub ghost struct BufferState {
    pub vertex_count: u32,
    pub index_count: u32,
    /// Capacity of the vertex buffer in bytes.
    pub vertex_capacity: u64,
    /// Capacity of the index buffer in bytes.
    pub index_capacity: u64,
    pub vertices: Seq<Vertex>,
    pub indices: Seq<u16>,
    /// Where the composite quad's indices start (counted in indices).
    pub composite_index_offset: u32,
    pub composite_index_count: u32,
}

/// The vertex and index data of one puppet and the capacities of the GPU
/// buffers that hold them.
pub struct BufferManager {
    vertex_count: u32,
    index_count: u32,
    vertex_capacity: u64,
    index_capacity: u64,
    vertex_staging: Vec<Vertex>,
    index_staging: Vec<u16>,
    composite_index_offset: u32,
    composite_index_count: u32,
}

impl View for BufferManager {
    type V = BufferState;

    closed spec fn view(&self) -> BufferState {
        BufferState {
            vertex_count: self.vertex_count,
            index_count: self.index_count,
            vertex_capacity: self.vertex_capacity,
            index_capacity: self.index_capacity,
            vertices: self.vertex_staging@,
            indices: self.index_staging@,
            composite_index_offset: self.composite_index_offset,
            composite_index_count: self.composite_index_count,
        }
    }
}

impl BufferManager {
    /// Creates a manager with the initial capacities and no data.
    pub fn new() -> (m: Self)
        ensures
            m@.vertex_count == 0,
            m@.index_count == 0,
            m@.composite_index_offset == 0,
            m@.composite_index_count == 0,
            m@.vertex_capacity == INITIAL_VERTEX_CAPACITY,
            m@.index_capacity == INITIAL_INDEX_CAPACITY,
            m@.vertices == Seq::<Vertex>::empty(),
            m@.indices == Seq::<u16>::empty(),
    {
        BufferManager {
            vertex_count: 0,
            index_count: 0,
            vertex_capacity: INITIAL_VERTEX_CAPACITY,
            index_capacity: INITIAL_INDEX_CAPACITY,
            vertex_staging: Vec::new(),
            index_staging: Vec::new(),
            composite_index_offset: 0,
            composite_index_count: 0,
        }
    }

    pub fn vertex_capacity(&self) -> (c: u64)
        ensures
            c == self@.vertex_capacity,
    {
        self.vertex_capacity
    }

    pub fn index_capacity(&self) -> (c: u64)
        ensures
            c == self@.index_capacity,
    {
        self.index_capacity
    }

    pub fn vertex_count(&self) -> (n: u32)
        ensures
            n == self@.vertex_count,
    {
        self.vertex_count
    }

    pub fn index_count(&self) -> (n: u32)
        ensures
            n == self@.index_count,
    {
        self.index_count
    }

    pub fn composite_index_offset(&self) -> (n: u32)
        ensures
            n == self@.composite_index_offset,
    {
        self.composite_index_offset
    }

    pub fn composite_index_count(&self) -> (n: u32)
        ensures
            n == self@.composite_index_count,
    {
        self.composite_index_count
    }

    /// The vertices to upload.
    pub fn vertex_staging(&self) -> (v: &[Vertex])
        ensures
            v@ == self@.vertices,
    {
        self.vertex_staging.as_slice()
    }

    /// The indices to upload.
    pub fn index_staging(&self) -> (v: &[u16])
        ensures
            v@ == self@.indices,
    {
        self.index_staging.as_slice()
    }

    /// Updates the staging data with the latest mesh data of the puppet
    /// (vertex positions, texture coordinates, deformations and indices)
    /// and grows the buffers that the new data exceeds.
    pub fn update(
        &mut self,
        verts: &[[u32; 2]],
        uvs: &[[u32; 2]],
        deforms: &[[u32; 2]],
        indices: &[u16],
    ) -> (resize: BufferResize)
        requires
            uvs@.len() >= verts@.len(),
            deforms@.len() >= verts@.len(),
            verts@.len() % 65536 + 3 <= u16::MAX,
            (verts@.len() + 4) * VERTEX_STRIDE <= isize::MAX,
            (indices@.len() + 7) * INDEX_SIZE <= isize::MAX,
        ensures
            final(self)@.vertices == interleaved(verts@, uvs@, deforms@) + composite_quad(),
            final(self)@.indices == indices@ + index_padding(indices@.len()) + quad_indices(
                (verts@.len() % 65536) as u16,
            ),
            final(self)@.vertex_count == verts@.len() as u32,
            final(self)@.index_count == indices@.len() as u32,
            final(self)@.composite_index_offset == (indices@.len() + index_padding(indices@.len()).len()) as u32,
            final(self)@.composite_index_count == COMPOSITE_INDEX_COUNT,
            // the index data's byte length is a multiple of 4
            (final(self)@.indices.len() * INDEX_SIZE) % 4 == 0,
            // the buffers grow just when the data outgrows them, and then hold it
            final(self)@.vertex_capacity == capacity_after(
                (final(self)@.vertices.len() * VERTEX_STRIDE) as u64,
                old(self)@.vertex_capacity,
            ),
            final(self)@.index_capacity == capacity_after(
                (final(self)@.indices.len() * INDEX_SIZE) as u64,
                old(self)@.index_capacity,
            ),
            final(self)@.vertices.len() * VERTEX_STRIDE <= final(self)@.vertex_capacity,
            final(self)@.indices.len() * INDEX_SIZE <= final(self)@.index_capacity,
            old(self)@.vertex_capacity <= final(self)@.vertex_capacity,
            old(self)@.index_capacity <= final(self)@.index_capacity,
            resize.vertex_capacity == (if final(self)@.vertex_capacity != old(self)@.vertex_capacity {
                Some(final(self)@.vertex_capacity)
            } else {
                None::<u64>
            }),
            resize.index_capacity == (if final(self)@.index_capacity != old(self)@.index_capacity {
                Some(final(self)@.index_capacity)
            } else {
                None::<u64>
            }),
            // the composite quad's indices address the composite vertices
            verts@.len() <= 65532 && indices@.len() < u32::MAX ==> forall|k: int|
                0 <= k < COMPOSITE_INDEX_COUNT ==> #[trigger] final(self)@.indices[final(self)@.composite_index_offset + k]
                    == verts@.len() + quad_corner(k),
            forall|c: int|
                0 <= c < 4 ==> #[trigger] final(self)@.vertices[verts@.len() + c]
                    == composite_quad()[c],
    {
        self.update_vertices(verts, uvs, deforms);
        let padding_len = self.update_indices(indices);

        // Append the composite quad's indices.
        let n_verts = verts.len();
        let base = #[verifier::truncate] (n_verts as u16);
        assert(base as usize == n_verts % 65536) by (bit_vector)
            requires
                base == #[verifier::truncate] (n_verts as u16),
        ;
        let ghost before_quad = self.index_staging@;
        self.index_staging.push(base);
        self.index_staging.push(base + 1);
        self.index_staging.push(base + 2);
        self.index_staging.push(base);
        self.index_staging.push(base + 2);
        self.index_staging.push(base + 3);
        assert(self.index_staging@ == before_quad + quad_indices(base));

        let padding_indices = padding_len / 2;
        self.composite_index_offset = #[verifier::truncate] ((indices.len() + padding_indices) as u32);
        self.composite_index_count = COMPOSITE_INDEX_COUNT;

        let required_vertex_size = (self.vertex_staging.len() * VERTEX_STRIDE) as u64;
        let required_index_size = (self.index_staging.len() * INDEX_SIZE) as u64;

        let mut resize = BufferResize { vertex_capacity: None, index_capacity: None };
        if required_vertex_size > self.vertex_capacity {
            self.vertex_capacity = grown_capacity(required_vertex_size, self.vertex_capacity);
            resize.vertex_capacity = Some(self.vertex_capacity);
        }
        if required_index_size > self.index_capacity {
            self.index_capacity = grown_capacity(required_index_size, self.index_capacity);
            resize.index_capacity = Some(self.index_capacity);
        }

        self.vertex_count = #[verifier::truncate] (verts.len() as u32);
        self.index_count = #[verifier::truncate] (indices.len() as u32);

        proof {
            let n = indices@.len();
            let off = n + index_padding(n).len();
            assert(self.index_staging@.len() == off + 6);
            if verts@.len() <= 65532 && n < u32::MAX {
                assert forall|k: int| 0 <= k < COMPOSITE_INDEX_COUNT implies #[trigger] self.index_staging@[off + k]
                    == verts@.len() + quad_corner(k) by {
                    assert(self.index_staging@[off + k] == quad_indices(base)[k]);
                }
            }
            assert forall|c: int| 0 <= c < 4 implies #[trigger] self.vertex_staging@[verts@.len() + c]
                == composite_quad()[c] by {
                assert(interleaved(verts@, uvs@, deforms@).len() == verts@.len());
            }
        }
        resize
    }

    /// Interleaves the mesh data and appends the composite quad.
    fn update_vertices(&mut self, verts: &[[u32; 2]], uvs: &[[u32; 2]], deforms: &[[u32; 2]])
        requires
            uvs@.len() >= verts@.len(),
            deforms@.len() >= verts@.len(),
        ensures
            final(self).vertex_staging@ == interleaved(verts@, uvs@, deforms@) + composite_quad(),
            final(self).index_staging@ == old(self).index_staging@,
            final(self).vertex_capacity == old(self).vertex_capacity,
            final(self).index_capacity == old(self).index_capacity,
    {
        self.vertex_staging.clear();
        let vert_len = verts.len();
        let mut i: usize = 0;
        while i < vert_len
            invariant
                0 <= i <= vert_len,
                vert_len == verts@.len(),
                uvs@.len() >= verts@.len(),
                deforms@.len() >= verts@.len(),
                self.vertex_staging@ == interleaved(verts@, uvs@, deforms@).take(i as int),
                self.index_staging@ == old(self).index_staging@,
                self.vertex_capacity == old(self).vertex_capacity,
                self.index_capacity == old(self).index_capacity,
            decreases vert_len - i,
        {
            self.vertex_staging.push(Vertex { position: verts[i], uv: uvs[i], deform: deforms[i] });
            assert(interleaved(verts@, uvs@, deforms@).take(i + 1) == interleaved(verts@, uvs@, deforms@).take(
                i as int,
            ).push(Vertex { position: verts@[i as int], uv: uvs@[i as int], deform: deforms@[i as int] }));
            i = i + 1;
        }
        assert(interleaved(verts@, uvs@, deforms@).take(vert_len as int) == interleaved(verts@, uvs@, deforms@));
        let quad = composite_quad_vertices();
        let ghost mid = self.vertex_staging@;
        self.vertex_staging.push(quad[0]);
        self.vertex_staging.push(quad[1]);
        self.vertex_staging.push(quad[2]);
        self.vertex_staging.push(quad[3]);
        assert(self.vertex_staging@ == mid + composite_quad());
    }

    /// Lays out the puppet's indices, padded to a 4-byte boundary; returns
    /// the number of padding bytes.
    fn update_indices(&mut self, indices: &[u16]) -> (padding_len: usize)
        ensures
            final(self).index_staging@ == indices@ + index_padding(indices@.len()),
            padding_len == index_padding(indices@.len()).len() * INDEX_SIZE,
            final(self).vertex_staging@ == old(self).vertex_staging@,
            final(self).vertex_capacity == old(self).vertex_capacity,
            final(self).index_capacity == old(self).index_capacity,
    {
        self.index_staging.clear();
        self.index_staging.extend_from_slice(indices);
        assert(self.index_staging@ == indices@);
        // WebGPU needs a multiple of 4 bytes; indices are 2 bytes each.
        let padding_len: usize = if indices.len() % 2 != 0 {
            2
        } else {
            0
        };
        if padding_len > 0 {
            self.index_staging.push(0u16);
        }
        assert(self.index_staging@ == indices@ + index_padding(indices@.len()));
        padding_len
    }
}

/// The capacity a buffer grows to when it must hold `target_size` bytes.
pub fn grown_capacity(target_size: u64, capacity: u64) -> (c: u64)
    requires
        capacity < target_size,
        target_size <= isize::MAX,
    ensures
        c == spec_grown_capacity(target_size, capacity),
        c >= target_size,
        c >= capacity * 2,
{
    let doubled = capacity * 2;
    if target_size >= doubled {
        target_size
    } else {
        doubled
    }
}

} // verus!
