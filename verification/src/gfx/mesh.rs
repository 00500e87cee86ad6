use vstd::prelude::*;
use crate::gfx::buffer::{BufferMemory, BufferShape};

verus! {

/// The width of the indices of an index buffer.
#[derive(Clone, Copy, Debug, PartialEq, Eq, Structural)]
pub enum IndexBufferType {
    Uint8,
    Uint16,
    Uint32,
}

impl IndexBufferType {
    pub open spec fn spec_size(self) -> usize {
        match self {
            IndexBufferType::Uint8 => 1,
            IndexBufferType::Uint16 => 2,
            IndexBufferType::Uint32 => 4,
        }
    }

    /// The number of bytes of one index.
    pub fn size(&self) -> (r: usize)
        ensures
            r == self.spec_size(),
    {
        match self {
            IndexBufferType::Uint8 => 1,
            IndexBufferType::Uint16 => 2,
            IndexBufferType::Uint32 => 4,
        }
    }

    pub open spec fn spec_from_stride(stride: nat) -> Option<IndexBufferType> {
        if stride == 1 {
            Some(IndexBufferType::Uint8)
        } else if stride == 2 {
            Some(IndexBufferType::Uint16)
        } else if stride == 4 {
            Some(IndexBufferType::Uint32)
        } else {
            None
        }
    }

    /// The index type of indices `stride` bytes wide, if there is one.
    pub fn from_stride(stride: usize) -> (r: Option<IndexBufferType>)
        ensures
            r == Self::spec_from_stride(stride as nat),
    {
        match stride {
            1 => Some(IndexBufferType::Uint8),
            2 => Some(IndexBufferType::Uint16),
            4 => Some(IndexBufferType::Uint32),
            _ => None,
        }
    }
}

impl Default for IndexBufferType {
    fn default() -> (r: Self)
        ensures
            r == IndexBufferType::Uint32,
    {
        IndexBufferType::Uint32
    }
}

/// Why a mesh update was refused.
#[derive(Clone, Copy, Debug, PartialEq, Eq, Structural)]
pub enum MeshError {
    /// Index data whose stride is not 1, 2 or 4 bytes.
    UnsupportedIndexSize(usize),
    /// Vertex data whose stride is not the mesh's vertex size.
    VertexStrideMismatch { expected: usize, actual: usize },
}

/// What has to be done to a GPU buffer of a mesh.
#[derive(Clone, Copy, Debug, PartialEq, Eq, Structural)]
pub enum BufferUpdate {
    /// Create the buffer from the data.
    Create(BufferShape),
    /// Write the data at the byte offset, after resizing the buffer to the given element count
    /// when there is one.
    Write { resize_to: Option<usize>, offset: usize },
}

/// The buffers of a mesh whose contents change from frame to frame.
pub struct DynamicMesh {
    vertex_buffer: Option<BufferShape>,
    index_buffer: Option<BufferShape>,
    vertex_structure_size: usize,
    index_type: IndexBufferType,
}

/// The update that writes `data` at element `start` of a buffer in `current` state with
/// elements `stride` bytes wide: create the buffer when there is none, else write at
/// `start * stride`, resizing it first to as many elements as `data` has bytes when the write
/// would not fit.
pub open spec fn spec_update(current: Option<BufferShape>, start: int, stride: int, data_stride: nat, data_elements: nat, data_size: nat) -> BufferUpdate {
    match current {
        None => BufferUpdate::Create(BufferShape { elements: data_elements as usize, stride: data_stride as usize }),
        Some(b) => BufferUpdate::Write {
            resize_to: if start * stride + data_size > b.elements * b.stride {
                Some(data_size as usize)
            } else {
                None
            },
            offset: (start * stride) as usize,
        },
    }
}

/// The shape of a buffer after `update`.
pub open spec fn spec_after(current: Option<BufferShape>, update: BufferUpdate) -> Option<BufferShape> {
    match update {
        BufferUpdate::Create(s) => Some(s),
        BufferUpdate::Write { resize_to, offset } => match (current, resize_to) {
            (Some(b), Some(n)) => Some(BufferShape { elements: if n == 0 { 1 } else { n }, stride: b.stride }),
            _ => current,
        },
    }
}

fn apply_update(current: Option<BufferShape>, update: BufferUpdate) -> (r: Option<BufferShape>)
    ensures
        r == spec_after(current, update),
{
    match update {
        BufferUpdate::Create(s) => Some(s),
        BufferUpdate::Write { resize_to, offset } => match (current, resize_to) {
            (Some(b), Some(n)) => {
                let mut b2 = b;
                b2.resize(n);
                Some(b2)
            },
            _ => current,
        },
    }
}

/// Whether the buffer after writing `data_size` bytes still has a size that fits in memory.
pub open spec fn resize_fits(current: Option<BufferShape>, data_size: nat) -> bool {
    current matches Some(b) ==> data_size * b.stride <= usize::MAX
}

fn plan_update(current: Option<BufferShape>, start: usize, stride: usize, data: &BufferMemory) -> (r: BufferUpdate)
    requires
        data.wf(),
        current matches Some(b) ==> b.elements * b.stride <= usize::MAX,
        start * stride + data.spec_stride() * data.spec_elements() <= usize::MAX,
    ensures
        r == spec_update(current, start as int, stride as int, data.spec_stride(), data.spec_elements(), data.spec_stride() * data.spec_elements()),
{
    match current {
        None => BufferUpdate::Create(BufferShape { elements: data.elements(), stride: data.stride() }),
        Some(b) => {
            let offset = start * stride;
            let resize_to = if offset + data.get_size() > b.size() {
                Some(data.get_size())
            } else {
                None
            };
            BufferUpdate::Write { resize_to, offset }
        },
    }
}

proof fn lemma_after_fits(current: Option<BufferShape>, start: int, stride: int, data: &BufferMemory)
    requires
        data.wf(),
        current matches Some(b) ==> b.elements * b.stride <= usize::MAX,
        resize_fits(current, data.spec_stride() * data.spec_elements()),
        0 <= start * stride <= usize::MAX,
    ensures
        spec_after(
            current,
            spec_update(current, start, stride, data.spec_stride(), data.spec_elements(), data.spec_stride() * data.spec_elements()),
        ) matches Some(b) ==> b.elements * b.stride <= usize::MAX,
{
    let size = data.spec_stride() * data.spec_elements();
    data.lemma_size_fits();
    match current {
        None => {
            let e = data.spec_elements() as usize;
            let st = data.spec_stride() as usize;
            assert(e * st == data.spec_stride() * data.spec_elements()) by (nonlinear_arith)
                requires
                    e == data.spec_elements(),
                    st == data.spec_stride(),
            ;
        },
        Some(b) => {
            if start * stride + size > b.elements * b.stride {
                if size == 0 {
                    assert(1 * b.stride == b.stride);
                }
            }
        },
    }
}

impl DynamicMesh {
    pub closed spec fn spec_vertex_buffer(&self) -> Option<BufferShape> {
        self.vertex_buffer
    }

    pub closed spec fn spec_index_buffer(&self) -> Option<BufferShape> {
        self.index_buffer
    }

    pub closed spec fn spec_vertex_structure_size(&self) -> usize {
        self.vertex_structure_size
    }

    pub closed spec fn spec_index_type(&self) -> IndexBufferType {
        self.index_type
    }

    /// The buffers' sizes fit in memory.
    pub closed spec fn wf(&self) -> bool {
        &&& self.vertex_buffer matches Some(b) ==> b.elements * b.stride <= usize::MAX
        &&& self.index_buffer matches Some(b) ==> b.elements * b.stride <= usize::MAX
    }

    /// A mesh without buffers, with vertices of `vertex_structure_size` bytes and 32-bit
    /// indices.
    pub fn new(vertex_structure_size: usize) -> (r: DynamicMesh)
        ensures
            r.wf(),
            r.spec_vertex_buffer() is None,
            r.spec_index_buffer() is None,
            r.spec_vertex_structure_size() == vertex_structure_size,
            r.spec_index_type() == IndexBufferType::Uint32,
    {
        DynamicMesh { vertex_buffer: None, index_buffer: None, vertex_structure_size, index_type: IndexBufferType::Uint32 }
    }

    pub fn index_type(&self) -> (r: IndexBufferType)
        ensures
            r == self.spec_index_type(),
    {
        self.index_type
    }

    pub fn vertex_buffer(&self) -> (r: Option<BufferShape>)
        ensures
            r == self.spec_vertex_buffer(),
    {
        self.vertex_buffer
    }

    pub fn index_buffer(&self) -> (r: Option<BufferShape>)
        ensures
            r == self.spec_index_buffer(),
    {
        self.index_buffer
    }

    /// The number of indices to draw: the index buffer's element count, else the vertex
    /// buffer's, else none.
    pub open spec fn spec_index_count(&self) -> usize {
        match self.spec_index_buffer() {
            Some(i) => i.elements,
            None => match self.spec_vertex_buffer() {
                Some(v) => v.elements,
                None => 0,
            },
        }
    }

    pub fn index_count(&self) -> (r: usize)
        ensures
            r == self.spec_index_count(),
    {
        match &self.index_buffer {
            None => match &self.vertex_buffer {
                None => 0,
                Some(vtx) => vtx.elements,
            },
            Some(idx) => idx.elements,
        }
    }

    /// Records that `vertex_data` is written from vertex `start_vertex` on and returns what the
    /// vertex buffer needs; the data's stride must be the mesh's vertex size.
    pub fn set_vertices(&mut self, start_vertex: usize, vertex_data: &BufferMemory) -> (r: Result<BufferUpdate, MeshError>)
        requires
            old(self).wf(),
            vertex_data.wf(),
            start_vertex * old(self).spec_vertex_structure_size() + vertex_data.spec_stride()
                * vertex_data.spec_elements() <= usize::MAX,
            resize_fits(old(self).spec_vertex_buffer(), vertex_data.spec_stride() * vertex_data.spec_elements()),
        ensures
            final(self).wf(),
            final(self).spec_vertex_structure_size() == old(self).spec_vertex_structure_size(),
            final(self).spec_index_buffer() == old(self).spec_index_buffer(),
            final(self).spec_index_type() == old(self).spec_index_type(),
            vertex_data.spec_stride() != old(self).spec_vertex_structure_size() ==> (r == Err::<BufferUpdate, MeshError>(MeshError::VertexStrideMismatch {
                expected: old(self).spec_vertex_structure_size(),
                actual: vertex_data.spec_stride() as usize,
            }) && final(self).spec_vertex_buffer() == old(self).spec_vertex_buffer()),
            vertex_data.spec_stride() == old(self).spec_vertex_structure_size() ==> (r matches Ok(u) && u
                == spec_update(old(self).spec_vertex_buffer(), start_vertex as int, old(self).spec_vertex_structure_size() as int, vertex_data.spec_stride(), vertex_data.spec_elements(), vertex_data.spec_stride() * vertex_data.spec_elements())
                && final(self).spec_vertex_buffer() == spec_after(old(self).spec_vertex_buffer(), u)),
    {
        if vertex_data.stride() != self.vertex_structure_size {
            return Err(MeshError::VertexStrideMismatch { expected: self.vertex_structure_size, actual: vertex_data.stride() });
        }
        let update = plan_update(self.vertex_buffer, start_vertex, self.vertex_structure_size, vertex_data);
        proof {
            lemma_after_fits(self.vertex_buffer, start_vertex as int, self.vertex_structure_size as int, vertex_data);
        }
        self.vertex_buffer = apply_update(self.vertex_buffer, update);
        Ok(update)
    }

    /// Records that `vertex_data` is written from vertex `start_vertex` on and `index_data`
    /// from index `start_index` on, and returns what the vertex and the index buffers need.
    /// The index type follows the stride of `index_data`; a stride other than 1, 2 or 4 is
    /// refused after the vertices were taken in.
    pub fn set_indexed_vertices(
        &mut self,
        start_vertex: usize,
        vertex_data: &BufferMemory,
        start_index: usize,
        index_data: &BufferMemory,
    ) -> (r: Result<(BufferUpdate, BufferUpdate), MeshError>)
        requires
            old(self).wf(),
            vertex_data.wf(),
            index_data.wf(),
            start_vertex * old(self).spec_vertex_structure_size() + vertex_data.spec_stride()
                * vertex_data.spec_elements() <= usize::MAX,
            resize_fits(old(self).spec_vertex_buffer(), vertex_data.spec_stride() * vertex_data.spec_elements()),
            start_index * 4 + index_data.spec_stride() * index_data.spec_elements() <= usize::MAX,
            resize_fits(old(self).spec_index_buffer(), index_data.spec_stride() * index_data.spec_elements()),
        ensures
            final(self).wf(),
            final(self).spec_vertex_structure_size() == old(self).spec_vertex_structure_size(),
            vertex_data.spec_stride() != old(self).spec_vertex_structure_size() ==> (r == Err::<(BufferUpdate, BufferUpdate), MeshError>(MeshError::VertexStrideMismatch {
                expected: old(self).spec_vertex_structure_size(),
                actual: vertex_data.spec_stride() as usize,
            }) && final(self).spec_vertex_buffer() == old(self).spec_vertex_buffer()
                && final(self).spec_index_buffer() == old(self).spec_index_buffer()
                && final(self).spec_index_type() == old(self).spec_index_type()),
            vertex_data.spec_stride() == old(self).spec_vertex_structure_size() ==> ({
                let vu = spec_update(old(self).spec_vertex_buffer(), start_vertex as int, old(self).spec_vertex_structure_size() as int, vertex_data.spec_stride(), vertex_data.spec_elements(), vertex_data.spec_stride() * vertex_data.spec_elements());
                &&& final(self).spec_vertex_buffer() == spec_after(old(self).spec_vertex_buffer(), vu)
                &&& match IndexBufferType::spec_from_stride(index_data.spec_stride()) {
                    None => r == Err::<(BufferUpdate, BufferUpdate), MeshError>(MeshError::UnsupportedIndexSize(index_data.spec_stride() as usize))
                        && final(self).spec_index_buffer() == old(self).spec_index_buffer()
                        && final(self).spec_index_type() == old(self).spec_index_type(),
                    Some(t) => {
                        let iu = spec_update(old(self).spec_index_buffer(), start_index as int, t.spec_size() as int, index_data.spec_stride(), index_data.spec_elements(), index_data.spec_stride() * index_data.spec_elements());
                        &&& r == Ok::<(BufferUpdate, BufferUpdate), MeshError>((vu, iu))
                        &&& final(self).spec_index_type() == t
                        &&& final(self).spec_index_buffer() == spec_after(old(self).spec_index_buffer(), iu)
                    },
                }
            }),
    {
        let vertex_update = match self.set_vertices(start_vertex, vertex_data) {
            Ok(u) => u,
            Err(e) => {
                return Err(e);
            },
        };
        let index_type = match IndexBufferType::from_stride(index_data.stride()) {
            Some(t) => t,
            None => {
                return Err(MeshError::UnsupportedIndexSize(index_data.stride()));
            },
        };
        self.index_type = index_type;
        let index_size = index_type.size();
        let update = plan_update(self.index_buffer, start_index, index_size, index_data);
        proof {
            lemma_after_fits(self.index_buffer, start_index as int, index_size as int, index_data);
        }
        self.index_buffer = apply_update(self.index_buffer, update);
        Ok((vertex_update, update))
    }

    /// Makes room for `vertex_count` vertices: creates the vertex buffer with that many
    /// vertices of the mesh's vertex size, or resizes the existing one.
    pub fn reserve_vertices(&mut self, vertex_count: usize) -> (r: BufferUpdate)
        requires
            old(self).wf(),
            vertex_count * old(self).spec_vertex_structure_size() <= usize::MAX,
            old(self).spec_vertex_buffer() matches Some(b) ==> vertex_count * b.stride <= usize::MAX,
        ensures
            final(self).wf(),
            final(self).spec_vertex_structure_size() == old(self).spec_vertex_structure_size(),
            final(self).spec_index_buffer() == old(self).spec_index_buffer(),
            final(self).spec_index_type() == old(self).spec_index_type(),
            r == spec_reserve(old(self).spec_vertex_buffer(), vertex_count, old(self).spec_vertex_structure_size()),
            final(self).spec_vertex_buffer() == spec_after(old(self).spec_vertex_buffer(), r),
    {
        let update = reserve(self.vertex_buffer, vertex_count, self.vertex_structure_size);
        self.vertex_buffer = apply_update(self.vertex_buffer, update);
        update
    }

    /// Makes room for `index_count` indices: creates the index buffer with that many
    /// elements of the mesh's vertex size, or resizes the existing one.
    pub fn reserve_indices(&mut self, index_count: usize) -> (r: BufferUpdate)
        requires
            old(self).wf(),
            index_count * old(self).spec_vertex_structure_size() <= usize::MAX,
            old(self).spec_index_buffer() matches Some(b) ==> index_count * b.stride <= usize::MAX,
        ensures
            final(self).wf(),
            final(self).spec_vertex_structure_size() == old(self).spec_vertex_structure_size(),
            final(self).spec_vertex_buffer() == old(self).spec_vertex_buffer(),
            final(self).spec_index_type() == old(self).spec_index_type(),
            r == spec_reserve(old(self).spec_index_buffer(), index_count, old(self).spec_vertex_structure_size()),
            final(self).spec_index_buffer() == spec_after(old(self).spec_index_buffer(), r),
    {
        let update = reserve(self.index_buffer, index_count, self.vertex_structure_size);
        self.index_buffer = apply_update(self.index_buffer, update);
        update
    }
}

/// Making room for `count` elements: create a buffer of `count` elements of `stride` bytes
/// when there is none, else resize the one there is (a write of nothing at offset zero).
pub open spec fn spec_reserve(current: Option<BufferShape>, count: usize, stride: usize) -> BufferUpdate {
    match current {
        None => BufferUpdate::Create(BufferShape { elements: count, stride }),
        Some(_) => BufferUpdate::Write { resize_to: Some(count), offset: 0 },
    }
}

fn reserve(current: Option<BufferShape>, count: usize, stride: usize) -> (r: BufferUpdate)
    ensures
        r == spec_reserve(current, count, stride),
{
    match current {
        None => BufferUpdate::Create(BufferShape { elements: count, stride }),
        Some(_) => BufferUpdate::Write { resize_to: Some(count), offset: 0 },
    }
}

/// The draw that a command buffer records for a mesh.
#[derive(Clone, Copy, Debug, PartialEq, Eq, Structural)]
pub enum MeshDraw {
    /// The mesh has no vertex buffer: nothing is drawn.
    Nothing,
    /// A draw of vertices, for a mesh without index buffer.
    Vertices { vertex_count: u32, instance_count: u32, first_vertex: u32, first_instance: u32 },
    /// A draw of indices of the given type.
    Indexed {
        index_type: IndexBufferType,
        index_count: u32,
        instance_count: u32,
        first_index: u32,
        vertex_offset: i32,
        first_instance: u32,
    },
}

impl DynamicMesh {
    /// Draws the whole mesh once: all its indices when it has an index buffer, else as many
    /// vertices as it counts (the count is taken modulo 2^32).
    pub fn draw_whole(&self) -> (r: MeshDraw)
        ensures
            r == (match (self.spec_vertex_buffer(), self.spec_index_buffer()) {
                (None, _) => MeshDraw::Nothing,
                (Some(_), None) => MeshDraw::Vertices {
                    vertex_count: self.spec_index_count() as u32,
                    instance_count: 1,
                    first_vertex: 0,
                    first_instance: 0,
                },
                (Some(_), Some(_)) => MeshDraw::Indexed {
                    index_type: self.spec_index_type(),
                    index_count: self.spec_index_count() as u32,
                    instance_count: 1,
                    first_index: 0,
                    vertex_offset: 0,
                    first_instance: 0,
                },
            }),
    {
        if self.vertex_buffer.is_none() {
            return MeshDraw::Nothing;
        }
        let count = self.index_count() as u32;
        match self.index_buffer {
            None => MeshDraw::Vertices { vertex_count: count, instance_count: 1, first_vertex: 0, first_instance: 0 },
            Some(_) => MeshDraw::Indexed {
                index_type: self.index_type,
                index_count: count,
                instance_count: 1,
                first_index: 0,
                vertex_offset: 0,
                first_instance: 0,
            },
        }
    }

    /// Draws part of the mesh: `index_count` indices from `first_index` with vertices shifted
    /// by `vertex_offset` (the offset is reinterpreted as signed) when it has an index buffer,
    /// else `index_count` vertices from vertex `vertex_offset`.
    pub fn draw_range(
        &self,
        first_index: u32,
        vertex_offset: u32,
        index_count: u32,
        instance_count: u32,
        first_instance: u32,
    ) -> (r: MeshDraw)
        ensures
            r == (match (self.spec_vertex_buffer(), self.spec_index_buffer()) {
                (None, _) => MeshDraw::Nothing,
                (Some(_), None) => MeshDraw::Vertices {
                    vertex_count: index_count,
                    instance_count,
                    first_vertex: vertex_offset,
                    first_instance,
                },
                (Some(_), Some(_)) => MeshDraw::Indexed {
                    index_type: self.spec_index_type(),
                    index_count,
                    instance_count,
                    first_index,
                    vertex_offset: vertex_offset as i32,
                    first_instance,
                },
            }),
    {
        if self.vertex_buffer.is_none() {
            return MeshDraw::Nothing;
        }
        match self.index_buffer {
            None => MeshDraw::Vertices { vertex_count: index_count, instance_count, first_vertex: vertex_offset, first_instance },
            Some(_) => MeshDraw::Indexed {
                index_type: self.index_type,
                index_count,
                instance_count,
                first_index,
                vertex_offset: vertex_offset as i32,
                first_instance,
            },
        }
    }
}

} // verus!
