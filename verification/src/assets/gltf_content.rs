//! The meshes and images of a glTF document: which accessors can be read safely, the vertex
//! and index bytes of each primitive, and where each image's bytes lie.
use vstd::prelude::*;
use gltf::mesh::util::ReadIndices;
use crate::assets::gltf::{
    decode_embedded_image, document_bytes, document_slice, glb_length_too_short, lemma_document_bytes, opt_bytes,
    spec_decode_embedded, DecodedImage, GltfError, GltfPrimitiveData,
};
use crate::gfx::buffer::BufferMemory;
use crate::gfx::mesh::IndexBufferType;

verus! {

/// A buffer view as a document declares it: its buffer, where it starts, how long it is and,
/// when the document gives a nonzero one, the stride between its items.
#[derive(Clone, Copy, Debug)]
pub struct ViewLayout {
    pub buffer: usize,
    pub offset: usize,
    pub length: usize,
    pub stride: Option<usize>,
}

/// An accessor as a document declares it: the size of one item (component size times
/// components), its component type as a GL enum, its item count, its offset in its view and
/// its view.
#[derive(Clone, Copy, Debug)]
pub struct AccessorLayout {
    pub size: usize,
    pub component: u32,
    pub count: usize,
    pub offset: usize,
    pub view: Option<usize>,
}

/// The sparse part of an accessor: how many items it replaces, where their indices lie (view,
/// offset, size of one index) and where their values lie (view, offset).
#[derive(Clone, Copy, Debug)]
pub struct SparseLayout {
    pub count: usize,
    pub index_view: usize,
    pub index_offset: usize,
    pub index_size: usize,
    pub value_view: usize,
    pub value_offset: usize,
}

/// The accessors a primitive reads its positions and its indices from.
#[derive(Clone, Copy, Debug)]
pub struct PrimitiveAccessors {
    pub positions: Option<usize>,
    pub indices: Option<usize>,
}

/// The buffer views of the document read from `bytes`, in document order.
pub uninterp spec fn gltf_view_layouts(bytes: Seq<u8>) -> Option<Seq<ViewLayout>>;

/// The accessors of the document read from `bytes`, in document order.
pub uninterp spec fn gltf_accessor_layouts(bytes: Seq<u8>) -> Option<Seq<AccessorLayout>>;

/// The sparse part of each accessor of the document read from `bytes`.
pub uninterp spec fn gltf_sparse_layouts(bytes: Seq<u8>) -> Option<Seq<Option<SparseLayout>>>;

/// For each mesh of the document read from `bytes`, the accessors of each of its primitives.
pub uninterp spec fn gltf_mesh_accessors(bytes: Seq<u8>) -> Option<Seq<Seq<PrimitiveAccessors>>>;

pub open spec fn nested_view<T>(v: Seq<Vec<T>>) -> Seq<Seq<T>> {
    v.map_values(|m: Vec<T>| m@)
}

/// Calls `gltf::Gltf::from_slice` and lists the buffer views of the document; trusted to give
/// `gltf_view_layouts(bytes)`.
#[verifier::external_body]
fn view_layouts(bytes: &[u8]) -> (r: Option<Vec<ViewLayout>>)
    requires
        !glb_length_too_short(bytes@),
    ensures
        match r {
            Some(v) => gltf_view_layouts(bytes@) == Some(v@),
            None => gltf_view_layouts(bytes@) is None,
        },
{
    let doc = gltf::Gltf::from_slice(bytes).ok()?.document;
    Some(doc.views().map(|v| ViewLayout {
        buffer: v.buffer().index(),
        offset: v.offset(),
        length: v.length(),
        stride: v.stride(),
    }).collect())
}

/// Calls `gltf::Gltf::from_slice` and lists the accessors of the document; trusted to give
/// `gltf_accessor_layouts(bytes)`.
#[verifier::external_body]
fn accessor_layouts(bytes: &[u8]) -> (r: Option<Vec<AccessorLayout>>)
    requires
        !glb_length_too_short(bytes@),
    ensures
        match r {
            Some(v) => gltf_accessor_layouts(bytes@) == Some(v@),
            None => gltf_accessor_layouts(bytes@) is None,
        },
{
    let doc = gltf::Gltf::from_slice(bytes).ok()?.document;
    Some(doc.accessors().map(|a| AccessorLayout {
        size: a.size(),
        component: a.data_type().as_gl_enum(),
        count: a.count(),
        offset: a.offset(),
        view: a.view().map(|v| v.index()),
    }).collect())
}

/// Calls `gltf::Gltf::from_slice` and lists the sparse part of each accessor of the document;
/// trusted to give `gltf_sparse_layouts(bytes)`.
#[verifier::external_body]
fn sparse_layouts(bytes: &[u8]) -> (r: Option<Vec<Option<SparseLayout>>>)
    requires
        !glb_length_too_short(bytes@),
    ensures
        match r {
            Some(v) => gltf_sparse_layouts(bytes@) == Some(v@),
            None => gltf_sparse_layouts(bytes@) is None,
        },
{
    let doc = gltf::Gltf::from_slice(bytes).ok()?.document;
    Some(doc.accessors().map(|a| a.sparse().map(|s| SparseLayout {
        count: s.count(),
        index_view: s.indices().view().index(),
        index_offset: s.indices().offset(),
        index_size: s.indices().index_type().size(),
        value_view: s.values().view().index(),
        value_offset: s.values().offset(),
    })).collect())
}

/// Calls `gltf::Gltf::from_slice` and lists, mesh by mesh, the position and index accessors of
/// each primitive; trusted to give `gltf_mesh_accessors(bytes)`.
#[verifier::external_body]
fn mesh_accessors(bytes: &[u8]) -> (r: Option<Vec<Vec<PrimitiveAccessors>>>)
    requires
        !glb_length_too_short(bytes@),
    ensures
        match r {
            Some(v) => gltf_mesh_accessors(bytes@) == Some(nested_view(v@)),
            None => gltf_mesh_accessors(bytes@) is None,
        },
{
    let doc = gltf::Gltf::from_slice(bytes).ok()?.document;
    Some(doc.meshes().map(|m| m.primitives().map(|p| PrimitiveAccessors {
        positions: p.get(&gltf::Semantic::Positions).map(|a| a.index()),
        indices: p.indices().map(|a| a.index()),
    }).collect()).collect())
}

/// The stride of a view for items of `size` bytes: the declared one, else `size`.
pub open spec fn stride_for(v: ViewLayout, size: int) -> int {
    match v.stride {
        Some(s) => s as int,
        None => size,
    }
}

/// `count` items of `size` bytes, a stride apart from `offset` on, in a view the document
/// declares: the view's end and the items' end fit in a `usize`, there is at least one item and
/// the stride is no shorter than an item.
pub open spec fn span_readable(views: Seq<ViewLayout>, view: usize, offset: usize, count: usize, size: int) -> bool {
    &&& view < views.len()
    &&& views[view as int].offset + views[view as int].length <= usize::MAX
    &&& stride_for(views[view as int], size) >= size
    &&& count >= 1
    &&& offset + stride_for(views[view as int], size) * (count - 1) + size <= usize::MAX
}

/// An accessor can be read as items of `size` bytes: a plain accessor's items are that size,
/// and every span it reads from is readable; a sparse one has at most `u32::MAX` items.
pub open spec fn accessor_readable(a: AccessorLayout, sparse: Option<SparseLayout>, views: Seq<ViewLayout>, size: int) -> bool {
    &&& (a.view matches Some(v) ==> span_readable(views, v, a.offset, a.count, size))
    &&& match sparse {
        None => a.size == size,
        Some(s) => a.count <= u32::MAX && span_readable(views, s.index_view, s.index_offset, s.count, s.index_size as int)
            && span_readable(views, s.value_view, s.value_offset, s.count, size),
    }
}

/// The size of an index of this component type: unsigned bytes, shorts and ints only.
pub open spec fn index_item_size(component: u32) -> Option<int> {
    if component == 5121 {
        Some(1)
    } else if component == 5123 {
        Some(2)
    } else if component == 5125 {
        Some(4)
    } else {
        None
    }
}

pub open spec fn accessor_ok(layouts: Seq<AccessorLayout>, sparse: Seq<Option<SparseLayout>>, views: Seq<ViewLayout>, k: usize, size: int) -> bool {
    k < layouts.len() && k < sparse.len() && accessor_readable(layouts[k as int], sparse[k as int], views, size)
}

/// The accessors of a primitive can be read: positions as three 4-byte floats, indices as
/// unsigned integers of their component type.
pub open spec fn accessors_ok(p: PrimitiveAccessors, layouts: Seq<AccessorLayout>, sparse: Seq<Option<SparseLayout>>, views: Seq<ViewLayout>) -> bool {
    &&& (p.positions matches Some(k) ==> accessor_ok(layouts, sparse, views, k, 12))
    &&& (p.indices matches Some(k) ==> k < layouts.len() && match index_item_size(layouts[k as int].component) {
        Some(z) => accessor_ok(layouts, sparse, views, k, z),
        None => false,
    })
}

/// Primitive `primitive` of mesh `mesh` of the document read from `bytes` exists and its
/// accessors can be read.
pub open spec fn primitive_readable(bytes: Seq<u8>, mesh: int, primitive: int) -> bool {
    match (gltf_mesh_accessors(bytes), gltf_accessor_layouts(bytes), gltf_sparse_layouts(bytes), gltf_view_layouts(bytes)) {
        (Some(m), Some(l), Some(s), Some(v)) => 0 <= mesh < m.len() && 0 <= primitive < m[mesh].len()
            && accessors_ok(m[mesh][primitive], l, s, v),
        _ => false,
    }
}

fn span_ok(views: &Vec<ViewLayout>, view: usize, offset: usize, count: usize, size: usize) -> (r: bool)
    ensures
        r == span_readable(views@, view, offset, count, size as int),
{
    if view >= views.len() || count == 0 {
        return false;
    }
    let v = views[view];
    let stride = match v.stride {
        Some(s) => s,
        None => size,
    };
    if v.offset > usize::MAX - v.length || stride < size {
        return false;
    }
    match stride.checked_mul(count - 1) {
        None => {
            assert(stride * (count - 1) > usize::MAX);
            assert(offset + stride * (count - 1) + size > usize::MAX);
            false
        },
        Some(p) => match offset.checked_add(p) {
            None => false,
            Some(q) => q.checked_add(size).is_some(),
        },
    }
}

fn accessor_check(layouts: &Vec<AccessorLayout>, sparse: &Vec<Option<SparseLayout>>, views: &Vec<ViewLayout>, k: usize, size: usize) -> (r: bool)
    ensures
        r == accessor_ok(layouts@, sparse@, views@, k, size as int),
{
    if k >= layouts.len() || k >= sparse.len() {
        return false;
    }
    let a = layouts[k];
    let base = match a.view {
        Some(v) => span_ok(views, v, a.offset, a.count, size),
        None => true,
    };
    if !base {
        return false;
    }
    match sparse[k] {
        None => a.size == size,
        Some(s) => a.count <= 0xffff_ffffusize && span_ok(views, s.index_view, s.index_offset, s.count, s.index_size)
            && span_ok(views, s.value_view, s.value_offset, s.count, size),
    }
}

fn index_size_of(component: u32) -> (r: Option<usize>)
    ensures
        match index_item_size(component) {
            Some(z) => r == Some(z as usize),
            None => r is None,
        },
{
    if component == 5121 {
        Some(1)
    } else if component == 5123 {
        Some(2)
    } else if component == 5125 {
        Some(4)
    } else {
        None
    }
}

fn accessors_check(p: PrimitiveAccessors, layouts: &Vec<AccessorLayout>, sparse: &Vec<Option<SparseLayout>>, views: &Vec<ViewLayout>) -> (r: bool)
    ensures
        r == accessors_ok(p, layouts@, sparse@, views@),
{
    let positions = match p.positions {
        Some(k) => accessor_check(layouts, sparse, views, k, 12),
        None => true,
    };
    if !positions {
        return false;
    }
    match p.indices {
        None => true,
        Some(k) => {
            if k >= layouts.len() {
                return false;
            }
            match index_size_of(layouts[k].component) {
                None => false,
                Some(z) => accessor_check(layouts, sparse, views, k, z),
            }
        },
    }
}

/// The indices of a primitive, as their component type gives them.
#[derive(Clone, Debug)]
pub enum IndexValues {
    U8(Vec<u8>),
    U16(Vec<u16>),
    U32(Vec<u32>),
}

/// The positions of a primitive, each coordinate as the bit pattern of its 4-byte float, three
/// per vertex; and its indices, when it has some.
#[derive(Clone, Debug)]
pub struct PrimitiveValues {
    pub positions: Vec<u32>,
    pub indices: Option<IndexValues>,
}

pub enum SpecIndexValues {
    U8(Seq<u8>),
    U16(Seq<u16>),
    U32(Seq<u32>),
}

pub struct SpecPrimitiveValues {
    pub positions: Seq<u32>,
    pub indices: Option<SpecIndexValues>,
}

impl PrimitiveValues {
    pub open spec fn spec_view(self) -> SpecPrimitiveValues {
        SpecPrimitiveValues {
            positions: self.positions@,
            indices: match self.indices {
                None => None,
                Some(IndexValues::U8(v)) => Some(SpecIndexValues::U8(v@)),
                Some(IndexValues::U16(v)) => Some(SpecIndexValues::U16(v@)),
                Some(IndexValues::U32(v)) => Some(SpecIndexValues::U32(v@)),
            },
        }
    }
}

pub open spec fn opt_values(o: Option<PrimitiveValues>) -> Option<SpecPrimitiveValues> {
    match o {
        Some(v) => Some(v.spec_view()),
        None => None,
    }
}

/// What the primitive reader of `gltf` gives for primitive `primitive` of mesh `mesh` of the
/// document read from `bytes`, with `buffers` as the document's buffers: the positions, or
/// `None` when the primitive has none that can be read, and the indices.
pub uninterp spec fn gltf_primitive_values(bytes: Seq<u8>, buffers: Seq<Seq<u8>>, mesh: usize, primitive: usize) -> Option<SpecPrimitiveValues>;

/// Calls `gltf::Gltf::from_slice`, then `Primitive::reader` on the primitive with the given
/// buffers, and `read_positions` and `read_indices`; trusted to give `gltf_primitive_values`,
/// with three coordinates per position. The reader is only used on accessors that
/// `primitive_readable` admits: on others `gltf` subtracts one from a zero count, overflows an
/// offset, reads items shorter than their size, or reaches an `unreachable!`. The memory the
/// values take is what the accessors' counts ask for; nothing here bounds it.
#[verifier::external_body]
fn read_primitive(bytes: &[u8], buffers: &Vec<Vec<u8>>, mesh: usize, primitive: usize) -> (r: Option<PrimitiveValues>)
    requires
        !glb_length_too_short(bytes@),
        primitive_readable(bytes@, mesh as int, primitive as int),
    ensures
        opt_values(r) == gltf_primitive_values(bytes@, nested_view(buffers@), mesh, primitive),
        r matches Some(v) ==> v.positions@.len() % 3 == 0,
{
    let doc = gltf::Gltf::from_slice(bytes).ok()?.document;
    let found = doc.meshes().nth(mesh)?.primitives().nth(primitive)?;
    let reader = found.reader(|b| buffers.get(b.index()).map(|d| d.as_slice()));
    let positions = reader.read_positions()?.flatten().map(|c| c.to_bits()).collect();
    let indices = reader.read_indices().map(|i| match i {
        ReadIndices::U8(i) => IndexValues::U8(i.collect()),
        ReadIndices::U16(i) => IndexValues::U16(i.collect()),
        ReadIndices::U32(i) => IndexValues::U32(i.collect()),
    });
    Some(PrimitiveValues { positions, indices })
}

/// The little-endian bytes of a 16-bit value.
pub open spec fn le_u16(x: u16) -> Seq<u8> {
    seq![(x % 256) as u8, (x / 256) as u8]
}

/// The little-endian bytes of a 32-bit value.
pub open spec fn le_u32(x: u32) -> Seq<u8> {
    seq![(x % 256) as u8, ((x / 256) % 256) as u8, ((x / 65536) % 256) as u8, (x / 16777216) as u8]
}

/// The values one after the other, each as its little-endian bytes.
pub open spec fn u16s_le(s: Seq<u16>) -> Seq<u8>
    decreases s.len(),
{
    if s.len() == 0 {
        Seq::empty()
    } else {
        u16s_le(s.drop_last()) + le_u16(s.last())
    }
}

/// The values one after the other, each as its little-endian bytes.
pub open spec fn u32s_le(s: Seq<u32>) -> Seq<u8>
    decreases s.len(),
{
    if s.len() == 0 {
        Seq::empty()
    } else {
        u32s_le(s.drop_last()) + le_u32(s.last())
    }
}

fn u16s_to_le(values: &Vec<u16>) -> (r: Vec<u8>)
    ensures
        r@ == u16s_le(values@),
        r@.len() == 2 * values@.len(),
{
    let mut out: Vec<u8> = Vec::new();
    let mut i: usize = 0;
    while i < values.len()
        invariant
            i <= values.len(),
            out@ == u16s_le(values@.take(i as int)),
            out@.len() == 2 * i,
        decreases values.len() - i,
    {
        let x = values[i];
        assert(values@.take(i + 1).drop_last() =~= values@.take(i as int));
        out.push((x % 256) as u8);
        out.push((x / 256) as u8);
        assert(out@ =~= u16s_le(values@.take(i as int)) + le_u16(x));
        i = i + 1;
    }
    assert(values@.take(i as int) =~= values@);
    out
}

fn u32s_to_le(values: &Vec<u32>) -> (r: Vec<u8>)
    ensures
        r@ == u32s_le(values@),
        r@.len() == 4 * values@.len(),
{
    let mut out: Vec<u8> = Vec::new();
    let mut i: usize = 0;
    while i < values.len()
        invariant
            i <= values.len(),
            out@ == u32s_le(values@.take(i as int)),
            out@.len() == 4 * i,
        decreases values.len() - i,
    {
        let x = values[i];
        assert(values@.take(i + 1).drop_last() =~= values@.take(i as int));
        out.push((x % 256) as u8);
        out.push(((x / 256) % 256) as u8);
        out.push(((x / 65536) % 256) as u8);
        out.push((x / 16777216) as u8);
        assert(out@ =~= u32s_le(values@.take(i as int)) + le_u32(x));
        i = i + 1;
    }
    assert(values@.take(i as int) =~= values@);
    out
}

/// The primitive data that a primitive's values give: the positions as vertices of three
/// little-endian 4-byte coordinates, the indices as items of their own width, and the index
/// type that follows that width (32-bit when there are no indices).
pub open spec fn primitive_matches(p: GltfPrimitiveData, v: SpecPrimitiveValues) -> bool {
    &&& p.vertex.spec_data() == u32s_le(v.positions)
    &&& p.vertex.spec_stride() == 12
    &&& p.vertex.spec_elements() == v.positions.len() / 3
    &&& match v.indices {
        None => p.index is None && p.index_type == IndexBufferType::Uint32,
        Some(SpecIndexValues::U8(s)) => p.index matches Some(i) && i.spec_data() == s && i.spec_stride() == 1
            && i.spec_elements() == s.len() && p.index_type == IndexBufferType::Uint8,
        Some(SpecIndexValues::U16(s)) => p.index matches Some(i) && i.spec_data() == u16s_le(s)
            && i.spec_stride() == 2 && i.spec_elements() == s.len() && p.index_type == IndexBufferType::Uint16,
        Some(SpecIndexValues::U32(s)) => p.index matches Some(i) && i.spec_data() == u32s_le(s)
            && i.spec_stride() == 4 && i.spec_elements() == s.len() && p.index_type == IndexBufferType::Uint32,
    }
}

/// Lays out the values read from a primitive as vertex and index memory.
pub fn primitive_data(values: PrimitiveValues) -> (r: GltfPrimitiveData)
    requires
        values.positions@.len() % 3 == 0,
    ensures
        primitive_matches(r, values.spec_view()),
{
    let ghost v = values.spec_view();
    let vertex_bytes = u32s_to_le(&values.positions);
    let count = values.positions.len() / 3;
    assert(vertex_bytes@.len() == 12 * count) by (nonlinear_arith)
        requires
            vertex_bytes@.len() == 4 * values.positions@.len(),
            values.positions@.len() % 3 == 0,
            count == values.positions@.len() / 3,
    ;
    let vertex = BufferMemory::from_bytes(vertex_bytes, 12, count);
    match values.indices {
        None => GltfPrimitiveData { index: None, vertex, index_type: IndexBufferType::Uint32 },
        Some(IndexValues::U8(s)) => {
            let n = s.len();
            GltfPrimitiveData { index: Some(BufferMemory::from_bytes(s, 1, n)), vertex, index_type: IndexBufferType::Uint8 }
        },
        Some(IndexValues::U16(s)) => {
            let n = s.len();
            let bytes = u16s_to_le(&s);
            GltfPrimitiveData {
                index: Some(BufferMemory::from_bytes(bytes, 2, n)),
                vertex,
                index_type: IndexBufferType::Uint16,
            }
        },
        Some(IndexValues::U32(s)) => {
            let n = s.len();
            let bytes = u32s_to_le(&s);
            GltfPrimitiveData {
                index: Some(BufferMemory::from_bytes(bytes, 4, n)),
                vertex,
                index_type: IndexBufferType::Uint32,
            }
        },
    }
}

/// All the layouts of the document read from `d` could be listed.
pub open spec fn layouts_present(d: Seq<u8>) -> bool {
    &&& gltf_mesh_accessors(d) is Some
    &&& gltf_accessor_layouts(d) is Some
    &&& gltf_sparse_layouts(d) is Some
    &&& gltf_view_layouts(d) is Some
}

/// Primitive `j` of mesh `i` can be read and has positions.
pub open spec fn primitive_loads(d: Seq<u8>, b: Seq<Seq<u8>>, i: int, j: int) -> bool {
    primitive_readable(d, i, j) && gltf_primitive_values(d, b, i as usize, j as usize) is Some
}

/// Every primitive of every mesh can be read and has positions.
pub open spec fn all_primitives_load(d: Seq<u8>, b: Seq<Seq<u8>>) -> bool {
    let m = gltf_mesh_accessors(d).unwrap();
    forall|i: int, j: int| 0 <= i < m.len() && 0 <= j < m[i].len() ==> #[trigger] primitive_loads(d, b, i, j)
}

/// The primitives of mesh `i`, one for each primitive the document lists, in order.
pub open spec fn mesh_matches(mesh: Seq<GltfPrimitiveData>, d: Seq<u8>, b: Seq<Seq<u8>>, i: int) -> bool {
    let m = gltf_mesh_accessors(d).unwrap();
    &&& mesh.len() == m[i].len()
    &&& forall|j: int| 0 <= j < m[i].len() ==> primitive_matches(#[trigger] mesh[j],
        gltf_primitive_values(d, b, i as usize, j as usize).unwrap())
}

/// What loading the meshes of the document read from `d` with buffers `b` gives.
pub open spec fn meshes_result(d: Seq<u8>, b: Seq<Seq<u8>>, r: Result<Vec<Vec<GltfPrimitiveData>>, GltfError>) -> bool {
    if !layouts_present(d) {
        r matches Err(GltfError::InvalidDocument)
    } else if !all_primitives_load(d, b) {
        r matches Err(GltfError::InvalidPrimitive)
    } else {
        r matches Ok(meshes) && meshes@.len() == gltf_mesh_accessors(d).unwrap().len()
            && forall|i: int| 0 <= i < meshes@.len() ==> mesh_matches((#[trigger] meshes@[i])@, d, b, i)
    }
}

#[verifier::loop_isolation(false)]
fn load_mesh(
    d: &[u8],
    buffers: &Vec<Vec<u8>>,
    prims: &Vec<PrimitiveAccessors>,
    layouts: &Vec<AccessorLayout>,
    sparse: &Vec<Option<SparseLayout>>,
    views: &Vec<ViewLayout>,
    i: usize,
) -> (r: Result<Vec<GltfPrimitiveData>, GltfError>)
    requires
        !glb_length_too_short(d@),
        gltf_mesh_accessors(d@) matches Some(m) && i < m.len() && m[i as int] == prims@,
        gltf_accessor_layouts(d@) == Some(layouts@),
        gltf_sparse_layouts(d@) == Some(sparse@),
        gltf_view_layouts(d@) == Some(views@),
    ensures
        match r {
            Ok(mesh) => mesh_matches(mesh@, d@, nested_view(buffers@), i as int)
                && forall|j: int| 0 <= j < prims@.len() ==> #[trigger] primitive_loads(d@, nested_view(buffers@), i as int, j),
            Err(e) => e == GltfError::InvalidPrimitive
                && exists|j: int| 0 <= j < prims@.len() && !#[trigger] primitive_loads(d@, nested_view(buffers@), i as int, j),
        },
{
    let ghost b = nested_view(buffers@);
    let mut out: Vec<GltfPrimitiveData> = Vec::new();
    let mut j: usize = 0;
    while j < prims.len()
        invariant
            j <= prims@.len(),
            out@.len() == j,
            forall|k: int| 0 <= k < j ==> primitive_loads(d@, b, i as int, k),
            forall|k: int| 0 <= k < j ==> primitive_matches(#[trigger] out@[k],
                gltf_primitive_values(d@, b, i as usize, k as usize).unwrap()),
        decreases prims@.len() - j,
    {
        if !accessors_check(prims[j], layouts, sparse, views) {
            assert(!primitive_loads(d@, b, i as int, j as int));
            return Err(GltfError::InvalidPrimitive);
        }
        match read_primitive(d, buffers, i, j) {
            None => {
                assert(!primitive_loads(d@, b, i as int, j as int));
                return Err(GltfError::InvalidPrimitive);
            },
            Some(values) => {
                let data = primitive_data(values);
                out.push(data);
            },
        }
        j = j + 1;
    }
    Ok(out)
}

/// Reads the vertices and indices of every primitive of every mesh of the document whose bytes
/// are `bytes` (see `document_bytes`), with `buffers` as the document's buffers.
#[verifier::loop_isolation(false)]
pub fn get_meshes(bytes: &[u8], buffers: &Vec<Vec<u8>>) -> (r: Result<Vec<Vec<GltfPrimitiveData>>, GltfError>)
    ensures
        glb_length_too_short(bytes@) ==> r matches Err(GltfError::InvalidDocument),
        !glb_length_too_short(bytes@) ==> meshes_result(document_bytes(bytes@), nested_view(buffers@), r),
{
    let d = match document_slice(bytes) {
        Ok(d) => d,
        Err(e) => return Err(e),
    };
    proof {
        lemma_document_bytes(bytes@);
    }
    let ghost b = nested_view(buffers@);
    let meshes = mesh_accessors(d);
    let layouts = accessor_layouts(d);
    let sparse = sparse_layouts(d);
    let views = view_layouts(d);
    let (meshes, layouts, sparse, views) = match (meshes, layouts, sparse, views) {
        (Some(m), Some(l), Some(s), Some(v)) => (m, l, s, v),
        _ => return Err(GltfError::InvalidDocument),
    };
    let ghost m = nested_view(meshes@);
    let mut out: Vec<Vec<GltfPrimitiveData>> = Vec::new();
    let mut i: usize = 0;
    while i < meshes.len()
        invariant
            i <= meshes@.len(),
            m == nested_view(meshes@),
            gltf_mesh_accessors(d@) == Some(m),
            gltf_accessor_layouts(d@) == Some(layouts@),
            gltf_sparse_layouts(d@) == Some(sparse@),
            gltf_view_layouts(d@) == Some(views@),
            !glb_length_too_short(d@),
            b == nested_view(buffers@),
            out@.len() == i,
            forall|k: int, j: int| 0 <= k < i && 0 <= j < m[k].len() ==> #[trigger] primitive_loads(d@, b, k, j),
            forall|k: int| 0 <= k < i ==> mesh_matches((#[trigger] out@[k])@, d@, b, k),
        decreases meshes@.len() - i,
    {
        assert(m[i as int] == meshes@[i as int]@);
        match load_mesh(d, buffers, &meshes[i], &layouts, &sparse, &views, i) {
            Err(e) => {
                assert(!all_primitives_load(d@, b));
                return Err(e);
            },
            Ok(mesh) => {
                out.push(mesh);
            },
        }
        i = i + 1;
    }
    Ok(out)
}

/// An image as a document declares it: the buffer view that holds it, its URI and its media
/// type, each when the document gives it.
#[derive(Clone, Debug)]
pub struct ImageDecl {
    pub view: Option<usize>,
    pub uri: Option<Vec<u8>>,
    pub mime: Option<Vec<u8>>,
}

pub struct SpecImageDecl {
    pub view: Option<usize>,
    pub uri: Option<Seq<u8>>,
    pub mime: Option<Seq<u8>>,
}

impl ImageDecl {
    pub open spec fn spec_view(self) -> SpecImageDecl {
        SpecImageDecl { view: self.view, uri: opt_bytes(self.uri), mime: opt_bytes(self.mime) }
    }
}

pub open spec fn image_decls_view(v: Seq<ImageDecl>) -> Seq<SpecImageDecl> {
    v.map_values(|i: ImageDecl| i.spec_view())
}

/// The images of the document read from `bytes`, in document order.
pub uninterp spec fn gltf_image_decls(bytes: Seq<u8>) -> Option<Seq<SpecImageDecl>>;

/// Calls `gltf::Gltf::from_slice` and lists the images of the document as its JSON declares
/// them; trusted to give `gltf_image_decls(bytes)`.
#[verifier::external_body]
fn image_decls(bytes: &[u8]) -> (r: Option<Vec<ImageDecl>>)
    requires
        !glb_length_too_short(bytes@),
    ensures
        match r {
            Some(v) => gltf_image_decls(bytes@) == Some(image_decls_view(v@)),
            None => gltf_image_decls(bytes@) is None,
        },
{
    let doc = gltf::Gltf::from_slice(bytes).ok()?.document;
    Some(doc.as_json().images.iter().map(|i| ImageDecl {
        view: i.buffer_view.as_ref().map(|v| v.value()),
        uri: i.uri.as_ref().map(|u| u.as_bytes().to_vec()),
        mime: i.mime_type.as_ref().map(|m| m.0.as_bytes().to_vec()),
    }).collect())
}

/// Where the encoded bytes of an image are.
#[derive(Clone, Debug, PartialEq, Eq)]
pub enum ImageSource {
    /// In buffer `buffer`, `length` bytes from `offset` on, with this media type.
    View { buffer: usize, offset: usize, length: usize, mime: Vec<u8> },
    /// What the URI names, with the media type when the document gives one.
    Uri { uri: Vec<u8>, mime: Option<Vec<u8>> },
}

pub enum SpecImageSource {
    View { buffer: usize, offset: usize, length: usize, mime: Seq<u8> },
    Uri { uri: Seq<u8>, mime: Option<Seq<u8>> },
}

impl ImageSource {
    pub open spec fn spec_view(self) -> SpecImageSource {
        match self {
            ImageSource::View { buffer, offset, length, mime } => SpecImageSource::View { buffer, offset, length, mime: mime@ },
            ImageSource::Uri { uri, mime } => SpecImageSource::Uri { uri: uri@, mime: opt_bytes(mime) },
        }
    }
}

pub open spec fn image_source_view(r: Result<ImageSource, GltfError>) -> Result<SpecImageSource, GltfError> {
    match r {
        Ok(s) => Ok(s.spec_view()),
        Err(e) => Err(e),
    }
}

/// Where an image lies: an image in a buffer view takes the view's buffer and range, and must
/// give its media type; any other image must give a URI.
pub open spec fn spec_image_source(decl: SpecImageDecl, views: Seq<ViewLayout>) -> Result<SpecImageSource, GltfError> {
    match decl.view {
        Some(k) => if k < views.len() {
            match decl.mime {
                Some(m) => Ok(SpecImageSource::View {
                    buffer: views[k as int].buffer,
                    offset: views[k as int].offset,
                    length: views[k as int].length,
                    mime: m,
                }),
                None => Err(GltfError::InvalidImageSource),
            }
        } else {
            Err(GltfError::InvalidDocument)
        },
        None => match decl.uri {
            Some(u) => Ok(SpecImageSource::Uri { uri: u, mime: decl.mime }),
            None => Err(GltfError::InvalidImageSource),
        },
    }
}

fn image_source(decl: ImageDecl, views: &Vec<ViewLayout>) -> (r: Result<ImageSource, GltfError>)
    ensures
        image_source_view(r) == spec_image_source(decl.spec_view(), views@),
{
    match decl.view {
        Some(k) => {
            if k >= views.len() {
                return Err(GltfError::InvalidDocument);
            }
            match decl.mime {
                Some(m) => Ok(ImageSource::View { buffer: views[k].buffer, offset: views[k].offset, length: views[k].length, mime: m }),
                None => Err(GltfError::InvalidImageSource),
            }
        },
        None => match decl.uri {
            Some(u) => Ok(ImageSource::Uri { uri: u, mime: decl.mime }),
            None => Err(GltfError::InvalidImageSource),
        },
    }
}

/// Where the bytes of each image of the document whose bytes are `bytes` lie, in document order.
#[verifier::loop_isolation(false)]
pub fn image_sources(bytes: &[u8]) -> (r: Result<Vec<Result<ImageSource, GltfError>>, GltfError>)
    ensures
        glb_length_too_short(bytes@) ==> r matches Err(GltfError::InvalidDocument),
        !glb_length_too_short(bytes@) ==> match (gltf_image_decls(document_bytes(bytes@)), gltf_view_layouts(document_bytes(bytes@))) {
            (Some(images), Some(views)) => r matches Ok(v) && v@.len() == images.len()
                && forall|k: int| 0 <= k < images.len() ==> image_source_view(#[trigger] v@[k]) == spec_image_source(images[k], views),
            _ => r matches Err(GltfError::InvalidDocument),
        },
{
    let d = match document_slice(bytes) {
        Ok(d) => d,
        Err(e) => return Err(e),
    };
    proof {
        lemma_document_bytes(bytes@);
    }
    let (images, views) = match (image_decls(d), view_layouts(d)) {
        (Some(i), Some(v)) => (i, v),
        _ => return Err(GltfError::InvalidDocument),
    };
    let ghost decls = image_decls_view(images@);
    let ghost all = images@;
    let mut images = images;
    let mut out: Vec<Result<ImageSource, GltfError>> = Vec::new();
    let mut k: usize = 0;
    assert(images@.subrange(0, all.len() as int) =~= all);
    assert(all.len() == images.len());
    while images.len() > 0
        invariant
            all.len() <= usize::MAX,
            k + images@.len() == all.len(),
            images@ == all.subrange(k as int, all.len() as int),
            decls == image_decls_view(all),
            out@.len() == k,
            forall|j: int| 0 <= j < k ==> image_source_view(#[trigger] out@[j]) == spec_image_source(decls[j], views@),
        decreases images@.len(),
    {
        let decl = images.remove(0);
        assert(decl == all[k as int]);
        assert(images@ =~= all.subrange(k + 1, all.len() as int));
        assert(decls[k as int] == decl.spec_view());
        out.push(image_source(decl, &views));
        k = k + 1;
    }
    Ok(out)
}

/// The `length` bytes from `offset` on of buffer `buffer`, when they lie within it.
pub open spec fn spec_view_bytes(buffers: Seq<Seq<u8>>, buffer: usize, offset: usize, length: usize) -> Option<Seq<u8>> {
    if buffer < buffers.len() && offset + length <= buffers[buffer as int].len() {
        Some(buffers[buffer as int].subrange(offset as int, offset + length))
    } else {
        None
    }
}

/// Decodes an image that lies in buffer `buffer`, `length` bytes from `offset` on, with media
/// type `mime`; a range outside the buffer is refused.
pub fn decode_view_image(buffers: &Vec<Vec<u8>>, buffer: usize, offset: usize, length: usize, mime: &[u8]) -> (r: Result<DecodedImage, GltfError>)
    ensures
        match spec_view_bytes(nested_view(buffers@), buffer, offset, length) {
            None => r matches Err(GltfError::InvalidImageSource),
            Some(data) => match spec_decode_embedded(data, Some(mime@)) {
                Some(img) => r matches Ok(i) && i.spec_view() == img,
                None => r matches Err(GltfError::InvalidImage),
            },
        },
{
    if buffer >= buffers.len() {
        return Err(GltfError::InvalidImageSource);
    }
    let parent = &buffers[buffer];
    assert(nested_view(buffers@)[buffer as int] == parent@);
    assert(parent@.len() == parent.len());
    let end = match offset.checked_add(length) {
        Some(e) => e,
        None => return Err(GltfError::InvalidImageSource),
    };
    if end > parent.len() {
        return Err(GltfError::InvalidImageSource);
    }
    let encoded = vstd::slice::slice_subrange(parent.as_slice(), offset, end);
    decode_embedded_image(encoded, Some(mime))
}

} // verus!
