use asaogea::gfx::buffer::{AllocationRequest, BufferAccess, BufferError, BufferMemory, BufferShape};
use asaogea::gfx::mesh::{BufferUpdate, DynamicMesh, IndexBufferType, MeshDraw, MeshError};

#[test]
fn allocation_requests_follow_the_access() {
    assert_eq!(
        BufferAccess::Default.allocation_request(),
        AllocationRequest { host_visible_coherent: false, host_access_random: false }
    );
    assert_eq!(
        BufferAccess::GpuOnly.allocation_request(),
        AllocationRequest { host_visible_coherent: true, host_access_random: true }
    );
    assert_eq!(
        BufferAccess::CpuToGpu.allocation_request(),
        AllocationRequest { host_visible_coherent: true, host_access_random: true }
    );
    assert_eq!(
        BufferAccess::GpuToCpu.allocation_request(),
        AllocationRequest { host_visible_coherent: true, host_access_random: false }
    );
}

#[test]
fn buffer_memory_from_raw_takes_whole_elements() {
    let bytes: Vec<u8> = (0u8..10).collect();
    let mem = BufferMemory::from_raw(&bytes, 4, 2);
    assert_eq!(mem.stride(), 4);
    assert_eq!(mem.elements(), 2);
    assert_eq!(mem.get_size(), 8);
    assert_eq!(mem.as_slice(), &[0, 1, 2, 3, 4, 5, 6, 7]);
}

#[test]
fn buffer_memory_from_bytes_keeps_them() {
    let mem = BufferMemory::from_bytes(vec![9, 8, 7, 6, 5, 4], 2, 3);
    assert_eq!((mem.stride(), mem.elements(), mem.get_size()), (2, 3, 6));
    assert_eq!(mem.as_slice(), &[9, 8, 7, 6, 5, 4]);
}

#[test]
fn buffer_shape_size_and_resize() {
    let mut shape = BufferShape::new(16, 4);
    assert_eq!(shape.size(), 64);
    assert!(shape.needs_storage());
    assert!(!shape.resize(4));
    assert!(shape.resize(10));
    assert_eq!((shape.elements(), shape.stride()), (10, 16));
    // Resizing to nothing keeps one element.
    assert!(shape.resize(0));
    assert_eq!(shape.elements(), 1);
    assert!(!shape.resize(0));
    assert!(!BufferShape::new(4, 0).needs_storage());
}

#[test]
fn buffer_write_must_fit() {
    let shape = BufferShape::new(4, 4);
    let data = BufferMemory::from_bytes(vec![0; 8], 4, 2);
    assert_eq!(shape.check_write(0, &data), Ok(()));
    assert_eq!(shape.check_write(8, &data), Ok(()));
    assert_eq!(shape.check_write(9, &data), Err(BufferError::TooSmall { size: 16, expected: 17 }));
}

#[test]
fn index_types_by_stride() {
    assert_eq!(IndexBufferType::from_stride(1), Some(IndexBufferType::Uint8));
    assert_eq!(IndexBufferType::from_stride(2), Some(IndexBufferType::Uint16));
    assert_eq!(IndexBufferType::from_stride(4), Some(IndexBufferType::Uint32));
    assert_eq!(IndexBufferType::from_stride(3), None);
    assert_eq!(IndexBufferType::from_stride(8), None);
    assert_eq!(IndexBufferType::Uint8.size(), 1);
    assert_eq!(IndexBufferType::Uint16.size(), 2);
    assert_eq!(IndexBufferType::Uint32.size(), 4);
    assert_eq!(IndexBufferType::default(), IndexBufferType::Uint32);
}

#[test]
fn first_vertices_create_the_buffer() {
    let mut mesh = DynamicMesh::new(8);
    assert_eq!(mesh.index_count(), 0);
    let data = BufferMemory::from_bytes(vec![1; 24], 8, 3);
    let update = mesh.set_vertices(0, &data).unwrap();
    assert_eq!(update, BufferUpdate::Create(BufferShape::new(8, 3)));
    assert_eq!(mesh.vertex_buffer(), Some(BufferShape::new(8, 3)));
    assert_eq!(mesh.index_count(), 3);
}

#[test]
fn vertices_are_written_at_their_offset() {
    let mut mesh = DynamicMesh::new(8);
    mesh.set_vertices(0, &BufferMemory::from_bytes(vec![0; 32], 8, 4)).unwrap();
    let update = mesh.set_vertices(2, &BufferMemory::from_bytes(vec![0; 16], 8, 2)).unwrap();
    assert_eq!(update, BufferUpdate::Write { resize_to: None, offset: 16 });
    assert_eq!(mesh.vertex_buffer(), Some(BufferShape::new(8, 4)));
    // A write past the end resizes the buffer to as many elements as the data has bytes.
    let update = mesh.set_vertices(3, &BufferMemory::from_bytes(vec![0; 16], 8, 2)).unwrap();
    assert_eq!(update, BufferUpdate::Write { resize_to: Some(16), offset: 24 });
    assert_eq!(mesh.vertex_buffer(), Some(BufferShape::new(8, 16)));
}

#[test]
fn vertices_of_another_size_are_refused() {
    let mut mesh = DynamicMesh::new(8);
    let err = mesh.set_vertices(0, &BufferMemory::from_bytes(vec![0; 12], 4, 3)).unwrap_err();
    assert_eq!(err, MeshError::VertexStrideMismatch { expected: 8, actual: 4 });
    assert_eq!(mesh.vertex_buffer(), None);
}

#[test]
fn indexed_vertices_set_the_index_type() {
    let mut mesh = DynamicMesh::new(4);
    let vertices = BufferMemory::from_bytes(vec![0; 12], 4, 3);
    let indices = BufferMemory::from_bytes(vec![0; 6], 2, 3);
    let (vu, iu) = mesh.set_indexed_vertices(0, &vertices, 0, &indices).unwrap();
    assert_eq!(vu, BufferUpdate::Create(BufferShape::new(4, 3)));
    assert_eq!(iu, BufferUpdate::Create(BufferShape::new(2, 3)));
    assert_eq!(mesh.index_type(), IndexBufferType::Uint16);
    assert_eq!(mesh.index_buffer(), Some(BufferShape::new(2, 3)));
    assert_eq!(mesh.index_count(), 3);
    // The index offset is counted in indices of the new type.
    let more = BufferMemory::from_bytes(vec![0; 4], 2, 2);
    let (_, iu) = mesh.set_indexed_vertices(1, &BufferMemory::from_bytes(vec![0; 4], 4, 1), 1, &more).unwrap();
    assert_eq!(iu, BufferUpdate::Write { resize_to: None, offset: 2 });
}

#[test]
fn indices_of_unsupported_width_are_refused_after_the_vertices() {
    let mut mesh = DynamicMesh::new(4);
    let vertices = BufferMemory::from_bytes(vec![0; 8], 4, 2);
    let indices = BufferMemory::from_bytes(vec![0; 6], 3, 2);
    let err = mesh.set_indexed_vertices(0, &vertices, 0, &indices).unwrap_err();
    assert_eq!(err, MeshError::UnsupportedIndexSize(3));
    assert_eq!(mesh.vertex_buffer(), Some(BufferShape::new(4, 2)));
    assert_eq!(mesh.index_buffer(), None);
    assert_eq!(mesh.index_type(), IndexBufferType::Uint32);
}

#[test]
fn reserving_creates_or_resizes() {
    let mut mesh = DynamicMesh::new(20);
    assert_eq!(mesh.reserve_vertices(100), BufferUpdate::Create(BufferShape::new(20, 100)));
    assert_eq!(mesh.reserve_vertices(50), BufferUpdate::Write { resize_to: Some(50), offset: 0 });
    assert_eq!(mesh.vertex_buffer(), Some(BufferShape::new(20, 50)));
    // Index buffers are created with the vertex size as their stride.
    assert_eq!(mesh.reserve_indices(30), BufferUpdate::Create(BufferShape::new(20, 30)));
    assert_eq!(mesh.index_count(), 30);
}

#[test]
fn whole_mesh_draws() {
    let mut mesh = DynamicMesh::new(4);
    assert_eq!(mesh.draw_whole(), MeshDraw::Nothing);
    mesh.set_vertices(0, &BufferMemory::from_bytes(vec![0; 12], 4, 3)).unwrap();
    assert_eq!(
        mesh.draw_whole(),
        MeshDraw::Vertices { vertex_count: 3, instance_count: 1, first_vertex: 0, first_instance: 0 }
    );
    mesh.set_indexed_vertices(0, &BufferMemory::from_bytes(vec![0; 12], 4, 3), 0, &BufferMemory::from_bytes(vec![0; 6], 1, 6))
        .unwrap();
    assert_eq!(
        mesh.draw_whole(),
        MeshDraw::Indexed {
            index_type: IndexBufferType::Uint8,
            index_count: 6,
            instance_count: 1,
            first_index: 0,
            vertex_offset: 0,
            first_instance: 0
        }
    );
}

#[test]
fn partial_mesh_draws() {
    let mut mesh = DynamicMesh::new(4);
    assert_eq!(mesh.draw_range(3, 2, 6, 1, 0), MeshDraw::Nothing);
    mesh.reserve_vertices(10);
    assert_eq!(
        mesh.draw_range(3, 2, 6, 4, 1),
        MeshDraw::Vertices { vertex_count: 6, instance_count: 4, first_vertex: 2, first_instance: 1 }
    );
    mesh.set_indexed_vertices(0, &BufferMemory::from_bytes(vec![0; 4], 4, 1), 0, &BufferMemory::from_bytes(vec![0; 4], 2, 2))
        .unwrap();
    assert_eq!(
        mesh.draw_range(3, 2, 6, 1, 0),
        MeshDraw::Indexed {
            index_type: IndexBufferType::Uint16,
            index_count: 6,
            instance_count: 1,
            first_index: 3,
            vertex_offset: 2,
            first_instance: 0
        }
    );
    // Offsets past the signed range wrap around.
    assert_eq!(
        mesh.draw_range(0, u32::MAX, 1, 1, 0),
        MeshDraw::Indexed {
            index_type: IndexBufferType::Uint16,
            index_count: 1,
            instance_count: 1,
            first_index: 0,
            vertex_offset: -1,
            first_instance: 0
        }
    );
}
