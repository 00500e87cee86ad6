use asaogea::assets::gltf::{document_slice, DecodedImage, GltfDocument, GltfError};
use asaogea::assets::gltf_content::{decode_view_image, get_meshes, image_sources, ImageSource};
use asaogea::gfx::mesh::IndexBufferType;

const PNG_2X1: [u8; 72] = [
    137, 80, 78, 71, 13, 10, 26, 10, 0, 0, 0, 13, 73, 72, 68, 82, 0, 0, 0, 2, 0, 0, 0, 1, 8, 6, 0, 0, 0, 244, 34, 127,
    138, 0, 0, 0, 15, 73, 68, 65, 84, 120, 156, 99, 248, 207, 192, 240, 31, 8, 27, 0, 16, 121, 3, 126, 125, 99, 206,
    215, 0, 0, 0, 0, 73, 69, 78, 68, 174, 66, 96, 130,
];

/// A binary document with only a JSON chunk, declaring `declared` bytes in its header.
fn glb(declared: u32) -> Vec<u8> {
    let json = br#"{"asset":{"version":"2.0"}}"#;
    let mut out = b"glTF".to_vec();
    out.extend_from_slice(&2u32.to_le_bytes());
    out.extend_from_slice(&declared.to_le_bytes());
    out.extend_from_slice(&28u32.to_le_bytes());
    out.extend_from_slice(b"JSON");
    out.extend_from_slice(json);
    out.push(b' ');
    out
}

fn triangle_document(position_count: u32, position_type: &str) -> Vec<u8> {
    format!(
        r#"{{"asset":{{"version":"2.0"}},"buffers":[{{"byteLength":44}}],
        "bufferViews":[{{"buffer":0,"byteOffset":0,"byteLength":36}},{{"buffer":0,"byteOffset":36,"byteLength":6}}],
        "accessors":[{{"bufferView":0,"componentType":5126,"count":{position_count},"type":"{position_type}","min":[0,0,0],"max":[1,1,0]}},
                     {{"bufferView":1,"componentType":5123,"count":3,"type":"SCALAR"}}],
        "meshes":[{{"primitives":[{{"attributes":{{"POSITION":0}},"indices":1}}]}}]}}"#
    )
    .into_bytes()
}

fn triangle_buffer() -> Vec<u8> {
    let mut out = Vec::new();
    for c in [0.0f32, 0.0, 0.0, 1.0, 0.0, 0.0, 0.0, 1.0, 0.0] {
        out.extend_from_slice(&c.to_le_bytes());
    }
    out.extend_from_slice(&[0, 0, 1, 0, 2, 0, 0, 0]);
    out
}

#[test]
fn binary_documents_end_where_their_header_says() {
    let mut bytes = glb(48);
    assert_eq!(bytes.len(), 48);
    bytes.extend_from_slice(b"trailing bytes");
    assert_eq!(document_slice(&bytes).ok().map(|s| s.len()), Some(48));
    let document = GltfDocument::parse(&bytes).ok().unwrap();
    assert!(document.buffers.is_empty());
    assert!(document.blob.is_none());
    assert_eq!(document_slice(b"{}").ok().map(|s| s.to_vec()), Some(b"{}".to_vec()));
}

#[test]
fn binary_headers_that_declare_too_few_bytes_are_refused() {
    assert_eq!(document_slice(&glb(8)).err(), Some(GltfError::InvalidDocument));
    assert_eq!(GltfDocument::parse(&glb(8)).err(), Some(GltfError::InvalidDocument));
    assert_eq!(GltfDocument::parse(&glb(11)).err(), Some(GltfError::InvalidDocument));
    assert_eq!(GltfDocument::parse(&glb(4000)).err(), Some(GltfError::InvalidDocument));
    assert_eq!(get_meshes(&glb(0), &vec![]).err(), Some(GltfError::InvalidDocument));
}

#[test]
fn meshes_give_vertex_and_index_bytes() {
    let meshes = get_meshes(&triangle_document(3, "VEC3"), &vec![triangle_buffer()]).ok().unwrap();
    assert_eq!(meshes.len(), 1);
    assert_eq!(meshes[0].len(), 1);
    let primitive = &meshes[0][0];
    assert_eq!(primitive.vertex.as_slice(), &triangle_buffer()[..36]);
    assert_eq!(primitive.vertex.stride(), 12);
    assert_eq!(primitive.vertex.elements(), 3);
    let index = primitive.index.as_ref().unwrap();
    assert_eq!(index.as_slice(), &[0, 0, 1, 0, 2, 0]);
    assert_eq!(index.stride(), 2);
    assert_eq!(index.elements(), 3);
    assert_eq!(primitive.index_type, IndexBufferType::Uint16);
}

#[test]
fn unreadable_primitives_are_refused() {
    // No items, a position that is not three floats, and a buffer shorter than its views.
    assert_eq!(get_meshes(&triangle_document(0, "VEC3"), &vec![triangle_buffer()]).err(), Some(GltfError::InvalidPrimitive));
    assert_eq!(get_meshes(&triangle_document(3, "SCALAR"), &vec![triangle_buffer()]).err(), Some(GltfError::InvalidPrimitive));
    assert_eq!(get_meshes(&triangle_document(3, "VEC3"), &vec![vec![0; 8]]).err(), Some(GltfError::InvalidPrimitive));
    assert_eq!(get_meshes(b"not a document", &vec![]).err(), Some(GltfError::InvalidDocument));
}

#[test]
fn images_lie_in_views_or_behind_uris() {
    let json = br#"{"asset":{"version":"2.0"},"buffers":[{"byteLength":76}],
        "bufferViews":[{"buffer":0,"byteOffset":4,"byteLength":72}],
        "images":[{"bufferView":0,"mimeType":"image/png"},{"uri":"tex.png"}]}"#;
    assert_eq!(
        image_sources(json).ok().unwrap(),
        vec![
            Ok(ImageSource::View { buffer: 0, offset: 4, length: 72, mime: b"image/png".to_vec() }),
            Ok(ImageSource::Uri { uri: b"tex.png".to_vec(), mime: None }),
        ]
    );
    assert_eq!(image_sources(b"[]").err(), Some(GltfError::InvalidDocument));
}

#[test]
fn view_images_are_cut_from_their_buffer() {
    let mut buffer = vec![9, 9, 9, 9];
    buffer.extend_from_slice(&PNG_2X1);
    let buffers = vec![buffer];
    let expected = DecodedImage { width: 2, height: 1, rgba: vec![255, 0, 0, 255, 0, 255, 0, 128] };
    assert_eq!(decode_view_image(&buffers, 0, 4, 72, b"image/png"), Ok(expected));
    assert_eq!(decode_view_image(&buffers, 0, 8, 72, b"image/png"), Err(GltfError::InvalidImageSource));
    assert_eq!(decode_view_image(&buffers, 1, 0, 4, b"image/png"), Err(GltfError::InvalidImageSource));
    assert_eq!(decode_view_image(&buffers, 0, usize::MAX, 2, b"image/png"), Err(GltfError::InvalidImageSource));
    assert_eq!(decode_view_image(&buffers, 0, 0, 72, b"image/png"), Err(GltfError::InvalidImage));
}
