use asaogea::assets::gltf::{
    buffer_sources, decode_embedded_image, import_buffers, prepare_buffer, BufferDecl, BufferSource, DecodedImage,
    DependencySource, GltfDependencyUri, GltfDocument, GltfError, GltfPrimitiveData, ImageEncoding,
};
use asaogea::gfx::buffer::BufferMemory;
use asaogea::gfx::mesh::IndexBufferType;

#[test]
fn data_uri_splits_media_type_and_payload() {
    assert_eq!(
        GltfDependencyUri::parse(b"data:application/octet-stream;base64,AAEC"),
        Ok(GltfDependencyUri::Base64(Some(b"application/octet-stream".to_vec()), b"AAEC".to_vec()))
    );
    assert_eq!(GltfDependencyUri::parse(b"data:,hello"), Ok(GltfDependencyUri::Base64(None, b",hello".to_vec())));
    // The payload is the piece between the first marker and the next one.
    assert_eq!(
        GltfDependencyUri::parse(b"data:a;base64,QQ==;base64,Qg=="),
        Ok(GltfDependencyUri::Base64(Some(b"a".to_vec()), b"QQ==".to_vec()))
    );
}

#[test]
fn file_uris_and_relative_paths() {
    assert_eq!(GltfDependencyUri::parse(b"file:///tmp/mesh.bin"), Ok(GltfDependencyUri::Absolute(b"/tmp/mesh.bin".to_vec())));
    assert_eq!(GltfDependencyUri::parse(b"file:C:/mesh.bin"), Ok(GltfDependencyUri::Absolute(b"C:/mesh.bin".to_vec())));
    assert_eq!(GltfDependencyUri::parse(b"textures/wood.png"), Ok(GltfDependencyUri::Relative));
    assert_eq!(GltfDependencyUri::parse(b""), Ok(GltfDependencyUri::Relative));
}

#[test]
fn other_schemes_are_refused() {
    assert_eq!(GltfDependencyUri::parse(b"http://example.com/a.bin"), Err(GltfError::UnsupportedUri));
    assert_eq!(GltfDependencyUri::parse(b"C:\\mesh.bin"), Err(GltfError::UnsupportedUri));
}

#[test]
fn data_uris_are_decoded() {
    assert_eq!(
        GltfDependencyUri::load_source(b"data:application/octet-stream;base64,AAEC"),
        Ok(DependencySource::Bytes(vec![0, 1, 2]))
    );
    assert_eq!(
        GltfDependencyUri::load_source(b"data:text/plain;base64,aGVsbG8="),
        Ok(DependencySource::Bytes(b"hello".to_vec()))
    );
    assert_eq!(GltfDependencyUri::load_source(b"data:a;base64,QQ==;base64,Qg=="), Ok(DependencySource::Bytes(b"A".to_vec())));
    assert_eq!(GltfDependencyUri::load_source(b"data:;base64,"), Ok(DependencySource::Bytes(vec![])));
}

#[test]
fn invalid_base64_is_reported() {
    assert_eq!(GltfDependencyUri::load_source(b"data:,hello"), Err(GltfError::InvalidBase64));
    assert_eq!(GltfDependencyUri::load_source(b"data:x;base64,A"), Err(GltfError::InvalidBase64));
    assert_eq!(GltfDependencyUri::decoded_source(None), Err(GltfError::InvalidBase64));
    assert_eq!(GltfDependencyUri::decoded_source(Some(vec![7])), Ok(DependencySource::Bytes(vec![7])));
}

#[test]
fn paths_are_passed_on() {
    assert_eq!(GltfDependencyUri::load_source(b"file:///a.bin"), Ok(DependencySource::AbsolutePath(b"/a.bin".to_vec())));
    assert_eq!(GltfDependencyUri::load_source(b"a.bin"), Ok(DependencySource::RelativePath));
    assert_eq!(GltfDependencyUri::load_source(b"ftp://a.bin"), Err(GltfError::UnsupportedUri));
}

#[test]
fn buffers_are_checked_and_padded() {
    assert_eq!(prepare_buffer(vec![1, 2, 3, 4, 5], 5), Ok(vec![1, 2, 3, 4, 5, 0, 0, 0]));
    assert_eq!(prepare_buffer(vec![1, 2, 3, 4], 2), Ok(vec![1, 2, 3, 4]));
    assert_eq!(prepare_buffer(vec![], 0), Ok(vec![]));
    assert_eq!(prepare_buffer(vec![9, 9, 9], 1), Ok(vec![9, 9, 9, 0]));
    assert_eq!(prepare_buffer(vec![1, 2, 3, 4, 5], 6), Err(GltfError::BufferTooShort { actual: 5, expected: 6 }));
}

#[test]
fn primitives_take_their_index_type_from_the_indices() {
    let vertices = || BufferMemory::from_bytes(vec![0; 12], 12, 1);
    let p = GltfPrimitiveData::new(vertices(), None).unwrap();
    assert!(p.index.is_none());
    assert_eq!(p.index_type, IndexBufferType::Uint32);
    assert_eq!(p.vertex.get_size(), 12);
    let p = GltfPrimitiveData::new(vertices(), Some(BufferMemory::from_bytes(vec![0; 6], 2, 3))).unwrap();
    assert_eq!(p.index_type, IndexBufferType::Uint16);
    assert_eq!(p.index.as_ref().map(|i| i.elements()), Some(3));
    let p = GltfPrimitiveData::new(vertices(), Some(BufferMemory::from_bytes(vec![0; 3], 1, 3))).unwrap();
    assert_eq!(p.index_type, IndexBufferType::Uint8);
    assert!(GltfPrimitiveData::new(vertices(), Some(BufferMemory::from_bytes(vec![0; 6], 3, 2))).is_none());
}

#[test]
fn image_encodings_by_media_type() {
    assert_eq!(ImageEncoding::from_mime(Some(b"image/png")), ImageEncoding::Png);
    assert_eq!(ImageEncoding::from_mime(Some(b"image/jpeg")), ImageEncoding::Jpeg);
    assert_eq!(ImageEncoding::from_mime(Some(b"image/gif")), ImageEncoding::Guess);
    assert_eq!(ImageEncoding::from_mime(Some(b"image/pn")), ImageEncoding::Guess);
    assert_eq!(ImageEncoding::from_mime(None), ImageEncoding::Guess);
}

const PNG_2X1: [u8; 72] = [
    137, 80, 78, 71, 13, 10, 26, 10, 0, 0, 0, 13, 73, 72, 68, 82, 0, 0, 0, 2, 0, 0, 0, 1, 8, 6, 0, 0, 0, 244, 34, 127,
    138, 0, 0, 0, 15, 73, 68, 65, 84, 120, 156, 99, 248, 207, 192, 240, 31, 8, 27, 0, 16, 121, 3, 126, 125, 99, 206,
    215, 0, 0, 0, 0, 73, 69, 78, 68, 174, 66, 96, 130,
];

#[test]
fn documents_list_their_buffers() {
    let json = br#"{"asset":{"version":"2.0"},"buffers":[{"byteLength":3,"uri":"data:application/octet-stream;base64,AAEC"},{"byteLength":8,"uri":"mesh.bin"}]}"#;
    let document = GltfDocument::parse(json).ok().unwrap();
    assert_eq!(
        document.buffers,
        vec![
            BufferDecl { uri: Some(b"data:application/octet-stream;base64,AAEC".to_vec()), length: 3 },
            BufferDecl { uri: Some(b"mesh.bin".to_vec()), length: 8 },
        ]
    );
    assert!(document.blob.is_none());
    assert_eq!(GltfDocument::parse(b"not a document").err(), Some(GltfError::InvalidDocument));
}

#[test]
fn buffers_come_from_uris_or_the_binary_chunk() {
    let decls = vec![
        BufferDecl { uri: None, length: 4 },
        BufferDecl { uri: Some(b"data:;base64,AAEC".to_vec()), length: 3 },
        BufferDecl { uri: Some(b"a.bin".to_vec()), length: 1 },
        BufferDecl { uri: None, length: 4 },
        BufferDecl { uri: Some(b"http://x".to_vec()), length: 1 },
    ];
    assert_eq!(
        buffer_sources(&decls, Some(vec![1, 2, 3, 4])),
        vec![
            Ok(BufferSource::Blob(vec![1, 2, 3, 4])),
            Ok(BufferSource::Dependency(DependencySource::Bytes(vec![0, 1, 2]))),
            Ok(BufferSource::Dependency(DependencySource::RelativePath)),
            Err(GltfError::MissingBinaryChunk),
            Err(GltfError::UnsupportedUri),
        ]
    );
    assert_eq!(buffer_sources(&decls[..1].to_vec(), None), vec![Err(GltfError::MissingBinaryChunk)]);
}

#[test]
fn imported_buffers_are_checked_in_order_and_padded() {
    let decls = vec![BufferDecl { uri: None, length: 3 }, BufferDecl { uri: None, length: 2 }];
    assert_eq!(import_buffers(&decls, vec![Ok(vec![1, 2, 3]), Ok(vec![4, 5])]), Ok(vec![vec![1, 2, 3, 0], vec![4, 5, 0, 0]]));
    assert_eq!(
        import_buffers(&decls, vec![Ok(vec![1]), Err(GltfError::ReadFailed)]),
        Err(GltfError::BufferTooShort { actual: 1, expected: 3 })
    );
    assert_eq!(import_buffers(&decls, vec![Ok(vec![1, 2, 3]), Err(GltfError::ReadFailed)]), Err(GltfError::ReadFailed));
    assert_eq!(import_buffers(&vec![], vec![]), Ok(vec![]));
}

#[test]
fn images_decode_by_media_type_or_guess() {
    let expected = DecodedImage { width: 2, height: 1, rgba: vec![255, 0, 0, 255, 0, 255, 0, 128] };
    assert_eq!(decode_embedded_image(&PNG_2X1, Some(b"image/png")), Ok(expected.clone()));
    assert_eq!(decode_embedded_image(&PNG_2X1, None), Ok(expected.clone()));
    assert_eq!(decode_embedded_image(&PNG_2X1, Some(b"image/gif")), Ok(expected));
    assert_eq!(decode_embedded_image(&PNG_2X1, Some(b"image/jpeg")), Err(GltfError::InvalidImage));
    assert_eq!(decode_embedded_image(b"not an image", None), Err(GltfError::InvalidImage));
}
