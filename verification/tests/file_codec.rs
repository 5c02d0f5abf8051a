use bytes::Bytes;
use edenapi_core::errors::WireToApiConversionError;
use edenapi_core::file::{
    FileAttributes, FileContent, FileEntry, FileRequest, FileSpec, HgFilenodeData,
    UploadHgFilenodeRequest, UploadHgFilenodeResponse, WireFileAttributes, WireFileEntry,
    WireFileRequest, WireFileSpec, WireHgFilenodeData, WireUploadHgFilenodeRequest,
    WireUploadHgFilenodeResponse,
};
use edenapi_core::ids::{
    HgId, Key, Metadata, Parents, UploadToken, WireHgId, WireKey, WireParents,
    WireRevisionstoreMetadata, WireUploadToken,
};

fn hash(seed: u8) -> HgId {
    let mut bytes = [0u8; 20];
    for (i, b) in bytes.iter_mut().enumerate() {
        *b = seed.wrapping_add(i as u8);
    }
    HgId { bytes }
}

fn wire_hash(seed: u8) -> WireHgId {
    WireHgId { bytes: hash(seed).bytes }
}

fn key(path: &str, seed: u8) -> Key {
    Key { path: path.to_string(), hgid: hash(seed) }
}

fn wire_key(path: &str, seed: u8) -> WireKey {
    WireKey { path: path.to_string(), hgid: wire_hash(seed) }
}

fn parents_from(choice: u8, seed: u8) -> Parents {
    match choice % 3 {
        0 => Parents::NoParent,
        1 => Parents::One(hash(seed)),
        _ => Parents::Two(hash(seed), hash(seed.wrapping_add(40))),
    }
}

fn entry_roundtrip_wire(
    path: String,
    seed: u8,
    blob: Option<Vec<u8>>,
    size: Option<u64>,
    flags: Option<u64>,
    parents: u8,
) -> bool {
    let entry = FileEntry {
        key: Key { path, hgid: hash(seed) },
        content: blob.map(|b| FileContent {
            hg_file_blob: Bytes::from(b),
            metadata: Metadata { size, flags },
        }),
        parents: parents_from(parents, seed),
    };
    entry.clone().to_wire().to_api() == Ok(entry)
}

fn request_roundtrip_wire(paths: Vec<String>, seeds: Vec<u8>, wanted: Vec<bool>) -> bool {
    let keys: Vec<Key> = paths
        .iter()
        .zip(seeds.iter())
        .map(|(p, s)| Key { path: p.clone(), hgid: hash(*s) })
        .collect();
    let reqs: Vec<FileSpec> = paths
        .iter()
        .zip(wanted.iter())
        .map(|(p, w)| FileSpec {
            key: Key { path: p.clone(), hgid: hash(p.len() as u8) },
            attrs: FileAttributes { content: *w },
        })
        .collect();
    let request = FileRequest { keys, reqs };
    request.clone().to_wire().to_api() == Ok(request)
}

fn upload_roundtrip_wire(seed: u8, parents: u8, data: Vec<u8>, sig: Vec<u8>, meta: Vec<u8>) -> bool {
    let request = UploadHgFilenodeRequest {
        data: HgFilenodeData {
            node_id: hash(seed),
            parents: parents_from(parents, seed),
            file_content_upload_token: UploadToken { data, signature: sig },
            metadata: meta,
        },
    };
    request.clone().to_wire().to_api() == Ok(request)
}

#[test]
fn entry_with_key_only_decodes_without_content() {
    let wire = WireFileEntry::new(
        wire_key("dir/file.txt", 1),
        None,
        WireParents::One(wire_hash(2)),
        None,
    );
    let entry = wire.to_api().unwrap();
    assert_eq!(
        entry,
        FileEntry { key: key("dir/file.txt", 1), content: None, parents: Parents::One(hash(2)) }
    );
}

#[test]
fn entry_with_metadata_but_no_data_decodes_without_content() {
    let wire = WireFileEntry::new(
        wire_key("a", 1),
        None,
        WireParents::NoParent,
        Some(WireRevisionstoreMetadata { size: Some(3), flags: Some(1) }),
    );
    assert_eq!(
        wire.to_api(),
        Ok(FileEntry { key: key("a", 1), content: None, parents: Parents::NoParent })
    );
}

#[test]
fn entry_with_data_but_no_metadata_is_rejected() {
    let wire = WireFileEntry::new(
        wire_key("a", 3),
        Some(Bytes::from(vec![1u8, 2, 3])),
        WireParents::NoParent,
        None,
    );
    assert_eq!(
        wire.to_api(),
        Err(WireToApiConversionError::CannotPopulateRequiredField("content.metadata"))
    );
}

#[test]
fn entry_with_empty_data_but_no_metadata_is_rejected() {
    let wire = WireFileEntry::new(wire_key("a", 3), Some(Bytes::new()), WireParents::NoParent, None);
    let error = wire.to_api().unwrap_err();
    assert_eq!(error.field(), "content.metadata");
}

#[test]
fn entry_with_data_and_metadata_decodes_with_both() {
    let wire = WireFileEntry::new(
        wire_key("a/b", 5),
        Some(Bytes::from(vec![4u8, 5])),
        WireParents::Two(wire_hash(6), wire_hash(7)),
        Some(WireRevisionstoreMetadata { size: Some(2), flags: None }),
    );
    assert_eq!(
        wire.to_api(),
        Ok(FileEntry {
            key: key("a/b", 5),
            content: Some(FileContent {
                hg_file_blob: Bytes::from(vec![4u8, 5]),
                metadata: Metadata { size: Some(2), flags: None },
            }),
            parents: Parents::Two(hash(6), hash(7)),
        })
    );
}

#[test]
fn entry_to_wire_pairs_data_with_metadata() {
    let entry = FileEntry {
        key: key("src/lib.rs", 7),
        content: Some(FileContent {
            hg_file_blob: Bytes::from(vec![9u8, 8, 7, 6]),
            metadata: Metadata { size: Some(4), flags: None },
        }),
        parents: Parents::Two(hash(8), hash(9)),
    };
    let wire = entry.clone().to_wire();
    assert_eq!(
        wire,
        WireFileEntry::new(
            wire_key("src/lib.rs", 7),
            Some(Bytes::from(vec![9u8, 8, 7, 6])),
            WireParents::Two(wire_hash(8), wire_hash(9)),
            Some(WireRevisionstoreMetadata { size: Some(4), flags: None }),
        )
    );
    assert!(wire.data().is_some() && wire.metadata().is_some());
    assert_eq!(wire.key(), &wire_key("src/lib.rs", 7));
    assert_eq!(wire.parents(), WireParents::Two(wire_hash(8), wire_hash(9)));
    assert_eq!(wire.to_api(), Ok(entry));
}

#[test]
fn entry_without_content_has_neither_data_nor_metadata() {
    let entry = FileEntry { key: key("x", 1), content: None, parents: Parents::NoParent };
    let wire = entry.to_wire();
    assert_eq!(wire.data(), &None);
    assert_eq!(wire.metadata(), None);
}

#[test]
fn test_entry_roundtrip_wire() {
    quickcheck::quickcheck(
        entry_roundtrip_wire
            as fn(String, u8, Option<Vec<u8>>, Option<u64>, Option<u64>, u8) -> bool,
    );
}

#[test]
fn test_request_roundtrip_wire() {
    quickcheck::quickcheck(request_roundtrip_wire as fn(Vec<String>, Vec<u8>, Vec<bool>) -> bool);
}

#[test]
fn test_upload_hg_filenode_request_roundtrip_wire() {
    quickcheck::quickcheck(
        upload_roundtrip_wire as fn(u8, u8, Vec<u8>, Vec<u8>, Vec<u8>) -> bool,
    );
}

#[test]
fn attributes_convert_both_ways() {
    assert_eq!(FileAttributes { content: true }.to_wire(), WireFileAttributes { content: true });
    assert_eq!(
        WireFileAttributes { content: false }.to_api(),
        Ok(FileAttributes { content: false })
    );
}

#[test]
fn spec_converts_both_ways() {
    let spec = FileSpec { key: key("p", 2), attrs: FileAttributes { content: true } };
    let wire = spec.clone().to_wire();
    assert_eq!(
        wire,
        WireFileSpec { key: wire_key("p", 2), attrs: WireFileAttributes { content: true } }
    );
    assert_eq!(wire.to_api(), Ok(spec));
}

#[test]
fn request_keeps_order_and_duplicates() {
    let request = FileRequest {
        keys: vec![key("b", 2), key("a", 1), key("b", 2)],
        reqs: vec![FileSpec { key: key("c", 3), attrs: FileAttributes { content: false } }],
    };
    let wire = request.clone().to_wire();
    assert_eq!(
        wire,
        WireFileRequest {
            keys: vec![wire_key("b", 2), wire_key("a", 1), wire_key("b", 2)],
            reqs: vec![WireFileSpec {
                key: wire_key("c", 3),
                attrs: WireFileAttributes { content: false },
            }],
        }
    );
    assert_eq!(wire.to_api(), Ok(request));
}

#[test]
fn filenode_data_converts_both_ways() {
    let data = HgFilenodeData {
        node_id: hash(11),
        parents: Parents::One(hash(12)),
        file_content_upload_token: UploadToken { data: vec![1, 2], signature: vec![3] },
        metadata: vec![7, 7, 7],
    };
    let wire = data.clone().to_wire();
    assert_eq!(
        wire,
        WireHgFilenodeData {
            node_id: wire_hash(11),
            parents: WireParents::One(wire_hash(12)),
            file_content_upload_token: WireUploadToken { data: vec![1, 2], signature: vec![3] },
            metadata: vec![7, 7, 7],
        }
    );
    assert_eq!(wire.clone().to_api(), Ok(data.clone()));
    let request = UploadHgFilenodeRequest { data };
    assert_eq!(request.clone().to_wire(), WireUploadHgFilenodeRequest { data: wire });
}

#[test]
fn upload_response_keeps_its_index() {
    let response = UploadHgFilenodeResponse {
        index: 17,
        token: UploadToken { data: vec![5], signature: vec![] },
    };
    let wire = response.clone().to_wire();
    assert_eq!(
        wire,
        WireUploadHgFilenodeResponse {
            index: 17,
            token: WireUploadToken { data: vec![5], signature: vec![] },
        }
    );
    assert_eq!(wire.to_api(), Ok(response));
}

#[test]
fn content_clone_holds_the_same_bytes() {
    let content = FileContent {
        hg_file_blob: Bytes::from(vec![1u8, 2, 3]),
        metadata: Metadata { size: None, flags: Some(2) },
    };
    let copy = content.clone();
    assert_eq!(copy, content);
    assert_eq!(&copy.hg_file_blob[..], &[1u8, 2, 3]);
}

#[test]
fn defaults_are_the_blank_values() {
    assert_eq!(HgId::default(), HgId { bytes: [0u8; 20] });
    assert_eq!(HgId::null(), HgId::default());
    assert_eq!(Parents::default(), Parents::NoParent);
    assert_eq!(Metadata::default(), Metadata { size: None, flags: None });
    assert_eq!(Key::default(), Key { path: String::new(), hgid: HgId::null() });
    assert_eq!(
        FileEntry::default(),
        FileEntry { key: Key::default(), content: None, parents: Parents::NoParent }
    );
    assert_eq!(FileRequest::default(), FileRequest { keys: vec![], reqs: vec![] });
    assert_eq!(FileEntry::default().to_wire(), WireFileEntry::default());
    assert_eq!(WireFileEntry::default().to_api(), Ok(FileEntry::default()));
    assert_eq!(UploadHgFilenodeResponse::default().index, 0);
    assert_eq!(
        UploadHgFilenodeRequest::default().to_wire(),
        WireUploadHgFilenodeRequest::default()
    );
}
