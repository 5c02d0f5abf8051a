use bytes::Bytes;
use edenapi_core::blob::{bytes_from_vec, bytes_to_vec};
use edenapi_core::commit::{
    CommitRevlogData, CommitRevlogDataRequest, WireCommitLocation,
    WireCommitLocationToHashRequest, WireCommitLocationToHashRequestBatch,
    WireCommitLocationToHashResponse,
};
use edenapi_core::encoding::{
    as_record, find, put_field, read_field, read_optional_field, write_field,
    write_optional_field, DecodeError, Field, Tagged, Value,
};
use edenapi_core::file::{
    FileContent, FileEntry, WireFileAttributes, WireFileEntry, WireFileRequest, WireFileSpec,
    WireHgFilenodeData, WireUploadHgFilenodeRequest, WireUploadHgFilenodeResponse,
};
use edenapi_core::ids::{
    HgId, Key, Metadata, Parents, WireHgId, WireKey, WireParents, WireRevisionstoreMetadata,
    WireUploadToken,
};

fn wire_hash(seed: u8) -> WireHgId {
    WireHgId { bytes: [seed; 20] }
}

fn hash_value(seed: u8) -> Value {
    Value::Blob(Bytes::from(vec![seed; 20]))
}

fn field(tag: u64, value: Value) -> Field {
    Field { tag, value }
}

fn record(fields: Vec<Field>) -> Value {
    Value::Record(fields)
}

fn key_value(path: &str, seed: u8) -> Value {
    record(vec![field(0, Value::Text(path.to_string())), field(1, hash_value(seed))])
}

fn wire_key(path: &str, seed: u8) -> WireKey {
    WireKey { path: path.to_string(), hgid: wire_hash(seed) }
}

fn entry_roundtrip_serialize(
    path: String,
    seed: u8,
    data: Option<Vec<u8>>,
    size: Option<u64>,
    flags: Option<u64>,
    with_metadata: bool,
) -> bool {
    let parents = match seed % 3 {
        0 => WireParents::NoParent,
        1 => WireParents::One(wire_hash(seed)),
        _ => WireParents::Two(wire_hash(seed), wire_hash(seed / 2)),
    };
    let wire = WireFileEntry::new(
        WireKey { path, hgid: wire_hash(seed / 3) },
        data.map(Bytes::from),
        parents,
        if with_metadata { Some(WireRevisionstoreMetadata { size, flags }) } else { None },
    );
    WireFileEntry::decode(&wire.encode()) == Ok(wire)
}

fn request_roundtrip_serialize(paths: Vec<String>, seeds: Vec<u8>, wanted: Vec<bool>) -> bool {
    let keys: Vec<WireKey> = paths
        .iter()
        .zip(seeds.iter())
        .map(|(p, s)| WireKey { path: p.clone(), hgid: wire_hash(*s) })
        .collect();
    let reqs: Vec<WireFileSpec> = paths
        .iter()
        .zip(wanted.iter())
        .map(|(p, w)| WireFileSpec {
            key: WireKey { path: p.clone(), hgid: wire_hash(p.len() as u8) },
            attrs: WireFileAttributes { content: *w },
        })
        .collect();
    let wire = WireFileRequest { keys, reqs };
    WireFileRequest::decode(&wire.encode()) == Ok(wire)
}

fn upload_roundtrip_serialize(seed: u8, data: Vec<u8>, sig: Vec<u8>, meta: Vec<u8>) -> bool {
    let wire = WireUploadHgFilenodeRequest {
        data: WireHgFilenodeData {
            node_id: wire_hash(seed),
            parents: if seed % 2 == 0 { WireParents::NoParent } else { WireParents::One(wire_hash(1)) },
            file_content_upload_token: WireUploadToken { data, signature: sig },
            metadata: meta,
        },
    };
    WireUploadHgFilenodeRequest::decode(&wire.encode()) == Ok(wire)
}

#[test]
fn test_entry_roundtrip_serialize() {
    quickcheck::quickcheck(
        entry_roundtrip_serialize
            as fn(String, u8, Option<Vec<u8>>, Option<u64>, Option<u64>, bool) -> bool,
    );
}

#[test]
fn test_request_roundtrip_serialize() {
    quickcheck::quickcheck(
        request_roundtrip_serialize as fn(Vec<String>, Vec<u8>, Vec<bool>) -> bool,
    );
}

#[test]
fn test_upload_hg_filenode_request_roundtrip_serialize() {
    quickcheck::quickcheck(
        upload_roundtrip_serialize as fn(u8, Vec<u8>, Vec<u8>, Vec<u8>) -> bool,
    );
}

#[test]
fn entry_is_written_with_its_four_tags() {
    let wire = WireFileEntry::new(
        wire_key("a/b", 1),
        Some(Bytes::from(vec![7u8, 8])),
        WireParents::Two(wire_hash(2), wire_hash(3)),
        Some(WireRevisionstoreMetadata { size: Some(2), flags: Some(0) }),
    );
    assert_eq!(
        wire.encode(),
        record(vec![
            field(0, key_value("a/b", 1)),
            field(1, Value::Blob(Bytes::from(vec![7u8, 8]))),
            field(2, Value::List(vec![hash_value(2), hash_value(3)])),
            field(3, record(vec![field(0, Value::Uint(2)), field(1, Value::Uint(0))])),
        ])
    );
}

#[test]
fn default_fields_are_left_out() {
    let wire = WireFileEntry::new(
        WireKey { path: String::new(), hgid: wire_hash(0) },
        None,
        WireParents::One(wire_hash(4)),
        None,
    );
    assert_eq!(wire.encode(), record(vec![field(2, Value::List(vec![hash_value(4)]))]));
    let key_with_path_only = WireKey { path: "p".to_string(), hgid: wire_hash(0) };
    assert_eq!(key_with_path_only.encode(), record(vec![field(0, Value::Text("p".to_string()))]));
    let key_with_hash_only = WireKey { path: String::new(), hgid: wire_hash(9) };
    assert_eq!(key_with_hash_only.encode(), record(vec![field(1, hash_value(9))]));
}

#[test]
fn default_values_are_written_as_the_empty_record() {
    assert_eq!(WireFileEntry::default().encode(), record(vec![]));
    assert_eq!(WireFileAttributes::default().encode(), record(vec![]));
    assert_eq!(WireFileSpec::default().encode(), record(vec![]));
    assert_eq!(WireFileRequest::default().encode(), record(vec![]));
    assert_eq!(WireHgFilenodeData::default().encode(), record(vec![]));
    assert_eq!(WireUploadHgFilenodeRequest::default().encode(), record(vec![]));
    assert_eq!(WireUploadHgFilenodeResponse::default().encode(), record(vec![]));
    assert_eq!(WireKey::default().encode(), record(vec![]));
    assert_eq!(WireUploadToken::default().encode(), record(vec![]));
    assert_eq!(WireRevisionstoreMetadata::default().encode(), record(vec![]));
    assert_eq!(WireCommitLocation::default().encode(), record(vec![]));
    assert_eq!(WireCommitLocationToHashRequest::default().encode(), record(vec![]));
    assert_eq!(WireCommitLocationToHashRequestBatch::default().encode(), record(vec![]));
    assert_eq!(WireCommitLocationToHashResponse::default().encode(), record(vec![]));
    assert_eq!(CommitRevlogDataRequest::default().encode(), record(vec![]));
    assert_eq!(FileEntry::default().to_wire().encode(), record(vec![]));
}

#[test]
fn the_empty_record_reads_as_the_default() {
    let empty = record(vec![]);
    assert_eq!(WireFileEntry::decode(&empty), Ok(WireFileEntry::default()));
    assert_eq!(WireFileEntry::decode(&empty).unwrap().to_api(), Ok(FileEntry::default()));
    assert_eq!(WireFileRequest::decode(&empty), Ok(WireFileRequest::default()));
    assert_eq!(WireFileSpec::decode(&empty), Ok(WireFileSpec::default()));
    assert_eq!(WireFileAttributes::decode(&empty), Ok(WireFileAttributes { content: false }));
    assert_eq!(WireHgFilenodeData::decode(&empty), Ok(WireHgFilenodeData::default()));
    assert_eq!(
        WireUploadHgFilenodeResponse::decode(&empty),
        Ok(WireUploadHgFilenodeResponse { index: 0, token: WireUploadToken::default() })
    );
    assert_eq!(WireKey::decode(&empty), Ok(WireKey { path: String::new(), hgid: wire_hash(0) }));
    assert_eq!(
        WireCommitLocationToHashRequest::decode(&empty),
        Ok(WireCommitLocationToHashRequest {
            location: WireCommitLocation { descendant: wire_hash(0), distance: 0 },
            count: 0,
        })
    );
}

#[test]
fn blank_values_are_recognised() {
    assert!(WireFileEntry::default().is_blank());
    assert!(wire_hash(0).is_blank());
    assert!(!wire_hash(1).is_blank());
    let mut almost = [0u8; 20];
    almost[19] = 1;
    assert!(!WireHgId { bytes: almost }.is_blank());
    assert!(!wire_key("", 1).is_blank());
    assert!(!wire_key("a", 0).is_blank());
    assert!(wire_key("", 0).is_blank());
    assert!(WireParents::NoParent.is_blank());
    assert!(!WireParents::One(wire_hash(0)).is_blank());
    assert!(!WireRevisionstoreMetadata { size: Some(0), flags: None }.is_blank());
    assert!(0u64.is_blank() && !1u64.is_blank());
    assert!(false.is_blank() && !true.is_blank());
    assert!(String::new().is_blank() && !"x".to_string().is_blank());
    assert!(Bytes::new().is_blank() && !Bytes::from(vec![0u8]).is_blank());
    assert!(Vec::<u8>::new().is_blank() && !vec![0u8].is_blank());
    assert!(Vec::<WireKey>::new().is_blank() && !vec![WireKey::default()].is_blank());
    assert_eq!(WireHgId::make_blank(), wire_hash(0));
    assert_eq!(Bytes::make_blank(), Bytes::new());
    assert_eq!(HgId::make_blank(), HgId::null());
}

#[test]
fn an_empty_blob_is_told_from_a_missing_one() {
    let with_empty = WireFileEntry::new(
        WireKey::default(),
        Some(Bytes::new()),
        WireParents::NoParent,
        Some(WireRevisionstoreMetadata { size: None, flags: None }),
    );
    let value = with_empty.encode();
    assert_eq!(
        value,
        record(vec![field(1, Value::Blob(Bytes::new())), field(3, record(vec![]))])
    );
    let back = WireFileEntry::decode(&value).unwrap();
    assert_eq!(back, with_empty);
    assert_eq!(
        back.to_api(),
        Ok(FileEntry {
            key: Key::default(),
            content: Some(FileContent {
                hg_file_blob: Bytes::new(),
                metadata: Metadata { size: None, flags: None },
            }),
            parents: Parents::NoParent,
        })
    );
}

#[test]
fn unknown_tags_are_ignored() {
    let value = record(vec![
        field(9, Value::Text("from a later version".to_string())),
        field(0, key_value("k", 5)),
        field(4, record(vec![field(0, Value::Bool(true))])),
        field(2, Value::List(vec![])),
    ]);
    assert_eq!(
        WireFileEntry::decode(&value),
        Ok(WireFileEntry::new(wire_key("k", 5), None, WireParents::NoParent, None))
    );
}

#[test]
fn the_first_field_with_a_tag_wins() {
    let value = record(vec![field(0, Value::Bool(true)), field(0, Value::Bool(false))]);
    assert_eq!(WireFileAttributes::decode(&value), Ok(WireFileAttributes { content: true }));
    let fields = vec![field(3, Value::Uint(1)), field(5, Value::Uint(2)), field(3, Value::Uint(3))];
    assert_eq!(find(&fields, 3), Some(&Value::Uint(1)));
    assert_eq!(find(&fields, 5), Some(&Value::Uint(2)));
    assert_eq!(find(&fields, 4), None);
    assert_eq!(find(&Vec::new(), 0), None);
}

#[test]
fn values_of_the_wrong_kind_are_rejected() {
    assert_eq!(WireFileEntry::decode(&Value::Bool(true)), Err(DecodeError::UnexpectedKind));
    assert_eq!(WireFileEntry::decode(&Value::List(vec![])), Err(DecodeError::UnexpectedKind));
    assert_eq!(
        WireFileEntry::decode(&record(vec![field(0, Value::Uint(1))])),
        Err(DecodeError::UnexpectedKind)
    );
    assert_eq!(
        WireFileEntry::decode(&record(vec![field(1, Value::Text("x".to_string()))])),
        Err(DecodeError::UnexpectedKind)
    );
    assert_eq!(
        WireFileAttributes::decode(&record(vec![field(0, Value::Uint(1))])),
        Err(DecodeError::UnexpectedKind)
    );
    assert_eq!(bool::decode(&Value::Uint(1)), Err(DecodeError::UnexpectedKind));
    assert_eq!(u64::decode(&Value::Bool(true)), Err(DecodeError::UnexpectedKind));
    assert_eq!(usize::decode(&Value::Bool(true)), Err(DecodeError::UnexpectedKind));
    assert_eq!(String::decode(&Value::Blob(Bytes::new())), Err(DecodeError::UnexpectedKind));
    assert_eq!(Vec::<u8>::decode(&Value::Text(String::new())), Err(DecodeError::UnexpectedKind));
    assert_eq!(Bytes::decode(&Value::Uint(0)), Err(DecodeError::UnexpectedKind));
    assert_eq!(Vec::<WireKey>::decode(&record(vec![])), Err(DecodeError::UnexpectedKind));
    assert_eq!(WireParents::decode(&record(vec![])), Err(DecodeError::UnexpectedKind));
    assert_eq!(WireHgId::decode(&Value::Uint(3)), Err(DecodeError::UnexpectedKind));
    assert!(matches!(as_record(&Value::Uint(3)), Err(DecodeError::UnexpectedKind)));
}

#[test]
fn a_hash_must_be_twenty_bytes() {
    assert_eq!(WireHgId::decode(&Value::Blob(Bytes::from(vec![1u8; 19]))), Err(DecodeError::InvalidLength));
    assert_eq!(WireHgId::decode(&Value::Blob(Bytes::from(vec![1u8; 21]))), Err(DecodeError::InvalidLength));
    assert_eq!(WireHgId::decode(&Value::Blob(Bytes::new())), Err(DecodeError::InvalidLength));
    assert_eq!(HgId::decode(&Value::Blob(Bytes::from(vec![1u8; 3]))), Err(DecodeError::InvalidLength));
    let mut bytes = [0u8; 20];
    for (i, b) in bytes.iter_mut().enumerate() {
        *b = i as u8 * 3;
    }
    assert_eq!(WireHgId::decode(&Value::Blob(Bytes::from(bytes.to_vec()))), Ok(WireHgId { bytes }));
    assert_eq!(WireHgId { bytes }.encode(), Value::Blob(Bytes::from(bytes.to_vec())));
    assert_eq!(HgId { bytes }.encode(), Value::Blob(Bytes::from(bytes.to_vec())));
    assert_eq!(HgId::decode(&HgId { bytes }.encode()), Ok(HgId { bytes }));
}

#[test]
fn parents_are_a_list_of_up_to_two_hashes() {
    assert_eq!(WireParents::NoParent.encode(), Value::List(vec![]));
    assert_eq!(WireParents::One(wire_hash(1)).encode(), Value::List(vec![hash_value(1)]));
    assert_eq!(
        WireParents::Two(wire_hash(1), wire_hash(2)).encode(),
        Value::List(vec![hash_value(1), hash_value(2)])
    );
    assert_eq!(
        WireParents::decode(&Value::List(vec![hash_value(1), hash_value(2)])),
        Ok(WireParents::Two(wire_hash(1), wire_hash(2)))
    );
    assert_eq!(WireParents::decode(&Value::List(vec![hash_value(1)])), Ok(WireParents::One(wire_hash(1))));
    assert_eq!(WireParents::decode(&Value::List(vec![])), Ok(WireParents::NoParent));
    assert_eq!(
        WireParents::decode(&Value::List(vec![hash_value(1), hash_value(2), hash_value(3)])),
        Err(DecodeError::InvalidLength)
    );
    assert_eq!(
        WireParents::decode(&Value::List(vec![Value::Bool(true), Value::Blob(Bytes::new())])),
        Err(DecodeError::UnexpectedKind)
    );
    assert_eq!(
        WireParents::decode(&Value::List(vec![hash_value(1), Value::Blob(Bytes::new())])),
        Err(DecodeError::InvalidLength)
    );
}

#[test]
fn a_list_fails_with_its_first_bad_item() {
    let value = Value::List(vec![
        key_value("a", 1),
        record(vec![field(1, Value::Blob(Bytes::from(vec![1u8; 2])))]),
        Value::Bool(false),
    ]);
    assert_eq!(Vec::<WireKey>::decode(&value), Err(DecodeError::InvalidLength));
    let good = Value::List(vec![key_value("a", 1), key_value("b", 2)]);
    assert_eq!(Vec::<WireKey>::decode(&good), Ok(vec![wire_key("a", 1), wire_key("b", 2)]));
    assert_eq!(vec![wire_key("a", 1), wire_key("b", 2)].encode(), good);
}

#[test]
fn upload_response_uses_tags_one_and_two() {
    let response = WireUploadHgFilenodeResponse {
        index: 3,
        token: WireUploadToken { data: vec![1], signature: vec![2, 3] },
    };
    let value = response.encode();
    assert_eq!(
        value,
        record(vec![
            field(1, Value::Uint(3)),
            field(
                2,
                record(vec![
                    field(0, Value::Blob(Bytes::from(vec![1u8]))),
                    field(1, Value::Blob(Bytes::from(vec![2u8, 3]))),
                ])
            ),
        ])
    );
    assert_eq!(WireUploadHgFilenodeResponse::decode(&value), Ok(response));
    let tag_zero = record(vec![field(0, Value::Uint(9))]);
    assert_eq!(
        WireUploadHgFilenodeResponse::decode(&tag_zero),
        Ok(WireUploadHgFilenodeResponse::default())
    );
}

#[test]
fn filenode_data_uses_tags_zero_to_three() {
    let data = WireHgFilenodeData {
        node_id: wire_hash(1),
        parents: WireParents::One(wire_hash(2)),
        file_content_upload_token: WireUploadToken { data: vec![4], signature: vec![] },
        metadata: vec![5, 6],
    };
    let value = data.encode();
    assert_eq!(
        value,
        record(vec![
            field(0, hash_value(1)),
            field(1, Value::List(vec![hash_value(2)])),
            field(2, record(vec![field(0, Value::Blob(Bytes::from(vec![4u8])))])),
            field(3, Value::Blob(Bytes::from(vec![5u8, 6]))),
        ])
    );
    assert_eq!(WireHgFilenodeData::decode(&value), Ok(data.clone()));
    let request = WireUploadHgFilenodeRequest { data };
    assert_eq!(request.encode(), record(vec![field(0, value)]));
}

#[test]
fn file_request_and_spec_tags() {
    let spec = WireFileSpec { key: wire_key("s", 1), attrs: WireFileAttributes { content: true } };
    assert_eq!(
        spec.encode(),
        record(vec![field(0, key_value("s", 1)), field(1, record(vec![field(0, Value::Bool(true))]))])
    );
    let request = WireFileRequest { keys: vec![wire_key("k", 2)], reqs: vec![spec.clone()] };
    assert_eq!(
        request.encode(),
        record(vec![
            field(0, Value::List(vec![key_value("k", 2)])),
            field(1, Value::List(vec![spec.encode()])),
        ])
    );
    assert_eq!(WireFileRequest::decode(&request.encode()), Ok(request));
}

#[test]
fn commit_types_tags() {
    let request = WireCommitLocationToHashRequest {
        location: WireCommitLocation { descendant: wire_hash(1), distance: 2 },
        count: 3,
    };
    let location_value = record(vec![field(0, hash_value(1)), field(1, Value::Uint(2))]);
    assert_eq!(request.encode(), record(vec![field(0, location_value), field(1, Value::Uint(3))]));
    assert_eq!(WireCommitLocationToHashRequest::decode(&request.encode()), Ok(request));

    let batch = WireCommitLocationToHashRequestBatch { requests: vec![request, request] };
    assert_eq!(
        batch.encode(),
        record(vec![field(0, Value::List(vec![request.encode(), request.encode()]))])
    );
    assert_eq!(WireCommitLocationToHashRequestBatch::decode(&batch.encode()), Ok(batch));

    let response = WireCommitLocationToHashResponse {
        location: request.location,
        count: 3,
        hgids: vec![wire_hash(4), wire_hash(5)],
    };
    assert_eq!(
        response.encode(),
        record(vec![
            field(0, request.location.encode()),
            field(1, Value::Uint(3)),
            field(2, Value::List(vec![hash_value(4), hash_value(5)])),
        ])
    );
    assert_eq!(WireCommitLocationToHashResponse::decode(&response.encode()), Ok(response));

    let revlog_request = CommitRevlogDataRequest { hgids: vec![HgId { bytes: [6; 20] }] };
    assert_eq!(revlog_request.encode(), record(vec![field(0, Value::List(vec![hash_value(6)]))]));
    assert_eq!(CommitRevlogDataRequest::decode(&revlog_request.encode()), Ok(revlog_request));

    let data = CommitRevlogData::new(HgId { bytes: [7; 20] }, Bytes::from(vec![1u8, 2]));
    assert_eq!(
        data.encode(),
        record(vec![field(0, hash_value(7)), field(1, Value::Blob(Bytes::from(vec![1u8, 2])))])
    );
    assert_eq!(CommitRevlogData::decode(&data.encode()), Ok(data));
}

#[test]
fn scalars_are_written_as_themselves() {
    assert_eq!(true.encode(), Value::Bool(true));
    assert_eq!(77u64.encode(), Value::Uint(77));
    assert_eq!(5usize.encode(), Value::Uint(5));
    assert_eq!("héllo".to_string().encode(), Value::Text("héllo".to_string()));
    assert_eq!(vec![1u8, 2].encode(), Value::Blob(Bytes::from(vec![1u8, 2])));
    assert_eq!(Bytes::from(vec![3u8]).encode(), Value::Blob(Bytes::from(vec![3u8])));
    assert_eq!(bool::decode(&Value::Bool(true)), Ok(true));
    assert_eq!(u64::decode(&Value::Uint(u64::MAX)), Ok(u64::MAX));
    assert_eq!(usize::decode(&Value::Uint(12)), Ok(12));
    assert_eq!(String::decode(&Value::Text("héllo".to_string())), Ok("héllo".to_string()));
    assert_eq!(Vec::<u8>::decode(&Value::Blob(Bytes::from(vec![1u8, 2]))), Ok(vec![1u8, 2]));
    assert_eq!(Bytes::decode(&Value::Blob(Bytes::from(vec![3u8]))), Ok(Bytes::from(vec![3u8])));
}

#[test]
fn record_helpers_write_and_read_fields() {
    let mut fields = Vec::new();
    put_field(&mut fields, 4, None);
    assert!(fields.is_empty());
    put_field(&mut fields, 4, Some(Value::Uint(1)));
    write_field(&mut fields, 5, &0u64);
    write_field(&mut fields, 6, &9u64);
    write_optional_field(&mut fields, 7, &Some(0u64));
    write_optional_field::<u64>(&mut fields, 8, &None);
    assert_eq!(
        fields,
        vec![field(4, Value::Uint(1)), field(6, Value::Uint(9)), field(7, Value::Uint(0))]
    );
    assert_eq!(read_field::<u64>(&fields, 4), Ok(1));
    assert_eq!(read_field::<u64>(&fields, 5), Ok(0));
    assert_eq!(read_field::<bool>(&fields, 6), Err(DecodeError::UnexpectedKind));
    assert_eq!(read_optional_field::<u64>(&fields, 7), Ok(Some(0)));
    assert_eq!(read_optional_field::<u64>(&fields, 8), Ok(None));
    assert_eq!(read_optional_field::<bool>(&fields, 7), Err(DecodeError::UnexpectedKind));
}

#[test]
fn buffers_copy_their_bytes() {
    let buffer = bytes_from_vec(&vec![1u8, 2, 3]);
    assert_eq!(&buffer[..], &[1u8, 2, 3]);
    assert_eq!(bytes_to_vec(&buffer), vec![1u8, 2, 3]);
    assert_eq!(bytes_to_vec(&Bytes::new()), Vec::<u8>::new());
    assert_eq!(bytes_to_vec(&buffer.clone()), vec![1u8, 2, 3]);
}
