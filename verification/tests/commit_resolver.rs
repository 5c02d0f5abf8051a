use bytes::Bytes;
use edenapi_core::commit::{
    commit_revlog_data, location_query, revlog_query, translate_location,
    CommitLocationToHashRequest, CommitLocationToHashRequestBatch, CommitLocationToHashResponse,
    CommitRevlogData, HgChangesetId, Location, WireCommitLocation,
    WireCommitLocationToHashRequest, WireCommitLocationToHashRequestBatch,
    WireCommitLocationToHashResponse,
};
use edenapi_core::errors::{ErrorKind, StorageError};
use edenapi_core::ids::{HgId, WireHgId};

fn hash(seed: u8) -> HgId {
    HgId { bytes: [seed; 20] }
}

fn wire_hash(seed: u8) -> WireHgId {
    WireHgId { bytes: [seed; 20] }
}

fn changeset(seed: u8) -> HgChangesetId {
    HgChangesetId::new(hash(seed))
}

fn store_down() -> StorageError {
    StorageError { message: "store unavailable".to_string() }
}

#[test]
fn location_with_three_ancestors_gives_them_in_order() {
    let request = CommitLocationToHashRequest { location: Location::new(hash(9), 4), count: 3 };
    let answer = translate_location(request, Ok(vec![changeset(1), changeset(2), changeset(3)]));
    assert_eq!(
        answer,
        Ok(CommitLocationToHashResponse {
            location: Location { descendant: hash(9), distance: 4 },
            count: 3,
            hgids: vec![hash(1), hash(2), hash(3)],
        })
    );
}

#[test]
fn location_response_echoes_count_even_when_fewer_ancestors_come_back() {
    let request = CommitLocationToHashRequest { location: Location::new(hash(9), 0), count: 5 };
    let answer = translate_location(request, Ok(vec![changeset(1)])).unwrap();
    assert_eq!(answer.count, 5);
    assert_eq!(answer.location, request.location);
    assert_eq!(answer.hgids, vec![hash(1)]);
}

#[test]
fn location_with_no_ancestors_gives_an_empty_list() {
    let request = CommitLocationToHashRequest { location: Location::new(hash(9), 1), count: 0 };
    let answer = translate_location(request, Ok(vec![])).unwrap();
    assert_eq!(answer.hgids, Vec::<HgId>::new());
    assert_eq!(answer.count, 0);
}

#[test]
fn location_store_failure_is_wrapped_with_its_cause() {
    let request = CommitLocationToHashRequest { location: Location::new(hash(9), 4), count: 3 };
    assert_eq!(
        translate_location(request, Err(store_down())),
        Err(ErrorKind::CommitLocationToHashRequestFailed(store_down()))
    );
}

#[test]
fn location_query_rewrites_only_the_descendant() {
    let request = CommitLocationToHashRequest { location: Location::new(hash(3), 12), count: 7 };
    let (location, count) = location_query(&request);
    assert_eq!(location, Location { descendant: changeset(3), distance: 12 });
    assert_eq!(count, 7);
}

#[test]
fn map_descendant_keeps_the_distance() {
    let location = Location::new(5u8, 44);
    let mapped = location.map_descendant(|d| u32::from(d) + 1);
    assert_eq!(mapped, Location { descendant: 6u32, distance: 44 });
}

#[test]
fn changeset_id_wraps_the_hash() {
    assert_eq!(HgChangesetId::new(hash(4)).into_hgid(), hash(4));
    assert_eq!(revlog_query(hash(4)), changeset(4));
}

#[test]
fn revlog_data_for_known_hash_pairs_it_with_the_payload() {
    let answer = commit_revlog_data(hash(8), Ok(Some(Bytes::from(vec![1u8, 2, 3]))));
    assert_eq!(answer, Ok(CommitRevlogData::new(hash(8), Bytes::from(vec![1u8, 2, 3]))));
    let data = answer.unwrap();
    assert_eq!(data.hgid, hash(8));
    assert_eq!(&data.revlog_data[..], &[1u8, 2, 3]);
}

#[test]
fn revlog_data_for_unknown_hash_is_not_found() {
    assert_eq!(commit_revlog_data(hash(8), Ok(None)), Err(ErrorKind::HgIdNotFound(hash(8))));
}

#[test]
fn revlog_data_store_failure_is_wrapped_with_its_cause() {
    assert_eq!(
        commit_revlog_data(hash(8), Err(store_down())),
        Err(ErrorKind::CommitRevlogDataRequestFailed(store_down()))
    );
}

#[test]
fn revlog_data_clone_holds_the_same_payload() {
    let data = CommitRevlogData::new(hash(1), Bytes::from(vec![5u8, 6]));
    let copy = data.clone();
    assert_eq!(copy, data);
    assert_eq!(&copy.revlog_data[..], &[5u8, 6]);
}

#[test]
fn location_types_convert_both_ways() {
    let request = CommitLocationToHashRequest { location: Location::new(hash(2), 3), count: 4 };
    let wire = request.to_wire();
    assert_eq!(
        wire,
        WireCommitLocationToHashRequest {
            location: WireCommitLocation { descendant: wire_hash(2), distance: 3 },
            count: 4,
        }
    );
    assert_eq!(wire.to_api(), Ok(request));
    assert_eq!(request.location.to_wire().to_api(), Ok(request.location));
}

#[test]
fn location_response_converts_both_ways() {
    let response = CommitLocationToHashResponse {
        location: Location::new(hash(2), 3),
        count: 2,
        hgids: vec![hash(5), hash(6)],
    };
    let wire = response.clone().to_wire();
    assert_eq!(
        wire,
        WireCommitLocationToHashResponse {
            location: WireCommitLocation { descendant: wire_hash(2), distance: 3 },
            count: 2,
            hgids: vec![wire_hash(5), wire_hash(6)],
        }
    );
    assert_eq!(wire.to_api(), Ok(response));
}

#[test]
fn batch_converts_every_request_in_order() {
    let a = CommitLocationToHashRequest { location: Location::new(hash(1), 1), count: 1 };
    let b = CommitLocationToHashRequest { location: Location::new(hash(2), 2), count: 2 };
    let batch = CommitLocationToHashRequestBatch { requests: vec![a, b, a] };
    let wire = batch.clone().to_wire();
    assert_eq!(
        wire,
        WireCommitLocationToHashRequestBatch {
            requests: vec![a.to_wire(), b.to_wire(), a.to_wire()],
        }
    );
    assert_eq!(wire.to_api(), Ok(batch));
}
