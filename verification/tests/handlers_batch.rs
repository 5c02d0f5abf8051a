use bytes::Bytes;
use edenapi_core::commit::{
    CommitLocationToHashRequest, CommitRevlogData, CommitRevlogDataRequest, HgChangesetId,
    Location, WireCommitLocation, WireCommitLocationToHashRequest,
    WireCommitLocationToHashRequestBatch, WireCommitLocationToHashResponse,
};
use edenapi_core::errors::{ErrorKind, StorageError};
use edenapi_core::handlers::{
    location_to_hash, revlog_data, EdenApiMethod, HandlerInfo, LocationToHashParams,
    RevlogDataParams, MAX_CONCURRENT_FETCHES_PER_REQUEST,
};
use edenapi_core::ids::{HgId, WireHgId};
use edenapi_core::pipeline::Step;

fn hash(seed: u8) -> HgId {
    HgId { bytes: [seed; 20] }
}

fn wire_hash(seed: u8) -> WireHgId {
    WireHgId { bytes: [seed; 20] }
}

fn changeset(seed: u8) -> HgChangesetId {
    HgChangesetId::new(hash(seed))
}

fn wire_request(seed: u8, distance: u64, count: u64) -> WireCommitLocationToHashRequest {
    WireCommitLocationToHashRequest {
        location: WireCommitLocation { descendant: wire_hash(seed), distance },
        count,
    }
}

fn store_down() -> StorageError {
    StorageError { message: "store unavailable".to_string() }
}

#[test]
fn concurrency_ceiling_is_one_hundred() {
    assert_eq!(MAX_CONCURRENT_FETCHES_PER_REQUEST, 100);
}

#[test]
fn params_keep_the_repository_name() {
    let params = LocationToHashParams::new("fbsource".to_string());
    assert_eq!(params.repo(), "fbsource");
    let params = RevlogDataParams::new("www".to_string());
    assert_eq!(params.repo(), "www");
    let info = HandlerInfo::new(&"repo".to_string(), EdenApiMethod::CommitRevlogData);
    assert_eq!(info, HandlerInfo { repo: "repo".to_string(), method: EdenApiMethod::CommitRevlogData });
}

#[test]
fn location_batch_answers_each_request_with_its_own_location_and_count() {
    let params = LocationToHashParams::new("repo".to_string());
    let batch = WireCommitLocationToHashRequestBatch {
        requests: vec![wire_request(1, 0, 1), wire_request(2, 5, 2), wire_request(3, 9, 3)],
    };
    let mut run = location_to_hash(&params, batch.clone()).unwrap();
    assert_eq!(
        run.info(),
        &HandlerInfo { repo: "repo".to_string(), method: EdenApiMethod::CommitLocationToHash }
    );

    let mut queries = Vec::new();
    while let Some(query) = run.start_next() {
        queries.push(query);
    }
    assert_eq!(
        queries,
        vec![
            (0, Location { descendant: changeset(1), distance: 0 }, 1),
            (1, Location { descendant: changeset(2), distance: 5 }, 2),
            (2, Location { descendant: changeset(3), distance: 9 }, 3),
        ]
    );
    assert_eq!(run.running(), 3);

    let mut written = Vec::new();
    for index in [2usize, 0, 1] {
        let seed = 10 * (index as u8 + 1);
        match run.complete(index, Ok(vec![changeset(seed), changeset(seed + 1)])) {
            Step::Yield(wire) => written.push(wire),
            other => panic!("unexpected step {:?}", other),
        }
    }
    assert!(run.is_finished());
    assert_eq!(
        written,
        vec![
            WireCommitLocationToHashResponse {
                location: WireCommitLocation { descendant: wire_hash(3), distance: 9 },
                count: 3,
                hgids: vec![wire_hash(30), wire_hash(31)],
            },
            WireCommitLocationToHashResponse {
                location: WireCommitLocation { descendant: wire_hash(1), distance: 0 },
                count: 1,
                hgids: vec![wire_hash(10), wire_hash(11)],
            },
            WireCommitLocationToHashResponse {
                location: WireCommitLocation { descendant: wire_hash(2), distance: 5 },
                count: 2,
                hgids: vec![wire_hash(20), wire_hash(21)],
            },
        ]
    );
    let mut answered: Vec<WireCommitLocationToHashRequest> = written
        .iter()
        .map(|w| WireCommitLocationToHashRequest { location: w.location, count: w.count })
        .collect();
    answered.sort_by_key(|r| r.count);
    assert_eq!(answered, batch.requests);
}

#[test]
fn location_batch_of_three_ancestors_scenario() {
    let params = LocationToHashParams::new("repo".to_string());
    let batch = WireCommitLocationToHashRequestBatch { requests: vec![wire_request(7, 2, 3)] };
    let mut run = location_to_hash(&params, batch).unwrap();
    assert_eq!(run.start_next(), Some((0, Location { descendant: changeset(7), distance: 2 }, 3)));
    assert_eq!(
        run.complete(0, Ok(vec![changeset(1), changeset(2), changeset(3)])),
        Step::Yield(WireCommitLocationToHashResponse {
            location: WireCommitLocation { descendant: wire_hash(7), distance: 2 },
            count: 3,
            hgids: vec![wire_hash(1), wire_hash(2), wire_hash(3)],
        })
    );
    assert!(run.is_finished());
}

#[test]
fn location_batch_stops_at_the_first_store_failure() {
    let params = LocationToHashParams::new("repo".to_string());
    let requests: Vec<_> = (0..5u8).map(|i| wire_request(i, 1, 1)).collect();
    let mut run = location_to_hash(&params, WireCommitLocationToHashRequestBatch { requests }).unwrap();
    while run.start_next().is_some() {}
    assert!(matches!(run.complete(3, Ok(vec![changeset(1)])), Step::Yield(_)));
    assert_eq!(
        run.complete(1, Err(store_down())),
        Step::Terminate(ErrorKind::CommitLocationToHashRequestFailed(store_down()))
    );
    assert!(run.is_finished());
    assert_eq!(run.running(), 0);
    assert_eq!(run.start_next(), None);
    assert_eq!(run.complete(0, Ok(vec![changeset(1)])), Step::Ignored);
    assert_eq!(run.complete(2, Err(store_down())), Step::Ignored);
}

#[test]
fn location_batch_runs_at_most_one_hundred_lookups() {
    let params = LocationToHashParams::new("repo".to_string());
    let requests: Vec<_> = (0..250u32).map(|i| wire_request((i % 200) as u8, i as u64, 1)).collect();
    let mut run = location_to_hash(&params, WireCommitLocationToHashRequestBatch { requests }).unwrap();
    let mut started = 0;
    while run.start_next().is_some() {
        started += 1;
    }
    assert_eq!(started, 100);
    assert_eq!(run.running(), 100);
    assert!(matches!(run.complete(42, Ok(vec![])), Step::Yield(_)));
    assert_eq!(run.running(), 99);
    assert_eq!(run.start_next().map(|q| q.0), Some(100));
    assert_eq!(run.start_next(), None);
}

#[test]
fn location_batch_resolves_duplicates_independently() {
    let params = LocationToHashParams::new("repo".to_string());
    let batch = WireCommitLocationToHashRequestBatch {
        requests: vec![wire_request(1, 1, 1), wire_request(1, 1, 1)],
    };
    let mut run = location_to_hash(&params, batch).unwrap();
    assert_eq!(run.start_next().map(|q| q.0), Some(0));
    assert_eq!(run.start_next().map(|q| q.0), Some(1));
    assert!(matches!(run.complete(0, Ok(vec![changeset(5)])), Step::Yield(_)));
    assert!(!run.is_finished());
    assert!(matches!(run.complete(1, Ok(vec![changeset(6)])), Step::Yield(_)));
    assert!(run.is_finished());
}

#[test]
fn empty_location_batch_is_finished_at_once() {
    let params = LocationToHashParams::new("repo".to_string());
    let mut run =
        location_to_hash(&params, WireCommitLocationToHashRequestBatch { requests: vec![] }).unwrap();
    assert!(run.is_finished());
    assert_eq!(run.start_next(), None);
}

#[test]
fn revlog_batch_pairs_each_hash_with_its_payload() {
    let params = RevlogDataParams::new("repo".to_string());
    let mut run = revlog_data(&params, CommitRevlogDataRequest { hgids: vec![hash(1), hash(2)] });
    assert_eq!(
        run.info(),
        &HandlerInfo { repo: "repo".to_string(), method: EdenApiMethod::CommitRevlogData }
    );
    assert_eq!(run.start_next(), Some((0, changeset(1))));
    assert_eq!(run.start_next(), Some((1, changeset(2))));
    assert_eq!(run.start_next(), None);
    assert_eq!(
        run.complete(1, Ok(Some(Bytes::from(vec![2u8, 2])))),
        Step::Yield(CommitRevlogData::new(hash(2), Bytes::from(vec![2u8, 2])))
    );
    assert_eq!(
        run.complete(0, Ok(Some(Bytes::from(vec![1u8])))),
        Step::Yield(CommitRevlogData::new(hash(1), Bytes::from(vec![1u8])))
    );
    assert!(run.is_finished());
}

#[test]
fn revlog_batch_ends_with_not_found_for_a_missing_hash() {
    let params = RevlogDataParams::new("repo".to_string());
    let mut run =
        revlog_data(&params, CommitRevlogDataRequest { hgids: vec![hash(1), hash(2), hash(3)] });
    while run.start_next().is_some() {}
    assert!(matches!(run.complete(0, Ok(Some(Bytes::from(vec![1u8])))), Step::Yield(_)));
    assert_eq!(run.complete(1, Ok(None)), Step::Terminate(ErrorKind::HgIdNotFound(hash(2))));
    assert!(run.is_finished());
    assert_eq!(run.complete(1, Ok(Some(Bytes::from(vec![2u8])))), Step::Ignored);
    assert_eq!(run.complete(2, Ok(Some(Bytes::from(vec![3u8])))), Step::Ignored);
    assert_eq!(run.running(), 0);
}

#[test]
fn revlog_batch_wraps_a_store_failure() {
    let params = RevlogDataParams::new("repo".to_string());
    let mut run = revlog_data(&params, CommitRevlogDataRequest { hgids: vec![hash(1)] });
    assert_eq!(run.start_next(), Some((0, changeset(1))));
    assert_eq!(
        run.complete(0, Err(store_down())),
        Step::Terminate(ErrorKind::CommitRevlogDataRequestFailed(store_down()))
    );
}

#[test]
fn location_request_fields_reach_the_store_unchanged() {
    let request = CommitLocationToHashRequest { location: Location::new(hash(4), 6), count: 2 };
    let params = LocationToHashParams::new("repo".to_string());
    let batch = WireCommitLocationToHashRequestBatch { requests: vec![request.to_wire()] };
    let mut run = location_to_hash(&params, batch).unwrap();
    let (index, location, count) = run.start_next().unwrap();
    assert_eq!((index, location.descendant.into_hgid(), location.distance, count), (0, hash(4), 6, 2));
}
