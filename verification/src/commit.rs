//! Commit lookups: the requests and responses, their wire forms, and the
//! two resolvers.
//!
//! A resolver is split at the store. What is asked of the store is computed
//! from the request; what the client is told is computed from the request
//! and from the store's answer. The store itself is outside this crate.

use vstd::prelude::*;

use bytes::Bytes;

use crate::blob::bytes_contents;
use crate::errors::{ErrorKind, StorageError, WireToApiConversionError};
use crate::ids::{HgId, WireHgId};

verus! {

/// The store's name for a commit.
#[derive(Clone, Copy, Debug, PartialEq, Eq, Hash)]
pub struct HgChangesetId {
    pub id: HgId,
}

impl HgChangesetId {
    pub fn new(id: HgId) -> (changeset: HgChangesetId)
        ensures
            changeset.id == id,
    {
        HgChangesetId { id }
    }

    /// The hash under which clients know the commit.
    pub fn into_hgid(self) -> (id: HgId)
        ensures
            id == self.id,
    {
        self.id
    }
}

/// A commit named by its place in history: the ancestor of `descendant`
/// that lies `distance` steps back along first parents.
#[derive(Clone, Copy, Debug, PartialEq, Eq, Hash)]
pub struct Location<T> {
    pub descendant: T,
    pub distance: u64,
}

/// Wire form of a location whose descendant is a hash.
#[derive(Clone, Copy, Debug, PartialEq, Eq, Hash)]
pub struct WireCommitLocation {
    pub descendant: WireHgId,
    pub distance: u64,
}

impl<T> Location<T> {
    pub fn new(descendant: T, distance: u64) -> (location: Location<T>)
        ensures
            location == (Location { descendant, distance }),
    {
        Location { descendant, distance }
    }

    /// The same location with its descendant renamed by `rename`. The
    /// distance is kept: the location is rewritten, not reinterpreted.
    pub fn map_descendant<U, F: FnOnce(T) -> U>(self, rename: F) -> (location: Location<U>)
        requires
            rename.requires((self.descendant,)),
        ensures
            rename.ensures((self.descendant,), location.descendant),
            location.distance == self.distance,
    {
        Location { descendant: rename(self.descendant), distance: self.distance }
    }
}

impl Location<HgId> {
    /// The wire form of a location: the descendant's wire form and the same
    /// distance.
    pub open spec fn wire_form(self) -> WireCommitLocation {
        WireCommitLocation { descendant: self.descendant.wire_form(), distance: self.distance }
    }

    /// The location as the store names it.
    pub open spec fn in_store(self) -> Location<HgChangesetId> {
        Location {
            descendant: HgChangesetId { id: self.descendant },
            distance: self.distance,
        }
    }

    /// The wire form of the value. Never fails.
    pub fn to_wire(self) -> (wire: WireCommitLocation)
        ensures
            wire == self.wire_form(),
    {
        WireCommitLocation { descendant: self.descendant.to_wire(), distance: self.distance }
    }
}

impl WireCommitLocation {
    /// The location that a wire location stands for.
    pub open spec fn api_form(self) -> Location<HgId> {
        Location { descendant: self.descendant.api_form(), distance: self.distance }
    }

    /// The value that the wire form stands for. Every wire value of this
    /// type stands for one.
    pub fn to_api(self) -> (api: Result<Location<HgId>, WireToApiConversionError>)
        ensures
            api == Ok::<Location<HgId>, WireToApiConversionError>(self.api_form()),
    {
        Ok(Location { descendant: self.descendant.to_api()?, distance: self.distance })
    }
}

/// A request for up to `count` ancestors of a commit, starting at
/// `location`.
#[derive(Clone, Copy, Debug, PartialEq, Eq, Hash)]
pub struct CommitLocationToHashRequest {
    pub location: Location<HgId>,
    pub count: u64,
}

/// Wire form of [`CommitLocationToHashRequest`].
#[derive(Clone, Copy, Debug, PartialEq, Eq, Hash)]
pub struct WireCommitLocationToHashRequest {
    pub location: WireCommitLocation,
    pub count: u64,
}

impl CommitLocationToHashRequest {
    /// The wire form of a request, field by field.
    pub open spec fn wire_form(self) -> WireCommitLocationToHashRequest {
        WireCommitLocationToHashRequest {
            location: self.location.wire_form(),
            count: self.count,
        }
    }

    /// The wire form of the value. Never fails.
    pub fn to_wire(self) -> (wire: WireCommitLocationToHashRequest)
        ensures
            wire == self.wire_form(),
    {
        WireCommitLocationToHashRequest { location: self.location.to_wire(), count: self.count }
    }
}

impl WireCommitLocationToHashRequest {
    /// The request that a wire request stands for.
    pub open spec fn api_form(self) -> CommitLocationToHashRequest {
        CommitLocationToHashRequest { location: self.location.api_form(), count: self.count }
    }

    /// The value that the wire form stands for. Every wire value of this
    /// type stands for one.
    pub fn to_api(self) -> (api: Result<CommitLocationToHashRequest, WireToApiConversionError>)
        ensures
            api == Ok::<CommitLocationToHashRequest, WireToApiConversionError>(self.api_form()),
    {
        Ok(CommitLocationToHashRequest { location: self.location.to_api()?, count: self.count })
    }
}

/// A batch of location requests as it arrives.
#[derive(Clone, Debug, PartialEq, Eq, Hash)]
pub struct WireCommitLocationToHashRequestBatch {
    pub requests: Vec<WireCommitLocationToHashRequest>,
}

/// A batch of location requests.
#[derive(Clone, Debug, PartialEq, Eq, Hash)]
pub struct CommitLocationToHashRequestBatch {
    pub requests: Vec<CommitLocationToHashRequest>,
}

impl CommitLocationToHashRequestBatch {
    /// The wire form of the value. Never fails.
    pub fn to_wire(self) -> (wire: WireCommitLocationToHashRequestBatch)
        ensures
            wire.requests@ == self.requests@.map_values(
                |r: CommitLocationToHashRequest| r.wire_form(),
            ),
    {
        let mut requests: Vec<WireCommitLocationToHashRequest> = Vec::new();
        for request in it: self.requests
            invariant
                requests@.len() == it.index(),
                forall|j: int| 0 <= j < requests@.len() ==> requests@[j] == it.seq()[j].wire_form(),
        {
            requests.push(request.to_wire());
        }
        assert(requests@ =~= self.requests@.map_values(
            |r: CommitLocationToHashRequest| r.wire_form(),
        ));
        WireCommitLocationToHashRequestBatch { requests }
    }
}

impl WireCommitLocationToHashRequestBatch {
    /// Decodes every request of the batch, in order. A request that does
    /// not decode fails the whole batch.
    pub fn to_api(self) -> (api: Result<
        CommitLocationToHashRequestBatch,
        WireToApiConversionError,
    >)
        ensures
            api matches Ok(batch) && batch.requests@ == self.requests@.map_values(
                |r: WireCommitLocationToHashRequest| r.api_form(),
            ),
    {
        let mut requests: Vec<CommitLocationToHashRequest> = Vec::new();
        for request in it: self.requests
            invariant
                requests@.len() == it.index(),
                forall|j: int| 0 <= j < requests@.len() ==> requests@[j] == it.seq()[j].api_form(),
        {
            requests.push(request.to_api()?);
        }
        assert(requests@ =~= self.requests@.map_values(
            |r: WireCommitLocationToHashRequest| r.api_form(),
        ));
        Ok(CommitLocationToHashRequestBatch { requests })
    }
}

/// The model of a location response.
pub struct CommitLocationToHashResponseView {
    pub location: Location<HgId>,
    pub count: u64,
    pub hgids: Seq<HgId>,
}

/// The model of a wire location response.
pub struct WireCommitLocationToHashResponseView {
    pub location: WireCommitLocation,
    pub count: u64,
    pub hgids: Seq<WireHgId>,
}

impl CommitLocationToHashResponseView {
    /// The wire form of a response: the echoed request fields and the wire
    /// form of each hash, in order.
    pub open spec fn wire_form(self) -> WireCommitLocationToHashResponseView {
        WireCommitLocationToHashResponseView {
            location: self.location.wire_form(),
            count: self.count,
            hgids: self.hgids.map_values(|id: HgId| id.wire_form()),
        }
    }

    /// Whether the response answers `request`: it echoes the request's
    /// location and count.
    pub open spec fn answers(self, request: CommitLocationToHashRequest) -> bool {
        self.location == request.location && self.count == request.count
    }
}

impl WireCommitLocationToHashResponseView {
    /// The response that a wire response stands for.
    pub open spec fn api_form(self) -> CommitLocationToHashResponseView {
        CommitLocationToHashResponseView {
            location: self.location.api_form(),
            count: self.count,
            hgids: self.hgids.map_values(|id: WireHgId| id.api_form()),
        }
    }
}

/// The answer to one location request. It repeats the request's location
/// and count, so that a client can tell which request it answers whatever
/// the order of arrival.
#[derive(Clone, Debug, PartialEq, Eq, Hash)]
pub struct CommitLocationToHashResponse {
    pub location: Location<HgId>,
    pub count: u64,
    pub hgids: Vec<HgId>,
}

/// Wire form of [`CommitLocationToHashResponse`].
#[derive(Clone, Debug, PartialEq, Eq, Hash)]
pub struct WireCommitLocationToHashResponse {
    pub location: WireCommitLocation,
    pub count: u64,
    pub hgids: Vec<WireHgId>,
}

impl View for CommitLocationToHashResponse {
    type V = CommitLocationToHashResponseView;

    open spec fn view(&self) -> CommitLocationToHashResponseView {
        CommitLocationToHashResponseView {
            location: self.location,
            count: self.count,
            hgids: self.hgids@,
        }
    }
}

impl View for WireCommitLocationToHashResponse {
    type V = WireCommitLocationToHashResponseView;

    open spec fn view(&self) -> WireCommitLocationToHashResponseView {
        WireCommitLocationToHashResponseView {
            location: self.location,
            count: self.count,
            hgids: self.hgids@,
        }
    }
}

impl CommitLocationToHashResponse {
    /// The wire form of the value. Never fails.
    pub fn to_wire(self) -> (wire: WireCommitLocationToHashResponse)
        ensures
            wire@ == self@.wire_form(),
    {
        let mut hgids: Vec<WireHgId> = Vec::new();
        for id in it: self.hgids
            invariant
                hgids@.len() == it.index(),
                forall|j: int| 0 <= j < hgids@.len() ==> hgids@[j] == it.seq()[j].wire_form(),
        {
            hgids.push(id.to_wire());
        }
        assert(hgids@ =~= self.hgids@.map_values(|id: HgId| id.wire_form()));
        WireCommitLocationToHashResponse {
            location: self.location.to_wire(),
            count: self.count,
            hgids,
        }
    }
}

impl WireCommitLocationToHashResponse {
    /// The value that the wire form stands for. Every wire value of this
    /// type stands for one.
    pub fn to_api(self) -> (api: Result<CommitLocationToHashResponse, WireToApiConversionError>)
        ensures
            api matches Ok(response) && response@ == self@.api_form(),
    {
        let mut hgids: Vec<HgId> = Vec::new();
        for id in it: self.hgids
            invariant
                hgids@.len() == it.index(),
                forall|j: int| 0 <= j < hgids@.len() ==> hgids@[j] == it.seq()[j].api_form(),
        {
            hgids.push(id.to_api()?);
        }
        assert(hgids@ =~= self.hgids@.map_values(|id: WireHgId| id.api_form()));
        Ok(
            CommitLocationToHashResponse {
                location: self.location.to_api()?,
                count: self.count,
                hgids,
            },
        )
    }
}

/// The model of a commit's historical record.
pub struct CommitRevlogDataView {
    pub hgid: HgId,
    pub revlog_data: Seq<u8>,
}

/// A commit's record in the historical format, as the store holds it. The
/// payload is passed on unread.
#[derive(Debug, PartialEq, Eq)]
pub struct CommitRevlogData {
    pub hgid: HgId,
    pub revlog_data: Bytes,
}

impl View for CommitRevlogData {
    type V = CommitRevlogDataView;

    open spec fn view(&self) -> CommitRevlogDataView {
        CommitRevlogDataView { hgid: self.hgid, revlog_data: bytes_contents(self.revlog_data) }
    }
}

impl Clone for CommitRevlogData {
    fn clone(&self) -> (copy: CommitRevlogData)
        ensures
            copy@ == self@,
    {
        CommitRevlogData { hgid: self.hgid, revlog_data: self.revlog_data.clone() }
    }
}

impl CommitRevlogData {
    pub fn new(hgid: HgId, revlog_data: Bytes) -> (data: CommitRevlogData)
        ensures
            data == (CommitRevlogData { hgid, revlog_data }),
    {
        CommitRevlogData { hgid, revlog_data }
    }
}

/// A request for the historical records of some commits.
#[derive(Clone, Debug, PartialEq, Eq, Hash)]
pub struct CommitRevlogDataRequest {
    pub hgids: Vec<HgId>,
}

/// What a location request asks of the store: the location in the store's
/// naming, and the number of ancestors wanted.
pub fn location_query(request: &CommitLocationToHashRequest) -> (query: (
    Location<HgChangesetId>,
    u64,
))
    ensures
        query.0 == request.location.in_store(),
        query.1 == request.count,
{
    let location = request.location.map_descendant(HgChangesetId::new);
    (location, request.count)
}

/// The answer to a location request, given what the store returned for it.
///
/// A failure of the store becomes `CommitLocationToHashRequestFailed` with
/// the store's error as its cause. Otherwise the response repeats the
/// request's location and count and lists the ancestors in the store's
/// order.
pub fn translate_location(
    request: CommitLocationToHashRequest,
    ancestors: Result<Vec<HgChangesetId>, StorageError>,
) -> (answer: Result<CommitLocationToHashResponse, ErrorKind>)
    ensures
        match ancestors {
            Ok(found) => answer matches Ok(response) && response@ == (
            CommitLocationToHashResponseView {
                location: request.location,
                count: request.count,
                hgids: found@.map_values(|c: HgChangesetId| c.id),
            }),
            Err(cause) => answer == Err::<CommitLocationToHashResponse, ErrorKind>(
                ErrorKind::CommitLocationToHashRequestFailed(cause),
            ),
        },
{
    match ancestors {
        Err(cause) => Err(ErrorKind::CommitLocationToHashRequestFailed(cause)),
        Ok(found) => {
            let mut hgids: Vec<HgId> = Vec::new();
            for changeset in it: found
                invariant
                    hgids@.len() == it.index(),
                    forall|j: int| 0 <= j < hgids@.len() ==> hgids@[j] == it.seq()[j].id,
            {
                hgids.push(changeset.into_hgid());
            }
            assert(hgids@ =~= found@.map_values(|c: HgChangesetId| c.id));
            Ok(
                CommitLocationToHashResponse {
                    location: request.location,
                    count: request.count,
                    hgids,
                },
            )
        },
    }
}

/// What a request for a commit's historical record asks of the store.
pub fn revlog_query(hg_id: HgId) -> (changeset: HgChangesetId)
    ensures
        changeset.id == hg_id,
{
    HgChangesetId::new(hg_id)
}

/// The answer to a request for a commit's historical record, given what the
/// store returned for it.
///
/// A failure of the store becomes `CommitRevlogDataRequestFailed` with the
/// store's error as its cause. A store that holds no such commit gives
/// `HgIdNotFound` with the hash. Otherwise the hash is paired with the
/// payload as it came.
pub fn commit_revlog_data(hg_id: HgId, fetched: Result<Option<Bytes>, StorageError>) -> (answer:
    Result<CommitRevlogData, ErrorKind>)
    ensures
        answer == match fetched {
            Ok(Some(bytes)) => Ok::<CommitRevlogData, ErrorKind>(
                CommitRevlogData { hgid: hg_id, revlog_data: bytes },
            ),
            Ok(None) => Err(ErrorKind::HgIdNotFound(hg_id)),
            Err(cause) => Err(ErrorKind::CommitRevlogDataRequestFailed(cause)),
        },
{
    match fetched {
        Err(cause) => Err(ErrorKind::CommitRevlogDataRequestFailed(cause)),
        Ok(None) => Err(ErrorKind::HgIdNotFound(hg_id)),
        Ok(Some(bytes)) => Ok(CommitRevlogData::new(hg_id, bytes)),
    }
}

/// Locations, requests and responses come back unchanged from their wire
/// forms.
pub proof fn lemma_commit_roundtrip(
    location: Location<HgId>,
    request: CommitLocationToHashRequest,
    response: CommitLocationToHashResponseView,
)
    ensures
        location.wire_form().api_form() == location,
        request.wire_form().api_form() == request,
        response.wire_form().api_form() == response,
{
    assert(response.wire_form().api_form().hgids =~= response.hgids);
}

/// The wire form of a response answers the same request as the response.
pub proof fn lemma_wire_response_echoes(
    response: CommitLocationToHashResponseView,
    request: CommitLocationToHashRequest,
)
    requires
        response.answers(request),
    ensures
        response.wire_form().location == request.wire_form().location,
        response.wire_form().count == request.wire_form().count,
        response.wire_form().api_form().answers(request),
{
    lemma_commit_roundtrip(request.location, request, response);
}

} // verus!
