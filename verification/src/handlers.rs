//! The commit endpoints, without their transport.
//!
//! An endpoint takes the decoded parameters and the decoded batch, and
//! hands back a batch in progress. The caller asks the batch which lookup
//! to send next, performs it against the store, and reports the store's
//! answer; the batch says what, if anything, to write to the client. Each
//! result is in its final form when it leaves.

use vstd::prelude::*;

use bytes::Bytes;

use crate::commit::{
    commit_revlog_data, location_query, revlog_query, translate_location,
    CommitLocationToHashRequest, CommitLocationToHashResponseView, CommitRevlogData,
    CommitRevlogDataRequest, CommitRevlogDataView, HgChangesetId, Location,
    WireCommitLocationToHashRequest, WireCommitLocationToHashRequestBatch,
    WireCommitLocationToHashResponse, WireCommitLocationToHashResponseView,
};
use crate::blob::bytes_contents;
use crate::errors::{ErrorKind, StorageError, WireToApiConversionError};
use crate::ids::HgId;
use crate::pipeline::{
    lemma_fail_wf, lemma_finished_delivers_all, lemma_start_wf, lemma_succeed_wf, Pipeline,
    PipelineView, Step,
};

verus! {

/// The most lookups that one request may have in flight at once. The number
/// is a ceiling found by experience, not part of the protocol.
pub const MAX_CONCURRENT_FETCHES_PER_REQUEST: usize = 100;

/// The endpoints of this module.
#[derive(Clone, Copy, Debug, PartialEq, Eq, Hash)]
pub enum EdenApiMethod {
    CommitLocationToHash,
    CommitRevlogData,
}

/// What is recorded about a request for logging: the repository it names
/// and the endpoint it reached.
#[derive(Clone, Debug, PartialEq, Eq)]
pub struct HandlerInfo {
    pub repo: String,
    pub method: EdenApiMethod,
}

impl HandlerInfo {
    pub fn new(repo: &String, method: EdenApiMethod) -> (info: HandlerInfo)
        ensures
            info.repo@ == repo@,
            info.method == method,
    {
        HandlerInfo { repo: repo.clone(), method }
    }
}

/// The parameters of a location-to-hash request: the repository's name.
#[derive(Clone, Debug, PartialEq, Eq)]
pub struct LocationToHashParams {
    repo: String,
}

impl LocationToHashParams {
    /// The name of the repository.
    pub closed spec fn spec_repo(&self) -> Seq<char> {
        self.repo@
    }

    pub fn new(repo: String) -> (params: LocationToHashParams)
        ensures
            params.spec_repo() == repo@,
    {
        LocationToHashParams { repo }
    }

    pub fn repo(&self) -> (repo: &String)
        ensures
            repo@ == self.spec_repo(),
    {
        &self.repo
    }
}

/// The parameters of a revlog-data request: the repository's name.
#[derive(Clone, Debug, PartialEq, Eq)]
pub struct RevlogDataParams {
    repo: String,
}

impl RevlogDataParams {
    /// The name of the repository.
    pub closed spec fn spec_repo(&self) -> Seq<char> {
        self.repo@
    }

    pub fn new(repo: String) -> (params: RevlogDataParams)
        ensures
            params.spec_repo() == repo@,
    {
        RevlogDataParams { repo }
    }

    pub fn repo(&self) -> (repo: &String)
        ensures
            repo@ == self.spec_repo(),
    {
        &self.repo
    }
}

/// The response that a location request gets when the store returns
/// `found` for it.
pub open spec fn location_response(
    request: CommitLocationToHashRequest,
    found: Seq<HgChangesetId>,
) -> CommitLocationToHashResponseView {
    CommitLocationToHashResponseView {
        location: request.location,
        count: request.count,
        hgids: found.map_values(|c: HgChangesetId| c.id),
    }
}

/// The model of a location batch in progress.
pub struct LocationToHashBatchView {
    /// The requests of the batch, in the order in which they arrived.
    pub requests: Seq<CommitLocationToHashRequest>,
    /// The scheduling state.
    pub pipeline: PipelineView,
    /// The responses written so far, in the order in which they left.
    pub answers: Seq<WireCommitLocationToHashResponseView>,
}

impl LocationToHashBatchView {
    /// What holds of every batch: the pipeline is consistent and has one
    /// item for each request, and the response written at each step
    /// repeats the location and count of the request that it answers.
    pub open spec fn wf(self) -> bool {
        &&& self.pipeline.wf()
        &&& self.pipeline.limit == MAX_CONCURRENT_FETCHES_PER_REQUEST
        &&& self.pipeline.total() == self.requests.len()
        &&& self.answers.len() == self.pipeline.delivered.len()
        &&& forall|k: int|
            0 <= k < self.answers.len() ==> (#[trigger] self.answers[k]).api_form().answers(
                self.requests[self.pipeline.delivered[k]],
            )
    }

    /// The batch after the next request has started.
    pub open spec fn start(self) -> LocationToHashBatchView {
        LocationToHashBatchView { pipeline: self.pipeline.start(), ..self }
    }

    /// The batch after the store returned `found` for request `index`.
    pub open spec fn succeed(self, index: int, found: Seq<HgChangesetId>) -> LocationToHashBatchView {
        LocationToHashBatchView {
            pipeline: self.pipeline.succeed(index),
            answers: self.answers.push(location_response(self.requests[index], found).wire_form()),
            ..self
        }
    }

    /// The batch after the store failed for a request.
    pub open spec fn fail(self) -> LocationToHashBatchView {
        LocationToHashBatchView { pipeline: self.pipeline.fail(), ..self }
    }
}

/// A location-to-hash batch in progress.
pub struct LocationToHashBatch {
    info: HandlerInfo,
    requests: Vec<CommitLocationToHashRequest>,
    pipeline: Pipeline,
    answers: Ghost<Seq<WireCommitLocationToHashResponseView>>,
}

impl View for LocationToHashBatch {
    type V = LocationToHashBatchView;

    closed spec fn view(&self) -> LocationToHashBatchView {
        LocationToHashBatchView {
            requests: self.requests@,
            pipeline: self.pipeline@,
            answers: self.answers@,
        }
    }
}

impl LocationToHashBatch {
    /// Whether the batch is consistent. Every value that this module hands
    /// out is.
    pub closed spec fn wf(&self) -> bool {
        &&& self.pipeline.wf()
        &&& self@.wf()
    }

    /// A consistent batch has a well-formed model.
    pub proof fn lemma_view_wf(&self)
        requires
            self.wf(),
        ensures
            self@.wf(),
    {
    }

    /// What is recorded about the request.
    pub closed spec fn spec_info(&self) -> HandlerInfo {
        self.info
    }

    pub fn info(&self) -> (info: &HandlerInfo)
        ensures
            *info == self.spec_info(),
    {
        &self.info
    }

    /// The number of lookups in flight.
    pub fn running(&self) -> (running: usize)
        requires
            self.wf(),
        ensures
            running == self@.pipeline.running(),
            running <= MAX_CONCURRENT_FETCHES_PER_REQUEST,
            running <= self@.requests.len(),
    {
        self.pipeline.running()
    }

    /// Whether the batch is over.
    pub fn is_finished(&self) -> (finished: bool)
        requires
            self.wf(),
        ensures
            finished == self@.pipeline.is_finished(),
    {
        self.pipeline.is_finished()
    }

    /// Starts the next request if one may start, and says what to ask of
    /// the store for it: the request's position in the batch, the location
    /// in the store's naming, and the number of ancestors wanted.
    pub fn start_next(&mut self) -> (started: Option<(usize, Location<HgChangesetId>, u64)>)
        requires
            old(self).wf(),
        ensures
            final(self).wf(),
            final(self).spec_info() == old(self).spec_info(),
            old(self)@.pipeline.can_start() ==> final(self)@ == old(self)@.start() && (
            started matches Some(query) && query.0 == old(self)@.pipeline.next && query.1 == old(
                self,
            )@.requests[query.0 as int].location.in_store() && query.2 == old(
                self,
            )@.requests[query.0 as int].count),
            !old(self)@.pipeline.can_start() ==> final(self)@ == old(self)@ && started is None,
    {
        proof {
            if self@.pipeline.can_start() {
                lemma_start_wf(self@.pipeline);
            }
        }
        match self.pipeline.start_next() {
            Some(index) => {
                let (location, count) = location_query(&self.requests[index]);
                Some((index, location, count))
            },
            None => None,
        }
    }

    /// Takes the store's answer for request `index` and says what to write.
    ///
    /// For a request in flight, ancestors give the response in wire form,
    /// which repeats the request's location and count; a failure of the
    /// store ends the batch with `CommitLocationToHashRequestFailed`. An
    /// answer for a request that is not in flight, or one that arrives after
    /// the batch has failed, changes nothing.
    pub fn complete(
        &mut self,
        index: usize,
        ancestors: Result<Vec<HgChangesetId>, StorageError>,
    ) -> (step: Step<WireCommitLocationToHashResponse, ErrorKind>)
        requires
            old(self).wf(),
        ensures
            final(self).wf(),
            final(self).spec_info() == old(self).spec_info(),
            !old(self)@.pipeline.can_complete(index as int) ==> step is Ignored && final(self)@
                == old(self)@,
            old(self)@.pipeline.can_complete(index as int) ==> match ancestors {
                Ok(found) => {
                    &&& step matches Step::Yield(wire)
                    &&& wire@ == location_response(
                        old(self)@.requests[index as int],
                        found@,
                    ).wire_form()
                    &&& final(self)@ == old(self)@.succeed(index as int, found@)
                },
                Err(cause) => {
                    &&& step == Step::<WireCommitLocationToHashResponse, ErrorKind>::Terminate(
                        ErrorKind::CommitLocationToHashRequestFailed(cause),
                    )
                    &&& final(self)@ == old(self)@.fail()
                },
            },
    {
        if index >= self.requests.len() {
            return Step::Ignored;
        }
        let ghost before = self@;
        let answer = translate_location(self.requests[index], ancestors);
        proof {
            if before.pipeline.can_complete(index as int) {
                lemma_succeed_wf(before.pipeline, index as int);
                lemma_fail_wf(before.pipeline);
            }
        }
        match self.pipeline.complete(index, answer) {
            Step::Yield(response) => {
                let wire = response.to_wire();
                proof {
                    self.answers@ = self.answers@.push(wire@);
                    lemma_location_log_grows(before, index as int, ancestors->Ok_0@);
                }
                Step::Yield(wire)
            },
            Step::Terminate(error) => Step::Terminate(error),
            Step::Ignored => Step::Ignored,
        }
    }
}

/// Writing the response for a request in flight keeps the batch
/// consistent.
proof fn lemma_location_log_grows(
    batch: LocationToHashBatchView,
    index: int,
    found: Seq<HgChangesetId>,
)
    requires
        batch.wf(),
        batch.pipeline.can_complete(index),
    ensures
        batch.succeed(index, found).wf(),
{
    let after = batch.succeed(index, found);
    lemma_succeed_wf(batch.pipeline, index);
    let response = location_response(batch.requests[index], found);
    crate::commit::lemma_wire_response_echoes(response, batch.requests[index]);
    assert forall|k: int| 0 <= k < after.answers.len() implies (#[trigger] after.answers[k])
        .api_form().answers(after.requests[after.pipeline.delivered[k]]) by {
        if k < batch.answers.len() {
            assert(after.answers[k] == batch.answers[k]);
            assert(after.pipeline.delivered[k] == batch.pipeline.delivered[k]);
        }
    }
}

/// The location-to-hash endpoint. Decodes the batch, a request that does
/// not decode failing all of it, and sets up the lookups with at most
/// `MAX_CONCURRENT_FETCHES_PER_REQUEST` in flight.
pub fn location_to_hash(
    params: &LocationToHashParams,
    batch: WireCommitLocationToHashRequestBatch,
) -> (started: Result<LocationToHashBatch, WireToApiConversionError>)
    ensures
        started matches Ok(b) && b.wf() && b@ == (LocationToHashBatchView {
            requests: batch.requests@.map_values(
                |r: WireCommitLocationToHashRequest| r.api_form(),
            ),
            pipeline: PipelineView::initial(
                batch.requests@.len(),
                MAX_CONCURRENT_FETCHES_PER_REQUEST as nat,
            ),
            answers: Seq::empty(),
        }) && b.spec_info().repo@ == params.spec_repo() && b.spec_info().method
            == EdenApiMethod::CommitLocationToHash,
{
    let info = HandlerInfo::new(params.repo(), EdenApiMethod::CommitLocationToHash);
    let requests = batch.to_api()?.requests;
    let pipeline = Pipeline::new(requests.len(), MAX_CONCURRENT_FETCHES_PER_REQUEST);
    proof {
        pipeline.lemma_view_wf();
    }
    Ok(LocationToHashBatch { info, requests, pipeline, answers: Ghost(Seq::empty()) })
}

/// In a batch that ended without a failure, every request was answered
/// exactly once: there are as many responses as requests, each response
/// repeats the location and count of the request it was written for, and
/// no request was answered twice or left out.
pub proof fn lemma_location_answers_correlate(batch: LocationToHashBatchView)
    requires
        batch.wf(),
        batch.pipeline.is_finished(),
        !batch.pipeline.failed,
    ensures
        batch.answers.len() == batch.requests.len(),
        batch.pipeline.delivered.no_duplicates(),
        forall|i: int| 0 <= i < batch.requests.len() ==> batch.pipeline.delivered.contains(i),
        forall|k: int|
            0 <= k < batch.answers.len() ==> {
                &&& 0 <= batch.pipeline.delivered[k] < batch.requests.len()
                &&& (#[trigger] batch.answers[k]).location == batch.requests[batch.pipeline.delivered[k]]
                    .location.wire_form()
                &&& batch.answers[k].count == batch.requests[batch.pipeline.delivered[k]].count
            },
{
    lemma_finished_delivers_all(batch.pipeline);
    assert forall|k: int| 0 <= k < batch.answers.len() implies {
        &&& 0 <= batch.pipeline.delivered[k] < batch.requests.len()
        &&& (#[trigger] batch.answers[k]).location == batch.requests[batch.pipeline.delivered[k]]
            .location.wire_form()
        &&& batch.answers[k].count == batch.requests[batch.pipeline.delivered[k]].count
    } by {
        let answer = batch.answers[k];
        let request = batch.requests[batch.pipeline.delivered[k]];
        assert(answer.api_form().answers(request));
        assert(answer.location.descendant.bytes == request.location.descendant.bytes);
    }
}

/// The model of a revlog-data batch in progress.
pub struct RevlogDataBatchView {
    /// The hashes asked for, in the order in which they arrived.
    pub requests: Seq<HgId>,
    /// The scheduling state.
    pub pipeline: PipelineView,
    /// The records written so far, in the order in which they left.
    pub answers: Seq<CommitRevlogDataView>,
}

impl RevlogDataBatchView {
    /// What holds of every batch: the pipeline is consistent and has one
    /// item for each hash, and the record written at each step carries the
    /// hash that it was fetched for.
    pub open spec fn wf(self) -> bool {
        &&& self.pipeline.wf()
        &&& self.pipeline.limit == MAX_CONCURRENT_FETCHES_PER_REQUEST
        &&& self.pipeline.total() == self.requests.len()
        &&& self.answers.len() == self.pipeline.delivered.len()
        &&& forall|k: int|
            0 <= k < self.answers.len() ==> (#[trigger] self.answers[k]).hgid
                == self.requests[self.pipeline.delivered[k]]
    }

    /// The batch after the next lookup has started.
    pub open spec fn start(self) -> RevlogDataBatchView {
        RevlogDataBatchView { pipeline: self.pipeline.start(), ..self }
    }

    /// The batch after the store returned `payload` for hash `index`.
    pub open spec fn succeed(self, index: int, payload: Seq<u8>) -> RevlogDataBatchView {
        RevlogDataBatchView {
            pipeline: self.pipeline.succeed(index),
            answers: self.answers.push(
                CommitRevlogDataView { hgid: self.requests[index], revlog_data: payload },
            ),
            ..self
        }
    }

    /// The batch after a lookup failed or found nothing.
    pub open spec fn fail(self) -> RevlogDataBatchView {
        RevlogDataBatchView { pipeline: self.pipeline.fail(), ..self }
    }
}

/// A revlog-data batch in progress.
pub struct RevlogDataBatch {
    info: HandlerInfo,
    requests: Vec<HgId>,
    pipeline: Pipeline,
    answers: Ghost<Seq<CommitRevlogDataView>>,
}

impl View for RevlogDataBatch {
    type V = RevlogDataBatchView;

    closed spec fn view(&self) -> RevlogDataBatchView {
        RevlogDataBatchView {
            requests: self.requests@,
            pipeline: self.pipeline@,
            answers: self.answers@,
        }
    }
}

impl RevlogDataBatch {
    /// Whether the batch is consistent. Every value that this module hands
    /// out is.
    pub closed spec fn wf(&self) -> bool {
        &&& self.pipeline.wf()
        &&& self@.wf()
    }

    /// A consistent batch has a well-formed model.
    pub proof fn lemma_view_wf(&self)
        requires
            self.wf(),
        ensures
            self@.wf(),
    {
    }

    /// What is recorded about the request.
    pub closed spec fn spec_info(&self) -> HandlerInfo {
        self.info
    }

    pub fn info(&self) -> (info: &HandlerInfo)
        ensures
            *info == self.spec_info(),
    {
        &self.info
    }

    /// The number of lookups in flight.
    pub fn running(&self) -> (running: usize)
        requires
            self.wf(),
        ensures
            running == self@.pipeline.running(),
            running <= MAX_CONCURRENT_FETCHES_PER_REQUEST,
            running <= self@.requests.len(),
    {
        self.pipeline.running()
    }

    /// Whether the batch is over.
    pub fn is_finished(&self) -> (finished: bool)
        requires
            self.wf(),
        ensures
            finished == self@.pipeline.is_finished(),
    {
        self.pipeline.is_finished()
    }

    /// Starts the next lookup if one may start, and says what to ask of the
    /// store for it: the hash's position in the batch and the commit in the
    /// store's naming.
    pub fn start_next(&mut self) -> (started: Option<(usize, HgChangesetId)>)
        requires
            old(self).wf(),
        ensures
            final(self).wf(),
            final(self).spec_info() == old(self).spec_info(),
            old(self)@.pipeline.can_start() ==> final(self)@ == old(self)@.start() && (
            started matches Some(query) && query.0 == old(self)@.pipeline.next && query.1.id
                == old(self)@.requests[query.0 as int]),
            !old(self)@.pipeline.can_start() ==> final(self)@ == old(self)@ && started is None,
    {
        proof {
            if self@.pipeline.can_start() {
                lemma_start_wf(self@.pipeline);
            }
        }
        match self.pipeline.start_next() {
            Some(index) => Some((index, revlog_query(self.requests[index]))),
            None => None,
        }
    }

    /// Takes the store's answer for hash `index` and says what to write.
    ///
    /// For a lookup in flight, a payload gives the record that pairs the
    /// hash with it. A store that holds no such commit ends the batch with
    /// `HgIdNotFound` and the hash, and a failure of the store ends it with
    /// `CommitRevlogDataRequestFailed`; no record is written for that hash.
    /// An answer for a lookup that is not in flight, or one that arrives
    /// after the batch has failed, changes nothing.
    pub fn complete(&mut self, index: usize, fetched: Result<Option<Bytes>, StorageError>) -> (step:
        Step<CommitRevlogData, ErrorKind>)
        requires
            old(self).wf(),
        ensures
            final(self).wf(),
            final(self).spec_info() == old(self).spec_info(),
            !old(self)@.pipeline.can_complete(index as int) ==> step is Ignored && final(self)@
                == old(self)@,
            old(self)@.pipeline.can_complete(index as int) ==> match fetched {
                Ok(Some(payload)) => {
                    &&& step == Step::<CommitRevlogData, ErrorKind>::Yield(
                        CommitRevlogData {
                            hgid: old(self)@.requests[index as int],
                            revlog_data: payload,
                        },
                    )
                    &&& final(self)@ == old(self)@.succeed(index as int, bytes_contents(payload))
                },
                Ok(None) => {
                    &&& step == Step::<CommitRevlogData, ErrorKind>::Terminate(
                        ErrorKind::HgIdNotFound(old(self)@.requests[index as int]),
                    )
                    &&& final(self)@ == old(self)@.fail()
                },
                Err(cause) => {
                    &&& step == Step::<CommitRevlogData, ErrorKind>::Terminate(
                        ErrorKind::CommitRevlogDataRequestFailed(cause),
                    )
                    &&& final(self)@ == old(self)@.fail()
                },
            },
    {
        if index >= self.requests.len() {
            return Step::Ignored;
        }
        let ghost before = self@;
        let answer = commit_revlog_data(self.requests[index], fetched);
        proof {
            if before.pipeline.can_complete(index as int) {
                lemma_succeed_wf(before.pipeline, index as int);
                lemma_fail_wf(before.pipeline);
            }
        }
        match self.pipeline.complete(index, answer) {
            Step::Yield(data) => {
                proof {
                    self.answers@ = self.answers@.push(data@);
                    lemma_revlog_log_grows(before, index as int, data@.revlog_data);
                }
                Step::Yield(data)
            },
            Step::Terminate(error) => Step::Terminate(error),
            Step::Ignored => Step::Ignored,
        }
    }
}

/// Writing the record for a lookup in flight keeps the batch consistent.
proof fn lemma_revlog_log_grows(batch: RevlogDataBatchView, index: int, payload: Seq<u8>)
    requires
        batch.wf(),
        batch.pipeline.can_complete(index),
    ensures
        batch.succeed(index, payload).wf(),
{
    let after = batch.succeed(index, payload);
    lemma_succeed_wf(batch.pipeline, index);
    assert forall|k: int| 0 <= k < after.answers.len() implies (#[trigger] after.answers[k]).hgid
        == after.requests[after.pipeline.delivered[k]] by {
        if k < batch.answers.len() {
            assert(after.answers[k] == batch.answers[k]);
            assert(after.pipeline.delivered[k] == batch.pipeline.delivered[k]);
        }
    }
}

/// The revlog-data endpoint. Sets up one lookup for each hash of the
/// request, with at most `MAX_CONCURRENT_FETCHES_PER_REQUEST` in flight. A
/// hash that occurs twice is looked up twice.
pub fn revlog_data(params: &RevlogDataParams, request: CommitRevlogDataRequest) -> (started:
    RevlogDataBatch)
    ensures
        started.wf(),
        started@ == (RevlogDataBatchView {
            requests: request.hgids@,
            pipeline: PipelineView::initial(
                request.hgids@.len(),
                MAX_CONCURRENT_FETCHES_PER_REQUEST as nat,
            ),
            answers: Seq::empty(),
        }),
        started.spec_info().repo@ == params.spec_repo(),
        started.spec_info().method == EdenApiMethod::CommitRevlogData,
{
    let info = HandlerInfo::new(params.repo(), EdenApiMethod::CommitRevlogData);
    let requests = request.hgids;
    let pipeline = Pipeline::new(requests.len(), MAX_CONCURRENT_FETCHES_PER_REQUEST);
    proof {
        pipeline.lemma_view_wf();
    }
    RevlogDataBatch { info, requests, pipeline, answers: Ghost(Seq::empty()) }
}

/// In a revlog-data batch that ended without a failure, every hash was
/// answered exactly once: there are as many records as hashes, each record
/// carries the hash it was fetched for, and no position of the request was
/// answered twice or left out.
pub proof fn lemma_revlog_answers_correlate(batch: RevlogDataBatchView)
    requires
        batch.wf(),
        batch.pipeline.is_finished(),
        !batch.pipeline.failed,
    ensures
        batch.answers.len() == batch.requests.len(),
        batch.pipeline.delivered.no_duplicates(),
        forall|i: int| 0 <= i < batch.requests.len() ==> batch.pipeline.delivered.contains(i),
        forall|k: int|
            0 <= k < batch.answers.len() ==> {
                &&& 0 <= batch.pipeline.delivered[k] < batch.requests.len()
                &&& (#[trigger] batch.answers[k]).hgid == batch.requests[batch.pipeline.delivered[k]]
            },
{
    lemma_finished_delivers_all(batch.pipeline);
}

} // verus!
