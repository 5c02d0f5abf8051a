//! Tagged forms of the commit types.
//!
//! | type | written as |
//! |---|---|
//! | location | `{0: descendant, 1: distance}` |
//! | location request | `{0: location, 1: count}` |
//! | location request batch | `{0: requests}` |
//! | location response | `{0: location, 1: count, 2: hgids}` |
//! | revlog-data request | `{0: hgids}` |
//! | revlog data | `{0: hgid, 1: revlog_data}` |

use vstd::prelude::*;

use bytes::Bytes;

use crate::commit::{
    lemma_commit_roundtrip, CommitLocationToHashRequest, CommitLocationToHashResponseView,
    CommitRevlogData, CommitRevlogDataRequest, CommitRevlogDataView, WireCommitLocation,
    WireCommitLocationToHashRequest, WireCommitLocationToHashRequestBatch,
    WireCommitLocationToHashResponse, WireCommitLocationToHashResponseView,
};
use crate::encoding::{
    as_record, field, field_views, lemma_lookup_insert_others, lemma_lookup_put_all,
    lemma_record_view, put, read, read_field, record_of, write_field, DecodeError, Field,
    FieldView, Tagged, TaggedRecord, Value, ValueView,
};
use crate::ids::{HgId, WireHgId};

verus! {

impl Tagged for HgId {
    type Model = HgId;

    open spec fn model(&self) -> HgId {
        *self
    }

    /// An absent hash is the null hash.
    open spec fn blank() -> HgId {
        WireHgId::blank().api_form()
    }

    /// A hash is written as its wire form is.
    open spec fn encoded(model: HgId) -> ValueView {
        WireHgId::encoded(model.wire_form())
    }

    open spec fn decoded(value: ValueView) -> Result<HgId, DecodeError> {
        match WireHgId::decoded(value) {
            Ok(wire) => Ok(wire.api_form()),
            Err(error) => Err(error),
        }
    }

    proof fn lemma_roundtrip(model: HgId) {
        WireHgId::lemma_roundtrip(model.wire_form());
    }

    fn encode(&self) -> (value: Value) {
        self.to_wire().encode()
    }

    fn decode(value: &Value) -> (decoded: Result<HgId, DecodeError>) {
        let wire = WireHgId::decode(value)?;
        Ok(HgId { bytes: wire.bytes })
    }

    fn is_blank(&self) -> (blank: bool) {
        self.to_wire().is_blank()
    }

    fn make_blank() -> (value: HgId) {
        HgId { bytes: WireHgId::make_blank().bytes }
    }
}

impl Tagged for WireCommitLocation {
    type Model = WireCommitLocation;

    open spec fn model(&self) -> WireCommitLocation {
        *self
    }

    /// An absent location is the null hash itself.
    open spec fn blank() -> WireCommitLocation {
        WireCommitLocation { descendant: WireHgId::blank(), distance: 0 }
    }

    open spec fn encoded(model: WireCommitLocation) -> ValueView {
        ValueView::Record(
            put(
                put(Seq::empty(), 0, field::<WireHgId>(model.descendant)),
                1,
                field::<u64>(model.distance),
            ),
        )
    }

    open spec fn decoded(value: ValueView) -> Result<WireCommitLocation, DecodeError> {
        match record_of(value) {
            Err(error) => Err(error),
            Ok(fields) => match read::<WireHgId>(fields, 0) {
                Err(error) => Err(error),
                Ok(descendant) => match read::<u64>(fields, 1) {
                    Err(error) => Err(error),
                    Ok(distance) => Ok(WireCommitLocation { descendant, distance }),
                },
            },
        }
    }

    proof fn lemma_roundtrip(model: WireCommitLocation) {
        let f0 = put(Seq::empty(), 0, field::<WireHgId>(model.descendant));
        lemma_lookup_put_all(Seq::empty(), 0, field::<WireHgId>(model.descendant));
        lemma_lookup_put_all(f0, 1, field::<u64>(model.distance));
        WireHgId::lemma_roundtrip(model.descendant);
    }

    fn encode(&self) -> (value: Value) {
        let mut fields: Vec<Field> = Vec::new();
        assert(field_views(fields@) =~= Seq::<FieldView>::empty());
        write_field(&mut fields, 0, &self.descendant);
        write_field(&mut fields, 1, &self.distance);
        proof {
            lemma_record_view(fields);
        }
        Value::Record(fields)
    }

    fn decode(value: &Value) -> (decoded: Result<WireCommitLocation, DecodeError>) {
        let fields = as_record(value)?;
        let descendant: WireHgId = read_field(fields, 0)?;
        let distance: u64 = read_field(fields, 1)?;
        Ok(WireCommitLocation { descendant, distance })
    }

    fn is_blank(&self) -> (blank: bool) {
        self.descendant.is_blank() && self.distance == 0
    }

    fn make_blank() -> (value: WireCommitLocation) {
        WireCommitLocation { descendant: WireHgId::make_blank(), distance: 0 }
    }
}

impl TaggedRecord for WireCommitLocation {
    open spec fn tags() -> Set<u64> {
        set![0, 1]
    }

    proof fn lemma_blank_is_empty() {
    }

    proof fn lemma_unknown_tag_is_skipped(fields: Seq<FieldView>, at: int, extra: FieldView) {
        lemma_lookup_insert_others(fields, at, extra);
    }
}

impl Tagged for WireCommitLocationToHashRequest {
    type Model = WireCommitLocationToHashRequest;

    open spec fn model(&self) -> WireCommitLocationToHashRequest {
        *self
    }

    /// An absent request asks for no ancestors of the blank location.
    open spec fn blank() -> WireCommitLocationToHashRequest {
        WireCommitLocationToHashRequest { location: WireCommitLocation::blank(), count: 0 }
    }

    open spec fn encoded(model: WireCommitLocationToHashRequest) -> ValueView {
        ValueView::Record(
            put(
                put(Seq::empty(), 0, field::<WireCommitLocation>(model.location)),
                1,
                field::<u64>(model.count),
            ),
        )
    }

    open spec fn decoded(value: ValueView) -> Result<WireCommitLocationToHashRequest, DecodeError> {
        match record_of(value) {
            Err(error) => Err(error),
            Ok(fields) => match read::<WireCommitLocation>(fields, 0) {
                Err(error) => Err(error),
                Ok(location) => match read::<u64>(fields, 1) {
                    Err(error) => Err(error),
                    Ok(count) => Ok(WireCommitLocationToHashRequest { location, count }),
                },
            },
        }
    }

    proof fn lemma_roundtrip(model: WireCommitLocationToHashRequest) {
        let f0 = put(Seq::empty(), 0, field::<WireCommitLocation>(model.location));
        lemma_lookup_put_all(Seq::empty(), 0, field::<WireCommitLocation>(model.location));
        lemma_lookup_put_all(f0, 1, field::<u64>(model.count));
        WireCommitLocation::lemma_roundtrip(model.location);
    }

    fn encode(&self) -> (value: Value) {
        let mut fields: Vec<Field> = Vec::new();
        assert(field_views(fields@) =~= Seq::<FieldView>::empty());
        write_field(&mut fields, 0, &self.location);
        write_field(&mut fields, 1, &self.count);
        proof {
            lemma_record_view(fields);
        }
        Value::Record(fields)
    }

    fn decode(value: &Value) -> (decoded: Result<WireCommitLocationToHashRequest, DecodeError>) {
        let fields = as_record(value)?;
        let location: WireCommitLocation = read_field(fields, 0)?;
        let count: u64 = read_field(fields, 1)?;
        Ok(WireCommitLocationToHashRequest { location, count })
    }

    fn is_blank(&self) -> (blank: bool) {
        self.location.is_blank() && self.count == 0
    }

    fn make_blank() -> (value: WireCommitLocationToHashRequest) {
        WireCommitLocationToHashRequest { location: WireCommitLocation::make_blank(), count: 0 }
    }
}

impl TaggedRecord for WireCommitLocationToHashRequest {
    open spec fn tags() -> Set<u64> {
        set![0, 1]
    }

    proof fn lemma_blank_is_empty() {
    }

    proof fn lemma_unknown_tag_is_skipped(fields: Seq<FieldView>, at: int, extra: FieldView) {
        lemma_lookup_insert_others(fields, at, extra);
    }
}

impl Tagged for WireCommitLocationToHashRequestBatch {
    type Model = Seq<WireCommitLocationToHashRequest>;

    open spec fn model(&self) -> Seq<WireCommitLocationToHashRequest> {
        self.requests@
    }

    /// An absent batch holds no request.
    open spec fn blank() -> Seq<WireCommitLocationToHashRequest> {
        Seq::empty()
    }

    open spec fn encoded(model: Seq<WireCommitLocationToHashRequest>) -> ValueView {
        ValueView::Record(
            put(Seq::empty(), 0, field::<Vec<WireCommitLocationToHashRequest>>(model)),
        )
    }

    open spec fn decoded(value: ValueView) -> Result<
        Seq<WireCommitLocationToHashRequest>,
        DecodeError,
    > {
        match record_of(value) {
            Err(error) => Err(error),
            Ok(fields) => read::<Vec<WireCommitLocationToHashRequest>>(fields, 0),
        }
    }

    proof fn lemma_roundtrip(model: Seq<WireCommitLocationToHashRequest>) {
        lemma_lookup_put_all(
            Seq::empty(),
            0,
            field::<Vec<WireCommitLocationToHashRequest>>(model),
        );
        Vec::<WireCommitLocationToHashRequest>::lemma_roundtrip(model);
    }

    fn encode(&self) -> (value: Value) {
        let mut fields: Vec<Field> = Vec::new();
        assert(field_views(fields@) =~= Seq::<FieldView>::empty());
        write_field(&mut fields, 0, &self.requests);
        proof {
            lemma_record_view(fields);
            assert(self.requests.model() =~= self.requests@);
        }
        Value::Record(fields)
    }

    fn decode(value: &Value) -> (decoded: Result<
        WireCommitLocationToHashRequestBatch,
        DecodeError,
    >) {
        let fields = as_record(value)?;
        let requests: Vec<WireCommitLocationToHashRequest> = read_field(fields, 0)?;
        proof {
            assert(requests.model() =~= requests@);
        }
        Ok(WireCommitLocationToHashRequestBatch { requests })
    }

    fn is_blank(&self) -> (blank: bool) {
        let blank = self.requests.len() == 0;
        assert(blank == (self.requests@ =~= Seq::<WireCommitLocationToHashRequest>::empty()));
        blank
    }

    fn make_blank() -> (value: WireCommitLocationToHashRequestBatch) {
        WireCommitLocationToHashRequestBatch { requests: Vec::new() }
    }
}

impl TaggedRecord for WireCommitLocationToHashRequestBatch {
    open spec fn tags() -> Set<u64> {
        set![0]
    }

    proof fn lemma_blank_is_empty() {
    }

    proof fn lemma_unknown_tag_is_skipped(fields: Seq<FieldView>, at: int, extra: FieldView) {
        lemma_lookup_insert_others(fields, at, extra);
    }
}

impl Tagged for WireCommitLocationToHashResponse {
    type Model = WireCommitLocationToHashResponseView;

    open spec fn model(&self) -> WireCommitLocationToHashResponseView {
        self@
    }

    open spec fn blank() -> WireCommitLocationToHashResponseView {
        WireCommitLocationToHashResponseView {
            location: WireCommitLocation::blank(),
            count: 0,
            hgids: Seq::empty(),
        }
    }

    open spec fn encoded(model: WireCommitLocationToHashResponseView) -> ValueView {
        ValueView::Record(
            put(
                put(
                    put(Seq::empty(), 0, field::<WireCommitLocation>(model.location)),
                    1,
                    field::<u64>(model.count),
                ),
                2,
                field::<Vec<WireHgId>>(model.hgids),
            ),
        )
    }

    open spec fn decoded(value: ValueView) -> Result<
        WireCommitLocationToHashResponseView,
        DecodeError,
    > {
        match record_of(value) {
            Err(error) => Err(error),
            Ok(fields) => match read::<WireCommitLocation>(fields, 0) {
                Err(error) => Err(error),
                Ok(location) => match read::<u64>(fields, 1) {
                    Err(error) => Err(error),
                    Ok(count) => match read::<Vec<WireHgId>>(fields, 2) {
                        Err(error) => Err(error),
                        Ok(hgids) => Ok(
                            WireCommitLocationToHashResponseView { location, count, hgids },
                        ),
                    },
                },
            },
        }
    }

    proof fn lemma_roundtrip(model: WireCommitLocationToHashResponseView) {
        let f0 = put(Seq::empty(), 0, field::<WireCommitLocation>(model.location));
        let f1 = put(f0, 1, field::<u64>(model.count));
        lemma_lookup_put_all(Seq::empty(), 0, field::<WireCommitLocation>(model.location));
        lemma_lookup_put_all(f0, 1, field::<u64>(model.count));
        lemma_lookup_put_all(f1, 2, field::<Vec<WireHgId>>(model.hgids));
        WireCommitLocation::lemma_roundtrip(model.location);
        Vec::<WireHgId>::lemma_roundtrip(model.hgids);
    }

    fn encode(&self) -> (value: Value) {
        let mut fields: Vec<Field> = Vec::new();
        assert(field_views(fields@) =~= Seq::<FieldView>::empty());
        write_field(&mut fields, 0, &self.location);
        write_field(&mut fields, 1, &self.count);
        write_field(&mut fields, 2, &self.hgids);
        proof {
            lemma_record_view(fields);
            assert(self.hgids.model() =~= self.hgids@);
        }
        Value::Record(fields)
    }

    fn decode(value: &Value) -> (decoded: Result<WireCommitLocationToHashResponse, DecodeError>) {
        let fields = as_record(value)?;
        let location: WireCommitLocation = read_field(fields, 0)?;
        let count: u64 = read_field(fields, 1)?;
        let hgids: Vec<WireHgId> = read_field(fields, 2)?;
        proof {
            assert(hgids.model() =~= hgids@);
        }
        Ok(WireCommitLocationToHashResponse { location, count, hgids })
    }

    fn is_blank(&self) -> (blank: bool) {
        proof {
            assert(self.hgids.model() =~= self.hgids@);
        }
        self.location.is_blank() && self.count == 0 && self.hgids.is_blank()
    }

    fn make_blank() -> (value: WireCommitLocationToHashResponse) {
        WireCommitLocationToHashResponse {
            location: WireCommitLocation::make_blank(),
            count: 0,
            hgids: Vec::new(),
        }
    }
}

impl TaggedRecord for WireCommitLocationToHashResponse {
    open spec fn tags() -> Set<u64> {
        set![0, 1, 2]
    }

    proof fn lemma_blank_is_empty() {
    }

    proof fn lemma_unknown_tag_is_skipped(fields: Seq<FieldView>, at: int, extra: FieldView) {
        lemma_lookup_insert_others(fields, at, extra);
    }
}

impl Tagged for CommitRevlogDataRequest {
    type Model = Seq<HgId>;

    open spec fn model(&self) -> Seq<HgId> {
        self.hgids@
    }

    /// An absent request asks for no commit.
    open spec fn blank() -> Seq<HgId> {
        Seq::empty()
    }

    open spec fn encoded(model: Seq<HgId>) -> ValueView {
        ValueView::Record(put(Seq::empty(), 0, field::<Vec<HgId>>(model)))
    }

    open spec fn decoded(value: ValueView) -> Result<Seq<HgId>, DecodeError> {
        match record_of(value) {
            Err(error) => Err(error),
            Ok(fields) => read::<Vec<HgId>>(fields, 0),
        }
    }

    proof fn lemma_roundtrip(model: Seq<HgId>) {
        lemma_lookup_put_all(Seq::empty(), 0, field::<Vec<HgId>>(model));
        Vec::<HgId>::lemma_roundtrip(model);
    }

    fn encode(&self) -> (value: Value) {
        let mut fields: Vec<Field> = Vec::new();
        assert(field_views(fields@) =~= Seq::<FieldView>::empty());
        write_field(&mut fields, 0, &self.hgids);
        proof {
            lemma_record_view(fields);
            assert(self.hgids.model() =~= self.hgids@);
        }
        Value::Record(fields)
    }

    fn decode(value: &Value) -> (decoded: Result<CommitRevlogDataRequest, DecodeError>) {
        let fields = as_record(value)?;
        let hgids: Vec<HgId> = read_field(fields, 0)?;
        proof {
            assert(hgids.model() =~= hgids@);
        }
        Ok(CommitRevlogDataRequest { hgids })
    }

    fn is_blank(&self) -> (blank: bool) {
        let blank = self.hgids.len() == 0;
        assert(blank == (self.hgids@ =~= Seq::<HgId>::empty()));
        blank
    }

    fn make_blank() -> (value: CommitRevlogDataRequest) {
        CommitRevlogDataRequest { hgids: Vec::new() }
    }
}

impl TaggedRecord for CommitRevlogDataRequest {
    open spec fn tags() -> Set<u64> {
        set![0]
    }

    proof fn lemma_blank_is_empty() {
    }

    proof fn lemma_unknown_tag_is_skipped(fields: Seq<FieldView>, at: int, extra: FieldView) {
        lemma_lookup_insert_others(fields, at, extra);
    }
}

impl Tagged for CommitRevlogData {
    type Model = CommitRevlogDataView;

    open spec fn model(&self) -> CommitRevlogDataView {
        self@
    }

    open spec fn blank() -> CommitRevlogDataView {
        CommitRevlogDataView { hgid: HgId::blank(), revlog_data: Seq::empty() }
    }

    open spec fn encoded(model: CommitRevlogDataView) -> ValueView {
        ValueView::Record(
            put(
                put(Seq::empty(), 0, field::<HgId>(model.hgid)),
                1,
                field::<Bytes>(model.revlog_data),
            ),
        )
    }

    open spec fn decoded(value: ValueView) -> Result<CommitRevlogDataView, DecodeError> {
        match record_of(value) {
            Err(error) => Err(error),
            Ok(fields) => match read::<HgId>(fields, 0) {
                Err(error) => Err(error),
                Ok(hgid) => match read::<Bytes>(fields, 1) {
                    Err(error) => Err(error),
                    Ok(revlog_data) => Ok(CommitRevlogDataView { hgid, revlog_data }),
                },
            },
        }
    }

    proof fn lemma_roundtrip(model: CommitRevlogDataView) {
        let f0 = put(Seq::empty(), 0, field::<HgId>(model.hgid));
        lemma_lookup_put_all(Seq::empty(), 0, field::<HgId>(model.hgid));
        lemma_lookup_put_all(f0, 1, field::<Bytes>(model.revlog_data));
        HgId::lemma_roundtrip(model.hgid);
    }

    fn encode(&self) -> (value: Value) {
        let mut fields: Vec<Field> = Vec::new();
        assert(field_views(fields@) =~= Seq::<FieldView>::empty());
        write_field(&mut fields, 0, &self.hgid);
        write_field(&mut fields, 1, &self.revlog_data);
        proof {
            lemma_record_view(fields);
        }
        Value::Record(fields)
    }

    fn decode(value: &Value) -> (decoded: Result<CommitRevlogData, DecodeError>) {
        let fields = as_record(value)?;
        let hgid: HgId = read_field(fields, 0)?;
        let revlog_data: Bytes = read_field(fields, 1)?;
        Ok(CommitRevlogData { hgid, revlog_data })
    }

    fn is_blank(&self) -> (blank: bool) {
        self.hgid.is_blank() && self.revlog_data.is_blank()
    }

    fn make_blank() -> (value: CommitRevlogData) {
        CommitRevlogData { hgid: HgId::make_blank(), revlog_data: Bytes::make_blank() }
    }
}

impl TaggedRecord for CommitRevlogData {
    open spec fn tags() -> Set<u64> {
        set![0, 1]
    }

    proof fn lemma_blank_is_empty() {
    }

    proof fn lemma_unknown_tag_is_skipped(fields: Seq<FieldView>, at: int, extra: FieldView) {
        lemma_lookup_insert_others(fields, at, extra);
    }
}

impl Default for WireCommitLocation {
    fn default() -> (location: WireCommitLocation)
        ensures
            location == WireCommitLocation::blank(),
    {
        WireCommitLocation::make_blank()
    }
}

impl Default for WireCommitLocationToHashRequest {
    fn default() -> (request: WireCommitLocationToHashRequest)
        ensures
            request == WireCommitLocationToHashRequest::blank(),
    {
        WireCommitLocationToHashRequest::make_blank()
    }
}

impl Default for WireCommitLocationToHashRequestBatch {
    fn default() -> (batch: WireCommitLocationToHashRequestBatch)
        ensures
            batch.requests@ == WireCommitLocationToHashRequestBatch::blank(),
    {
        WireCommitLocationToHashRequestBatch::make_blank()
    }
}

impl Default for WireCommitLocationToHashResponse {
    fn default() -> (response: WireCommitLocationToHashResponse)
        ensures
            response@ == WireCommitLocationToHashResponse::blank(),
    {
        WireCommitLocationToHashResponse::make_blank()
    }
}

impl Default for CommitRevlogDataRequest {
    fn default() -> (request: CommitRevlogDataRequest)
        ensures
            request.hgids@ == CommitRevlogDataRequest::blank(),
    {
        CommitRevlogDataRequest::make_blank()
    }
}

/// A location request and its response survive the wire: written in tagged
/// form and read back, the wire form is unchanged, and it decodes to the
/// value that was sent.
pub proof fn lemma_location_survives(
    request: CommitLocationToHashRequest,
    response: CommitLocationToHashResponseView,
)
    ensures
        WireCommitLocationToHashRequest::decoded(
            WireCommitLocationToHashRequest::encoded(request.wire_form()),
        ) == Ok::<WireCommitLocationToHashRequest, DecodeError>(request.wire_form()),
        request.wire_form().api_form() == request,
        WireCommitLocationToHashResponse::decoded(
            WireCommitLocationToHashResponse::encoded(response.wire_form()),
        ) == Ok::<WireCommitLocationToHashResponseView, DecodeError>(response.wire_form()),
        response.wire_form().api_form() == response,
{
    WireCommitLocationToHashRequest::lemma_roundtrip(request.wire_form());
    WireCommitLocationToHashResponse::lemma_roundtrip(response.wire_form());
    lemma_commit_roundtrip(request.location, request, response);
}

} // verus!
