//! Tagged forms of the file types.
//!
//! | type | written as |
//! |---|---|
//! | file attributes | `{0: content}` |
//! | file spec | `{0: key, 1: attrs}` |
//! | file request | `{0: keys, 1: reqs}` |
//! | file entry | `{0: key, 1: data?, 2: parents, 3: metadata?}` |
//! | filenode data | `{0: node_id, 1: parents, 2: upload token, 3: metadata}` |
//! | filenode upload request | `{0: data}` |
//! | filenode upload response | `{1: index, 2: token}` |
//!
//! A field marked `?` is optional: it is written whenever it has a value,
//! blank or not, so that an empty blob is told from a missing one.

use vstd::prelude::*;

use bytes::Bytes;

use crate::encoding::{
    as_record, field, field_views, lemma_lookup_insert_others, lemma_lookup_put_all,
    lemma_record_view, optional_field, put, read, read_field, read_optional,
    read_optional_field, record_of, write_field, write_optional_field, DecodeError, Field,
    FieldView, Tagged, TaggedRecord, Value, ValueView,
};
use crate::errors::WireToApiConversionError;
use crate::file::{
    FileAttributes, FileEntryView, FileRequestView, FileSpecView, HgFilenodeDataView,
    UploadHgFilenodeRequestView, UploadHgFilenodeResponseView, WireFileAttributes,
    WireFileEntry, WireFileEntryView, WireFileRequest, WireFileRequestView, WireFileSpec,
    WireFileSpecView, WireHgFilenodeData, WireHgFilenodeDataView, WireUploadHgFilenodeRequest,
    WireUploadHgFilenodeRequestView, WireUploadHgFilenodeResponse,
    WireUploadHgFilenodeResponseView,
};
use crate::ids::{WireHgId, WireKey, WireParents, WireRevisionstoreMetadata, WireUploadToken};
use crate::tagged::ids::lemma_blank_ids;

verus! {

impl Tagged for WireFileAttributes {
    type Model = WireFileAttributes;

    open spec fn model(&self) -> WireFileAttributes {
        *self
    }

    /// Absent attributes ask for nothing.
    open spec fn blank() -> WireFileAttributes {
        WireFileAttributes { content: false }
    }

    open spec fn encoded(model: WireFileAttributes) -> ValueView {
        ValueView::Record(put(Seq::empty(), 0, field::<bool>(model.content)))
    }

    open spec fn decoded(value: ValueView) -> Result<WireFileAttributes, DecodeError> {
        match record_of(value) {
            Err(error) => Err(error),
            Ok(fields) => match read::<bool>(fields, 0) {
                Err(error) => Err(error),
                Ok(content) => Ok(WireFileAttributes { content }),
            },
        }
    }

    proof fn lemma_roundtrip(model: WireFileAttributes) {
        lemma_lookup_put_all(Seq::empty(), 0, field::<bool>(model.content));
    }

    fn encode(&self) -> (value: Value) {
        let mut fields: Vec<Field> = Vec::new();
        assert(field_views(fields@) =~= Seq::<FieldView>::empty());
        write_field(&mut fields, 0, &self.content);
        proof {
            lemma_record_view(fields);
        }
        Value::Record(fields)
    }

    fn decode(value: &Value) -> (decoded: Result<WireFileAttributes, DecodeError>) {
        let fields = as_record(value)?;
        let content: bool = read_field(fields, 0)?;
        Ok(WireFileAttributes { content })
    }

    fn is_blank(&self) -> (blank: bool) {
        !self.content
    }

    fn make_blank() -> (value: WireFileAttributes) {
        WireFileAttributes { content: false }
    }
}

impl TaggedRecord for WireFileAttributes {
    open spec fn tags() -> Set<u64> {
        set![0]
    }

    proof fn lemma_blank_is_empty() {
    }

    proof fn lemma_unknown_tag_is_skipped(fields: Seq<FieldView>, at: int, extra: FieldView) {
        lemma_lookup_insert_others(fields, at, extra);
    }
}

impl Tagged for WireFileSpec {
    type Model = WireFileSpecView;

    open spec fn model(&self) -> WireFileSpecView {
        self@
    }

    open spec fn blank() -> WireFileSpecView {
        WireFileSpecView { key: WireKey::blank(), attrs: WireFileAttributes::blank() }
    }

    open spec fn encoded(model: WireFileSpecView) -> ValueView {
        ValueView::Record(
            put(
                put(Seq::empty(), 0, field::<WireKey>(model.key)),
                1,
                field::<WireFileAttributes>(model.attrs),
            ),
        )
    }

    open spec fn decoded(value: ValueView) -> Result<WireFileSpecView, DecodeError> {
        match record_of(value) {
            Err(error) => Err(error),
            Ok(fields) => match read::<WireKey>(fields, 0) {
                Err(error) => Err(error),
                Ok(key) => match read::<WireFileAttributes>(fields, 1) {
                    Err(error) => Err(error),
                    Ok(attrs) => Ok(WireFileSpecView { key, attrs }),
                },
            },
        }
    }

    proof fn lemma_roundtrip(model: WireFileSpecView) {
        let f0 = put(Seq::empty(), 0, field::<WireKey>(model.key));
        lemma_lookup_put_all(Seq::empty(), 0, field::<WireKey>(model.key));
        lemma_lookup_put_all(f0, 1, field::<WireFileAttributes>(model.attrs));
        WireKey::lemma_roundtrip(model.key);
        WireFileAttributes::lemma_roundtrip(model.attrs);
    }

    fn encode(&self) -> (value: Value) {
        let mut fields: Vec<Field> = Vec::new();
        assert(field_views(fields@) =~= Seq::<FieldView>::empty());
        write_field(&mut fields, 0, &self.key);
        write_field(&mut fields, 1, &self.attrs);
        proof {
            lemma_record_view(fields);
        }
        Value::Record(fields)
    }

    fn decode(value: &Value) -> (decoded: Result<WireFileSpec, DecodeError>) {
        let fields = as_record(value)?;
        let key: WireKey = read_field(fields, 0)?;
        let attrs: WireFileAttributes = read_field(fields, 1)?;
        Ok(WireFileSpec { key, attrs })
    }

    fn is_blank(&self) -> (blank: bool) {
        self.key.is_blank() && self.attrs.is_blank()
    }

    fn make_blank() -> (value: WireFileSpec) {
        WireFileSpec { key: WireKey::make_blank(), attrs: WireFileAttributes::make_blank() }
    }
}

impl TaggedRecord for WireFileSpec {
    open spec fn tags() -> Set<u64> {
        set![0, 1]
    }

    proof fn lemma_blank_is_empty() {
    }

    proof fn lemma_unknown_tag_is_skipped(fields: Seq<FieldView>, at: int, extra: FieldView) {
        lemma_lookup_insert_others(fields, at, extra);
    }
}

impl Tagged for WireFileRequest {
    type Model = WireFileRequestView;

    open spec fn model(&self) -> WireFileRequestView {
        self@
    }

    /// An absent request asks for no file.
    open spec fn blank() -> WireFileRequestView {
        WireFileRequestView { keys: Seq::empty(), reqs: Seq::empty() }
    }

    open spec fn encoded(model: WireFileRequestView) -> ValueView {
        ValueView::Record(
            put(
                put(Seq::empty(), 0, field::<Vec<WireKey>>(model.keys)),
                1,
                field::<Vec<WireFileSpec>>(model.reqs),
            ),
        )
    }

    open spec fn decoded(value: ValueView) -> Result<WireFileRequestView, DecodeError> {
        match record_of(value) {
            Err(error) => Err(error),
            Ok(fields) => match read::<Vec<WireKey>>(fields, 0) {
                Err(error) => Err(error),
                Ok(keys) => match read::<Vec<WireFileSpec>>(fields, 1) {
                    Err(error) => Err(error),
                    Ok(reqs) => Ok(WireFileRequestView { keys, reqs }),
                },
            },
        }
    }

    proof fn lemma_roundtrip(model: WireFileRequestView) {
        let f0 = put(Seq::empty(), 0, field::<Vec<WireKey>>(model.keys));
        lemma_lookup_put_all(Seq::empty(), 0, field::<Vec<WireKey>>(model.keys));
        lemma_lookup_put_all(f0, 1, field::<Vec<WireFileSpec>>(model.reqs));
        Vec::<WireKey>::lemma_roundtrip(model.keys);
        Vec::<WireFileSpec>::lemma_roundtrip(model.reqs);
    }

    fn encode(&self) -> (value: Value) {
        let mut fields: Vec<Field> = Vec::new();
        assert(field_views(fields@) =~= Seq::<FieldView>::empty());
        write_field(&mut fields, 0, &self.keys);
        write_field(&mut fields, 1, &self.reqs);
        proof {
            lemma_record_view(fields);
            assert(self.keys.model() =~= self@.keys);
            assert(self.reqs.model() =~= self@.reqs);
        }
        Value::Record(fields)
    }

    fn decode(value: &Value) -> (decoded: Result<WireFileRequest, DecodeError>) {
        let fields = as_record(value)?;
        let keys: Vec<WireKey> = read_field(fields, 0)?;
        let reqs: Vec<WireFileSpec> = read_field(fields, 1)?;
        proof {
            assert(keys.model() =~= crate::file::views(keys@));
            assert(reqs.model() =~= crate::file::views(reqs@));
        }
        Ok(WireFileRequest { keys, reqs })
    }

    fn is_blank(&self) -> (blank: bool) {
        proof {
            assert(self.keys.model() =~= self@.keys);
            assert(self.reqs.model() =~= self@.reqs);
        }
        self.keys.is_blank() && self.reqs.is_blank()
    }

    fn make_blank() -> (value: WireFileRequest) {
        let value = WireFileRequest { keys: Vec::new(), reqs: Vec::new() };
        proof {
            assert(value@.keys =~= Seq::empty());
            assert(value@.reqs =~= Seq::empty());
        }
        value
    }
}

impl TaggedRecord for WireFileRequest {
    open spec fn tags() -> Set<u64> {
        set![0, 1]
    }

    proof fn lemma_blank_is_empty() {
    }

    proof fn lemma_unknown_tag_is_skipped(fields: Seq<FieldView>, at: int, extra: FieldView) {
        lemma_lookup_insert_others(fields, at, extra);
    }
}

impl Tagged for WireFileEntry {
    type Model = WireFileEntryView;

    open spec fn model(&self) -> WireFileEntryView {
        self@
    }

    /// An absent entry has the blank key, no parents, no blob and no
    /// metadata.
    open spec fn blank() -> WireFileEntryView {
        WireFileEntryView {
            key: WireKey::blank(),
            data: None,
            parents: WireParents::blank(),
            metadata: None,
        }
    }

    open spec fn encoded(model: WireFileEntryView) -> ValueView {
        ValueView::Record(
            put(
                put(
                    put(
                        put(Seq::empty(), 0, field::<WireKey>(model.key)),
                        1,
                        optional_field::<Bytes>(model.data),
                    ),
                    2,
                    field::<WireParents>(model.parents),
                ),
                3,
                optional_field::<WireRevisionstoreMetadata>(model.metadata),
            ),
        )
    }

    open spec fn decoded(value: ValueView) -> Result<WireFileEntryView, DecodeError> {
        match record_of(value) {
            Err(error) => Err(error),
            Ok(fields) => match read::<WireKey>(fields, 0) {
                Err(error) => Err(error),
                Ok(key) => match read_optional::<Bytes>(fields, 1) {
                    Err(error) => Err(error),
                    Ok(data) => match read::<WireParents>(fields, 2) {
                        Err(error) => Err(error),
                        Ok(parents) => match read_optional::<WireRevisionstoreMetadata>(
                            fields,
                            3,
                        ) {
                            Err(error) => Err(error),
                            Ok(metadata) => Ok(
                                WireFileEntryView { key, data, parents, metadata },
                            ),
                        },
                    },
                },
            },
        }
    }

    proof fn lemma_roundtrip(model: WireFileEntryView) {
        let f0 = put(Seq::empty(), 0, field::<WireKey>(model.key));
        let f1 = put(f0, 1, optional_field::<Bytes>(model.data));
        let f2 = put(f1, 2, field::<WireParents>(model.parents));
        lemma_lookup_put_all(Seq::empty(), 0, field::<WireKey>(model.key));
        lemma_lookup_put_all(f0, 1, optional_field::<Bytes>(model.data));
        lemma_lookup_put_all(f1, 2, field::<WireParents>(model.parents));
        lemma_lookup_put_all(f2, 3, optional_field::<WireRevisionstoreMetadata>(model.metadata));
        WireKey::lemma_roundtrip(model.key);
        WireParents::lemma_roundtrip(model.parents);
        if model.data is Some {
            Bytes::lemma_roundtrip(model.data->0);
        }
        if model.metadata is Some {
            WireRevisionstoreMetadata::lemma_roundtrip(model.metadata->0);
        }
    }

    fn encode(&self) -> (value: Value) {
        let mut fields: Vec<Field> = Vec::new();
        assert(field_views(fields@) =~= Seq::<FieldView>::empty());
        let parents = self.parents();
        let metadata = self.metadata();
        write_field(&mut fields, 0, self.key());
        write_optional_field(&mut fields, 1, self.data());
        write_field(&mut fields, 2, &parents);
        write_optional_field(&mut fields, 3, &metadata);
        proof {
            lemma_record_view(fields);
        }
        Value::Record(fields)
    }

    fn decode(value: &Value) -> (decoded: Result<WireFileEntry, DecodeError>) {
        let fields = as_record(value)?;
        let key: WireKey = read_field(fields, 0)?;
        let data: Option<Bytes> = read_optional_field(fields, 1)?;
        let parents: WireParents = read_field(fields, 2)?;
        let metadata: Option<WireRevisionstoreMetadata> = read_optional_field(fields, 3)?;
        Ok(WireFileEntry::new(key, data, parents, metadata))
    }

    fn is_blank(&self) -> (blank: bool) {
        self.key().is_blank() && self.data().is_none() && self.parents().is_blank()
            && self.metadata().is_none()
    }

    fn make_blank() -> (value: WireFileEntry) {
        WireFileEntry::new(WireKey::make_blank(), None, WireParents::make_blank(), None)
    }
}

impl TaggedRecord for WireFileEntry {
    open spec fn tags() -> Set<u64> {
        set![0, 1, 2, 3]
    }

    proof fn lemma_blank_is_empty() {
    }

    proof fn lemma_unknown_tag_is_skipped(fields: Seq<FieldView>, at: int, extra: FieldView) {
        lemma_lookup_insert_others(fields, at, extra);
    }
}

impl Tagged for WireHgFilenodeData {
    type Model = WireHgFilenodeDataView;

    open spec fn model(&self) -> WireHgFilenodeDataView {
        self@
    }

    open spec fn blank() -> WireHgFilenodeDataView {
        WireHgFilenodeDataView {
            node_id: WireHgId::blank(),
            parents: WireParents::blank(),
            file_content_upload_token: WireUploadToken::blank(),
            metadata: Seq::empty(),
        }
    }

    open spec fn encoded(model: WireHgFilenodeDataView) -> ValueView {
        ValueView::Record(
            put(
                put(
                    put(
                        put(Seq::empty(), 0, field::<WireHgId>(model.node_id)),
                        1,
                        field::<WireParents>(model.parents),
                    ),
                    2,
                    field::<WireUploadToken>(model.file_content_upload_token),
                ),
                3,
                field::<Vec<u8>>(model.metadata),
            ),
        )
    }

    open spec fn decoded(value: ValueView) -> Result<WireHgFilenodeDataView, DecodeError> {
        match record_of(value) {
            Err(error) => Err(error),
            Ok(fields) => match read::<WireHgId>(fields, 0) {
                Err(error) => Err(error),
                Ok(node_id) => match read::<WireParents>(fields, 1) {
                    Err(error) => Err(error),
                    Ok(parents) => match read::<WireUploadToken>(fields, 2) {
                        Err(error) => Err(error),
                        Ok(file_content_upload_token) => match read::<Vec<u8>>(fields, 3) {
                            Err(error) => Err(error),
                            Ok(metadata) => Ok(
                                WireHgFilenodeDataView {
                                    node_id,
                                    parents,
                                    file_content_upload_token,
                                    metadata,
                                },
                            ),
                        },
                    },
                },
            },
        }
    }

    proof fn lemma_roundtrip(model: WireHgFilenodeDataView) {
        let f0 = put(Seq::empty(), 0, field::<WireHgId>(model.node_id));
        let f1 = put(f0, 1, field::<WireParents>(model.parents));
        let f2 = put(f1, 2, field::<WireUploadToken>(model.file_content_upload_token));
        lemma_lookup_put_all(Seq::empty(), 0, field::<WireHgId>(model.node_id));
        lemma_lookup_put_all(f0, 1, field::<WireParents>(model.parents));
        lemma_lookup_put_all(f1, 2, field::<WireUploadToken>(model.file_content_upload_token));
        lemma_lookup_put_all(f2, 3, field::<Vec<u8>>(model.metadata));
        WireHgId::lemma_roundtrip(model.node_id);
        WireParents::lemma_roundtrip(model.parents);
        WireUploadToken::lemma_roundtrip(model.file_content_upload_token);
        Vec::<u8>::lemma_roundtrip(model.metadata);
    }

    fn encode(&self) -> (value: Value) {
        let mut fields: Vec<Field> = Vec::new();
        assert(field_views(fields@) =~= Seq::<FieldView>::empty());
        write_field(&mut fields, 0, &self.node_id);
        write_field(&mut fields, 1, &self.parents);
        write_field(&mut fields, 2, &self.file_content_upload_token);
        write_field(&mut fields, 3, &self.metadata);
        proof {
            lemma_record_view(fields);
        }
        Value::Record(fields)
    }

    fn decode(value: &Value) -> (decoded: Result<WireHgFilenodeData, DecodeError>) {
        let fields = as_record(value)?;
        let node_id: WireHgId = read_field(fields, 0)?;
        let parents: WireParents = read_field(fields, 1)?;
        let file_content_upload_token: WireUploadToken = read_field(fields, 2)?;
        let metadata: Vec<u8> = read_field(fields, 3)?;
        Ok(WireHgFilenodeData { node_id, parents, file_content_upload_token, metadata })
    }

    fn is_blank(&self) -> (blank: bool) {
        self.node_id.is_blank() && self.parents.is_blank()
            && self.file_content_upload_token.is_blank() && self.metadata.is_blank()
    }

    fn make_blank() -> (value: WireHgFilenodeData) {
        WireHgFilenodeData {
            node_id: WireHgId::make_blank(),
            parents: WireParents::make_blank(),
            file_content_upload_token: WireUploadToken::make_blank(),
            metadata: Vec::new(),
        }
    }
}

impl TaggedRecord for WireHgFilenodeData {
    open spec fn tags() -> Set<u64> {
        set![0, 1, 2, 3]
    }

    proof fn lemma_blank_is_empty() {
    }

    proof fn lemma_unknown_tag_is_skipped(fields: Seq<FieldView>, at: int, extra: FieldView) {
        lemma_lookup_insert_others(fields, at, extra);
    }
}

impl Tagged for WireUploadHgFilenodeRequest {
    type Model = WireUploadHgFilenodeRequestView;

    open spec fn model(&self) -> WireUploadHgFilenodeRequestView {
        self@
    }

    open spec fn blank() -> WireUploadHgFilenodeRequestView {
        WireUploadHgFilenodeRequestView { data: WireHgFilenodeData::blank() }
    }

    open spec fn encoded(model: WireUploadHgFilenodeRequestView) -> ValueView {
        ValueView::Record(put(Seq::empty(), 0, field::<WireHgFilenodeData>(model.data)))
    }

    open spec fn decoded(value: ValueView) -> Result<WireUploadHgFilenodeRequestView, DecodeError> {
        match record_of(value) {
            Err(error) => Err(error),
            Ok(fields) => match read::<WireHgFilenodeData>(fields, 0) {
                Err(error) => Err(error),
                Ok(data) => Ok(WireUploadHgFilenodeRequestView { data }),
            },
        }
    }

    proof fn lemma_roundtrip(model: WireUploadHgFilenodeRequestView) {
        lemma_lookup_put_all(Seq::empty(), 0, field::<WireHgFilenodeData>(model.data));
        WireHgFilenodeData::lemma_roundtrip(model.data);
    }

    fn encode(&self) -> (value: Value) {
        let mut fields: Vec<Field> = Vec::new();
        assert(field_views(fields@) =~= Seq::<FieldView>::empty());
        write_field(&mut fields, 0, &self.data);
        proof {
            lemma_record_view(fields);
        }
        Value::Record(fields)
    }

    fn decode(value: &Value) -> (decoded: Result<WireUploadHgFilenodeRequest, DecodeError>) {
        let fields = as_record(value)?;
        let data: WireHgFilenodeData = read_field(fields, 0)?;
        Ok(WireUploadHgFilenodeRequest { data })
    }

    fn is_blank(&self) -> (blank: bool) {
        self.data.is_blank()
    }

    fn make_blank() -> (value: WireUploadHgFilenodeRequest) {
        WireUploadHgFilenodeRequest { data: WireHgFilenodeData::make_blank() }
    }
}

impl TaggedRecord for WireUploadHgFilenodeRequest {
    open spec fn tags() -> Set<u64> {
        set![0]
    }

    proof fn lemma_blank_is_empty() {
    }

    proof fn lemma_unknown_tag_is_skipped(fields: Seq<FieldView>, at: int, extra: FieldView) {
        lemma_lookup_insert_others(fields, at, extra);
    }
}

impl Tagged for WireUploadHgFilenodeResponse {
    type Model = WireUploadHgFilenodeResponseView;

    open spec fn model(&self) -> WireUploadHgFilenodeResponseView {
        self@
    }

    open spec fn blank() -> WireUploadHgFilenodeResponseView {
        WireUploadHgFilenodeResponseView { index: 0, token: WireUploadToken::blank() }
    }

    open spec fn encoded(model: WireUploadHgFilenodeResponseView) -> ValueView {
        ValueView::Record(
            put(
                put(Seq::empty(), 1, field::<usize>(model.index)),
                2,
                field::<WireUploadToken>(model.token),
            ),
        )
    }

    open spec fn decoded(value: ValueView) -> Result<WireUploadHgFilenodeResponseView, DecodeError> {
        match record_of(value) {
            Err(error) => Err(error),
            Ok(fields) => match read::<usize>(fields, 1) {
                Err(error) => Err(error),
                Ok(index) => match read::<WireUploadToken>(fields, 2) {
                    Err(error) => Err(error),
                    Ok(token) => Ok(WireUploadHgFilenodeResponseView { index, token }),
                },
            },
        }
    }

    proof fn lemma_roundtrip(model: WireUploadHgFilenodeResponseView) {
        let f0 = put(Seq::empty(), 1, field::<usize>(model.index));
        lemma_lookup_put_all(Seq::empty(), 1, field::<usize>(model.index));
        lemma_lookup_put_all(f0, 2, field::<WireUploadToken>(model.token));
        usize::lemma_roundtrip(model.index);
        WireUploadToken::lemma_roundtrip(model.token);
    }

    fn encode(&self) -> (value: Value) {
        let mut fields: Vec<Field> = Vec::new();
        assert(field_views(fields@) =~= Seq::<FieldView>::empty());
        write_field(&mut fields, 1, &self.index);
        write_field(&mut fields, 2, &self.token);
        proof {
            lemma_record_view(fields);
        }
        Value::Record(fields)
    }

    fn decode(value: &Value) -> (decoded: Result<WireUploadHgFilenodeResponse, DecodeError>) {
        let fields = as_record(value)?;
        let index: usize = read_field(fields, 1)?;
        let token: WireUploadToken = read_field(fields, 2)?;
        Ok(WireUploadHgFilenodeResponse { index, token })
    }

    fn is_blank(&self) -> (blank: bool) {
        self.index.is_blank() && self.token.is_blank()
    }

    fn make_blank() -> (value: WireUploadHgFilenodeResponse) {
        WireUploadHgFilenodeResponse { index: 0, token: WireUploadToken::make_blank() }
    }
}

impl TaggedRecord for WireUploadHgFilenodeResponse {
    open spec fn tags() -> Set<u64> {
        set![1, 2]
    }

    proof fn lemma_blank_is_empty() {
    }

    proof fn lemma_unknown_tag_is_skipped(fields: Seq<FieldView>, at: int, extra: FieldView) {
        lemma_lookup_insert_others(fields, at, extra);
    }
}

impl Default for WireFileAttributes {
    fn default() -> (attrs: WireFileAttributes)
        ensures
            attrs == WireFileAttributes::blank(),
    {
        WireFileAttributes::make_blank()
    }
}

impl Default for WireFileSpec {
    fn default() -> (spec: WireFileSpec)
        ensures
            spec@ == WireFileSpec::blank(),
    {
        WireFileSpec::make_blank()
    }
}

impl Default for WireFileRequest {
    fn default() -> (request: WireFileRequest)
        ensures
            request@ == WireFileRequest::blank(),
    {
        WireFileRequest::make_blank()
    }
}

impl Default for WireFileEntry {
    fn default() -> (entry: WireFileEntry)
        ensures
            entry@ == WireFileEntry::blank(),
    {
        WireFileEntry::make_blank()
    }
}

impl Default for WireHgFilenodeData {
    fn default() -> (data: WireHgFilenodeData)
        ensures
            data@ == WireHgFilenodeData::blank(),
    {
        WireHgFilenodeData::make_blank()
    }
}

impl Default for WireUploadHgFilenodeRequest {
    fn default() -> (request: WireUploadHgFilenodeRequest)
        ensures
            request@ == WireUploadHgFilenodeRequest::blank(),
    {
        WireUploadHgFilenodeRequest::make_blank()
    }
}

impl Default for WireUploadHgFilenodeResponse {
    fn default() -> (response: WireUploadHgFilenodeResponse)
        ensures
            response@ == WireUploadHgFilenodeResponse::blank(),
    {
        WireUploadHgFilenodeResponse::make_blank()
    }
}

/// For each file type, the value that an absent field stands for is the
/// wire form of the domain type's default, and decodes to it. With the
/// record laws this says: a default value is written as the record without
/// fields, and that record reads as the default value.
pub proof fn lemma_blank_files()
    ensures
        FileAttributes::blank().wire_form() == WireFileAttributes::blank(),
        WireFileAttributes::blank().api_form() == FileAttributes::blank(),
        FileSpecView::blank().wire_form() == WireFileSpec::blank(),
        WireFileSpec::blank().api_form() == FileSpecView::blank(),
        FileRequestView::blank().wire_form() == WireFileRequest::blank(),
        WireFileRequest::blank().api_form() == FileRequestView::blank(),
        FileEntryView::blank().wire_form() == WireFileEntry::blank(),
        WireFileEntry::blank().api_form() == Ok::<FileEntryView, WireToApiConversionError>(
            FileEntryView::blank(),
        ),
        HgFilenodeDataView::blank().wire_form() == WireHgFilenodeData::blank(),
        WireHgFilenodeData::blank().api_form() == HgFilenodeDataView::blank(),
        UploadHgFilenodeRequestView::blank().wire_form() == WireUploadHgFilenodeRequest::blank(),
        WireUploadHgFilenodeRequest::blank().api_form() == UploadHgFilenodeRequestView::blank(),
        UploadHgFilenodeResponseView::blank().wire_form() == WireUploadHgFilenodeResponse::blank(),
        WireUploadHgFilenodeResponse::blank().api_form() == UploadHgFilenodeResponseView::blank(),
{
    lemma_blank_ids();
    assert(FileRequestView::blank().wire_form().keys =~= WireFileRequest::blank().keys);
    assert(FileRequestView::blank().wire_form().reqs =~= WireFileRequest::blank().reqs);
    assert(WireFileRequest::blank().api_form().keys =~= FileRequestView::blank().keys);
    assert(WireFileRequest::blank().api_form().reqs =~= FileRequestView::blank().reqs);
}

/// What a client gets from the empty record: each file type reads it as
/// its default, and the default of each is written as the empty record.
pub proof fn lemma_empty_record_is_default()
    ensures
        WireFileEntry::encoded(FileEntryView::blank().wire_form()) == ValueView::Record(
            Seq::empty(),
        ),
        WireFileEntry::decoded(ValueView::Record(Seq::empty())) matches Ok(wire)
            && wire.api_form() == Ok::<FileEntryView, WireToApiConversionError>(
            FileEntryView::blank(),
        ),
        WireFileRequest::encoded(FileRequestView::blank().wire_form()) == ValueView::Record(
            Seq::empty(),
        ),
        WireFileRequest::decoded(ValueView::Record(Seq::empty())) matches Ok(wire)
            && wire.api_form() == FileRequestView::blank(),
        WireUploadHgFilenodeRequest::encoded(UploadHgFilenodeRequestView::blank().wire_form())
            == ValueView::Record(Seq::empty()),
        WireUploadHgFilenodeRequest::decoded(ValueView::Record(Seq::empty())) matches Ok(wire)
            && wire.api_form() == UploadHgFilenodeRequestView::blank(),
        WireUploadHgFilenodeResponse::encoded(UploadHgFilenodeResponseView::blank().wire_form())
            == ValueView::Record(Seq::empty()),
        WireUploadHgFilenodeResponse::decoded(ValueView::Record(Seq::empty())) matches Ok(wire)
            && wire.api_form() == UploadHgFilenodeResponseView::blank(),
{
    lemma_blank_files();
    WireFileEntry::lemma_blank_is_empty();
    WireFileRequest::lemma_blank_is_empty();
    WireUploadHgFilenodeRequest::lemma_blank_is_empty();
    WireUploadHgFilenodeResponse::lemma_blank_is_empty();
}

/// A file entry survives the wire: written in tagged form and read back,
/// its wire form is unchanged, and that wire form decodes to the entry.
pub proof fn lemma_entry_survives(entry: FileEntryView)
    ensures
        WireFileEntry::decoded(WireFileEntry::encoded(entry.wire_form())) == Ok::<
            WireFileEntryView,
            DecodeError,
        >(entry.wire_form()),
        entry.wire_form().api_form() == Ok::<FileEntryView, WireToApiConversionError>(entry),
{
    WireFileEntry::lemma_roundtrip(entry.wire_form());
    crate::file::lemma_file_entry_roundtrip(entry);
}

/// A file request survives the wire in the same way.
pub proof fn lemma_request_survives(request: FileRequestView)
    ensures
        WireFileRequest::decoded(WireFileRequest::encoded(request.wire_form())) == Ok::<
            WireFileRequestView,
            DecodeError,
        >(request.wire_form()),
        request.wire_form().api_form() == request,
{
    WireFileRequest::lemma_roundtrip(request.wire_form());
    crate::file::lemma_file_request_roundtrip(
        FileAttributes::blank(),
        FileSpecView::blank(),
        request,
    );
}

/// A filenode upload request and its response survive the wire in the same
/// way.
pub proof fn lemma_upload_survives(
    request: UploadHgFilenodeRequestView,
    response: UploadHgFilenodeResponseView,
)
    ensures
        WireUploadHgFilenodeRequest::decoded(
            WireUploadHgFilenodeRequest::encoded(request.wire_form()),
        ) == Ok::<WireUploadHgFilenodeRequestView, DecodeError>(request.wire_form()),
        request.wire_form().api_form() == request,
        WireUploadHgFilenodeResponse::decoded(
            WireUploadHgFilenodeResponse::encoded(response.wire_form()),
        ) == Ok::<WireUploadHgFilenodeResponseView, DecodeError>(response.wire_form()),
        response.wire_form().api_form() == response,
{
    WireUploadHgFilenodeRequest::lemma_roundtrip(request.wire_form());
    WireUploadHgFilenodeResponse::lemma_roundtrip(response.wire_form());
    crate::file::lemma_filenode_upload_roundtrip(request.data, request, response);
}

} // verus!
