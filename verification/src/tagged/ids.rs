//! Tagged forms of hashes, parents, metadata, keys and upload tokens.
//!
//! | type | written as |
//! |---|---|
//! | hash | the twenty bytes |
//! | parents | the list of the parents' hashes |
//! | metadata | `{0: size?, 1: flags?}` |
//! | key | `{0: path, 1: hash}` |
//! | upload token | `{0: data, 1: signature}` |

use vstd::prelude::*;

use bytes::Bytes;
use core::ops::Deref;

use crate::encoding::{
    as_record, field, field_views, lemma_list_view, lemma_lookup_insert_others, lemma_lookup_put,
    lemma_record_view, optional_field, put, read, read_field, read_optional,
    read_optional_field, record_of, value_views, write_field, write_optional_field, DecodeError,
    Field, FieldView, Tagged, TaggedRecord, Value, ValueView,
};
use crate::ids::{
    zero_bytes, HgId, KeyView, Metadata, Parents, UploadTokenView, WireHgId, WireKey, WireKeyView,
    WireParents, WireRevisionstoreMetadata, WireUploadToken, WireUploadTokenView,
};

verus! {

/// The array whose first `n` bytes are those of `bytes` and whose other
/// bytes are zero.
pub open spec fn filled(bytes: Seq<u8>, n: nat) -> [u8; 20]
    decreases n,
{
    if n == 0 {
        zero_bytes()
    } else {
        vstd::array::spec_array_update(filled(bytes, (n - 1) as nat), n - 1, bytes[n - 1])
    }
}

/// The array that holds a sequence of twenty bytes.
pub open spec fn array_of(bytes: Seq<u8>) -> [u8; 20] {
    filled(bytes, 20)
}

/// Filling an array byte by byte gives the bytes that were filled in.
pub proof fn lemma_filled(bytes: Seq<u8>, n: nat)
    requires
        n <= 20,
        bytes.len() == 20,
    ensures
        filled(bytes, n)@.len() == 20,
        forall|i: int| 0 <= i < n ==> filled(bytes, n)@[i] == bytes[i],
    decreases n,
{
    if n > 0 {
        lemma_filled(bytes, (n - 1) as nat);
    }
}

/// The array of a sequence of twenty bytes holds that sequence, and it is
/// the only array that does.
pub proof fn lemma_array_of(bytes: Seq<u8>)
    requires
        bytes.len() == 20,
    ensures
        array_of(bytes)@ == bytes,
        forall|other: [u8; 20]| other@ == bytes ==> other == array_of(bytes),
{
    lemma_filled(bytes, 20);
    assert(array_of(bytes)@ =~= bytes);
    assert forall|other: [u8; 20]| other@ == bytes implies other == array_of(bytes) by {
        assert(other =~= array_of(bytes));
    }
}

impl Tagged for WireHgId {
    type Model = WireHgId;

    open spec fn model(&self) -> WireHgId {
        *self
    }

    /// An absent hash is the null hash.
    open spec fn blank() -> WireHgId {
        WireHgId { bytes: zero_bytes() }
    }

    open spec fn encoded(model: WireHgId) -> ValueView {
        ValueView::Blob(model.bytes@)
    }

    open spec fn decoded(value: ValueView) -> Result<WireHgId, DecodeError> {
        match value {
            ValueView::Blob(bytes) => if bytes.len() == 20 {
                Ok(WireHgId { bytes: array_of(bytes) })
            } else {
                Err(DecodeError::InvalidLength)
            },
            _ => Err(DecodeError::UnexpectedKind),
        }
    }

    proof fn lemma_roundtrip(model: WireHgId) {
        lemma_array_of(model.bytes@);
    }

    fn encode(&self) -> (value: Value) {
        Value::Blob(Bytes::copy_from_slice(self.bytes.as_slice()))
    }

    fn decode(value: &Value) -> (decoded: Result<WireHgId, DecodeError>) {
        match value {
            Value::Blob(buffer) => {
                let data: &[u8] = buffer.deref();
                if data.len() != 20 {
                    return Err(DecodeError::InvalidLength);
                }
                let mut bytes = [0u8; 20];
                let mut i: usize = 0;
                while i < 20
                    invariant
                        i <= 20,
                        data@.len() == 20,
                        forall|j: int| 0 <= j < i ==> bytes@[j] == data@[j],
                    decreases 20 - i,
                {
                    bytes[i] = data[i];
                    i = i + 1;
                }
                proof {
                    assert(bytes@ =~= data@);
                    lemma_array_of(data@);
                }
                Ok(WireHgId { bytes })
            },
            _ => Err(DecodeError::UnexpectedKind),
        }
    }

    fn is_blank(&self) -> (blank: bool) {
        let mut i: usize = 0;
        while i < 20
            invariant
                i <= 20,
                forall|j: int| 0 <= j < i ==> self.bytes@[j] == 0u8,
            decreases 20 - i,
        {
            if self.bytes[i] != 0 {
                assert(self.bytes@[i as int] != zero_bytes()@[i as int]);
                return false;
            }
            i = i + 1;
        }
        assert(self.bytes =~= zero_bytes());
        true
    }

    fn make_blank() -> (value: WireHgId) {
        WireHgId { bytes: [0u8; 20] }
    }
}

impl Tagged for WireParents {
    type Model = WireParents;

    open spec fn model(&self) -> WireParents {
        *self
    }

    /// An absent list of parents is the empty one.
    open spec fn blank() -> WireParents {
        WireParents::NoParent
    }

    open spec fn encoded(model: WireParents) -> ValueView {
        match model {
            WireParents::NoParent => ValueView::List(Seq::empty()),
            WireParents::One(p) => ValueView::List(seq![WireHgId::encoded(p)]),
            WireParents::Two(p, q) => ValueView::List(
                seq![WireHgId::encoded(p), WireHgId::encoded(q)],
            ),
        }
    }

    /// A list of up to two hashes reads as that many parents. The length is
    /// looked at first, then the hashes in order.
    open spec fn decoded(value: ValueView) -> Result<WireParents, DecodeError> {
        match value {
            ValueView::List(items) => if items.len() == 0 {
                Ok(WireParents::NoParent)
            } else if items.len() == 1 {
                match WireHgId::decoded(items[0]) {
                    Ok(p) => Ok(WireParents::One(p)),
                    Err(error) => Err(error),
                }
            } else if items.len() == 2 {
                match WireHgId::decoded(items[0]) {
                    Ok(p) => match WireHgId::decoded(items[1]) {
                        Ok(q) => Ok(WireParents::Two(p, q)),
                        Err(error) => Err(error),
                    },
                    Err(error) => Err(error),
                }
            } else {
                Err(DecodeError::InvalidLength)
            },
            _ => Err(DecodeError::UnexpectedKind),
        }
    }

    proof fn lemma_roundtrip(model: WireParents) {
        match model {
            WireParents::NoParent => {},
            WireParents::One(p) => {
                WireHgId::lemma_roundtrip(p);
            },
            WireParents::Two(p, q) => {
                WireHgId::lemma_roundtrip(p);
                WireHgId::lemma_roundtrip(q);
            },
        }
    }

    fn encode(&self) -> (value: Value) {
        let mut items: Vec<Value> = Vec::new();
        match self {
            WireParents::NoParent => {},
            WireParents::One(p) => {
                items.push(p.encode());
            },
            WireParents::Two(p, q) => {
                items.push(p.encode());
                items.push(q.encode());
            },
        }
        proof {
            lemma_list_view(items);
            assert(value_views(items@) =~= Self::encoded(*self)->List_0);
        }
        Value::List(items)
    }

    fn decode(value: &Value) -> (decoded: Result<WireParents, DecodeError>) {
        match value {
            Value::List(items) => {
                proof {
                    lemma_list_view(*items);
                }
                if items.len() == 0 {
                    Ok(WireParents::NoParent)
                } else if items.len() == 1 {
                    let p = WireHgId::decode(&items[0])?;
                    Ok(WireParents::One(p))
                } else if items.len() == 2 {
                    let p = WireHgId::decode(&items[0])?;
                    let q = WireHgId::decode(&items[1])?;
                    Ok(WireParents::Two(p, q))
                } else {
                    Err(DecodeError::InvalidLength)
                }
            },
            _ => Err(DecodeError::UnexpectedKind),
        }
    }

    fn is_blank(&self) -> (blank: bool) {
        match self {
            WireParents::NoParent => true,
            _ => false,
        }
    }

    fn make_blank() -> (value: WireParents) {
        WireParents::NoParent
    }
}

impl Tagged for WireRevisionstoreMetadata {
    type Model = WireRevisionstoreMetadata;

    open spec fn model(&self) -> WireRevisionstoreMetadata {
        *self
    }

    /// An absent metadata record knows neither size nor flags.
    open spec fn blank() -> WireRevisionstoreMetadata {
        WireRevisionstoreMetadata { size: None, flags: None }
    }

    open spec fn encoded(model: WireRevisionstoreMetadata) -> ValueView {
        ValueView::Record(
            put(
                put(Seq::empty(), 0, optional_field::<u64>(model.size)),
                1,
                optional_field::<u64>(model.flags),
            ),
        )
    }

    open spec fn decoded(value: ValueView) -> Result<WireRevisionstoreMetadata, DecodeError> {
        match record_of(value) {
            Err(error) => Err(error),
            Ok(fields) => match read_optional::<u64>(fields, 0) {
                Err(error) => Err(error),
                Ok(size) => match read_optional::<u64>(fields, 1) {
                    Err(error) => Err(error),
                    Ok(flags) => Ok(WireRevisionstoreMetadata { size, flags }),
                },
            },
        }
    }

    proof fn lemma_roundtrip(model: WireRevisionstoreMetadata) {
        let f0 = put(Seq::empty(), 0, optional_field::<u64>(model.size));
        lemma_lookup_put(Seq::empty(), 0, optional_field::<u64>(model.size), 0);
        lemma_lookup_put(Seq::empty(), 0, optional_field::<u64>(model.size), 1);
        lemma_lookup_put(f0, 1, optional_field::<u64>(model.flags), 0);
        lemma_lookup_put(f0, 1, optional_field::<u64>(model.flags), 1);
    }

    fn encode(&self) -> (value: Value) {
        let mut fields: Vec<Field> = Vec::new();
        assert(field_views(fields@) =~= Seq::<FieldView>::empty());
        write_optional_field(&mut fields, 0, &self.size);
        write_optional_field(&mut fields, 1, &self.flags);
        proof {
            lemma_record_view(fields);
        }
        Value::Record(fields)
    }

    fn decode(value: &Value) -> (decoded: Result<WireRevisionstoreMetadata, DecodeError>) {
        let fields = as_record(value)?;
        let size: Option<u64> = read_optional_field(fields, 0)?;
        let flags: Option<u64> = read_optional_field(fields, 1)?;
        Ok(WireRevisionstoreMetadata { size, flags })
    }

    fn is_blank(&self) -> (blank: bool) {
        self.size.is_none() && self.flags.is_none()
    }

    fn make_blank() -> (value: WireRevisionstoreMetadata) {
        WireRevisionstoreMetadata { size: None, flags: None }
    }
}

impl Tagged for WireKey {
    type Model = WireKeyView;

    open spec fn model(&self) -> WireKeyView {
        self@
    }

    /// An absent key has the empty path and the null hash.
    open spec fn blank() -> WireKeyView {
        WireKeyView { path: Seq::empty(), hgid: WireHgId::blank() }
    }

    open spec fn encoded(model: WireKeyView) -> ValueView {
        ValueView::Record(
            put(
                put(Seq::empty(), 0, field::<String>(model.path)),
                1,
                field::<WireHgId>(model.hgid),
            ),
        )
    }

    open spec fn decoded(value: ValueView) -> Result<WireKeyView, DecodeError> {
        match record_of(value) {
            Err(error) => Err(error),
            Ok(fields) => match read::<String>(fields, 0) {
                Err(error) => Err(error),
                Ok(path) => match read::<WireHgId>(fields, 1) {
                    Err(error) => Err(error),
                    Ok(hgid) => Ok(WireKeyView { path, hgid }),
                },
            },
        }
    }

    proof fn lemma_roundtrip(model: WireKeyView) {
        let f0 = put(Seq::empty(), 0, field::<String>(model.path));
        lemma_lookup_put(Seq::empty(), 0, field::<String>(model.path), 0);
        lemma_lookup_put(Seq::empty(), 0, field::<String>(model.path), 1);
        lemma_lookup_put(f0, 1, field::<WireHgId>(model.hgid), 0);
        lemma_lookup_put(f0, 1, field::<WireHgId>(model.hgid), 1);
        String::lemma_roundtrip(model.path);
        WireHgId::lemma_roundtrip(model.hgid);
    }

    fn encode(&self) -> (value: Value) {
        let mut fields: Vec<Field> = Vec::new();
        assert(field_views(fields@) =~= Seq::<FieldView>::empty());
        write_field(&mut fields, 0, &self.path);
        write_field(&mut fields, 1, &self.hgid);
        proof {
            lemma_record_view(fields);
        }
        Value::Record(fields)
    }

    fn decode(value: &Value) -> (decoded: Result<WireKey, DecodeError>) {
        let fields = as_record(value)?;
        let path: String = read_field(fields, 0)?;
        let hgid: WireHgId = read_field(fields, 1)?;
        Ok(WireKey { path, hgid })
    }

    fn is_blank(&self) -> (blank: bool) {
        self.path.is_blank() && self.hgid.is_blank()
    }

    fn make_blank() -> (value: WireKey) {
        WireKey { path: String::make_blank(), hgid: WireHgId::make_blank() }
    }
}

impl Tagged for WireUploadToken {
    type Model = WireUploadTokenView;

    open spec fn model(&self) -> WireUploadTokenView {
        self@
    }

    /// An absent token has no payload and no signature.
    open spec fn blank() -> WireUploadTokenView {
        WireUploadTokenView { data: Seq::empty(), signature: Seq::empty() }
    }

    open spec fn encoded(model: WireUploadTokenView) -> ValueView {
        ValueView::Record(
            put(
                put(Seq::empty(), 0, field::<Vec<u8>>(model.data)),
                1,
                field::<Vec<u8>>(model.signature),
            ),
        )
    }

    open spec fn decoded(value: ValueView) -> Result<WireUploadTokenView, DecodeError> {
        match record_of(value) {
            Err(error) => Err(error),
            Ok(fields) => match read::<Vec<u8>>(fields, 0) {
                Err(error) => Err(error),
                Ok(data) => match read::<Vec<u8>>(fields, 1) {
                    Err(error) => Err(error),
                    Ok(signature) => Ok(WireUploadTokenView { data, signature }),
                },
            },
        }
    }

    proof fn lemma_roundtrip(model: WireUploadTokenView) {
        let f0 = put(Seq::empty(), 0, field::<Vec<u8>>(model.data));
        lemma_lookup_put(Seq::empty(), 0, field::<Vec<u8>>(model.data), 0);
        lemma_lookup_put(Seq::empty(), 0, field::<Vec<u8>>(model.data), 1);
        lemma_lookup_put(f0, 1, field::<Vec<u8>>(model.signature), 0);
        lemma_lookup_put(f0, 1, field::<Vec<u8>>(model.signature), 1);
    }

    fn encode(&self) -> (value: Value) {
        let mut fields: Vec<Field> = Vec::new();
        assert(field_views(fields@) =~= Seq::<FieldView>::empty());
        write_field(&mut fields, 0, &self.data);
        write_field(&mut fields, 1, &self.signature);
        proof {
            lemma_record_view(fields);
        }
        Value::Record(fields)
    }

    fn decode(value: &Value) -> (decoded: Result<WireUploadToken, DecodeError>) {
        let fields = as_record(value)?;
        let data: Vec<u8> = read_field(fields, 0)?;
        let signature: Vec<u8> = read_field(fields, 1)?;
        Ok(WireUploadToken { data, signature })
    }

    fn is_blank(&self) -> (blank: bool) {
        self.data.is_blank() && self.signature.is_blank()
    }

    fn make_blank() -> (value: WireUploadToken) {
        WireUploadToken { data: Vec::new(), signature: Vec::new() }
    }
}

impl TaggedRecord for WireRevisionstoreMetadata {
    open spec fn tags() -> Set<u64> {
        set![0, 1]
    }

    proof fn lemma_blank_is_empty() {
    }

    proof fn lemma_unknown_tag_is_skipped(fields: Seq<FieldView>, at: int, extra: FieldView) {
        lemma_lookup_insert_others(fields, at, extra);
    }
}

impl TaggedRecord for WireKey {
    open spec fn tags() -> Set<u64> {
        set![0, 1]
    }

    proof fn lemma_blank_is_empty() {
    }

    proof fn lemma_unknown_tag_is_skipped(fields: Seq<FieldView>, at: int, extra: FieldView) {
        lemma_lookup_insert_others(fields, at, extra);
    }
}

impl TaggedRecord for WireUploadToken {
    open spec fn tags() -> Set<u64> {
        set![0, 1]
    }

    proof fn lemma_blank_is_empty() {
    }

    proof fn lemma_unknown_tag_is_skipped(fields: Seq<FieldView>, at: int, extra: FieldView) {
        lemma_lookup_insert_others(fields, at, extra);
    }
}

impl Default for WireHgId {
    fn default() -> (id: WireHgId)
        ensures
            id == WireHgId::blank(),
    {
        WireHgId::make_blank()
    }
}

impl Default for WireParents {
    fn default() -> (parents: WireParents)
        ensures
            parents == WireParents::blank(),
    {
        WireParents::make_blank()
    }
}

impl Default for WireRevisionstoreMetadata {
    fn default() -> (metadata: WireRevisionstoreMetadata)
        ensures
            metadata == WireRevisionstoreMetadata::blank(),
    {
        WireRevisionstoreMetadata::make_blank()
    }
}

impl Default for WireKey {
    fn default() -> (key: WireKey)
        ensures
            key@ == WireKey::blank(),
    {
        WireKey::make_blank()
    }
}

impl Default for WireUploadToken {
    fn default() -> (token: WireUploadToken)
        ensures
            token@ == WireUploadToken::blank(),
    {
        WireUploadToken::make_blank()
    }
}

/// The value that an absent field stands for is the wire form of the
/// domain type's default, and decodes to it.
pub proof fn lemma_blank_ids()
    ensures
        HgId::null_id().wire_form() == WireHgId::blank(),
        WireHgId::blank().api_form() == HgId::null_id(),
        Parents::NoParent.wire_form() == WireParents::blank(),
        WireParents::blank().api_form() == Parents::NoParent,
        Metadata::blank().wire_form() == WireRevisionstoreMetadata::blank(),
        WireRevisionstoreMetadata::blank().api_form() == Metadata::blank(),
        KeyView::blank().wire_form() == WireKey::blank(),
        WireKey::blank().api_form() == KeyView::blank(),
        UploadTokenView::blank().wire_form() == WireUploadToken::blank(),
        WireUploadToken::blank().api_form() == UploadTokenView::blank(),
{
}

} // verus!
