//! The tagged form in which wire values are written.
//!
//! A wire value is written as a record: a list of fields, each a small
//! number (its tag) and a value. A tag, once given to a field, is never
//! given to another. A field that holds its type's default value is left
//! out, and a field that is left out reads as the default. A reader skips
//! tags that it does not know, so that fields can be added later.
//!
//! How a record becomes bytes is the business of the envelope; this module
//! says which fields a record has.

use vstd::prelude::*;

use bytes::Bytes;

use crate::blob::bytes_contents;

verus! {

/// The model of a value in tagged form.
pub enum ValueView {
    Bool(bool),
    Uint(u64),
    Blob(Seq<u8>),
    Text(Seq<char>),
    List(Seq<ValueView>),
    Record(Seq<FieldView>),
}

/// The model of one field of a record.
pub struct FieldView {
    pub tag: u64,
    pub value: ValueView,
}

/// A value in tagged form.
#[derive(Debug, PartialEq, Eq)]
pub enum Value {
    Bool(bool),
    Uint(u64),
    Blob(Bytes),
    Text(String),
    List(Vec<Value>),
    Record(Vec<Field>),
}

/// One field of a record: its tag and its value.
#[derive(Debug, PartialEq, Eq)]
pub struct Field {
    pub tag: u64,
    pub value: Value,
}

impl View for Value {
    type V = ValueView;

    open spec fn view(&self) -> ValueView
        decreases self,
    {
        match self {
            Value::Bool(b) => ValueView::Bool(*b),
            Value::Uint(n) => ValueView::Uint(*n),
            Value::Blob(b) => ValueView::Blob(bytes_contents(*b)),
            Value::Text(t) => ValueView::Text(t@),
            Value::List(items) => ValueView::List(
                Seq::new(
                    items@.len(),
                    |i: int|
                        if 0 <= i < items@.len() {
                            items@[i].view()
                        } else {
                            ValueView::Bool(false)
                        },
                ),
            ),
            Value::Record(fields) => ValueView::Record(
                Seq::new(
                    fields@.len(),
                    |i: int|
                        if 0 <= i < fields@.len() {
                            FieldView { tag: fields@[i].tag, value: fields@[i].value.view() }
                        } else {
                            FieldView { tag: 0, value: ValueView::Bool(false) }
                        },
                ),
            ),
        }
    }
}

impl View for Field {
    type V = FieldView;

    open spec fn view(&self) -> FieldView {
        FieldView { tag: self.tag, value: self.value@ }
    }
}

/// Why a tagged value cannot be read as the type that is asked for.
#[derive(Clone, Copy, Debug, PartialEq, Eq)]
pub enum DecodeError {
    /// The value is of another kind than the type is written in.
    UnexpectedKind,
    /// A hash is not twenty bytes long, or a list holds more items than
    /// the type has room for.
    InvalidLength,
    /// A number is too large for the type.
    OutOfRange,
}

/// The models of a list of values, item by item.
pub open spec fn value_views(items: Seq<Value>) -> Seq<ValueView> {
    items.map_values(|v: Value| v@)
}

/// The models of a list of fields, item by item.
pub open spec fn field_views(fields: Seq<Field>) -> Seq<FieldView> {
    fields.map_values(|f: Field| f@)
}

/// The model of a list is the list of its items' models.
pub proof fn lemma_list_view(items: Vec<Value>)
    ensures
        Value::List(items)@ == ValueView::List(value_views(items@)),
{
    reveal_with_fuel(<Value as View>::view, 2);
    assert(Value::List(items)@->List_0 =~= value_views(items@));
}

/// The model of a record is the list of its fields' models.
pub proof fn lemma_record_view(fields: Vec<Field>)
    ensures
        Value::Record(fields)@ == ValueView::Record(field_views(fields@)),
{
    reveal_with_fuel(<Value as View>::view, 2);
    assert(Value::Record(fields)@->Record_0 =~= field_views(fields@));
}

/// The value of the first field of a record that carries `tag`, if there
/// is one.
pub open spec fn lookup(fields: Seq<FieldView>, tag: u64) -> Option<ValueView>
    decreases fields.len(),
{
    if fields.len() == 0 {
        None
    } else {
        match lookup(fields.drop_last(), tag) {
            Some(value) => Some(value),
            None => if fields.last().tag == tag {
                Some(fields.last().value)
            } else {
                None
            },
        }
    }
}

/// A record with one more field at its end, or the record itself where
/// the field is left out.
pub open spec fn put(fields: Seq<FieldView>, tag: u64, value: Option<ValueView>) -> Seq<FieldView> {
    match value {
        Some(v) => fields.push(FieldView { tag, value: v }),
        None => fields,
    }
}

/// What a lookup finds after a field was put: the earlier fields come
/// first, then the new one.
pub proof fn lemma_lookup_put(fields: Seq<FieldView>, tag: u64, value: Option<ValueView>, wanted: u64)
    ensures
        lookup(put(fields, tag, value), wanted) == match lookup(fields, wanted) {
            Some(found) => Some(found),
            None => if tag == wanted {
                value
            } else {
                None
            },
        },
{
    if value is Some {
        let after = put(fields, tag, value);
        assert(after.drop_last() =~= fields);
    }
}

/// What every lookup finds after a field was put.
pub proof fn lemma_lookup_put_all(fields: Seq<FieldView>, tag: u64, value: Option<ValueView>)
    ensures
        forall|wanted: u64| #[trigger]
            lookup(put(fields, tag, value), wanted) == match lookup(fields, wanted) {
                Some(found) => Some(found),
                None => if tag == wanted {
                    value
                } else {
                    None
                },
            },
{
    assert forall|wanted: u64| #[trigger]
        lookup(put(fields, tag, value), wanted) == match lookup(fields, wanted) {
            Some(found) => Some(found),
            None => if tag == wanted {
                value
            } else {
                None
            },
        } by {
        lemma_lookup_put(fields, tag, value, wanted);
    }
}

/// A field that a prefix of the record holds is the field that the whole
/// record holds.
pub proof fn lemma_lookup_prefix(fields: Seq<FieldView>, k: int, tag: u64)
    requires
        0 <= k <= fields.len(),
        lookup(fields.take(k), tag) is Some,
    ensures
        lookup(fields, tag) == lookup(fields.take(k), tag),
    decreases fields.len() - k,
{
    if k < fields.len() {
        assert(fields.take(k + 1).drop_last() =~= fields.take(k));
        lemma_lookup_prefix(fields, k + 1, tag);
    } else {
        assert(fields.take(k) =~= fields);
    }
}

/// Finds the first field of a record that carries `tag`.
pub fn find<'a>(fields: &'a Vec<Field>, tag: u64) -> (found: Option<&'a Value>)
    ensures
        match lookup(field_views(fields@), tag) {
            Some(value) => found matches Some(f) && f@ == value,
            None => found is None,
        },
{
    let ghost all = field_views(fields@);
    let mut i: usize = 0;
    while i < fields.len()
        invariant
            i <= fields@.len(),
            all == field_views(fields@),
            lookup(all.take(i as int), tag) is None,
        decreases fields@.len() - i,
    {
        proof {
            assert(all.take(i + 1).drop_last() =~= all.take(i as int));
        }
        if fields[i].tag == tag {
            proof {
                lemma_lookup_prefix(all, i + 1, tag);
            }
            return Some(&fields[i].value);
        }
        i = i + 1;
    }
    proof {
        assert(all.take(i as int) =~= all);
    }
    None
}

/// Adds a field to the end of a record, or leaves it out.
pub fn put_field(fields: &mut Vec<Field>, tag: u64, value: Option<Value>)
    ensures
        field_views(final(fields)@) == put(
            field_views(old(fields)@),
            tag,
            match value {
                Some(v) => Some(v@),
                None => None,
            },
        ),
{
    match value {
        Some(v) => {
            let ghost before = fields@;
            fields.push(Field { tag, value: v });
            assert(field_views(fields@) =~= field_views(before).push(
                FieldView { tag, value: v@ },
            ));
        },
        None => {},
    }
}

/// A type that has a tagged form.
pub trait Tagged: Sized {
    /// The mathematical model of the type.
    type Model;

    /// The model of a value.
    spec fn model(&self) -> Self::Model;

    /// The value that an absent field stands for.
    spec fn blank() -> Self::Model;

    /// The tagged form of a value.
    spec fn encoded(model: Self::Model) -> ValueView;

    /// The value that a tagged form stands for, or why it stands for none.
    spec fn decoded(value: ValueView) -> Result<Self::Model, DecodeError>;

    /// Reading what was written gives the value back.
    proof fn lemma_roundtrip(model: Self::Model)
        ensures
            Self::decoded(Self::encoded(model)) == Ok::<Self::Model, DecodeError>(model),
    ;

    /// Writes a value in tagged form.
    fn encode(&self) -> (value: Value)
        ensures
            value@ == Self::encoded(self.model()),
    ;

    /// Reads a value from its tagged form.
    fn decode(value: &Value) -> (decoded: Result<Self, DecodeError>)
        ensures
            match Self::decoded(value@) {
                Ok(model) => decoded matches Ok(d) && d.model() == model,
                Err(error) => decoded == Err::<Self, DecodeError>(error),
            },
    ;

    /// Whether a value is the one that an absent field stands for.
    fn is_blank(&self) -> (blank: bool)
        ensures
            blank == (self.model() == Self::blank()),
    ;

    /// The value that an absent field stands for.
    fn make_blank() -> (value: Self)
        ensures
            value.model() == Self::blank(),
    ;
}

/// A field with another tag, put anywhere into a record, changes nothing
/// about the fields that a lookup finds under the tags it asks for.
pub proof fn lemma_lookup_insert_other(
    fields: Seq<FieldView>,
    at: int,
    extra: FieldView,
    tag: u64,
)
    requires
        0 <= at <= fields.len(),
        extra.tag != tag,
    ensures
        lookup(fields.insert(at, extra), tag) == lookup(fields, tag),
    decreases fields.len(),
{
    let after = fields.insert(at, extra);
    if at == fields.len() {
        assert(after =~= fields.push(extra));
        lemma_lookup_put(fields, extra.tag, Some(extra.value), tag);
    } else {
        assert(after.drop_last() =~= fields.drop_last().insert(at, extra));
        assert(after.last() == fields.last());
        lemma_lookup_insert_other(fields.drop_last(), at, extra, tag);
    }
}

/// The same for every tag but the new field's own.
pub proof fn lemma_lookup_insert_others(fields: Seq<FieldView>, at: int, extra: FieldView)
    requires
        0 <= at <= fields.len(),
    ensures
        forall|tag: u64|
            tag != extra.tag ==> #[trigger] lookup(fields.insert(at, extra), tag) == lookup(
                fields,
                tag,
            ),
{
    assert forall|tag: u64| tag != extra.tag implies #[trigger] lookup(
        fields.insert(at, extra),
        tag,
    ) == lookup(fields, tag) by {
        lemma_lookup_insert_other(fields, at, extra, tag);
    }
}

/// A type that is written as a record.
pub trait TaggedRecord: Tagged {
    /// The tags that the type gives to its fields. They are never given
    /// to other fields.
    spec fn tags() -> Set<u64>;

    /// The blank value is written as the record without fields, and the
    /// record without fields reads as the blank value.
    proof fn lemma_blank_is_empty()
        ensures
            Self::encoded(Self::blank()) == ValueView::Record(Seq::empty()),
            Self::decoded(ValueView::Record(Seq::empty())) == Ok::<Self::Model, DecodeError>(
                Self::blank(),
            ),
    ;

    /// A field with a tag that the type does not know is skipped: wherever
    /// it stands in a record, the record reads as it does without it.
    proof fn lemma_unknown_tag_is_skipped(fields: Seq<FieldView>, at: int, extra: FieldView)
        requires
            0 <= at <= fields.len(),
            !Self::tags().contains(extra.tag),
        ensures
            Self::decoded(ValueView::Record(fields.insert(at, extra))) == Self::decoded(
                ValueView::Record(fields),
            ),
    ;
}

/// A field that holds the blank value is left out, and a record that
/// lacks a field reads the blank value for it.
pub proof fn lemma_blank_is_left_out<T: Tagged>(fields: Seq<FieldView>, tag: u64)
    ensures
        field::<T>(T::blank()) is None,
        put(fields, tag, field::<T>(T::blank())) == fields,
        lookup(fields, tag) is None ==> read::<T>(fields, tag) == Ok::<T::Model, DecodeError>(
            T::blank(),
        ),
{
}

/// How a field of type `T` is written: left out where it holds the blank
/// value, else in its tagged form.
pub open spec fn field<T: Tagged>(model: T::Model) -> Option<ValueView> {
    if model == T::blank() {
        None
    } else {
        Some(T::encoded(model))
    }
}

/// How an optional field is written: left out where there is no value,
/// else in the tagged form of the value, blank or not.
pub open spec fn optional_field<T: Tagged>(model: Option<T::Model>) -> Option<ValueView> {
    match model {
        Some(m) => Some(T::encoded(m)),
        None => None,
    }
}

/// How a field of type `T` is read: the blank value where the record has
/// no such field.
pub open spec fn read<T: Tagged>(fields: Seq<FieldView>, tag: u64) -> Result<T::Model, DecodeError> {
    match lookup(fields, tag) {
        Some(value) => T::decoded(value),
        None => Ok(T::blank()),
    }
}

/// How an optional field is read: no value where the record has no such
/// field.
pub open spec fn read_optional<T: Tagged>(fields: Seq<FieldView>, tag: u64) -> Result<
    Option<T::Model>,
    DecodeError,
> {
    match lookup(fields, tag) {
        Some(value) => match T::decoded(value) {
            Ok(model) => Ok(Some(model)),
            Err(error) => Err(error),
        },
        None => Ok(None),
    }
}

/// The fields of a record, or the error for a value that is no record.
pub open spec fn record_of(value: ValueView) -> Result<Seq<FieldView>, DecodeError> {
    match value {
        ValueView::Record(fields) => Ok(fields),
        _ => Err(DecodeError::UnexpectedKind),
    }
}

/// The fields of a record.
pub fn as_record(value: &Value) -> (fields: Result<&Vec<Field>, DecodeError>)
    ensures
        match record_of(value@) {
            Ok(views) => fields matches Ok(f) && field_views(f@) == views,
            Err(error) => fields == Err::<&Vec<Field>, DecodeError>(error),
        },
{
    match value {
        Value::Record(fields) => {
            proof {
                lemma_record_view(*fields);
            }
            Ok(fields)
        },
        _ => Err(DecodeError::UnexpectedKind),
    }
}

/// Writes a field of type `T`, unless it holds the blank value.
pub fn write_field<T: Tagged>(fields: &mut Vec<Field>, tag: u64, item: &T)
    ensures
        field_views(final(fields)@) == put(field_views(old(fields)@), tag, field::<T>(item.model())),
{
    if item.is_blank() {
        put_field(fields, tag, None);
    } else {
        put_field(fields, tag, Some(item.encode()));
    }
}

/// Writes an optional field, unless there is no value.
pub fn write_optional_field<T: Tagged>(fields: &mut Vec<Field>, tag: u64, item: &Option<T>)
    ensures
        field_views(final(fields)@) == put(
            field_views(old(fields)@),
            tag,
            optional_field::<T>(
                match *item {
                    Some(x) => Some(x.model()),
                    None => None,
                },
            ),
        ),
{
    match item {
        Some(x) => {
            put_field(fields, tag, Some(x.encode()));
        },
        None => {
            put_field(fields, tag, None);
        },
    }
}

/// Reads a field of type `T` from a record.
pub fn read_field<T: Tagged>(fields: &Vec<Field>, tag: u64) -> (item: Result<T, DecodeError>)
    ensures
        match read::<T>(field_views(fields@), tag) {
            Ok(model) => item matches Ok(x) && x.model() == model,
            Err(error) => item == Err::<T, DecodeError>(error),
        },
{
    match find(fields, tag) {
        Some(value) => T::decode(value),
        None => Ok(T::make_blank()),
    }
}

/// Reads an optional field from a record.
pub fn read_optional_field<T: Tagged>(fields: &Vec<Field>, tag: u64) -> (item: Result<
    Option<T>,
    DecodeError,
>)
    ensures
        match read_optional::<T>(field_views(fields@), tag) {
            Ok(Some(model)) => item matches Ok(Some(x)) && x.model() == model,
            Ok(None) => item matches Ok(None),
            Err(error) => item == Err::<Option<T>, DecodeError>(error),
        },
{
    match find(fields, tag) {
        Some(value) => Ok(Some(T::decode(value)?)),
        None => Ok(None),
    }
}

} // verus!
