//! Tagged forms of the plain values that fields hold: flags, numbers, text,
//! byte strings and lists.

use vstd::prelude::*;

use bytes::Bytes;
use core::ops::Deref;

use crate::blob::{bytes_contents, bytes_from_vec, bytes_to_vec};
use crate::encoding::{lemma_list_view, value_views, DecodeError, Tagged, Value, ValueView};

verus! {

impl Tagged for bool {
    type Model = bool;

    open spec fn model(&self) -> bool {
        *self
    }

    open spec fn blank() -> bool {
        false
    }

    open spec fn encoded(model: bool) -> ValueView {
        ValueView::Bool(model)
    }

    open spec fn decoded(value: ValueView) -> Result<bool, DecodeError> {
        match value {
            ValueView::Bool(b) => Ok(b),
            _ => Err(DecodeError::UnexpectedKind),
        }
    }

    proof fn lemma_roundtrip(model: bool) {
    }

    fn encode(&self) -> (value: Value) {
        Value::Bool(*self)
    }

    fn decode(value: &Value) -> (decoded: Result<bool, DecodeError>) {
        match value {
            Value::Bool(b) => Ok(*b),
            _ => Err(DecodeError::UnexpectedKind),
        }
    }

    fn is_blank(&self) -> (blank: bool) {
        !*self
    }

    fn make_blank() -> (value: bool) {
        false
    }
}

impl Tagged for u64 {
    type Model = u64;

    open spec fn model(&self) -> u64 {
        *self
    }

    open spec fn blank() -> u64 {
        0
    }

    open spec fn encoded(model: u64) -> ValueView {
        ValueView::Uint(model)
    }

    open spec fn decoded(value: ValueView) -> Result<u64, DecodeError> {
        match value {
            ValueView::Uint(n) => Ok(n),
            _ => Err(DecodeError::UnexpectedKind),
        }
    }

    proof fn lemma_roundtrip(model: u64) {
    }

    fn encode(&self) -> (value: Value) {
        Value::Uint(*self)
    }

    fn decode(value: &Value) -> (decoded: Result<u64, DecodeError>) {
        match value {
            Value::Uint(n) => Ok(*n),
            _ => Err(DecodeError::UnexpectedKind),
        }
    }

    fn is_blank(&self) -> (blank: bool) {
        *self == 0
    }

    fn make_blank() -> (value: u64) {
        0
    }
}

impl Tagged for usize {
    type Model = usize;

    open spec fn model(&self) -> usize {
        *self
    }

    open spec fn blank() -> usize {
        0
    }

    open spec fn encoded(model: usize) -> ValueView {
        ValueView::Uint(model as u64)
    }

    /// A number reads as an index where it fits the machine's word.
    open spec fn decoded(value: ValueView) -> Result<usize, DecodeError> {
        match value {
            ValueView::Uint(n) => if n <= usize::MAX {
                Ok(n as usize)
            } else {
                Err(DecodeError::OutOfRange)
            },
            _ => Err(DecodeError::UnexpectedKind),
        }
    }

    proof fn lemma_roundtrip(model: usize) {
    }

    fn encode(&self) -> (value: Value) {
        Value::Uint(*self as u64)
    }

    fn decode(value: &Value) -> (decoded: Result<usize, DecodeError>) {
        match value {
            Value::Uint(n) => {
                if *n <= usize::MAX as u64 {
                    Ok(*n as usize)
                } else {
                    Err(DecodeError::OutOfRange)
                }
            },
            _ => Err(DecodeError::UnexpectedKind),
        }
    }

    fn is_blank(&self) -> (blank: bool) {
        *self == 0
    }

    fn make_blank() -> (value: usize) {
        0
    }
}

impl Tagged for String {
    type Model = Seq<char>;

    open spec fn model(&self) -> Seq<char> {
        self@
    }

    open spec fn blank() -> Seq<char> {
        Seq::empty()
    }

    open spec fn encoded(model: Seq<char>) -> ValueView {
        ValueView::Text(model)
    }

    open spec fn decoded(value: ValueView) -> Result<Seq<char>, DecodeError> {
        match value {
            ValueView::Text(t) => Ok(t),
            _ => Err(DecodeError::UnexpectedKind),
        }
    }

    proof fn lemma_roundtrip(model: Seq<char>) {
    }

    fn encode(&self) -> (value: Value) {
        Value::Text(self.clone())
    }

    fn decode(value: &Value) -> (decoded: Result<String, DecodeError>) {
        match value {
            Value::Text(t) => Ok(t.clone()),
            _ => Err(DecodeError::UnexpectedKind),
        }
    }

    fn is_blank(&self) -> (blank: bool) {
        let blank = self.as_str().is_empty();
        assert(blank == (self@ =~= Seq::<char>::empty()));
        blank
    }

    fn make_blank() -> (value: String) {
        String::new()
    }
}

impl Tagged for Vec<u8> {
    type Model = Seq<u8>;

    open spec fn model(&self) -> Seq<u8> {
        self@
    }

    open spec fn blank() -> Seq<u8> {
        Seq::empty()
    }

    open spec fn encoded(model: Seq<u8>) -> ValueView {
        ValueView::Blob(model)
    }

    open spec fn decoded(value: ValueView) -> Result<Seq<u8>, DecodeError> {
        match value {
            ValueView::Blob(b) => Ok(b),
            _ => Err(DecodeError::UnexpectedKind),
        }
    }

    proof fn lemma_roundtrip(model: Seq<u8>) {
    }

    fn encode(&self) -> (value: Value) {
        Value::Blob(bytes_from_vec(self))
    }

    fn decode(value: &Value) -> (decoded: Result<Vec<u8>, DecodeError>) {
        match value {
            Value::Blob(b) => Ok(bytes_to_vec(b)),
            _ => Err(DecodeError::UnexpectedKind),
        }
    }

    fn is_blank(&self) -> (blank: bool) {
        let blank = self.len() == 0;
        assert(blank == (self@ =~= Seq::<u8>::empty()));
        blank
    }

    fn make_blank() -> (value: Vec<u8>) {
        Vec::new()
    }
}

impl Tagged for Bytes {
    type Model = Seq<u8>;

    open spec fn model(&self) -> Seq<u8> {
        bytes_contents(*self)
    }

    open spec fn blank() -> Seq<u8> {
        Seq::empty()
    }

    open spec fn encoded(model: Seq<u8>) -> ValueView {
        ValueView::Blob(model)
    }

    open spec fn decoded(value: ValueView) -> Result<Seq<u8>, DecodeError> {
        match value {
            ValueView::Blob(b) => Ok(b),
            _ => Err(DecodeError::UnexpectedKind),
        }
    }

    proof fn lemma_roundtrip(model: Seq<u8>) {
    }

    fn encode(&self) -> (value: Value) {
        Value::Blob(self.clone())
    }

    fn decode(value: &Value) -> (decoded: Result<Bytes, DecodeError>) {
        match value {
            Value::Blob(b) => Ok(b.clone()),
            _ => Err(DecodeError::UnexpectedKind),
        }
    }

    fn is_blank(&self) -> (blank: bool) {
        let blank = self.deref().len() == 0;
        assert(blank == (bytes_contents(*self) =~= Seq::<u8>::empty()));
        blank
    }

    fn make_blank() -> (value: Bytes) {
        let empty: Vec<u8> = Vec::new();
        bytes_from_vec(&empty)
    }
}

/// The values that a list of tagged forms stands for, item by item; the
/// first item that cannot be read gives the error.
pub open spec fn decoded_all<T: Tagged>(items: Seq<ValueView>) -> Result<Seq<T::Model>, DecodeError>
    decreases items.len(),
{
    if items.len() == 0 {
        Ok(Seq::empty())
    } else {
        match decoded_all::<T>(items.drop_last()) {
            Err(error) => Err(error),
            Ok(front) => match T::decoded(items.last()) {
                Err(error) => Err(error),
                Ok(model) => Ok(front.push(model)),
            },
        }
    }
}

/// The tagged forms of a list of values, item by item.
pub open spec fn encoded_all<T: Tagged>(models: Seq<T::Model>) -> Seq<ValueView> {
    models.map_values(|m: T::Model| T::encoded(m))
}

/// The models of a list of values, item by item.
pub open spec fn models<T: Tagged>(items: Seq<T>) -> Seq<T::Model> {
    items.map_values(|x: T| x.model())
}

/// Reading each item of a list that was written gives the list back.
pub proof fn lemma_roundtrip_all<T: Tagged>(models: Seq<T::Model>)
    ensures
        decoded_all::<T>(encoded_all::<T>(models)) == Ok::<Seq<T::Model>, DecodeError>(models),
    decreases models.len(),
{
    let written = encoded_all::<T>(models);
    if models.len() == 0 {
        assert(models =~= Seq::empty());
    } else {
        assert(written.drop_last() =~= encoded_all::<T>(models.drop_last()));
        lemma_roundtrip_all::<T>(models.drop_last());
        T::lemma_roundtrip(models.last());
        assert(models.drop_last().push(models.last()) =~= models);
    }
}

impl<T: Tagged> Tagged for Vec<T> {
    type Model = Seq<T::Model>;

    open spec fn model(&self) -> Seq<T::Model> {
        models::<T>(self@)
    }

    open spec fn blank() -> Seq<T::Model> {
        Seq::empty()
    }

    open spec fn encoded(model: Seq<T::Model>) -> ValueView {
        ValueView::List(encoded_all::<T>(model))
    }

    open spec fn decoded(value: ValueView) -> Result<Seq<T::Model>, DecodeError> {
        match value {
            ValueView::List(items) => decoded_all::<T>(items),
            _ => Err(DecodeError::UnexpectedKind),
        }
    }

    proof fn lemma_roundtrip(model: Seq<T::Model>) {
        lemma_roundtrip_all::<T>(model);
    }

    fn encode(&self) -> (value: Value) {
        let mut items: Vec<Value> = Vec::new();
        let mut i: usize = 0;
        while i < self.len()
            invariant
                i <= self@.len(),
                items@.len() == i,
                forall|j: int| 0 <= j < i ==> items@[j]@ == T::encoded(self@[j].model()),
            decreases self@.len() - i,
        {
            items.push(self[i].encode());
            i = i + 1;
        }
        proof {
            lemma_list_view(items);
            assert(value_views(items@) =~= encoded_all::<T>(models::<T>(self@)));
        }
        Value::List(items)
    }

    fn decode(value: &Value) -> (decoded: Result<Vec<T>, DecodeError>) {
        match value {
            Value::List(items) => {
                proof {
                    lemma_list_view(*items);
                }
                let ghost views = value_views(items@);
                let mut out: Vec<T> = Vec::new();
                let mut i: usize = 0;
                proof {
                    assert(views.take(0) =~= Seq::<ValueView>::empty());
                    assert(models::<T>(out@) =~= Seq::<T::Model>::empty());
                }
                while i < items.len()
                    invariant
                        i <= items@.len(),
                        views == value_views(items@),
                        value@ == ValueView::List(views),
                        decoded_all::<T>(views.take(i as int)) == Ok::<
                            Seq<T::Model>,
                            DecodeError,
                        >(models::<T>(out@)),
                    decreases items@.len() - i,
                {
                    proof {
                        assert(views.take(i + 1).drop_last() =~= views.take(i as int));
                        assert(views.take(i + 1).last() == items@[i as int]@);
                    }
                    match T::decode(&items[i]) {
                        Ok(item) => {
                            let ghost before = out@;
                            out.push(item);
                            proof {
                                assert(models::<T>(out@) =~= models::<T>(before).push(
                                    item.model(),
                                ));
                            }
                        },
                        Err(error) => {
                            proof {
                                let prefix = views.take(i + 1);
                                assert(T::decoded(prefix.last()) == Err::<T::Model, DecodeError>(
                                    error,
                                ));
                                assert(decoded_all::<T>(prefix.drop_last()) is Ok);
                                assert(decoded_all::<T>(prefix) == Err::<
                                    Seq<T::Model>,
                                    DecodeError,
                                >(error));
                                lemma_decoded_all_fails::<T>(views, i + 1);
                            }
                            return Err(error);
                        },
                    }
                    i = i + 1;
                }
                proof {
                    assert(views.take(i as int) =~= views);
                }
                Ok(out)
            },
            _ => Err(DecodeError::UnexpectedKind),
        }
    }

    fn is_blank(&self) -> (blank: bool) {
        let blank = self.len() == 0;
        assert(blank == (models::<T>(self@) =~= Seq::<T::Model>::empty()));
        blank
    }

    fn make_blank() -> (value: Vec<T>) {
        let value: Vec<T> = Vec::new();
        assert(models::<T>(value@) =~= Seq::<T::Model>::empty());
        value
    }
}

/// A list of which a prefix cannot be read cannot be read, and fails with
/// the prefix's error.
pub proof fn lemma_decoded_all_fails<T: Tagged>(items: Seq<ValueView>, k: int)
    requires
        0 <= k <= items.len(),
        decoded_all::<T>(items.take(k)) is Err,
    ensures
        decoded_all::<T>(items) == decoded_all::<T>(items.take(k)),
    decreases items.len() - k,
{
    if k < items.len() {
        assert(items.take(k + 1).drop_last() =~= items.take(k));
        lemma_decoded_all_fails::<T>(items, k + 1);
    } else {
        assert(items.take(k) =~= items);
    }
}

} // verus!
