//! The byte buffer that carries file contents and commit payloads.

use vstd::prelude::*;

use bytes::Bytes;
use core::ops::Deref;

verus! {

/// `bytes::Bytes`, a reference-counted byte buffer. The codec carries such a
/// value through unread.
#[verifier::external_type_specification]
#[verifier::external_body]
pub struct ExBytes(bytes::Bytes);

/// The bytes that a buffer holds, in order.
pub uninterp spec fn bytes_contents(buffer: Bytes) -> Seq<u8>;

/// `Bytes::clone` hands out another handle to the same memory: the copy
/// holds the bytes that the buffer it was made from holds.
pub assume_specification[ <Bytes as Clone>::clone ](buffer: &Bytes) -> (copy: Bytes)
    ensures
        bytes_contents(copy) == bytes_contents(*buffer),
;

/// `Bytes::copy_from_slice` makes a buffer that holds a copy of the slice.
pub assume_specification[ Bytes::copy_from_slice ](data: &[u8]) -> (buffer: Bytes)
    ensures
        bytes_contents(buffer) == data@,
;

/// Dereferencing a `Bytes` gives the slice of the bytes that it holds.
pub assume_specification[ <Bytes as core::ops::Deref>::deref ](buffer: &Bytes) -> (data: &[u8])
    ensures
        data@ == bytes_contents(*buffer),
;

/// A buffer that holds a copy of `data`.
pub fn bytes_from_vec(data: &Vec<u8>) -> (buffer: Bytes)
    ensures
        bytes_contents(buffer) == data@,
{
    Bytes::copy_from_slice(data.as_slice())
}

/// The bytes of a buffer, copied into a vector.
pub fn bytes_to_vec(buffer: &Bytes) -> (data: Vec<u8>)
    ensures
        data@ == bytes_contents(*buffer),
{
    let slice: &[u8] = buffer.deref();
    let mut data: Vec<u8> = Vec::new();
    let mut i: usize = 0;
    while i < slice.len()
        invariant
            i <= slice@.len(),
            data@ == slice@.take(i as int),
        decreases slice@.len() - i,
    {
        data.push(slice[i]);
        assert(slice@.take(i as int).push(slice@[i as int]) =~= slice@.take(i + 1));
        i = i + 1;
    }
    assert(slice@.take(slice@.len() as int) =~= slice@);
    data
}

} // verus!
