//! Shared byte buffers of the `bytes` crate.
use bytes::{Bytes, BytesMut};
use vstd::prelude::*;

verus! {

/// The immutable shared buffer `bytes::Bytes`.
#[verifier::external_type_specification]
#[verifier::external_body]
pub struct ExBytes(Bytes);

/// The growing buffer `bytes::BytesMut`.
#[verifier::external_type_specification]
#[verifier::external_body]
pub struct ExBytesMut(BytesMut);

/// The bytes that a `Bytes` holds.
pub uninterp spec fn bytes_of(bytes: Bytes) -> Seq<u8>;

/// The bytes that a `BytesMut` holds.
pub uninterp spec fn buffer_of(buffer: BytesMut) -> Seq<u8>;

/// `Bytes::len`: the number of bytes held.
pub assume_specification[ Bytes::len ](bytes: &Bytes) -> (length: usize)
    ensures
        length == bytes_of(*bytes).len(),
;

/// `Bytes::is_empty`: whether no byte is held.
pub assume_specification[ Bytes::is_empty ](bytes: &Bytes) -> (empty: bool)
    ensures
        empty == (bytes_of(*bytes).len() == 0),
;

/// `Bytes::copy_from_slice`: a new buffer with a copy of the slice.
pub assume_specification[ Bytes::copy_from_slice ](data: &[u8]) -> (bytes: Bytes)
    ensures
        bytes_of(bytes) == data@,
;

/// `<Bytes as From<Vec<u8>>>::from`: a buffer that takes over the vector's contents.
#[verifier::external_body]
pub(crate) fn bytes_from_vec(data: Vec<u8>) -> (bytes: Bytes)
    ensures
        bytes_of(bytes) == data@,
{
    Bytes::from(data)
}

/// `<Bytes as Deref>::deref`: the contents as a slice.
#[verifier::external_body]
pub(crate) fn bytes_slice(bytes: &Bytes) -> (slice: &[u8])
    ensures
        slice@ == bytes_of(*bytes),
{
    bytes
}

/// `BytesMut::with_capacity`: an empty buffer. It panics when the capacity exceeds what
/// an allocation can hold.
pub assume_specification[ BytesMut::with_capacity ](capacity: usize) -> (growing: BytesMut)
    requires
        capacity <= isize::MAX,
    ensures
        buffer_of(growing) == Seq::<u8>::empty(),
;

/// `BytesMut::extend_from_slice`: appends a copy of the slice. It panics when the whole
/// exceeds what an allocation can hold.
pub assume_specification[ BytesMut::extend_from_slice ](growing: &mut BytesMut, data: &[u8])
    requires
        buffer_of(*old(growing)).len() + data@.len() <= isize::MAX,
    ensures
        buffer_of(*final(growing)) == buffer_of(*old(growing)) + data@,
;

/// `BytesMut::freeze`: the same bytes, immutable.
pub assume_specification[ BytesMut::freeze ](growing: BytesMut) -> (bytes: Bytes)
    ensures
        bytes_of(bytes) == buffer_of(growing),
;

} // verus!
