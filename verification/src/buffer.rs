//! What the cache needs of [`bytes::BytesMut`], in which it gathers the data of a body, and of
//! [`bytes::Bytes`], in which it hands data out.

use vstd::prelude::*;

verus! {

/// [`bytes::Bytes`], an immutable run of bytes.
#[verifier::external_type_specification]
#[verifier::external_body]
pub struct ExBytes(bytes::Bytes);

/// [`bytes::BytesMut`], a growing run of bytes.
#[verifier::external_type_specification]
#[verifier::external_body]
pub struct ExBytesMut(bytes::BytesMut);

/// The bytes that a [`bytes::Bytes`] holds.
pub uninterp spec fn bytes_of(data: bytes::Bytes) -> Seq<u8>;

/// The bytes that a [`bytes::BytesMut`] holds.
pub uninterp spec fn bytes_in(buffer: bytes::BytesMut) -> Seq<u8>;

/// There is room in a buffer that holds `held` bytes for `more`. An allocation has at most
/// `isize::MAX` bytes, and one that grows may be doubled.
pub open spec fn bytes_fit(held: nat, more: nat) -> bool {
    held + more <= isize::MAX / 2
}

/// `BytesMut::new`: an empty buffer.
#[verifier::external_body]
pub(crate) fn new_buffer() -> (buffer: bytes::BytesMut)
    ensures
        bytes_in(buffer) == Seq::<u8>::empty(),
{
    bytes::BytesMut::new()
}

/// `BytesMut::len`: the number of bytes in the buffer.
#[verifier::external_body]
pub(crate) fn buffer_len(buffer: &bytes::BytesMut) -> (len: usize)
    ensures
        len == bytes_in(*buffer).len(),
{
    buffer.len()
}

/// `BytesMut::extend` with bytes: they are appended in order.
#[verifier::external_body]
pub(crate) fn extend_buffer(buffer: &mut bytes::BytesMut, data: &Vec<u8>)
    requires
        bytes_fit(bytes_in(*old(buffer)).len(), data@.len()),
    ensures
        bytes_in(*final(buffer)) == bytes_in(*old(buffer)) + data@,
{
    buffer.extend(data.iter())
}

/// A [`bytes::BytesMut`] turned `into` [`bytes::Bytes`]: the same bytes.
#[verifier::external_body]
pub(crate) fn freeze_buffer(buffer: bytes::BytesMut) -> (data: bytes::Bytes)
    ensures
        bytes_of(data) == bytes_in(buffer),
{
    buffer.into()
}

/// `Bytes::from_owner` of a vector: the bytes of the vector.
#[verifier::external_body]
pub(crate) fn own_bytes(owner: Vec<u8>) -> (data: bytes::Bytes)
    ensures
        bytes_of(data) == owner@,
{
    bytes::Bytes::from_owner(owner)
}

/// `clone` of a [`bytes::Bytes`]: the same bytes.
#[verifier::external_body]
pub(crate) fn copy_bytes(data: &bytes::Bytes) -> (copy: bytes::Bytes)
    ensures
        bytes_of(copy) == bytes_of(*data),
{
    data.clone()
}

}
