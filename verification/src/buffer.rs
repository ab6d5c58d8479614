//! The byte buffers of the `bytes` crate, and `std`'s UTF-8 check, as the codec
//! sees them. Nothing in this file is proved: each contract restates what the
//! function it names is documented to do.

use crate::endian::{i16_le_bytes, i32_from_le_bytes, i32_le_bytes};
use bytes::{Buf, BufMut, BytesMut};
use vstd::prelude::*;
use vstd::string::StringSliceAdditionalSpecFns;
use vstd::utf8::valid_utf8;

verus! {

/// `bytes::BytesMut`, a growable buffer of bytes.
#[verifier::external_type_specification]
#[verifier::external_body]
pub struct ExBytesMut(BytesMut);

/// The bytes that a buffer holds, in order.
pub uninterp spec fn buffer_bytes(buffer: BytesMut) -> Seq<u8>;

/// Whether a buffer still owns its allocation from the first byte on, as one
/// does that has only been appended to since it was made: nothing was split
/// off it, and nothing was taken from its front. Such a buffer grows as a
/// vector does, and appending to it panics only where the bytes it would
/// hold are more than an allocation can be.
pub uninterp spec fn buffer_is_whole(buffer: BytesMut) -> bool;

/// `BytesMut::with_capacity`: a whole buffer that holds no bytes yet. The
/// capacity is a hint for the allocation and shows in nothing that can be
/// read back.
#[verifier::external_body]
pub(crate) fn buffer_with_capacity(capacity: usize) -> (buffer: BytesMut)
    requires
        capacity <= isize::MAX,
    ensures
        buffer_bytes(buffer) == Seq::<u8>::empty(),
        buffer_is_whole(buffer),
{
    BytesMut::with_capacity(capacity)
}

/// `BufMut::put_i32_le` on a `BytesMut`: appends the four bytes of `value`,
/// least significant first, growing the buffer as needed. The buffer stays
/// whole.
#[verifier::external_body]
pub(crate) fn put_i32_le(buffer: &mut BytesMut, value: i32)
    requires
        buffer_is_whole(*old(buffer)),
        buffer_bytes(*old(buffer)).len() + 4 <= isize::MAX,
    ensures
        buffer_bytes(*final(buffer)) == buffer_bytes(*old(buffer)) + i32_le_bytes(value),
        buffer_is_whole(*final(buffer)),
{
    buffer.put_i32_le(value)
}

/// `BufMut::put_i16_le` on a `BytesMut`: appends the two bytes of `value`,
/// least significant first, growing the buffer as needed. The buffer stays
/// whole.
#[verifier::external_body]
pub(crate) fn put_i16_le(buffer: &mut BytesMut, value: i16)
    requires
        buffer_is_whole(*old(buffer)),
        buffer_bytes(*old(buffer)).len() + 2 <= isize::MAX,
    ensures
        buffer_bytes(*final(buffer)) == buffer_bytes(*old(buffer)) + i16_le_bytes(value),
        buffer_is_whole(*final(buffer)),
{
    buffer.put_i16_le(value)
}

/// `BufMut::put_slice` on a `BytesMut`: appends the bytes of `src` as they
/// are, growing the buffer as needed. The buffer stays whole.
#[verifier::external_body]
pub(crate) fn put_slice(buffer: &mut BytesMut, src: &[u8])
    requires
        buffer_is_whole(*old(buffer)),
        buffer_bytes(*old(buffer)).len() + src@.len() <= isize::MAX,
    ensures
        buffer_bytes(*final(buffer)) == buffer_bytes(*old(buffer)) + src@,
        buffer_is_whole(*final(buffer)),
{
    buffer.put_slice(src)
}

/// `Vec::from` on a `BytesMut`: the bytes that the buffer held, as a vector.
#[verifier::external_body]
pub(crate) fn buffer_into_vec(buffer: BytesMut) -> (bytes: Vec<u8>)
    ensures
        bytes@ == buffer_bytes(buffer),
{
    Vec::from(buffer)
}

/// `Buf::get_i32_le` on a byte slice: reads the first four bytes as a signed
/// integer, least significant byte first, and moves the slice past them.
#[verifier::external_body]
pub(crate) fn get_i32_le(bytes: &mut &[u8]) -> (value: i32)
    requires
        old(bytes)@.len() >= 4,
    ensures
        value == i32_from_le_bytes(old(bytes)@),
        final(bytes)@ == old(bytes)@.skip(4),
{
    bytes.get_i32_le()
}

/// `std::str::from_utf8`: succeeds exactly on valid UTF-8, and the text it
/// gives then has the bytes it was given.
pub assume_specification[ std::str::from_utf8 ](bytes: &[u8]) -> (text: Result<
    &str,
    std::str::Utf8Error,
>)
    ensures
        text is Ok <==> valid_utf8(bytes@),
        text is Ok ==> text->Ok_0.spec_bytes() == bytes@,
;

} // verus!
