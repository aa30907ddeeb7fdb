//! The byte buffer that the decoders read from, and big-endian integers.
//!
//! The buffer is a `bytes::BytesMut`. Verus cannot look inside one, so its
//! contents are named by [`contents`], and the few operations the decoders
//! need are stated over that name.

use byteorder::BigEndian;
use byteorder::ByteOrder;
use bytes::BytesMut;
use vstd::prelude::*;

verus! {

#[verifier::external_type_specification]
#[verifier::external_body]
pub struct ExBytesMut(BytesMut);

/// The bytes that a buffer holds, front first.
pub uninterp spec fn contents(buf: BytesMut) -> Seq<u8>;

/// The value of a byte string read as a big-endian unsigned integer.
pub open spec fn be_value(bytes: Seq<u8>) -> nat
    decreases bytes.len(),
{
    if bytes.len() == 0 {
        0
    } else {
        be_value(bytes.drop_last()) * 256 + bytes.last() as nat
    }
}

/// `BytesMut::as_ref`: the buffer's bytes as a slice, nothing removed.
#[verifier::external_body]
pub(crate) fn buf_bytes(buf: &BytesMut) -> (s: &[u8])
    ensures
        s@ == contents(*buf),
{
    buf.as_ref()
}

/// `BytesMut::split_to`: removes the first `at` bytes and returns them as a
/// buffer of their own; the bytes from `at` on stay. It panics when `at`
/// is past the end, which the precondition rules out.
#[verifier::external_body]
pub(crate) fn buf_split_to(buf: &mut BytesMut, at: usize) -> (front: BytesMut)
    requires
        at <= contents(*old(buf)).len(),
    ensures
        contents(front) == contents(*old(buf)).take(at as int),
        contents(*final(buf)) == contents(*old(buf)).skip(at as int),
{
    buf.split_to(at)
}

/// `BigEndian::read_u16` of byteorder: the first two bytes of the slice as
/// a big-endian integer. It panics on a shorter slice.
#[verifier::external_body]
pub(crate) fn read_be_u16(bytes: &[u8]) -> (v: u16)
    requires
        bytes@.len() >= 2,
    ensures
        v == be_value(bytes@.take(2)),
{
    BigEndian::read_u16(bytes)
}

/// `BigEndian::read_u64` of byteorder: the first eight bytes of the slice
/// as a big-endian integer. It panics on a shorter slice.
#[verifier::external_body]
pub(crate) fn read_be_u64(bytes: &[u8]) -> (v: u64)
    requires
        bytes@.len() >= 8,
    ensures
        v == be_value(bytes@.take(8)),
{
    BigEndian::read_u64(bytes)
}

/// The big-endian value of two bytes is the first times 256 plus the
/// second, and so fits in 16 bits.
pub proof fn lemma_be_value_two(bytes: Seq<u8>)
    requires
        bytes.len() == 2,
    ensures
        be_value(bytes) == bytes[0] as nat * 256 + bytes[1] as nat,
        be_value(bytes) <= 65535,
{
    reveal_with_fuel(be_value, 3);
    assert(bytes.drop_last().drop_last().len() == 0);
    assert(bytes.drop_last().last() == bytes[0]);
}

} // verus!
