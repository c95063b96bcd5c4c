//! A verified view of the byte buffers of the `bytes` crate.
//!
//! `bytes::Bytes` (an immutable, reference-counted byte buffer) and
//! `bytes::BytesMut` (a growable output buffer) are opaque to the verifier.
//! This module declares both types and models each by the sequence of bytes
//! it holds: `bytes_seq` and `bytes_mut_seq`. Every call the frame logic
//! makes into the `bytes` crate goes through one of the wrappers below, whose
//! contracts state, over those sequences, what the crate's own code does.

use vstd::prelude::*;

use bytes::BufMut;
use bytes::Bytes;
use bytes::BytesMut;

verus! {

#[verifier::external_type_specification]
#[verifier::external_body]
pub struct ExBytes(Bytes);

#[verifier::external_type_specification]
#[verifier::external_body]
pub struct ExBytesMut(BytesMut);

/// The bytes a `Bytes` buffer holds, in order.
pub uninterp spec fn bytes_seq(b: Bytes) -> Seq<u8>;

/// The bytes a `BytesMut` buffer holds, in order.
pub uninterp spec fn bytes_mut_seq(b: BytesMut) -> Seq<u8>;

/// The big-endian byte pair of a 16-bit integer: high byte first.
pub open spec fn be16(v: u16) -> Seq<u8> {
    seq![((v >> 8) & 0xFF) as u8, (v & 0xFF) as u8]
}

/// The eight big-endian bytes of a 64-bit integer: most significant first.
pub open spec fn be64(v: u64) -> Seq<u8> {
    seq![
        ((v >> 56) & 0xFF) as u8,
        ((v >> 48) & 0xFF) as u8,
        ((v >> 40) & 0xFF) as u8,
        ((v >> 32) & 0xFF) as u8,
        ((v >> 24) & 0xFF) as u8,
        ((v >> 16) & 0xFF) as u8,
        ((v >> 8) & 0xFF) as u8,
        (v & 0xFF) as u8,
    ]
}

/// Relies on `bytes::Bytes::len`: the number of bytes the buffer holds.
#[verifier::external_body]
pub fn bytes_len(b: &Bytes) -> (r: usize)
    ensures
        r == bytes_seq(*b).len(),
{
    b.len()
}

/// Relies on `<bytes::Bytes as AsRef<[u8]>>::as_ref`: a slice over all the
/// buffer's bytes.
#[verifier::external_body]
pub fn bytes_as_slice(b: &Bytes) -> (r: &[u8])
    ensures
        r@ == bytes_seq(*b),
{
    b.as_ref()
}

/// Relies on `<bytes::Bytes as From<Vec<u8>>>::from`: the buffer takes over
/// the vector's bytes without copying them.
#[verifier::external_body]
pub fn bytes_from_vec(v: Vec<u8>) -> (r: Bytes)
    ensures
        bytes_seq(r) == v@,
{
    Bytes::from(v)
}

/// Relies on `bytes::BytesMut::len`: the number of bytes the buffer holds.
#[verifier::external_body]
pub fn bytes_mut_len(b: &BytesMut) -> (r: usize)
    ensures
        r == bytes_mut_seq(*b).len(),
{
    b.len()
}

/// Relies on `bytes::BytesMut::capacity`: the bytes the buffer can hold
/// without reallocating, never fewer than it already holds.
#[verifier::external_body]
pub fn bytes_mut_capacity(b: &BytesMut) -> (r: usize)
    ensures
        r >= bytes_mut_seq(*b).len(),
{
    b.capacity()
}

/// Relies on `bytes::BytesMut::reserve`: grows the capacity, leaving the
/// bytes held unchanged. Panics only if the needed capacity overflows, which
/// the precondition rules out.
#[verifier::external_body]
pub fn bytes_mut_reserve(b: &mut BytesMut, additional: usize)
    requires
        bytes_mut_seq(*old(b)).len() + additional <= isize::MAX,
    ensures
        bytes_mut_seq(*final(b)) == bytes_mut_seq(*old(b)),
{
    b.reserve(additional)
}

/// Relies on `bytes::BufMut::put_u8` on `BytesMut`: appends the byte, growing
/// the buffer as needed.
#[verifier::external_body]
pub fn put_u8(b: &mut BytesMut, v: u8)
    requires
        bytes_mut_seq(*old(b)).len() + 1 <= isize::MAX,
    ensures
        bytes_mut_seq(*final(b)) == bytes_mut_seq(*old(b)).push(v),
{
    b.put_u8(v)
}

/// Relies on `bytes::BufMut::put_u16` on `BytesMut`: appends the two
/// big-endian bytes of `v`, growing the buffer as needed.
#[verifier::external_body]
pub fn put_u16_be(b: &mut BytesMut, v: u16)
    requires
        bytes_mut_seq(*old(b)).len() + 2 <= isize::MAX,
    ensures
        bytes_mut_seq(*final(b)) == bytes_mut_seq(*old(b)) + be16(v),
{
    b.put_u16(v)
}

/// Relies on `bytes::BufMut::put_u64` on `BytesMut`: appends the eight
/// big-endian bytes of `v`, growing the buffer as needed.
#[verifier::external_body]
pub fn put_u64_be(b: &mut BytesMut, v: u64)
    requires
        bytes_mut_seq(*old(b)).len() + 8 <= isize::MAX,
    ensures
        bytes_mut_seq(*final(b)) == bytes_mut_seq(*old(b)) + be64(v),
{
    b.put_u64(v)
}

/// Relies on `bytes::BytesMut::extend_from_slice`: appends the slice's bytes,
/// growing the buffer as needed.
#[verifier::external_body]
pub fn put_slice(b: &mut BytesMut, s: &[u8])
    requires
        bytes_mut_seq(*old(b)).len() + s@.len() <= isize::MAX,
    ensures
        bytes_mut_seq(*final(b)) == bytes_mut_seq(*old(b)) + s@,
{
    b.extend_from_slice(s)
}

} // verus!
