//! Trusted interface to the `bytes` crate's `Bytes` and `BytesMut` buffers,
//! whose contents are named as byte sequences.
use vstd::prelude::*;

use bytes::{BufMut, Bytes, BytesMut};

verus! {

#[verifier::external_type_specification]
#[verifier::external_body]
pub struct ExBytes(Bytes);

#[verifier::external_type_specification]
#[verifier::external_body]
pub struct ExBytesMut(BytesMut);

/// The bytes a `Bytes` handle refers to, in order.
pub uninterp spec fn bytes_contents(b: Bytes) -> Seq<u8>;

/// The bytes a `BytesMut` buffer holds, in order.
pub uninterp spec fn bytes_mut_contents(b: BytesMut) -> Seq<u8>;

/// Big-endian encoding of a 16-bit integer.
pub open spec fn be16(n: u16) -> Seq<u8> {
    seq![(n / 256) as u8, (n % 256) as u8]
}

/// The 16-bit integer whose big-endian encoding is `hi`, `lo`.
pub open spec fn from_be16(hi: u8, lo: u8) -> u16 {
    (hi * 256 + lo) as u16
}

/// `BytesMut::with_capacity`: an empty buffer (the capacity is not part of the contents).
#[verifier::external_body]
pub(crate) fn bytes_mut_with_capacity(capacity: usize) -> (b: BytesMut)
    ensures
        bytes_mut_contents(b) == Seq::<u8>::empty(),
{
    BytesMut::with_capacity(capacity)
}

/// `BufMut::put_u8` on `BytesMut`: appends one byte. `BytesMut` panics when its length
/// would exceed `isize::MAX`, which the precondition excludes.
#[verifier::external_body]
pub(crate) fn bytes_mut_put_u8(b: &mut BytesMut, n: u8)
    requires
        bytes_mut_contents(*old(b)).len() + 1 <= isize::MAX,
    ensures
        bytes_mut_contents(*final(b)) == bytes_mut_contents(*old(b)).push(n),
{
    b.put_u8(n)
}

/// `BufMut::put_u16` on `BytesMut`: appends the big-endian encoding of `n`.
#[verifier::external_body]
pub(crate) fn bytes_mut_put_u16(b: &mut BytesMut, n: u16)
    requires
        bytes_mut_contents(*old(b)).len() + 2 <= isize::MAX,
    ensures
        bytes_mut_contents(*final(b)) == bytes_mut_contents(*old(b)) + be16(n),
{
    b.put_u16(n)
}

/// `BytesMut::extend_from_slice`: appends the bytes of `s`.
#[verifier::external_body]
pub(crate) fn bytes_mut_extend_from_slice(b: &mut BytesMut, s: &[u8])
    requires
        bytes_mut_contents(*old(b)).len() + s@.len() <= isize::MAX,
    ensures
        bytes_mut_contents(*final(b)) == bytes_mut_contents(*old(b)) + s@,
{
    b.extend_from_slice(s)
}

/// `BytesMut` dereferenced to a slice: the bytes it holds.
#[verifier::external_body]
pub(crate) fn bytes_mut_as_slice(b: &BytesMut) -> (s: &[u8])
    ensures
        s@ == bytes_mut_contents(*b),
{
    &b[..]
}

/// `BytesMut::freeze`: an immutable handle to the same bytes.
#[verifier::external_body]
pub(crate) fn bytes_mut_freeze(b: BytesMut) -> (r: Bytes)
    ensures
        bytes_contents(r) == bytes_mut_contents(b),
{
    b.freeze()
}

/// `Bytes::copy_from_slice`: a handle to a copy of `s`.
#[verifier::external_body]
pub(crate) fn bytes_copy_from_slice(s: &[u8]) -> (r: Bytes)
    ensures
        bytes_contents(r) == s@,
{
    Bytes::copy_from_slice(s)
}

/// `Bytes::len`: the number of bytes.
#[verifier::external_body]
pub(crate) fn bytes_len(b: &Bytes) -> (n: usize)
    ensures
        n == bytes_contents(*b).len(),
{
    b.len()
}

/// Indexing a `Bytes` through its slice: the byte at `i`.
#[verifier::external_body]
pub(crate) fn bytes_get(b: &Bytes, i: usize) -> (v: u8)
    requires
        i < bytes_contents(*b).len(),
    ensures
        v == bytes_contents(*b)[i as int],
{
    b[i]
}

/// `Bytes` dereferenced to a slice: the bytes it refers to.
#[verifier::external_body]
pub(crate) fn bytes_as_slice(b: &Bytes) -> (s: &[u8])
    ensures
        s@ == bytes_contents(*b),
{
    &b[..]
}

/// `Bytes::split_off`: `b` keeps the bytes before `at`; the result holds the rest.
/// It panics when `at` exceeds the length, which the precondition excludes.
#[verifier::external_body]
pub(crate) fn bytes_split_off(b: &mut Bytes, at: usize) -> (rest: Bytes)
    requires
        at <= bytes_contents(*old(b)).len(),
    ensures
        bytes_contents(*final(b)) == bytes_contents(*old(b)).take(at as int),
        bytes_contents(rest) == bytes_contents(*old(b)).skip(at as int),
{
    b.split_off(at)
}

/// `Bytes::split_to`: the result holds the bytes before `at`; `b` keeps the rest.
/// It panics when `at` exceeds the length, which the precondition excludes.
#[verifier::external_body]
pub(crate) fn bytes_split_to(b: &mut Bytes, at: usize) -> (front: Bytes)
    requires
        at <= bytes_contents(*old(b)).len(),
    ensures
        bytes_contents(front) == bytes_contents(*old(b)).take(at as int),
        bytes_contents(*final(b)) == bytes_contents(*old(b)).skip(at as int),
{
    b.split_to(at)
}

} // verus!
