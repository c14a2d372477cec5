//! What the library assumes of the `bytes` crate.
//!
//! Payloads are held in `bytes::Bytes` and assembled in `bytes::BytesMut`.
//! Neither type is verified here: each is declared opaque, its contents are
//! given a name, and every call into the crate goes through one of the items
//! below, whose contract is believed, not proved.

use bytes::BufMut;
use bytes::Bytes;
use bytes::BytesMut;
use crate::utils::spec_u32_be;
use vstd::prelude::*;

verus! {

/// `bytes::Bytes`, of which nothing is known but what the items below say.
#[verifier::external_type_specification]
#[verifier::external_body]
pub struct ExBytes(bytes::Bytes);

/// `bytes::BytesMut`, of which nothing is known but what the items below say.
#[verifier::external_type_specification]
#[verifier::external_body]
pub struct ExBytesMut(bytes::BytesMut);

/// The bytes that a `Bytes` holds, first to last.
pub uninterp spec fn bytes_seq(b: Bytes) -> Seq<u8>;

/// The bytes written so far into a `BytesMut`, first to last.
pub uninterp spec fn buf_seq(b: BytesMut) -> Seq<u8>;

/// The largest length that a `BytesMut` has room for: what
/// `BytesMut::remaining_mut` gives is `isize::MAX` less the length.
pub open spec fn spec_max_len() -> int {
    isize::MAX as int
}

/// `Bytes::new`: an empty `Bytes`.
pub assume_specification[ Bytes::new ]() -> (b: Bytes)
    ensures
        bytes_seq(b) == Seq::<u8>::empty(),
;

/// `Bytes::len`: the number of bytes held.
pub assume_specification[ Bytes::len ](b: &Bytes) -> (n: usize)
    ensures
        n == bytes_seq(*b).len(),
;

/// `Bytes::copy_from_slice`: a `Bytes` holding a copy of the slice.
pub assume_specification[ Bytes::copy_from_slice ](data: &[u8]) -> (b: Bytes)
    ensures
        bytes_seq(b) == data@,
;

/// `BytesMut::new`: an empty buffer.
pub assume_specification[ BytesMut::new ]() -> (b: BytesMut)
    ensures
        buf_seq(b) == Seq::<u8>::empty(),
;

/// `BytesMut::len`: the number of bytes written so far.
pub assume_specification[ BytesMut::len ](b: &BytesMut) -> (n: usize)
    ensures
        n == buf_seq(*b).len(),
;

/// `BytesMut::freeze`: the same bytes, no longer writable.
pub assume_specification[ BytesMut::freeze ](b: BytesMut) -> (r: Bytes)
    ensures
        bytes_seq(r) == buf_seq(b),
;

/// `<Bytes as AsRef<[u8]>>::as_ref`: the bytes held, as a slice.
#[verifier::external_body]
pub(crate) fn bytes_as_slice(b: &Bytes) -> (s: &[u8])
    ensures
        s@ == bytes_seq(*b),
{
    b.as_ref()
}

/// `<Bytes as Clone>::clone`: a second handle on the same bytes.
pub assume_specification[ <Bytes as Clone>::clone ](b: &Bytes) -> (r: Bytes)
    ensures
        bytes_seq(r) == bytes_seq(*b),
;

/// `<BytesMut as BufMut>::put_slice`: appends the slice. `BufMut` documents a
/// panic where the room that remains is less than `src.len()`; the buffer
/// grows as needed up to that room.
#[verifier::external_body]
pub(crate) fn buf_put_slice(buf: &mut BytesMut, src: &[u8])
    requires
        buf_seq(*old(buf)).len() + src@.len() <= spec_max_len(),
    ensures
        buf_seq(*final(buf)) == buf_seq(*old(buf)) + src@,
{
    buf.put_slice(src)
}

/// `<BytesMut as BufMut>::put_u8`: appends one byte. `BufMut` documents a
/// panic where no room remains.
#[verifier::external_body]
pub(crate) fn buf_put_u8(buf: &mut BytesMut, n: u8)
    requires
        buf_seq(*old(buf)).len() + 1 <= spec_max_len(),
    ensures
        buf_seq(*final(buf)) == buf_seq(*old(buf)).push(n),
{
    buf.put_u8(n)
}

/// `<BytesMut as BufMut>::put_u32`: appends the four bytes of `n`, most
/// significant first. `BufMut` documents a panic where the room that remains
/// is less than four bytes.
#[verifier::external_body]
pub(crate) fn buf_put_u32(buf: &mut BytesMut, n: u32)
    requires
        buf_seq(*old(buf)).len() + 4 <= spec_max_len(),
    ensures
        buf_seq(*final(buf)) == buf_seq(*old(buf)) + spec_u32_be(n),
{
    buf.put_u32(n)
}

/// The largest length of a buffer, as a machine integer.
pub fn max_len() -> (n: usize)
    ensures
        n == spec_max_len(),
{
    isize::MAX as usize
}

} // verus!
