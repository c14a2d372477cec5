//! Integers and byte strings as they stand on the wire.
//!
//! An integer is four bytes, most significant first. A byte string is its
//! length as such an integer, followed by its bytes.

use crate::buffer::buf_put_slice;
use crate::buffer::buf_put_u32;
use crate::buffer::buf_seq;
use crate::buffer::bytes_seq;
use crate::buffer::max_len;
use crate::buffer::spec_max_len;
use crate::error::Error;
use bytes::Bytes;
use bytes::BytesMut;
use vstd::prelude::*;
use vstd::slice::slice_subrange;

verus! {

/// The four bytes of `n`, most significant first.
pub open spec fn spec_u32_be(n: u32) -> Seq<u8> {
    seq![
        (n / 0x100_0000) as u8,
        ((n / 0x1_0000) % 0x100) as u8,
        ((n / 0x100) % 0x100) as u8,
        (n % 0x100) as u8,
    ]
}

/// The integer that the first four bytes of `s` spell, most significant first.
pub open spec fn spec_u32_from_be(s: Seq<u8>) -> int
    recommends
        s.len() >= 4,
{
    s[0] as int * 0x100_0000 + s[1] as int * 0x1_0000 + s[2] as int * 0x100 + s[3] as int
}

/// Whether a byte string's length can be written as a 4-byte integer.
pub open spec fn spec_encodable(s: Seq<u8>) -> bool {
    s.len() <= u32::MAX
}

/// The wire form of a byte string: its length, then its bytes.
pub open spec fn spec_string(s: Seq<u8>) -> Seq<u8>
    recommends
        spec_encodable(s),
{
    spec_u32_be(s.len() as u32) + s
}

/// What reading a byte string off the front of `input` gives: the string and
/// the number of bytes read, or `Truncated` where `input` ends too early.
pub open spec fn spec_get_string(input: Seq<u8>) -> Result<(Seq<u8>, int), Error> {
    if input.len() < 4 {
        Err(Error::Truncated)
    } else if input.len() - 4 < spec_u32_from_be(input) {
        Err(Error::Truncated)
    } else {
        Ok((input.subrange(4, 4 + spec_u32_from_be(input)), 4 + spec_u32_from_be(input)))
    }
}

/// What appending `n` bytes to a buffer of `len` bytes comes to.
pub open spec fn spec_room(len: int, n: int) -> Result<(), Error> {
    if len + n <= spec_max_len() {
        Ok(())
    } else {
        Err(Error::Capacity)
    }
}

/// Reading back the bytes of an integer gives the integer.
pub proof fn lemma_u32_be_round_trip(n: u32)
    ensures
        spec_u32_be(n).len() == 4,
        spec_u32_from_be(spec_u32_be(n)) == n,
{
}

/// The four digits to base 256 of a number that is written out in them.
proof fn lemma_be_digits(a: u8, b: u8, c: u8, d: u8, x: u32)
    by (bit_vector)
    requires
        x == a as u32 * 0x100_0000 + b as u32 * 0x1_0000 + c as u32 * 0x100 + d as u32,
    ensures
        x / 0x100_0000 == a,
        (x / 0x1_0000) % 0x100 == b,
        (x / 0x100) % 0x100 == c,
        x % 0x100 == d,
{
}

/// The bytes of the integer that four bytes spell are those four bytes.
pub proof fn lemma_u32_from_be_round_trip(s: Seq<u8>)
    requires
        s.len() == 4,
    ensures
        0 <= spec_u32_from_be(s) <= u32::MAX,
        spec_u32_be(spec_u32_from_be(s) as u32) == s,
{
    lemma_be_digits(s[0], s[1], s[2], s[3], spec_u32_from_be(s) as u32);
    assert(spec_u32_be(spec_u32_from_be(s) as u32) =~= s);
}

/// Appends `n` to `buf` as four bytes, most significant first. Fails with
/// `Capacity`, leaving `buf` as it was, where `buf` cannot take four bytes.
pub fn put_u32(buf: &mut BytesMut, n: u32) -> (r: Result<(), Error>)
    ensures
        r == spec_room(buf_seq(*old(buf)).len() as int, 4),
        r is Ok ==> buf_seq(*final(buf)) == buf_seq(*old(buf)) + spec_u32_be(n),
        r is Err ==> buf_seq(*final(buf)) == buf_seq(*old(buf)),
{
    if buf.len() > max_len() - 4 {
        return Err(Error::Capacity);
    }
    buf_put_u32(buf, n);
    Ok(())
}

/// Appends `s` to `buf` as it is, with no length before it. Fails with
/// `Capacity`, leaving `buf` as it was, where `buf` cannot take `s`.
pub fn put_bytes(buf: &mut BytesMut, s: &[u8]) -> (r: Result<(), Error>)
    ensures
        r == spec_room(buf_seq(*old(buf)).len() as int, s@.len() as int),
        r is Ok ==> buf_seq(*final(buf)) == buf_seq(*old(buf)) + s@,
        r is Err ==> buf_seq(*final(buf)) == buf_seq(*old(buf)),
{
    let len = buf.len();
    if len > max_len() || s.len() > max_len() - len {
        return Err(Error::Capacity);
    }
    buf_put_slice(buf, s);
    Ok(())
}

/// What `put_string` returns for a string of `n` bytes and a buffer of `len`.
pub open spec fn spec_put_string(len: int, n: int) -> Result<(), Error> {
    if n > u32::MAX {
        Err(Error::Encoding)
    } else {
        spec_room(len, 4 + n)
    }
}

/// Appends the byte string `s` to `buf`: its length as four bytes, then its
/// bytes. Fails with `Encoding` where the length does not fit four bytes, and
/// with `Capacity` where `buf` cannot take the whole; `buf` is then left as
/// it was.
pub fn put_string(buf: &mut BytesMut, s: &[u8]) -> (r: Result<(), Error>)
    ensures
        r == spec_put_string(buf_seq(*old(buf)).len() as int, s@.len() as int),
        r is Ok ==> buf_seq(*final(buf)) == buf_seq(*old(buf)) + spec_string(s@),
        r is Err ==> buf_seq(*final(buf)) == buf_seq(*old(buf)),
{
    let n = s.len();
    if n > u32::MAX as usize {
        return Err(Error::Encoding);
    }
    let len = buf.len();
    if len > max_len() - 4 || n > max_len() - 4 - len {
        return Err(Error::Capacity);
    }
    buf_put_u32(buf, n as u32);
    buf_put_slice(buf, s);
    Ok(())
}

/// Reads the integer that the first four bytes of `input` spell. Fails with
/// `Truncated` where `input` has fewer than four bytes.
pub fn get_u32(input: &[u8]) -> (r: Result<u32, Error>)
    ensures
        input@.len() < 4 ==> r == Err::<u32, Error>(Error::Truncated),
        input@.len() >= 4 ==> r is Ok && r->Ok_0 == spec_u32_from_be(input@),
{
    if input.len() < 4 {
        return Err(Error::Truncated);
    }
    let b0: u32 = input[0] as u32;
    let b1: u32 = input[1] as u32;
    let b2: u32 = input[2] as u32;
    let b3: u32 = input[3] as u32;
    Ok(b0 * 0x100_0000 + b1 * 0x1_0000 + b2 * 0x100 + b3)
}

/// Reads a byte string off the front of `input`: four bytes of length, then
/// that many bytes. Gives the string and the number of bytes read, or
/// `Truncated` where `input` ends before the string does.
pub fn get_string(input: &[u8]) -> (r: Result<(Bytes, usize), Error>)
    ensures
        match (r, spec_get_string(input@)) {
            (Ok((b, used)), Ok((s, n))) => bytes_seq(b) == s && used == n,
            (Err(e), Err(f)) => e == f,
            _ => false,
        },
{
    let n = match get_u32(input) {
        Ok(n) => n as usize,
        Err(e) => { return Err(e); },
    };
    if input.len() - 4 < n {
        return Err(Error::Truncated);
    }
    let body = slice_subrange(input, 4, 4 + n);
    Ok((Bytes::copy_from_slice(body), 4 + n))
}

/// A byte string that was encoded is read back unchanged, whatever follows
/// it, and the bytes read are exactly those of its encoding.
pub proof fn lemma_string_round_trip(b: Seq<u8>, rest: Seq<u8>)
    requires
        spec_encodable(b),
    ensures
        spec_string(b).len() == 4 + b.len(),
        spec_get_string(spec_string(b) + rest) == Ok::<(Seq<u8>, int), Error>(
            (b, 4 + b.len() as int),
        ),
{
    let n = b.len() as u32;
    let input = spec_string(b) + rest;
    lemma_u32_be_round_trip(n);
    assert(spec_u32_from_be(input) == spec_u32_from_be(spec_u32_be(n)));
    assert(input.subrange(4, 4 + b.len() as int) =~= b);
}

/// An encoded byte string that was cut short is not read: every proper prefix
/// of an encoding gives `Truncated`.
pub proof fn lemma_string_truncated(b: Seq<u8>, k: int)
    requires
        spec_encodable(b),
        0 <= k < 4 + b.len(),
    ensures
        spec_get_string(spec_string(b).take(k)) == Err::<(Seq<u8>, int), Error>(Error::Truncated),
{
    let n = b.len() as u32;
    let input = spec_string(b).take(k);
    lemma_u32_be_round_trip(n);
    if k >= 4 {
        assert(spec_u32_from_be(input) == spec_u32_from_be(spec_u32_be(n)));
    }
}

} // verus!
