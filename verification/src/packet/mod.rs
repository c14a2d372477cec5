//! Packets: a kind and a payload, and the frame that carries them.
//!
//! On the wire a packet is a frame: the payload's length as four bytes, most
//! significant first, then the payload. The first byte of the payload is the
//! number of the packet's kind.

pub mod identity;
pub mod kind;
pub mod lock;
pub mod sign;
pub mod unlock;

pub use crate::packet::kind::PacketKind;

use crate::buffer::buf_seq;
use crate::buffer::bytes_as_slice;
use crate::buffer::bytes_seq;
use crate::buffer::spec_max_len;
use crate::error::Error;
use crate::utils::get_u32;
use crate::utils::lemma_string_round_trip;
use crate::utils::lemma_string_truncated;
use crate::utils::lemma_u32_from_be_round_trip;
use crate::utils::put_string;
use crate::utils::spec_put_string;
use crate::utils::spec_string;
use crate::utils::spec_u32_from_be;
use bytes::Bytes;
use bytes::BytesMut;
use vstd::prelude::*;
use vstd::slice::slice_subrange;

verus! {

/// The longest payload that is accepted when a frame is read.
pub const MAX_FRAME_LEN: usize = 262_144;

/// A packet as a value: its kind and the bytes of its payload.
pub struct PacketView {
    pub kind: PacketKind,
    pub payload: Seq<u8>,
}

impl PacketView {
    /// Whether kind and payload agree: the payload has a first byte, and that
    /// byte stands for the kind.
    pub open spec fn well_formed(self) -> bool {
        self.payload.len() > 0 && PacketKind::spec_from_code(self.payload[0]) == self.kind
    }

    /// The frame that carries this packet: the payload's length, then the
    /// payload.
    pub open spec fn frame(self) -> Seq<u8> {
        spec_string(self.payload)
    }
}

/// One packet of the protocol.
#[derive(Clone, Debug, PartialEq)]
pub struct Packet {
    kind: PacketKind,
    payload: Bytes,
}

impl View for Packet {
    type V = PacketView;

    closed spec fn view(&self) -> PacketView {
        PacketView { kind: self.kind, payload: bytes_seq(self.payload) }
    }
}

impl Default for Packet {
    /// A packet of unknown kind with an empty payload.
    fn default() -> (p: Packet)
        ensures
            p@ == (PacketView { kind: PacketKind::Unknown, payload: Seq::<u8>::empty() }),
    {
        Packet { kind: PacketKind::Unknown, payload: Bytes::new() }
    }
}

/// A result of building a packet, with the packet as a value.
pub open spec fn spec_built(r: Result<Packet, Error>) -> Result<PacketView, Error> {
    match r {
        Ok(p) => Ok(p@),
        Err(e) => Err(e),
    }
}

/// What building a packet of `kind` with `payload` comes to, where
/// `encodable` says whether every length-prefixed field of the payload has a
/// length that four bytes can say: `Encoding` where one has not, `Capacity`
/// where the payload is longer than a buffer can be, else the packet.
pub open spec fn spec_build(kind: PacketKind, encodable: bool, payload: Seq<u8>) -> Result<
    PacketView,
    Error,
> {
    if !encodable {
        Err(Error::Encoding)
    } else if payload.len() > spec_max_len() {
        Err(Error::Capacity)
    } else {
        Ok(PacketView { kind, payload })
    }
}

/// A request that can be put into a packet.
pub trait IntoPacket {
    /// The packet that this request is put into, or why it cannot be.
    spec fn spec_packet(&self) -> Result<PacketView, Error>;

    /// Builds the packet for this request. Kind and payload of the packet
    /// agree.
    fn into_packet(&self) -> (r: Result<Packet, Error>)
        ensures
            spec_built(r) == self.spec_packet(),
            r matches Ok(p) ==> p@.well_formed(),
    ;
}

/// What the length that a frame announces comes to: the length, or why a
/// frame of that length is not read.
pub open spec fn spec_frame_len(n: int) -> Result<int, Error> {
    if n == 0 {
        Err(Error::EmptyFrame)
    } else if n > MAX_FRAME_LEN {
        Err(Error::FrameTooLarge)
    } else {
        Ok(n)
    }
}

/// What reading a packet off the front of `input` gives: the packet and the
/// number of bytes read, or why none was read.
pub open spec fn spec_read_packet(input: Seq<u8>) -> Result<(PacketView, int), Error> {
    if input.len() < 4 {
        Err(Error::Truncated)
    } else {
        match spec_frame_len(spec_u32_from_be(input)) {
            Err(e) => Err(e),
            Ok(n) => if input.len() - 4 < n {
                Err(Error::Truncated)
            } else {
                Ok(
                    (
                        PacketView {
                            kind: PacketKind::spec_from_code(input[4]),
                            payload: input.subrange(4, 4 + n),
                        },
                        4 + n,
                    ),
                )
            },
        }
    }
}

impl Packet {
    /// The packet's kind.
    pub fn kind(&self) -> (k: &PacketKind)
        ensures
            *k == self@.kind,
    {
        &self.kind
    }

    /// The packet's payload.
    pub fn payload(&self) -> (b: &Bytes)
        ensures
            bytes_seq(*b) == self@.payload,
    {
        &self.payload
    }

    /// Sets the kind and leaves the payload. Nothing is checked: whoever
    /// builds a packet makes the two agree.
    pub fn set_kind(&mut self, kind: PacketKind) -> (r: &mut Self)
        ensures
            *final(self) == *final(r),
            r@ == (PacketView { kind: kind, payload: old(self)@.payload }),
    {
        self.kind = kind;
        self
    }

    /// Sets the payload and leaves the kind. Nothing is checked: whoever
    /// builds a packet makes the two agree.
    pub fn set_payload(&mut self, payload: Bytes) -> (r: &mut Self)
        ensures
            *final(self) == *final(r),
            r@ == (PacketView { kind: old(self)@.kind, payload: bytes_seq(payload) }),
    {
        self.payload = payload;
        self
    }

    /// Appends the packet's frame to `out`: the payload's length as four
    /// bytes, then the payload. Fails with `Encoding` where the payload is
    /// longer than four bytes can say, and with `Capacity` where `out` cannot
    /// take the frame; `out` is then left as it was.
    pub fn write_packet(&self, out: &mut BytesMut) -> (r: Result<(), Error>)
        ensures
            r == spec_put_string(buf_seq(*old(out)).len() as int, self@.payload.len() as int),
            r is Ok ==> buf_seq(*final(out)) == buf_seq(*old(out)) + self@.frame(),
            r is Err ==> buf_seq(*final(out)) == buf_seq(*old(out)),
    {
        put_string(out, bytes_as_slice(&self.payload))
    }

    /// Checks the length that the first four bytes of a frame announce.
    /// Fails with `Truncated` where `header` has fewer than four bytes, with
    /// `EmptyFrame` where the length is 0, and with `FrameTooLarge` where it
    /// is over `MAX_FRAME_LEN`.
    pub fn frame_len(header: &[u8]) -> (r: Result<usize, Error>)
        ensures
            header@.len() < 4 ==> r == Err::<usize, Error>(Error::Truncated),
            header@.len() >= 4 ==> match (r, spec_frame_len(spec_u32_from_be(header@))) {
                (Ok(n), Ok(m)) => n == m,
                (Err(e), Err(f)) => e == f,
                _ => false,
            },
    {
        let n = match get_u32(header) {
            Ok(n) => n,
            Err(e) => { return Err(e); },
        };
        if n == 0 {
            Err(Error::EmptyFrame)
        } else if n > MAX_FRAME_LEN as u32 {
            Err(Error::FrameTooLarge)
        } else {
            Ok(n as usize)
        }
    }

    /// Makes the packet that a payload read off the wire stands for: its kind
    /// is what the first byte says. Fails with `EmptyFrame` where the payload
    /// has no byte.
    pub fn from_payload(payload: Bytes) -> (r: Result<Packet, Error>)
        ensures
            bytes_seq(payload).len() == 0 ==> r == Err::<Packet, Error>(Error::EmptyFrame),
            bytes_seq(payload).len() > 0 ==> r is Ok && r->Ok_0@ == (PacketView {
                kind: PacketKind::spec_from_code(bytes_seq(payload)[0]),
                payload: bytes_seq(payload),
            }),
    {
        if payload.len() == 0 {
            return Err(Error::EmptyFrame);
        }
        let first: u8 = bytes_as_slice(&payload)[0];
        Ok(Packet { kind: PacketKind::from(first), payload })
    }

    /// Reads one packet off the front of `input` and says how many bytes it
    /// took. Fails with `Truncated` where `input` ends before the frame does,
    /// with `EmptyFrame` where the frame announces no payload, and with
    /// `FrameTooLarge` where it announces more than `MAX_FRAME_LEN` bytes.
    pub fn read_packet(input: &[u8]) -> (r: Result<(Packet, usize), Error>)
        ensures
            match (r, spec_read_packet(input@)) {
                (Ok((p, used)), Ok((v, n))) => p@ == v && used == n,
                (Err(e), Err(f)) => e == f,
                _ => false,
            },
    {
        let n = match Packet::frame_len(input) {
            Ok(n) => n,
            Err(e) => { return Err(e); },
        };
        if input.len() - 4 < n {
            return Err(Error::Truncated);
        }
        let payload = Bytes::copy_from_slice(slice_subrange(input, 4, 4 + n));
        match Packet::from_payload(payload) {
            Ok(p) => Ok((p, 4 + n)),
            Err(e) => Err(e),
        }
    }
}

/// Kind and payload of a packet that was read agree; its payload is what the
/// frame announced, between 1 and `MAX_FRAME_LEN` bytes, and the bytes read
/// are the frame's.
pub proof fn lemma_read_well_formed(input: Seq<u8>)
    ensures
        spec_read_packet(input) matches Ok((p, n)) ==> p.well_formed() && 0 < p.payload.len()
            <= MAX_FRAME_LEN && n == 4 + p.payload.len() && n <= input.len()
            && p.frame() == input.take(n),
{
    if let Ok((p, n)) = spec_read_packet(input) {
        lemma_u32_from_be_round_trip(input.take(4));
        assert(p.frame() =~= input.take(n));
    }
}

/// A packet is read back from its frame, whatever follows the frame, where
/// its payload has between 1 and `MAX_FRAME_LEN` bytes: the payload comes
/// back as it was, and the kind as the first byte of the payload says. So a
/// packet whose kind and payload agree comes back as it was.
pub proof fn lemma_frame_round_trip(p: PacketView, rest: Seq<u8>)
    requires
        0 < p.payload.len() <= MAX_FRAME_LEN,
    ensures
        spec_read_packet(p.frame() + rest) == Ok::<(PacketView, int), Error>(
            (
                PacketView {
                    kind: PacketKind::spec_from_code(p.payload[0]),
                    payload: p.payload,
                },
                4 + p.payload.len() as int,
            ),
        ),
        p.well_formed() ==> spec_read_packet(p.frame() + rest) == Ok::<(PacketView, int), Error>(
            (p, 4 + p.payload.len() as int),
        ),
{
    let input = p.frame() + rest;
    lemma_string_round_trip(p.payload, rest);
    assert(input[4] == p.payload[0]);
}

/// A frame that was cut short is not read: every proper prefix of the frame
/// of such a packet gives `Truncated`.
pub proof fn lemma_frame_truncated(p: PacketView, k: int)
    requires
        0 < p.payload.len() <= MAX_FRAME_LEN,
        0 <= k < 4 + p.payload.len(),
    ensures
        spec_read_packet(p.frame().take(k)) == Err::<(PacketView, int), Error>(Error::Truncated),
{
    lemma_string_truncated(p.payload, k);
}

} // verus!
