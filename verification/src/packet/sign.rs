//! The request for a signature.

use crate::buffer::buf_put_u8;
use crate::buffer::buf_seq;
use crate::buffer::bytes_as_slice;
use crate::buffer::bytes_seq;
use crate::error::Error;
use crate::packet::kind::PacketKind;
use crate::packet::spec_build;
use crate::packet::IntoPacket;
use crate::packet::Packet;
use crate::packet::PacketView;
use crate::utils::put_string;
use crate::utils::put_u32;
use crate::utils::spec_encodable;
use crate::utils::spec_string;
use crate::utils::spec_u32_be;
use bytes::Bytes;
use bytes::BytesMut;
use vstd::prelude::*;

verus! {

/// A request for a signature as a value: the key to sign with, the data to
/// sign, and the flags that choose how.
pub struct SignView {
    pub key_blob: Seq<u8>,
    pub data: Seq<u8>,
    pub flags: u32,
}

impl SignView {
    /// Whether key and data each have a length that four bytes can say.
    pub open spec fn encodable(self) -> bool {
        spec_encodable(self.key_blob) && spec_encodable(self.data)
    }

    /// Key and data as byte strings, then the flags as four bytes.
    pub open spec fn fields(self) -> Seq<u8> {
        spec_string(self.key_blob) + spec_string(self.data) + spec_u32_be(self.flags)
    }

    /// The packet that asks for this signature: the kind's number, then the
    /// fields.
    pub open spec fn packet(self) -> Result<PacketView, Error> {
        spec_build(
            PacketKind::SignRequest,
            self.encodable(),
            seq![PacketKind::SignRequest.spec_code()] + self.fields(),
        )
    }
}

/// Asks the agent to sign data with one of its keys.
#[derive(Clone, Debug)]
pub struct SignRequest {
    key_blob: Bytes,
    data: Bytes,
    flags: u32,
}

impl View for SignRequest {
    type V = SignView;

    closed spec fn view(&self) -> SignView {
        SignView {
            key_blob: bytes_seq(self.key_blob),
            data: bytes_seq(self.data),
            flags: self.flags,
        }
    }
}

impl SignRequest {
    /// A request to sign `data` with the key `key_blob`, as `flags` say.
    pub fn new(key_blob: Bytes, data: Bytes, flags: u32) -> (r: Self)
        ensures
            r@ == (SignView { key_blob: bytes_seq(key_blob), data: bytes_seq(data), flags }),
    {
        Self { key_blob, data, flags }
    }
}

impl IntoPacket for SignRequest {
    open spec fn spec_packet(&self) -> Result<PacketView, Error> {
        self@.packet()
    }

    fn into_packet(&self) -> (r: Result<Packet, Error>) {
        let mut pkt = Packet::default();

        let kind = PacketKind::SignRequest;
        let _ = pkt.set_kind(kind);

        let key_blob = bytes_as_slice(&self.key_blob);
        let data = bytes_as_slice(&self.data);
        proof {
            // A slice is no longer than `usize::MAX`: where a buffer cannot
            // take the key, four bytes can say the length of the data.
            assert(data@.len() == data.len());
        }

        let mut payload = BytesMut::new();
        buf_put_u8(&mut payload, kind.into());
        put_string(&mut payload, key_blob)?;
        put_string(&mut payload, data)?;
        put_u32(&mut payload, self.flags)?;
        assert(buf_seq(payload) =~= seq![kind.spec_code()] + self@.fields());

        let _ = pkt.set_payload(payload.freeze());

        Ok(pkt)
    }
}

} // verus!
