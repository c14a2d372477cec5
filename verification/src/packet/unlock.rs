//! The request to unlock the agent.

use crate::buffer::buf_put_u8;
use crate::buffer::bytes_as_slice;
use crate::buffer::bytes_seq;
use crate::error::Error;
use crate::packet::kind::PacketKind;
use crate::packet::spec_build;
use crate::packet::IntoPacket;
use crate::packet::Packet;
use crate::packet::PacketView;
use crate::utils::put_string;
use crate::utils::spec_encodable;
use crate::utils::spec_string;
use bytes::Bytes;
use bytes::BytesMut;
use vstd::prelude::*;

verus! {

/// The packet that asks to unlock the agent with `passphrase`: the kind's
/// number, then the passphrase as a byte string.
pub open spec fn spec_unlock(passphrase: Seq<u8>) -> Result<PacketView, Error> {
    spec_build(
        PacketKind::Unlock,
        spec_encodable(passphrase),
        seq![PacketKind::Unlock.spec_code()] + spec_string(passphrase),
    )
}

/// Asks the agent to unlock itself with a passphrase.
#[derive(Clone, Debug)]
pub struct Unlock {
    passphrase: Bytes,
}

impl View for Unlock {
    type V = Seq<u8>;

    /// The passphrase.
    closed spec fn view(&self) -> Seq<u8> {
        bytes_seq(self.passphrase)
    }
}

impl Unlock {
    /// A request to unlock the agent with `passphrase`.
    pub fn new(passphrase: Bytes) -> (r: Self)
        ensures
            r@ == bytes_seq(passphrase),
    {
        Self { passphrase }
    }
}

impl IntoPacket for Unlock {
    open spec fn spec_packet(&self) -> Result<PacketView, Error> {
        spec_unlock(self@)
    }

    fn into_packet(&self) -> (r: Result<Packet, Error>) {
        let mut pkt = Packet::default();

        let kind = PacketKind::Unlock;
        let _ = pkt.set_kind(kind);

        let mut payload = BytesMut::new();
        buf_put_u8(&mut payload, kind.into());
        put_string(&mut payload, bytes_as_slice(&self.passphrase))?;

        let _ = pkt.set_payload(payload.freeze());

        Ok(pkt)
    }
}

} // verus!
