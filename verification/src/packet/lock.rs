//! The request to lock the agent.

use crate::buffer::buf_put_u8;
use crate::buffer::bytes_as_slice;
use crate::buffer::bytes_seq;
use crate::error::Error;
use crate::packet::kind::PacketKind;
use crate::packet::spec_build;
use crate::packet::IntoPacket;
use crate::packet::Packet;
use crate::packet::PacketView;
use crate::utils::put_string;
use crate::utils::spec_encodable;
use crate::utils::spec_string;
use bytes::Bytes;
use bytes::BytesMut;
use vstd::prelude::*;

verus! {

/// The packet that asks to lock the agent under `passphrase`: the kind's
/// number, then the passphrase as a byte string.
pub open spec fn spec_lock(passphrase: Seq<u8>) -> Result<PacketView, Error> {
    spec_build(
        PacketKind::Lock,
        spec_encodable(passphrase),
        seq![PacketKind::Lock.spec_code()] + spec_string(passphrase),
    )
}

/// Asks the agent to lock itself under a passphrase.
#[derive(Clone, Debug)]
pub struct Lock {
    passphrase: Bytes,
}

impl View for Lock {
    type V = Seq<u8>;

    /// The passphrase.
    closed spec fn view(&self) -> Seq<u8> {
        bytes_seq(self.passphrase)
    }
}

impl Lock {
    /// A request to lock the agent under `passphrase`.
    pub fn new(passphrase: Bytes) -> (r: Self)
        ensures
            r@ == bytes_seq(passphrase),
    {
        Self { passphrase }
    }
}

impl IntoPacket for Lock {
    open spec fn spec_packet(&self) -> Result<PacketView, Error> {
        spec_lock(self@)
    }

    fn into_packet(&self) -> (r: Result<Packet, Error>) {
        let mut pkt = Packet::default();

        let kind = PacketKind::Lock;
        let _ = pkt.set_kind(kind);

        let mut payload = BytesMut::new();
        buf_put_u8(&mut payload, kind.into());
        put_string(&mut payload, bytes_as_slice(&self.passphrase))?;

        let _ = pkt.set_payload(payload.freeze());

        Ok(pkt)
    }
}

} // verus!
