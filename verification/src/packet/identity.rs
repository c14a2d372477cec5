//! The requests that add, remove and list identities.

use crate::buffer::buf_put_u8;
use crate::buffer::buf_seq;
use crate::buffer::bytes_as_slice;
use crate::buffer::bytes_seq;
use crate::error::Error;
use crate::packet::kind::PacketKind;
use crate::packet::spec_build;
use crate::packet::IntoPacket;
use crate::packet::Packet;
use crate::packet::PacketView;
use crate::utils::put_bytes;
use crate::utils::put_string;
use crate::utils::spec_encodable;
use crate::utils::spec_string;
use bytes::Bytes;
use bytes::BytesMut;
use vstd::prelude::*;

verus! {

/// An identity as a value: the name of its key type, the key itself, and a
/// comment that tells it from others.
pub struct IdentityView {
    pub kind: Seq<u8>,
    pub key_blob: Seq<u8>,
    pub comment: Seq<u8>,
}

impl IdentityView {
    /// Whether each of the three fields has a length that four bytes can say.
    pub open spec fn encodable(self) -> bool {
        spec_encodable(self.kind) && spec_encodable(self.key_blob) && spec_encodable(self.comment)
    }

    /// The three fields as byte strings, one after the other.
    pub open spec fn fields(self) -> Seq<u8> {
        spec_string(self.kind) + spec_string(self.key_blob) + spec_string(self.comment)
    }

    /// The packet that asks to add this identity: the kind's number, then
    /// the fields.
    pub open spec fn packet(self) -> Result<PacketView, Error> {
        spec_build(
            PacketKind::AddIdentity,
            self.encodable(),
            seq![PacketKind::AddIdentity.spec_code()] + self.fields(),
        )
    }
}

/// Asks the agent to add an identity.
#[derive(Clone, Debug)]
pub struct AddIdentity {
    kind: Bytes,
    key_blob: Bytes,
    comment: Bytes,
}

impl View for AddIdentity {
    type V = IdentityView;

    closed spec fn view(&self) -> IdentityView {
        IdentityView {
            kind: bytes_seq(self.kind),
            key_blob: bytes_seq(self.key_blob),
            comment: bytes_seq(self.comment),
        }
    }
}

impl AddIdentity {
    /// A request to add the key `key_blob` of type `kind` under `comment`.
    pub fn new(kind: Bytes, key_blob: Bytes, comment: Bytes) -> (r: Self)
        ensures
            r@ == (IdentityView {
                kind: bytes_seq(kind),
                key_blob: bytes_seq(key_blob),
                comment: bytes_seq(comment),
            }),
    {
        Self { kind, key_blob, comment }
    }
}

impl IntoPacket for AddIdentity {
    open spec fn spec_packet(&self) -> Result<PacketView, Error> {
        self@.packet()
    }

    fn into_packet(&self) -> (r: Result<Packet, Error>) {
        let mut pkt = Packet::default();

        let kind = PacketKind::AddIdentity;
        let _ = pkt.set_kind(kind);

        let key_type = bytes_as_slice(&self.kind);
        let key_blob = bytes_as_slice(&self.key_blob);
        let comment = bytes_as_slice(&self.comment);
        proof {
            // A slice is no longer than `usize::MAX`: where a buffer cannot
            // take one field, four bytes can say the length of every other.
            assert(key_blob@.len() == key_blob.len());
            assert(comment@.len() == comment.len());
        }

        let mut payload = BytesMut::new();
        buf_put_u8(&mut payload, kind.into());
        put_string(&mut payload, key_type)?;
        put_string(&mut payload, key_blob)?;
        put_string(&mut payload, comment)?;
        assert(buf_seq(payload) =~= seq![kind.spec_code()] + self@.fields());

        let _ = pkt.set_payload(payload.freeze());

        Ok(pkt)
    }
}

/// Asks the agent to add an identity with constraints on its use.
#[derive(Clone, Debug)]
pub struct AddIdentityConstrained {
    kind: Bytes,
    key_blob: Bytes,
    comment: Bytes,
    constraints: Bytes,
}

/// A constrained identity as a value: the identity, and the constraints as
/// they go on the wire.
pub struct ConstrainedView {
    pub identity: IdentityView,
    pub constraints: Seq<u8>,
}

impl ConstrainedView {
    /// The packet that asks to add this identity: the kind's number, then
    /// the identity's fields, then the constraints as they are. Each
    /// constraint says by its first byte how long it is, so no length goes
    /// before them.
    pub open spec fn packet(self) -> Result<PacketView, Error> {
        spec_build(
            PacketKind::AddIdentityConstrained,
            self.identity.encodable(),
            seq![PacketKind::AddIdentityConstrained.spec_code()] + self.identity.fields()
                + self.constraints,
        )
    }
}

impl View for AddIdentityConstrained {
    type V = ConstrainedView;

    closed spec fn view(&self) -> ConstrainedView {
        ConstrainedView {
            identity: IdentityView {
                kind: bytes_seq(self.kind),
                key_blob: bytes_seq(self.key_blob),
                comment: bytes_seq(self.comment),
            },
            constraints: bytes_seq(self.constraints),
        }
    }
}

impl AddIdentityConstrained {
    /// A request to add the key `key_blob` of type `kind` under `comment`,
    /// to be used as `constraints` say.
    pub fn new(kind: Bytes, key_blob: Bytes, comment: Bytes, constraints: Bytes) -> (r: Self)
        ensures
            r@ == (ConstrainedView {
                identity: IdentityView {
                    kind: bytes_seq(kind),
                    key_blob: bytes_seq(key_blob),
                    comment: bytes_seq(comment),
                },
                constraints: bytes_seq(constraints),
            }),
    {
        Self { kind, key_blob, comment, constraints }
    }
}

impl IntoPacket for AddIdentityConstrained {
    open spec fn spec_packet(&self) -> Result<PacketView, Error> {
        self@.packet()
    }

    fn into_packet(&self) -> (r: Result<Packet, Error>) {
        let mut pkt = Packet::default();

        let kind = PacketKind::AddIdentityConstrained;
        let _ = pkt.set_kind(kind);

        let key_type = bytes_as_slice(&self.kind);
        let key_blob = bytes_as_slice(&self.key_blob);
        let comment = bytes_as_slice(&self.comment);
        let constraints = bytes_as_slice(&self.constraints);
        proof {
            // A slice is no longer than `usize::MAX`: where a buffer cannot
            // take one field, four bytes can say the length of every other.
            assert(key_blob@.len() == key_blob.len());
            assert(comment@.len() == comment.len());
        }

        let mut payload = BytesMut::new();
        buf_put_u8(&mut payload, kind.into());
        put_string(&mut payload, key_type)?;
        put_string(&mut payload, key_blob)?;
        put_string(&mut payload, comment)?;
        put_bytes(&mut payload, constraints)?;
        assert(buf_seq(payload) =~= seq![kind.spec_code()] + self@.identity.fields()
            + self@.constraints);

        let _ = pkt.set_payload(payload.freeze());

        Ok(pkt)
    }
}

/// The packet that asks to remove the identity with the key `key_blob`: the
/// kind's number, then the key as a byte string.
pub open spec fn spec_remove_identity(key_blob: Seq<u8>) -> Result<PacketView, Error> {
    spec_build(
        PacketKind::RemoveIdentity,
        spec_encodable(key_blob),
        seq![PacketKind::RemoveIdentity.spec_code()] + spec_string(key_blob),
    )
}

/// Asks the agent to remove an identity.
#[derive(Clone, Debug)]
pub struct RemoveIdentity {
    key_blob: Bytes,
}

impl View for RemoveIdentity {
    type V = Seq<u8>;

    /// The key of the identity.
    closed spec fn view(&self) -> Seq<u8> {
        bytes_seq(self.key_blob)
    }
}

impl RemoveIdentity {
    /// A request to remove the identity with the key `key_blob`.
    pub fn new(key_blob: Bytes) -> (r: Self)
        ensures
            r@ == bytes_seq(key_blob),
    {
        Self { key_blob }
    }
}

impl IntoPacket for RemoveIdentity {
    open spec fn spec_packet(&self) -> Result<PacketView, Error> {
        spec_remove_identity(self@)
    }

    fn into_packet(&self) -> (r: Result<Packet, Error>) {
        let mut pkt = Packet::default();

        let kind = PacketKind::RemoveIdentity;
        let _ = pkt.set_kind(kind);

        let mut payload = BytesMut::new();
        buf_put_u8(&mut payload, kind.into());
        put_string(&mut payload, bytes_as_slice(&self.key_blob))?;

        let _ = pkt.set_payload(payload.freeze());

        Ok(pkt)
    }
}

/// The packet that asks to remove every identity: the kind's number and
/// nothing else.
pub open spec fn spec_remove_all() -> Result<PacketView, Error> {
    spec_build(PacketKind::RemoveAll, true, seq![PacketKind::RemoveAll.spec_code()])
}

/// Asks the agent to remove every identity.
#[derive(Clone, Copy, Debug)]
pub struct RemoveAll {}

impl Default for RemoveAll {
    fn default() -> (r: Self)
        ensures
            r == (RemoveAll {  }),
    {
        RemoveAll {  }
    }
}

impl IntoPacket for RemoveAll {
    open spec fn spec_packet(&self) -> Result<PacketView, Error> {
        spec_remove_all()
    }

    fn into_packet(&self) -> (r: Result<Packet, Error>) {
        let mut pkt = Packet::default();

        let kind = PacketKind::RemoveAll;
        let _ = pkt.set_kind(kind);

        let mut payload = BytesMut::new();
        buf_put_u8(&mut payload, kind.into());

        let _ = pkt.set_payload(payload.freeze());

        Ok(pkt)
    }
}

/// The packet that asks for the identities: the kind's number and nothing
/// else.
pub open spec fn spec_request_identities() -> Result<PacketView, Error> {
    spec_build(
        PacketKind::RequestIdentities,
        true,
        seq![PacketKind::RequestIdentities.spec_code()],
    )
}

/// Asks the agent for the identities that it holds.
#[derive(Clone, Copy, Debug)]
pub struct RequestIdentities {}

impl Default for RequestIdentities {
    fn default() -> (r: Self)
        ensures
            r == (RequestIdentities {  }),
    {
        RequestIdentities {  }
    }
}

impl IntoPacket for RequestIdentities {
    open spec fn spec_packet(&self) -> Result<PacketView, Error> {
        spec_request_identities()
    }

    fn into_packet(&self) -> (r: Result<Packet, Error>) {
        let mut pkt = Packet::default();

        let kind = PacketKind::RequestIdentities;
        let _ = pkt.set_kind(kind);

        let mut payload = BytesMut::new();
        buf_put_u8(&mut payload, kind.into());

        let _ = pkt.set_payload(payload.freeze());

        Ok(pkt)
    }
}

} // verus!
