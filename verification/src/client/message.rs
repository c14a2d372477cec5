//! What an application asks of the client.

use crate::buffer::bytes_seq;
use crate::error::Error;
use crate::packet::identity::spec_remove_all;
use crate::packet::identity::spec_remove_identity;
use crate::packet::identity::spec_request_identities;
use crate::packet::identity::AddIdentity;
use crate::packet::identity::AddIdentityConstrained;
use crate::packet::identity::ConstrainedView;
use crate::packet::identity::IdentityView;
use crate::packet::identity::RemoveAll;
use crate::packet::identity::RemoveIdentity;
use crate::packet::identity::RequestIdentities;
use crate::packet::lock::spec_lock;
use crate::packet::lock::Lock;
use crate::packet::sign::SignRequest;
use crate::packet::sign::SignView;
use crate::packet::unlock::spec_unlock;
use crate::packet::unlock::Unlock;
use crate::packet::spec_build;
use crate::packet::IntoPacket;
use crate::packet::Packet;
use crate::packet::PacketKind;
use crate::packet::PacketView;
use crate::utils::spec_encodable;
use crate::utils::spec_string;
use crate::utils::spec_u32_be;
use bytes::Bytes;
use vstd::prelude::*;

verus! {

/// One thing that an application asks of the client.
#[derive(Clone, Debug)]
pub enum Message {
    /// Add an identity: the name of the key type, the key, a comment.
    Add(Bytes, Bytes, Bytes),
    /// Add an identity with constraints: the name of the key type, the key,
    /// a comment, the constraints one after the other.
    AddConstrained(Bytes, Bytes, Bytes, Bytes),
    /// Remove the identity with this key.
    Remove(Bytes),
    /// Remove every identity.
    RemoveAll,
    /// List the identities.
    List,
    /// Sign with this key this data, as the flags say.
    Sign(Bytes, Bytes, u32),
    /// Lock the agent under this passphrase.
    Lock(Bytes),
    /// Unlock the agent with this passphrase.
    Unlock(Bytes),
    /// Stop the client.
    Shutdown,
}

/// A message as a value.
pub enum MessageView {
    Add(Seq<u8>, Seq<u8>, Seq<u8>),
    AddConstrained(Seq<u8>, Seq<u8>, Seq<u8>, Seq<u8>),
    Remove(Seq<u8>),
    RemoveAll,
    List,
    Sign(Seq<u8>, Seq<u8>, u32),
    Lock(Seq<u8>),
    Unlock(Seq<u8>),
    Shutdown,
}

impl MessageView {
    /// The one packet that this message is sent as, or why it cannot be
    /// built; `None` for `Shutdown`, which is not sent.
    pub open spec fn packet(self) -> Option<Result<PacketView, Error>> {
        match self {
            MessageView::Add(kind, key_blob, comment) => Some(
                (IdentityView { kind, key_blob, comment }).packet(),
            ),
            MessageView::AddConstrained(kind, key_blob, comment, constraints) => Some(
                (ConstrainedView {
                    identity: IdentityView { kind, key_blob, comment },
                    constraints,
                }).packet(),
            ),
            MessageView::Remove(key_blob) => Some(spec_remove_identity(key_blob)),
            MessageView::RemoveAll => Some(spec_remove_all()),
            MessageView::List => Some(spec_request_identities()),
            MessageView::Sign(key_blob, data, flags) => Some(
                (SignView { key_blob, data, flags }).packet(),
            ),
            MessageView::Lock(passphrase) => Some(spec_lock(passphrase)),
            MessageView::Unlock(passphrase) => Some(spec_unlock(passphrase)),
            MessageView::Shutdown => None,
        }
    }
}

/// The layout of each request, in one place. Every payload starts with the
/// number of its kind. After it come, for `Add`, key type, key and comment
/// as byte strings; for `AddConstrained`, the same and then the constraints
/// as they are; for `Remove`, the key as a byte string; for `RemoveAll` and
/// `List`, nothing; for `Sign`, key and data as byte strings and the flags as
/// four bytes; for `Lock` and `Unlock`, the passphrase as a byte string. A
/// message is refused with `Encoding` where one of its byte strings is too
/// long for its length to be said, else with `Capacity` where the payload is
/// longer than a buffer can be.
pub proof fn lemma_packet_layout(m: MessageView)
    ensures
        match m {
            MessageView::Add(kind, key_blob, comment) => m.packet() == Some(
                spec_build(
                    PacketKind::AddIdentity,
                    spec_encodable(kind) && spec_encodable(key_blob) && spec_encodable(comment),
                    seq![17u8] + spec_string(kind) + spec_string(key_blob) + spec_string(comment),
                ),
            ),
            MessageView::AddConstrained(kind, key_blob, comment, constraints) => m.packet()
                == Some(
                spec_build(
                    PacketKind::AddIdentityConstrained,
                    spec_encodable(kind) && spec_encodable(key_blob) && spec_encodable(comment),
                    seq![25u8] + spec_string(kind) + spec_string(key_blob) + spec_string(comment)
                        + constraints,
                ),
            ),
            MessageView::Remove(key_blob) => m.packet() == Some(
                spec_build(
                    PacketKind::RemoveIdentity,
                    spec_encodable(key_blob),
                    seq![18u8] + spec_string(key_blob),
                ),
            ),
            MessageView::RemoveAll => m.packet() == Some(
                spec_build(PacketKind::RemoveAll, true, seq![19u8]),
            ),
            MessageView::List => m.packet() == Some(
                spec_build(PacketKind::RequestIdentities, true, seq![11u8]),
            ),
            MessageView::Sign(key_blob, data, flags) => m.packet() == Some(
                spec_build(
                    PacketKind::SignRequest,
                    spec_encodable(key_blob) && spec_encodable(data),
                    seq![13u8] + spec_string(key_blob) + spec_string(data) + spec_u32_be(flags),
                ),
            ),
            MessageView::Lock(passphrase) => m.packet() == Some(
                spec_build(
                    PacketKind::Lock,
                    spec_encodable(passphrase),
                    seq![22u8] + spec_string(passphrase),
                ),
            ),
            MessageView::Unlock(passphrase) => m.packet() == Some(
                spec_build(
                    PacketKind::Unlock,
                    spec_encodable(passphrase),
                    seq![23u8] + spec_string(passphrase),
                ),
            ),
            MessageView::Shutdown => m.packet() is None,
        },
{
    match m {
        MessageView::Add(kind, key_blob, comment) => {
            assert(seq![17u8] + (spec_string(kind) + spec_string(key_blob) + spec_string(comment))
                =~= seq![17u8] + spec_string(kind) + spec_string(key_blob) + spec_string(
                comment,
            ));
        },
        MessageView::AddConstrained(kind, key_blob, comment, constraints) => {
            assert(seq![25u8] + (spec_string(kind) + spec_string(key_blob) + spec_string(comment))
                + constraints =~= seq![25u8] + spec_string(kind) + spec_string(key_blob)
                + spec_string(comment) + constraints);
        },
        MessageView::Sign(key_blob, data, flags) => {
            assert(seq![13u8] + (spec_string(key_blob) + spec_string(data) + spec_u32_be(flags))
                =~= seq![13u8] + spec_string(key_blob) + spec_string(data) + spec_u32_be(flags));
        },
        _ => {},
    }
}

/// Kind and payload of the packet of a message agree: the payload starts
/// with the number of the kind, and the kind is that of a request.
pub proof fn lemma_packet_well_formed(m: MessageView)
    ensures
        m.packet() matches Some(Ok(p)) ==> p.well_formed() && p.payload[0] == p.kind.spec_code()
            && !p.kind.spec_is_response(),
{
}

impl View for Message {
    type V = MessageView;

    open spec fn view(&self) -> MessageView {
        match *self {
            Message::Add(kind, key_blob, comment) => MessageView::Add(
                bytes_seq(kind),
                bytes_seq(key_blob),
                bytes_seq(comment),
            ),
            Message::AddConstrained(kind, key_blob, comment, constraints) => {
                MessageView::AddConstrained(
                    bytes_seq(kind),
                    bytes_seq(key_blob),
                    bytes_seq(comment),
                    bytes_seq(constraints),
                )
            },
            Message::Remove(key_blob) => MessageView::Remove(bytes_seq(key_blob)),
            Message::RemoveAll => MessageView::RemoveAll,
            Message::List => MessageView::List,
            Message::Sign(key_blob, data, flags) => MessageView::Sign(
                bytes_seq(key_blob),
                bytes_seq(data),
                flags,
            ),
            Message::Lock(passphrase) => MessageView::Lock(bytes_seq(passphrase)),
            Message::Unlock(passphrase) => MessageView::Unlock(bytes_seq(passphrase)),
            Message::Shutdown => MessageView::Shutdown,
        }
    }
}

/// What building the packet of a message gave, with the packet as a value.
pub open spec fn spec_sent(r: Result<Option<Packet>, Error>) -> Option<Result<PacketView, Error>> {
    match r {
        Ok(Some(p)) => Some(Ok(p@)),
        Ok(None) => None,
        Err(e) => Some(Err(e)),
    }
}

impl Message {
    /// Builds the packet that this message is sent as; `None` for
    /// `Shutdown`, which is not sent.
    pub fn into_packet(self) -> (r: Result<Option<Packet>, Error>)
        ensures
            spec_sent(r) == self@.packet(),
    {
        let pkt = match self {
            Message::Add(kind, key_blob, comment) => {
                AddIdentity::new(kind, key_blob, comment).into_packet()?
            },
            Message::AddConstrained(kind, key_blob, comment, constraints) => {
                AddIdentityConstrained::new(kind, key_blob, comment, constraints).into_packet()?
            },
            Message::Remove(key_blob) => RemoveIdentity::new(key_blob).into_packet()?,
            Message::RemoveAll => RemoveAll::default().into_packet()?,
            Message::List => RequestIdentities::default().into_packet()?,
            Message::Sign(key, data, flags) => SignRequest::new(key, data, flags).into_packet()?,
            Message::Lock(passphrase) => Lock::new(passphrase).into_packet()?,
            Message::Unlock(passphrase) => Unlock::new(passphrase).into_packet()?,
            Message::Shutdown => { return Ok(None); },
        };
        Ok(Some(pkt))
    }
}

} // verus!
