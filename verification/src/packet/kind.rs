//! The kinds of packet and their numbers on the wire.

use vstd::prelude::*;
use vstd::std_specs::convert::FromSpecImpl;

verus! {

/// The kind of a packet: what the first byte of its payload says.
#[derive(Clone, Copy, Debug, PartialEq, Eq, Structural)]
pub enum PacketKind {
    /// The agent could not do what was asked.
    Failure,
    /// The agent did what was asked.
    Success,
    /// Ask for the identities that the agent holds.
    RequestIdentities,
    /// The identities that the agent holds.
    IdentitiesAnswer,
    /// Ask for a signature.
    SignRequest,
    /// A signature.
    SignResponse,
    /// Add an identity.
    AddIdentity,
    /// Remove an identity.
    RemoveIdentity,
    /// Remove every identity.
    RemoveAll,
    /// Add a key held on a smartcard.
    AddSmartcardKey,
    /// Remove a key held on a smartcard.
    RemoveSmartcardKey,
    /// Lock the agent.
    Lock,
    /// Unlock the agent.
    Unlock,
    /// Add an identity with constraints on its use.
    AddIdentityConstrained,
    /// Add a key held on a smartcard with constraints on its use.
    AddSmartcardKeyConstrained,
    /// A vendor extension.
    Extension,
    /// The agent could not do what an extension asked.
    ExtensionFailure,
    /// A first byte that stands for none of the above.
    Unknown,
}

impl PacketKind {
    /// The number that stands for this kind on the wire; 0, which stands for
    /// no kind, for `Unknown`.
    pub open spec fn spec_code(self) -> u8 {
        match self {
            PacketKind::Failure => 5,
            PacketKind::Success => 6,
            PacketKind::RequestIdentities => 11,
            PacketKind::IdentitiesAnswer => 12,
            PacketKind::SignRequest => 13,
            PacketKind::SignResponse => 14,
            PacketKind::AddIdentity => 17,
            PacketKind::RemoveIdentity => 18,
            PacketKind::RemoveAll => 19,
            PacketKind::AddSmartcardKey => 20,
            PacketKind::RemoveSmartcardKey => 21,
            PacketKind::Lock => 22,
            PacketKind::Unlock => 23,
            PacketKind::AddIdentityConstrained => 25,
            PacketKind::AddSmartcardKeyConstrained => 26,
            PacketKind::Extension => 27,
            PacketKind::ExtensionFailure => 28,
            PacketKind::Unknown => 0,
        }
    }

    /// The kind that a number stands for on the wire.
    pub open spec fn spec_from_code(code: u8) -> PacketKind {
        if code == 5 {
            PacketKind::Failure
        } else if code == 6 {
            PacketKind::Success
        } else if code == 11 {
            PacketKind::RequestIdentities
        } else if code == 12 {
            PacketKind::IdentitiesAnswer
        } else if code == 13 {
            PacketKind::SignRequest
        } else if code == 14 {
            PacketKind::SignResponse
        } else if code == 17 {
            PacketKind::AddIdentity
        } else if code == 18 {
            PacketKind::RemoveIdentity
        } else if code == 19 {
            PacketKind::RemoveAll
        } else if code == 20 {
            PacketKind::AddSmartcardKey
        } else if code == 21 {
            PacketKind::RemoveSmartcardKey
        } else if code == 22 {
            PacketKind::Lock
        } else if code == 23 {
            PacketKind::Unlock
        } else if code == 25 {
            PacketKind::AddIdentityConstrained
        } else if code == 26 {
            PacketKind::AddSmartcardKeyConstrained
        } else if code == 27 {
            PacketKind::Extension
        } else if code == 28 {
            PacketKind::ExtensionFailure
        } else {
            PacketKind::Unknown
        }
    }

    /// Whether the agent answers with this kind. Every other kind is a
    /// request, or unknown.
    pub open spec fn spec_is_response(&self) -> bool {
        *self == PacketKind::Failure || *self == PacketKind::Success || *self
            == PacketKind::IdentitiesAnswer || *self == PacketKind::SignResponse || *self
            == PacketKind::ExtensionFailure
    }

    /// The number that stands for this kind on the wire.
    #[verifier::when_used_as_spec(spec_code)]
    pub fn code(self) -> (c: u8)
        ensures
            c == self.spec_code(),
    {
        match self {
            PacketKind::Failure => 5,
            PacketKind::Success => 6,
            PacketKind::RequestIdentities => 11,
            PacketKind::IdentitiesAnswer => 12,
            PacketKind::SignRequest => 13,
            PacketKind::SignResponse => 14,
            PacketKind::AddIdentity => 17,
            PacketKind::RemoveIdentity => 18,
            PacketKind::RemoveAll => 19,
            PacketKind::AddSmartcardKey => 20,
            PacketKind::RemoveSmartcardKey => 21,
            PacketKind::Lock => 22,
            PacketKind::Unlock => 23,
            PacketKind::AddIdentityConstrained => 25,
            PacketKind::AddSmartcardKeyConstrained => 26,
            PacketKind::Extension => 27,
            PacketKind::ExtensionFailure => 28,
            PacketKind::Unknown => 0,
        }
    }

    /// Whether the agent answers with this kind.
    #[verifier::when_used_as_spec(spec_is_response)]
    pub fn is_response(&self) -> (b: bool)
        ensures
            b == self.spec_is_response(),
    {
        match self {
            PacketKind::Failure => true,
            PacketKind::Success => true,
            PacketKind::IdentitiesAnswer => true,
            PacketKind::SignResponse => true,
            PacketKind::ExtensionFailure => true,
            _ => false,
        }
    }

    /// A kind is found again from its number.
    pub proof fn lemma_code_round_trip(self)
        ensures
            PacketKind::spec_from_code(self.spec_code()) == self,
    {
    }

    /// A number that stands for a kind is found again from that kind.
    pub proof fn lemma_from_code_round_trip(code: u8)
        requires
            PacketKind::spec_from_code(code) != PacketKind::Unknown,
        ensures
            PacketKind::spec_from_code(code).spec_code() == code,
    {
    }
}

impl Default for PacketKind {
    fn default() -> (k: PacketKind)
        ensures
            k == PacketKind::Unknown,
    {
        PacketKind::Unknown
    }
}

impl From<PacketKind> for u8 {
    fn from(kind: PacketKind) -> (c: u8) {
        kind.code()
    }
}

impl FromSpecImpl<PacketKind> for u8 {
    open spec fn obeys_from_spec() -> bool {
        true
    }

    open spec fn from_spec(kind: PacketKind) -> u8 {
        kind.spec_code()
    }
}

impl From<u8> for PacketKind {
    fn from(code: u8) -> (kind: PacketKind) {
        match code {
            5 => PacketKind::Failure,
            6 => PacketKind::Success,
            11 => PacketKind::RequestIdentities,
            12 => PacketKind::IdentitiesAnswer,
            13 => PacketKind::SignRequest,
            14 => PacketKind::SignResponse,
            17 => PacketKind::AddIdentity,
            18 => PacketKind::RemoveIdentity,
            19 => PacketKind::RemoveAll,
            20 => PacketKind::AddSmartcardKey,
            21 => PacketKind::RemoveSmartcardKey,
            22 => PacketKind::Lock,
            23 => PacketKind::Unlock,
            25 => PacketKind::AddIdentityConstrained,
            26 => PacketKind::AddSmartcardKeyConstrained,
            27 => PacketKind::Extension,
            28 => PacketKind::ExtensionFailure,
            _ => PacketKind::Unknown,
        }
    }
}

impl FromSpecImpl<u8> for PacketKind {
    open spec fn obeys_from_spec() -> bool {
        true
    }

    open spec fn from_spec(code: u8) -> PacketKind {
        PacketKind::spec_from_code(code)
    }
}

} // verus!
