//! Constraints on the use of an identity.

use crate::buffer::buf_put_u32;
use crate::buffer::buf_put_u8;
use crate::buffer::buf_seq;
use crate::buffer::bytes_seq;
use crate::utils::spec_u32_be;
use bytes::Bytes;
use bytes::BytesMut;
use vstd::prelude::*;

verus! {

/// The first byte of a constraint that ends an identity's life after a
/// number of seconds.
pub const CONSTRAIN_LIFETIME: u8 = 1;

/// The first byte of a constraint that has the agent ask before each use.
pub const CONSTRAIN_CONFIRM: u8 = 2;

/// One constraint, as it goes on the wire: a byte that says which, then what
/// that kind of constraint carries. Several constraints are sent one after
/// the other, with nothing between them.
#[derive(Clone, Debug)]
pub struct Constraint {
    payload: Bytes,
}

impl View for Constraint {
    type V = Seq<u8>;

    /// The bytes of the constraint.
    closed spec fn view(&self) -> Seq<u8> {
        bytes_seq(self.payload)
    }
}

impl Constraint {
    /// The identity is removed `seconds` seconds after it was added: the
    /// constraint's byte, then the seconds as four bytes, most significant
    /// first.
    pub fn lifetime(seconds: u32) -> (c: Self)
        ensures
            c@ == seq![CONSTRAIN_LIFETIME] + spec_u32_be(seconds),
    {
        let mut payload = BytesMut::new();
        buf_put_u8(&mut payload, CONSTRAIN_LIFETIME);
        buf_put_u32(&mut payload, seconds);
        assert(buf_seq(payload) =~= seq![CONSTRAIN_LIFETIME] + spec_u32_be(seconds));
        Self { payload: payload.freeze() }
    }

    /// The agent asks before each use of the identity: the constraint's byte
    /// and nothing else.
    pub fn confirm() -> (c: Self)
        ensures
            c@ == seq![CONSTRAIN_CONFIRM],
    {
        let mut payload = BytesMut::new();
        buf_put_u8(&mut payload, CONSTRAIN_CONFIRM);
        assert(buf_seq(payload) =~= seq![CONSTRAIN_CONFIRM]);
        Self { payload: payload.freeze() }
    }

    /// The bytes of the constraint, as they go into a request.
    pub fn payload(&self) -> (b: &Bytes)
        ensures
            bytes_seq(*b) == self@,
    {
        &self.payload
    }
}

} // verus!
