//! The ways in which building or reading a packet fails.

use vstd::prelude::*;

verus! {

/// Why a packet could not be built, framed or read.
#[derive(Clone, Copy, Debug, PartialEq, Eq, Structural)]
pub enum Error {
    /// A field or a payload is longer than a 4-byte length can say.
    Encoding,
    /// The buffer written to would grow past the largest length it can have.
    Capacity,
    /// Fewer bytes are at hand than a length announces.
    Truncated,
    /// A frame announces a payload with no byte in it, so without a kind.
    EmptyFrame,
    /// A frame announces a payload longer than the largest one accepted.
    FrameTooLarge,
}

} // verus!
