//! The ways in which building and decoding can fail.

use vstd::prelude::*;

verus! {

/// Why an attribute could not be built.
#[derive(Clone, Copy, Debug, PartialEq, Eq, Structural)]
pub enum AttributeBuildError {
    /// The type code needs more than the fourteen bits that the type field has for it.
    TypeCodeOutOfRange,
    /// Header and payload together are longer than the 16-bit length field can say.
    PayloadTooLong,
}

/// Why bytes from the kernel could not be decoded.
#[derive(Clone, Copy, Debug, PartialEq, Eq, Structural)]
pub enum DecodeError {
    /// An attribute header is cut short, or it declares a length that is less
    /// than the header itself or more than the bytes that remain.
    TruncatedAttribute,
    /// The entry lacks its original tuple or its reply tuple.
    MissingTuple,
    /// A tuple lacks a nested attribute that it must have, or one of its
    /// scalars has the wrong width.
    MalformedTuple,
}

} // verus!
