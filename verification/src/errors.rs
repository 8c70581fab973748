use vstd::prelude::*;

verus! {

/// The two point groups of the pairing-friendly curve, distinguished by the
/// size of their compressed encodings.
#[derive(Clone, Copy, Debug, PartialEq, Eq, Structural)]
pub enum PointGroup {
    /// The group with the 48-byte compressed encoding (conventionally G1).
    Short,
    /// The group with the 96-byte compressed encoding (conventionally G2).
    Long,
}

/// Why a byte string was rejected as a point encoding.
#[derive(Clone, Debug, PartialEq, Eq)]
pub enum DecodeFailure {
    /// The input does not have the group's fixed compressed length.
    WrongLength { expected: usize, actual: usize },
    /// The input has the right length but is not the canonical compressed
    /// encoding of a point of the group's prime-order subgroup; the detail
    /// message names the first violated condition (compression flags,
    /// coordinate range, curve equation, or subgroup membership).
    InvalidEncoding { detail: String },
}

/// A byte string could not be decoded into a point of the given group.
#[derive(Clone, Debug, PartialEq, Eq)]
pub struct InvalidPointError {
    pub group: PointGroup,
    pub reason: DecodeFailure,
}

/// Which caller-supplied input carried a bad point encoding. (A bad stored
/// public key is reported separately, as corrupt configuration.)
#[derive(Clone, Copy, Debug, PartialEq, Eq, Structural)]
pub enum PointField {
    Signature,
    MessagePoint,
}

/// Error of the signature verification predicate itself.
#[derive(Clone, Debug, PartialEq, Eq)]
pub enum VerificationError {
    InvalidPoint { field: PointField, error: InvalidPointError },
}

/// Error of a call at the service boundary.
#[derive(Clone, Debug, PartialEq, Eq)]
pub enum ContractError {
    /// No public key has been stored yet.
    ConfigNotFound,
    /// The stored public key bytes do not decode to a short-group point.
    ConfigCorrupt { error: InvalidPointError },
    /// A caller-supplied input does not decode to a point of its group.
    InvalidPoint { field: PointField, error: InvalidPointError },
    /// The query shape is part of an external callback protocol for which the
    /// core deliberately implements no handler.
    UnsupportedQuery,
}

} // verus!
