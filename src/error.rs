//! The ways in which decoding a VHDX file can fail.

use vstd::prelude::*;

verus! {

/// Why a decode was abandoned. Every failure ends the decode of the file: no
/// partial structure is returned next to an error.
#[derive(Clone, Copy, Debug, PartialEq, Eq, Structural)]
pub enum VhdxError {
    /// A structure does not start with its fixed signature.
    MalformedSignature,
    /// The stored CRC-32C of a structure differs from the one recomputed.
    ChecksumMismatch,
    /// An object id that is not recognised is marked as required.
    UnsupportedRequiredFeature,
    /// A count, an offset or a length lies outside what its table or region
    /// allows.
    StructuralBoundsViolation,
    /// The redundant copies of a structure cannot be reconciled.
    InconsistentRedundancy,
    /// A derived quantity is zero, negative or too large to be represented.
    DegenerateComputation,
    /// A value that the format expects is absent, unrecognised or malformed.
    MissingExpectedField,
    /// A block allocation table entry carries a state code that is not valid
    /// for its kind of entry.
    InvalidStateCode,
    /// The bytes that a structure needs are not there to be read.
    IoFailure,
}

} // verus!
