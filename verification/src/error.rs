//! The ways an operation of this library is refused.

use vstd::prelude::*;

verus! {

/// Why a value could not be built or read. A proof that does not verify is
/// not an error: verification answers `false`.
#[derive(Clone, Copy, Debug, PartialEq, Eq, Structural)]
pub enum Error {
    /// A ring context was asked for size zero or for more than
    /// [`crate::ring::MAX_RING_SIZE`] members.
    InvalidRingSize,
    /// The ring has more members than its context was built for.
    RingTooLarge,
    /// The index addresses no member of the ring.
    IndexOutOfBounds,
    /// The ring member at the prover's index is not the public key of the
    /// prover's secret key.
    KeyMismatch,
    /// The bytes are truncated or are not the encoding of a value.
    Decode,
    /// The data could not be mapped to a curve point.
    InputDerivation,
    /// A derived point is not the one that was expected.
    PointMismatch,
    /// A map between the two forms of the curve is not defined on a point.
    CurveMapping,
}

} // verus!
