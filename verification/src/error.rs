//! The error taxonomy of the protocol layer.

use vstd::prelude::*;

verus! {

/// What can go wrong in a protocol run. Verification verdicts are plain
/// booleans at the scheme level; at the protocol level a false verdict
/// aborts the run with `VerificationFailure`, a missing extraction result
/// with `ExtractionFailure`, and a sampled value that violates a
/// non-identity precondition with `ConstructionInvariantViolation` —
/// loudly, never silently coerced.
#[derive(Clone, Copy, Debug, PartialEq, Eq, Structural)]
pub enum Error {
    VerificationFailure,
    ExtractionFailure,
    ConstructionInvariantViolation,
}

} // verus!
