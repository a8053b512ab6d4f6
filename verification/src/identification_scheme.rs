//! Three-move identification protocols: commit, challenge, respond.

use vstd::prelude::*;

verus! {

/// An identification scheme: the prover commits (P1), answers a challenge
/// (P2), and the verifier checks the response against the commitment.
#[allow(non_snake_case)]
pub trait IdentificationScheme {
    type PK;
    type SK;
    type Challenge;
    type Commitment;
    type State;
    type Response;

    fn P1(sk: &Self::SK) -> (Self::Commitment, Self::State);

    fn P2(
        sk: &Self::SK,
        R: &Self::Commitment,
        h: &Self::Challenge,
        st: &Self::State,
    ) -> Self::Response;

    fn verify(pk: &Self::PK, R: &Self::Commitment, h: &Self::Challenge, s: &Self::Response) -> bool;
}

} // verus!
