//! Zero-knowledge proofs and adaptor signatures over the secp256k1 group,
//! composed into a trust-minimized fair exchange: a seller trades a
//! notarized signature for payment without an escrow.
//!
//! The group and scalar arithmetic is the k256 crate's, taken on trust
//! behind the narrow boundary in `group` and `transcript`; every point is
//! abstracted by its discrete logarithm and every scalar by its canonical
//! value, so all contracts and proofs here are modular arithmetic over
//! `field`. On top of that boundary the sigma protocols, the disjunctive
//! proof, the Schnorr and adaptor signature schemes and the fair-exchange
//! orchestration are verified: provers always convince the matching
//! verifiers, adapting a pre-signature yields a valid signature, and a
//! finished exchange provably discloses the witness of the statement that
//! was sold.

use vstd::prelude::*;

pub mod adaptor_signatures;
pub mod elgamal;
pub mod error;
pub mod field;
pub mod group;
pub mod hard_relation;
pub mod identification_scheme;
pub mod nizk;
pub mod one_time_pad;
pub mod pok_schnorr_signature;
pub mod por_schnorr_signature;
pub mod public_key_encryption_scheme;
pub mod schnorr_adaptor_signatures;
pub mod schnorr_signatures;
pub mod selling_signature;
pub mod sigma_proof;
pub mod signature_scheme;
pub mod symmetric_encryption;
pub mod transcript;
pub mod utils;

verus! {

/// Sum of two machine-sized integers.
pub fn add(left: usize, right: usize) -> (r: usize)
    requires
        left + right <= usize::MAX,
    ensures
        r == left + right,
{
    left + right
}

} // verus!
