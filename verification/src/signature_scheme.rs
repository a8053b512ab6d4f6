//! Plain digital signatures: key generation, signing, verification.

use vstd::prelude::*;

verus! {

/// A signature scheme; the signing key SK and the verification key PK are
/// related through a hard relation.
pub trait SignatureScheme {
    type PK;
    type SK;
    type Signature;

    fn gen() -> (Self::SK, Self::PK);

    fn sign(sk: &Self::SK, msg: &str) -> Self::Signature;

    fn verify(pk: &Self::PK, msg: &str, sig: &Self::Signature) -> bool;
}

} // verus!
