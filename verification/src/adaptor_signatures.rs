//! Adaptor signatures: signatures bound to a hard-relation statement.
//!
//! A pre-signature verifies against a statement x but is not valid on its
//! own; adapting it with the witness w of x yields an ordinary signature,
//! and the pair of pre-signature and adapted signature reveals w.

use vstd::prelude::*;

verus! {

/// An adaptor signature scheme, defined from a signature scheme with
/// respect to a hard relation: the key pair is related through one hard
/// relation, the witness and statement through another.
pub trait AdaptorSignatureScheme {
    type PK;
    type SK;
    type Statement;
    type Witness;
    type PreSignature;
    type Signature;

    fn gen() -> (Self::SK, Self::PK);

    fn pre_sign(sk: &Self::SK, msg: &str, x: &Self::Statement) -> Self::PreSignature;

    fn sign(sk: &Self::SK, msg: &str) -> Self::Signature;

    fn pre_verify(
        pk: &Self::PK,
        msg: &str,
        x: &Self::Statement,
        p_sig: &Self::PreSignature,
    ) -> bool;

    fn adapt(pk: &Self::PK, p_sig: &Self::PreSignature, w: &Self::Witness) -> Self::Signature;

    fn verify(pk: &Self::PK, msg: &str, sig: &Self::Signature) -> bool;

    fn extract(
        pk: &Self::PK,
        p_sig: &Self::PreSignature,
        sig: &Self::Signature,
    ) -> Option<Self::Witness>;
}

} // verus!
