//! Plain Schnorr signatures over secp256k1 with SHA-256 challenges.
//!
//! A signature is the pair (e, s): e the Fiat-Shamir challenge of the
//! nonce commitment and the message, s = k - e * sk the response. The
//! verifier recomputes the commitment as g^s * pk^e and accepts when its
//! challenge equals e.

use vstd::prelude::*;
use crate::field::{
    fadd, fmul, fsub, group_order, lemma_fmul_comm, lemma_fsub_fadd_cancel, lemma_mod_small,
};
use crate::group::{
    point_add, point_generator, point_log, point_mul, scalar_eq, scalar_mul,
    scalar_random_nonzero, scalar_sub, scalar_val,
};
use crate::hard_relation::dlog_gen;
use crate::signature_scheme::SignatureScheme;
use crate::transcript::{schnorr_challenge, schnorr_challenge_of};
use crate::utils::{scalar_bytes_of, scalar_to_byte_vector};
use vstd::arithmetic::div_mod::lemma_mul_mod_noop_general;

verus! {

/// A Schnorr signature: the challenge scalar e and the response scalar.
pub struct SchnorrSignature {
    /// The Fiat-Shamir challenge e.
    pub challenge: k256::Scalar,
    /// The response scalar (z for pre-signatures, s for signatures).
    pub sig: k256::Scalar,
}

impl SchnorrSignature {
    /// The canonical encoding: challenge bytes, then response bytes.
    pub fn to_byte_vector(&self) -> (v: Vec<u8>)
        ensures
            v@ == scalar_bytes_of(scalar_val(self.challenge)) + scalar_bytes_of(
                scalar_val(self.sig),
            ),
            v@.len() == 64,
    {
        let mut v = scalar_to_byte_vector(&self.challenge);
        let mut tail = scalar_to_byte_vector(&self.sig);
        v.append(&mut tail);
        v
    }
}

/// Whether (e, s) is a valid Schnorr signature on msg under the public key
/// with the given exponent: the challenge of the recomputed commitment
/// g^s * pk^e and the message equals e.
pub open spec fn schnorr_verifies(pk: nat, msg: Seq<char>, e: nat, s: nat) -> bool {
    schnorr_challenge_of(fadd(fmul(1, s), fmul(pk, e)), msg) == e
}

/// The signing key's public counterpart: g^sk.
pub open spec fn schnorr_keypair(sk: nat, pk: nat) -> bool {
    pk == fmul(1, sk)
}

/// The Schnorr signature scheme.
pub struct SchnorrSignatureScheme;

/// Honest signing commits to g^k, and verification recomputes the very
/// same point: g^(k - e*sk) * (g^sk)^e == g^k.
proof fn lemma_schnorr_complete(sk: nat, k: nat, e: nat)
    ensures
        fadd(fmul(1, fsub(k, fmul(e, sk))), fmul(fmul(1, sk), e)) == fmul(1, k),
{
    let q = group_order() as int;
    let m = fmul(e, sk);
    lemma_mod_small(fsub(k, m));
    assert(fmul(1, fsub(k, m)) == fsub(k, m));
    lemma_mul_mod_noop_general(sk as int, e as int, q);
    assert(fmul(fmul(1, sk), e) == fmul(sk, e));
    lemma_fmul_comm(sk, e);
    lemma_fsub_fadd_cancel(k, m);
}

impl SignatureScheme for SchnorrSignatureScheme {
    type PK = k256::ProjectivePoint;

    type SK = k256::Scalar;

    type Signature = SchnorrSignature;

    fn gen() -> (k256::Scalar, k256::ProjectivePoint) {
        let g = point_generator();
        dlog_gen(&g)
    }

    fn sign(sk: &k256::Scalar, msg: &str) -> SchnorrSignature {
        schnorr_sign(sk, msg)
    }

    fn verify(pk: &k256::ProjectivePoint, msg: &str, sig: &SchnorrSignature) -> bool {
        schnorr_verify(pk, msg, sig)
    }
}

/// Sign msg under sk: fresh nonce k, commitment g^k, challenge e of the
/// commitment and msg, response s = k - e * sk. The signature is valid
/// under the public key g^sk.
pub fn schnorr_sign(sk: &k256::Scalar, msg: &str) -> (sig: SchnorrSignature)
    ensures
        schnorr_verifies(
            fmul(1, scalar_val(*sk)),
            msg@,
            scalar_val(sig.challenge),
            scalar_val(sig.sig),
        ),
{
    let g = point_generator();
    let k = scalar_random_nonzero();
    let r = point_mul(&g, &k);
    let e = schnorr_challenge(&r, msg);
    let esk = scalar_mul(&e, sk);
    let s = scalar_sub(&k, &esk);
    proof {
        lemma_schnorr_complete(scalar_val(*sk), scalar_val(k), scalar_val(e));
    }
    SchnorrSignature { challenge: e, sig: s }
}

/// Verify (e, s) on msg under pk; the verdict is exactly
/// `schnorr_verifies`.
pub fn schnorr_verify(pk: &k256::ProjectivePoint, msg: &str, sig: &SchnorrSignature) -> (r: bool)
    ensures
        r == schnorr_verifies(
            point_log(*pk),
            msg@,
            scalar_val(sig.challenge),
            scalar_val(sig.sig),
        ),
{
    let g = point_generator();
    let gs = point_mul(&g, &sig.sig);
    let pke = point_mul(pk, &sig.challenge);
    let rv = point_add(&gs, &pke);
    let ev = schnorr_challenge(&rv, msg);
    scalar_eq(&ev, &sig.challenge)
}

} // verus!
