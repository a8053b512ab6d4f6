//! ElGamal encryption over the secp256k1 group.
//!
//! A ciphertext for message point M under public key pk is
//! (g^y, pk^y * M) for fresh randomness y; the secret key undoes the
//! shared secret: B * A^(-sk) == M when pk == g^sk.

use vstd::prelude::*;
use crate::field::{
    fadd, fmul, fsub, group_order, in_field, lemma_fadd_then_fsub, lemma_fmul_comm,
    lemma_fmul_mod_left,
};
use crate::group::{
    point_generator, point_log, point_mul, point_sub, scalar_random_nonzero, scalar_val,
};
use crate::hard_relation::dlog_gen;
use crate::public_key_encryption_scheme::PublicKeyEncryptionScheme;

verus! {

/// ElGamal over secp256k1.
pub struct ElGamal;

/// Fresh key pair: random nonzero sk, pk = g^sk.
pub fn elgamal_gen() -> (r: (k256::Scalar, k256::ProjectivePoint))
    ensures
        1 <= scalar_val(r.0) < group_order(),
        point_log(r.1) == fmul(1, scalar_val(r.0)),
{
    let g = point_generator();
    dlog_gen(&g)
}

/// Encrypt the message point under pk with fresh randomness y, which is
/// returned alongside the ciphertext.
pub fn elgamal_enc(pk: &k256::ProjectivePoint, msg: &k256::ProjectivePoint) -> (r: (
    (k256::ProjectivePoint, k256::ProjectivePoint),
    k256::Scalar,
))
    ensures
        1 <= scalar_val(r.1) < group_order(),
        point_log(r.0.0) == fmul(1, scalar_val(r.1)),
        point_log(r.0.1) == fadd(fmul(point_log(*pk), scalar_val(r.1)), point_log(*msg)),
{
    let g = point_generator();
    let y = scalar_random_nonzero();
    let s = point_mul(pk, &y);
    let a = point_mul(&g, &y);
    let b = crate::group::point_add(&s, msg);
    ((a, b), y)
}

/// Decrypt: subtract the shared secret A^sk from B.
pub fn elgamal_dec(
    sk: &k256::Scalar,
    ct: &(k256::ProjectivePoint, k256::ProjectivePoint),
) -> (msg: k256::ProjectivePoint)
    ensures
        point_log(msg) == fsub(
            point_log(ct.1),
            fmul(point_log(ct.0), scalar_val(*sk)),
        ),
{
    let shared = point_mul(&ct.0, sk);
    point_sub(&ct.1, &shared)
}

/// Decrypting an encryption under the matching secret key recovers the
/// message point: the two shared secrets (g^sk)^y and (g^y)^sk coincide.
pub proof fn lemma_elgamal_round_trip(sk: nat, y: nat, msg: nat)
    requires
        in_field(msg),
    ensures
        fsub(
            fadd(fmul(fmul(1, sk), y), msg),
            fmul(fmul(1, y), sk),
        ) == msg,
{
    lemma_fmul_mod_left(sk, y);
    lemma_fmul_mod_left(y, sk);
    lemma_fmul_comm(y, sk);
    lemma_fadd_then_fsub(fmul(sk, y), msg);
    crate::field::lemma_fadd_comm(msg, fmul(sk, y));
}

impl PublicKeyEncryptionScheme for ElGamal {
    type PK = k256::ProjectivePoint;

    type SK = k256::Scalar;

    type Message = k256::ProjectivePoint;

    type CypherText = (k256::ProjectivePoint, k256::ProjectivePoint);

    type Randomness = k256::Scalar;

    fn gen() -> (k256::Scalar, k256::ProjectivePoint) {
        elgamal_gen()
    }

    fn enc(pk: &k256::ProjectivePoint, msg: &k256::ProjectivePoint) -> (
        (k256::ProjectivePoint, k256::ProjectivePoint),
        k256::Scalar,
    ) {
        elgamal_enc(pk, msg)
    }

    fn dec(
        sk: &k256::Scalar,
        ct: &(k256::ProjectivePoint, k256::ProjectivePoint),
    ) -> k256::ProjectivePoint {
        elgamal_dec(sk, ct)
    }
}

} // verus!
