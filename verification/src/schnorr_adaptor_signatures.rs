//! Schnorr-based adaptor signatures over secp256k1.
//!
//! A pre-signature on msg under statement x is (e, z) with
//! e = H(pk, g^r * x, msg) and z = r + sk * e: the nonce commitment is
//! shifted by the adaptor point x. Adapting with the witness w of x
//! (x == g^w) turns it into the ordinary Schnorr pair (e, z + w), and the
//! difference of the two response scalars gives w back: the disclosure
//! that claims payment is the disclosure that reveals the witness.

use vstd::prelude::*;
use crate::adaptor_signatures::AdaptorSignatureScheme;
use crate::field::{
    fadd, fmul, fneg, fsub, group_order, in_field, lemma_fadd_assoc, lemma_fadd_comm,
    lemma_fadd_fneg, lemma_fadd_mod_left, lemma_fadd_mod_right, lemma_fadd_zero,
    lemma_fmul_comm, lemma_fmul_fneg, lemma_fmul_mod_left, lemma_mod_small,
};
use crate::group::{
    point_add, point_generator, point_log, point_mul, point_neg, scalar_add, scalar_eq,
    scalar_into_nonzero, scalar_mul, scalar_neg, scalar_random_nonzero, scalar_sub, scalar_val,
};
use crate::hard_relation::{dlog_gen, dlog_statement};
use crate::schnorr_signatures::{schnorr_verifies, SchnorrSignature};
use crate::transcript::{adaptor_challenge, adaptor_challenge_of, schnorr_challenge};

verus! {

/// The Schnorr adaptor signature scheme.
pub struct SchnorrAdaptorSignature;

/// Whether (e, z) pre-verifies on msg against statement x under the
/// public key: the challenge of the recomputed shifted commitment
/// g^z * pk^(-e) * x and the message equals e.
pub open spec fn adaptor_pre_verifies(pk: nat, msg: Seq<char>, x: nat, e: nat, z: nat) -> bool {
    adaptor_challenge_of(pk, fadd(fadd(fmul(1, z), fmul(pk, fneg(e))), x), msg) == e
}

/// Whether (e, s) is a valid adapted signature on msg under the public
/// key: the challenge of the recomputed commitment g^s * pk^(-e) and the
/// message equals e.
pub open spec fn adaptor_verifies(pk: nat, msg: Seq<char>, e: nat, s: nat) -> bool {
    adaptor_challenge_of(pk, fadd(fmul(1, s), fmul(fneg(pk), e)), msg) == e
}

/// Fresh key pair: random nonzero sk, pk = g^sk.
pub fn adaptor_gen() -> (r: (k256::Scalar, k256::ProjectivePoint))
    ensures
        1 <= scalar_val(r.0) < group_order(),
        point_log(r.1) == fmul(1, scalar_val(r.0)),
{
    let g = point_generator();
    dlog_gen(&g)
}

/// Pre-sign msg under sk against the statement x: fresh nonce r, shifted
/// commitment g^r * x, challenge e, response z = r + sk * e. The result
/// pre-verifies against x under the public key g^sk.
pub fn adaptor_pre_sign(sk: &k256::Scalar, msg: &str, x: &k256::ProjectivePoint) -> (p_sig:
    SchnorrSignature)
    ensures
        adaptor_pre_verifies(
            fmul(1, scalar_val(*sk)),
            msg@,
            point_log(*x),
            scalar_val(p_sig.challenge),
            scalar_val(p_sig.sig),
        ),
{
    let g = point_generator();
    let r = scalar_random_nonzero();
    let pk = dlog_statement(&g, sk);
    let gr = point_mul(&g, &r);
    let gx = point_add(&gr, x);
    let e = adaptor_challenge(&pk, &gx, msg);
    let ske = scalar_mul(sk, &e);
    let z = scalar_add(&r, &ske);
    proof {
        lemma_pre_sign_complete(
            scalar_val(*sk),
            scalar_val(r),
            scalar_val(e),
            point_log(*x),
        );
    }
    SchnorrSignature { challenge: e, sig: z }
}

/// Plain signing without an adaptor point, as a Schnorr signature:
/// e = H(g^r, msg), s = r - sk * e. The result is valid under the plain
/// Schnorr verifier for the public key g^sk.
pub fn adaptor_sign(sk: &k256::Scalar, msg: &str) -> (sig: SchnorrSignature)
    ensures
        schnorr_verifies(
            fmul(1, scalar_val(*sk)),
            msg@,
            scalar_val(sig.challenge),
            scalar_val(sig.sig),
        ),
{
    let g = point_generator();
    let r = scalar_random_nonzero();
    let gr = point_mul(&g, &r);
    let e = schnorr_challenge(&gr, msg);
    let ske = scalar_mul(sk, &e);
    let s = scalar_sub(&r, &ske);
    proof {
        lemma_plain_sign_complete(scalar_val(*sk), scalar_val(r), scalar_val(e));
    }
    SchnorrSignature { challenge: e, sig: s }
}

/// Pre-verify (e, z) on msg against x under pk; the verdict is exactly
/// `adaptor_pre_verifies`.
pub fn adaptor_pre_verify(
    pk: &k256::ProjectivePoint,
    msg: &str,
    x: &k256::ProjectivePoint,
    p_sig: &SchnorrSignature,
) -> (r: bool)
    ensures
        r == adaptor_pre_verifies(
            point_log(*pk),
            msg@,
            point_log(*x),
            scalar_val(p_sig.challenge),
            scalar_val(p_sig.sig),
        ),
{
    let g = point_generator();
    let gz = point_mul(&g, &p_sig.sig);
    let ne = scalar_neg(&p_sig.challenge);
    let pkne = point_mul(pk, &ne);
    let shifted = point_add(&gz, &pkne);
    let gx = point_add(&shifted, x);
    let e = adaptor_challenge(pk, &gx, msg);
    scalar_eq(&e, &p_sig.challenge)
}

/// Adapt a pre-signature with the witness w: the response becomes z + w,
/// the challenge is kept. `lemma_adapt_verifies` states when the result
/// is a valid signature.
pub fn adaptor_adapt(
    pk: &k256::ProjectivePoint,
    p_sig: &SchnorrSignature,
    w: &k256::Scalar,
) -> (sig: SchnorrSignature)
    ensures
        scalar_val(sig.challenge) == scalar_val(p_sig.challenge),
        scalar_val(sig.sig) == fadd(scalar_val(p_sig.sig), scalar_val(*w)),
{
    let z = scalar_add(&p_sig.sig, w);
    SchnorrSignature { challenge: p_sig.challenge, sig: z }
}

/// Verify (e, s) on msg under pk; the verdict is exactly
/// `adaptor_verifies`.
pub fn adaptor_verify(pk: &k256::ProjectivePoint, msg: &str, sig: &SchnorrSignature) -> (r: bool)
    ensures
        r == adaptor_verifies(
            point_log(*pk),
            msg@,
            scalar_val(sig.challenge),
            scalar_val(sig.sig),
        ),
{
    let g = point_generator();
    let gs = point_mul(&g, &sig.sig);
    let npk = point_neg(pk);
    let npke = point_mul(&npk, &sig.challenge);
    let rv = point_add(&gs, &npke);
    let e = adaptor_challenge(pk, &rv, msg);
    scalar_eq(&e, &sig.challenge)
}

/// The candidate witness hidden between a pre-signature and a signature:
/// the difference of the response scalars, or an explicit absent value
/// when the difference is the additive identity (no adaptation happened).
/// The emptiness check runs in constant time inside the nonzero
/// conversion and does not branch on the scalar's bits.
pub fn adaptor_extract(
    pk: &k256::ProjectivePoint,
    p_sig: &SchnorrSignature,
    sig: &SchnorrSignature,
) -> (r: Option<k256::Scalar>)
    ensures
        match r {
            Some(w) => scalar_val(w) == fsub(scalar_val(sig.sig), scalar_val(p_sig.sig))
                && fsub(scalar_val(sig.sig), scalar_val(p_sig.sig)) != 0,
            None => fsub(scalar_val(sig.sig), scalar_val(p_sig.sig)) == 0,
        },
{
    let diff = scalar_sub(&sig.sig, &p_sig.sig);
    scalar_into_nonzero(&diff)
}

impl AdaptorSignatureScheme for SchnorrAdaptorSignature {
    type PK = k256::ProjectivePoint;

    type SK = k256::Scalar;

    type Statement = k256::ProjectivePoint;

    type Witness = k256::Scalar;

    type PreSignature = SchnorrSignature;

    type Signature = SchnorrSignature;

    fn gen() -> (k256::Scalar, k256::ProjectivePoint) {
        adaptor_gen()
    }

    fn pre_sign(
        sk: &k256::Scalar,
        msg: &str,
        x: &k256::ProjectivePoint,
    ) -> SchnorrSignature {
        adaptor_pre_sign(sk, msg, x)
    }

    fn sign(sk: &k256::Scalar, msg: &str) -> SchnorrSignature {
        adaptor_sign(sk, msg)
    }

    fn pre_verify(
        pk: &k256::ProjectivePoint,
        msg: &str,
        x: &k256::ProjectivePoint,
        p_sig: &SchnorrSignature,
    ) -> bool {
        adaptor_pre_verify(pk, msg, x, p_sig)
    }

    fn adapt(
        pk: &k256::ProjectivePoint,
        p_sig: &SchnorrSignature,
        w: &k256::Scalar,
    ) -> SchnorrSignature {
        adaptor_adapt(pk, p_sig, w)
    }

    fn verify(pk: &k256::ProjectivePoint, msg: &str, sig: &SchnorrSignature) -> bool {
        adaptor_verify(pk, msg, sig)
    }

    fn extract(
        pk: &k256::ProjectivePoint,
        p_sig: &SchnorrSignature,
        sig: &SchnorrSignature,
    ) -> Option<k256::Scalar> {
        adaptor_extract(pk, p_sig, sig)
    }
}

/// The nonce commitment an honest pre-signature hides is the one the
/// pre-verifier recomputes: g^(r + sk*e) * (g^sk)^(-e) * x == g^r * x.
proof fn lemma_pre_sign_complete(sk: nat, r: nat, e: nat, x: nat)
    ensures
        fadd(
            fadd(fmul(1, fadd(r, fmul(sk, e))), fmul(fmul(1, sk), fneg(e))),
            x,
        ) == fadd(fmul(1, r), x),
{
    let m = fmul(sk, e);
    let z = fadd(r, m);
    lemma_mod_small(z);
    assert(fmul(1, z) == z);
    lemma_fmul_mod_left(sk, fneg(e));
    assert(fmul(fmul(1, sk), fneg(e)) == fmul(sk, fneg(e)));
    lemma_fmul_fneg(sk, e);
    assert(fmul(sk, fneg(e)) == fneg(m));
    lemma_fadd_assoc(r, m, fneg(m));
    lemma_fadd_mod_left(r, fadd(m, fneg(m)));
    lemma_fadd_fneg(m);
    assert(fadd(z, fneg(m)) == fadd(r, 0));
    lemma_fadd_zero(r);
    assert(fadd(z, fneg(m)) == r % group_order());
    assert(fmul(1, r) == r % group_order());
}

/// Plain signing with response r - sk*e verifies like a Schnorr
/// signature: g^(r - sk*e) * (g^sk)^e == g^r.
proof fn lemma_plain_sign_complete(sk: nat, r: nat, e: nat)
    ensures
        fadd(fmul(1, fsub(r, fmul(sk, e))), fmul(fmul(1, sk), e)) == fmul(1, r),
{
    let m = fmul(sk, e);
    lemma_mod_small(fsub(r, m));
    lemma_fmul_mod_left(sk, e);
    assert(fmul(fmul(1, sk), e) == fmul(sk, e));
    crate::field::lemma_fsub_fadd_cancel(r, m);
}

/// Adapting a pre-signature that pre-verifies against x == g^w yields a
/// signature the verifier accepts: the witness shifts the response by
/// exactly the adaptor point's exponent.
pub proof fn lemma_adapt_verifies(pk: nat, msg: Seq<char>, x: nat, e: nat, z: nat, w: nat)
    requires
        adaptor_pre_verifies(pk, msg, x, e, z),
        x == fmul(1, w),
    ensures
        adaptor_verifies(pk, msg, e, fadd(z, w)),
{
    let n = fneg(fmul(pk, e));
    lemma_fmul_fneg(pk, e);
    assert(fmul(pk, fneg(e)) == n);
    lemma_fmul_comm(fneg(pk), e);
    lemma_fmul_fneg(e, pk);
    lemma_fmul_comm(e, pk);
    assert(fmul(fneg(pk), e) == n);
    // the pre-verifier's input: ((g^z * pk^(-e)) * x)
    lemma_fadd_mod_left(z, n);
    assert(fadd(fmul(1, z), n) == fadd(z, n));
    lemma_fadd_mod_right(fadd(z, n), w);
    assert(fadd(fadd(z, n), x) == fadd(fadd(z, n), w));
    // the verifier's input: (g^(z + w) * pk^(-e))
    lemma_mod_small(fadd(z, w));
    assert(fmul(1, fadd(z, w)) == fadd(z, w));
    // both reduce to z + w + n
    lemma_fadd_assoc(z, n, w);
    lemma_fadd_comm(n, w);
    lemma_fadd_assoc(z, w, n);
}

/// The adaptor round trip as one law: if (e, z) pre-verifies against
/// x == g^w under pk and w is a canonical nonzero witness, then the
/// adapted pair (e, z + w) verifies, extraction on the two responses
/// recovers exactly w, and the recovered witness opens x.
pub proof fn lemma_adaptor_round_trip(pk: nat, msg: Seq<char>, x: nat, e: nat, z: nat, w: nat)
    requires
        adaptor_pre_verifies(pk, msg, x, e, z),
        x == fmul(1, w),
        in_field(w),
        w != 0,
    ensures
        adaptor_verifies(pk, msg, e, fadd(z, w)),
        fsub(fadd(z, w), z) == w,
        fmul(1, fsub(fadd(z, w), z)) == x,
{
    lemma_adapt_verifies(pk, msg, x, e, z, w);
    lemma_extract_recovers(z, w);
}

/// Extracting from an honestly adapted signature recovers the witness:
/// (z + w) - z == w for a canonical w.
pub proof fn lemma_extract_recovers(z: nat, w: nat)
    requires
        in_field(w),
    ensures
        fsub(fadd(z, w), z) == w,
{
    crate::field::lemma_fadd_then_fsub(z, w);
}

} // verus!
