//! Disjunctive ("OR") proof of possession of a Schnorr signature or of a
//! second discrete logarithm.
//!
//! Branch one asserts that the statement's signature commitment gs equals
//! g^s for a known response scalar s, that the embedded Schnorr challenge
//! is consistent, and that x = g^w. Branch two asserts x = h^w for the
//! reference string's independent generator h. The prover knows a witness
//! for one branch and simulates the other in the Cramer-Damgard-
//! Schoenmakers way: the false branch's sub-challenge is drawn first and
//! its commitment back-solved, the true branch answers the remaining
//! sub-challenge honestly; the two sub-challenges add up to the
//! Fiat-Shamir challenge of the whole transcript.

use vstd::prelude::*;
use crate::error::Error;
use crate::field::{
    fadd, fmul, fneg, fsub, in_field, lemma_fadd_assoc, lemma_fadd_comm,
    lemma_fadd_fneg, lemma_fadd_zero, lemma_fmul_fneg, lemma_fsub_fadd_cancel, lemma_mod_small,
    lemma_sigma_linear,
};
use crate::group::{
    point_add, point_eq, point_generator, point_identity, point_log, point_mul, scalar_add,
    scalar_eq, scalar_mul, scalar_neg, scalar_random_nonzero, scalar_val,
};
use crate::transcript::{or_challenge, or_challenge_of, schnorr_challenge, schnorr_challenge_of};
use crate::utils::{
    point_bytes_of, point_to_byte_vector, scalar_bytes_of, scalar_to_byte_vector,
    str_to_byte_vector, utf8_of,
};

verus! {

/// The disjunctive proof system.
pub struct PoRSchnorrSignature;

/// The witness: a signature response scalar for branch one, a discrete
/// logarithm for whichever branch is true.
pub struct Witness {
    /// The response scalar of the committed Schnorr signature.
    pub sig_proof: k256::Scalar,
    /// The discrete logarithm of the statement component x.
    pub w: k256::Scalar,
}

impl Witness {
    pub fn new(sig: k256::Scalar, w: k256::Scalar) -> (r: Witness)
        ensures
            r.sig_proof == sig,
            r.w == w,
    {
        Witness { sig_proof: sig, w }
    }
}

/// The common reference string: the group generator g and a second
/// generator h whose discrete logarithm with respect to g neither party
/// fixes alone.
pub struct Crs {
    pub g: k256::ProjectivePoint,
    pub h: k256::ProjectivePoint,
}

/// A well-formed reference string: g is the generator and h is not the
/// identity.
pub open spec fn wf_crs(g: nat, h: nat) -> bool {
    g == 1 && h != 0
}

/// The statement: the instance x, the signer's public key, the signature
/// commitment gs, the signature challenge e, and the signed message.
pub struct Statement {
    pub x: k256::ProjectivePoint,
    pub pk: k256::ProjectivePoint,
    pub gs: k256::ProjectivePoint,
    pub e: k256::Scalar,
    pub msg: String,
}

impl Statement {
    pub fn new(
        x: k256::ProjectivePoint,
        pk: k256::ProjectivePoint,
        gs: k256::ProjectivePoint,
        e: k256::Scalar,
        msg: String,
    ) -> (r: Statement)
        ensures
            r.x == x,
            r.pk == pk,
            r.gs == gs,
            r.e == e,
            r.msg == msg,
    {
        Statement { x, pk, gs, e, msg }
    }

    /// The canonical encoding: the points, the scalar, then the message
    /// bytes, in declaration order.
    pub fn to_byte_vector(&self) -> (v: Vec<u8>)
        ensures
            v@ == point_bytes_of(point_log(self.x)) + point_bytes_of(point_log(self.pk))
                + point_bytes_of(point_log(self.gs)) + scalar_bytes_of(scalar_val(self.e))
                + utf8_of(self.msg@),
    {
        let mut v = point_to_byte_vector(&self.x);
        let mut part = point_to_byte_vector(&self.pk);
        v.append(&mut part);
        let mut part = point_to_byte_vector(&self.gs);
        v.append(&mut part);
        let mut part = scalar_to_byte_vector(&self.e);
        v.append(&mut part);
        let mut part = str_to_byte_vector(self.msg.as_str());
        v.append(&mut part);
        v
    }
}

/// The proof: three commitments, three responses, and the two
/// sub-challenges.
pub struct Proof {
    pub a: (k256::ProjectivePoint, k256::ProjectivePoint, k256::ProjectivePoint),
    pub r: (k256::Scalar, k256::Scalar, k256::Scalar),
    pub c: (k256::Scalar, k256::Scalar),
}

impl Proof {
    /// The canonical encoding: commitments, responses, sub-challenges.
    pub fn to_byte_vector(&self) -> (v: Vec<u8>)
        ensures
            v@ == point_bytes_of(point_log(self.a.0)) + point_bytes_of(point_log(self.a.1))
                + point_bytes_of(point_log(self.a.2)) + scalar_bytes_of(scalar_val(self.r.0))
                + scalar_bytes_of(scalar_val(self.r.1)) + scalar_bytes_of(scalar_val(self.r.2))
                + scalar_bytes_of(scalar_val(self.c.0)) + scalar_bytes_of(scalar_val(self.c.1)),
            v@.len() == 259,
    {
        let mut v = point_to_byte_vector(&self.a.0);
        let mut part = point_to_byte_vector(&self.a.1);
        v.append(&mut part);
        let mut part = point_to_byte_vector(&self.a.2);
        v.append(&mut part);
        let mut part = scalar_to_byte_vector(&self.r.0);
        v.append(&mut part);
        let mut part = scalar_to_byte_vector(&self.r.1);
        v.append(&mut part);
        let mut part = scalar_to_byte_vector(&self.r.2);
        v.append(&mut part);
        let mut part = scalar_to_byte_vector(&self.c.0);
        v.append(&mut part);
        let mut part = scalar_to_byte_vector(&self.c.1);
        v.append(&mut part);
        v
    }
}

/// The embedded Schnorr consistency check of the statement: the challenge
/// of the recomputed commitment gs * pk^e and the message.
pub open spec fn or_ev(gs: nat, pk: nat, e: nat, msg: Seq<char>) -> nat {
    schnorr_challenge_of(fadd(gs, fmul(pk, e)), msg)
}

/// The disjunctive relation over exponents: either the signature branch
/// (gs = g^s, consistent challenge, and x = g^w) or the second-generator
/// branch (x = h^w).
pub open spec fn or_relation(
    g: nat,
    h: nat,
    x: nat,
    gs: nat,
    pk: nat,
    e: nat,
    msg: Seq<char>,
    sig: nat,
    w: nat,
) -> bool {
    ||| (gs == fmul(g, sig) && or_ev(gs, pk, e, msg) == e && fmul(g, w) == x)
    ||| fmul(h, w) == x
}

/// What honest proving needs: the branch the prover takes — branch one
/// exactly when x = g^w — must be true of the witness, and the
/// statement's embedded challenge must be consistent, since the verifier
/// checks it unconditionally.
pub open spec fn or_provable(
    g: nat,
    h: nat,
    x: nat,
    gs: nat,
    pk: nat,
    e: nat,
    msg: Seq<char>,
    sig: nat,
    w: nat,
) -> bool {
    &&& or_ev(gs, pk, e, msg) == e
    &&& if fmul(g, w) == x {
        gs == fmul(g, sig)
    } else {
        fmul(h, w) == x
    }
}

/// The verifier's predicate over exponents: the sub-challenges add up to
/// the transcript challenge, the embedded Schnorr check holds, and the
/// three linear equations hold under the sub-challenges.
pub open spec fn or_accepts(
    g: nat,
    h: nat,
    x: nat,
    gs: nat,
    pk: nat,
    e: nat,
    msg: Seq<char>,
    a_g: nat,
    a_sig: nat,
    a_h: nat,
    r_g: nat,
    r_sig: nat,
    r_h: nat,
    c1: nat,
    c2: nat,
) -> bool {
    let c = or_challenge_of(a_g, a_h, a_sig, gs, x, pk, e, msg);
    &&& c == fadd(c1, c2)
    &&& or_ev(gs, pk, e, msg) == e
    &&& fmul(g, r_sig) == fadd(a_sig, fmul(gs, c1))
    &&& fmul(g, r_g) == fadd(a_g, fmul(x, c1))
    &&& fmul(h, r_h) == fadd(a_h, fmul(x, c2))
}

/// `wf_crs` over a reference-string value.
pub open spec fn crs_ok(crs: &Crs) -> bool {
    wf_crs(point_log(crs.g), point_log(crs.h))
}

/// `or_relation` over statement and witness values.
pub open spec fn stmt_relation(crs: &Crs, x: &Statement, w: &Witness) -> bool {
    or_relation(
        point_log(crs.g),
        point_log(crs.h),
        point_log(x.x),
        point_log(x.gs),
        point_log(x.pk),
        scalar_val(x.e),
        x.msg@,
        scalar_val(w.sig_proof),
        scalar_val(w.w),
    )
}

/// `or_provable` over statement and witness values.
pub open spec fn stmt_provable(crs: &Crs, x: &Statement, w: &Witness) -> bool {
    or_provable(
        point_log(crs.g),
        point_log(crs.h),
        point_log(x.x),
        point_log(x.gs),
        point_log(x.pk),
        scalar_val(x.e),
        x.msg@,
        scalar_val(w.sig_proof),
        scalar_val(w.w),
    )
}

/// `or_accepts` over statement and proof values.
pub open spec fn stmt_accepts(crs: &Crs, x: &Statement, p: &Proof) -> bool {
    or_accepts(
        point_log(crs.g),
        point_log(crs.h),
        point_log(x.x),
        point_log(x.gs),
        point_log(x.pk),
        scalar_val(x.e),
        x.msg@,
        point_log(p.a.0),
        point_log(p.a.1),
        point_log(p.a.2),
        scalar_val(p.r.0),
        scalar_val(p.r.1),
        scalar_val(p.r.2),
        scalar_val(p.c.0),
        scalar_val(p.c.1),
    )
}

/// Whether (sig, w) witnesses the statement; the exec counterpart of
/// `or_relation`.
#[allow(non_snake_case)]
pub fn por_R(crs: &Crs, w: &Witness, x: &Statement) -> (r: bool)
    ensures
        r == stmt_relation(crs, x, w),
{
    let pke = point_mul(&x.pk, &x.e);
    let rv = point_add(&x.gs, &pke);
    let ev = schnorr_challenge(&rv, x.msg.as_str());
    let gsig = point_mul(&crs.g, &w.sig_proof);
    let gw = point_mul(&crs.g, &w.w);
    let hw = point_mul(&crs.h, &w.w);
    let b1 = point_eq(&x.gs, &gsig) && scalar_eq(&ev, &x.e);
    let b2 = point_eq(&gw, &x.x);
    let b3 = point_eq(&hw, &x.x);
    (b1 && b2) || b3
}

/// Assemble the reference string from a proposed second generator:
/// accepted exactly when h is not the identity, rejected loudly — never
/// silently coerced — when it is.
pub fn crs_from_second_generator(h: &k256::ProjectivePoint) -> (r: Result<Crs, Error>)
    ensures
        r is Ok <==> point_log(*h) != 0,
        r matches Ok(crs) ==> crs_ok(&crs) && crs.h == *h,
        r matches Err(e) ==> e == Error::ConstructionInvariantViolation,
{
    let g = point_generator();
    let id = point_identity();
    if point_eq(h, &id) {
        Err(Error::ConstructionInvariantViolation)
    } else {
        Ok(Crs { g, h: *h })
    }
}

/// Two-message Diffie-Hellman-style setup of the reference string: one
/// party contributes g^alpha, the other raises it to beta, so neither
/// alone fixes the discrete logarithm of h with respect to g. The
/// product of two nonzero exponents cannot make h the identity under a
/// prime order, but `crs_from_second_generator` checks that at runtime
/// anyway.
pub fn por_crs_gen() -> (r: Result<Crs, Error>)
    ensures
        match r {
            Ok(crs) => crs_ok(&crs),
            Err(e) => e == Error::ConstructionInvariantViolation,
        },
{
    let g = point_generator();
    // Party A draws alpha and sends g^alpha.
    let alpha = scalar_random_nonzero();
    let h1 = point_mul(&g, &alpha);
    // Party B draws beta and returns (g^alpha)^beta.
    let beta = scalar_random_nonzero();
    let h = point_mul(&h1, &beta);
    crs_from_second_generator(&h)
}

/// The simulated-branch cancellation: a commitment back-solved as
/// t * base^(-c) satisfies base^c * (t * base^(-c)) == t.
proof fn lemma_simulated_branch(m: nat, t: nat)
    requires
        in_field(t),
    ensures
        fadd(fadd(fneg(m), t), m) == t,
{
    lemma_fadd_comm(fneg(m), t);
    lemma_fadd_assoc(t, fneg(m), m);
    lemma_fadd_comm(fneg(m), m);
    lemma_fadd_fneg(m);
    lemma_fadd_zero(t);
    lemma_mod_small(t);
}

/// Prove the disjunction: the branch with x = g^w is answered honestly,
/// the other simulated from a random sub-challenge; the proof always
/// verifies (completeness, covering both branch shapes).
pub fn por_prove(crs: &Crs, x: &Statement, w: &Witness) -> (p: Proof)
    requires
        stmt_provable(crs, x, w),
    ensures
        stmt_accepts(crs, x, &p),
{
    let u_g = scalar_random_nonzero();
    let u_h = scalar_random_nonzero();
    let u_sig = scalar_random_nonzero();
    let gw = point_mul(&crs.g, &w.w);
    if point_eq(&gw, &x.x) {
        // Branch one is true: simulate branch two from a random c2.
        let c2 = scalar_random_nonzero();
        let a_g = point_mul(&crs.g, &u_g);
        let a_sig = point_mul(&crs.g, &u_sig);
        let nc2 = scalar_neg(&c2);
        let xnc2 = point_mul(&x.x, &nc2);
        let hu = point_mul(&crs.h, &u_h);
        let a_h = point_add(&xnc2, &hu);
        let c = or_challenge(&a_g, &a_h, &a_sig, &x.gs, &x.x, &x.pk, &x.e, x.msg.as_str());
        let c1 = crate::group::scalar_sub(&c, &c2);
        let c1w = scalar_mul(&c1, &w.w);
        let r_g = scalar_add(&c1w, &u_g);
        let c1sig = scalar_mul(&c1, &w.sig_proof);
        let r_sig = scalar_add(&c1sig, &u_sig);
        let r_h = u_h;
        proof {
            lemma_fsub_fadd_cancel(scalar_val(c), scalar_val(c2));
            lemma_mod_small(scalar_val(c));
            lemma_sigma_linear(
                point_log(crs.g),
                scalar_val(u_sig),
                scalar_val(c1),
                scalar_val(w.sig_proof),
            );
            lemma_fadd_comm(scalar_val(u_sig), fmul(scalar_val(c1), scalar_val(w.sig_proof)));
            lemma_sigma_linear(
                point_log(crs.g),
                scalar_val(u_g),
                scalar_val(c1),
                scalar_val(w.w),
            );
            lemma_fadd_comm(scalar_val(u_g), fmul(scalar_val(c1), scalar_val(w.w)));
            lemma_fmul_fneg(point_log(x.x), scalar_val(c2));
            lemma_simulated_branch(
                fmul(point_log(x.x), scalar_val(c2)),
                fmul(point_log(crs.h), scalar_val(u_h)),
            );
        }
        Proof { a: (a_g, a_sig, a_h), r: (r_g, r_sig, r_h), c: (c1, c2) }
    } else {
        // Branch two is true: simulate branch one from a random c1.
        let c1 = scalar_random_nonzero();
        let nc1 = scalar_neg(&c1);
        let xnc1 = point_mul(&x.x, &nc1);
        let gu = point_mul(&crs.g, &u_g);
        let a_g = point_add(&xnc1, &gu);
        let gsnc1 = point_mul(&x.gs, &nc1);
        let gusig = point_mul(&crs.g, &u_sig);
        let a_sig = point_add(&gsnc1, &gusig);
        let a_h = point_mul(&crs.h, &u_h);
        let c = or_challenge(&a_g, &a_h, &a_sig, &x.gs, &x.x, &x.pk, &x.e, x.msg.as_str());
        let c2 = crate::group::scalar_sub(&c, &c1);
        let r_g = u_g;
        let r_sig = u_sig;
        let c2w = scalar_mul(&c2, &w.w);
        let r_h = scalar_add(&c2w, &u_h);
        proof {
            lemma_fsub_fadd_cancel(scalar_val(c), scalar_val(c1));
            lemma_mod_small(scalar_val(c));
            lemma_fadd_comm(fsub(scalar_val(c), scalar_val(c1)), scalar_val(c1));
            lemma_fmul_fneg(point_log(x.gs), scalar_val(c1));
            lemma_simulated_branch(
                fmul(point_log(x.gs), scalar_val(c1)),
                fmul(point_log(crs.g), scalar_val(u_sig)),
            );
            lemma_fmul_fneg(point_log(x.x), scalar_val(c1));
            lemma_simulated_branch(
                fmul(point_log(x.x), scalar_val(c1)),
                fmul(point_log(crs.g), scalar_val(u_g)),
            );
            lemma_sigma_linear(
                point_log(crs.h),
                scalar_val(u_h),
                scalar_val(c2),
                scalar_val(w.w),
            );
            lemma_fadd_comm(scalar_val(u_h), fmul(scalar_val(c2), scalar_val(w.w)));
        }
        Proof { a: (a_g, a_sig, a_h), r: (r_g, r_sig, r_h), c: (c1, c2) }
    }
}

/// Verify the disjunctive proof; the verdict is exactly `or_accepts`.
pub fn por_verify(crs: &Crs, x: &Statement, p: &Proof) -> (r: bool)
    ensures
        r == stmt_accepts(crs, x, p),
{
    let pke = point_mul(&x.pk, &x.e);
    let rv = point_add(&x.gs, &pke);
    let ev = schnorr_challenge(&rv, x.msg.as_str());
    let c = or_challenge(&p.a.0, &p.a.2, &p.a.1, &x.gs, &x.x, &x.pk, &x.e, x.msg.as_str());
    let c12 = scalar_add(&p.c.0, &p.c.1);
    let gs_c1 = point_mul(&x.gs, &p.c.0);
    let rhs_sig = point_add(&p.a.1, &gs_c1);
    let g_rsig = point_mul(&crs.g, &p.r.1);
    let x_c1 = point_mul(&x.x, &p.c.0);
    let rhs_g = point_add(&p.a.0, &x_c1);
    let g_rg = point_mul(&crs.g, &p.r.0);
    let x_c2 = point_mul(&x.x, &p.c.1);
    let rhs_h = point_add(&p.a.2, &x_c2);
    let h_rh = point_mul(&crs.h, &p.r.2);
    let b0 = scalar_eq(&c, &c12);
    let b1 = scalar_eq(&ev, &x.e);
    let b2 = point_eq(&g_rsig, &rhs_sig);
    let b3 = point_eq(&g_rg, &rhs_g);
    let b4 = point_eq(&h_rh, &rhs_h);
    b0 && b1 && b2 && b3 && b4
}

} // verus!
