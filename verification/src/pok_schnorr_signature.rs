//! Proof of knowledge of a Schnorr signature.
//!
//! The statement commits to a signature (gs = g^s for the response scalar
//! s, e the challenge) on msg under pk, to a discrete logarithm x = g^w,
//! and to an opening scalar ct with g^ct = x * gs. The witness is the pair
//! (s, w). The proof is a two-commitment sigma protocol over the two
//! exponent equations, with the remaining statement checks recomputed by
//! the verifier.

use vstd::prelude::*;
use crate::field::{fadd, fmul, lemma_fmul_comm, lemma_sigma_linear};
use crate::group::{
    point_add, point_eq, point_generator, point_log, point_mul, scalar_add, scalar_eq,
    scalar_mul, scalar_random_nonzero, scalar_val,
};
use crate::nizk::NIZK;
use crate::schnorr_signatures::schnorr_verifies;
use crate::transcript::{pok_challenge, pok_challenge_of, schnorr_challenge, schnorr_challenge_of};
use crate::utils::{
    point_bytes_of, point_to_byte_vector, scalar_bytes_of, scalar_to_byte_vector, str_to_byte_vector,
    utf8_of,
};

verus! {

/// The proof system for knowledge of a Schnorr signature.
pub struct PoKSchnorrSignature;

/// The witness: the committed signature's response scalar and the
/// discrete logarithm of the statement's x.
pub struct Witness {
    /// The response scalar of the committed Schnorr signature.
    pub sig: k256::Scalar,
    /// The discrete logarithm of the statement component x.
    pub w: k256::Scalar,
}

impl Witness {
    pub fn new(sig: k256::Scalar, w: k256::Scalar) -> (r: Witness)
        ensures
            r.sig == sig,
            r.w == w,
    {
        Witness { sig, w }
    }
}

/// The statement: the signature commitment gs, the instance x, the
/// signer's public key, the signature challenge e, the opening scalar ct
/// and the signed message.
pub struct Statement {
    pub gs: k256::ProjectivePoint,
    pub x: k256::ProjectivePoint,
    pub pk: k256::ProjectivePoint,
    pub e: k256::Scalar,
    pub ct: k256::Scalar,
    pub msg: String,
}

impl Statement {
    pub fn new(
        gs: k256::ProjectivePoint,
        x: k256::ProjectivePoint,
        pk: k256::ProjectivePoint,
        e: k256::Scalar,
        ct: k256::Scalar,
        msg: String,
    ) -> (r: Statement)
        ensures
            r.gs == gs,
            r.x == x,
            r.pk == pk,
            r.e == e,
            r.ct == ct,
            r.msg == msg,
    {
        Statement { gs, x, pk, e, ct, msg }
    }

    /// The canonical encoding: the points, the scalars, then the message
    /// bytes, in declaration order.
    pub fn to_byte_vector(&self) -> (v: Vec<u8>)
        ensures
            v@ == point_bytes_of(point_log(self.gs)) + point_bytes_of(point_log(self.x))
                + point_bytes_of(point_log(self.pk)) + scalar_bytes_of(scalar_val(self.e))
                + scalar_bytes_of(scalar_val(self.ct)) + utf8_of(self.msg@),
    {
        let mut v = point_to_byte_vector(&self.gs);
        let mut part = point_to_byte_vector(&self.x);
        v.append(&mut part);
        let mut part = point_to_byte_vector(&self.pk);
        v.append(&mut part);
        let mut part = scalar_to_byte_vector(&self.e);
        v.append(&mut part);
        let mut part = scalar_to_byte_vector(&self.ct);
        v.append(&mut part);
        let mut part = str_to_byte_vector(self.msg.as_str());
        v.append(&mut part);
        v
    }
}

/// The proof: two commitments and two responses.
pub struct Proof {
    pub a: (k256::ProjectivePoint, k256::ProjectivePoint),
    pub r: (k256::Scalar, k256::Scalar),
}

impl Proof {
    /// The canonical encoding: commitments, then responses.
    pub fn to_byte_vector(&self) -> (v: Vec<u8>)
        ensures
            v@ == point_bytes_of(point_log(self.a.0)) + point_bytes_of(point_log(self.a.1))
                + scalar_bytes_of(scalar_val(self.r.0)) + scalar_bytes_of(scalar_val(self.r.1)),
            v@.len() == 130,
    {
        let mut v = point_to_byte_vector(&self.a.0);
        let mut part = point_to_byte_vector(&self.a.1);
        v.append(&mut part);
        let mut part = scalar_to_byte_vector(&self.r.0);
        v.append(&mut part);
        let mut part = scalar_to_byte_vector(&self.r.1);
        v.append(&mut part);
        v
    }
}

/// The relation over exponents: x = g^w, gs = g^s, ct opens x * gs, and
/// (e, s) passes the Schnorr challenge consistency check for pk and msg.
pub open spec fn pok_relation(
    gs: nat,
    x: nat,
    pk: nat,
    e: nat,
    ct: nat,
    msg: Seq<char>,
    sig: nat,
    w: nat,
) -> bool {
    &&& x == fmul(1, w)
    &&& gs == fmul(1, sig)
    &&& fmul(1, ct) == fadd(x, gs)
    &&& schnorr_challenge_of(fadd(gs, fmul(pk, e)), msg) == e
}

/// The verifier's predicate over exponents: the recomputed statement
/// checks and the two linear sigma equations under the Fiat-Shamir
/// challenge.
pub open spec fn pok_accepts(
    gs: nat,
    x: nat,
    pk: nat,
    e: nat,
    ct: nat,
    msg: Seq<char>,
    a1: nat,
    a2: nat,
    r1: nat,
    r2: nat,
) -> bool {
    let c = pok_challenge_of(a1, a2, gs, x, pk, e, ct, msg);
    &&& fmul(1, ct) == fadd(x, gs)
    &&& schnorr_challenge_of(fadd(gs, fmul(pk, e)), msg) == e
    &&& fmul(1, r1) == fadd(a1, fmul(gs, c))
    &&& fmul(1, r2) == fadd(a2, fmul(x, c))
}

/// Whether (sig, w) witnesses the statement; the exec counterpart of
/// `pok_relation`.
#[allow(non_snake_case)]
pub fn pok_R(w: &Witness, x: &Statement) -> (r: bool)
    ensures
        r == pok_relation(
            point_log(x.gs),
            point_log(x.x),
            point_log(x.pk),
            scalar_val(x.e),
            scalar_val(x.ct),
            x.msg@,
            scalar_val(w.sig),
            scalar_val(w.w),
        ),
{
    let g = point_generator();
    let pke = point_mul(&x.pk, &x.e);
    let rv = point_add(&x.gs, &pke);
    let ev = schnorr_challenge(&rv, x.msg.as_str());
    let gw = point_mul(&g, &w.w);
    let gsig = point_mul(&g, &w.sig);
    let gct = point_mul(&g, &x.ct);
    let xgs = point_add(&x.x, &x.gs);
    let b1 = point_eq(&x.x, &gw);
    let b2 = point_eq(&x.gs, &gsig);
    let b3 = point_eq(&gct, &xgs);
    let b4 = scalar_eq(&ev, &x.e);
    b1 && b2 && b3 && b4
}

impl NIZK for PoKSchnorrSignature {
    type CRS = ();

    type Statement = Statement;

    type Witness = Witness;

    type Proof = Proof;

    open spec fn wf_crs(crs: &()) -> bool {
        true
    }

    open spec fn relation(crs: &(), x: &Statement, w: &Witness) -> bool {
        pok_relation(
            point_log(x.gs),
            point_log(x.x),
            point_log(x.pk),
            scalar_val(x.e),
            scalar_val(x.ct),
            x.msg@,
            scalar_val(w.sig),
            scalar_val(w.w),
        )
    }

    open spec fn accepts(crs: &(), x: &Statement, p: &Proof) -> bool {
        pok_accepts(
            point_log(x.gs),
            point_log(x.x),
            point_log(x.pk),
            scalar_val(x.e),
            scalar_val(x.ct),
            x.msg@,
            point_log(p.a.0),
            point_log(p.a.1),
            scalar_val(p.r.0),
            scalar_val(p.r.1),
        )
    }

    fn crs_gen() -> (crs: ()) {
        ()
    }

    fn prove(crs: &(), x: &Statement, w: &Witness) -> (p: Proof) {
        let g = point_generator();
        let u1 = scalar_random_nonzero();
        let u2 = scalar_random_nonzero();
        let a1 = point_mul(&g, &u1);
        let a2 = point_mul(&g, &u2);
        let c = pok_challenge(&a1, &a2, &x.gs, &x.x, &x.pk, &x.e, &x.ct, x.msg.as_str());
        let sigc = scalar_mul(&w.sig, &c);
        let r1 = scalar_add(&u1, &sigc);
        let wc = scalar_mul(&w.w, &c);
        let r2 = scalar_add(&u2, &wc);
        proof {
            lemma_fmul_comm(scalar_val(w.sig), scalar_val(c));
            lemma_sigma_linear(1, scalar_val(u1), scalar_val(c), scalar_val(w.sig));
            lemma_fmul_comm(scalar_val(w.w), scalar_val(c));
            lemma_sigma_linear(1, scalar_val(u2), scalar_val(c), scalar_val(w.w));
        }
        Proof { a: (a1, a2), r: (r1, r2) }
    }

    fn verify(crs: &(), x: &Statement, p: &Proof) -> (r: bool) {
        let g = point_generator();
        let pke = point_mul(&x.pk, &x.e);
        let rv = point_add(&x.gs, &pke);
        let ev = schnorr_challenge(&rv, x.msg.as_str());
        let c = pok_challenge(&p.a.0, &p.a.1, &x.gs, &x.x, &x.pk, &x.e, &x.ct, x.msg.as_str());
        let gct = point_mul(&g, &x.ct);
        let xgs = point_add(&x.x, &x.gs);
        let gr1 = point_mul(&g, &p.r.0);
        let gsc = point_mul(&x.gs, &c);
        let rhs1 = point_add(&p.a.0, &gsc);
        let gr2 = point_mul(&g, &p.r.1);
        let xc = point_mul(&x.x, &c);
        let rhs2 = point_add(&p.a.1, &xc);
        let b1 = point_eq(&gct, &xgs);
        let b2 = scalar_eq(&ev, &x.e);
        let b3 = point_eq(&gr1, &rhs1);
        let b4 = point_eq(&gr2, &rhs2);
        b1 && b2 && b3 && b4
    }
}

} // verus!
