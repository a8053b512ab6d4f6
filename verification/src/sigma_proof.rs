//! The sigma protocol for knowledge of a discrete logarithm, made
//! non-interactive by the Fiat-Shamir transform.
//!
//! The prover commits to a = g^u for fresh random u, derives the challenge
//! c from (g, x, a), and responds with r = u + c*w. The verifier recomputes
//! c and checks g^r == a * x^c.

use vstd::prelude::*;
use crate::field::{fadd, fmul, lemma_sigma_linear};
use crate::group::{
    point_add, point_eq, point_generator, point_log, point_mul, scalar_add, scalar_mul,
    scalar_random_nonzero, scalar_val,
};
use crate::hard_relation::dlog_relation;
use crate::nizk::NIZK;
use crate::transcript::{dlog_challenge, dlog_challenge_of};

verus! {

/// The discrete-logarithm sigma proof over secp256k1 with SHA-256
/// challenges.
pub struct DLogSigmaProof;

/// The verifier's equation over exponents: g^r == a * x^c for the
/// Fiat-Shamir challenge c of (g, x, a). The base of the response side is
/// the fixed generator, exponent one.
pub open spec fn dlog_sigma_verifies(g: nat, x: nat, a: nat, r: nat) -> bool {
    fmul(1, r) == fadd(a, fmul(x, dlog_challenge_of(g, x, a)))
}

impl NIZK for DLogSigmaProof {
    type CRS = k256::ProjectivePoint;

    type Statement = k256::ProjectivePoint;

    type Witness = k256::Scalar;

    type Proof = (k256::ProjectivePoint, k256::Scalar);

    open spec fn wf_crs(crs: &k256::ProjectivePoint) -> bool {
        point_log(*crs) == 1
    }

    open spec fn relation(
        crs: &k256::ProjectivePoint,
        x: &k256::ProjectivePoint,
        w: &k256::Scalar,
    ) -> bool {
        dlog_relation(point_log(*crs), scalar_val(*w), point_log(*x))
    }

    open spec fn accepts(
        crs: &k256::ProjectivePoint,
        x: &k256::ProjectivePoint,
        p: &(k256::ProjectivePoint, k256::Scalar),
    ) -> bool {
        dlog_sigma_verifies(point_log(*crs), point_log(*x), point_log(p.0), scalar_val(p.1))
    }

    fn crs_gen() -> (crs: k256::ProjectivePoint) {
        point_generator()
    }

    fn prove(
        crs: &k256::ProjectivePoint,
        x: &k256::ProjectivePoint,
        w: &k256::Scalar,
    ) -> (p: (k256::ProjectivePoint, k256::Scalar)) {
        let u = scalar_random_nonzero();
        let a = point_mul(crs, &u);
        let c = dlog_challenge(crs, x, &a);
        let cw = scalar_mul(&c, w);
        let r = scalar_add(&u, &cw);
        proof {
            lemma_sigma_linear(1, scalar_val(u), scalar_val(c), scalar_val(*w));
        }
        (a, r)
    }

    fn verify(
        crs: &k256::ProjectivePoint,
        x: &k256::ProjectivePoint,
        p: &(k256::ProjectivePoint, k256::Scalar),
    ) -> (r: bool) {
        let c = dlog_challenge(crs, x, &p.0);
        let g = point_generator();
        let lhs = point_mul(&g, &p.1);
        let xc = point_mul(x, &c);
        let rhs = point_add(&p.0, &xc);
        point_eq(&lhs, &rhs)
    }
}

} // verus!
