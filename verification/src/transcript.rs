//! Fiat-Shamir challenge derivation.
//!
//! Every challenge in this crate is SHA-256 over a fixed, ordered tuple of
//! transcript elements (points contribute their affine x-coordinate bytes,
//! scalars their field bytes), reduced to a scalar below the group order.
//! Prover and verifier of each scheme call the same function here, so their
//! hash inputs cannot drift apart.
//!
//! A digest is a function of the hashed tuple alone, and in a cyclic group
//! the x-coordinate bytes of a point are a function of its exponent, so
//! each challenge is named by an uninterpreted function of the exponents,
//! scalar values and message in its tuple. Nothing more is assumed of the
//! hash than determinism and that the reduced result lies below the group
//! order (the order exceeds half the 256-bit range, so k256's `Reduce`
//! brings any 256-bit digest below it by subtracting it at most once).

use vstd::prelude::*;
use k256::elliptic_curve::ops::Reduce;
use k256::elliptic_curve::point::AffineCoordinates;
use k256::sha2::Digest;
use crate::field::group_order;
use crate::group::{point_log, scalar_val};

verus! {

/// The challenge of the discrete-logarithm sigma protocol, from the
/// exponents of the generator, the statement and the commitment.
pub uninterp spec fn dlog_challenge_of(g: nat, x: nat, a: nat) -> nat;

/// The challenge of a plain Schnorr signature, from the exponent of the
/// nonce commitment and the message.
pub uninterp spec fn schnorr_challenge_of(r: nat, msg: Seq<char>) -> nat;

/// The challenge of an adaptor signature, from the exponents of the public
/// key and the (shifted) nonce commitment, and the message.
pub uninterp spec fn adaptor_challenge_of(pk: nat, r: nat, msg: Seq<char>) -> nat;

/// The challenge of the signature-knowledge proof, from the exponents of
/// the two commitments and the statement's components.
pub uninterp spec fn pok_challenge_of(
    a1: nat,
    a2: nat,
    gs: nat,
    x: nat,
    pk: nat,
    e: nat,
    ct: nat,
    msg: Seq<char>,
) -> nat;

/// The challenge of the disjunctive proof, from the exponents of the three
/// commitments and the statement's components.
pub uninterp spec fn or_challenge_of(
    a_g: nat,
    a_h: nat,
    a_sig: nat,
    gs: nat,
    x: nat,
    pk: nat,
    e: nat,
    msg: Seq<char>,
) -> nat;

/// Relies on SHA-256 (via k256's sha2 re-export) and k256's scalar
/// reduction: deterministic in the tuple, result below the group order.
#[verifier::external_body]
pub(crate) fn dlog_challenge(
    g: &k256::ProjectivePoint,
    x: &k256::ProjectivePoint,
    a: &k256::ProjectivePoint,
) -> (c: k256::Scalar)
    ensures
        scalar_val(c) == dlog_challenge_of(point_log(*g), point_log(*x), point_log(*a)),
        scalar_val(c) < group_order(),
{
    let digest = k256::sha2::Sha256::new()
        .chain_update(g.to_affine().x())
        .chain_update(x.to_affine().x())
        .chain_update(a.to_affine().x())
        .finalize();
    <k256::Scalar as Reduce<k256::U256>>::reduce_bytes(&digest)
}

/// Relies on SHA-256 and k256's scalar reduction: deterministic in the
/// tuple, result below the group order.
#[verifier::external_body]
pub(crate) fn schnorr_challenge(r: &k256::ProjectivePoint, msg: &str) -> (c: k256::Scalar)
    ensures
        scalar_val(c) == schnorr_challenge_of(point_log(*r), msg@),
        scalar_val(c) < group_order(),
{
    let digest = k256::sha2::Sha256::new()
        .chain_update(r.to_affine().x())
        .chain_update(msg)
        .finalize();
    <k256::Scalar as Reduce<k256::U256>>::reduce_bytes(&digest)
}

/// Relies on SHA-256 and k256's scalar reduction: deterministic in the
/// tuple, result below the group order.
#[verifier::external_body]
pub(crate) fn adaptor_challenge(
    pk: &k256::ProjectivePoint,
    r: &k256::ProjectivePoint,
    msg: &str,
) -> (c: k256::Scalar)
    ensures
        scalar_val(c) == adaptor_challenge_of(point_log(*pk), point_log(*r), msg@),
        scalar_val(c) < group_order(),
{
    let digest = k256::sha2::Sha256::new()
        .chain_update(pk.to_affine().x())
        .chain_update(r.to_affine().x())
        .chain_update(msg)
        .finalize();
    <k256::Scalar as Reduce<k256::U256>>::reduce_bytes(&digest)
}

/// Relies on SHA-256 and k256's scalar reduction: deterministic in the
/// tuple, result below the group order.
#[verifier::external_body]
pub(crate) fn pok_challenge(
    a1: &k256::ProjectivePoint,
    a2: &k256::ProjectivePoint,
    gs: &k256::ProjectivePoint,
    x: &k256::ProjectivePoint,
    pk: &k256::ProjectivePoint,
    e: &k256::Scalar,
    ct: &k256::Scalar,
    msg: &str,
) -> (c: k256::Scalar)
    ensures
        scalar_val(c) == pok_challenge_of(
            point_log(*a1),
            point_log(*a2),
            point_log(*gs),
            point_log(*x),
            point_log(*pk),
            scalar_val(*e),
            scalar_val(*ct),
            msg@,
        ),
        scalar_val(c) < group_order(),
{
    let digest = k256::sha2::Sha256::new()
        .chain_update(a1.to_affine().x())
        .chain_update(a2.to_affine().x())
        .chain_update(gs.to_affine().x())
        .chain_update(x.to_affine().x())
        .chain_update(pk.to_affine().x())
        .chain_update(e.to_bytes())
        .chain_update(ct.to_bytes())
        .chain_update(msg)
        .finalize();
    <k256::Scalar as Reduce<k256::U256>>::reduce_bytes(&digest)
}

/// Relies on SHA-256 and k256's scalar reduction: deterministic in the
/// tuple, result below the group order.
#[verifier::external_body]
pub(crate) fn or_challenge(
    a_g: &k256::ProjectivePoint,
    a_h: &k256::ProjectivePoint,
    a_sig: &k256::ProjectivePoint,
    gs: &k256::ProjectivePoint,
    x: &k256::ProjectivePoint,
    pk: &k256::ProjectivePoint,
    e: &k256::Scalar,
    msg: &str,
) -> (c: k256::Scalar)
    ensures
        scalar_val(c) == or_challenge_of(
            point_log(*a_g),
            point_log(*a_h),
            point_log(*a_sig),
            point_log(*gs),
            point_log(*x),
            point_log(*pk),
            scalar_val(*e),
            msg@,
        ),
        scalar_val(c) < group_order(),
{
    let digest = k256::sha2::Sha256::new()
        .chain_update(a_g.to_affine().x())
        .chain_update(a_h.to_affine().x())
        .chain_update(a_sig.to_affine().x())
        .chain_update(gs.to_affine().x())
        .chain_update(x.to_affine().x())
        .chain_update(pk.to_affine().x())
        .chain_update(e.to_bytes())
        .chain_update(msg)
        .finalize();
    <k256::Scalar as Reduce<k256::U256>>::reduce_bytes(&digest)
}

} // verus!
