//! The algebraic substrate: the secp256k1 group and its scalar field, as
//! implemented by the k256 crate.
//!
//! The group is cyclic of prime order q (`field::group_order`), so every
//! point is a unique power of the fixed generator and every point is
//! abstracted here by that exponent, `point_log`; every scalar is abstracted
//! by its canonical integer value, `scalar_val`. Under this abstraction each
//! group operation is ordinary modular arithmetic, which is exactly what the
//! contracts of the wrappers below state. Each wrapper's contract is a
//! theorem of arithmetic in a cyclic group of order q, read off the k256
//! sources: scalar operations reduce modulo the group order, point
//! operations are the group law.

use vstd::prelude::*;
use crate::field::{fadd, fmul, fneg, fsub, group_order};

verus! {

#[verifier::external_type_specification]
#[verifier::external_body]
pub struct ExScalar(k256::Scalar);

#[verifier::external_type_specification]
#[verifier::external_body]
pub struct ExPoint(k256::ProjectivePoint);

/// The canonical integer value of a scalar, a natural number below the
/// group order.
pub uninterp spec fn scalar_val(s: k256::Scalar) -> nat;

/// The discrete logarithm of a point with respect to the fixed generator:
/// the unique exponent below the group order. Well defined because the
/// group is cyclic of prime order.
pub uninterp spec fn point_log(p: k256::ProjectivePoint) -> nat;

/// Relies on k256 scalar addition: addition modulo the group order.
#[verifier::external_body]
pub(crate) fn scalar_add(a: &k256::Scalar, b: &k256::Scalar) -> (r: k256::Scalar)
    ensures
        scalar_val(r) == fadd(scalar_val(*a), scalar_val(*b)),
{
    *a + *b
}

/// Relies on k256 scalar subtraction: subtraction modulo the group order.
#[verifier::external_body]
pub(crate) fn scalar_sub(a: &k256::Scalar, b: &k256::Scalar) -> (r: k256::Scalar)
    ensures
        scalar_val(r) == fsub(scalar_val(*a), scalar_val(*b)),
{
    *a - *b
}

/// Relies on k256 scalar multiplication: multiplication modulo the group
/// order.
#[verifier::external_body]
pub(crate) fn scalar_mul(a: &k256::Scalar, b: &k256::Scalar) -> (r: k256::Scalar)
    ensures
        scalar_val(r) == fmul(scalar_val(*a), scalar_val(*b)),
{
    *a * *b
}

/// Relies on k256 scalar negation: the additive inverse modulo the group
/// order.
#[verifier::external_body]
pub(crate) fn scalar_neg(a: &k256::Scalar) -> (r: k256::Scalar)
    ensures
        scalar_val(r) == fneg(scalar_val(*a)),
{
    -*a
}

/// Relies on k256 scalar equality: scalars are equal exactly when their
/// canonical values are.
#[verifier::external_body]
pub(crate) fn scalar_eq(a: &k256::Scalar, b: &k256::Scalar) -> (r: bool)
    ensures
        r <==> scalar_val(*a) == scalar_val(*b),
{
    a == b
}

/// Relies on NonZeroScalar::random: a uniformly random scalar that is
/// never zero. Nothing is assumed about which value comes back, only that
/// it is a canonical nonzero field element.
#[verifier::external_body]
pub(crate) fn scalar_random_nonzero() -> (r: k256::Scalar)
    ensures
        1 <= scalar_val(r) < group_order(),
{
    *k256::elliptic_curve::NonZeroScalar::<k256::Secp256k1>::random(&mut rand_core::OsRng)
}

/// Relies on NonZeroScalar::new, which accepts exactly the nonzero
/// scalars. The nonzero test runs in constant time inside subtle's
/// machinery; converting its result exposes only the presence bit.
#[verifier::external_body]
pub(crate) fn scalar_into_nonzero(s: &k256::Scalar) -> (r: Option<k256::Scalar>)
    ensures
        match r {
            Some(w) => w == *s && scalar_val(*s) != 0,
            None => scalar_val(*s) == 0,
        },
{
    Option::<k256::elliptic_curve::NonZeroScalar<k256::Secp256k1>>::from(
        k256::elliptic_curve::NonZeroScalar::<k256::Secp256k1>::new(*s),
    ).map(|nz| *nz)
}

/// Relies on ProjectivePoint::GENERATOR: the fixed generator, exponent one.
#[verifier::external_body]
pub(crate) fn point_generator() -> (r: k256::ProjectivePoint)
    ensures
        point_log(r) == 1,
{
    k256::ProjectivePoint::GENERATOR
}

/// Relies on ProjectivePoint::IDENTITY: the neutral element, exponent zero.
#[verifier::external_body]
pub(crate) fn point_identity() -> (r: k256::ProjectivePoint)
    ensures
        point_log(r) == 0,
{
    k256::ProjectivePoint::IDENTITY
}

/// Relies on k256 point addition, the group law: exponents add modulo the
/// group order.
#[verifier::external_body]
pub(crate) fn point_add(a: &k256::ProjectivePoint, b: &k256::ProjectivePoint) -> (r: k256::ProjectivePoint)
    ensures
        point_log(r) == fadd(point_log(*a), point_log(*b)),
{
    *a + *b
}

/// Relies on k256 point subtraction: exponents subtract modulo the group
/// order.
#[verifier::external_body]
pub(crate) fn point_sub(a: &k256::ProjectivePoint, b: &k256::ProjectivePoint) -> (r: k256::ProjectivePoint)
    ensures
        point_log(r) == fsub(point_log(*a), point_log(*b)),
{
    *a - *b
}

/// Relies on k256 point negation: the exponent's additive inverse.
#[verifier::external_body]
pub(crate) fn point_neg(a: &k256::ProjectivePoint) -> (r: k256::ProjectivePoint)
    ensures
        point_log(r) == fneg(point_log(*a)),
{
    -*a
}

/// Relies on k256 scalar multiplication of a point: the exponent is
/// multiplied by the scalar modulo the group order.
#[verifier::external_body]
pub(crate) fn point_mul(p: &k256::ProjectivePoint, s: &k256::Scalar) -> (r: k256::ProjectivePoint)
    ensures
        point_log(r) == fmul(point_log(*p), scalar_val(*s)),
{
    *p * *s
}

/// Relies on k256 point equality: in a cyclic group points are equal
/// exactly when their exponents are.
#[verifier::external_body]
pub(crate) fn point_eq(a: &k256::ProjectivePoint, b: &k256::ProjectivePoint) -> (r: bool)
    ensures
        r <==> point_log(*a) == point_log(*b),
{
    a == b
}

} // verus!
