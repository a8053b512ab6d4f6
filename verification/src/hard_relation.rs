//! Hard relations: predicates R(pp, w, x) over a witness w and a statement
//! x that are believed infeasible to satisfy without knowing w.
//!
//! The plain discrete-logarithm relation — w is a witness of x exactly when
//! x = pp^w for the public base point pp — is implemented here for k256
//! scalars, as the free functions carrying the contracts and as an impl of
//! the trait.

use vstd::prelude::*;
use crate::field::{fmul, group_order};
use crate::group::{
    point_eq, point_log, point_mul, scalar_random_nonzero, scalar_val,
};

verus! {

/// A hard relation over statements S and witnesses W: the predicate itself,
/// the statement a witness determines, and sampling of fresh instances.
pub trait HardRelation<S, W> {
    type PP;

    /// Whether (w; x) is in the relation, given public parameters pp.
    #[allow(non_snake_case)]
    fn R(pp: &Self::PP, w: &W, x: &S) -> bool;

    /// The statement x with R(pp, w, x) == true.
    fn statement(pp: &Self::PP, w: &W) -> S;

    /// A fresh instance: a random witness and its statement.
    fn gen(pp: &Self::PP) -> (W, S);
}

/// The discrete-logarithm relation, over exponents: w is a witness of x
/// with respect to the base point pp exactly when pp^w == x.
pub open spec fn dlog_relation(pp: nat, w: nat, x: nat) -> bool {
    fmul(pp, w) == x
}

/// Whether x == pp^w in the group.
pub fn dlog_r(pp: &k256::ProjectivePoint, w: &k256::Scalar, x: &k256::ProjectivePoint) -> (r: bool)
    ensures
        r <==> dlog_relation(point_log(*pp), scalar_val(*w), point_log(*x)),
{
    let lhs = point_mul(pp, w);
    point_eq(&lhs, x)
}

/// The statement pp^w determined by the witness w.
pub fn dlog_statement(pp: &k256::ProjectivePoint, w: &k256::Scalar) -> (x: k256::ProjectivePoint)
    ensures
        point_log(x) == fmul(point_log(*pp), scalar_val(*w)),
        dlog_relation(point_log(*pp), scalar_val(*w), point_log(x)),
{
    point_mul(pp, w)
}

/// A fresh instance of the discrete-logarithm relation: a random nonzero
/// witness together with its statement.
pub fn dlog_gen(pp: &k256::ProjectivePoint) -> (r: (k256::Scalar, k256::ProjectivePoint))
    ensures
        1 <= scalar_val(r.0) < group_order(),
        point_log(r.1) == fmul(point_log(*pp), scalar_val(r.0)),
        dlog_relation(point_log(*pp), scalar_val(r.0), point_log(r.1)),
{
    let w = scalar_random_nonzero();
    let x = dlog_statement(pp, &w);
    (w, x)
}

impl HardRelation<k256::ProjectivePoint, k256::Scalar> for k256::Scalar {
    type PP = k256::ProjectivePoint;

    fn R(pp: &Self::PP, w: &k256::Scalar, x: &k256::ProjectivePoint) -> bool {
        dlog_r(pp, w, x)
    }

    fn statement(pp: &Self::PP, w: &k256::Scalar) -> k256::ProjectivePoint {
        dlog_statement(pp, w)
    }

    fn gen(pp: &Self::PP) -> (k256::Scalar, k256::ProjectivePoint) {
        dlog_gen(pp)
    }
}

} // verus!
