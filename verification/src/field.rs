//! Arithmetic of the scalar field Z_q, where q is the (prime) order of the
//! secp256k1 group.
//!
//! Every curve point is abstracted by its discrete logarithm with respect to
//! the fixed generator, and every scalar by its canonical integer value, so
//! all group and field reasoning in this crate reduces to modular arithmetic
//! over the naturals below `group_order()`. This module holds that arithmetic
//! and the lemmas the proof obligations need.

use vstd::prelude::*;
use vstd::arithmetic::div_mod::{
    lemma_add_mod_noop, lemma_add_mod_noop_right, lemma_mod_twice, lemma_mod_multiples_basic, lemma_mod_self_0,
    lemma_mul_mod_noop_general, lemma_small_mod,
};
use vstd::arithmetic::mul::{lemma_mul_is_associative, lemma_mul_is_distributive_add};

verus! {

/// The order q of the secp256k1 group and of its scalar field.
pub open spec fn group_order() -> nat {
    0xFFFFFFFFFFFFFFFFFFFFFFFFFFFFFFFEBAAEDCE6AF48A03BBFD25E8CD0364141nat
}

/// Addition in Z_q.
pub open spec fn fadd(a: nat, b: nat) -> nat {
    (a + b) % group_order()
}

/// Multiplication in Z_q.
pub open spec fn fmul(a: nat, b: nat) -> nat {
    (a * b) % group_order()
}

/// Additive inverse in Z_q.
pub open spec fn fneg(a: nat) -> nat {
    (((group_order() - a % group_order()) % (group_order() as int)) as nat)
}

/// Subtraction in Z_q.
pub open spec fn fsub(a: nat, b: nat) -> nat {
    fadd(a, fneg(b))
}

/// A canonical field element: a natural number below q.
pub open spec fn in_field(a: nat) -> bool {
    a < group_order()
}

pub proof fn lemma_fadd_comm(a: nat, b: nat)
    ensures
        fadd(a, b) == fadd(b, a),
{
}

pub proof fn lemma_fadd_assoc(a: nat, b: nat, c: nat)
    ensures
        fadd(fadd(a, b), c) == fadd(a, fadd(b, c)),
{
    let q = group_order() as int;
    lemma_add_mod_noop_right(c as int, (a + b) as int, q);
    lemma_add_mod_noop_right(a as int, (b + c) as int, q);
}

pub proof fn lemma_fmul_comm(a: nat, b: nat)
    ensures
        fmul(a, b) == fmul(b, a),
{
    assert(a * b == b * a) by (nonlinear_arith);
}

pub proof fn lemma_fmul_assoc(a: nat, b: nat, c: nat)
    ensures
        fmul(fmul(a, b), c) == fmul(a, fmul(b, c)),
{
    let q = group_order() as int;
    lemma_mul_mod_noop_general((a * b) as int, c as int, q);
    lemma_mul_mod_noop_general(a as int, (b * c) as int, q);
    lemma_mul_is_associative(a as int, b as int, c as int);
}

/// Multiplication distributes over addition in Z_q.
pub proof fn lemma_fmul_distrib(a: nat, b: nat, c: nat)
    ensures
        fmul(a, fadd(b, c)) == fadd(fmul(a, b), fmul(a, c)),
{
    let q = group_order() as int;
    lemma_mul_mod_noop_general(a as int, (b + c) as int, q);
    lemma_mul_is_distributive_add(a as int, b as int, c as int);
    lemma_add_mod_noop((a * b) as int, (a * c) as int, q);
}

/// Reducing a canonical element is the identity.
pub proof fn lemma_mod_small(a: nat)
    requires
        in_field(a),
    ensures
        a % group_order() == a,
{
    lemma_small_mod(a, group_order());
}

/// a + (-a) == 0 in Z_q.
pub proof fn lemma_fadd_fneg(a: nat)
    ensures
        fadd(a, fneg(a)) == 0,
{
    let q = group_order() as int;
    let r = (a % group_order()) as int;
    lemma_add_mod_noop(a as int, (q - r) as int, q);
    lemma_mod_twice(a as int, q);
    lemma_mod_twice((q - r) as int, q);
    if r == 0 {
        lemma_mod_self_0(q);
    } else {
        lemma_small_mod((q - r) as nat, q as nat);
        lemma_mod_self_0(q);
    }
}

/// (a - b) + b == a mod q; on canonical a it recovers a itself.
pub proof fn lemma_fsub_fadd_cancel(a: nat, b: nat)
    ensures
        fadd(fsub(a, b), b) == a % group_order(),
{
    let q = group_order() as int;
    lemma_fadd_assoc(a, fneg(b), b);
    lemma_fadd_fneg(b);
    lemma_fadd_comm(fneg(b), b);
    lemma_add_mod_noop(a as int, 0, q);
    lemma_mod_twice(a as int, q);
}

/// a * (-b) == -(a * b) in Z_q.
pub proof fn lemma_fmul_fneg(a: nat, b: nat)
    ensures
        fmul(a, fneg(b)) == fneg(fmul(a, b)),
{
    let q = group_order() as int;
    let r = (b % group_order()) as int;
    lemma_mul_mod_noop_general(a as int, (q - r) as int, q);
    assert(a * (q - r) == a * q - a * r) by (nonlinear_arith);
    lemma_mul_mod_noop_general(a as int, b as int, q);
    assert((a * (q - r)) % q == (a * q - a * r) % q);
    lemma_mod_sub_multiple(a as int, (a * r) as int, q);
    assert(((a * q - a * r) % q) == ((- (a * r)) % q));
    lemma_mod_neg((a as int) * r, q);
    lemma_mul_mod_noop_general(a as int, r as int, q);
}

/// (c * q + x) % q == x % q.
proof fn lemma_mod_sub_multiple(c: int, x: int, q: int)
    requires
        q > 0,
    ensures
        (c * q - x) % q == (-x) % q,
{
    lemma_add_mod_noop(c * q, -x, q);
    lemma_mod_multiples_basic(c, q);
    lemma_mod_twice(-x, q);
}

/// (-x) % q == (q - x % q) % q.
proof fn lemma_mod_neg(x: int, q: int)
    requires
        q > 0,
        x >= 0,
    ensures
        (-x) % q == (q - x % q) % q,
{
    let r = x % q;
    lemma_add_mod_noop(-x, x + q, q);
    lemma_mod_multiples_vanish(x, q);
    lemma_add_mod_noop(q - r, r, q);
    lemma_mod_twice(x, q);
    lemma_mod_self_0(q);
    lemma_add_mod_noop(q - r, x, q);
    lemma_mod_twice(q - r, q);
    assert((-x + (x + q)) % q == q % q);
    assert(((-x) % q + (x + q) % q) % q == 0);
    lemma_mod_vanish_add(-x, x + q, q);
}

/// Adding one multiple of q does not change a remainder.
proof fn lemma_mod_multiples_vanish(x: int, q: int)
    requires
        q > 0,
        x >= 0,
    ensures
        (x + q) % q == x % q,
{
    lemma_add_mod_noop(x, q, q);
    lemma_mod_self_0(q);
    lemma_mod_twice(x, q);
}

/// If (a + b) % q == 0 and 0 <= b % q, then a % q == (q - b % q) % q.
proof fn lemma_mod_vanish_add(a: int, b: int, q: int)
    requires
        q > 0,
        (a + b) % q == 0,
    ensures
        a % q == (q - b % q) % q,
{
    let ra = a % q;
    let rb = b % q;
    lemma_add_mod_noop(a, b, q);
    lemma_mod_twice(a, q);
    lemma_mod_twice(b, q);
    assert((ra + rb) % q == 0);
    vstd::arithmetic::div_mod::lemma_mod_bound(a, q);
    vstd::arithmetic::div_mod::lemma_mod_bound(b, q);
    if ra + rb == 0 {
        assert(ra == 0 && rb == 0);
        lemma_mod_self_0(q);
        lemma_small_mod(0nat, q as nat);
        assert((q - rb) % q == q % q);
    } else if ra + rb < q {
        lemma_small_mod((ra + rb) as nat, q as nat);
        assert(false);
    } else {
        lemma_mod_multiples_vanish(ra + rb - q, q);
        lemma_small_mod((ra + rb - q) as nat, q as nat);
        assert(ra + rb == q);
        assert(rb > 0);
        lemma_small_mod((q - rb) as nat, q as nat);
    }
}

/// Reducing the left operand first does not change a sum in Z_q.
pub proof fn lemma_fadd_mod_left(a: nat, b: nat)
    ensures
        fadd(a % group_order(), b) == fadd(a, b),
{
    let q = group_order() as int;
    lemma_add_mod_noop_right(b as int, a as int, q);
}

/// Reducing the right operand first does not change a sum in Z_q.
pub proof fn lemma_fadd_mod_right(a: nat, b: nat)
    ensures
        fadd(a, b % group_order()) == fadd(a, b),
{
    let q = group_order() as int;
    lemma_add_mod_noop_right(a as int, b as int, q);
}

/// Reducing the left factor first does not change a product in Z_q.
pub proof fn lemma_fmul_mod_left(a: nat, b: nat)
    ensures
        fmul(a % group_order(), b) == fmul(a, b),
{
    let q = group_order() as int;
    lemma_mul_mod_noop_general(a as int, b as int, q);
}

/// Zero is neutral up to reduction.
pub proof fn lemma_fadd_zero(a: nat)
    ensures
        fadd(a, 0) == a % group_order(),
{
}

/// Adding w and then subtracting the addend recovers w: (z + w) - z == w
/// for canonical w.
pub proof fn lemma_fadd_then_fsub(z: nat, w: nat)
    requires
        in_field(w),
    ensures
        fsub(fadd(z, w), z) == w,
{
    lemma_fadd_comm(z, w);
    lemma_fadd_mod_left(w, fneg(z));
    lemma_fadd_assoc(w, z, fneg(z));
    lemma_fadd_fneg(z);
    lemma_fadd_zero(w);
    lemma_mod_small(w);
}

/// The linear response check of a sigma protocol: responding with
/// r = u + c * w satisfies g^r == g^u * (g^w)^c, stated over logarithms.
pub proof fn lemma_sigma_linear(g: nat, u: nat, c: nat, w: nat)
    ensures
        fmul(g, fadd(u, fmul(c, w))) == fadd(fmul(g, u), fmul(fmul(g, w), c)),
{
    lemma_fmul_distrib(g, u, fmul(c, w));
    lemma_fmul_assoc(g, c, w);
    lemma_fmul_comm(c, w);
    lemma_fmul_assoc(g, w, c);
    lemma_fmul_comm(g, fmul(c, w));
    lemma_fmul_comm(fmul(c, w), g);
    let q = group_order() as int;
    lemma_mul_mod_noop_general(g as int, (c * w) as int, q);
    lemma_mul_mod_noop_general((g * w) as int, c as int, q);
    assert(g * (c * w) == (g * w) * c) by (nonlinear_arith);
    lemma_mul_mod_noop_general(g as int, (w * c) as int, q);
    assert(g * (w * c) == (g * w) * c) by (nonlinear_arith);
}

} // verus!
