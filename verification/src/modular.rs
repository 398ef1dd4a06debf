//! The field operations as functions on natural numbers, and what holds of
//! them.

use crate::params::{modulus, modulus_minus_one_div_two};
use vstd::arithmetic::div_mod::*;
use vstd::arithmetic::mul::*;
use vstd::arithmetic::power::*;
use vstd::prelude::*;

verus! {

/// The sum of two residues.
pub open spec fn fq_add(a: nat, b: nat) -> nat {
    (a + b) % modulus()
}

/// The difference of two residues.
pub open spec fn fq_sub(a: nat, b: nat) -> nat {
    ((a - b) % (modulus() as int)) as nat
}

/// The additive inverse of a residue.
pub open spec fn fq_neg(a: nat) -> nat {
    ((0 - a) % (modulus() as int)) as nat
}

/// The product of two residues.
pub open spec fn fq_mul(a: nat, b: nat) -> nat {
    (a * b) % modulus()
}

/// The square of a residue.
pub open spec fn fq_square(a: nat) -> nat {
    fq_mul(a, a)
}

/// A residue raised to a power.
pub open spec fn fq_pow(a: nat, e: nat) -> nat {
    (pow(a as int, e) % (modulus() as int)) as nat
}

/// That `c` is the canonical multiplicative inverse of `a`.
pub open spec fn fq_is_inverse(a: nat, c: nat) -> bool {
    c < modulus() && fq_mul(a, c) == 1
}

/// That `a` has a multiplicative inverse.
pub open spec fn fq_invertible(a: nat) -> bool {
    exists|c: nat| fq_is_inverse(a, c)
}

/// The multiplicative inverse of a residue, where it has one.
pub open spec fn fq_inverse(a: nat) -> Option<nat> {
    if fq_invertible(a) {
        Some(choose|c: nat| fq_is_inverse(a, c))
    } else {
        None
    }
}

/// The quotient of two residues, where the divisor has an inverse.
pub open spec fn fq_div(a: nat, b: nat) -> Option<nat> {
    match fq_inverse(b) {
        Some(c) => Some(fq_mul(a, c)),
        None => None,
    }
}

/// Euler's criterion: the residue raised to half of the modulus minus one is
/// zero or one.
pub open spec fn fq_is_square(a: nat) -> bool {
    fq_pow(a, modulus_minus_one_div_two()) == 0 || fq_pow(a, modulus_minus_one_div_two()) == 1
}

/// That `a` is the square of some residue.
pub open spec fn fq_has_root(a: nat) -> bool {
    exists|c: nat| c < modulus() && fq_square(c) == a
}

/// That `c` is the square root of `a` in the lower half of the field.
pub open spec fn fq_is_sqrt(a: nat, c: nat) -> bool {
    2 * c < modulus() && fq_square(c) == a
}

/// The square root of a residue in the lower half of the field, where the
/// residue meets Euler's criterion and has such a root.
pub open spec fn fq_sqrt(a: nat) -> Option<nat> {
    if fq_is_square(a) && exists|c: nat| fq_is_sqrt(a, c) {
        Some(choose|c: nat| fq_is_sqrt(a, c))
    } else {
        None
    }
}

/// Reducing a factor beforehand does not change a product.
pub proof fn lemma_fq_mul_reduced(a: nat, b: nat)
    ensures
        fq_mul(a % modulus(), b) == fq_mul(a, b),
        fq_mul(a, b % modulus()) == fq_mul(a, b),
{
    lemma_mul_mod_noop_left(a as int, b as int, modulus() as int);
    lemma_mul_mod_noop_right(a as int, b as int, modulus() as int);
}

/// Multiplication is commutative.
pub proof fn lemma_fq_mul_commutative(a: nat, b: nat)
    ensures
        fq_mul(a, b) == fq_mul(b, a),
{
    lemma_mul_is_commutative(a as int, b as int);
}

/// Multiplication is associative.
pub proof fn lemma_fq_mul_associative(a: nat, b: nat, c: nat)
    ensures
        fq_mul(fq_mul(a, b), c) == fq_mul(a, fq_mul(b, c)),
{
    lemma_fq_mul_reduced(a * b, c);
    lemma_fq_mul_reduced(a, b * c);
    lemma_mul_is_associative(a as int, b as int, c as int);
}

/// One is the identity of multiplication.
pub proof fn lemma_fq_mul_one(a: nat)
    requires
        a < modulus(),
    ensures
        fq_mul(a, 1) == a,
        fq_mul(1, a) == a,
{
    lemma_small_mod(a, modulus());
}

/// A residue to the power zero is one.
pub proof fn lemma_fq_pow_zero(a: nat)
    ensures
        fq_pow(a, 0) == 1,
{
    lemma_pow0(a as int);
}

/// A residue to the power one is the residue.
pub proof fn lemma_fq_pow_one(a: nat)
    ensures
        fq_pow(a, 1) == a % modulus(),
{
    lemma_pow1(a as int);
}

/// Powers of one residue multiply by adding the exponents.
pub proof fn lemma_fq_pow_adds(a: nat, x: nat, y: nat)
    ensures
        fq_mul(fq_pow(a, x), fq_pow(a, y)) == fq_pow(a, x + y),
{
    let p = modulus() as int;
    lemma_mul_mod_noop(pow(a as int, x), pow(a as int, y), p);
    lemma_pow_adds(a as int, x, y);
}

/// A power of a power is the power to the product of the exponents.
pub proof fn lemma_fq_pow_multiplies(a: nat, x: nat, y: nat)
    ensures
        fq_pow(fq_pow(a, x), y) == fq_pow(a, x * y),
{
    let p = modulus() as int;
    lemma_pow_mod_noop(pow(a as int, x), y, p);
    lemma_pow_multiplies(a as int, x, y);
}

/// The square is the power two.
pub proof fn lemma_fq_square_is_pow(a: nat)
    ensures
        fq_square(a) == fq_pow(a, 2),
{
    lemma_square_is_pow2(a as int);
}

/// A power of a product is the product of the powers.
pub proof fn lemma_fq_pow_distributes(a: nat, b: nat, e: nat)
    ensures
        fq_pow(fq_mul(a, b), e) == fq_mul(fq_pow(a, e), fq_pow(b, e)),
{
    let p = modulus() as int;
    lemma_pow_mod_noop(a as int * b as int, e, p);
    lemma_pow_distributes(a as int, b as int, e);
    lemma_mul_mod_noop(pow(a as int, e), pow(b as int, e), p);
}

/// A power of one is one.
pub proof fn lemma_fq_pow_of_one(e: nat)
    ensures
        fq_pow(1, e) == 1,
{
    lemma1_pow(e);
}

/// Twice a number is congruent to twice another only if the two are
/// congruent: the modulus is odd.
pub proof fn lemma_cancel_two(x: int, y: int)
    requires
        (2 * x) % (modulus() as int) == (2 * y) % (modulus() as int),
    ensures
        x % (modulus() as int) == y % (modulus() as int),
{
    let p = modulus() as int;
    let z = x - y;
    lemma_mod_equivalence(2 * x, 2 * y, p);
    assert(2 * x - 2 * y == 2 * z);
    lemma_fundamental_div_mod(2 * z, p);
    let k = (2 * z) / p;
    let half = k - (z - modulus_minus_one_div_two() * k);
    assert(k == 2 * half);
    assert(z == half * p);
    lemma_mod_multiples_basic(half, p);
    lemma_mod_equivalence(x, y, p);
}

/// A residue has at most one canonical inverse.
pub proof fn lemma_inverse_unique(a: nat, c: nat, d: nat)
    requires
        fq_is_inverse(a, c),
        fq_is_inverse(a, d),
    ensures
        c == d,
{
    lemma_fq_mul_associative(c, a, d);
    lemma_fq_mul_commutative(c, a);
    lemma_fq_mul_one(c);
    lemma_fq_mul_one(d);
}

/// The inverse of a residue is whatever canonical inverse it has.
pub proof fn lemma_inverse_is(a: nat, c: nat)
    requires
        fq_is_inverse(a, c),
    ensures
        fq_inverse(a) == Some(c),
        fq_invertible(a),
{
    let chosen = choose|x: nat| fq_is_inverse(a, x);
    lemma_inverse_unique(a, c, chosen);
}

/// Zero has no inverse.
pub proof fn lemma_zero_not_invertible()
    ensures
        !fq_invertible(0),
        fq_inverse(0) is None,
{
    assert forall|c: nat| !fq_is_inverse(0, c) by {
        lemma_mul_basics(c as int);
    }
}

/// Halving keeps a congruence: with `a * b` congruent to the even number
/// `u`, and twice `h` congruent to `b`, the product `a * h` is congruent to
/// half of `u`.
pub proof fn lemma_halving_keeps_congruence(a: nat, b: nat, h: nat, u: nat)
    requires
        fq_mul(a, b) == u % modulus(),
        (2 * h) % modulus() == b % modulus(),
        u % 2 == 0,
    ensures
        fq_mul(a, h) == (u / 2) % modulus(),
{
    let p = modulus() as int;
    let a_int = a as int;
    lemma_mul_mod_noop_right(a_int, 2 * h as int, p);
    lemma_mul_mod_noop_right(a_int, b as int, p);
    assert(a_int * (2 * h as int) == 2 * (a_int * h as int)) by (nonlinear_arith);
    assert(u == 2 * (u / 2));
    lemma_cancel_two(a_int * h as int, (u / 2) as int);
}

/// Subtracting keeps a congruence: with `a * b` congruent to `u` and
/// `a * c` congruent to `v`, the product of `a` and the difference of `b`
/// and `c` is congruent to `u - v`.
pub proof fn lemma_subtracting_keeps_congruence(a: nat, b: nat, c: nat, u: nat, v: nat)
    requires
        fq_mul(a, b) == u % modulus(),
        fq_mul(a, c) == v % modulus(),
        v <= u,
    ensures
        fq_mul(a, fq_sub(b, c)) == ((u - v) as nat) % modulus(),
{
    let p = modulus() as int;
    let a_int = a as int;
    lemma_mul_mod_noop_right(a_int, b as int - c as int, p);
    lemma_mul_is_distributive_sub(a_int, b as int, c as int);
    lemma_sub_mod_noop(a_int * b as int, a_int * c as int, p);
    lemma_sub_mod_noop(u as int, v as int, p);
}

} // verus!
