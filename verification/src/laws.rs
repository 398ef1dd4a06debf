//! The laws that the operations of the field obey, over the representatives.

use crate::bigint_384::CamlBigint384;
use crate::bn_382_fq::compare_spec;
use crate::decimal::{decimal_digits, lemma_decimal_round_trip, lemma_digits_are_decimal, parse_spec};
use crate::limbs::lemma_value6_injective;
use crate::modular::{
    fq_add, fq_div, fq_inverse, fq_is_inverse, fq_is_sqrt, fq_is_square, fq_mul, fq_neg,
    fq_sqrt, fq_square, fq_sub, lemma_fq_mul_associative, lemma_fq_mul_commutative,
    lemma_fq_mul_one, lemma_zero_not_invertible,
};
use crate::params::modulus;
use crate::primality::lemma_prime_inverse_exists;
use crate::random::{seed_of, seeded_sample};
use vstd::arithmetic::div_mod::{
    lemma_add_mod_noop, lemma_mod_add_multiples_vanish, lemma_mod_self_0, lemma_small_mod,
    lemma_sub_mod_noop,
};
use vstd::prelude::*;

verus! {

/// Addition is commutative.
pub proof fn lemma_add_commutative(a: nat, b: nat)
    ensures
        fq_add(a, b) == fq_add(b, a),
{
}

/// Addition is associative.
pub proof fn lemma_add_associative(a: nat, b: nat, c: nat)
    ensures
        fq_add(fq_add(a, b), c) == fq_add(a, fq_add(b, c)),
{
    let p = modulus() as int;
    lemma_add_mod_noop((a + b) as int, c as int, p);
    lemma_add_mod_noop(a as int, (b + c) as int, p);
    lemma_small_mod(fq_add(a, b), modulus());
    lemma_small_mod(fq_add(b, c), modulus());
    lemma_add_mod_noop(fq_add(a, b) as int, c as int, p);
    lemma_add_mod_noop(a as int, fq_add(b, c) as int, p);
}

/// Zero is the identity of addition.
pub proof fn lemma_add_zero(a: nat)
    requires
        a < modulus(),
    ensures
        fq_add(a, 0) == a,
        fq_add(0, a) == a,
{
    lemma_small_mod(a, modulus());
}

/// An element and its additive inverse add up to zero.
pub proof fn lemma_add_negate(a: nat)
    requires
        a < modulus(),
    ensures
        fq_add(a, fq_neg(a)) == 0,
{
    let p = modulus() as int;
    if a == 0 {
        lemma_small_mod(0, modulus());
    } else {
        lemma_mod_add_multiples_vanish(-(a as int), p);
        lemma_small_mod((modulus() - a) as nat, modulus());
        lemma_mod_self_0(p);
    }
}

/// The additive inverse of the additive inverse is the element.
pub proof fn lemma_negate_negate(a: nat)
    requires
        a < modulus(),
    ensures
        fq_neg(fq_neg(a)) == a,
{
    let p = modulus() as int;
    if a == 0 {
        lemma_small_mod(0, modulus());
    } else {
        lemma_mod_add_multiples_vanish(-(a as int), p);
        lemma_small_mod((modulus() - a) as nat, modulus());
        lemma_mod_add_multiples_vanish(a as int - p, p);
        lemma_small_mod(a, modulus());
    }
}

/// To subtract is to add the additive inverse.
pub proof fn lemma_sub_is_add_negate(a: nat, b: nat)
    requires
        a < modulus(),
        b < modulus(),
    ensures
        fq_sub(a, b) == fq_add(a, fq_neg(b)),
{
    let p = modulus() as int;
    lemma_sub_mod_noop(0, b as int, p);
    lemma_add_mod_noop(a as int, -(b as int), p);
    lemma_add_mod_noop(a as int, fq_neg(b) as int, p);
    lemma_small_mod(fq_neg(b), modulus());
}

/// Multiplication is commutative and associative, with one for its identity.
pub proof fn lemma_mul_laws(a: nat, b: nat, c: nat)
    requires
        a < modulus(),
    ensures
        fq_mul(a, b) == fq_mul(b, a),
        fq_mul(fq_mul(a, b), c) == fq_mul(a, fq_mul(b, c)),
        fq_mul(a, 1) == a,
{
    lemma_fq_mul_commutative(a, b);
    lemma_fq_mul_associative(a, b, c);
    lemma_fq_mul_one(a);
}

/// The quotient times the divisor is the dividend.
pub proof fn lemma_div_then_mul(a: nat, b: nat)
    requires
        a < modulus(),
        fq_div(a, b) is Some,
    ensures
        fq_mul(fq_div(a, b).unwrap(), b) == a,
{
    let c = fq_inverse(b).unwrap();
    assert(fq_is_inverse(b, c));
    lemma_fq_mul_associative(a, c, b);
    lemma_fq_mul_commutative(c, b);
    lemma_fq_mul_one(a);
}

/// Every element but zero can be divided by, and zero cannot.
pub proof fn lemma_div_defined(a: nat, b: nat)
    requires
        b < modulus(),
    ensures
        fq_div(a, b) is Some <==> b != 0,
{
    if b == 0 {
        lemma_zero_not_invertible();
    } else {
        lemma_prime_inverse_exists(b);
    }
}

/// An element times its inverse is one.
pub proof fn lemma_inverse_then_mul(a: nat)
    requires
        fq_inverse(a) is Some,
    ensures
        fq_mul(a, fq_inverse(a).unwrap()) == 1,
        fq_inverse(a).unwrap() < modulus(),
{
    assert(fq_is_inverse(a, fq_inverse(a).unwrap()));
}

/// Zero has no inverse; every other element has one.
pub proof fn lemma_inverse_defined(a: nat)
    requires
        a < modulus(),
    ensures
        fq_inverse(a) is Some <==> a != 0,
{
    if a == 0 {
        lemma_zero_not_invertible();
    } else {
        lemma_prime_inverse_exists(a);
    }
}

/// The square is the product of the element with itself.
pub proof fn lemma_square_is_mul(a: nat)
    ensures
        fq_square(a) == fq_mul(a, a),
{
}

/// The square root of an element squares to the element, and the element
/// meets Euler's criterion; an element that does not has no square root.
pub proof fn lemma_sqrt_then_square(a: nat)
    ensures
        fq_sqrt(a) is Some ==> fq_square(fq_sqrt(a).unwrap()) == a && fq_is_square(a),
        !fq_is_square(a) ==> fq_sqrt(a) is None,
{
    if fq_sqrt(a) is Some {
        assert(fq_is_sqrt(a, fq_sqrt(a).unwrap()));
    }
}

/// Two big integers with the same value are the same.
pub proof fn lemma_bigint_by_value(x: CamlBigint384, y: CamlBigint384)
    requires
        x@ == y@,
    ensures
        x == y,
{
    lemma_value6_injective(x.limbs@, y.limbs@);
    assert(x.limbs =~= y.limbs);
}

/// Reading the canonical numeral of a representative gives it back.
pub proof fn lemma_decimal_then_parse(a: nat)
    requires
        a < modulus(),
    ensures
        parse_spec(decimal_digits(a)) == Some(a),
{
    lemma_digits_are_decimal(a);
    lemma_decimal_round_trip(a);
    lemma_small_mod(a, modulus());
}

/// Comparison is a total order of the representatives: of two elements
/// exactly one is below the other, or they are equal; the order is
/// antisymmetric and transitive; and two elements compare as equal exactly
/// when they are equal.
pub proof fn lemma_compare_total_order(a: nat, b: nat, c: nat)
    ensures
        compare_spec(a, b) == -1 || compare_spec(a, b) == 0 || compare_spec(a, b) == 1,
        compare_spec(a, b) == -1 <==> a < b,
        compare_spec(a, b) == 0 <==> a == b,
        compare_spec(a, b) == 1 <==> a > b,
        compare_spec(a, b) == -compare_spec(b, a),
        compare_spec(a, a) == 0,
        compare_spec(a, b) == -1 && compare_spec(b, c) == -1 ==> compare_spec(a, c) == -1,
        compare_spec(a, b) <= 0 && compare_spec(b, c) <= 0 ==> compare_spec(a, c) <= 0,
{
}

/// Two seeds with the same low thirty-two bits give the same element.
pub proof fn lemma_seeded_sample_deterministic(i: isize, j: isize)
    requires
        seed_of(i) == seed_of(j),
    ensures
        seeded_sample(seed_of(i)) == seeded_sample(seed_of(j)),
{
}

} // verus!
