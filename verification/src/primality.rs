//! What follows from the primality of the modulus.

use crate::certificate::lemma_modulus_prime;
use crate::fermat::lemma_fermat;
use crate::modular::{
    fq_inverse, fq_invertible, fq_is_inverse, fq_is_sqrt, fq_is_square, fq_pow, fq_sqrt,
    fq_square, lemma_fq_pow_multiplies, lemma_fq_square_is_pow, lemma_inverse_is,
};
use crate::params::{lemma_parameters, modulus, modulus_minus_one_div_two};
use crate::pocklington::{divides, is_prime, lemma_inverse_mod_prime, lemma_prime_divides_factor};
use vstd::arithmetic::div_mod::{lemma_mod_equivalence, lemma_mul_mod_noop_right, lemma_small_mod};
use vstd::arithmetic::mul::lemma_mul_basics;
use vstd::arithmetic::power::{lemma0_pow, lemma_pow0, pow};
use vstd::prelude::*;

verus! {

/// The modulus is prime: it is at least two, and no number strictly between
/// one and the modulus divides it.
pub proof fn lemma_modulus_is_prime()
    ensures
        is_prime(modulus()),
        forall|d: nat| 1 < d < modulus() ==> #[trigger] (modulus() % d) != 0,
{
    lemma_modulus_prime();
    assert forall|d: nat| 1 < d < modulus() implies #[trigger] (modulus() % d) != 0 by {
        assert(!divides(d, modulus()));
    }
}

/// Every residue but zero has an inverse.
pub proof fn lemma_prime_invertible(a: nat)
    requires
        0 < a < modulus(),
    ensures
        fq_invertible(a),
{
    lemma_modulus_prime();
    lemma_small_mod(a, modulus());
    let c = lemma_inverse_mod_prime(modulus(), a);
    lemma_mul_mod_noop_right(a as int, c as int, modulus() as int);
    assert(fq_is_inverse(a, c % modulus()));
}

/// What divides a product divides one of the factors, of the modulus.
pub proof fn lemma_prime_divides_product(x: int, y: int)
    requires
        (x * y) % (modulus() as int) == 0,
    ensures
        x % (modulus() as int) == 0 || y % (modulus() as int) == 0,
{
    lemma_modulus_prime();
    lemma_prime_divides_factor(modulus(), x, y);
}

/// One has no square roots but one and minus one.
pub proof fn lemma_prime_square_roots_of_one(y: nat)
    requires
        y < modulus(),
        fq_square(y) == 1,
    ensures
        y == 1 || y == modulus() - 1,
{
    let p = modulus() as int;
    let yi = y as int;
    assert((yi - 1) * (yi + 1) == yi * yi - 1) by (nonlinear_arith);
    lemma_mod_equivalence(yi * yi, 1, p);
    lemma_small_mod(1, modulus());
    lemma_prime_divides_product(yi - 1, yi + 1);
    if (yi - 1) % p == 0 {
        if y == 0 {
            lemma_mul_basics(yi);
            lemma_small_mod(0, modulus());
        } else {
            lemma_small_mod((y - 1) as nat, modulus());
        }
    } else {
        if yi + 1 < p {
            lemma_small_mod((y + 1) as nat, modulus());
        }
    }
}

/// No power of a residue other than zero is zero.
pub proof fn lemma_prime_pow_nonzero(a: nat, e: nat)
    requires
        0 < a < modulus(),
    ensures
        fq_pow(a, e) != 0,
    decreases e,
{
    let p = modulus() as int;
    if e == 0 {
        lemma_pow0(a as int);
        lemma_small_mod(1, modulus());
    } else {
        lemma_prime_pow_nonzero(a, (e - 1) as nat);
        reveal(pow);
        assert(pow(a as int, e) == (a as int) * pow(a as int, (e - 1) as nat));
        if fq_pow(a, e) == 0 {
            lemma_prime_divides_product(a as int, pow(a as int, (e - 1) as nat));
            lemma_small_mod(a, modulus());
            assert(false);
        }
    }
}

/// Fermat's little theorem: a residue other than zero, raised to the modulus
/// minus one, is one.
pub proof fn lemma_prime_fermat(a: nat)
    requires
        0 < a < modulus(),
    ensures
        fq_pow(a, (modulus() - 1) as nat) == 1,
{
    lemma_modulus_prime();
    lemma_small_mod(a, modulus());
    lemma_fermat(modulus(), a);
}

/// The square of a residue meets Euler's criterion.
pub proof fn lemma_prime_square_meets_criterion(c: nat)
    requires
        c < modulus(),
    ensures
        fq_is_square(fq_square(c)),
{
    let half = modulus_minus_one_div_two();
    lemma_parameters();
    lemma_fq_square_is_pow(c);
    lemma_fq_pow_multiplies(c, 2, half);
    if c == 0 {
        lemma0_pow((2 * half) as nat);
        lemma_small_mod(0, modulus());
    } else {
        lemma_prime_fermat(c);
    }
}

/// A residue has at most one square root in the lower half of the field.
pub proof fn lemma_prime_sqrt_unique(a: nat, c: nat, d: nat)
    requires
        fq_is_sqrt(a, c),
        fq_is_sqrt(a, d),
    ensures
        c == d,
{
    let p = modulus() as int;
    let ci = c as int;
    let di = d as int;
    assert((ci - di) * (ci + di) == ci * ci - di * di) by (nonlinear_arith);
    lemma_mod_equivalence(ci * ci, di * di, p);
    lemma_prime_divides_product(ci - di, ci + di);
    if (ci + di) % p == 0 {
        lemma_small_mod((c + d) as nat, modulus());
        assert(c == 0 && d == 0);
    } else {
        if c >= d {
            lemma_small_mod((c - d) as nat, modulus());
        } else {
            lemma_mod_equivalence(ci, di, p);
            lemma_small_mod(c, modulus());
            lemma_small_mod(d, modulus());
        }
    }
}

/// The square root of a residue is whatever root it has in the lower half
/// of the field, where the residue meets Euler's criterion.
pub proof fn lemma_prime_sqrt_is(a: nat, c: nat)
    requires
        fq_is_square(a),
        fq_is_sqrt(a, c),
    ensures
        fq_sqrt(a) == Some(c),
{
    let chosen = choose|x: nat| fq_is_sqrt(a, x);
    lemma_prime_sqrt_unique(a, c, chosen);
}

/// The inverse of a residue other than zero exists.
pub proof fn lemma_prime_inverse_exists(a: nat)
    requires
        0 < a < modulus(),
    ensures
        fq_inverse(a) is Some,
        fq_is_inverse(a, fq_inverse(a).unwrap()),
{
    lemma_prime_invertible(a);
    let c = choose|c: nat| fq_is_inverse(a, c);
    lemma_inverse_is(a, c);
}

} // verus!
