//! The multiplicative inverse, by the binary extended Euclidean algorithm.

use crate::field::CamlBn382Fq;
use crate::limbs::{halve6, is_even6, is_one6, lt6, sub6, value6};
use crate::modular::{
    fq_inverse, fq_invertible, fq_is_inverse, fq_mul, fq_sub,
    lemma_halving_keeps_congruence, lemma_inverse_is, lemma_subtracting_keeps_congruence,
    lemma_zero_not_invertible,
};
use crate::params::{modulus, modulus_limbs};
use crate::pocklington::divides;
use crate::primality::lemma_modulus_is_prime;
use vstd::arithmetic::div_mod::{lemma_add_mod_noop, lemma_mod_self_0, lemma_small_mod};
use vstd::arithmetic::mul::lemma_mul_basics;
use vstd::prelude::*;

verus! {

/// That every common divisor of `u` and `v` divides `a` and the modulus.
pub open spec fn divisors_kept(u: nat, v: nat, a: nat) -> bool {
    forall|d: nat|
        #![trigger divides(d, u), divides(d, v)]
        divides(d, u) && divides(d, v) ==> divides(d, a) && divides(d, modulus())
}

/// Halving an even `u` keeps the common divisors among those of `a` and the
/// modulus.
proof fn lemma_divisors_kept_halving(u: nat, v: nat, a: nat)
    requires
        divisors_kept(u, v, a),
        u % 2 == 0,
    ensures
        divisors_kept(u / 2, v, a),
{
    let h = u / 2;
    assert forall|d: nat| divides(d, h) && divides(d, v) implies divides(d, a) && divides(
        d,
        modulus(),
    ) by {
        lemma_add_mod_noop(h as int, h as int, d as int);
        lemma_small_mod(0, d);
        assert(divides(d, u));
    }
}

/// Taking `v` off `u` keeps the common divisors among those of `a` and the
/// modulus.
proof fn lemma_divisors_kept_subtracting(u: nat, v: nat, a: nat)
    requires
        divisors_kept(u, v, a),
        v <= u,
    ensures
        divisors_kept((u - v) as nat, v, a),
        divisors_kept(v, (u - v) as nat, a),
{
    let w = (u - v) as nat;
    assert forall|d: nat| divides(d, w) && divides(d, v) implies divides(d, a) && divides(
        d,
        modulus(),
    ) by {
        lemma_add_mod_noop(w as int, v as int, d as int);
        lemma_small_mod(0, d);
        assert(divides(d, u));
    }
    assert forall|d: nat| divides(d, v) && divides(d, w) implies divides(d, a) && divides(
        d,
        modulus(),
    ) by {
        lemma_add_mod_noop(w as int, v as int, d as int);
        lemma_small_mod(0, d);
        assert(divides(d, u));
    }
}

/// The order of the two numbers in `divisors_kept` does not matter.
proof fn lemma_divisors_kept_symmetric(u: nat, v: nat, a: nat)
    requires
        divisors_kept(u, v, a),
    ensures
        divisors_kept(v, u, a),
{
    assert forall|d: nat| divides(d, v) && divides(d, u) implies divides(d, a) && divides(
        d,
        modulus(),
    ) by {
        assert(divides(d, u) && divides(d, v));
    }
}

/// What the algorithm keeps true of its state: `u` and `v` are positive, `u`
/// is at most the element `a` and `v` at most the modulus, `b * a` is
/// congruent to `u` and `c * a` to `v`, and every common divisor of `u` and
/// `v` divides `a` and the modulus.
#[verifier::opaque]
pub open spec fn euclid_state(a: nat, u: nat, v: nat, b: nat, c: nat) -> bool {
    &&& a < modulus()
    &&& b < modulus()
    &&& c < modulus()
    &&& 0 < u <= a
    &&& 0 < v <= modulus()
    &&& fq_mul(a, b) == u % modulus()
    &&& fq_mul(a, c) == v % modulus()
    &&& divisors_kept(u, v, a)
}

/// The state at the start: `u` is the element, `v` the modulus, `b` one and
/// `c` zero.
proof fn lemma_euclid_start(a: nat)
    requires
        0 < a < modulus(),
    ensures
        euclid_state(a, a, modulus(), 1, 0),
{
    reveal(euclid_state);
    lemma_small_mod(a, modulus());
    lemma_mod_self_0(modulus() as int);
    lemma_mul_basics(a as int);
    assert(divisors_kept(a, modulus(), a));
}

/// The state after halving an even `u`, with `hb` half of `b`.
proof fn lemma_euclid_halve_u(a: nat, u: nat, v: nat, b: nat, c: nat, hb: nat)
    requires
        euclid_state(a, u, v, b, c),
        u % 2 == 0,
        hb < modulus(),
        (2 * hb) % modulus() == b,
    ensures
        euclid_state(a, u / 2, v, hb, c),
        0 < u / 2 < u,
{
    reveal(euclid_state);
    lemma_small_mod(b, modulus());
    lemma_halving_keeps_congruence(a, b, hb, u);
    lemma_divisors_kept_halving(u, v, a);
}

/// The state after halving an even `v`, with `hc` half of `c`.
proof fn lemma_euclid_halve_v(a: nat, u: nat, v: nat, b: nat, c: nat, hc: nat)
    requires
        euclid_state(a, u, v, b, c),
        v % 2 == 0,
        hc < modulus(),
        (2 * hc) % modulus() == c,
    ensures
        euclid_state(a, u, v / 2, b, hc),
        0 < v / 2 < v,
{
    reveal(euclid_state);
    lemma_small_mod(c, modulus());
    lemma_halving_keeps_congruence(a, c, hc, v);
    lemma_divisors_kept_symmetric(u, v, a);
    lemma_divisors_kept_halving(v, u, a);
    lemma_divisors_kept_symmetric(v / 2, u, a);
}

/// The state after taking `v` off a larger `u`.
proof fn lemma_euclid_subtract_from_u(a: nat, u: nat, v: nat, b: nat, c: nat)
    requires
        euclid_state(a, u, v, b, c),
        v < u,
    ensures
        euclid_state(a, (u - v) as nat, v, fq_sub(b, c), c),
{
    reveal(euclid_state);
    lemma_subtracting_keeps_congruence(a, b, c, u, v);
    lemma_divisors_kept_subtracting(u, v, a);
}

/// The state after taking `u` off a larger `v`.
proof fn lemma_euclid_subtract_from_v(a: nat, u: nat, v: nat, b: nat, c: nat)
    requires
        euclid_state(a, u, v, b, c),
        u < v,
    ensures
        euclid_state(a, u, (v - u) as nat, b, fq_sub(c, b)),
{
    reveal(euclid_state);
    lemma_subtracting_keeps_congruence(a, c, b, v, u);
    lemma_divisors_kept_symmetric(u, v, a);
    lemma_divisors_kept_subtracting(v, u, a);
}

/// The two numbers do not meet above one: where they meet, they divide the
/// modulus, which is prime.
proof fn lemma_euclid_meet(a: nat, u: nat, b: nat, c: nat)
    requires
        euclid_state(a, u, u, b, c),
    ensures
        u == 1,
{
    reveal(euclid_state);
    lemma_mod_self_0(u as int);
    assert(divides(u, u));
    assert(divides(u, a) && divides(u, modulus()));
    lemma_modulus_is_prime();
}

/// Where `u` has come down to one, `b` is the inverse; where `v` has, `c`.
proof fn lemma_euclid_end(a: nat, u: nat, v: nat, b: nat, c: nat)
    requires
        euclid_state(a, u, v, b, c),
    ensures
        u == 1 ==> fq_is_inverse(a, b) && fq_inverse(a) == Some(b) && fq_invertible(a),
        v == 1 ==> fq_is_inverse(a, c) && fq_inverse(a) == Some(c) && fq_invertible(a),
{
    reveal(euclid_state);
    lemma_small_mod(1, modulus());
    if u == 1 {
        lemma_inverse_is(a, b);
    }
    if v == 1 {
        lemma_inverse_is(a, c);
    }
}

impl CamlBn382Fq {
    /// The multiplicative inverse; none for zero, which has none.
    ///
    /// The algorithm keeps two numbers `u` and `v`, at first the element and
    /// the modulus, and two elements `b` and `c` with `b` times the element
    /// congruent to `u` and `c` times the element congruent to `v`. An even
    /// number is halved, and of two odd numbers the smaller is taken off the
    /// larger, until one of them is one. The two never meet above one: they
    /// would be a common divisor of the element and the modulus.
    pub fn inverse(&self) -> (r: Option<Self>)
        ensures
            r is Some == (self@ != 0),
            r is Some ==> fq_is_inverse(self@, r.unwrap()@),
            r is Some ==> fq_inverse(self@) == Some(r.unwrap()@),
            r is None ==> fq_inverse(self@) is None,
    {
        let a = self.limbs();
        if self.is_zero() {
            proof {
                lemma_zero_not_invertible();
            }
            return None;
        }
        let mut u = a;
        let mut v = modulus_limbs();
        let mut b = Self::one();
        let mut c = Self::zero();
        proof {
            lemma_euclid_start(self@);
        }
        while !is_one6(&u) && !is_one6(&v)
            invariant
                euclid_state(self@, value6(u@), value6(v@), b@, c@),
            decreases value6(u@) + value6(v@),
        {
            if is_even6(&u) {
                let half = halve6(&u);
                let hb = b.halve();
                proof {
                    lemma_euclid_halve_u(self@, value6(u@), value6(v@), b@, c@, hb@);
                }
                u = half;
                b = hb;
            } else if is_even6(&v) {
                let half = halve6(&v);
                let hc = c.halve();
                proof {
                    lemma_euclid_halve_v(self@, value6(u@), value6(v@), b@, c@, hc@);
                }
                v = half;
                c = hc;
            } else if lt6(&v, &u) {
                let (diff, borrow) = sub6(&u, &v);
                let db = b.sub(&c);
                proof {
                    lemma_euclid_subtract_from_u(self@, value6(u@), value6(v@), b@, c@);
                }
                u = diff;
                b = db;
            } else {
                proof {
                    if value6(u@) == value6(v@) {
                        lemma_euclid_meet(self@, value6(u@), b@, c@);
                    }
                }
                let (diff, borrow) = sub6(&v, &u);
                let dc = c.sub(&b);
                proof {
                    lemma_euclid_subtract_from_v(self@, value6(u@), value6(v@), b@, c@);
                }
                v = diff;
                c = dc;
            }
        }
        proof {
            lemma_euclid_end(self@, value6(u@), value6(v@), b@, c@);
        }
        if is_one6(&u) {
            Some(b)
        } else {
            Some(c)
        }
    }
}

} // verus!
