//! Quadratic residues: Euler's criterion, and square roots by the algorithm
//! of Tonelli and Shanks.

use crate::field::CamlBn382Fq;
use crate::modular::{
    fq_has_root, fq_is_sqrt, fq_is_square, fq_mul, fq_neg, fq_pow, fq_sqrt, fq_square,
    lemma_fq_mul_associative, lemma_fq_mul_commutative, lemma_fq_mul_one, lemma_fq_pow_adds,
    lemma_fq_pow_distributes, lemma_fq_pow_multiplies, lemma_fq_pow_one,
    lemma_fq_square_is_pow,
};
use crate::params::{
    modulus, modulus_minus_one, modulus_minus_one_div_two,
    modulus_minus_one_div_two_limbs,
    odd_part, odd_part_minus_one_div_two, odd_part_minus_one_div_two_limbs,
    two_adic_root_of_unity, two_adic_root_of_unity_limbs,
};
use crate::primality::{
    lemma_prime_pow_nonzero, lemma_prime_sqrt_is, lemma_prime_square_meets_criterion,
    lemma_prime_square_roots_of_one,
};
use crate::roots::lemma_root_of_unity_order;
use vstd::arithmetic::div_mod::{lemma_mul_mod_noop_general, lemma_small_mod};
use vstd::arithmetic::power::lemma0_pow;
use vstd::arithmetic::power2::{
    lemma2_to64, lemma2_to64_rest, lemma_pow2_adds, lemma_pow2_unfold, pow2,
};
use vstd::prelude::*;

verus! {

/// What the algorithm keeps true of its state: the square of `x` is `a`
/// times `b`, the order of `z` is two to the power `v`, and the order of `b`
/// divides half of that.
#[verifier::opaque]
pub open spec fn sqrt_state(a: nat, x: nat, b: nat, z: nat, v: nat) -> bool {
    &&& 1 <= v <= 67
    &&& a < modulus()
    &&& x < modulus()
    &&& b < modulus()
    &&& z < modulus()
    &&& fq_square(x) == fq_mul(a, b)
    &&& fq_pow(z, pow2((v - 1) as nat)) == modulus() - 1
    &&& fq_pow(b, pow2((v - 1) as nat)) == 1
}

/// The product of two products is the product of the first factors times
/// the product of the second factors.
proof fn lemma_fq_mul_interchange(x: nat, y: nat, s: nat, t: nat)
    ensures
        fq_mul(fq_mul(x, y), fq_mul(s, t)) == fq_mul(fq_mul(x, s), fq_mul(y, t)),
{
    let p = modulus() as int;
    lemma_mul_mod_noop_general(x as int * y as int, s as int * t as int, p);
    lemma_mul_mod_noop_general(x as int * s as int, y as int * t as int, p);
    assert((x as int * y as int) * (s as int * t as int) == (x as int * s as int) * (y as int
        * t as int)) by (nonlinear_arith);
}

/// The state at the start: with `w` the residue `a` raised to half of the
/// odd part less one, `x` is `a * w`, `b` is `x * w`, and `z` the root of
/// unity.
proof fn lemma_sqrt_start(a: nat, w: nat)
    requires
        a < modulus(),
        fq_pow(a, modulus_minus_one_div_two()) == 1,
        w == fq_pow(a, odd_part_minus_one_div_two()),
    ensures
        sqrt_state(a, fq_mul(a, w), fq_mul(fq_mul(a, w), w), two_adic_root_of_unity(), 67),
{
    reveal(sqrt_state);
    let h = odd_part_minus_one_div_two();
    let x = fq_mul(a, w);
    let b = fq_mul(x, w);
    lemma_fq_mul_associative(a, w, x);
    lemma_fq_mul_commutative(w, x);
    lemma_fq_pow_one(a);
    lemma_small_mod(a, modulus());
    lemma_fq_pow_adds(a, 1, h);
    lemma_fq_pow_adds(a, 1 + h, h);
    assert(b == fq_pow(a, odd_part()));
    lemma2_to64();
    lemma2_to64_rest();
    lemma_pow2_adds(64, 2);
    lemma_fq_pow_multiplies(a, odd_part(), pow2(66));
    assert(odd_part() * pow2(66) == modulus_minus_one_div_two());
    lemma_root_of_unity_order();
}

/// The state after one round: with `k` below `v` the least number such that
/// `b` raised to two to the power `k` is one, and `wz` the element `z`
/// raised to two to the power `v - k - 1`, the round multiplies `x` by `wz`
/// and `b` by the square of `wz`, which takes the place of `z`; `k` takes the
/// place of `v`.
proof fn lemma_sqrt_round(a: nat, x: nat, b: nat, z: nat, v: nat, k: nat, wz: nat)
    requires
        sqrt_state(a, x, b, z, v),
        1 <= k < v,
        fq_pow(b, pow2((k - 1) as nat)) == modulus() - 1,
        wz == fq_pow(z, pow2((v - k - 1) as nat)),
    ensures
        sqrt_state(a, fq_mul(x, wz), fq_mul(b, fq_square(wz)), fq_square(wz), k),
{
    reveal(sqrt_state);
    let j = (k - 1) as nat;
    let s = (v - k - 1) as nat;
    let z2 = fq_square(wz);
    // The new `z` is the old one raised to two to the power `v - k`.
    lemma_fq_square_is_pow(wz);
    lemma_fq_pow_multiplies(z, pow2(s), 2);
    lemma_pow2_unfold((s + 1) as nat);
    assert(z2 == fq_pow(z, pow2((s + 1) as nat)));
    lemma_fq_pow_multiplies(z, pow2((s + 1) as nat), pow2(j));
    lemma_pow2_adds((s + 1) as nat, j);
    assert(fq_pow(z2, pow2(j)) == modulus() - 1);
    // The new `b` raised to two to the power `k - 1` is minus one squared.
    lemma_fq_pow_distributes(b, z2, pow2(j));
    assert(fq_mul(modulus_minus_one(), modulus_minus_one()) == 1);
    // The square of the new `x` is `a` times the new `b`.
    lemma_fq_mul_interchange(x, wz, x, wz);
    lemma_fq_mul_associative(a, b, z2);
}

/// At the end `b` is one, and `x` a square root of `a`.
proof fn lemma_sqrt_end(a: nat, x: nat, z: nat, v: nat)
    requires
        sqrt_state(a, x, 1, z, v),
    ensures
        fq_square(x) == a,
        x < modulus(),
{
    reveal(sqrt_state);
    lemma_fq_mul_one(a);
}

/// What the state says of `b`.
proof fn lemma_sqrt_state_order(a: nat, x: nat, b: nat, z: nat, v: nat)
    requires
        sqrt_state(a, x, b, z, v),
    ensures
        1 <= v <= 67,
        fq_pow(b, pow2((v - 1) as nat)) == 1,
        z < modulus(),
{
    reveal(sqrt_state);
}

/// The additive inverse has the same square, and of a residue and its
/// additive inverse one lies in the lower half of the field.
proof fn lemma_neg_same_square(x: nat)
    requires
        x < modulus(),
    ensures
        fq_square(fq_neg(x)) == fq_square(x),
        x > modulus_minus_one_div_two() ==> 2 * fq_neg(x) < modulus(),
        x <= modulus_minus_one_div_two() ==> 2 * x < modulus(),
{
    let p = modulus() as int;
    let xi = x as int;
    if x == 0 {
        lemma_small_mod(0, modulus());
    } else {
        lemma_small_mod((modulus() - x) as nat, modulus());
        vstd::arithmetic::div_mod::lemma_mod_add_multiples_vanish(-xi, p);
        assert(fq_neg(x) == modulus() - x);
        assert((p - xi) * (p - xi) == p * (p - 2 * xi) + xi * xi) by (nonlinear_arith);
        vstd::arithmetic::div_mod::lemma_mod_multiples_vanish(p - 2 * xi, xi * xi, p);
    }
}

/// The least `k` from `k` on such that `b` raised to two to the power `k` is
/// one, for a residue `b` whose order divides two to the power `v - 1` and
/// does not divide two to the power `k - 1`. Raised to two to the power of
/// that less one, `b` is minus one.
proof fn lemma_least_order(b: nat, v: nat, k: nat) -> (r: nat)
    requires
        b < modulus(),
        1 <= k < v,
        fq_pow(b, pow2((k - 1) as nat)) != 1,
        fq_pow(b, pow2((v - 1) as nat)) == 1,
    ensures
        k <= r < v,
        fq_pow(b, pow2((r - 1) as nat)) == modulus() - 1,
    decreases v - k,
{
    let prev = fq_pow(b, pow2((k - 1) as nat));
    lemma_pow2_unfold(k);
    lemma_fq_square_is_pow(prev);
    lemma_fq_pow_multiplies(b, pow2((k - 1) as nat), 2);
    if fq_pow(b, pow2(k)) == 1 {
        lemma_prime_square_roots_of_one(prev);
        k
    } else {
        lemma_least_order(b, v, k + 1)
    }
}

/// From a state of the algorithm on, a square root: the rounds of the
/// algorithm, taken one after the other.
proof fn lemma_root_from_state(a: nat, x: nat, b: nat, z: nat, v: nat) -> (c: nat)
    requires
        sqrt_state(a, x, b, z, v),
    ensures
        c < modulus(),
        fq_square(c) == a,
    decreases v,
{
    if b == 1 {
        lemma_sqrt_end(a, x, z, v);
        x
    } else {
        lemma_sqrt_state_order(a, x, b, z, v);
        assert(b < modulus()) by {
            reveal(sqrt_state);
        }
        lemma2_to64();
        lemma_fq_pow_one(b);
        lemma_small_mod(b, modulus());
        let k = lemma_least_order(b, v, 1);
        let wz = fq_pow(z, pow2((v - k - 1) as nat));
        lemma_sqrt_round(a, x, b, z, v, k, wz);
        lemma_root_from_state(a, fq_mul(x, wz), fq_mul(b, fq_square(wz)), fq_square(wz), k)
    }
}

/// Euler's criterion: a residue is the square of some residue exactly when,
/// raised to half of the modulus minus one, it is zero or one.
pub proof fn lemma_euler_criterion(a: nat)
    requires
        a < modulus(),
    ensures
        fq_is_square(a) <==> fq_has_root(a),
{
    if fq_has_root(a) {
        let c = choose|c: nat| c < modulus() && fq_square(c) == a;
        lemma_prime_square_meets_criterion(c);
    }
    if fq_is_square(a) {
        if a == 0 {
            lemma_small_mod(0, modulus());
            assert(fq_square(0) == 0);
        } else {
            lemma_prime_pow_nonzero(a, modulus_minus_one_div_two());
            let w = fq_pow(a, odd_part_minus_one_div_two());
            lemma_sqrt_start(a, w);
            let c = lemma_root_from_state(
                a,
                fq_mul(a, w),
                fq_mul(fq_mul(a, w), w),
                two_adic_root_of_unity(),
                67,
            );
            assert(c < modulus() && fq_square(c) == a);
        }
    }
}

impl CamlBn382Fq {
    /// Of an element and its additive inverse, the one in the lower half of
    /// the field.
    fn lower_half(&self) -> (r: Self)
        ensures
            fq_square(r@) == fq_square(self@),
            2 * r@ < modulus(),
    {
        proof {
            use_type_invariant(self);
            lemma_neg_same_square(self@);
        }
        let half = Self::from_limbs(modulus_minus_one_div_two_limbs());
        if half.below(self) {
            self.neg()
        } else {
            *self
        }
    }

    /// Whether the element is the square of some element, by Euler's
    /// criterion: whether the element raised to half of the modulus minus one
    /// is zero or one.
    pub fn is_square(&self) -> (r: bool)
        ensures
            r == fq_is_square(self@),
            r == fq_has_root(self@),
    {
        proof {
            use_type_invariant(self);
            lemma_euler_criterion(self@);
        }
        let s = self.pow(&modulus_minus_one_div_two_limbs());
        s.is_zero() || s.is_one()
    }

    /// The least `k` such that the element raised to two to the power `k` is
    /// one, for an element other than one whose order divides two to the
    /// power `v - 1`. Raised to two to the power `k - 1`, the element is minus
    /// one.
    fn two_power_order(&self, v: u32) -> (k: u32)
        requires
            self@ != 1,
            1 <= v <= 67,
            fq_pow(self@, pow2((v - 1) as nat)) == 1,
        ensures
            1 <= k < v,
            fq_pow(self@, pow2((k - 1) as nat)) == modulus() - 1,
    {
        proof {
            use_type_invariant(self);
            lemma2_to64();
            lemma_fq_pow_one(self@);
            lemma_small_mod(self@, modulus());
            lemma_pow2_unfold(1);
            lemma_fq_square_is_pow(self@);
        }
        let mut k: u32 = 1;
        let ghost mut prev: nat = self@;
        let mut cur = self.square();
        while !cur.is_one()
            invariant
                1 <= k < v <= 67,
                prev == fq_pow(self@, pow2((k - 1) as nat)),
                cur@ == fq_pow(self@, pow2(k as nat)),
                cur@ == fq_square(prev),
                prev < modulus(),
                prev != 1,
                fq_pow(self@, pow2((v - 1) as nat)) == 1,
            decreases v - k,
        {
            proof {
                lemma_pow2_unfold((k + 1) as nat);
                lemma_fq_square_is_pow(cur@);
                lemma_fq_pow_multiplies(self@, pow2(k as nat), 2);
                prev = cur@;
            }
            cur = cur.square();
            k = k + 1;
        }
        proof {
            lemma_prime_square_roots_of_one(prev);
        }
        k
    }

    /// The square root in the lower half of the field, where the element is
    /// a square.
    ///
    /// Of the two square roots `c` and `-c` the one returned has twice its
    /// representative below the modulus.
    pub fn sqrt(&self) -> (r: Option<Self>)
        ensures
            r is Some == fq_is_square(self@),
            r is Some == fq_has_root(self@),
            r is Some ==> fq_is_sqrt(self@, r.unwrap()@),
            r is Some ==> fq_sqrt(self@) == Some(r.unwrap()@),
            r is None ==> fq_sqrt(self@) is None,
            self@ == 0 ==> r is Some && r.unwrap()@ == 0,
    {
        proof {
            use_type_invariant(self);
            lemma_euler_criterion(self@);
        }
        if self.is_zero() {
            proof {
                lemma0_pow(modulus_minus_one_div_two());
                lemma_small_mod(0, modulus());
                lemma_prime_sqrt_is(0, 0);
            }
            return Some(Self::zero());
        }
        let euler = self.pow(&modulus_minus_one_div_two_limbs());
        if !euler.is_one() {
            proof {
                lemma_prime_pow_nonzero(self@, modulus_minus_one_div_two());
            }
            return None;
        }
        let w = self.pow(&odd_part_minus_one_div_two_limbs());
        let mut x = self.mul(&w);
        let mut b = x.mul(&w);
        let mut z = Self::from_limbs(two_adic_root_of_unity_limbs());
        let mut v: u32 = 67;
        proof {
            lemma_sqrt_start(self@, w@);
        }
        while !b.is_one()
            invariant
                sqrt_state(self@, x@, b@, z@, v as nat),
                fq_is_square(self@),
                self@ != 0,
            decreases v,
        {
            proof {
                lemma_sqrt_state_order(self@, x@, b@, z@, v as nat);
            }
            let k = b.two_power_order(v);
            let wz = z.pow2k(v - k - 1);
            proof {
                lemma_sqrt_round(self@, x@, b@, z@, v as nat, k as nat, wz@);
            }
            z = wz.square();
            b = b.mul(&z);
            x = x.mul(&wz);
            v = k;
        }
        proof {
            lemma_sqrt_end(self@, x@, z@, v as nat);
        }
        let root = x.lower_half();
        proof {
            lemma_prime_sqrt_is(self@, root@);
        }
        Some(root)
    }
}

} // verus!
