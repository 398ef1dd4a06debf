//! Exponentiation of field elements by square and multiply.

use crate::field::CamlBn382Fq;
use crate::limbs::value6;
use crate::modular::{
    fq_mul, fq_pow, fq_square, lemma_fq_mul_associative, lemma_fq_mul_one, lemma_fq_mul_reduced,
    lemma_fq_pow_adds, lemma_fq_pow_multiplies, lemma_fq_pow_one, lemma_fq_pow_zero,
    lemma_fq_square_is_pow,
};
use crate::params::modulus;
use vstd::arithmetic::power2::{lemma2_to64, lemma2_to64_rest, lemma_pow2_unfold, pow2};
use vstd::prelude::*;

verus! {

/// One round of square and multiply, taking the exponent from its least
/// significant bit: with `e` twice `half` plus `bit`, the power `s` to the
/// `e` is `s` to the `bit` times the square of `s` to the `half`.
proof fn lemma_pow_round(r: nat, s: nat, e: nat)
    requires
        r < modulus(),
        s < modulus(),
    ensures
        e % 2 == 1 ==> fq_mul(r, fq_pow(s, e)) == fq_mul(fq_mul(r, s), fq_pow(fq_square(s), e / 2)),
        e % 2 == 0 ==> fq_mul(r, fq_pow(s, e)) == fq_mul(r, fq_pow(fq_square(s), e / 2)),
{
    let half = e / 2;
    lemma_fq_square_is_pow(s);
    lemma_fq_pow_multiplies(s, 2, half);
    assert(fq_pow(fq_square(s), half) == fq_pow(s, 2 * half));
    if e % 2 == 1 {
        assert(e == 1 + 2 * half);
        lemma_fq_pow_adds(s, 1, 2 * half);
        lemma_fq_pow_one(s);
        lemma_fq_mul_reduced(s, fq_pow(s, 2 * half));
        lemma_fq_mul_associative(r, s, fq_pow(s, 2 * half));
    } else {
        assert(e == 2 * half);
    }
}

impl CamlBn382Fq {
    /// The element raised to a power below two to the power 64, and the
    /// element raised to two to the power 64.
    fn pow_limb(&self, w: u64) -> (r: (Self, Self))
        ensures
            r.0@ == fq_pow(self@, w as nat),
            r.1@ == fq_pow(self@, 0x1_0000_0000_0000_0000),
    {
        let mut acc = Self::one();
        let mut s = *self;
        let mut e: u64 = w;
        let mut i: u32 = 0;
        proof {
            use_type_invariant(self);
            lemma_fq_pow_one(self@);
            lemma_fq_mul_one(fq_pow(self@, w as nat));
            lemma2_to64();
            lemma2_to64_rest();
            vstd::arithmetic::div_mod::lemma_small_mod(self@, modulus());
        }
        while i < 64
            invariant
                i <= 64,
                self@ < modulus(),
                acc@ < modulus(),
                s@ < modulus(),
                fq_mul(acc@, fq_pow(s@, e as nat)) == fq_pow(self@, w as nat),
                s@ == fq_pow(self@, pow2(i as nat)),
                e < pow2((64 - i) as nat),
            decreases 64 - i,
        {
            proof {
                lemma_pow_round(acc@, s@, e as nat);
                lemma_pow2_unfold((64 - i) as nat);
                lemma_pow2_unfold((i + 1) as nat);
                lemma_fq_square_is_pow(s@);
                lemma_fq_pow_multiplies(self@, pow2(i as nat), 2);
            }
            if e % 2 == 1 {
                acc = acc.mul(&s);
            }
            s = s.square();
            e = e / 2;
            i = i + 1;
        }
        proof {
            lemma_fq_pow_zero(s@);
            lemma_fq_mul_one(acc@);
        }
        (acc, s)
    }

    /// The element squared `k` times: raised to two to the power `k`.
    pub fn pow2k(&self, k: u32) -> (r: Self)
        ensures
            r@ == fq_pow(self@, pow2(k as nat)),
    {
        let mut acc = *self;
        let mut i: u32 = 0;
        proof {
            use_type_invariant(self);
            lemma_fq_pow_one(self@);
            lemma2_to64();
            vstd::arithmetic::div_mod::lemma_small_mod(self@, modulus());
        }
        while i < k
            invariant
                i <= k,
                acc@ == fq_pow(self@, pow2(i as nat)),
            decreases k - i,
        {
            proof {
                lemma_pow2_unfold((i + 1) as nat);
                lemma_fq_square_is_pow(acc@);
                lemma_fq_pow_multiplies(self@, pow2(i as nat), 2);
            }
            acc = acc.square();
            i = i + 1;
        }
        acc
    }

    /// The element raised to the power that the six limbs hold.
    pub fn pow(&self, exponent: &[u64; 6]) -> (r: Self)
        ensures
            r@ == fq_pow(self@, value6(exponent@)),
    {
        let (r0, g1) = self.pow_limb(exponent[0]);
        let (r1, g2) = g1.pow_limb(exponent[1]);
        let (r2, g3) = g2.pow_limb(exponent[2]);
        let (r3, g4) = g3.pow_limb(exponent[3]);
        let (r4, g5) = g4.pow_limb(exponent[4]);
        let (r5, g6) = g5.pow_limb(exponent[5]);
        let acc1 = r0.mul(&r1);
        let acc2 = acc1.mul(&r2);
        let acc3 = acc2.mul(&r3);
        let acc4 = acc3.mul(&r4);
        let acc5 = acc4.mul(&r5);
        proof {
            let a = self@;
            let b: nat = 0x1_0000_0000_0000_0000;
            let e0 = exponent[0] as nat;
            let e1 = exponent[1] as nat;
            let e2 = exponent[2] as nat;
            let e3 = exponent[3] as nat;
            let e4 = exponent[4] as nat;
            let e5 = exponent[5] as nat;
            assert(b * b == 0x1_0000_0000_0000_0000_0000_0000_0000_0000) by (nonlinear_arith)
                requires
                    b == 0x1_0000_0000_0000_0000,
            ;
            assert(b * b * b == 0x1_0000_0000_0000_0000_0000_0000_0000_0000_0000_0000_0000_0000)
                by (nonlinear_arith)
                requires
                    b == 0x1_0000_0000_0000_0000,
            ;
            assert(b * b * b * b
                == 0x1_0000_0000_0000_0000_0000_0000_0000_0000_0000_0000_0000_0000_0000_0000_0000_0000)
                by (nonlinear_arith)
                requires
                    b == 0x1_0000_0000_0000_0000,
            ;
            assert(b * b * b * b * b
                == 0x1_0000_0000_0000_0000_0000_0000_0000_0000_0000_0000_0000_0000_0000_0000_0000_0000_0000_0000_0000_0000)
                by (nonlinear_arith)
                requires
                    b == 0x1_0000_0000_0000_0000,
            ;
            lemma_fq_pow_multiplies(a, b, b);
            lemma_fq_pow_multiplies(a, b * b, b);
            lemma_fq_pow_multiplies(a, b * b * b, b);
            lemma_fq_pow_multiplies(a, b * b * b * b, b);
            lemma_fq_pow_multiplies(a, b, e1);
            lemma_fq_pow_multiplies(a, b * b, e2);
            lemma_fq_pow_multiplies(a, b * b * b, e3);
            lemma_fq_pow_multiplies(a, b * b * b * b, e4);
            lemma_fq_pow_multiplies(a, b * b * b * b * b, e5);
            lemma_fq_pow_adds(a, e0, b * e1);
            lemma_fq_pow_adds(a, e0 + b * e1, b * b * e2);
            lemma_fq_pow_adds(a, e0 + b * e1 + b * b * e2, b * b * b * e3);
            lemma_fq_pow_adds(a, e0 + b * e1 + b * b * e2 + b * b * b * e3, b * b * b * b * e4);
            lemma_fq_pow_adds(
                a,
                e0 + b * e1 + b * b * e2 + b * b * b * e3 + b * b * b * b * e4,
                b * b * b * b * b * e5,
            );
            reveal(value6);
            assert(value6(exponent@) == e0 + b * e1 + b * b * e2 + b * b * b * e3 + b * b * b * b
                * e4 + b * b * b * b * b * e5);
        }
        acc5
    }
}

} // verus!
