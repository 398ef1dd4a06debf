//! The field element and its arithmetic.

use crate::limbs::{
    add6, eq6, halve6, is_even6, is_one6, is_zero6, lemma_value6_bound, lt6, mul_limb6, sub6,
    sub7, value6, value7,
};
use crate::modular::{fq_add, fq_mul, fq_neg, fq_square, fq_sub};
use crate::params::{modulus, modulus_limbs};
use vstd::arithmetic::div_mod::*;
use vstd::arithmetic::mul::*;
use vstd::prelude::*;

verus! {

/// An element of the field: the canonical representative of a residue class
/// modulo the modulus, in six 64-bit limbs, least significant first.
#[derive(Clone, Copy, Debug, PartialEq, Eq)]
pub struct CamlBn382Fq {
    limbs: [u64; 6],
}

impl View for CamlBn382Fq {
    type V = nat;

    /// The canonical representative.
    closed spec fn view(&self) -> nat {
        value6(self.limbs@)
    }
}

/// The quotient estimate of the reduction: the two top limbs of `x`, divided
/// by the top limb of the modulus plus one, fit in a limb, and that many
/// times the modulus does not exceed `x`.
proof fn lemma_quotient_estimate(x: int, top: int, q: int)
    requires
        0 <= x < modulus() * 0x1_0000_0000_0000_0000,
        0 <= top,
        top * 0x1_0000_0000_0000_0000_0000_0000_0000_0000_0000_0000_0000_0000_0000_0000_0000_0000_0000_0000_0000_0000
            <= x,
        q == top / 0x2404893fdad8878f,
    ensures
        0 <= q < 0x1_0000_0000_0000_0000,
        q * modulus() <= x,
{
    let d = 0x2404893fdad8878fint;
    let b5 =
        0x1_0000_0000_0000_0000_0000_0000_0000_0000_0000_0000_0000_0000_0000_0000_0000_0000_0000_0000_0000_0000int;
    assert(modulus() < d * b5);
    assert(modulus() * 0x1_0000_0000_0000_0000 < d * b5 * 0x1_0000_0000_0000_0000);
    assert(top < d * 0x1_0000_0000_0000_0000);
    assert(q * d <= top);
    assert(q * modulus() <= q * (d * b5));
}

/// Reduces a number of seven limbs that is below the modulus times two to the
/// power 64.
///
/// The quotient is estimated from the two top limbs, divided by the top limb
/// of the modulus plus one, so that the estimate never exceeds the quotient;
/// what is left after taking the estimate times the modulus away is brought
/// below the modulus by subtracting the modulus.
fn reduce7(x: &[u64; 7]) -> (r: [u64; 6])
    requires
        value7(x@) < modulus() * 0x1_0000_0000_0000_0000,
    ensures
        value6(r@) == value7(x@) % modulus(),
{
    let m = modulus_limbs();
    let top: u128 = x[6] as u128 * 0x1_0000_0000_0000_0000u128 + x[5] as u128;
    proof {
        reveal(value6);
        reveal(value7);
        lemma_quotient_estimate(value7(x@) as int, top as int, top as int / 0x2404893fdad8878f);
    }
    let q: u64 = (top / 0x2404893fdad8878fu128) as u64;
    let qm = mul_limb6(&m, q);
    proof {
        lemma_mul_is_commutative(value6(m@) as int, q as int);
        lemma_mod_multiples_vanish(-(q as int), value7(x@) as int, modulus() as int);
    }
    let (first, borrow) = sub7(x, &qm);
    assert(value7(first@) == value7(x@) - q * modulus());
    subtract_modulus(first)
}

/// Subtracts the modulus from a number of seven limbs until what is left is
/// below the modulus.
fn subtract_modulus(x: [u64; 7]) -> (r: [u64; 6])
    ensures
        value6(r@) == value7(x@) % modulus(),
{
    let m = modulus_limbs();
    let m7: [u64; 7] = [m[0], m[1], m[2], m[3], m[4], m[5], 0];
    proof {
        reveal(value6);
        reveal(value7);
    }
    let mut rem = x;
    let mut below: bool = sub7(&rem, &m7).1 == 1;
    while !below
        invariant
            value7(m7@) == modulus(),
            value7(rem@) % modulus() == value7(x@) % modulus(),
            below == (value7(rem@) < modulus()),
        decreases value7(rem@),
    {
        let (next, borrow) = sub7(&rem, &m7);
        proof {
            lemma_mod_sub_multiples_vanish(value7(rem@) as int, modulus() as int);
        }
        rem = next;
        below = sub7(&rem, &m7).1 == 1;
    }
    proof {
        reveal(value6);
        reveal(value7);
        lemma_small_mod(value7(rem@), modulus());
    }
    [rem[0], rem[1], rem[2], rem[3], rem[4], rem[5]]
}

impl CamlBn382Fq {
    /// The representative is below the modulus.
    #[verifier::type_invariant]
    pub open spec fn canonical(self) -> bool {
        self@ < modulus()
    }

    /// The element whose representative the limbs hold.
    pub(crate) fn from_limbs(limbs: [u64; 6]) -> (r: Self)
        requires
            value6(limbs@) < modulus(),
        ensures
            r@ == value6(limbs@),
    {
        CamlBn382Fq { limbs }
    }

    /// The limbs of the canonical representative.
    pub closed spec fn spec_limbs(&self) -> [u64; 6] {
        self.limbs
    }

    /// The limbs hold the representative.
    pub proof fn lemma_spec_limbs(&self)
        ensures
            value6(self.spec_limbs()@) == self@,
    {
    }

    /// The limbs of the canonical representative.
    pub fn limbs(&self) -> (r: [u64; 6])
        ensures
            r == self.spec_limbs(),
            value6(r@) == self@,
            self@ < modulus(),
    {
        proof {
            use_type_invariant(self);
        }
        self.limbs
    }

    /// The additive identity.
    pub fn zero() -> (r: Self)
        ensures
            r@ == 0,
    {
        proof {
            reveal(value6);
        }
        CamlBn382Fq { limbs: [0, 0, 0, 0, 0, 0] }
    }

    /// The multiplicative identity.
    pub fn one() -> (r: Self)
        ensures
            r@ == 1,
    {
        proof {
            reveal(value6);
        }
        CamlBn382Fq { limbs: [1, 0, 0, 0, 0, 0] }
    }

    /// The element of a number below two to the power 64.
    pub fn from_u64(x: u64) -> (r: Self)
        ensures
            r@ == x,
    {
        proof {
            reveal(value6);
        }
        CamlBn382Fq { limbs: [x, 0, 0, 0, 0, 0] }
    }

    /// Whether the element is zero.
    pub fn is_zero(&self) -> (r: bool)
        ensures
            r == (self@ == 0),
            self@ < modulus(),
    {
        proof {
            use_type_invariant(self);
        }
        is_zero6(&self.limbs)
    }

    /// Whether the element is one.
    pub fn is_one(&self) -> (r: bool)
        ensures
            r == (self@ == 1),
            self@ < modulus(),
    {
        proof {
            use_type_invariant(self);
        }
        is_one6(&self.limbs)
    }

    /// Whether the element has the same representative as the other.
    pub fn equals(&self, other: &Self) -> (r: bool)
        ensures
            r == (self@ == other@),
    {
        eq6(&self.limbs, &other.limbs)
    }

    /// Whether the representative of the element is below that of the other.
    pub fn below(&self, other: &Self) -> (r: bool)
        ensures
            r == (self@ < other@),
    {
        lt6(&self.limbs, &other.limbs)
    }

    /// The sum of two elements.
    pub fn add(&self, other: &Self) -> (r: Self)
        ensures
            r@ == fq_add(self@, other@),
    {
        proof {
            use_type_invariant(self);
            use_type_invariant(other);
        }
        let m = modulus_limbs();
        let (sum, carry) = add6(&self.limbs, &other.limbs);
        let (diff, borrow) = sub6(&sum, &m);
        if borrow == 1 {
            proof {
                lemma_small_mod(value6(sum@), modulus());
            }
            CamlBn382Fq { limbs: sum }
        } else {
            proof {
                lemma_small_mod(value6(diff@), modulus());
                lemma_mod_sub_multiples_vanish(value6(sum@) as int, modulus() as int);
            }
            CamlBn382Fq { limbs: diff }
        }
    }

    /// The difference of two elements.
    pub fn sub(&self, other: &Self) -> (r: Self)
        ensures
            r@ == fq_sub(self@, other@),
    {
        proof {
            use_type_invariant(self);
            use_type_invariant(other);
        }
        let m = modulus_limbs();
        let (diff, borrow) = sub6(&self.limbs, &other.limbs);
        if borrow == 1 {
            let (wrapped, carry) = add6(&diff, &m);
            proof {
                let d = self@ - other@;
                lemma_value6_bound(wrapped@);
                lemma_value6_bound(diff@);
                assert(value6(wrapped@) == d + modulus());
                lemma_small_mod(value6(wrapped@), modulus());
                lemma_mod_add_multiples_vanish(d, modulus() as int);
            }
            CamlBn382Fq { limbs: wrapped }
        } else {
            proof {
                lemma_small_mod(value6(diff@), modulus());
            }
            CamlBn382Fq { limbs: diff }
        }
    }

    /// The additive inverse of an element.
    pub fn neg(&self) -> (r: Self)
        ensures
            r@ == fq_neg(self@),
    {
        let z = Self::zero();
        z.sub(self)
    }

    /// Half of an element: the element that, doubled, gives this one.
    pub fn halve(&self) -> (r: Self)
        ensures
            (2 * r@) % modulus() == self@,
            r@ < modulus(),
    {
        proof {
            use_type_invariant(self);
        }
        if is_even6(&self.limbs) {
            let half = halve6(&self.limbs);
            proof {
                lemma_small_mod(self@, modulus());
            }
            CamlBn382Fq { limbs: half }
        } else {
            let m = modulus_limbs();
            let (sum, carry) = add6(&self.limbs, &m);
            let half = halve6(&sum);
            proof {
                assert(value6(sum@) == self@ + modulus());
                assert(value6(sum@) % 2 == 0);
                lemma_small_mod(self@, modulus());
                lemma_mod_add_multiples_vanish(self@ as int, modulus() as int);
            }
            CamlBn382Fq { limbs: half }
        }
    }

    /// The product of an element and a number below two to the power 64.
    pub fn mul_small(&self, w: u64) -> (r: Self)
        ensures
            r@ == fq_mul(self@, w as nat),
    {
        proof {
            use_type_invariant(self);
        }
        let wide = mul_limb6(&self.limbs, w);
        proof {
            lemma_mul_strict_inequality(
                w as int,
                0x1_0000_0000_0000_0000,
                modulus() as int,
            );
            lemma_mul_inequality(self@ as int, modulus() as int, w as int);
            lemma_mul_is_commutative(w as int, modulus() as int);
        }
        CamlBn382Fq { limbs: reduce7(&wide) }
    }

    /// The element times two to the power 64, plus the product of `a` and
    /// `w`: one step of a multiplication that takes the limbs of the second
    /// factor from the most significant down.
    fn horner_step(&self, a: &Self, w: u64) -> (r: Self)
        ensures
            r@ == (self@ as int * 0x1_0000_0000_0000_0000 + a@ as int * w as int)
                % (modulus() as int),
    {
        proof {
            use_type_invariant(self);
        }
        let shifted: [u64; 7] = [
            0,
            self.limbs[0],
            self.limbs[1],
            self.limbs[2],
            self.limbs[3],
            self.limbs[4],
            self.limbs[5],
        ];
        assert(value7(shifted@) == self@ * 0x1_0000_0000_0000_0000) by {
            reveal(value6);
            reveal(value7);
        }
        let high = CamlBn382Fq { limbs: reduce7(&shifted) };
        let low = a.mul_small(w);
        let r = high.add(&low);
        proof {
            lemma_add_mod_noop(
                self@ as int * 0x1_0000_0000_0000_0000,
                a@ as int * w as int,
                modulus() as int,
            );
        }
        r
    }

    /// The product of two elements.
    pub fn mul(&self, other: &Self) -> (r: Self)
        ensures
            r@ == fq_mul(self@, other@),
    {
        proof {
            use_type_invariant(self);
            use_type_invariant(other);
        }
        let b = &other.limbs;
        let acc5 = self.mul_small(b[5]);
        let acc4 = acc5.horner_step(self, b[4]);
        let acc3 = acc4.horner_step(self, b[3]);
        let acc2 = acc3.horner_step(self, b[2]);
        let acc1 = acc2.horner_step(self, b[1]);
        let acc0 = acc1.horner_step(self, b[0]);
        proof {
            let a = self@ as int;
            let h5 = b[5] as int;
            let h4 = h5 * 0x1_0000_0000_0000_0000 + b[4];
            let h3 = h4 * 0x1_0000_0000_0000_0000 + b[3];
            let h2 = h3 * 0x1_0000_0000_0000_0000 + b[2];
            let h1 = h2 * 0x1_0000_0000_0000_0000 + b[1];
            let h0 = h1 * 0x1_0000_0000_0000_0000 + b[0];
            assert(h0 == other@) by {
                reveal(value6);
            }
            lemma_horner_step(a, h5, b[4] as int, acc5@ as int);
            lemma_horner_step(a, h4, b[3] as int, acc4@ as int);
            lemma_horner_step(a, h3, b[2] as int, acc3@ as int);
            lemma_horner_step(a, h2, b[1] as int, acc2@ as int);
            lemma_horner_step(a, h1, b[0] as int, acc1@ as int);
        }
        acc0
    }

    /// The square of an element.
    pub fn square(&self) -> (r: Self)
        ensures
            r@ == fq_square(self@),
    {
        self.mul(self)
    }
}

/// One step of the multiplication: with `acc` the residue of `a * h`, the
/// step yields the residue of `a` times `h` extended by the limb `w`.
proof fn lemma_horner_step(a: int, h: int, w: int, acc: int)
    requires
        acc == (a * h) % (modulus() as int),
    ensures
        (acc * 0x1_0000_0000_0000_0000 + a * w) % (modulus() as int) == (a * (h
            * 0x1_0000_0000_0000_0000 + w)) % (modulus() as int),
{
    let p = modulus() as int;
    let b = 0x1_0000_0000_0000_0000int;
    lemma_mul_mod_noop_left(a * h, b, p);
    lemma_add_mod_noop(acc * b, a * w, p);
    lemma_add_mod_noop((a * h) * b, a * w, p);
    assert((a * h) * b + a * w == a * (h * b + w)) by (nonlinear_arith);
}

} // verus!
