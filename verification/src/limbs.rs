//! Arithmetic on fixed-width numbers of six and seven 64-bit limbs,
//! least significant limb first.

use vstd::prelude::*;

verus! {

/// The number held by six limbs.
#[verifier::opaque]
pub open spec fn value6(l: Seq<u64>) -> nat {
    (l[0] + l[1] * 0x1_0000_0000_0000_0000 + l[2] * 0x1_0000_0000_0000_0000_0000_0000_0000_0000
        + l[3] * 0x1_0000_0000_0000_0000_0000_0000_0000_0000_0000_0000_0000_0000 + l[4]
        * 0x1_0000_0000_0000_0000_0000_0000_0000_0000_0000_0000_0000_0000_0000_0000_0000_0000
        + l[5]
        * 0x1_0000_0000_0000_0000_0000_0000_0000_0000_0000_0000_0000_0000_0000_0000_0000_0000_0000_0000_0000_0000) as nat
}

/// The number held by seven limbs.
#[verifier::opaque]
pub open spec fn value7(l: Seq<u64>) -> nat {
    (value6(l) + l[6]
        * 0x1_0000_0000_0000_0000_0000_0000_0000_0000_0000_0000_0000_0000_0000_0000_0000_0000_0000_0000_0000_0000_0000_0000_0000_0000) as nat
}

/// Two to the power 384: the first number that six limbs cannot hold.
pub open spec fn bound6() -> nat {
    0x1_0000_0000_0000_0000_0000_0000_0000_0000_0000_0000_0000_0000_0000_0000_0000_0000_0000_0000_0000_0000_0000_0000_0000_0000nat
}

/// Six limbs hold a number below two to the power 384.
pub proof fn lemma_value6_bound(l: Seq<u64>)
    ensures
        value6(l) < bound6(),
{
    reveal(value6);
}

/// Two sequences of six limbs that hold the same number are the same.
pub proof fn lemma_value6_injective(a: Seq<u64>, b: Seq<u64>)
    requires
        a.len() == 6,
        b.len() == 6,
        value6(a) == value6(b),
    ensures
        a =~= b,
{
    reveal(value6);
    assert(a[5] == b[5]);
    assert(a[4] == b[4]);
    assert(a[3] == b[3]);
    assert(a[2] == b[2]);
    assert(a[1] == b[1]);
    assert(a[0] == b[0]);
}

/// Adds two limbs and a carry; returns the low limb and the carry out.
pub fn adc(a: u64, b: u64, carry: u64) -> (r: (u64, u64))
    requires
        carry <= 1,
    ensures
        r.0 + r.1 * 0x1_0000_0000_0000_0000 == a + b + carry,
        r.1 <= 1,
{
    let t: u128 = a as u128 + b as u128 + carry as u128;
    let lo: u64 = (t % 0x1_0000_0000_0000_0000u128) as u64;
    let hi: u64 = (t / 0x1_0000_0000_0000_0000u128) as u64;
    (lo, hi)
}

/// Subtracts a limb and a borrow from a limb; returns the low limb and the
/// borrow out.
pub fn sbb(a: u64, b: u64, borrow: u64) -> (r: (u64, u64))
    requires
        borrow <= 1,
    ensures
        r.0 - r.1 * 0x1_0000_0000_0000_0000 == a - b - borrow,
        r.1 <= 1,
{
    let t: u128 = 0x1_0000_0000_0000_0000u128 + a as u128 - b as u128 - borrow as u128;
    let lo: u64 = (t % 0x1_0000_0000_0000_0000u128) as u64;
    let hi: u64 = 1 - (t / 0x1_0000_0000_0000_0000u128) as u64;
    (lo, hi)
}

/// Multiplies two limbs and adds a carry; returns the low and the high limb.
pub fn mac(a: u64, w: u64, carry: u64) -> (r: (u64, u64))
    ensures
        r.0 + r.1 * 0x1_0000_0000_0000_0000 == a * w + carry,
{
    assert(a * w <= 0xffff_ffff_ffff_ffff * 0xffff_ffff_ffff_ffff) by (nonlinear_arith)
        requires
            a <= 0xffff_ffff_ffff_ffff,
            w <= 0xffff_ffff_ffff_ffff,
    ;
    let t: u128 = a as u128 * w as u128 + carry as u128;
    let lo: u64 = (t % 0x1_0000_0000_0000_0000u128) as u64;
    let hi: u64 = (t / 0x1_0000_0000_0000_0000u128) as u64;
    (lo, hi)
}

/// Adds two numbers of six limbs; returns the sum modulo two to the power 384
/// and the carry out.
pub fn add6(a: &[u64; 6], b: &[u64; 6]) -> (r: ([u64; 6], u64))
    ensures
        value6(r.0@) + r.1 * bound6() == value6(a@) + value6(b@),
        r.1 <= 1,
{
    proof {
        reveal(value6);
    }
    let (s0, c0) = adc(a[0], b[0], 0);
    let (s1, c1) = adc(a[1], b[1], c0);
    let (s2, c2) = adc(a[2], b[2], c1);
    let (s3, c3) = adc(a[3], b[3], c2);
    let (s4, c4) = adc(a[4], b[4], c3);
    let (s5, c5) = adc(a[5], b[5], c4);
    ([s0, s1, s2, s3, s4, s5], c5)
}

/// Subtracts two numbers of six limbs; returns the difference modulo two to
/// the power 384 and the borrow out, which is 1 exactly when `a < b`.
pub fn sub6(a: &[u64; 6], b: &[u64; 6]) -> (r: ([u64; 6], u64))
    ensures
        value6(r.0@) - r.1 * bound6() == value6(a@) - value6(b@),
        r.1 <= 1,
        (r.1 == 1) == (value6(a@) < value6(b@)),
{
    proof {
        reveal(value6);
    }
    let (d0, c0) = sbb(a[0], b[0], 0);
    let (d1, c1) = sbb(a[1], b[1], c0);
    let (d2, c2) = sbb(a[2], b[2], c1);
    let (d3, c3) = sbb(a[3], b[3], c2);
    let (d4, c4) = sbb(a[4], b[4], c3);
    let (d5, c5) = sbb(a[5], b[5], c4);
    ([d0, d1, d2, d3, d4, d5], c5)
}

/// Whether the six limbs hold zero.
pub fn is_zero6(a: &[u64; 6]) -> (r: bool)
    ensures
        r == (value6(a@) == 0),
{
    proof {
        reveal(value6);
    }
    a[0] == 0 && a[1] == 0 && a[2] == 0 && a[3] == 0 && a[4] == 0 && a[5] == 0
}

/// Whether the six limbs hold one.
pub fn is_one6(a: &[u64; 6]) -> (r: bool)
    ensures
        r == (value6(a@) == 1),
{
    proof {
        reveal(value6);
    }
    a[0] == 1 && a[1] == 0 && a[2] == 0 && a[3] == 0 && a[4] == 0 && a[5] == 0
}

/// Whether the six limbs hold an even number.
pub fn is_even6(a: &[u64; 6]) -> (r: bool)
    ensures
        r == (value6(a@) % 2 == 0),
{
    proof {
        reveal(value6);
    }
    a[0] % 2 == 0
}

/// Whether `a` is below `b`.
pub fn lt6(a: &[u64; 6], b: &[u64; 6]) -> (r: bool)
    ensures
        r == (value6(a@) < value6(b@)),
{
    let (_, borrow) = sub6(a, b);
    borrow == 1
}

/// Whether `a` and `b` hold the same number.
pub fn eq6(a: &[u64; 6], b: &[u64; 6]) -> (r: bool)
    ensures
        r == (value6(a@) == value6(b@)),
{
    let (d, borrow) = sub6(a, b);
    borrow == 0 && is_zero6(&d)
}

/// Halves a number of six limbs, rounding down.
pub fn halve6(a: &[u64; 6]) -> (r: [u64; 6])
    ensures
        value6(r@) == value6(a@) / 2,
        value6(a@) == 2 * value6(r@) + a[0] % 2,
{
    proof {
        reveal(value6);
    }
    let h0: u64 = a[0] / 2 + (a[1] % 2) * 0x8000_0000_0000_0000;
    let h1: u64 = a[1] / 2 + (a[2] % 2) * 0x8000_0000_0000_0000;
    let h2: u64 = a[2] / 2 + (a[3] % 2) * 0x8000_0000_0000_0000;
    let h3: u64 = a[3] / 2 + (a[4] % 2) * 0x8000_0000_0000_0000;
    let h4: u64 = a[4] / 2 + (a[5] % 2) * 0x8000_0000_0000_0000;
    let h5: u64 = a[5] / 2;
    [h0, h1, h2, h3, h4, h5]
}

/// Multiplies a number of six limbs by one limb.
pub fn mul_limb6(a: &[u64; 6], w: u64) -> (r: [u64; 7])
    ensures
        value7(r@) == value6(a@) * w,
{
    let (m0, c0) = mac(a[0], w, 0);
    let (m1, c1) = mac(a[1], w, c0);
    let (m2, c2) = mac(a[2], w, c1);
    let (m3, c3) = mac(a[3], w, c2);
    let (m4, c4) = mac(a[4], w, c3);
    let (m5, c5) = mac(a[5], w, c4);
    let r = [m0, m1, m2, m3, m4, m5, c5];
    proof {
        reveal(value6);
        reveal(value7);
        let ghost x0 = a[0] * w;
        let ghost x1 = a[1] * w;
        let ghost x2 = a[2] * w;
        let ghost x3 = a[3] * w;
        let ghost x4 = a[4] * w;
        let ghost x5 = a[5] * w;
        assert(value7(r@) == x0 + x1 * 0x1_0000_0000_0000_0000 + x2
            * 0x1_0000_0000_0000_0000_0000_0000_0000_0000 + x3
            * 0x1_0000_0000_0000_0000_0000_0000_0000_0000_0000_0000_0000_0000 + x4
            * 0x1_0000_0000_0000_0000_0000_0000_0000_0000_0000_0000_0000_0000_0000_0000_0000_0000
            + x5
            * 0x1_0000_0000_0000_0000_0000_0000_0000_0000_0000_0000_0000_0000_0000_0000_0000_0000_0000_0000_0000_0000);
        lemma_scale6(a@, w as int);
    }
    r
}

/// Multiplying the value of six limbs by a factor multiplies each limb.
pub proof fn lemma_scale6(l: Seq<u64>, w: int)
    ensures
        value6(l) * w == (l[0] * w) + (l[1] * w) * 0x1_0000_0000_0000_0000 + (l[2] * w)
            * 0x1_0000_0000_0000_0000_0000_0000_0000_0000 + (l[3] * w)
            * 0x1_0000_0000_0000_0000_0000_0000_0000_0000_0000_0000_0000_0000 + (l[4] * w)
            * 0x1_0000_0000_0000_0000_0000_0000_0000_0000_0000_0000_0000_0000_0000_0000_0000_0000
            + (l[5] * w)
            * 0x1_0000_0000_0000_0000_0000_0000_0000_0000_0000_0000_0000_0000_0000_0000_0000_0000_0000_0000_0000_0000,
{
    reveal(value6);
    let a0 = l[0] as int;
    let a1 = l[1] as int;
    let a2 = l[2] as int;
    let a3 = l[3] as int;
    let a4 = l[4] as int;
    let a5 = l[5] as int;
    assert((a0 + a1 * 0x1_0000_0000_0000_0000 + a2 * 0x1_0000_0000_0000_0000_0000_0000_0000_0000
        + a3 * 0x1_0000_0000_0000_0000_0000_0000_0000_0000_0000_0000_0000_0000 + a4
        * 0x1_0000_0000_0000_0000_0000_0000_0000_0000_0000_0000_0000_0000_0000_0000_0000_0000 + a5
        * 0x1_0000_0000_0000_0000_0000_0000_0000_0000_0000_0000_0000_0000_0000_0000_0000_0000_0000_0000_0000_0000)
        * w == (a0 * w) + (a1 * w) * 0x1_0000_0000_0000_0000 + (a2 * w)
        * 0x1_0000_0000_0000_0000_0000_0000_0000_0000 + (a3 * w)
        * 0x1_0000_0000_0000_0000_0000_0000_0000_0000_0000_0000_0000_0000 + (a4 * w)
        * 0x1_0000_0000_0000_0000_0000_0000_0000_0000_0000_0000_0000_0000_0000_0000_0000_0000 + (a5
        * w)
        * 0x1_0000_0000_0000_0000_0000_0000_0000_0000_0000_0000_0000_0000_0000_0000_0000_0000_0000_0000_0000_0000)
        by (nonlinear_arith);
}

/// Subtracts two numbers of seven limbs; the borrow out is 1 exactly when
/// `a < b`.
pub fn sub7(a: &[u64; 7], b: &[u64; 7]) -> (r: ([u64; 7], u64))
    ensures
        value7(r.0@) - r.1 * bound6() * 0x1_0000_0000_0000_0000 == value7(a@) - value7(b@),
        r.1 <= 1,
        (r.1 == 1) == (value7(a@) < value7(b@)),
{
    proof {
        reveal(value6);
        reveal(value7);
    }
    let (d0, c0) = sbb(a[0], b[0], 0);
    let (d1, c1) = sbb(a[1], b[1], c0);
    let (d2, c2) = sbb(a[2], b[2], c1);
    let (d3, c3) = sbb(a[3], b[3], c2);
    let (d4, c4) = sbb(a[4], b[4], c3);
    let (d5, c5) = sbb(a[5], b[5], c4);
    let (d6, c6) = sbb(a[6], b[6], c5);
    ([d0, d1, d2, d3, d4, d5, d6], c6)
}

/// Divides a number of six limbs by ten; returns quotient and remainder.
pub fn div_rem_10(a: &[u64; 6]) -> (r: ([u64; 6], u8))
    ensures
        value6(a@) == 10 * value6(r.0@) + r.1,
        r.1 < 10,
{
    proof {
        reveal(value6);
    }
    let (q5, r5) = div_step_10(a[5], 0);
    let (q4, r4) = div_step_10(a[4], r5);
    let (q3, r3) = div_step_10(a[3], r4);
    let (q2, r2) = div_step_10(a[2], r3);
    let (q1, r1) = div_step_10(a[1], r2);
    let (q0, r0) = div_step_10(a[0], r1);
    ([q0, q1, q2, q3, q4, q5], r0 as u8)
}

/// One step of the long division by ten: divides `rem * 2^64 + limb`.
fn div_step_10(limb: u64, rem: u64) -> (r: (u64, u64))
    requires
        rem < 10,
    ensures
        rem * 0x1_0000_0000_0000_0000 + limb == 10 * r.0 + r.1,
        r.1 < 10,
{
    let cur: u128 = rem as u128 * 0x1_0000_0000_0000_0000u128 + limb as u128;
    let q: u128 = cur / 10;
    let m: u128 = cur % 10;
    (q as u64, m as u64)
}

} // verus!
