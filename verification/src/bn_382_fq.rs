//! The operations of the field, as functions on field elements.

use crate::bigint_384::CamlBigint384;
use crate::decimal::{as_chars, decimal_digits, decimal_value, is_decimal, parse_spec};
use crate::error::FieldError;
use crate::field::CamlBn382Fq;
use crate::limbs::lt6;
use crate::modular::{
    fq_add, fq_div, fq_has_root, fq_inverse, fq_is_sqrt, fq_is_square, fq_mul, fq_neg, fq_pow,
    fq_sqrt, fq_square, fq_sub, lemma_fq_mul_associative, lemma_fq_mul_commutative,
    lemma_fq_mul_one,
};
use crate::params::{
    modulus, modulus_limbs, two_adic_root_of_unity, two_adic_root_of_unity_limbs,
    MODULUS_BITS,
};
use crate::random::{low_bits, random, random_seeded, seed_of, seeded_sample};
use crate::roots::{
    domain_generator, domain_generator_spec, lemma_domain_generator_order,
    lemma_root_of_unity_order,
};
use vstd::arithmetic::power2::pow2;
use vstd::prelude::*;

verus! {

/// The number below two to the power 64 that a machine integer stands for:
/// the integer itself where it is not negative, else the integer plus two to
/// the power 64.
pub open spec fn int_as_u64(i: isize) -> nat {
    if i >= 0 {
        i as nat
    } else {
        (i + 0x1_0000_0000_0000_0000) as nat
    }
}

/// How two representatives compare: -1, 0 or 1 as the first is below, equal
/// to or above the second.
pub open spec fn compare_spec(a: nat, b: nat) -> int {
    if a < b {
        -1
    } else if a == b {
        0
    } else {
        1
    }
}

/// The number of bits of the modulus.
pub fn caml_bn_382_fq_size_in_bits() -> (r: isize)
    ensures
        r == MODULUS_BITS,
        r == 382,
{
    382
}

/// The modulus.
pub fn caml_bn_382_fq_size() -> (r: CamlBigint384)
    ensures
        r@ == modulus(),
{
    CamlBigint384::new(modulus_limbs())
}

/// The sum of two elements.
pub fn caml_bn_382_fq_add(x: &CamlBn382Fq, y: &CamlBn382Fq) -> (r: CamlBn382Fq)
    ensures
        r@ == fq_add(x@, y@),
{
    x.add(y)
}

/// The difference of two elements.
pub fn caml_bn_382_fq_sub(x: &CamlBn382Fq, y: &CamlBn382Fq) -> (r: CamlBn382Fq)
    ensures
        r@ == fq_sub(x@, y@),
{
    x.sub(y)
}

/// The additive inverse of an element.
pub fn caml_bn_382_fq_negate(x: &CamlBn382Fq) -> (r: CamlBn382Fq)
    ensures
        r@ == fq_neg(x@),
{
    x.neg()
}

/// The product of two elements.
pub fn caml_bn_382_fq_mul(x: &CamlBn382Fq, y: &CamlBn382Fq) -> (r: CamlBn382Fq)
    ensures
        r@ == fq_mul(x@, y@),
{
    x.mul(y)
}

/// The quotient of two elements; refused where the divisor is zero.
pub fn caml_bn_382_fq_div(x: &CamlBn382Fq, y: &CamlBn382Fq) -> (r: Result<
    CamlBn382Fq,
    FieldError,
>)
    ensures
        y@ != 0 ==> r.is_ok() && Some(r.unwrap()@) == fq_div(x@, y@),
        y@ == 0 ==> r == Err::<CamlBn382Fq, FieldError>(FieldError::UndefinedOperation),
        r.is_ok() ==> fq_mul(r.unwrap()@, y@) == x@,
{
    match y.inverse() {
        Some(c) => {
            proof {
                use_type_invariant(x);
                lemma_fq_mul_associative(x@, c@, y@);
                lemma_fq_mul_commutative(c@, y@);
                lemma_fq_mul_one(x@);
            }
            Ok(x.mul(&c))
        },
        None => Err(FieldError::UndefinedOperation),
    }
}

/// The multiplicative inverse of an element; none for zero, which has none.
pub fn caml_bn_382_fq_inv(x: &CamlBn382Fq) -> (r: Option<CamlBn382Fq>)
    ensures
        x@ != 0 ==> r is Some && Some(r.unwrap()@) == fq_inverse(x@),
        x@ == 0 ==> r is None,
        r is Some ==> fq_mul(x@, r.unwrap()@) == 1,
{
    x.inverse()
}

/// The square of an element.
pub fn caml_bn_382_fq_square(x: &CamlBn382Fq) -> (r: CamlBn382Fq)
    ensures
        r@ == fq_square(x@),
        r@ == fq_mul(x@, x@),
{
    x.square()
}

/// Whether an element is the square of some element, which Euler's
/// criterion tells: raised to half of the modulus minus one, the element is
/// zero or one.
pub fn caml_bn_382_fq_is_square(x: &CamlBn382Fq) -> (r: bool)
    ensures
        r == fq_is_square(x@),
        r == fq_has_root(x@),
{
    x.is_square()
}

/// The square root of an element in the lower half of the field; none where
/// the element is no square.
pub fn caml_bn_382_fq_sqrt(x: &CamlBn382Fq) -> (r: Option<CamlBn382Fq>)
    ensures
        fq_has_root(x@) ==> r is Some && Some(r.unwrap()@) == fq_sqrt(x@),
        !fq_has_root(x@) ==> r is None,
        r is Some == fq_is_square(x@),
        r is Some ==> fq_is_sqrt(x@, r.unwrap()@),
        r is Some ==> fq_square(r.unwrap()@) == x@,
        x@ == 0 ==> r is Some && r.unwrap()@ == 0,
{
    x.sqrt()
}

/// The element of a machine integer, read as a number below two to the
/// power 64.
pub fn caml_bn_382_fq_of_int(i: isize) -> (r: CamlBn382Fq)
    ensures
        r@ == int_as_u64(i),
{
    if i >= 0 {
        CamlBn382Fq::from_u64(i as u64)
    } else {
        let below: u64 = (-(i + 1)) as u64;
        CamlBn382Fq::from_u64(u64::MAX - below)
    }
}

/// The canonical decimal numeral of an element.
pub fn caml_bn_382_fq_to_string(x: &CamlBn382Fq) -> (r: String)
    ensures
        r@ == as_chars(decimal_digits(x@)),
{
    x.to_decimal()
}

/// The element that a decimal numeral denotes, reduced by the modulus;
/// refused where the bytes are not one digit or more and nothing else.
pub fn caml_bn_382_fq_of_string(s: &[u8]) -> (r: Result<CamlBn382Fq, FieldError>)
    ensures
        is_decimal(s@) ==> r.is_ok() && r.unwrap()@ == decimal_value(s@) % modulus(),
        !is_decimal(s@) ==> r == Err::<CamlBn382Fq, FieldError>(FieldError::InvalidArgument),
        r.is_ok() ==> parse_spec(s@) == Some(r.unwrap()@),
{
    CamlBn382Fq::from_decimal(s)
}

/// A copy of an element.
pub fn caml_bn_382_fq_copy(x: &CamlBn382Fq) -> (r: CamlBn382Fq)
    ensures
        r@ == x@,
{
    *x
}

/// Adds `y` to `x` in place.
pub fn caml_bn_382_fq_mut_add(x: &mut CamlBn382Fq, y: &CamlBn382Fq)
    ensures
        final(x)@ == fq_add(old(x)@, y@),
{
    *x = x.add(y);
}

/// Subtracts `y` from `x` in place.
pub fn caml_bn_382_fq_mut_sub(x: &mut CamlBn382Fq, y: &CamlBn382Fq)
    ensures
        final(x)@ == fq_sub(old(x)@, y@),
{
    *x = x.sub(y);
}

/// Multiplies `x` by `y` in place.
pub fn caml_bn_382_fq_mut_mul(x: &mut CamlBn382Fq, y: &CamlBn382Fq)
    ensures
        final(x)@ == fq_mul(old(x)@, y@),
{
    *x = x.mul(y);
}

/// Squares `x` in place.
pub fn caml_bn_382_fq_mut_square(x: &mut CamlBn382Fq)
    ensures
        final(x)@ == fq_square(old(x)@),
{
    *x = x.square();
}

/// Compares two elements by their canonical representatives: -1, 0 or 1 as
/// `x` is below, equal to or above `y`.
pub fn caml_bn_382_fq_compare(x: &CamlBn382Fq, y: &CamlBn382Fq) -> (r: isize)
    ensures
        r == compare_spec(x@, y@),
{
    if x.below(y) {
        -1
    } else if y.below(x) {
        1
    } else {
        0
    }
}

/// Whether two elements have the same canonical representative.
pub fn caml_bn_382_fq_equal(x: &CamlBn382Fq, y: &CamlBn382Fq) -> (r: bool)
    ensures
        r == (x@ == y@),
{
    x.equals(y)
}

/// An element sampled from the generator of the current thread.
pub fn caml_bn_382_fq_random() -> (r: CamlBn382Fq)
    ensures
        r@ < modulus(),
{
    random()
}

/// An element sampled from the standard generator seeded with the low
/// thirty-two bits of `i`. The same seed gives the same element.
pub fn caml_bn_382_fq_rng(i: isize) -> (r: CamlBn382Fq)
    ensures
        r@ == seeded_sample(seed_of(i)),
{
    random_seeded(low_bits(i))
}

/// The canonical representative of an element.
pub fn caml_bn_382_fq_to_bigint(x: &CamlBn382Fq) -> (r: CamlBigint384)
    ensures
        r@ == x@,
        r@ < modulus(),
{
    proof {
        x.lemma_spec_limbs();
        use_type_invariant(x);
    }
    CamlBigint384::from(x)
}

/// The element whose canonical representative is `x`; refused where `x` is
/// not below the modulus.
pub fn caml_bn_382_fq_of_bigint(x: &CamlBigint384) -> (r: Result<CamlBn382Fq, FieldError>)
    ensures
        x@ < modulus() ==> r.is_ok() && r.unwrap()@ == x@,
        x@ >= modulus() ==> r == Err::<CamlBn382Fq, FieldError>(FieldError::InvalidArgument),
{
    let m = modulus_limbs();
    if lt6(&x.limbs, &m) {
        Ok(CamlBn382Fq::from_limbs(x.limbs))
    } else {
        Err(FieldError::InvalidArgument)
    }
}

/// The root of unity whose order is two to the power of the two-adicity.
pub fn caml_bn_382_fq_two_adic_root_of_unity() -> (r: CamlBn382Fq)
    ensures
        r@ == two_adic_root_of_unity(),
        fq_pow(r@, pow2(67)) == 1,
        fq_pow(r@, pow2(66)) == modulus() - 1,
{
    proof {
        lemma_root_of_unity_order();
    }
    CamlBn382Fq::from_limbs(two_adic_root_of_unity_limbs())
}

/// The generator of the subgroup of order two to the power `log2_size`;
/// refused where `log2_size` is negative or above the two-adicity.
pub fn caml_bn_382_fq_domain_generator(log2_size: isize) -> (r: Result<CamlBn382Fq, FieldError>)
    ensures
        0 <= log2_size <= 67 ==> r.is_ok() && r.unwrap()@ == domain_generator_spec(
            log2_size as nat,
        ),
        !(0 <= log2_size <= 67) ==> r == Err::<CamlBn382Fq, FieldError>(
            FieldError::DomainSizeUnsupported,
        ),
        r.is_ok() ==> fq_pow(r.unwrap()@, pow2(log2_size as nat)) == 1,
        r.is_ok() && log2_size >= 1 ==> fq_pow(r.unwrap()@, pow2((log2_size - 1) as nat))
            == modulus() - 1,
        r.is_ok() && log2_size == 0 ==> r.unwrap()@ == 1,
{
    proof {
        if 0 <= log2_size <= 67 {
            lemma_domain_generator_order(log2_size as nat);
        }
    }
    domain_generator(log2_size)
}

} // verus!
