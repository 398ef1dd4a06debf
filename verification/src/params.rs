//! The parameters of the field: the prime modulus and the constants derived
//! from it.

use crate::limbs::value6;
use vstd::prelude::*;

verus! {

/// The number of bits of the modulus.
pub const MODULUS_BITS: u32 = 382;

/// The largest `k` such that two to the power `k` divides the modulus minus
/// one.
pub const TWO_ADICITY: u32 = 67;

/// The prime modulus of the field.
pub open spec fn modulus() -> nat {
    5543634365110765627805495722742127385843376434033820803592568747918351978899288491582778380528407187068941959692289nat
}

/// The modulus minus one: the residue of minus one.
pub open spec fn modulus_minus_one() -> nat {
    5543634365110765627805495722742127385843376434033820803592568747918351978899288491582778380528407187068941959692288nat
}

/// Half of the modulus minus one: the exponent of Euler's criterion.
pub open spec fn modulus_minus_one_div_two() -> nat {
    2771817182555382813902747861371063692921688217016910401796284373959175989449644245791389190264203593534470979846144nat
}

/// The odd part `t` of the modulus minus one, which is `t` times two to the
/// power `TWO_ADICITY`.
pub open spec fn odd_part() -> nat {
    37565127638239951118918932953668890323534692430176525960369481856655879434227471424809961882371nat
}

/// Half of the odd part minus one.
pub open spec fn odd_part_minus_one_div_two() -> nat {
    18782563819119975559459466476834445161767346215088262980184740928327939717113735712404980941185nat
}

/// A root of unity of order two to the power `TWO_ADICITY`: seven, the least
/// quadratic non-residue, raised to the odd part of the modulus minus one.
pub open spec fn two_adic_root_of_unity() -> nat {
    950838555121469764895066233784900498989129429402054244948726633846932698297064044539167408369284624314448218509887nat
}

/// How the derived constants relate to the modulus.
pub proof fn lemma_parameters()
    ensures
        modulus() == modulus_minus_one() + 1,
        modulus() == 2 * modulus_minus_one_div_two() + 1,
        modulus() == odd_part() * 0x8_0000_0000_0000_0000 + 1,
        odd_part() == 2 * odd_part_minus_one_div_two() + 1,
        0x2000_0000_0000_0000_0000_0000_0000_0000_0000_0000_0000_0000_0000_0000_0000_0000_0000_0000_0000_0000_0000_0000_0000_0000
            <= modulus()
            < 0x4000_0000_0000_0000_0000_0000_0000_0000_0000_0000_0000_0000_0000_0000_0000_0000_0000_0000_0000_0000_0000_0000_0000_0000,
        two_adic_root_of_unity() < modulus(),
{
}

/// The limbs of the modulus.
pub fn modulus_limbs() -> (r: [u64; 6])
    ensures
        value6(r@) == modulus(),
{
    proof {
        reveal(value6);
    }
    [
        0x0000000000000001,
        0x00000001800c1818,
        0x8018309183030180,
        0xb48a3614289b0901,
        0x71503c69b09dbf88,
        0x2404893fdad8878e,
    ]
}

/// The limbs of half of the modulus minus one.
pub fn modulus_minus_one_div_two_limbs() -> (r: [u64; 6])
    ensures
        value6(r@) == modulus_minus_one_div_two(),
{
    proof {
        reveal(value6);
    }
    [
        0x0000000000000000,
        0x00000000c0060c0c,
        0xc00c1848c18180c0,
        0x5a451b0a144d8480,
        0x38a81e34d84edfc4,
        0x1202449fed6c43c7,
    ]
}

/// The limbs of half of the odd part minus one.
pub fn odd_part_minus_one_div_two_limbs() -> (r: [u64; 6])
    ensures
        value6(r@) == odd_part_minus_one_div_two(),
{
    proof {
        reveal(value6);
    }
    [
        0x000000001800c181,
        0x1801830918303018,
        0x8b48a3614289b090,
        0xe71503c69b09dbf8,
        0x02404893fdad8878,
        0x0000000000000000,
    ]
}

/// The limbs of the root of unity of order two to the power `TWO_ADICITY`.
pub fn two_adic_root_of_unity_limbs() -> (r: [u64; 6])
    ensures
        value6(r@) == two_adic_root_of_unity(),
{
    proof {
        reveal(value6);
    }
    [
        0x2844471319c5523f,
        0x073d57fae5c2ee27,
        0xb0afa021ce31aa4f,
        0x8992fc42298c0e1d,
        0x541c18aa468c1f75,
        0x062d7f3cfaed9a29,
    ]
}

} // verus!
