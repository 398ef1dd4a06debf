//! Decimal numerals: reading a field element from one and writing one out.

use crate::error::FieldError;
use crate::field::CamlBn382Fq;
use crate::limbs::{div_rem_10, is_zero6, value6};
use crate::modular::{fq_add, fq_mul};
use crate::params::modulus;
use vstd::arithmetic::div_mod::{lemma_add_mod_noop, lemma_mul_mod_noop_left, lemma_small_mod};
use vstd::prelude::*;

verus! {

/// `String::push` appends the character to the end of the string.
pub assume_specification[ String::push ](s: &mut String, ch: char)
    ensures
        final(s)@ == old(s)@.push(ch),
;

/// Whether the byte is an ASCII decimal digit.
pub open spec fn is_digit(b: u8) -> bool {
    48 <= b <= 57
}

/// Whether the bytes are a decimal numeral: one digit or more, and nothing
/// else. No sign is accepted; leading zeros are.
pub open spec fn is_decimal(s: Seq<u8>) -> bool {
    s.len() > 0 && forall|i: int| 0 <= i < s.len() ==> is_digit(#[trigger] s[i])
}

/// The number that a sequence of digits denotes, most significant first.
pub open spec fn decimal_value(s: Seq<u8>) -> nat
    decreases s.len(),
{
    if s.len() == 0 {
        0
    } else {
        (decimal_value(s.drop_last()) * 10 + (s.last() - 48)) as nat
    }
}

/// The digits of a number, least significant first, with no zero at the
/// end but for the number zero, which has the one digit zero.
pub open spec fn digits_from_least(n: nat) -> Seq<u8>
    decreases n,
{
    if n < 10 {
        seq![(48 + n) as u8]
    } else {
        seq![(48 + n % 10) as u8] + digits_from_least(n / 10)
    }
}

/// The canonical decimal numeral of a number: its digits, most significant
/// first, with no leading zero but for the number zero.
pub open spec fn decimal_digits(n: nat) -> Seq<u8> {
    digits_from_least(n).reverse()
}

/// The bytes as characters.
pub open spec fn as_chars(s: Seq<u8>) -> Seq<char> {
    Seq::new(s.len(), |i: int| s[i] as char)
}

/// The field element that a string of bytes denotes: the decimal value,
/// reduced by the modulus; none where the bytes are no decimal numeral.
pub open spec fn parse_spec(s: Seq<u8>) -> Option<nat> {
    if is_decimal(s) {
        Some(decimal_value(s) % modulus())
    } else {
        None
    }
}

/// The digits of a number are a decimal numeral.
pub proof fn lemma_digits_are_decimal(n: nat)
    ensures
        is_decimal(digits_from_least(n)),
        is_decimal(decimal_digits(n)),
    decreases n,
{
    let d = digits_from_least(n);
    if n >= 10 {
        lemma_digits_are_decimal(n / 10);
        let rest = digits_from_least(n / 10);
        assert forall|i: int| 0 <= i < d.len() implies is_digit(#[trigger] d[i]) by {
            if i > 0 {
                assert(d[i] == rest[i - 1]);
            }
        }
    }
    let r = decimal_digits(n);
    assert forall|i: int| 0 <= i < r.len() implies is_digit(#[trigger] r[i]) by {
        assert(r[i] == d[d.len() - 1 - i]);
    }
}

/// The canonical numeral of a number denotes the number.
pub proof fn lemma_decimal_round_trip(n: nat)
    ensures
        decimal_value(decimal_digits(n)) == n,
    decreases n,
{
    let d = digits_from_least(n);
    let r = decimal_digits(n);
    if n < 10 {
        assert(r.drop_last() =~= Seq::<u8>::empty());
        assert(r.last() == d[0]);
        assert(d[0] == 48 + n);
        assert(decimal_value(r.drop_last()) == 0);
        assert(decimal_value(r) == decimal_value(r.drop_last()) * 10 + (r.last() - 48));
    } else {
        lemma_decimal_round_trip(n / 10);
        let rest = digits_from_least(n / 10);
        assert(r.drop_last() =~= rest.reverse());
        assert(r.last() == d[0]);
        assert(d[0] == 48 + n % 10);
        assert(decimal_value(r) == decimal_value(r.drop_last()) * 10 + (r.last() - 48));
    }
}

/// The value of a numeral extended by one digit.
proof fn lemma_decimal_value_push(s: Seq<u8>, b: u8)
    requires
        is_digit(b),
    ensures
        decimal_value(s.push(b)) == decimal_value(s) * 10 + (b - 48),
{
    assert(s.push(b).drop_last() =~= s);
}

/// One step of reading a numeral: the residue of the value so far, times
/// ten, plus the next digit, is the residue of the value with that digit.
proof fn lemma_parse_step(value: nat, acc: nat, digit: nat)
    requires
        acc == value % modulus(),
        digit < 10,
    ensures
        fq_add(fq_mul(acc, 10), digit) == (value * 10 + digit) % modulus(),
{
    let p = modulus() as int;
    lemma_mul_mod_noop_left(value as int, 10, p);
    lemma_add_mod_noop(value as int * 10, digit as int, p);
    lemma_small_mod(digit, modulus());
    lemma_add_mod_noop((acc * 10) as int, digit as int, p);
}

/// The digits written so far, then the digits of what is left, are the
/// digits of the whole.
proof fn lemma_digits_step(n: nat)
    ensures
        n >= 10 ==> digits_from_least(n) == seq![(48 + n % 10) as u8] + digits_from_least(n / 10),
        n < 10 ==> digits_from_least(n) == seq![(48 + n) as u8],
{
}

impl CamlBn382Fq {
    /// The element that a decimal numeral denotes: its value, reduced by
    /// the modulus. Refused where the bytes are not a decimal numeral.
    pub fn from_decimal(s: &[u8]) -> (r: Result<Self, FieldError>)
        ensures
            is_decimal(s@) ==> r.is_ok() && r.unwrap()@ == decimal_value(s@) % modulus(),
            !is_decimal(s@) ==> r == Err::<Self, FieldError>(FieldError::InvalidArgument),
            r.is_ok() ==> parse_spec(s@) == Some(r.unwrap()@),
            r.is_err() ==> parse_spec(s@) is None,
    {
        if s.len() == 0 {
            return Err(FieldError::InvalidArgument);
        }
        let mut acc = Self::zero();
        let mut i: usize = 0;
        proof {
            lemma_small_mod(0, modulus());
            assert(s@.subrange(0, 0) =~= Seq::<u8>::empty());
        }
        while i < s.len()
            invariant
                i <= s.len(),
                forall|j: int| 0 <= j < i ==> is_digit(#[trigger] s@[j]),
                acc@ == decimal_value(s@.subrange(0, i as int)) % modulus(),
            decreases s.len() - i,
        {
            let b = s[i];
            if b < 48 || b > 57 {
                assert(!is_digit(s@[i as int]));
                return Err(FieldError::InvalidArgument);
            }
            let digit = Self::from_u64((b - 48) as u64);
            proof {
                let prefix = s@.subrange(0, i as int);
                assert(s@.subrange(0, i + 1) =~= prefix.push(b));
                lemma_decimal_value_push(prefix, b);
                lemma_parse_step(decimal_value(prefix), acc@, (b - 48) as nat);
            }
            acc = acc.mul_small(10).add(&digit);
            i = i + 1;
        }
        proof {
            assert(s@.subrange(0, s.len() as int) =~= s@);
        }
        Ok(acc)
    }

    /// The canonical decimal numeral of the representative: no sign and no
    /// leading zero, but the single digit zero for zero.
    pub fn to_decimal(&self) -> (r: String)
        ensures
            r@ == as_chars(decimal_digits(self@)),
    {
        let mut rest = self.limbs();
        let mut digits: Vec<u8> = Vec::new();
        let mut done = false;
        while !done
            invariant
                !done ==> digits_from_least(self@) == digits@ + digits_from_least(value6(rest@)),
                done ==> digits_from_least(self@) == digits@,
            decreases value6(rest@) + (if done { 0nat } else { 1nat }),
        {
            let (q, d) = div_rem_10(&rest);
            proof {
                lemma_digits_step(value6(rest@));
                let here = seq![(48 + d) as u8];
                assert(digits@.push((48 + d) as u8) =~= digits@ + here);
                assert(digits@ + (here + digits_from_least(value6(q@))) =~= (digits@ + here)
                    + digits_from_least(value6(q@)));
            }
            digits.push(48 + d);
            done = is_zero6(&q);
            rest = q;
        }
        let mut out = String::new();
        let mut i: usize = digits.len();
        while i > 0
            invariant
                i <= digits.len(),
                out@.len() == digits.len() - i,
                forall|j: int|
                    0 <= j < out@.len() ==> #[trigger] out@[j] == digits@[digits.len() - 1 - j]
                        as char,
            decreases i,
        {
            i = i - 1;
            out.push(digits[i] as char);
        }
        proof {
            assert(out@ =~= as_chars(decimal_digits(self@)));
        }
        out
    }
}

} // verus!
