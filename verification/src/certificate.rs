//! The primality of the modulus, by a chain of primes.
//!
//! Each prime of the chain divides the predecessor of the one above it, and
//! is large enough that an element of that order shows the one above to be
//! prime. The chain ends in primes below 128.

use crate::params::modulus;
use crate::pocklington::{
    is_prime, lemma_power_doubled, lemma_power_doubled_plus_one, lemma_power_zero,
    lemma_prime_by_order, lemma_prime_by_order_of_two, lemma_small_primes, pow_mod,
};
use vstd::prelude::*;

verus! {

/// A prime of 12 bits.
pub open spec fn prime_12() -> nat {
    3083nat
}

/// A prime of 15 bits.
pub open spec fn prime_15() -> nat {
    23279nat
}

/// A prime of 16 bits.
pub open spec fn prime_16() -> nat {
    46559nat
}

/// A prime of 19 bits.
pub open spec fn prime_19() -> nat {
    372473nat
}

/// A prime of 41 bits.
pub open spec fn prime_41() -> nat {
    1885564853279nat
}

/// A prime of 42 bits.
pub open spec fn prime_42() -> nat {
    3771129706559nat
}

/// A prime of 75 bits.
pub open spec fn prime_75() -> nat {
    23186507328859224718903nat
}

/// A prime of 107 bits.
pub open spec fn prime_107() -> nat {
    116395998337491454556789264541067nat
}

/// A prime of 183 bits.
pub open spec fn prime_183() -> nat {
    8293684616585670804434386781354697945317189630405882251nat
}

/// A prime of 224 bits.
pub open spec fn prime_224() -> nat {
    13488624049454809607608968273987491111066532879949268383015090199833nat
}

/// An element of order `67` modulo `prime_12`.
spec fn element_12() -> int {
    2814int
}

/// The power of `element_12` to 67.
proof fn lemma_power_12()
    ensures
        pow_mod(element_12(), 67nat, prime_12() as int) == 1int,
{
    lemma_power_zero(element_12(), prime_12() as int);
    assert(2814int == (((1int * 1int) % (prime_12() as int)) * element_12()) % (
        prime_12() as int)) by (nonlinear_arith);
    lemma_power_doubled_plus_one(element_12(), prime_12() as int, 1int, 0nat, 2814int);
    assert(1452int == (2814int * 2814int) % (prime_12() as int)) by (nonlinear_arith);
    lemma_power_doubled(element_12(), prime_12() as int, 2814int, 1nat, 1452int);
    assert(2615int == (1452int * 1452int) % (prime_12() as int)) by (nonlinear_arith);
    lemma_power_doubled(element_12(), prime_12() as int, 1452int, 2nat, 2615int);
    assert(131int == (2615int * 2615int) % (prime_12() as int)) by (nonlinear_arith);
    lemma_power_doubled(element_12(), prime_12() as int, 2615int, 4nat, 131int);
    assert(1746int == (131int * 131int) % (prime_12() as int)) by (nonlinear_arith);
    lemma_power_doubled(element_12(), prime_12() as int, 131int, 8nat, 1746int);
    assert(2532int == (((1746int * 1746int) % (prime_12() as int)) * element_12()) % (
        prime_12() as int)) by (nonlinear_arith);
    lemma_power_doubled_plus_one(element_12(), prime_12() as int, 1746int, 16nat, 2532int);
    assert(1int == (((2532int * 2532int) % (prime_12() as int)) * element_12()) % (
        prime_12() as int)) by (nonlinear_arith);
    lemma_power_doubled_plus_one(element_12(), prime_12() as int, 2532int, 33nat, 1int);
}

/// `prime_12` is prime.
pub proof fn lemma_prime_12()
    ensures
        is_prime(prime_12()),
{
    lemma_small_primes();
    lemma_power_12();
    assert(67 * 67 > prime_12()) by (nonlinear_arith);
    assert(-491int * (element_12() - 1) + 448int * prime_12() == 1) by (nonlinear_arith);
    lemma_prime_by_order(
        prime_12(),
        67,
        element_12(),
        -491int,
        448int,
    );
}

/// An element whose order modulo `prime_15` is the product of `113` and
/// `103`.
spec fn element_15() -> int {
    9int
}

/// The power of `element_15` to `103`.
proof fn lemma_power_15_first()
    ensures
        pow_mod(element_15(), 103nat, prime_15() as int) == 15983int,
{
    lemma_power_zero(element_15(), prime_15() as int);
    assert(9int == (((1int * 1int) % (prime_15() as int)) * element_15()) % (
        prime_15() as int)) by (nonlinear_arith);
    lemma_power_doubled_plus_one(element_15(), prime_15() as int, 1int, 0nat, 9int);
    assert(729int == (((9int * 9int) % (prime_15() as int)) * element_15()) % (
        prime_15() as int)) by (nonlinear_arith);
    lemma_power_doubled_plus_one(element_15(), prime_15() as int, 9int, 1nat, 729int);
    assert(19303int == (729int * 729int) % (prime_15() as int)) by (nonlinear_arith);
    lemma_power_doubled(element_15(), prime_15() as int, 729int, 3nat, 19303int);
    assert(2135int == (19303int * 19303int) % (prime_15() as int)) by (nonlinear_arith);
    lemma_power_doubled(element_15(), prime_15() as int, 19303int, 6nat, 2135int);
    assert(6427int == (((2135int * 2135int) % (prime_15() as int)) * element_15()) % (
        prime_15() as int)) by (nonlinear_arith);
    lemma_power_doubled_plus_one(element_15(), prime_15() as int, 2135int, 12nat, 6427int);
    assert(14610int == (((6427int * 6427int) % (prime_15() as int)) * element_15()) % (
        prime_15() as int)) by (nonlinear_arith);
    lemma_power_doubled_plus_one(element_15(), prime_15() as int, 6427int, 25nat, 14610int);
    assert(15983int == (((14610int * 14610int) % (prime_15() as int)) * element_15()) % (
        prime_15() as int)) by (nonlinear_arith);
    lemma_power_doubled_plus_one(element_15(), prime_15() as int, 14610int, 51nat, 15983int);
}

/// The power of `element_15` to `113`.
proof fn lemma_power_15_second()
    ensures
        pow_mod(element_15(), 113nat, prime_15() as int) == 8581int,
{
    lemma_power_zero(element_15(), prime_15() as int);
    assert(9int == (((1int * 1int) % (prime_15() as int)) * element_15()) % (
        prime_15() as int)) by (nonlinear_arith);
    lemma_power_doubled_plus_one(element_15(), prime_15() as int, 1int, 0nat, 9int);
    assert(729int == (((9int * 9int) % (prime_15() as int)) * element_15()) % (
        prime_15() as int)) by (nonlinear_arith);
    lemma_power_doubled_plus_one(element_15(), prime_15() as int, 9int, 1nat, 729int);
    assert(10774int == (((729int * 729int) % (prime_15() as int)) * element_15()) % (
        prime_15() as int)) by (nonlinear_arith);
    lemma_power_doubled_plus_one(element_15(), prime_15() as int, 729int, 3nat, 10774int);
    assert(9982int == (10774int * 10774int) % (prime_15() as int)) by (nonlinear_arith);
    lemma_power_doubled(element_15(), prime_15() as int, 10774int, 7nat, 9982int);
    assert(6204int == (9982int * 9982int) % (prime_15() as int)) by (nonlinear_arith);
    lemma_power_doubled(element_15(), prime_15() as int, 9982int, 14nat, 6204int);
    assert(9429int == (6204int * 6204int) % (prime_15() as int)) by (nonlinear_arith);
    lemma_power_doubled(element_15(), prime_15() as int, 6204int, 28nat, 9429int);
    assert(8581int == (((9429int * 9429int) % (prime_15() as int)) * element_15()) % (
        prime_15() as int)) by (nonlinear_arith);
    lemma_power_doubled_plus_one(element_15(), prime_15() as int, 9429int, 56nat, 8581int);
}

/// The power of `element_15` to the product of `113` and `103`.
proof fn lemma_power_15_both()
    ensures
        pow_mod(element_15(), 11639nat, prime_15() as int) == 1int,
{
    lemma_power_zero(element_15(), prime_15() as int);
    assert(9int == (((1int * 1int) % (prime_15() as int)) * element_15()) % (
        prime_15() as int)) by (nonlinear_arith);
    lemma_power_doubled_plus_one(element_15(), prime_15() as int, 1int, 0nat, 9int);
    assert(81int == (9int * 9int) % (prime_15() as int)) by (nonlinear_arith);
    lemma_power_doubled(element_15(), prime_15() as int, 9int, 1nat, 81int);
    assert(12491int == (((81int * 81int) % (prime_15() as int)) * element_15()) % (
        prime_15() as int)) by (nonlinear_arith);
    lemma_power_doubled_plus_one(element_15(), prime_15() as int, 81int, 2nat, 12491int);
    assert(13170int == (((12491int * 12491int) % (prime_15() as int)) * element_15()) % (
        prime_15() as int)) by (nonlinear_arith);
    lemma_power_doubled_plus_one(element_15(), prime_15() as int, 12491int, 5nat, 13170int);
    assert(20350int == (13170int * 13170int) % (prime_15() as int)) by (nonlinear_arith);
    lemma_power_doubled(element_15(), prime_15() as int, 13170int, 11nat, 20350int);
    assert(18205int == (((20350int * 20350int) % (prime_15() as int)) * element_15()) % (
        prime_15() as int)) by (nonlinear_arith);
    lemma_power_doubled_plus_one(element_15(), prime_15() as int, 20350int, 22nat, 18205int);
    assert(22181int == (18205int * 18205int) % (prime_15() as int)) by (nonlinear_arith);
    lemma_power_doubled(element_15(), prime_15() as int, 18205int, 45nat, 22181int);
    assert(2422int == (((22181int * 22181int) % (prime_15() as int)) * element_15()) % (
        prime_15() as int)) by (nonlinear_arith);
    lemma_power_doubled_plus_one(element_15(), prime_15() as int, 22181int, 90nat, 2422int);
    assert(21263int == (((2422int * 2422int) % (prime_15() as int)) * element_15()) % (
        prime_15() as int)) by (nonlinear_arith);
    lemma_power_doubled_plus_one(element_15(), prime_15() as int, 2422int, 181nat, 21263int);
    assert(6995int == (((21263int * 21263int) % (prime_15() as int)) * element_15()) % (
        prime_15() as int)) by (nonlinear_arith);
    lemma_power_doubled_plus_one(element_15(), prime_15() as int, 21263int, 363nat, 6995int);
    assert(20846int == (6995int * 6995int) % (prime_15() as int)) by (nonlinear_arith);
    lemma_power_doubled(element_15(), prime_15() as int, 6995int, 727nat, 20846int);
    assert(13049int == (((20846int * 20846int) % (prime_15() as int)) * element_15()) % (
        prime_15() as int)) by (nonlinear_arith);
    lemma_power_doubled_plus_one(element_15(), prime_15() as int, 20846int, 1454nat, 13049int);
    assert(7760int == (((13049int * 13049int) % (prime_15() as int)) * element_15()) % (
        prime_15() as int)) by (nonlinear_arith);
    lemma_power_doubled_plus_one(element_15(), prime_15() as int, 13049int, 2909nat, 7760int);
    assert(1int == (((7760int * 7760int) % (prime_15() as int)) * element_15()) % (
        prime_15() as int)) by (nonlinear_arith);
    lemma_power_doubled_plus_one(element_15(), prime_15() as int, 7760int, 5819nat, 1int);
}

/// `prime_15` is prime.
pub proof fn lemma_prime_15()
    ensures
        is_prime(prime_15()),
{
    lemma_small_primes();
    lemma_power_15_first();
    lemma_power_15_second();
    lemma_power_15_both();
    assert(113 * 103 == 11639nat) by (nonlinear_arith);
    assert((113 * 103) * (113 * 103) > prime_15()) by (nonlinear_arith);
    assert(7564int * (15983int - 1) + -5193int * prime_15() == 1) by (nonlinear_arith);
    assert(5212int * (8581int - 1) + -1921int * prime_15() == 1) by (nonlinear_arith);
    lemma_prime_by_order_of_two(
        prime_15(),
        113,
        103,
        element_15(),
        15983int,
        7564int,
        -5193int,
        8581int,
        5212int,
        -1921int,
    );
}

/// An element of order `prime_15` modulo `prime_16`.
spec fn element_16() -> int {
    4int
}

/// The power of `element_16` to `prime_15`.
proof fn lemma_power_16()
    ensures
        pow_mod(element_16(), 23279nat, prime_16() as int) == 1int,
{
    lemma_power_zero(element_16(), prime_16() as int);
    assert(4int == (((1int * 1int) % (prime_16() as int)) * element_16()) % (
        prime_16() as int)) by (nonlinear_arith);
    lemma_power_doubled_plus_one(element_16(), prime_16() as int, 1int, 0nat, 4int);
    assert(16int == (4int * 4int) % (prime_16() as int)) by (nonlinear_arith);
    lemma_power_doubled(element_16(), prime_16() as int, 4int, 1nat, 16int);
    assert(1024int == (((16int * 16int) % (prime_16() as int)) * element_16()) % (
        prime_16() as int)) by (nonlinear_arith);
    lemma_power_doubled_plus_one(element_16(), prime_16() as int, 16int, 2nat, 1024int);
    assert(3994int == (((1024int * 1024int) % (prime_16() as int)) * element_16()) % (
        prime_16() as int)) by (nonlinear_arith);
    lemma_power_doubled_plus_one(element_16(), prime_16() as int, 1024int, 5nat, 3994int);
    assert(28858int == (3994int * 3994int) % (prime_16() as int)) by (nonlinear_arith);
    lemma_power_doubled(element_16(), prime_16() as int, 3994int, 11nat, 28858int);
    assert(26442int == (((28858int * 28858int) % (prime_16() as int)) * element_16()) % (
        prime_16() as int)) by (nonlinear_arith);
    lemma_power_doubled_plus_one(element_16(), prime_16() as int, 28858int, 22nat, 26442int);
    assert(2861int == (26442int * 26442int) % (prime_16() as int)) by (nonlinear_arith);
    lemma_power_doubled(element_16(), prime_16() as int, 26442int, 45nat, 2861int);
    assert(10307int == (((2861int * 2861int) % (prime_16() as int)) * element_16()) % (
        prime_16() as int)) by (nonlinear_arith);
    lemma_power_doubled_plus_one(element_16(), prime_16() as int, 2861int, 90nat, 10307int);
    assert(39562int == (((10307int * 10307int) % (prime_16() as int)) * element_16()) % (
        prime_16() as int)) by (nonlinear_arith);
    lemma_power_doubled_plus_one(element_16(), prime_16() as int, 10307int, 181nat, 39562int);
    assert(4882int == (((39562int * 39562int) % (prime_16() as int)) * element_16()) % (
        prime_16() as int)) by (nonlinear_arith);
    lemma_power_doubled_plus_one(element_16(), prime_16() as int, 39562int, 363nat, 4882int);
    assert(42275int == (4882int * 4882int) % (prime_16() as int)) by (nonlinear_arith);
    lemma_power_doubled(element_16(), prime_16() as int, 4882int, 727nat, 42275int);
    assert(33640int == (((42275int * 42275int) % (prime_16() as int)) * element_16()) % (
        prime_16() as int)) by (nonlinear_arith);
    lemma_power_doubled_plus_one(element_16(), prime_16() as int, 42275int, 1454nat, 33640int);
    assert(39302int == (((33640int * 33640int) % (prime_16() as int)) * element_16()) % (
        prime_16() as int)) by (nonlinear_arith);
    lemma_power_doubled_plus_one(element_16(), prime_16() as int, 33640int, 2909nat, 39302int);
    assert(23280int == (((39302int * 39302int) % (prime_16() as int)) * element_16()) % (
        prime_16() as int)) by (nonlinear_arith);
    lemma_power_doubled_plus_one(element_16(), prime_16() as int, 39302int, 5819nat, 23280int);
    assert(1int == (((23280int * 23280int) % (prime_16() as int)) * element_16()) % (
        prime_16() as int)) by (nonlinear_arith);
    lemma_power_doubled_plus_one(element_16(), prime_16() as int, 23280int, 11639nat, 1int);
}

/// `prime_16` is prime.
pub proof fn lemma_prime_16()
    ensures
        is_prime(prime_16()),
{
    lemma_prime_15();
    lemma_power_16();
    assert(prime_15() * prime_15() > prime_16()) by (nonlinear_arith);
    assert(15520int * (element_16() - 1) + -1int * prime_16() == 1) by (nonlinear_arith);
    lemma_prime_by_order(
        prime_16(),
        prime_15(),
        element_16(),
        15520int,
        -1int,
    );
}

/// An element of order `prime_16` modulo `prime_19`.
spec fn element_19() -> int {
    256int
}

/// The power of `element_19` to `prime_16`.
proof fn lemma_power_19()
    ensures
        pow_mod(element_19(), 46559nat, prime_19() as int) == 1int,
{
    lemma_power_zero(element_19(), prime_19() as int);
    assert(256int == (((1int * 1int) % (prime_19() as int)) * element_19()) % (
        prime_19() as int)) by (nonlinear_arith);
    lemma_power_doubled_plus_one(element_19(), prime_19() as int, 1int, 0nat, 256int);
    assert(65536int == (256int * 256int) % (prime_19() as int)) by (nonlinear_arith);
    lemma_power_doubled(element_19(), prime_19() as int, 256int, 1nat, 65536int);
    assert(12197int == (((65536int * 65536int) % (prime_19() as int)) * element_19()) % (
        prime_19() as int)) by (nonlinear_arith);
    lemma_power_doubled_plus_one(element_19(), prime_19() as int, 65536int, 2nat, 12197int);
    assert(56273int == (((12197int * 12197int) % (prime_19() as int)) * element_19()) % (
        prime_19() as int)) by (nonlinear_arith);
    lemma_power_doubled_plus_one(element_19(), prime_19() as int, 12197int, 5nat, 56273int);
    assert(257556int == (56273int * 56273int) % (prime_19() as int)) by (nonlinear_arith);
    lemma_power_doubled(element_19(), prime_19() as int, 56273int, 11nat, 257556int);
    assert(41438int == (((257556int * 257556int) % (prime_19() as int)) * element_19()) % (
        prime_19() as int)) by (nonlinear_arith);
    lemma_power_doubled_plus_one(element_19(), prime_19() as int, 257556int, 22nat, 41438int);
    assert(7314int == (41438int * 41438int) % (prime_19() as int)) by (nonlinear_arith);
    lemma_power_doubled(element_19(), prime_19() as int, 41438int, 45nat, 7314int);
    assert(274258int == (((7314int * 7314int) % (prime_19() as int)) * element_19()) % (
        prime_19() as int)) by (nonlinear_arith);
    lemma_power_doubled_plus_one(element_19(), prime_19() as int, 7314int, 90nat, 274258int);
    assert(315835int == (((274258int * 274258int) % (prime_19() as int)) * element_19()) % (
        prime_19() as int)) by (nonlinear_arith);
    lemma_power_doubled_plus_one(element_19(), prime_19() as int, 274258int, 181nat, 315835int);
    assert(112730int == (((315835int * 315835int) % (prime_19() as int)) * element_19()) % (
        prime_19() as int)) by (nonlinear_arith);
    lemma_power_doubled_plus_one(element_19(), prime_19() as int, 315835int, 363nat, 112730int);
    assert(19086int == (112730int * 112730int) % (prime_19() as int)) by (nonlinear_arith);
    lemma_power_doubled(element_19(), prime_19() as int, 112730int, 727nat, 19086int);
    assert(298731int == (((19086int * 19086int) % (prime_19() as int)) * element_19()) % (
        prime_19() as int)) by (nonlinear_arith);
    lemma_power_doubled_plus_one(element_19(), prime_19() as int, 19086int, 1454nat, 298731int);
    assert(212426int == (((298731int * 298731int) % (prime_19() as int)) * element_19()) % (
        prime_19() as int)) by (nonlinear_arith);
    lemma_power_doubled_plus_one(element_19(), prime_19() as int, 298731int, 2909nat, 212426int);
    assert(320094int == (((212426int * 212426int) % (prime_19() as int)) * element_19()) % (
        prime_19() as int)) by (nonlinear_arith);
    lemma_power_doubled_plus_one(element_19(), prime_19() as int, 212426int, 5819nat, 320094int);
    assert(162957int == (((320094int * 320094int) % (prime_19() as int)) * element_19()) % (
        prime_19() as int)) by (nonlinear_arith);
    lemma_power_doubled_plus_one(element_19(), prime_19() as int, 320094int, 11639nat, 162957int);
    assert(1int == (((162957int * 162957int) % (prime_19() as int)) * element_19()) % (
        prime_19() as int)) by (nonlinear_arith);
    lemma_power_doubled_plus_one(element_19(), prime_19() as int, 162957int, 23279nat, 1int);
}

/// `prime_19` is prime.
pub proof fn lemma_prime_19()
    ensures
        is_prime(prime_19()),
{
    lemma_prime_16();
    lemma_power_19();
    assert(prime_16() * prime_16() > prime_19()) by (nonlinear_arith);
    assert(40899int * (element_19() - 1) + -28int * prime_19() == 1) by (nonlinear_arith);
    lemma_prime_by_order(
        prime_19(),
        prime_16(),
        element_19(),
        40899int,
        -28int,
    );
}

/// An element whose order modulo `prime_41` is the product of `prime_19` and
/// `prime_12`.
spec fn element_41() -> int {
    331358141142int
}

/// The power of `element_41` to `prime_12`.
proof fn lemma_power_41_first()
    ensures
        pow_mod(element_41(), 3083nat, prime_41() as int) == 1183562068179int,
{
    lemma_power_zero(element_41(), prime_41() as int);
    assert(331358141142int == (((1int * 1int) % (prime_41() as int)) * element_41()) % (
        prime_41() as int)) by (nonlinear_arith);
    lemma_power_doubled_plus_one(element_41(), prime_41() as int, 1int, 0nat, 331358141142int);
    assert(710950469198int == (((331358141142int * 331358141142int) % (prime_41() as int)) * element_41()) % (
        prime_41() as int)) by (nonlinear_arith);
    lemma_power_doubled_plus_one(element_41(), prime_41() as int, 331358141142int, 1nat, 710950469198int);
    assert(528874416247int == (710950469198int * 710950469198int) % (prime_41() as int)) by (nonlinear_arith);
    lemma_power_doubled(element_41(), prime_41() as int, 710950469198int, 3nat, 528874416247int);
    assert(947620403649int == (528874416247int * 528874416247int) % (prime_41() as int)) by (nonlinear_arith);
    lemma_power_doubled(element_41(), prime_41() as int, 528874416247int, 6nat, 947620403649int);
    assert(160708870638int == (947620403649int * 947620403649int) % (prime_41() as int)) by (nonlinear_arith);
    lemma_power_doubled(element_41(), prime_41() as int, 947620403649int, 12nat, 160708870638int);
    assert(725929193418int == (160708870638int * 160708870638int) % (prime_41() as int)) by (nonlinear_arith);
    lemma_power_doubled(element_41(), prime_41() as int, 160708870638int, 24nat, 725929193418int);
    assert(79087385932int == (725929193418int * 725929193418int) % (prime_41() as int)) by (nonlinear_arith);
    lemma_power_doubled(element_41(), prime_41() as int, 725929193418int, 48nat, 79087385932int);
    assert(213571972718int == (79087385932int * 79087385932int) % (prime_41() as int)) by (nonlinear_arith);
    lemma_power_doubled(element_41(), prime_41() as int, 79087385932int, 96nat, 213571972718int);
    assert(1483657859096int == (((213571972718int * 213571972718int) % (prime_41() as int)) * element_41()) % (
        prime_41() as int)) by (nonlinear_arith);
    lemma_power_doubled_plus_one(element_41(), prime_41() as int, 213571972718int, 192nat, 1483657859096int);
    assert(322149361822int == (1483657859096int * 1483657859096int) % (prime_41() as int)) by (nonlinear_arith);
    lemma_power_doubled(element_41(), prime_41() as int, 1483657859096int, 385nat, 322149361822int);
    assert(1642029414004int == (((322149361822int * 322149361822int) % (prime_41() as int)) * element_41()) % (
        prime_41() as int)) by (nonlinear_arith);
    lemma_power_doubled_plus_one(element_41(), prime_41() as int, 322149361822int, 770nat, 1642029414004int);
    assert(1183562068179int == (((1642029414004int * 1642029414004int) % (prime_41() as int)) * element_41()) % (
        prime_41() as int)) by (nonlinear_arith);
    lemma_power_doubled_plus_one(element_41(), prime_41() as int, 1642029414004int, 1541nat, 1183562068179int);
}

/// The power of `element_41` to `prime_19`.
proof fn lemma_power_41_second()
    ensures
        pow_mod(element_41(), 372473nat, prime_41() as int) == 1610971956414int,
{
    lemma_power_zero(element_41(), prime_41() as int);
    assert(331358141142int == (((1int * 1int) % (prime_41() as int)) * element_41()) % (
        prime_41() as int)) by (nonlinear_arith);
    lemma_power_doubled_plus_one(element_41(), prime_41() as int, 1int, 0nat, 331358141142int);
    assert(160956435493int == (331358141142int * 331358141142int) % (prime_41() as int)) by (nonlinear_arith);
    lemma_power_doubled(element_41(), prime_41() as int, 331358141142int, 1nat, 160956435493int);
    assert(116300565047int == (((160956435493int * 160956435493int) % (prime_41() as int)) * element_41()) % (
        prime_41() as int)) by (nonlinear_arith);
    lemma_power_doubled_plus_one(element_41(), prime_41() as int, 160956435493int, 2nat, 116300565047int);
    assert(1466328481291int == (((116300565047int * 116300565047int) % (prime_41() as int)) * element_41()) % (
        prime_41() as int)) by (nonlinear_arith);
    lemma_power_doubled_plus_one(element_41(), prime_41() as int, 116300565047int, 5nat, 1466328481291int);
    assert(152519464969int == (1466328481291int * 1466328481291int) % (prime_41() as int)) by (nonlinear_arith);
    lemma_power_doubled(element_41(), prime_41() as int, 1466328481291int, 11nat, 152519464969int);
    assert(1641027867241int == (((152519464969int * 152519464969int) % (prime_41() as int)) * element_41()) % (
        prime_41() as int)) by (nonlinear_arith);
    lemma_power_doubled_plus_one(element_41(), prime_41() as int, 152519464969int, 22nat, 1641027867241int);
    assert(882163289868int == (1641027867241int * 1641027867241int) % (prime_41() as int)) by (nonlinear_arith);
    lemma_power_doubled(element_41(), prime_41() as int, 1641027867241int, 45nat, 882163289868int);
    assert(513699093904int == (((882163289868int * 882163289868int) % (prime_41() as int)) * element_41()) % (
        prime_41() as int)) by (nonlinear_arith);
    lemma_power_doubled_plus_one(element_41(), prime_41() as int, 882163289868int, 90nat, 513699093904int);
    assert(669883310077int == (((513699093904int * 513699093904int) % (prime_41() as int)) * element_41()) % (
        prime_41() as int)) by (nonlinear_arith);
    lemma_power_doubled_plus_one(element_41(), prime_41() as int, 513699093904int, 181nat, 669883310077int);
    assert(1387087115919int == (((669883310077int * 669883310077int) % (prime_41() as int)) * element_41()) % (
        prime_41() as int)) by (nonlinear_arith);
    lemma_power_doubled_plus_one(element_41(), prime_41() as int, 669883310077int, 363nat, 1387087115919int);
    assert(747980834237int == (1387087115919int * 1387087115919int) % (prime_41() as int)) by (nonlinear_arith);
    lemma_power_doubled(element_41(), prime_41() as int, 1387087115919int, 727nat, 747980834237int);
    assert(163389345059int == (((747980834237int * 747980834237int) % (prime_41() as int)) * element_41()) % (
        prime_41() as int)) by (nonlinear_arith);
    lemma_power_doubled_plus_one(element_41(), prime_41() as int, 747980834237int, 1454nat, 163389345059int);
    assert(1206591748015int == (((163389345059int * 163389345059int) % (prime_41() as int)) * element_41()) % (
        prime_41() as int)) by (nonlinear_arith);
    lemma_power_doubled_plus_one(element_41(), prime_41() as int, 163389345059int, 2909nat, 1206591748015int);
    assert(1263468740681int == (((1206591748015int * 1206591748015int) % (prime_41() as int)) * element_41()) % (
        prime_41() as int)) by (nonlinear_arith);
    lemma_power_doubled_plus_one(element_41(), prime_41() as int, 1206591748015int, 5819nat, 1263468740681int);
    assert(1767815642861int == (((1263468740681int * 1263468740681int) % (prime_41() as int)) * element_41()) % (
        prime_41() as int)) by (nonlinear_arith);
    lemma_power_doubled_plus_one(element_41(), prime_41() as int, 1263468740681int, 11639nat, 1767815642861int);
    assert(1421103270125int == (((1767815642861int * 1767815642861int) % (prime_41() as int)) * element_41()) % (
        prime_41() as int)) by (nonlinear_arith);
    lemma_power_doubled_plus_one(element_41(), prime_41() as int, 1767815642861int, 23279nat, 1421103270125int);
    assert(1840786072132int == (1421103270125int * 1421103270125int) % (prime_41() as int)) by (nonlinear_arith);
    lemma_power_doubled(element_41(), prime_41() as int, 1421103270125int, 46559nat, 1840786072132int);
    assert(949310354494int == (1840786072132int * 1840786072132int) % (prime_41() as int)) by (nonlinear_arith);
    lemma_power_doubled(element_41(), prime_41() as int, 1840786072132int, 93118nat, 949310354494int);
    assert(1610971956414int == (((949310354494int * 949310354494int) % (prime_41() as int)) * element_41()) % (
        prime_41() as int)) by (nonlinear_arith);
    lemma_power_doubled_plus_one(element_41(), prime_41() as int, 949310354494int, 186236nat, 1610971956414int);
}

/// The power of `element_41` to the product of `prime_19` and `prime_12`.
proof fn lemma_power_41_both()
    ensures
        pow_mod(element_41(), 1148334259nat, prime_41() as int) == 1int,
{
    lemma_power_zero(element_41(), prime_41() as int);
    assert(331358141142int == (((1int * 1int) % (prime_41() as int)) * element_41()) % (
        prime_41() as int)) by (nonlinear_arith);
    lemma_power_doubled_plus_one(element_41(), prime_41() as int, 1int, 0nat, 331358141142int);
    assert(160956435493int == (331358141142int * 331358141142int) % (prime_41() as int)) by (nonlinear_arith);
    lemma_power_doubled(element_41(), prime_41() as int, 331358141142int, 1nat, 160956435493int);
    assert(973981024724int == (160956435493int * 160956435493int) % (prime_41() as int)) by (nonlinear_arith);
    lemma_power_doubled(element_41(), prime_41() as int, 160956435493int, 2nat, 973981024724int);
    assert(858866692439int == (973981024724int * 973981024724int) % (prime_41() as int)) by (nonlinear_arith);
    lemma_power_doubled(element_41(), prime_41() as int, 973981024724int, 4nat, 858866692439int);
    assert(1789516552609int == (((858866692439int * 858866692439int) % (prime_41() as int)) * element_41()) % (
        prime_41() as int)) by (nonlinear_arith);
    lemma_power_doubled_plus_one(element_41(), prime_41() as int, 858866692439int, 8nat, 1789516552609int);
    assert(1387488071660int == (1789516552609int * 1789516552609int) % (prime_41() as int)) by (nonlinear_arith);
    lemma_power_doubled(element_41(), prime_41() as int, 1789516552609int, 17nat, 1387488071660int);
    assert(1782962734526int == (1387488071660int * 1387488071660int) % (prime_41() as int)) by (nonlinear_arith);
    lemma_power_doubled(element_41(), prime_41() as int, 1387488071660int, 34nat, 1782962734526int);
    assert(36354478803int == (1782962734526int * 1782962734526int) % (prime_41() as int)) by (nonlinear_arith);
    lemma_power_doubled(element_41(), prime_41() as int, 1782962734526int, 68nat, 36354478803int);
    assert(538292793000int == (((36354478803int * 36354478803int) % (prime_41() as int)) * element_41()) % (
        prime_41() as int)) by (nonlinear_arith);
    lemma_power_doubled_plus_one(element_41(), prime_41() as int, 36354478803int, 136nat, 538292793000int);
    assert(1302722755675int == (((538292793000int * 538292793000int) % (prime_41() as int)) * element_41()) % (
        prime_41() as int)) by (nonlinear_arith);
    lemma_power_doubled_plus_one(element_41(), prime_41() as int, 538292793000int, 273nat, 1302722755675int);
    assert(111862032263int == (((1302722755675int * 1302722755675int) % (prime_41() as int)) * element_41()) % (
        prime_41() as int)) by (nonlinear_arith);
    lemma_power_doubled_plus_one(element_41(), prime_41() as int, 1302722755675int, 547nat, 111862032263int);
    assert(484438998748int == (111862032263int * 111862032263int) % (prime_41() as int)) by (nonlinear_arith);
    lemma_power_doubled(element_41(), prime_41() as int, 111862032263int, 1095nat, 484438998748int);
    assert(1234805604305int == (484438998748int * 484438998748int) % (prime_41() as int)) by (nonlinear_arith);
    lemma_power_doubled(element_41(), prime_41() as int, 484438998748int, 2190nat, 1234805604305int);
    assert(1586094875962int == (((1234805604305int * 1234805604305int) % (prime_41() as int)) * element_41()) % (
        prime_41() as int)) by (nonlinear_arith);
    lemma_power_doubled_plus_one(element_41(), prime_41() as int, 1234805604305int, 4380nat, 1586094875962int);
    assert(356630782479int == (1586094875962int * 1586094875962int) % (prime_41() as int)) by (nonlinear_arith);
    lemma_power_doubled(element_41(), prime_41() as int, 1586094875962int, 8761nat, 356630782479int);
    assert(161064700597int == (356630782479int * 356630782479int) % (prime_41() as int)) by (nonlinear_arith);
    lemma_power_doubled(element_41(), prime_41() as int, 356630782479int, 17522nat, 161064700597int);
    assert(1733574838649int == (161064700597int * 161064700597int) % (prime_41() as int)) by (nonlinear_arith);
    lemma_power_doubled(element_41(), prime_41() as int, 161064700597int, 35044nat, 1733574838649int);
    assert(509508517224int == (((1733574838649int * 1733574838649int) % (prime_41() as int)) * element_41()) % (
        prime_41() as int)) by (nonlinear_arith);
    lemma_power_doubled_plus_one(element_41(), prime_41() as int, 1733574838649int, 70088nat, 509508517224int);
    assert(1453726391007int == (((509508517224int * 509508517224int) % (prime_41() as int)) * element_41()) % (
        prime_41() as int)) by (nonlinear_arith);
    lemma_power_doubled_plus_one(element_41(), prime_41() as int, 509508517224int, 140177nat, 1453726391007int);
    assert(1321603940585int == (1453726391007int * 1453726391007int) % (prime_41() as int)) by (nonlinear_arith);
    lemma_power_doubled(element_41(), prime_41() as int, 1453726391007int, 280355nat, 1321603940585int);
    assert(462072501238int == (1321603940585int * 1321603940585int) % (prime_41() as int)) by (nonlinear_arith);
    lemma_power_doubled(element_41(), prime_41() as int, 1321603940585int, 560710nat, 462072501238int);
    assert(1045691079686int == (462072501238int * 462072501238int) % (prime_41() as int)) by (nonlinear_arith);
    lemma_power_doubled(element_41(), prime_41() as int, 462072501238int, 1121420nat, 1045691079686int);
    assert(236295340346int == (1045691079686int * 1045691079686int) % (prime_41() as int)) by (nonlinear_arith);
    lemma_power_doubled(element_41(), prime_41() as int, 1045691079686int, 2242840nat, 236295340346int);
    assert(1247735895045int == (((236295340346int * 236295340346int) % (prime_41() as int)) * element_41()) % (
        prime_41() as int)) by (nonlinear_arith);
    lemma_power_doubled_plus_one(element_41(), prime_41() as int, 236295340346int, 4485680nat, 1247735895045int);
    assert(994015803027int == (1247735895045int * 1247735895045int) % (prime_41() as int)) by (nonlinear_arith);
    lemma_power_doubled(element_41(), prime_41() as int, 1247735895045int, 8971361nat, 994015803027int);
    assert(1865707524040int == (((994015803027int * 994015803027int) % (prime_41() as int)) * element_41()) % (
        prime_41() as int)) by (nonlinear_arith);
    lemma_power_doubled_plus_one(element_41(), prime_41() as int, 994015803027int, 17942722nat, 1865707524040int);
    assert(1642701497637int == (((1865707524040int * 1865707524040int) % (prime_41() as int)) * element_41()) % (
        prime_41() as int)) by (nonlinear_arith);
    lemma_power_doubled_plus_one(element_41(), prime_41() as int, 1865707524040int, 35885445nat, 1642701497637int);
    assert(736437749821int == (1642701497637int * 1642701497637int) % (prime_41() as int)) by (nonlinear_arith);
    lemma_power_doubled(element_41(), prime_41() as int, 1642701497637int, 71770891nat, 736437749821int);
    assert(54928312947int == (736437749821int * 736437749821int) % (prime_41() as int)) by (nonlinear_arith);
    lemma_power_doubled(element_41(), prime_41() as int, 736437749821int, 143541782nat, 54928312947int);
    assert(1396318165677int == (((54928312947int * 54928312947int) % (prime_41() as int)) * element_41()) % (
        prime_41() as int)) by (nonlinear_arith);
    lemma_power_doubled_plus_one(element_41(), prime_41() as int, 54928312947int, 287083564nat, 1396318165677int);
    assert(1int == (((1396318165677int * 1396318165677int) % (prime_41() as int)) * element_41()) % (
        prime_41() as int)) by (nonlinear_arith);
    lemma_power_doubled_plus_one(element_41(), prime_41() as int, 1396318165677int, 574167129nat, 1int);
}

/// `prime_41` is prime.
pub proof fn lemma_prime_41()
    ensures
        is_prime(prime_41()),
{
    lemma_prime_19();
    lemma_prime_12();
    lemma_power_41_first();
    lemma_power_41_second();
    lemma_power_41_both();
    assert(prime_19() * prime_12() == 1148334259nat) by (nonlinear_arith);
    assert((prime_19() * prime_12()) * (prime_19() * prime_12()) > prime_41()) by (nonlinear_arith);
    assert(121110316006int * (1183562068179int - 1) + -76020496373int * prime_41() == 1) by (nonlinear_arith);
    assert(-178553307076int * (1610971956414int - 1) + 152550770091int * prime_41() == 1) by (nonlinear_arith);
    lemma_prime_by_order_of_two(
        prime_41(),
        prime_19(),
        prime_12(),
        element_41(),
        1183562068179int,
        121110316006int,
        -76020496373int,
        1610971956414int,
        -178553307076int,
        152550770091int,
    );
}

/// An element of order `prime_41` modulo `prime_42`.
spec fn element_42() -> int {
    4int
}

/// The power of `element_42` to the leading 32 bits of `prime_41`.
proof fn lemma_power_42_32()
    ensures
        pow_mod(element_42(), 3682743854nat, prime_42() as int) == 2273879767599int,
{
    lemma_power_zero(element_42(), prime_42() as int);
    assert(4int == (((1int * 1int) % (prime_42() as int)) * element_42()) % (
        prime_42() as int)) by (nonlinear_arith);
    lemma_power_doubled_plus_one(element_42(), prime_42() as int, 1int, 0nat, 4int);
    assert(64int == (((4int * 4int) % (prime_42() as int)) * element_42()) % (
        prime_42() as int)) by (nonlinear_arith);
    lemma_power_doubled_plus_one(element_42(), prime_42() as int, 4int, 1nat, 64int);
    assert(4096int == (64int * 64int) % (prime_42() as int)) by (nonlinear_arith);
    lemma_power_doubled(element_42(), prime_42() as int, 64int, 3nat, 4096int);
    assert(67108864int == (((4096int * 4096int) % (prime_42() as int)) * element_42()) % (
        prime_42() as int)) by (nonlinear_arith);
    lemma_power_doubled_plus_one(element_42(), prime_42() as int, 4096int, 6nat, 67108864int);
    assert(3483030956200int == (((67108864int * 67108864int) % (prime_42() as int)) * element_42()) % (
        prime_42() as int)) by (nonlinear_arith);
    lemma_power_doubled_plus_one(element_42(), prime_42() as int, 67108864int, 13nat, 3483030956200int);
    assert(203775797228int == (3483030956200int * 3483030956200int) % (prime_42() as int)) by (nonlinear_arith);
    lemma_power_doubled(element_42(), prime_42() as int, 3483030956200int, 27nat, 203775797228int);
    assert(202681285593int == (((203775797228int * 203775797228int) % (prime_42() as int)) * element_42()) % (
        prime_42() as int)) by (nonlinear_arith);
    lemma_power_doubled_plus_one(element_42(), prime_42() as int, 203775797228int, 54nat, 202681285593int);
    assert(3047510915313int == (((202681285593int * 202681285593int) % (prime_42() as int)) * element_42()) % (
        prime_42() as int)) by (nonlinear_arith);
    lemma_power_doubled_plus_one(element_42(), prime_42() as int, 202681285593int, 109nat, 3047510915313int);
    assert(3734518127958int == (((3047510915313int * 3047510915313int) % (prime_42() as int)) * element_42()) % (
        prime_42() as int)) by (nonlinear_arith);
    lemma_power_doubled_plus_one(element_42(), prime_42() as int, 3047510915313int, 219nat, 3734518127958int);
    assert(3404313281296int == (3734518127958int * 3734518127958int) % (prime_42() as int)) by (nonlinear_arith);
    lemma_power_doubled(element_42(), prime_42() as int, 3734518127958int, 439nat, 3404313281296int);
    assert(2853301976121int == (3404313281296int * 3404313281296int) % (prime_42() as int)) by (nonlinear_arith);
    lemma_power_doubled(element_42(), prime_42() as int, 3404313281296int, 878nat, 2853301976121int);
    assert(2093998451591int == (2853301976121int * 2853301976121int) % (prime_42() as int)) by (nonlinear_arith);
    lemma_power_doubled(element_42(), prime_42() as int, 2853301976121int, 1756nat, 2093998451591int);
    assert(1655475730002int == (2093998451591int * 2093998451591int) % (prime_42() as int)) by (nonlinear_arith);
    lemma_power_doubled(element_42(), prime_42() as int, 2093998451591int, 3512nat, 1655475730002int);
    assert(2043773809516int == (1655475730002int * 1655475730002int) % (prime_42() as int)) by (nonlinear_arith);
    lemma_power_doubled(element_42(), prime_42() as int, 1655475730002int, 7024nat, 2043773809516int);
    assert(2698625207927int == (((2043773809516int * 2043773809516int) % (prime_42() as int)) * element_42()) % (
        prime_42() as int)) by (nonlinear_arith);
    lemma_power_doubled_plus_one(element_42(), prime_42() as int, 2043773809516int, 14048nat, 2698625207927int);
    assert(2487311686189int == (2698625207927int * 2698625207927int) % (prime_42() as int)) by (nonlinear_arith);
    lemma_power_doubled(element_42(), prime_42() as int, 2698625207927int, 28097nat, 2487311686189int);
    assert(602058072923int == (2487311686189int * 2487311686189int) % (prime_42() as int)) by (nonlinear_arith);
    lemma_power_doubled(element_42(), prime_42() as int, 2487311686189int, 56194nat, 602058072923int);
    assert(774560931971int == (602058072923int * 602058072923int) % (prime_42() as int)) by (nonlinear_arith);
    lemma_power_doubled(element_42(), prime_42() as int, 602058072923int, 112388nat, 774560931971int);
    assert(1771554168594int == (((774560931971int * 774560931971int) % (prime_42() as int)) * element_42()) % (
        prime_42() as int)) by (nonlinear_arith);
    lemma_power_doubled_plus_one(element_42(), prime_42() as int, 774560931971int, 224776nat, 1771554168594int);
    assert(1040353454205int == (((1771554168594int * 1771554168594int) % (prime_42() as int)) * element_42()) % (
        prime_42() as int)) by (nonlinear_arith);
    lemma_power_doubled_plus_one(element_42(), prime_42() as int, 1771554168594int, 449553nat, 1040353454205int);
    assert(1670652372254int == (1040353454205int * 1040353454205int) % (prime_42() as int)) by (nonlinear_arith);
    lemma_power_doubled(element_42(), prime_42() as int, 1040353454205int, 899107nat, 1670652372254int);
    assert(1637699289505int == (((1670652372254int * 1670652372254int) % (prime_42() as int)) * element_42()) % (
        prime_42() as int)) by (nonlinear_arith);
    lemma_power_doubled_plus_one(element_42(), prime_42() as int, 1670652372254int, 1798214nat, 1637699289505int);
    assert(662363472002int == (((1637699289505int * 1637699289505int) % (prime_42() as int)) * element_42()) % (
        prime_42() as int)) by (nonlinear_arith);
    lemma_power_doubled_plus_one(element_42(), prime_42() as int, 1637699289505int, 3596429nat, 662363472002int);
    assert(3164002200597int == (662363472002int * 662363472002int) % (prime_42() as int)) by (nonlinear_arith);
    lemma_power_doubled(element_42(), prime_42() as int, 662363472002int, 7192859nat, 3164002200597int);
    assert(2342343117717int == (3164002200597int * 3164002200597int) % (prime_42() as int)) by (nonlinear_arith);
    lemma_power_doubled(element_42(), prime_42() as int, 3164002200597int, 14385718nat, 2342343117717int);
    assert(3723809939294int == (2342343117717int * 2342343117717int) % (prime_42() as int)) by (nonlinear_arith);
    lemma_power_doubled(element_42(), prime_42() as int, 2342343117717int, 28771436nat, 3723809939294int);
    assert(1325166685293int == (((3723809939294int * 3723809939294int) % (prime_42() as int)) * element_42()) % (
        prime_42() as int)) by (nonlinear_arith);
    lemma_power_doubled_plus_one(element_42(), prime_42() as int, 3723809939294int, 57542872nat, 1325166685293int);
    assert(112239619991int == (1325166685293int * 1325166685293int) % (prime_42() as int)) by (nonlinear_arith);
    lemma_power_doubled(element_42(), prime_42() as int, 1325166685293int, 115085745nat, 112239619991int);
    assert(1415819528834int == (((112239619991int * 112239619991int) % (prime_42() as int)) * element_42()) % (
        prime_42() as int)) by (nonlinear_arith);
    lemma_power_doubled_plus_one(element_42(), prime_42() as int, 112239619991int, 230171490nat, 1415819528834int);
    assert(928176829503int == (((1415819528834int * 1415819528834int) % (prime_42() as int)) * element_42()) % (
        prime_42() as int)) by (nonlinear_arith);
    lemma_power_doubled_plus_one(element_42(), prime_42() as int, 1415819528834int, 460342981nat, 928176829503int);
    assert(2408773979455int == (((928176829503int * 928176829503int) % (prime_42() as int)) * element_42()) % (
        prime_42() as int)) by (nonlinear_arith);
    lemma_power_doubled_plus_one(element_42(), prime_42() as int, 928176829503int, 920685963nat, 2408773979455int);
    assert(2273879767599int == (2408773979455int * 2408773979455int) % (prime_42() as int)) by (nonlinear_arith);
    lemma_power_doubled(element_42(), prime_42() as int, 2408773979455int, 1841371927nat, 2273879767599int);
}

/// The power of `element_42` to `prime_41`.
proof fn lemma_power_42()
    ensures
        pow_mod(element_42(), 1885564853279nat, prime_42() as int) == 1int,
{
    lemma_power_42_32();
    assert(2448047891146int == (2273879767599int * 2273879767599int) % (prime_42() as int)) by (nonlinear_arith);
    lemma_power_doubled(element_42(), prime_42() as int, 2273879767599int, 3682743854nat, 2448047891146int);
    assert(1362575132110int == (2448047891146int * 2448047891146int) % (prime_42() as int)) by (nonlinear_arith);
    lemma_power_doubled(element_42(), prime_42() as int, 2448047891146int, 7365487708nat, 1362575132110int);
    assert(405589313212int == (1362575132110int * 1362575132110int) % (prime_42() as int)) by (nonlinear_arith);
    lemma_power_doubled(element_42(), prime_42() as int, 1362575132110int, 14730975416nat, 405589313212int);
    assert(913869114997int == (405589313212int * 405589313212int) % (prime_42() as int)) by (nonlinear_arith);
    lemma_power_doubled(element_42(), prime_42() as int, 405589313212int, 29461950832nat, 913869114997int);
    assert(1480223773717int == (((913869114997int * 913869114997int) % (prime_42() as int)) * element_42()) % (
        prime_42() as int)) by (nonlinear_arith);
    lemma_power_doubled_plus_one(element_42(), prime_42() as int, 913869114997int, 58923901664nat, 1480223773717int);
    assert(926852238774int == (((1480223773717int * 1480223773717int) % (prime_42() as int)) * element_42()) % (
        prime_42() as int)) by (nonlinear_arith);
    lemma_power_doubled_plus_one(element_42(), prime_42() as int, 1480223773717int, 117847803329nat, 926852238774int);
    assert(2887346374361int == (((926852238774int * 926852238774int) % (prime_42() as int)) * element_42()) % (
        prime_42() as int)) by (nonlinear_arith);
    lemma_power_doubled_plus_one(element_42(), prime_42() as int, 926852238774int, 235695606659nat, 2887346374361int);
    assert(1885564853280int == (((2887346374361int * 2887346374361int) % (prime_42() as int)) * element_42()) % (
        prime_42() as int)) by (nonlinear_arith);
    lemma_power_doubled_plus_one(element_42(), prime_42() as int, 2887346374361int, 471391213319nat, 1885564853280int);
    assert(1int == (((1885564853280int * 1885564853280int) % (prime_42() as int)) * element_42()) % (
        prime_42() as int)) by (nonlinear_arith);
    lemma_power_doubled_plus_one(element_42(), prime_42() as int, 1885564853280int, 942782426639nat, 1int);
}

/// `prime_42` is prime.
pub proof fn lemma_prime_42()
    ensures
        is_prime(prime_42()),
{
    lemma_prime_41();
    lemma_power_42();
    assert(prime_41() * prime_41() > prime_42()) by (nonlinear_arith);
    assert(1257043235520int * (element_42() - 1) + -1int * prime_42() == 1) by (nonlinear_arith);
    lemma_prime_by_order(
        prime_42(),
        prime_41(),
        element_42(),
        1257043235520int,
        -1int,
    );
}

/// An element of order `prime_42` modulo `prime_75`.
spec fn element_75() -> int {
    17362286062812371197491int
}

/// The power of `element_75` to the leading 32 bits of `prime_42`.
proof fn lemma_power_75_32()
    ensures
        pow_mod(element_75(), 3682743854nat, prime_75() as int) == 1774018204736888611046int,
{
    lemma_power_zero(element_75(), prime_75() as int);
    assert(17362286062812371197491int == (((1int * 1int) % (prime_75() as int)) * element_75()) % (
        prime_75() as int)) by (nonlinear_arith);
    lemma_power_doubled_plus_one(element_75(), prime_75() as int, 1int, 0nat, 17362286062812371197491int);
    assert(14518862870483864133820int == (((17362286062812371197491int * 17362286062812371197491int) % (prime_75() as int)) * element_75()) % (
        prime_75() as int)) by (nonlinear_arith);
    lemma_power_doubled_plus_one(element_75(), prime_75() as int, 17362286062812371197491int, 1nat, 14518862870483864133820int);
    assert(21121084674404573447653int == (14518862870483864133820int * 14518862870483864133820int) % (prime_75() as int)) by (nonlinear_arith);
    lemma_power_doubled(element_75(), prime_75() as int, 14518862870483864133820int, 3nat, 21121084674404573447653int);
    assert(19996272338180166286125int == (((21121084674404573447653int * 21121084674404573447653int) % (prime_75() as int)) * element_75()) % (
        prime_75() as int)) by (nonlinear_arith);
    lemma_power_doubled_plus_one(element_75(), prime_75() as int, 21121084674404573447653int, 6nat, 19996272338180166286125int);
    assert(18842959303932267840004int == (((19996272338180166286125int * 19996272338180166286125int) % (prime_75() as int)) * element_75()) % (
        prime_75() as int)) by (nonlinear_arith);
    lemma_power_doubled_plus_one(element_75(), prime_75() as int, 19996272338180166286125int, 13nat, 18842959303932267840004int);
    assert(664627775354882357489int == (18842959303932267840004int * 18842959303932267840004int) % (prime_75() as int)) by (nonlinear_arith);
    lemma_power_doubled(element_75(), prime_75() as int, 18842959303932267840004int, 27nat, 664627775354882357489int);
    assert(12554300161373210560760int == (((664627775354882357489int * 664627775354882357489int) % (prime_75() as int)) * element_75()) % (
        prime_75() as int)) by (nonlinear_arith);
    lemma_power_doubled_plus_one(element_75(), prime_75() as int, 664627775354882357489int, 54nat, 12554300161373210560760int);
    assert(8924737608601064334441int == (((12554300161373210560760int * 12554300161373210560760int) % (prime_75() as int)) * element_75()) % (
        prime_75() as int)) by (nonlinear_arith);
    lemma_power_doubled_plus_one(element_75(), prime_75() as int, 12554300161373210560760int, 109nat, 8924737608601064334441int);
    assert(8671391158239254664350int == (((8924737608601064334441int * 8924737608601064334441int) % (prime_75() as int)) * element_75()) % (
        prime_75() as int)) by (nonlinear_arith);
    lemma_power_doubled_plus_one(element_75(), prime_75() as int, 8924737608601064334441int, 219nat, 8671391158239254664350int);
    assert(18322024738304386002486int == (8671391158239254664350int * 8671391158239254664350int) % (prime_75() as int)) by (nonlinear_arith);
    lemma_power_doubled(element_75(), prime_75() as int, 8671391158239254664350int, 439nat, 18322024738304386002486int);
    assert(20979920102275988551444int == (18322024738304386002486int * 18322024738304386002486int) % (prime_75() as int)) by (nonlinear_arith);
    lemma_power_doubled(element_75(), prime_75() as int, 18322024738304386002486int, 878nat, 20979920102275988551444int);
    assert(4316853161858854538111int == (20979920102275988551444int * 20979920102275988551444int) % (prime_75() as int)) by (nonlinear_arith);
    lemma_power_doubled(element_75(), prime_75() as int, 20979920102275988551444int, 1756nat, 4316853161858854538111int);
    assert(7362298870026958975270int == (4316853161858854538111int * 4316853161858854538111int) % (prime_75() as int)) by (nonlinear_arith);
    lemma_power_doubled(element_75(), prime_75() as int, 4316853161858854538111int, 3512nat, 7362298870026958975270int);
    assert(14711603443316020351438int == (7362298870026958975270int * 7362298870026958975270int) % (prime_75() as int)) by (nonlinear_arith);
    lemma_power_doubled(element_75(), prime_75() as int, 7362298870026958975270int, 7024nat, 14711603443316020351438int);
    assert(5057013988048236643360int == (((14711603443316020351438int * 14711603443316020351438int) % (prime_75() as int)) * element_75()) % (
        prime_75() as int)) by (nonlinear_arith);
    lemma_power_doubled_plus_one(element_75(), prime_75() as int, 14711603443316020351438int, 14048nat, 5057013988048236643360int);
    assert(7950369805850158324271int == (5057013988048236643360int * 5057013988048236643360int) % (prime_75() as int)) by (nonlinear_arith);
    lemma_power_doubled(element_75(), prime_75() as int, 5057013988048236643360int, 28097nat, 7950369805850158324271int);
    assert(3578341962520472777643int == (7950369805850158324271int * 7950369805850158324271int) % (prime_75() as int)) by (nonlinear_arith);
    lemma_power_doubled(element_75(), prime_75() as int, 7950369805850158324271int, 56194nat, 3578341962520472777643int);
    assert(18586099897265947430453int == (3578341962520472777643int * 3578341962520472777643int) % (prime_75() as int)) by (nonlinear_arith);
    lemma_power_doubled(element_75(), prime_75() as int, 3578341962520472777643int, 112388nat, 18586099897265947430453int);
    assert(17069604623015190586823int == (((18586099897265947430453int * 18586099897265947430453int) % (prime_75() as int)) * element_75()) % (
        prime_75() as int)) by (nonlinear_arith);
    lemma_power_doubled_plus_one(element_75(), prime_75() as int, 18586099897265947430453int, 224776nat, 17069604623015190586823int);
    assert(22350452230365056745161int == (((17069604623015190586823int * 17069604623015190586823int) % (prime_75() as int)) * element_75()) % (
        prime_75() as int)) by (nonlinear_arith);
    lemma_power_doubled_plus_one(element_75(), prime_75() as int, 17069604623015190586823int, 449553nat, 22350452230365056745161int);
    assert(1202265101883159510581int == (22350452230365056745161int * 22350452230365056745161int) % (prime_75() as int)) by (nonlinear_arith);
    lemma_power_doubled(element_75(), prime_75() as int, 22350452230365056745161int, 899107nat, 1202265101883159510581int);
    assert(16237763061073285572098int == (((1202265101883159510581int * 1202265101883159510581int) % (prime_75() as int)) * element_75()) % (
        prime_75() as int)) by (nonlinear_arith);
    lemma_power_doubled_plus_one(element_75(), prime_75() as int, 1202265101883159510581int, 1798214nat, 16237763061073285572098int);
    assert(14613314284633380331079int == (((16237763061073285572098int * 16237763061073285572098int) % (prime_75() as int)) * element_75()) % (
        prime_75() as int)) by (nonlinear_arith);
    lemma_power_doubled_plus_one(element_75(), prime_75() as int, 16237763061073285572098int, 3596429nat, 14613314284633380331079int);
    assert(10633589826253885108859int == (14613314284633380331079int * 14613314284633380331079int) % (prime_75() as int)) by (nonlinear_arith);
    lemma_power_doubled(element_75(), prime_75() as int, 14613314284633380331079int, 7192859nat, 10633589826253885108859int);
    assert(10606331574407747273850int == (10633589826253885108859int * 10633589826253885108859int) % (prime_75() as int)) by (nonlinear_arith);
    lemma_power_doubled(element_75(), prime_75() as int, 10633589826253885108859int, 14385718nat, 10606331574407747273850int);
    assert(13323666038529965545137int == (10606331574407747273850int * 10606331574407747273850int) % (prime_75() as int)) by (nonlinear_arith);
    lemma_power_doubled(element_75(), prime_75() as int, 10606331574407747273850int, 28771436nat, 13323666038529965545137int);
    assert(16885696615981471740284int == (((13323666038529965545137int * 13323666038529965545137int) % (prime_75() as int)) * element_75()) % (
        prime_75() as int)) by (nonlinear_arith);
    lemma_power_doubled_plus_one(element_75(), prime_75() as int, 13323666038529965545137int, 57542872nat, 16885696615981471740284int);
    assert(20728725537814057794113int == (16885696615981471740284int * 16885696615981471740284int) % (prime_75() as int)) by (nonlinear_arith);
    lemma_power_doubled(element_75(), prime_75() as int, 16885696615981471740284int, 115085745nat, 20728725537814057794113int);
    assert(4212514152325466747320int == (((20728725537814057794113int * 20728725537814057794113int) % (prime_75() as int)) * element_75()) % (
        prime_75() as int)) by (nonlinear_arith);
    lemma_power_doubled_plus_one(element_75(), prime_75() as int, 20728725537814057794113int, 230171490nat, 4212514152325466747320int);
    assert(22367687881562944146855int == (((4212514152325466747320int * 4212514152325466747320int) % (prime_75() as int)) * element_75()) % (
        prime_75() as int)) by (nonlinear_arith);
    lemma_power_doubled_plus_one(element_75(), prime_75() as int, 4212514152325466747320int, 460342981nat, 22367687881562944146855int);
    assert(16327341681065071462693int == (((22367687881562944146855int * 22367687881562944146855int) % (prime_75() as int)) * element_75()) % (
        prime_75() as int)) by (nonlinear_arith);
    lemma_power_doubled_plus_one(element_75(), prime_75() as int, 22367687881562944146855int, 920685963nat, 16327341681065071462693int);
    assert(1774018204736888611046int == (16327341681065071462693int * 16327341681065071462693int) % (prime_75() as int)) by (nonlinear_arith);
    lemma_power_doubled(element_75(), prime_75() as int, 16327341681065071462693int, 1841371927nat, 1774018204736888611046int);
}

/// The power of `element_75` to `prime_42`.
proof fn lemma_power_75()
    ensures
        pow_mod(element_75(), 3771129706559nat, prime_75() as int) == 1int,
{
    lemma_power_75_32();
    assert(21469297918721136936419int == (1774018204736888611046int * 1774018204736888611046int) % (prime_75() as int)) by (nonlinear_arith);
    lemma_power_doubled(element_75(), prime_75() as int, 1774018204736888611046int, 3682743854nat, 21469297918721136936419int);
    assert(13284881060293028649005int == (21469297918721136936419int * 21469297918721136936419int) % (prime_75() as int)) by (nonlinear_arith);
    lemma_power_doubled(element_75(), prime_75() as int, 21469297918721136936419int, 7365487708nat, 13284881060293028649005int);
    assert(504401111041186692840int == (13284881060293028649005int * 13284881060293028649005int) % (prime_75() as int)) by (nonlinear_arith);
    lemma_power_doubled(element_75(), prime_75() as int, 13284881060293028649005int, 14730975416nat, 504401111041186692840int);
    assert(21232086562526800365448int == (504401111041186692840int * 504401111041186692840int) % (prime_75() as int)) by (nonlinear_arith);
    lemma_power_doubled(element_75(), prime_75() as int, 504401111041186692840int, 29461950832nat, 21232086562526800365448int);
    assert(13469704497305556254576int == (((21232086562526800365448int * 21232086562526800365448int) % (prime_75() as int)) * element_75()) % (
        prime_75() as int)) by (nonlinear_arith);
    lemma_power_doubled_plus_one(element_75(), prime_75() as int, 21232086562526800365448int, 58923901664nat, 13469704497305556254576int);
    assert(1156291180834682485327int == (((13469704497305556254576int * 13469704497305556254576int) % (prime_75() as int)) * element_75()) % (
        prime_75() as int)) by (nonlinear_arith);
    lemma_power_doubled_plus_one(element_75(), prime_75() as int, 13469704497305556254576int, 117847803329nat, 1156291180834682485327int);
    assert(279319687988980301821int == (((1156291180834682485327int * 1156291180834682485327int) % (prime_75() as int)) * element_75()) % (
        prime_75() as int)) by (nonlinear_arith);
    lemma_power_doubled_plus_one(element_75(), prime_75() as int, 1156291180834682485327int, 235695606659nat, 279319687988980301821int);
    assert(8276008527844281969212int == (((279319687988980301821int * 279319687988980301821int) % (prime_75() as int)) * element_75()) % (
        prime_75() as int)) by (nonlinear_arith);
    lemma_power_doubled_plus_one(element_75(), prime_75() as int, 279319687988980301821int, 471391213319nat, 8276008527844281969212int);
    assert(22471161616700355702670int == (((8276008527844281969212int * 8276008527844281969212int) % (prime_75() as int)) * element_75()) % (
        prime_75() as int)) by (nonlinear_arith);
    lemma_power_doubled_plus_one(element_75(), prime_75() as int, 8276008527844281969212int, 942782426639nat, 22471161616700355702670int);
    assert(1int == (((22471161616700355702670int * 22471161616700355702670int) % (prime_75() as int)) * element_75()) % (
        prime_75() as int)) by (nonlinear_arith);
    lemma_power_doubled_plus_one(element_75(), prime_75() as int, 22471161616700355702670int, 1885564853279nat, 1int);
}

/// `prime_75` is prime.
pub proof fn lemma_prime_75()
    ensures
        is_prime(prime_75()),
{
    lemma_prime_42();
    lemma_power_75();
    assert(prime_42() * prime_42() > prime_75()) by (nonlinear_arith);
    assert(-8531210648130590550828int * (element_75() - 1) + 6388254929218863589807int * prime_75() == 1) by (nonlinear_arith);
    lemma_prime_by_order(
        prime_75(),
        prime_42(),
        element_75(),
        -8531210648130590550828int,
        6388254929218863589807int,
    );
}

/// An element of order `prime_75` modulo `prime_107`.
spec fn element_107() -> int {
    40704638264045700059208552094040int
}

/// The power of `element_107` to the leading 32 bits of `prime_75`.
proof fn lemma_power_107_32()
    ensures
        pow_mod(element_107(), 2636000696nat, prime_107() as int) == 110682421993421403818878304035610int,
{
    lemma_power_zero(element_107(), prime_107() as int);
    assert(40704638264045700059208552094040int == (((1int * 1int) % (prime_107() as int)) * element_107()) % (
        prime_107() as int)) by (nonlinear_arith);
    lemma_power_doubled_plus_one(element_107(), prime_107() as int, 1int, 0nat, 40704638264045700059208552094040int);
    assert(38483394902429029652976603759871int == (40704638264045700059208552094040int * 40704638264045700059208552094040int) % (prime_107() as int)) by (nonlinear_arith);
    lemma_power_doubled(element_107(), prime_107() as int, 40704638264045700059208552094040int, 1nat, 38483394902429029652976603759871int);
    assert(73131506494398273750967133271775int == (38483394902429029652976603759871int * 38483394902429029652976603759871int) % (prime_107() as int)) by (nonlinear_arith);
    lemma_power_doubled(element_107(), prime_107() as int, 38483394902429029652976603759871int, 2nat, 73131506494398273750967133271775int);
    assert(108927888922177559212032028284804int == (((73131506494398273750967133271775int * 73131506494398273750967133271775int) % (prime_107() as int)) * element_107()) % (
        prime_107() as int)) by (nonlinear_arith);
    lemma_power_doubled_plus_one(element_107(), prime_107() as int, 73131506494398273750967133271775int, 4nat, 108927888922177559212032028284804int);
    assert(93235098742870536438229046543963int == (((108927888922177559212032028284804int * 108927888922177559212032028284804int) % (prime_107() as int)) * element_107()) % (
        prime_107() as int)) by (nonlinear_arith);
    lemma_power_doubled_plus_one(element_107(), prime_107() as int, 108927888922177559212032028284804int, 9nat, 93235098742870536438229046543963int);
    assert(5990414613762039867101427332331int == (((93235098742870536438229046543963int * 93235098742870536438229046543963int) % (prime_107() as int)) * element_107()) % (
        prime_107() as int)) by (nonlinear_arith);
    lemma_power_doubled_plus_one(element_107(), prime_107() as int, 93235098742870536438229046543963int, 19nat, 5990414613762039867101427332331int);
    assert(59048597037746543548166543130985int == (5990414613762039867101427332331int * 5990414613762039867101427332331int) % (prime_107() as int)) by (nonlinear_arith);
    lemma_power_doubled(element_107(), prime_107() as int, 5990414613762039867101427332331int, 39nat, 59048597037746543548166543130985int);
    assert(5562245064849568301094328352634int == (((59048597037746543548166543130985int * 59048597037746543548166543130985int) % (prime_107() as int)) * element_107()) % (
        prime_107() as int)) by (nonlinear_arith);
    lemma_power_doubled_plus_one(element_107(), prime_107() as int, 59048597037746543548166543130985int, 78nat, 5562245064849568301094328352634int);
    assert(30628037281734848433319729529539int == (5562245064849568301094328352634int * 5562245064849568301094328352634int) % (prime_107() as int)) by (nonlinear_arith);
    lemma_power_doubled(element_107(), prime_107() as int, 5562245064849568301094328352634int, 157nat, 30628037281734848433319729529539int);
    assert(79324559069483776479605802815397int == (30628037281734848433319729529539int * 30628037281734848433319729529539int) % (prime_107() as int)) by (nonlinear_arith);
    lemma_power_doubled(element_107(), prime_107() as int, 30628037281734848433319729529539int, 314nat, 79324559069483776479605802815397int);
    assert(13725034483582487636719106656226int == (79324559069483776479605802815397int * 79324559069483776479605802815397int) % (prime_107() as int)) by (nonlinear_arith);
    lemma_power_doubled(element_107(), prime_107() as int, 79324559069483776479605802815397int, 628nat, 13725034483582487636719106656226int);
    assert(42087558255485123377348474859290int == (((13725034483582487636719106656226int * 13725034483582487636719106656226int) % (prime_107() as int)) * element_107()) % (
        prime_107() as int)) by (nonlinear_arith);
    lemma_power_doubled_plus_one(element_107(), prime_107() as int, 13725034483582487636719106656226int, 1256nat, 42087558255485123377348474859290int);
    assert(51194654898128475668960446298526int == (((42087558255485123377348474859290int * 42087558255485123377348474859290int) % (prime_107() as int)) * element_107()) % (
        prime_107() as int)) by (nonlinear_arith);
    lemma_power_doubled_plus_one(element_107(), prime_107() as int, 42087558255485123377348474859290int, 2513nat, 51194654898128475668960446298526int);
    assert(30494255289197127098768879210337int == (((51194654898128475668960446298526int * 51194654898128475668960446298526int) % (prime_107() as int)) * element_107()) % (
        prime_107() as int)) by (nonlinear_arith);
    lemma_power_doubled_plus_one(element_107(), prime_107() as int, 51194654898128475668960446298526int, 5027nat, 30494255289197127098768879210337int);
    assert(78878329224864402907928906792413int == (((30494255289197127098768879210337int * 30494255289197127098768879210337int) % (prime_107() as int)) * element_107()) % (
        prime_107() as int)) by (nonlinear_arith);
    lemma_power_doubled_plus_one(element_107(), prime_107() as int, 30494255289197127098768879210337int, 10055nat, 78878329224864402907928906792413int);
    assert(80438870355171602677152579860723int == (78878329224864402907928906792413int * 78878329224864402907928906792413int) % (prime_107() as int)) by (nonlinear_arith);
    lemma_power_doubled(element_107(), prime_107() as int, 78878329224864402907928906792413int, 20111nat, 80438870355171602677152579860723int);
    assert(26931293189504088506826142303113int == (80438870355171602677152579860723int * 80438870355171602677152579860723int) % (prime_107() as int)) by (nonlinear_arith);
    lemma_power_doubled(element_107(), prime_107() as int, 80438870355171602677152579860723int, 40222nat, 26931293189504088506826142303113int);
    assert(79620147537549814185829966158047int == (26931293189504088506826142303113int * 26931293189504088506826142303113int) % (prime_107() as int)) by (nonlinear_arith);
    lemma_power_doubled(element_107(), prime_107() as int, 26931293189504088506826142303113int, 80444nat, 79620147537549814185829966158047int);
    assert(15321213363681238393798052789591int == (((79620147537549814185829966158047int * 79620147537549814185829966158047int) % (prime_107() as int)) * element_107()) % (
        prime_107() as int)) by (nonlinear_arith);
    lemma_power_doubled_plus_one(element_107(), prime_107() as int, 79620147537549814185829966158047int, 160888nat, 15321213363681238393798052789591int);
    assert(2990856625379489103583789827093int == (15321213363681238393798052789591int * 15321213363681238393798052789591int) % (prime_107() as int)) by (nonlinear_arith);
    lemma_power_doubled(element_107(), prime_107() as int, 15321213363681238393798052789591int, 321777nat, 2990856625379489103583789827093int);
    assert(85393299073543847393702976335053int == (((2990856625379489103583789827093int * 2990856625379489103583789827093int) % (prime_107() as int)) * element_107()) % (
        prime_107() as int)) by (nonlinear_arith);
    lemma_power_doubled_plus_one(element_107(), prime_107() as int, 2990856625379489103583789827093int, 643554nat, 85393299073543847393702976335053int);
    assert(31935748232696513700307008704360int == (((85393299073543847393702976335053int * 85393299073543847393702976335053int) % (prime_107() as int)) * element_107()) % (
        prime_107() as int)) by (nonlinear_arith);
    lemma_power_doubled_plus_one(element_107(), prime_107() as int, 85393299073543847393702976335053int, 1287109nat, 31935748232696513700307008704360int);
    assert(33946834835520789848809063246682int == (31935748232696513700307008704360int * 31935748232696513700307008704360int) % (prime_107() as int)) by (nonlinear_arith);
    lemma_power_doubled(element_107(), prime_107() as int, 31935748232696513700307008704360int, 2574219nat, 33946834835520789848809063246682int);
    assert(98923545767838524114722332781044int == (((33946834835520789848809063246682int * 33946834835520789848809063246682int) % (prime_107() as int)) * element_107()) % (
        prime_107() as int)) by (nonlinear_arith);
    lemma_power_doubled_plus_one(element_107(), prime_107() as int, 33946834835520789848809063246682int, 5148438nat, 98923545767838524114722332781044int);
    assert(21019326831518979909531620619327int == (((98923545767838524114722332781044int * 98923545767838524114722332781044int) % (prime_107() as int)) * element_107()) % (
        prime_107() as int)) by (nonlinear_arith);
    lemma_power_doubled_plus_one(element_107(), prime_107() as int, 98923545767838524114722332781044int, 10296877nat, 21019326831518979909531620619327int);
    assert(78621722288797681153383445629709int == (21019326831518979909531620619327int * 21019326831518979909531620619327int) % (prime_107() as int)) by (nonlinear_arith);
    lemma_power_doubled(element_107(), prime_107() as int, 21019326831518979909531620619327int, 20593755nat, 78621722288797681153383445629709int);
    assert(24921059475090974687647431563041int == (((78621722288797681153383445629709int * 78621722288797681153383445629709int) % (prime_107() as int)) * element_107()) % (
        prime_107() as int)) by (nonlinear_arith);
    lemma_power_doubled_plus_one(element_107(), prime_107() as int, 78621722288797681153383445629709int, 41187510nat, 24921059475090974687647431563041int);
    assert(32008365402291178709383928413195int == (((24921059475090974687647431563041int * 24921059475090974687647431563041int) % (prime_107() as int)) * element_107()) % (
        prime_107() as int)) by (nonlinear_arith);
    lemma_power_doubled_plus_one(element_107(), prime_107() as int, 24921059475090974687647431563041int, 82375021nat, 32008365402291178709383928413195int);
    assert(60219532737768734651065775233433int == (((32008365402291178709383928413195int * 32008365402291178709383928413195int) % (prime_107() as int)) * element_107()) % (
        prime_107() as int)) by (nonlinear_arith);
    lemma_power_doubled_plus_one(element_107(), prime_107() as int, 32008365402291178709383928413195int, 164750043nat, 60219532737768734651065775233433int);
    assert(9115325043075632133362924430502int == (60219532737768734651065775233433int * 60219532737768734651065775233433int) % (prime_107() as int)) by (nonlinear_arith);
    lemma_power_doubled(element_107(), prime_107() as int, 60219532737768734651065775233433int, 329500087nat, 9115325043075632133362924430502int);
    assert(66462768556998503250182879357288int == (9115325043075632133362924430502int * 9115325043075632133362924430502int) % (prime_107() as int)) by (nonlinear_arith);
    lemma_power_doubled(element_107(), prime_107() as int, 9115325043075632133362924430502int, 659000174nat, 66462768556998503250182879357288int);
    assert(110682421993421403818878304035610int == (66462768556998503250182879357288int * 66462768556998503250182879357288int) % (prime_107() as int)) by (nonlinear_arith);
    lemma_power_doubled(element_107(), prime_107() as int, 66462768556998503250182879357288int, 1318000348nat, 110682421993421403818878304035610int);
}

/// The power of `element_107` to the leading 64 bits of `prime_75`.
proof fn lemma_power_107_64()
    ensures
        pow_mod(element_107(), 11321536781669543319nat, prime_107() as int) == 58968800684276448422634348269547int,
{
    lemma_power_107_32();
    assert(63577107468986700777539154848686int == (110682421993421403818878304035610int * 110682421993421403818878304035610int) % (prime_107() as int)) by (nonlinear_arith);
    lemma_power_doubled(element_107(), prime_107() as int, 110682421993421403818878304035610int, 2636000696nat, 63577107468986700777539154848686int);
    assert(2874770505224737427221600861089int == (63577107468986700777539154848686int * 63577107468986700777539154848686int) % (prime_107() as int)) by (nonlinear_arith);
    lemma_power_doubled(element_107(), prime_107() as int, 63577107468986700777539154848686int, 5272001392nat, 2874770505224737427221600861089int);
    assert(41921504542019022919211073201563int == (2874770505224737427221600861089int * 2874770505224737427221600861089int) % (prime_107() as int)) by (nonlinear_arith);
    lemma_power_doubled(element_107(), prime_107() as int, 2874770505224737427221600861089int, 10544002784nat, 41921504542019022919211073201563int);
    assert(62632501876513432102528933902817int == (41921504542019022919211073201563int * 41921504542019022919211073201563int) % (prime_107() as int)) by (nonlinear_arith);
    lemma_power_doubled(element_107(), prime_107() as int, 41921504542019022919211073201563int, 21088005568nat, 62632501876513432102528933902817int);
    assert(99681274863807796866418148322231int == (62632501876513432102528933902817int * 62632501876513432102528933902817int) % (prime_107() as int)) by (nonlinear_arith);
    lemma_power_doubled(element_107(), prime_107() as int, 62632501876513432102528933902817int, 42176011136nat, 99681274863807796866418148322231int);
    assert(37575878187198392803621938140238int == (((99681274863807796866418148322231int * 99681274863807796866418148322231int) % (prime_107() as int)) * element_107()) % (
        prime_107() as int)) by (nonlinear_arith);
    lemma_power_doubled_plus_one(element_107(), prime_107() as int, 99681274863807796866418148322231int, 84352022272nat, 37575878187198392803621938140238int);
    assert(72370966491171036801821795013348int == (((37575878187198392803621938140238int * 37575878187198392803621938140238int) % (prime_107() as int)) * element_107()) % (
        prime_107() as int)) by (nonlinear_arith);
    lemma_power_doubled_plus_one(element_107(), prime_107() as int, 37575878187198392803621938140238int, 168704044545nat, 72370966491171036801821795013348int);
    assert(17331962835444681304481369400262int == (72370966491171036801821795013348int * 72370966491171036801821795013348int) % (prime_107() as int)) by (nonlinear_arith);
    lemma_power_doubled(element_107(), prime_107() as int, 72370966491171036801821795013348int, 337408089091nat, 17331962835444681304481369400262int);
    assert(27724457609710232134283537849800int == (((17331962835444681304481369400262int * 17331962835444681304481369400262int) % (prime_107() as int)) * element_107()) % (
        prime_107() as int)) by (nonlinear_arith);
    lemma_power_doubled_plus_one(element_107(), prime_107() as int, 17331962835444681304481369400262int, 674816178182nat, 27724457609710232134283537849800int);
    assert(114275015366102842010688554888548int == (((27724457609710232134283537849800int * 27724457609710232134283537849800int) % (prime_107() as int)) * element_107()) % (
        prime_107() as int)) by (nonlinear_arith);
    lemma_power_doubled_plus_one(element_107(), prime_107() as int, 27724457609710232134283537849800int, 1349632356365nat, 114275015366102842010688554888548int);
    assert(110090689393927048992811986346162int == (((114275015366102842010688554888548int * 114275015366102842010688554888548int) % (prime_107() as int)) * element_107()) % (
        prime_107() as int)) by (nonlinear_arith);
    lemma_power_doubled_plus_one(element_107(), prime_107() as int, 114275015366102842010688554888548int, 2699264712731nat, 110090689393927048992811986346162int);
    assert(7835903119496461705278685101628int == (110090689393927048992811986346162int * 110090689393927048992811986346162int) % (prime_107() as int)) by (nonlinear_arith);
    lemma_power_doubled(element_107(), prime_107() as int, 110090689393927048992811986346162int, 5398529425463nat, 7835903119496461705278685101628int);
    assert(51082900173342489839175330966602int == (((7835903119496461705278685101628int * 7835903119496461705278685101628int) % (prime_107() as int)) * element_107()) % (
        prime_107() as int)) by (nonlinear_arith);
    lemma_power_doubled_plus_one(element_107(), prime_107() as int, 7835903119496461705278685101628int, 10797058850926nat, 51082900173342489839175330966602int);
    assert(60566058095996970064654886241635int == (((51082900173342489839175330966602int * 51082900173342489839175330966602int) % (prime_107() as int)) * element_107()) % (
        prime_107() as int)) by (nonlinear_arith);
    lemma_power_doubled_plus_one(element_107(), prime_107() as int, 51082900173342489839175330966602int, 21594117701853nat, 60566058095996970064654886241635int);
    assert(63714774054008024202512790326371int == (((60566058095996970064654886241635int * 60566058095996970064654886241635int) % (prime_107() as int)) * element_107()) % (
        prime_107() as int)) by (nonlinear_arith);
    lemma_power_doubled_plus_one(element_107(), prime_107() as int, 60566058095996970064654886241635int, 43188235403707nat, 63714774054008024202512790326371int);
    assert(61681140722985652379914876379075int == (63714774054008024202512790326371int * 63714774054008024202512790326371int) % (prime_107() as int)) by (nonlinear_arith);
    lemma_power_doubled(element_107(), prime_107() as int, 63714774054008024202512790326371int, 86376470807415nat, 61681140722985652379914876379075int);
    assert(50311646053517485204648199861014int == (((61681140722985652379914876379075int * 61681140722985652379914876379075int) % (prime_107() as int)) * element_107()) % (
        prime_107() as int)) by (nonlinear_arith);
    lemma_power_doubled_plus_one(element_107(), prime_107() as int, 61681140722985652379914876379075int, 172752941614830nat, 50311646053517485204648199861014int);
    assert(42448883578772634352861628504640int == (50311646053517485204648199861014int * 50311646053517485204648199861014int) % (prime_107() as int)) by (nonlinear_arith);
    lemma_power_doubled(element_107(), prime_107() as int, 50311646053517485204648199861014int, 345505883229661nat, 42448883578772634352861628504640int);
    assert(96403430132293716207831263955841int == (((42448883578772634352861628504640int * 42448883578772634352861628504640int) % (prime_107() as int)) * element_107()) % (
        prime_107() as int)) by (nonlinear_arith);
    lemma_power_doubled_plus_one(element_107(), prime_107() as int, 42448883578772634352861628504640int, 691011766459322nat, 96403430132293716207831263955841int);
    assert(69921556210617981775710309386161int == (96403430132293716207831263955841int * 96403430132293716207831263955841int) % (prime_107() as int)) by (nonlinear_arith);
    lemma_power_doubled(element_107(), prime_107() as int, 96403430132293716207831263955841int, 1382023532918645nat, 69921556210617981775710309386161int);
    assert(49095536613533660213352123878565int == (((69921556210617981775710309386161int * 69921556210617981775710309386161int) % (prime_107() as int)) * element_107()) % (
        prime_107() as int)) by (nonlinear_arith);
    lemma_power_doubled_plus_one(element_107(), prime_107() as int, 69921556210617981775710309386161int, 2764047065837290nat, 49095536613533660213352123878565int);
    assert(48730624844369964792295992293831int == (((49095536613533660213352123878565int * 49095536613533660213352123878565int) % (prime_107() as int)) * element_107()) % (
        prime_107() as int)) by (nonlinear_arith);
    lemma_power_doubled_plus_one(element_107(), prime_107() as int, 49095536613533660213352123878565int, 5528094131674581nat, 48730624844369964792295992293831int);
    assert(66676490128192444067452197686225int == (48730624844369964792295992293831int * 48730624844369964792295992293831int) % (prime_107() as int)) by (nonlinear_arith);
    lemma_power_doubled(element_107(), prime_107() as int, 48730624844369964792295992293831int, 11056188263349163nat, 66676490128192444067452197686225int);
    assert(7194124385031163471838881529174int == (((66676490128192444067452197686225int * 66676490128192444067452197686225int) % (prime_107() as int)) * element_107()) % (
        prime_107() as int)) by (nonlinear_arith);
    lemma_power_doubled_plus_one(element_107(), prime_107() as int, 66676490128192444067452197686225int, 22112376526698326nat, 7194124385031163471838881529174int);
    assert(6752153263715850918281911947719int == (((7194124385031163471838881529174int * 7194124385031163471838881529174int) % (prime_107() as int)) * element_107()) % (
        prime_107() as int)) by (nonlinear_arith);
    lemma_power_doubled_plus_one(element_107(), prime_107() as int, 7194124385031163471838881529174int, 44224753053396653nat, 6752153263715850918281911947719int);
    assert(101686369047666452182867283158340int == (6752153263715850918281911947719int * 6752153263715850918281911947719int) % (prime_107() as int)) by (nonlinear_arith);
    lemma_power_doubled(element_107(), prime_107() as int, 6752153263715850918281911947719int, 88449506106793307nat, 101686369047666452182867283158340int);
    assert(81455752678992229302690825430393int == (101686369047666452182867283158340int * 101686369047666452182867283158340int) % (prime_107() as int)) by (nonlinear_arith);
    lemma_power_doubled(element_107(), prime_107() as int, 101686369047666452182867283158340int, 176899012213586614nat, 81455752678992229302690825430393int);
    assert(1641507373515491225155651173635int == (((81455752678992229302690825430393int * 81455752678992229302690825430393int) % (prime_107() as int)) * element_107()) % (
        prime_107() as int)) by (nonlinear_arith);
    lemma_power_doubled_plus_one(element_107(), prime_107() as int, 81455752678992229302690825430393int, 353798024427173228nat, 1641507373515491225155651173635int);
    assert(32802112276543675896030669364423int == (1641507373515491225155651173635int * 1641507373515491225155651173635int) % (prime_107() as int)) by (nonlinear_arith);
    lemma_power_doubled(element_107(), prime_107() as int, 1641507373515491225155651173635int, 707596048854346457nat, 32802112276543675896030669364423int);
    assert(89724149038364568354984041996755int == (((32802112276543675896030669364423int * 32802112276543675896030669364423int) % (prime_107() as int)) * element_107()) % (
        prime_107() as int)) by (nonlinear_arith);
    lemma_power_doubled_plus_one(element_107(), prime_107() as int, 32802112276543675896030669364423int, 1415192097708692914nat, 89724149038364568354984041996755int);
    assert(109587476433209722144717716832944int == (((89724149038364568354984041996755int * 89724149038364568354984041996755int) % (prime_107() as int)) * element_107()) % (
        prime_107() as int)) by (nonlinear_arith);
    lemma_power_doubled_plus_one(element_107(), prime_107() as int, 89724149038364568354984041996755int, 2830384195417385829nat, 109587476433209722144717716832944int);
    assert(58968800684276448422634348269547int == (((109587476433209722144717716832944int * 109587476433209722144717716832944int) % (prime_107() as int)) * element_107()) % (
        prime_107() as int)) by (nonlinear_arith);
    lemma_power_doubled_plus_one(element_107(), prime_107() as int, 109587476433209722144717716832944int, 5660768390834771659nat, 58968800684276448422634348269547int);
}

/// The power of `element_107` to `prime_75`.
proof fn lemma_power_107()
    ensures
        pow_mod(element_107(), 23186507328859224718903nat, prime_107() as int) == 1int,
{
    lemma_power_107_64();
    assert(54269675526761930842667501272598int == (((58968800684276448422634348269547int * 58968800684276448422634348269547int) % (prime_107() as int)) * element_107()) % (
        prime_107() as int)) by (nonlinear_arith);
    lemma_power_doubled_plus_one(element_107(), prime_107() as int, 58968800684276448422634348269547int, 11321536781669543319nat, 54269675526761930842667501272598int);
    assert(34097357988571289021909299341328int == (((54269675526761930842667501272598int * 54269675526761930842667501272598int) % (prime_107() as int)) * element_107()) % (
        prime_107() as int)) by (nonlinear_arith);
    lemma_power_doubled_plus_one(element_107(), prime_107() as int, 54269675526761930842667501272598int, 22643073563339086639nat, 34097357988571289021909299341328int);
    assert(84354496565326330214964648384909int == (34097357988571289021909299341328int * 34097357988571289021909299341328int) % (prime_107() as int)) by (nonlinear_arith);
    lemma_power_doubled(element_107(), prime_107() as int, 34097357988571289021909299341328int, 45286147126678173279nat, 84354496565326330214964648384909int);
    assert(36605472046241781351744806168511int == (84354496565326330214964648384909int * 84354496565326330214964648384909int) % (prime_107() as int)) by (nonlinear_arith);
    lemma_power_doubled(element_107(), prime_107() as int, 84354496565326330214964648384909int, 90572294253356346558nat, 36605472046241781351744806168511int);
    assert(10224568682575268560194119640111int == (36605472046241781351744806168511int * 36605472046241781351744806168511int) % (prime_107() as int)) by (nonlinear_arith);
    lemma_power_doubled(element_107(), prime_107() as int, 36605472046241781351744806168511int, 181144588506712693116nat, 10224568682575268560194119640111int);
    assert(4628834370217567748950078127193int == (((10224568682575268560194119640111int * 10224568682575268560194119640111int) % (prime_107() as int)) * element_107()) % (
        prime_107() as int)) by (nonlinear_arith);
    lemma_power_doubled_plus_one(element_107(), prime_107() as int, 10224568682575268560194119640111int, 362289177013425386232nat, 4628834370217567748950078127193int);
    assert(61467218593912358501471351055501int == (((4628834370217567748950078127193int * 4628834370217567748950078127193int) % (prime_107() as int)) * element_107()) % (
        prime_107() as int)) by (nonlinear_arith);
    lemma_power_doubled_plus_one(element_107(), prime_107() as int, 4628834370217567748950078127193int, 724578354026850772465nat, 61467218593912358501471351055501int);
    assert(8959984345641826604889572111330int == (61467218593912358501471351055501int * 61467218593912358501471351055501int) % (prime_107() as int)) by (nonlinear_arith);
    lemma_power_doubled(element_107(), prime_107() as int, 61467218593912358501471351055501int, 1449156708053701544931nat, 8959984345641826604889572111330int);
    assert(1800586026918844434995690550146int == (((8959984345641826604889572111330int * 8959984345641826604889572111330int) % (prime_107() as int)) * element_107()) % (
        prime_107() as int)) by (nonlinear_arith);
    lemma_power_doubled_plus_one(element_107(), prime_107() as int, 8959984345641826604889572111330int, 2898313416107403089862nat, 1800586026918844434995690550146int);
    assert(14505185211516525912109014722744int == (((1800586026918844434995690550146int * 1800586026918844434995690550146int) % (prime_107() as int)) * element_107()) % (
        prime_107() as int)) by (nonlinear_arith);
    lemma_power_doubled_plus_one(element_107(), prime_107() as int, 1800586026918844434995690550146int, 5796626832214806179725nat, 14505185211516525912109014722744int);
    assert(1int == (((14505185211516525912109014722744int * 14505185211516525912109014722744int) % (prime_107() as int)) * element_107()) % (
        prime_107() as int)) by (nonlinear_arith);
    lemma_power_doubled_plus_one(element_107(), prime_107() as int, 14505185211516525912109014722744int, 11593253664429612359451nat, 1int);
}

/// `prime_107` is prime.
pub proof fn lemma_prime_107()
    ensures
        is_prime(prime_107()),
{
    lemma_prime_75();
    lemma_power_107();
    assert(prime_75() * prime_75() > prime_107()) by (nonlinear_arith);
    assert(27914089754812159235870736526674int * (element_107() - 1) + -9761786849795415023707605452855int * prime_107() == 1) by (nonlinear_arith);
    lemma_prime_by_order(
        prime_107(),
        prime_75(),
        element_107(),
        27914089754812159235870736526674int,
        -9761786849795415023707605452855int,
    );
}

/// An element of order `prime_107` modulo `prime_183`.
spec fn element_183() -> int {
    493720495092278934978403493928091826013993889120285123int
}

/// The power of `element_183` to the leading 32 bits of `prime_107`.
proof fn lemma_power_183_32()
    ensures
        pow_mod(element_183(), 3080976422nat, prime_183() as int) == 2568997410350778016145574318891193491788882520065240860int,
{
    lemma_power_zero(element_183(), prime_183() as int);
    assert(493720495092278934978403493928091826013993889120285123int == (((1int * 1int) % (prime_183() as int)) * element_183()) % (
        prime_183() as int)) by (nonlinear_arith);
    lemma_power_doubled_plus_one(element_183(), prime_183() as int, 1int, 0nat, 493720495092278934978403493928091826013993889120285123int);
    assert(2978659401375801671715609013850509941350088363090076263int == (493720495092278934978403493928091826013993889120285123int * 493720495092278934978403493928091826013993889120285123int) % (prime_183() as int)) by (nonlinear_arith);
    lemma_power_doubled(element_183(), prime_183() as int, 493720495092278934978403493928091826013993889120285123int, 1nat, 2978659401375801671715609013850509941350088363090076263int);
    assert(7845056506423629844743490541335036336156224598441438401int == (((2978659401375801671715609013850509941350088363090076263int * 2978659401375801671715609013850509941350088363090076263int) % (prime_183() as int)) * element_183()) % (
        prime_183() as int)) by (nonlinear_arith);
    lemma_power_doubled_plus_one(element_183(), prime_183() as int, 2978659401375801671715609013850509941350088363090076263int, 2nat, 7845056506423629844743490541335036336156224598441438401int);
    assert(5866562055427552757325115569036039412398976396819625790int == (((7845056506423629844743490541335036336156224598441438401int * 7845056506423629844743490541335036336156224598441438401int) % (prime_183() as int)) * element_183()) % (
        prime_183() as int)) by (nonlinear_arith);
    lemma_power_doubled_plus_one(element_183(), prime_183() as int, 7845056506423629844743490541335036336156224598441438401int, 5nat, 5866562055427552757325115569036039412398976396819625790int);
    assert(2032625157095272284174445929656998382079180918777240276int == (5866562055427552757325115569036039412398976396819625790int * 5866562055427552757325115569036039412398976396819625790int) % (prime_183() as int)) by (nonlinear_arith);
    lemma_power_doubled(element_183(), prime_183() as int, 5866562055427552757325115569036039412398976396819625790int, 11nat, 2032625157095272284174445929656998382079180918777240276int);
    assert(3480396578257325824475742458232035548450273777302938473int == (((2032625157095272284174445929656998382079180918777240276int * 2032625157095272284174445929656998382079180918777240276int) % (prime_183() as int)) * element_183()) % (
        prime_183() as int)) by (nonlinear_arith);
    lemma_power_doubled_plus_one(element_183(), prime_183() as int, 2032625157095272284174445929656998382079180918777240276int, 22nat, 3480396578257325824475742458232035548450273777302938473int);
    assert(6595005584011574845975941258952582850416664577619226391int == (((3480396578257325824475742458232035548450273777302938473int * 3480396578257325824475742458232035548450273777302938473int) % (prime_183() as int)) * element_183()) % (
        prime_183() as int)) by (nonlinear_arith);
    lemma_power_doubled_plus_one(element_183(), prime_183() as int, 3480396578257325824475742458232035548450273777302938473int, 45nat, 6595005584011574845975941258952582850416664577619226391int);
    assert(4562540425548910786773497291830162054277652103135435954int == (((6595005584011574845975941258952582850416664577619226391int * 6595005584011574845975941258952582850416664577619226391int) % (prime_183() as int)) * element_183()) % (
        prime_183() as int)) by (nonlinear_arith);
    lemma_power_doubled_plus_one(element_183(), prime_183() as int, 6595005584011574845975941258952582850416664577619226391int, 91nat, 4562540425548910786773497291830162054277652103135435954int);
    assert(6377375286588698930272737260460648556310901701447023993int == (((4562540425548910786773497291830162054277652103135435954int * 4562540425548910786773497291830162054277652103135435954int) % (prime_183() as int)) * element_183()) % (
        prime_183() as int)) by (nonlinear_arith);
    lemma_power_doubled_plus_one(element_183(), prime_183() as int, 4562540425548910786773497291830162054277652103135435954int, 183nat, 6377375286588698930272737260460648556310901701447023993int);
    assert(1710500508005219644393449592478600714925154252290175202int == (6377375286588698930272737260460648556310901701447023993int * 6377375286588698930272737260460648556310901701447023993int) % (prime_183() as int)) by (nonlinear_arith);
    lemma_power_doubled(element_183(), prime_183() as int, 6377375286588698930272737260460648556310901701447023993int, 367nat, 1710500508005219644393449592478600714925154252290175202int);
    assert(6867441548691508034207200618503674264064049198387763390int == (((1710500508005219644393449592478600714925154252290175202int * 1710500508005219644393449592478600714925154252290175202int) % (prime_183() as int)) * element_183()) % (
        prime_183() as int)) by (nonlinear_arith);
    lemma_power_doubled_plus_one(element_183(), prime_183() as int, 1710500508005219644393449592478600714925154252290175202int, 734nat, 6867441548691508034207200618503674264064049198387763390int);
    assert(4958206790551190730193000224093970164822093046282158332int == (6867441548691508034207200618503674264064049198387763390int * 6867441548691508034207200618503674264064049198387763390int) % (prime_183() as int)) by (nonlinear_arith);
    lemma_power_doubled(element_183(), prime_183() as int, 6867441548691508034207200618503674264064049198387763390int, 1469nat, 4958206790551190730193000224093970164822093046282158332int);
    assert(1331457518474733149382365573206565240161371859953370688int == (4958206790551190730193000224093970164822093046282158332int * 4958206790551190730193000224093970164822093046282158332int) % (prime_183() as int)) by (nonlinear_arith);
    lemma_power_doubled(element_183(), prime_183() as int, 4958206790551190730193000224093970164822093046282158332int, 2938nat, 1331457518474733149382365573206565240161371859953370688int);
    assert(6922835207236683625019716610265121836894267675202040397int == (1331457518474733149382365573206565240161371859953370688int * 1331457518474733149382365573206565240161371859953370688int) % (prime_183() as int)) by (nonlinear_arith);
    lemma_power_doubled(element_183(), prime_183() as int, 1331457518474733149382365573206565240161371859953370688int, 5876nat, 6922835207236683625019716610265121836894267675202040397int);
    assert(6227714482788432047959363492269282170355253556029787791int == (((6922835207236683625019716610265121836894267675202040397int * 6922835207236683625019716610265121836894267675202040397int) % (prime_183() as int)) * element_183()) % (
        prime_183() as int)) by (nonlinear_arith);
    lemma_power_doubled_plus_one(element_183(), prime_183() as int, 6922835207236683625019716610265121836894267675202040397int, 11752nat, 6227714482788432047959363492269282170355253556029787791int);
    assert(7843588270147405573773078638200206112919914096723532068int == (((6227714482788432047959363492269282170355253556029787791int * 6227714482788432047959363492269282170355253556029787791int) % (prime_183() as int)) * element_183()) % (
        prime_183() as int)) by (nonlinear_arith);
    lemma_power_doubled_plus_one(element_183(), prime_183() as int, 6227714482788432047959363492269282170355253556029787791int, 23505nat, 7843588270147405573773078638200206112919914096723532068int);
    assert(4515499285133078250545000390007813939940378928285427715int == (((7843588270147405573773078638200206112919914096723532068int * 7843588270147405573773078638200206112919914096723532068int) % (prime_183() as int)) * element_183()) % (
        prime_183() as int)) by (nonlinear_arith);
    lemma_power_doubled_plus_one(element_183(), prime_183() as int, 7843588270147405573773078638200206112919914096723532068int, 47011nat, 4515499285133078250545000390007813939940378928285427715int);
    assert(3756048981717549356158727968469807399494375315175035763int == (((4515499285133078250545000390007813939940378928285427715int * 4515499285133078250545000390007813939940378928285427715int) % (prime_183() as int)) * element_183()) % (
        prime_183() as int)) by (nonlinear_arith);
    lemma_power_doubled_plus_one(element_183(), prime_183() as int, 4515499285133078250545000390007813939940378928285427715int, 94023nat, 3756048981717549356158727968469807399494375315175035763int);
    assert(6595234435289389918285193577467691364280889326026989389int == (((3756048981717549356158727968469807399494375315175035763int * 3756048981717549356158727968469807399494375315175035763int) % (prime_183() as int)) * element_183()) % (
        prime_183() as int)) by (nonlinear_arith);
    lemma_power_doubled_plus_one(element_183(), prime_183() as int, 3756048981717549356158727968469807399494375315175035763int, 188047nat, 6595234435289389918285193577467691364280889326026989389int);
    assert(2950086206141286011452098093762797654049669011419004617int == (((6595234435289389918285193577467691364280889326026989389int * 6595234435289389918285193577467691364280889326026989389int) % (prime_183() as int)) * element_183()) % (
        prime_183() as int)) by (nonlinear_arith);
    lemma_power_doubled_plus_one(element_183(), prime_183() as int, 6595234435289389918285193577467691364280889326026989389int, 376095nat, 2950086206141286011452098093762797654049669011419004617int);
    assert(1813353388841444803815270691364021862666701247445792440int == (((2950086206141286011452098093762797654049669011419004617int * 2950086206141286011452098093762797654049669011419004617int) % (prime_183() as int)) * element_183()) % (
        prime_183() as int)) by (nonlinear_arith);
    lemma_power_doubled_plus_one(element_183(), prime_183() as int, 2950086206141286011452098093762797654049669011419004617int, 752191nat, 1813353388841444803815270691364021862666701247445792440int);
    assert(7813445508862000227790881254400934352238334282727957272int == (1813353388841444803815270691364021862666701247445792440int * 1813353388841444803815270691364021862666701247445792440int) % (prime_183() as int)) by (nonlinear_arith);
    lemma_power_doubled(element_183(), prime_183() as int, 1813353388841444803815270691364021862666701247445792440int, 1504383nat, 7813445508862000227790881254400934352238334282727957272int);
    assert(1153757698655967594855437554863764323839054768435012855int == (7813445508862000227790881254400934352238334282727957272int * 7813445508862000227790881254400934352238334282727957272int) % (prime_183() as int)) by (nonlinear_arith);
    lemma_power_doubled(element_183(), prime_183() as int, 7813445508862000227790881254400934352238334282727957272int, 3008766nat, 1153757698655967594855437554863764323839054768435012855int);
    assert(2220802542483975709366396513971626300893390737255702737int == (1153757698655967594855437554863764323839054768435012855int * 1153757698655967594855437554863764323839054768435012855int) % (prime_183() as int)) by (nonlinear_arith);
    lemma_power_doubled(element_183(), prime_183() as int, 1153757698655967594855437554863764323839054768435012855int, 6017532nat, 2220802542483975709366396513971626300893390737255702737int);
    assert(4152729022475527154236128815909907498481747971442090260int == (2220802542483975709366396513971626300893390737255702737int * 2220802542483975709366396513971626300893390737255702737int) % (prime_183() as int)) by (nonlinear_arith);
    lemma_power_doubled(element_183(), prime_183() as int, 2220802542483975709366396513971626300893390737255702737int, 12035064nat, 4152729022475527154236128815909907498481747971442090260int);
    assert(3956508019428376971637155992371220158200163922484128271int == (4152729022475527154236128815909907498481747971442090260int * 4152729022475527154236128815909907498481747971442090260int) % (prime_183() as int)) by (nonlinear_arith);
    lemma_power_doubled(element_183(), prime_183() as int, 4152729022475527154236128815909907498481747971442090260int, 24070128nat, 3956508019428376971637155992371220158200163922484128271int);
    assert(1754647819544288260033191764610071439539679888607675774int == (((3956508019428376971637155992371220158200163922484128271int * 3956508019428376971637155992371220158200163922484128271int) % (prime_183() as int)) * element_183()) % (
        prime_183() as int)) by (nonlinear_arith);
    lemma_power_doubled_plus_one(element_183(), prime_183() as int, 3956508019428376971637155992371220158200163922484128271int, 48140256nat, 1754647819544288260033191764610071439539679888607675774int);
    assert(3584707540993343072524337113005628480255951802212556869int == (1754647819544288260033191764610071439539679888607675774int * 1754647819544288260033191764610071439539679888607675774int) % (prime_183() as int)) by (nonlinear_arith);
    lemma_power_doubled(element_183(), prime_183() as int, 1754647819544288260033191764610071439539679888607675774int, 96280513nat, 3584707540993343072524337113005628480255951802212556869int);
    assert(5121062018708456747122870880185952454794429759215636153int == (3584707540993343072524337113005628480255951802212556869int * 3584707540993343072524337113005628480255951802212556869int) % (prime_183() as int)) by (nonlinear_arith);
    lemma_power_doubled(element_183(), prime_183() as int, 3584707540993343072524337113005628480255951802212556869int, 192561026nat, 5121062018708456747122870880185952454794429759215636153int);
    assert(1069636683280361419116368009686277074484006833805132914int == (((5121062018708456747122870880185952454794429759215636153int * 5121062018708456747122870880185952454794429759215636153int) % (prime_183() as int)) * element_183()) % (
        prime_183() as int)) by (nonlinear_arith);
    lemma_power_doubled_plus_one(element_183(), prime_183() as int, 5121062018708456747122870880185952454794429759215636153int, 385122052nat, 1069636683280361419116368009686277074484006833805132914int);
    assert(1260913753579131454554968182397551157535836109744186827int == (((1069636683280361419116368009686277074484006833805132914int * 1069636683280361419116368009686277074484006833805132914int) % (prime_183() as int)) * element_183()) % (
        prime_183() as int)) by (nonlinear_arith);
    lemma_power_doubled_plus_one(element_183(), prime_183() as int, 1069636683280361419116368009686277074484006833805132914int, 770244105nat, 1260913753579131454554968182397551157535836109744186827int);
    assert(2568997410350778016145574318891193491788882520065240860int == (1260913753579131454554968182397551157535836109744186827int * 1260913753579131454554968182397551157535836109744186827int) % (prime_183() as int)) by (nonlinear_arith);
    lemma_power_doubled(element_183(), prime_183() as int, 1260913753579131454554968182397551157535836109744186827int, 1540488211nat, 2568997410350778016145574318891193491788882520065240860int);
}

/// The power of `element_183` to the leading 64 bits of `prime_107`.
proof fn lemma_power_183_64()
    ensures
        pow_mod(element_183(), 13232692974439880180nat, prime_183() as int) == 4015752686000273295109570971906587903893590378083290029int,
{
    lemma_power_183_32();
    assert(3439280323564961489633173153600376585660051711355590854int == (((2568997410350778016145574318891193491788882520065240860int * 2568997410350778016145574318891193491788882520065240860int) % (prime_183() as int)) * element_183()) % (
        prime_183() as int)) by (nonlinear_arith);
    lemma_power_doubled_plus_one(element_183(), prime_183() as int, 2568997410350778016145574318891193491788882520065240860int, 3080976422nat, 3439280323564961489633173153600376585660051711355590854int);
    assert(4804217023994744766373533191868119663463519710434016608int == (3439280323564961489633173153600376585660051711355590854int * 3439280323564961489633173153600376585660051711355590854int) % (prime_183() as int)) by (nonlinear_arith);
    lemma_power_doubled(element_183(), prime_183() as int, 3439280323564961489633173153600376585660051711355590854int, 6161952845nat, 4804217023994744766373533191868119663463519710434016608int);
    assert(5800232608698356420275330360234737318007086357065180958int == (4804217023994744766373533191868119663463519710434016608int * 4804217023994744766373533191868119663463519710434016608int) % (prime_183() as int)) by (nonlinear_arith);
    lemma_power_doubled(element_183(), prime_183() as int, 4804217023994744766373533191868119663463519710434016608int, 12323905690nat, 5800232608698356420275330360234737318007086357065180958int);
    assert(3043540117498453071453160805100916277262406305994409822int == (5800232608698356420275330360234737318007086357065180958int * 5800232608698356420275330360234737318007086357065180958int) % (prime_183() as int)) by (nonlinear_arith);
    lemma_power_doubled(element_183(), prime_183() as int, 5800232608698356420275330360234737318007086357065180958int, 24647811380nat, 3043540117498453071453160805100916277262406305994409822int);
    assert(8254512834695714535280387165583359262932029469914277634int == (3043540117498453071453160805100916277262406305994409822int * 3043540117498453071453160805100916277262406305994409822int) % (prime_183() as int)) by (nonlinear_arith);
    lemma_power_doubled(element_183(), prime_183() as int, 3043540117498453071453160805100916277262406305994409822int, 49295622760nat, 8254512834695714535280387165583359262932029469914277634int);
    assert(4058901323222833676882541812223961906592312959874736657int == (8254512834695714535280387165583359262932029469914277634int * 8254512834695714535280387165583359262932029469914277634int) % (prime_183() as int)) by (nonlinear_arith);
    lemma_power_doubled(element_183(), prime_183() as int, 8254512834695714535280387165583359262932029469914277634int, 98591245520nat, 4058901323222833676882541812223961906592312959874736657int);
    assert(7388047701756378121911301060074157155481752989462975256int == (((4058901323222833676882541812223961906592312959874736657int * 4058901323222833676882541812223961906592312959874736657int) % (prime_183() as int)) * element_183()) % (
        prime_183() as int)) by (nonlinear_arith);
    lemma_power_doubled_plus_one(element_183(), prime_183() as int, 4058901323222833676882541812223961906592312959874736657int, 197182491040nat, 7388047701756378121911301060074157155481752989462975256int);
    assert(6030843802431676352171019368049981202162648941707958590int == (((7388047701756378121911301060074157155481752989462975256int * 7388047701756378121911301060074157155481752989462975256int) % (prime_183() as int)) * element_183()) % (
        prime_183() as int)) by (nonlinear_arith);
    lemma_power_doubled_plus_one(element_183(), prime_183() as int, 7388047701756378121911301060074157155481752989462975256int, 394364982081nat, 6030843802431676352171019368049981202162648941707958590int);
    assert(5249365745696590771598627546118367148950059965949337583int == (6030843802431676352171019368049981202162648941707958590int * 6030843802431676352171019368049981202162648941707958590int) % (prime_183() as int)) by (nonlinear_arith);
    lemma_power_doubled(element_183(), prime_183() as int, 6030843802431676352171019368049981202162648941707958590int, 788729964163nat, 5249365745696590771598627546118367148950059965949337583int);
    assert(4148147527088779045793628865120132834051336322483041860int == (((5249365745696590771598627546118367148950059965949337583int * 5249365745696590771598627546118367148950059965949337583int) % (prime_183() as int)) * element_183()) % (
        prime_183() as int)) by (nonlinear_arith);
    lemma_power_doubled_plus_one(element_183(), prime_183() as int, 5249365745696590771598627546118367148950059965949337583int, 1577459928326nat, 4148147527088779045793628865120132834051336322483041860int);
    assert(798788381700783743584240321909272139766295034945018455int == (4148147527088779045793628865120132834051336322483041860int * 4148147527088779045793628865120132834051336322483041860int) % (prime_183() as int)) by (nonlinear_arith);
    lemma_power_doubled(element_183(), prime_183() as int, 4148147527088779045793628865120132834051336322483041860int, 3154919856653nat, 798788381700783743584240321909272139766295034945018455int);
    assert(635810990464433197256763847090524097770416593715997315int == (798788381700783743584240321909272139766295034945018455int * 798788381700783743584240321909272139766295034945018455int) % (prime_183() as int)) by (nonlinear_arith);
    lemma_power_doubled(element_183(), prime_183() as int, 798788381700783743584240321909272139766295034945018455int, 6309839713306nat, 635810990464433197256763847090524097770416593715997315int);
    assert(5102102603094831065737508434977813667659774751197151207int == (((635810990464433197256763847090524097770416593715997315int * 635810990464433197256763847090524097770416593715997315int) % (prime_183() as int)) * element_183()) % (
        prime_183() as int)) by (nonlinear_arith);
    lemma_power_doubled_plus_one(element_183(), prime_183() as int, 635810990464433197256763847090524097770416593715997315int, 12619679426612nat, 5102102603094831065737508434977813667659774751197151207int);
    assert(5705802695877966397005059164083221249412538451346194836int == (5102102603094831065737508434977813667659774751197151207int * 5102102603094831065737508434977813667659774751197151207int) % (prime_183() as int)) by (nonlinear_arith);
    lemma_power_doubled(element_183(), prime_183() as int, 5102102603094831065737508434977813667659774751197151207int, 25239358853225nat, 5705802695877966397005059164083221249412538451346194836int);
    assert(6578631586130130045991591564777706280430759012196815837int == (((5705802695877966397005059164083221249412538451346194836int * 5705802695877966397005059164083221249412538451346194836int) % (prime_183() as int)) * element_183()) % (
        prime_183() as int)) by (nonlinear_arith);
    lemma_power_doubled_plus_one(element_183(), prime_183() as int, 5705802695877966397005059164083221249412538451346194836int, 50478717706450nat, 6578631586130130045991591564777706280430759012196815837int);
    assert(6327423468380624862337587273120204252158178200037336937int == (((6578631586130130045991591564777706280430759012196815837int * 6578631586130130045991591564777706280430759012196815837int) % (prime_183() as int)) * element_183()) % (
        prime_183() as int)) by (nonlinear_arith);
    lemma_power_doubled_plus_one(element_183(), prime_183() as int, 6578631586130130045991591564777706280430759012196815837int, 100957435412901nat, 6327423468380624862337587273120204252158178200037336937int);
    assert(5468045077985562586476462366870307702248304858016577037int == (((6327423468380624862337587273120204252158178200037336937int * 6327423468380624862337587273120204252158178200037336937int) % (prime_183() as int)) * element_183()) % (
        prime_183() as int)) by (nonlinear_arith);
    lemma_power_doubled_plus_one(element_183(), prime_183() as int, 6327423468380624862337587273120204252158178200037336937int, 201914870825803nat, 5468045077985562586476462366870307702248304858016577037int);
    assert(5590564222838753058011206111820947076079967536557379814int == (((5468045077985562586476462366870307702248304858016577037int * 5468045077985562586476462366870307702248304858016577037int) % (prime_183() as int)) * element_183()) % (
        prime_183() as int)) by (nonlinear_arith);
    lemma_power_doubled_plus_one(element_183(), prime_183() as int, 5468045077985562586476462366870307702248304858016577037int, 403829741651607nat, 5590564222838753058011206111820947076079967536557379814int);
    assert(1606975218384700954607744995394837109769755156427410739int == (5590564222838753058011206111820947076079967536557379814int * 5590564222838753058011206111820947076079967536557379814int) % (prime_183() as int)) by (nonlinear_arith);
    lemma_power_doubled(element_183(), prime_183() as int, 5590564222838753058011206111820947076079967536557379814int, 807659483303215nat, 1606975218384700954607744995394837109769755156427410739int);
    assert(3077477399275178646256448527779317573703124611903561567int == (((1606975218384700954607744995394837109769755156427410739int * 1606975218384700954607744995394837109769755156427410739int) % (prime_183() as int)) * element_183()) % (
        prime_183() as int)) by (nonlinear_arith);
    lemma_power_doubled_plus_one(element_183(), prime_183() as int, 1606975218384700954607744995394837109769755156427410739int, 1615318966606430nat, 3077477399275178646256448527779317573703124611903561567int);
    assert(7770922462114052319237468540456061560809651610617332640int == (3077477399275178646256448527779317573703124611903561567int * 3077477399275178646256448527779317573703124611903561567int) % (prime_183() as int)) by (nonlinear_arith);
    lemma_power_doubled(element_183(), prime_183() as int, 3077477399275178646256448527779317573703124611903561567int, 3230637933212861nat, 7770922462114052319237468540456061560809651610617332640int);
    assert(1758799837539734652399727999255528498078879578422995160int == (((7770922462114052319237468540456061560809651610617332640int * 7770922462114052319237468540456061560809651610617332640int) % (prime_183() as int)) * element_183()) % (
        prime_183() as int)) by (nonlinear_arith);
    lemma_power_doubled_plus_one(element_183(), prime_183() as int, 7770922462114052319237468540456061560809651610617332640int, 6461275866425722nat, 1758799837539734652399727999255528498078879578422995160int);
    assert(6063893312981441566003389926612482688789255483273918849int == (1758799837539734652399727999255528498078879578422995160int * 1758799837539734652399727999255528498078879578422995160int) % (prime_183() as int)) by (nonlinear_arith);
    lemma_power_doubled(element_183(), prime_183() as int, 1758799837539734652399727999255528498078879578422995160int, 12922551732851445nat, 6063893312981441566003389926612482688789255483273918849int);
    assert(1797820543389856597424093955965962333356734766745645989int == (((6063893312981441566003389926612482688789255483273918849int * 6063893312981441566003389926612482688789255483273918849int) % (prime_183() as int)) * element_183()) % (
        prime_183() as int)) by (nonlinear_arith);
    lemma_power_doubled_plus_one(element_183(), prime_183() as int, 6063893312981441566003389926612482688789255483273918849int, 25845103465702890nat, 1797820543389856597424093955965962333356734766745645989int);
    assert(524131241727678882286773559302913091786661324531313919int == (((1797820543389856597424093955965962333356734766745645989int * 1797820543389856597424093955965962333356734766745645989int) % (prime_183() as int)) * element_183()) % (
        prime_183() as int)) by (nonlinear_arith);
    lemma_power_doubled_plus_one(element_183(), prime_183() as int, 1797820543389856597424093955965962333356734766745645989int, 51690206931405781nat, 524131241727678882286773559302913091786661324531313919int);
    assert(4367494906915604354440729472070959619573316279587477111int == (((524131241727678882286773559302913091786661324531313919int * 524131241727678882286773559302913091786661324531313919int) % (prime_183() as int)) * element_183()) % (
        prime_183() as int)) by (nonlinear_arith);
    lemma_power_doubled_plus_one(element_183(), prime_183() as int, 524131241727678882286773559302913091786661324531313919int, 103380413862811563nat, 4367494906915604354440729472070959619573316279587477111int);
    assert(4905349153348077240064974197263443991336695813509830774int == (((4367494906915604354440729472070959619573316279587477111int * 4367494906915604354440729472070959619573316279587477111int) % (prime_183() as int)) * element_183()) % (
        prime_183() as int)) by (nonlinear_arith);
    lemma_power_doubled_plus_one(element_183(), prime_183() as int, 4367494906915604354440729472070959619573316279587477111int, 206760827725623127nat, 4905349153348077240064974197263443991336695813509830774int);
    assert(828097098665979321189427889471263076287421396409383682int == (((4905349153348077240064974197263443991336695813509830774int * 4905349153348077240064974197263443991336695813509830774int) % (prime_183() as int)) * element_183()) % (
        prime_183() as int)) by (nonlinear_arith);
    lemma_power_doubled_plus_one(element_183(), prime_183() as int, 4905349153348077240064974197263443991336695813509830774int, 413521655451246255nat, 828097098665979321189427889471263076287421396409383682int);
    assert(3085614084506721521006214469753812253161392972378061253int == (828097098665979321189427889471263076287421396409383682int * 828097098665979321189427889471263076287421396409383682int) % (prime_183() as int)) by (nonlinear_arith);
    lemma_power_doubled(element_183(), prime_183() as int, 828097098665979321189427889471263076287421396409383682int, 827043310902492511nat, 3085614084506721521006214469753812253161392972378061253int);
    assert(5245945105521112052512229057746509112125960918797322020int == (((3085614084506721521006214469753812253161392972378061253int * 3085614084506721521006214469753812253161392972378061253int) % (prime_183() as int)) * element_183()) % (
        prime_183() as int)) by (nonlinear_arith);
    lemma_power_doubled_plus_one(element_183(), prime_183() as int, 3085614084506721521006214469753812253161392972378061253int, 1654086621804985022nat, 5245945105521112052512229057746509112125960918797322020int);
    assert(1883091696796826875018987568186960700781598770721797366int == (5245945105521112052512229057746509112125960918797322020int * 5245945105521112052512229057746509112125960918797322020int) % (prime_183() as int)) by (nonlinear_arith);
    lemma_power_doubled(element_183(), prime_183() as int, 5245945105521112052512229057746509112125960918797322020int, 3308173243609970045nat, 1883091696796826875018987568186960700781598770721797366int);
    assert(4015752686000273295109570971906587903893590378083290029int == (1883091696796826875018987568186960700781598770721797366int * 1883091696796826875018987568186960700781598770721797366int) % (prime_183() as int)) by (nonlinear_arith);
    lemma_power_doubled(element_183(), prime_183() as int, 1883091696796826875018987568186960700781598770721797366int, 6616346487219940090nat, 4015752686000273295109570971906587903893590378083290029int);
}

/// The power of `element_183` to the leading 96 bits of `prime_107`.
proof fn lemma_power_183_96()
    ensures
        pow_mod(element_183(), 56833983563228249295307258076nat, prime_183() as int) == 6064144935031046913062946551648214049865259275125529396int,
{
    lemma_power_183_64();
    assert(4574148119598007733866633799755298600187683643854426819int == (((4015752686000273295109570971906587903893590378083290029int * 4015752686000273295109570971906587903893590378083290029int) % (prime_183() as int)) * element_183()) % (
        prime_183() as int)) by (nonlinear_arith);
    lemma_power_doubled_plus_one(element_183(), prime_183() as int, 4015752686000273295109570971906587903893590378083290029int, 13232692974439880180nat, 4574148119598007733866633799755298600187683643854426819int);
    assert(7687701775257408274467484082424406027880011213597093757int == (((4574148119598007733866633799755298600187683643854426819int * 4574148119598007733866633799755298600187683643854426819int) % (prime_183() as int)) * element_183()) % (
        prime_183() as int)) by (nonlinear_arith);
    lemma_power_doubled_plus_one(element_183(), prime_183() as int, 4574148119598007733866633799755298600187683643854426819int, 26465385948879760361nat, 7687701775257408274467484082424406027880011213597093757int);
    assert(4087039624540222403926619235330436253337281573662722865int == (((7687701775257408274467484082424406027880011213597093757int * 7687701775257408274467484082424406027880011213597093757int) % (prime_183() as int)) * element_183()) % (
        prime_183() as int)) by (nonlinear_arith);
    lemma_power_doubled_plus_one(element_183(), prime_183() as int, 7687701775257408274467484082424406027880011213597093757int, 52930771897759520723nat, 4087039624540222403926619235330436253337281573662722865int);
    assert(6082645039925182727071951344503725340149764512163513182int == (((4087039624540222403926619235330436253337281573662722865int * 4087039624540222403926619235330436253337281573662722865int) % (prime_183() as int)) * element_183()) % (
        prime_183() as int)) by (nonlinear_arith);
    lemma_power_doubled_plus_one(element_183(), prime_183() as int, 4087039624540222403926619235330436253337281573662722865int, 105861543795519041447nat, 6082645039925182727071951344503725340149764512163513182int);
    assert(7676098203963876759254687410627626078366960698216605178int == (6082645039925182727071951344503725340149764512163513182int * 6082645039925182727071951344503725340149764512163513182int) % (prime_183() as int)) by (nonlinear_arith);
    lemma_power_doubled(element_183(), prime_183() as int, 6082645039925182727071951344503725340149764512163513182int, 211723087591038082895nat, 7676098203963876759254687410627626078366960698216605178int);
    assert(6435161029999535052339047212120909382397905057311561987int == (7676098203963876759254687410627626078366960698216605178int * 7676098203963876759254687410627626078366960698216605178int) % (prime_183() as int)) by (nonlinear_arith);
    lemma_power_doubled(element_183(), prime_183() as int, 7676098203963876759254687410627626078366960698216605178int, 423446175182076165790nat, 6435161029999535052339047212120909382397905057311561987int);
    assert(7858726915233699127027783395482199258403936626182061723int == (6435161029999535052339047212120909382397905057311561987int * 6435161029999535052339047212120909382397905057311561987int) % (prime_183() as int)) by (nonlinear_arith);
    lemma_power_doubled(element_183(), prime_183() as int, 6435161029999535052339047212120909382397905057311561987int, 846892350364152331580nat, 7858726915233699127027783395482199258403936626182061723int);
    assert(7610052044779109500958441891921091423539085730252609911int == (((7858726915233699127027783395482199258403936626182061723int * 7858726915233699127027783395482199258403936626182061723int) % (prime_183() as int)) * element_183()) % (
        prime_183() as int)) by (nonlinear_arith);
    lemma_power_doubled_plus_one(element_183(), prime_183() as int, 7858726915233699127027783395482199258403936626182061723int, 1693784700728304663160nat, 7610052044779109500958441891921091423539085730252609911int);
    assert(8227621241645155575619837062443535936479296591678786183int == (7610052044779109500958441891921091423539085730252609911int * 7610052044779109500958441891921091423539085730252609911int) % (prime_183() as int)) by (nonlinear_arith);
    lemma_power_doubled(element_183(), prime_183() as int, 7610052044779109500958441891921091423539085730252609911int, 3387569401456609326321nat, 8227621241645155575619837062443535936479296591678786183int);
    assert(3394720571400836646061808507979253982947810347473466250int == (((8227621241645155575619837062443535936479296591678786183int * 8227621241645155575619837062443535936479296591678786183int) % (prime_183() as int)) * element_183()) % (
        prime_183() as int)) by (nonlinear_arith);
    lemma_power_doubled_plus_one(element_183(), prime_183() as int, 8227621241645155575619837062443535936479296591678786183int, 6775138802913218652642nat, 3394720571400836646061808507979253982947810347473466250int);
    assert(7357446022092910748300423118705903320731990200477663560int == (3394720571400836646061808507979253982947810347473466250int * 3394720571400836646061808507979253982947810347473466250int) % (prime_183() as int)) by (nonlinear_arith);
    lemma_power_doubled(element_183(), prime_183() as int, 3394720571400836646061808507979253982947810347473466250int, 13550277605826437305285nat, 7357446022092910748300423118705903320731990200477663560int);
    assert(4769296915369011846072926440374220494446808685987270235int == (((7357446022092910748300423118705903320731990200477663560int * 7357446022092910748300423118705903320731990200477663560int) % (prime_183() as int)) * element_183()) % (
        prime_183() as int)) by (nonlinear_arith);
    lemma_power_doubled_plus_one(element_183(), prime_183() as int, 7357446022092910748300423118705903320731990200477663560int, 27100555211652874610570nat, 4769296915369011846072926440374220494446808685987270235int);
    assert(463100512669999290177328170643785370941071685244199841int == (4769296915369011846072926440374220494446808685987270235int * 4769296915369011846072926440374220494446808685987270235int) % (prime_183() as int)) by (nonlinear_arith);
    lemma_power_doubled(element_183(), prime_183() as int, 4769296915369011846072926440374220494446808685987270235int, 54201110423305749221141nat, 463100512669999290177328170643785370941071685244199841int);
    assert(630961687540587115704231646556648126377367774336733106int == (463100512669999290177328170643785370941071685244199841int * 463100512669999290177328170643785370941071685244199841int) % (prime_183() as int)) by (nonlinear_arith);
    lemma_power_doubled(element_183(), prime_183() as int, 463100512669999290177328170643785370941071685244199841int, 108402220846611498442282nat, 630961687540587115704231646556648126377367774336733106int);
    assert(2801760176549178204882299768090256031581219874863344817int == (630961687540587115704231646556648126377367774336733106int * 630961687540587115704231646556648126377367774336733106int) % (prime_183() as int)) by (nonlinear_arith);
    lemma_power_doubled(element_183(), prime_183() as int, 630961687540587115704231646556648126377367774336733106int, 216804441693222996884564nat, 2801760176549178204882299768090256031581219874863344817int);
    assert(7809671384920470626333365491488768558525731258776851329int == (((2801760176549178204882299768090256031581219874863344817int * 2801760176549178204882299768090256031581219874863344817int) % (prime_183() as int)) * element_183()) % (
        prime_183() as int)) by (nonlinear_arith);
    lemma_power_doubled_plus_one(element_183(), prime_183() as int, 2801760176549178204882299768090256031581219874863344817int, 433608883386445993769128nat, 7809671384920470626333365491488768558525731258776851329int);
    assert(5886141469705943201157724306320964065265753059651764821int == (((7809671384920470626333365491488768558525731258776851329int * 7809671384920470626333365491488768558525731258776851329int) % (prime_183() as int)) * element_183()) % (
        prime_183() as int)) by (nonlinear_arith);
    lemma_power_doubled_plus_one(element_183(), prime_183() as int, 7809671384920470626333365491488768558525731258776851329int, 867217766772891987538257nat, 5886141469705943201157724306320964065265753059651764821int);
    assert(2312367070457396892514729228844398778458166455279707273int == (5886141469705943201157724306320964065265753059651764821int * 5886141469705943201157724306320964065265753059651764821int) % (prime_183() as int)) by (nonlinear_arith);
    lemma_power_doubled(element_183(), prime_183() as int, 5886141469705943201157724306320964065265753059651764821int, 1734435533545783975076515nat, 2312367070457396892514729228844398778458166455279707273int);
    assert(6934926875419390912817248228222818419747973039709918842int == (((2312367070457396892514729228844398778458166455279707273int * 2312367070457396892514729228844398778458166455279707273int) % (prime_183() as int)) * element_183()) % (
        prime_183() as int)) by (nonlinear_arith);
    lemma_power_doubled_plus_one(element_183(), prime_183() as int, 2312367070457396892514729228844398778458166455279707273int, 3468871067091567950153030nat, 6934926875419390912817248228222818419747973039709918842int);
    assert(5081013074157538188150699563069535336726008957202815289int == (((6934926875419390912817248228222818419747973039709918842int * 6934926875419390912817248228222818419747973039709918842int) % (prime_183() as int)) * element_183()) % (
        prime_183() as int)) by (nonlinear_arith);
    lemma_power_doubled_plus_one(element_183(), prime_183() as int, 6934926875419390912817248228222818419747973039709918842int, 6937742134183135900306061nat, 5081013074157538188150699563069535336726008957202815289int);
    assert(6254837889067614852675564989234656009547630830493391120int == (((5081013074157538188150699563069535336726008957202815289int * 5081013074157538188150699563069535336726008957202815289int) % (prime_183() as int)) * element_183()) % (
        prime_183() as int)) by (nonlinear_arith);
    lemma_power_doubled_plus_one(element_183(), prime_183() as int, 5081013074157538188150699563069535336726008957202815289int, 13875484268366271800612123nat, 6254837889067614852675564989234656009547630830493391120int);
    assert(3296490488420558609367948378319195185744981361785254105int == (6254837889067614852675564989234656009547630830493391120int * 6254837889067614852675564989234656009547630830493391120int) % (prime_183() as int)) by (nonlinear_arith);
    lemma_power_doubled(element_183(), prime_183() as int, 6254837889067614852675564989234656009547630830493391120int, 27750968536732543601224247nat, 3296490488420558609367948378319195185744981361785254105int);
    assert(2075315734501836290314123964332991920192851187671131467int == (3296490488420558609367948378319195185744981361785254105int * 3296490488420558609367948378319195185744981361785254105int) % (prime_183() as int)) by (nonlinear_arith);
    lemma_power_doubled(element_183(), prime_183() as int, 3296490488420558609367948378319195185744981361785254105int, 55501937073465087202448494nat, 2075315734501836290314123964332991920192851187671131467int);
    assert(3387379851135154912109171494367145727109348117674955345int == (2075315734501836290314123964332991920192851187671131467int * 2075315734501836290314123964332991920192851187671131467int) % (prime_183() as int)) by (nonlinear_arith);
    lemma_power_doubled(element_183(), prime_183() as int, 2075315734501836290314123964332991920192851187671131467int, 111003874146930174404896988nat, 3387379851135154912109171494367145727109348117674955345int);
    assert(3658398183497544422278802087209375589758911977937964692int == (((3387379851135154912109171494367145727109348117674955345int * 3387379851135154912109171494367145727109348117674955345int) % (prime_183() as int)) * element_183()) % (
        prime_183() as int)) by (nonlinear_arith);
    lemma_power_doubled_plus_one(element_183(), prime_183() as int, 3387379851135154912109171494367145727109348117674955345int, 222007748293860348809793976nat, 3658398183497544422278802087209375589758911977937964692int);
    assert(6519543533165949336757378911736640737154437677563181253int == (((3658398183497544422278802087209375589758911977937964692int * 3658398183497544422278802087209375589758911977937964692int) % (prime_183() as int)) * element_183()) % (
        prime_183() as int)) by (nonlinear_arith);
    lemma_power_doubled_plus_one(element_183(), prime_183() as int, 3658398183497544422278802087209375589758911977937964692int, 444015496587720697619587953nat, 6519543533165949336757378911736640737154437677563181253int);
    assert(4152360221661633148784672103603711037257981919661301048int == (6519543533165949336757378911736640737154437677563181253int * 6519543533165949336757378911736640737154437677563181253int) % (prime_183() as int)) by (nonlinear_arith);
    lemma_power_doubled(element_183(), prime_183() as int, 6519543533165949336757378911736640737154437677563181253int, 888030993175441395239175907nat, 4152360221661633148784672103603711037257981919661301048int);
    assert(3201059333972157718933322019937762111994881334965835907int == (((4152360221661633148784672103603711037257981919661301048int * 4152360221661633148784672103603711037257981919661301048int) % (prime_183() as int)) * element_183()) % (
        prime_183() as int)) by (nonlinear_arith);
    lemma_power_doubled_plus_one(element_183(), prime_183() as int, 4152360221661633148784672103603711037257981919661301048int, 1776061986350882790478351814nat, 3201059333972157718933322019937762111994881334965835907int);
    assert(1091573704331968063877020628596091045131895948284978300int == (((3201059333972157718933322019937762111994881334965835907int * 3201059333972157718933322019937762111994881334965835907int) % (prime_183() as int)) * element_183()) % (
        prime_183() as int)) by (nonlinear_arith);
    lemma_power_doubled_plus_one(element_183(), prime_183() as int, 3201059333972157718933322019937762111994881334965835907int, 3552123972701765580956703629nat, 1091573704331968063877020628596091045131895948284978300int);
    assert(680934260988237282292092404377040440150394393357341925int == (((1091573704331968063877020628596091045131895948284978300int * 1091573704331968063877020628596091045131895948284978300int) % (prime_183() as int)) * element_183()) % (
        prime_183() as int)) by (nonlinear_arith);
    lemma_power_doubled_plus_one(element_183(), prime_183() as int, 1091573704331968063877020628596091045131895948284978300int, 7104247945403531161913407259nat, 680934260988237282292092404377040440150394393357341925int);
    assert(7644129818258577653399584818242574573393633397456804961int == (680934260988237282292092404377040440150394393357341925int * 680934260988237282292092404377040440150394393357341925int) % (prime_183() as int)) by (nonlinear_arith);
    lemma_power_doubled(element_183(), prime_183() as int, 680934260988237282292092404377040440150394393357341925int, 14208495890807062323826814519nat, 7644129818258577653399584818242574573393633397456804961int);
    assert(6064144935031046913062946551648214049865259275125529396int == (7644129818258577653399584818242574573393633397456804961int * 7644129818258577653399584818242574573393633397456804961int) % (prime_183() as int)) by (nonlinear_arith);
    lemma_power_doubled(element_183(), prime_183() as int, 7644129818258577653399584818242574573393633397456804961int, 28416991781614124647653629038nat, 6064144935031046913062946551648214049865259275125529396int);
}

/// The power of `element_183` to `prime_107`.
proof fn lemma_power_183()
    ensures
        pow_mod(element_183(), 116395998337491454556789264541067nat, prime_183() as int) == 1int,
{
    lemma_power_183_96();
    assert(6872392493699767771571789789831167389148772442526079186int == (((6064144935031046913062946551648214049865259275125529396int * 6064144935031046913062946551648214049865259275125529396int) % (prime_183() as int)) * element_183()) % (
        prime_183() as int)) by (nonlinear_arith);
    lemma_power_doubled_plus_one(element_183(), prime_183() as int, 6064144935031046913062946551648214049865259275125529396int, 56833983563228249295307258076nat, 6872392493699767771571789789831167389148772442526079186int);
    assert(1850251318926551356067650655697443805862193474376300367int == (6872392493699767771571789789831167389148772442526079186int * 6872392493699767771571789789831167389148772442526079186int) % (prime_183() as int)) by (nonlinear_arith);
    lemma_power_doubled(element_183(), prime_183() as int, 6872392493699767771571789789831167389148772442526079186int, 113667967126456498590614516153nat, 1850251318926551356067650655697443805862193474376300367int);
    assert(6164059330341856771703961341632612679783475130533448471int == (((1850251318926551356067650655697443805862193474376300367int * 1850251318926551356067650655697443805862193474376300367int) % (prime_183() as int)) * element_183()) % (
        prime_183() as int)) by (nonlinear_arith);
    lemma_power_doubled_plus_one(element_183(), prime_183() as int, 1850251318926551356067650655697443805862193474376300367int, 227335934252912997181229032306nat, 6164059330341856771703961341632612679783475130533448471int);
    assert(7032800356150359921608695157412265780250537735159140767int == (((6164059330341856771703961341632612679783475130533448471int * 6164059330341856771703961341632612679783475130533448471int) % (prime_183() as int)) * element_183()) % (
        prime_183() as int)) by (nonlinear_arith);
    lemma_power_doubled_plus_one(element_183(), prime_183() as int, 6164059330341856771703961341632612679783475130533448471int, 454671868505825994362458064613nat, 7032800356150359921608695157412265780250537735159140767int);
    assert(4693225124110902417559850993853478821010563546280999916int == (7032800356150359921608695157412265780250537735159140767int * 7032800356150359921608695157412265780250537735159140767int) % (prime_183() as int)) by (nonlinear_arith);
    lemma_power_doubled(element_183(), prime_183() as int, 7032800356150359921608695157412265780250537735159140767int, 909343737011651988724916129227nat, 4693225124110902417559850993853478821010563546280999916int);
    assert(2010221064646580411170097904818544331581692946325650272int == (4693225124110902417559850993853478821010563546280999916int * 4693225124110902417559850993853478821010563546280999916int) % (prime_183() as int)) by (nonlinear_arith);
    lemma_power_doubled(element_183(), prime_183() as int, 4693225124110902417559850993853478821010563546280999916int, 1818687474023303977449832258454nat, 2010221064646580411170097904818544331581692946325650272int);
    assert(372374122366059966447471309556773136011379984828097615int == (2010221064646580411170097904818544331581692946325650272int * 2010221064646580411170097904818544331581692946325650272int) % (prime_183() as int)) by (nonlinear_arith);
    lemma_power_doubled(element_183(), prime_183() as int, 2010221064646580411170097904818544331581692946325650272int, 3637374948046607954899664516908nat, 372374122366059966447471309556773136011379984828097615int);
    assert(3739754640812956377006455437083820004440742650004685225int == (((372374122366059966447471309556773136011379984828097615int * 372374122366059966447471309556773136011379984828097615int) % (prime_183() as int)) * element_183()) % (
        prime_183() as int)) by (nonlinear_arith);
    lemma_power_doubled_plus_one(element_183(), prime_183() as int, 372374122366059966447471309556773136011379984828097615int, 7274749896093215909799329033816nat, 3739754640812956377006455437083820004440742650004685225int);
    assert(3339089551505039115909919705052950531151936175432905633int == (3739754640812956377006455437083820004440742650004685225int * 3739754640812956377006455437083820004440742650004685225int) % (prime_183() as int)) by (nonlinear_arith);
    lemma_power_doubled(element_183(), prime_183() as int, 3739754640812956377006455437083820004440742650004685225int, 14549499792186431819598658067633nat, 3339089551505039115909919705052950531151936175432905633int);
    assert(1678386095277560827592770325987044071949353125924570431int == (((3339089551505039115909919705052950531151936175432905633int * 3339089551505039115909919705052950531151936175432905633int) % (prime_183() as int)) * element_183()) % (
        prime_183() as int)) by (nonlinear_arith);
    lemma_power_doubled_plus_one(element_183(), prime_183() as int, 3339089551505039115909919705052950531151936175432905633int, 29098999584372863639197316135266nat, 1678386095277560827592770325987044071949353125924570431int);
    assert(1int == (((1678386095277560827592770325987044071949353125924570431int * 1678386095277560827592770325987044071949353125924570431int) % (prime_183() as int)) * element_183()) % (
        prime_183() as int)) by (nonlinear_arith);
    lemma_power_doubled_plus_one(element_183(), prime_183() as int, 1678386095277560827592770325987044071949353125924570431int, 58197999168745727278394632270533nat, 1int);
}

/// `prime_183` is prime.
pub proof fn lemma_prime_183()
    ensures
        is_prime(prime_183()),
{
    lemma_prime_107();
    lemma_power_183();
    assert(prime_107() * prime_107() > prime_183()) by (nonlinear_arith);
    assert(-3663146288119819288538777996090816395249077281933524641int * (element_183() - 1) + 218065972191562554496888184434725346750159089583406953int * prime_183() == 1) by (nonlinear_arith);
    lemma_prime_by_order(
        prime_183(),
        prime_107(),
        element_183(),
        -3663146288119819288538777996090816395249077281933524641int,
        218065972191562554496888184434725346750159089583406953int,
    );
}

/// An element of order `prime_183` modulo `prime_224`.
spec fn element_224() -> int {
    10018315467571075576120361375644243938752393618705134712879203333456int
}

/// The power of `element_224` to the leading 32 bits of `prime_183`.
proof fn lemma_power_224_32()
    ensures
        pow_mod(element_224(), 2905481879nat, prime_224() as int) == 8535152120495310851102613358853227826857308725512250738745246670276int,
{
    lemma_power_zero(element_224(), prime_224() as int);
    assert(10018315467571075576120361375644243938752393618705134712879203333456int == (((1int * 1int) % (prime_224() as int)) * element_224()) % (
        prime_224() as int)) by (nonlinear_arith);
    lemma_power_doubled_plus_one(element_224(), prime_224() as int, 1int, 0nat, 10018315467571075576120361375644243938752393618705134712879203333456int);
    assert(8167672216339591852755845593069761525666526566469317244892863428820int == (10018315467571075576120361375644243938752393618705134712879203333456int * 10018315467571075576120361375644243938752393618705134712879203333456int) % (prime_224() as int)) by (nonlinear_arith);
    lemma_power_doubled(element_224(), prime_224() as int, 10018315467571075576120361375644243938752393618705134712879203333456int, 1nat, 8167672216339591852755845593069761525666526566469317244892863428820int);
    assert(6228122928986951527140654009470522618513761239605358358793174306156int == (((8167672216339591852755845593069761525666526566469317244892863428820int * 8167672216339591852755845593069761525666526566469317244892863428820int) % (prime_224() as int)) * element_224()) % (
        prime_224() as int)) by (nonlinear_arith);
    lemma_power_doubled_plus_one(element_224(), prime_224() as int, 8167672216339591852755845593069761525666526566469317244892863428820int, 2nat, 6228122928986951527140654009470522618513761239605358358793174306156int);
    assert(10629287717689179105847876682709846327167983521755457477254418631504int == (6228122928986951527140654009470522618513761239605358358793174306156int * 6228122928986951527140654009470522618513761239605358358793174306156int) % (prime_224() as int)) by (nonlinear_arith);
    lemma_power_doubled(element_224(), prime_224() as int, 6228122928986951527140654009470522618513761239605358358793174306156int, 5nat, 10629287717689179105847876682709846327167983521755457477254418631504int);
    assert(12282250638087330142565166163460321402792576875785127398121830274169int == (((10629287717689179105847876682709846327167983521755457477254418631504int * 10629287717689179105847876682709846327167983521755457477254418631504int) % (prime_224() as int)) * element_224()) % (
        prime_224() as int)) by (nonlinear_arith);
    lemma_power_doubled_plus_one(element_224(), prime_224() as int, 10629287717689179105847876682709846327167983521755457477254418631504int, 10nat, 12282250638087330142565166163460321402792576875785127398121830274169int);
    assert(4737399993920319795508142188396556643263261077510051419325781101590int == (((12282250638087330142565166163460321402792576875785127398121830274169int * 12282250638087330142565166163460321402792576875785127398121830274169int) % (prime_224() as int)) * element_224()) % (
        prime_224() as int)) by (nonlinear_arith);
    lemma_power_doubled_plus_one(element_224(), prime_224() as int, 12282250638087330142565166163460321402792576875785127398121830274169int, 21nat, 4737399993920319795508142188396556643263261077510051419325781101590int);
    assert(8870676326850195139475992075990161220539098904805009604510529064359int == (4737399993920319795508142188396556643263261077510051419325781101590int * 4737399993920319795508142188396556643263261077510051419325781101590int) % (prime_224() as int)) by (nonlinear_arith);
    lemma_power_doubled(element_224(), prime_224() as int, 4737399993920319795508142188396556643263261077510051419325781101590int, 43nat, 8870676326850195139475992075990161220539098904805009604510529064359int);
    assert(10908756685591475938929825793236783011575764636331624810447458880937int == (((8870676326850195139475992075990161220539098904805009604510529064359int * 8870676326850195139475992075990161220539098904805009604510529064359int) % (prime_224() as int)) * element_224()) % (
        prime_224() as int)) by (nonlinear_arith);
    lemma_power_doubled_plus_one(element_224(), prime_224() as int, 8870676326850195139475992075990161220539098904805009604510529064359int, 86nat, 10908756685591475938929825793236783011575764636331624810447458880937int);
    assert(8828060505339556136124923839041358789269587390819134589180836253241int == (10908756685591475938929825793236783011575764636331624810447458880937int * 10908756685591475938929825793236783011575764636331624810447458880937int) % (prime_224() as int)) by (nonlinear_arith);
    lemma_power_doubled(element_224(), prime_224() as int, 10908756685591475938929825793236783011575764636331624810447458880937int, 173nat, 8828060505339556136124923839041358789269587390819134589180836253241int);
    assert(5171848363290228369306723729853532121396252464664822958666532139759int == (8828060505339556136124923839041358789269587390819134589180836253241int * 8828060505339556136124923839041358789269587390819134589180836253241int) % (prime_224() as int)) by (nonlinear_arith);
    lemma_power_doubled(element_224(), prime_224() as int, 8828060505339556136124923839041358789269587390819134589180836253241int, 346nat, 5171848363290228369306723729853532121396252464664822958666532139759int);
    assert(12312388795130040304310319003363264464927953645710021193432617580890int == (((5171848363290228369306723729853532121396252464664822958666532139759int * 5171848363290228369306723729853532121396252464664822958666532139759int) % (prime_224() as int)) * element_224()) % (
        prime_224() as int)) by (nonlinear_arith);
    lemma_power_doubled_plus_one(element_224(), prime_224() as int, 5171848363290228369306723729853532121396252464664822958666532139759int, 692nat, 12312388795130040304310319003363264464927953645710021193432617580890int);
    assert(8078185267449925957919133136207103700228716859175132438166349089861int == (12312388795130040304310319003363264464927953645710021193432617580890int * 12312388795130040304310319003363264464927953645710021193432617580890int) % (prime_224() as int)) by (nonlinear_arith);
    lemma_power_doubled(element_224(), prime_224() as int, 12312388795130040304310319003363264464927953645710021193432617580890int, 1385nat, 8078185267449925957919133136207103700228716859175132438166349089861int);
    assert(12988480729767672048492152315745644138680425749662850767334523046101int == (((8078185267449925957919133136207103700228716859175132438166349089861int * 8078185267449925957919133136207103700228716859175132438166349089861int) % (prime_224() as int)) * element_224()) % (
        prime_224() as int)) by (nonlinear_arith);
    lemma_power_doubled_plus_one(element_224(), prime_224() as int, 8078185267449925957919133136207103700228716859175132438166349089861int, 2770nat, 12988480729767672048492152315745644138680425749662850767334523046101int);
    assert(7492711561275543116096561522015834387027457477205680490348993695395int == (((12988480729767672048492152315745644138680425749662850767334523046101int * 12988480729767672048492152315745644138680425749662850767334523046101int) % (prime_224() as int)) * element_224()) % (
        prime_224() as int)) by (nonlinear_arith);
    lemma_power_doubled_plus_one(element_224(), prime_224() as int, 12988480729767672048492152315745644138680425749662850767334523046101int, 5541nat, 7492711561275543116096561522015834387027457477205680490348993695395int);
    assert(4079653269414422335552262121810670457027363066809996983731126806641int == (((7492711561275543116096561522015834387027457477205680490348993695395int * 7492711561275543116096561522015834387027457477205680490348993695395int) % (prime_224() as int)) * element_224()) % (
        prime_224() as int)) by (nonlinear_arith);
    lemma_power_doubled_plus_one(element_224(), prime_224() as int, 7492711561275543116096561522015834387027457477205680490348993695395int, 11083nat, 4079653269414422335552262121810670457027363066809996983731126806641int);
    assert(13322840716097244412290712281136073990548591181712347333295265737734int == (4079653269414422335552262121810670457027363066809996983731126806641int * 4079653269414422335552262121810670457027363066809996983731126806641int) % (prime_224() as int)) by (nonlinear_arith);
    lemma_power_doubled(element_224(), prime_224() as int, 4079653269414422335552262121810670457027363066809996983731126806641int, 22167nat, 13322840716097244412290712281136073990548591181712347333295265737734int);
    assert(967440019686685709660948494972536223363018687317176538804749438637int == (13322840716097244412290712281136073990548591181712347333295265737734int * 13322840716097244412290712281136073990548591181712347333295265737734int) % (prime_224() as int)) by (nonlinear_arith);
    lemma_power_doubled(element_224(), prime_224() as int, 13322840716097244412290712281136073990548591181712347333295265737734int, 44334nat, 967440019686685709660948494972536223363018687317176538804749438637int);
    assert(8424681584566388490685925988886446355175110324964258884924159493350int == (967440019686685709660948494972536223363018687317176538804749438637int * 967440019686685709660948494972536223363018687317176538804749438637int) % (prime_224() as int)) by (nonlinear_arith);
    lemma_power_doubled(element_224(), prime_224() as int, 967440019686685709660948494972536223363018687317176538804749438637int, 88668nat, 8424681584566388490685925988886446355175110324964258884924159493350int);
    assert(3923977101810904581899454911916886584543717452912611278492706246560int == (((8424681584566388490685925988886446355175110324964258884924159493350int * 8424681584566388490685925988886446355175110324964258884924159493350int) % (prime_224() as int)) * element_224()) % (
        prime_224() as int)) by (nonlinear_arith);
    lemma_power_doubled_plus_one(element_224(), prime_224() as int, 8424681584566388490685925988886446355175110324964258884924159493350int, 177336nat, 3923977101810904581899454911916886584543717452912611278492706246560int);
    assert(3886663724580345814178012623857760034343279506584873199217155620319int == (3923977101810904581899454911916886584543717452912611278492706246560int * 3923977101810904581899454911916886584543717452912611278492706246560int) % (prime_224() as int)) by (nonlinear_arith);
    lemma_power_doubled(element_224(), prime_224() as int, 3923977101810904581899454911916886584543717452912611278492706246560int, 354673nat, 3886663724580345814178012623857760034343279506584873199217155620319int);
    assert(12951076394472603731309678218699201008843057718518488157558491842534int == (3886663724580345814178012623857760034343279506584873199217155620319int * 3886663724580345814178012623857760034343279506584873199217155620319int) % (prime_224() as int)) by (nonlinear_arith);
    lemma_power_doubled(element_224(), prime_224() as int, 3886663724580345814178012623857760034343279506584873199217155620319int, 709346nat, 12951076394472603731309678218699201008843057718518488157558491842534int);
    assert(9359562977234339867064005902202854228632344487817812398927244260258int == (12951076394472603731309678218699201008843057718518488157558491842534int * 12951076394472603731309678218699201008843057718518488157558491842534int) % (prime_224() as int)) by (nonlinear_arith);
    lemma_power_doubled(element_224(), prime_224() as int, 12951076394472603731309678218699201008843057718518488157558491842534int, 1418692nat, 9359562977234339867064005902202854228632344487817812398927244260258int);
    assert(5578546596760250572894922549712803811205230151270668653397702490239int == (((9359562977234339867064005902202854228632344487817812398927244260258int * 9359562977234339867064005902202854228632344487817812398927244260258int) % (prime_224() as int)) * element_224()) % (
        prime_224() as int)) by (nonlinear_arith);
    lemma_power_doubled_plus_one(element_224(), prime_224() as int, 9359562977234339867064005902202854228632344487817812398927244260258int, 2837384nat, 5578546596760250572894922549712803811205230151270668653397702490239int);
    assert(10637114063436548732084011483295607481964803681304732161735984289508int == (5578546596760250572894922549712803811205230151270668653397702490239int * 5578546596760250572894922549712803811205230151270668653397702490239int) % (prime_224() as int)) by (nonlinear_arith);
    lemma_power_doubled(element_224(), prime_224() as int, 5578546596760250572894922549712803811205230151270668653397702490239int, 5674769nat, 10637114063436548732084011483295607481964803681304732161735984289508int);
    assert(12446622072710844174338148897506309493132884770079117562886197741886int == (((10637114063436548732084011483295607481964803681304732161735984289508int * 10637114063436548732084011483295607481964803681304732161735984289508int) % (prime_224() as int)) * element_224()) % (
        prime_224() as int)) by (nonlinear_arith);
    lemma_power_doubled_plus_one(element_224(), prime_224() as int, 10637114063436548732084011483295607481964803681304732161735984289508int, 11349538nat, 12446622072710844174338148897506309493132884770079117562886197741886int);
    assert(4236652622965022481946971025033393070311933495349890764353862202864int == (12446622072710844174338148897506309493132884770079117562886197741886int * 12446622072710844174338148897506309493132884770079117562886197741886int) % (prime_224() as int)) by (nonlinear_arith);
    lemma_power_doubled(element_224(), prime_224() as int, 12446622072710844174338148897506309493132884770079117562886197741886int, 22699077nat, 4236652622965022481946971025033393070311933495349890764353862202864int);
    assert(6961485487199880179146901030055319177387568481700508103195925204105int == (4236652622965022481946971025033393070311933495349890764353862202864int * 4236652622965022481946971025033393070311933495349890764353862202864int) % (prime_224() as int)) by (nonlinear_arith);
    lemma_power_doubled(element_224(), prime_224() as int, 4236652622965022481946971025033393070311933495349890764353862202864int, 45398154nat, 6961485487199880179146901030055319177387568481700508103195925204105int);
    assert(3642450786372216257855144029663270309069230551707006388963944884218int == (((6961485487199880179146901030055319177387568481700508103195925204105int * 6961485487199880179146901030055319177387568481700508103195925204105int) % (prime_224() as int)) * element_224()) % (
        prime_224() as int)) by (nonlinear_arith);
    lemma_power_doubled_plus_one(element_224(), prime_224() as int, 6961485487199880179146901030055319177387568481700508103195925204105int, 90796308nat, 3642450786372216257855144029663270309069230551707006388963944884218int);
    assert(10809515615589265278567934519343311895566741732658532910320361399952int == (3642450786372216257855144029663270309069230551707006388963944884218int * 3642450786372216257855144029663270309069230551707006388963944884218int) % (prime_224() as int)) by (nonlinear_arith);
    lemma_power_doubled(element_224(), prime_224() as int, 3642450786372216257855144029663270309069230551707006388963944884218int, 181592617nat, 10809515615589265278567934519343311895566741732658532910320361399952int);
    assert(10005971878021250361987532089816333432513355720172224811353861849516int == (((10809515615589265278567934519343311895566741732658532910320361399952int * 10809515615589265278567934519343311895566741732658532910320361399952int) % (prime_224() as int)) * element_224()) % (
        prime_224() as int)) by (nonlinear_arith);
    lemma_power_doubled_plus_one(element_224(), prime_224() as int, 10809515615589265278567934519343311895566741732658532910320361399952int, 363185234nat, 10005971878021250361987532089816333432513355720172224811353861849516int);
    assert(4115960370995429340614906622838987984764787861986617153477224152997int == (((10005971878021250361987532089816333432513355720172224811353861849516int * 10005971878021250361987532089816333432513355720172224811353861849516int) % (prime_224() as int)) * element_224()) % (
        prime_224() as int)) by (nonlinear_arith);
    lemma_power_doubled_plus_one(element_224(), prime_224() as int, 10005971878021250361987532089816333432513355720172224811353861849516int, 726370469nat, 4115960370995429340614906622838987984764787861986617153477224152997int);
    assert(8535152120495310851102613358853227826857308725512250738745246670276int == (((4115960370995429340614906622838987984764787861986617153477224152997int * 4115960370995429340614906622838987984764787861986617153477224152997int) % (prime_224() as int)) * element_224()) % (
        prime_224() as int)) by (nonlinear_arith);
    lemma_power_doubled_plus_one(element_224(), prime_224() as int, 4115960370995429340614906622838987984764787861986617153477224152997int, 1452740939nat, 8535152120495310851102613358853227826857308725512250738745246670276int);
}

/// The power of `element_224` to the leading 64 bits of `prime_183`.
proof fn lemma_power_224_64()
    ensures
        pow_mod(element_224(), 12478949650301651938nat, prime_224() as int) == 9036935132883980535186736723235021093745432200400426795887937306500int,
{
    lemma_power_224_32();
    assert(9146108892058401175589563004528571018480990909547368821205384358921int == (8535152120495310851102613358853227826857308725512250738745246670276int * 8535152120495310851102613358853227826857308725512250738745246670276int) % (prime_224() as int)) by (nonlinear_arith);
    lemma_power_doubled(element_224(), prime_224() as int, 8535152120495310851102613358853227826857308725512250738745246670276int, 2905481879nat, 9146108892058401175589563004528571018480990909547368821205384358921int);
    assert(46762259602816650331369458971599606854579563456791173584520840650int == (9146108892058401175589563004528571018480990909547368821205384358921int * 9146108892058401175589563004528571018480990909547368821205384358921int) % (prime_224() as int)) by (nonlinear_arith);
    lemma_power_doubled(element_224(), prime_224() as int, 9146108892058401175589563004528571018480990909547368821205384358921int, 5810963758nat, 46762259602816650331369458971599606854579563456791173584520840650int);
    assert(5454765999329204938826369955186233021502403927821509678620012680426int == (((46762259602816650331369458971599606854579563456791173584520840650int * 46762259602816650331369458971599606854579563456791173584520840650int) % (prime_224() as int)) * element_224()) % (
        prime_224() as int)) by (nonlinear_arith);
    lemma_power_doubled_plus_one(element_224(), prime_224() as int, 46762259602816650331369458971599606854579563456791173584520840650int, 11621927516nat, 5454765999329204938826369955186233021502403927821509678620012680426int);
    assert(8767195422057697133527756552318646039475751856835235098955904647084int == (((5454765999329204938826369955186233021502403927821509678620012680426int * 5454765999329204938826369955186233021502403927821509678620012680426int) % (prime_224() as int)) * element_224()) % (
        prime_224() as int)) by (nonlinear_arith);
    lemma_power_doubled_plus_one(element_224(), prime_224() as int, 5454765999329204938826369955186233021502403927821509678620012680426int, 23243855033nat, 8767195422057697133527756552318646039475751856835235098955904647084int);
    assert(4810711876894258170019059629599408989627926300525719568387349920270int == (8767195422057697133527756552318646039475751856835235098955904647084int * 8767195422057697133527756552318646039475751856835235098955904647084int) % (prime_224() as int)) by (nonlinear_arith);
    lemma_power_doubled(element_224(), prime_224() as int, 8767195422057697133527756552318646039475751856835235098955904647084int, 46487710067nat, 4810711876894258170019059629599408989627926300525719568387349920270int);
    assert(8260688605979423555523779201139613484336665202410041425482209185012int == (((4810711876894258170019059629599408989627926300525719568387349920270int * 4810711876894258170019059629599408989627926300525719568387349920270int) % (prime_224() as int)) * element_224()) % (
        prime_224() as int)) by (nonlinear_arith);
    lemma_power_doubled_plus_one(element_224(), prime_224() as int, 4810711876894258170019059629599408989627926300525719568387349920270int, 92975420134nat, 8260688605979423555523779201139613484336665202410041425482209185012int);
    assert(494413140016449968351834523275252723787040251402941531220795346355int == (8260688605979423555523779201139613484336665202410041425482209185012int * 8260688605979423555523779201139613484336665202410041425482209185012int) % (prime_224() as int)) by (nonlinear_arith);
    lemma_power_doubled(element_224(), prime_224() as int, 8260688605979423555523779201139613484336665202410041425482209185012int, 185950840269nat, 494413140016449968351834523275252723787040251402941531220795346355int);
    assert(8081398903124738229502597005048277064086866410602989618889648469370int == (494413140016449968351834523275252723787040251402941531220795346355int * 494413140016449968351834523275252723787040251402941531220795346355int) % (prime_224() as int)) by (nonlinear_arith);
    lemma_power_doubled(element_224(), prime_224() as int, 494413140016449968351834523275252723787040251402941531220795346355int, 371901680538nat, 8081398903124738229502597005048277064086866410602989618889648469370int);
    assert(9726301618665387076247312399422361897946836715947115127461731229981int == (8081398903124738229502597005048277064086866410602989618889648469370int * 8081398903124738229502597005048277064086866410602989618889648469370int) % (prime_224() as int)) by (nonlinear_arith);
    lemma_power_doubled(element_224(), prime_224() as int, 8081398903124738229502597005048277064086866410602989618889648469370int, 743803361076nat, 9726301618665387076247312399422361897946836715947115127461731229981int);
    assert(4403672636995462199612826022483539100622539039579116450681025996525int == (9726301618665387076247312399422361897946836715947115127461731229981int * 9726301618665387076247312399422361897946836715947115127461731229981int) % (prime_224() as int)) by (nonlinear_arith);
    lemma_power_doubled(element_224(), prime_224() as int, 9726301618665387076247312399422361897946836715947115127461731229981int, 1487606722152nat, 4403672636995462199612826022483539100622539039579116450681025996525int);
    assert(7232774722271911758584379593370282867771506164467830863781145716798int == (((4403672636995462199612826022483539100622539039579116450681025996525int * 4403672636995462199612826022483539100622539039579116450681025996525int) % (prime_224() as int)) * element_224()) % (
        prime_224() as int)) by (nonlinear_arith);
    lemma_power_doubled_plus_one(element_224(), prime_224() as int, 4403672636995462199612826022483539100622539039579116450681025996525int, 2975213444304nat, 7232774722271911758584379593370282867771506164467830863781145716798int);
    assert(9536716857674908277443817214789768859820205719213898318760913334071int == (((7232774722271911758584379593370282867771506164467830863781145716798int * 7232774722271911758584379593370282867771506164467830863781145716798int) % (prime_224() as int)) * element_224()) % (
        prime_224() as int)) by (nonlinear_arith);
    lemma_power_doubled_plus_one(element_224(), prime_224() as int, 7232774722271911758584379593370282867771506164467830863781145716798int, 5950426888609nat, 9536716857674908277443817214789768859820205719213898318760913334071int);
    assert(5073075726426864991382293832615215562004618119768533518656647079319int == (9536716857674908277443817214789768859820205719213898318760913334071int * 9536716857674908277443817214789768859820205719213898318760913334071int) % (prime_224() as int)) by (nonlinear_arith);
    lemma_power_doubled(element_224(), prime_224() as int, 9536716857674908277443817214789768859820205719213898318760913334071int, 11900853777219nat, 5073075726426864991382293832615215562004618119768533518656647079319int);
    assert(4722876506412489176664518591591516018115162474075873017779045806790int == (((5073075726426864991382293832615215562004618119768533518656647079319int * 5073075726426864991382293832615215562004618119768533518656647079319int) % (prime_224() as int)) * element_224()) % (
        prime_224() as int)) by (nonlinear_arith);
    lemma_power_doubled_plus_one(element_224(), prime_224() as int, 5073075726426864991382293832615215562004618119768533518656647079319int, 23801707554438nat, 4722876506412489176664518591591516018115162474075873017779045806790int);
    assert(8974853182705888695268454987731723607606801586162252617429888609870int == (((4722876506412489176664518591591516018115162474075873017779045806790int * 4722876506412489176664518591591516018115162474075873017779045806790int) % (prime_224() as int)) * element_224()) % (
        prime_224() as int)) by (nonlinear_arith);
    lemma_power_doubled_plus_one(element_224(), prime_224() as int, 4722876506412489176664518591591516018115162474075873017779045806790int, 47603415108877nat, 8974853182705888695268454987731723607606801586162252617429888609870int);
    assert(739124444768642087195914610601266452833080597880258878330948041392int == (((8974853182705888695268454987731723607606801586162252617429888609870int * 8974853182705888695268454987731723607606801586162252617429888609870int) % (prime_224() as int)) * element_224()) % (
        prime_224() as int)) by (nonlinear_arith);
    lemma_power_doubled_plus_one(element_224(), prime_224() as int, 8974853182705888695268454987731723607606801586162252617429888609870int, 95206830217755nat, 739124444768642087195914610601266452833080597880258878330948041392int);
    assert(4569501080359934619161096439271943067443159843703657025143489092115int == (739124444768642087195914610601266452833080597880258878330948041392int * 739124444768642087195914610601266452833080597880258878330948041392int) % (prime_224() as int)) by (nonlinear_arith);
    lemma_power_doubled(element_224(), prime_224() as int, 739124444768642087195914610601266452833080597880258878330948041392int, 190413660435511nat, 4569501080359934619161096439271943067443159843703657025143489092115int);
    assert(2924791612173020011313256515075564003084144922190754971049841342665int == (4569501080359934619161096439271943067443159843703657025143489092115int * 4569501080359934619161096439271943067443159843703657025143489092115int) % (prime_224() as int)) by (nonlinear_arith);
    lemma_power_doubled(element_224(), prime_224() as int, 4569501080359934619161096439271943067443159843703657025143489092115int, 380827320871022nat, 2924791612173020011313256515075564003084144922190754971049841342665int);
    assert(1729265047122353001528951376529005108414524198085796828841504378474int == (2924791612173020011313256515075564003084144922190754971049841342665int * 2924791612173020011313256515075564003084144922190754971049841342665int) % (prime_224() as int)) by (nonlinear_arith);
    lemma_power_doubled(element_224(), prime_224() as int, 2924791612173020011313256515075564003084144922190754971049841342665int, 761654641742044nat, 1729265047122353001528951376529005108414524198085796828841504378474int);
    assert(12826896252001505546029974018289671777314728918874773639083411002354int == (1729265047122353001528951376529005108414524198085796828841504378474int * 1729265047122353001528951376529005108414524198085796828841504378474int) % (prime_224() as int)) by (nonlinear_arith);
    lemma_power_doubled(element_224(), prime_224() as int, 1729265047122353001528951376529005108414524198085796828841504378474int, 1523309283484088nat, 12826896252001505546029974018289671777314728918874773639083411002354int);
    assert(4215047023961533561403971756841256772209554216442235253431951220001int == (((12826896252001505546029974018289671777314728918874773639083411002354int * 12826896252001505546029974018289671777314728918874773639083411002354int) % (prime_224() as int)) * element_224()) % (
        prime_224() as int)) by (nonlinear_arith);
    lemma_power_doubled_plus_one(element_224(), prime_224() as int, 12826896252001505546029974018289671777314728918874773639083411002354int, 3046618566968176nat, 4215047023961533561403971756841256772209554216442235253431951220001int);
    assert(2990354701395669931827040126289837409762666730595514971349441162806int == (4215047023961533561403971756841256772209554216442235253431951220001int * 4215047023961533561403971756841256772209554216442235253431951220001int) % (prime_224() as int)) by (nonlinear_arith);
    lemma_power_doubled(element_224(), prime_224() as int, 4215047023961533561403971756841256772209554216442235253431951220001int, 6093237133936353nat, 2990354701395669931827040126289837409762666730595514971349441162806int);
    assert(7245645347918117861533974019073766421511470052491180327100745077289int == (((2990354701395669931827040126289837409762666730595514971349441162806int * 2990354701395669931827040126289837409762666730595514971349441162806int) % (prime_224() as int)) * element_224()) % (
        prime_224() as int)) by (nonlinear_arith);
    lemma_power_doubled_plus_one(element_224(), prime_224() as int, 2990354701395669931827040126289837409762666730595514971349441162806int, 12186474267872706nat, 7245645347918117861533974019073766421511470052491180327100745077289int);
    assert(2389186742065583917938979743337104042039411442164793013825625347107int == (((7245645347918117861533974019073766421511470052491180327100745077289int * 7245645347918117861533974019073766421511470052491180327100745077289int) % (prime_224() as int)) * element_224()) % (
        prime_224() as int)) by (nonlinear_arith);
    lemma_power_doubled_plus_one(element_224(), prime_224() as int, 7245645347918117861533974019073766421511470052491180327100745077289int, 24372948535745413nat, 2389186742065583917938979743337104042039411442164793013825625347107int);
    assert(1151311166036614155481312315695973710339930934987165774440332391981int == (((2389186742065583917938979743337104042039411442164793013825625347107int * 2389186742065583917938979743337104042039411442164793013825625347107int) % (prime_224() as int)) * element_224()) % (
        prime_224() as int)) by (nonlinear_arith);
    lemma_power_doubled_plus_one(element_224(), prime_224() as int, 2389186742065583917938979743337104042039411442164793013825625347107int, 48745897071490827nat, 1151311166036614155481312315695973710339930934987165774440332391981int);
    assert(6516063653045860145010449207709159599861928720940838706567163931343int == (((1151311166036614155481312315695973710339930934987165774440332391981int * 1151311166036614155481312315695973710339930934987165774440332391981int) % (prime_224() as int)) * element_224()) % (
        prime_224() as int)) by (nonlinear_arith);
    lemma_power_doubled_plus_one(element_224(), prime_224() as int, 1151311166036614155481312315695973710339930934987165774440332391981int, 97491794142981655nat, 6516063653045860145010449207709159599861928720940838706567163931343int);
    assert(12381870129001876075828009816871029626527265280155623106907933670791int == (((6516063653045860145010449207709159599861928720940838706567163931343int * 6516063653045860145010449207709159599861928720940838706567163931343int) % (prime_224() as int)) * element_224()) % (
        prime_224() as int)) by (nonlinear_arith);
    lemma_power_doubled_plus_one(element_224(), prime_224() as int, 6516063653045860145010449207709159599861928720940838706567163931343int, 194983588285963311nat, 12381870129001876075828009816871029626527265280155623106907933670791int);
    assert(3655559853216267373550756700109540924366529267512919715500213379282int == (12381870129001876075828009816871029626527265280155623106907933670791int * 12381870129001876075828009816871029626527265280155623106907933670791int) % (prime_224() as int)) by (nonlinear_arith);
    lemma_power_doubled(element_224(), prime_224() as int, 12381870129001876075828009816871029626527265280155623106907933670791int, 389967176571926623nat, 3655559853216267373550756700109540924366529267512919715500213379282int);
    assert(10096015657002024003097923856771383647610200520390429374292546208180int == (3655559853216267373550756700109540924366529267512919715500213379282int * 3655559853216267373550756700109540924366529267512919715500213379282int) % (prime_224() as int)) by (nonlinear_arith);
    lemma_power_doubled(element_224(), prime_224() as int, 3655559853216267373550756700109540924366529267512919715500213379282int, 779934353143853246nat, 10096015657002024003097923856771383647610200520390429374292546208180int);
    assert(1438860352174045489041280970519914414919008700938312111598251983474int == (10096015657002024003097923856771383647610200520390429374292546208180int * 10096015657002024003097923856771383647610200520390429374292546208180int) % (prime_224() as int)) by (nonlinear_arith);
    lemma_power_doubled(element_224(), prime_224() as int, 10096015657002024003097923856771383647610200520390429374292546208180int, 1559868706287706492nat, 1438860352174045489041280970519914414919008700938312111598251983474int);
    assert(10760557256158215718083661057619258523155077586074450505300600651899int == (((1438860352174045489041280970519914414919008700938312111598251983474int * 1438860352174045489041280970519914414919008700938312111598251983474int) % (prime_224() as int)) * element_224()) % (
        prime_224() as int)) by (nonlinear_arith);
    lemma_power_doubled_plus_one(element_224(), prime_224() as int, 1438860352174045489041280970519914414919008700938312111598251983474int, 3119737412575412984nat, 10760557256158215718083661057619258523155077586074450505300600651899int);
    assert(9036935132883980535186736723235021093745432200400426795887937306500int == (10760557256158215718083661057619258523155077586074450505300600651899int * 10760557256158215718083661057619258523155077586074450505300600651899int) % (prime_224() as int)) by (nonlinear_arith);
    lemma_power_doubled(element_224(), prime_224() as int, 10760557256158215718083661057619258523155077586074450505300600651899int, 6239474825150825969nat, 9036935132883980535186736723235021093745432200400426795887937306500int);
}

/// The power of `element_224` to the leading 96 bits of `prime_183`.
proof fn lemma_power_224_96()
    ensures
        pow_mod(element_224(), 53596680636476231609919629551nat, prime_224() as int) == 8227431908137310993285086632503179908923807722574937979575158172034int,
{
    lemma_power_224_64();
    assert(13152229849948806770795335585537076880342705143563861961342671002149int == (9036935132883980535186736723235021093745432200400426795887937306500int * 9036935132883980535186736723235021093745432200400426795887937306500int) % (prime_224() as int)) by (nonlinear_arith);
    lemma_power_doubled(element_224(), prime_224() as int, 9036935132883980535186736723235021093745432200400426795887937306500int, 12478949650301651938nat, 13152229849948806770795335585537076880342705143563861961342671002149int);
    assert(11116298851802875572269964234372825509777497566536617156127387839702int == (((13152229849948806770795335585537076880342705143563861961342671002149int * 13152229849948806770795335585537076880342705143563861961342671002149int) % (prime_224() as int)) * element_224()) % (
        prime_224() as int)) by (nonlinear_arith);
    lemma_power_doubled_plus_one(element_224(), prime_224() as int, 13152229849948806770795335585537076880342705143563861961342671002149int, 24957899300603303876nat, 11116298851802875572269964234372825509777497566536617156127387839702int);
    assert(6657487436176887983003141261644590182575228928866736021799115247234int == (11116298851802875572269964234372825509777497566536617156127387839702int * 11116298851802875572269964234372825509777497566536617156127387839702int) % (prime_224() as int)) by (nonlinear_arith);
    lemma_power_doubled(element_224(), prime_224() as int, 11116298851802875572269964234372825509777497566536617156127387839702int, 49915798601206607753nat, 6657487436176887983003141261644590182575228928866736021799115247234int);
    assert(6725335511751886052823360362290123265870130729221804365566090915159int == (((6657487436176887983003141261644590182575228928866736021799115247234int * 6657487436176887983003141261644590182575228928866736021799115247234int) % (prime_224() as int)) * element_224()) % (
        prime_224() as int)) by (nonlinear_arith);
    lemma_power_doubled_plus_one(element_224(), prime_224() as int, 6657487436176887983003141261644590182575228928866736021799115247234int, 99831597202413215506nat, 6725335511751886052823360362290123265870130729221804365566090915159int);
    assert(2998490429056932727332539967779568528361522542952074473063581892898int == (6725335511751886052823360362290123265870130729221804365566090915159int * 6725335511751886052823360362290123265870130729221804365566090915159int) % (prime_224() as int)) by (nonlinear_arith);
    lemma_power_doubled(element_224(), prime_224() as int, 6725335511751886052823360362290123265870130729221804365566090915159int, 199663194404826431013nat, 2998490429056932727332539967779568528361522542952074473063581892898int);
    assert(11773093314251461987420132039638795851166610042095082265924150446905int == (((2998490429056932727332539967779568528361522542952074473063581892898int * 2998490429056932727332539967779568528361522542952074473063581892898int) % (prime_224() as int)) * element_224()) % (
        prime_224() as int)) by (nonlinear_arith);
    lemma_power_doubled_plus_one(element_224(), prime_224() as int, 2998490429056932727332539967779568528361522542952074473063581892898int, 399326388809652862026nat, 11773093314251461987420132039638795851166610042095082265924150446905int);
    assert(7351497758613577951661707359760385011107974918653821207532491258839int == (11773093314251461987420132039638795851166610042095082265924150446905int * 11773093314251461987420132039638795851166610042095082265924150446905int) % (prime_224() as int)) by (nonlinear_arith);
    lemma_power_doubled(element_224(), prime_224() as int, 11773093314251461987420132039638795851166610042095082265924150446905int, 798652777619305724053nat, 7351497758613577951661707359760385011107974918653821207532491258839int);
    assert(7117822212233211253315469163911222960460340691484273432152250543198int == (((7351497758613577951661707359760385011107974918653821207532491258839int * 7351497758613577951661707359760385011107974918653821207532491258839int) % (prime_224() as int)) * element_224()) % (
        prime_224() as int)) by (nonlinear_arith);
    lemma_power_doubled_plus_one(element_224(), prime_224() as int, 7351497758613577951661707359760385011107974918653821207532491258839int, 1597305555238611448106nat, 7117822212233211253315469163911222960460340691484273432152250543198int);
    assert(12688061467822851288970599513110503404765134154069418915844186582085int == (((7117822212233211253315469163911222960460340691484273432152250543198int * 7117822212233211253315469163911222960460340691484273432152250543198int) % (prime_224() as int)) * element_224()) % (
        prime_224() as int)) by (nonlinear_arith);
    lemma_power_doubled_plus_one(element_224(), prime_224() as int, 7117822212233211253315469163911222960460340691484273432152250543198int, 3194611110477222896213nat, 12688061467822851288970599513110503404765134154069418915844186582085int);
    assert(1306273395877434045450679962872534516503515941724975107012281665711int == (12688061467822851288970599513110503404765134154069418915844186582085int * 12688061467822851288970599513110503404765134154069418915844186582085int) % (prime_224() as int)) by (nonlinear_arith);
    lemma_power_doubled(element_224(), prime_224() as int, 12688061467822851288970599513110503404765134154069418915844186582085int, 6389222220954445792427nat, 1306273395877434045450679962872534516503515941724975107012281665711int);
    assert(6436210850987542172574437099530109550488498374839118931507654356426int == (1306273395877434045450679962872534516503515941724975107012281665711int * 1306273395877434045450679962872534516503515941724975107012281665711int) % (prime_224() as int)) by (nonlinear_arith);
    lemma_power_doubled(element_224(), prime_224() as int, 1306273395877434045450679962872534516503515941724975107012281665711int, 12778444441908891584854nat, 6436210850987542172574437099530109550488498374839118931507654356426int);
    assert(5929983764459589388728267722555841611755595344954484198626107167047int == (6436210850987542172574437099530109550488498374839118931507654356426int * 6436210850987542172574437099530109550488498374839118931507654356426int) % (prime_224() as int)) by (nonlinear_arith);
    lemma_power_doubled(element_224(), prime_224() as int, 6436210850987542172574437099530109550488498374839118931507654356426int, 25556888883817783169708nat, 5929983764459589388728267722555841611755595344954484198626107167047int);
    assert(4541443590010205637354298543361537113595915279296365925841335453100int == (5929983764459589388728267722555841611755595344954484198626107167047int * 5929983764459589388728267722555841611755595344954484198626107167047int) % (prime_224() as int)) by (nonlinear_arith);
    lemma_power_doubled(element_224(), prime_224() as int, 5929983764459589388728267722555841611755595344954484198626107167047int, 51113777767635566339416nat, 4541443590010205637354298543361537113595915279296365925841335453100int);
    assert(1025755132880812913208210886642583477891907802397565901780832923955int == (4541443590010205637354298543361537113595915279296365925841335453100int * 4541443590010205637354298543361537113595915279296365925841335453100int) % (prime_224() as int)) by (nonlinear_arith);
    lemma_power_doubled(element_224(), prime_224() as int, 4541443590010205637354298543361537113595915279296365925841335453100int, 102227555535271132678832nat, 1025755132880812913208210886642583477891907802397565901780832923955int);
    assert(5610883847653837814412330069539076805284175223695022546573266262674int == (((1025755132880812913208210886642583477891907802397565901780832923955int * 1025755132880812913208210886642583477891907802397565901780832923955int) % (prime_224() as int)) * element_224()) % (
        prime_224() as int)) by (nonlinear_arith);
    lemma_power_doubled_plus_one(element_224(), prime_224() as int, 1025755132880812913208210886642583477891907802397565901780832923955int, 204455111070542265357664nat, 5610883847653837814412330069539076805284175223695022546573266262674int);
    assert(11760981212296525944899480172641807020055024838120975641289765429042int == (5610883847653837814412330069539076805284175223695022546573266262674int * 5610883847653837814412330069539076805284175223695022546573266262674int) % (prime_224() as int)) by (nonlinear_arith);
    lemma_power_doubled(element_224(), prime_224() as int, 5610883847653837814412330069539076805284175223695022546573266262674int, 408910222141084530715329nat, 11760981212296525944899480172641807020055024838120975641289765429042int);
    assert(11468865603823066188368255954761557814926085183532687902212460996639int == (11760981212296525944899480172641807020055024838120975641289765429042int * 11760981212296525944899480172641807020055024838120975641289765429042int) % (prime_224() as int)) by (nonlinear_arith);
    lemma_power_doubled(element_224(), prime_224() as int, 11760981212296525944899480172641807020055024838120975641289765429042int, 817820444282169061430658nat, 11468865603823066188368255954761557814926085183532687902212460996639int);
    assert(8342416039626709672925164281310916198104201456461642342103161260836int == (((11468865603823066188368255954761557814926085183532687902212460996639int * 11468865603823066188368255954761557814926085183532687902212460996639int) % (prime_224() as int)) * element_224()) % (
        prime_224() as int)) by (nonlinear_arith);
    lemma_power_doubled_plus_one(element_224(), prime_224() as int, 11468865603823066188368255954761557814926085183532687902212460996639int, 1635640888564338122861316nat, 8342416039626709672925164281310916198104201456461642342103161260836int);
    assert(978862612065397333284236349982758834949206732947592034784433468252int == (((8342416039626709672925164281310916198104201456461642342103161260836int * 8342416039626709672925164281310916198104201456461642342103161260836int) % (prime_224() as int)) * element_224()) % (
        prime_224() as int)) by (nonlinear_arith);
    lemma_power_doubled_plus_one(element_224(), prime_224() as int, 8342416039626709672925164281310916198104201456461642342103161260836int, 3271281777128676245722633nat, 978862612065397333284236349982758834949206732947592034784433468252int);
    assert(922806112951590982947297676990061026154133447441094127338145961520int == (978862612065397333284236349982758834949206732947592034784433468252int * 978862612065397333284236349982758834949206732947592034784433468252int) % (prime_224() as int)) by (nonlinear_arith);
    lemma_power_doubled(element_224(), prime_224() as int, 978862612065397333284236349982758834949206732947592034784433468252int, 6542563554257352491445267nat, 922806112951590982947297676990061026154133447441094127338145961520int);
    assert(7935424767722236973898708432672953098130815377700493064596053193099int == (((922806112951590982947297676990061026154133447441094127338145961520int * 922806112951590982947297676990061026154133447441094127338145961520int) % (prime_224() as int)) * element_224()) % (
        prime_224() as int)) by (nonlinear_arith);
    lemma_power_doubled_plus_one(element_224(), prime_224() as int, 922806112951590982947297676990061026154133447441094127338145961520int, 13085127108514704982890534nat, 7935424767722236973898708432672953098130815377700493064596053193099int);
    assert(11178428987608796805087788659538818772324075650807575564934130581468int == (7935424767722236973898708432672953098130815377700493064596053193099int * 7935424767722236973898708432672953098130815377700493064596053193099int) % (prime_224() as int)) by (nonlinear_arith);
    lemma_power_doubled(element_224(), prime_224() as int, 7935424767722236973898708432672953098130815377700493064596053193099int, 26170254217029409965781069nat, 11178428987608796805087788659538818772324075650807575564934130581468int);
    assert(7929981976654401098911449094780780028001946103385794180694828439980int == (11178428987608796805087788659538818772324075650807575564934130581468int * 11178428987608796805087788659538818772324075650807575564934130581468int) % (prime_224() as int)) by (nonlinear_arith);
    lemma_power_doubled(element_224(), prime_224() as int, 11178428987608796805087788659538818772324075650807575564934130581468int, 52340508434058819931562138nat, 7929981976654401098911449094780780028001946103385794180694828439980int);
    assert(8834352708856176095902293096837545387884751610232669232532563679044int == (7929981976654401098911449094780780028001946103385794180694828439980int * 7929981976654401098911449094780780028001946103385794180694828439980int) % (prime_224() as int)) by (nonlinear_arith);
    lemma_power_doubled(element_224(), prime_224() as int, 7929981976654401098911449094780780028001946103385794180694828439980int, 104681016868117639863124276nat, 8834352708856176095902293096837545387884751610232669232532563679044int);
    assert(11990739861259541263601324936858832764028252739165873081395880384088int == (((8834352708856176095902293096837545387884751610232669232532563679044int * 8834352708856176095902293096837545387884751610232669232532563679044int) % (prime_224() as int)) * element_224()) % (
        prime_224() as int)) by (nonlinear_arith);
    lemma_power_doubled_plus_one(element_224(), prime_224() as int, 8834352708856176095902293096837545387884751610232669232532563679044int, 209362033736235279726248552nat, 11990739861259541263601324936858832764028252739165873081395880384088int);
    assert(1981277307787463169037872621210178497074614260663455615226182413773int == (((11990739861259541263601324936858832764028252739165873081395880384088int * 11990739861259541263601324936858832764028252739165873081395880384088int) % (prime_224() as int)) * element_224()) % (
        prime_224() as int)) by (nonlinear_arith);
    lemma_power_doubled_plus_one(element_224(), prime_224() as int, 11990739861259541263601324936858832764028252739165873081395880384088int, 418724067472470559452497105nat, 1981277307787463169037872621210178497074614260663455615226182413773int);
    assert(8592257103339002005207822541381373929644057334326887789530302133704int == (((1981277307787463169037872621210178497074614260663455615226182413773int * 1981277307787463169037872621210178497074614260663455615226182413773int) % (prime_224() as int)) * element_224()) % (
        prime_224() as int)) by (nonlinear_arith);
    lemma_power_doubled_plus_one(element_224(), prime_224() as int, 1981277307787463169037872621210178497074614260663455615226182413773int, 837448134944941118904994211nat, 8592257103339002005207822541381373929644057334326887789530302133704int);
    assert(4921804831807811055317781543022932216998494162114778383080880762218int == (8592257103339002005207822541381373929644057334326887789530302133704int * 8592257103339002005207822541381373929644057334326887789530302133704int) % (prime_224() as int)) by (nonlinear_arith);
    lemma_power_doubled(element_224(), prime_224() as int, 8592257103339002005207822541381373929644057334326887789530302133704int, 1674896269889882237809988423nat, 4921804831807811055317781543022932216998494162114778383080880762218int);
    assert(3991944243478996662973139931258551430444339096313758515131651466832int == (((4921804831807811055317781543022932216998494162114778383080880762218int * 4921804831807811055317781543022932216998494162114778383080880762218int) % (prime_224() as int)) * element_224()) % (
        prime_224() as int)) by (nonlinear_arith);
    lemma_power_doubled_plus_one(element_224(), prime_224() as int, 4921804831807811055317781543022932216998494162114778383080880762218int, 3349792539779764475619976846nat, 3991944243478996662973139931258551430444339096313758515131651466832int);
    assert(12583156550527852791468485798039103230199853112032376673328234765375int == (((3991944243478996662973139931258551430444339096313758515131651466832int * 3991944243478996662973139931258551430444339096313758515131651466832int) % (prime_224() as int)) * element_224()) % (
        prime_224() as int)) by (nonlinear_arith);
    lemma_power_doubled_plus_one(element_224(), prime_224() as int, 3991944243478996662973139931258551430444339096313758515131651466832int, 6699585079559528951239953693nat, 12583156550527852791468485798039103230199853112032376673328234765375int);
    assert(5199437283580327407235881003556209945499006100700765535980504687038int == (((12583156550527852791468485798039103230199853112032376673328234765375int * 12583156550527852791468485798039103230199853112032376673328234765375int) % (prime_224() as int)) * element_224()) % (
        prime_224() as int)) by (nonlinear_arith);
    lemma_power_doubled_plus_one(element_224(), prime_224() as int, 12583156550527852791468485798039103230199853112032376673328234765375int, 13399170159119057902479907387nat, 5199437283580327407235881003556209945499006100700765535980504687038int);
    assert(8227431908137310993285086632503179908923807722574937979575158172034int == (((5199437283580327407235881003556209945499006100700765535980504687038int * 5199437283580327407235881003556209945499006100700765535980504687038int) % (prime_224() as int)) * element_224()) % (
        prime_224() as int)) by (nonlinear_arith);
    lemma_power_doubled_plus_one(element_224(), prime_224() as int, 5199437283580327407235881003556209945499006100700765535980504687038int, 26798340318238115804959814775nat, 8227431908137310993285086632503179908923807722574937979575158172034int);
}

/// The power of `element_224` to the leading 128 bits of `prime_183`.
proof fn lemma_power_224_128()
    ensures
        pow_mod(element_224(), 230195990507821879445926238110095517078nat, prime_224() as int) == 2633911932553735580987048026963738799014400064642952650176516674176int,
{
    lemma_power_224_96();
    assert(10010516222757988458929165517196783276210759310020425562966969908152int == (8227431908137310993285086632503179908923807722574937979575158172034int * 8227431908137310993285086632503179908923807722574937979575158172034int) % (prime_224() as int)) by (nonlinear_arith);
    lemma_power_doubled(element_224(), prime_224() as int, 8227431908137310993285086632503179908923807722574937979575158172034int, 53596680636476231609919629551nat, 10010516222757988458929165517196783276210759310020425562966969908152int);
    assert(5518233633562398118297189914178229187766122026479523735971303139790int == (10010516222757988458929165517196783276210759310020425562966969908152int * 10010516222757988458929165517196783276210759310020425562966969908152int) % (prime_224() as int)) by (nonlinear_arith);
    lemma_power_doubled(element_224(), prime_224() as int, 10010516222757988458929165517196783276210759310020425562966969908152int, 107193361272952463219839259102nat, 5518233633562398118297189914178229187766122026479523735971303139790int);
    assert(3478946835480714674032790632616593237437171707006078305000887315752int == (5518233633562398118297189914178229187766122026479523735971303139790int * 5518233633562398118297189914178229187766122026479523735971303139790int) % (prime_224() as int)) by (nonlinear_arith);
    lemma_power_doubled(element_224(), prime_224() as int, 5518233633562398118297189914178229187766122026479523735971303139790int, 214386722545904926439678518204nat, 3478946835480714674032790632616593237437171707006078305000887315752int);
    assert(12271977223298329975262303730031115555891500337946236231169983093021int == (3478946835480714674032790632616593237437171707006078305000887315752int * 3478946835480714674032790632616593237437171707006078305000887315752int) % (prime_224() as int)) by (nonlinear_arith);
    lemma_power_doubled(element_224(), prime_224() as int, 3478946835480714674032790632616593237437171707006078305000887315752int, 428773445091809852879357036408nat, 12271977223298329975262303730031115555891500337946236231169983093021int);
    assert(12759310468557701059912043436156074912420857846842558072352565421181int == (12271977223298329975262303730031115555891500337946236231169983093021int * 12271977223298329975262303730031115555891500337946236231169983093021int) % (prime_224() as int)) by (nonlinear_arith);
    lemma_power_doubled(element_224(), prime_224() as int, 12271977223298329975262303730031115555891500337946236231169983093021int, 857546890183619705758714072816nat, 12759310468557701059912043436156074912420857846842558072352565421181int);
    assert(9234132140234419995929903195666867904143567048128990394213819674025int == (((12759310468557701059912043436156074912420857846842558072352565421181int * 12759310468557701059912043436156074912420857846842558072352565421181int) % (prime_224() as int)) * element_224()) % (
        prime_224() as int)) by (nonlinear_arith);
    lemma_power_doubled_plus_one(element_224(), prime_224() as int, 12759310468557701059912043436156074912420857846842558072352565421181int, 1715093780367239411517428145632nat, 9234132140234419995929903195666867904143567048128990394213819674025int);
    assert(1557152957120867293974736824107002654763993256314010224571375596636int == (((9234132140234419995929903195666867904143567048128990394213819674025int * 9234132140234419995929903195666867904143567048128990394213819674025int) % (prime_224() as int)) * element_224()) % (
        prime_224() as int)) by (nonlinear_arith);
    lemma_power_doubled_plus_one(element_224(), prime_224() as int, 9234132140234419995929903195666867904143567048128990394213819674025int, 3430187560734478823034856291265nat, 1557152957120867293974736824107002654763993256314010224571375596636int);
    assert(9589145178075409324895081409099404258957833719434577873053611516388int == (1557152957120867293974736824107002654763993256314010224571375596636int * 1557152957120867293974736824107002654763993256314010224571375596636int) % (prime_224() as int)) by (nonlinear_arith);
    lemma_power_doubled(element_224(), prime_224() as int, 1557152957120867293974736824107002654763993256314010224571375596636int, 6860375121468957646069712582531nat, 9589145178075409324895081409099404258957833719434577873053611516388int);
    assert(10677577159046009510032928878095311034700774926289131009022078230697int == (((9589145178075409324895081409099404258957833719434577873053611516388int * 9589145178075409324895081409099404258957833719434577873053611516388int) % (prime_224() as int)) * element_224()) % (
        prime_224() as int)) by (nonlinear_arith);
    lemma_power_doubled_plus_one(element_224(), prime_224() as int, 9589145178075409324895081409099404258957833719434577873053611516388int, 13720750242937915292139425165062nat, 10677577159046009510032928878095311034700774926289131009022078230697int);
    assert(3117109835102005944134577141200293218309017787709621417794721779455int == (((10677577159046009510032928878095311034700774926289131009022078230697int * 10677577159046009510032928878095311034700774926289131009022078230697int) % (prime_224() as int)) * element_224()) % (
        prime_224() as int)) by (nonlinear_arith);
    lemma_power_doubled_plus_one(element_224(), prime_224() as int, 10677577159046009510032928878095311034700774926289131009022078230697int, 27441500485875830584278850330125nat, 3117109835102005944134577141200293218309017787709621417794721779455int);
    assert(6260918719669789132465092247843241405727281859012982407492858537999int == (((3117109835102005944134577141200293218309017787709621417794721779455int * 3117109835102005944134577141200293218309017787709621417794721779455int) % (prime_224() as int)) * element_224()) % (
        prime_224() as int)) by (nonlinear_arith);
    lemma_power_doubled_plus_one(element_224(), prime_224() as int, 3117109835102005944134577141200293218309017787709621417794721779455int, 54883000971751661168557700660251nat, 6260918719669789132465092247843241405727281859012982407492858537999int);
    assert(5154596237422993081293745195952576024495334287490532227299646132738int == (6260918719669789132465092247843241405727281859012982407492858537999int * 6260918719669789132465092247843241405727281859012982407492858537999int) % (prime_224() as int)) by (nonlinear_arith);
    lemma_power_doubled(element_224(), prime_224() as int, 6260918719669789132465092247843241405727281859012982407492858537999int, 109766001943503322337115401320503nat, 5154596237422993081293745195952576024495334287490532227299646132738int);
    assert(13138105008024447141085987558962351266705018597614260832515190673344int == (5154596237422993081293745195952576024495334287490532227299646132738int * 5154596237422993081293745195952576024495334287490532227299646132738int) % (prime_224() as int)) by (nonlinear_arith);
    lemma_power_doubled(element_224(), prime_224() as int, 5154596237422993081293745195952576024495334287490532227299646132738int, 219532003887006644674230802641006nat, 13138105008024447141085987558962351266705018597614260832515190673344int);
    assert(4291923344410940937698317412002638901717071237446892485546535455182int == (13138105008024447141085987558962351266705018597614260832515190673344int * 13138105008024447141085987558962351266705018597614260832515190673344int) % (prime_224() as int)) by (nonlinear_arith);
    lemma_power_doubled(element_224(), prime_224() as int, 13138105008024447141085987558962351266705018597614260832515190673344int, 439064007774013289348461605282012nat, 4291923344410940937698317412002638901717071237446892485546535455182int);
    assert(9853779358404848781911468886789291165446139622538524688070179536659int == (4291923344410940937698317412002638901717071237446892485546535455182int * 4291923344410940937698317412002638901717071237446892485546535455182int) % (prime_224() as int)) by (nonlinear_arith);
    lemma_power_doubled(element_224(), prime_224() as int, 4291923344410940937698317412002638901717071237446892485546535455182int, 878128015548026578696923210564024nat, 9853779358404848781911468886789291165446139622538524688070179536659int);
    assert(11343995026118241176001678730383001137583763141337350908902211527334int == (9853779358404848781911468886789291165446139622538524688070179536659int * 9853779358404848781911468886789291165446139622538524688070179536659int) % (prime_224() as int)) by (nonlinear_arith);
    lemma_power_doubled(element_224(), prime_224() as int, 9853779358404848781911468886789291165446139622538524688070179536659int, 1756256031096053157393846421128048nat, 11343995026118241176001678730383001137583763141337350908902211527334int);
    assert(5655520014676948317998967578577464473088278013074306738399200863732int == (11343995026118241176001678730383001137583763141337350908902211527334int * 11343995026118241176001678730383001137583763141337350908902211527334int) % (prime_224() as int)) by (nonlinear_arith);
    lemma_power_doubled(element_224(), prime_224() as int, 11343995026118241176001678730383001137583763141337350908902211527334int, 3512512062192106314787692842256096nat, 5655520014676948317998967578577464473088278013074306738399200863732int);
    assert(12576520234923455375632547834946079593053153567190604915729105040146int == (5655520014676948317998967578577464473088278013074306738399200863732int * 5655520014676948317998967578577464473088278013074306738399200863732int) % (prime_224() as int)) by (nonlinear_arith);
    lemma_power_doubled(element_224(), prime_224() as int, 5655520014676948317998967578577464473088278013074306738399200863732int, 7025024124384212629575385684512192nat, 12576520234923455375632547834946079593053153567190604915729105040146int);
    assert(12299889722194432332477651840214397056764789754344467029151139348742int == (((12576520234923455375632547834946079593053153567190604915729105040146int * 12576520234923455375632547834946079593053153567190604915729105040146int) % (prime_224() as int)) * element_224()) % (
        prime_224() as int)) by (nonlinear_arith);
    lemma_power_doubled_plus_one(element_224(), prime_224() as int, 12576520234923455375632547834946079593053153567190604915729105040146int, 14050048248768425259150771369024384nat, 12299889722194432332477651840214397056764789754344467029151139348742int);
    assert(11668820270279806509865609521459999380140867613716253290217855979223int == (12299889722194432332477651840214397056764789754344467029151139348742int * 12299889722194432332477651840214397056764789754344467029151139348742int) % (prime_224() as int)) by (nonlinear_arith);
    lemma_power_doubled(element_224(), prime_224() as int, 12299889722194432332477651840214397056764789754344467029151139348742int, 28100096497536850518301542738048769nat, 11668820270279806509865609521459999380140867613716253290217855979223int);
    assert(658208518133997354131113431299320577986476936277756320550128583094int == (11668820270279806509865609521459999380140867613716253290217855979223int * 11668820270279806509865609521459999380140867613716253290217855979223int) % (prime_224() as int)) by (nonlinear_arith);
    lemma_power_doubled(element_224(), prime_224() as int, 11668820270279806509865609521459999380140867613716253290217855979223int, 56200192995073701036603085476097538nat, 658208518133997354131113431299320577986476936277756320550128583094int);
    assert(642135784353173621424221715960929794242287414465381119595427227442int == (((658208518133997354131113431299320577986476936277756320550128583094int * 658208518133997354131113431299320577986476936277756320550128583094int) % (prime_224() as int)) * element_224()) % (
        prime_224() as int)) by (nonlinear_arith);
    lemma_power_doubled_plus_one(element_224(), prime_224() as int, 658208518133997354131113431299320577986476936277756320550128583094int, 112400385990147402073206170952195076nat, 642135784353173621424221715960929794242287414465381119595427227442int);
    assert(5452110964946729737147319193162603513219327657022007944104572188198int == (642135784353173621424221715960929794242287414465381119595427227442int * 642135784353173621424221715960929794242287414465381119595427227442int) % (prime_224() as int)) by (nonlinear_arith);
    lemma_power_doubled(element_224(), prime_224() as int, 642135784353173621424221715960929794242287414465381119595427227442int, 224800771980294804146412341904390153nat, 5452110964946729737147319193162603513219327657022007944104572188198int);
    assert(3742483651357479102255135024567235547377183992491814693595569420043int == (((5452110964946729737147319193162603513219327657022007944104572188198int * 5452110964946729737147319193162603513219327657022007944104572188198int) % (prime_224() as int)) * element_224()) % (
        prime_224() as int)) by (nonlinear_arith);
    lemma_power_doubled_plus_one(element_224(), prime_224() as int, 5452110964946729737147319193162603513219327657022007944104572188198int, 449601543960589608292824683808780306nat, 3742483651357479102255135024567235547377183992491814693595569420043int);
    assert(8584748171198681166887915719259042490125856964886854776110764855403int == (((3742483651357479102255135024567235547377183992491814693595569420043int * 3742483651357479102255135024567235547377183992491814693595569420043int) % (prime_224() as int)) * element_224()) % (
        prime_224() as int)) by (nonlinear_arith);
    lemma_power_doubled_plus_one(element_224(), prime_224() as int, 3742483651357479102255135024567235547377183992491814693595569420043int, 899203087921179216585649367617560613nat, 8584748171198681166887915719259042490125856964886854776110764855403int);
    assert(6651200540163920940894094278916731464523794151214680084820914752396int == (8584748171198681166887915719259042490125856964886854776110764855403int * 8584748171198681166887915719259042490125856964886854776110764855403int) % (prime_224() as int)) by (nonlinear_arith);
    lemma_power_doubled(element_224(), prime_224() as int, 8584748171198681166887915719259042490125856964886854776110764855403int, 1798406175842358433171298735235121227nat, 6651200540163920940894094278916731464523794151214680084820914752396int);
    assert(12092539151818587562918027410755003128641572811213178886653781672348int == (6651200540163920940894094278916731464523794151214680084820914752396int * 6651200540163920940894094278916731464523794151214680084820914752396int) % (prime_224() as int)) by (nonlinear_arith);
    lemma_power_doubled(element_224(), prime_224() as int, 6651200540163920940894094278916731464523794151214680084820914752396int, 3596812351684716866342597470470242454nat, 12092539151818587562918027410755003128641572811213178886653781672348int);
    assert(8637624249589449094915821548788223128128907976551307063665857637259int == (((12092539151818587562918027410755003128641572811213178886653781672348int * 12092539151818587562918027410755003128641572811213178886653781672348int) % (prime_224() as int)) * element_224()) % (
        prime_224() as int)) by (nonlinear_arith);
    lemma_power_doubled_plus_one(element_224(), prime_224() as int, 12092539151818587562918027410755003128641572811213178886653781672348int, 7193624703369433732685194940940484908nat, 8637624249589449094915821548788223128128907976551307063665857637259int);
    assert(7872233143514495246499824634796962425336484765093094809738198666888int == (8637624249589449094915821548788223128128907976551307063665857637259int * 8637624249589449094915821548788223128128907976551307063665857637259int) % (prime_224() as int)) by (nonlinear_arith);
    lemma_power_doubled(element_224(), prime_224() as int, 8637624249589449094915821548788223128128907976551307063665857637259int, 14387249406738867465370389881880969817nat, 7872233143514495246499824634796962425336484765093094809738198666888int);
    assert(7244140116700091360376456428379812848966359542455994681425687818908int == (((7872233143514495246499824634796962425336484765093094809738198666888int * 7872233143514495246499824634796962425336484765093094809738198666888int) % (prime_224() as int)) * element_224()) % (
        prime_224() as int)) by (nonlinear_arith);
    lemma_power_doubled_plus_one(element_224(), prime_224() as int, 7872233143514495246499824634796962425336484765093094809738198666888int, 28774498813477734930740779763761939634nat, 7244140116700091360376456428379812848966359542455994681425687818908int);
    assert(1970145273808028464926384432101361678916333861261365711184556499692int == (((7244140116700091360376456428379812848966359542455994681425687818908int * 7244140116700091360376456428379812848966359542455994681425687818908int) % (prime_224() as int)) * element_224()) % (
        prime_224() as int)) by (nonlinear_arith);
    lemma_power_doubled_plus_one(element_224(), prime_224() as int, 7244140116700091360376456428379812848966359542455994681425687818908int, 57548997626955469861481559527523879269nat, 1970145273808028464926384432101361678916333861261365711184556499692int);
    assert(2633911932553735580987048026963738799014400064642952650176516674176int == (1970145273808028464926384432101361678916333861261365711184556499692int * 1970145273808028464926384432101361678916333861261365711184556499692int) % (prime_224() as int)) by (nonlinear_arith);
    lemma_power_doubled(element_224(), prime_224() as int, 1970145273808028464926384432101361678916333861261365711184556499692int, 115097995253910939722963119055047758539nat, 2633911932553735580987048026963738799014400064642952650176516674176int);
}

/// The power of `element_224` to the leading 160 bits of `prime_183`.
proof fn lemma_power_224_160()
    ensures
        pow_mod(element_224(), 988684250901421404413507793111169093289040283013nat, prime_224() as int) == 12856826626419589434452390909970083847737630093469712239420847274828int,
{
    lemma_power_224_128();
    assert(3851345526050225205626018817619231213467325672532276409421514312420int == (((2633911932553735580987048026963738799014400064642952650176516674176int * 2633911932553735580987048026963738799014400064642952650176516674176int) % (prime_224() as int)) * element_224()) % (
        prime_224() as int)) by (nonlinear_arith);
    lemma_power_doubled_plus_one(element_224(), prime_224() as int, 2633911932553735580987048026963738799014400064642952650176516674176int, 230195990507821879445926238110095517078nat, 3851345526050225205626018817619231213467325672532276409421514312420int);
    assert(1683924901542120091410501002601331986087162559423461410820635443118int == (3851345526050225205626018817619231213467325672532276409421514312420int * 3851345526050225205626018817619231213467325672532276409421514312420int) % (prime_224() as int)) by (nonlinear_arith);
    lemma_power_doubled(element_224(), prime_224() as int, 3851345526050225205626018817619231213467325672532276409421514312420int, 460391981015643758891852476220191034157nat, 1683924901542120091410501002601331986087162559423461410820635443118int);
    assert(4909626298396241905472858793596507244429231759436110314490799538305int == (((1683924901542120091410501002601331986087162559423461410820635443118int * 1683924901542120091410501002601331986087162559423461410820635443118int) % (prime_224() as int)) * element_224()) % (
        prime_224() as int)) by (nonlinear_arith);
    lemma_power_doubled_plus_one(element_224(), prime_224() as int, 1683924901542120091410501002601331986087162559423461410820635443118int, 920783962031287517783704952440382068314nat, 4909626298396241905472858793596507244429231759436110314490799538305int);
    assert(1364024629912222337792193530865766918484331498467117937555477735590int == (4909626298396241905472858793596507244429231759436110314490799538305int * 4909626298396241905472858793596507244429231759436110314490799538305int) % (prime_224() as int)) by (nonlinear_arith);
    lemma_power_doubled(element_224(), prime_224() as int, 4909626298396241905472858793596507244429231759436110314490799538305int, 1841567924062575035567409904880764136629nat, 1364024629912222337792193530865766918484331498467117937555477735590int);
    assert(10053634149117451758488466279066065186148190484633052364758733498373int == (((1364024629912222337792193530865766918484331498467117937555477735590int * 1364024629912222337792193530865766918484331498467117937555477735590int) % (prime_224() as int)) * element_224()) % (
        prime_224() as int)) by (nonlinear_arith);
    lemma_power_doubled_plus_one(element_224(), prime_224() as int, 1364024629912222337792193530865766918484331498467117937555477735590int, 3683135848125150071134819809761528273258nat, 10053634149117451758488466279066065186148190484633052364758733498373int);
    assert(7215751998236748864044929057964176524317750559053610682967216206837int == (10053634149117451758488466279066065186148190484633052364758733498373int * 10053634149117451758488466279066065186148190484633052364758733498373int) % (prime_224() as int)) by (nonlinear_arith);
    lemma_power_doubled(element_224(), prime_224() as int, 10053634149117451758488466279066065186148190484633052364758733498373int, 7366271696250300142269639619523056546517nat, 7215751998236748864044929057964176524317750559053610682967216206837int);
    assert(7360380152358539049147761884603026312791883338329261732599474307732int == (7215751998236748864044929057964176524317750559053610682967216206837int * 7215751998236748864044929057964176524317750559053610682967216206837int) % (prime_224() as int)) by (nonlinear_arith);
    lemma_power_doubled(element_224(), prime_224() as int, 7215751998236748864044929057964176524317750559053610682967216206837int, 14732543392500600284539279239046113093034nat, 7360380152358539049147761884603026312791883338329261732599474307732int);
    assert(12052837547854405771017509218330346536334698652156122925907161141855int == (7360380152358539049147761884603026312791883338329261732599474307732int * 7360380152358539049147761884603026312791883338329261732599474307732int) % (prime_224() as int)) by (nonlinear_arith);
    lemma_power_doubled(element_224(), prime_224() as int, 7360380152358539049147761884603026312791883338329261732599474307732int, 29465086785001200569078558478092226186068nat, 12052837547854405771017509218330346536334698652156122925907161141855int);
    assert(7387882582424968621834589189692557630065673921862787255940608378567int == (12052837547854405771017509218330346536334698652156122925907161141855int * 12052837547854405771017509218330346536334698652156122925907161141855int) % (prime_224() as int)) by (nonlinear_arith);
    lemma_power_doubled(element_224(), prime_224() as int, 12052837547854405771017509218330346536334698652156122925907161141855int, 58930173570002401138157116956184452372136nat, 7387882582424968621834589189692557630065673921862787255940608378567int);
    assert(2378783350944964473609124393121596845345935360114330900962791092604int == (7387882582424968621834589189692557630065673921862787255940608378567int * 7387882582424968621834589189692557630065673921862787255940608378567int) % (prime_224() as int)) by (nonlinear_arith);
    lemma_power_doubled(element_224(), prime_224() as int, 7387882582424968621834589189692557630065673921862787255940608378567int, 117860347140004802276314233912368904744272nat, 2378783350944964473609124393121596845345935360114330900962791092604int);
    assert(1660925179427839282319955889207906460182576499211549482546815544291int == (((2378783350944964473609124393121596845345935360114330900962791092604int * 2378783350944964473609124393121596845345935360114330900962791092604int) % (prime_224() as int)) * element_224()) % (
        prime_224() as int)) by (nonlinear_arith);
    lemma_power_doubled_plus_one(element_224(), prime_224() as int, 2378783350944964473609124393121596845345935360114330900962791092604int, 235720694280009604552628467824737809488544nat, 1660925179427839282319955889207906460182576499211549482546815544291int);
    assert(9625661675247959545578244487739934967251313164843018579814483808175int == (1660925179427839282319955889207906460182576499211549482546815544291int * 1660925179427839282319955889207906460182576499211549482546815544291int) % (prime_224() as int)) by (nonlinear_arith);
    lemma_power_doubled(element_224(), prime_224() as int, 1660925179427839282319955889207906460182576499211549482546815544291int, 471441388560019209105256935649475618977089nat, 9625661675247959545578244487739934967251313164843018579814483808175int);
    assert(6733621503027475364480240580304936367257277381867514752074341155541int == (9625661675247959545578244487739934967251313164843018579814483808175int * 9625661675247959545578244487739934967251313164843018579814483808175int) % (prime_224() as int)) by (nonlinear_arith);
    lemma_power_doubled(element_224(), prime_224() as int, 9625661675247959545578244487739934967251313164843018579814483808175int, 942882777120038418210513871298951237954178nat, 6733621503027475364480240580304936367257277381867514752074341155541int);
    assert(4815590897764096784450454377849122791611135465227981069782654621509int == (6733621503027475364480240580304936367257277381867514752074341155541int * 6733621503027475364480240580304936367257277381867514752074341155541int) % (prime_224() as int)) by (nonlinear_arith);
    lemma_power_doubled(element_224(), prime_224() as int, 6733621503027475364480240580304936367257277381867514752074341155541int, 1885765554240076836421027742597902475908356nat, 4815590897764096784450454377849122791611135465227981069782654621509int);
    assert(539937931589488311339086009541238422010880103939233587680614603706int == (((4815590897764096784450454377849122791611135465227981069782654621509int * 4815590897764096784450454377849122791611135465227981069782654621509int) % (prime_224() as int)) * element_224()) % (
        prime_224() as int)) by (nonlinear_arith);
    lemma_power_doubled_plus_one(element_224(), prime_224() as int, 4815590897764096784450454377849122791611135465227981069782654621509int, 3771531108480153672842055485195804951816712nat, 539937931589488311339086009541238422010880103939233587680614603706int);
    assert(3172332320362601057530021106509815238760582202978740664869327858434int == (539937931589488311339086009541238422010880103939233587680614603706int * 539937931589488311339086009541238422010880103939233587680614603706int) % (prime_224() as int)) by (nonlinear_arith);
    lemma_power_doubled(element_224(), prime_224() as int, 539937931589488311339086009541238422010880103939233587680614603706int, 7543062216960307345684110970391609903633425nat, 3172332320362601057530021106509815238760582202978740664869327858434int);
    assert(4998960400541625666517010466082900016232859917083952821471561128932int == (3172332320362601057530021106509815238760582202978740664869327858434int * 3172332320362601057530021106509815238760582202978740664869327858434int) % (prime_224() as int)) by (nonlinear_arith);
    lemma_power_doubled(element_224(), prime_224() as int, 3172332320362601057530021106509815238760582202978740664869327858434int, 15086124433920614691368221940783219807266850nat, 4998960400541625666517010466082900016232859917083952821471561128932int);
    assert(4061250240804247314852253600970737399489764020932877037811673951216int == (4998960400541625666517010466082900016232859917083952821471561128932int * 4998960400541625666517010466082900016232859917083952821471561128932int) % (prime_224() as int)) by (nonlinear_arith);
    lemma_power_doubled(element_224(), prime_224() as int, 4998960400541625666517010466082900016232859917083952821471561128932int, 30172248867841229382736443881566439614533700nat, 4061250240804247314852253600970737399489764020932877037811673951216int);
    assert(2526342291876398631804678954926295889445628371198639752811242375333int == (4061250240804247314852253600970737399489764020932877037811673951216int * 4061250240804247314852253600970737399489764020932877037811673951216int) % (prime_224() as int)) by (nonlinear_arith);
    lemma_power_doubled(element_224(), prime_224() as int, 4061250240804247314852253600970737399489764020932877037811673951216int, 60344497735682458765472887763132879229067400nat, 2526342291876398631804678954926295889445628371198639752811242375333int);
    assert(11372606938956124763277344834760642266512294199438267159336496657700int == (2526342291876398631804678954926295889445628371198639752811242375333int * 2526342291876398631804678954926295889445628371198639752811242375333int) % (prime_224() as int)) by (nonlinear_arith);
    lemma_power_doubled(element_224(), prime_224() as int, 2526342291876398631804678954926295889445628371198639752811242375333int, 120688995471364917530945775526265758458134800nat, 11372606938956124763277344834760642266512294199438267159336496657700int);
    assert(1081682531613438848668387214325969391416745552637455027544998801993int == (11372606938956124763277344834760642266512294199438267159336496657700int * 11372606938956124763277344834760642266512294199438267159336496657700int) % (prime_224() as int)) by (nonlinear_arith);
    lemma_power_doubled(element_224(), prime_224() as int, 11372606938956124763277344834760642266512294199438267159336496657700int, 241377990942729835061891551052531516916269600nat, 1081682531613438848668387214325969391416745552637455027544998801993int);
    assert(9302685694241895200550914163069267952119299719403133114791704406380int == (((1081682531613438848668387214325969391416745552637455027544998801993int * 1081682531613438848668387214325969391416745552637455027544998801993int) % (prime_224() as int)) * element_224()) % (
        prime_224() as int)) by (nonlinear_arith);
    lemma_power_doubled_plus_one(element_224(), prime_224() as int, 1081682531613438848668387214325969391416745552637455027544998801993int, 482755981885459670123783102105063033832539200nat, 9302685694241895200550914163069267952119299719403133114791704406380int);
    assert(10816305044357657163811560339331779429286718842206744638243914123901int == (9302685694241895200550914163069267952119299719403133114791704406380int * 9302685694241895200550914163069267952119299719403133114791704406380int) % (prime_224() as int)) by (nonlinear_arith);
    lemma_power_doubled(element_224(), prime_224() as int, 9302685694241895200550914163069267952119299719403133114791704406380int, 965511963770919340247566204210126067665078401nat, 10816305044357657163811560339331779429286718842206744638243914123901int);
    assert(11892085806910536012268481553566516254211239361315007890894749154310int == (((10816305044357657163811560339331779429286718842206744638243914123901int * 10816305044357657163811560339331779429286718842206744638243914123901int) % (prime_224() as int)) * element_224()) % (
        prime_224() as int)) by (nonlinear_arith);
    lemma_power_doubled_plus_one(element_224(), prime_224() as int, 10816305044357657163811560339331779429286718842206744638243914123901int, 1931023927541838680495132408420252135330156802nat, 11892085806910536012268481553566516254211239361315007890894749154310int);
    assert(7285059376106470954610669242976875002422834515047918107339477713667int == (((11892085806910536012268481553566516254211239361315007890894749154310int * 11892085806910536012268481553566516254211239361315007890894749154310int) % (prime_224() as int)) * element_224()) % (
        prime_224() as int)) by (nonlinear_arith);
    lemma_power_doubled_plus_one(element_224(), prime_224() as int, 11892085806910536012268481553566516254211239361315007890894749154310int, 3862047855083677360990264816840504270660313605nat, 7285059376106470954610669242976875002422834515047918107339477713667int);
    assert(5989724633979262719718467734403551709125049828516068282673245724522int == (7285059376106470954610669242976875002422834515047918107339477713667int * 7285059376106470954610669242976875002422834515047918107339477713667int) % (prime_224() as int)) by (nonlinear_arith);
    lemma_power_doubled(element_224(), prime_224() as int, 7285059376106470954610669242976875002422834515047918107339477713667int, 7724095710167354721980529633681008541320627211nat, 5989724633979262719718467734403551709125049828516068282673245724522int);
    assert(1690956085454767471548246136242936928656315496877324180670365515833int == (5989724633979262719718467734403551709125049828516068282673245724522int * 5989724633979262719718467734403551709125049828516068282673245724522int) % (prime_224() as int)) by (nonlinear_arith);
    lemma_power_doubled(element_224(), prime_224() as int, 5989724633979262719718467734403551709125049828516068282673245724522int, 15448191420334709443961059267362017082641254422nat, 1690956085454767471548246136242936928656315496877324180670365515833int);
    assert(7645063065228229772928840510721460245418064081429837215919403513916int == (1690956085454767471548246136242936928656315496877324180670365515833int * 1690956085454767471548246136242936928656315496877324180670365515833int) % (prime_224() as int)) by (nonlinear_arith);
    lemma_power_doubled(element_224(), prime_224() as int, 1690956085454767471548246136242936928656315496877324180670365515833int, 30896382840669418887922118534724034165282508844nat, 7645063065228229772928840510721460245418064081429837215919403513916int);
    assert(6223364406198162719460553573039027597012349322796279780564191758869int == (7645063065228229772928840510721460245418064081429837215919403513916int * 7645063065228229772928840510721460245418064081429837215919403513916int) % (prime_224() as int)) by (nonlinear_arith);
    lemma_power_doubled(element_224(), prime_224() as int, 7645063065228229772928840510721460245418064081429837215919403513916int, 61792765681338837775844237069448068330565017688nat, 6223364406198162719460553573039027597012349322796279780564191758869int);
    assert(5225530834838341750612552426601084139755513201325105287628684566306int == (((6223364406198162719460553573039027597012349322796279780564191758869int * 6223364406198162719460553573039027597012349322796279780564191758869int) % (prime_224() as int)) * element_224()) % (
        prime_224() as int)) by (nonlinear_arith);
    lemma_power_doubled_plus_one(element_224(), prime_224() as int, 6223364406198162719460553573039027597012349322796279780564191758869int, 123585531362677675551688474138896136661130035376nat, 5225530834838341750612552426601084139755513201325105287628684566306int);
    assert(2739089828159155462593877545602865543216615971377729221748854507801int == (5225530834838341750612552426601084139755513201325105287628684566306int * 5225530834838341750612552426601084139755513201325105287628684566306int) % (prime_224() as int)) by (nonlinear_arith);
    lemma_power_doubled(element_224(), prime_224() as int, 5225530834838341750612552426601084139755513201325105287628684566306int, 247171062725355351103376948277792273322260070753nat, 2739089828159155462593877545602865543216615971377729221748854507801int);
    assert(12856826626419589434452390909970083847737630093469712239420847274828int == (((2739089828159155462593877545602865543216615971377729221748854507801int * 2739089828159155462593877545602865543216615971377729221748854507801int) % (prime_224() as int)) * element_224()) % (
        prime_224() as int)) by (nonlinear_arith);
    lemma_power_doubled_plus_one(element_224(), prime_224() as int, 2739089828159155462593877545602865543216615971377729221748854507801int, 494342125450710702206753896555584546644520141506nat, 12856826626419589434452390909970083847737630093469712239420847274828int);
}

/// The power of `element_224` to `prime_183`.
proof fn lemma_power_224()
    ensures
        pow_mod(element_224(), 8293684616585670804434386781354697945317189630405882251nat, prime_224() as int) == 1int,
{
    lemma_power_224_160();
    assert(2994901878735724617890566109986147812958816248484956714349341325733int == (12856826626419589434452390909970083847737630093469712239420847274828int * 12856826626419589434452390909970083847737630093469712239420847274828int) % (prime_224() as int)) by (nonlinear_arith);
    lemma_power_doubled(element_224(), prime_224() as int, 12856826626419589434452390909970083847737630093469712239420847274828int, 988684250901421404413507793111169093289040283013nat, 2994901878735724617890566109986147812958816248484956714349341325733int);
    assert(9424914066097427562603916834840001318565575907930560479047896541529int == (2994901878735724617890566109986147812958816248484956714349341325733int * 2994901878735724617890566109986147812958816248484956714349341325733int) % (prime_224() as int)) by (nonlinear_arith);
    lemma_power_doubled(element_224(), prime_224() as int, 2994901878735724617890566109986147812958816248484956714349341325733int, 1977368501802842808827015586222338186578080566026nat, 9424914066097427562603916834840001318565575907930560479047896541529int);
    assert(4322422637827786021128034324148483142131217104430461872017890328701int == (9424914066097427562603916834840001318565575907930560479047896541529int * 9424914066097427562603916834840001318565575907930560479047896541529int) % (prime_224() as int)) by (nonlinear_arith);
    lemma_power_doubled(element_224(), prime_224() as int, 9424914066097427562603916834840001318565575907930560479047896541529int, 3954737003605685617654031172444676373156161132052nat, 4322422637827786021128034324148483142131217104430461872017890328701int);
    assert(135206988833221043394054082647623356994274644222776701736523287032int == (((4322422637827786021128034324148483142131217104430461872017890328701int * 4322422637827786021128034324148483142131217104430461872017890328701int) % (prime_224() as int)) * element_224()) % (
        prime_224() as int)) by (nonlinear_arith);
    lemma_power_doubled_plus_one(element_224(), prime_224() as int, 4322422637827786021128034324148483142131217104430461872017890328701int, 7909474007211371235308062344889352746312322264104nat, 135206988833221043394054082647623356994274644222776701736523287032int);
    assert(12697443666925494140380647556574098534543986604039055046160069052401int == (135206988833221043394054082647623356994274644222776701736523287032int * 135206988833221043394054082647623356994274644222776701736523287032int) % (prime_224() as int)) by (nonlinear_arith);
    lemma_power_doubled(element_224(), prime_224() as int, 135206988833221043394054082647623356994274644222776701736523287032int, 15818948014422742470616124689778705492624644528209nat, 12697443666925494140380647556574098534543986604039055046160069052401int);
    assert(7560596521719763659493027334714189126957586014181390840214902355504int == (((12697443666925494140380647556574098534543986604039055046160069052401int * 12697443666925494140380647556574098534543986604039055046160069052401int) % (prime_224() as int)) * element_224()) % (
        prime_224() as int)) by (nonlinear_arith);
    lemma_power_doubled_plus_one(element_224(), prime_224() as int, 12697443666925494140380647556574098534543986604039055046160069052401int, 31637896028845484941232249379557410985249289056418nat, 7560596521719763659493027334714189126957586014181390840214902355504int);
    assert(3859335849651299782719374941786399724040830958766089531734332107795int == (((7560596521719763659493027334714189126957586014181390840214902355504int * 7560596521719763659493027334714189126957586014181390840214902355504int) % (prime_224() as int)) * element_224()) % (
        prime_224() as int)) by (nonlinear_arith);
    lemma_power_doubled_plus_one(element_224(), prime_224() as int, 7560596521719763659493027334714189126957586014181390840214902355504int, 63275792057690969882464498759114821970498578112837nat, 3859335849651299782719374941786399724040830958766089531734332107795int);
    assert(7163343100388169192895548519925517515939091991256305160697749725218int == (((3859335849651299782719374941786399724040830958766089531734332107795int * 3859335849651299782719374941786399724040830958766089531734332107795int) % (prime_224() as int)) * element_224()) % (
        prime_224() as int)) by (nonlinear_arith);
    lemma_power_doubled_plus_one(element_224(), prime_224() as int, 3859335849651299782719374941786399724040830958766089531734332107795int, 126551584115381939764928997518229643940997156225675nat, 7163343100388169192895548519925517515939091991256305160697749725218int);
    assert(6685174623086867289520404507054115580657779972910081847090512733120int == (7163343100388169192895548519925517515939091991256305160697749725218int * 7163343100388169192895548519925517515939091991256305160697749725218int) % (prime_224() as int)) by (nonlinear_arith);
    lemma_power_doubled(element_224(), prime_224() as int, 7163343100388169192895548519925517515939091991256305160697749725218int, 253103168230763879529857995036459287881994312451351nat, 6685174623086867289520404507054115580657779972910081847090512733120int);
    assert(11577392175173185317557114273784955311210959259722190356540568987689int == (((6685174623086867289520404507054115580657779972910081847090512733120int * 6685174623086867289520404507054115580657779972910081847090512733120int) % (prime_224() as int)) * element_224()) % (
        prime_224() as int)) by (nonlinear_arith);
    lemma_power_doubled_plus_one(element_224(), prime_224() as int, 6685174623086867289520404507054115580657779972910081847090512733120int, 506206336461527759059715990072918575763988624902702nat, 11577392175173185317557114273784955311210959259722190356540568987689int);
    assert(3655261071671236614453605005725009558619320337642293499227629706258int == (((11577392175173185317557114273784955311210959259722190356540568987689int * 11577392175173185317557114273784955311210959259722190356540568987689int) % (prime_224() as int)) * element_224()) % (
        prime_224() as int)) by (nonlinear_arith);
    lemma_power_doubled_plus_one(element_224(), prime_224() as int, 11577392175173185317557114273784955311210959259722190356540568987689int, 1012412672923055518119431980145837151527977249805405nat, 3655261071671236614453605005725009558619320337642293499227629706258int);
    assert(1570246815098021490692867263315625448418931066596475896854880865817int == (3655261071671236614453605005725009558619320337642293499227629706258int * 3655261071671236614453605005725009558619320337642293499227629706258int) % (prime_224() as int)) by (nonlinear_arith);
    lemma_power_doubled(element_224(), prime_224() as int, 3655261071671236614453605005725009558619320337642293499227629706258int, 2024825345846111036238863960291674303055954499610811nat, 1570246815098021490692867263315625448418931066596475896854880865817int);
    assert(4400688488546015365258782385518249490559038690042502154638818096485int == (1570246815098021490692867263315625448418931066596475896854880865817int * 1570246815098021490692867263315625448418931066596475896854880865817int) % (prime_224() as int)) by (nonlinear_arith);
    lemma_power_doubled(element_224(), prime_224() as int, 1570246815098021490692867263315625448418931066596475896854880865817int, 4049650691692222072477727920583348606111908999221622nat, 4400688488546015365258782385518249490559038690042502154638818096485int);
    assert(10427773135689139738385732446337830451979240258402711158454521509797int == (4400688488546015365258782385518249490559038690042502154638818096485int * 4400688488546015365258782385518249490559038690042502154638818096485int) % (prime_224() as int)) by (nonlinear_arith);
    lemma_power_doubled(element_224(), prime_224() as int, 4400688488546015365258782385518249490559038690042502154638818096485int, 8099301383384444144955455841166697212223817998443244nat, 10427773135689139738385732446337830451979240258402711158454521509797int);
    assert(1871637578189330550928622153624180933522132142191937588698442344723int == (((10427773135689139738385732446337830451979240258402711158454521509797int * 10427773135689139738385732446337830451979240258402711158454521509797int) % (prime_224() as int)) * element_224()) % (
        prime_224() as int)) by (nonlinear_arith);
    lemma_power_doubled_plus_one(element_224(), prime_224() as int, 10427773135689139738385732446337830451979240258402711158454521509797int, 16198602766768888289910911682333394424447635996886488nat, 1871637578189330550928622153624180933522132142191937588698442344723int);
    assert(13451836104217556595113279561232412493414946577926500451926947941200int == (((1871637578189330550928622153624180933522132142191937588698442344723int * 1871637578189330550928622153624180933522132142191937588698442344723int) % (prime_224() as int)) * element_224()) % (
        prime_224() as int)) by (nonlinear_arith);
    lemma_power_doubled_plus_one(element_224(), prime_224() as int, 1871637578189330550928622153624180933522132142191937588698442344723int, 32397205533537776579821823364666788848895271993772977nat, 13451836104217556595113279561232412493414946577926500451926947941200int);
    assert(5391015085724182968460027472262873223960845760206577841311185324311int == (13451836104217556595113279561232412493414946577926500451926947941200int * 13451836104217556595113279561232412493414946577926500451926947941200int) % (prime_224() as int)) by (nonlinear_arith);
    lemma_power_doubled(element_224(), prime_224() as int, 13451836104217556595113279561232412493414946577926500451926947941200int, 64794411067075553159643646729333577697790543987545955nat, 5391015085724182968460027472262873223960845760206577841311185324311int);
    assert(926427261056136199506124144386423664163592438078584625053612484220int == (5391015085724182968460027472262873223960845760206577841311185324311int * 5391015085724182968460027472262873223960845760206577841311185324311int) % (prime_224() as int)) by (nonlinear_arith);
    lemma_power_doubled(element_224(), prime_224() as int, 5391015085724182968460027472262873223960845760206577841311185324311int, 129588822134151106319287293458667155395581087975091910nat, 926427261056136199506124144386423664163592438078584625053612484220int);
    assert(5678050947701777999153464847697108929746311763613210425685917850165int == (926427261056136199506124144386423664163592438078584625053612484220int * 926427261056136199506124144386423664163592438078584625053612484220int) % (prime_224() as int)) by (nonlinear_arith);
    lemma_power_doubled(element_224(), prime_224() as int, 926427261056136199506124144386423664163592438078584625053612484220int, 259177644268302212638574586917334310791162175950183820nat, 5678050947701777999153464847697108929746311763613210425685917850165int);
    assert(8961770026940729337954619106861476185142292435918525593372252280647int == (((5678050947701777999153464847697108929746311763613210425685917850165int * 5678050947701777999153464847697108929746311763613210425685917850165int) % (prime_224() as int)) * element_224()) % (
        prime_224() as int)) by (nonlinear_arith);
    lemma_power_doubled_plus_one(element_224(), prime_224() as int, 5678050947701777999153464847697108929746311763613210425685917850165int, 518355288536604425277149173834668621582324351900367640nat, 8961770026940729337954619106861476185142292435918525593372252280647int);
    assert(5832299058704173117787679062083950624474514494095497293395874618881int == (8961770026940729337954619106861476185142292435918525593372252280647int * 8961770026940729337954619106861476185142292435918525593372252280647int) % (prime_224() as int)) by (nonlinear_arith);
    lemma_power_doubled(element_224(), prime_224() as int, 8961770026940729337954619106861476185142292435918525593372252280647int, 1036710577073208850554298347669337243164648703800735281nat, 5832299058704173117787679062083950624474514494095497293395874618881int);
    assert(7026290047991779550201599688721370122892438641917698475227838305506int == (((5832299058704173117787679062083950624474514494095497293395874618881int * 5832299058704173117787679062083950624474514494095497293395874618881int) % (prime_224() as int)) * element_224()) % (
        prime_224() as int)) by (nonlinear_arith);
    lemma_power_doubled_plus_one(element_224(), prime_224() as int, 5832299058704173117787679062083950624474514494095497293395874618881int, 2073421154146417701108596695338674486329297407601470562nat, 7026290047991779550201599688721370122892438641917698475227838305506int);
    assert(1int == (((7026290047991779550201599688721370122892438641917698475227838305506int * 7026290047991779550201599688721370122892438641917698475227838305506int) % (prime_224() as int)) * element_224()) % (
        prime_224() as int)) by (nonlinear_arith);
    lemma_power_doubled_plus_one(element_224(), prime_224() as int, 7026290047991779550201599688721370122892438641917698475227838305506int, 4146842308292835402217193390677348972658594815202941125nat, 1int);
}

/// `prime_224` is prime.
pub proof fn lemma_prime_224()
    ensures
        is_prime(prime_224()),
{
    lemma_prime_183();
    lemma_power_224();
    assert(prime_183() * prime_183() > prime_224()) by (nonlinear_arith);
    assert(2550191329669199647995028451876274728010194299249557632487919523853int * (element_224() - 1) + -1894086539117622497107971925830674501497077781259444416141366264658int * prime_224() == 1) by (nonlinear_arith);
    lemma_prime_by_order(
        prime_224(),
        prime_183(),
        element_224(),
        2550191329669199647995028451876274728010194299249557632487919523853int,
        -1894086539117622497107971925830674501497077781259444416141366264658int,
    );
}

/// An element of order `prime_224` modulo the modulus.
spec fn element_modulus() -> int {
    1232029585158313805656996752298493835778680405018416475025336172164694344498105709663758403288950549275883985349159int
}

/// The power of `element_modulus` to the leading 32 bits of `prime_224`.
proof fn lemma_power_modulus_32()
    ensures
        pow_mod(element_modulus(), 2148861786nat, modulus() as int) == 645231857691061094643705535296533655515742253801649756140228257267339106621229828469866345123493564960011285648530int,
{
    lemma_power_zero(element_modulus(), modulus() as int);
    assert(1232029585158313805656996752298493835778680405018416475025336172164694344498105709663758403288950549275883985349159int == (((1int * 1int) % (modulus() as int)) * element_modulus()) % (
        modulus() as int)) by (nonlinear_arith);
    lemma_power_doubled_plus_one(element_modulus(), modulus() as int, 1int, 0nat, 1232029585158313805656996752298493835778680405018416475025336172164694344498105709663758403288950549275883985349159int);
    assert(2151694563585445547220797904030135480617354609484875720788782812734820158481889956174219452677242766146414538286029int == (1232029585158313805656996752298493835778680405018416475025336172164694344498105709663758403288950549275883985349159int * 1232029585158313805656996752298493835778680405018416475025336172164694344498105709663758403288950549275883985349159int) % (modulus() as int)) by (nonlinear_arith);
    lemma_power_doubled(element_modulus(), modulus() as int, 1232029585158313805656996752298493835778680405018416475025336172164694344498105709663758403288950549275883985349159int, 1nat, 2151694563585445547220797904030135480617354609484875720788782812734820158481889956174219452677242766146414538286029int);
    assert(443728785354759019238891865449828927033444067504262736097248951555311001075310743079613333349048358235259765846509int == (2151694563585445547220797904030135480617354609484875720788782812734820158481889956174219452677242766146414538286029int * 2151694563585445547220797904030135480617354609484875720788782812734820158481889956174219452677242766146414538286029int) % (modulus() as int)) by (nonlinear_arith);
    lemma_power_doubled(element_modulus(), modulus() as int, 2151694563585445547220797904030135480617354609484875720788782812734820158481889956174219452677242766146414538286029int, 2nat, 443728785354759019238891865449828927033444067504262736097248951555311001075310743079613333349048358235259765846509int);
    assert(4017602361038593222649005884527336112233976975046237607570695431592573723089123161025983265585931131014767092628265int == (443728785354759019238891865449828927033444067504262736097248951555311001075310743079613333349048358235259765846509int * 443728785354759019238891865449828927033444067504262736097248951555311001075310743079613333349048358235259765846509int) % (modulus() as int)) by (nonlinear_arith);
    lemma_power_doubled(element_modulus(), modulus() as int, 443728785354759019238891865449828927033444067504262736097248951555311001075310743079613333349048358235259765846509int, 4nat, 4017602361038593222649005884527336112233976975046237607570695431592573723089123161025983265585931131014767092628265int);
    assert(1139474887068041084752074437455099047925731452515918961376829484472358890400521851045770706779750201621647649091597int == (4017602361038593222649005884527336112233976975046237607570695431592573723089123161025983265585931131014767092628265int * 4017602361038593222649005884527336112233976975046237607570695431592573723089123161025983265585931131014767092628265int) % (modulus() as int)) by (nonlinear_arith);
    lemma_power_doubled(element_modulus(), modulus() as int, 4017602361038593222649005884527336112233976975046237607570695431592573723089123161025983265585931131014767092628265int, 8nat, 1139474887068041084752074437455099047925731452515918961376829484472358890400521851045770706779750201621647649091597int);
    assert(5324527886210345665395233911694060836184748546058194072357277807061010037762402034886384419942065396992438118794372int == (1139474887068041084752074437455099047925731452515918961376829484472358890400521851045770706779750201621647649091597int * 1139474887068041084752074437455099047925731452515918961376829484472358890400521851045770706779750201621647649091597int) % (modulus() as int)) by (nonlinear_arith);
    lemma_power_doubled(element_modulus(), modulus() as int, 1139474887068041084752074437455099047925731452515918961376829484472358890400521851045770706779750201621647649091597int, 16nat, 5324527886210345665395233911694060836184748546058194072357277807061010037762402034886384419942065396992438118794372int);
    assert(1952552306228459875394676374210915283221256113592668263639290659047293263271700012831824139408316082477401329512724int == (5324527886210345665395233911694060836184748546058194072357277807061010037762402034886384419942065396992438118794372int * 5324527886210345665395233911694060836184748546058194072357277807061010037762402034886384419942065396992438118794372int) % (modulus() as int)) by (nonlinear_arith);
    lemma_power_doubled(element_modulus(), modulus() as int, 5324527886210345665395233911694060836184748546058194072357277807061010037762402034886384419942065396992438118794372int, 32nat, 1952552306228459875394676374210915283221256113592668263639290659047293263271700012831824139408316082477401329512724int);
    assert(2217738740644325313512782098495007798881194259654649576820043497278517514998055940009796120692089971785789526292487int == (1952552306228459875394676374210915283221256113592668263639290659047293263271700012831824139408316082477401329512724int * 1952552306228459875394676374210915283221256113592668263639290659047293263271700012831824139408316082477401329512724int) % (modulus() as int)) by (nonlinear_arith);
    lemma_power_doubled(element_modulus(), modulus() as int, 1952552306228459875394676374210915283221256113592668263639290659047293263271700012831824139408316082477401329512724int, 64nat, 2217738740644325313512782098495007798881194259654649576820043497278517514998055940009796120692089971785789526292487int);
    assert(4279822000903823819356576609354781047384335766138028540152122152625351951861154932712045338998417605097926657975259int == (2217738740644325313512782098495007798881194259654649576820043497278517514998055940009796120692089971785789526292487int * 2217738740644325313512782098495007798881194259654649576820043497278517514998055940009796120692089971785789526292487int) % (modulus() as int)) by (nonlinear_arith);
    lemma_power_doubled(element_modulus(), modulus() as int, 2217738740644325313512782098495007798881194259654649576820043497278517514998055940009796120692089971785789526292487int, 128nat, 4279822000903823819356576609354781047384335766138028540152122152625351951861154932712045338998417605097926657975259int);
    assert(1261680944096749349348753215945242395994294344618725806260397599056030737795290242353037518326427253608186732077465int == (4279822000903823819356576609354781047384335766138028540152122152625351951861154932712045338998417605097926657975259int * 4279822000903823819356576609354781047384335766138028540152122152625351951861154932712045338998417605097926657975259int) % (modulus() as int)) by (nonlinear_arith);
    lemma_power_doubled(element_modulus(), modulus() as int, 4279822000903823819356576609354781047384335766138028540152122152625351951861154932712045338998417605097926657975259int, 256nat, 1261680944096749349348753215945242395994294344618725806260397599056030737795290242353037518326427253608186732077465int);
    assert(272460508424838223158156511591372754037640574326859664257467808283301423330872266017400230296998253034283185800669int == (1261680944096749349348753215945242395994294344618725806260397599056030737795290242353037518326427253608186732077465int * 1261680944096749349348753215945242395994294344618725806260397599056030737795290242353037518326427253608186732077465int) % (modulus() as int)) by (nonlinear_arith);
    lemma_power_doubled(element_modulus(), modulus() as int, 1261680944096749349348753215945242395994294344618725806260397599056030737795290242353037518326427253608186732077465int, 512nat, 272460508424838223158156511591372754037640574326859664257467808283301423330872266017400230296998253034283185800669int);
    assert(2354700827683164304278898519698797772203996342348155339622869898110768765701357205381587538475333916200842014801607int == (((272460508424838223158156511591372754037640574326859664257467808283301423330872266017400230296998253034283185800669int * 272460508424838223158156511591372754037640574326859664257467808283301423330872266017400230296998253034283185800669int) % (modulus() as int)) * element_modulus()) % (
        modulus() as int)) by (nonlinear_arith);
    lemma_power_doubled_plus_one(element_modulus(), modulus() as int, 272460508424838223158156511591372754037640574326859664257467808283301423330872266017400230296998253034283185800669int, 1024nat, 2354700827683164304278898519698797772203996342348155339622869898110768765701357205381587538475333916200842014801607int);
    assert(744728981134333542789579120990631554108288678555365903096503724216724278668849967865906353511924548352868636400928int == (2354700827683164304278898519698797772203996342348155339622869898110768765701357205381587538475333916200842014801607int * 2354700827683164304278898519698797772203996342348155339622869898110768765701357205381587538475333916200842014801607int) % (modulus() as int)) by (nonlinear_arith);
    lemma_power_doubled(element_modulus(), modulus() as int, 2354700827683164304278898519698797772203996342348155339622869898110768765701357205381587538475333916200842014801607int, 2049nat, 744728981134333542789579120990631554108288678555365903096503724216724278668849967865906353511924548352868636400928int);
    assert(164523651143443448443474664056656072278137606580132490728971432731627433601891744456154237864798375230457304135129int == (((744728981134333542789579120990631554108288678555365903096503724216724278668849967865906353511924548352868636400928int * 744728981134333542789579120990631554108288678555365903096503724216724278668849967865906353511924548352868636400928int) % (modulus() as int)) * element_modulus()) % (
        modulus() as int)) by (nonlinear_arith);
    lemma_power_doubled_plus_one(element_modulus(), modulus() as int, 744728981134333542789579120990631554108288678555365903096503724216724278668849967865906353511924548352868636400928int, 4098nat, 164523651143443448443474664056656072278137606580132490728971432731627433601891744456154237864798375230457304135129int);
    assert(5160530710125006844545673119676449625130176863240311491577124221576317947873569733843735716638774862535553565103321int == (164523651143443448443474664056656072278137606580132490728971432731627433601891744456154237864798375230457304135129int * 164523651143443448443474664056656072278137606580132490728971432731627433601891744456154237864798375230457304135129int) % (modulus() as int)) by (nonlinear_arith);
    lemma_power_doubled(element_modulus(), modulus() as int, 164523651143443448443474664056656072278137606580132490728971432731627433601891744456154237864798375230457304135129int, 8197nat, 5160530710125006844545673119676449625130176863240311491577124221576317947873569733843735716638774862535553565103321int);
    assert(1051416415007630052994038497740981832276341308483940128925326186854872254118496942724246993254131522330660479566343int == (((5160530710125006844545673119676449625130176863240311491577124221576317947873569733843735716638774862535553565103321int * 5160530710125006844545673119676449625130176863240311491577124221576317947873569733843735716638774862535553565103321int) % (modulus() as int)) * element_modulus()) % (
        modulus() as int)) by (nonlinear_arith);
    lemma_power_doubled_plus_one(element_modulus(), modulus() as int, 5160530710125006844545673119676449625130176863240311491577124221576317947873569733843735716638774862535553565103321int, 16394nat, 1051416415007630052994038497740981832276341308483940128925326186854872254118496942724246993254131522330660479566343int);
    assert(4717454503637918315954315088365073547411294658460887369636766888682374037176790459409414169003052800817974788971065int == (1051416415007630052994038497740981832276341308483940128925326186854872254118496942724246993254131522330660479566343int * 1051416415007630052994038497740981832276341308483940128925326186854872254118496942724246993254131522330660479566343int) % (modulus() as int)) by (nonlinear_arith);
    lemma_power_doubled(element_modulus(), modulus() as int, 1051416415007630052994038497740981832276341308483940128925326186854872254118496942724246993254131522330660479566343int, 32789nat, 4717454503637918315954315088365073547411294658460887369636766888682374037176790459409414169003052800817974788971065int);
    assert(1049982901887517039700076967610219322892026579950621568359057155898603171630051195276226485431497647293676428311648int == (4717454503637918315954315088365073547411294658460887369636766888682374037176790459409414169003052800817974788971065int * 4717454503637918315954315088365073547411294658460887369636766888682374037176790459409414169003052800817974788971065int) % (modulus() as int)) by (nonlinear_arith);
    lemma_power_doubled(element_modulus(), modulus() as int, 4717454503637918315954315088365073547411294658460887369636766888682374037176790459409414169003052800817974788971065int, 65578nat, 1049982901887517039700076967610219322892026579950621568359057155898603171630051195276226485431497647293676428311648int);
    assert(3075947026902585854001199135253210700541291997354999844156833353747233352614297314438533566041814505667437234226828int == (1049982901887517039700076967610219322892026579950621568359057155898603171630051195276226485431497647293676428311648int * 1049982901887517039700076967610219322892026579950621568359057155898603171630051195276226485431497647293676428311648int) % (modulus() as int)) by (nonlinear_arith);
    lemma_power_doubled(element_modulus(), modulus() as int, 1049982901887517039700076967610219322892026579950621568359057155898603171630051195276226485431497647293676428311648int, 131156nat, 3075947026902585854001199135253210700541291997354999844156833353747233352614297314438533566041814505667437234226828int);
    assert(2985273050107837910680769867507653419944981609417620803810482802899460224197931027872788213041690161632394674904101int == (3075947026902585854001199135253210700541291997354999844156833353747233352614297314438533566041814505667437234226828int * 3075947026902585854001199135253210700541291997354999844156833353747233352614297314438533566041814505667437234226828int) % (modulus() as int)) by (nonlinear_arith);
    lemma_power_doubled(element_modulus(), modulus() as int, 3075947026902585854001199135253210700541291997354999844156833353747233352614297314438533566041814505667437234226828int, 262312nat, 2985273050107837910680769867507653419944981609417620803810482802899460224197931027872788213041690161632394674904101int);
    assert(5461367465847794499921827565286581765816438198821605207136783661920430524404485528230304221257227332681760645884241int == (2985273050107837910680769867507653419944981609417620803810482802899460224197931027872788213041690161632394674904101int * 2985273050107837910680769867507653419944981609417620803810482802899460224197931027872788213041690161632394674904101int) % (modulus() as int)) by (nonlinear_arith);
    lemma_power_doubled(element_modulus(), modulus() as int, 2985273050107837910680769867507653419944981609417620803810482802899460224197931027872788213041690161632394674904101int, 524624nat, 5461367465847794499921827565286581765816438198821605207136783661920430524404485528230304221257227332681760645884241int);
    assert(1818662620985622975478479512376512648846980809880982169310629919806136906040679685344355428966476421278355368322731int == (((5461367465847794499921827565286581765816438198821605207136783661920430524404485528230304221257227332681760645884241int * 5461367465847794499921827565286581765816438198821605207136783661920430524404485528230304221257227332681760645884241int) % (modulus() as int)) * element_modulus()) % (
        modulus() as int)) by (nonlinear_arith);
    lemma_power_doubled_plus_one(element_modulus(), modulus() as int, 5461367465847794499921827565286581765816438198821605207136783661920430524404485528230304221257227332681760645884241int, 1049248nat, 1818662620985622975478479512376512648846980809880982169310629919806136906040679685344355428966476421278355368322731int);
    assert(368138607667828481789580888495840978811565102558779207493296362970833621230519303572317111479020741650847652033182int == (((1818662620985622975478479512376512648846980809880982169310629919806136906040679685344355428966476421278355368322731int * 1818662620985622975478479512376512648846980809880982169310629919806136906040679685344355428966476421278355368322731int) % (modulus() as int)) * element_modulus()) % (
        modulus() as int)) by (nonlinear_arith);
    lemma_power_doubled_plus_one(element_modulus(), modulus() as int, 1818662620985622975478479512376512648846980809880982169310629919806136906040679685344355428966476421278355368322731int, 2098497nat, 368138607667828481789580888495840978811565102558779207493296362970833621230519303572317111479020741650847652033182int);
    assert(5277864801018908612884016468415199472943534643243982368885581276454744565936017793117001768482717769911745851152880int == (((368138607667828481789580888495840978811565102558779207493296362970833621230519303572317111479020741650847652033182int * 368138607667828481789580888495840978811565102558779207493296362970833621230519303572317111479020741650847652033182int) % (modulus() as int)) * element_modulus()) % (
        modulus() as int)) by (nonlinear_arith);
    lemma_power_doubled_plus_one(element_modulus(), modulus() as int, 368138607667828481789580888495840978811565102558779207493296362970833621230519303572317111479020741650847652033182int, 4196995nat, 5277864801018908612884016468415199472943534643243982368885581276454744565936017793117001768482717769911745851152880int);
    assert(1739551453651647133424602640099592368634064226714639088092401190807322955114196276996889348205798534829879958106621int == (5277864801018908612884016468415199472943534643243982368885581276454744565936017793117001768482717769911745851152880int * 5277864801018908612884016468415199472943534643243982368885581276454744565936017793117001768482717769911745851152880int) % (modulus() as int)) by (nonlinear_arith);
    lemma_power_doubled(element_modulus(), modulus() as int, 5277864801018908612884016468415199472943534643243982368885581276454744565936017793117001768482717769911745851152880int, 8393991nat, 1739551453651647133424602640099592368634064226714639088092401190807322955114196276996889348205798534829879958106621int);
    assert(2305370320271660197003278927626544144033419696482292209715309707491308567663527105069007249611577809430142193395386int == (((1739551453651647133424602640099592368634064226714639088092401190807322955114196276996889348205798534829879958106621int * 1739551453651647133424602640099592368634064226714639088092401190807322955114196276996889348205798534829879958106621int) % (modulus() as int)) * element_modulus()) % (
        modulus() as int)) by (nonlinear_arith);
    lemma_power_doubled_plus_one(element_modulus(), modulus() as int, 1739551453651647133424602640099592368634064226714639088092401190807322955114196276996889348205798534829879958106621int, 16787982nat, 2305370320271660197003278927626544144033419696482292209715309707491308567663527105069007249611577809430142193395386int);
    assert(2914293439894433446868461985434887658773558217276538233376915056694304174552664830615988011032713776517435758608182int == (2305370320271660197003278927626544144033419696482292209715309707491308567663527105069007249611577809430142193395386int * 2305370320271660197003278927626544144033419696482292209715309707491308567663527105069007249611577809430142193395386int) % (modulus() as int)) by (nonlinear_arith);
    lemma_power_doubled(element_modulus(), modulus() as int, 2305370320271660197003278927626544144033419696482292209715309707491308567663527105069007249611577809430142193395386int, 33575965nat, 2914293439894433446868461985434887658773558217276538233376915056694304174552664830615988011032713776517435758608182int);
    assert(660348376104766558853907451137369704566766410365104386472209876475074399928487287742410910513634613731922631613900int == (((2914293439894433446868461985434887658773558217276538233376915056694304174552664830615988011032713776517435758608182int * 2914293439894433446868461985434887658773558217276538233376915056694304174552664830615988011032713776517435758608182int) % (modulus() as int)) * element_modulus()) % (
        modulus() as int)) by (nonlinear_arith);
    lemma_power_doubled_plus_one(element_modulus(), modulus() as int, 2914293439894433446868461985434887658773558217276538233376915056694304174552664830615988011032713776517435758608182int, 67151930nat, 660348376104766558853907451137369704566766410365104386472209876475074399928487287742410910513634613731922631613900int);
    assert(1207148323851417162973388670737769191542443938725185188667179006112590557924182821151193333145201543221990483980319int == (((660348376104766558853907451137369704566766410365104386472209876475074399928487287742410910513634613731922631613900int * 660348376104766558853907451137369704566766410365104386472209876475074399928487287742410910513634613731922631613900int) % (modulus() as int)) * element_modulus()) % (
        modulus() as int)) by (nonlinear_arith);
    lemma_power_doubled_plus_one(element_modulus(), modulus() as int, 660348376104766558853907451137369704566766410365104386472209876475074399928487287742410910513634613731922631613900int, 134303861nat, 1207148323851417162973388670737769191542443938725185188667179006112590557924182821151193333145201543221990483980319int);
    assert(4680379208850732851054774754136697016280653356276645804096047398426373480834853762147883986665758067274123908948379int == (1207148323851417162973388670737769191542443938725185188667179006112590557924182821151193333145201543221990483980319int * 1207148323851417162973388670737769191542443938725185188667179006112590557924182821151193333145201543221990483980319int) % (modulus() as int)) by (nonlinear_arith);
    lemma_power_doubled(element_modulus(), modulus() as int, 1207148323851417162973388670737769191542443938725185188667179006112590557924182821151193333145201543221990483980319int, 268607723nat, 4680379208850732851054774754136697016280653356276645804096047398426373480834853762147883986665758067274123908948379int);
    assert(2817192429806951069982152518629711064306690162719272503899866682924701691538315609917731890931237596366387295772891int == (((4680379208850732851054774754136697016280653356276645804096047398426373480834853762147883986665758067274123908948379int * 4680379208850732851054774754136697016280653356276645804096047398426373480834853762147883986665758067274123908948379int) % (modulus() as int)) * element_modulus()) % (
        modulus() as int)) by (nonlinear_arith);
    lemma_power_doubled_plus_one(element_modulus(), modulus() as int, 4680379208850732851054774754136697016280653356276645804096047398426373480834853762147883986665758067274123908948379int, 537215446nat, 2817192429806951069982152518629711064306690162719272503899866682924701691538315609917731890931237596366387295772891int);
    assert(645231857691061094643705535296533655515742253801649756140228257267339106621229828469866345123493564960011285648530int == (2817192429806951069982152518629711064306690162719272503899866682924701691538315609917731890931237596366387295772891int * 2817192429806951069982152518629711064306690162719272503899866682924701691538315609917731890931237596366387295772891int) % (modulus() as int)) by (nonlinear_arith);
    lemma_power_doubled(element_modulus(), modulus() as int, 2817192429806951069982152518629711064306690162719272503899866682924701691538315609917731890931237596366387295772891int, 1074430893nat, 645231857691061094643705535296533655515742253801649756140228257267339106621229828469866345123493564960011285648530int);
}

/// The power of `element_modulus` to the leading 64 bits of `prime_224`.
proof fn lemma_power_modulus_64()
    ensures
        pow_mod(element_modulus(), 9229291096853427780nat, modulus() as int) == 118484761429677696863345395311096321029540357064032135664652738462233517181794132557503019344554560056743661620580int,
{
    lemma_power_modulus_32();
    assert(2710934889003909248537461706002449213166233183502954579176066248215179186901635333207821305097793457511092545901056int == (((645231857691061094643705535296533655515742253801649756140228257267339106621229828469866345123493564960011285648530int * 645231857691061094643705535296533655515742253801649756140228257267339106621229828469866345123493564960011285648530int) % (modulus() as int)) * element_modulus()) % (
        modulus() as int)) by (nonlinear_arith);
    lemma_power_doubled_plus_one(element_modulus(), modulus() as int, 645231857691061094643705535296533655515742253801649756140228257267339106621229828469866345123493564960011285648530int, 2148861786nat, 2710934889003909248537461706002449213166233183502954579176066248215179186901635333207821305097793457511092545901056int);
    assert(4614234846536715516574097417313270027031488605933447467615331492476331914614536438958324220573837967302444894171658int == (2710934889003909248537461706002449213166233183502954579176066248215179186901635333207821305097793457511092545901056int * 2710934889003909248537461706002449213166233183502954579176066248215179186901635333207821305097793457511092545901056int) % (modulus() as int)) by (nonlinear_arith);
    lemma_power_doubled(element_modulus(), modulus() as int, 2710934889003909248537461706002449213166233183502954579176066248215179186901635333207821305097793457511092545901056int, 4297723573nat, 4614234846536715516574097417313270027031488605933447467615331492476331914614536438958324220573837967302444894171658int);
    assert(4768271175646738004028885131046216120310893220412482440250649062394709272426402508405893115561703916552524924530470int == (4614234846536715516574097417313270027031488605933447467615331492476331914614536438958324220573837967302444894171658int * 4614234846536715516574097417313270027031488605933447467615331492476331914614536438958324220573837967302444894171658int) % (modulus() as int)) by (nonlinear_arith);
    lemma_power_doubled(element_modulus(), modulus() as int, 4614234846536715516574097417313270027031488605933447467615331492476331914614536438958324220573837967302444894171658int, 8595447146nat, 4768271175646738004028885131046216120310893220412482440250649062394709272426402508405893115561703916552524924530470int);
    assert(1523971901927742429069524873795210617260098117409686070493832071394292182471962782562433066911130931528518604674890int == (4768271175646738004028885131046216120310893220412482440250649062394709272426402508405893115561703916552524924530470int * 4768271175646738004028885131046216120310893220412482440250649062394709272426402508405893115561703916552524924530470int) % (modulus() as int)) by (nonlinear_arith);
    lemma_power_doubled(element_modulus(), modulus() as int, 4768271175646738004028885131046216120310893220412482440250649062394709272426402508405893115561703916552524924530470int, 17190894292nat, 1523971901927742429069524873795210617260098117409686070493832071394292182471962782562433066911130931528518604674890int);
    assert(4993631403946163649386741339279581803248920037435440451578760096337096710982492514392399501500103755137748833446880int == (((1523971901927742429069524873795210617260098117409686070493832071394292182471962782562433066911130931528518604674890int * 1523971901927742429069524873795210617260098117409686070493832071394292182471962782562433066911130931528518604674890int) % (modulus() as int)) * element_modulus()) % (
        modulus() as int)) by (nonlinear_arith);
    lemma_power_doubled_plus_one(element_modulus(), modulus() as int, 1523971901927742429069524873795210617260098117409686070493832071394292182471962782562433066911130931528518604674890int, 34381788584nat, 4993631403946163649386741339279581803248920037435440451578760096337096710982492514392399501500103755137748833446880int);
    assert(883616857574381459530412038592311973823336093611382262234734271279629422827297135253924987430926874405408747917131int == (((4993631403946163649386741339279581803248920037435440451578760096337096710982492514392399501500103755137748833446880int * 4993631403946163649386741339279581803248920037435440451578760096337096710982492514392399501500103755137748833446880int) % (modulus() as int)) * element_modulus()) % (
        modulus() as int)) by (nonlinear_arith);
    lemma_power_doubled_plus_one(element_modulus(), modulus() as int, 4993631403946163649386741339279581803248920037435440451578760096337096710982492514392399501500103755137748833446880int, 68763577169nat, 883616857574381459530412038592311973823336093611382262234734271279629422827297135253924987430926874405408747917131int);
    assert(3947663040968660094936221100358664219817520403423347261764635067115306756441316749411645582834574262616522404783344int == (883616857574381459530412038592311973823336093611382262234734271279629422827297135253924987430926874405408747917131int * 883616857574381459530412038592311973823336093611382262234734271279629422827297135253924987430926874405408747917131int) % (modulus() as int)) by (nonlinear_arith);
    lemma_power_doubled(element_modulus(), modulus() as int, 883616857574381459530412038592311973823336093611382262234734271279629422827297135253924987430926874405408747917131int, 137527154339nat, 3947663040968660094936221100358664219817520403423347261764635067115306756441316749411645582834574262616522404783344int);
    assert(5445391721882673184122949280672908145588083607183972589130991787124308027743226826050346940475763321226173539874666int == (3947663040968660094936221100358664219817520403423347261764635067115306756441316749411645582834574262616522404783344int * 3947663040968660094936221100358664219817520403423347261764635067115306756441316749411645582834574262616522404783344int) % (modulus() as int)) by (nonlinear_arith);
    lemma_power_doubled(element_modulus(), modulus() as int, 3947663040968660094936221100358664219817520403423347261764635067115306756441316749411645582834574262616522404783344int, 275054308678nat, 5445391721882673184122949280672908145588083607183972589130991787124308027743226826050346940475763321226173539874666int);
    assert(4889091027064614263646459527111202367780855688445110098948253600379241730508459822139446478038474027742021603678377int == (((5445391721882673184122949280672908145588083607183972589130991787124308027743226826050346940475763321226173539874666int * 5445391721882673184122949280672908145588083607183972589130991787124308027743226826050346940475763321226173539874666int) % (modulus() as int)) * element_modulus()) % (
        modulus() as int)) by (nonlinear_arith);
    lemma_power_doubled_plus_one(element_modulus(), modulus() as int, 5445391721882673184122949280672908145588083607183972589130991787124308027743226826050346940475763321226173539874666int, 550108617356nat, 4889091027064614263646459527111202367780855688445110098948253600379241730508459822139446478038474027742021603678377int);
    assert(2981724721440393636931511297302670869583698065704482567371310630639870298381513605064534787867858330794847258380743int == (4889091027064614263646459527111202367780855688445110098948253600379241730508459822139446478038474027742021603678377int * 4889091027064614263646459527111202367780855688445110098948253600379241730508459822139446478038474027742021603678377int) % (modulus() as int)) by (nonlinear_arith);
    lemma_power_doubled(element_modulus(), modulus() as int, 4889091027064614263646459527111202367780855688445110098948253600379241730508459822139446478038474027742021603678377int, 1100217234713nat, 2981724721440393636931511297302670869583698065704482567371310630639870298381513605064534787867858330794847258380743int);
    assert(1207739143289504959081547099514586635161980116558254787103731636079455122543362723979712929851080832922990900286380int == (2981724721440393636931511297302670869583698065704482567371310630639870298381513605064534787867858330794847258380743int * 2981724721440393636931511297302670869583698065704482567371310630639870298381513605064534787867858330794847258380743int) % (modulus() as int)) by (nonlinear_arith);
    lemma_power_doubled(element_modulus(), modulus() as int, 2981724721440393636931511297302670869583698065704482567371310630639870298381513605064534787867858330794847258380743int, 2200434469426nat, 1207739143289504959081547099514586635161980116558254787103731636079455122543362723979712929851080832922990900286380int);
    assert(5468903316691233700405551791273259641214063578989966331003576204581068980204814916881520887789187079581356123079int == (((1207739143289504959081547099514586635161980116558254787103731636079455122543362723979712929851080832922990900286380int * 1207739143289504959081547099514586635161980116558254787103731636079455122543362723979712929851080832922990900286380int) % (modulus() as int)) * element_modulus()) % (
        modulus() as int)) by (nonlinear_arith);
    lemma_power_doubled_plus_one(element_modulus(), modulus() as int, 1207739143289504959081547099514586635161980116558254787103731636079455122543362723979712929851080832922990900286380int, 4400868938852nat, 5468903316691233700405551791273259641214063578989966331003576204581068980204814916881520887789187079581356123079int);
    assert(2022226164802117592773450737202149416012370574436759039411614409763000971826124073117799413392545810255638086645649int == (((5468903316691233700405551791273259641214063578989966331003576204581068980204814916881520887789187079581356123079int * 5468903316691233700405551791273259641214063578989966331003576204581068980204814916881520887789187079581356123079int) % (modulus() as int)) * element_modulus()) % (
        modulus() as int)) by (nonlinear_arith);
    lemma_power_doubled_plus_one(element_modulus(), modulus() as int, 5468903316691233700405551791273259641214063578989966331003576204581068980204814916881520887789187079581356123079int, 8801737877705nat, 2022226164802117592773450737202149416012370574436759039411614409763000971826124073117799413392545810255638086645649int);
    assert(5431031314737800012990788765134310228020556200548759918007904542835800735422197598919585465432098822171134558138742int == (((2022226164802117592773450737202149416012370574436759039411614409763000971826124073117799413392545810255638086645649int * 2022226164802117592773450737202149416012370574436759039411614409763000971826124073117799413392545810255638086645649int) % (modulus() as int)) * element_modulus()) % (
        modulus() as int)) by (nonlinear_arith);
    lemma_power_doubled_plus_one(element_modulus(), modulus() as int, 2022226164802117592773450737202149416012370574436759039411614409763000971826124073117799413392545810255638086645649int, 17603475755411nat, 5431031314737800012990788765134310228020556200548759918007904542835800735422197598919585465432098822171134558138742int);
    assert(5188890505130198330766105715962044703098992186983360187681569288049555054531434763703411840909839173172766268844603int == (((5431031314737800012990788765134310228020556200548759918007904542835800735422197598919585465432098822171134558138742int * 5431031314737800012990788765134310228020556200548759918007904542835800735422197598919585465432098822171134558138742int) % (modulus() as int)) * element_modulus()) % (
        modulus() as int)) by (nonlinear_arith);
    lemma_power_doubled_plus_one(element_modulus(), modulus() as int, 5431031314737800012990788765134310228020556200548759918007904542835800735422197598919585465432098822171134558138742int, 35206951510823nat, 5188890505130198330766105715962044703098992186983360187681569288049555054531434763703411840909839173172766268844603int);
    assert(3277436339273651580577073058217493809123196511906408433074366473504659022895916123370626233323030265277752187029747int == (((5188890505130198330766105715962044703098992186983360187681569288049555054531434763703411840909839173172766268844603int * 5188890505130198330766105715962044703098992186983360187681569288049555054531434763703411840909839173172766268844603int) % (modulus() as int)) * element_modulus()) % (
        modulus() as int)) by (nonlinear_arith);
    lemma_power_doubled_plus_one(element_modulus(), modulus() as int, 5188890505130198330766105715962044703098992186983360187681569288049555054531434763703411840909839173172766268844603int, 70413903021647nat, 3277436339273651580577073058217493809123196511906408433074366473504659022895916123370626233323030265277752187029747int);
    assert(3584460850492622386838882811779667605800878824261260635264254468300545075692463535833247099172923671095674308920376int == (((3277436339273651580577073058217493809123196511906408433074366473504659022895916123370626233323030265277752187029747int * 3277436339273651580577073058217493809123196511906408433074366473504659022895916123370626233323030265277752187029747int) % (modulus() as int)) * element_modulus()) % (
        modulus() as int)) by (nonlinear_arith);
    lemma_power_doubled_plus_one(element_modulus(), modulus() as int, 3277436339273651580577073058217493809123196511906408433074366473504659022895916123370626233323030265277752187029747int, 140827806043295nat, 3584460850492622386838882811779667605800878824261260635264254468300545075692463535833247099172923671095674308920376int);
    assert(4868568278768206021980368681117488321119777264239915972026129361779143879452229508749461246330104656090866863844328int == (3584460850492622386838882811779667605800878824261260635264254468300545075692463535833247099172923671095674308920376int * 3584460850492622386838882811779667605800878824261260635264254468300545075692463535833247099172923671095674308920376int) % (modulus() as int)) by (nonlinear_arith);
    lemma_power_doubled(element_modulus(), modulus() as int, 3584460850492622386838882811779667605800878824261260635264254468300545075692463535833247099172923671095674308920376int, 281655612086591nat, 4868568278768206021980368681117488321119777264239915972026129361779143879452229508749461246330104656090866863844328int);
    assert(3790139407591307334903583899855394942399358985258720979341408232024744844261277951252977941428029225303162071031799int == (((4868568278768206021980368681117488321119777264239915972026129361779143879452229508749461246330104656090866863844328int * 4868568278768206021980368681117488321119777264239915972026129361779143879452229508749461246330104656090866863844328int) % (modulus() as int)) * element_modulus()) % (
        modulus() as int)) by (nonlinear_arith);
    lemma_power_doubled_plus_one(element_modulus(), modulus() as int, 4868568278768206021980368681117488321119777264239915972026129361779143879452229508749461246330104656090866863844328int, 563311224173182nat, 3790139407591307334903583899855394942399358985258720979341408232024744844261277951252977941428029225303162071031799int);
    assert(4954601421689551626962906466411136761674201489380911428194103195887099911997565745269039109482306043844449397348372int == (((3790139407591307334903583899855394942399358985258720979341408232024744844261277951252977941428029225303162071031799int * 3790139407591307334903583899855394942399358985258720979341408232024744844261277951252977941428029225303162071031799int) % (modulus() as int)) * element_modulus()) % (
        modulus() as int)) by (nonlinear_arith);
    lemma_power_doubled_plus_one(element_modulus(), modulus() as int, 3790139407591307334903583899855394942399358985258720979341408232024744844261277951252977941428029225303162071031799int, 1126622448346365nat, 4954601421689551626962906466411136761674201489380911428194103195887099911997565745269039109482306043844449397348372int);
    assert(2641073104791349655101261715171203606616239450024137988457485312074440337310683544185188749840084165060251048106472int == (4954601421689551626962906466411136761674201489380911428194103195887099911997565745269039109482306043844449397348372int * 4954601421689551626962906466411136761674201489380911428194103195887099911997565745269039109482306043844449397348372int) % (modulus() as int)) by (nonlinear_arith);
    lemma_power_doubled(element_modulus(), modulus() as int, 4954601421689551626962906466411136761674201489380911428194103195887099911997565745269039109482306043844449397348372int, 2253244896692731nat, 2641073104791349655101261715171203606616239450024137988457485312074440337310683544185188749840084165060251048106472int);
    assert(2592256445755901311845458605113442461225700957504286145235821772429410390278241741546744887360501854892289644731063int == (((2641073104791349655101261715171203606616239450024137988457485312074440337310683544185188749840084165060251048106472int * 2641073104791349655101261715171203606616239450024137988457485312074440337310683544185188749840084165060251048106472int) % (modulus() as int)) * element_modulus()) % (
        modulus() as int)) by (nonlinear_arith);
    lemma_power_doubled_plus_one(element_modulus(), modulus() as int, 2641073104791349655101261715171203606616239450024137988457485312074440337310683544185188749840084165060251048106472int, 4506489793385462nat, 2592256445755901311845458605113442461225700957504286145235821772429410390278241741546744887360501854892289644731063int);
    assert(3672838156102043482923790840117071277058815686774222207517756771849759397240137693613584689607241360637417675680093int == (((2592256445755901311845458605113442461225700957504286145235821772429410390278241741546744887360501854892289644731063int * 2592256445755901311845458605113442461225700957504286145235821772429410390278241741546744887360501854892289644731063int) % (modulus() as int)) * element_modulus()) % (
        modulus() as int)) by (nonlinear_arith);
    lemma_power_doubled_plus_one(element_modulus(), modulus() as int, 2592256445755901311845458605113442461225700957504286145235821772429410390278241741546744887360501854892289644731063int, 9012979586770925nat, 3672838156102043482923790840117071277058815686774222207517756771849759397240137693613584689607241360637417675680093int);
    assert(135202579459774871960856081774768072984499659349210980654585561285465160945852789124813044993517224886078474901108int == (3672838156102043482923790840117071277058815686774222207517756771849759397240137693613584689607241360637417675680093int * 3672838156102043482923790840117071277058815686774222207517756771849759397240137693613584689607241360637417675680093int) % (modulus() as int)) by (nonlinear_arith);
    lemma_power_doubled(element_modulus(), modulus() as int, 3672838156102043482923790840117071277058815686774222207517756771849759397240137693613584689607241360637417675680093int, 18025959173541851nat, 135202579459774871960856081774768072984499659349210980654585561285465160945852789124813044993517224886078474901108int);
    assert(4719322499012045944420931764991473395392459293569000188137605493197162909224940188073356424254511382775110886895018int == (135202579459774871960856081774768072984499659349210980654585561285465160945852789124813044993517224886078474901108int * 135202579459774871960856081774768072984499659349210980654585561285465160945852789124813044993517224886078474901108int) % (modulus() as int)) by (nonlinear_arith);
    lemma_power_doubled(element_modulus(), modulus() as int, 135202579459774871960856081774768072984499659349210980654585561285465160945852789124813044993517224886078474901108int, 36051918347083702nat, 4719322499012045944420931764991473395392459293569000188137605493197162909224940188073356424254511382775110886895018int);
    assert(2841947041894370195203572968258999225495895550536913151866187420978964059695067511547193693981289251200534859883039int == (((4719322499012045944420931764991473395392459293569000188137605493197162909224940188073356424254511382775110886895018int * 4719322499012045944420931764991473395392459293569000188137605493197162909224940188073356424254511382775110886895018int) % (modulus() as int)) * element_modulus()) % (
        modulus() as int)) by (nonlinear_arith);
    lemma_power_doubled_plus_one(element_modulus(), modulus() as int, 4719322499012045944420931764991473395392459293569000188137605493197162909224940188073356424254511382775110886895018int, 72103836694167404nat, 2841947041894370195203572968258999225495895550536913151866187420978964059695067511547193693981289251200534859883039int);
    assert(1197576664077411476375204852629412294051826763709598598559114074257775722182342659120407698951882694298108150296278int == (2841947041894370195203572968258999225495895550536913151866187420978964059695067511547193693981289251200534859883039int * 2841947041894370195203572968258999225495895550536913151866187420978964059695067511547193693981289251200534859883039int) % (modulus() as int)) by (nonlinear_arith);
    lemma_power_doubled(element_modulus(), modulus() as int, 2841947041894370195203572968258999225495895550536913151866187420978964059695067511547193693981289251200534859883039int, 144207673388334809nat, 1197576664077411476375204852629412294051826763709598598559114074257775722182342659120407698951882694298108150296278int);
    assert(1997587370897519776633563013689895186051942278686247380670505499360269239171001832891473058835810966645791794040530int == (1197576664077411476375204852629412294051826763709598598559114074257775722182342659120407698951882694298108150296278int * 1197576664077411476375204852629412294051826763709598598559114074257775722182342659120407698951882694298108150296278int) % (modulus() as int)) by (nonlinear_arith);
    lemma_power_doubled(element_modulus(), modulus() as int, 1197576664077411476375204852629412294051826763709598598559114074257775722182342659120407698951882694298108150296278int, 288415346776669618nat, 1997587370897519776633563013689895186051942278686247380670505499360269239171001832891473058835810966645791794040530int);
    assert(933233548235630734563409176481708365133143424138879078225200903920595874267816049004469043934552542872059569083820int == (1997587370897519776633563013689895186051942278686247380670505499360269239171001832891473058835810966645791794040530int * 1997587370897519776633563013689895186051942278686247380670505499360269239171001832891473058835810966645791794040530int) % (modulus() as int)) by (nonlinear_arith);
    lemma_power_doubled(element_modulus(), modulus() as int, 1997587370897519776633563013689895186051942278686247380670505499360269239171001832891473058835810966645791794040530int, 576830693553339236nat, 933233548235630734563409176481708365133143424138879078225200903920595874267816049004469043934552542872059569083820int);
    assert(1667516099890193588410942766180364620205574570727279999931310746039796472908573813338821108255376633794843303200630int == (((933233548235630734563409176481708365133143424138879078225200903920595874267816049004469043934552542872059569083820int * 933233548235630734563409176481708365133143424138879078225200903920595874267816049004469043934552542872059569083820int) % (modulus() as int)) * element_modulus()) % (
        modulus() as int)) by (nonlinear_arith);
    lemma_power_doubled_plus_one(element_modulus(), modulus() as int, 933233548235630734563409176481708365133143424138879078225200903920595874267816049004469043934552542872059569083820int, 1153661387106678472nat, 1667516099890193588410942766180364620205574570727279999931310746039796472908573813338821108255376633794843303200630int);
    assert(4410925312955727256663084068472226777618472777844644492146063723963838292966536622014393993634851303296065750574475int == (1667516099890193588410942766180364620205574570727279999931310746039796472908573813338821108255376633794843303200630int * 1667516099890193588410942766180364620205574570727279999931310746039796472908573813338821108255376633794843303200630int) % (modulus() as int)) by (nonlinear_arith);
    lemma_power_doubled(element_modulus(), modulus() as int, 1667516099890193588410942766180364620205574570727279999931310746039796472908573813338821108255376633794843303200630int, 2307322774213356945nat, 4410925312955727256663084068472226777618472777844644492146063723963838292966536622014393993634851303296065750574475int);
    assert(118484761429677696863345395311096321029540357064032135664652738462233517181794132557503019344554560056743661620580int == (4410925312955727256663084068472226777618472777844644492146063723963838292966536622014393993634851303296065750574475int * 4410925312955727256663084068472226777618472777844644492146063723963838292966536622014393993634851303296065750574475int) % (modulus() as int)) by (nonlinear_arith);
    lemma_power_doubled(element_modulus(), modulus() as int, 4410925312955727256663084068472226777618472777844644492146063723963838292966536622014393993634851303296065750574475int, 4614645548426713890nat, 118484761429677696863345395311096321029540357064032135664652738462233517181794132557503019344554560056743661620580int);
}

/// The power of `element_modulus` to the leading 96 bits of `prime_224`.
proof fn lemma_power_modulus_96()
    ensures
        pow_mod(element_modulus(), 39639503426249440824058555675nat, modulus() as int) == 4742943078512583205101248827059091786389305971001925805745155479918951260246862285885585044164498861949556012425252int,
{
    lemma_power_modulus_64();
    assert(4467304983811002375927820691876908616562199491740778000117719562147414471118385618709985360810997273427681826578604int == (((118484761429677696863345395311096321029540357064032135664652738462233517181794132557503019344554560056743661620580int * 118484761429677696863345395311096321029540357064032135664652738462233517181794132557503019344554560056743661620580int) % (modulus() as int)) * element_modulus()) % (
        modulus() as int)) by (nonlinear_arith);
    lemma_power_doubled_plus_one(element_modulus(), modulus() as int, 118484761429677696863345395311096321029540357064032135664652738462233517181794132557503019344554560056743661620580int, 9229291096853427780nat, 4467304983811002375927820691876908616562199491740778000117719562147414471118385618709985360810997273427681826578604int);
    assert(4541566928489390896728325576207516906044420809766366452562554606331550135195759454339318091870383918373543328271662int == (((4467304983811002375927820691876908616562199491740778000117719562147414471118385618709985360810997273427681826578604int * 4467304983811002375927820691876908616562199491740778000117719562147414471118385618709985360810997273427681826578604int) % (modulus() as int)) * element_modulus()) % (
        modulus() as int)) by (nonlinear_arith);
    lemma_power_doubled_plus_one(element_modulus(), modulus() as int, 4467304983811002375927820691876908616562199491740778000117719562147414471118385618709985360810997273427681826578604int, 18458582193706855561nat, 4541566928489390896728325576207516906044420809766366452562554606331550135195759454339318091870383918373543328271662int);
    assert(4916408009103871258930346379446318856846189202301158593638649819578655558492538510735497865393509484934910723085588int == (4541566928489390896728325576207516906044420809766366452562554606331550135195759454339318091870383918373543328271662int * 4541566928489390896728325576207516906044420809766366452562554606331550135195759454339318091870383918373543328271662int) % (modulus() as int)) by (nonlinear_arith);
    lemma_power_doubled(element_modulus(), modulus() as int, 4541566928489390896728325576207516906044420809766366452562554606331550135195759454339318091870383918373543328271662int, 36917164387413711123nat, 4916408009103871258930346379446318856846189202301158593638649819578655558492538510735497865393509484934910723085588int);
    assert(2199783487510218567786825052851352125108839940255385292266933866687485688377780484195703132092946814109236384303752int == (4916408009103871258930346379446318856846189202301158593638649819578655558492538510735497865393509484934910723085588int * 4916408009103871258930346379446318856846189202301158593638649819578655558492538510735497865393509484934910723085588int) % (modulus() as int)) by (nonlinear_arith);
    lemma_power_doubled(element_modulus(), modulus() as int, 4916408009103871258930346379446318856846189202301158593638649819578655558492538510735497865393509484934910723085588int, 73834328774827422246nat, 2199783487510218567786825052851352125108839940255385292266933866687485688377780484195703132092946814109236384303752int);
    assert(3895999167820922323792921324277392372151471943815746616924323407921646888139332809541515768472577681646782743272756int == (((2199783487510218567786825052851352125108839940255385292266933866687485688377780484195703132092946814109236384303752int * 2199783487510218567786825052851352125108839940255385292266933866687485688377780484195703132092946814109236384303752int) % (modulus() as int)) * element_modulus()) % (
        modulus() as int)) by (nonlinear_arith);
    lemma_power_doubled_plus_one(element_modulus(), modulus() as int, 2199783487510218567786825052851352125108839940255385292266933866687485688377780484195703132092946814109236384303752int, 147668657549654844492nat, 3895999167820922323792921324277392372151471943815746616924323407921646888139332809541515768472577681646782743272756int);
    assert(4410326110132091015846180430032073943075371113583985734791635174125864407457109735632298443785882485308914646315547int == (((3895999167820922323792921324277392372151471943815746616924323407921646888139332809541515768472577681646782743272756int * 3895999167820922323792921324277392372151471943815746616924323407921646888139332809541515768472577681646782743272756int) % (modulus() as int)) * element_modulus()) % (
        modulus() as int)) by (nonlinear_arith);
    lemma_power_doubled_plus_one(element_modulus(), modulus() as int, 3895999167820922323792921324277392372151471943815746616924323407921646888139332809541515768472577681646782743272756int, 295337315099309688985nat, 4410326110132091015846180430032073943075371113583985734791635174125864407457109735632298443785882485308914646315547int);
    assert(3796903494518486084917548141329547672423287737401702163049204378596559206324005820939527489426543847038675722804940int == (((4410326110132091015846180430032073943075371113583985734791635174125864407457109735632298443785882485308914646315547int * 4410326110132091015846180430032073943075371113583985734791635174125864407457109735632298443785882485308914646315547int) % (modulus() as int)) * element_modulus()) % (
        modulus() as int)) by (nonlinear_arith);
    lemma_power_doubled_plus_one(element_modulus(), modulus() as int, 4410326110132091015846180430032073943075371113583985734791635174125864407457109735632298443785882485308914646315547int, 590674630198619377971nat, 3796903494518486084917548141329547672423287737401702163049204378596559206324005820939527489426543847038675722804940int);
    assert(3145205775279905852906437409144234317784723398996056701176514101571666645693614590482214626137851107786948793320795int == (3796903494518486084917548141329547672423287737401702163049204378596559206324005820939527489426543847038675722804940int * 3796903494518486084917548141329547672423287737401702163049204378596559206324005820939527489426543847038675722804940int) % (modulus() as int)) by (nonlinear_arith);
    lemma_power_doubled(element_modulus(), modulus() as int, 3796903494518486084917548141329547672423287737401702163049204378596559206324005820939527489426543847038675722804940int, 1181349260397238755943nat, 3145205775279905852906437409144234317784723398996056701176514101571666645693614590482214626137851107786948793320795int);
    assert(3236143773638824987492021988796117427457336447133616404060499173068272121226640433726323893690313516384885403652224int == (3145205775279905852906437409144234317784723398996056701176514101571666645693614590482214626137851107786948793320795int * 3145205775279905852906437409144234317784723398996056701176514101571666645693614590482214626137851107786948793320795int) % (modulus() as int)) by (nonlinear_arith);
    lemma_power_doubled(element_modulus(), modulus() as int, 3145205775279905852906437409144234317784723398996056701176514101571666645693614590482214626137851107786948793320795int, 2362698520794477511886nat, 3236143773638824987492021988796117427457336447133616404060499173068272121226640433726323893690313516384885403652224int);
    assert(1072313280165000822197995406688352518318695788273454050897307426322570065538656098898281055909951795375038249688525int == (((3236143773638824987492021988796117427457336447133616404060499173068272121226640433726323893690313516384885403652224int * 3236143773638824987492021988796117427457336447133616404060499173068272121226640433726323893690313516384885403652224int) % (modulus() as int)) * element_modulus()) % (
        modulus() as int)) by (nonlinear_arith);
    lemma_power_doubled_plus_one(element_modulus(), modulus() as int, 3236143773638824987492021988796117427457336447133616404060499173068272121226640433726323893690313516384885403652224int, 4725397041588955023772nat, 1072313280165000822197995406688352518318695788273454050897307426322570065538656098898281055909951795375038249688525int);
    assert(875632907124485034736689218900125694669176831538844666168439555716663051607634464980677860178453293303306537903943int == (1072313280165000822197995406688352518318695788273454050897307426322570065538656098898281055909951795375038249688525int * 1072313280165000822197995406688352518318695788273454050897307426322570065538656098898281055909951795375038249688525int) % (modulus() as int)) by (nonlinear_arith);
    lemma_power_doubled(element_modulus(), modulus() as int, 1072313280165000822197995406688352518318695788273454050897307426322570065538656098898281055909951795375038249688525int, 9450794083177910047545nat, 875632907124485034736689218900125694669176831538844666168439555716663051607634464980677860178453293303306537903943int);
    assert(5212649547913294812005808919108182501344092303921192253363489931763856108385021542260653626406855936926867558958250int == (875632907124485034736689218900125694669176831538844666168439555716663051607634464980677860178453293303306537903943int * 875632907124485034736689218900125694669176831538844666168439555716663051607634464980677860178453293303306537903943int) % (modulus() as int)) by (nonlinear_arith);
    lemma_power_doubled(element_modulus(), modulus() as int, 875632907124485034736689218900125694669176831538844666168439555716663051607634464980677860178453293303306537903943int, 18901588166355820095090nat, 5212649547913294812005808919108182501344092303921192253363489931763856108385021542260653626406855936926867558958250int);
    assert(4337622820506368973787148827802514329683072896380360180653404093738505975943510058149072571716081027565396327520484int == (5212649547913294812005808919108182501344092303921192253363489931763856108385021542260653626406855936926867558958250int * 5212649547913294812005808919108182501344092303921192253363489931763856108385021542260653626406855936926867558958250int) % (modulus() as int)) by (nonlinear_arith);
    lemma_power_doubled(element_modulus(), modulus() as int, 5212649547913294812005808919108182501344092303921192253363489931763856108385021542260653626406855936926867558958250int, 37803176332711640190180nat, 4337622820506368973787148827802514329683072896380360180653404093738505975943510058149072571716081027565396327520484int);
    assert(2325140815832291047552668917632050229881153088451108710419765959121986416808659493706653366086668365979538328562799int == (((4337622820506368973787148827802514329683072896380360180653404093738505975943510058149072571716081027565396327520484int * 4337622820506368973787148827802514329683072896380360180653404093738505975943510058149072571716081027565396327520484int) % (modulus() as int)) * element_modulus()) % (
        modulus() as int)) by (nonlinear_arith);
    lemma_power_doubled_plus_one(element_modulus(), modulus() as int, 4337622820506368973787148827802514329683072896380360180653404093738505975943510058149072571716081027565396327520484int, 75606352665423280380360nat, 2325140815832291047552668917632050229881153088451108710419765959121986416808659493706653366086668365979538328562799int);
    assert(2482392826601536326929293152117790674095184668399717615858733411384703348099602168621670173294341548836016042979386int == (2325140815832291047552668917632050229881153088451108710419765959121986416808659493706653366086668365979538328562799int * 2325140815832291047552668917632050229881153088451108710419765959121986416808659493706653366086668365979538328562799int) % (modulus() as int)) by (nonlinear_arith);
    lemma_power_doubled(element_modulus(), modulus() as int, 2325140815832291047552668917632050229881153088451108710419765959121986416808659493706653366086668365979538328562799int, 151212705330846560760721nat, 2482392826601536326929293152117790674095184668399717615858733411384703348099602168621670173294341548836016042979386int);
    assert(234352822619823553492952066341168265531238959521792691552651935639821324020168163131729196469088139531075043095759int == (((2482392826601536326929293152117790674095184668399717615858733411384703348099602168621670173294341548836016042979386int * 2482392826601536326929293152117790674095184668399717615858733411384703348099602168621670173294341548836016042979386int) % (modulus() as int)) * element_modulus()) % (
        modulus() as int)) by (nonlinear_arith);
    lemma_power_doubled_plus_one(element_modulus(), modulus() as int, 2482392826601536326929293152117790674095184668399717615858733411384703348099602168621670173294341548836016042979386int, 302425410661693121521442nat, 234352822619823553492952066341168265531238959521792691552651935639821324020168163131729196469088139531075043095759int);
    assert(1151915673966727932740234791077965800939733492478027722872302859043553306537080542680808717793223372957883048035281int == (((234352822619823553492952066341168265531238959521792691552651935639821324020168163131729196469088139531075043095759int * 234352822619823553492952066341168265531238959521792691552651935639821324020168163131729196469088139531075043095759int) % (modulus() as int)) * element_modulus()) % (
        modulus() as int)) by (nonlinear_arith);
    lemma_power_doubled_plus_one(element_modulus(), modulus() as int, 234352822619823553492952066341168265531238959521792691552651935639821324020168163131729196469088139531075043095759int, 604850821323386243042885nat, 1151915673966727932740234791077965800939733492478027722872302859043553306537080542680808717793223372957883048035281int);
    assert(711415824448548597437597281627872585096788951880257442652446051108643430858758729513264306076149913215702632121562int == (1151915673966727932740234791077965800939733492478027722872302859043553306537080542680808717793223372957883048035281int * 1151915673966727932740234791077965800939733492478027722872302859043553306537080542680808717793223372957883048035281int) % (modulus() as int)) by (nonlinear_arith);
    lemma_power_doubled(element_modulus(), modulus() as int, 1151915673966727932740234791077965800939733492478027722872302859043553306537080542680808717793223372957883048035281int, 1209701642646772486085771nat, 711415824448548597437597281627872585096788951880257442652446051108643430858758729513264306076149913215702632121562int);
    assert(1920122996056650844741320566977370938870321257650702791692520927881216659223354359703790221213869214393169194733825int == (((711415824448548597437597281627872585096788951880257442652446051108643430858758729513264306076149913215702632121562int * 711415824448548597437597281627872585096788951880257442652446051108643430858758729513264306076149913215702632121562int) % (modulus() as int)) * element_modulus()) % (
        modulus() as int)) by (nonlinear_arith);
    lemma_power_doubled_plus_one(element_modulus(), modulus() as int, 711415824448548597437597281627872585096788951880257442652446051108643430858758729513264306076149913215702632121562int, 2419403285293544972171542nat, 1920122996056650844741320566977370938870321257650702791692520927881216659223354359703790221213869214393169194733825int);
    assert(444180459747216278806799402078842434707934793785544961181408629512401210295461492041018629426326964166685213486627int == (1920122996056650844741320566977370938870321257650702791692520927881216659223354359703790221213869214393169194733825int * 1920122996056650844741320566977370938870321257650702791692520927881216659223354359703790221213869214393169194733825int) % (modulus() as int)) by (nonlinear_arith);
    lemma_power_doubled(element_modulus(), modulus() as int, 1920122996056650844741320566977370938870321257650702791692520927881216659223354359703790221213869214393169194733825int, 4838806570587089944343085nat, 444180459747216278806799402078842434707934793785544961181408629512401210295461492041018629426326964166685213486627int);
    assert(2904193702278319181554185523169585562145749008431574500742362897282346151652116421123291187188165865815248678608711int == (((444180459747216278806799402078842434707934793785544961181408629512401210295461492041018629426326964166685213486627int * 444180459747216278806799402078842434707934793785544961181408629512401210295461492041018629426326964166685213486627int) % (modulus() as int)) * element_modulus()) % (
        modulus() as int)) by (nonlinear_arith);
    lemma_power_doubled_plus_one(element_modulus(), modulus() as int, 444180459747216278806799402078842434707934793785544961181408629512401210295461492041018629426326964166685213486627int, 9677613141174179888686170nat, 2904193702278319181554185523169585562145749008431574500742362897282346151652116421123291187188165865815248678608711int);
    assert(3937109220337139264800522019980833372208697198784817597691476602244806024027934943300427865968712924183262085937058int == (((2904193702278319181554185523169585562145749008431574500742362897282346151652116421123291187188165865815248678608711int * 2904193702278319181554185523169585562145749008431574500742362897282346151652116421123291187188165865815248678608711int) % (modulus() as int)) * element_modulus()) % (
        modulus() as int)) by (nonlinear_arith);
    lemma_power_doubled_plus_one(element_modulus(), modulus() as int, 2904193702278319181554185523169585562145749008431574500742362897282346151652116421123291187188165865815248678608711int, 19355226282348359777372341nat, 3937109220337139264800522019980833372208697198784817597691476602244806024027934943300427865968712924183262085937058int);
    assert(1577960218146629730892315774995472099131401385138424233015842871850870711361940405623059456839630028860651394001712int == (3937109220337139264800522019980833372208697198784817597691476602244806024027934943300427865968712924183262085937058int * 3937109220337139264800522019980833372208697198784817597691476602244806024027934943300427865968712924183262085937058int) % (modulus() as int)) by (nonlinear_arith);
    lemma_power_doubled(element_modulus(), modulus() as int, 3937109220337139264800522019980833372208697198784817597691476602244806024027934943300427865968712924183262085937058int, 38710452564696719554744683nat, 1577960218146629730892315774995472099131401385138424233015842871850870711361940405623059456839630028860651394001712int);
    assert(1013434128057498363152502195077101509781438926488266520222817149535864741555657198856117313371358870878982343813651int == (((1577960218146629730892315774995472099131401385138424233015842871850870711361940405623059456839630028860651394001712int * 1577960218146629730892315774995472099131401385138424233015842871850870711361940405623059456839630028860651394001712int) % (modulus() as int)) * element_modulus()) % (
        modulus() as int)) by (nonlinear_arith);
    lemma_power_doubled_plus_one(element_modulus(), modulus() as int, 1577960218146629730892315774995472099131401385138424233015842871850870711361940405623059456839630028860651394001712int, 77420905129393439109489366nat, 1013434128057498363152502195077101509781438926488266520222817149535864741555657198856117313371358870878982343813651int);
    assert(4466115280472472694052736647677746208798371834576707304726479798110924774883549139634612367975296104363979125557971int == (1013434128057498363152502195077101509781438926488266520222817149535864741555657198856117313371358870878982343813651int * 1013434128057498363152502195077101509781438926488266520222817149535864741555657198856117313371358870878982343813651int) % (modulus() as int)) by (nonlinear_arith);
    lemma_power_doubled(element_modulus(), modulus() as int, 1013434128057498363152502195077101509781438926488266520222817149535864741555657198856117313371358870878982343813651int, 154841810258786878218978733nat, 4466115280472472694052736647677746208798371834576707304726479798110924774883549139634612367975296104363979125557971int);
    assert(140197416675740545513972481380905947915913823419782962383650137522181379414931071511973904069921864091449494764780int == (4466115280472472694052736647677746208798371834576707304726479798110924774883549139634612367975296104363979125557971int * 4466115280472472694052736647677746208798371834576707304726479798110924774883549139634612367975296104363979125557971int) % (modulus() as int)) by (nonlinear_arith);
    lemma_power_doubled(element_modulus(), modulus() as int, 4466115280472472694052736647677746208798371834576707304726479798110924774883549139634612367975296104363979125557971int, 309683620517573756437957466nat, 140197416675740545513972481380905947915913823419782962383650137522181379414931071511973904069921864091449494764780int);
    assert(597960645086442273729511418928669053223529005842987402265491755680150298297588528308483848567624769728058310031352int == (140197416675740545513972481380905947915913823419782962383650137522181379414931071511973904069921864091449494764780int * 140197416675740545513972481380905947915913823419782962383650137522181379414931071511973904069921864091449494764780int) % (modulus() as int)) by (nonlinear_arith);
    lemma_power_doubled(element_modulus(), modulus() as int, 140197416675740545513972481380905947915913823419782962383650137522181379414931071511973904069921864091449494764780int, 619367241035147512875914932nat, 597960645086442273729511418928669053223529005842987402265491755680150298297588528308483848567624769728058310031352int);
    assert(5466015538124370965246632351873555222998851534474720998390381564825059052342880227615492373335376821762061363067877int == (((597960645086442273729511418928669053223529005842987402265491755680150298297588528308483848567624769728058310031352int * 597960645086442273729511418928669053223529005842987402265491755680150298297588528308483848567624769728058310031352int) % (modulus() as int)) * element_modulus()) % (
        modulus() as int)) by (nonlinear_arith);
    lemma_power_doubled_plus_one(element_modulus(), modulus() as int, 597960645086442273729511418928669053223529005842987402265491755680150298297588528308483848567624769728058310031352int, 1238734482070295025751829864nat, 5466015538124370965246632351873555222998851534474720998390381564825059052342880227615492373335376821762061363067877int);
    assert(2681286728808179275244626551033915249494728458204703542269206586299703631693821204095057089910346023494802324205428int == (((5466015538124370965246632351873555222998851534474720998390381564825059052342880227615492373335376821762061363067877int * 5466015538124370965246632351873555222998851534474720998390381564825059052342880227615492373335376821762061363067877int) % (modulus() as int)) * element_modulus()) % (
        modulus() as int)) by (nonlinear_arith);
    lemma_power_doubled_plus_one(element_modulus(), modulus() as int, 5466015538124370965246632351873555222998851534474720998390381564825059052342880227615492373335376821762061363067877int, 2477468964140590051503659729nat, 2681286728808179275244626551033915249494728458204703542269206586299703631693821204095057089910346023494802324205428int);
    assert(5157772921833033342396824774942231734624782678303319893027731397521985070600607289712972496308044947028317367393045int == (2681286728808179275244626551033915249494728458204703542269206586299703631693821204095057089910346023494802324205428int * 2681286728808179275244626551033915249494728458204703542269206586299703631693821204095057089910346023494802324205428int) % (modulus() as int)) by (nonlinear_arith);
    lemma_power_doubled(element_modulus(), modulus() as int, 2681286728808179275244626551033915249494728458204703542269206586299703631693821204095057089910346023494802324205428int, 4954937928281180103007319459nat, 5157772921833033342396824774942231734624782678303319893027731397521985070600607289712972496308044947028317367393045int);
    assert(3586307512868891091284904562037498029317993689557318728929587932700069520350901130222982943725482324549806057014985int == (((5157772921833033342396824774942231734624782678303319893027731397521985070600607289712972496308044947028317367393045int * 5157772921833033342396824774942231734624782678303319893027731397521985070600607289712972496308044947028317367393045int) % (modulus() as int)) * element_modulus()) % (
        modulus() as int)) by (nonlinear_arith);
    lemma_power_doubled_plus_one(element_modulus(), modulus() as int, 5157772921833033342396824774942231734624782678303319893027731397521985070600607289712972496308044947028317367393045int, 9909875856562360206014638918nat, 3586307512868891091284904562037498029317993689557318728929587932700069520350901130222982943725482324549806057014985int);
    assert(4742943078512583205101248827059091786389305971001925805745155479918951260246862285885585044164498861949556012425252int == (((3586307512868891091284904562037498029317993689557318728929587932700069520350901130222982943725482324549806057014985int * 3586307512868891091284904562037498029317993689557318728929587932700069520350901130222982943725482324549806057014985int) % (modulus() as int)) * element_modulus()) % (
        modulus() as int)) by (nonlinear_arith);
    lemma_power_doubled_plus_one(element_modulus(), modulus() as int, 3586307512868891091284904562037498029317993689557318728929587932700069520350901130222982943725482324549806057014985int, 19819751713124720412029277837nat, 4742943078512583205101248827059091786389305971001925805745155479918951260246862285885585044164498861949556012425252int);
}

/// The power of `element_modulus` to the leading 128 bits of `prime_224`.
proof fn lemma_power_modulus_128()
    ensures
        pow_mod(element_modulus(), 170250370845421296277618786617023599031nat, modulus() as int) == 5330394378457417556318656525222416918852533296053257787005978343194615198761274709564628104532900973275863454038761int,
{
    lemma_power_modulus_96();
    assert(3686034856262272542677541099638738725515752190188365444918831167388081270251120264562717309241120327519468528935777int == (((4742943078512583205101248827059091786389305971001925805745155479918951260246862285885585044164498861949556012425252int * 4742943078512583205101248827059091786389305971001925805745155479918951260246862285885585044164498861949556012425252int) % (modulus() as int)) * element_modulus()) % (
        modulus() as int)) by (nonlinear_arith);
    lemma_power_doubled_plus_one(element_modulus(), modulus() as int, 4742943078512583205101248827059091786389305971001925805745155479918951260246862285885585044164498861949556012425252int, 39639503426249440824058555675nat, 3686034856262272542677541099638738725515752190188365444918831167388081270251120264562717309241120327519468528935777int);
    assert(2642796237148228784196138945284615117662664451185242644043638363081651092024674635673640601562040026251755669673133int == (((3686034856262272542677541099638738725515752190188365444918831167388081270251120264562717309241120327519468528935777int * 3686034856262272542677541099638738725515752190188365444918831167388081270251120264562717309241120327519468528935777int) % (modulus() as int)) * element_modulus()) % (
        modulus() as int)) by (nonlinear_arith);
    lemma_power_doubled_plus_one(element_modulus(), modulus() as int, 3686034856262272542677541099638738725515752190188365444918831167388081270251120264562717309241120327519468528935777int, 79279006852498881648117111351nat, 2642796237148228784196138945284615117662664451185242644043638363081651092024674635673640601562040026251755669673133int);
    assert(4281697182425445566709730698627665603682474852050100713676853788443104346535127126386857516485280949146885034005658int == (((2642796237148228784196138945284615117662664451185242644043638363081651092024674635673640601562040026251755669673133int * 2642796237148228784196138945284615117662664451185242644043638363081651092024674635673640601562040026251755669673133int) % (modulus() as int)) * element_modulus()) % (
        modulus() as int)) by (nonlinear_arith);
    lemma_power_doubled_plus_one(element_modulus(), modulus() as int, 2642796237148228784196138945284615117662664451185242644043638363081651092024674635673640601562040026251755669673133int, 158558013704997763296234222703nat, 4281697182425445566709730698627665603682474852050100713676853788443104346535127126386857516485280949146885034005658int);
    assert(1369079603169048188855848137414194530970168674276514594124042958356651013917255325301178851300596149626725966890148int == (4281697182425445566709730698627665603682474852050100713676853788443104346535127126386857516485280949146885034005658int * 4281697182425445566709730698627665603682474852050100713676853788443104346535127126386857516485280949146885034005658int) % (modulus() as int)) by (nonlinear_arith);
    lemma_power_doubled(element_modulus(), modulus() as int, 4281697182425445566709730698627665603682474852050100713676853788443104346535127126386857516485280949146885034005658int, 317116027409995526592468445407nat, 1369079603169048188855848137414194530970168674276514594124042958356651013917255325301178851300596149626725966890148int);
    assert(5323397276228593121211002550901590150963604505314089879048818601831463145775717116935950110827995228821279225962617int == (((1369079603169048188855848137414194530970168674276514594124042958356651013917255325301178851300596149626725966890148int * 1369079603169048188855848137414194530970168674276514594124042958356651013917255325301178851300596149626725966890148int) % (modulus() as int)) * element_modulus()) % (
        modulus() as int)) by (nonlinear_arith);
    lemma_power_doubled_plus_one(element_modulus(), modulus() as int, 1369079603169048188855848137414194530970168674276514594124042958356651013917255325301178851300596149626725966890148int, 634232054819991053184936890814nat, 5323397276228593121211002550901590150963604505314089879048818601831463145775717116935950110827995228821279225962617int);
    assert(187604560737924350028393388590413964441389963944871034674659903757960759002973629527210781296479810298987590765447int == (5323397276228593121211002550901590150963604505314089879048818601831463145775717116935950110827995228821279225962617int * 5323397276228593121211002550901590150963604505314089879048818601831463145775717116935950110827995228821279225962617int) % (modulus() as int)) by (nonlinear_arith);
    lemma_power_doubled(element_modulus(), modulus() as int, 5323397276228593121211002550901590150963604505314089879048818601831463145775717116935950110827995228821279225962617int, 1268464109639982106369873781629nat, 187604560737924350028393388590413964441389963944871034674659903757960759002973629527210781296479810298987590765447int);
    assert(2090593492977097397527362840100753601038705471328271060241340266634873397005277993749355825259170090939793269082817int == (187604560737924350028393388590413964441389963944871034674659903757960759002973629527210781296479810298987590765447int * 187604560737924350028393388590413964441389963944871034674659903757960759002973629527210781296479810298987590765447int) % (modulus() as int)) by (nonlinear_arith);
    lemma_power_doubled(element_modulus(), modulus() as int, 187604560737924350028393388590413964441389963944871034674659903757960759002973629527210781296479810298987590765447int, 2536928219279964212739747563258nat, 2090593492977097397527362840100753601038705471328271060241340266634873397005277993749355825259170090939793269082817int);
    assert(3776401634206998391554168354000318817918814417497165327139882118288400306439803472663225917423300448016096384968461int == (2090593492977097397527362840100753601038705471328271060241340266634873397005277993749355825259170090939793269082817int * 2090593492977097397527362840100753601038705471328271060241340266634873397005277993749355825259170090939793269082817int) % (modulus() as int)) by (nonlinear_arith);
    lemma_power_doubled(element_modulus(), modulus() as int, 2090593492977097397527362840100753601038705471328271060241340266634873397005277993749355825259170090939793269082817int, 5073856438559928425479495126516nat, 3776401634206998391554168354000318817918814417497165327139882118288400306439803472663225917423300448016096384968461int);
    assert(3849008357426684460283282724489313280019553803231519815895036881260037133859506415486899067689759602016570192391863int == (((3776401634206998391554168354000318817918814417497165327139882118288400306439803472663225917423300448016096384968461int * 3776401634206998391554168354000318817918814417497165327139882118288400306439803472663225917423300448016096384968461int) % (modulus() as int)) * element_modulus()) % (
        modulus() as int)) by (nonlinear_arith);
    lemma_power_doubled_plus_one(element_modulus(), modulus() as int, 3776401634206998391554168354000318817918814417497165327139882118288400306439803472663225917423300448016096384968461int, 10147712877119856850958990253032nat, 3849008357426684460283282724489313280019553803231519815895036881260037133859506415486899067689759602016570192391863int);
    assert(5379889052679086110674497144623829768906108981134678958953496454523188807237701280273352941745586319395955407117176int == (3849008357426684460283282724489313280019553803231519815895036881260037133859506415486899067689759602016570192391863int * 3849008357426684460283282724489313280019553803231519815895036881260037133859506415486899067689759602016570192391863int) % (modulus() as int)) by (nonlinear_arith);
    lemma_power_doubled(element_modulus(), modulus() as int, 3849008357426684460283282724489313280019553803231519815895036881260037133859506415486899067689759602016570192391863int, 20295425754239713701917980506065nat, 5379889052679086110674497144623829768906108981134678958953496454523188807237701280273352941745586319395955407117176int);
    assert(2527182596302679172649446443130106027711831609458840453871431875676497798487278686587856209640936220019096485319348int == (((5379889052679086110674497144623829768906108981134678958953496454523188807237701280273352941745586319395955407117176int * 5379889052679086110674497144623829768906108981134678958953496454523188807237701280273352941745586319395955407117176int) % (modulus() as int)) * element_modulus()) % (
        modulus() as int)) by (nonlinear_arith);
    lemma_power_doubled_plus_one(element_modulus(), modulus() as int, 5379889052679086110674497144623829768906108981134678958953496454523188807237701280273352941745586319395955407117176int, 40590851508479427403835961012130nat, 2527182596302679172649446443130106027711831609458840453871431875676497798487278686587856209640936220019096485319348int);
    assert(121688312745250582005232353994419371280801991258081721717714403248031160822248934505070743311872475918660078525505int == (2527182596302679172649446443130106027711831609458840453871431875676497798487278686587856209640936220019096485319348int * 2527182596302679172649446443130106027711831609458840453871431875676497798487278686587856209640936220019096485319348int) % (modulus() as int)) by (nonlinear_arith);
    lemma_power_doubled(element_modulus(), modulus() as int, 2527182596302679172649446443130106027711831609458840453871431875676497798487278686587856209640936220019096485319348int, 81181703016958854807671922024261nat, 121688312745250582005232353994419371280801991258081721717714403248031160822248934505070743311872475918660078525505int);
    assert(2368082827999841485124743269681281223485643550611220336849055748222631577033402689468948369870154351422110364798400int == (((121688312745250582005232353994419371280801991258081721717714403248031160822248934505070743311872475918660078525505int * 121688312745250582005232353994419371280801991258081721717714403248031160822248934505070743311872475918660078525505int) % (modulus() as int)) * element_modulus()) % (
        modulus() as int)) by (nonlinear_arith);
    lemma_power_doubled_plus_one(element_modulus(), modulus() as int, 121688312745250582005232353994419371280801991258081721717714403248031160822248934505070743311872475918660078525505int, 162363406033917709615343844048522nat, 2368082827999841485124743269681281223485643550611220336849055748222631577033402689468948369870154351422110364798400int);
    assert(180266504906721454340087422574463295527327071387974505622126293010779231885106204865532322700745998991020121937412int == (2368082827999841485124743269681281223485643550611220336849055748222631577033402689468948369870154351422110364798400int * 2368082827999841485124743269681281223485643550611220336849055748222631577033402689468948369870154351422110364798400int) % (modulus() as int)) by (nonlinear_arith);
    lemma_power_doubled(element_modulus(), modulus() as int, 2368082827999841485124743269681281223485643550611220336849055748222631577033402689468948369870154351422110364798400int, 324726812067835419230687688097045nat, 180266504906721454340087422574463295527327071387974505622126293010779231885106204865532322700745998991020121937412int);
    assert(2369810946010124587962928059348655440084130396809576196156644865352700000166096742425728799919554300932499222196898int == (180266504906721454340087422574463295527327071387974505622126293010779231885106204865532322700745998991020121937412int * 180266504906721454340087422574463295527327071387974505622126293010779231885106204865532322700745998991020121937412int) % (modulus() as int)) by (nonlinear_arith);
    lemma_power_doubled(element_modulus(), modulus() as int, 180266504906721454340087422574463295527327071387974505622126293010779231885106204865532322700745998991020121937412int, 649453624135670838461375376194090nat, 2369810946010124587962928059348655440084130396809576196156644865352700000166096742425728799919554300932499222196898int);
    assert(5448701933950119560609088879480874530906680986492374263274731428275325910058838320324963402392613542277807174919663int == (((2369810946010124587962928059348655440084130396809576196156644865352700000166096742425728799919554300932499222196898int * 2369810946010124587962928059348655440084130396809576196156644865352700000166096742425728799919554300932499222196898int) % (modulus() as int)) * element_modulus()) % (
        modulus() as int)) by (nonlinear_arith);
    lemma_power_doubled_plus_one(element_modulus(), modulus() as int, 2369810946010124587962928059348655440084130396809576196156644865352700000166096742425728799919554300932499222196898int, 1298907248271341676922750752388180nat, 5448701933950119560609088879480874530906680986492374263274731428275325910058838320324963402392613542277807174919663int);
    assert(675264794851793915742868596365170003700672984008252007781666612713498202076447607187649829795038185494169763656109int == (5448701933950119560609088879480874530906680986492374263274731428275325910058838320324963402392613542277807174919663int * 5448701933950119560609088879480874530906680986492374263274731428275325910058838320324963402392613542277807174919663int) % (modulus() as int)) by (nonlinear_arith);
    lemma_power_doubled(element_modulus(), modulus() as int, 5448701933950119560609088879480874530906680986492374263274731428275325910058838320324963402392613542277807174919663int, 2597814496542683353845501504776361nat, 675264794851793915742868596365170003700672984008252007781666612713498202076447607187649829795038185494169763656109int);
    assert(1831225838598253149260807094222991334917764927669294318159770829317939664259521304824418637929632067767847881115723int == (675264794851793915742868596365170003700672984008252007781666612713498202076447607187649829795038185494169763656109int * 675264794851793915742868596365170003700672984008252007781666612713498202076447607187649829795038185494169763656109int) % (modulus() as int)) by (nonlinear_arith);
    lemma_power_doubled(element_modulus(), modulus() as int, 675264794851793915742868596365170003700672984008252007781666612713498202076447607187649829795038185494169763656109int, 5195628993085366707691003009552722nat, 1831225838598253149260807094222991334917764927669294318159770829317939664259521304824418637929632067767847881115723int);
    assert(641656648922593792162301141054443650833513896896045042911211948368608972507701476304476202489652859148626758086618int == (1831225838598253149260807094222991334917764927669294318159770829317939664259521304824418637929632067767847881115723int * 1831225838598253149260807094222991334917764927669294318159770829317939664259521304824418637929632067767847881115723int) % (modulus() as int)) by (nonlinear_arith);
    lemma_power_doubled(element_modulus(), modulus() as int, 1831225838598253149260807094222991334917764927669294318159770829317939664259521304824418637929632067767847881115723int, 10391257986170733415382006019105444nat, 641656648922593792162301141054443650833513896896045042911211948368608972507701476304476202489652859148626758086618int);
    assert(4145460058066051659028874071182946933128349257638621856123307829701581021206027950288213880530330833506945096525381int == (((641656648922593792162301141054443650833513896896045042911211948368608972507701476304476202489652859148626758086618int * 641656648922593792162301141054443650833513896896045042911211948368608972507701476304476202489652859148626758086618int) % (modulus() as int)) * element_modulus()) % (
        modulus() as int)) by (nonlinear_arith);
    lemma_power_doubled_plus_one(element_modulus(), modulus() as int, 641656648922593792162301141054443650833513896896045042911211948368608972507701476304476202489652859148626758086618int, 20782515972341466830764012038210888nat, 4145460058066051659028874071182946933128349257638621856123307829701581021206027950288213880530330833506945096525381int);
    assert(3492794738625407440855346389195758275995445362091083102932759757744538806745747248205450459398992450750201932311242int == (4145460058066051659028874071182946933128349257638621856123307829701581021206027950288213880530330833506945096525381int * 4145460058066051659028874071182946933128349257638621856123307829701581021206027950288213880530330833506945096525381int) % (modulus() as int)) by (nonlinear_arith);
    lemma_power_doubled(element_modulus(), modulus() as int, 4145460058066051659028874071182946933128349257638621856123307829701581021206027950288213880530330833506945096525381int, 41565031944682933661528024076421777nat, 3492794738625407440855346389195758275995445362091083102932759757744538806745747248205450459398992450750201932311242int);
    assert(3743725533303565529090835010241402924392698085957609963090840406814945718382933058898008029501373330251404225713515int == (3492794738625407440855346389195758275995445362091083102932759757744538806745747248205450459398992450750201932311242int * 3492794738625407440855346389195758275995445362091083102932759757744538806745747248205450459398992450750201932311242int) % (modulus() as int)) by (nonlinear_arith);
    lemma_power_doubled(element_modulus(), modulus() as int, 3492794738625407440855346389195758275995445362091083102932759757744538806745747248205450459398992450750201932311242int, 83130063889365867323056048152843554nat, 3743725533303565529090835010241402924392698085957609963090840406814945718382933058898008029501373330251404225713515int);
    assert(473231221646684271735155913374217143843388920670401526772800058389216344143511001637113007902222162743657643366248int == (3743725533303565529090835010241402924392698085957609963090840406814945718382933058898008029501373330251404225713515int * 3743725533303565529090835010241402924392698085957609963090840406814945718382933058898008029501373330251404225713515int) % (modulus() as int)) by (nonlinear_arith);
    lemma_power_doubled(element_modulus(), modulus() as int, 3743725533303565529090835010241402924392698085957609963090840406814945718382933058898008029501373330251404225713515int, 166260127778731734646112096305687108nat, 473231221646684271735155913374217143843388920670401526772800058389216344143511001637113007902222162743657643366248int);
    assert(3723939194065262190372094639965457752739450555831160907431552923996641297686965884048711987959421345819633837702567int == (((473231221646684271735155913374217143843388920670401526772800058389216344143511001637113007902222162743657643366248int * 473231221646684271735155913374217143843388920670401526772800058389216344143511001637113007902222162743657643366248int) % (modulus() as int)) * element_modulus()) % (
        modulus() as int)) by (nonlinear_arith);
    lemma_power_doubled_plus_one(element_modulus(), modulus() as int, 473231221646684271735155913374217143843388920670401526772800058389216344143511001637113007902222162743657643366248int, 332520255557463469292224192611374216nat, 3723939194065262190372094639965457752739450555831160907431552923996641297686965884048711987959421345819633837702567int);
    assert(191288511755387024737442678092391706354584646016074314352537715879393202539355833728772355358799886656816263882361int == (((3723939194065262190372094639965457752739450555831160907431552923996641297686965884048711987959421345819633837702567int * 3723939194065262190372094639965457752739450555831160907431552923996641297686965884048711987959421345819633837702567int) % (modulus() as int)) * element_modulus()) % (
        modulus() as int)) by (nonlinear_arith);
    lemma_power_doubled_plus_one(element_modulus(), modulus() as int, 3723939194065262190372094639965457752739450555831160907431552923996641297686965884048711987959421345819633837702567int, 665040511114926938584448385222748433nat, 191288511755387024737442678092391706354584646016074314352537715879393202539355833728772355358799886656816263882361int);
    assert(352419930147200918278771702866558415103430256720471393509514539603765367221433282897747746096118769481576645533430int == (191288511755387024737442678092391706354584646016074314352537715879393202539355833728772355358799886656816263882361int * 191288511755387024737442678092391706354584646016074314352537715879393202539355833728772355358799886656816263882361int) % (modulus() as int)) by (nonlinear_arith);
    lemma_power_doubled(element_modulus(), modulus() as int, 191288511755387024737442678092391706354584646016074314352537715879393202539355833728772355358799886656816263882361int, 1330081022229853877168896770445496867nat, 352419930147200918278771702866558415103430256720471393509514539603765367221433282897747746096118769481576645533430int);
    assert(5411461708194173845210282883495116227817097965791481052081202109579718180815284123506516280468450235393115425432637int == (((352419930147200918278771702866558415103430256720471393509514539603765367221433282897747746096118769481576645533430int * 352419930147200918278771702866558415103430256720471393509514539603765367221433282897747746096118769481576645533430int) % (modulus() as int)) * element_modulus()) % (
        modulus() as int)) by (nonlinear_arith);
    lemma_power_doubled_plus_one(element_modulus(), modulus() as int, 352419930147200918278771702866558415103430256720471393509514539603765367221433282897747746096118769481576645533430int, 2660162044459707754337793540890993734nat, 5411461708194173845210282883495116227817097965791481052081202109579718180815284123506516280468450235393115425432637int);
    assert(3857510495040508307640465703785084932424912219044616793712576550199344526914323253007953079692582511063891466286026int == (((5411461708194173845210282883495116227817097965791481052081202109579718180815284123506516280468450235393115425432637int * 5411461708194173845210282883495116227817097965791481052081202109579718180815284123506516280468450235393115425432637int) % (modulus() as int)) * element_modulus()) % (
        modulus() as int)) by (nonlinear_arith);
    lemma_power_doubled_plus_one(element_modulus(), modulus() as int, 5411461708194173845210282883495116227817097965791481052081202109579718180815284123506516280468450235393115425432637int, 5320324088919415508675587081781987469nat, 3857510495040508307640465703785084932424912219044616793712576550199344526914323253007953079692582511063891466286026int);
    assert(2676597378691624568978305144420040438956676579102470289901341516673343901166950970791994939128637359224617479325490int == (3857510495040508307640465703785084932424912219044616793712576550199344526914323253007953079692582511063891466286026int * 3857510495040508307640465703785084932424912219044616793712576550199344526914323253007953079692582511063891466286026int) % (modulus() as int)) by (nonlinear_arith);
    lemma_power_doubled(element_modulus(), modulus() as int, 3857510495040508307640465703785084932424912219044616793712576550199344526914323253007953079692582511063891466286026int, 10640648177838831017351174163563974939nat, 2676597378691624568978305144420040438956676579102470289901341516673343901166950970791994939128637359224617479325490int);
    assert(169522803594218913438028358552494387161014268646509204829892329508107828656334693886556687129149538364352169985883int == (((2676597378691624568978305144420040438956676579102470289901341516673343901166950970791994939128637359224617479325490int * 2676597378691624568978305144420040438956676579102470289901341516673343901166950970791994939128637359224617479325490int) % (modulus() as int)) * element_modulus()) % (
        modulus() as int)) by (nonlinear_arith);
    lemma_power_doubled_plus_one(element_modulus(), modulus() as int, 2676597378691624568978305144420040438956676579102470289901341516673343901166950970791994939128637359224617479325490int, 21281296355677662034702348327127949878nat, 169522803594218913438028358552494387161014268646509204829892329508107828656334693886556687129149538364352169985883int);
    assert(1090862013304251996076556693915912743192483629733325435895148067133387530632739892775637499077899297018475023253282int == (((169522803594218913438028358552494387161014268646509204829892329508107828656334693886556687129149538364352169985883int * 169522803594218913438028358552494387161014268646509204829892329508107828656334693886556687129149538364352169985883int) % (modulus() as int)) * element_modulus()) % (
        modulus() as int)) by (nonlinear_arith);
    lemma_power_doubled_plus_one(element_modulus(), modulus() as int, 169522803594218913438028358552494387161014268646509204829892329508107828656334693886556687129149538364352169985883int, 42562592711355324069404696654255899757nat, 1090862013304251996076556693915912743192483629733325435895148067133387530632739892775637499077899297018475023253282int);
    assert(5330394378457417556318656525222416918852533296053257787005978343194615198761274709564628104532900973275863454038761int == (((1090862013304251996076556693915912743192483629733325435895148067133387530632739892775637499077899297018475023253282int * 1090862013304251996076556693915912743192483629733325435895148067133387530632739892775637499077899297018475023253282int) % (modulus() as int)) * element_modulus()) % (
        modulus() as int)) by (nonlinear_arith);
    lemma_power_doubled_plus_one(element_modulus(), modulus() as int, 1090862013304251996076556693915912743192483629733325435895148067133387530632739892775637499077899297018475023253282int, 85125185422710648138809393308511799515nat, 5330394378457417556318656525222416918852533296053257787005978343194615198761274709564628104532900973275863454038761int);
}

/// The power of `element_modulus` to the leading 160 bits of `prime_224`.
proof fn lemma_power_modulus_160()
    ensures
        pow_mod(element_modulus(), 731219774912956338854299225275318834702026949722nat, modulus() as int) == 1688990809656462597244562301887877261030690061001122046915258909623111057227382004726946305964420875627282949134765int,
{
    lemma_power_modulus_128();
    assert(1859233617578661465981128120696171764722271184685592826360745451319739179117101781338696792273592197998672094239554int == (((5330394378457417556318656525222416918852533296053257787005978343194615198761274709564628104532900973275863454038761int * 5330394378457417556318656525222416918852533296053257787005978343194615198761274709564628104532900973275863454038761int) % (modulus() as int)) * element_modulus()) % (
        modulus() as int)) by (nonlinear_arith);
    lemma_power_doubled_plus_one(element_modulus(), modulus() as int, 5330394378457417556318656525222416918852533296053257787005978343194615198761274709564628104532900973275863454038761int, 170250370845421296277618786617023599031nat, 1859233617578661465981128120696171764722271184685592826360745451319739179117101781338696792273592197998672094239554int);
    assert(1646783541485532546845496743032126066268273861537285890858425495188044910051547374095231904479371182868307781677777int == (((1859233617578661465981128120696171764722271184685592826360745451319739179117101781338696792273592197998672094239554int * 1859233617578661465981128120696171764722271184685592826360745451319739179117101781338696792273592197998672094239554int) % (modulus() as int)) * element_modulus()) % (
        modulus() as int)) by (nonlinear_arith);
    lemma_power_doubled_plus_one(element_modulus(), modulus() as int, 1859233617578661465981128120696171764722271184685592826360745451319739179117101781338696792273592197998672094239554int, 340500741690842592555237573234047198063nat, 1646783541485532546845496743032126066268273861537285890858425495188044910051547374095231904479371182868307781677777int);
    assert(2140134193309050821764361496006521204037164000861800493318941379615660374057076452718314290477541732527465614394435int == (1646783541485532546845496743032126066268273861537285890858425495188044910051547374095231904479371182868307781677777int * 1646783541485532546845496743032126066268273861537285890858425495188044910051547374095231904479371182868307781677777int) % (modulus() as int)) by (nonlinear_arith);
    lemma_power_doubled(element_modulus(), modulus() as int, 1646783541485532546845496743032126066268273861537285890858425495188044910051547374095231904479371182868307781677777int, 681001483381685185110475146468094396127nat, 2140134193309050821764361496006521204037164000861800493318941379615660374057076452718314290477541732527465614394435int);
    assert(1990053032938429541151269927528898640479105164396443428612740379559294306265243496401805770036063213924757586188401int == (((2140134193309050821764361496006521204037164000861800493318941379615660374057076452718314290477541732527465614394435int * 2140134193309050821764361496006521204037164000861800493318941379615660374057076452718314290477541732527465614394435int) % (modulus() as int)) * element_modulus()) % (
        modulus() as int)) by (nonlinear_arith);
    lemma_power_doubled_plus_one(element_modulus(), modulus() as int, 2140134193309050821764361496006521204037164000861800493318941379615660374057076452718314290477541732527465614394435int, 1362002966763370370220950292936188792254nat, 1990053032938429541151269927528898640479105164396443428612740379559294306265243496401805770036063213924757586188401int);
    assert(302627708659487081605114164250815877999894750705952102143672014128443250076743471949600838996077066697427561352795int == (((1990053032938429541151269927528898640479105164396443428612740379559294306265243496401805770036063213924757586188401int * 1990053032938429541151269927528898640479105164396443428612740379559294306265243496401805770036063213924757586188401int) % (modulus() as int)) * element_modulus()) % (
        modulus() as int)) by (nonlinear_arith);
    lemma_power_doubled_plus_one(element_modulus(), modulus() as int, 1990053032938429541151269927528898640479105164396443428612740379559294306265243496401805770036063213924757586188401int, 2724005933526740740441900585872377584509nat, 302627708659487081605114164250815877999894750705952102143672014128443250076743471949600838996077066697427561352795int);
    assert(785182556285756844368058833417633898219038415219267114516224122999707575336660814711052748606434207248306342640108int == (302627708659487081605114164250815877999894750705952102143672014128443250076743471949600838996077066697427561352795int * 302627708659487081605114164250815877999894750705952102143672014128443250076743471949600838996077066697427561352795int) % (modulus() as int)) by (nonlinear_arith);
    lemma_power_doubled(element_modulus(), modulus() as int, 302627708659487081605114164250815877999894750705952102143672014128443250076743471949600838996077066697427561352795int, 5448011867053481480883801171744755169019nat, 785182556285756844368058833417633898219038415219267114516224122999707575336660814711052748606434207248306342640108int);
    assert(976388703821445588921957631971958822772566485379414869741036229613097716220173506283636212709708070411003338470208int == (((785182556285756844368058833417633898219038415219267114516224122999707575336660814711052748606434207248306342640108int * 785182556285756844368058833417633898219038415219267114516224122999707575336660814711052748606434207248306342640108int) % (modulus() as int)) * element_modulus()) % (
        modulus() as int)) by (nonlinear_arith);
    lemma_power_doubled_plus_one(element_modulus(), modulus() as int, 785182556285756844368058833417633898219038415219267114516224122999707575336660814711052748606434207248306342640108int, 10896023734106962961767602343489510338038nat, 976388703821445588921957631971958822772566485379414869741036229613097716220173506283636212709708070411003338470208int);
    assert(1165866711732000006650993178972415461635492607654724043886101667931132995734905391162686954495859899195762950145718int == (976388703821445588921957631971958822772566485379414869741036229613097716220173506283636212709708070411003338470208int * 976388703821445588921957631971958822772566485379414869741036229613097716220173506283636212709708070411003338470208int) % (modulus() as int)) by (nonlinear_arith);
    lemma_power_doubled(element_modulus(), modulus() as int, 976388703821445588921957631971958822772566485379414869741036229613097716220173506283636212709708070411003338470208int, 21792047468213925923535204686979020676077nat, 1165866711732000006650993178972415461635492607654724043886101667931132995734905391162686954495859899195762950145718int);
    assert(1839700610347568709402876585894854775125208913782484411143248576172355635804289212323050104135773741754997563130975int == (1165866711732000006650993178972415461635492607654724043886101667931132995734905391162686954495859899195762950145718int * 1165866711732000006650993178972415461635492607654724043886101667931132995734905391162686954495859899195762950145718int) % (modulus() as int)) by (nonlinear_arith);
    lemma_power_doubled(element_modulus(), modulus() as int, 1165866711732000006650993178972415461635492607654724043886101667931132995734905391162686954495859899195762950145718int, 43584094936427851847070409373958041352154nat, 1839700610347568709402876585894854775125208913782484411143248576172355635804289212323050104135773741754997563130975int);
    assert(2987974384920580872347648527279197084869695262258154568458375018487459727772055521480039308363416998101230562784346int == (((1839700610347568709402876585894854775125208913782484411143248576172355635804289212323050104135773741754997563130975int * 1839700610347568709402876585894854775125208913782484411143248576172355635804289212323050104135773741754997563130975int) % (modulus() as int)) * element_modulus()) % (
        modulus() as int)) by (nonlinear_arith);
    lemma_power_doubled_plus_one(element_modulus(), modulus() as int, 1839700610347568709402876585894854775125208913782484411143248576172355635804289212323050104135773741754997563130975int, 87168189872855703694140818747916082704308nat, 2987974384920580872347648527279197084869695262258154568458375018487459727772055521480039308363416998101230562784346int);
    assert(1948696661842718495299822378236164056879917074897767871659749219056474839965438607842461240612474454161078640970696int == (((2987974384920580872347648527279197084869695262258154568458375018487459727772055521480039308363416998101230562784346int * 2987974384920580872347648527279197084869695262258154568458375018487459727772055521480039308363416998101230562784346int) % (modulus() as int)) * element_modulus()) % (
        modulus() as int)) by (nonlinear_arith);
    lemma_power_doubled_plus_one(element_modulus(), modulus() as int, 2987974384920580872347648527279197084869695262258154568458375018487459727772055521480039308363416998101230562784346int, 174336379745711407388281637495832165408617nat, 1948696661842718495299822378236164056879917074897767871659749219056474839965438607842461240612474454161078640970696int);
    assert(5263035168376898086078372934931822498477329250664252593200853695366788930903762104103202908352911482095452131304391int == (1948696661842718495299822378236164056879917074897767871659749219056474839965438607842461240612474454161078640970696int * 1948696661842718495299822378236164056879917074897767871659749219056474839965438607842461240612474454161078640970696int) % (modulus() as int)) by (nonlinear_arith);
    lemma_power_doubled(element_modulus(), modulus() as int, 1948696661842718495299822378236164056879917074897767871659749219056474839965438607842461240612474454161078640970696int, 348672759491422814776563274991664330817235nat, 5263035168376898086078372934931822498477329250664252593200853695366788930903762104103202908352911482095452131304391int);
    assert(4009359325127522022645065082215050127668972380733129359712167918183193220909550827119084970423960818993578486026916int == (((5263035168376898086078372934931822498477329250664252593200853695366788930903762104103202908352911482095452131304391int * 5263035168376898086078372934931822498477329250664252593200853695366788930903762104103202908352911482095452131304391int) % (modulus() as int)) * element_modulus()) % (
        modulus() as int)) by (nonlinear_arith);
    lemma_power_doubled_plus_one(element_modulus(), modulus() as int, 5263035168376898086078372934931822498477329250664252593200853695366788930903762104103202908352911482095452131304391int, 697345518982845629553126549983328661634470nat, 4009359325127522022645065082215050127668972380733129359712167918183193220909550827119084970423960818993578486026916int);
    assert(3584072034081071387548529810116594378222345228737613382497715418595678248590413187612660363463561300272155728218745int == (((4009359325127522022645065082215050127668972380733129359712167918183193220909550827119084970423960818993578486026916int * 4009359325127522022645065082215050127668972380733129359712167918183193220909550827119084970423960818993578486026916int) % (modulus() as int)) * element_modulus()) % (
        modulus() as int)) by (nonlinear_arith);
    lemma_power_doubled_plus_one(element_modulus(), modulus() as int, 4009359325127522022645065082215050127668972380733129359712167918183193220909550827119084970423960818993578486026916int, 1394691037965691259106253099966657323268941nat, 3584072034081071387548529810116594378222345228737613382497715418595678248590413187612660363463561300272155728218745int);
    assert(1595546283358533837789935009591694884108080500252945949988630965019737761658802520877896813617272360797856768940294int == (((3584072034081071387548529810116594378222345228737613382497715418595678248590413187612660363463561300272155728218745int * 3584072034081071387548529810116594378222345228737613382497715418595678248590413187612660363463561300272155728218745int) % (modulus() as int)) * element_modulus()) % (
        modulus() as int)) by (nonlinear_arith);
    lemma_power_doubled_plus_one(element_modulus(), modulus() as int, 3584072034081071387548529810116594378222345228737613382497715418595678248590413187612660363463561300272155728218745int, 2789382075931382518212506199933314646537883nat, 1595546283358533837789935009591694884108080500252945949988630965019737761658802520877896813617272360797856768940294int);
    assert(3363647291597542623487103394153993238285781052416505022973169951952687366458176391129755618152795393978337096770766int == (1595546283358533837789935009591694884108080500252945949988630965019737761658802520877896813617272360797856768940294int * 1595546283358533837789935009591694884108080500252945949988630965019737761658802520877896813617272360797856768940294int) % (modulus() as int)) by (nonlinear_arith);
    lemma_power_doubled(element_modulus(), modulus() as int, 1595546283358533837789935009591694884108080500252945949988630965019737761658802520877896813617272360797856768940294int, 5578764151862765036425012399866629293075767nat, 3363647291597542623487103394153993238285781052416505022973169951952687366458176391129755618152795393978337096770766int);
    assert(4408144960418139416277224754686818035819067156642165387672707107427652139045528654084264480315990725004527492061995int == (3363647291597542623487103394153993238285781052416505022973169951952687366458176391129755618152795393978337096770766int * 3363647291597542623487103394153993238285781052416505022973169951952687366458176391129755618152795393978337096770766int) % (modulus() as int)) by (nonlinear_arith);
    lemma_power_doubled(element_modulus(), modulus() as int, 3363647291597542623487103394153993238285781052416505022973169951952687366458176391129755618152795393978337096770766int, 11157528303725530072850024799733258586151534nat, 4408144960418139416277224754686818035819067156642165387672707107427652139045528654084264480315990725004527492061995int);
    assert(4091164733275632788280076432859519044427662656964519452516297557902421968132681102258429878942694693461449094055553int == (((4408144960418139416277224754686818035819067156642165387672707107427652139045528654084264480315990725004527492061995int * 4408144960418139416277224754686818035819067156642165387672707107427652139045528654084264480315990725004527492061995int) % (modulus() as int)) * element_modulus()) % (
        modulus() as int)) by (nonlinear_arith);
    lemma_power_doubled_plus_one(element_modulus(), modulus() as int, 4408144960418139416277224754686818035819067156642165387672707107427652139045528654084264480315990725004527492061995int, 22315056607451060145700049599466517172303068nat, 4091164733275632788280076432859519044427662656964519452516297557902421968132681102258429878942694693461449094055553int);
    assert(856092730247225772571245298305465294270032753230347311341545092188374744883775918452945911577376279276456315664985int == (4091164733275632788280076432859519044427662656964519452516297557902421968132681102258429878942694693461449094055553int * 4091164733275632788280076432859519044427662656964519452516297557902421968132681102258429878942694693461449094055553int) % (modulus() as int)) by (nonlinear_arith);
    lemma_power_doubled(element_modulus(), modulus() as int, 4091164733275632788280076432859519044427662656964519452516297557902421968132681102258429878942694693461449094055553int, 44630113214902120291400099198933034344606137nat, 856092730247225772571245298305465294270032753230347311341545092188374744883775918452945911577376279276456315664985int);
    assert(5238419525919220075289304100045565904268358142291191267262435798311336456340725050710904720945236863876940648825023int == (856092730247225772571245298305465294270032753230347311341545092188374744883775918452945911577376279276456315664985int * 856092730247225772571245298305465294270032753230347311341545092188374744883775918452945911577376279276456315664985int) % (modulus() as int)) by (nonlinear_arith);
    lemma_power_doubled(element_modulus(), modulus() as int, 856092730247225772571245298305465294270032753230347311341545092188374744883775918452945911577376279276456315664985int, 89260226429804240582800198397866068689212274nat, 5238419525919220075289304100045565904268358142291191267262435798311336456340725050710904720945236863876940648825023int);
    assert(1136526268731539371606706464399522785028844032722614830158033827527610430957695163842493170926302784771641258765087int == (5238419525919220075289304100045565904268358142291191267262435798311336456340725050710904720945236863876940648825023int * 5238419525919220075289304100045565904268358142291191267262435798311336456340725050710904720945236863876940648825023int) % (modulus() as int)) by (nonlinear_arith);
    lemma_power_doubled(element_modulus(), modulus() as int, 5238419525919220075289304100045565904268358142291191267262435798311336456340725050710904720945236863876940648825023int, 178520452859608481165600396795732137378424548nat, 1136526268731539371606706464399522785028844032722614830158033827527610430957695163842493170926302784771641258765087int);
    assert(2214511575882826224923156606636950429997577210350091241610163719990645548963486513972430527646714514300244159883651int == (((1136526268731539371606706464399522785028844032722614830158033827527610430957695163842493170926302784771641258765087int * 1136526268731539371606706464399522785028844032722614830158033827527610430957695163842493170926302784771641258765087int) % (modulus() as int)) * element_modulus()) % (
        modulus() as int)) by (nonlinear_arith);
    lemma_power_doubled_plus_one(element_modulus(), modulus() as int, 1136526268731539371606706464399522785028844032722614830158033827527610430957695163842493170926302784771641258765087int, 357040905719216962331200793591464274756849096nat, 2214511575882826224923156606636950429997577210350091241610163719990645548963486513972430527646714514300244159883651int);
    assert(458197605713191723324101595594848840244396968708817969350477396756798175139573413878260786783754662755613387484003int == (2214511575882826224923156606636950429997577210350091241610163719990645548963486513972430527646714514300244159883651int * 2214511575882826224923156606636950429997577210350091241610163719990645548963486513972430527646714514300244159883651int) % (modulus() as int)) by (nonlinear_arith);
    lemma_power_doubled(element_modulus(), modulus() as int, 2214511575882826224923156606636950429997577210350091241610163719990645548963486513972430527646714514300244159883651int, 714081811438433924662401587182928549513698193nat, 458197605713191723324101595594848840244396968708817969350477396756798175139573413878260786783754662755613387484003int);
    assert(1417572018875507981236165232068512722510419023181148981419771947264465289131733408277815091850823206012367811767458int == (458197605713191723324101595594848840244396968708817969350477396756798175139573413878260786783754662755613387484003int * 458197605713191723324101595594848840244396968708817969350477396756798175139573413878260786783754662755613387484003int) % (modulus() as int)) by (nonlinear_arith);
    lemma_power_doubled(element_modulus(), modulus() as int, 458197605713191723324101595594848840244396968708817969350477396756798175139573413878260786783754662755613387484003int, 1428163622876867849324803174365857099027396386nat, 1417572018875507981236165232068512722510419023181148981419771947264465289131733408277815091850823206012367811767458int);
    assert(1944440995882253790875691649304602514658801670191450631822260622983328417971193529009517043859484608704804896174390int == (1417572018875507981236165232068512722510419023181148981419771947264465289131733408277815091850823206012367811767458int * 1417572018875507981236165232068512722510419023181148981419771947264465289131733408277815091850823206012367811767458int) % (modulus() as int)) by (nonlinear_arith);
    lemma_power_doubled(element_modulus(), modulus() as int, 1417572018875507981236165232068512722510419023181148981419771947264465289131733408277815091850823206012367811767458int, 2856327245753735698649606348731714198054792772nat, 1944440995882253790875691649304602514658801670191450631822260622983328417971193529009517043859484608704804896174390int);
    assert(3842489893391169881829883812199086898663376185246988805042777431043606855811613117557833686305338673695401543161391int == (((1944440995882253790875691649304602514658801670191450631822260622983328417971193529009517043859484608704804896174390int * 1944440995882253790875691649304602514658801670191450631822260622983328417971193529009517043859484608704804896174390int) % (modulus() as int)) * element_modulus()) % (
        modulus() as int)) by (nonlinear_arith);
    lemma_power_doubled_plus_one(element_modulus(), modulus() as int, 1944440995882253790875691649304602514658801670191450631822260622983328417971193529009517043859484608704804896174390int, 5712654491507471397299212697463428396109585544nat, 3842489893391169881829883812199086898663376185246988805042777431043606855811613117557833686305338673695401543161391int);
    assert(1270151140717845525200980811577505263444916027914280510623383930328193247404027709572872983493543153607599135306141int == (3842489893391169881829883812199086898663376185246988805042777431043606855811613117557833686305338673695401543161391int * 3842489893391169881829883812199086898663376185246988805042777431043606855811613117557833686305338673695401543161391int) % (modulus() as int)) by (nonlinear_arith);
    lemma_power_doubled(element_modulus(), modulus() as int, 3842489893391169881829883812199086898663376185246988805042777431043606855811613117557833686305338673695401543161391int, 11425308983014942794598425394926856792219171089nat, 1270151140717845525200980811577505263444916027914280510623383930328193247404027709572872983493543153607599135306141int);
    assert(4731111090716854472802894697656910877265860169221466689606282508288825448409237665052711994335344071226591698423212int == (((1270151140717845525200980811577505263444916027914280510623383930328193247404027709572872983493543153607599135306141int * 1270151140717845525200980811577505263444916027914280510623383930328193247404027709572872983493543153607599135306141int) % (modulus() as int)) * element_modulus()) % (
        modulus() as int)) by (nonlinear_arith);
    lemma_power_doubled_plus_one(element_modulus(), modulus() as int, 1270151140717845525200980811577505263444916027914280510623383930328193247404027709572872983493543153607599135306141int, 22850617966029885589196850789853713584438342178nat, 4731111090716854472802894697656910877265860169221466689606282508288825448409237665052711994335344071226591698423212int);
    assert(4645523581513859403216205125785910864876169495853524090491822280096983839468595339348106377005428371631326587665658int == (((4731111090716854472802894697656910877265860169221466689606282508288825448409237665052711994335344071226591698423212int * 4731111090716854472802894697656910877265860169221466689606282508288825448409237665052711994335344071226591698423212int) % (modulus() as int)) * element_modulus()) % (
        modulus() as int)) by (nonlinear_arith);
    lemma_power_doubled_plus_one(element_modulus(), modulus() as int, 4731111090716854472802894697656910877265860169221466689606282508288825448409237665052711994335344071226591698423212int, 45701235932059771178393701579707427168876684357nat, 4645523581513859403216205125785910864876169495853524090491822280096983839468595339348106377005428371631326587665658int);
    assert(1590949558271018588330884828908822053293561650050104434825401292020663924956663551885758102549201081582631583909671int == (4645523581513859403216205125785910864876169495853524090491822280096983839468595339348106377005428371631326587665658int * 4645523581513859403216205125785910864876169495853524090491822280096983839468595339348106377005428371631326587665658int) % (modulus() as int)) by (nonlinear_arith);
    lemma_power_doubled(element_modulus(), modulus() as int, 4645523581513859403216205125785910864876169495853524090491822280096983839468595339348106377005428371631326587665658int, 91402471864119542356787403159414854337753368715nat, 1590949558271018588330884828908822053293561650050104434825401292020663924956663551885758102549201081582631583909671int);
    assert(2890084665946969804877703151964700562074471275462175586023693679572400636178717370590882613274935704888626974852128int == (((1590949558271018588330884828908822053293561650050104434825401292020663924956663551885758102549201081582631583909671int * 1590949558271018588330884828908822053293561650050104434825401292020663924956663551885758102549201081582631583909671int) % (modulus() as int)) * element_modulus()) % (
        modulus() as int)) by (nonlinear_arith);
    lemma_power_doubled_plus_one(element_modulus(), modulus() as int, 1590949558271018588330884828908822053293561650050104434825401292020663924956663551885758102549201081582631583909671int, 182804943728239084713574806318829708675506737430nat, 2890084665946969804877703151964700562074471275462175586023693679572400636178717370590882613274935704888626974852128int);
    assert(1688990809656462597244562301887877261030690061001122046915258909623111057227382004726946305964420875627282949134765int == (2890084665946969804877703151964700562074471275462175586023693679572400636178717370590882613274935704888626974852128int * 2890084665946969804877703151964700562074471275462175586023693679572400636178717370590882613274935704888626974852128int) % (modulus() as int)) by (nonlinear_arith);
    lemma_power_doubled(element_modulus(), modulus() as int, 2890084665946969804877703151964700562074471275462175586023693679572400636178717370590882613274935704888626974852128int, 365609887456478169427149612637659417351013474861nat, 1688990809656462597244562301887877261030690061001122046915258909623111057227382004726946305964420875627282949134765int);
}

/// The power of `element_modulus` to the leading 192 bits of `prime_224`.
proof fn lemma_power_modulus_192()
    ensures
        pow_mod(element_modulus(), 3140565019439628722055109281555630991018035653966774321863nat, modulus() as int) == 1335519323634027100215870590141639817317464227119655999877831416513166645712724946200218392062490968752146046800060int,
{
    lemma_power_modulus_160();
    assert(4654071021415408262860215635010051381183907341521362097492682223698438450352154889983933349472697024181764234734652int == (1688990809656462597244562301887877261030690061001122046915258909623111057227382004726946305964420875627282949134765int * 1688990809656462597244562301887877261030690061001122046915258909623111057227382004726946305964420875627282949134765int) % (modulus() as int)) by (nonlinear_arith);
    lemma_power_doubled(element_modulus(), modulus() as int, 1688990809656462597244562301887877261030690061001122046915258909623111057227382004726946305964420875627282949134765int, 731219774912956338854299225275318834702026949722nat, 4654071021415408262860215635010051381183907341521362097492682223698438450352154889983933349472697024181764234734652int);
    assert(3755485317064303669568002381357339776143930381588466967254361105301213023522442173900619389581290603151345052958024int == (4654071021415408262860215635010051381183907341521362097492682223698438450352154889983933349472697024181764234734652int * 4654071021415408262860215635010051381183907341521362097492682223698438450352154889983933349472697024181764234734652int) % (modulus() as int)) by (nonlinear_arith);
    lemma_power_doubled(element_modulus(), modulus() as int, 4654071021415408262860215635010051381183907341521362097492682223698438450352154889983933349472697024181764234734652int, 1462439549825912677708598450550637669404053899444nat, 3755485317064303669568002381357339776143930381588466967254361105301213023522442173900619389581290603151345052958024int);
    assert(3491018768156063895709546082907727230513702535407654030311400629760936368401064441947477421728982685944014135841677int == (3755485317064303669568002381357339776143930381588466967254361105301213023522442173900619389581290603151345052958024int * 3755485317064303669568002381357339776143930381588466967254361105301213023522442173900619389581290603151345052958024int) % (modulus() as int)) by (nonlinear_arith);
    lemma_power_doubled(element_modulus(), modulus() as int, 3755485317064303669568002381357339776143930381588466967254361105301213023522442173900619389581290603151345052958024int, 2924879099651825355417196901101275338808107798888nat, 3491018768156063895709546082907727230513702535407654030311400629760936368401064441947477421728982685944014135841677int);
    assert(5090885785649673021328970820139829855604262747939506617364885245535921378890303383916965915260841256092047207861725int == (3491018768156063895709546082907727230513702535407654030311400629760936368401064441947477421728982685944014135841677int * 3491018768156063895709546082907727230513702535407654030311400629760936368401064441947477421728982685944014135841677int) % (modulus() as int)) by (nonlinear_arith);
    lemma_power_doubled(element_modulus(), modulus() as int, 3491018768156063895709546082907727230513702535407654030311400629760936368401064441947477421728982685944014135841677int, 5849758199303650710834393802202550677616215597776nat, 5090885785649673021328970820139829855604262747939506617364885245535921378890303383916965915260841256092047207861725int);
    assert(4912446094202873883891768255710539926731873200487506436965154414908942683481336269366818269250402479869428956301139int == (((5090885785649673021328970820139829855604262747939506617364885245535921378890303383916965915260841256092047207861725int * 5090885785649673021328970820139829855604262747939506617364885245535921378890303383916965915260841256092047207861725int) % (modulus() as int)) * element_modulus()) % (
        modulus() as int)) by (nonlinear_arith);
    lemma_power_doubled_plus_one(element_modulus(), modulus() as int, 5090885785649673021328970820139829855604262747939506617364885245535921378890303383916965915260841256092047207861725int, 11699516398607301421668787604405101355232431195552nat, 4912446094202873883891768255710539926731873200487506436965154414908942683481336269366818269250402479869428956301139int);
    assert(3302371440732856339853395279345240247225705662073789937422455127503735157310564924511222184199317217166636426134947int == (4912446094202873883891768255710539926731873200487506436965154414908942683481336269366818269250402479869428956301139int * 4912446094202873883891768255710539926731873200487506436965154414908942683481336269366818269250402479869428956301139int) % (modulus() as int)) by (nonlinear_arith);
    lemma_power_doubled(element_modulus(), modulus() as int, 4912446094202873883891768255710539926731873200487506436965154414908942683481336269366818269250402479869428956301139int, 23399032797214602843337575208810202710464862391105nat, 3302371440732856339853395279345240247225705662073789937422455127503735157310564924511222184199317217166636426134947int);
    assert(363499513970404848616029755304883480634377728590936767187575549423462754295180164128418384185221811114132568197434int == (3302371440732856339853395279345240247225705662073789937422455127503735157310564924511222184199317217166636426134947int * 3302371440732856339853395279345240247225705662073789937422455127503735157310564924511222184199317217166636426134947int) % (modulus() as int)) by (nonlinear_arith);
    lemma_power_doubled(element_modulus(), modulus() as int, 3302371440732856339853395279345240247225705662073789937422455127503735157310564924511222184199317217166636426134947int, 46798065594429205686675150417620405420929724782210nat, 363499513970404848616029755304883480634377728590936767187575549423462754295180164128418384185221811114132568197434int);
    assert(2874157169517676540110834918344228342466924006380452889152653280759395351292350263935605958020001284546492809817249int == (363499513970404848616029755304883480634377728590936767187575549423462754295180164128418384185221811114132568197434int * 363499513970404848616029755304883480634377728590936767187575549423462754295180164128418384185221811114132568197434int) % (modulus() as int)) by (nonlinear_arith);
    lemma_power_doubled(element_modulus(), modulus() as int, 363499513970404848616029755304883480634377728590936767187575549423462754295180164128418384185221811114132568197434int, 93596131188858411373350300835240810841859449564420nat, 2874157169517676540110834918344228342466924006380452889152653280759395351292350263935605958020001284546492809817249int);
    assert(62536265676856955724387322240403155044835737216345720489448357220741482951557453041160320939497815469121482299250int == (((2874157169517676540110834918344228342466924006380452889152653280759395351292350263935605958020001284546492809817249int * 2874157169517676540110834918344228342466924006380452889152653280759395351292350263935605958020001284546492809817249int) % (modulus() as int)) * element_modulus()) % (
        modulus() as int)) by (nonlinear_arith);
    lemma_power_doubled_plus_one(element_modulus(), modulus() as int, 2874157169517676540110834918344228342466924006380452889152653280759395351292350263935605958020001284546492809817249int, 187192262377716822746700601670481621683718899128840nat, 62536265676856955724387322240403155044835737216345720489448357220741482951557453041160320939497815469121482299250int);
    assert(1705852620371363491565190781114193627626287941737091956709455332278549260971852279080740430866945772901422099383834int == (((62536265676856955724387322240403155044835737216345720489448357220741482951557453041160320939497815469121482299250int * 62536265676856955724387322240403155044835737216345720489448357220741482951557453041160320939497815469121482299250int) % (modulus() as int)) * element_modulus()) % (
        modulus() as int)) by (nonlinear_arith);
    lemma_power_doubled_plus_one(element_modulus(), modulus() as int, 62536265676856955724387322240403155044835737216345720489448357220741482951557453041160320939497815469121482299250int, 374384524755433645493401203340963243367437798257681nat, 1705852620371363491565190781114193627626287941737091956709455332278549260971852279080740430866945772901422099383834int);
    assert(5457197692995732922963512774192510389794268422413485529944251925488506119387890050287850846504324873795258673472729int == (1705852620371363491565190781114193627626287941737091956709455332278549260971852279080740430866945772901422099383834int * 1705852620371363491565190781114193627626287941737091956709455332278549260971852279080740430866945772901422099383834int) % (modulus() as int)) by (nonlinear_arith);
    lemma_power_doubled(element_modulus(), modulus() as int, 1705852620371363491565190781114193627626287941737091956709455332278549260971852279080740430866945772901422099383834int, 748769049510867290986802406681926486734875596515363nat, 5457197692995732922963512774192510389794268422413485529944251925488506119387890050287850846504324873795258673472729int);
    assert(4125980283457909949816454558774730071369413369969027927012033936243041535811337427237649489355624918661645583656567int == (((5457197692995732922963512774192510389794268422413485529944251925488506119387890050287850846504324873795258673472729int * 5457197692995732922963512774192510389794268422413485529944251925488506119387890050287850846504324873795258673472729int) % (modulus() as int)) * element_modulus()) % (
        modulus() as int)) by (nonlinear_arith);
    lemma_power_doubled_plus_one(element_modulus(), modulus() as int, 5457197692995732922963512774192510389794268422413485529944251925488506119387890050287850846504324873795258673472729int, 1497538099021734581973604813363852973469751193030726nat, 4125980283457909949816454558774730071369413369969027927012033936243041535811337427237649489355624918661645583656567int);
    assert(1142063546392073524997302479803205825577565093876004835825308600918052626861738618185162300180120444036994256963564int == (4125980283457909949816454558774730071369413369969027927012033936243041535811337427237649489355624918661645583656567int * 4125980283457909949816454558774730071369413369969027927012033936243041535811337427237649489355624918661645583656567int) % (modulus() as int)) by (nonlinear_arith);
    lemma_power_doubled(element_modulus(), modulus() as int, 4125980283457909949816454558774730071369413369969027927012033936243041535811337427237649489355624918661645583656567int, 2995076198043469163947209626727705946939502386061453nat, 1142063546392073524997302479803205825577565093876004835825308600918052626861738618185162300180120444036994256963564int);
    assert(1527418541845620278033815160132718113808312276317799628648621306549465643282188375127181050936067622539776225704078int == (1142063546392073524997302479803205825577565093876004835825308600918052626861738618185162300180120444036994256963564int * 1142063546392073524997302479803205825577565093876004835825308600918052626861738618185162300180120444036994256963564int) % (modulus() as int)) by (nonlinear_arith);
    lemma_power_doubled(element_modulus(), modulus() as int, 1142063546392073524997302479803205825577565093876004835825308600918052626861738618185162300180120444036994256963564int, 5990152396086938327894419253455411893879004772122906nat, 1527418541845620278033815160132718113808312276317799628648621306549465643282188375127181050936067622539776225704078int);
    assert(1930380587906411551441070962617729498086344936736563089939529955957280378273791401159047450730146255891230330193953int == (((1527418541845620278033815160132718113808312276317799628648621306549465643282188375127181050936067622539776225704078int * 1527418541845620278033815160132718113808312276317799628648621306549465643282188375127181050936067622539776225704078int) % (modulus() as int)) * element_modulus()) % (
        modulus() as int)) by (nonlinear_arith);
    lemma_power_doubled_plus_one(element_modulus(), modulus() as int, 1527418541845620278033815160132718113808312276317799628648621306549465643282188375127181050936067622539776225704078int, 11980304792173876655788838506910823787758009544245812nat, 1930380587906411551441070962617729498086344936736563089939529955957280378273791401159047450730146255891230330193953int);
    assert(4205913627855260434681298314342898204328608437521598716841626621358166587632853137777578224981508888862474107392001int == (1930380587906411551441070962617729498086344936736563089939529955957280378273791401159047450730146255891230330193953int * 1930380587906411551441070962617729498086344936736563089939529955957280378273791401159047450730146255891230330193953int) % (modulus() as int)) by (nonlinear_arith);
    lemma_power_doubled(element_modulus(), modulus() as int, 1930380587906411551441070962617729498086344936736563089939529955957280378273791401159047450730146255891230330193953int, 23960609584347753311577677013821647575516019088491625nat, 4205913627855260434681298314342898204328608437521598716841626621358166587632853137777578224981508888862474107392001int);
    assert(2121712376922540988698410580437887799002920173017901285186747670899735094874442372745750579680582064493909454160370int == (((4205913627855260434681298314342898204328608437521598716841626621358166587632853137777578224981508888862474107392001int * 4205913627855260434681298314342898204328608437521598716841626621358166587632853137777578224981508888862474107392001int) % (modulus() as int)) * element_modulus()) % (
        modulus() as int)) by (nonlinear_arith);
    lemma_power_doubled_plus_one(element_modulus(), modulus() as int, 4205913627855260434681298314342898204328608437521598716841626621358166587632853137777578224981508888862474107392001int, 47921219168695506623155354027643295151032038176983250nat, 2121712376922540988698410580437887799002920173017901285186747670899735094874442372745750579680582064493909454160370int);
    assert(2921310109018831685604194954206984891664101542708022160957885369457899897705569267982168406499640628313512995134999int == (((2121712376922540988698410580437887799002920173017901285186747670899735094874442372745750579680582064493909454160370int * 2121712376922540988698410580437887799002920173017901285186747670899735094874442372745750579680582064493909454160370int) % (modulus() as int)) * element_modulus()) % (
        modulus() as int)) by (nonlinear_arith);
    lemma_power_doubled_plus_one(element_modulus(), modulus() as int, 2121712376922540988698410580437887799002920173017901285186747670899735094874442372745750579680582064493909454160370int, 95842438337391013246310708055286590302064076353966501nat, 2921310109018831685604194954206984891664101542708022160957885369457899897705569267982168406499640628313512995134999int);
    assert(4574748431748590759017524923752310972286755493933758860613639757883263654437033412781802431569099833107864645265443int == (2921310109018831685604194954206984891664101542708022160957885369457899897705569267982168406499640628313512995134999int * 2921310109018831685604194954206984891664101542708022160957885369457899897705569267982168406499640628313512995134999int) % (modulus() as int)) by (nonlinear_arith);
    lemma_power_doubled(element_modulus(), modulus() as int, 2921310109018831685604194954206984891664101542708022160957885369457899897705569267982168406499640628313512995134999int, 191684876674782026492621416110573180604128152707933003nat, 4574748431748590759017524923752310972286755493933758860613639757883263654437033412781802431569099833107864645265443int);
    assert(3482157270715618432669935874610614500779809533063810042040859964619416692392635750221252793459104000303264222150469int == (4574748431748590759017524923752310972286755493933758860613639757883263654437033412781802431569099833107864645265443int * 4574748431748590759017524923752310972286755493933758860613639757883263654437033412781802431569099833107864645265443int) % (modulus() as int)) by (nonlinear_arith);
    lemma_power_doubled(element_modulus(), modulus() as int, 4574748431748590759017524923752310972286755493933758860613639757883263654437033412781802431569099833107864645265443int, 383369753349564052985242832221146361208256305415866006nat, 3482157270715618432669935874610614500779809533063810042040859964619416692392635750221252793459104000303264222150469int);
    assert(245512741807816938003787168020809455063646806081021361287568903295890553474580308516520180300859302504273301928492int == (3482157270715618432669935874610614500779809533063810042040859964619416692392635750221252793459104000303264222150469int * 3482157270715618432669935874610614500779809533063810042040859964619416692392635750221252793459104000303264222150469int) % (modulus() as int)) by (nonlinear_arith);
    lemma_power_doubled(element_modulus(), modulus() as int, 3482157270715618432669935874610614500779809533063810042040859964619416692392635750221252793459104000303264222150469int, 766739506699128105970485664442292722416512610831732012nat, 245512741807816938003787168020809455063646806081021361287568903295890553474580308516520180300859302504273301928492int);
    assert(3093119194296829848300489629973693276450498558158826239176062803464177625050488366417286213068216612938941187825008int == (245512741807816938003787168020809455063646806081021361287568903295890553474580308516520180300859302504273301928492int * 245512741807816938003787168020809455063646806081021361287568903295890553474580308516520180300859302504273301928492int) % (modulus() as int)) by (nonlinear_arith);
    lemma_power_doubled(element_modulus(), modulus() as int, 245512741807816938003787168020809455063646806081021361287568903295890553474580308516520180300859302504273301928492int, 1533479013398256211940971328884585444833025221663464024nat, 3093119194296829848300489629973693276450498558158826239176062803464177625050488366417286213068216612938941187825008int);
    assert(3898763807172879295246075615004844877641998250559782573300844205495161292836660203396007209393121308942478390731278int == (((3093119194296829848300489629973693276450498558158826239176062803464177625050488366417286213068216612938941187825008int * 3093119194296829848300489629973693276450498558158826239176062803464177625050488366417286213068216612938941187825008int) % (modulus() as int)) * element_modulus()) % (
        modulus() as int)) by (nonlinear_arith);
    lemma_power_doubled_plus_one(element_modulus(), modulus() as int, 3093119194296829848300489629973693276450498558158826239176062803464177625050488366417286213068216612938941187825008int, 3066958026796512423881942657769170889666050443326928048nat, 3898763807172879295246075615004844877641998250559782573300844205495161292836660203396007209393121308942478390731278int);
    assert(94280566025018093302270993347606844123653465417719861118848939814072701871948886360021185055146474014407760765928int == (3898763807172879295246075615004844877641998250559782573300844205495161292836660203396007209393121308942478390731278int * 3898763807172879295246075615004844877641998250559782573300844205495161292836660203396007209393121308942478390731278int) % (modulus() as int)) by (nonlinear_arith);
    lemma_power_doubled(element_modulus(), modulus() as int, 3898763807172879295246075615004844877641998250559782573300844205495161292836660203396007209393121308942478390731278int, 6133916053593024847763885315538341779332100886653856097nat, 94280566025018093302270993347606844123653465417719861118848939814072701871948886360021185055146474014407760765928int);
    assert(3487494617429477344274064837937431472862147914729816587943667966023589971555517110437437618489316498832062011525873int == (((94280566025018093302270993347606844123653465417719861118848939814072701871948886360021185055146474014407760765928int * 94280566025018093302270993347606844123653465417719861118848939814072701871948886360021185055146474014407760765928int) % (modulus() as int)) * element_modulus()) % (
        modulus() as int)) by (nonlinear_arith);
    lemma_power_doubled_plus_one(element_modulus(), modulus() as int, 94280566025018093302270993347606844123653465417719861118848939814072701871948886360021185055146474014407760765928int, 12267832107186049695527770631076683558664201773307712194nat, 3487494617429477344274064837937431472862147914729816587943667966023589971555517110437437618489316498832062011525873int);
    assert(3333853739027668372880481903722905787858530999873141024967341135647035154728809218751796402298758984926890647862878int == (((3487494617429477344274064837937431472862147914729816587943667966023589971555517110437437618489316498832062011525873int * 3487494617429477344274064837937431472862147914729816587943667966023589971555517110437437618489316498832062011525873int) % (modulus() as int)) * element_modulus()) % (
        modulus() as int)) by (nonlinear_arith);
    lemma_power_doubled_plus_one(element_modulus(), modulus() as int, 3487494617429477344274064837937431472862147914729816587943667966023589971555517110437437618489316498832062011525873int, 24535664214372099391055541262153367117328403546615424389nat, 3333853739027668372880481903722905787858530999873141024967341135647035154728809218751796402298758984926890647862878int);
    assert(2189171696559869042822447773099025079785114260203441529776699905554481891065389351133331387751241349981631449952589int == (3333853739027668372880481903722905787858530999873141024967341135647035154728809218751796402298758984926890647862878int * 3333853739027668372880481903722905787858530999873141024967341135647035154728809218751796402298758984926890647862878int) % (modulus() as int)) by (nonlinear_arith);
    lemma_power_doubled(element_modulus(), modulus() as int, 3333853739027668372880481903722905787858530999873141024967341135647035154728809218751796402298758984926890647862878int, 49071328428744198782111082524306734234656807093230848779nat, 2189171696559869042822447773099025079785114260203441529776699905554481891065389351133331387751241349981631449952589int);
    assert(4019112868649580667029580155641818905573012945793366215895799361840166610219063003407555165528641795939043978664564int == (2189171696559869042822447773099025079785114260203441529776699905554481891065389351133331387751241349981631449952589int * 2189171696559869042822447773099025079785114260203441529776699905554481891065389351133331387751241349981631449952589int) % (modulus() as int)) by (nonlinear_arith);
    lemma_power_doubled(element_modulus(), modulus() as int, 2189171696559869042822447773099025079785114260203441529776699905554481891065389351133331387751241349981631449952589int, 98142656857488397564222165048613468469313614186461697558nat, 4019112868649580667029580155641818905573012945793366215895799361840166610219063003407555165528641795939043978664564int);
    assert(4773182931934878931143768364430956200037687181943374656171430165155464082386472751685048235719430743583786521026187int == (4019112868649580667029580155641818905573012945793366215895799361840166610219063003407555165528641795939043978664564int * 4019112868649580667029580155641818905573012945793366215895799361840166610219063003407555165528641795939043978664564int) % (modulus() as int)) by (nonlinear_arith);
    lemma_power_doubled(element_modulus(), modulus() as int, 4019112868649580667029580155641818905573012945793366215895799361840166610219063003407555165528641795939043978664564int, 196285313714976795128444330097226936938627228372923395116nat, 4773182931934878931143768364430956200037687181943374656171430165155464082386472751685048235719430743583786521026187int);
    assert(2391576896784115220389474932276778962350005537705268330552147388059232173773838280426120432903619284124180401964114int == (((4773182931934878931143768364430956200037687181943374656171430165155464082386472751685048235719430743583786521026187int * 4773182931934878931143768364430956200037687181943374656171430165155464082386472751685048235719430743583786521026187int) % (modulus() as int)) * element_modulus()) % (
        modulus() as int)) by (nonlinear_arith);
    lemma_power_doubled_plus_one(element_modulus(), modulus() as int, 4773182931934878931143768364430956200037687181943374656171430165155464082386472751685048235719430743583786521026187int, 392570627429953590256888660194453873877254456745846790232nat, 2391576896784115220389474932276778962350005537705268330552147388059232173773838280426120432903619284124180401964114int);
    assert(5347031211073737946453476894064230278125397552451648679878700647407978406250010351297870848786092046170199169890435int == (((2391576896784115220389474932276778962350005537705268330552147388059232173773838280426120432903619284124180401964114int * 2391576896784115220389474932276778962350005537705268330552147388059232173773838280426120432903619284124180401964114int) % (modulus() as int)) * element_modulus()) % (
        modulus() as int)) by (nonlinear_arith);
    lemma_power_doubled_plus_one(element_modulus(), modulus() as int, 2391576896784115220389474932276778962350005537705268330552147388059232173773838280426120432903619284124180401964114int, 785141254859907180513777320388907747754508913491693580465nat, 5347031211073737946453476894064230278125397552451648679878700647407978406250010351297870848786092046170199169890435int);
    assert(1335519323634027100215870590141639817317464227119655999877831416513166645712724946200218392062490968752146046800060int == (((5347031211073737946453476894064230278125397552451648679878700647407978406250010351297870848786092046170199169890435int * 5347031211073737946453476894064230278125397552451648679878700647407978406250010351297870848786092046170199169890435int) % (modulus() as int)) * element_modulus()) % (
        modulus() as int)) by (nonlinear_arith);
    lemma_power_doubled_plus_one(element_modulus(), modulus() as int, 5347031211073737946453476894064230278125397552451648679878700647407978406250010351297870848786092046170199169890435int, 1570282509719814361027554640777815495509017826983387160931nat, 1335519323634027100215870590141639817317464227119655999877831416513166645712724946200218392062490968752146046800060int);
}

/// The power of `element_modulus` to `prime_224`.
proof fn lemma_power_modulus()
    ensures
        pow_mod(element_modulus(), 13488624049454809607608968273987491111066532879949268383015090199833nat, modulus() as int) == 1int,
{
    lemma_power_modulus_192();
    assert(2919985368256702304234385824906303987015352241143272451233768363184649466098005888967275060536794315617703195452216int == (1335519323634027100215870590141639817317464227119655999877831416513166645712724946200218392062490968752146046800060int * 1335519323634027100215870590141639817317464227119655999877831416513166645712724946200218392062490968752146046800060int) % (modulus() as int)) by (nonlinear_arith);
    lemma_power_doubled(element_modulus(), modulus() as int, 1335519323634027100215870590141639817317464227119655999877831416513166645712724946200218392062490968752146046800060int, 3140565019439628722055109281555630991018035653966774321863nat, 2919985368256702304234385824906303987015352241143272451233768363184649466098005888967275060536794315617703195452216int);
    assert(4808964361962676608070365657146907353204508411780908153355169559565552396527127604623406199632786952104465776182534int == (2919985368256702304234385824906303987015352241143272451233768363184649466098005888967275060536794315617703195452216int * 2919985368256702304234385824906303987015352241143272451233768363184649466098005888967275060536794315617703195452216int) % (modulus() as int)) by (nonlinear_arith);
    lemma_power_doubled(element_modulus(), modulus() as int, 2919985368256702304234385824906303987015352241143272451233768363184649466098005888967275060536794315617703195452216int, 6281130038879257444110218563111261982036071307933548643726nat, 4808964361962676608070365657146907353204508411780908153355169559565552396527127604623406199632786952104465776182534int);
    assert(3176955297533251277996654627463271806793579828220497382577414064359432911712386252597219887077932796052472880532206int == (((4808964361962676608070365657146907353204508411780908153355169559565552396527127604623406199632786952104465776182534int * 4808964361962676608070365657146907353204508411780908153355169559565552396527127604623406199632786952104465776182534int) % (modulus() as int)) * element_modulus()) % (
        modulus() as int)) by (nonlinear_arith);
    lemma_power_doubled_plus_one(element_modulus(), modulus() as int, 4808964361962676608070365657146907353204508411780908153355169559565552396527127604623406199632786952104465776182534int, 12562260077758514888220437126222523964072142615867097287452nat, 3176955297533251277996654627463271806793579828220497382577414064359432911712386252597219887077932796052472880532206int);
    assert(2787214352748166589683027777102860769955799842496198441176951674027375222713454979894941283277615015246701256205696int == (((3176955297533251277996654627463271806793579828220497382577414064359432911712386252597219887077932796052472880532206int * 3176955297533251277996654627463271806793579828220497382577414064359432911712386252597219887077932796052472880532206int) % (modulus() as int)) * element_modulus()) % (
        modulus() as int)) by (nonlinear_arith);
    lemma_power_doubled_plus_one(element_modulus(), modulus() as int, 3176955297533251277996654627463271806793579828220497382577414064359432911712386252597219887077932796052472880532206int, 25124520155517029776440874252445047928144285231734194574905nat, 2787214352748166589683027777102860769955799842496198441176951674027375222713454979894941283277615015246701256205696int);
    assert(4243808611264096622116362427788352139768992141726301684726733249080254147696707120091879154778262957302002830947149int == (2787214352748166589683027777102860769955799842496198441176951674027375222713454979894941283277615015246701256205696int * 2787214352748166589683027777102860769955799842496198441176951674027375222713454979894941283277615015246701256205696int) % (modulus() as int)) by (nonlinear_arith);
    lemma_power_doubled(element_modulus(), modulus() as int, 2787214352748166589683027777102860769955799842496198441176951674027375222713454979894941283277615015246701256205696int, 50249040311034059552881748504890095856288570463468389149811nat, 4243808611264096622116362427788352139768992141726301684726733249080254147696707120091879154778262957302002830947149int);
    assert(1740790408869486114260730034826419388401135337784723546731609186969182653299150879219653843935338167220580416468023int == (((4243808611264096622116362427788352139768992141726301684726733249080254147696707120091879154778262957302002830947149int * 4243808611264096622116362427788352139768992141726301684726733249080254147696707120091879154778262957302002830947149int) % (modulus() as int)) * element_modulus()) % (
        modulus() as int)) by (nonlinear_arith);
    lemma_power_doubled_plus_one(element_modulus(), modulus() as int, 4243808611264096622116362427788352139768992141726301684726733249080254147696707120091879154778262957302002830947149int, 100498080622068119105763497009780191712577140926936778299622nat, 1740790408869486114260730034826419388401135337784723546731609186969182653299150879219653843935338167220580416468023int);
    assert(4324795483318608963934496268272975208010447388596373946577755951298600185562631804981877405729953484243620109983757int == (((1740790408869486114260730034826419388401135337784723546731609186969182653299150879219653843935338167220580416468023int * 1740790408869486114260730034826419388401135337784723546731609186969182653299150879219653843935338167220580416468023int) % (modulus() as int)) * element_modulus()) % (
        modulus() as int)) by (nonlinear_arith);
    lemma_power_doubled_plus_one(element_modulus(), modulus() as int, 1740790408869486114260730034826419388401135337784723546731609186969182653299150879219653843935338167220580416468023int, 200996161244136238211526994019560383425154281853873556599245nat, 4324795483318608963934496268272975208010447388596373946577755951298600185562631804981877405729953484243620109983757int);
    assert(2096330104666007588238192239713839036866292792864307582544607512424896446668348186033464355795709925117279440671055int == (((4324795483318608963934496268272975208010447388596373946577755951298600185562631804981877405729953484243620109983757int * 4324795483318608963934496268272975208010447388596373946577755951298600185562631804981877405729953484243620109983757int) % (modulus() as int)) * element_modulus()) % (
        modulus() as int)) by (nonlinear_arith);
    lemma_power_doubled_plus_one(element_modulus(), modulus() as int, 4324795483318608963934496268272975208010447388596373946577755951298600185562631804981877405729953484243620109983757int, 401992322488272476423053988039120766850308563707747113198491nat, 2096330104666007588238192239713839036866292792864307582544607512424896446668348186033464355795709925117279440671055int);
    assert(2094743398858040388610330376099336910312642942555516145846419546973218678379161349227291803174330936745015860971599int == (2096330104666007588238192239713839036866292792864307582544607512424896446668348186033464355795709925117279440671055int * 2096330104666007588238192239713839036866292792864307582544607512424896446668348186033464355795709925117279440671055int) % (modulus() as int)) by (nonlinear_arith);
    lemma_power_doubled(element_modulus(), modulus() as int, 2096330104666007588238192239713839036866292792864307582544607512424896446668348186033464355795709925117279440671055int, 803984644976544952846107976078241533700617127415494226396983nat, 2094743398858040388610330376099336910312642942555516145846419546973218678379161349227291803174330936745015860971599int);
    assert(2339084444193738774685662236694977188821295226683229773158965723774447268772405155684214977609559961972052757245740int == (((2094743398858040388610330376099336910312642942555516145846419546973218678379161349227291803174330936745015860971599int * 2094743398858040388610330376099336910312642942555516145846419546973218678379161349227291803174330936745015860971599int) % (modulus() as int)) * element_modulus()) % (
        modulus() as int)) by (nonlinear_arith);
    lemma_power_doubled_plus_one(element_modulus(), modulus() as int, 2094743398858040388610330376099336910312642942555516145846419546973218678379161349227291803174330936745015860971599int, 1607969289953089905692215952156483067401234254830988452793966nat, 2339084444193738774685662236694977188821295226683229773158965723774447268772405155684214977609559961972052757245740int);
    assert(5098980100595790703636902899221925678240867145187925118535471083561680127314694088338185707466898431707478132227092int == (2339084444193738774685662236694977188821295226683229773158965723774447268772405155684214977609559961972052757245740int * 2339084444193738774685662236694977188821295226683229773158965723774447268772405155684214977609559961972052757245740int) % (modulus() as int)) by (nonlinear_arith);
    lemma_power_doubled(element_modulus(), modulus() as int, 2339084444193738774685662236694977188821295226683229773158965723774447268772405155684214977609559961972052757245740int, 3215938579906179811384431904312966134802468509661976905587933nat, 5098980100595790703636902899221925678240867145187925118535471083561680127314694088338185707466898431707478132227092int);
    assert(2506875031753215915434669188702704631640847930466501134453686411706433051945761845967820459956646402231441962448775int == (5098980100595790703636902899221925678240867145187925118535471083561680127314694088338185707466898431707478132227092int * 5098980100595790703636902899221925678240867145187925118535471083561680127314694088338185707466898431707478132227092int) % (modulus() as int)) by (nonlinear_arith);
    lemma_power_doubled(element_modulus(), modulus() as int, 5098980100595790703636902899221925678240867145187925118535471083561680127314694088338185707466898431707478132227092int, 6431877159812359622768863808625932269604937019323953811175866nat, 2506875031753215915434669188702704631640847930466501134453686411706433051945761845967820459956646402231441962448775int);
    assert(321672559101351181120046251208198216825163414655918381143107226872919981809739424143827027200836738846428538556181int == (2506875031753215915434669188702704631640847930466501134453686411706433051945761845967820459956646402231441962448775int * 2506875031753215915434669188702704631640847930466501134453686411706433051945761845967820459956646402231441962448775int) % (modulus() as int)) by (nonlinear_arith);
    lemma_power_doubled(element_modulus(), modulus() as int, 2506875031753215915434669188702704631640847930466501134453686411706433051945761845967820459956646402231441962448775int, 12863754319624719245537727617251864539209874038647907622351732nat, 321672559101351181120046251208198216825163414655918381143107226872919981809739424143827027200836738846428538556181int);
    assert(1252371461412887128700074940488836604579565096199864608880429763628605807494396142847277412622429518527380968141529int == (((321672559101351181120046251208198216825163414655918381143107226872919981809739424143827027200836738846428538556181int * 321672559101351181120046251208198216825163414655918381143107226872919981809739424143827027200836738846428538556181int) % (modulus() as int)) * element_modulus()) % (
        modulus() as int)) by (nonlinear_arith);
    lemma_power_doubled_plus_one(element_modulus(), modulus() as int, 321672559101351181120046251208198216825163414655918381143107226872919981809739424143827027200836738846428538556181int, 25727508639249438491075455234503729078419748077295815244703464nat, 1252371461412887128700074940488836604579565096199864608880429763628605807494396142847277412622429518527380968141529int);
    assert(3543736727960675554087213769217422359094799865826839217851241119943411542941164089874435823405598508902504990512423int == (((1252371461412887128700074940488836604579565096199864608880429763628605807494396142847277412622429518527380968141529int * 1252371461412887128700074940488836604579565096199864608880429763628605807494396142847277412622429518527380968141529int) % (modulus() as int)) * element_modulus()) % (
        modulus() as int)) by (nonlinear_arith);
    lemma_power_doubled_plus_one(element_modulus(), modulus() as int, 1252371461412887128700074940488836604579565096199864608880429763628605807494396142847277412622429518527380968141529int, 51455017278498876982150910469007458156839496154591630489406929nat, 3543736727960675554087213769217422359094799865826839217851241119943411542941164089874435823405598508902504990512423int);
    assert(1610444898863774367530577789459739030901693249477741465169791551179245728671284327865329030498970520424971683246226int == (((3543736727960675554087213769217422359094799865826839217851241119943411542941164089874435823405598508902504990512423int * 3543736727960675554087213769217422359094799865826839217851241119943411542941164089874435823405598508902504990512423int) % (modulus() as int)) * element_modulus()) % (
        modulus() as int)) by (nonlinear_arith);
    lemma_power_doubled_plus_one(element_modulus(), modulus() as int, 3543736727960675554087213769217422359094799865826839217851241119943411542941164089874435823405598508902504990512423int, 102910034556997753964301820938014916313678992309183260978813859nat, 1610444898863774367530577789459739030901693249477741465169791551179245728671284327865329030498970520424971683246226int);
    assert(1026591374957199555320324042239032367274141057450884432248636287122703511585050853908986331687629296123098744974064int == (1610444898863774367530577789459739030901693249477741465169791551179245728671284327865329030498970520424971683246226int * 1610444898863774367530577789459739030901693249477741465169791551179245728671284327865329030498970520424971683246226int) % (modulus() as int)) by (nonlinear_arith);
    lemma_power_doubled(element_modulus(), modulus() as int, 1610444898863774367530577789459739030901693249477741465169791551179245728671284327865329030498970520424971683246226int, 205820069113995507928603641876029832627357984618366521957627719nat, 1026591374957199555320324042239032367274141057450884432248636287122703511585050853908986331687629296123098744974064int);
    assert(2954719479742983507865001895783026350502968366267429350136164709744565149970443603074792925709172135734221638273826int == (1026591374957199555320324042239032367274141057450884432248636287122703511585050853908986331687629296123098744974064int * 1026591374957199555320324042239032367274141057450884432248636287122703511585050853908986331687629296123098744974064int) % (modulus() as int)) by (nonlinear_arith);
    lemma_power_doubled(element_modulus(), modulus() as int, 1026591374957199555320324042239032367274141057450884432248636287122703511585050853908986331687629296123098744974064int, 411640138227991015857207283752059665254715969236733043915255438nat, 2954719479742983507865001895783026350502968366267429350136164709744565149970443603074792925709172135734221638273826int);
    assert(2840164213835812773253022159601544125621982196919701204427720529685399199971196577398727395867890301748180981795979int == (2954719479742983507865001895783026350502968366267429350136164709744565149970443603074792925709172135734221638273826int * 2954719479742983507865001895783026350502968366267429350136164709744565149970443603074792925709172135734221638273826int) % (modulus() as int)) by (nonlinear_arith);
    lemma_power_doubled(element_modulus(), modulus() as int, 2954719479742983507865001895783026350502968366267429350136164709744565149970443603074792925709172135734221638273826int, 823280276455982031714414567504119330509431938473466087830510876nat, 2840164213835812773253022159601544125621982196919701204427720529685399199971196577398727395867890301748180981795979int);
    assert(373251249464554436745223956628657974749391805092220200055886221525903801193365791379613451872889603939272506608536int == (((2840164213835812773253022159601544125621982196919701204427720529685399199971196577398727395867890301748180981795979int * 2840164213835812773253022159601544125621982196919701204427720529685399199971196577398727395867890301748180981795979int) % (modulus() as int)) * element_modulus()) % (
        modulus() as int)) by (nonlinear_arith);
    lemma_power_doubled_plus_one(element_modulus(), modulus() as int, 2840164213835812773253022159601544125621982196919701204427720529685399199971196577398727395867890301748180981795979int, 1646560552911964063428829135008238661018863876946932175661021752nat, 373251249464554436745223956628657974749391805092220200055886221525903801193365791379613451872889603939272506608536int);
    assert(2614635588146719206905965036384558988419498885690599214419372331942967975847763374131111373501589539789797455272708int == (((373251249464554436745223956628657974749391805092220200055886221525903801193365791379613451872889603939272506608536int * 373251249464554436745223956628657974749391805092220200055886221525903801193365791379613451872889603939272506608536int) % (modulus() as int)) * element_modulus()) % (
        modulus() as int)) by (nonlinear_arith);
    lemma_power_doubled_plus_one(element_modulus(), modulus() as int, 373251249464554436745223956628657974749391805092220200055886221525903801193365791379613451872889603939272506608536int, 3293121105823928126857658270016477322037727753893864351322043505nat, 2614635588146719206905965036384558988419498885690599214419372331942967975847763374131111373501589539789797455272708int);
    assert(2404022475849764937652602530939652050514154083623185031790830882682620368359700794342898248976376772900131670239834int == (((2614635588146719206905965036384558988419498885690599214419372331942967975847763374131111373501589539789797455272708int * 2614635588146719206905965036384558988419498885690599214419372331942967975847763374131111373501589539789797455272708int) % (modulus() as int)) * element_modulus()) % (
        modulus() as int)) by (nonlinear_arith);
    lemma_power_doubled_plus_one(element_modulus(), modulus() as int, 2614635588146719206905965036384558988419498885690599214419372331942967975847763374131111373501589539789797455272708int, 6586242211647856253715316540032954644075455507787728702644087011nat, 2404022475849764937652602530939652050514154083623185031790830882682620368359700794342898248976376772900131670239834int);
    assert(2310413315317779360506243845698774785375422765904616185641884569760422591718579194894179582267354299262124820389170int == (2404022475849764937652602530939652050514154083623185031790830882682620368359700794342898248976376772900131670239834int * 2404022475849764937652602530939652050514154083623185031790830882682620368359700794342898248976376772900131670239834int) % (modulus() as int)) by (nonlinear_arith);
    lemma_power_doubled(element_modulus(), modulus() as int, 2404022475849764937652602530939652050514154083623185031790830882682620368359700794342898248976376772900131670239834int, 13172484423295712507430633080065909288150911015575457405288174023nat, 2310413315317779360506243845698774785375422765904616185641884569760422591718579194894179582267354299262124820389170int);
    assert(1937009354094940919337946057653998111111128393241566041271132494410687364170244773532527449144804376024668492420377int == (((2310413315317779360506243845698774785375422765904616185641884569760422591718579194894179582267354299262124820389170int * 2310413315317779360506243845698774785375422765904616185641884569760422591718579194894179582267354299262124820389170int) % (modulus() as int)) * element_modulus()) % (
        modulus() as int)) by (nonlinear_arith);
    lemma_power_doubled_plus_one(element_modulus(), modulus() as int, 2310413315317779360506243845698774785375422765904616185641884569760422591718579194894179582267354299262124820389170int, 26344968846591425014861266160131818576301822031150914810576348046nat, 1937009354094940919337946057653998111111128393241566041271132494410687364170244773532527449144804376024668492420377int);
    assert(3129362629639217331630590975510895731802151488442566419583614784045737356762172691708569587994913093863317871605105int == (1937009354094940919337946057653998111111128393241566041271132494410687364170244773532527449144804376024668492420377int * 1937009354094940919337946057653998111111128393241566041271132494410687364170244773532527449144804376024668492420377int) % (modulus() as int)) by (nonlinear_arith);
    lemma_power_doubled(element_modulus(), modulus() as int, 1937009354094940919337946057653998111111128393241566041271132494410687364170244773532527449144804376024668492420377int, 52689937693182850029722532320263637152603644062301829621152696093nat, 3129362629639217331630590975510895731802151488442566419583614784045737356762172691708569587994913093863317871605105int);
    assert(831183612593521976905125203171329067447096315758467205636304574401289344170695718389366023604706804139819196477251int == (3129362629639217331630590975510895731802151488442566419583614784045737356762172691708569587994913093863317871605105int * 3129362629639217331630590975510895731802151488442566419583614784045737356762172691708569587994913093863317871605105int) % (modulus() as int)) by (nonlinear_arith);
    lemma_power_doubled(element_modulus(), modulus() as int, 3129362629639217331630590975510895731802151488442566419583614784045737356762172691708569587994913093863317871605105int, 105379875386365700059445064640527274305207288124603659242305392186nat, 831183612593521976905125203171329067447096315758467205636304574401289344170695718389366023604706804139819196477251int);
    assert(2772800467502929845767336226603215180811858825739215063197969220765712990969142549013344047214747334598663482800761int == (831183612593521976905125203171329067447096315758467205636304574401289344170695718389366023604706804139819196477251int * 831183612593521976905125203171329067447096315758467205636304574401289344170695718389366023604706804139819196477251int) % (modulus() as int)) by (nonlinear_arith);
    lemma_power_doubled(element_modulus(), modulus() as int, 831183612593521976905125203171329067447096315758467205636304574401289344170695718389366023604706804139819196477251int, 210759750772731400118890129281054548610414576249207318484610784372nat, 2772800467502929845767336226603215180811858825739215063197969220765712990969142549013344047214747334598663482800761int);
    assert(2722839656642708181397527356235585973425584074516832971748753162102510543434180360373093758106206176489117687414435int == (((2772800467502929845767336226603215180811858825739215063197969220765712990969142549013344047214747334598663482800761int * 2772800467502929845767336226603215180811858825739215063197969220765712990969142549013344047214747334598663482800761int) % (modulus() as int)) * element_modulus()) % (
        modulus() as int)) by (nonlinear_arith);
    lemma_power_doubled_plus_one(element_modulus(), modulus() as int, 2772800467502929845767336226603215180811858825739215063197969220765712990969142549013344047214747334598663482800761int, 421519501545462800237780258562109097220829152498414636969221568744nat, 2722839656642708181397527356235585973425584074516832971748753162102510543434180360373093758106206176489117687414435int);
    assert(525346347624968318780395950480664940736692907919302262128205129081247029491826830505784117415330926342937035993820int == (((2722839656642708181397527356235585973425584074516832971748753162102510543434180360373093758106206176489117687414435int * 2722839656642708181397527356235585973425584074516832971748753162102510543434180360373093758106206176489117687414435int) % (modulus() as int)) * element_modulus()) % (
        modulus() as int)) by (nonlinear_arith);
    lemma_power_doubled_plus_one(element_modulus(), modulus() as int, 2722839656642708181397527356235585973425584074516832971748753162102510543434180360373093758106206176489117687414435int, 843039003090925600475560517124218194441658304996829273938443137489nat, 525346347624968318780395950480664940736692907919302262128205129081247029491826830505784117415330926342937035993820int);
    assert(1325204821086812105125151641324396599088019496392211629071290219371223036497089856698164178452243228288314574595856int == (525346347624968318780395950480664940736692907919302262128205129081247029491826830505784117415330926342937035993820int * 525346347624968318780395950480664940736692907919302262128205129081247029491826830505784117415330926342937035993820int) % (modulus() as int)) by (nonlinear_arith);
    lemma_power_doubled(element_modulus(), modulus() as int, 525346347624968318780395950480664940736692907919302262128205129081247029491826830505784117415330926342937035993820int, 1686078006181851200951121034248436388883316609993658547876886274979nat, 1325204821086812105125151641324396599088019496392211629071290219371223036497089856698164178452243228288314574595856int);
    assert(3955503447453946233193307965712735234059038490341278997256994645245870558040718716343195269505893694608701116255322int == (1325204821086812105125151641324396599088019496392211629071290219371223036497089856698164178452243228288314574595856int * 1325204821086812105125151641324396599088019496392211629071290219371223036497089856698164178452243228288314574595856int) % (modulus() as int)) by (nonlinear_arith);
    lemma_power_doubled(element_modulus(), modulus() as int, 1325204821086812105125151641324396599088019496392211629071290219371223036497089856698164178452243228288314574595856int, 3372156012363702401902242068496872777766633219987317095753772549958nat, 3955503447453946233193307965712735234059038490341278997256994645245870558040718716343195269505893694608701116255322int);
    assert(1int == (((3955503447453946233193307965712735234059038490341278997256994645245870558040718716343195269505893694608701116255322int * 3955503447453946233193307965712735234059038490341278997256994645245870558040718716343195269505893694608701116255322int) % (modulus() as int)) * element_modulus()) % (
        modulus() as int)) by (nonlinear_arith);
    lemma_power_doubled_plus_one(element_modulus(), modulus() as int, 3955503447453946233193307965712735234059038490341278997256994645245870558040718716343195269505893694608701116255322int, 6744312024727404803804484136993745555533266439974634191507545099916nat, 1int);
}

/// The modulus is prime.
pub proof fn lemma_modulus_prime()
    ensures
        is_prime(modulus()),
{
    lemma_prime_224();
    lemma_power_modulus();
    assert(prime_224() * prime_224() > modulus()) by (nonlinear_arith);
    assert(-124515053646703335902282156799075588905638086746670558526908389677056031670052085062011061440569410478149400518292int * (element_modulus() - 1) + 27672501428987721047231927322354616996186708631353476855132072606683632077903378542832095354234747675182641533433int * modulus() == 1) by (nonlinear_arith);
    lemma_prime_by_order(
        modulus(),
        prime_224(),
        element_modulus(),
        -124515053646703335902282156799075588905638086746670558526908389677056031670052085062011061440569410478149400518292int,
        27672501428987721047231927322354616996186708631353476855132072606683632077903378542832095354234747675182641533433int,
    );
}

} // verus!
