//! Sampling field elements from 64-bit words, by rejection.
//!
//! A candidate is made of six words, least significant first, with the top
//! word cut to the sixty-two bits that the modulus has there. The first of
//! `ATTEMPTS` candidates that is below the modulus is the sample. A candidate
//! is below the modulus with probability above one half, so that all are
//! rejected with probability below two to the power -128; the last candidate
//! less the modulus is the sample then.

use crate::field::CamlBn382Fq;
use crate::limbs::{lemma_value6_bound, lt6, sub6, value6};
use crate::params::{modulus, modulus_limbs};
use rand::rngs::StdRng;
use rand::{Rng, SeedableRng};
use vstd::prelude::*;

verus! {

/// The number of candidates that are tried.
pub const ATTEMPTS: usize = 128;

/// The number of words that `ATTEMPTS` candidates take.
pub const WORDS: usize = 768;

/// The first `count` words that the standard generator of the `rand` crate
/// yields after it was seeded with `seed`.
pub uninterp spec fn seeded_stream(seed: u64, count: nat) -> Seq<u64>;

/// Seeds the standard generator of the `rand` crate with
/// `SeedableRng::seed_from_u64` and has `Rng::fill` fill `count` words from
/// it. The generator is deterministic: the words depend on the seed and the
/// count alone.
#[verifier::external_body]
fn seeded_words(seed: u64, count: usize) -> (r: Vec<u64>)
    requires
        count <= WORDS,
    ensures
        r@ == seeded_stream(seed, count as nat),
        r@.len() == count,
{
    let mut rng = StdRng::seed_from_u64(seed);
    let mut words = vec![0u64; count];
    rng.fill(&mut words[..]);
    words
}

/// Has `Rng::fill` fill `count` words from `rand::thread_rng`, the generator
/// of the current thread, which the operating system seeds. Nothing is known
/// of the words but their number. The call panics where the operating system
/// gives no entropy to seed the generator with.
#[verifier::external_body]
fn entropy_words(count: usize) -> (r: Vec<u64>)
    requires
        count <= WORDS,
    ensures
        r@.len() == count,
{
    let mut words = vec![0u64; count];
    rand::thread_rng().fill(&mut words[..]);
    words
}

/// The limbs of the candidate number `j`: six words from the word `6 * j`
/// on, the last of them cut to sixty-two bits.
pub open spec fn candidate_limbs(words: Seq<u64>, j: nat) -> Seq<u64> {
    let at = 6 * j as int;
    seq![
        words[at],
        words[at + 1],
        words[at + 2],
        words[at + 3],
        words[at + 4],
        (words[at + 5] % 0x4000_0000_0000_0000) as u64,
    ]
}

/// The candidate number `j`.
pub open spec fn candidate(words: Seq<u64>, j: nat) -> nat {
    value6(candidate_limbs(words, j))
}

/// The number of candidates that the words hold, up to `ATTEMPTS`.
pub open spec fn attempts(words: Seq<u64>) -> nat {
    if words.len() / 6 < ATTEMPTS {
        words.len() / 6
    } else {
        ATTEMPTS as nat
    }
}

/// The sample from the candidate number `j` on: the first candidate below
/// the modulus, or the last candidate less the modulus.
pub open spec fn sample_from(words: Seq<u64>, j: nat) -> nat
    decreases attempts(words) - j,
{
    if candidate(words, j) < modulus() {
        candidate(words, j)
    } else if j + 1 >= attempts(words) {
        (candidate(words, j) - modulus()) as nat
    } else {
        sample_from(words, j + 1)
    }
}

/// The sample that the words give; none where they are fewer than six.
pub open spec fn sample_spec(words: Seq<u64>) -> Option<nat> {
    if words.len() < 6 {
        None
    } else {
        Some(sample_from(words, 0))
    }
}

/// A candidate is below two to the power 382, and so below twice the
/// modulus.
proof fn lemma_candidate_bound(words: Seq<u64>, j: nat)
    ensures
        candidate(words, j) < 2 * modulus(),
{
    reveal(value6);
}

/// The sample that words give: the first of the candidates that is below
/// the modulus, or, where none is, the last candidate less the modulus.
/// None where the words are fewer than six.
pub fn sample(words: &[u64]) -> (r: Option<CamlBn382Fq>)
    ensures
        words@.len() < 6 ==> r is None,
        words@.len() >= 6 ==> r is Some && Some(r.unwrap()@) == sample_spec(words@),
{
    if words.len() < 6 {
        return None;
    }
    let m = modulus_limbs();
    let tries: usize = if words.len() / 6 < ATTEMPTS {
        words.len() / 6
    } else {
        ATTEMPTS
    };
    let mut j: usize = 0;
    loop
        invariant
            words@.len() >= 6,
            tries == attempts(words@),
            j < tries,
            value6(m@) == modulus(),
            sample_from(words@, j as nat) == sample_from(words@, 0),
        decreases tries - j,
    {
        let top: u64 = words[6 * j + 5] % 0x4000_0000_0000_0000;
        let limbs: [u64; 6] = [
            words[6 * j],
            words[6 * j + 1],
            words[6 * j + 2],
            words[6 * j + 3],
            words[6 * j + 4],
            top,
        ];
        proof {
            assert(limbs@ =~= candidate_limbs(words@, j as nat));
            lemma_candidate_bound(words@, j as nat);
        }
        if lt6(&limbs, &m) {
            return Some(CamlBn382Fq::from_limbs(limbs));
        }
        if j + 1 >= tries {
            let (reduced, borrow) = sub6(&limbs, &m);
            proof {
                lemma_value6_bound(reduced@);
            }
            return Some(CamlBn382Fq::from_limbs(reduced));
        }
        j = j + 1;
    }
}

/// The seed that a machine integer gives: its low thirty-two bits.
pub open spec fn seed_of(i: isize) -> u64 {
    (i as int % 0x1_0000_0000) as u64
}

/// The element that the seed gives: the sample from the first `WORDS` words
/// of the standard generator seeded with it.
pub open spec fn seeded_sample(seed: u64) -> nat {
    sample_from(seeded_stream(seed, WORDS as nat), 0)
}

/// The low thirty-two bits of a machine integer.
pub fn low_bits(i: isize) -> (r: u64)
    ensures
        r == seed_of(i),
{
    if i >= 0 {
        (i as u64) % 0x1_0000_0000
    } else {
        let below: u64 = (-(i + 1)) as u64;
        0xffff_ffff - below % 0x1_0000_0000
    }
}

/// An element sampled from the standard generator seeded with `seed`. The
/// same seed gives the same element.
pub fn random_seeded(seed: u64) -> (r: CamlBn382Fq)
    ensures
        r@ == seeded_sample(seed),
{
    let words = seeded_words(seed, WORDS);
    match sample(words.as_slice()) {
        Some(x) => x,
        None => CamlBn382Fq::zero(),
    }
}

/// An element sampled from the generator of the current thread.
pub fn random() -> (r: CamlBn382Fq)
    ensures
        r@ < modulus(),
{
    let words = entropy_words(WORDS);
    match sample(words.as_slice()) {
        Some(x) => {
            proof {
                use_type_invariant(&x);
            }
            x
        },
        None => CamlBn382Fq::zero(),
    }
}

} // verus!
