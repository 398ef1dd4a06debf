use bn382_fq::bigint_384::CamlBigint384;
use bn382_fq::bn_382_fq::{
    caml_bn_382_fq_compare, caml_bn_382_fq_of_int, caml_bn_382_fq_random, caml_bn_382_fq_rng,
    caml_bn_382_fq_size, caml_bn_382_fq_to_bigint,
};
use bn382_fq::random::{random_seeded, sample};
use rand::rngs::StdRng;
use rand::{RngCore, SeedableRng};
use std::collections::HashSet;

const MODULUS: [u64; 6] = [
    0x0000000000000001,
    0x00000001800c1818,
    0x8018309183030180,
    0xb48a3614289b0901,
    0x71503c69b09dbf88,
    0x2404893fdad8878e,
];

#[test]
fn the_same_seed_gives_the_same_element() {
    for seed in [0isize, 1, 2, 42, -1, isize::MAX, isize::MIN] {
        assert_eq!(caml_bn_382_fq_rng(seed), caml_bn_382_fq_rng(seed));
    }
}

#[test]
fn the_seed_is_the_low_thirty_two_bits() {
    assert_eq!(caml_bn_382_fq_rng(5), random_seeded(5));
    assert_eq!(caml_bn_382_fq_rng(-1), random_seeded(0xffff_ffff));
    assert_eq!(caml_bn_382_fq_rng(-2), random_seeded(0xffff_fffe));
    assert_eq!(caml_bn_382_fq_rng(isize::MIN), random_seeded(0));
    assert_eq!(caml_bn_382_fq_rng(isize::MAX), random_seeded(0xffff_ffff));
    assert_eq!(caml_bn_382_fq_rng(0x1_0000_0007), random_seeded(7));
}

#[test]
fn different_seeds_give_different_elements() {
    let mut seen = HashSet::new();
    for seed in 0..10_000isize {
        let x = caml_bn_382_fq_rng(seed);
        assert!(seen.insert(caml_bn_382_fq_to_bigint(&x).limbs));
    }
}

#[test]
fn seeded_elements_are_the_first_accepted_candidate_of_the_generator() {
    for seed in 0..50u64 {
        let mut rng = StdRng::seed_from_u64(seed);
        let expected = loop {
            let mut limbs = [0u64; 6];
            for limb in limbs.iter_mut() {
                *limb = rng.next_u64();
            }
            limbs[5] &= 0x3fff_ffff_ffff_ffff;
            let mut below = false;
            for i in (0..6).rev() {
                if limbs[i] != MODULUS[i] {
                    below = limbs[i] < MODULUS[i];
                    break;
                }
            }
            if below {
                break limbs;
            }
        };
        let x = random_seeded(seed);
        assert_eq!(caml_bn_382_fq_to_bigint(&x), CamlBigint384::new(expected));
    }
}

#[test]
fn seeded_elements_spread_over_the_field() {
    // The top two bits of the 382 are neither always set nor always clear.
    let mut high = 0;
    for seed in 0..200isize {
        let x = caml_bn_382_fq_to_bigint(&caml_bn_382_fq_rng(seed));
        if x.limbs[5] >> 60 != 0 {
            high += 1;
        }
    }
    assert!(high > 40 && high < 160);
}

#[test]
fn unseeded_elements_are_below_the_modulus_and_differ() {
    let a = caml_bn_382_fq_random();
    let b = caml_bn_382_fq_random();
    assert_ne!(a, b);
    let m = caml_bn_382_fq_size();
    for x in [a, b] {
        let limbs = caml_bn_382_fq_to_bigint(&x).limbs;
        let mut below = false;
        for i in (0..6).rev() {
            if limbs[i] != m.limbs[i] {
                below = limbs[i] < m.limbs[i];
                break;
            }
        }
        assert!(below);
    }
}

#[test]
fn too_few_words_give_no_sample() {
    assert_eq!(sample(&[]), None);
    assert_eq!(sample(&[1, 2, 3, 4, 5]), None);
}

#[test]
fn the_first_candidate_below_the_modulus_is_the_sample() {
    // Six words below the modulus are taken as they are.
    let words = [9u64, 8, 7, 6, 5, 4];
    let x = sample(&words).unwrap();
    assert_eq!(caml_bn_382_fq_to_bigint(&x).limbs, words);
    // The two top bits of the last word do not count.
    let words = [9u64, 8, 7, 6, 5, 4 | (3 << 62)];
    let x = sample(&words).unwrap();
    assert_eq!(caml_bn_382_fq_to_bigint(&x).limbs, [9, 8, 7, 6, 5, 4]);
    // A candidate from the modulus on is passed over.
    let mut words = Vec::new();
    words.extend_from_slice(&MODULUS);
    words.extend_from_slice(&[u64::MAX; 6]);
    words.extend_from_slice(&[1, 0, 0, 0, 0, 0]);
    words.extend_from_slice(&[2, 0, 0, 0, 0, 0]);
    let x = sample(&words).unwrap();
    assert_eq!(x, caml_bn_382_fq_of_int(1));
    // Words that do not make up a whole candidate are left alone.
    let words = [u64::MAX, u64::MAX, u64::MAX, u64::MAX, u64::MAX, u64::MAX, 1, 2, 3];
    let x = sample(&words).unwrap();
    assert_eq!(
        caml_bn_382_fq_to_bigint(&x).limbs,
        [
            0xfffffffffffffffe,
            0xfffffffe7ff3e7e7,
            0x7fe7cf6e7cfcfe7f,
            0x4b75c9ebd764f6fe,
            0x8eafc3964f624077,
            0x1bfb76c025277871
        ]
    );
}

#[test]
fn where_every_candidate_is_rejected_the_last_is_reduced() {
    // The modulus itself, twice: the sample is the modulus less the modulus.
    let mut words = Vec::new();
    words.extend_from_slice(&[u64::MAX; 6]);
    words.extend_from_slice(&MODULUS);
    let x = sample(&words).unwrap();
    assert_eq!(x, caml_bn_382_fq_of_int(0));
    // No more than 128 candidates are looked at.
    let mut words = Vec::new();
    for _ in 0..128 {
        words.extend_from_slice(&MODULUS);
    }
    words.extend_from_slice(&[5, 0, 0, 0, 0, 0]);
    let x = sample(&words).unwrap();
    assert_eq!(x, caml_bn_382_fq_of_int(0));
    let mut words = Vec::new();
    for _ in 0..127 {
        words.extend_from_slice(&MODULUS);
    }
    words.extend_from_slice(&[5, 0, 0, 0, 0, 0]);
    let x = sample(&words).unwrap();
    assert_eq!(x, caml_bn_382_fq_of_int(5));
    assert_eq!(caml_bn_382_fq_compare(&x, &caml_bn_382_fq_of_int(5)), 0);
}
