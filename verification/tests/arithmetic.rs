use bn382_fq::bigint_384::CamlBigint384;
use bn382_fq::bn_382_fq::{
    caml_bn_382_fq_add, caml_bn_382_fq_compare, caml_bn_382_fq_copy, caml_bn_382_fq_div,
    caml_bn_382_fq_equal, caml_bn_382_fq_inv, caml_bn_382_fq_is_square, caml_bn_382_fq_mul,
    caml_bn_382_fq_mut_add, caml_bn_382_fq_mut_mul, caml_bn_382_fq_mut_square,
    caml_bn_382_fq_mut_sub, caml_bn_382_fq_negate, caml_bn_382_fq_of_bigint,
    caml_bn_382_fq_of_int, caml_bn_382_fq_size, caml_bn_382_fq_size_in_bits,
    caml_bn_382_fq_sqrt, caml_bn_382_fq_square, caml_bn_382_fq_sub, caml_bn_382_fq_to_bigint,
};
use bn382_fq::error::FieldError;
use bn382_fq::field::CamlBn382Fq;
use num_bigint::BigUint;

const MODULUS_DECIMAL: &str = "5543634365110765627805495722742127385843376434033820803592568747918351978899288491582778380528407187068941959692289";

fn modulus() -> BigUint {
    BigUint::parse_bytes(MODULUS_DECIMAL.as_bytes(), 10).unwrap()
}

fn big(n: u32) -> BigUint {
    BigUint::from(n)
}

fn to_big(x: &CamlBn382Fq) -> BigUint {
    let limbs = caml_bn_382_fq_to_bigint(x).limbs;
    let mut bytes = Vec::new();
    for limb in limbs.iter() {
        bytes.extend_from_slice(&limb.to_le_bytes());
    }
    BigUint::from_bytes_le(&bytes)
}

fn limbs_of(n: &BigUint) -> [u64; 6] {
    let digits = n.to_u64_digits();
    let mut limbs = [0u64; 6];
    for (i, d) in digits.iter().enumerate() {
        limbs[i] = *d;
    }
    limbs
}

fn from_big(n: &BigUint) -> CamlBn382Fq {
    caml_bn_382_fq_of_bigint(&CamlBigint384::new(limbs_of(n))).unwrap()
}

fn samples() -> Vec<BigUint> {
    let p = modulus();
    let mut out = vec![
        big(0),
        big(1),
        big(2),
        &p - big(1),
        &p - big(2),
        (&p - big(1)) / big(2),
        (&p + big(1)) / big(2),
        BigUint::from(u64::MAX),
        BigUint::from(u64::MAX) + big(1),
    ];
    let mut x = BigUint::from(0x9e3779b97f4a7c15u64);
    for _ in 0..24 {
        x = (&x * &x + big(0xdeadbeef)) % &p;
        out.push(x.clone());
    }
    out
}

#[test]
fn size_is_the_modulus() {
    let limbs = caml_bn_382_fq_size().limbs;
    assert_eq!(limbs, limbs_of(&modulus()));
    assert_eq!(
        limbs,
        [
            0x0000000000000001,
            0x00000001800c1818,
            0x8018309183030180,
            0xb48a3614289b0901,
            0x71503c69b09dbf88,
            0x2404893fdad8878e
        ]
    );
}

#[test]
fn size_in_bits_is_the_bit_length_of_the_modulus() {
    assert_eq!(caml_bn_382_fq_size_in_bits(), 382);
    assert_eq!(modulus().bits(), 382);
}

#[test]
fn add_sub_mul_agree_with_big_integers() {
    let p = modulus();
    let xs = samples();
    for a in xs.iter() {
        for b in xs.iter() {
            let fa = from_big(a);
            let fb = from_big(b);
            assert_eq!(to_big(&caml_bn_382_fq_add(&fa, &fb)), (a + b) % &p);
            assert_eq!(to_big(&caml_bn_382_fq_sub(&fa, &fb)), (a + &p - b) % &p);
            assert_eq!(to_big(&caml_bn_382_fq_mul(&fa, &fb)), (a * b) % &p);
        }
        let fa = from_big(a);
        assert_eq!(to_big(&caml_bn_382_fq_negate(&fa)), (&p - a) % &p);
        assert_eq!(to_big(&caml_bn_382_fq_square(&fa)), (a * a) % &p);
    }
}

#[test]
fn one_product_by_hand() {
    // (p - 1) * (p - 2) = 2 modulo p.
    let p = modulus();
    let a = from_big(&(&p - big(1)));
    let b = from_big(&(&p - big(2)));
    assert_eq!(caml_bn_382_fq_mul(&a, &b), caml_bn_382_fq_of_int(2));
    // 2^64 * 2^64 = 2^128.
    let c = from_big(&(BigUint::from(u64::MAX) + big(1)));
    let expected = CamlBigint384::new([0, 0, 1, 0, 0, 0]);
    assert_eq!(caml_bn_382_fq_to_bigint(&caml_bn_382_fq_square(&c)), expected);
}

#[test]
fn addition_is_commutative_and_negation_cancels() {
    let xs = samples();
    let zero = caml_bn_382_fq_of_int(0);
    for a in xs.iter() {
        let fa = from_big(a);
        assert_eq!(caml_bn_382_fq_add(&fa, &caml_bn_382_fq_negate(&fa)), zero);
        assert_eq!(caml_bn_382_fq_negate(&caml_bn_382_fq_negate(&fa)), fa);
        for b in xs.iter() {
            let fb = from_big(b);
            assert_eq!(caml_bn_382_fq_add(&fa, &fb), caml_bn_382_fq_add(&fb, &fa));
            assert_eq!(
                caml_bn_382_fq_sub(&fa, &fb),
                caml_bn_382_fq_add(&fa, &caml_bn_382_fq_negate(&fb))
            );
        }
    }
}

#[test]
fn square_is_the_product_with_itself() {
    for a in samples().iter() {
        let fa = from_big(a);
        assert_eq!(caml_bn_382_fq_square(&fa), caml_bn_382_fq_mul(&fa, &fa));
    }
}

#[test]
fn inverse_times_element_is_one() {
    let p = modulus();
    let one = caml_bn_382_fq_of_int(1);
    for a in samples().iter() {
        let fa = from_big(a);
        if a == &big(0) {
            assert_eq!(caml_bn_382_fq_inv(&fa), None);
        } else {
            let inv = caml_bn_382_fq_inv(&fa).unwrap();
            assert_eq!(caml_bn_382_fq_mul(&fa, &inv), one);
            assert_eq!(to_big(&inv), a.modpow(&(&p - big(2)), &p));
        }
    }
}

#[test]
fn inverse_of_two_is_half_of_the_modulus_plus_one() {
    let p = modulus();
    let two = caml_bn_382_fq_of_int(2);
    let inv = caml_bn_382_fq_inv(&two).unwrap();
    assert_eq!(to_big(&inv), (&p + big(1)) / big(2));
}

#[test]
fn division_undoes_multiplication() {
    let xs = samples();
    for a in xs.iter() {
        for b in xs.iter() {
            let fa = from_big(a);
            let fb = from_big(b);
            if b == &big(0) {
                assert_eq!(caml_bn_382_fq_div(&fa, &fb), Err(FieldError::UndefinedOperation));
            } else {
                let q = caml_bn_382_fq_div(&fa, &fb).unwrap();
                assert_eq!(caml_bn_382_fq_mul(&q, &fb), fa);
            }
        }
    }
}

#[test]
fn six_divided_by_three_is_two() {
    let six = caml_bn_382_fq_of_int(6);
    let three = caml_bn_382_fq_of_int(3);
    assert_eq!(caml_bn_382_fq_div(&six, &three), Ok(caml_bn_382_fq_of_int(2)));
}

#[test]
fn euler_criterion_agrees_with_big_integers() {
    let p = modulus();
    let half = (&p - big(1)) / big(2);
    let mut squares = 0;
    let xs = samples();
    for a in xs.iter() {
        let s = a.modpow(&half, &p);
        let expected = s == big(0) || s == big(1);
        assert_eq!(caml_bn_382_fq_is_square(&from_big(a)), expected);
        if expected {
            squares += 1;
        }
    }
    assert!(squares > 5 && squares < xs.len() - 5);
}

#[test]
fn square_roots_square_back() {
    let p = modulus();
    let half = (&p - big(1)) / big(2);
    for a in samples().iter() {
        let fa = from_big(a);
        match caml_bn_382_fq_sqrt(&fa) {
            Some(c) => {
                assert_eq!(caml_bn_382_fq_square(&c), fa);
                assert!(caml_bn_382_fq_is_square(&fa));
                assert!(to_big(&c) <= half);
            }
            None => assert!(!caml_bn_382_fq_is_square(&fa)),
        }
        // Every square has a root, and the root returned is the one in the lower half.
        let sq = caml_bn_382_fq_square(&fa);
        let root = caml_bn_382_fq_sqrt(&sq).unwrap();
        let lower = if a <= &half { a.clone() } else { &p - a };
        assert_eq!(to_big(&root), lower);
    }
}

#[test]
fn square_root_of_four_is_two() {
    let four = caml_bn_382_fq_of_int(4);
    assert_eq!(caml_bn_382_fq_sqrt(&four), Some(caml_bn_382_fq_of_int(2)));
    let nine = caml_bn_382_fq_of_int(9);
    assert_eq!(caml_bn_382_fq_sqrt(&nine), Some(caml_bn_382_fq_of_int(3)));
    let zero = caml_bn_382_fq_of_int(0);
    assert_eq!(caml_bn_382_fq_sqrt(&zero), Some(zero));
}

#[test]
fn seven_is_no_square() {
    let seven = caml_bn_382_fq_of_int(7);
    assert!(!caml_bn_382_fq_is_square(&seven));
    assert_eq!(caml_bn_382_fq_sqrt(&seven), None);
}

#[test]
fn two_plus_three_is_five() {
    let two = caml_bn_382_fq_of_int(2);
    let three = caml_bn_382_fq_of_int(3);
    assert_eq!(caml_bn_382_fq_add(&two, &three), caml_bn_382_fq_of_int(5));
    assert!(caml_bn_382_fq_equal(
        &caml_bn_382_fq_add(&two, &three),
        &caml_bn_382_fq_of_int(5)
    ));
}

#[test]
fn zero_has_no_inverse_and_is_a_square() {
    let zero = caml_bn_382_fq_of_int(0);
    assert_eq!(caml_bn_382_fq_inv(&zero), None);
    assert!(caml_bn_382_fq_is_square(&zero));
}

#[test]
fn minus_one_is_the_modulus_less_one() {
    let p = modulus();
    let one = caml_bn_382_fq_of_int(1);
    assert_eq!(caml_bn_382_fq_negate(&one), from_big(&(&p - big(1))));
}

#[test]
fn of_int_reads_a_negative_integer_as_unsigned() {
    let minus_one = caml_bn_382_fq_of_int(-1);
    assert_eq!(to_big(&minus_one), BigUint::from(u64::MAX));
    let least = caml_bn_382_fq_of_int(isize::MIN);
    assert_eq!(to_big(&least), BigUint::from(isize::MIN as u64));
    let most = caml_bn_382_fq_of_int(isize::MAX);
    assert_eq!(to_big(&most), BigUint::from(isize::MAX as u64));
}

#[test]
fn big_integers_round_trip() {
    for a in samples().iter() {
        let x = CamlBigint384::new(limbs_of(a));
        let fa = caml_bn_382_fq_of_bigint(&x).unwrap();
        assert_eq!(caml_bn_382_fq_to_bigint(&fa), x);
    }
}

#[test]
fn big_integers_from_the_modulus_on_are_refused() {
    let p = modulus();
    let at = CamlBigint384::new(limbs_of(&p));
    assert_eq!(caml_bn_382_fq_of_bigint(&at), Err(FieldError::InvalidArgument));
    let above = CamlBigint384::new(limbs_of(&(&p + big(1))));
    assert_eq!(caml_bn_382_fq_of_bigint(&above), Err(FieldError::InvalidArgument));
    let full = CamlBigint384::new([u64::MAX; 6]);
    assert_eq!(caml_bn_382_fq_of_bigint(&full), Err(FieldError::InvalidArgument));
    let below = CamlBigint384::new(limbs_of(&(&p - big(1))));
    assert!(caml_bn_382_fq_of_bigint(&below).is_ok());
}

#[test]
fn compare_orders_by_representative() {
    let xs = samples();
    for a in xs.iter() {
        for b in xs.iter() {
            let fa = from_big(a);
            let fb = from_big(b);
            let expected = if a < b {
                -1
            } else if a == b {
                0
            } else {
                1
            };
            assert_eq!(caml_bn_382_fq_compare(&fa, &fb), expected);
            assert_eq!(caml_bn_382_fq_compare(&fb, &fa), -expected);
            assert_eq!(caml_bn_382_fq_equal(&fa, &fb), expected == 0);
        }
    }
}

#[test]
fn compare_is_transitive() {
    let xs = samples();
    for a in xs.iter().take(12) {
        for b in xs.iter().take(12) {
            for c in xs.iter().take(12) {
                let (fa, fb, fc) = (from_big(a), from_big(b), from_big(c));
                if caml_bn_382_fq_compare(&fa, &fb) < 0 && caml_bn_382_fq_compare(&fb, &fc) < 0 {
                    assert_eq!(caml_bn_382_fq_compare(&fa, &fc), -1);
                }
            }
        }
    }
}

#[test]
fn copy_is_equal_and_independent() {
    let a = caml_bn_382_fq_of_int(41);
    let mut b = caml_bn_382_fq_copy(&a);
    assert_eq!(a, b);
    caml_bn_382_fq_mut_add(&mut b, &caml_bn_382_fq_of_int(1));
    assert_eq!(a, caml_bn_382_fq_of_int(41));
    assert_eq!(b, caml_bn_382_fq_of_int(42));
}

#[test]
fn in_place_operations_agree_with_the_pure_ones() {
    let xs = samples();
    for a in xs.iter() {
        for b in xs.iter().take(8) {
            let fa = from_big(a);
            let fb = from_big(b);
            let mut x = fa;
            caml_bn_382_fq_mut_add(&mut x, &fb);
            assert_eq!(x, caml_bn_382_fq_add(&fa, &fb));
            let mut x = fa;
            caml_bn_382_fq_mut_sub(&mut x, &fb);
            assert_eq!(x, caml_bn_382_fq_sub(&fa, &fb));
            let mut x = fa;
            caml_bn_382_fq_mut_mul(&mut x, &fb);
            assert_eq!(x, caml_bn_382_fq_mul(&fa, &fb));
        }
        let fa = from_big(a);
        let mut x = fa;
        caml_bn_382_fq_mut_square(&mut x);
        assert_eq!(x, caml_bn_382_fq_square(&fa));
    }
}

#[test]
fn in_place_operations_by_hand() {
    let mut x = caml_bn_382_fq_of_int(10);
    caml_bn_382_fq_mut_sub(&mut x, &caml_bn_382_fq_of_int(3));
    assert_eq!(x, caml_bn_382_fq_of_int(7));
    caml_bn_382_fq_mut_mul(&mut x, &caml_bn_382_fq_of_int(6));
    assert_eq!(x, caml_bn_382_fq_of_int(42));
    caml_bn_382_fq_mut_square(&mut x);
    assert_eq!(x, caml_bn_382_fq_of_int(1764));
}

#[test]
fn elements_are_ordered_by_representative() {
    let xs = samples();
    for a in xs.iter() {
        for b in xs.iter() {
            let fa = from_big(a);
            let fb = from_big(b);
            assert_eq!(fa < fb, a < b);
            assert_eq!(fa <= fb, a <= b);
            assert_eq!(fa > fb, a > b);
            assert_eq!(fa.partial_cmp(&fb), a.partial_cmp(b));
        }
    }
    // The order is that of the numbers, not that of the limbs from the first on.
    let low = from_big(&(BigUint::from(u64::MAX)));
    let high = from_big(&(BigUint::from(u64::MAX) + big(1)));
    assert!(low < high);
}

#[test]
fn a_big_integer_is_made_from_an_element() {
    let x = caml_bn_382_fq_of_int(77);
    assert_eq!(CamlBigint384::from(&x), CamlBigint384::new([77, 0, 0, 0, 0, 0]));
    assert_eq!(CamlBigint384::from(&x), caml_bn_382_fq_to_bigint(&x));
}

#[test]
fn powers_agree_with_big_integers() {
    let p = modulus();
    let xs = samples();
    for a in xs.iter().take(12) {
        for e in xs.iter().skip(3).take(8) {
            let fa = from_big(a);
            assert_eq!(to_big(&fa.pow(&limbs_of(e))), a.modpow(e, &p));
        }
        let fa = from_big(a);
        assert_eq!(to_big(&fa.pow(&[0; 6])), big(1));
        assert_eq!(to_big(&fa.pow(&[1, 0, 0, 0, 0, 0])), a.clone());
        assert_eq!(to_big(&fa.pow(&[u64::MAX; 6])), a.modpow(&limbs_to_big(&[u64::MAX; 6]), &p));
        assert_eq!(to_big(&fa.pow2k(5)), a.modpow(&big(32), &p));
        assert_eq!(fa.pow2k(0), fa);
    }
}

fn limbs_to_big(limbs: &[u64; 6]) -> BigUint {
    let mut bytes = Vec::new();
    for limb in limbs.iter() {
        bytes.extend_from_slice(&limb.to_le_bytes());
    }
    BigUint::from_bytes_le(&bytes)
}

#[test]
fn three_to_the_fifth_is_243() {
    let three = caml_bn_382_fq_of_int(3);
    assert_eq!(three.pow(&[5, 0, 0, 0, 0, 0]), caml_bn_382_fq_of_int(243));
}

#[test]
fn halving_undoes_doubling() {
    let p = modulus();
    for a in samples().iter() {
        let fa = from_big(a);
        let h = fa.halve();
        assert_eq!(caml_bn_382_fq_add(&h, &h), fa);
        assert_eq!((to_big(&h) * big(2)) % &p, a.clone());
    }
    assert_eq!(caml_bn_382_fq_of_int(10).halve(), caml_bn_382_fq_of_int(5));
}

#[test]
fn small_multiples_agree_with_products() {
    for a in samples().iter() {
        let fa = from_big(a);
        for w in [0u64, 1, 2, 10, u64::MAX] {
            let fw = from_big(&BigUint::from(w));
            assert_eq!(fa.mul_small(w), caml_bn_382_fq_mul(&fa, &fw));
        }
    }
}

#[test]
fn every_element_but_zero_has_an_inverse_and_can_be_divided_by() {
    let one = caml_bn_382_fq_of_int(1);
    for i in 1..200isize {
        let x = caml_bn_382_fq_of_int(i);
        let inv = caml_bn_382_fq_inv(&x).unwrap();
        assert_eq!(caml_bn_382_fq_mul(&x, &inv), one);
        assert_eq!(caml_bn_382_fq_div(&one, &x), Ok(inv));
    }
}

#[test]
fn squares_meet_the_criterion_and_have_their_lower_root() {
    for i in 0..100isize {
        let x = caml_bn_382_fq_of_int(i);
        let sq = caml_bn_382_fq_square(&x);
        assert!(caml_bn_382_fq_is_square(&sq));
        assert_eq!(caml_bn_382_fq_sqrt(&sq), Some(x));
    }
}
