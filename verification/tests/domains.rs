use bn382_fq::bn_382_fq::{
    caml_bn_382_fq_domain_generator, caml_bn_382_fq_equal, caml_bn_382_fq_mul,
    caml_bn_382_fq_negate, caml_bn_382_fq_of_int, caml_bn_382_fq_of_string,
    caml_bn_382_fq_square, caml_bn_382_fq_two_adic_root_of_unity,
};
use bn382_fq::error::FieldError;
use bn382_fq::field::CamlBn382Fq;

fn squared(x: &CamlBn382Fq, times: usize) -> CamlBn382Fq {
    let mut y = *x;
    for _ in 0..times {
        y = caml_bn_382_fq_square(&y);
    }
    y
}

#[test]
fn the_domain_of_size_one_is_generated_by_one() {
    assert_eq!(caml_bn_382_fq_domain_generator(0), Ok(caml_bn_382_fq_of_int(1)));
}

#[test]
fn the_domain_of_size_two_is_generated_by_minus_one() {
    let minus_one = caml_bn_382_fq_negate(&caml_bn_382_fq_of_int(1));
    assert_eq!(caml_bn_382_fq_domain_generator(1), Ok(minus_one));
}

#[test]
fn generators_have_the_order_asked_for() {
    let one = caml_bn_382_fq_of_int(1);
    let minus_one = caml_bn_382_fq_negate(&one);
    for n in 1..=67usize {
        let g = caml_bn_382_fq_domain_generator(n as isize).unwrap();
        assert_eq!(squared(&g, n), one);
        assert_eq!(squared(&g, n - 1), minus_one);
        assert!(!caml_bn_382_fq_equal(&squared(&g, n - 1), &one));
    }
}

#[test]
fn each_generator_is_the_square_of_the_next() {
    for n in 0..67isize {
        let g = caml_bn_382_fq_domain_generator(n).unwrap();
        let next = caml_bn_382_fq_domain_generator(n + 1).unwrap();
        assert_eq!(caml_bn_382_fq_square(&next), g);
    }
}

#[test]
fn domains_beyond_the_two_adicity_are_refused() {
    assert_eq!(caml_bn_382_fq_domain_generator(68), Err(FieldError::DomainSizeUnsupported));
    assert_eq!(caml_bn_382_fq_domain_generator(1000), Err(FieldError::DomainSizeUnsupported));
    assert_eq!(
        caml_bn_382_fq_domain_generator(isize::MAX),
        Err(FieldError::DomainSizeUnsupported)
    );
    assert_eq!(caml_bn_382_fq_domain_generator(-1), Err(FieldError::DomainSizeUnsupported));
    assert_eq!(
        caml_bn_382_fq_domain_generator(isize::MIN),
        Err(FieldError::DomainSizeUnsupported)
    );
    assert!(caml_bn_382_fq_domain_generator(67).is_ok());
}

#[test]
fn the_largest_domain_is_generated_by_the_root_of_unity() {
    let root = caml_bn_382_fq_two_adic_root_of_unity();
    assert_eq!(caml_bn_382_fq_domain_generator(67), Ok(root));
    let expected = caml_bn_382_fq_of_string(
        b"950838555121469764895066233784900498989129429402054244948726633846932698297064044539167408369284624314448218509887",
    )
    .unwrap();
    assert_eq!(root, expected);
}

#[test]
fn the_root_of_unity_is_seven_to_the_odd_part() {
    // The odd part of the modulus minus one, in binary from the top, drives a
    // square and multiply by hand.
    let odd_part: [u64; 5] = [
        0x0000000030018303,
        0x3003061230606030,
        0x169146c285136120,
        0xce2a078d3613b7f1,
        0x04809127fb5b10f1,
    ];
    let seven = caml_bn_382_fq_of_int(7);
    let mut acc = caml_bn_382_fq_of_int(1);
    for limb in odd_part.iter().rev() {
        for bit in (0..64).rev() {
            acc = caml_bn_382_fq_square(&acc);
            if (limb >> bit) & 1 == 1 {
                acc = caml_bn_382_fq_mul(&acc, &seven);
            }
        }
    }
    assert_eq!(acc, caml_bn_382_fq_two_adic_root_of_unity());
}
