use bn382_fq::bn_382_fq::{
    caml_bn_382_fq_negate, caml_bn_382_fq_of_int, caml_bn_382_fq_of_string,
    caml_bn_382_fq_to_string,
};
use bn382_fq::error::FieldError;
use num_bigint::BigUint;

const MODULUS_DECIMAL: &str = "5543634365110765627805495722742127385843376434033820803592568747918351978899288491582778380528407187068941959692289";

const MODULUS_LESS_ONE: &str = "5543634365110765627805495722742127385843376434033820803592568747918351978899288491582778380528407187068941959692288";

#[test]
fn small_numbers_are_written_in_decimal() {
    assert_eq!(caml_bn_382_fq_to_string(&caml_bn_382_fq_of_int(0)), "0");
    assert_eq!(caml_bn_382_fq_to_string(&caml_bn_382_fq_of_int(7)), "7");
    assert_eq!(caml_bn_382_fq_to_string(&caml_bn_382_fq_of_int(10)), "10");
    assert_eq!(caml_bn_382_fq_to_string(&caml_bn_382_fq_of_int(1234567890)), "1234567890");
    assert_eq!(
        caml_bn_382_fq_to_string(&caml_bn_382_fq_of_int(-1)),
        "18446744073709551615"
    );
}

#[test]
fn minus_one_is_written_as_the_modulus_less_one() {
    let minus_one = caml_bn_382_fq_negate(&caml_bn_382_fq_of_int(1));
    assert_eq!(caml_bn_382_fq_to_string(&minus_one), MODULUS_LESS_ONE);
}

#[test]
fn numerals_are_read() {
    assert_eq!(caml_bn_382_fq_of_string(b"0"), Ok(caml_bn_382_fq_of_int(0)));
    assert_eq!(caml_bn_382_fq_of_string(b"5"), Ok(caml_bn_382_fq_of_int(5)));
    assert_eq!(caml_bn_382_fq_of_string(b"1234567890"), Ok(caml_bn_382_fq_of_int(1234567890)));
    assert_eq!(
        caml_bn_382_fq_of_string(MODULUS_LESS_ONE.as_bytes()),
        Ok(caml_bn_382_fq_negate(&caml_bn_382_fq_of_int(1)))
    );
}

#[test]
fn leading_zeros_are_accepted() {
    assert_eq!(caml_bn_382_fq_of_string(b"007"), Ok(caml_bn_382_fq_of_int(7)));
    assert_eq!(caml_bn_382_fq_of_string(b"0000"), Ok(caml_bn_382_fq_of_int(0)));
}

#[test]
fn what_is_no_numeral_is_refused() {
    assert_eq!(caml_bn_382_fq_of_string(b"not_a_number"), Err(FieldError::InvalidArgument));
    assert_eq!(caml_bn_382_fq_of_string(b""), Err(FieldError::InvalidArgument));
    assert_eq!(caml_bn_382_fq_of_string(b"+5"), Err(FieldError::InvalidArgument));
    assert_eq!(caml_bn_382_fq_of_string(b"-5"), Err(FieldError::InvalidArgument));
    assert_eq!(caml_bn_382_fq_of_string(b"1_000"), Err(FieldError::InvalidArgument));
    assert_eq!(caml_bn_382_fq_of_string(b"12a"), Err(FieldError::InvalidArgument));
    assert_eq!(caml_bn_382_fq_of_string(b" 12"), Err(FieldError::InvalidArgument));
    assert_eq!(caml_bn_382_fq_of_string(b"12 "), Err(FieldError::InvalidArgument));
    assert_eq!(caml_bn_382_fq_of_string(b"0x10"), Err(FieldError::InvalidArgument));
    assert_eq!(caml_bn_382_fq_of_string(b"1/2"), Err(FieldError::InvalidArgument));
    assert_eq!(caml_bn_382_fq_of_string(b"1:2"), Err(FieldError::InvalidArgument));
}

#[test]
fn the_modulus_reads_as_zero() {
    assert_eq!(
        caml_bn_382_fq_of_string(MODULUS_DECIMAL.as_bytes()),
        Ok(caml_bn_382_fq_of_int(0))
    );
}

#[test]
fn numerals_above_the_modulus_are_reduced() {
    let p = BigUint::parse_bytes(MODULUS_DECIMAL.as_bytes(), 10).unwrap();
    let n = &p * &p * BigUint::from(1000u32) + BigUint::from(17u32);
    let text = n.to_str_radix(10);
    assert_eq!(caml_bn_382_fq_of_string(text.as_bytes()), Ok(caml_bn_382_fq_of_int(17)));
    let long = "9".repeat(400);
    let expected = (BigUint::parse_bytes(long.as_bytes(), 10).unwrap() % &p).to_str_radix(10);
    let read = caml_bn_382_fq_of_string(long.as_bytes()).unwrap();
    assert_eq!(caml_bn_382_fq_to_string(&read), expected);
}

#[test]
fn writing_then_reading_gives_the_element_back() {
    let p = BigUint::parse_bytes(MODULUS_DECIMAL.as_bytes(), 10).unwrap();
    let mut x = BigUint::from(3u32);
    for _ in 0..40 {
        x = (&x * &x + BigUint::from(12345u32)) % &p;
        let text = x.to_str_radix(10);
        let element = caml_bn_382_fq_of_string(text.as_bytes()).unwrap();
        let written = caml_bn_382_fq_to_string(&element);
        assert_eq!(written, text);
        assert_eq!(caml_bn_382_fq_of_string(written.as_bytes()), Ok(element));
    }
}
