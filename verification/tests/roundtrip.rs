use extendr_api::convert::{
    as_integer_slice, from_handle_bool, from_handle_f32_bits, from_handle_i16, from_handle_i32,
    from_handle_i64, from_handle_i8, from_handle_integer_vector, from_handle_logical,
    from_handle_option_bool, from_handle_option_i32, from_handle_option_real_bits,
    from_handle_option_string, from_handle_raw_vector, from_handle_real_bits,
    from_handle_real_vector, from_handle_string, from_handle_u16, from_handle_u32, from_handle_u64,
    from_handle_u8, to_handle_bool, to_handle_f32_bits, to_handle_i16, to_handle_i32,
    to_handle_i64, to_handle_i8, to_handle_integer_vector, to_handle_logical, to_handle_null,
    to_handle_option_bool, to_handle_option_i32, to_handle_option_real_bits,
    to_handle_option_string, to_handle_option_u8, to_handle_raw_vector, to_handle_real_bits,
    to_handle_real_vector, to_handle_str, to_handle_string, to_handle_u16, to_handle_u32,
    to_handle_u64, to_handle_u8,
};
use extendr_api::engine::Engine;
use extendr_api::error::Error;
use extendr_api::bits::{f32_bits_from_f64_bits, f32_bits_to_f64_bits, i32_from_real_bits, real_bits_from_i32};
use extendr_api::value::{rvalue_equal, Bool, IsNA, RValue, Rtype, NA_INTEGER, NA_LOGICAL, NA_REAL_BITS};

#[test]
fn scalar_int_round_trips() {
    let mut e = Engine::new();
    let h = to_handle_i32(&mut e, 42);
    assert_eq!(from_handle_i32(&e, &h), Ok(42));
    let h = to_handle_i8(&mut e, -7);
    assert_eq!(from_handle_i8(&e, &h), Ok(-7));
    let h = to_handle_i16(&mut e, -300);
    assert_eq!(from_handle_i16(&e, &h), Ok(-300));
    let h = to_handle_u16(&mut e, 60000);
    assert_eq!(from_handle_u16(&e, &h), Ok(60000));
    let h = to_handle_i64(&mut e, 123456).unwrap();
    assert_eq!(from_handle_i64(&e, &h), Ok(123456));
    let h = to_handle_u32(&mut e, 77).unwrap();
    assert_eq!(from_handle_u32(&e, &h), Ok(77));
    let h = to_handle_u64(&mut e, 88).unwrap();
    assert_eq!(from_handle_u64(&e, &h), Ok(88));
}

#[test]
fn u8_round_trips_through_raw() {
    let mut e = Engine::new();
    let h = to_handle_u8(&mut e, 123);
    assert_eq!(e.value_of(&h).rtype(), Rtype::Raw);
    assert_eq!(from_handle_u8(&e, &h), Ok(123));
    // A u8 read from an integer vector also works.
    let h = to_handle_i32(&mut e, 200);
    assert_eq!(from_handle_u8(&e, &h), Ok(200));
}

#[test]
fn real_round_trips() {
    let mut e = Engine::new();
    let bits = f64::to_bits(123.25);
    let h = to_handle_real_bits(&mut e, bits);
    assert_eq!(e.value_of(&h).rtype(), Rtype::Real);
    assert_eq!(from_handle_real_bits(&e, &h), Ok(bits));
    assert_eq!(f64::from_bits(from_handle_real_bits(&e, &h).unwrap()), 123.25);
}

#[test]
fn f32_round_trips() {
    let mut e = Engine::new();
    let h = to_handle_f32_bits(&mut e, f32::to_bits(123.0));
    assert_eq!(from_handle_real_bits(&e, &h), Ok(f64::to_bits(123.0)));
    assert_eq!(from_handle_f32_bits(&e, &h), Ok(f32::to_bits(123.0)));
}

#[test]
fn bool_round_trips() {
    let mut e = Engine::new();
    let h = to_handle_bool(&mut e, true);
    assert_eq!(from_handle_bool(&e, &h), Ok(true));
    let h = to_handle_bool(&mut e, false);
    assert_eq!(from_handle_bool(&e, &h), Ok(false));
    let h = to_handle_logical(&mut e, Bool(NA_LOGICAL));
    assert_eq!(from_handle_logical(&e, &h), Ok(Bool(NA_LOGICAL)));
    assert_eq!(Bool(NA_LOGICAL).to_option(), None);
    assert_eq!(Bool(1).to_option(), Some(true));
}

#[test]
fn string_round_trips() {
    let mut e = Engine::new();
    let h = to_handle_str(&mut e, "abc");
    assert_eq!(from_handle_string(&e, &h), Ok(String::from("abc")));
    let h = to_handle_string(&mut e, String::from("def"));
    assert_eq!(from_handle_string(&e, &h), Ok(String::from("def")));
}

#[test]
fn vector_round_trips() {
    let mut e = Engine::new();
    let h = to_handle_integer_vector(&mut e, vec![1, 2, 3]);
    assert_eq!(from_handle_integer_vector(&e, &h), Ok(vec![1, 2, 3]));
    let reals: Vec<u64> = vec![f64::to_bits(4.0), f64::to_bits(5.0), f64::to_bits(6.0)];
    let h = to_handle_real_vector(&mut e, reals.clone());
    assert_eq!(from_handle_real_vector(&e, &h), Ok(reals));
    let h = to_handle_raw_vector(&mut e, vec![9, 8, 7]);
    assert_eq!(from_handle_raw_vector(&e, &h), Ok(vec![9, 8, 7]));
}

#[test]
fn na_round_trips() {
    let mut e = Engine::new();
    let h = to_handle_option_i32(&mut e, None);
    assert_eq!(from_handle_option_i32(&e, &h), Ok(None));
    let h = to_handle_option_i32(&mut e, Some(5));
    assert_eq!(from_handle_option_i32(&e, &h), Ok(Some(5)));
    let h = to_handle_option_real_bits(&mut e, None);
    assert_eq!(from_handle_option_real_bits(&e, &h), Ok(None));
    let h = to_handle_option_real_bits(&mut e, Some(f64::to_bits(2.5)));
    assert_eq!(from_handle_option_real_bits(&e, &h), Ok(Some(f64::to_bits(2.5))));
    let h = to_handle_option_bool(&mut e, None);
    assert_eq!(from_handle_option_bool(&e, &h), Ok(None));
    let h = to_handle_option_bool(&mut e, Some(true));
    assert_eq!(from_handle_option_bool(&e, &h), Ok(Some(true)));
    let h = to_handle_option_string(&mut e, None);
    assert_eq!(from_handle_option_string(&e, &h), Ok(None));
    let h = to_handle_option_string(&mut e, Some(String::from("x")));
    assert_eq!(from_handle_option_string(&e, &h), Ok(Some(String::from("x"))));
}

#[test]
fn na_where_not_allowed() {
    let mut e = Engine::new();
    let h = to_handle_option_i32(&mut e, None);
    assert_eq!(from_handle_i32(&e, &h), Err(Error::NaNotAllowed));
    let h = to_handle_real_bits(&mut e, NA_REAL_BITS);
    assert_eq!(from_handle_f32_bits(&e, &h), Err(Error::NaNotAllowed));
    let h = to_handle_option_bool(&mut e, None);
    assert_eq!(from_handle_bool(&e, &h), Err(Error::NaNotAllowed));
    let h = to_handle_option_string(&mut e, None);
    assert_eq!(from_handle_string(&e, &h), Err(Error::NaNotAllowed));
    // A raw byte vector has no sentinel, so absence cannot travel.
    assert_eq!(to_handle_option_u8(&mut e, None).unwrap_err(), Error::ConversionFailure);
}

#[test]
fn type_mismatch_detection() {
    let mut e = Engine::new();
    let h = to_handle_str(&mut e, "x");
    assert_eq!(from_handle_i32(&e, &h), Err(Error::TypeMismatch));
    assert_eq!(from_handle_real_bits(&e, &h), Err(Error::TypeMismatch));
    assert_eq!(from_handle_bool(&e, &h), Err(Error::TypeMismatch));
    let h = to_handle_null(&mut e);
    assert_eq!(from_handle_string(&e, &h), Err(Error::TypeMismatch));
    assert_eq!(from_handle_integer_vector(&e, &h).unwrap_err(), Error::TypeMismatch);
    assert!(as_integer_slice(&e, &h).is_none());
}

#[test]
fn length_mismatch_detection() {
    let mut e = Engine::new();
    let h = to_handle_integer_vector(&mut e, vec![1, 2]);
    assert_eq!(from_handle_i32(&e, &h), Err(Error::LengthMismatch));
    let h = to_handle_real_vector(&mut e, vec![]);
    assert_eq!(from_handle_real_bits(&e, &h), Err(Error::LengthMismatch));
}

#[test]
fn narrowing_checks_range() {
    let mut e = Engine::new();
    let h = to_handle_i32(&mut e, 300);
    assert_eq!(from_handle_i8(&e, &h), Err(Error::ConversionFailure));
    assert_eq!(from_handle_u8(&e, &h), Err(Error::ConversionFailure));
    let h = to_handle_i32(&mut e, 70000);
    assert_eq!(from_handle_u16(&e, &h), Err(Error::ConversionFailure));
    assert_eq!(from_handle_i16(&e, &h), Err(Error::ConversionFailure));
    let h = to_handle_i32(&mut e, -1);
    assert_eq!(from_handle_u32(&e, &h), Err(Error::ConversionFailure));
    assert_eq!(from_handle_u64(&e, &h), Err(Error::ConversionFailure));
    // Wide natives outside the host's 32-bit width are refused, not cut.
    assert_eq!(to_handle_i64(&mut e, 1 << 40).unwrap_err(), Error::ConversionFailure);
    assert_eq!(to_handle_u32(&mut e, u32::MAX).unwrap_err(), Error::ConversionFailure);
    assert_eq!(to_handle_u64(&mut e, u64::MAX).unwrap_err(), Error::ConversionFailure);
}

#[test]
fn reals_convert_to_ints_exactly_or_not_at_all() {
    let mut e = Engine::new();
    let h = to_handle_real_bits(&mut e, f64::to_bits(7.0));
    assert_eq!(from_handle_i32(&e, &h), Ok(7));
    let h = to_handle_real_bits(&mut e, f64::to_bits(-2147483648.0));
    assert_eq!(from_handle_i32(&e, &h), Ok(i32::MIN));
    let h = to_handle_real_bits(&mut e, f64::to_bits(1.5));
    assert_eq!(from_handle_i32(&e, &h), Err(Error::ConversionFailure));
    let h = to_handle_real_bits(&mut e, f64::to_bits(4294967296.0));
    assert_eq!(from_handle_i32(&e, &h), Err(Error::ConversionFailure));
    // Integers widen into reals exactly.
    let h = to_handle_i32(&mut e, 6);
    assert_eq!(from_handle_real_bits(&e, &h), Ok(f64::to_bits(6.0)));
    assert_eq!(from_handle_f32_bits(&e, &h), Ok(f32::to_bits(6.0)));
}

#[test]
fn sentinel_recognition_is_exact_bit() {
    assert!(NA_INTEGER.is_na());
    assert!(!42i32.is_na());
    assert!(Bool(NA_LOGICAL).is_na());
    assert!(!Bool(0).is_na());
    assert!(extendr_api::value::is_na_real(NA_REAL_BITS));
    // An ordinary NaN is not the sentinel: the check is a bit pattern, not
    // "any NaN".
    let plain_nan = f64::to_bits(0.0f64 / 0.0f64);
    assert!(f64::from_bits(plain_nan).is_nan());
    assert!(!extendr_api::value::is_na_real(plain_nan));
}

#[test]
fn error_kinds_have_names() {
    assert_eq!(Error::ConversionFailure.name(), "conversion failure");
    assert_eq!(Error::TypeMismatch.name(), "type mismatch");
    assert_eq!(Error::LengthMismatch.name(), "length mismatch");
    assert_eq!(Error::NaNotAllowed.name(), "NA not allowed");
    assert_eq!(Error::ArityMismatch.name(), "arity mismatch");
    assert_eq!(Error::NativePanic.name(), "native panic");
    assert_eq!(Error::RuntimeSignaledError.name(), "runtime signaled error");
}

#[test]
fn tags_and_lengths() {
    let mut e = Engine::new();
    let h = to_handle_null(&mut e);
    assert_eq!(e.value_of(&h).rtype(), Rtype::Null);
    assert_eq!(e.value_of(&h).length(), 0);
    let h = to_handle_integer_vector(&mut e, vec![1, 2, 3]);
    assert_eq!(e.value_of(&h).rtype(), Rtype::Integer);
    assert_eq!(e.value_of(&h).length(), 3);
    let h = to_handle_str(&mut e, "abc");
    assert_eq!(e.value_of(&h).rtype(), Rtype::Character);
    assert_eq!(e.value_of(&h).length(), 1);
    let sym = RValue::Symbol(String::from("name"));
    assert_eq!(sym.rtype(), Rtype::Symbol);
    assert_eq!(sym.length(), 1);
}

#[test]
fn structural_value_equality() {
    assert!(rvalue_equal(&RValue::Null, &RValue::Null));
    assert!(!rvalue_equal(&RValue::Null, &RValue::Integer(vec![1])));
    assert!(rvalue_equal(&RValue::Integer(vec![1, 2]), &RValue::Integer(vec![1, 2])));
    assert!(!rvalue_equal(&RValue::Integer(vec![1, 2]), &RValue::Integer(vec![1, 3])));
    assert!(rvalue_equal(
        &RValue::Character(vec![Some(String::from("a")), None]),
        &RValue::Character(vec![Some(String::from("a")), None]),
    ));
    assert!(!rvalue_equal(
        &RValue::Character(vec![Some(String::from("a"))]),
        &RValue::Character(vec![None]),
    ));
    assert!(rvalue_equal(&RValue::List(vec![0, 1]), &RValue::List(vec![0, 1])));
    assert!(!rvalue_equal(&RValue::Closure(1), &RValue::Closure(2)));
    assert!(rvalue_equal(
        &RValue::Symbol(String::from("s")),
        &RValue::Symbol(String::from("s")),
    ));
}

#[test]
fn integer_to_real_bit_patterns_are_exact() {
    assert_eq!(real_bits_from_i32(0), f64::to_bits(0.0));
    assert_eq!(real_bits_from_i32(1), f64::to_bits(1.0));
    assert_eq!(real_bits_from_i32(-7), f64::to_bits(-7.0));
    assert_eq!(real_bits_from_i32(123), f64::to_bits(123.0));
    assert_eq!(real_bits_from_i32(i32::MAX), f64::to_bits(2147483647.0));
    assert_eq!(real_bits_from_i32(i32::MIN), f64::to_bits(-2147483648.0));
    for v in [0, 1, -1, 2, 123, 1954, -65536, i32::MAX, i32::MIN] {
        assert_eq!(i32_from_real_bits(real_bits_from_i32(v)), Some(v));
    }
    assert_eq!(i32_from_real_bits(f64::to_bits(0.5)), None);
    assert_eq!(i32_from_real_bits(f64::to_bits(f64::INFINITY)), None);
    assert_eq!(i32_from_real_bits(f64::to_bits(-0.0)), Some(0));
}

#[test]
fn float_widening_is_exact() {
    assert_eq!(f32_bits_to_f64_bits(f32::to_bits(123.0)), f64::to_bits(123.0));
    assert_eq!(f32_bits_to_f64_bits(f32::to_bits(-0.5)), f64::to_bits(-0.5));
    assert_eq!(f32_bits_to_f64_bits(f32::to_bits(0.0)), f64::to_bits(0.0));
    assert_eq!(
        f32_bits_from_f64_bits(f64::to_bits(123.0)),
        Some(f32::to_bits(123.0))
    );
    // 0.1 is not exactly representable in the narrow format.
    assert_eq!(f32_bits_from_f64_bits(f64::to_bits(0.1)), None);
}
