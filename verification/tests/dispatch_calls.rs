use extendr_api::convert::{
    from_handle_i32, from_handle_real_bits, from_handle_u8, to_handle_i32, to_handle_integer_vector,
    to_handle_real_bits, to_handle_real_vector, to_handle_str, to_handle_u8,
};
use extendr_api::dispatch::{
    decode_arg, find_method, register_call_methods, trampoline_epilogue, trampoline_prologue,
    BodyOutcome, NativeValue, ParamType,
};
use extendr_api::engine::{CallMethod, Engine, Handle};
use extendr_api::error::Error;
use extendr_api::value::rvalue_equal;

fn int_args(e: &mut Engine, values: &[i32]) -> Vec<Handle> {
    let mut args = Vec::new();
    for v in values {
        args.push(to_handle_i32(e, *v));
    }
    args
}

fn real_args(e: &mut Engine, values: &[f64]) -> Vec<Handle> {
    let mut args = Vec::new();
    for v in values {
        args.push(to_handle_real_bits(e, f64::to_bits(*v)));
    }
    args
}

const INTTYPES: [ParamType; 8] = [
    ParamType::I8,
    ParamType::U8,
    ParamType::I16,
    ParamType::U16,
    ParamType::I32,
    ParamType::U32,
    ParamType::I64,
    ParamType::U64,
];

fn assert_inttypes_body(vals: &[NativeValue]) {
    // The body of `inttypes(a: i8, ..., h: u64)`: each parameter decodes to
    // its literal.
    assert!(matches!(vals[0], NativeValue::I8(1)));
    assert!(matches!(vals[1], NativeValue::U8(2)));
    assert!(matches!(vals[2], NativeValue::I16(3)));
    assert!(matches!(vals[3], NativeValue::U16(4)));
    assert!(matches!(vals[4], NativeValue::I32(5)));
    assert!(matches!(vals[5], NativeValue::U32(6)));
    assert!(matches!(vals[6], NativeValue::I64(7)));
    assert!(matches!(vals[7], NativeValue::U64(8)));
}

#[test]
fn export_test() {
    let mut e = Engine::new();

    // inttypes, called with integer handles 1..8.
    let params: Vec<ParamType> = INTTYPES.to_vec();
    let args = int_args(&mut e, &[1, 2, 3, 4, 5, 6, 7, 8]);
    let depth = e.protect_depth();
    let vals = trampoline_prologue(&mut e, 1, &params, &args).unwrap();
    assert_inttypes_body(&vals);
    assert!(trampoline_epilogue(&mut e, depth, BodyOutcome::Return(NativeValue::Unit)).is_ok());

    // inttypes again, with real handles 1.0..8.0.
    let args = real_args(&mut e, &[1.0, 2.0, 3.0, 4.0, 5.0, 6.0, 7.0, 8.0]);
    let vals = trampoline_prologue(&mut e, 1, &params, &args).unwrap();
    assert_inttypes_body(&vals);

    // floattypes(a: f32, b: f64), with reals and then with integers.
    let fparams = vec![ParamType::F32, ParamType::F64];
    let args = real_args(&mut e, &[1.0, 2.0]);
    let vals = trampoline_prologue(&mut e, 1, &fparams, &args).unwrap();
    assert!(matches!(vals[0], NativeValue::F32Bits(x) if x == f32::to_bits(1.0)));
    assert!(matches!(vals[1], NativeValue::F64Bits(b) if b == f64::to_bits(2.0)));
    let args = int_args(&mut e, &[1, 2]);
    let vals = trampoline_prologue(&mut e, 1, &fparams, &args).unwrap();
    assert!(matches!(vals[0], NativeValue::F32Bits(x) if x == f32::to_bits(1.0)));
    assert!(matches!(vals[1], NativeValue::F64Bits(b) if b == f64::to_bits(2.0)));

    // strtypes(a: &str, b: String).
    let sparams = vec![ParamType::Text, ParamType::Text];
    let args = vec![to_handle_str(&mut e, "abc"), to_handle_str(&mut e, "def")];
    let vals = trampoline_prologue(&mut e, 1, &sparams, &args).unwrap();
    assert!(matches!(&vals[0], NativeValue::Text(s) if s == "abc"));
    assert!(matches!(&vals[1], NativeValue::Text(s) if s == "def"));

    // vectortypes(a: Vec<i32>, b: Vec<f64>).
    let vparams = vec![ParamType::IntegerVector, ParamType::RealVector];
    let reals: Vec<u64> = vec![f64::to_bits(4.0), f64::to_bits(5.0), f64::to_bits(6.0)];
    let args = vec![
        to_handle_integer_vector(&mut e, vec![1, 2, 3]),
        to_handle_real_vector(&mut e, reals.clone()),
    ];
    let vals = trampoline_prologue(&mut e, 1, &vparams, &args).unwrap();
    assert!(matches!(&vals[0], NativeValue::IntegerVector(xs) if *xs == vec![1, 2, 3]));
    assert!(matches!(&vals[1], NativeValue::RealVector(xs) if *xs == reals));

    // A generic handle argument: the same value as a fresh handle from 1.
    let a = to_handle_i32(&mut e, 1);
    let b = to_handle_i32(&mut e, 1);
    assert!(rvalue_equal(e.value_of(&a), e.value_of(&b)));

    // Note u8 is special as it makes the raw type.
    let depth = e.protect_depth();
    let h = trampoline_epilogue(&mut e, depth, BodyOutcome::Return(NativeValue::U8(123))).unwrap();
    let expect = to_handle_u8(&mut e, 123);
    assert!(rvalue_equal(e.value_of(&h), e.value_of(&expect)));
    assert_eq!(from_handle_u8(&e, &h), Ok(123));

    // General integer types: returning 123 in each width lands as the
    // integer 123.
    for nv in [
        NativeValue::U16(123),
        NativeValue::U32(123),
        NativeValue::U64(123),
        NativeValue::I8(123),
        NativeValue::I16(123),
        NativeValue::I32(123),
        NativeValue::I64(123),
    ] {
        let depth = e.protect_depth();
        let h = trampoline_epilogue(&mut e, depth, BodyOutcome::Return(nv)).unwrap();
        assert_eq!(from_handle_i32(&e, &h), Ok(123));
    }

    // Floating point types.
    let depth = e.protect_depth();
    let h = trampoline_epilogue(
        &mut e,
        depth,
        BodyOutcome::Return(NativeValue::F32Bits(f32::to_bits(123.0))),
    )
    .unwrap();
    assert_eq!(from_handle_real_bits(&e, &h), Ok(f64::to_bits(123.0)));
    let depth = e.protect_depth();
    let h = trampoline_epilogue(
        &mut e,
        depth,
        BodyOutcome::Return(NativeValue::F64Bits(f64::to_bits(123.0))),
    )
    .unwrap();
    assert_eq!(from_handle_real_bits(&e, &h), Ok(f64::to_bits(123.0)));
}

#[test]
fn panic_containment() {
    let mut e = Engine::new();
    let depth_before_call = {
        let _arg = to_handle_i32(&mut e, 5);
        e.protect_depth()
    };
    // The body acquires protections of its own, then panics; the catch
    // region reports the outcome to the epilogue.
    let raw = e.allocate(extendr_api::value::RValue::Null);
    let _leaked = e.acquire_owned(raw);
    let r = trampoline_epilogue(&mut e, depth_before_call, BodyOutcome::Panicked);
    assert_eq!(r, Err(Error::RuntimeSignaledError));
    // No leaked registrations from the aborted call.
    assert_eq!(e.protect_depth(), depth_before_call);
}

#[test]
fn prologue_rejects_bad_arguments_before_the_body() {
    let mut e = Engine::new();
    let params = vec![ParamType::I32, ParamType::I32];
    let args = vec![to_handle_i32(&mut e, 1), to_handle_str(&mut e, "x")];
    let depth = e.protect_depth();
    let r = trampoline_prologue(&mut e, 1, &params, &args);
    assert_eq!(r.unwrap_err(), Error::TypeMismatch);
    assert_eq!(e.protect_depth(), depth);
}

#[test]
fn prologue_rejects_the_wrong_thread() {
    let mut e = Engine::new();
    let params = vec![ParamType::I32];
    let args = vec![to_handle_i32(&mut e, 1)];
    assert!(trampoline_prologue(&mut e, 1, &params, &args).is_ok());
    let r = trampoline_prologue(&mut e, 2, &params, &args);
    assert_eq!(r.unwrap_err(), Error::RuntimeSignaledError);
}

#[test]
fn epilogue_rejects_unrepresentable_results() {
    let mut e = Engine::new();
    let depth = e.protect_depth();
    let r = trampoline_epilogue(&mut e, depth, BodyOutcome::Return(NativeValue::U64(u64::MAX)));
    assert_eq!(r, Err(Error::ConversionFailure));
    assert_eq!(e.protect_depth(), depth);
}

#[test]
fn registration_happens_once() {
    let mut e = Engine::new();
    let methods = vec![
        CallMethod { call_symbol: String::from("inttypes"), func_ptr: 0, num_args: 8 },
        CallMethod { call_symbol: String::from("floattypes"), func_ptr: 1, num_args: 2 },
    ];
    assert!(register_call_methods(&mut e, methods).is_ok());
    assert!(e.registered);
    assert_eq!(find_method(&e, &String::from("floattypes")), Some(1));
    assert_eq!(find_method(&e, &String::from("missing")), None);
    // Registering twice is a load-time error, reported rather than
    // silently accepted.
    let r = register_call_methods(&mut e, Vec::new());
    assert_eq!(r, Err(Error::RuntimeSignaledError));
    assert_eq!(e.methods.len(), 2);
}

#[test]
fn find_method_returns_the_first_match() {
    let mut e = Engine::new();
    let methods = vec![
        CallMethod { call_symbol: String::from("f"), func_ptr: 0, num_args: 0 },
        CallMethod { call_symbol: String::from("g"), func_ptr: 1, num_args: 1 },
        CallMethod { call_symbol: String::from("g"), func_ptr: 2, num_args: 2 },
    ];
    register_call_methods(&mut e, methods).unwrap();
    assert_eq!(find_method(&e, &String::from("g")), Some(1));
    assert_eq!(find_method(&e, &String::from("f")), Some(0));
}

#[test]
fn decode_arg_matches_parameter_type() {
    let mut e = Engine::new();
    let h = to_handle_i32(&mut e, 9);
    assert!(matches!(decode_arg(&e, &h, ParamType::I32), Ok(NativeValue::I32(9))));
    assert!(matches!(decode_arg(&e, &h, ParamType::Text), Err(Error::TypeMismatch)));
}
