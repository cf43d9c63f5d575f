//! Bidirectional conversion between native values and handles.
//!
//! `to_handle_*` builds a fresh host value, protects it, and hands back the
//! owned handle; `from_handle_*` reads a handle's value back into a native
//! type.  Each reading function's contract is one total specification
//! function over the heap value, so a caller knows the exact result — which
//! error on which shape, where the "not available" sentinels go, and that
//! narrowing never truncates.  Slice borrows hand out references into the
//! heap and never copy the backing store.

use vstd::prelude::*;

use crate::bits::{
    f32_bits_from_f64_bits, f32_bits_of_f64_bits, f32_bits_to_f64_bits, f32_exact,
    f32_normal_or_zero, f64_bits_of_f32_bits, i32_from_real_bits, i32_of_real_bits,
    real_bits_from_i32, real_bits_of_i32,
};
use crate::engine::{Engine, Handle, Ownership};
use crate::error::Error;
use crate::value::{is_na_real_spec, Bool, RValue, NA_INTEGER, NA_LOGICAL, NA_REAL_BITS};

verus! {

/// What every `to_handle_*` call does to the engine: exactly one new heap
/// value, protected by exactly one new registration, everything else
/// untouched, and the returned handle owns that registration.
pub open spec fn to_handle_post(pre: Engine, post: Engine, h: Handle) -> bool {
    &&& post.heap@.len() == pre.heap@.len() + 1
    &&& post.heap@.drop_last() == pre.heap@
    &&& h.raw == pre.heap@.len()
    &&& h.slot == pre.protect@.len()
    &&& h.ownership == Ownership::Owned
    &&& h.valid(&post)
    &&& post.protect@ == pre.protect@.push(h.raw)
    &&& post.guard == pre.guard
    &&& post.methods@ == pre.methods@
    &&& post.registered == pre.registered
    &&& post.output@ == pre.output@
    &&& post.error_output@ == pre.error_output@
}

/// Room for one more heap value and one more protection registration.
pub open spec fn can_allocate(e: Engine) -> bool {
    &&& e.heap@.len() < usize::MAX
    &&& e.protect@.len() < usize::MAX
}

/// Place a value on the heap and protect it in one step: the shape of every
/// conversion into the host.
pub fn alloc_protected(e: &mut Engine, v: RValue) -> (h: Handle)
    requires
        can_allocate(*old(e)),
    ensures
        to_handle_post(*old(e), *final(e), h),
        final(e).heap@ == old(e).heap@.push(v),
{
    let raw = e.allocate(v);
    let h = e.acquire_owned(raw);
    proof {
        assert(final(e).heap@.drop_last() =~= old(e).heap@);
    }
    h
}

// ---------------------------------------------------------------------------
// Scalar decoding specifications.
// ---------------------------------------------------------------------------
/// The exact result of reading a handle's value as a host-width (32-bit)
/// integer: integer vectors give their element, real vectors give their
/// exact integer value if they have one, everything else is refused with
/// the kind that names the reason.
pub open spec fn decode_i32(v: RValue) -> Result<i32, Error> {
    match v {
        RValue::Integer(xs) => if xs@.len() != 1 {
            Err(Error::LengthMismatch)
        } else if xs@[0] == NA_INTEGER {
            Err(Error::NaNotAllowed)
        } else {
            Ok(xs@[0])
        },
        RValue::Real(xs) => if xs@.len() != 1 {
            Err(Error::LengthMismatch)
        } else if is_na_real_spec(xs@[0]) {
            Err(Error::NaNotAllowed)
        } else {
            match i32_of_real_bits(xs@[0]) {
                Option::Some(n) => Ok(n),
                Option::None => Err(Error::ConversionFailure),
            }
        },
        _ => Err(Error::TypeMismatch),
    }
}

/// Reading as a narrower or differently-signed integer: the host-width
/// value, range-checked instead of truncated.
pub open spec fn decode_i8(v: RValue) -> Result<i8, Error> {
    match decode_i32(v) {
        Result::Ok(n) => if -128 <= n <= 127 {
            Ok(n as i8)
        } else {
            Err(Error::ConversionFailure)
        },
        Result::Err(er) => Err(er),
    }
}

/// Reading as an unsigned byte: raw vectors give their byte; numeric
/// vectors are range-checked.
pub open spec fn decode_u8(v: RValue) -> Result<u8, Error> {
    match v {
        RValue::Raw(xs) => if xs@.len() != 1 {
            Err(Error::LengthMismatch)
        } else {
            Ok(xs@[0])
        },
        _ => match decode_i32(v) {
            Result::Ok(n) => if 0 <= n <= 255 {
                Ok(n as u8)
            } else {
                Err(Error::ConversionFailure)
            },
            Result::Err(er) => Err(er),
        },
    }
}

/// See [`decode_i8`].
pub open spec fn decode_i16(v: RValue) -> Result<i16, Error> {
    match decode_i32(v) {
        Result::Ok(n) => if -32768 <= n <= 32767 {
            Ok(n as i16)
        } else {
            Err(Error::ConversionFailure)
        },
        Result::Err(er) => Err(er),
    }
}

/// See [`decode_i8`].
pub open spec fn decode_u16(v: RValue) -> Result<u16, Error> {
    match decode_i32(v) {
        Result::Ok(n) => if 0 <= n <= 65535 {
            Ok(n as u16)
        } else {
            Err(Error::ConversionFailure)
        },
        Result::Err(er) => Err(er),
    }
}

/// See [`decode_i8`]: a value above the host's 32-bit width is refused.
pub open spec fn decode_u32(v: RValue) -> Result<u32, Error> {
    match decode_i32(v) {
        Result::Ok(n) => if 0 <= n {
            Ok(n as u32)
        } else {
            Err(Error::ConversionFailure)
        },
        Result::Err(er) => Err(er),
    }
}

/// See [`decode_i8`]: every host-width integer fits.
pub open spec fn decode_i64(v: RValue) -> Result<i64, Error> {
    match decode_i32(v) {
        Result::Ok(n) => Ok(n as i64),
        Result::Err(er) => Err(er),
    }
}

/// See [`decode_i8`].
pub open spec fn decode_u64(v: RValue) -> Result<u64, Error> {
    match decode_i32(v) {
        Result::Ok(n) => if 0 <= n {
            Ok(n as u64)
        } else {
            Err(Error::ConversionFailure)
        },
        Result::Err(er) => Err(er),
    }
}

/// Reading a logical vector as a two-state boolean: the sentinel is refused.
pub open spec fn decode_bool(v: RValue) -> Result<bool, Error> {
    match v {
        RValue::Logical(xs) => if xs@.len() != 1 {
            Err(Error::LengthMismatch)
        } else if xs@[0] == NA_LOGICAL {
            Err(Error::NaNotAllowed)
        } else {
            Ok(xs@[0] != 0)
        },
        _ => Err(Error::TypeMismatch),
    }
}

/// Reading a logical vector as the three-state [`Bool`], which can carry
/// the sentinel itself.
pub open spec fn decode_logical(v: RValue) -> Result<Bool, Error> {
    match v {
        RValue::Logical(xs) => if xs@.len() != 1 {
            Err(Error::LengthMismatch)
        } else {
            Ok(Bool(xs@[0]))
        },
        _ => Err(Error::TypeMismatch),
    }
}

/// Reading as a 64-bit real (as its bit pattern): integer vectors widen
/// exactly, with the integer sentinel carried over to the real sentinel.
pub open spec fn decode_real_bits(v: RValue) -> Result<u64, Error> {
    match v {
        RValue::Real(xs) => if xs@.len() != 1 {
            Err(Error::LengthMismatch)
        } else {
            Ok(xs@[0])
        },
        RValue::Integer(xs) => if xs@.len() != 1 {
            Err(Error::LengthMismatch)
        } else if xs@[0] == NA_INTEGER {
            Ok(NA_REAL_BITS)
        } else {
            Ok(real_bits_of_i32(xs@[0]))
        },
        _ => Err(Error::TypeMismatch),
    }
}

/// Reading as a 32-bit float (as its bit pattern): only reals the narrow
/// format holds exactly are accepted; the sentinel is refused, since the
/// narrow format has none.
pub open spec fn decode_f32_bits(v: RValue) -> Result<u32, Error> {
    match decode_real_bits(v) {
        Result::Ok(b) => if is_na_real_spec(b) {
            Err(Error::NaNotAllowed)
        } else if f32_exact(b) {
            Ok(f32_bits_of_f64_bits(b))
        } else {
            Err(Error::ConversionFailure)
        },
        Result::Err(er) => Err(er),
    }
}

/// Reading a character vector as one string: the sentinel is refused.
pub open spec fn decode_string(v: RValue) -> Result<String, Error> {
    match v {
        RValue::Character(xs) => if xs@.len() != 1 {
            Err(Error::LengthMismatch)
        } else {
            match xs@[0] {
                Option::Some(s) => Ok(s),
                Option::None => Err(Error::NaNotAllowed),
            }
        },
        _ => Err(Error::TypeMismatch),
    }
}

// ---------------------------------------------------------------------------
// Option decoding: the sentinel becomes absence instead of an error.
// ---------------------------------------------------------------------------
/// See [`decode_i32`]; the sentinel reports absence.
pub open spec fn decode_option_i32(v: RValue) -> Result<Option<i32>, Error> {
    match v {
        RValue::Integer(xs) => if xs@.len() != 1 {
            Err(Error::LengthMismatch)
        } else if xs@[0] == NA_INTEGER {
            Ok(Option::None)
        } else {
            Ok(Option::Some(xs@[0]))
        },
        _ => Err(Error::TypeMismatch),
    }
}

/// See [`decode_real_bits`]; the sentinel reports absence.
pub open spec fn decode_option_real_bits(v: RValue) -> Result<Option<u64>, Error> {
    match v {
        RValue::Real(xs) => if xs@.len() != 1 {
            Err(Error::LengthMismatch)
        } else if is_na_real_spec(xs@[0]) {
            Ok(Option::None)
        } else {
            Ok(Option::Some(xs@[0]))
        },
        _ => Err(Error::TypeMismatch),
    }
}

/// See [`decode_bool`]; the sentinel reports absence.
pub open spec fn decode_option_bool(v: RValue) -> Result<Option<bool>, Error> {
    match v {
        RValue::Logical(xs) => if xs@.len() != 1 {
            Err(Error::LengthMismatch)
        } else if xs@[0] == NA_LOGICAL {
            Ok(Option::None)
        } else {
            Ok(Option::Some(xs@[0] != 0))
        },
        _ => Err(Error::TypeMismatch),
    }
}

/// See [`decode_string`]; the sentinel reports absence.
pub open spec fn decode_option_string(v: RValue) -> Result<Option<String>, Error> {
    match v {
        RValue::Character(xs) => if xs@.len() != 1 {
            Err(Error::LengthMismatch)
        } else {
            Ok(xs@[0])
        },
        _ => Err(Error::TypeMismatch),
    }
}

// ---------------------------------------------------------------------------
// Vector decoding: the tag must match exactly; elements come back whole.
// ---------------------------------------------------------------------------
/// The elements of an integer vector, sentinels included.
pub open spec fn decode_int_vector(v: RValue) -> Result<Seq<i32>, Error> {
    match v {
        RValue::Integer(xs) => Ok(xs@),
        _ => Err(Error::TypeMismatch),
    }
}

/// The elements of a real vector as bit patterns, sentinels included.
pub open spec fn decode_real_vector(v: RValue) -> Result<Seq<u64>, Error> {
    match v {
        RValue::Real(xs) => Ok(xs@),
        _ => Err(Error::TypeMismatch),
    }
}

/// The bytes of a raw vector.
pub open spec fn decode_raw_vector(v: RValue) -> Result<Seq<u8>, Error> {
    match v {
        RValue::Raw(xs) => Ok(xs@),
        _ => Err(Error::TypeMismatch),
    }
}

// ---------------------------------------------------------------------------
// Reading handles back into native values.
// ---------------------------------------------------------------------------
/// Read a handle's value as a host-width integer.
pub fn from_handle_i32(e: &Engine, h: &Handle) -> (r: Result<i32, Error>)
    requires
        h.valid(e),
    ensures
        r == decode_i32(e.heap@[h.raw as int]),
{
    match e.value_of(h) {
        RValue::Integer(xs) => {
            if xs.len() != 1 {
                Err(Error::LengthMismatch)
            } else if xs[0] == NA_INTEGER {
                Err(Error::NaNotAllowed)
            } else {
                Ok(xs[0])
            }
        },
        RValue::Real(xs) => {
            if xs.len() != 1 {
                Err(Error::LengthMismatch)
            } else if crate::value::is_na_real(xs[0]) {
                Err(Error::NaNotAllowed)
            } else {
                match i32_from_real_bits(xs[0]) {
                    Option::Some(n) => Ok(n),
                    Option::None => Err(Error::ConversionFailure),
                }
            }
        },
        _ => Err(Error::TypeMismatch),
    }
}

/// Read a handle's value as a signed byte.
pub fn from_handle_i8(e: &Engine, h: &Handle) -> (r: Result<i8, Error>)
    requires
        h.valid(e),
    ensures
        r == decode_i8(e.heap@[h.raw as int]),
{
    match from_handle_i32(e, h) {
        Result::Ok(n) => if -128 <= n && n <= 127 {
            Ok(n as i8)
        } else {
            Err(Error::ConversionFailure)
        },
        Result::Err(er) => Err(er),
    }
}

/// Read a handle's value as an unsigned byte; raw vectors give their byte.
pub fn from_handle_u8(e: &Engine, h: &Handle) -> (r: Result<u8, Error>)
    requires
        h.valid(e),
    ensures
        r == decode_u8(e.heap@[h.raw as int]),
{
    match e.value_of(h) {
        RValue::Raw(xs) => {
            if xs.len() != 1 {
                Err(Error::LengthMismatch)
            } else {
                Ok(xs[0])
            }
        },
        _ => {
            match from_handle_i32(e, h) {
                Result::Ok(n) => if 0 <= n && n <= 255 {
                    Ok(n as u8)
                } else {
                    Err(Error::ConversionFailure)
                },
                Result::Err(er) => Err(er),
            }
        },
    }
}

/// Read a handle's value as a 16-bit signed integer.
pub fn from_handle_i16(e: &Engine, h: &Handle) -> (r: Result<i16, Error>)
    requires
        h.valid(e),
    ensures
        r == decode_i16(e.heap@[h.raw as int]),
{
    match from_handle_i32(e, h) {
        Result::Ok(n) => if -32768 <= n && n <= 32767 {
            Ok(n as i16)
        } else {
            Err(Error::ConversionFailure)
        },
        Result::Err(er) => Err(er),
    }
}

/// Read a handle's value as a 16-bit unsigned integer.
pub fn from_handle_u16(e: &Engine, h: &Handle) -> (r: Result<u16, Error>)
    requires
        h.valid(e),
    ensures
        r == decode_u16(e.heap@[h.raw as int]),
{
    match from_handle_i32(e, h) {
        Result::Ok(n) => if 0 <= n && n <= 65535 {
            Ok(n as u16)
        } else {
            Err(Error::ConversionFailure)
        },
        Result::Err(er) => Err(er),
    }
}

/// Read a handle's value as a 32-bit unsigned integer.
pub fn from_handle_u32(e: &Engine, h: &Handle) -> (r: Result<u32, Error>)
    requires
        h.valid(e),
    ensures
        r == decode_u32(e.heap@[h.raw as int]),
{
    match from_handle_i32(e, h) {
        Result::Ok(n) => if 0 <= n {
            Ok(n as u32)
        } else {
            Err(Error::ConversionFailure)
        },
        Result::Err(er) => Err(er),
    }
}

/// Read a handle's value as a 64-bit signed integer.
pub fn from_handle_i64(e: &Engine, h: &Handle) -> (r: Result<i64, Error>)
    requires
        h.valid(e),
    ensures
        r == decode_i64(e.heap@[h.raw as int]),
{
    match from_handle_i32(e, h) {
        Result::Ok(n) => Ok(n as i64),
        Result::Err(er) => Err(er),
    }
}

/// Read a handle's value as a 64-bit unsigned integer.
pub fn from_handle_u64(e: &Engine, h: &Handle) -> (r: Result<u64, Error>)
    requires
        h.valid(e),
    ensures
        r == decode_u64(e.heap@[h.raw as int]),
{
    match from_handle_i32(e, h) {
        Result::Ok(n) => if 0 <= n {
            Ok(n as u64)
        } else {
            Err(Error::ConversionFailure)
        },
        Result::Err(er) => Err(er),
    }
}

/// Read a handle's value as a two-state boolean.
pub fn from_handle_bool(e: &Engine, h: &Handle) -> (r: Result<bool, Error>)
    requires
        h.valid(e),
    ensures
        r == decode_bool(e.heap@[h.raw as int]),
{
    match e.value_of(h) {
        RValue::Logical(xs) => {
            if xs.len() != 1 {
                Err(Error::LengthMismatch)
            } else if xs[0] == NA_LOGICAL {
                Err(Error::NaNotAllowed)
            } else {
                Ok(xs[0] != 0)
            }
        },
        _ => Err(Error::TypeMismatch),
    }
}

/// Read a handle's value as a three-state logical.
pub fn from_handle_logical(e: &Engine, h: &Handle) -> (r: Result<Bool, Error>)
    requires
        h.valid(e),
    ensures
        r == decode_logical(e.heap@[h.raw as int]),
{
    match e.value_of(h) {
        RValue::Logical(xs) => {
            if xs.len() != 1 {
                Err(Error::LengthMismatch)
            } else {
                Ok(Bool(xs[0]))
            }
        },
        _ => Err(Error::TypeMismatch),
    }
}

/// Read a handle's value as a 64-bit real bit pattern.
pub fn from_handle_real_bits(e: &Engine, h: &Handle) -> (r: Result<u64, Error>)
    requires
        h.valid(e),
    ensures
        r == decode_real_bits(e.heap@[h.raw as int]),
{
    match e.value_of(h) {
        RValue::Real(xs) => {
            if xs.len() != 1 {
                Err(Error::LengthMismatch)
            } else {
                Ok(xs[0])
            }
        },
        RValue::Integer(xs) => {
            if xs.len() != 1 {
                Err(Error::LengthMismatch)
            } else if xs[0] == NA_INTEGER {
                Ok(NA_REAL_BITS)
            } else {
                Ok(real_bits_from_i32(xs[0]))
            }
        },
        _ => Err(Error::TypeMismatch),
    }
}

/// Read a handle's value as a 32-bit float bit pattern, exactly or not at
/// all.
pub fn from_handle_f32_bits(e: &Engine, h: &Handle) -> (r: Result<u32, Error>)
    requires
        h.valid(e),
    ensures
        r == decode_f32_bits(e.heap@[h.raw as int]),
{
    match from_handle_real_bits(e, h) {
        Result::Ok(b) => {
            if crate::value::is_na_real(b) {
                Err(Error::NaNotAllowed)
            } else {
                match f32_bits_from_f64_bits(b) {
                    Option::Some(x) => Ok(x),
                    Option::None => Err(Error::ConversionFailure),
                }
            }
        },
        Result::Err(er) => Err(er),
    }
}

/// Read a handle's value as one string.
pub fn from_handle_string(e: &Engine, h: &Handle) -> (r: Result<String, Error>)
    requires
        h.valid(e),
    ensures
        r == decode_string(e.heap@[h.raw as int]),
{
    match e.value_of(h) {
        RValue::Character(xs) => {
            if xs.len() != 1 {
                Err(Error::LengthMismatch)
            } else {
                match &xs[0] {
                    Option::Some(s) => Ok(s.clone()),
                    Option::None => Err(Error::NaNotAllowed),
                }
            }
        },
        _ => Err(Error::TypeMismatch),
    }
}

/// Read a handle's value as an optional host-width integer: the sentinel
/// reports absence instead of erroring.
pub fn from_handle_option_i32(e: &Engine, h: &Handle) -> (r: Result<Option<i32>, Error>)
    requires
        h.valid(e),
    ensures
        r == decode_option_i32(e.heap@[h.raw as int]),
{
    match e.value_of(h) {
        RValue::Integer(xs) => {
            if xs.len() != 1 {
                Err(Error::LengthMismatch)
            } else if xs[0] == NA_INTEGER {
                Ok(None)
            } else {
                Ok(Some(xs[0]))
            }
        },
        _ => Err(Error::TypeMismatch),
    }
}

/// Read a handle's value as an optional real bit pattern.
pub fn from_handle_option_real_bits(e: &Engine, h: &Handle) -> (r: Result<Option<u64>, Error>)
    requires
        h.valid(e),
    ensures
        r == decode_option_real_bits(e.heap@[h.raw as int]),
{
    match e.value_of(h) {
        RValue::Real(xs) => {
            if xs.len() != 1 {
                Err(Error::LengthMismatch)
            } else if crate::value::is_na_real(xs[0]) {
                Ok(None)
            } else {
                Ok(Some(xs[0]))
            }
        },
        _ => Err(Error::TypeMismatch),
    }
}

/// Read a handle's value as an optional boolean.
pub fn from_handle_option_bool(e: &Engine, h: &Handle) -> (r: Result<Option<bool>, Error>)
    requires
        h.valid(e),
    ensures
        r == decode_option_bool(e.heap@[h.raw as int]),
{
    match e.value_of(h) {
        RValue::Logical(xs) => {
            if xs.len() != 1 {
                Err(Error::LengthMismatch)
            } else if xs[0] == NA_LOGICAL {
                Ok(None)
            } else {
                Ok(Some(xs[0] != 0))
            }
        },
        _ => Err(Error::TypeMismatch),
    }
}

/// Read a handle's value as an optional string.
pub fn from_handle_option_string(e: &Engine, h: &Handle) -> (r: Result<Option<String>, Error>)
    requires
        h.valid(e),
    ensures
        r == decode_option_string(e.heap@[h.raw as int]),
{
    match e.value_of(h) {
        RValue::Character(xs) => {
            if xs.len() != 1 {
                Err(Error::LengthMismatch)
            } else {
                match &xs[0] {
                    Option::Some(s) => Ok(Some(s.clone())),
                    Option::None => Ok(None),
                }
            }
        },
        _ => Err(Error::TypeMismatch),
    }
}

/// Copy out the elements of an integer vector.
pub fn from_handle_integer_vector(e: &Engine, h: &Handle) -> (r: Result<Vec<i32>, Error>)
    requires
        h.valid(e),
    ensures
        match r {
            Result::Ok(xs) => decode_int_vector(e.heap@[h.raw as int]) == Ok::<Seq<i32>, Error>(
                xs@,
            ),
            Result::Err(er) => decode_int_vector(e.heap@[h.raw as int]) == Err::<Seq<i32>, Error>(
                er,
            ),
        },
{
    match e.value_of(h) {
        RValue::Integer(xs) => Ok(copy_i32_vector(xs)),
        _ => Err(Error::TypeMismatch),
    }
}

/// Copy out the elements of a real vector as bit patterns.
pub fn from_handle_real_vector(e: &Engine, h: &Handle) -> (r: Result<Vec<u64>, Error>)
    requires
        h.valid(e),
    ensures
        match r {
            Result::Ok(xs) => decode_real_vector(e.heap@[h.raw as int]) == Ok::<Seq<u64>, Error>(
                xs@,
            ),
            Result::Err(er) => decode_real_vector(e.heap@[h.raw as int]) == Err::<Seq<u64>, Error>(
                er,
            ),
        },
{
    match e.value_of(h) {
        RValue::Real(xs) => Ok(copy_u64_vector(xs)),
        _ => Err(Error::TypeMismatch),
    }
}

/// Copy out the bytes of a raw vector.
pub fn from_handle_raw_vector(e: &Engine, h: &Handle) -> (r: Result<Vec<u8>, Error>)
    requires
        h.valid(e),
    ensures
        match r {
            Result::Ok(xs) => decode_raw_vector(e.heap@[h.raw as int]) == Ok::<Seq<u8>, Error>(xs@),
            Result::Err(er) => decode_raw_vector(e.heap@[h.raw as int]) == Err::<Seq<u8>, Error>(
                er,
            ),
        },
{
    match e.value_of(h) {
        RValue::Raw(xs) => Ok(copy_u8_vector(xs)),
        _ => Err(Error::TypeMismatch),
    }
}

/// Element-for-element copy of an integer vector.
fn copy_i32_vector(xs: &Vec<i32>) -> (r: Vec<i32>)
    ensures
        r@ == xs@,
{
    let mut r: Vec<i32> = Vec::new();
    let mut i: usize = 0;
    while i < xs.len()
        invariant
            i <= xs@.len(),
            r@ == xs@.subrange(0, i as int),
        decreases xs@.len() - i,
    {
        r.push(xs[i]);
        proof {
            assert(r@ =~= xs@.subrange(0, i + 1 as int));
        }
        i += 1;
    }
    proof {
        assert(xs@.subrange(0, xs@.len() as int) =~= xs@);
    }
    r
}

/// Element-for-element copy of a real-bits vector.
fn copy_u64_vector(xs: &Vec<u64>) -> (r: Vec<u64>)
    ensures
        r@ == xs@,
{
    let mut r: Vec<u64> = Vec::new();
    let mut i: usize = 0;
    while i < xs.len()
        invariant
            i <= xs@.len(),
            r@ == xs@.subrange(0, i as int),
        decreases xs@.len() - i,
    {
        r.push(xs[i]);
        proof {
            assert(r@ =~= xs@.subrange(0, i + 1 as int));
        }
        i += 1;
    }
    proof {
        assert(xs@.subrange(0, xs@.len() as int) =~= xs@);
    }
    r
}

/// Element-for-element copy of a byte vector.
fn copy_u8_vector(xs: &Vec<u8>) -> (r: Vec<u8>)
    ensures
        r@ == xs@,
{
    let mut r: Vec<u8> = Vec::new();
    let mut i: usize = 0;
    while i < xs.len()
        invariant
            i <= xs@.len(),
            r@ == xs@.subrange(0, i as int),
        decreases xs@.len() - i,
    {
        r.push(xs[i]);
        proof {
            assert(r@ =~= xs@.subrange(0, i + 1 as int));
        }
        i += 1;
    }
    proof {
        assert(xs@.subrange(0, xs@.len() as int) =~= xs@);
    }
    r
}

// ---------------------------------------------------------------------------
// Borrowed slice views: references into the heap, never a copy.
// ---------------------------------------------------------------------------
/// Borrow the backing store of an integer vector; `None` on any other tag,
/// never a failure.
pub fn as_integer_slice<'a>(e: &'a Engine, h: &Handle) -> (r: Option<&'a Vec<i32>>)
    requires
        h.valid(e),
    ensures
        match r {
            Option::Some(xs) => e.heap@[h.raw as int] matches RValue::Integer(ys) && ys@ == xs@,
            Option::None => !(e.heap@[h.raw as int] matches RValue::Integer(_)),
        },
{
    match e.value_of(h) {
        RValue::Integer(xs) => Some(xs),
        _ => None,
    }
}

/// Borrow the backing store of a real vector, as bit patterns.
pub fn as_real_slice<'a>(e: &'a Engine, h: &Handle) -> (r: Option<&'a Vec<u64>>)
    requires
        h.valid(e),
    ensures
        match r {
            Option::Some(xs) => e.heap@[h.raw as int] matches RValue::Real(ys) && ys@ == xs@,
            Option::None => !(e.heap@[h.raw as int] matches RValue::Real(_)),
        },
{
    match e.value_of(h) {
        RValue::Real(xs) => Some(xs),
        _ => None,
    }
}

/// Borrow the backing store of a raw vector.
pub fn as_raw_slice<'a>(e: &'a Engine, h: &Handle) -> (r: Option<&'a Vec<u8>>)
    requires
        h.valid(e),
    ensures
        match r {
            Option::Some(xs) => e.heap@[h.raw as int] matches RValue::Raw(ys) && ys@ == xs@,
            Option::None => !(e.heap@[h.raw as int] matches RValue::Raw(_)),
        },
{
    match e.value_of(h) {
        RValue::Raw(xs) => Some(xs),
        _ => None,
    }
}

// ---------------------------------------------------------------------------
// Building handles from native values.
// ---------------------------------------------------------------------------
/// A host-width integer becomes an owned integer vector of length 1.
pub fn to_handle_i32(e: &mut Engine, v: i32) -> (h: Handle)
    requires
        can_allocate(*old(e)),
    ensures
        to_handle_post(*old(e), *final(e), h),
        final(e).heap@.last() matches RValue::Integer(xs) && xs@ == seq![v],
{
    let mut xs: Vec<i32> = Vec::new();
    xs.push(v);
    alloc_protected(e, RValue::Integer(xs))
}

/// A signed byte widens losslessly into an integer vector.
pub fn to_handle_i8(e: &mut Engine, v: i8) -> (h: Handle)
    requires
        can_allocate(*old(e)),
    ensures
        to_handle_post(*old(e), *final(e), h),
        final(e).heap@.last() matches RValue::Integer(xs) && xs@ == seq![v as i32],
{
    to_handle_i32(e, v as i32)
}

/// A 16-bit signed integer widens losslessly into an integer vector.
pub fn to_handle_i16(e: &mut Engine, v: i16) -> (h: Handle)
    requires
        can_allocate(*old(e)),
    ensures
        to_handle_post(*old(e), *final(e), h),
        final(e).heap@.last() matches RValue::Integer(xs) && xs@ == seq![v as i32],
{
    to_handle_i32(e, v as i32)
}

/// A 16-bit unsigned integer widens losslessly into an integer vector.
pub fn to_handle_u16(e: &mut Engine, v: u16) -> (h: Handle)
    requires
        can_allocate(*old(e)),
    ensures
        to_handle_post(*old(e), *final(e), h),
        final(e).heap@.last() matches RValue::Integer(xs) && xs@ == seq![v as i32],
{
    to_handle_i32(e, v as i32)
}

/// An unsigned byte becomes an owned raw vector of length 1.
pub fn to_handle_u8(e: &mut Engine, v: u8) -> (h: Handle)
    requires
        can_allocate(*old(e)),
    ensures
        to_handle_post(*old(e), *final(e), h),
        final(e).heap@.last() matches RValue::Raw(xs) && xs@ == seq![v],
{
    let mut xs: Vec<u8> = Vec::new();
    xs.push(v);
    alloc_protected(e, RValue::Raw(xs))
}

/// A 64-bit signed integer is range-checked against the host's 32-bit
/// width — the sentinel excluded — and never truncated.
pub fn to_handle_i64(e: &mut Engine, v: i64) -> (r: Result<Handle, Error>)
    requires
        can_allocate(*old(e)),
    ensures
        NA_INTEGER < v <= i32::MAX ==> (r matches Ok(h) && to_handle_post(*old(e), *final(e), h)
            && (final(e).heap@.last() matches RValue::Integer(xs) && xs@ == seq![v as i32])),
        !(NA_INTEGER < v <= i32::MAX) ==> r == Err::<Handle, Error>(Error::ConversionFailure)
            && *final(e) == *old(e),
{
    if (NA_INTEGER as i64) < v && v <= i32::MAX as i64 {
        Ok(to_handle_i32(e, v as i32))
    } else {
        Err(Error::ConversionFailure)
    }
}

/// A 32-bit unsigned integer is range-checked against the host's signed
/// width and never truncated.
pub fn to_handle_u32(e: &mut Engine, v: u32) -> (r: Result<Handle, Error>)
    requires
        can_allocate(*old(e)),
    ensures
        v <= i32::MAX ==> (r matches Ok(h) && to_handle_post(*old(e), *final(e), h) && (final(e).heap@.last() matches RValue::Integer(xs) && xs@ == seq![v as i32])),
        v > i32::MAX ==> r == Err::<Handle, Error>(Error::ConversionFailure) && *final(e) == *old(e),
{
    if v <= i32::MAX as u32 {
        Ok(to_handle_i32(e, v as i32))
    } else {
        Err(Error::ConversionFailure)
    }
}

/// A 64-bit unsigned integer is range-checked against the host's signed
/// width and never truncated.
pub fn to_handle_u64(e: &mut Engine, v: u64) -> (r: Result<Handle, Error>)
    requires
        can_allocate(*old(e)),
    ensures
        v <= i32::MAX ==> (r matches Ok(h) && to_handle_post(*old(e), *final(e), h) && (final(e).heap@.last() matches RValue::Integer(xs) && xs@ == seq![v as i32])),
        v > i32::MAX ==> r == Err::<Handle, Error>(Error::ConversionFailure) && *final(e) == *old(e),
{
    if v <= i32::MAX as u64 {
        Ok(to_handle_i32(e, v as i32))
    } else {
        Err(Error::ConversionFailure)
    }
}

/// A boolean becomes an owned logical vector of length 1.
pub fn to_handle_bool(e: &mut Engine, v: bool) -> (h: Handle)
    requires
        can_allocate(*old(e)),
    ensures
        to_handle_post(*old(e), *final(e), h),
        final(e).heap@.last() matches RValue::Logical(xs) && xs@ == seq![
            if v {
                1i32
            } else {
                0i32
            },
        ],
{
    let mut xs: Vec<i32> = Vec::new();
    xs.push(if v { 1 } else { 0 });
    alloc_protected(e, RValue::Logical(xs))
}

/// A three-state logical travels unchanged, sentinel included.
pub fn to_handle_logical(e: &mut Engine, v: Bool) -> (h: Handle)
    requires
        can_allocate(*old(e)),
    ensures
        to_handle_post(*old(e), *final(e), h),
        final(e).heap@.last() matches RValue::Logical(xs) && xs@ == seq![v.0],
{
    let mut xs: Vec<i32> = Vec::new();
    xs.push(v.0);
    alloc_protected(e, RValue::Logical(xs))
}

/// A 64-bit real bit pattern becomes an owned real vector of length 1.
pub fn to_handle_real_bits(e: &mut Engine, bits: u64) -> (h: Handle)
    requires
        can_allocate(*old(e)),
    ensures
        to_handle_post(*old(e), *final(e), h),
        final(e).heap@.last() matches RValue::Real(xs) && xs@ == seq![bits],
{
    let mut xs: Vec<u64> = Vec::new();
    xs.push(bits);
    alloc_protected(e, RValue::Real(xs))
}

/// A normal-or-zero 32-bit float bit pattern widens exactly into a real
/// vector.
pub fn to_handle_f32_bits(e: &mut Engine, x: u32) -> (h: Handle)
    requires
        can_allocate(*old(e)),
        f32_normal_or_zero(x),
    ensures
        to_handle_post(*old(e), *final(e), h),
        final(e).heap@.last() matches RValue::Real(xs) && xs@ == seq![f64_bits_of_f32_bits(x)],
{
    let wide = f32_bits_to_f64_bits(x);
    to_handle_real_bits(e, wide)
}

/// A string becomes an owned character vector of length 1.
pub fn to_handle_string(e: &mut Engine, s: String) -> (h: Handle)
    requires
        can_allocate(*old(e)),
    ensures
        to_handle_post(*old(e), *final(e), h),
        final(e).heap@.last() matches RValue::Character(xs) && xs@ == seq![Option::Some(s)],
{
    let mut xs: Vec<Option<String>> = Vec::new();
    xs.push(Some(s));
    alloc_protected(e, RValue::Character(xs))
}

/// A borrowed string is copied into an owned character vector of length 1.
pub fn to_handle_str(e: &mut Engine, s: &str) -> (h: Handle)
    requires
        can_allocate(*old(e)),
    ensures
        to_handle_post(*old(e), *final(e), h),
        final(e).heap@.last() matches RValue::Character(xs) && xs@.len() == 1 && (
        xs@[0] matches Option::Some(t) && t@ == s@),
{
    to_handle_string(e, s.to_owned())
}

/// An optional host-width integer: absence becomes the integer sentinel.
pub fn to_handle_option_i32(e: &mut Engine, v: Option<i32>) -> (h: Handle)
    requires
        can_allocate(*old(e)),
    ensures
        to_handle_post(*old(e), *final(e), h),
        final(e).heap@.last() matches RValue::Integer(xs) && xs@ == seq![
            match v {
                Option::Some(n) => n,
                Option::None => NA_INTEGER,
            },
        ],
{
    match v {
        Some(n) => to_handle_i32(e, n),
        None => to_handle_i32(e, NA_INTEGER),
    }
}

/// An optional real bit pattern: absence becomes the real sentinel.
pub fn to_handle_option_real_bits(e: &mut Engine, v: Option<u64>) -> (h: Handle)
    requires
        can_allocate(*old(e)),
    ensures
        to_handle_post(*old(e), *final(e), h),
        final(e).heap@.last() matches RValue::Real(xs) && xs@ == seq![
            match v {
                Option::Some(b) => b,
                Option::None => NA_REAL_BITS,
            },
        ],
{
    match v {
        Some(b) => to_handle_real_bits(e, b),
        None => to_handle_real_bits(e, NA_REAL_BITS),
    }
}

/// An optional boolean: absence becomes the logical sentinel.
pub fn to_handle_option_bool(e: &mut Engine, v: Option<bool>) -> (h: Handle)
    requires
        can_allocate(*old(e)),
    ensures
        to_handle_post(*old(e), *final(e), h),
        final(e).heap@.last() matches RValue::Logical(xs) && xs@ == seq![
            match v {
                Option::Some(b) => if b {
                    1i32
                } else {
                    0i32
                },
                Option::None => NA_LOGICAL,
            },
        ],
{
    match v {
        Some(b) => to_handle_bool(e, b),
        None => to_handle_logical(e, Bool(NA_LOGICAL)),
    }
}

/// An optional string: absence becomes the character sentinel.
pub fn to_handle_option_string(e: &mut Engine, v: Option<String>) -> (h: Handle)
    requires
        can_allocate(*old(e)),
    ensures
        to_handle_post(*old(e), *final(e), h),
        final(e).heap@.last() matches RValue::Character(xs) && xs@ == seq![v],
{
    let mut xs: Vec<Option<String>> = Vec::new();
    xs.push(v);
    alloc_protected(e, RValue::Character(xs))
}

/// An optional byte: raw vectors have no sentinel, so absence cannot be
/// represented and is refused.
pub fn to_handle_option_u8(e: &mut Engine, v: Option<u8>) -> (r: Result<Handle, Error>)
    requires
        can_allocate(*old(e)),
    ensures
        v matches Some(b) ==> (r matches Ok(h) && to_handle_post(*old(e), *final(e), h) && (final(e).heap@.last() matches RValue::Raw(xs) && xs@ == seq![b])),
        v is None ==> r == Err::<Handle, Error>(Error::ConversionFailure) && *final(e) == *old(e),
{
    match v {
        Some(b) => Ok(to_handle_u8(e, b)),
        None => Err(Error::ConversionFailure),
    }
}

/// An integer vector travels whole into an owned handle.
pub fn to_handle_integer_vector(e: &mut Engine, xs: Vec<i32>) -> (h: Handle)
    requires
        can_allocate(*old(e)),
    ensures
        to_handle_post(*old(e), *final(e), h),
        final(e).heap@.last() matches RValue::Integer(ys) && ys@ == xs@,
{
    alloc_protected(e, RValue::Integer(xs))
}

/// A real-bits vector travels whole into an owned handle.
pub fn to_handle_real_vector(e: &mut Engine, xs: Vec<u64>) -> (h: Handle)
    requires
        can_allocate(*old(e)),
    ensures
        to_handle_post(*old(e), *final(e), h),
        final(e).heap@.last() matches RValue::Real(ys) && ys@ == xs@,
{
    alloc_protected(e, RValue::Real(xs))
}

/// A byte vector travels whole into an owned handle.
pub fn to_handle_raw_vector(e: &mut Engine, xs: Vec<u8>) -> (h: Handle)
    requires
        can_allocate(*old(e)),
    ensures
        to_handle_post(*old(e), *final(e), h),
        final(e).heap@.last() matches RValue::Raw(ys) && ys@ == xs@,
{
    alloc_protected(e, RValue::Raw(xs))
}

/// The null value, owned and protected.
pub fn to_handle_null(e: &mut Engine) -> (h: Handle)
    requires
        can_allocate(*old(e)),
    ensures
        to_handle_post(*old(e), *final(e), h),
        final(e).heap@.last() is Null,
{
    alloc_protected(e, RValue::Null)
}

// ---------------------------------------------------------------------------
// Laws.
// ---------------------------------------------------------------------------
/// Round trip: reading back the integer vector that `to_handle_i32` builds
/// from any non-sentinel value yields exactly that value.
pub proof fn lemma_round_trip_i32(rv: RValue, v: i32)
    requires
        v != NA_INTEGER,
        rv matches RValue::Integer(xs) && xs@ == seq![v],
    ensures
        decode_i32(rv) == Ok::<i32, Error>(v),
{
}

/// Round trip for signed bytes through the integer vector shape.
pub proof fn lemma_round_trip_i8(rv: RValue, v: i8)
    requires
        rv matches RValue::Integer(xs) && xs@ == seq![v as i32],
    ensures
        decode_i8(rv) == Ok::<i8, Error>(v),
{
}

/// Round trip for unsigned bytes through the raw vector shape.
pub proof fn lemma_round_trip_u8(rv: RValue, v: u8)
    requires
        rv matches RValue::Raw(xs) && xs@ == seq![v],
    ensures
        decode_u8(rv) == Ok::<u8, Error>(v),
{
}

/// Round trip for 16-bit signed integers.
pub proof fn lemma_round_trip_i16(rv: RValue, v: i16)
    requires
        rv matches RValue::Integer(xs) && xs@ == seq![v as i32],
    ensures
        decode_i16(rv) == Ok::<i16, Error>(v),
{
}

/// Round trip for 16-bit unsigned integers.
pub proof fn lemma_round_trip_u16(rv: RValue, v: u16)
    requires
        rv matches RValue::Integer(xs) && xs@ == seq![v as i32],
    ensures
        decode_u16(rv) == Ok::<u16, Error>(v),
{
}

/// Round trip for 32-bit unsigned integers within the host's width.
pub proof fn lemma_round_trip_u32(rv: RValue, v: u32)
    requires
        v <= i32::MAX,
        rv matches RValue::Integer(xs) && xs@ == seq![v as i32],
    ensures
        decode_u32(rv) == Ok::<u32, Error>(v),
{
}

/// Round trip for 64-bit signed integers within the host's width, the
/// sentinel excluded.
pub proof fn lemma_round_trip_i64(rv: RValue, v: i64)
    requires
        NA_INTEGER < v <= i32::MAX,
        rv matches RValue::Integer(xs) && xs@ == seq![v as i32],
    ensures
        decode_i64(rv) == Ok::<i64, Error>(v),
{
}

/// Round trip for 64-bit unsigned integers within the host's width.
pub proof fn lemma_round_trip_u64(rv: RValue, v: u64)
    requires
        v <= i32::MAX,
        rv matches RValue::Integer(xs) && xs@ == seq![v as i32],
    ensures
        decode_u64(rv) == Ok::<u64, Error>(v),
{
}

/// Round trip for booleans through the logical vector shape.
pub proof fn lemma_round_trip_bool(rv: RValue, v: bool)
    requires
        rv matches RValue::Logical(xs) && xs@ == seq![
            if v {
                1i32
            } else {
                0i32
            },
        ],
    ensures
        decode_bool(rv) == Ok::<bool, Error>(v),
{
}

/// Round trip for 64-bit reals: the bit pattern comes back untouched,
/// sentinel included.
pub proof fn lemma_round_trip_real(rv: RValue, bits: u64)
    requires
        rv matches RValue::Real(xs) && xs@ == seq![bits],
    ensures
        decode_real_bits(rv) == Ok::<u64, Error>(bits),
{
}

/// The real bit pattern of an integer is never the real sentinel: the
/// sentinel is a NaN, and every encoded integer decodes to itself.
pub proof fn lemma_encoded_i32_not_na(v: i32)
    ensures
        real_bits_of_i32(v) != NA_REAL_BITS,
{
    crate::bits::lemma_real_bits_i32_round_trip(v);
    if real_bits_of_i32(v) == NA_REAL_BITS {
        assert(NA_REAL_BITS & 0x7FFF_FFFF_FFFF_FFFF == NA_REAL_BITS && NA_REAL_BITS >> 52 == 0x7FF
            && NA_REAL_BITS != 0u64) by (bit_vector);
        assert(i32_of_real_bits(NA_REAL_BITS) is None);
    }
}

/// Cross-shape round trip: a real vector holding the exact bit pattern of
/// a 32-bit integer reads back as that integer.
pub proof fn lemma_round_trip_i32_through_real(rv: RValue, v: i32)
    requires
        rv matches RValue::Real(xs) && xs@ == seq![real_bits_of_i32(v)],
    ensures
        decode_i32(rv) == Ok::<i32, Error>(v),
{
    lemma_encoded_i32_not_na(v);
    crate::bits::lemma_real_bits_i32_round_trip(v);
}

/// Round trip for normal-or-zero 32-bit floats: exact widening into a real
/// vector narrows back to the same bits.
pub proof fn lemma_round_trip_f32(rv: RValue, x: u32)
    requires
        f32_normal_or_zero(x),
        rv matches RValue::Real(xs) && xs@ == seq![f64_bits_of_f32_bits(x)],
    ensures
        decode_f32_bits(rv) == Ok::<u32, Error>(x),
{
    crate::bits::lemma_f32_bits_round_trip(x);
    let wide = f64_bits_of_f32_bits(x);
    assert(wide != NA_REAL_BITS) by (bit_vector)
        requires
            f32_normal_or_zero(x) && wide == f64_bits_of_f32_bits(x),
    ;
}

/// Round trip for strings through the character vector shape.
pub proof fn lemma_round_trip_string(rv: RValue, s: String)
    requires
        rv matches RValue::Character(xs) && xs@ == seq![Option::Some(s)],
    ensures
        decode_string(rv) == Ok::<String, Error>(s),
{
}

/// Round trip for whole integer vectors: every element comes back, in
/// order, sentinels included.
pub proof fn lemma_round_trip_integer_vector(rv: RValue, s: Seq<i32>)
    requires
        rv matches RValue::Integer(xs) && xs@ == s,
    ensures
        decode_int_vector(rv) == Ok::<Seq<i32>, Error>(s),
{
}

/// Round trip for whole real vectors, bit for bit.
pub proof fn lemma_round_trip_real_vector(rv: RValue, s: Seq<u64>)
    requires
        rv matches RValue::Real(xs) && xs@ == s,
    ensures
        decode_real_vector(rv) == Ok::<Seq<u64>, Error>(s),
{
}

/// Round trip for whole raw vectors.
pub proof fn lemma_round_trip_raw_vector(rv: RValue, s: Seq<u8>)
    requires
        rv matches RValue::Raw(xs) && xs@ == s,
    ensures
        decode_raw_vector(rv) == Ok::<Seq<u8>, Error>(s),
{
}

/// NA round trip: the integer sentinel written for an absent value reads
/// back as absence, never as a spurious value.
pub proof fn lemma_na_round_trip_i32(rv: RValue)
    requires
        rv matches RValue::Integer(xs) && xs@ == seq![NA_INTEGER],
    ensures
        decode_option_i32(rv) == Ok::<Option<i32>, Error>(Option::None),
{
}

/// NA round trip for reals: exact-bit sentinel recognition.
pub proof fn lemma_na_round_trip_real(rv: RValue)
    requires
        rv matches RValue::Real(xs) && xs@ == seq![NA_REAL_BITS],
    ensures
        decode_option_real_bits(rv) == Ok::<Option<u64>, Error>(Option::None),
{
}

/// NA round trip for logicals.
pub proof fn lemma_na_round_trip_bool(rv: RValue)
    requires
        rv matches RValue::Logical(xs) && xs@ == seq![NA_LOGICAL],
    ensures
        decode_option_bool(rv) == Ok::<Option<bool>, Error>(Option::None),
{
}

/// NA round trip for strings.
pub proof fn lemma_na_round_trip_string(rv: RValue)
    requires
        rv matches RValue::Character(xs) && xs@ == seq![Option::<String>::None],
    ensures
        decode_option_string(rv) == Ok::<Option<String>, Error>(Option::None),
{
}

/// Type-mismatch detection: reading a character vector as an integer is
/// refused with the mismatch error, never answered with a garbage value.
pub proof fn lemma_string_never_reads_as_i32(rv: RValue)
    requires
        rv is Character,
    ensures
        decode_i32(rv) == Err::<i32, Error>(Error::TypeMismatch),
{
}

/// An unrelated allocation moves nothing: a handle that was valid before a
/// conversion built a new value still names the very same heap value, so a
/// borrowed slice observed before and after is identical.
pub proof fn lemma_handle_stable_across_alloc(pre: Engine, post: Engine, h: Handle, h2: Handle)
    requires
        h.valid(&pre),
        to_handle_post(pre, post, h2),
    ensures
        h.valid(&post),
        post.heap@[h.raw as int] == pre.heap@[h.raw as int],
{
    assert(post.heap@.drop_last()[h.raw as int] == pre.heap@[h.raw as int]);
}

} // verus!
