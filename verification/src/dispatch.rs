//! Call dispatch: registration, argument marshalling, and the panic-safe
//! trampoline phases.
//!
//! The host reaches a native function through a registered symbol and calls
//! its trampoline with raw argument handles.  A trampoline runs in three
//! phases: the prologue pins the thread guard and converts every argument
//! (a conversion failure stops the call before the body runs); the native
//! body runs outside this layer, behind a catch region whose verdict is a
//! [`BodyOutcome`]; the epilogue rolls the protection stack back to its
//! depth at entry — so an aborted call leaks no registrations — and turns
//! the outcome into one protected result handle or the error the host is
//! to signal.  No failure ever crosses the boundary by unwinding.

use vstd::prelude::*;

use crate::bits::f32_normal_or_zero;
use crate::convert::{
    can_allocate, decode_bool, decode_f32_bits, decode_i16, decode_i32, decode_i64,
    decode_i8, decode_int_vector, decode_real_bits, decode_real_vector, decode_string, decode_u16,
    decode_u32, decode_u64, decode_u8, from_handle_bool, from_handle_f32_bits, from_handle_i16,
    from_handle_i32, from_handle_i64, from_handle_i8, from_handle_integer_vector,
    from_handle_real_bits, from_handle_real_vector, from_handle_string, from_handle_u16,
    from_handle_u32, from_handle_u64, from_handle_u8, to_handle_bool, to_handle_f32_bits,
    to_handle_i16, to_handle_i32, to_handle_i64, to_handle_i8, to_handle_integer_vector,
    to_handle_null, to_handle_real_bits, to_handle_real_vector, to_handle_string, to_handle_u16,
    to_handle_u32, to_handle_u64, to_handle_u8, to_handle_post,
};
use crate::bits::f64_bits_of_f32_bits;
use crate::engine::{CallMethod, Engine, Handle, Ownership, ThreadGuard};
use crate::error::Error;
use crate::value::{RValue, NA_INTEGER};

verus! {

/// The native types the dispatch layer marshals across the boundary.
#[derive(Clone, Copy, Debug, PartialEq, Eq, Structural)]
pub enum ParamType {
    I8,
    U8,
    I16,
    U16,
    I32,
    U32,
    I64,
    U64,
    F32,
    F64,
    Boolean,
    Text,
    IntegerVector,
    RealVector,
}

/// One marshalled native value.  Floats travel as bit patterns, so that
/// every contract stays exact-bit.
#[derive(Clone, Debug)]
pub enum NativeValue {
    I8(i8),
    U8(u8),
    I16(i16),
    U16(u16),
    I32(i32),
    U32(u32),
    I64(i64),
    U64(u64),
    F32Bits(u32),
    F64Bits(u64),
    Boolean(bool),
    Text(String),
    IntegerVector(Vec<i32>),
    RealVector(Vec<u64>),
    Unit,
}

/// How a native function body ended: with a value, or in a panic that the
/// catch region around the body intercepted.
#[derive(Clone, Debug)]
pub enum BodyOutcome {
    Return(NativeValue),
    Panicked,
}

/// The error, if any, that reading a heap value as a given parameter type
/// produces.
pub open spec fn param_error(v: RValue, t: ParamType) -> Option<Error> {
    match t {
        ParamType::I8 => match decode_i8(v) {
            Result::Ok(_) => None,
            Result::Err(er) => Some(er),
        },
        ParamType::U8 => match decode_u8(v) {
            Result::Ok(_) => None,
            Result::Err(er) => Some(er),
        },
        ParamType::I16 => match decode_i16(v) {
            Result::Ok(_) => None,
            Result::Err(er) => Some(er),
        },
        ParamType::U16 => match decode_u16(v) {
            Result::Ok(_) => None,
            Result::Err(er) => Some(er),
        },
        ParamType::I32 => match decode_i32(v) {
            Result::Ok(_) => None,
            Result::Err(er) => Some(er),
        },
        ParamType::U32 => match decode_u32(v) {
            Result::Ok(_) => None,
            Result::Err(er) => Some(er),
        },
        ParamType::I64 => match decode_i64(v) {
            Result::Ok(_) => None,
            Result::Err(er) => Some(er),
        },
        ParamType::U64 => match decode_u64(v) {
            Result::Ok(_) => None,
            Result::Err(er) => Some(er),
        },
        ParamType::F32 => match decode_f32_bits(v) {
            Result::Ok(_) => None,
            Result::Err(er) => Some(er),
        },
        ParamType::F64 => match decode_real_bits(v) {
            Result::Ok(_) => None,
            Result::Err(er) => Some(er),
        },
        ParamType::Boolean => match decode_bool(v) {
            Result::Ok(_) => None,
            Result::Err(er) => Some(er),
        },
        ParamType::Text => match decode_string(v) {
            Result::Ok(_) => None,
            Result::Err(er) => Some(er),
        },
        ParamType::IntegerVector => match decode_int_vector(v) {
            Result::Ok(_) => None,
            Result::Err(er) => Some(er),
        },
        ParamType::RealVector => match decode_real_vector(v) {
            Result::Ok(_) => None,
            Result::Err(er) => Some(er),
        },
    }
}

/// Whether a marshalled value is exactly what reading a heap value as a
/// given parameter type yields.
pub open spec fn decoded_as(v: RValue, t: ParamType, nv: NativeValue) -> bool {
    match t {
        ParamType::I8 => decode_i8(v) matches Ok(x) && nv == NativeValue::I8(x),
        ParamType::U8 => decode_u8(v) matches Ok(x) && nv == NativeValue::U8(x),
        ParamType::I16 => decode_i16(v) matches Ok(x) && nv == NativeValue::I16(x),
        ParamType::U16 => decode_u16(v) matches Ok(x) && nv == NativeValue::U16(x),
        ParamType::I32 => decode_i32(v) matches Ok(x) && nv == NativeValue::I32(x),
        ParamType::U32 => decode_u32(v) matches Ok(x) && nv == NativeValue::U32(x),
        ParamType::I64 => decode_i64(v) matches Ok(x) && nv == NativeValue::I64(x),
        ParamType::U64 => decode_u64(v) matches Ok(x) && nv == NativeValue::U64(x),
        ParamType::F32 => decode_f32_bits(v) matches Ok(x) && nv == NativeValue::F32Bits(x),
        ParamType::F64 => decode_real_bits(v) matches Ok(x) && nv == NativeValue::F64Bits(x),
        ParamType::Boolean => decode_bool(v) matches Ok(x) && nv == NativeValue::Boolean(x),
        ParamType::Text => decode_string(v) matches Ok(s) && (nv matches NativeValue::Text(s2)
            && s2@ == s@),
        ParamType::IntegerVector => decode_int_vector(v) matches Ok(s) && (
        nv matches NativeValue::IntegerVector(ys) && ys@ == s),
        ParamType::RealVector => decode_real_vector(v) matches Ok(s) && (
        nv matches NativeValue::RealVector(ys) && ys@ == s),
    }
}

/// Convert one raw argument handle into the native parameter value.
pub fn decode_arg(e: &Engine, h: &Handle, t: ParamType) -> (r: Result<NativeValue, Error>)
    requires
        h.valid(e),
    ensures
        match r {
            Result::Ok(nv) => param_error(e.heap@[h.raw as int], t) is None && decoded_as(
                e.heap@[h.raw as int],
                t,
                nv,
            ),
            Result::Err(er) => param_error(e.heap@[h.raw as int], t) == Some(er),
        },
{
    match t {
        ParamType::I8 => match from_handle_i8(e, h) {
            Result::Ok(x) => Ok(NativeValue::I8(x)),
            Result::Err(er) => Err(er),
        },
        ParamType::U8 => match from_handle_u8(e, h) {
            Result::Ok(x) => Ok(NativeValue::U8(x)),
            Result::Err(er) => Err(er),
        },
        ParamType::I16 => match from_handle_i16(e, h) {
            Result::Ok(x) => Ok(NativeValue::I16(x)),
            Result::Err(er) => Err(er),
        },
        ParamType::U16 => match from_handle_u16(e, h) {
            Result::Ok(x) => Ok(NativeValue::U16(x)),
            Result::Err(er) => Err(er),
        },
        ParamType::I32 => match from_handle_i32(e, h) {
            Result::Ok(x) => Ok(NativeValue::I32(x)),
            Result::Err(er) => Err(er),
        },
        ParamType::U32 => match from_handle_u32(e, h) {
            Result::Ok(x) => Ok(NativeValue::U32(x)),
            Result::Err(er) => Err(er),
        },
        ParamType::I64 => match from_handle_i64(e, h) {
            Result::Ok(x) => Ok(NativeValue::I64(x)),
            Result::Err(er) => Err(er),
        },
        ParamType::U64 => match from_handle_u64(e, h) {
            Result::Ok(x) => Ok(NativeValue::U64(x)),
            Result::Err(er) => Err(er),
        },
        ParamType::F32 => match from_handle_f32_bits(e, h) {
            Result::Ok(x) => Ok(NativeValue::F32Bits(x)),
            Result::Err(er) => Err(er),
        },
        ParamType::F64 => match from_handle_real_bits(e, h) {
            Result::Ok(x) => Ok(NativeValue::F64Bits(x)),
            Result::Err(er) => Err(er),
        },
        ParamType::Boolean => match from_handle_bool(e, h) {
            Result::Ok(x) => Ok(NativeValue::Boolean(x)),
            Result::Err(er) => Err(er),
        },
        ParamType::Text => match from_handle_string(e, h) {
            Result::Ok(s) => Ok(NativeValue::Text(s)),
            Result::Err(er) => Err(er),
        },
        ParamType::IntegerVector => match from_handle_integer_vector(e, h) {
            Result::Ok(xs) => Ok(NativeValue::IntegerVector(xs)),
            Result::Err(er) => Err(er),
        },
        ParamType::RealVector => match from_handle_real_vector(e, h) {
            Result::Ok(xs) => Ok(NativeValue::RealVector(xs)),
            Result::Err(er) => Err(er),
        },
    }
}

/// The trampoline's first phase: pin the thread guard, then convert every
/// raw argument in order.  The first conversion failure stops the call
/// before the body runs and is returned for the host to signal; nothing is
/// allocated or protected either way.  The host has already checked arity
/// against the registered entry.
#[verifier::loop_isolation(false)]
pub fn trampoline_prologue(
    e: &mut Engine,
    thread_id: u64,
    params: &Vec<ParamType>,
    args: &Vec<Handle>,
) -> (r: Result<Vec<NativeValue>, Error>)
    requires
        params@.len() == args@.len(),
        forall|i: int| 0 <= i < args@.len() ==> (#[trigger] args@[i]).valid(old(e)),
    ensures
        final(e).heap@ == old(e).heap@,
        final(e).protect@ == old(e).protect@,
        final(e).methods@ == old(e).methods@,
        final(e).registered == old(e).registered,
        final(e).output@ == old(e).output@,
        final(e).error_output@ == old(e).error_output@,
        match old(e).guard {
            ThreadGuard::Uninitialized => final(e).guard == ThreadGuard::Active(thread_id),
            ThreadGuard::Active(_) => final(e).guard == old(e).guard,
        },
        old(e).guard matches ThreadGuard::Active(t) && t != thread_id ==> r == Err::<
            Vec<NativeValue>,
            Error,
        >(Error::RuntimeSignaledError),
        (match old(e).guard {
            ThreadGuard::Uninitialized => true,
            ThreadGuard::Active(t) => t == thread_id,
        }) ==> match r {
            Result::Ok(vals) => {
                &&& vals@.len() == params@.len()
                &&& forall|i: int|
                    0 <= i < params@.len() ==> decoded_as(
                        old(e).heap@[args@[i].raw as int],
                        params@[i],
                        #[trigger] vals@[i],
                    )
            },
            Result::Err(er) => exists|i: int|
                {
                    &&& 0 <= i < params@.len()
                    &&& #[trigger] param_error(old(e).heap@[args@[i].raw as int], params@[i])
                        == Some(er)
                    &&& forall|j: int|
                        0 <= j < i ==> #[trigger] param_error(
                            old(e).heap@[args@[j].raw as int],
                            params@[j],
                        ) is None
                },
        },
{
    if !e.check_thread(thread_id) {
        return Err(Error::RuntimeSignaledError);
    }
    let mut vals: Vec<NativeValue> = Vec::new();
    let mut i: usize = 0;
    while i < params.len()
        invariant
            i <= params@.len(),
            params@.len() == args@.len(),
            forall|k: int| 0 <= k < args@.len() ==> (#[trigger] args@[k]).valid(e),
            vals@.len() == i,
            forall|k: int|
                0 <= k < i ==> decoded_as(e.heap@[args@[k].raw as int], params@[k], #[trigger] vals@[k]),
            forall|k: int|
                0 <= k < i ==> #[trigger] param_error(e.heap@[args@[k].raw as int], params@[k])
                    is None,
        decreases params@.len() - i,
    {
        match decode_arg(e, &args[i], params[i]) {
            Result::Ok(nv) => {
                vals.push(nv);
            },
            Result::Err(er) => {
                return Err(er);
            },
        }
        i += 1;
    }
    Ok(vals)
}

/// The error, if any, that encoding a native result into a host value
/// produces: a wide integer outside the host's 32-bit width, or a 32-bit
/// float pattern the exact widening cannot carry.
pub open spec fn encode_error(nv: NativeValue) -> Option<Error> {
    match nv {
        NativeValue::U32(x) => if x <= i32::MAX {
            None
        } else {
            Some(Error::ConversionFailure)
        },
        NativeValue::I64(x) => if NA_INTEGER < x <= i32::MAX {
            None
        } else {
            Some(Error::ConversionFailure)
        },
        NativeValue::U64(x) => if x <= i32::MAX {
            None
        } else {
            Some(Error::ConversionFailure)
        },
        NativeValue::F32Bits(x) => if f32_normal_or_zero(x) {
            None
        } else {
            Some(Error::ConversionFailure)
        },
        _ => None,
    }
}

/// What the heap value built from a successfully encoded native result is.
pub open spec fn result_value_matches(v: RValue, nv: NativeValue) -> bool {
    match nv {
        NativeValue::I8(x) => v matches RValue::Integer(xs) && xs@ == seq![x as i32],
        NativeValue::U8(x) => v matches RValue::Raw(xs) && xs@ == seq![x],
        NativeValue::I16(x) => v matches RValue::Integer(xs) && xs@ == seq![x as i32],
        NativeValue::U16(x) => v matches RValue::Integer(xs) && xs@ == seq![x as i32],
        NativeValue::I32(x) => v matches RValue::Integer(xs) && xs@ == seq![x],
        NativeValue::U32(x) => v matches RValue::Integer(xs) && xs@ == seq![x as i32],
        NativeValue::I64(x) => v matches RValue::Integer(xs) && xs@ == seq![x as i32],
        NativeValue::U64(x) => v matches RValue::Integer(xs) && xs@ == seq![x as i32],
        NativeValue::F32Bits(x) => v matches RValue::Real(xs) && xs@ == seq![
            f64_bits_of_f32_bits(x),
        ],
        NativeValue::F64Bits(b) => v matches RValue::Real(xs) && xs@ == seq![b],
        NativeValue::Boolean(b) => v matches RValue::Logical(xs) && xs@ == seq![
            if b {
                1i32
            } else {
                0i32
            },
        ],
        NativeValue::Text(s) => v matches RValue::Character(xs) && xs@ == seq![Option::Some(s)],
        NativeValue::IntegerVector(xs) => v matches RValue::Integer(ys) && ys@ == xs@,
        NativeValue::RealVector(xs) => v matches RValue::Real(ys) && ys@ == xs@,
        NativeValue::Unit => v is Null,
    }
}

/// Encode a native result into one owned, protected handle, or report the
/// error the host is to signal, touching nothing.
pub fn encode_result(e: &mut Engine, nv: NativeValue) -> (r: Result<Handle, Error>)
    requires
        can_allocate(*old(e)),
    ensures
        match r {
            Result::Ok(h) => {
                &&& encode_error(nv) is None
                &&& to_handle_post(*old(e), *final(e), h)
                &&& result_value_matches(final(e).heap@.last(), nv)
            },
            Result::Err(er) => encode_error(nv) == Some(er) && *final(e) == *old(e),
        },
{
    match nv {
        NativeValue::I8(x) => Ok(to_handle_i8(e, x)),
        NativeValue::U8(x) => Ok(to_handle_u8(e, x)),
        NativeValue::I16(x) => Ok(to_handle_i16(e, x)),
        NativeValue::U16(x) => Ok(to_handle_u16(e, x)),
        NativeValue::I32(x) => Ok(to_handle_i32(e, x)),
        NativeValue::U32(x) => to_handle_u32(e, x),
        NativeValue::I64(x) => to_handle_i64(e, x),
        NativeValue::U64(x) => to_handle_u64(e, x),
        NativeValue::F32Bits(x) => {
            if crate::bits::is_f32_normal_or_zero(x) {
                Ok(to_handle_f32_bits(e, x))
            } else {
                Err(Error::ConversionFailure)
            }
        },
        NativeValue::F64Bits(b) => Ok(to_handle_real_bits(e, b)),
        NativeValue::Boolean(b) => Ok(to_handle_bool(e, b)),
        NativeValue::Text(s) => Ok(to_handle_string(e, s)),
        NativeValue::IntegerVector(xs) => Ok(to_handle_integer_vector(e, xs)),
        NativeValue::RealVector(xs) => Ok(to_handle_real_vector(e, xs)),
        NativeValue::Unit => Ok(to_handle_null(e)),
    }
}

/// The trampoline's last phase.  Whatever happened in the body, the
/// protection stack is first rolled back to its depth at entry, so an
/// aborted call leaks no registrations.  A panic becomes the error the
/// host is to signal — it never unwinds further; a returned value becomes
/// one owned, protected result handle.
pub fn trampoline_epilogue(e: &mut Engine, entry_depth: usize, outcome: BodyOutcome) -> (r: Result<
    Handle,
    Error,
>)
    requires
        entry_depth <= old(e).protect@.len(),
        can_allocate(*old(e)),
    ensures
        final(e).guard == old(e).guard,
        final(e).methods@ == old(e).methods@,
        final(e).registered == old(e).registered,
        final(e).output@ == old(e).output@,
        final(e).error_output@ == old(e).error_output@,
        outcome is Panicked ==> {
            &&& r == Err::<Handle, Error>(Error::RuntimeSignaledError)
            &&& final(e).heap@ == old(e).heap@
            &&& final(e).protect@ == old(e).protect@.subrange(0, entry_depth as int)
        },
        outcome matches BodyOutcome::Return(nv) ==> match encode_error(nv) {
            Option::Some(er) => {
                &&& r == Err::<Handle, Error>(er)
                &&& final(e).heap@ == old(e).heap@
                &&& final(e).protect@ == old(e).protect@.subrange(0, entry_depth as int)
            },
            Option::None => r matches Ok(h) && {
                &&& h.raw == old(e).heap@.len()
                &&& h.slot == entry_depth
                &&& h.ownership == Ownership::Owned
                &&& h.valid(final(e))
                &&& final(e).heap@.len() == old(e).heap@.len() + 1
                &&& final(e).heap@.drop_last() == old(e).heap@
                &&& result_value_matches(final(e).heap@.last(), nv)
                &&& final(e).protect@ == old(e).protect@.subrange(0, entry_depth as int).push(
                    h.raw,
                )
            },
        },
{
    e.protect.truncate(entry_depth);
    match outcome {
        BodyOutcome::Panicked => Err(Error::RuntimeSignaledError),
        BodyOutcome::Return(nv) => encode_result(e, nv),
    }
}

/// Publish the dispatch table to the host, once, during library load.  The
/// host keeps its own copy; here the engine retains the table.  A second
/// registration is a load-time error, reported rather than silently
/// accepted, and changes nothing.
pub fn register_call_methods(e: &mut Engine, methods: Vec<CallMethod>) -> (r: Result<(), Error>)
    ensures
        final(e).heap@ == old(e).heap@,
        final(e).protect@ == old(e).protect@,
        final(e).guard == old(e).guard,
        final(e).output@ == old(e).output@,
        final(e).error_output@ == old(e).error_output@,
        !old(e).registered ==> {
            &&& r == Ok::<(), Error>(())
            &&& final(e).registered
            &&& final(e).methods@ == methods@
        },
        old(e).registered ==> {
            &&& r == Err::<(), Error>(Error::RuntimeSignaledError)
            &&& final(e).registered == old(e).registered
            &&& final(e).methods@ == old(e).methods@
        },
{
    if e.registered {
        Err(Error::RuntimeSignaledError)
    } else {
        e.methods = methods;
        e.registered = true;
        Ok(())
    }
}

/// The index of the first dispatch entry registered under a symbol, if the
/// symbol is registered at all.
pub fn find_method(e: &Engine, name: &String) -> (r: Option<usize>)
    ensures
        match r {
            Option::Some(i) => {
                &&& i < e.methods@.len()
                &&& e.methods@[i as int].call_symbol@ == name@
                &&& forall|j: int| 0 <= j < i ==> e.methods@[j].call_symbol@ != name@
            },
            Option::None => forall|j: int|
                0 <= j < e.methods@.len() ==> e.methods@[j].call_symbol@ != name@,
        },
{
    let mut i: usize = 0;
    while i < e.methods.len()
        invariant
            i <= e.methods@.len(),
            forall|j: int| 0 <= j < i ==> e.methods@[j].call_symbol@ != name@,
        decreases e.methods@.len() - i,
    {
        if e.methods[i].call_symbol.eq(name) {
            return Some(i);
        }
        i += 1;
    }
    None
}

} // verus!
