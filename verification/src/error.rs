//! The closed set of failure kinds raised by conversions and calls.
//!
//! Errors are created at the point of detection and propagated by return
//! value; no failure ever crosses the native/runtime boundary by unwinding.

use vstd::prelude::*;

verus! {

/// One failure kind of the object layer.
#[derive(Clone, Copy, Debug, PartialEq, Eq, Structural)]
pub enum Error {
    /// A handle's value cannot be reshaped into the requested native type
    /// (out-of-range narrowing, a real with a fractional part, a type with
    /// no sentinel asked to carry an absent value, ...).
    ConversionFailure,
    /// A handle's type tag is incompatible with the requested native type.
    TypeMismatch,
    /// A scalar was requested but the handle's vector length is not 1.
    LengthMismatch,
    /// The sentinel for "not available" was found where a plain value was
    /// required.
    NaNotAllowed,
    /// A call reached a dispatch entry with the wrong number of arguments;
    /// the host rejects this before the trampoline runs.
    ArityMismatch,
    /// A native function body failed unexpectedly; intercepted at the
    /// trampoline boundary and never allowed to unwind into the host.
    NativePanic,
    /// The host runtime itself reported a failure, or a condition that only
    /// the host can report was detected (a protection-order violation, a
    /// second registration, the wrong thread).
    RuntimeSignaledError,
}

impl Error {
    /// A short stable name for the kind, for diagnostics.
    pub fn name(&self) -> (r: &'static str)
        ensures
            r@ == self.name_spec(),
    {
        match self {
            Error::ConversionFailure => "conversion failure",
            Error::TypeMismatch => "type mismatch",
            Error::LengthMismatch => "length mismatch",
            Error::NaNotAllowed => "NA not allowed",
            Error::ArityMismatch => "arity mismatch",
            Error::NativePanic => "native panic",
            Error::RuntimeSignaledError => "runtime signaled error",
        }
    }

    /// What `name` returns for each kind.
    pub open spec fn name_spec(&self) -> Seq<char> {
        match self {
            Error::ConversionFailure => "conversion failure"@,
            Error::TypeMismatch => "type mismatch"@,
            Error::LengthMismatch => "length mismatch"@,
            Error::NaNotAllowed => "NA not allowed"@,
            Error::ArityMismatch => "arity mismatch"@,
            Error::NativePanic => "native panic"@,
            Error::RuntimeSignaledError => "runtime signaled error"@,
        }
    }
}

} // verus!
