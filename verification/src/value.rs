//! Tagged host values and the per-type "not available" sentinels.
//!
//! The host runtime stores every datum as a tagged, vector-shaped value.
//! This module gives that object model an explicit form: the closed set of
//! type tags, the value payloads, and the reserved bit patterns that mean
//! "missing" for each scalar width.  Sentinel recognition is exact-bit: the
//! real sentinel is one specific NaN payload, not "any NaN".

use vstd::prelude::*;

verus! {

/// The sentinel for "not available" in 32-bit integer vectors: the smallest
/// 32-bit integer, which the host reserves and never uses as data.
pub const NA_INTEGER: i32 = i32::MIN;

/// The sentinel for "not available" in logical vectors, which the host
/// stores in 32 bits exactly like integers.
pub const NA_LOGICAL: i32 = i32::MIN;

/// The IEEE-754 bit pattern of the host's real sentinel: one specific quiet
/// NaN with payload 1954 in the low mantissa bits.  Reals travel through
/// this layer as raw 64-bit patterns so that the check can be exact-bit.
pub const NA_REAL_BITS: u64 = 0x7FF0_0000_0000_07A2;

/// A host logical value: `0` is false, `1` is true, and [`NA_LOGICAL`]
/// is "not available" — a three-state boolean.
#[derive(Clone, Copy, Debug, PartialEq, Eq, Structural)]
pub struct Bool(pub i32);

impl Bool {
    /// The logical truth value, if present.
    pub fn to_option(&self) -> (r: Option<bool>)
        ensures
            r == if self.0 == NA_LOGICAL {
                Option::<bool>::None
            } else {
                Option::<bool>::Some(self.0 != 0)
            },
    {
        if self.0 == NA_LOGICAL {
            None
        } else {
            Some(self.0 != 0)
        }
    }
}

/// Recognition of a type's "not available" sentinel.
pub trait IsNA {
    /// Whether the value is the sentinel, as a mathematical predicate.
    spec fn is_na_spec(&self) -> bool;

    /// Return true if this primitive is NA.
    fn is_na(&self) -> (r: bool)
        ensures
            r == self.is_na_spec(),
    ;
}

impl IsNA for i32 {
    open spec fn is_na_spec(&self) -> bool {
        *self == NA_INTEGER
    }

    fn is_na(&self) -> (r: bool)
        ensures
            r == self.is_na_spec(),
    {
        *self == NA_INTEGER
    }
}

impl IsNA for Bool {
    open spec fn is_na_spec(&self) -> bool {
        self.0 == NA_LOGICAL
    }

    fn is_na(&self) -> (r: bool)
        ensures
            r == self.is_na_spec(),
    {
        self.0 == NA_LOGICAL
    }
}

/// Whether a 64-bit real, given as its IEEE-754 bit pattern, is exactly the
/// host's real sentinel.
pub open spec fn is_na_real_spec(bits: u64) -> bool {
    bits == NA_REAL_BITS
}

/// Exact-bit recognition of the real sentinel.
pub fn is_na_real(bits: u64) -> (r: bool)
    ensures
        r == is_na_real_spec(bits),
{
    bits == NA_REAL_BITS
}

/// The closed set of type tags a host value can carry.
#[derive(Clone, Copy, Debug, PartialEq, Eq, Structural)]
pub enum Rtype {
    Null,
    Logical,
    Integer,
    Real,
    Character,
    Raw,
    List,
    Closure,
    ExternalPtr,
    Symbol,
}

/// One host-managed value: a tag and its payload.
///
/// Reals are IEEE-754 bit patterns; character vectors carry `None` for the
/// string sentinel; a list holds raw heap references to its elements;
/// closures and external pointers are opaque identities.
#[derive(Clone, Debug)]
pub enum RValue {
    Null,
    Logical(Vec<i32>),
    Integer(Vec<i32>),
    Real(Vec<u64>),
    Character(Vec<Option<String>>),
    Raw(Vec<u8>),
    List(Vec<usize>),
    Closure(usize),
    ExternalPtr(usize),
    Symbol(String),
}

impl RValue {
    /// The type tag of this value.
    pub open spec fn rtype_spec(&self) -> Rtype {
        match self {
            RValue::Null => Rtype::Null,
            RValue::Logical(_) => Rtype::Logical,
            RValue::Integer(_) => Rtype::Integer,
            RValue::Real(_) => Rtype::Real,
            RValue::Character(_) => Rtype::Character,
            RValue::Raw(_) => Rtype::Raw,
            RValue::List(_) => Rtype::List,
            RValue::Closure(_) => Rtype::Closure,
            RValue::ExternalPtr(_) => Rtype::ExternalPtr,
            RValue::Symbol(_) => Rtype::Symbol,
        }
    }

    /// Read the type tag.
    pub fn rtype(&self) -> (t: Rtype)
        ensures
            t == self.rtype_spec(),
    {
        match self {
            RValue::Null => Rtype::Null,
            RValue::Logical(_) => Rtype::Logical,
            RValue::Integer(_) => Rtype::Integer,
            RValue::Real(_) => Rtype::Real,
            RValue::Character(_) => Rtype::Character,
            RValue::Raw(_) => Rtype::Raw,
            RValue::List(_) => Rtype::List,
            RValue::Closure(_) => Rtype::Closure,
            RValue::ExternalPtr(_) => Rtype::ExternalPtr,
            RValue::Symbol(_) => Rtype::Symbol,
        }
    }

    /// The vector length of this value: 0 for null, the element count for
    /// vector shapes, and 1 for the scalar-like shapes.
    pub open spec fn len_spec(&self) -> nat {
        match self {
            RValue::Null => 0,
            RValue::Logical(v) => v@.len(),
            RValue::Integer(v) => v@.len(),
            RValue::Real(v) => v@.len(),
            RValue::Character(v) => v@.len(),
            RValue::Raw(v) => v@.len(),
            RValue::List(v) => v@.len(),
            RValue::Closure(_) => 1,
            RValue::ExternalPtr(_) => 1,
            RValue::Symbol(_) => 1,
        }
    }

    /// Read the vector length.
    pub fn length(&self) -> (n: usize)
        ensures
            n == self.len_spec(),
    {
        match self {
            RValue::Null => 0,
            RValue::Logical(v) => v.len(),
            RValue::Integer(v) => v.len(),
            RValue::Real(v) => v.len(),
            RValue::Character(v) => v.len(),
            RValue::Raw(v) => v.len(),
            RValue::List(v) => v.len(),
            RValue::Closure(_) => 1,
            RValue::ExternalPtr(_) => 1,
            RValue::Symbol(_) => 1,
        }
    }
}

/// Equality of character-vector elements: both absent, or both present with
/// the same characters.
pub open spec fn char_elem_eq(a: Option<String>, b: Option<String>) -> bool {
    match (a, b) {
        (Option::None, Option::None) => true,
        (Option::Some(x), Option::Some(y)) => x@ == y@,
        _ => false,
    }
}

/// Structural equality of two host values: same tag and the same contents,
/// character by character for strings.
pub open spec fn rvalue_eq_spec(a: &RValue, b: &RValue) -> bool {
    match (a, b) {
        (RValue::Null, RValue::Null) => true,
        (RValue::Logical(x), RValue::Logical(y)) => x@ == y@,
        (RValue::Integer(x), RValue::Integer(y)) => x@ == y@,
        (RValue::Real(x), RValue::Real(y)) => x@ == y@,
        (RValue::Character(x), RValue::Character(y)) => {
            &&& x@.len() == y@.len()
            &&& forall|i: int| 0 <= i < x@.len() ==> char_elem_eq(x@[i], y@[i])
        },
        (RValue::Raw(x), RValue::Raw(y)) => x@ == y@,
        (RValue::List(x), RValue::List(y)) => x@ == y@,
        (RValue::Closure(x), RValue::Closure(y)) => x == y,
        (RValue::ExternalPtr(x), RValue::ExternalPtr(y)) => x == y,
        (RValue::Symbol(x), RValue::Symbol(y)) => x@ == y@,
        _ => false,
    }
}

/// Compare two integer-element vectors.
fn i32_vectors_equal(x: &Vec<i32>, y: &Vec<i32>) -> (r: bool)
    ensures
        r == (x@ == y@),
{
    if x.len() != y.len() {
        proof {
            assert(x@ != y@);
        }
        return false;
    }
    let mut i: usize = 0;
    while i < x.len()
        invariant
            x@.len() == y@.len(),
            i <= x@.len(),
            forall|j: int| 0 <= j < i ==> x@[j] == y@[j],
        decreases x@.len() - i,
    {
        if x[i] != y[i] {
            proof {
                assert(x@ != y@);
            }
            return false;
        }
        i += 1;
    }
    proof {
        assert(x@ =~= y@);
    }
    true
}

/// Compare two 64-bit-element vectors.
fn u64_vectors_equal(x: &Vec<u64>, y: &Vec<u64>) -> (r: bool)
    ensures
        r == (x@ == y@),
{
    if x.len() != y.len() {
        proof {
            assert(x@ != y@);
        }
        return false;
    }
    let mut i: usize = 0;
    while i < x.len()
        invariant
            x@.len() == y@.len(),
            i <= x@.len(),
            forall|j: int| 0 <= j < i ==> x@[j] == y@[j],
        decreases x@.len() - i,
    {
        if x[i] != y[i] {
            proof {
                assert(x@ != y@);
            }
            return false;
        }
        i += 1;
    }
    proof {
        assert(x@ =~= y@);
    }
    true
}

/// Compare two byte vectors.
fn u8_vectors_equal(x: &Vec<u8>, y: &Vec<u8>) -> (r: bool)
    ensures
        r == (x@ == y@),
{
    if x.len() != y.len() {
        proof {
            assert(x@ != y@);
        }
        return false;
    }
    let mut i: usize = 0;
    while i < x.len()
        invariant
            x@.len() == y@.len(),
            i <= x@.len(),
            forall|j: int| 0 <= j < i ==> x@[j] == y@[j],
        decreases x@.len() - i,
    {
        if x[i] != y[i] {
            proof {
                assert(x@ != y@);
            }
            return false;
        }
        i += 1;
    }
    proof {
        assert(x@ =~= y@);
    }
    true
}

/// Compare two reference vectors.
fn usize_vectors_equal(x: &Vec<usize>, y: &Vec<usize>) -> (r: bool)
    ensures
        r == (x@ == y@),
{
    if x.len() != y.len() {
        proof {
            assert(x@ != y@);
        }
        return false;
    }
    let mut i: usize = 0;
    while i < x.len()
        invariant
            x@.len() == y@.len(),
            i <= x@.len(),
            forall|j: int| 0 <= j < i ==> x@[j] == y@[j],
        decreases x@.len() - i,
    {
        if x[i] != y[i] {
            proof {
                assert(x@ != y@);
            }
            return false;
        }
        i += 1;
    }
    proof {
        assert(x@ =~= y@);
    }
    true
}

/// Compare two character vectors element by element.
fn character_vectors_equal(x: &Vec<Option<String>>, y: &Vec<Option<String>>) -> (r: bool)
    ensures
        r == (x@.len() == y@.len() && forall|i: int|
            0 <= i < x@.len() ==> char_elem_eq(x@[i], y@[i])),
{
    if x.len() != y.len() {
        return false;
    }
    let mut i: usize = 0;
    while i < x.len()
        invariant
            x@.len() == y@.len(),
            i <= x@.len(),
            forall|j: int| 0 <= j < i ==> char_elem_eq(x@[j], y@[j]),
        decreases x@.len() - i,
    {
        let same = match (&x[i], &y[i]) {
            (Option::Some(a), Option::Some(b)) => a.eq(b),
            (Option::None, Option::None) => true,
            _ => false,
        };
        if !same {
            return false;
        }
        i += 1;
    }
    true
}

/// Structural equality of two host values, decided exactly as
/// [`rvalue_eq_spec`] states it.
pub fn rvalue_equal(a: &RValue, b: &RValue) -> (r: bool)
    ensures
        r == rvalue_eq_spec(a, b),
{
    match (a, b) {
        (RValue::Null, RValue::Null) => true,
        (RValue::Logical(x), RValue::Logical(y)) => i32_vectors_equal(x, y),
        (RValue::Integer(x), RValue::Integer(y)) => i32_vectors_equal(x, y),
        (RValue::Real(x), RValue::Real(y)) => u64_vectors_equal(x, y),
        (RValue::Character(x), RValue::Character(y)) => character_vectors_equal(x, y),
        (RValue::Raw(x), RValue::Raw(y)) => u8_vectors_equal(x, y),
        (RValue::List(x), RValue::List(y)) => usize_vectors_equal(x, y),
        (RValue::Closure(x), RValue::Closure(y)) => x == y,
        (RValue::ExternalPtr(x), RValue::ExternalPtr(y)) => x == y,
        (RValue::Symbol(x), RValue::Symbol(y)) => x.eq(y),
        _ => false,
    }
}

} // verus!
