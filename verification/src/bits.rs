//! Exact-bit arithmetic on the host's 64-bit reals.
//!
//! Reals cross this layer as raw IEEE-754 bit patterns, so that sentinel
//! recognition and numeric conversion can be stated and proved bit for bit.
//! This module defines what it means for a bit pattern to denote a 32-bit
//! integer exactly, converts integers to patterns and back, widens and
//! narrows between the 32-bit and 64-bit float formats where that is exact,
//! and proves the round trips.

use vstd::prelude::*;
use vstd::arithmetic::power2::{
    lemma2_to64, lemma2_to64_rest, lemma_pow2_adds, lemma_pow2_strictly_increases, pow2,
};

verus! {

/// The weight of the hidden mantissa bit of a 64-bit real: two to the 52nd.
pub const HIDDEN_BIT: u64 = 0x10_0000_0000_0000;

/// The exponent field that scales the full 53-bit mantissa to weight one:
/// an integer m with the hidden bit set denotes m * 2^(e - 1075).
pub const INTEGER_EXPONENT: u64 = 1075;

/// Double the mantissa until its hidden bit is set (or the exponent runs
/// out), lowering the exponent in step; the denoted value m * 2^(e - 1075)
/// is unchanged.
pub open spec fn normalize(m: nat, e: nat) -> (nat, nat)
    decreases e,
{
    if m >= HIDDEN_BIT || e == 0 {
        (m, e)
    } else {
        normalize(m * 2, (e - 1) as nat)
    }
}

/// The bit pattern of the nonnegative real denoting m * 2^(e - 1075),
/// for a mantissa that normalization can bring into the 53-bit window.
pub open spec fn bits_of_mag(m: nat, e: nat) -> u64 {
    let (mn, en) = normalize(m, e);
    ((en as u64) << 52) | ((mn - HIDDEN_BIT) as u64)
}

/// The IEEE-754 bit pattern of the 64-bit real with a 32-bit integer's
/// exact value.
pub open spec fn real_bits_of_i32(v: i32) -> u64 {
    if v == 0 {
        0u64
    } else if v > 0 {
        bits_of_mag(v as nat, INTEGER_EXPONENT as nat)
    } else {
        0x8000_0000_0000_0000u64 | bits_of_mag((-(v as int)) as nat, INTEGER_EXPONENT as nat)
    }
}

/// Halve the mantissa s times; `None` as soon as a set bit would fall off:
/// the value m * 2^(-s) is an integer exactly when this yields `Some`.
pub open spec fn unshift(m: nat, s: nat) -> Option<nat>
    decreases s,
{
    if s == 0 {
        Some(m)
    } else if m % 2 != 0 {
        None
    } else {
        unshift(m / 2, (s - 1) as nat)
    }
}

/// The 32-bit integer that a real bit pattern denotes exactly, if any:
/// `None` for fractions, for magnitudes outside the 32-bit range, for
/// subnormals other than zero, and for infinities and NaNs.
pub open spec fn i32_of_real_bits(b: u64) -> Option<i32> {
    let sign = b >> 63;
    let babs = b & 0x7FFF_FFFF_FFFF_FFFF;
    let e = babs >> 52;
    let frac = babs & 0xF_FFFF_FFFF_FFFF;
    if babs == 0 {
        Some(0i32)
    } else if e < 1023 || e > 1054 {
        None
    } else {
        match unshift((frac + HIDDEN_BIT) as nat, (INTEGER_EXPONENT - e) as nat) {
            Option::None => None,
            Option::Some(mag) => if sign == 0 {
                if mag <= 0x7FFF_FFFF {
                    Some(mag as i32)
                } else {
                    None
                }
            } else {
                if mag <= 0x8000_0000 {
                    Some((-(mag as int)) as i32)
                } else {
                    None
                }
            },
        }
    }
}

/// Build the bit pattern of the real with a 32-bit integer's exact value.
#[verifier::loop_isolation(false)]
pub fn real_bits_from_i32(v: i32) -> (r: u64)
    ensures
        r == real_bits_of_i32(v),
{
    if v == 0 {
        return 0;
    }
    let mut m: u64 = if v > 0 {
        v as u64
    } else {
        (-(v as i64)) as u64
    };
    let ghost m0: nat = m as nat;
    let mut e: u64 = INTEGER_EXPONENT;
    proof {
        lemma2_to64();
        lemma2_to64_rest();
        assert((INTEGER_EXPONENT - e) as nat == 0);
        assert(pow2(0) == 1);
        assert(pow2((INTEGER_EXPONENT - e) as nat) * m0 == m as nat) by (nonlinear_arith)
            requires
                pow2((INTEGER_EXPONENT - e) as nat) == 1,
                m0 == m as nat,
        ;
    }
    while m < HIDDEN_BIT
        invariant
            1 <= m,
            m < 0x20_0000_0000_0000,
            e <= INTEGER_EXPONENT,
            pow2((INTEGER_EXPONENT - e) as nat) * m0 == m as nat,
            normalize(m as nat, e as nat) == normalize(m0, INTEGER_EXPONENT as nat),
        decreases e,
    {
        proof {
            // e stays clear of zero: the doublings needed from m0 >= 1 run
            // out long before the exponent does.
            lemma_pow2_adds((INTEGER_EXPONENT - e) as nat, 0);
            assert(pow2((INTEGER_EXPONENT - e) as nat) <= pow2((INTEGER_EXPONENT - e) as nat)
                * m0) by (nonlinear_arith)
                requires
                    m0 >= 1,
                    pow2((INTEGER_EXPONENT - e) as nat) >= 1,
            ;
            if (INTEGER_EXPONENT - e) as nat >= 52 {
                if (INTEGER_EXPONENT - e) as nat > 52 {
                    lemma_pow2_strictly_increases(52, (INTEGER_EXPONENT - e) as nat);
                }
                assert(pow2(52) <= pow2((INTEGER_EXPONENT - e) as nat));
                assert(false);
            }
            lemma_pow2_adds((INTEGER_EXPONENT - e) as nat, 1);
            assert(pow2(1) == 2);
        }
        m = m * 2;
        e = e - 1;
        proof {
            assert(pow2((INTEGER_EXPONENT - e) as nat) * m0 == m as nat) by (nonlinear_arith)
                requires
                    pow2((INTEGER_EXPONENT - e) as nat) == 2 * pow2(
                        (INTEGER_EXPONENT - (e + 1)) as nat,
                    ),
                    pow2((INTEGER_EXPONENT - (e + 1)) as nat) * m0 == (m as nat) / 2,
                    m as nat % 2 == 0,
            ;
        }
    }
    let core = ((e << 52) | (m - HIDDEN_BIT));
    if v > 0 {
        core
    } else {
        0x8000_0000_0000_0000u64 | core
    }
}

/// Read back the exact 32-bit integer a bit pattern denotes, if any.
#[verifier::loop_isolation(false)]
pub fn i32_from_real_bits(b: u64) -> (r: Option<i32>)
    ensures
        r == i32_of_real_bits(b),
{
    let sign = b >> 63;
    let babs = b & 0x7FFF_FFFF_FFFF_FFFF;
    if babs == 0 {
        return Some(0);
    }
    let e = babs >> 52;
    let frac = babs & 0xF_FFFF_FFFF_FFFF;
    if e < 1023 || e > 1054 {
        return None;
    }
    proof {
        assert((b & 0x7FFF_FFFF_FFFF_FFFF) & 0xF_FFFF_FFFF_FFFF < 0x10_0000_0000_0000u64)
            by (bit_vector);
    }
    let mut m: u64 = frac + HIDDEN_BIT;
    let mut s: u64 = INTEGER_EXPONENT - e;
    let ghost m0: nat = m as nat;
    let ghost s0: nat = s as nat;
    while s > 0
        invariant
            unshift(m as nat, s as nat) == unshift(m0, s0),
            m <= 0x1F_FFFF_FFFF_FFFF,
        decreases s,
    {
        if m % 2 == 1 {
            return None;
        }
        m = m / 2;
        s = s - 1;
    }
    let mag = m;
    if sign == 0 {
        if mag <= 0x7FFF_FFFF {
            Some(mag as i32)
        } else {
            None
        }
    } else {
        if mag < 0x8000_0000 {
            Some(-(mag as i32))
        } else if mag == 0x8000_0000 {
            Some(i32::MIN)
        } else {
            None
        }
    }
}

/// Halving s times undoes multiplying by two to the s, with every
/// intermediate mantissa even.
proof fn lemma_unshift_mul(mag: nat, t: nat)
    ensures
        unshift(mag * pow2(t), t) == Some(mag),
    decreases t,
{
    lemma2_to64();
    if t == 0 {
        assert(mag * pow2(0) == mag) by (nonlinear_arith)
            requires
                pow2(0) == 1,
        ;
    } else {
        lemma_pow2_adds((t - 1) as nat, 1);
        let half = mag * pow2((t - 1) as nat);
        assert(mag * pow2(t) == half * 2) by (nonlinear_arith)
            requires
                pow2(t) == pow2((t - 1) as nat) * 2,
                half == mag * pow2((t - 1) as nat),
        ;
        assert((half * 2) % 2 == 0) by (nonlinear_arith);
        assert((half * 2) / 2 == half) by (nonlinear_arith);
        lemma_unshift_mul(mag, (t - 1) as nat);
    }
}

/// Normalization from a mantissa that needs at most k doublings lands in
/// the 53-bit window, with the exponent recording exactly the doublings.
proof fn lemma_normalize_reaches(m: nat, e: nat, k: nat)
    requires
        1 <= m,
        m < pow2(53),
        pow2(52) <= m * pow2(k),
        k <= e,
    ensures
        ({
            let pair = normalize(m, e);
            &&& pow2(52) <= pair.0 < pow2(53)
            &&& pair.1 <= e
            &&& e - pair.1 <= k
            &&& pair.0 == m * pow2((e - pair.1) as nat)
        }),
    decreases k,
{
    lemma2_to64();
    lemma2_to64_rest();
    if m >= HIDDEN_BIT {
        assert(m * pow2(0) == m) by (nonlinear_arith)
            requires
                pow2(0) == 1,
        ;
    } else {
        if k == 0 {
            assert(m * pow2(0) == m) by (nonlinear_arith)
                requires
                    pow2(0) == 1,
            ;
            assert(false);
        }
        lemma_pow2_adds((k - 1) as nat, 1);
        assert((m * 2) * pow2((k - 1) as nat) == m * pow2(k)) by (nonlinear_arith)
            requires
                pow2(k) == pow2((k - 1) as nat) * 2,
        ;
        lemma_normalize_reaches(m * 2, (e - 1) as nat, (k - 1) as nat);
        let pair = normalize(m * 2, (e - 1) as nat);
        assert(normalize(m, e) == pair);
        lemma_pow2_adds((e - 1 - pair.1) as nat, 1);
        assert((m * 2) * pow2((e - 1 - pair.1) as nat) == m * pow2((e - pair.1) as nat))
            by (nonlinear_arith)
            requires
                pow2((e - pair.1) as nat) == pow2((e - 1 - pair.1) as nat) * 2,
                e - pair.1 >= 1,
        ;
    }
}

/// Converting a 32-bit integer to its exact real bit pattern and reading it
/// back yields the integer again, for every 32-bit integer.
pub proof fn lemma_real_bits_i32_round_trip(v: i32)
    ensures
        i32_of_real_bits(real_bits_of_i32(v)) == Some(v),
{
    lemma2_to64();
    lemma2_to64_rest();
    if v == 0 {
        assert(0u64 >> 63 == 0 && 0u64 & 0x7FFF_FFFF_FFFF_FFFF == 0) by (bit_vector);
    } else {
        let mag: nat = if v > 0 {
            v as nat
        } else {
            (-(v as int)) as nat
        };
        assert(1 <= mag && mag <= 0x8000_0000);
        assert(pow2(52) <= mag * pow2(52)) by (nonlinear_arith)
            requires
                mag >= 1,
                pow2(52) >= 1,
        ;
        lemma_normalize_reaches(mag, INTEGER_EXPONENT as nat, 52);
        let pair = normalize(mag, INTEGER_EXPONENT as nat);
        let mn = pair.0;
        let en = pair.1;
        let t: nat = (INTEGER_EXPONENT - en) as nat;
        assert(mag * pow2(t) <= pow2(31) * pow2(t)) by (nonlinear_arith)
            requires
                mag <= pow2(31),
                pow2(t) >= 1,
        ;
        lemma_pow2_adds(31, t);
        if 31 + t < 52 {
            lemma_pow2_strictly_increases((31 + t) as nat, 52);
            assert(false);
        }
        assert(en <= 1054);
        assert(1023 <= en);
        let eu: u64 = en as u64;
        let fu: u64 = (mn - HIDDEN_BIT) as u64;
        let c: u64 = (eu << 52) | fu;
        assert(((eu << 52) | fu) >> 63 == 0 && ((eu << 52) | fu) & 0x7FFF_FFFF_FFFF_FFFF == ((eu
            << 52) | fu) && (((eu << 52) | fu) >> 52) == eu && ((eu << 52) | fu)
            & 0xF_FFFF_FFFF_FFFF == fu && ((eu << 52) | fu) != 0 && ((eu << 52) | fu)
            < 0x8000_0000_0000_0000) by (bit_vector)
            requires
                1023 <= eu <= 1054,
                fu < 0x10_0000_0000_0000u64,
        ;
        assert((fu + HIDDEN_BIT) as nat == mn);
        lemma_unshift_mul(mag, t);
        assert(unshift(mn, t) == Some(mag));
        if v > 0 {
            assert(real_bits_of_i32(v) == c);
            assert(i32_of_real_bits(c) == Some(v));
        } else {
            let b: u64 = 0x8000_0000_0000_0000u64 | c;
            assert((0x8000_0000_0000_0000u64 | c) >> 63 == 1 && (0x8000_0000_0000_0000u64 | c)
                & 0x7FFF_FFFF_FFFF_FFFF == c) by (bit_vector)
                requires
                    c < 0x8000_0000_0000_0000u64,
            ;
            assert(real_bits_of_i32(v) == b);
            assert(i32_of_real_bits(b) == Some(v));
        }
    }
}

/// Whether a 32-bit float pattern is a normal number or a signed zero:
/// no subnormals, infinities or NaNs.
pub open spec fn f32_normal_or_zero(x: u32) -> bool {
    let e = (x >> 23) & 0xFF;
    let m = x & 0x7F_FFFF;
    (e == 0 ==> m == 0) && e != 0xFF
}

/// Check a 32-bit float pattern for being normal or a signed zero.
pub fn is_f32_normal_or_zero(x: u32) -> (r: bool)
    ensures
        r == f32_normal_or_zero(x),
{
    let e = (x >> 23) & 0xFF;
    let m = x & 0x7F_FFFF;
    (e != 0 || m == 0) && e != 0xFF
}

/// The 64-bit pattern denoting the same real as a normal-or-zero 32-bit
/// pattern: sign kept, exponent rebiased from 127 to 1023, mantissa widened.
pub open spec fn f64_bits_of_f32_bits(x: u32) -> u64 {
    let s = (x >> 31) as u64;
    let e = ((x >> 23) & 0xFF) as u64;
    let m = (x & 0x7F_FFFF) as u64;
    if e == 0 {
        s << 63
    } else {
        (s << 63) | (((e + 896) as u64) << 52) | (m << 29)
    }
}

/// Whether a 64-bit pattern denotes a real that the 32-bit format holds
/// exactly as a normal number or zero.
pub open spec fn f32_exact(b: u64) -> bool {
    let e = (b >> 52) & 0x7FF;
    let m = b & 0xF_FFFF_FFFF_FFFF;
    (e == 0 && m == 0) || (897 <= e && e <= 1150 && m & 0x1FFF_FFFF == 0)
}

/// The 32-bit pattern of an exactly representable 64-bit pattern.
pub open spec fn f32_bits_of_f64_bits(b: u64) -> u32 {
    let s = (b >> 63) as u32;
    let e = (b >> 52) & 0x7FF;
    let m29 = ((b & 0xF_FFFF_FFFF_FFFF) >> 29) as u32;
    if e == 0 {
        s << 31
    } else {
        (s << 31) | ((((e - 896) as u32)) << 23) | m29
    }
}

/// Widen a normal-or-zero 32-bit float pattern to the 64-bit pattern of the
/// same real.
pub fn f32_bits_to_f64_bits(x: u32) -> (r: u64)
    requires
        f32_normal_or_zero(x),
    ensures
        r == f64_bits_of_f32_bits(x),
{
    let s = ((x >> 31) as u64);
    let e = (((x >> 23) & 0xFF) as u64);
    let m = ((x & 0x7F_FFFF) as u64);
    if e == 0 {
        s << 63
    } else {
        (s << 63) | ((e + 896) << 52) | (m << 29)
    }
}

/// Narrow a 64-bit pattern to the 32-bit pattern of the same real, exactly
/// or not at all.
pub fn f32_bits_from_f64_bits(b: u64) -> (r: Option<u32>)
    ensures
        r == if f32_exact(b) {
            Option::Some(f32_bits_of_f64_bits(b))
        } else {
            Option::<u32>::None
        },
{
    let s = ((b >> 63) as u32);
    let e = (b >> 52) & 0x7FF;
    let m = b & 0xF_FFFF_FFFF_FFFF;
    if e == 0 && m == 0 {
        Some(s << 31)
    } else if 897 <= e && e <= 1150 && m & 0x1FFF_FFFF == 0 {
        proof {
            assert((b & 0xF_FFFF_FFFF_FFFF) >> 29 <= 0x7F_FFFF) by (bit_vector);
        }
        let m29 = ((m >> 29) as u32);
        let eu = ((e - 896) as u32);
        Some((s << 31) | (eu << 23) | m29)
    } else {
        None
    }
}

/// A normal-or-zero 32-bit float pattern survives widening to the 64-bit
/// format and narrowing back unchanged, and the widened pattern is
/// recognized as exactly representable.
pub proof fn lemma_f32_bits_round_trip(x: u32)
    requires
        f32_normal_or_zero(x),
    ensures
        f32_exact(f64_bits_of_f32_bits(x)),
        f32_bits_of_f64_bits(f64_bits_of_f32_bits(x)) == x,
{
    assert(f32_exact(f64_bits_of_f32_bits(x)) && f32_bits_of_f64_bits(f64_bits_of_f32_bits(x))
        == x) by (bit_vector)
        requires
            f32_normal_or_zero(x),
    ;
}

} // verus!
