//! Bit-level floating-point structure: NaN-boxing, classification,
//! comparison, minimum/maximum and sign injection.
//!
//! A floating-point register holds 64 bits of IEEE-754 payload as a plain
//! pattern. A 32-bit value lives in a 64-bit register NaN-boxed: the upper
//! 32 bits are all ones, so the wide view is a quiet NaN. Everything here
//! is integer logic on patterns; only rounding arithmetic goes through the
//! softfloat wrappers.
use vstd::prelude::*;

verus! {

/// The canonical double-precision quiet NaN.
pub const CANON_NAN64: u64 = 0x7FF8_0000_0000_0000;

/// The canonical single-precision quiet NaN, as a 32-bit pattern.
pub const CANON_NAN32: u64 = 0x7FC0_0000;

/// Whether a 64-bit pattern is a NaN: all exponent bits set and a nonzero
/// fraction.
pub open spec fn is_nan64(v: u64) -> bool {
    (v as int / 0x10_0000_0000_0000) % 0x800 == 0x7FF && v as int % 0x10_0000_0000_0000 != 0
}

/// Whether the low 32 bits are a NaN pattern.
pub open spec fn is_nan32(v: u64) -> bool {
    (v as int / 0x80_0000) % 0x100 == 0xFF && v as int % 0x80_0000 != 0
}

/// A 32-bit value NaN-boxed into a 64-bit register.
pub open spec fn nan_box32(v: u64) -> u64 {
    (0xFFFF_FFFF_0000_0000 + v % 0x1_0000_0000) as u64
}

/// The 32-bit value a register holds: its low half when properly boxed,
/// the canonical NaN otherwise.
pub open spec fn unbox32(v: u64) -> u64 {
    if v as int / 0x1_0000_0000 == 0xFFFF_FFFF {
        v % 0x1_0000_0000
    } else {
        CANON_NAN32
    }
}

/// The sign bit of a 64-bit pattern.
pub open spec fn sign64(v: u64) -> int {
    v as int / 0x8000_0000_0000_0000
}

/// The sign bit of a 32-bit pattern.
pub open spec fn sign32(v: u64) -> int {
    (v as int / 0x8000_0000) % 2
}

/// The IEEE ordering key of a 64-bit pattern: sign-magnitude read as an
/// integer, so that both zeros map to zero.
pub open spec fn num64(v: u64) -> int {
    if v < 0x8000_0000_0000_0000 {
        v as int
    } else {
        -(v - 0x8000_0000_0000_0000)
    }
}

/// The IEEE ordering key of the low 32 bits.
pub open spec fn num32(v: u64) -> int {
    let w = v as int % 0x1_0000_0000;
    if w < 0x8000_0000 {
        w
    } else {
        -(w - 0x8000_0000)
    }
}

/// The FEQ relation on 64-bit patterns: quiet equality, zeros of either
/// sign equal, NaN unequal to everything.
pub open spec fn feq64(a: u64, b: u64) -> bool {
    !is_nan64(a) && !is_nan64(b) && num64(a) == num64(b)
}

/// The FLT relation on 64-bit patterns.
pub open spec fn flt64(a: u64, b: u64) -> bool {
    !is_nan64(a) && !is_nan64(b) && num64(a) < num64(b)
}

/// The FLE relation on 64-bit patterns.
pub open spec fn fle64(a: u64, b: u64) -> bool {
    !is_nan64(a) && !is_nan64(b) && num64(a) <= num64(b)
}

/// The FEQ relation on 32-bit patterns.
pub open spec fn feq32(a: u64, b: u64) -> bool {
    !is_nan32(a) && !is_nan32(b) && num32(a) == num32(b)
}

/// The FLT relation on 32-bit patterns.
pub open spec fn flt32(a: u64, b: u64) -> bool {
    !is_nan32(a) && !is_nan32(b) && num32(a) < num32(b)
}

/// The FLE relation on 32-bit patterns.
pub open spec fn fle32(a: u64, b: u64) -> bool {
    !is_nan32(a) && !is_nan32(b) && num32(a) <= num32(b)
}

/// The FMIN result on 64-bit patterns: the non-NaN operand when exactly
/// one is NaN, the canonical quiet NaN when both are, and the negative
/// zero when the operands compare equal.
pub open spec fn fmin64(a: u64, b: u64) -> u64 {
    if is_nan64(a) && is_nan64(b) {
        CANON_NAN64
    } else if is_nan64(a) {
        b
    } else if is_nan64(b) {
        a
    } else if num64(a) < num64(b) {
        a
    } else if num64(b) < num64(a) {
        b
    } else if sign64(a) == 1 {
        a
    } else {
        b
    }
}

/// The FMAX result on 64-bit patterns.
pub open spec fn fmax64(a: u64, b: u64) -> u64 {
    if is_nan64(a) && is_nan64(b) {
        CANON_NAN64
    } else if is_nan64(a) {
        b
    } else if is_nan64(b) {
        a
    } else if num64(a) > num64(b) {
        a
    } else if num64(b) > num64(a) {
        b
    } else if sign64(a) == 0 {
        a
    } else {
        b
    }
}

/// The FMIN result on 32-bit patterns.
pub open spec fn fmin32(a: u64, b: u64) -> u64 {
    if is_nan32(a) && is_nan32(b) {
        CANON_NAN32
    } else if is_nan32(a) {
        b % 0x1_0000_0000
    } else if is_nan32(b) {
        a % 0x1_0000_0000
    } else if num32(a) < num32(b) {
        a % 0x1_0000_0000
    } else if num32(b) < num32(a) {
        b % 0x1_0000_0000
    } else if sign32(a) == 1 {
        a % 0x1_0000_0000
    } else {
        b % 0x1_0000_0000
    }
}

/// The FMAX result on 32-bit patterns.
pub open spec fn fmax32(a: u64, b: u64) -> u64 {
    if is_nan32(a) && is_nan32(b) {
        CANON_NAN32
    } else if is_nan32(a) {
        b % 0x1_0000_0000
    } else if is_nan32(b) {
        a % 0x1_0000_0000
    } else if num32(a) > num32(b) {
        a % 0x1_0000_0000
    } else if num32(b) > num32(a) {
        b % 0x1_0000_0000
    } else if sign32(a) == 0 {
        a % 0x1_0000_0000
    } else {
        b % 0x1_0000_0000
    }
}

/// The magnitude of `a` with the sign of `b`, at 64 bits.
pub open spec fn sgnj64(a: u64, b: u64) -> u64 {
    (a as int % 0x8000_0000_0000_0000 + (b as int / 0x8000_0000_0000_0000)
        * 0x8000_0000_0000_0000) as u64
}

/// The magnitude of `a` with the negated sign of `b`, at 64 bits.
pub open spec fn sgnjn64(a: u64, b: u64) -> u64 {
    (a as int % 0x8000_0000_0000_0000 + (1 - b as int / 0x8000_0000_0000_0000)
        * 0x8000_0000_0000_0000) as u64
}

/// The magnitude of `a` with the exclusive-or of both signs, at 64 bits.
pub open spec fn sgnjx64(a: u64, b: u64) -> u64 {
    (a as int % 0x8000_0000_0000_0000 + ((a as int / 0x8000_0000_0000_0000 + b as int
        / 0x8000_0000_0000_0000) % 2) * 0x8000_0000_0000_0000) as u64
}

/// The magnitude of `a` with the sign of `b`, on 32-bit patterns.
pub open spec fn sgnj32(a: u64, b: u64) -> u64 {
    (a as int % 0x1_0000_0000 % 0x8000_0000 + ((b as int % 0x1_0000_0000) / 0x8000_0000)
        * 0x8000_0000) as u64
}

/// The magnitude of `a` with the negated sign of `b`, on 32-bit patterns.
pub open spec fn sgnjn32(a: u64, b: u64) -> u64 {
    (a as int % 0x1_0000_0000 % 0x8000_0000 + (1 - (b as int % 0x1_0000_0000) / 0x8000_0000)
        * 0x8000_0000) as u64
}

/// The magnitude of `a` with the exclusive-or of both signs, on 32-bit
/// patterns.
pub open spec fn sgnjx32(a: u64, b: u64) -> u64 {
    (a as int % 0x1_0000_0000 % 0x8000_0000 + (((a as int % 0x1_0000_0000) / 0x8000_0000 + (b as int
        % 0x1_0000_0000) / 0x8000_0000) % 2) * 0x8000_0000) as u64
}

/// The ten-bit one-hot FCLASS mask of a 64-bit pattern.
pub open spec fn fclass64(v: u64) -> u64 {
    let sign = v as int / 0x8000_0000_0000_0000;
    let exp = (v as int / 0x10_0000_0000_0000) % 0x800;
    let frac = v as int % 0x10_0000_0000_0000;
    if exp == 0x7FF && frac == 0 {
        if sign == 1 {
            1
        } else {
            0x80
        }
    } else if exp == 0x7FF {
        if frac / 0x8_0000_0000_0000 == 1 {
            0x200
        } else {
            0x100
        }
    } else if exp == 0 && frac == 0 {
        if sign == 1 {
            8
        } else {
            0x10
        }
    } else if exp == 0 {
        if sign == 1 {
            4
        } else {
            0x20
        }
    } else {
        if sign == 1 {
            2
        } else {
            0x40
        }
    }
}

/// The ten-bit one-hot FCLASS mask of a 32-bit pattern.
pub open spec fn fclass32(v: u64) -> u64 {
    let w = v as int % 0x1_0000_0000;
    let sign = w / 0x8000_0000;
    let exp = (w / 0x80_0000) % 0x100;
    let frac = w % 0x80_0000;
    if exp == 0xFF && frac == 0 {
        if sign == 1 {
            1
        } else {
            0x80
        }
    } else if exp == 0xFF {
        if frac / 0x40_0000 == 1 {
            0x200
        } else {
            0x100
        }
    } else if exp == 0 && frac == 0 {
        if sign == 1 {
            8
        } else {
            0x10
        }
    } else if exp == 0 {
        if sign == 1 {
            4
        } else {
            0x20
        }
    } else {
        if sign == 1 {
            2
        } else {
            0x40
        }
    }
}

/// Whether a 64-bit pattern is a NaN.
pub fn nan64(v: u64) -> (r: bool)
    ensures
        r == is_nan64(v),
{
    (v / 0x10_0000_0000_0000) % 0x800 == 0x7FF && v % 0x10_0000_0000_0000 != 0
}

/// Whether the low 32 bits are a NaN pattern.
pub fn nan32(v: u64) -> (r: bool)
    ensures
        r == is_nan32(v),
{
    (v / 0x80_0000) % 0x100 == 0xFF && v % 0x80_0000 != 0
}

/// NaN-boxes a 32-bit value into a register pattern.
pub fn box32(v: u64) -> (r: u64)
    ensures
        r == nan_box32(v),
{
    0xFFFF_FFFF_0000_0000 + v % 0x1_0000_0000
}

/// Recovers the 32-bit value a register holds.
pub fn unbox(v: u64) -> (r: u64)
    ensures
        r == unbox32(v),
{
    if v / 0x1_0000_0000 == 0xFFFF_FFFF {
        v % 0x1_0000_0000
    } else {
        CANON_NAN32
    }
}

/// The IEEE ordering comparison on 64-bit patterns, ignoring NaN.
fn num64_lt(a: u64, b: u64) -> (r: bool)
    ensures
        r == (num64(a) < num64(b)),
{
    let an = a >= 0x8000_0000_0000_0000;
    let bn = b >= 0x8000_0000_0000_0000;
    if an && !bn {
        // negative below positive, except that the two zeros are equal
        !(a == 0x8000_0000_0000_0000 && b == 0)
    } else if !an && bn {
        false
    } else if an {
        b < a
    } else {
        a < b
    }
}

/// The IEEE ordering comparison on 32-bit patterns, ignoring NaN.
fn num32_lt(a: u64, b: u64) -> (r: bool)
    ensures
        r == (num32(a) < num32(b)),
{
    let aw = a % 0x1_0000_0000;
    let bw = b % 0x1_0000_0000;
    let an = aw >= 0x8000_0000;
    let bn = bw >= 0x8000_0000;
    if an && !bn {
        // negative below positive, except that the two zeros are equal
        !(aw == 0x8000_0000 && bw == 0)
    } else if !an && bn {
        false
    } else if an {
        bw < aw
    } else {
        aw < bw
    }
}

/// FEQ on 64-bit patterns.
pub fn feq64x(a: u64, b: u64) -> (r: bool)
    ensures
        r == feq64(a, b),
{
    !nan64(a) && !nan64(b) && !num64_lt(a, b) && !num64_lt(b, a)
}

/// FLT on 64-bit patterns.
pub fn flt64x(a: u64, b: u64) -> (r: bool)
    ensures
        r == flt64(a, b),
{
    !nan64(a) && !nan64(b) && num64_lt(a, b)
}

/// FLE on 64-bit patterns.
pub fn fle64x(a: u64, b: u64) -> (r: bool)
    ensures
        r == fle64(a, b),
{
    !nan64(a) && !nan64(b) && !num64_lt(b, a)
}

/// FEQ on 32-bit patterns.
pub fn feq32x(a: u64, b: u64) -> (r: bool)
    ensures
        r == feq32(a, b),
{
    !nan32(a) && !nan32(b) && !num32_lt(a, b) && !num32_lt(b, a)
}

/// FLT on 32-bit patterns.
pub fn flt32x(a: u64, b: u64) -> (r: bool)
    ensures
        r == flt32(a, b),
{
    !nan32(a) && !nan32(b) && num32_lt(a, b)
}

/// FLE on 32-bit patterns.
pub fn fle32x(a: u64, b: u64) -> (r: bool)
    ensures
        r == fle32(a, b),
{
    !nan32(a) && !nan32(b) && !num32_lt(b, a)
}

/// FMIN on 64-bit patterns.
pub fn fmin64x(a: u64, b: u64) -> (r: u64)
    ensures
        r == fmin64(a, b),
{
    if nan64(a) && nan64(b) {
        CANON_NAN64
    } else if nan64(a) {
        b
    } else if nan64(b) {
        a
    } else if num64_lt(a, b) {
        a
    } else if num64_lt(b, a) {
        b
    } else if a >= 0x8000_0000_0000_0000 {
        a
    } else {
        b
    }
}

/// FMAX on 64-bit patterns.
pub fn fmax64x(a: u64, b: u64) -> (r: u64)
    ensures
        r == fmax64(a, b),
{
    if nan64(a) && nan64(b) {
        CANON_NAN64
    } else if nan64(a) {
        b
    } else if nan64(b) {
        a
    } else if num64_lt(b, a) {
        a
    } else if num64_lt(a, b) {
        b
    } else if a < 0x8000_0000_0000_0000 {
        a
    } else {
        b
    }
}

/// FMIN on 32-bit patterns.
pub fn fmin32x(a: u64, b: u64) -> (r: u64)
    ensures
        r == fmin32(a, b),
{
    if nan32(a) && nan32(b) {
        CANON_NAN32
    } else if nan32(a) {
        b % 0x1_0000_0000
    } else if nan32(b) {
        a % 0x1_0000_0000
    } else if num32_lt(a, b) {
        a % 0x1_0000_0000
    } else if num32_lt(b, a) {
        b % 0x1_0000_0000
    } else if a % 0x1_0000_0000 >= 0x8000_0000 {
        a % 0x1_0000_0000
    } else {
        b % 0x1_0000_0000
    }
}

/// FMAX on 32-bit patterns.
pub fn fmax32x(a: u64, b: u64) -> (r: u64)
    ensures
        r == fmax32(a, b),
{
    if nan32(a) && nan32(b) {
        CANON_NAN32
    } else if nan32(a) {
        b % 0x1_0000_0000
    } else if nan32(b) {
        a % 0x1_0000_0000
    } else if num32_lt(b, a) {
        a % 0x1_0000_0000
    } else if num32_lt(a, b) {
        b % 0x1_0000_0000
    } else if a % 0x1_0000_0000 < 0x8000_0000 {
        a % 0x1_0000_0000
    } else {
        b % 0x1_0000_0000
    }
}

/// Sign injection at 64 bits.
pub fn sgnj64x(a: u64, b: u64) -> (r: u64)
    ensures
        r == sgnj64(a, b),
{
    a % 0x8000_0000_0000_0000 + (b / 0x8000_0000_0000_0000) * 0x8000_0000_0000_0000
}

/// Negated sign injection at 64 bits.
pub fn sgnjn64x(a: u64, b: u64) -> (r: u64)
    ensures
        r == sgnjn64(a, b),
{
    a % 0x8000_0000_0000_0000 + (1 - b / 0x8000_0000_0000_0000) * 0x8000_0000_0000_0000
}

/// Exclusive-or sign injection at 64 bits.
pub fn sgnjx64x(a: u64, b: u64) -> (r: u64)
    ensures
        r == sgnjx64(a, b),
{
    a % 0x8000_0000_0000_0000 + ((a / 0x8000_0000_0000_0000 + b / 0x8000_0000_0000_0000) % 2)
        * 0x8000_0000_0000_0000
}

/// Sign injection on 32-bit patterns.
pub fn sgnj32x(a: u64, b: u64) -> (r: u64)
    ensures
        r == sgnj32(a, b),
{
    a % 0x1_0000_0000 % 0x8000_0000 + ((b % 0x1_0000_0000) / 0x8000_0000) * 0x8000_0000
}

/// Negated sign injection on 32-bit patterns.
pub fn sgnjn32x(a: u64, b: u64) -> (r: u64)
    ensures
        r == sgnjn32(a, b),
{
    a % 0x1_0000_0000 % 0x8000_0000 + (1 - (b % 0x1_0000_0000) / 0x8000_0000) * 0x8000_0000
}

/// Exclusive-or sign injection on 32-bit patterns.
pub fn sgnjx32x(a: u64, b: u64) -> (r: u64)
    ensures
        r == sgnjx32(a, b),
{
    a % 0x1_0000_0000 % 0x8000_0000 + (((a % 0x1_0000_0000) / 0x8000_0000 + (b % 0x1_0000_0000)
        / 0x8000_0000) % 2) * 0x8000_0000
}

/// FCLASS of a 64-bit pattern.
pub fn fclass64x(v: u64) -> (r: u64)
    ensures
        r == fclass64(v),
{
    let sign = v / 0x8000_0000_0000_0000;
    let exp = (v / 0x10_0000_0000_0000) % 0x800;
    let frac = v % 0x10_0000_0000_0000;
    if exp == 0x7FF && frac == 0 {
        if sign == 1 {
            1
        } else {
            0x80
        }
    } else if exp == 0x7FF {
        if frac / 0x8_0000_0000_0000 == 1 {
            0x200
        } else {
            0x100
        }
    } else if exp == 0 && frac == 0 {
        if sign == 1 {
            8
        } else {
            0x10
        }
    } else if exp == 0 {
        if sign == 1 {
            4
        } else {
            0x20
        }
    } else {
        if sign == 1 {
            2
        } else {
            0x40
        }
    }
}

/// FCLASS of a 32-bit pattern.
pub fn fclass32x(v: u64) -> (r: u64)
    ensures
        r == fclass32(v),
{
    let w = v % 0x1_0000_0000;
    let sign = w / 0x8000_0000;
    let exp = (w / 0x80_0000) % 0x100;
    let frac = w % 0x80_0000;
    if exp == 0xFF && frac == 0 {
        if sign == 1 {
            1
        } else {
            0x80
        }
    } else if exp == 0xFF {
        if frac / 0x40_0000 == 1 {
            0x200
        } else {
            0x100
        }
    } else if exp == 0 && frac == 0 {
        if sign == 1 {
            8
        } else {
            0x10
        }
    } else if exp == 0 {
        if sign == 1 {
            4
        } else {
            0x20
        }
    } else {
        if sign == 1 {
            2
        } else {
            0x40
        }
    }
}

} // verus!
