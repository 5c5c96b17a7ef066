//! Trusted softfloat wrappers: the IEEE-754 rounding arithmetic that the
//! floating-point instructions need, performed on bit patterns.
//!
//! Each operation's result is a pure function of its operand patterns and
//! the rounding mode, so it is given a name — an uninterpreted spec
//! function — and the wrapper promises to return that name's value. The
//! engine handles NaN operands and canonicalizes NaN results itself, in
//! verified code, so nothing here states more than determinism.
//!
//! Rounding modes are numbered as the instruction `rm` field: 0 nearest
//! ties-to-even, 1 toward zero, 2 toward negative, 3 toward positive,
//! 4 nearest ties-away.
use vstd::prelude::*;

use rustc_apfloat::Float;
use rustc_apfloat::FloatConvert;
use rustc_apfloat::ieee::{Double, Single};

verus! {

/// The rounding-direction value of rustc_apfloat, declared so that the
/// mode can be passed between the wrappers.
#[verifier::external_type_specification]
#[verifier::external_body]
pub struct ExRound(rustc_apfloat::Round);

/// Relies on rustc_apfloat's Round: the five IEEE-754 rounding directions,
/// here selected by the instruction's rm number.
#[verifier::external_body]
fn to_round(rm: u8) -> rustc_apfloat::Round {
    match rm {
        1 => rustc_apfloat::Round::TowardZero,
        2 => rustc_apfloat::Round::TowardNegative,
        3 => rustc_apfloat::Round::TowardPositive,
        4 => rustc_apfloat::Round::NearestTiesToAway,
        _ => rustc_apfloat::Round::NearestTiesToEven,
    }
}

/// The double-precision sum of two patterns under a rounding mode.
pub uninterp spec fn fadd64_bits(a: u64, b: u64, rm: u8) -> u64;

/// The double-precision difference of two patterns under a rounding mode.
pub uninterp spec fn fsub64_bits(a: u64, b: u64, rm: u8) -> u64;

/// The double-precision product of two patterns under a rounding mode.
pub uninterp spec fn fmul64_bits(a: u64, b: u64, rm: u8) -> u64;

/// The double-precision quotient of two patterns under a rounding mode.
pub uninterp spec fn fdiv64_bits(a: u64, b: u64, rm: u8) -> u64;

/// The double-precision fused multiply-add of three patterns: a * b + c
/// with one rounding.
pub uninterp spec fn fma64_bits(a: u64, b: u64, c: u64, rm: u8) -> u64;

/// The double-precision square root of a pattern under a rounding mode.
pub uninterp spec fn fsqrt64_bits(a: u64, rm: u8) -> u64;

/// The single-precision sum of two patterns under a rounding mode.
pub uninterp spec fn fadd32_bits(a: u64, b: u64, rm: u8) -> u64;

/// The single-precision difference of two patterns under a rounding mode.
pub uninterp spec fn fsub32_bits(a: u64, b: u64, rm: u8) -> u64;

/// The single-precision product of two patterns under a rounding mode.
pub uninterp spec fn fmul32_bits(a: u64, b: u64, rm: u8) -> u64;

/// The single-precision quotient of two patterns under a rounding mode.
pub uninterp spec fn fdiv32_bits(a: u64, b: u64, rm: u8) -> u64;

/// The single-precision fused multiply-add of three patterns.
pub uninterp spec fn fma32_bits(a: u64, b: u64, c: u64, rm: u8) -> u64;

/// The single-precision square root of a pattern under a rounding mode.
pub uninterp spec fn fsqrt32_bits(a: u64, rm: u8) -> u64;

/// The single-precision pattern nearest a double-precision one.
pub uninterp spec fn f32_of_f64_bits(a: u64, rm: u8) -> u64;

/// The double-precision pattern of a single-precision one; the conversion
/// is exact.
pub uninterp spec fn f64_of_f32_bits(a: u64) -> u64;

/// The signed integer a double-precision pattern converts to, saturated to
/// `width` bits; NaN input is handled before the call.
pub uninterp spec fn sint_of_f64_bits(a: u64, width: u8, rm: u8) -> i128;

/// The unsigned integer a double-precision pattern converts to, saturated
/// to `width` bits.
pub uninterp spec fn uint_of_f64_bits(a: u64, width: u8, rm: u8) -> u128;

/// The signed integer a single-precision pattern converts to.
pub uninterp spec fn sint_of_f32_bits(a: u64, width: u8, rm: u8) -> i128;

/// The unsigned integer a single-precision pattern converts to.
pub uninterp spec fn uint_of_f32_bits(a: u64, width: u8, rm: u8) -> u128;

/// The double-precision pattern nearest a signed integer.
pub uninterp spec fn f64_of_sint_bits(v: i128, rm: u8) -> u64;

/// The double-precision pattern nearest an unsigned integer.
pub uninterp spec fn f64_of_uint_bits(v: u128, rm: u8) -> u64;

/// The single-precision pattern nearest a signed integer.
pub uninterp spec fn f32_of_sint_bits(v: i128, rm: u8) -> u64;

/// The single-precision pattern nearest an unsigned integer.
pub uninterp spec fn f32_of_uint_bits(v: u128, rm: u8) -> u64;

/// Relies on rustc_apfloat's Double::add_r: IEEE-754 double addition on
/// bit patterns.
#[verifier::external_body]
pub(crate) fn fadd64(a: u64, b: u64, rm: u8) -> (r: u64)
    ensures
        r == fadd64_bits(a, b, rm),
{
    Double::from_bits(a as u128).add_r(Double::from_bits(b as u128), to_round(rm)).value.to_bits()
        as u64
}

/// Relies on rustc_apfloat's Double::sub_r: IEEE-754 double subtraction on
/// bit patterns.
#[verifier::external_body]
pub(crate) fn fsub64(a: u64, b: u64, rm: u8) -> (r: u64)
    ensures
        r == fsub64_bits(a, b, rm),
{
    Double::from_bits(a as u128).sub_r(Double::from_bits(b as u128), to_round(rm)).value.to_bits()
        as u64
}

/// Relies on rustc_apfloat's Double::mul_r: IEEE-754 double multiplication
/// on bit patterns.
#[verifier::external_body]
pub(crate) fn fmul64(a: u64, b: u64, rm: u8) -> (r: u64)
    ensures
        r == fmul64_bits(a, b, rm),
{
    Double::from_bits(a as u128).mul_r(Double::from_bits(b as u128), to_round(rm)).value.to_bits()
        as u64
}

/// Relies on rustc_apfloat's Double::div_r: IEEE-754 double division on
/// bit patterns.
#[verifier::external_body]
pub(crate) fn fdiv64(a: u64, b: u64, rm: u8) -> (r: u64)
    ensures
        r == fdiv64_bits(a, b, rm),
{
    Double::from_bits(a as u128).div_r(Double::from_bits(b as u128), to_round(rm)).value.to_bits()
        as u64
}

/// Relies on rustc_apfloat's Double::mul_add_r: fused multiply-add with a
/// single rounding.
#[verifier::external_body]
pub(crate) fn fma64(a: u64, b: u64, c: u64, rm: u8) -> (r: u64)
    ensures
        r == fma64_bits(a, b, c, rm),
{
    Double::from_bits(a as u128).mul_add_r(
        Double::from_bits(b as u128),
        Double::from_bits(c as u128),
        to_round(rm),
    ).value.to_bits() as u64
}

/// Relies on ieee_apsqrt::sqrt_accurate: a correctly rounded IEEE-754
/// double square root on bit patterns.
#[verifier::external_body]
pub(crate) fn fsqrt64(a: u64, rm: u8) -> (r: u64)
    ensures
        r == fsqrt64_bits(a, rm),
{
    ieee_apsqrt::sqrt_accurate(a, to_round(rm)).0.value
}

/// Relies on rustc_apfloat's Single::add_r: IEEE-754 single addition on
/// bit patterns.
#[verifier::external_body]
pub(crate) fn fadd32(a: u64, b: u64, rm: u8) -> (r: u64)
    ensures
        r == fadd32_bits(a, b, rm),
{
    Single::from_bits((a as u32) as u128).add_r(
        Single::from_bits((b as u32) as u128),
        to_round(rm),
    ).value.to_bits() as u64
}

/// Relies on rustc_apfloat's Single::sub_r: IEEE-754 single subtraction on
/// bit patterns.
#[verifier::external_body]
pub(crate) fn fsub32(a: u64, b: u64, rm: u8) -> (r: u64)
    ensures
        r == fsub32_bits(a, b, rm),
{
    Single::from_bits((a as u32) as u128).sub_r(
        Single::from_bits((b as u32) as u128),
        to_round(rm),
    ).value.to_bits() as u64
}

/// Relies on rustc_apfloat's Single::mul_r: IEEE-754 single multiplication
/// on bit patterns.
#[verifier::external_body]
pub(crate) fn fmul32(a: u64, b: u64, rm: u8) -> (r: u64)
    ensures
        r == fmul32_bits(a, b, rm),
{
    Single::from_bits((a as u32) as u128).mul_r(
        Single::from_bits((b as u32) as u128),
        to_round(rm),
    ).value.to_bits() as u64
}

/// Relies on rustc_apfloat's Single::div_r: IEEE-754 single division on
/// bit patterns.
#[verifier::external_body]
pub(crate) fn fdiv32(a: u64, b: u64, rm: u8) -> (r: u64)
    ensures
        r == fdiv32_bits(a, b, rm),
{
    Single::from_bits((a as u32) as u128).div_r(
        Single::from_bits((b as u32) as u128),
        to_round(rm),
    ).value.to_bits() as u64
}

/// Relies on rustc_apfloat's Single::mul_add_r: fused multiply-add with a
/// single rounding.
#[verifier::external_body]
pub(crate) fn fma32(a: u64, b: u64, c: u64, rm: u8) -> (r: u64)
    ensures
        r == fma32_bits(a, b, c, rm),
{
    Single::from_bits((a as u32) as u128).mul_add_r(
        Single::from_bits((b as u32) as u128),
        Single::from_bits((c as u32) as u128),
        to_round(rm),
    ).value.to_bits() as u64
}

/// Relies on ieee_apsqrt::sqrt_accurate: a correctly rounded IEEE-754
/// single square root on bit patterns.
#[verifier::external_body]
pub(crate) fn fsqrt32(a: u64, rm: u8) -> (r: u64)
    ensures
        r == fsqrt32_bits(a, rm),
{
    ieee_apsqrt::sqrt_accurate(a as u32, to_round(rm)).0.value as u64
}

/// Relies on rustc_apfloat's FloatConvert from Double to Single: the
/// nearest single-precision value under the rounding mode.
#[verifier::external_body]
pub(crate) fn f32_of_f64(a: u64, rm: u8) -> (r: u64)
    ensures
        r == f32_of_f64_bits(a, rm),
{
    let mut loses_info = false;
    let s: rustc_apfloat::StatusAnd<Single> = Double::from_bits(a as u128).convert_r(
        to_round(rm),
        &mut loses_info,
    );
    s.value.to_bits() as u64
}

/// Relies on rustc_apfloat's FloatConvert from Single to Double: widening
/// is exact.
#[verifier::external_body]
pub(crate) fn f64_of_f32(a: u64) -> (r: u64)
    ensures
        r == f64_of_f32_bits(a),
{
    let mut loses_info = false;
    let d: rustc_apfloat::StatusAnd<Double> = Single::from_bits((a as u32) as u128).convert_r(
        rustc_apfloat::Round::NearestTiesToEven,
        &mut loses_info,
    );
    d.value.to_bits() as u64
}

/// Relies on rustc_apfloat's Float::to_i128_r: conversion to a signed
/// integer, saturating at the width's bounds.
#[verifier::external_body]
pub(crate) fn sint_of_f64(a: u64, width: u8, rm: u8) -> (r: i128)
    requires
        width == 32 || width == 64,
    ensures
        r == sint_of_f64_bits(a, width, rm),
        width == 32 ==> -0x8000_0000 <= r < 0x8000_0000,
        width == 64 ==> -0x8000_0000_0000_0000 <= r < 0x8000_0000_0000_0000,
{
    let mut is_exact = false;
    Double::from_bits(a as u128).to_i128_r(width as usize, to_round(rm), &mut is_exact).value
}

/// Relies on rustc_apfloat's Float::to_u128_r: conversion to an unsigned
/// integer, saturating at the width's bounds; negative input gives zero.
#[verifier::external_body]
pub(crate) fn uint_of_f64(a: u64, width: u8, rm: u8) -> (r: u128)
    requires
        width == 32 || width == 64,
    ensures
        r == uint_of_f64_bits(a, width, rm),
        width == 32 ==> r < 0x1_0000_0000,
        width == 64 ==> r < 0x1_0000_0000_0000_0000,
{
    let mut is_exact = false;
    Double::from_bits(a as u128).to_u128_r(width as usize, to_round(rm), &mut is_exact).value
}

/// Relies on rustc_apfloat's Float::to_i128_r for single precision.
#[verifier::external_body]
pub(crate) fn sint_of_f32(a: u64, width: u8, rm: u8) -> (r: i128)
    requires
        width == 32 || width == 64,
    ensures
        r == sint_of_f32_bits(a, width, rm),
        width == 32 ==> -0x8000_0000 <= r < 0x8000_0000,
        width == 64 ==> -0x8000_0000_0000_0000 <= r < 0x8000_0000_0000_0000,
{
    let mut is_exact = false;
    Single::from_bits((a as u32) as u128).to_i128_r(width as usize, to_round(rm), &mut is_exact)
        .value
}

/// Relies on rustc_apfloat's Float::to_u128_r for single precision.
#[verifier::external_body]
pub(crate) fn uint_of_f32(a: u64, width: u8, rm: u8) -> (r: u128)
    requires
        width == 32 || width == 64,
    ensures
        r == uint_of_f32_bits(a, width, rm),
        width == 32 ==> r < 0x1_0000_0000,
        width == 64 ==> r < 0x1_0000_0000_0000_0000,
{
    let mut is_exact = false;
    Single::from_bits((a as u32) as u128).to_u128_r(width as usize, to_round(rm), &mut is_exact)
        .value
}

/// Relies on rustc_apfloat's Float::from_i128_r: the exactly rounded
/// double nearest a signed integer.
#[verifier::external_body]
pub(crate) fn f64_of_sint(v: i128, rm: u8) -> (r: u64)
    ensures
        r == f64_of_sint_bits(v, rm),
{
    Double::from_i128_r(v, to_round(rm)).value.to_bits() as u64
}

/// Relies on rustc_apfloat's Float::from_u128_r: the exactly rounded
/// double nearest an unsigned integer.
#[verifier::external_body]
pub(crate) fn f64_of_uint(v: u128, rm: u8) -> (r: u64)
    ensures
        r == f64_of_uint_bits(v, rm),
{
    Double::from_u128_r(v, to_round(rm)).value.to_bits() as u64
}

/// Relies on rustc_apfloat's Float::from_i128_r for single precision.
#[verifier::external_body]
pub(crate) fn f32_of_sint(v: i128, rm: u8) -> (r: u64)
    ensures
        r == f32_of_sint_bits(v, rm),
{
    Single::from_i128_r(v, to_round(rm)).value.to_bits() as u64
}

/// Relies on rustc_apfloat's Float::from_u128_r for single precision.
#[verifier::external_body]
pub(crate) fn f32_of_uint(v: u128, rm: u8) -> (r: u64)
    ensures
        r == f32_of_uint_bits(v, rm),
{
    Single::from_u128_r(v, to_round(rm)).value.to_bits() as u64
}

} // verus!
