//! The scalar layer: IEEE-754 binary64 arithmetic on `u64` bit patterns.
//!
//! A scalar is carried as the bit pattern of a binary64 number. The five
//! primitive operations the simulator needs — addition, subtraction,
//! multiplication, division and square root — are performed by softfloat
//! implementations (`rustc_apfloat` and `ieee-apsqrt`) that work directly
//! on bit patterns, always rounding to nearest, ties to even. Each
//! operation's result is a function of the operand bit patterns alone, so
//! each gets an uninterpreted name that the rest of the library's
//! contracts are stated over.

use rustc_apfloat::Float;
use vstd::prelude::*;

verus! {

/// The bit pattern of the binary64 number 1.0.
pub const F64_ONE: u64 = 0x3ff0_0000_0000_0000;

/// The bit pattern of the binary64 number 0.5.
pub const F64_HALF: u64 = 0x3fe0_0000_0000_0000;

/// The binary64 sum of the numbers with bit patterns `a` and `b`.
pub uninterp spec fn add_bits(a: u64, b: u64) -> u64;

/// The binary64 difference of the numbers with bit patterns `a` and `b`.
pub uninterp spec fn sub_bits(a: u64, b: u64) -> u64;

/// The binary64 product of the numbers with bit patterns `a` and `b`.
pub uninterp spec fn mul_bits(a: u64, b: u64) -> u64;

/// The binary64 quotient of the numbers with bit patterns `a` and `b`.
pub uninterp spec fn div_bits(a: u64, b: u64) -> u64;

/// The binary64 square root of the number with bit pattern `a`.
pub uninterp spec fn sqrt_bits(a: u64) -> u64;

/// Relies on `rustc_apfloat::ieee::Double::add_r`: binary64 addition,
/// rounded to nearest, ties to even; the result depends on the two bit
/// patterns alone.
#[verifier::external_body]
pub(crate) fn fp_add(a: u64, b: u64) -> (r: u64)
    ensures
        r == add_bits(a, b),
{
    let x = rustc_apfloat::ieee::Double::from_bits(a as u128);
    let y = rustc_apfloat::ieee::Double::from_bits(b as u128);
    rustc_apfloat::Float::add_r(x, y, rustc_apfloat::Round::NearestTiesToEven).value.to_bits()
        as u64
}

/// Relies on `rustc_apfloat::ieee::Double::sub_r`: binary64 subtraction,
/// rounded to nearest, ties to even; the result depends on the two bit
/// patterns alone.
#[verifier::external_body]
pub(crate) fn fp_sub(a: u64, b: u64) -> (r: u64)
    ensures
        r == sub_bits(a, b),
{
    let x = rustc_apfloat::ieee::Double::from_bits(a as u128);
    let y = rustc_apfloat::ieee::Double::from_bits(b as u128);
    rustc_apfloat::Float::sub_r(x, y, rustc_apfloat::Round::NearestTiesToEven).value.to_bits()
        as u64
}

/// Relies on `rustc_apfloat::ieee::Double::mul_r`: binary64
/// multiplication, rounded to nearest, ties to even; the result depends
/// on the two bit patterns alone.
#[verifier::external_body]
pub(crate) fn fp_mul(a: u64, b: u64) -> (r: u64)
    ensures
        r == mul_bits(a, b),
{
    let x = rustc_apfloat::ieee::Double::from_bits(a as u128);
    let y = rustc_apfloat::ieee::Double::from_bits(b as u128);
    rustc_apfloat::Float::mul_r(x, y, rustc_apfloat::Round::NearestTiesToEven).value.to_bits()
        as u64
}

/// Relies on `rustc_apfloat::ieee::Double::div_r`: binary64 division,
/// rounded to nearest, ties to even; the result depends on the two bit
/// patterns alone.
#[verifier::external_body]
pub(crate) fn fp_div(a: u64, b: u64) -> (r: u64)
    ensures
        r == div_bits(a, b),
{
    let x = rustc_apfloat::ieee::Double::from_bits(a as u128);
    let y = rustc_apfloat::ieee::Double::from_bits(b as u128);
    rustc_apfloat::Float::div_r(x, y, rustc_apfloat::Round::NearestTiesToEven).value.to_bits()
        as u64
}

/// Relies on `ieee_apsqrt::sqrt_accurate` over `u64` bits: the correctly
/// rounded binary64 square root (to nearest, ties to even); the result
/// depends on the bit pattern alone.
#[verifier::external_body]
pub(crate) fn fp_sqrt(a: u64) -> (r: u64)
    ensures
        r == sqrt_bits(a),
{
    ieee_apsqrt::sqrt_accurate(a, rustc_apfloat::Round::NearestTiesToEven).0.value
}

} // verus!
