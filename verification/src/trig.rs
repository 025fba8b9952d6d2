//! Fixed-point trigonometry for circle approximation.
//!
//! Angles and trigonometric values are carried as 64-bit fixed-point
//! numbers with 32 fractional bits: a value `v` stands for the real number
//! `v / 2^32`. The sine and cosine themselves come from the `cordic`
//! crate; the kernel treats their results as opaque, named values and
//! builds all of its contracts on top of those names.

use vstd::prelude::*;

verus! {

/// The number one in the kernel's fixed-point format (32 fractional bits).
pub const FIX_ONE: i64 = 4294967296;

/// Pi in the fixed-point format, rounded down.
pub const PI_FIX: i64 = 13493037704;

/// Two pi in the fixed-point format, rounded down.
pub const TAU_FIX: i64 = 26986075409;

/// The fixed-point cosine of a fixed-point angle: the value that
/// `cordic::cos` returns for it. The result depends on the angle alone.
pub uninterp spec fn cos_fix(angle: i64) -> i64;

/// The fixed-point sine of a fixed-point angle: the value that
/// `cordic::sin` returns for it. The result depends on the angle alone.
pub uninterp spec fn sin_fix(angle: i64) -> i64;

/// Relies on `cordic::cos` over `fixed`'s `I32F32` (64-bit fixed point, 32
/// fractional bits): a pure function of the angle, named `cos_fix` here.
#[verifier::external_body]
pub(crate) fn cos_fixed(angle: i64) -> (r: i64)
    requires
        0 <= angle <= TAU_FIX,
    ensures
        r == cos_fix(angle),
{
    cordic::cos(fixed::types::I32F32::from_bits(angle)).to_bits()
}

/// Relies on `cordic::sin` over `fixed`'s `I32F32` (64-bit fixed point, 32
/// fractional bits): a pure function of the angle, named `sin_fix` here.
#[verifier::external_body]
pub(crate) fn sin_fixed(angle: i64) -> (r: i64)
    requires
        0 <= angle <= TAU_FIX,
    ensures
        r == sin_fix(angle),
{
    cordic::sin(fixed::types::I32F32::from_bits(angle)).to_bits()
}

} // verus!
