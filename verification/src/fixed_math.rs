//! Fixed-point arithmetic of the AMM, as the pool programs perform it.
//!
//! The pool formulas run on 128-bit fixed-point numbers with 64 fractional
//! bits.  Fed integers, those operations are exact until the final
//! truncation, so each chain below computes an integer floor expression; the
//! wrappers state that value and nothing else.  Operands are kept below
//! 2^63, where the fixed-point type would overflow or refuse the
//! conversion.

use vstd::prelude::*;

verus! {

/// Relies on `fixed::types::I64F64`: `from_num` embeds an integer below
/// 2^63 exactly, `checked_mul` of two such integers is exact below 2^63,
/// `checked_div` truncates at 64 fractional bits, and `to_num::<u64>`
/// discards the fraction, rounding towards minus infinity.  Chained, they
/// compute exactly `a * b / c` in integer floor division.
#[verifier::external_body]
pub(crate) fn fixed_mul_div(a: u64, b: u64, c: u64) -> (r: u64)
    requires
        a < 0x8000_0000_0000_0000,
        b < 0x8000_0000_0000_0000,
        0 < c < 0x8000_0000_0000_0000,
        a * b < 0x8000_0000_0000_0000,
    ensures
        r == a * b / (c as int),
{
    fixed::types::I64F64::from_num(a)
        .checked_mul(fixed::types::I64F64::from_num(b))
        .unwrap()
        .checked_div(fixed::types::I64F64::from_num(c))
        .unwrap()
        .to_num::<u64>()
}

/// Relies on `fixed::types::I64F64::sqrt`, documented to round down with an
/// error below one unit in the last fractional place: discarding the
/// fraction of that value yields the integer square root of `a * b`.
#[verifier::external_body]
pub(crate) fn fixed_sqrt_prod(a: u64, b: u64) -> (r: u64)
    requires
        a < 0x8000_0000_0000_0000,
        b < 0x8000_0000_0000_0000,
        a * b < 0x8000_0000_0000_0000,
    ensures
        r * r <= a * b,
        a * b < (r + 1) * (r + 1),
{
    fixed::types::I64F64::from_num(a)
        .checked_mul(fixed::types::I64F64::from_num(b))
        .unwrap()
        .sqrt()
        .to_num::<u64>()
}

} // verus!
