//! Non-lossy fixed-point arithmetic for the pricing engine.
//!
//! All pricing arithmetic runs on `spl_math::precise_number::PreciseNumber`,
//! a 256-bit fixed-point number scaled by `10^12`. The functions here wrap
//! the handful of operations the engine needs and state, over the abstract
//! scaled value of each number, exactly what each operation computes —
//! including the rounding correction and the overflow fallbacks its source
//! performs.

use vstd::prelude::*;
use spl_math::precise_number::PreciseNumber;

verus! {

/// The scaled representation of one: every `PreciseNumber` carries its
/// numeric value multiplied by this factor (`10^12`).
pub const PRECISE_ONE: u128 = 1_000_000_000_000;

/// Half of [`PRECISE_ONE`]; added before truncating divisions so that
/// conversions round to the nearest unit.
pub const ROUNDING_CORRECTION: u128 = 500_000_000_000;

/// One more than the largest value a 64-bit word can carry.
pub open spec fn u64_limit() -> nat {
    0x1_0000_0000_0000_0000
}

/// One more than the largest value a 256-bit scaled number can carry.
pub open spec fn u256_limit() -> nat {
    u64_limit() * u64_limit() * u64_limit() * u64_limit()
}

#[verifier::external_type_specification]
#[verifier::external_body]
pub struct ExPreciseNumber(PreciseNumber);

/// The scaled value a `PreciseNumber` carries: its numeric value times
/// [`PRECISE_ONE`]. Constrained only through the wrappers below.
pub uninterp spec fn pn_value(p: PreciseNumber) -> nat;

/// The scaled value behind an optional `PreciseNumber`.
pub open spec fn pn_opt_value(r: Option<PreciseNumber>) -> Option<nat> {
    match r {
        Some(p) => Some(pn_value(p)),
        None => None,
    }
}

/// What `PreciseNumber::checked_add` computes over scaled values.
pub open spec fn pn_add_val(a: nat, b: nat) -> Option<nat> {
    if a + b < u256_limit() {
        Some((a + b) as nat)
    } else {
        None
    }
}

/// What `PreciseNumber::checked_mul` computes over scaled values: the
/// rounded product when the raw product fits in 256 bits, and a coarser
/// fallback — the larger operand truncated to whole units times the
/// smaller — when it does not.
pub open spec fn pn_mul_val(a: nat, b: nat) -> Option<nat> {
    let one = PRECISE_ONE as int;
    let half = ROUNDING_CORRECTION as int;
    if a * b < u256_limit() {
        if a * b + half < u256_limit() {
            Some(((a * b + half) / one) as nat)
        } else {
            None
        }
    } else {
        let hi: int = if a >= b { a as int } else { b as int };
        let lo: int = if a >= b { b as int } else { a as int };
        if (hi / one) * lo < u256_limit() {
            Some(((hi / one) * lo) as nat)
        } else {
            None
        }
    }
}

/// What `PreciseNumber::checked_div` computes over scaled values: the
/// rounded quotient when rescaling the dividend fits in 256 bits, and a
/// coarser fallback — dividing first, then rescaling — when it does not.
pub open spec fn pn_div_val(a: nat, b: nat) -> Option<nat> {
    let one = PRECISE_ONE as int;
    let half = ROUNDING_CORRECTION as int;
    if b == 0 {
        None
    } else if a * one < u256_limit() {
        if a * one + half < u256_limit() {
            Some(((a * one + half) / (b as int)) as nat)
        } else {
            None
        }
    } else {
        if a + half < u256_limit() {
            let q = (a + half) / (b as int);
            if q * one < u256_limit() {
                Some((q * one) as nat)
            } else {
                None
            }
        } else {
            None
        }
    }
}

/// What `PreciseNumber::floor` computes over scaled values.
pub open spec fn pn_floor_val(a: nat) -> nat {
    let one = PRECISE_ONE as int;
    (((a as int) / one) * one) as nat
}

/// What `PreciseNumber::to_imprecise` computes over scaled values, on the
/// inputs where it neither overflows nor leaves `u128`.
pub open spec fn pn_imprecise_val(a: nat) -> nat {
    let one = PRECISE_ONE as int;
    let half = ROUNDING_CORRECTION as int;
    ((a + half) / one) as nat
}

/// Relies on `PreciseNumber::new`: the result carries `v * 10^12`, which
/// fits in 256 bits for every `u128`, so the construction always succeeds.
#[verifier::external_body]
pub(crate) fn pn_new(v: u128) -> (r: PreciseNumber)
    ensures
        pn_value(r) == v * PRECISE_ONE,
{
    PreciseNumber::new(v).unwrap()
}

/// Relies on `PreciseNumber::checked_add`: the sum of the scaled values,
/// or `None` when it does not fit in 256 bits.
#[verifier::external_body]
pub(crate) fn pn_add(a: &PreciseNumber, b: &PreciseNumber) -> (r: Option<PreciseNumber>)
    ensures
        pn_opt_value(r) == pn_add_val(pn_value(*a), pn_value(*b)),
{
    a.checked_add(b)
}

/// Relies on `PreciseNumber::checked_mul`: the rounded product of the
/// scaled values, with its documented fallback when the raw product
/// overflows 256 bits.
#[verifier::external_body]
pub(crate) fn pn_mul(a: &PreciseNumber, b: &PreciseNumber) -> (r: Option<PreciseNumber>)
    ensures
        pn_opt_value(r) == pn_mul_val(pn_value(*a), pn_value(*b)),
{
    a.checked_mul(b)
}

/// Relies on `PreciseNumber::checked_div`: the rounded quotient of the
/// scaled values, `None` on a zero divisor, with its documented fallback
/// when rescaling the dividend overflows 256 bits.
#[verifier::external_body]
pub(crate) fn pn_div(a: &PreciseNumber, b: &PreciseNumber) -> (r: Option<PreciseNumber>)
    ensures
        pn_opt_value(r) == pn_div_val(pn_value(*a), pn_value(*b)),
{
    a.checked_div(b)
}

/// Relies on `PreciseNumber::less_than_or_equal`: compares the scaled
/// values directly.
#[verifier::external_body]
pub(crate) fn pn_lte(a: &PreciseNumber, b: &PreciseNumber) -> (r: bool)
    ensures
        r == (pn_value(*a) <= pn_value(*b)),
{
    a.less_than_or_equal(b)
}

/// Relies on `PreciseNumber::floor`: truncates the scaled value to a whole
/// number of units; both internal steps stay within 256 bits, so the call
/// always succeeds.
#[verifier::external_body]
pub(crate) fn pn_floor(a: &PreciseNumber) -> (r: PreciseNumber)
    ensures
        pn_value(r) == pn_floor_val(pn_value(*a)),
{
    a.floor().unwrap()
}

/// Relies on `PreciseNumber::to_imprecise`: rounds the scaled value to the
/// nearest whole unit. The bound required here keeps both the internal
/// rounding addition within 256 bits and the final narrowing within
/// `u128`, the inputs on which the underlying call neither fails nor
/// panics.
#[verifier::external_body]
pub(crate) fn pn_to_imprecise(a: &PreciseNumber) -> (r: u128)
    requires
        pn_value(*a) <= u128::MAX * PRECISE_ONE,
    ensures
        r == pn_imprecise_val(pn_value(*a)),
{
    a.to_imprecise().unwrap()
}

} // verus!
