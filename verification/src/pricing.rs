//! The pricing engine: market values, the scarcity premium, liquidity-token
//! quantities and swap payouts.
//!
//! All quantities are whole units, so every pricing result is an exact
//! rational floored once at the end: numerators are multiplied first and
//! the denominators divided out last, each division floored. On whole-unit
//! operands the 256-bit fixed-point operations carry these steps exactly;
//! an operand that leaves 256 bits is an arithmetic-contract violation and
//! surfaces as `None`, never as a coarsened or wrapped value.

use vstd::prelude::*;
use vstd::arithmetic::div_mod::{
    lemma_div_multiples_vanish_fancy, lemma_div_is_ordered, lemma_div_denominator,
    lemma_fundamental_div_mod, lemma_div_pos_is_pos,
};
use spl_math::precise_number::PreciseNumber;
use crate::math::{
    PRECISE_ONE, ROUNDING_CORRECTION, u64_limit, u256_limit, pn_value, pn_opt_value, pn_mul_val,
    pn_div_val, pn_imprecise_val, pn_floor_val, pn_new, pn_add, pn_mul, pn_div, pn_lte, pn_floor,
    pn_to_imprecise,
};
use crate::state::{SwapState, Token};

verus! {

/// The market value of `amount` units priced at `market_price` per
/// unit, in whole units: `amount × market_price`.
pub open spec fn spec_value_units(amount: u64, market_price: u64) -> nat {
    (amount * market_price) as nat
}

/// The scaled market value of `amount` units priced at `market_price`
/// per unit: `amount × market_price`, exact in fixed point.
pub open spec fn spec_market_value(amount: u64, market_price: u64) -> nat {
    (amount * market_price * PRECISE_ONE) as nat
}

/// A whole-unit value floored to a minimum of one, as each premium
/// operand and the protocol total are before dividing.
pub open spec fn spec_floor_unit(v: nat) -> nat {
    if v == 0 {
        1
    } else {
        v
    }
}

/// A scaled value floored to a minimum of one whole unit.
pub open spec fn spec_floor_to_one(v: nat) -> nat {
    if v == 0 {
        PRECISE_ONE as nat
    } else {
        v
    }
}

/// The scarcity premium as the fixed-point division computes it: the
/// second value over the first, both floored to a minimum of one unit,
/// so the quotient never divides by zero or a negative value.
pub open spec fn spec_price_premium(vault_a_value: nat, vault_b_value: nat) -> Option<nat> {
    pn_div_val(spec_floor_to_one(vault_b_value), spec_floor_to_one(vault_a_value))
}

/// The liquidity tokens owed for a deposit: the deposit valued at the
/// premium between the two sides, taken as a share of the whole
/// protocol value (vaults and fee vaults), applied to the outstanding
/// liquidity supply, and floored once — the numerators are multiplied
/// first and the two denominators divided out last, so the result is
/// the exact floored rational. `None` marks an arithmetic-contract
/// violation: an intermediate that leaves 256 bits, or a result that
/// leaves 64.
pub open spec fn spec_calculate_swap_tokens(
    tokens_deposit: u64,
    vault_a_supply: u64,
    token_a_market_price: u64,
    fee_vault_a_supply: u64,
    vault_b_supply: u64,
    token_b_market_price: u64,
    fee_vault_b_supply: u64,
    swap_supply: u64,
) -> Option<u64> {
    let premium_numerator = spec_floor_unit(
        spec_value_units(vault_b_supply, token_b_market_price),
    );
    let premium_denominator = spec_floor_unit(
        spec_value_units(vault_a_supply, token_a_market_price),
    );
    let total = spec_floor_unit(
        (spec_value_units(vault_a_supply, token_a_market_price) + spec_value_units(
            vault_b_supply,
            token_b_market_price,
        ) + spec_value_units(fee_vault_a_supply, token_a_market_price) + spec_value_units(
            fee_vault_b_supply,
            token_b_market_price,
        )) as nat,
    );
    match pn_mul_val(
        (tokens_deposit * PRECISE_ONE) as nat,
        (premium_numerator * PRECISE_ONE) as nat,
    ) {
        None => None,
        Some(m1) => match pn_mul_val(m1, (swap_supply * PRECISE_ONE) as nat) {
            None => None,
            Some(m2) => match pn_div_val(m2, (premium_denominator * PRECISE_ONE) as nat) {
                None => None,
                Some(q1) => match pn_div_val(pn_floor_val(q1), (total * PRECISE_ONE) as nat) {
                    None => None,
                    Some(q2) => {
                        let result = pn_floor_val(q2);
                        if result <= u64::MAX * PRECISE_ONE {
                            Some(pn_imprecise_val(result) as u64)
                        } else {
                            None
                        }
                    },
                },
            },
        },
    }
}

/// The destination tokens owed for a swap: the source price raised by
/// the premium between the two vaults, applied to the input amount,
/// converted at the destination price, and floored once — numerators
/// multiplied first, the two denominators divided out last, so the
/// result is the exact floored rational. `None` marks an
/// arithmetic-contract violation, including a zero destination price
/// and a result that leaves 64 bits.
pub open spec fn spec_calculate_tokens_to_swap(
    source_supply: u64,
    source_market_price: u64,
    destination_market_price: u64,
    destination_supply: u64,
    token_amount: u64,
) -> Option<u64> {
    let premium_numerator = spec_floor_unit(
        spec_value_units(destination_supply, destination_market_price),
    );
    let premium_denominator = spec_floor_unit(
        spec_value_units(source_supply, source_market_price),
    );
    match pn_mul_val(
        (source_market_price * PRECISE_ONE) as nat,
        (premium_numerator * PRECISE_ONE) as nat,
    ) {
        None => None,
        Some(m1) => match pn_mul_val(m1, (token_amount * PRECISE_ONE) as nat) {
            None => None,
            Some(m2) => match pn_div_val(m2, (premium_denominator * PRECISE_ONE) as nat) {
                None => None,
                Some(q1) => match pn_div_val(
                    pn_floor_val(q1),
                    (destination_market_price * PRECISE_ONE) as nat,
                ) {
                    None => None,
                    Some(q2) => {
                        let result = pn_floor_val(q2);
                        if result <= u64::MAX * PRECISE_ONE {
                            Some(pn_imprecise_val(result) as u64)
                        } else {
                            None
                        }
                    },
                },
            },
        },
    }
}

/// A rounded division by one whole unit is exact on multiples of it:
/// `(k·10^12 + c) / 10^12 == k` for any correction below one unit.
pub proof fn lemma_unit_div_exact(k: nat, c: nat)
    requires
        c < PRECISE_ONE,
    ensures
        (k * PRECISE_ONE + c) / (PRECISE_ONE as int) == k,
{
    lemma_div_multiples_vanish_fancy(k as int, c as int, PRECISE_ONE as int);
    assert((PRECISE_ONE as int) * (k as int) == (k as int) * (PRECISE_ONE as int))
        by (nonlinear_arith);
}

/// The largest value a scaled market quantity of two 64-bit factors can
/// reach.
pub open spec fn market_value_bound() -> nat {
    (((u64_limit() - 1) * (u64_limit() - 1) * PRECISE_ONE)) as nat
}

/// The product of two scaled 64-bit market quantities stays far below
/// the 256-bit limit, so their fixed-point product is the exact rounded
/// one.
pub proof fn lemma_market_value_exact(amount: u64, market_price: u64)
    ensures
        pn_mul_val(
            ((market_price as u128) * PRECISE_ONE) as nat,
            ((amount as u128) * PRECISE_ONE) as nat,
        ) == Some(spec_market_value(amount, market_price)),
        spec_market_value(amount, market_price) <= market_value_bound(),
        spec_market_value(amount, market_price) <= u128::MAX * PRECISE_ONE,
        spec_market_value(amount, market_price) == spec_value_units(amount, market_price)
            * PRECISE_ONE,
{
    let p = market_price as int;
    let a = amount as int;
    let one = PRECISE_ONE as int;
    let half = ROUNDING_CORRECTION as int;
    let lim = u256_limit() as int;
    let x = p * one;
    let y = a * one;
    let k = a * p * one;
    assert(x * y == k * one) by (nonlinear_arith)
        requires
            x == p * one,
            y == a * one,
            k == a * p * one,
    ;
    assert(x * y + half < lim && k <= ((u64_limit() - 1) * (u64_limit() - 1) * PRECISE_ONE) && k
        <= 0xffff_ffff_ffff_ffff_ffff_ffff_ffff_ffff * (1_000_000_000_000 as int))
        by (nonlinear_arith)
        requires
            x == p * one,
            y == a * one,
            k == a * p * one,
            0 <= p < 0x1_0000_0000_0000_0000,
            0 <= a < 0x1_0000_0000_0000_0000,
            one == 1_000_000_000_000,
            half == 500_000_000_000,
            u64_limit() == 0x1_0000_0000_0000_0000,
            PRECISE_ONE == 1_000_000_000_000,
            lim == 0x1_0000_0000_0000_0000 * (0x1_0000_0000_0000_0000 as int)
                * (0x1_0000_0000_0000_0000 as int) * (0x1_0000_0000_0000_0000 as int),
    ;
    lemma_unit_div_exact(k as nat, ROUNDING_CORRECTION as nat);
    assert((x * y + half) / one == k);
}

/// Four values each within the market-value bound can be summed without
/// leaving 256 bits.
pub proof fn lemma_four_values_fit(v1: nat, v2: nat, v3: nat, v4: nat)
    requires
        v1 <= market_value_bound(),
        v2 <= market_value_bound(),
        v3 <= market_value_bound(),
        v4 <= market_value_bound(),
    ensures
        v1 + v2 < u256_limit(),
        v1 + v2 + v3 < u256_limit(),
        v1 + v2 + v3 + v4 < u256_limit(),
{
    let m = market_value_bound() as int;
    let lim = u256_limit() as int;
    assert(4 * m < lim) by (nonlinear_arith)
        requires
            m == ((0x1_0000_0000_0000_0000 - 1) as int) * ((0x1_0000_0000_0000_0000 - 1) as int)
                * 1_000_000_000_000,
            lim == 0x1_0000_0000_0000_0000 * (0x1_0000_0000_0000_0000 as int)
                * (0x1_0000_0000_0000_0000 as int) * (0x1_0000_0000_0000_0000 as int),
    ;
}

/// Flooring a whole-unit scaled value to a minimum of one unit is the
/// unit-level floor, rescaled.
pub proof fn lemma_floor_to_one_scaled(u: nat)
    ensures
        spec_floor_to_one((u * PRECISE_ONE) as nat) == spec_floor_unit(u) * PRECISE_ONE,
{
    if u == 0 {
        assert(u * PRECISE_ONE == 0) by (nonlinear_arith)
            requires
                u == 0,
        ;
        assert(1 * (PRECISE_ONE as int) == PRECISE_ONE) by (nonlinear_arith);
    } else {
        assert(u * PRECISE_ONE >= PRECISE_ONE) by (nonlinear_arith)
            requires
                u >= 1,
                PRECISE_ONE >= 1,
        ;
    }
}

/// On whole-unit operands the fixed-point multiplication is exact in
/// both of its branches: whenever it returns a value, that value is the
/// whole-unit product; and it cannot fail while the rescaled product
/// stays within 256 bits.
pub proof fn lemma_pn_mul_units(x: nat, y: nat)
    ensures
        (match pn_mul_val((x * PRECISE_ONE) as nat, (y * PRECISE_ONE) as nat) {
            Some(v) => v == x * y * PRECISE_ONE,
            None => true,
        }),
        x * y * PRECISE_ONE * PRECISE_ONE + ROUNDING_CORRECTION < u256_limit() ==> pn_mul_val(
            (x * PRECISE_ONE) as nat,
            (y * PRECISE_ONE) as nat,
        ) is Some,
{
    let one = PRECISE_ONE as int;
    let half = ROUNDING_CORRECTION as int;
    let a = (x as int) * one;
    let b = (y as int) * one;
    let k = (x as int) * (y as int) * one;
    assert(a * b == k * one && k * one == (x * y * PRECISE_ONE * PRECISE_ONE as int)
        && 0 <= k) by (nonlinear_arith)
        requires
            a == x * one,
            b == y * one,
            k == x * (y as int) * one,
            one == PRECISE_ONE,
    ;
    if a * b < u256_limit() {
        if a * b + half < u256_limit() {
            lemma_unit_div_exact(k as nat, ROUNDING_CORRECTION as nat);
            assert((a * b + half) / one == k);
        }
    } else {
        assert(((x as int) * one) / one == x && ((y as int) * one) / one == y) by {
            lemma_div_multiples_vanish_fancy(x as int, 0, one);
            lemma_div_multiples_vanish_fancy(y as int, 0, one);
            assert(one * (x as int) == (x as int) * one && one * (y as int) == (y as int) * one)
                by (nonlinear_arith);
        }
        let hi = if a >= b {
            a
        } else {
            b
        };
        let lo = if a >= b {
            b
        } else {
            a
        };
        assert((hi / one) * lo == k) by (nonlinear_arith)
            requires
                (hi == a && lo == b) || (hi == b && lo == a),
                a == x * one,
                b == y * one,
                k == x * (y as int) * one,
                a / one == x,
                b / one == y,
        ;
    }
}

/// On whole-unit operands the fixed-point division followed by the unit
/// floor is the exact floored quotient in both of its branches: whenever
/// the division returns a value, its floor is the whole-unit integer
/// quotient; and it cannot fail while the rescaled dividend stays within
/// 256 bits and the divisor is at least one unit.
pub proof fn lemma_pn_div_floor_units(x: nat, y: nat)
    requires
        y >= 1,
    ensures
        (match pn_div_val((x * PRECISE_ONE) as nat, (y * PRECISE_ONE) as nat) {
            Some(v) => pn_floor_val(v) == ((x as int) / (y as int)) * PRECISE_ONE,
            None => true,
        }),
        x * PRECISE_ONE * PRECISE_ONE + ROUNDING_CORRECTION < u256_limit() ==> pn_div_val(
            (x * PRECISE_ONE) as nat,
            (y * PRECISE_ONE) as nat,
        ) is Some,
{
    let one = PRECISE_ONE as int;
    let half = ROUNDING_CORRECTION as int;
    let a = (x as int) * one;
    let b = (y as int) * one;
    let q = (x as int) / (y as int);
    let r = (x as int) % (y as int);
    lemma_fundamental_div_mod(x as int, y as int);
    assert(x as int == (y as int) * q + r && 0 <= r < y);
    assert(b >= one && b > 0) by (nonlinear_arith)
        requires
            b == y * one,
            y >= 1,
            one == 1_000_000_000_000,
    ;
    assert(a * one == (x * PRECISE_ONE * PRECISE_ONE as int)) by (nonlinear_arith)
        requires
            a == x * one,
            one == PRECISE_ONE,
    ;
    if a * one < u256_limit() {
        if a * one + half < u256_limit() {
            // the rounded quotient carries the exact integer quotient in
            // its whole-unit part
            let v = (a * one + half) / b;
            lemma_div_pos_is_pos(a * one + half, b);
            lemma_div_denominator(a * one + half, b, one);
            assert((v / one) == (a * one + half) / (b * one));
            let rem = r * one * one + half;
            assert(a * one + half == (b * one) * q + rem && 0 <= rem < b * one)
                by (nonlinear_arith)
                requires
                    a == x * one,
                    b == y * one,
                    x as int == (y as int) * q + r,
                    0 <= r,
                    r < y,
                    rem == r * one * one + half,
                    one == 1_000_000_000_000,
                    half == 500_000_000_000,
            ;
            lemma_div_multiples_vanish_fancy(q, rem, b * one);
            assert(((b * one) * q + rem) / (b * one) == q);
            assert(v / one == q);
            assert(pn_floor_val(v as nat) == q * one);
        }
    } else {
        if a + half < u256_limit() {
            // the coarse branch divides first, which already floors
            let rem = r * one + half;
            assert(a + half == b * q + rem && 0 <= rem < b) by (nonlinear_arith)
                requires
                    a == x * one,
                    b == y * one,
                    x as int == (y as int) * q + r,
                    0 <= r,
                    r < y,
                    rem == r * one + half,
                    one == 1_000_000_000_000,
                    half == 500_000_000_000,
            ;
            lemma_div_multiples_vanish_fancy(q, rem, b);
            assert((a + half) / b == q);
            if q * one < u256_limit() {
                let v = q * one;
                lemma_div_multiples_vanish_fancy(q, 0, one);
                assert(one * q == q * one) by (nonlinear_arith);
                assert((v / one) * one == q * one);
                assert(pn_floor_val(v as nat) == q * one);
            }
        }
    }
}

/// The premium quotient never divides by zero or a negative value: its
/// operands are floored to a minimum of one whole unit before dividing,
/// and on market values of 64-bit quantities the division is always
/// defined.
pub proof fn lemma_price_premium_defined(vault_a_value: nat, vault_b_value: nat)
    requires
        vault_a_value <= market_value_bound(),
        vault_b_value <= market_value_bound(),
    ensures
        spec_floor_to_one(vault_a_value) >= 1,
        spec_floor_to_one(vault_b_value) >= 1,
        spec_price_premium(vault_a_value, vault_b_value) is Some,
{
    let a = spec_floor_to_one(vault_b_value) as int;
    let b = spec_floor_to_one(vault_a_value) as int;
    let one = PRECISE_ONE as int;
    let half = ROUNDING_CORRECTION as int;
    let lim = u256_limit() as int;
    assert(a * one + half < lim) by (nonlinear_arith)
        requires
            0 <= a,
            a <= ((0x1_0000_0000_0000_0000 - 1) as int) * ((0x1_0000_0000_0000_0000 - 1) as int)
                * 1_000_000_000_000 || a == 1_000_000_000_000,
            one == 1_000_000_000_000,
            half == 500_000_000_000,
            lim == 0x1_0000_0000_0000_0000 * (0x1_0000_0000_0000_0000 as int)
                * (0x1_0000_0000_0000_0000 as int) * (0x1_0000_0000_0000_0000 as int),
    ;
}

/// Floors a scaled value to a minimum of one whole unit, as the premium
/// operands and the protocol total are before dividing.
fn floor_value_to_one(value: PreciseNumber) -> (r: PreciseNumber)
    ensures
        pn_value(r) == spec_floor_to_one(pn_value(value)),
{
    let zero = pn_new(0);
    if pn_lte(&value, &zero) {
        proof {
            assert(0 * PRECISE_ONE == 0) by (nonlinear_arith);
            assert(1 * PRECISE_ONE == PRECISE_ONE as int) by (nonlinear_arith);
        }
        pn_new(1)
    } else {
        value
    }
}

impl Token {
    /// The market value of `amount` units of this asset at the given
    /// oracle unit price.
    pub fn get_market_value(&self, amount: u64, market_price: u64) -> (r: PreciseNumber)
        ensures
            pn_value(r) == spec_market_value(amount, market_price),
    {
        let market_price_pn = pn_new(market_price as u128);
        let supply_pn = pn_new(amount as u128);
        let value = pn_mul(&market_price_pn, &supply_pn);
        proof {
            lemma_market_value_exact(amount, market_price);
        }
        match value {
            Some(v) => v,
            None => {
                proof {
                    assert(false);
                }
                pn_new(0)
            },
        }
    }

    /// The effective local price of an asset: its oracle price raised by
    /// the given premium, as the fixed-point multiplication computes it.
    /// `None` marks an arithmetic-contract violation.
    pub fn get_protocol_price(price: u64, premium: PreciseNumber) -> (r: Option<PreciseNumber>)
        ensures
            pn_opt_value(r) == pn_mul_val((price * PRECISE_ONE) as nat, pn_value(premium)),
    {
        let price_pn = pn_new(price as u128);
        pn_mul(&price_pn, &premium)
    }
}

impl SwapState {
    /// The premium the protocol pays to balance the pool, as the
    /// fixed-point division computes it: the second value over the
    /// first, both floored to a minimum of one unit. `None` marks an
    /// arithmetic-contract violation.
    pub fn get_price_premium(vault_a_value: PreciseNumber, vault_b_value: PreciseNumber) -> (r:
        Option<PreciseNumber>)
        ensures
            pn_opt_value(r) == spec_price_premium(pn_value(vault_a_value), pn_value(vault_b_value)),
    {
        let tmp_vault_a_value = floor_value_to_one(vault_a_value);
        let tmp_vault_b_value = floor_value_to_one(vault_b_value);
        pn_div(&tmp_vault_b_value, &tmp_vault_a_value)
    }

    /// The liquidity tokens owed for a deposit, valued at the
    /// protocol's relative prices as the exact floored rational. `None`
    /// marks an arithmetic-contract violation: the callers must abort
    /// on it rather than move any value.
    pub fn calculate_swap_tokens(
        &self,
        tokens_deposit: u64,
        vault_a_supply: u64,
        token_a_market_price: u64,
        fee_vault_a_supply: u64,
        vault_b_supply: u64,
        token_b_market_price: u64,
        fee_vault_b_supply: u64,
        swap_supply: u64,
    ) -> (r: Option<u64>)
        ensures
            r == spec_calculate_swap_tokens(
                tokens_deposit,
                vault_a_supply,
                token_a_market_price,
                fee_vault_a_supply,
                vault_b_supply,
                token_b_market_price,
                fee_vault_b_supply,
                swap_supply,
            ),
    {
        let swap_supply_pn = pn_new(swap_supply as u128);
        let vault_a_value = self.token_a.get_market_value(vault_a_supply, token_a_market_price);
        let vault_b_value = self.token_b.get_market_value(vault_b_supply, token_b_market_price);
        let fee_vault_a_value = self.token_a.get_market_value(
            fee_vault_a_supply,
            token_a_market_price,
        );
        let fee_vault_b_value = self.token_b.get_market_value(
            fee_vault_b_supply,
            token_b_market_price,
        );
        proof {
            lemma_market_value_exact(vault_a_supply, token_a_market_price);
            lemma_market_value_exact(vault_b_supply, token_b_market_price);
            lemma_market_value_exact(fee_vault_a_supply, token_a_market_price);
            lemma_market_value_exact(fee_vault_b_supply, token_b_market_price);
            lemma_four_values_fit(
                spec_market_value(vault_a_supply, token_a_market_price),
                spec_market_value(vault_b_supply, token_b_market_price),
                spec_market_value(fee_vault_a_supply, token_a_market_price),
                spec_market_value(fee_vault_b_supply, token_b_market_price),
            );
        }
        let sum_ab = match pn_add(&vault_a_value, &vault_b_value) {
            Some(v) => v,
            None => {
                proof {
                    assert(false);
                }
                return None;
            },
        };
        let sum_abf = match pn_add(&sum_ab, &fee_vault_a_value) {
            Some(v) => v,
            None => {
                proof {
                    assert(false);
                }
                return None;
            },
        };
        let total_sum = match pn_add(&sum_abf, &fee_vault_b_value) {
            Some(v) => v,
            None => {
                proof {
                    assert(false);
                }
                return None;
            },
        };
        let premium_denominator = floor_value_to_one(vault_a_value);
        let premium_numerator = floor_value_to_one(vault_b_value);
        let total = floor_value_to_one(total_sum);
        proof {
            let au = spec_value_units(vault_a_supply, token_a_market_price);
            let bu = spec_value_units(vault_b_supply, token_b_market_price);
            let fau = spec_value_units(fee_vault_a_supply, token_a_market_price);
            let fbu = spec_value_units(fee_vault_b_supply, token_b_market_price);
            assert(au * PRECISE_ONE + bu * PRECISE_ONE + fau * PRECISE_ONE + fbu * PRECISE_ONE
                == ((au + bu + fau + fbu) as int) * PRECISE_ONE) by (nonlinear_arith);
            lemma_floor_to_one_scaled(au);
            lemma_floor_to_one_scaled(bu);
            lemma_floor_to_one_scaled((au + bu + fau + fbu) as nat);
        }
        let tokens_deposit_pn = pn_new(tokens_deposit as u128);
        let m1 = match pn_mul(&tokens_deposit_pn, &premium_numerator) {
            Some(v) => v,
            None => {
                return None;
            },
        };
        let m2 = match pn_mul(&m1, &swap_supply_pn) {
            Some(v) => v,
            None => {
                return None;
            },
        };
        let q1_scaled = match pn_div(&m2, &premium_denominator) {
            Some(v) => v,
            None => {
                return None;
            },
        };
        let q1 = pn_floor(&q1_scaled);
        let q2_scaled = match pn_div(&q1, &total) {
            Some(v) => v,
            None => {
                return None;
            },
        };
        let q2 = pn_floor(&q2_scaled);
        let limit_pn = pn_new(u64::MAX as u128);
        if !pn_lte(&q2, &limit_pn) {
            return None;
        }
        proof {
            lemma_result_in_range(pn_value(q2));
        }
        let imprecise = pn_to_imprecise(&q2);
        Some(imprecise as u64)
    }

    /// The destination tokens owed for swapping `token_amount` source
    /// tokens, as the exact floored rational. `None` marks an
    /// arithmetic-contract violation: the callers must abort on it
    /// rather than move any value.
    pub fn calculate_tokens_to_swap(
        source: Token,
        source_supply: u64,
        source_market_price: u64,
        destination: Token,
        destination_market_price: u64,
        destination_supply: u64,
        token_amount: u64,
    ) -> (r: Option<u64>)
        ensures
            r == spec_calculate_tokens_to_swap(
                source_supply,
                source_market_price,
                destination_market_price,
                destination_supply,
                token_amount,
            ),
    {
        let token_amount_pn = pn_new(token_amount as u128);
        let source_value = source.get_market_value(source_supply, source_market_price);
        let destination_value = destination.get_market_value(
            destination_supply,
            destination_market_price,
        );
        proof {
            lemma_floor_to_one_scaled(spec_value_units(source_supply, source_market_price));
            lemma_floor_to_one_scaled(
                spec_value_units(destination_supply, destination_market_price),
            );
        }
        let premium_denominator = floor_value_to_one(source_value);
        let premium_numerator = floor_value_to_one(destination_value);
        let source_price_pn = pn_new(source_market_price as u128);
        let destination_price_pn = pn_new(destination_market_price as u128);
        let m1 = match pn_mul(&source_price_pn, &premium_numerator) {
            Some(v) => v,
            None => {
                return None;
            },
        };
        let m2 = match pn_mul(&m1, &token_amount_pn) {
            Some(v) => v,
            None => {
                return None;
            },
        };
        let q1_scaled = match pn_div(&m2, &premium_denominator) {
            Some(v) => v,
            None => {
                return None;
            },
        };
        let q1 = pn_floor(&q1_scaled);
        let q2_scaled = match pn_div(&q1, &destination_price_pn) {
            Some(v) => v,
            None => {
                return None;
            },
        };
        let q2 = pn_floor(&q2_scaled);
        let limit_pn = pn_new(u64::MAX as u128);
        if !pn_lte(&q2, &limit_pn) {
            return None;
        }
        proof {
            lemma_result_in_range(pn_value(q2));
        }
        let imprecise = pn_to_imprecise(&q2);
        Some(imprecise as u64)
    }
}

/// The exact rational a deposit is owed, floored once: the deposit
/// times the premium numerator times the supply, over the premium
/// denominator times the floored protocol total.
pub open spec fn spec_deposit_tokens_rational(
    tokens_deposit: u64,
    vault_a_supply: u64,
    token_a_market_price: u64,
    fee_vault_a_supply: u64,
    vault_b_supply: u64,
    token_b_market_price: u64,
    fee_vault_b_supply: u64,
    swap_supply: u64,
) -> int {
    let premium_numerator = spec_floor_unit(
        spec_value_units(vault_b_supply, token_b_market_price),
    );
    let premium_denominator = spec_floor_unit(
        spec_value_units(vault_a_supply, token_a_market_price),
    );
    let total = spec_floor_unit(
        (spec_value_units(vault_a_supply, token_a_market_price) + spec_value_units(
            vault_b_supply,
            token_b_market_price,
        ) + spec_value_units(fee_vault_a_supply, token_a_market_price) + spec_value_units(
            fee_vault_b_supply,
            token_b_market_price,
        )) as nat,
    );
    (tokens_deposit * premium_numerator * swap_supply) as int / (premium_denominator
        * total) as int
}

/// The domain on which the deposit pricing completes: both numerator
/// products stay within the 256-bit exact range and the floored
/// rational fits 64 bits.
pub open spec fn spec_deposit_tokens_fits(
    tokens_deposit: u64,
    vault_a_supply: u64,
    token_a_market_price: u64,
    fee_vault_a_supply: u64,
    vault_b_supply: u64,
    token_b_market_price: u64,
    fee_vault_b_supply: u64,
    swap_supply: u64,
) -> bool {
    let premium_numerator = spec_floor_unit(
        spec_value_units(vault_b_supply, token_b_market_price),
    );
    &&& tokens_deposit * premium_numerator * PRECISE_ONE * PRECISE_ONE + ROUNDING_CORRECTION
        < u256_limit()
    &&& tokens_deposit * premium_numerator * swap_supply * PRECISE_ONE * PRECISE_ONE
        + ROUNDING_CORRECTION < u256_limit()
    &&& spec_deposit_tokens_rational(
        tokens_deposit,
        vault_a_supply,
        token_a_market_price,
        fee_vault_a_supply,
        vault_b_supply,
        token_b_market_price,
        fee_vault_b_supply,
        swap_supply,
    ) <= u64::MAX
}

/// On its whole fitting domain the deposit pricing returns exactly the
/// floored rational of the supply share — the non-lossy single-floor
/// form of the pricing rule.
pub proof fn lemma_swap_tokens_exact(
    tokens_deposit: u64,
    vault_a_supply: u64,
    token_a_market_price: u64,
    fee_vault_a_supply: u64,
    vault_b_supply: u64,
    token_b_market_price: u64,
    fee_vault_b_supply: u64,
    swap_supply: u64,
)
    requires
        spec_deposit_tokens_fits(
            tokens_deposit,
            vault_a_supply,
            token_a_market_price,
            fee_vault_a_supply,
            vault_b_supply,
            token_b_market_price,
            fee_vault_b_supply,
            swap_supply,
        ),
    ensures
        spec_calculate_swap_tokens(
            tokens_deposit,
            vault_a_supply,
            token_a_market_price,
            fee_vault_a_supply,
            vault_b_supply,
            token_b_market_price,
            fee_vault_b_supply,
            swap_supply,
        ) == Some(
            spec_deposit_tokens_rational(
                tokens_deposit,
                vault_a_supply,
                token_a_market_price,
                fee_vault_a_supply,
                vault_b_supply,
                token_b_market_price,
                fee_vault_b_supply,
                swap_supply,
            ) as u64,
        ),
{
    let one = PRECISE_ONE as int;
    let half = ROUNDING_CORRECTION as int;
    let d = tokens_deposit as int;
    let s = swap_supply as int;
    let pnum = spec_floor_unit(spec_value_units(vault_b_supply, token_b_market_price)) as int;
    let pden = spec_floor_unit(spec_value_units(vault_a_supply, token_a_market_price)) as int;
    let total = spec_floor_unit(
        (spec_value_units(vault_a_supply, token_a_market_price) + spec_value_units(
            vault_b_supply,
            token_b_market_price,
        ) + spec_value_units(fee_vault_a_supply, token_a_market_price) + spec_value_units(
            fee_vault_b_supply,
            token_b_market_price,
        )) as nat,
    ) as int;
    // the two numerator products are exact
    lemma_pn_mul_units(tokens_deposit as nat, pnum as nat);
    assert(d * pnum * one * one + half < u256_limit());
    let m1 = d * pnum;
    lemma_pn_mul_units(m1 as nat, swap_supply as nat);
    assert(m1 * s * one * one + half < u256_limit() && m1 * s == d * pnum * s && 0 <= m1)
        by (nonlinear_arith)
        requires
            m1 == d * pnum,
            0 <= d,
            0 <= pnum,
            0 <= s,
            d * pnum * s * one * one + half < u256_limit(),
    ;
    let big = m1 * s;
    // both denominators divide out exactly, floored
    lemma_pn_div_floor_units(big as nat, pden as nat);
    assert(big * one * one + half < u256_limit()) by (nonlinear_arith)
        requires
            big == m1 * s,
            m1 * s * one * one + half < u256_limit(),
    ;
    let q1 = big / pden;
    lemma_pn_div_floor_units(q1 as nat, total as nat);
    assert(q1 * one * one + half < u256_limit()) by (nonlinear_arith)
        requires
            0 <= q1 <= big,
            0 <= big,
            big * one * one + half < u256_limit(),
            one >= 1,
            half >= 0,
    ;
    assert(0 <= q1 <= big) by {
        lemma_div_pos_is_pos(big, pden);
        vstd::arithmetic::div_mod::lemma_div_is_ordered_by_denominator(big, 1, pden);
        vstd::arithmetic::div_mod::lemma_div_basics_1(big);
    }
    let q2 = q1 / total;
    lemma_div_denominator(big, pden, total);
    assert(q2 == big / (pden * total));
    // the final value is within 64 bits, so the rounding back is exact
    assert(q2 * one <= (u64::MAX as int) * one) by (nonlinear_arith)
        requires
            q2 <= u64::MAX as int,
            0 <= q2,
            one >= 1,
    ;
    lemma_unit_div_exact(q2 as nat, ROUNDING_CORRECTION as nat);
}

/// Every value the deposit pricing returns is the exact floored
/// rational: a success never carries a coarsened or wrapped number.
pub proof fn lemma_swap_tokens_some_value(
    tokens_deposit: u64,
    vault_a_supply: u64,
    token_a_market_price: u64,
    fee_vault_a_supply: u64,
    vault_b_supply: u64,
    token_b_market_price: u64,
    fee_vault_b_supply: u64,
    swap_supply: u64,
)
    requires
        spec_calculate_swap_tokens(
            tokens_deposit,
            vault_a_supply,
            token_a_market_price,
            fee_vault_a_supply,
            vault_b_supply,
            token_b_market_price,
            fee_vault_b_supply,
            swap_supply,
        ) is Some,
    ensures
        ({
            let rational = spec_deposit_tokens_rational(
                tokens_deposit,
                vault_a_supply,
                token_a_market_price,
                fee_vault_a_supply,
                vault_b_supply,
                token_b_market_price,
                fee_vault_b_supply,
                swap_supply,
            );
            &&& 0 <= rational <= u64::MAX
            &&& spec_calculate_swap_tokens(
                tokens_deposit,
                vault_a_supply,
                token_a_market_price,
                fee_vault_a_supply,
                vault_b_supply,
                token_b_market_price,
                fee_vault_b_supply,
                swap_supply,
            ) == Some(rational as u64)
        }),
{
    let one = PRECISE_ONE as int;
    let d = tokens_deposit as int;
    let s = swap_supply as int;
    let pnum = spec_floor_unit(spec_value_units(vault_b_supply, token_b_market_price)) as int;
    let pden = spec_floor_unit(spec_value_units(vault_a_supply, token_a_market_price)) as int;
    let total = spec_floor_unit(
        (spec_value_units(vault_a_supply, token_a_market_price) + spec_value_units(
            vault_b_supply,
            token_b_market_price,
        ) + spec_value_units(fee_vault_a_supply, token_a_market_price) + spec_value_units(
            fee_vault_b_supply,
            token_b_market_price,
        )) as nat,
    ) as int;
    lemma_pn_mul_units(tokens_deposit as nat, pnum as nat);
    let m1v = d * pnum;
    assert(0 <= m1v) by (nonlinear_arith)
        requires
            m1v == d * pnum,
            0 <= d,
            0 <= pnum,
    ;
    lemma_pn_mul_units(m1v as nat, swap_supply as nat);
    let big = d * pnum * s;
    assert(0 <= big) by (nonlinear_arith)
        requires
            big == d * pnum * s,
            0 <= d,
            0 <= pnum,
            0 <= s,
    ;
    lemma_pn_div_floor_units(big as nat, pden as nat);
    let q1 = big / pden;
    lemma_div_pos_is_pos(big, pden);
    lemma_pn_div_floor_units(q1 as nat, total as nat);
    let q2 = q1 / total;
    lemma_div_pos_is_pos(q1, total);
    lemma_div_denominator(big, pden, total);
    assert(q2 == big / (pden * total));
    assert(q2 * one <= (u64::MAX as int) * one ==> q2 <= u64::MAX as int) by (nonlinear_arith)
        requires
            one >= 1,
    ;
    lemma_unit_div_exact(q2 as nat, ROUNDING_CORRECTION as nat);
}

/// Every value the swap pricing returns is the exact floored rational:
/// a success never carries a coarsened or wrapped number.
pub proof fn lemma_swap_payout_some_value(
    source_supply: u64,
    source_market_price: u64,
    destination_market_price: u64,
    destination_supply: u64,
    token_amount: u64,
)
    requires
        spec_calculate_tokens_to_swap(
            source_supply,
            source_market_price,
            destination_market_price,
            destination_supply,
            token_amount,
        ) is Some,
    ensures
        ({
            let rational = spec_swap_payout_rational(
                source_supply,
                source_market_price,
                destination_market_price,
                destination_supply,
                token_amount,
            );
            &&& 0 <= rational <= u64::MAX
            &&& spec_calculate_tokens_to_swap(
                source_supply,
                source_market_price,
                destination_market_price,
                destination_supply,
                token_amount,
            ) == Some(rational as u64)
        }),
{
    let one = PRECISE_ONE as int;
    let sp = source_market_price as int;
    let amt = token_amount as int;
    let dp = destination_market_price as int;
    let pnum = spec_floor_unit(
        spec_value_units(destination_supply, destination_market_price),
    ) as int;
    let pden = spec_floor_unit(spec_value_units(source_supply, source_market_price)) as int;
    lemma_pn_mul_units(source_market_price as nat, pnum as nat);
    let m1v = sp * pnum;
    assert(0 <= m1v) by (nonlinear_arith)
        requires
            m1v == sp * pnum,
            0 <= sp,
            0 <= pnum,
    ;
    lemma_pn_mul_units(m1v as nat, token_amount as nat);
    let big = sp * pnum * amt;
    assert(0 <= big) by (nonlinear_arith)
        requires
            big == sp * pnum * amt,
            0 <= sp,
            0 <= pnum,
            0 <= amt,
    ;
    lemma_pn_div_floor_units(big as nat, pden as nat);
    let q1 = big / pden;
    lemma_div_pos_is_pos(big, pden);
    // the successful chain rules a zero destination price out
    assert(dp >= 1);
    lemma_pn_div_floor_units(q1 as nat, destination_market_price as nat);
    let q2 = q1 / dp;
    lemma_div_pos_is_pos(q1, dp);
    lemma_div_denominator(big, pden, dp);
    assert(q2 == big / (pden * dp));
    assert(q2 * one <= (u64::MAX as int) * one ==> q2 <= u64::MAX as int) by (nonlinear_arith)
        requires
            one >= 1,
    ;
    lemma_unit_div_exact(q2 as nat, ROUNDING_CORRECTION as nat);
}

/// The deposit pricing is monotonically non-decreasing in the deposit
/// amount, all other parameters fixed: whenever two deposits both
/// succeed, the larger never mints fewer liquidity tokens.
pub proof fn lemma_swap_tokens_monotone(
    deposit_1: u64,
    deposit_2: u64,
    vault_a_supply: u64,
    token_a_market_price: u64,
    fee_vault_a_supply: u64,
    vault_b_supply: u64,
    token_b_market_price: u64,
    fee_vault_b_supply: u64,
    swap_supply: u64,
)
    requires
        deposit_1 <= deposit_2,
    ensures
        (match (
            spec_calculate_swap_tokens(
                deposit_1,
                vault_a_supply,
                token_a_market_price,
                fee_vault_a_supply,
                vault_b_supply,
                token_b_market_price,
                fee_vault_b_supply,
                swap_supply,
            ),
            spec_calculate_swap_tokens(
                deposit_2,
                vault_a_supply,
                token_a_market_price,
                fee_vault_a_supply,
                vault_b_supply,
                token_b_market_price,
                fee_vault_b_supply,
                swap_supply,
            ),
        ) {
            (Some(v1), Some(v2)) => v1 <= v2,
            _ => true,
        }),
{
    let r1 = spec_calculate_swap_tokens(
        deposit_1,
        vault_a_supply,
        token_a_market_price,
        fee_vault_a_supply,
        vault_b_supply,
        token_b_market_price,
        fee_vault_b_supply,
        swap_supply,
    );
    let r2 = spec_calculate_swap_tokens(
        deposit_2,
        vault_a_supply,
        token_a_market_price,
        fee_vault_a_supply,
        vault_b_supply,
        token_b_market_price,
        fee_vault_b_supply,
        swap_supply,
    );
    if r1 is Some && r2 is Some {
        lemma_swap_tokens_some_value(
            deposit_1,
            vault_a_supply,
            token_a_market_price,
            fee_vault_a_supply,
            vault_b_supply,
            token_b_market_price,
            fee_vault_b_supply,
            swap_supply,
        );
        lemma_swap_tokens_some_value(
            deposit_2,
            vault_a_supply,
            token_a_market_price,
            fee_vault_a_supply,
            vault_b_supply,
            token_b_market_price,
            fee_vault_b_supply,
            swap_supply,
        );
        let d1 = deposit_1 as int;
        let d2 = deposit_2 as int;
        let s = swap_supply as int;
        let pnum = spec_floor_unit(
            spec_value_units(vault_b_supply, token_b_market_price),
        ) as int;
        let pden = spec_floor_unit(
            spec_value_units(vault_a_supply, token_a_market_price),
        ) as int;
        let total = spec_floor_unit(
            (spec_value_units(vault_a_supply, token_a_market_price) + spec_value_units(
                vault_b_supply,
                token_b_market_price,
            ) + spec_value_units(fee_vault_a_supply, token_a_market_price) + spec_value_units(
                fee_vault_b_supply,
                token_b_market_price,
            )) as nat,
        ) as int;
        assert(d1 * pnum * s <= d2 * pnum * s && 0 <= d1 * pnum * s && pden * total > 0)
            by (nonlinear_arith)
            requires
                0 <= d1 <= d2,
                0 <= pnum,
                0 <= s,
                pden >= 1,
                total >= 1,
        ;
        lemma_div_is_ordered(d1 * pnum * s, d2 * pnum * s, pden * total);
    }
}

/// The exact rational a swap pays out, floored once: the source price
/// times the premium numerator times the input, over the premium
/// denominator times the destination price.
pub open spec fn spec_swap_payout_rational(
    source_supply: u64,
    source_market_price: u64,
    destination_market_price: u64,
    destination_supply: u64,
    token_amount: u64,
) -> int {
    let premium_numerator = spec_floor_unit(
        spec_value_units(destination_supply, destination_market_price),
    );
    let premium_denominator = spec_floor_unit(
        spec_value_units(source_supply, source_market_price),
    );
    (source_market_price * premium_numerator * token_amount) as int / (premium_denominator
        * destination_market_price) as int
}

/// The domain on which the swap pricing completes: a positive
/// destination price, both numerator products within the 256-bit exact
/// range, and a floored rational within 64 bits.
pub open spec fn spec_swap_payout_fits(
    source_supply: u64,
    source_market_price: u64,
    destination_market_price: u64,
    destination_supply: u64,
    token_amount: u64,
) -> bool {
    let premium_numerator = spec_floor_unit(
        spec_value_units(destination_supply, destination_market_price),
    );
    &&& destination_market_price >= 1
    &&& source_market_price * premium_numerator * PRECISE_ONE * PRECISE_ONE
        + ROUNDING_CORRECTION < u256_limit()
    &&& source_market_price * premium_numerator * token_amount * PRECISE_ONE * PRECISE_ONE
        + ROUNDING_CORRECTION < u256_limit()
    &&& spec_swap_payout_rational(
        source_supply,
        source_market_price,
        destination_market_price,
        destination_supply,
        token_amount,
    ) <= u64::MAX
}

/// On its whole fitting domain the swap pricing returns exactly the
/// floored rational of the converted input — the non-lossy single-floor
/// form of the swap rule.
pub proof fn lemma_swap_payout_exact(
    source_supply: u64,
    source_market_price: u64,
    destination_market_price: u64,
    destination_supply: u64,
    token_amount: u64,
)
    requires
        spec_swap_payout_fits(
            source_supply,
            source_market_price,
            destination_market_price,
            destination_supply,
            token_amount,
        ),
    ensures
        spec_calculate_tokens_to_swap(
            source_supply,
            source_market_price,
            destination_market_price,
            destination_supply,
            token_amount,
        ) == Some(
            spec_swap_payout_rational(
                source_supply,
                source_market_price,
                destination_market_price,
                destination_supply,
                token_amount,
            ) as u64,
        ),
{
    let one = PRECISE_ONE as int;
    let half = ROUNDING_CORRECTION as int;
    let sp = source_market_price as int;
    let amt = token_amount as int;
    let dp = destination_market_price as int;
    let pnum = spec_floor_unit(
        spec_value_units(destination_supply, destination_market_price),
    ) as int;
    let pden = spec_floor_unit(spec_value_units(source_supply, source_market_price)) as int;
    lemma_pn_mul_units(source_market_price as nat, pnum as nat);
    assert(sp * pnum * one * one + half < u256_limit());
    let m1 = sp * pnum;
    lemma_pn_mul_units(m1 as nat, token_amount as nat);
    assert(m1 * amt * one * one + half < u256_limit() && m1 * amt == sp * pnum * amt && 0 <= m1)
        by (nonlinear_arith)
        requires
            m1 == sp * pnum,
            0 <= sp,
            0 <= pnum,
            0 <= amt,
            sp * pnum * amt * one * one + half < u256_limit(),
    ;
    let big = m1 * amt;
    lemma_pn_div_floor_units(big as nat, pden as nat);
    assert(big * one * one + half < u256_limit()) by (nonlinear_arith)
        requires
            big == m1 * amt,
            m1 * amt * one * one + half < u256_limit(),
    ;
    let q1 = big / pden;
    lemma_pn_div_floor_units(q1 as nat, destination_market_price as nat);
    assert(0 <= q1 <= big) by {
        lemma_div_pos_is_pos(big, pden);
        vstd::arithmetic::div_mod::lemma_div_is_ordered_by_denominator(big, 1, pden);
        vstd::arithmetic::div_mod::lemma_div_basics_1(big);
    }
    assert(q1 * one * one + half < u256_limit()) by (nonlinear_arith)
        requires
            0 <= q1 <= big,
            0 <= big,
            big * one * one + half < u256_limit(),
            one >= 1,
            half >= 0,
    ;
    let q2 = q1 / dp;
    lemma_div_denominator(big, pden, dp);
    assert(q2 == big / (pden * dp));
    assert(q2 * one <= (u64::MAX as int) * one) by (nonlinear_arith)
        requires
            q2 <= u64::MAX as int,
            0 <= q2,
            one >= 1,
    ;
    lemma_unit_div_exact(q2 as nat, ROUNDING_CORRECTION as nat);
}

/// Swapping between two sides of equal supply and equal positive price
/// pays out exactly the input amount, wherever the products fit the
/// arithmetic: the premium is exactly one and the two prices cancel.
pub proof fn lemma_swap_equal_sides_identity(vault_supply: u64, price: u64, amount: u64)
    requires
        1 <= price,
        spec_swap_payout_fits(vault_supply, price, price, vault_supply, amount),
    ensures
        spec_calculate_tokens_to_swap(vault_supply, price, price, vault_supply, amount) == Some(
            amount,
        ),
{
    lemma_swap_payout_exact(vault_supply, price, price, vault_supply, amount);
    let p = price as int;
    let v = spec_floor_unit(spec_value_units(vault_supply, price)) as int;
    let amt = amount as int;
    assert(p * v * amt == ((v * p) as int) * amt && 0 <= v * p) by (nonlinear_arith)
        requires
            0 <= p,
            0 <= v,
            0 <= amt,
    ;
    assert(v * p > 0) by (nonlinear_arith)
        requires
            v >= 1,
            p >= 1,
    ;
    vstd::arithmetic::div_mod::lemma_div_by_multiple(amt, v * p);
    assert((amt * (v * p)) / (v * p) == amt);
    assert(p * v * amt == amt * (v * p)) by (nonlinear_arith);
}

/// A scaled result within 64 whole bits rounds back to a number a `u64`
/// carries.
pub proof fn lemma_result_in_range(v: nat)
    requires
        v <= u64::MAX * PRECISE_ONE,
    ensures
        v <= u128::MAX * PRECISE_ONE,
        pn_imprecise_val(v) <= u64::MAX,
{
    let one = PRECISE_ONE as int;
    let half = ROUNDING_CORRECTION as int;
    assert(u64::MAX * PRECISE_ONE <= u128::MAX * PRECISE_ONE) by (nonlinear_arith)
        requires
            PRECISE_ONE >= 1,
    ;
    lemma_div_is_ordered(v as int + half, (u64::MAX as int) * one + half, one);
    lemma_div_multiples_vanish_fancy(u64::MAX as int, half, one);
    assert(one * (u64::MAX as int) == (u64::MAX as int) * one) by (nonlinear_arith);
}

} // verus!
