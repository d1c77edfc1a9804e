//! Fixed-point price math, liquidity accounting and swap math.
//!
//! Every function returns a `Result`: any multiplication overflow,
//! subtraction underflow or invalid division is reported as
//! `DexError::MathOverflow`, and the contracts say exactly on which
//! inputs each function succeeds.

use vstd::arithmetic::div_mod::{
    lemma_div_is_ordered, lemma_div_multiples_vanish, lemma_div_pos_is_pos,
};
use vstd::arithmetic::mul::{lemma_mul_inequality, lemma_mul_is_commutative, lemma_mul_nonnegative};
use vstd::prelude::*;

use crate::errors::DexError;

verus! {

/// Sqrt-price units per tick step of the linear tick-to-price map.
pub const TICK_PRICE_UNIT: u128 = 1_000_000;

/// The tick domain is shifted by this offset so that every tick at or
/// above `-TICK_OFFSET` maps to a non-negative sqrt-price.
pub const TICK_OFFSET: i32 = 1000;

/// Fee rates are expressed in parts per million of the gross input.
pub const FEE_RATE_DENOMINATOR: u64 = 1_000_000;

/// Scale applied to the input amount when computing the price impact of
/// a swap.
pub const PRICE_IMPACT_SCALE: u128 = 1_000_000;

/// The sqrt-price a tick maps to: a linear approximation
/// `TICK_PRICE_UNIT * (tick + TICK_OFFSET)` of the geometric tick
/// spacing, monotone in the tick.
pub open spec fn spec_tick_price(tick: int) -> int {
    TICK_PRICE_UNIT * (tick + TICK_OFFSET)
}

/// The liquidity contribution implied by the A-side deposit alone:
/// `amount_a * sqrt_price / (price_upper - sqrt_price)`.
pub open spec fn spec_liquidity_from_a(amount_a: int, sqrt_price: int, price_upper: int) -> int {
    amount_a * sqrt_price / (price_upper - sqrt_price)
}

/// The liquidity contribution implied by the B-side deposit alone:
/// `amount_b / (sqrt_price - price_lower)`.
pub open spec fn spec_liquidity_from_b(amount_b: int, sqrt_price: int, price_lower: int) -> int {
    amount_b / (sqrt_price - price_lower)
}

/// When `compute_liquidity_delta` succeeds: both ticks convert, the
/// current sqrt-price lies strictly inside the implied price range, and
/// the A-side product fits in 128 bits.
pub open spec fn spec_liquidity_delta_ok(
    sqrt_price: int,
    tick_lower: int,
    tick_upper: int,
    amount_a: int,
) -> bool {
    &&& tick_lower >= -TICK_OFFSET
    &&& tick_upper >= -TICK_OFFSET
    &&& spec_tick_price(tick_lower) < sqrt_price
    &&& sqrt_price < spec_tick_price(tick_upper)
    &&& amount_a * sqrt_price <= u128::MAX
}

/// The liquidity delta: the smaller of the A-implied and B-implied
/// candidates, so the binding side limits the position.
pub open spec fn spec_liquidity_delta(
    sqrt_price: int,
    tick_lower: int,
    tick_upper: int,
    amount_a: int,
    amount_b: int,
) -> int {
    vstd::math::min(
        spec_liquidity_from_a(amount_a, sqrt_price, spec_tick_price(tick_upper)),
        spec_liquidity_from_b(amount_b, sqrt_price, spec_tick_price(tick_lower)),
    )
}

/// Output of the constant-product swap approximation on post-fee input
/// `amount_in`: `liquidity - liquidity^2 / (liquidity + amount_in)`.
pub open spec fn spec_swap_output(liquidity: int, amount_in: int) -> int {
    liquidity - liquidity * liquidity / (liquidity + amount_in)
}

/// The fee charged on a gross input: `amount_in * fee_rate / 1_000_000`,
/// floored per call.
pub open spec fn spec_fee(amount_in: int, fee_rate: int) -> int {
    amount_in * fee_rate / (FEE_RATE_DENOMINATOR as int)
}

/// The input that reaches the curve after the fee is withheld.
pub open spec fn spec_after_fee(amount_in: int, fee_rate: int) -> int {
    amount_in - spec_fee(amount_in, fee_rate)
}

/// Price movement of a swap: `amount_in * PRICE_IMPACT_SCALE / liquidity`.
pub open spec fn spec_price_impact(amount_in: int, liquidity: int) -> int {
    amount_in * PRICE_IMPACT_SCALE / liquidity
}

/// Converts a tick index to a Q64 fixed-point sqrt-price.
///
/// Succeeds exactly on ticks at or above `-TICK_OFFSET`; below that the
/// shifted index would be negative and the conversion fails with
/// `MathOverflow`.
pub fn tick_to_sqrt_price(tick: i32) -> (r: Result<u128, DexError>)
    ensures
        tick >= -TICK_OFFSET ==> (r matches Ok(p) && p == spec_tick_price(tick as int)),
        tick < -TICK_OFFSET ==> r == Err::<u128, DexError>(DexError::MathOverflow),
{
    if tick < -TICK_OFFSET {
        return Err(DexError::MathOverflow);
    }
    let shifted: u128 = (tick as i64 + TICK_OFFSET as i64) as u128;
    Ok(TICK_PRICE_UNIT * shifted)
}

/// Law: the tick-to-price map is strictly monotone — a lower tick maps
/// to a strictly smaller sqrt-price than any higher tick.
pub proof fn lemma_tick_price_monotonic(tick_lower: int, tick_upper: int)
    requires
        tick_lower < tick_upper,
    ensures
        spec_tick_price(tick_lower) < spec_tick_price(tick_upper),
{
}

/// How much liquidity a two-sided deposit contributes inside the pool's
/// price range.
///
/// Succeeds exactly when both ticks convert, the current sqrt-price lies
/// strictly between the range's implied sqrt-prices, and
/// `amount_a * sqrt_price_x64` fits in 128 bits; a price at or past a
/// bound would make a divisor zero or negative, so it fails with
/// `MathOverflow`.
pub fn compute_liquidity_delta(
    sqrt_price_x64: u128,
    tick_lower: i32,
    tick_upper: i32,
    amount_a: u64,
    amount_b: u64,
) -> (r: Result<u128, DexError>)
    ensures
        r is Ok <==> spec_liquidity_delta_ok(
            sqrt_price_x64 as int,
            tick_lower as int,
            tick_upper as int,
            amount_a as int,
        ),
        r matches Ok(d) ==> d == spec_liquidity_delta(
            sqrt_price_x64 as int,
            tick_lower as int,
            tick_upper as int,
            amount_a as int,
            amount_b as int,
        ),
        r is Err ==> r == Err::<u128, DexError>(DexError::MathOverflow),
{
    let price_lower = match tick_to_sqrt_price(tick_lower) {
        Ok(p) => p,
        Err(e) => return Err(e),
    };
    let price_upper = match tick_to_sqrt_price(tick_upper) {
        Ok(p) => p,
        Err(e) => return Err(e),
    };
    if sqrt_price_x64 >= price_upper || sqrt_price_x64 <= price_lower {
        return Err(DexError::MathOverflow);
    }
    let numerator = match (amount_a as u128).checked_mul(sqrt_price_x64) {
        Some(n) => n,
        None => return Err(DexError::MathOverflow),
    };
    let liquidity_a: u128 = numerator / (price_upper - sqrt_price_x64);
    let liquidity_b: u128 = (amount_b as u128) / (sqrt_price_x64 - price_lower);
    if liquidity_a <= liquidity_b {
        Ok(liquidity_a)
    } else {
        Ok(liquidity_b)
    }
}

/// Law: the liquidity delta is the minimum of the two single-sided
/// candidates, so it never exceeds either of them.
pub proof fn lemma_liquidity_delta_min(
    sqrt_price: int,
    tick_lower: int,
    tick_upper: int,
    amount_a: int,
    amount_b: int,
)
    ensures
        spec_liquidity_delta(sqrt_price, tick_lower, tick_upper, amount_a, amount_b)
            <= spec_liquidity_from_a(amount_a, sqrt_price, spec_tick_price(tick_upper)),
        spec_liquidity_delta(sqrt_price, tick_lower, tick_upper, amount_a, amount_b)
            <= spec_liquidity_from_b(amount_b, sqrt_price, spec_tick_price(tick_lower)),
{
}

/// Bounds of the constant-product output: it is never negative, never
/// exceeds the post-fee input, and the quotient it subtracts never
/// exceeds the liquidity.
pub proof fn lemma_swap_output_bounds(liquidity: int, amount_in: int)
    requires
        liquidity >= 0,
        amount_in >= 0,
        liquidity + amount_in > 0,
    ensures
        0 <= spec_swap_output(liquidity, amount_in),
        spec_swap_output(liquidity, amount_in) <= amount_in,
        liquidity * liquidity / (liquidity + amount_in) <= liquidity,
{
    let denom = liquidity + amount_in;
    let quotient = liquidity * liquidity / denom;
    lemma_mul_nonnegative(liquidity, liquidity);
    lemma_mul_nonnegative(amount_in, amount_in);
    lemma_div_pos_is_pos(liquidity * liquidity, denom);
    lemma_mul_inequality(liquidity, denom, liquidity);
    lemma_div_is_ordered(liquidity * liquidity, denom * liquidity, denom);
    lemma_div_multiples_vanish(liquidity, denom);
    lemma_mul_is_commutative(denom, liquidity);
    assert(quotient <= liquidity);
    assert((liquidity - amount_in) * denom == liquidity * liquidity - amount_in * amount_in)
        by (nonlinear_arith)
        requires
            denom == liquidity + amount_in,
    ;
    lemma_div_is_ordered((liquidity - amount_in) * denom, liquidity * liquidity, denom);
    lemma_div_multiples_vanish(liquidity - amount_in, denom);
    lemma_mul_is_commutative(denom, liquidity - amount_in);
    assert(quotient >= liquidity - amount_in);
}

/// Output amount of a swap under the constant-product approximation
/// `k = liquidity^2`, with the pool's liquidity standing in for both
/// reserves.
///
/// Succeeds exactly when `k` fits in 128 bits (the liquidity fits in 64
/// bits) and the grown reserve is non-zero. The two directions differ
/// only in which side is incremented, so the output value is the same
/// for both.
pub fn compute_swap_output(liquidity: u128, amount_in: u64, a_to_b: bool) -> (r: Result<
    u64,
    DexError,
>)
    ensures
        r is Ok <==> liquidity <= u64::MAX && liquidity + amount_in > 0,
        r matches Ok(out) ==> out == spec_swap_output(liquidity as int, amount_in as int),
        r is Err ==> r == Err::<u64, DexError>(DexError::MathOverflow),
{
    proof {
        if liquidity > u64::MAX {
            assert(liquidity * liquidity > u128::MAX) by (nonlinear_arith)
                requires
                    liquidity > u64::MAX,
            ;
        } else {
            lemma_mul_inequality(liquidity as int, u64::MAX as int, liquidity as int);
            lemma_mul_inequality(liquidity as int, u64::MAX as int, u64::MAX as int);
            lemma_mul_is_commutative(u64::MAX as int, liquidity as int);
        }
    }
    let k = match liquidity.checked_mul(liquidity) {
        Some(k) => k,
        None => return Err(DexError::MathOverflow),
    };
    let grown_side: u128 = liquidity + (amount_in as u128);
    if grown_side == 0 {
        return Err(DexError::MathOverflow);
    }
    let shrunk_side: u128 = k / grown_side;
    proof {
        lemma_swap_output_bounds(liquidity as int, amount_in as int);
    }
    if a_to_b {
        let new_b = shrunk_side;
        Ok((liquidity - new_b) as u64)
    } else {
        let new_a = shrunk_side;
        Ok((liquidity - new_a) as u64)
    }
}

/// The sqrt-price after a swap moves it by the price impact of the
/// post-fee input: down for A-to-B, up for B-to-A.
///
/// Fails with `MathOverflow` when the pool has no liquidity to divide
/// by, when an A-to-B impact would push the price below zero, or when a
/// B-to-A impact would overflow 128 bits.
pub fn compute_new_price(
    sqrt_price_x64: u128,
    liquidity: u128,
    amount_in: u64,
    a_to_b: bool,
) -> (r: Result<u128, DexError>)
    ensures
        r is Ok <==> liquidity > 0 && ({
            let impact = spec_price_impact(amount_in as int, liquidity as int);
            if a_to_b {
                impact <= sqrt_price_x64
            } else {
                sqrt_price_x64 + impact <= u128::MAX
            }
        }),
        r matches Ok(p) ==> ({
            let impact = spec_price_impact(amount_in as int, liquidity as int);
            if a_to_b {
                p == sqrt_price_x64 - impact
            } else {
                p == sqrt_price_x64 + impact
            }
        }),
        r is Err ==> r == Err::<u128, DexError>(DexError::MathOverflow),
{
    if liquidity == 0 {
        return Err(DexError::MathOverflow);
    }
    let impact: u128 = (amount_in as u128) * PRICE_IMPACT_SCALE / liquidity;
    if a_to_b {
        if impact > sqrt_price_x64 {
            return Err(DexError::MathOverflow);
        }
        Ok(sqrt_price_x64 - impact)
    } else {
        if impact > u128::MAX - sqrt_price_x64 {
            return Err(DexError::MathOverflow);
        }
        Ok(sqrt_price_x64 + impact)
    }
}

/// The fee is never negative and never exceeds the amount it is charged
/// on, as long as the rate does not exceed the full million parts.
pub proof fn lemma_fee_bounds(amount_in: int, fee_rate: int)
    requires
        amount_in >= 0,
        0 <= fee_rate <= FEE_RATE_DENOMINATOR,
    ensures
        0 <= spec_fee(amount_in, fee_rate),
        spec_fee(amount_in, fee_rate) <= amount_in,
{
    let denom = FEE_RATE_DENOMINATOR as int;
    lemma_mul_nonnegative(amount_in, fee_rate);
    lemma_div_pos_is_pos(amount_in * fee_rate, denom);
    lemma_mul_inequality(fee_rate, denom, amount_in);
    lemma_mul_is_commutative(fee_rate, amount_in);
    lemma_mul_is_commutative(denom, amount_in);
    lemma_div_is_ordered(amount_in * fee_rate, denom * amount_in, denom);
    lemma_div_multiples_vanish(amount_in, denom);
}

/// Law: a round trip loses value. Swapping an input A-to-B and then
/// swapping the proceeds back B-to-A, on unchanged liquidity and with
/// the fee charged on each leg, returns at most the original input:
/// fees and curvature only ever lose value, never create it.
pub proof fn lemma_swap_round_trip(liquidity: int, amount_in: int, fee_rate: int)
    requires
        liquidity > 0,
        amount_in >= 0,
        0 <= fee_rate <= FEE_RATE_DENOMINATOR,
    ensures
        ({
            let first_out = spec_swap_output(liquidity, spec_after_fee(amount_in, fee_rate));
            let second_out = spec_swap_output(liquidity, spec_after_fee(first_out, fee_rate));
            second_out <= amount_in
        }),
{
    lemma_fee_bounds(amount_in, fee_rate);
    let first_in = spec_after_fee(amount_in, fee_rate);
    lemma_swap_output_bounds(liquidity, first_in);
    let first_out = spec_swap_output(liquidity, first_in);
    lemma_fee_bounds(first_out, fee_rate);
    let second_in = spec_after_fee(first_out, fee_rate);
    lemma_swap_output_bounds(liquidity, second_in);
}

} // verus!
