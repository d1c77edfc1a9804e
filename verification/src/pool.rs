//! The pool state machine: pool and position records, pool
//! initialization, liquidity provision and swaps.
//!
//! Custody is an external collaborator. An operation validates and
//! computes first; only when every check has passed does it commit the
//! state change and hand back the ledger transfers the caller must
//! execute atomically with it. On any error the pool and position are
//! left exactly as they were.

use vstd::arithmetic::div_mod::{
    lemma_div_is_ordered, lemma_div_multiples_vanish, lemma_div_of0, lemma_fundamental_div_mod,
    lemma_mod_division_less_than_divisor,
};
use vstd::prelude::*;

use crate::errors::DexError;
use crate::math::{
    compute_liquidity_delta, compute_new_price, compute_swap_output, spec_fee,
    spec_liquidity_delta, spec_liquidity_delta_ok, spec_price_impact, spec_swap_output,
    spec_tick_price, FEE_RATE_DENOMINATOR,
};

verus! {

/// A 32-byte account identifier, as the host ledger addresses pools,
/// vaults and owners.
pub type AccountId = [u8; 32];

/// Which of the pool's two assets a transfer moves.
#[derive(Clone, Copy, Debug, PartialEq, Eq)]
pub enum AssetSide {
    A,
    B,
}

/// A party to a custody transfer, named by its role in the operation.
/// The caller maps each role to the concrete ledger account.
#[derive(Clone, Copy, Debug, PartialEq, Eq)]
pub enum Party {
    /// The user invoking the operation.
    User,
    /// The pool's custody vault for asset A.
    PoolVaultA,
    /// The pool's custody vault for asset B.
    PoolVaultB,
    /// The escrow vault of a freshly placed limit order.
    OrderVault,
}

/// One ledger movement the caller must execute: `amount` units of the
/// named asset from one party to the other, atomically with the state
/// change of the operation that issued it.
#[derive(Clone, Copy, Debug, PartialEq, Eq)]
pub struct TransferRequest {
    pub asset: AssetSide,
    pub from: Party,
    pub to: Party,
    pub amount: u64,
}

/// One concentrated-liquidity pool: identity fields fixed at
/// initialization, and the mutable price, liquidity and fee totals that
/// only the operations of this module change.
#[derive(Clone, Debug, PartialEq, Eq)]
pub struct Pool {
    pub token_a_mint: AccountId,
    pub token_b_mint: AccountId,
    pub token_a_vault: AccountId,
    pub token_b_vault: AccountId,
    pub tick_lower: i32,
    pub tick_upper: i32,
    pub sqrt_price_x64: u128,
    pub liquidity: u128,
    pub fee_rate: u64,
    pub total_fees_a: u64,
    pub total_fees_b: u64,
    pub authority: AccountId,
    pub bump: u8,
}

/// One owner's liquidity stake in a pool. The tick bounds are copied
/// from the pool: every position shares the pool's single range.
#[derive(Clone, Copy, Debug, PartialEq, Eq)]
pub struct Position {
    pub pool: AccountId,
    pub owner: AccountId,
    pub liquidity: u128,
    pub tick_lower: i32,
    pub tick_upper: i32,
    pub fee_growth_inside_a: u128,
    pub fee_growth_inside_b: u128,
}

impl Pool {
    /// Well-formedness: the tick bounds form a proper range.
    /// Initialization establishes it and no operation changes the
    /// bounds.
    pub open spec fn wf(self) -> bool {
        self.tick_lower < self.tick_upper
    }

    /// The sqrt-price lies strictly inside the range implied by the
    /// tick bounds. Liquidity provision requires and re-establishes
    /// it; a swap's linear price impact may step outside it.
    pub open spec fn price_in_range(self) -> bool {
        spec_tick_price(self.tick_lower as int) < self.sqrt_price_x64
            && self.sqrt_price_x64 < spec_tick_price(self.tick_upper as int)
    }

    /// The identity and configuration fields initialization fixed:
    /// everything but price, liquidity and the fee totals.
    pub open spec fn same_config(self, other: Pool) -> bool {
        &&& self.token_a_mint == other.token_a_mint
        &&& self.token_b_mint == other.token_b_mint
        &&& self.token_a_vault == other.token_a_vault
        &&& self.token_b_vault == other.token_b_vault
        &&& self.tick_lower == other.tick_lower
        &&& self.tick_upper == other.tick_upper
        &&& self.fee_rate == other.fee_rate
        &&& self.authority == other.authority
        &&& self.bump == other.bump
    }
}

impl Position {
    /// A fresh, empty position for `owner` in the pool at `pool`, as
    /// the host creates one the first time an owner adds liquidity.
    pub fn new(pool: AccountId, owner: AccountId) -> (p: Position)
        ensures
            p.pool == pool,
            p.owner == owner,
            p.liquidity == 0,
            p.tick_lower == 0,
            p.tick_upper == 0,
            p.fee_growth_inside_a == 0,
            p.fee_growth_inside_b == 0,
    {
        Position {
            pool,
            owner,
            liquidity: 0,
            tick_lower: 0,
            tick_upper: 0,
            fee_growth_inside_a: 0,
            fee_growth_inside_b: 0,
        }
    }
}

/// What a successful `add_liquidity` hands back: the liquidity added
/// and the two custody transfers funding it.
#[derive(Clone, Copy, Debug, PartialEq, Eq)]
pub struct AddLiquidityOutcome {
    pub liquidity_delta: u128,
    pub transfer_a: TransferRequest,
    pub transfer_b: TransferRequest,
}

/// What a successful `swap` hands back: the output owed to the trader,
/// the fee withheld, and the two custody transfers to execute.
#[derive(Clone, Copy, Debug, PartialEq, Eq)]
pub struct SwapOutcome {
    pub amount_out: u64,
    pub fee_amount: u64,
    pub transfer_in: TransferRequest,
    pub transfer_out: TransferRequest,
}

/// Creates a pool record with the given identity and configuration,
/// zero liquidity and zero accrued fees.
///
/// Rejects a tick range whose bounds are not strictly ordered with
/// `InvalidTickRange`. The record's identity is the caller's key; a
/// duplicate of an existing pool must be rejected by the store that
/// holds the records, not here.
pub fn initialize_pool(
    token_a_mint: AccountId,
    token_b_mint: AccountId,
    token_a_vault: AccountId,
    token_b_vault: AccountId,
    authority: AccountId,
    bump: u8,
    tick_lower: i32,
    tick_upper: i32,
    sqrt_price_x64: u128,
    fee_rate: u64,
) -> (r: Result<Pool, DexError>)
    ensures
        r is Ok <==> tick_lower < tick_upper,
        r matches Ok(pool) ==> {
            &&& pool.token_a_mint == token_a_mint
            &&& pool.token_b_mint == token_b_mint
            &&& pool.token_a_vault == token_a_vault
            &&& pool.token_b_vault == token_b_vault
            &&& pool.tick_lower == tick_lower
            &&& pool.tick_upper == tick_upper
            &&& pool.sqrt_price_x64 == sqrt_price_x64
            &&& pool.fee_rate == fee_rate
            &&& pool.liquidity == 0
            &&& pool.total_fees_a == 0
            &&& pool.total_fees_b == 0
            &&& pool.authority == authority
            &&& pool.bump == bump
            &&& pool.wf()
        },
        r is Err ==> r == Err::<Pool, DexError>(DexError::InvalidTickRange),
{
    if tick_lower >= tick_upper {
        return Err(DexError::InvalidTickRange);
    }
    Ok(
        Pool {
            token_a_mint,
            token_b_mint,
            token_a_vault,
            token_b_vault,
            tick_lower,
            tick_upper,
            sqrt_price_x64,
            liquidity: 0,
            fee_rate,
            total_fees_a: 0,
            total_fees_b: 0,
            authority,
            bump,
        },
    )
}

/// Adds liquidity to the pool and to the caller's position.
///
/// The delta is the minimum of the A-implied and B-implied candidates
/// at the current price; the deposit amounts move whole into the pool's
/// vaults. The slippage bounds `amount_a_min` and `amount_b_min` are
/// accepted but not checked against actual usage. On any error both
/// records are unchanged.
#[allow(unused_variables)]
pub fn add_liquidity(
    pool: &mut Pool,
    position: &mut Position,
    pool_id: AccountId,
    owner: AccountId,
    amount_a: u64,
    amount_b: u64,
    amount_a_min: u64,
    amount_b_min: u64,
) -> (r: Result<AddLiquidityOutcome, DexError>)
    ensures
        r is Ok <==> ({
            let delta = spec_liquidity_delta(
                old(pool).sqrt_price_x64 as int,
                old(pool).tick_lower as int,
                old(pool).tick_upper as int,
                amount_a as int,
                amount_b as int,
            );
            &&& spec_liquidity_delta_ok(
                old(pool).sqrt_price_x64 as int,
                old(pool).tick_lower as int,
                old(pool).tick_upper as int,
                amount_a as int,
            )
            &&& old(pool).liquidity + delta <= u128::MAX
            &&& old(position).liquidity + delta <= u128::MAX
        }),
        r matches Ok(o) ==> ({
            let delta = spec_liquidity_delta(
                old(pool).sqrt_price_x64 as int,
                old(pool).tick_lower as int,
                old(pool).tick_upper as int,
                amount_a as int,
                amount_b as int,
            );
            &&& o.liquidity_delta == delta
            &&& final(pool).liquidity == old(pool).liquidity + delta
            &&& final(pool).sqrt_price_x64 == old(pool).sqrt_price_x64
            &&& final(pool).total_fees_a == old(pool).total_fees_a
            &&& final(pool).total_fees_b == old(pool).total_fees_b
            &&& final(pool).same_config(*old(pool))
            &&& final(pool).price_in_range()
            &&& final(pool).wf()
            &&& final(position).pool == pool_id
            &&& final(position).owner == owner
            &&& final(position).liquidity == old(position).liquidity + delta
            &&& final(position).tick_lower == old(pool).tick_lower
            &&& final(position).tick_upper == old(pool).tick_upper
            &&& final(position).fee_growth_inside_a == old(position).fee_growth_inside_a
            &&& final(position).fee_growth_inside_b == old(position).fee_growth_inside_b
            &&& final(pool).liquidity >= old(pool).liquidity
            &&& final(position).liquidity >= old(position).liquidity
            &&& o.transfer_a == (TransferRequest {
                asset: AssetSide::A,
                from: Party::User,
                to: Party::PoolVaultA,
                amount: amount_a,
            })
            &&& o.transfer_b == (TransferRequest {
                asset: AssetSide::B,
                from: Party::User,
                to: Party::PoolVaultB,
                amount: amount_b,
            })
        }),
        r is Err ==> {
            &&& *final(pool) == *old(pool)
            &&& *final(position) == *old(position)
            &&& r == Err::<AddLiquidityOutcome, DexError>(DexError::MathOverflow)
        },
{
    let liquidity_delta = match compute_liquidity_delta(
        pool.sqrt_price_x64,
        pool.tick_lower,
        pool.tick_upper,
        amount_a,
        amount_b,
    ) {
        Ok(d) => d,
        Err(e) => return Err(e),
    };
    let new_pool_liquidity = match pool.liquidity.checked_add(liquidity_delta) {
        Some(l) => l,
        None => return Err(DexError::MathOverflow),
    };
    let new_position_liquidity = match position.liquidity.checked_add(liquidity_delta) {
        Some(l) => l,
        None => return Err(DexError::MathOverflow),
    };
    pool.liquidity = new_pool_liquidity;
    position.pool = pool_id;
    position.owner = owner;
    position.liquidity = new_position_liquidity;
    position.tick_lower = pool.tick_lower;
    position.tick_upper = pool.tick_upper;
    Ok(
        AddLiquidityOutcome {
            liquidity_delta,
            transfer_a: TransferRequest {
                asset: AssetSide::A,
                from: Party::User,
                to: Party::PoolVaultA,
                amount: amount_a,
            },
            transfer_b: TransferRequest {
                asset: AssetSide::B,
                from: Party::User,
                to: Party::PoolVaultB,
                amount: amount_b,
            },
        },
    )
}

/// When the fee computation on the gross input succeeds: the product
/// fits in 64 bits and the fee does not exceed the input.
pub open spec fn spec_swap_fee_ok(pool: Pool, amount_in: int) -> bool {
    &&& amount_in * pool.fee_rate <= u64::MAX
    &&& spec_fee(amount_in, pool.fee_rate as int) <= amount_in
}

/// The post-fee input of a swap against `pool`.
pub open spec fn spec_swap_in_after_fee(pool: Pool, amount_in: int) -> int {
    amount_in - spec_fee(amount_in, pool.fee_rate as int)
}

/// When the output computation succeeds as well: the fee step succeeds,
/// `liquidity^2` fits in 128 bits and the grown reserve is non-zero.
pub open spec fn spec_swap_output_ok(pool: Pool, amount_in: int) -> bool {
    &&& spec_swap_fee_ok(pool, amount_in)
    &&& pool.liquidity <= u64::MAX
    &&& pool.liquidity + spec_swap_in_after_fee(pool, amount_in) > 0
}

/// The output a swap of `amount_in` against `pool` pays out.
pub open spec fn spec_swap_amount_out(pool: Pool, amount_in: int) -> int {
    spec_swap_output(pool.liquidity as int, spec_swap_in_after_fee(pool, amount_in))
}

/// When the whole swap succeeds: every arithmetic step is in range, the
/// output meets the caller's minimum, the fee total on the input side
/// does not overflow, and the price impact keeps the new sqrt-price
/// representable.
pub open spec fn spec_swap_ok(pool: Pool, amount_in: int, amount_out_min: int, a_to_b: bool) -> bool {
    let fee = spec_fee(amount_in, pool.fee_rate as int);
    let impact = spec_price_impact(spec_swap_in_after_fee(pool, amount_in), pool.liquidity as int);
    &&& spec_swap_output_ok(pool, amount_in)
    &&& spec_swap_amount_out(pool, amount_in) >= amount_out_min
    &&& (a_to_b ==> pool.total_fees_a + fee <= u64::MAX)
    &&& (!a_to_b ==> pool.total_fees_b + fee <= u64::MAX)
    &&& pool.liquidity > 0
    &&& (a_to_b ==> impact <= pool.sqrt_price_x64)
    &&& (!a_to_b ==> pool.sqrt_price_x64 + impact <= u128::MAX)
}

/// Swaps `amount_in` of one asset for the other against the pool.
///
/// The fee is withheld from the gross input, the output is computed
/// from the post-fee amount, slippage below `amount_out_min` is
/// rejected, the fee accrues to the input side's total, and the
/// sqrt-price moves by the post-fee impact — all committed together, or
/// not at all. The gross input moves to the input-side vault (the fee
/// stays commingled there); the output moves from the other vault to
/// the trader.
pub fn swap(pool: &mut Pool, amount_in: u64, amount_out_min: u64, a_to_b: bool) -> (r: Result<
    SwapOutcome,
    DexError,
>)
    ensures
        r is Ok <==> spec_swap_ok(*old(pool), amount_in as int, amount_out_min as int, a_to_b),
        r matches Ok(o) ==> ({
            let fee = spec_fee(amount_in as int, old(pool).fee_rate as int);
            let impact = spec_price_impact(
                spec_swap_in_after_fee(*old(pool), amount_in as int),
                old(pool).liquidity as int,
            );
            &&& o.amount_out == spec_swap_amount_out(*old(pool), amount_in as int)
            &&& o.fee_amount == fee
            &&& final(pool).liquidity == old(pool).liquidity
            &&& final(pool).sqrt_price_x64 == (if a_to_b {
                old(pool).sqrt_price_x64 - impact
            } else {
                old(pool).sqrt_price_x64 + impact
            })
            &&& final(pool).total_fees_a == (if a_to_b {
                old(pool).total_fees_a + fee
            } else {
                old(pool).total_fees_a as int
            })
            &&& final(pool).total_fees_b == (if a_to_b {
                old(pool).total_fees_b as int
            } else {
                old(pool).total_fees_b + fee
            })
            &&& final(pool).same_config(*old(pool))
            &&& o.transfer_in == (TransferRequest {
                asset: if a_to_b { AssetSide::A } else { AssetSide::B },
                from: Party::User,
                to: if a_to_b { Party::PoolVaultA } else { Party::PoolVaultB },
                amount: amount_in,
            })
            &&& o.transfer_out == (TransferRequest {
                asset: if a_to_b { AssetSide::B } else { AssetSide::A },
                from: if a_to_b { Party::PoolVaultB } else { Party::PoolVaultA },
                to: Party::User,
                amount: o.amount_out,
            })
            &&& o.amount_out <= amount_in
            &&& final(pool).total_fees_a >= old(pool).total_fees_a
            &&& final(pool).total_fees_b >= old(pool).total_fees_b
        }),
        r is Err ==> *final(pool) == *old(pool),
        r == Err::<SwapOutcome, DexError>(DexError::SlippageExceeded) <==> ({
            &&& spec_swap_output_ok(*old(pool), amount_in as int)
            &&& spec_swap_amount_out(*old(pool), amount_in as int) < amount_out_min
        }),
        r is Err ==> (r == Err::<SwapOutcome, DexError>(DexError::SlippageExceeded) || r
            == Err::<SwapOutcome, DexError>(DexError::MathOverflow)),
{
    let fee_amount = match amount_in.checked_mul(pool.fee_rate) {
        Some(product) => product / FEE_RATE_DENOMINATOR,
        None => return Err(DexError::MathOverflow),
    };
    if fee_amount > amount_in {
        return Err(DexError::MathOverflow);
    }
    let amount_in_after_fee = amount_in - fee_amount;
    let amount_out = match compute_swap_output(pool.liquidity, amount_in_after_fee, a_to_b) {
        Ok(out) => out,
        Err(e) => return Err(e),
    };
    proof {
        crate::math::lemma_swap_output_bounds(pool.liquidity as int, amount_in_after_fee as int);
    }
    if amount_out < amount_out_min {
        return Err(DexError::SlippageExceeded);
    }
    if a_to_b {
        if fee_amount > u64::MAX - pool.total_fees_a {
            return Err(DexError::MathOverflow);
        }
    } else {
        if fee_amount > u64::MAX - pool.total_fees_b {
            return Err(DexError::MathOverflow);
        }
    }
    let new_sqrt_price = match compute_new_price(
        pool.sqrt_price_x64,
        pool.liquidity,
        amount_in_after_fee,
        a_to_b,
    ) {
        Ok(p) => p,
        Err(e) => return Err(e),
    };
    if a_to_b {
        pool.total_fees_a = pool.total_fees_a + fee_amount;
    } else {
        pool.total_fees_b = pool.total_fees_b + fee_amount;
    }
    pool.sqrt_price_x64 = new_sqrt_price;
    Ok(
        SwapOutcome {
            amount_out,
            fee_amount,
            transfer_in: TransferRequest {
                asset: if a_to_b { AssetSide::A } else { AssetSide::B },
                from: Party::User,
                to: if a_to_b { Party::PoolVaultA } else { Party::PoolVaultB },
                amount: amount_in,
            },
            transfer_out: TransferRequest {
                asset: if a_to_b { AssetSide::B } else { AssetSide::A },
                from: if a_to_b { Party::PoolVaultB } else { Party::PoolVaultA },
                to: Party::User,
                amount: amount_out,
            },
        },
    )
}

/// Law: a swap round trip against a pool never gains. A swap leaves
/// liquidity and the fee rate unchanged, so swapping `amount_in` one
/// way and then swapping the proceeds back is two applications of the
/// same output map — and their composition never exceeds the original
/// input.
pub proof fn lemma_pool_swap_round_trip(pool: Pool, amount_in: int)
    requires
        pool.liquidity > 0,
        pool.fee_rate <= FEE_RATE_DENOMINATOR,
        amount_in >= 0,
    ensures
        spec_swap_amount_out(pool, spec_swap_amount_out(pool, amount_in)) <= amount_in,
{
    crate::math::lemma_swap_round_trip(
        pool.liquidity as int,
        amount_in,
        pool.fee_rate as int,
    );
}

/// The per-call fees of a run of swaps: the sum of each gross input's
/// own floored fee.
pub open spec fn spec_fee_sum(amounts: Seq<u64>, fee_rate: int) -> int
    decreases amounts.len(),
{
    if amounts.len() == 0 {
        0
    } else {
        spec_fee(amounts.first() as int, fee_rate) + spec_fee_sum(amounts.drop_first(), fee_rate)
    }
}

/// A fee total after a run of swaps in one direction, each accruing its
/// own floored fee onto the running total, as `swap` does.
pub open spec fn spec_fees_after_swaps(start: int, amounts: Seq<u64>, fee_rate: int) -> int
    decreases amounts.len(),
{
    if amounts.len() == 0 {
        start
    } else {
        spec_fees_after_swaps(
            start + spec_fee(amounts.first() as int, fee_rate),
            amounts.drop_first(),
            fee_rate,
        )
    }
}

/// The aggregate gross input of a run of swaps.
pub open spec fn spec_total_input(amounts: Seq<u64>) -> int
    decreases amounts.len(),
{
    if amounts.len() == 0 {
        0
    } else {
        amounts.first() + spec_total_input(amounts.drop_first())
    }
}

/// Law: after a run of swaps the fee total equals the start plus the
/// sum of the per-call floored fees — the fee is floored per call, not
/// once on the aggregate input.
pub proof fn lemma_fee_accrual_per_call(start: int, amounts: Seq<u64>, fee_rate: int)
    ensures
        spec_fees_after_swaps(start, amounts, fee_rate) == start + spec_fee_sum(
            amounts,
            fee_rate,
        ),
    decreases amounts.len(),
{
    if amounts.len() > 0 {
        lemma_fee_accrual_per_call(
            start + spec_fee(amounts.first() as int, fee_rate),
            amounts.drop_first(),
            fee_rate,
        );
    }
}

/// Flooring per call never collects more than flooring once would:
/// `fee(a) + fee(b) <= fee(a + b)`.
pub proof fn lemma_fee_superadditive(a: int, b: int, fee_rate: int)
    requires
        a >= 0,
        b >= 0,
        fee_rate >= 0,
    ensures
        spec_fee(a, fee_rate) + spec_fee(b, fee_rate) <= spec_fee(a + b, fee_rate),
{
    let m = FEE_RATE_DENOMINATOR as int;
    let quot_a = a * fee_rate / m;
    let quot_b = b * fee_rate / m;
    lemma_fundamental_div_mod(a * fee_rate, m);
    lemma_fundamental_div_mod(b * fee_rate, m);
    lemma_mod_division_less_than_divisor(a * fee_rate, m);
    lemma_mod_division_less_than_divisor(b * fee_rate, m);
    assert((a + b) * fee_rate == a * fee_rate + b * fee_rate) by (nonlinear_arith);
    lemma_div_is_ordered(m * (quot_a + quot_b), (a + b) * fee_rate, m);
    lemma_div_multiples_vanish(quot_a + quot_b, m);
}

/// Law: the per-call fee sum of a run of swaps never exceeds the fee
/// the aggregate input would have been charged in one call.
pub proof fn lemma_fee_sum_le_aggregate(amounts: Seq<u64>, fee_rate: int)
    requires
        fee_rate >= 0,
    ensures
        spec_total_input(amounts) >= 0,
        spec_fee_sum(amounts, fee_rate) <= spec_fee(spec_total_input(amounts), fee_rate),
    decreases amounts.len(),
{
    if amounts.len() == 0 {
        lemma_div_of0(FEE_RATE_DENOMINATOR as int);
    } else {
        let first = amounts.first() as int;
        let rest = spec_total_input(amounts.drop_first());
        lemma_fee_sum_le_aggregate(amounts.drop_first(), fee_rate);
        lemma_fee_superadditive(first, rest, fee_rate);
    }
}

} // verus!
