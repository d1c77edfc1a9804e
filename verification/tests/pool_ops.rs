use solana_dex::{
    add_liquidity, initialize_pool, swap, AssetSide, DexError, Party, Pool, Position,
};

fn id(tag: u8) -> [u8; 32] {
    let mut bytes: [u8; 32] = [0; 32];
    bytes[0] = tag;
    bytes
}

fn test_pool(sqrt_price_x64: u128, liquidity: u128, fee_rate: u64) -> Pool {
    let mut pool: Pool = initialize_pool(
        id(1),
        id(2),
        id(3),
        id(4),
        id(5),
        7,
        -999,
        -997,
        sqrt_price_x64,
        fee_rate,
    )
    .unwrap();
    pool.liquidity = liquidity;
    pool
}

#[test]
fn initialize_pool_sets_identity_and_zeroes_state() {
    let pool: Pool = test_pool(2_000_000, 0, 3000);
    assert_eq!(pool.token_a_mint, id(1));
    assert_eq!(pool.token_b_mint, id(2));
    assert_eq!(pool.token_a_vault, id(3));
    assert_eq!(pool.token_b_vault, id(4));
    assert_eq!(pool.authority, id(5));
    assert_eq!(pool.bump, 7);
    assert_eq!(pool.tick_lower, -999);
    assert_eq!(pool.tick_upper, -997);
    assert_eq!(pool.sqrt_price_x64, 2_000_000);
    assert_eq!(pool.fee_rate, 3000);
    assert_eq!(pool.liquidity, 0);
    assert_eq!(pool.total_fees_a, 0);
    assert_eq!(pool.total_fees_b, 0);
}

#[test]
fn initialize_pool_rejects_unordered_tick_range() {
    assert_eq!(
        initialize_pool(id(1), id(2), id(3), id(4), id(5), 7, 100, 100, 2_000_000, 3000),
        Err(DexError::InvalidTickRange)
    );
    assert_eq!(
        initialize_pool(id(1), id(2), id(3), id(4), id(5), 7, 101, 100, 2_000_000, 3000),
        Err(DexError::InvalidTickRange)
    );
}

#[test]
fn initialize_pool_twice_is_deterministic_and_unchecked_here() {
    // The core performs no duplicate check: initializing twice with the
    // same parameters succeeds twice and yields identical records. In a
    // full system the keyed store that holds pool records must reject
    // the second creation as a duplicate identity — that rejection is
    // the collaborator's boundary, not this core's.
    let first: Result<Pool, DexError> =
        initialize_pool(id(1), id(2), id(3), id(4), id(5), 7, -999, -997, 2_000_000, 3000);
    let second: Result<Pool, DexError> =
        initialize_pool(id(1), id(2), id(3), id(4), id(5), 7, -999, -997, 2_000_000, 3000);
    assert!(first.is_ok());
    assert_eq!(first, second);
}

#[test]
fn add_liquidity_commits_delta_and_transfers() {
    let mut pool: Pool = test_pool(2_000_000, 0, 3000);
    let mut position: Position = Position::new(id(9), id(6));
    let outcome = add_liquidity(
        &mut pool,
        &mut position,
        id(9),
        id(6),
        500,
        3_000_000_000,
        0,
        0,
    )
    .unwrap();
    assert_eq!(outcome.liquidity_delta, 1000);
    assert_eq!(pool.liquidity, 1000);
    assert_eq!(pool.sqrt_price_x64, 2_000_000);
    assert_eq!(pool.total_fees_a, 0);
    assert_eq!(pool.total_fees_b, 0);
    assert_eq!(position.pool, id(9));
    assert_eq!(position.owner, id(6));
    assert_eq!(position.liquidity, 1000);
    assert_eq!(position.tick_lower, -999);
    assert_eq!(position.tick_upper, -997);
    assert_eq!(outcome.transfer_a.asset, AssetSide::A);
    assert_eq!(outcome.transfer_a.from, Party::User);
    assert_eq!(outcome.transfer_a.to, Party::PoolVaultA);
    assert_eq!(outcome.transfer_a.amount, 500);
    assert_eq!(outcome.transfer_b.asset, AssetSide::B);
    assert_eq!(outcome.transfer_b.from, Party::User);
    assert_eq!(outcome.transfer_b.to, Party::PoolVaultB);
    assert_eq!(outcome.transfer_b.amount, 3_000_000_000);
}

#[test]
fn add_liquidity_accumulates_on_repeat() {
    let mut pool: Pool = test_pool(2_000_000, 0, 3000);
    let mut position: Position = Position::new(id(9), id(6));
    add_liquidity(&mut pool, &mut position, id(9), id(6), 500, 3_000_000_000, 0, 0).unwrap();
    add_liquidity(&mut pool, &mut position, id(9), id(6), 500, 3_000_000_000, 0, 0).unwrap();
    assert_eq!(pool.liquidity, 2000);
    assert_eq!(position.liquidity, 2000);
}

#[test]
fn add_liquidity_ignores_min_bounds() {
    // The slippage bounds are accepted but not checked against usage.
    let mut pool: Pool = test_pool(2_000_000, 0, 3000);
    let mut position: Position = Position::new(id(9), id(6));
    let outcome = add_liquidity(
        &mut pool,
        &mut position,
        id(9),
        id(6),
        500,
        3_000_000_000,
        u64::MAX,
        u64::MAX,
    );
    assert!(outcome.is_ok());
}

#[test]
fn add_liquidity_rejects_price_outside_range_and_changes_nothing() {
    let mut pool: Pool = test_pool(3_000_000, 0, 3000);
    let mut position: Position = Position::new(id(9), id(6));
    let before_pool: Pool = pool.clone();
    let before_position: Position = position;
    assert_eq!(
        add_liquidity(&mut pool, &mut position, id(9), id(6), 500, 500, 0, 0),
        Err(DexError::MathOverflow)
    );
    assert_eq!(pool, before_pool);
    assert_eq!(position, before_position);
}

#[test]
fn swap_concrete_scenario_exact_values() {
    // sqrt price 2_000_000, liquidity 1_000_000, fee rate 3000 ppm:
    // fee = 30, post-fee input = 9_970, k = 10^12, grown side
    // 1_009_970, shrunk side floor(k / 1_009_970) = 990_128, output
    // 9_872, impact 9_970.
    let mut pool: Pool = test_pool(2_000_000, 1_000_000, 3000);
    let outcome = swap(&mut pool, 10_000, 0, true).unwrap();
    assert_eq!(outcome.fee_amount, 30);
    assert_eq!(outcome.amount_out, 9_872);
    assert_eq!(outcome.amount_out as u128, 1_000_000 - 1_000_000_000_000u128 / 1_009_970);
    assert_eq!(pool.sqrt_price_x64, 1_990_030);
    assert_eq!(pool.liquidity, 1_000_000);
    assert_eq!(pool.total_fees_a, 30);
    assert_eq!(pool.total_fees_b, 0);
    assert_eq!(outcome.transfer_in.asset, AssetSide::A);
    assert_eq!(outcome.transfer_in.from, Party::User);
    assert_eq!(outcome.transfer_in.to, Party::PoolVaultA);
    assert_eq!(outcome.transfer_in.amount, 10_000);
    assert_eq!(outcome.transfer_out.asset, AssetSide::B);
    assert_eq!(outcome.transfer_out.from, Party::PoolVaultB);
    assert_eq!(outcome.transfer_out.to, Party::User);
    assert_eq!(outcome.transfer_out.amount, 9_872);
}

#[test]
fn swap_slippage_rejection_leaves_pool_unchanged() {
    let mut pool: Pool = test_pool(2_000_000, 1_000_000, 3000);
    let before: Pool = pool.clone();
    assert_eq!(
        swap(&mut pool, 10_000, 9_873, true),
        Err(DexError::SlippageExceeded)
    );
    assert_eq!(pool, before);
}

#[test]
fn swap_at_exact_minimum_succeeds() {
    let mut pool: Pool = test_pool(2_000_000, 1_000_000, 3000);
    let outcome = swap(&mut pool, 10_000, 9_872, true).unwrap();
    assert_eq!(outcome.amount_out, 9_872);
}

#[test]
fn swap_b_to_a_accrues_fees_on_b_and_raises_price() {
    let mut pool: Pool = test_pool(2_000_000, 1_000_000, 3000);
    let outcome = swap(&mut pool, 10_000, 0, false).unwrap();
    assert_eq!(outcome.amount_out, 9_872);
    assert_eq!(pool.sqrt_price_x64, 2_009_970);
    assert_eq!(pool.total_fees_a, 0);
    assert_eq!(pool.total_fees_b, 30);
    assert_eq!(outcome.transfer_in.asset, AssetSide::B);
    assert_eq!(outcome.transfer_in.to, Party::PoolVaultB);
    assert_eq!(outcome.transfer_out.asset, AssetSide::A);
    assert_eq!(outcome.transfer_out.from, Party::PoolVaultA);
}

#[test]
fn swap_round_trip_never_gains() {
    let mut pool: Pool = test_pool(2_000_000, 1_000_000, 3000);
    let first = swap(&mut pool, 10_000, 0, true).unwrap();
    // Liquidity is unchanged by a swap, so the return leg runs on the
    // same depth.
    let second = swap(&mut pool, first.amount_out, 0, false).unwrap();
    assert!(second.amount_out <= 10_000);
    // Exact value of the return leg from the same formula: fee 29 on
    // 9_872, post-fee 9_843.
    assert_eq!(
        second.amount_out as u128,
        1_000_000 - 1_000_000_000_000u128 / (1_000_000 + 9_843)
    );
}

#[test]
fn swap_fees_floor_per_call_not_on_aggregate() {
    // Two gross inputs of 333 at 3000 ppm: each fee floors to 0, so the
    // total stays 0, although one call of 666 would have been charged
    // floor(666 * 3000 / 1_000_000) = 1.
    let mut pool: Pool = test_pool(2_000_000, 1_000_000, 3000);
    swap(&mut pool, 333, 0, true).unwrap();
    swap(&mut pool, 333, 0, true).unwrap();
    assert_eq!(pool.total_fees_a, 0);
    assert_eq!(666u64 * 3000 / 1_000_000, 1);
}

#[test]
fn swap_fees_accumulate_per_call() {
    let mut pool: Pool = test_pool(20_000_000, 1_000_000, 3000);
    swap(&mut pool, 10_000, 0, true).unwrap();
    swap(&mut pool, 10_000, 0, true).unwrap();
    swap(&mut pool, 10_000, 0, true).unwrap();
    assert_eq!(pool.total_fees_a, 90);
}

#[test]
fn swap_with_full_fee_rate_returns_nothing() {
    // A 1_000_000 ppm rate takes the whole input as fee; the post-fee
    // input is zero and the output is zero.
    let mut pool: Pool = test_pool(2_000_000, 1_000_000, 1_000_000);
    let outcome = swap(&mut pool, 10_000, 0, true).unwrap();
    assert_eq!(outcome.fee_amount, 10_000);
    assert_eq!(outcome.amount_out, 0);
    assert_eq!(pool.sqrt_price_x64, 2_000_000);
    assert_eq!(pool.total_fees_a, 10_000);
}

#[test]
fn swap_rejects_fee_exceeding_input() {
    let mut pool: Pool = test_pool(2_000_000, 1_000_000, 2_000_000);
    let before: Pool = pool.clone();
    assert_eq!(swap(&mut pool, 10, 0, true), Err(DexError::MathOverflow));
    assert_eq!(pool, before);
}

#[test]
fn swap_rejects_fee_product_overflow() {
    let mut pool: Pool = test_pool(2_000_000, 1_000_000, u64::MAX);
    assert_eq!(swap(&mut pool, u64::MAX, 0, true), Err(DexError::MathOverflow));
}

#[test]
fn swap_rejects_empty_pool() {
    let mut pool: Pool = test_pool(2_000_000, 0, 3000);
    let before: Pool = pool.clone();
    assert_eq!(swap(&mut pool, 0, 0, true), Err(DexError::MathOverflow));
    assert_eq!(pool, before);
}

#[test]
fn swap_rejects_price_underflow() {
    // Impact 10_000 exceeds the sqrt-price 1_000: the price would go
    // negative, so the whole swap is rejected and nothing changes.
    let mut pool: Pool = test_pool(1_000, 1_000_000, 3000);
    let before: Pool = pool.clone();
    assert_eq!(swap(&mut pool, 10_030, 0, true), Err(DexError::MathOverflow));
    assert_eq!(pool, before);
}

#[test]
fn position_new_is_empty() {
    let position: Position = Position::new(id(9), id(6));
    assert_eq!(position.pool, id(9));
    assert_eq!(position.owner, id(6));
    assert_eq!(position.liquidity, 0);
    assert_eq!(position.tick_lower, 0);
    assert_eq!(position.tick_upper, 0);
    assert_eq!(position.fee_growth_inside_a, 0);
    assert_eq!(position.fee_growth_inside_b, 0);
}
