//! Settlement core of an automated market-making exchange with
//! concentrated-liquidity pricing.
//!
//! The crate holds the pricing and state-transition engine: fixed-point
//! price math, liquidity accounting, the swap engine, the pool state
//! machine and limit-order escrow bookkeeping. Custody transfers and the
//! clock are external collaborators: every operation computes first, and
//! hands the ledger transfers it needs back to the caller as plain
//! requests, to be executed atomically with the state change.

pub mod errors;
pub mod math;
pub mod order;
pub mod pool;

pub use errors::DexError;
pub use math::{compute_liquidity_delta, compute_new_price, compute_swap_output, tick_to_sqrt_price};
pub use order::{place_limit_order, LimitOrder, PlaceOrderOutcome};
pub use pool::{
    add_liquidity, initialize_pool, swap, AccountId, AddLiquidityOutcome, AssetSide, Party, Pool,
    Position, SwapOutcome, TransferRequest,
};
