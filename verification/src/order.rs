//! Limit-order escrow bookkeeping: recording a resting order and
//! issuing the transfer that moves its funding asset into escrow.
//!
//! Placement is the only operation this core implements; matching,
//! fill, cancel and expiry paths belong to a future matcher. `expiry`
//! is stored data only — nothing here evaluates it.

use vstd::prelude::*;

use crate::errors::DexError;
use crate::pool::{AccountId, AssetSide, Party, TransferRequest};

verus! {

/// A resting limit order. `amount_out` and `is_filled` are written only
/// by a matching process external to this core; here they start at
/// zero and false.
#[derive(Clone, Copy, Debug, PartialEq, Eq)]
pub struct LimitOrder {
    pub owner: AccountId,
    pub pool: AccountId,
    pub amount_in: u64,
    pub amount_out: u64,
    pub price: u64,
    pub is_bid: bool,
    pub is_filled: bool,
    pub expiry: i64,
    pub created_at: i64,
}

impl LimitOrder {
    /// A placed order always escrows something.
    pub open spec fn wf(self) -> bool {
        self.amount_in > 0
    }
}

/// What a successful placement hands back: the recorded order and the
/// transfer that funds its escrow vault.
#[derive(Clone, Copy, Debug, PartialEq, Eq)]
pub struct PlaceOrderOutcome {
    pub order: LimitOrder,
    pub transfer_in: TransferRequest,
}

/// Records a resting limit order against the pool at `pool_id` and
/// issues the transfer of its offered asset into a dedicated escrow
/// vault: asset B when bidding, asset A when asking.
///
/// An order for nothing escrows nothing and is rejected with
/// `InsufficientLiquidity`, keeping every recorded order non-empty.
/// `created_at` is stamped with the caller-read clock `now`; the expiry
/// is stored unchecked. Pool price and liquidity are untouched.
pub fn place_limit_order(
    pool_id: AccountId,
    owner: AccountId,
    amount_in: u64,
    price: u64,
    is_bid: bool,
    expiry: i64,
    now: i64,
) -> (r: Result<PlaceOrderOutcome, DexError>)
    ensures
        r is Ok <==> amount_in > 0,
        r matches Ok(o) ==> {
            &&& o.order.owner == owner
            &&& o.order.pool == pool_id
            &&& o.order.amount_in == amount_in
            &&& o.order.amount_out == 0
            &&& o.order.price == price
            &&& o.order.is_bid == is_bid
            &&& !o.order.is_filled
            &&& o.order.expiry == expiry
            &&& o.order.created_at == now
            &&& o.order.wf()
            &&& o.transfer_in == (TransferRequest {
                asset: if is_bid { AssetSide::B } else { AssetSide::A },
                from: Party::User,
                to: Party::OrderVault,
                amount: amount_in,
            })
        },
        r is Err ==> r == Err::<PlaceOrderOutcome, DexError>(DexError::InsufficientLiquidity),
{
    if amount_in == 0 {
        return Err(DexError::InsufficientLiquidity);
    }
    let order = LimitOrder {
        owner,
        pool: pool_id,
        amount_in,
        amount_out: 0,
        price,
        is_bid,
        is_filled: false,
        expiry,
        created_at: now,
    };
    let transfer_in = TransferRequest {
        asset: if is_bid { AssetSide::B } else { AssetSide::A },
        from: Party::User,
        to: Party::OrderVault,
        amount: amount_in,
    };
    Ok(PlaceOrderOutcome { order, transfer_in })
}

} // verus!
