//! Records a pool instruction emits for external indexing. The engine builds
//! them; durably recording them is the host's concern.
use vstd::prelude::*;
use crate::AccountId;

verus! {

/// Emitted once when a pool is created.
#[derive(Clone, Copy, Debug, PartialEq, Eq, Structural)]
pub struct CreateEvent {
    /// Creator wallet.
    pub creator: AccountId,
    /// Mint of the token put on the curve.
    pub base_mint: AccountId,
    /// Total base reserves (virtual plus real) at creation.
    pub base_reserves: u64,
    /// Total quote reserves at creation (virtual only: no quote paid in yet).
    pub quote_reserves: u64,
    /// Creation time.
    pub timestamp: i64,
}

/// Emitted for every buy and sell.
#[derive(Clone, Copy, Debug, PartialEq, Eq, Structural)]
pub struct TradeEvent {
    /// Trader wallet.
    pub user: AccountId,
    /// Mint of the traded token.
    pub base_mint: AccountId,
    /// Base tokens moved by the trade.
    pub base_amount: u64,
    /// Quote side of the trade: fee plus net input on a buy, net output on a
    /// sell.
    pub quote_amount: u64,
    /// Total base reserves after the trade.
    pub base_reserves: u64,
    /// Total quote reserves after the trade.
    pub quote_reserves: u64,
    /// Whether the trade was a buy.
    pub is_buy: bool,
    /// Trade time.
    pub timestamp: i64,
}

/// Emitted when a buy carries the real quote reserves to the threshold.
#[derive(Clone, Copy, Debug, PartialEq, Eq, Structural)]
pub struct CompleteEvent {
    /// Mint of the completed pool's base token.
    pub base_mint: AccountId,
    /// Completion time.
    pub timestamp: i64,
}

/// Emitted when a completed pool's reserves are taken out.
#[derive(Clone, Copy, Debug, PartialEq, Eq, Structural)]
pub struct WithdrawEvent {
    /// The withdrawing identity.
    pub withdrawer: AccountId,
    /// Mint of the pool's base token.
    pub base_mint: AccountId,
    /// Base tokens withdrawn.
    pub base_amount: u64,
    /// Quote tokens withdrawn.
    pub quote_amount: u64,
    /// Withdrawal time.
    pub timestamp: i64,
}

} // verus!
