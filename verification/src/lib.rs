//! A bonding-curve market engine: a single base token is sold against a quote
//! token along a constant-product curve until a quote-reserve threshold is
//! reached, after which the accumulated reserves can be withdrawn.
//!
//! The crate holds the pricing and accounting core: fee arithmetic, the curve
//! engine, the pool and configuration state with their invariants, and the
//! instruction logic (create, buy, sell, withdraw, configuration updates).
//! Custody of balances, signatures and event persistence belong to the host
//! that embeds the engine; every operation here takes plain values and returns
//! the amounts to transfer and the records to emit.
use vstd::prelude::*;

pub mod constants;
pub mod error;
pub mod main_state;
pub mod pool;
pub mod utils;

pub use crate::error::PumpFunError;
pub use crate::main_state::{
    init_main_state, transfer_ownership, update_main_state, MainState, MainStateInitialized,
    MainStateUpdated, OwnershipTransferred, UpdateMainStateInput,
};
pub use crate::pool::buy::{buy_exact_tokens_from_quote, buy_tokens_from_exact_quote, BuyOutcome};
pub use crate::pool::create_pool::create_pool;
pub use crate::pool::event::{CompleteEvent, CreateEvent, TradeEvent, WithdrawEvent};
pub use crate::pool::sell::{sell, SellOutcome};
pub use crate::pool::state::PoolState;
pub use crate::pool::withdraw::{withdraw, WithdrawOutcome};
pub use crate::utils::{
    calculate_total_amount, calculate_trading_fee, check_balance, required_sync_amount,
};

verus! {

/// Identity of an account, wallet or token mint, as the host ledger names it.
/// The engine only ever compares identities for equality.
#[derive(Clone, Copy, Debug, PartialEq, Eq, Structural)]
pub struct AccountId {
    pub id: u64,
}

} // verus!
