//! Withdrawal: once a pool has completed, the configured withdrawer takes the
//! remaining base tokens and the accumulated quote, exactly once.
use vstd::prelude::*;
use crate::AccountId;
use crate::error::PumpFunError;
use crate::main_state::MainState;
use crate::pool::event::WithdrawEvent;
use crate::pool::state::PoolState;

verus! {

/// Amounts a successful withdrawal moves out of pool custody, and the record
/// of it.
#[derive(Clone, Copy, Debug, PartialEq, Eq, Structural)]
pub struct WithdrawOutcome {
    /// Base tokens to transfer from pool custody to the withdrawer.
    pub base_amount: u64,
    /// Quote tokens to transfer from pool custody to the withdrawer.
    pub quote_amount: u64,
    /// The record to emit.
    pub event: WithdrawEvent,
}

/// Empties a completed pool. Only the configured withdrawer may call; the
/// pool must be complete and not yet emptied. The returned amounts are the
/// whole real reserves as they stood, and both reserves are zero afterwards.
pub fn withdraw(main_state: &MainState, pool: &mut PoolState, caller: AccountId, timestamp: i64) -> (r:
    Result<WithdrawOutcome, PumpFunError>)
    requires
        old(pool).wf(),
    ensures
        final(pool).wf(),
        match r {
            Ok(out) => {
                &&& caller == main_state.withdrawer
                &&& old(pool).complete
                &&& old(pool).real_base_reserves > 0 && old(pool).real_quote_reserves > 0
                &&& out.base_amount == old(pool).real_base_reserves
                &&& out.quote_amount == old(pool).real_quote_reserves
                &&& *final(pool) == (PoolState {
                    real_base_reserves: 0,
                    real_quote_reserves: 0,
                    ..*old(pool)
                })
                &&& out.event == (WithdrawEvent {
                    withdrawer: caller,
                    base_mint: old(pool).base_mint,
                    base_amount: old(pool).real_base_reserves,
                    quote_amount: old(pool).real_quote_reserves,
                    timestamp,
                })
            },
            Err(e) => {
                &&& *final(pool) == *old(pool)
                &&& if caller != main_state.withdrawer {
                    e == PumpFunError::Unauthorised
                } else if !old(pool).complete {
                    e == PumpFunError::BondingCurveIncomplete
                } else {
                    e == PumpFunError::BondingCurveAlreadyWithdrawn && (old(
                        pool,
                    ).real_base_reserves == 0 || old(pool).real_quote_reserves == 0)
                }
            },
        },
{
    if caller != main_state.withdrawer {
        return Err(PumpFunError::Unauthorised);
    }
    if !pool.complete {
        return Err(PumpFunError::BondingCurveIncomplete);
    }
    if !(pool.real_base_reserves > 0 && pool.real_quote_reserves > 0) {
        return Err(PumpFunError::BondingCurveAlreadyWithdrawn);
    }
    let base_amount = pool.real_base_reserves;
    let quote_amount = pool.real_quote_reserves;
    let event = WithdrawEvent {
        withdrawer: caller,
        base_mint: pool.base_mint,
        base_amount,
        quote_amount,
        timestamp,
    };
    pool.real_base_reserves = 0;
    pool.real_quote_reserves = 0;
    Ok(WithdrawOutcome { base_amount, quote_amount, event })
}

} // verus!
