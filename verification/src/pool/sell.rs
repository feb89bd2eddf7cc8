//! Selling base tokens back to an incomplete pool: the curve prices the
//! gross quote output, the fee is taken out of it, and the net goes to the
//! seller.
use vstd::prelude::*;
use crate::AccountId;
use crate::error::PumpFunError;
use crate::main_state::MainState;
use crate::pool::event::TradeEvent;
use crate::pool::state::{spec_sell_quote_out, PoolState};
use crate::utils::{calculate_trading_fee, check_balance, spec_trading_fee};

verus! {

/// Amounts a successful sell settles, and the record of it. The host moves
/// `base_amount` base tokens from the seller into pool custody, then `fee`
/// quote from pool custody to the fee recipient and `output_quote_amount`
/// quote from pool custody to the seller.
#[derive(Clone, Copy, Debug, PartialEq, Eq, Structural)]
pub struct SellOutcome {
    /// Base tokens the seller pays into the pool.
    pub base_amount: u64,
    /// Quote fee, paid out of the gross proceeds to the fee recipient.
    pub fee: u64,
    /// Net quote proceeds paid to the seller.
    pub output_quote_amount: u64,
    /// The record to emit.
    pub trade: TradeEvent,
}

/// Sells `base_amount` into the pool. The caller passes the seller's base
/// balance as the host read it; a sell beyond that balance is refused before
/// anything is computed or mutated. The pool must still be trading.
pub fn sell(
    main_state: &MainState,
    pool: &mut PoolState,
    seller: AccountId,
    base_amount: u64,
    min_quote_amount: u64,
    seller_base_balance: u64,
    timestamp: i64,
) -> (r: Result<SellOutcome, PumpFunError>)
    requires
        main_state.wf(),
        old(pool).wf(),
    ensures
        final(pool).wf(),
        final(pool).same_identity(*old(pool)),
        final(pool).complete == old(pool).complete,
        match r {
            Ok(out) => {
                let gross = spec_sell_quote_out(
                    old(pool).total_base(),
                    old(pool).total_quote(),
                    base_amount as int,
                );
                let fee = spec_trading_fee(main_state.trading_fee as int, gross);
                &&& seller_base_balance >= base_amount
                &&& base_amount > 0
                &&& !old(pool).complete
                &&& gross <= old(pool).real_quote_reserves
                &&& out.base_amount == base_amount
                &&& out.fee == fee
                &&& out.output_quote_amount == gross - fee
                &&& out.output_quote_amount >= min_quote_amount
                // The curve product never grows in the seller's favour.
                &&& final(pool).k() <= old(pool).k()
                &&& *final(pool) == (PoolState {
                    real_base_reserves: (old(pool).real_base_reserves + base_amount) as u64,
                    real_quote_reserves: (old(pool).real_quote_reserves - gross) as u64,
                    ..*old(pool)
                })
                &&& out.trade == (TradeEvent {
                    user: seller,
                    base_mint: old(pool).base_mint,
                    base_amount,
                    quote_amount: out.output_quote_amount,
                    base_reserves: final(pool).total_base() as u64,
                    quote_reserves: final(pool).total_quote() as u64,
                    is_buy: false,
                    timestamp,
                })
            },
            Err(e) => {
                let gross = spec_sell_quote_out(
                    old(pool).total_base(),
                    old(pool).total_quote(),
                    base_amount as int,
                );
                let fee = spec_trading_fee(main_state.trading_fee as int, gross);
                &&& *final(pool) == *old(pool)
                &&& if seller_base_balance < base_amount {
                    e == PumpFunError::InsufficientFund
                } else if base_amount == 0 {
                    e == PumpFunError::WrongBaseAmount
                } else if old(pool).complete {
                    e == PumpFunError::BondingCurveComplete
                } else if old(pool).total_base() + base_amount > u64::MAX || gross > old(
                    pool,
                ).real_quote_reserves {
                    e == PumpFunError::ArithmeticError
                } else {
                    e == PumpFunError::TooLowOutputQuote && gross - fee < min_quote_amount
                }
            },
        },
{
    if !check_balance(seller_base_balance, base_amount) {
        return Err(PumpFunError::InsufficientFund);
    }
    if base_amount == 0 {
        return Err(PumpFunError::WrongBaseAmount);
    }
    if pool.complete {
        return Err(PumpFunError::BondingCurveComplete);
    }
    let gross_output_amount = match pool.compute_receivable_amount_on_sell(base_amount) {
        Ok(amount) => amount,
        Err(e) => {
            return Err(e);
        },
    };
    let fee = calculate_trading_fee(main_state.trading_fee, gross_output_amount);
    let output_amount = gross_output_amount - fee;
    if output_amount < min_quote_amount {
        return Err(PumpFunError::TooLowOutputQuote);
    }
    pool.real_base_reserves = pool.real_base_reserves + base_amount;
    pool.real_quote_reserves = pool.real_quote_reserves - gross_output_amount;
    let trade = TradeEvent {
        user: seller,
        base_mint: pool.base_mint,
        base_amount,
        quote_amount: output_amount,
        base_reserves: pool.real_base_reserves + pool.virt_base_reserves,
        quote_reserves: pool.virt_quote_reserves + pool.real_quote_reserves,
        is_buy: false,
        timestamp,
    };
    Ok(SellOutcome { base_amount, fee, output_quote_amount: output_amount, trade })
}

} // verus!
