//! Buying base tokens from an incomplete pool, either for an exact quote
//! amount or for an exact base amount.
//!
//! Both variants clamp at the completion threshold: a buy whose net quote
//! input would carry the real quote reserves past the threshold is cut down
//! so that they land exactly on it, and such a buy completes the pool.
use vstd::prelude::*;
use crate::AccountId;
use crate::error::PumpFunError;
use crate::main_state::MainState;
use crate::pool::event::{CompleteEvent, TradeEvent};
use crate::pool::state::{spec_buy_base_out, spec_buy_quote_in, spec_ceil_div, PoolState};
use crate::utils::{
    calculate_trading_fee, checked_total_amount, lemma_fee_of_total_amount,
    lemma_trading_fee_below_amount, spec_total_amount, spec_trading_fee,
};

verus! {

/// Amounts a successful buy settles, and the records of it. The host moves
/// `fee` quote from the buyer to the fee recipient, `input_quote_amount`
/// quote from the buyer into pool custody, and `base_amount` base tokens
/// from pool custody to the buyer.
#[derive(Clone, Copy, Debug, PartialEq, Eq, Structural)]
pub struct BuyOutcome {
    /// Base tokens paid out to the buyer.
    pub base_amount: u64,
    /// Quote fee the buyer pays to the fee recipient.
    pub fee: u64,
    /// Net quote the buyer pays into pool custody.
    pub input_quote_amount: u64,
    /// The trade record to emit.
    pub trade: TradeEvent,
    /// The completion record, where this buy reached the threshold.
    pub completion: Option<CompleteEvent>,
}

/// Whether a buy of gross `quote_amount` must be clamped: its net part would
/// carry the real quote reserves past the threshold.
pub open spec fn spec_buy_is_clamped(rate: int, pool: PoolState, quote_amount: int) -> bool {
    pool.real_quote_reserves + (quote_amount - spec_trading_fee(rate, quote_amount))
        > pool.real_quote_threshold
}

/// The gross quote amount a buy actually charges: the caller's amount, or,
/// where that must be clamped, the amount whose net part is exactly the
/// headroom left below the threshold.
pub open spec fn spec_buy_gross(rate: int, pool: PoolState, quote_amount: int) -> int {
    if spec_buy_is_clamped(rate, pool, quote_amount) {
        spec_total_amount(rate, pool.real_quote_threshold - pool.real_quote_reserves)
    } else {
        quote_amount
    }
}

/// The net quote a buy pays into the pool: the gross minus the fee on it.
pub open spec fn spec_buy_net(rate: int, pool: PoolState, quote_amount: int) -> int {
    spec_buy_gross(rate, pool, quote_amount) - spec_trading_fee(
        rate,
        spec_buy_gross(rate, pool, quote_amount),
    )
}

/// Whether the curve cannot serve a buy paying `net` into `pool`: the new
/// total base would be zero, or the output would dip into the virtual base.
pub open spec fn spec_buy_engine_fails(pool: PoolState, net: int) -> bool {
    let new_tb = pool.k() / (pool.total_quote() + net);
    new_tb == 0 || pool.total_base() - new_tb > pool.real_base_reserves
}

/// Applies what both buy variants share once the reserve deltas are in
/// place: builds the trade record from the updated reserves and, where the
/// real quote reserves have reached the threshold, marks the pool complete
/// and builds the completion record.
fn buy_finalize(
    pool: &mut PoolState,
    buyer: AccountId,
    base_amount: u64,
    fee: u64,
    input_quote_amount: u64,
    timestamp: i64,
) -> (r: (TradeEvent, Option<CompleteEvent>))
    requires
        old(pool).base_wf(),
        fee + input_quote_amount <= u64::MAX,
    ensures
        *final(pool) == (PoolState {
            complete: old(pool).complete || old(pool).real_quote_reserves >= old(
                pool,
            ).real_quote_threshold,
            ..*old(pool)
        }),
        final(pool).wf(),
        r.0 == (TradeEvent {
            user: buyer,
            base_mint: old(pool).base_mint,
            base_amount,
            quote_amount: (fee + input_quote_amount) as u64,
            base_reserves: old(pool).total_base() as u64,
            quote_reserves: old(pool).total_quote() as u64,
            is_buy: true,
            timestamp,
        }),
        r.1 == if old(pool).real_quote_reserves >= old(pool).real_quote_threshold {
            Some(CompleteEvent { base_mint: old(pool).base_mint, timestamp })
        } else {
            None::<CompleteEvent>
        },
{
    let trade = TradeEvent {
        user: buyer,
        base_mint: pool.base_mint,
        base_amount,
        quote_amount: fee + input_quote_amount,
        base_reserves: pool.real_base_reserves + pool.virt_base_reserves,
        quote_reserves: pool.virt_quote_reserves + pool.real_quote_reserves,
        is_buy: true,
        timestamp,
    };
    let mut completion: Option<CompleteEvent> = None;
    if pool.real_quote_reserves >= pool.real_quote_threshold {
        pool.complete = true;
        completion = Some(CompleteEvent { base_mint: pool.base_mint, timestamp });
    }
    (trade, completion)
}

/// Buys base tokens for exactly `quote_amount` of quote (fee included),
/// clamped at the threshold. Fails if the output falls short of
/// `min_base_amount`. On success the pool's real quote grows by the net
/// input and its real base shrinks by the output; a buy that was clamped
/// lands the real quote exactly on the threshold and completes the pool.
pub fn buy_tokens_from_exact_quote(
    main_state: &MainState,
    pool: &mut PoolState,
    buyer: AccountId,
    quote_amount: u64,
    min_base_amount: u64,
    timestamp: i64,
) -> (r: Result<BuyOutcome, PumpFunError>)
    requires
        main_state.wf(),
        old(pool).wf(),
    ensures
        final(pool).wf(),
        final(pool).same_identity(*old(pool)),
        match r {
            Ok(out) => {
                let rate = main_state.trading_fee as int;
                let gross = spec_buy_gross(rate, *old(pool), quote_amount as int);
                let fee = spec_trading_fee(rate, gross);
                let net = gross - fee;
                let base_out = spec_buy_base_out(
                    old(pool).total_base(),
                    old(pool).total_quote(),
                    net,
                );
                &&& quote_amount > 0
                &&& !old(pool).complete
                &&& out.fee == fee
                &&& out.input_quote_amount == net
                &&& out.base_amount == base_out
                &&& base_out >= min_base_amount
                // The floor on the new total base keeps the curve product
                // from growing in the buyer's favour.
                &&& final(pool).k() <= old(pool).k()
                &&& final(pool).real_quote_reserves == old(pool).real_quote_reserves + net
                &&& final(pool).real_base_reserves == old(pool).real_base_reserves - base_out
                &&& final(pool).complete == (old(pool).real_quote_reserves + net >= old(
                    pool,
                ).real_quote_threshold)
                &&& (spec_buy_is_clamped(rate, *old(pool), quote_amount as int)
                    ==> final(pool).real_quote_reserves == old(pool).real_quote_threshold
                    && final(pool).complete)
                &&& out.trade == (TradeEvent {
                    user: buyer,
                    base_mint: old(pool).base_mint,
                    base_amount: out.base_amount,
                    quote_amount: gross as u64,
                    base_reserves: final(pool).total_base() as u64,
                    quote_reserves: final(pool).total_quote() as u64,
                    is_buy: true,
                    timestamp,
                })
                &&& out.completion == if final(pool).complete {
                    Some(CompleteEvent { base_mint: old(pool).base_mint, timestamp })
                } else {
                    None::<CompleteEvent>
                }
            },
            Err(e) => {
                let rate = main_state.trading_fee as int;
                let net = spec_buy_net(rate, *old(pool), quote_amount as int);
                &&& *final(pool) == *old(pool)
                &&& if quote_amount == 0 {
                    e == PumpFunError::WrongQuoteAmount
                } else if old(pool).complete {
                    e == PumpFunError::BondingCurveComplete
                } else if spec_buy_is_clamped(rate, *old(pool), quote_amount as int)
                    && spec_total_amount(
                    rate,
                    old(pool).real_quote_threshold - old(pool).real_quote_reserves,
                ) > u64::MAX {
                    e == PumpFunError::ArithmeticError
                } else if spec_buy_engine_fails(*old(pool), net) {
                    e == PumpFunError::ArithmeticError
                } else {
                    e == PumpFunError::TooFewOutputTokens && spec_buy_base_out(
                        old(pool).total_base(),
                        old(pool).total_quote(),
                        net,
                    ) < min_base_amount
                }
            },
        },
{
    if quote_amount == 0 {
        return Err(PumpFunError::WrongQuoteAmount);
    }
    if pool.complete {
        return Err(PumpFunError::BondingCurveComplete);
    }
    let ghost rate: int = main_state.trading_fee as int;
    let mut adjusted_quote_amount: u64 = quote_amount;
    let mut fee: u64 = calculate_trading_fee(main_state.trading_fee, adjusted_quote_amount);
    // Widened comparison: would the net input push real quote past the threshold?
    if (pool.real_quote_reserves as u128) + ((quote_amount - fee) as u128)
        > (pool.real_quote_threshold as u128) {
        let headroom: u64 = pool.real_quote_threshold - pool.real_quote_reserves;
        adjusted_quote_amount = match checked_total_amount(main_state.trading_fee, headroom) {
            Some(t) => t,
            None => {
                return Err(PumpFunError::ArithmeticError);
            },
        };
        proof {
            // Taking the fee back out of the grossed-up amount recovers the
            // headroom exactly, so this buy lands on the threshold.
            lemma_fee_of_total_amount(rate, headroom as int);
        }
        fee = calculate_trading_fee(main_state.trading_fee, adjusted_quote_amount);
    } else {
        proof {
            lemma_trading_fee_below_amount(rate, quote_amount as int);
        }
    }
    let input_quote_amount: u64 = adjusted_quote_amount - fee;
    let output_base_amount: u64 = match pool.compute_receivable_amount_on_buy(input_quote_amount) {
        Ok(b) => b,
        Err(e) => {
            return Err(e);
        },
    };
    if output_base_amount < min_base_amount {
        return Err(PumpFunError::TooFewOutputTokens);
    }
    pool.real_quote_reserves = pool.real_quote_reserves + input_quote_amount;
    pool.real_base_reserves = pool.real_base_reserves - output_base_amount;
    let (trade, completion) = buy_finalize(
        pool,
        buyer,
        output_base_amount,
        fee,
        input_quote_amount,
        timestamp,
    );
    Ok(BuyOutcome {
        base_amount: output_base_amount,
        fee,
        input_quote_amount,
        trade,
        completion,
    })
}

/// Buys exactly `base_amount` base tokens, computing the required quote
/// input from the curve, clamped at the threshold (a clamped buy delivers
/// less base than asked). Fails if the gross charge exceeds
/// `max_quote_amount`. Reserve, completion and record effects are as for the
/// exact-quote variant.
pub fn buy_exact_tokens_from_quote(
    main_state: &MainState,
    pool: &mut PoolState,
    buyer: AccountId,
    base_amount: u64,
    max_quote_amount: u64,
    timestamp: i64,
) -> (r: Result<BuyOutcome, PumpFunError>)
    requires
        main_state.wf(),
        old(pool).wf(),
    ensures
        final(pool).wf(),
        final(pool).same_identity(*old(pool)),
        match r {
            Ok(out) => {
                let rate = main_state.trading_fee as int;
                let required = spec_buy_quote_in(
                    old(pool).total_base(),
                    old(pool).total_quote(),
                    base_amount as int,
                );
                let clamped = old(pool).real_quote_reserves + required > old(
                    pool,
                ).real_quote_threshold;
                let net = if clamped {
                    old(pool).real_quote_threshold - old(pool).real_quote_reserves
                } else {
                    required
                };
                let base_out = if clamped {
                    spec_buy_base_out(old(pool).total_base(), old(pool).total_quote(), net)
                } else {
                    base_amount as int
                };
                let total = spec_total_amount(rate, net);
                &&& !old(pool).complete
                &&& 0 < base_amount <= old(pool).real_base_reserves
                &&& out.input_quote_amount == net
                &&& out.base_amount == base_out
                &&& out.fee == total - net
                &&& total <= max_quote_amount
                // Rounding the required input up protects the pool: an
                // unclamped exact-base buy never shrinks the curve product,
                // and a clamped one prices the output by the floor formula.
                &&& (!clamped ==> final(pool).k() >= old(pool).k())
                &&& (clamped ==> final(pool).k() <= old(pool).k())
                &&& final(pool).real_quote_reserves == old(pool).real_quote_reserves + net
                &&& final(pool).real_base_reserves == old(pool).real_base_reserves - base_out
                &&& final(pool).complete == (old(pool).real_quote_reserves + net >= old(
                    pool,
                ).real_quote_threshold)
                &&& (clamped ==> final(pool).real_quote_reserves == old(pool).real_quote_threshold
                    && final(pool).complete)
                &&& out.trade == (TradeEvent {
                    user: buyer,
                    base_mint: old(pool).base_mint,
                    base_amount: out.base_amount,
                    quote_amount: total as u64,
                    base_reserves: final(pool).total_base() as u64,
                    quote_reserves: final(pool).total_quote() as u64,
                    is_buy: true,
                    timestamp,
                })
                &&& out.completion == if final(pool).complete {
                    Some(CompleteEvent { base_mint: old(pool).base_mint, timestamp })
                } else {
                    None::<CompleteEvent>
                }
            },
            Err(e) => {
                let rate = main_state.trading_fee as int;
                let required = spec_buy_quote_in(
                    old(pool).total_base(),
                    old(pool).total_quote(),
                    base_amount as int,
                );
                let clamped = old(pool).real_quote_reserves + required > old(
                    pool,
                ).real_quote_threshold;
                let net = if clamped {
                    old(pool).real_quote_threshold - old(pool).real_quote_reserves
                } else {
                    required
                };
                &&& *final(pool) == *old(pool)
                &&& if old(pool).complete {
                    e == PumpFunError::BondingCurveComplete
                } else if base_amount == 0 || base_amount > old(pool).real_base_reserves {
                    e == PumpFunError::WrongBaseAmount
                } else if spec_ceil_div(
                    old(pool).k(),
                    old(pool).total_base() - base_amount,
                ) > u64::MAX {
                    e == PumpFunError::ArithmeticError
                } else if clamped && spec_buy_engine_fails(*old(pool), net) {
                    e == PumpFunError::ArithmeticError
                } else if spec_total_amount(rate, net) > u64::MAX {
                    e == PumpFunError::ArithmeticError
                } else {
                    e == PumpFunError::TooMuchInputQuote && spec_total_amount(rate, net)
                        > max_quote_amount
                }
            },
        },
{
    if pool.complete {
        return Err(PumpFunError::BondingCurveComplete);
    }
    if !(base_amount > 0 && base_amount <= pool.real_base_reserves) {
        return Err(PumpFunError::WrongBaseAmount);
    }
    let ghost rate: int = main_state.trading_fee as int;
    let mut input_base_amount: u64 = base_amount;
    let mut input_quote_amount: u64 = match pool.compute_required_amount_on_buy(base_amount) {
        Ok(q) => q,
        Err(e) => {
            return Err(e);
        },
    };
    // Widened comparison: would the required input push real quote past the
    // threshold?
    if (pool.real_quote_reserves as u128) + (input_quote_amount as u128)
        > (pool.real_quote_threshold as u128) {
        input_quote_amount = pool.real_quote_threshold - pool.real_quote_reserves;
        input_base_amount = match pool.compute_receivable_amount_on_buy(input_quote_amount) {
            Ok(b) => b,
            Err(e) => {
                return Err(e);
            },
        };
    }
    let total_quote_amount: u64 = match checked_total_amount(
        main_state.trading_fee,
        input_quote_amount,
    ) {
        Some(t) => t,
        None => {
            return Err(PumpFunError::ArithmeticError);
        },
    };
    proof {
        // The fee on the grossed-up charge is exactly the charge minus the
        // net input.
        lemma_fee_of_total_amount(rate, input_quote_amount as int);
    }
    let fee: u64 = calculate_trading_fee(main_state.trading_fee, total_quote_amount);
    if total_quote_amount > max_quote_amount {
        return Err(PumpFunError::TooMuchInputQuote);
    }
    pool.real_base_reserves = pool.real_base_reserves - input_base_amount;
    pool.real_quote_reserves = pool.real_quote_reserves + input_quote_amount;
    let (trade, completion) = buy_finalize(
        pool,
        buyer,
        input_base_amount,
        fee,
        input_quote_amount,
        timestamp,
    );
    Ok(BuyOutcome {
        base_amount: input_base_amount,
        fee,
        input_quote_amount,
        trade,
        completion,
    })
}

} // verus!
