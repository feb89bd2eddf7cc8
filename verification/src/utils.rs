//! Fee arithmetic and small balance helpers.
//!
//! All multiplications are carried out in 128-bit intermediates so that no
//! product of two 64-bit amounts can overflow; divisions truncate toward zero.
use vstd::prelude::*;
use vstd::arithmetic::div_mod::{
    lemma_div_denominator, lemma_fundamental_div_mod, lemma_fundamental_div_mod_converse,
};
use vstd::arithmetic::mul::lemma_mul_inequality;
use crate::constants::{FEE_PER_DIV, MAX_TRADING_FEE};
use crate::error::PumpFunError;

verus! {

/// Denominator the fee rate is scaled against: a rate of `fee_denom()` would
/// be a fee of one hundred percent.
pub open spec fn fee_denom() -> int {
    100 * (FEE_PER_DIV as int)
}

/// Fee charged at `rate` on a gross quote `amount`: truncating division,
/// never rounded up.
pub open spec fn spec_trading_fee(rate: int, amount: int) -> int {
    amount * rate / fee_denom()
}

/// Gross quote amount that leaves `net_amount` once the fee at `rate` is
/// taken out of it: the inverse scaling, again with truncating division.
pub open spec fn spec_total_amount(rate: int, net_amount: int) -> int {
    net_amount * fee_denom() / (fee_denom() - rate)
}

/// Whether a balance covers a required amount.
pub fn check_balance(ata_amount: u64, require_amount: u64) -> (r: bool)
    ensures
        r == (ata_amount >= require_amount),
{
    if ata_amount < require_amount {
        return false;
    }
    true
}

/// Trading fee on `amount` at the rate `fee`, truncated.
pub fn calculate_trading_fee(fee: u64, amount: u64) -> (r: u64)
    requires
        fee < 100 * FEE_PER_DIV,
    ensures
        r == spec_trading_fee(fee as int, amount as int),
        r <= amount,
{
    proof {
        assert((amount as int) * (fee as int) <= u128::MAX) by (nonlinear_arith)
            requires amount <= u64::MAX && fee <= 100 * FEE_PER_DIV;
    }
    let prod: u128 = (amount as u128) * (fee as u128);
    let q: u128 = prod / (FEE_PER_DIV as u128) / 100;
    proof {
        lemma_div_denominator(prod as int, FEE_PER_DIV as int, 100);
        lemma_mul_inequality(fee as int, fee_denom(), amount as int);
        assert((amount * fee_denom()) / fee_denom() == amount as int) by (nonlinear_arith);
        assert(amount * fee <= amount * fee_denom() ==> amount * fee / fee_denom()
            <= amount * fee_denom() / fee_denom()) by (nonlinear_arith);
    }
    q as u64
}

/// Gross quote amount whose net part recovers `input_amount` at the rate
/// `fee`; the result must fit the 64-bit amount range.
pub fn calculate_total_amount(fee: u64, input_amount: u64) -> (r: u64)
    requires
        fee < 100 * FEE_PER_DIV,
        spec_total_amount(fee as int, input_amount as int) <= u64::MAX,
    ensures
        r == spec_total_amount(fee as int, input_amount as int),
        r >= input_amount,
{
    let denom: u128 = (FEE_PER_DIV as u128) * 100 - (fee as u128);
    proof {
        assert((input_amount as int) * fee_denom() <= u128::MAX) by (nonlinear_arith)
            requires input_amount <= u64::MAX;
    }
    let q: u128 = (input_amount as u128) * ((FEE_PER_DIV as u128) * 100) / denom;
    proof {
        lemma_total_amount_lower_bound(fee as int, input_amount as int);
    }
    q as u64
}

/// Gross quote amount whose net part recovers `input_amount`, or `None`
/// where that gross would not fit the 64-bit amount range.
pub(crate) fn checked_total_amount(fee: u64, input_amount: u64) -> (r: Option<u64>)
    requires
        fee < 100 * FEE_PER_DIV,
    ensures
        match r {
            Some(t) => {
                &&& t == spec_total_amount(fee as int, input_amount as int)
                &&& spec_total_amount(fee as int, input_amount as int) <= u64::MAX
            },
            None => spec_total_amount(fee as int, input_amount as int) > u64::MAX,
        },
{
    let denom: u128 = (FEE_PER_DIV as u128) * 100 - (fee as u128);
    proof {
        assert((input_amount as int) * fee_denom() <= u128::MAX) by (nonlinear_arith)
            requires input_amount <= u64::MAX;
    }
    let q: u128 = (input_amount as u128) * ((FEE_PER_DIV as u128) * 100) / denom;
    if q > u64::MAX as u128 {
        None
    } else {
        Some(q as u64)
    }
}

/// A fee at a rate below one hundred percent always leaves part of a
/// positive amount.
pub proof fn lemma_trading_fee_below_amount(rate: int, amount: int)
    requires
        0 <= rate < fee_denom(),
        1 <= amount,
    ensures
        0 <= spec_trading_fee(rate, amount) < amount,
{
    assert((amount * rate) / (100 * (FEE_PER_DIV as int)) < amount) by (nonlinear_arith)
        requires 0 <= rate < 100 * (FEE_PER_DIV as int) && 1 <= amount;
    assert((amount * rate) / (100 * (FEE_PER_DIV as int)) >= 0) by (nonlinear_arith)
        requires 0 <= rate && 1 <= amount;
}

/// Grossing up never shrinks the amount: the gross is at least the net.
proof fn lemma_total_amount_lower_bound(rate: int, net: int)
    requires
        0 <= rate < fee_denom(),
        0 <= net,
    ensures
        spec_total_amount(rate, net) >= net,
{
    let d: int = fee_denom();
    assert(net * (d - rate) <= net * d) by (nonlinear_arith)
        requires 0 <= net && 0 <= rate;
    assert(net * (d - rate) / (d - rate) == net) by (nonlinear_arith)
        requires 0 < d - rate;
    assert(net * (d - rate) / (d - rate) <= net * d / (d - rate)) by (nonlinear_arith)
        requires 0 < d - rate && net * (d - rate) <= net * d;
}

/// The fee charged on a grossed-up amount is exactly the gross minus the net:
/// `spec_trading_fee` and `spec_total_amount` are exact inverses up to the one
/// truncation that the gross itself carries, so taking the fee back out of
/// `spec_total_amount(rate, net)` always lands on `net` again.
pub proof fn lemma_fee_of_total_amount(rate: int, net: int)
    requires
        0 <= rate <= MAX_TRADING_FEE,
        0 <= net,
    ensures
        spec_trading_fee(rate, spec_total_amount(rate, net))
            == spec_total_amount(rate, net) - net,
        spec_total_amount(rate, net) >= net,
{
    let d: int = fee_denom();
    let g: int = spec_total_amount(rate, net);
    lemma_total_amount_lower_bound(rate, net);
    // Decompose the gross: net * d == g * (d - rate) + rem with 0 <= rem < d - rate.
    lemma_fundamental_div_mod(net * d, d - rate);
    let rem: int = (net * d) % (d - rate);
    assert(g * rate == (g - net) * d + rem) by (nonlinear_arith)
        requires net * d == (d - rate) * g + rem;
    // rem lies in [0, d), so (g - net) is exactly the quotient of g * rate by d.
    lemma_fundamental_div_mod_converse(g * rate, d, g - net, rem);
}

/// How much must still be added to a token balance so that it covers
/// `require_amount`, and whether the payer's own balance can supply it.
pub fn required_sync_amount(ata_balance: u64, require_amount: u64, owner_balance: u64) -> (r: Result<
    u64,
    PumpFunError,
>)
    ensures
        match r {
            Ok(a) => {
                &&& a == if require_amount > ata_balance {
                    require_amount - ata_balance
                } else {
                    0
                }
                &&& a == 0 || owner_balance >= a
            },
            Err(e) => {
                &&& e == PumpFunError::InsufficientFund
                &&& require_amount > ata_balance
                &&& owner_balance < require_amount - ata_balance
            },
        },
{
    let mut sync_amount: u64 = 0;
    if require_amount > ata_balance {
        sync_amount = require_amount - ata_balance;
    }
    if sync_amount != 0 {
        if owner_balance < sync_amount {
            return Err(PumpFunError::InsufficientFund);
        }
    }
    Ok(sync_amount)
}

} // verus!
