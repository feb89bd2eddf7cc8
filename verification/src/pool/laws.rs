//! Round-trip properties of the curve: what a buyer who immediately resells
//! can get back.
//!
//! Because both trade directions round the new total in the pool's favour
//! only up to truncation, a fee-free round trip can gain at most one quote
//! unit of rounding dust (and it can gain that unit: with totals 100 and 10
//! and a net input of 3, the resale grosses 4). The lemmas here pin that
//! down exactly.
use vstd::prelude::*;
use vstd::arithmetic::div_mod::lemma_fundamental_div_mod;
use crate::constants::MAX_TRADING_FEE;
use crate::pool::state::{spec_buy_base_out, spec_sell_quote_out};
use crate::utils::{fee_denom, lemma_trading_fee_below_amount, spec_trading_fee};

verus! {

/// Scaled rounding bound for a buy resold at once: paying `net` into totals
/// `(tb, tq)` and selling the base received back to the pool grosses
/// proceeds `g` with `g * tb <= net * tb + tb + tq + net - 2`. The pool's
/// total base never shrinks across the round trip, so the excess over `net`
/// is bounded by the rounding terms alone.
pub proof fn lemma_round_trip_gross_bound(tb: int, tq: int, net: int)
    requires
        1 <= tb,
        1 <= tq,
        1 <= net,
    ensures
        ({
            let base_out = spec_buy_base_out(tb, tq, net);
            let gross_back = spec_sell_quote_out(tb - base_out, tq + net, base_out);
            gross_back * tb <= net * tb + tb + tq + net - 2
        }),
        spec_sell_quote_out(
            tb - spec_buy_base_out(tb, tq, net),
            tq + net,
            spec_buy_base_out(tb, tq, net),
        ) >= 0,
{
    let q1: int = tq + net;
    let t1: int = (tb * tq) / q1;
    let base_out: int = tb - t1;
    let s: int = (t1 * q1) / tb;
    let g: int = q1 - s;
    assert(tb - base_out == t1);
    assert(spec_sell_quote_out(t1, q1, base_out) == q1 - (t1 * q1) / (t1 + base_out));
    assert(t1 + base_out == tb);
    lemma_fundamental_div_mod(tb * tq, q1);
    let r1: int = (tb * tq) % q1;
    lemma_fundamental_div_mod(t1 * q1, tb);
    let r2: int = (t1 * q1) % tb;
    // The buy's truncation loses less than q1 of the product...
    assert(t1 * q1 >= tb * tq - q1 + 1) by (nonlinear_arith)
        requires tb * tq == q1 * t1 + r1 && 0 <= r1 < q1;
    // ...and the sell's truncation less than tb of the reduced product.
    assert(s * tb >= t1 * q1 - tb + 1) by (nonlinear_arith)
        requires t1 * q1 == tb * s + r2 && 0 <= r2 < tb;
    assert(g * tb <= net * tb + tb + tq + net - 2) by (nonlinear_arith)
        requires g == q1 - s && q1 == tq + net && s * tb >= tb * tq - q1 - tb + 2;
    // The resale can never gross more than the whole quote side.
    assert(0 <= t1 && t1 <= tb) by (nonlinear_arith)
        requires tb * tq == q1 * t1 + r1 && 0 <= r1 < q1 && 1 <= tb && 1 <= tq && tq < q1;
    assert(s <= q1) by (nonlinear_arith)
        requires t1 * q1 == tb * s + r2 && 0 <= r2 < tb && t1 <= tb && 0 <= t1 && 1 <= q1;
}

/// A buy resold at once grosses back at most one quote unit more than its
/// net input, whenever the total base side still covers the total quote side
/// after the buy (as it does on any pool whose base issuance dominates its
/// quote threshold).
pub proof fn lemma_round_trip_net_bound(tb: int, tq: int, net: int)
    requires
        1 <= tb,
        1 <= tq,
        1 <= net,
        tq + net <= tb,
    ensures
        ({
            let base_out = spec_buy_base_out(tb, tq, net);
            let gross_back = spec_sell_quote_out(tb - base_out, tq + net, base_out);
            0 <= gross_back <= net + 1
        }),
{
    lemma_round_trip_gross_bound(tb, tq, net);
    let base_out: int = spec_buy_base_out(tb, tq, net);
    let gross_back: int = spec_sell_quote_out(tb - base_out, tq + net, base_out);
    assert(gross_back <= net + 1) by (nonlinear_arith)
        requires gross_back * tb <= net * tb + tb + tq + net - 2 && tq + net <= tb && 1 <= tb;
}

/// Round trips favour the pool: buying base for a gross `quote_amount` and
/// immediately selling the base received yields net proceeds of at most
/// `quote_amount + 1` - the single unit of rounding dust a fee-free trip can
/// gain - and of at most `quote_amount` whenever the resale fee is positive.
pub proof fn lemma_buy_sell_round_trip(rate: int, tb: int, tq: int, quote_amount: int)
    requires
        0 <= rate <= MAX_TRADING_FEE,
        1 <= tb,
        1 <= tq,
        1 <= quote_amount,
        tq + quote_amount <= tb,
    ensures
        ({
            let fee_in = spec_trading_fee(rate, quote_amount);
            let net = quote_amount - fee_in;
            let base_out = spec_buy_base_out(tb, tq, net);
            let gross_back = spec_sell_quote_out(tb - base_out, tq + net, base_out);
            let fee_out = spec_trading_fee(rate, gross_back);
            &&& gross_back - fee_out <= quote_amount + 1
            &&& (fee_out >= 1 ==> gross_back - fee_out <= quote_amount)
        }),
{
    lemma_trading_fee_below_amount(rate, quote_amount);
    let fee_in: int = spec_trading_fee(rate, quote_amount);
    let net: int = quote_amount - fee_in;
    lemma_round_trip_net_bound(tb, tq, net);
    let base_out: int = spec_buy_base_out(tb, tq, net);
    let gross_back: int = spec_sell_quote_out(tb - base_out, tq + net, base_out);
    assert(gross_back * rate / fee_denom() >= 0) by (nonlinear_arith)
        requires gross_back >= 0 && rate >= 0;
}

} // verus!
