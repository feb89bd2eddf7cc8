//! The pool account and the constant-product curve engine on its reserves.
//!
//! Virtual reserves shape the starting price and never change after creation;
//! real reserves are the custodied amounts and move with every trade. The
//! curve works on the totals `virtual + real` of each side and keeps their
//! product from growing on any priced trade.
use vstd::prelude::*;
use vstd::arithmetic::div_mod::{lemma_fundamental_div_mod, lemma_fundamental_div_mod_converse};
use crate::AccountId;
use crate::error::PumpFunError;

verus! {

/// Base output of a buy that pays `quote_in` into totals `(tb, tq)`: the new
/// total base is the floor of `k / (tq + quote_in)` and the output is what
/// the total base loses.
pub open spec fn spec_buy_base_out(tb: int, tq: int, quote_in: int) -> int {
    tb - (tb * tq) / (tq + quote_in)
}

/// Division rounded toward positive infinity, for positive divisors.
pub open spec fn spec_ceil_div(a: int, b: int) -> int {
    (a + b - 1) / b
}

/// Quote input a buy must pay to take `base_out` from totals `(tb, tq)`: the
/// new total quote is `k / (tb - base_out)` rounded up, so truncation can
/// never under-charge the pool.
pub open spec fn spec_buy_quote_in(tb: int, tq: int, base_out: int) -> int {
    spec_ceil_div(tb * tq, tb - base_out) - tq
}

/// Gross quote output of a sell that pays `base_in` into totals `(tb, tq)`:
/// the new total quote is the floor of `k / (tb + base_in)`.
pub open spec fn spec_sell_quote_out(tb: int, tq: int, base_in: int) -> int {
    tq - (tb * tq) / (tb + base_in)
}

/// One bonding-curve market: immutable identity and virtual reserves, mutable
/// real reserves, and the one-way completion flag.
#[derive(Clone, Copy, Debug, PartialEq, Eq, Structural)]
pub struct PoolState {
    /// Creator of the pool (informational).
    pub owner: AccountId,
    /// Mint of the token sold along the curve.
    pub base_mint: AccountId,
    /// Mint of the settlement token.
    pub quote_mint: AccountId,
    /// Virtual base reserves, fixed at creation.
    pub virt_base_reserves: u64,
    /// Virtual quote reserves, fixed at creation.
    pub virt_quote_reserves: u64,
    /// Custodied base tokens backing trades.
    pub real_base_reserves: u64,
    /// Custodied quote tokens accumulated by buys.
    pub real_quote_reserves: u64,
    /// Real quote level at which the pool completes, fixed at creation.
    pub real_quote_threshold: u64,
    /// Set once the threshold is reached; never reverts.
    pub complete: bool,
}

impl PoolState {
    /// Total base side of the curve: virtual plus real.
    pub open spec fn total_base(self) -> int {
        self.virt_base_reserves + self.real_base_reserves
    }

    /// Total quote side of the curve: virtual plus real.
    pub open spec fn total_quote(self) -> int {
        self.virt_quote_reserves + self.real_quote_reserves
    }

    /// The curve product of the current totals.
    pub open spec fn k(self) -> int {
        self.total_base() * self.total_quote()
    }

    /// The state bounds that hold of a pool at every point, even between the
    /// reserve update of a buy and the completion check that follows it:
    /// positive virtual reserves and threshold, distinct mints, totals that
    /// fit the amount range even at the threshold, and real quote never
    /// beyond the threshold.
    pub open spec fn base_wf(self) -> bool {
        &&& self.virt_base_reserves >= 1
        &&& self.virt_quote_reserves >= 1
        &&& self.real_quote_threshold >= 1
        &&& self.base_mint != self.quote_mint
        &&& self.total_base() <= u64::MAX
        &&& self.virt_quote_reserves + self.real_quote_threshold <= u64::MAX
        &&& self.real_quote_reserves <= self.real_quote_threshold
    }

    /// Well-formedness between instructions: the state bounds, and real
    /// quote strictly below the threshold while the pool is still trading -
    /// any buy that reaches the threshold also marks the pool complete.
    pub open spec fn wf(self) -> bool {
        &&& self.base_wf()
        &&& (!self.complete ==> self.real_quote_reserves < self.real_quote_threshold)
    }

    /// The fields fixed at creation agree between two pool values.
    pub open spec fn same_identity(self, other: PoolState) -> bool {
        &&& self.owner == other.owner
        &&& self.base_mint == other.base_mint
        &&& self.quote_mint == other.quote_mint
        &&& self.virt_base_reserves == other.virt_base_reserves
        &&& self.virt_quote_reserves == other.virt_quote_reserves
        &&& self.real_quote_threshold == other.real_quote_threshold
    }

    /// Base tokens a buyer receives for paying `quote_amount` (net of fees)
    /// into the pool. Fails when the curve would empty the total base side or
    /// when the output would dip into the virtual supply.
    pub fn compute_receivable_amount_on_buy(&self, quote_amount: u64) -> (r: Result<
        u64,
        PumpFunError,
    >)
        requires
            self.wf(),
            quote_amount > 0,
            self.total_quote() + quote_amount <= u64::MAX,
        ensures
            match r {
                Ok(base_out) => {
                    &&& base_out == spec_buy_base_out(
                        self.total_base(),
                        self.total_quote(),
                        quote_amount as int,
                    )
                    &&& base_out <= self.real_base_reserves
                    &&& self.k() / (self.total_quote() + quote_amount) >= 1
                    &&& (self.total_base() - base_out) * (self.total_quote() + quote_amount)
                        <= self.k()
                },
                Err(e) => {
                    &&& e == PumpFunError::ArithmeticError
                    &&& {
                        let new_tb = self.k() / (self.total_quote() + quote_amount);
                        new_tb == 0 || self.total_base() - new_tb > self.real_base_reserves
                    }
                },
            },
    {
        let tb: u128 = (self.virt_base_reserves as u128) + (self.real_base_reserves as u128);
        let tq: u128 = (self.virt_quote_reserves as u128) + (self.real_quote_reserves as u128);
        proof {
            assert(tb * tq <= u128::MAX) by (nonlinear_arith)
                requires tb <= u64::MAX && tq <= u64::MAX;
        }
        let k: u128 = tb * tq;
        let new_tq: u128 = tq + (quote_amount as u128);
        let new_tb: u128 = k / new_tq;
        if new_tb == 0 {
            return Err(PumpFunError::ArithmeticError);
        }
        proof {
            // The quotient shrinks when the divisor grows past tq, so it stays below tb.
            assert(k / new_tq <= tb) by (nonlinear_arith)
                requires k == tb * tq && 0 < tq <= new_tq;
            assert((k / new_tq) * new_tq <= k) by (nonlinear_arith)
                requires 0 < new_tq;
        }
        let base_out: u128 = tb - new_tb;
        if base_out > (self.real_base_reserves as u128) {
            return Err(PumpFunError::ArithmeticError);
        }
        Ok(base_out as u64)
    }

    /// Quote a buyer must pay (net of fees) to take exactly `base_amount`
    /// from the pool's real reserves. Fails when the rounded-up new total
    /// quote leaves the amount range.
    pub fn compute_required_amount_on_buy(&self, base_amount: u64) -> (r: Result<
        u64,
        PumpFunError,
    >)
        requires
            self.wf(),
            0 < base_amount <= self.real_base_reserves,
        ensures
            match r {
                Ok(quote_in) => {
                    &&& quote_in == spec_buy_quote_in(
                        self.total_base(),
                        self.total_quote(),
                        base_amount as int,
                    )
                    &&& quote_in >= 1
                    &&& spec_ceil_div(self.k(), self.total_base() - base_amount) <= u64::MAX
                    &&& (self.total_base() - base_amount) * (self.total_quote() + quote_in)
                        >= self.k()
                },
                Err(e) => {
                    &&& e == PumpFunError::ArithmeticError
                    &&& spec_ceil_div(self.k(), self.total_base() - base_amount) > u64::MAX
                },
            },
    {
        let tb: u128 = (self.virt_base_reserves as u128) + (self.real_base_reserves as u128);
        let tq: u128 = (self.virt_quote_reserves as u128) + (self.real_quote_reserves as u128);
        proof {
            assert(tb * tq <= u128::MAX) by (nonlinear_arith)
                requires tb <= u64::MAX && tq <= u64::MAX;
        }
        let k: u128 = tb * tq;
        let new_tb: u128 = tb - (base_amount as u128);
        proof {
            assert(k < u128::MAX) by (nonlinear_arith)
                requires tb <= u64::MAX && tq <= u64::MAX && k == tb * tq;
            assert(k / new_tb <= k) by (nonlinear_arith)
                requires 0 < new_tb && 0 <= k;
        }
        let new_tq: u128 = k / new_tb + (if k % new_tb != 0 { 1u128 } else { 0u128 });
        proof {
            lemma_ceil_div_is_div_plus_carry(k as int, new_tb as int);
            // Taking base out raises the rounded-up quote side strictly above tq.
            assert(k >= new_tb * tq + 1) by (nonlinear_arith)
                requires k == tb * tq && new_tb < tb && 1 <= tq;
            lemma_ceil_div_lower_bound(k as int, new_tb as int, tq as int);
            lemma_ceil_div_times_divisor(k as int, new_tb as int);
            assert((new_tb as int) * (new_tq as int) == (new_tq as int) * (new_tb as int))
                by (nonlinear_arith);
        }
        if new_tq > u64::MAX as u128 {
            return Err(PumpFunError::ArithmeticError);
        }
        let quote_in: u128 = new_tq - tq;
        Ok(quote_in as u64)
    }

    /// Gross quote paid out for selling `base_amount` into the pool. Fails
    /// when the grown base side leaves the amount range or when the payout
    /// would dip into the virtual quote reserves.
    pub fn compute_receivable_amount_on_sell(&self, base_amount: u64) -> (r: Result<
        u64,
        PumpFunError,
    >)
        requires
            self.wf(),
            base_amount > 0,
        ensures
            match r {
                Ok(quote_out) => {
                    &&& quote_out == spec_sell_quote_out(
                        self.total_base(),
                        self.total_quote(),
                        base_amount as int,
                    )
                    &&& quote_out <= self.real_quote_reserves
                    &&& self.total_base() + base_amount <= u64::MAX
                    &&& (self.total_base() + base_amount) * (self.total_quote() - quote_out)
                        <= self.k()
                },
                Err(e) => {
                    &&& e == PumpFunError::ArithmeticError
                    &&& (self.total_base() + base_amount > u64::MAX || spec_sell_quote_out(
                        self.total_base(),
                        self.total_quote(),
                        base_amount as int,
                    ) > self.real_quote_reserves)
                },
            },
    {
        let tb: u128 = (self.virt_base_reserves as u128) + (self.real_base_reserves as u128);
        let tq: u128 = (self.virt_quote_reserves as u128) + (self.real_quote_reserves as u128);
        let new_tb: u128 = tb + (base_amount as u128);
        if new_tb > u64::MAX as u128 {
            return Err(PumpFunError::ArithmeticError);
        }
        proof {
            assert(tb * tq <= u128::MAX) by (nonlinear_arith)
                requires tb <= u64::MAX && tq <= u64::MAX;
        }
        let k: u128 = tb * tq;
        let new_tq: u128 = k / new_tb;
        proof {
            assert(k / new_tb <= tq) by (nonlinear_arith)
                requires k == tb * tq && 0 < tb <= new_tb;
            assert((k / new_tb) * new_tb <= k) by (nonlinear_arith)
                requires 0 < new_tb;
            assert((new_tb as int) * ((k / new_tb) as int) == ((k / new_tb) as int) * (
            new_tb as int)) by (nonlinear_arith);
        }
        let quote_out: u128 = tq - new_tq;
        if quote_out > (self.real_quote_reserves as u128) {
            return Err(PumpFunError::ArithmeticError);
        }
        Ok(quote_out as u64)
    }
}

/// The executable carry form of rounding up agrees with `spec_ceil_div`.
proof fn lemma_ceil_div_is_div_plus_carry(a: int, b: int)
    requires
        0 <= a,
        0 < b,
    ensures
        spec_ceil_div(a, b) == a / b + if a % b != 0 { 1int } else { 0int },
{
    lemma_fundamental_div_mod(a, b);
    let q: int = a / b;
    let r: int = a % b;
    if r == 0 {
        assert(a + b - 1 == q * b + (b - 1)) by (nonlinear_arith)
            requires a == b * q + r && r == 0;
        lemma_fundamental_div_mod_converse(a + b - 1, b, q, b - 1);
    } else {
        assert(a + b - 1 == (q + 1) * b + (r - 1)) by (nonlinear_arith)
            requires a == b * q + r;
        lemma_fundamental_div_mod_converse(a + b - 1, b, q + 1, r - 1);
    }
}

/// Rounding up a quotient of at least `b * t + 1` lands strictly above `t`.
proof fn lemma_ceil_div_lower_bound(a: int, b: int, t: int)
    requires
        0 < b,
        0 <= t,
        a >= b * t + 1,
    ensures
        spec_ceil_div(a, b) >= t + 1,
{
    assert((a + b - 1) / b >= t + 1) by (nonlinear_arith)
        requires 0 < b && 0 <= t && a >= b * t + 1;
}

/// Rounding up never loses value: the rounded quotient times the divisor
/// covers the dividend.
proof fn lemma_ceil_div_times_divisor(a: int, b: int)
    requires
        0 <= a,
        0 < b,
    ensures
        spec_ceil_div(a, b) * b >= a,
{
    lemma_ceil_div_is_div_plus_carry(a, b);
    lemma_fundamental_div_mod(a, b);
    assert(spec_ceil_div(a, b) * b >= a) by (nonlinear_arith)
        requires
            0 < b
            && a == b * (a / b) + a % b
            && 0 <= a % b < b
            && spec_ceil_div(a, b) == a / b + if a % b != 0 { 1int } else { 0int };
}

} // verus!
