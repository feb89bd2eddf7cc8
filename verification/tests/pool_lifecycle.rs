//! The pool lifecycle end to end: creation, both buy variants, threshold
//! clamping and completion, selling, and the one-shot withdrawal.
use pump_fun::error::PumpFunError;
use pump_fun::{
    buy_exact_tokens_from_quote, buy_tokens_from_exact_quote, create_pool, sell, withdraw,
};
use pump_fun::{AccountId, MainState, PoolState};

fn acct(id: u64) -> AccountId {
    AccountId { id }
}

const QUOTE_MINT: u64 = 100;
const BASE_MINT: u64 = 101;
const OWNER: u64 = 1;
const WITHDRAWER: u64 = 2;
const CREATOR: u64 = 5;
const BUYER: u64 = 6;
const SELLER: u64 = 7;

fn config() -> MainState {
    MainState {
        owner: acct(OWNER),
        withdrawer: acct(WITHDRAWER),
        fee_recipient: acct(3),
        trading_fee: 1000,
        total_supply: 1_000_000_000,
        init_virt_base_reserves: 66_666_666,
        init_virt_quote_reserves: 10_000_000,
        real_quote_threshold: 30_000_000,
    }
}

fn fresh_pool(ms: &MainState) -> PoolState {
    let (pool, _) = create_pool(
        ms,
        acct(CREATOR),
        acct(BASE_MINT),
        acct(QUOTE_MINT),
        acct(QUOTE_MINT),
        ms.total_supply,
        ms.total_supply,
        false,
        false,
        10,
    )
    .unwrap();
    pool
}

#[test]
fn create_pool_initializes_state_and_event() {
    let ms = config();
    let (pool, event) = create_pool(
        &ms,
        acct(CREATOR),
        acct(BASE_MINT),
        acct(QUOTE_MINT),
        acct(QUOTE_MINT),
        1_000_000_000,
        1_000_000_000,
        false,
        false,
        10,
    )
    .unwrap();
    assert_eq!(pool.owner, acct(CREATOR));
    assert_eq!(pool.base_mint, acct(BASE_MINT));
    assert_eq!(pool.quote_mint, acct(QUOTE_MINT));
    assert_eq!(pool.virt_base_reserves, 66_666_666);
    assert_eq!(pool.virt_quote_reserves, 10_000_000);
    assert_eq!(pool.real_base_reserves, 1_000_000_000);
    assert_eq!(pool.real_quote_reserves, 0);
    assert_eq!(pool.real_quote_threshold, 30_000_000);
    assert!(!pool.complete);
    assert_eq!(event.creator, acct(CREATOR));
    assert_eq!(event.base_mint, acct(BASE_MINT));
    assert_eq!(event.base_reserves, 1_066_666_666);
    assert_eq!(event.quote_reserves, 10_000_000);
    assert_eq!(event.timestamp, 10);
}

#[test]
fn create_pool_refusals() {
    let ms = config();
    // Base and quote mint must differ.
    assert_eq!(
        create_pool(
            &ms,
            acct(CREATOR),
            acct(QUOTE_MINT),
            acct(QUOTE_MINT),
            acct(QUOTE_MINT),
            1_000_000_000,
            1_000_000_000,
            false,
            false,
            10
        ),
        Err(PumpFunError::InvalidTokenPair)
    );
    // The quote mint must be the configured one.
    assert_eq!(
        create_pool(
            &ms,
            acct(CREATOR),
            acct(BASE_MINT),
            acct(99),
            acct(QUOTE_MINT),
            1_000_000_000,
            1_000_000_000,
            false,
            false,
            10
        ),
        Err(PumpFunError::UnknownQuoteMint)
    );
    // The creator must hand over the mint's whole supply...
    assert_eq!(
        create_pool(
            &ms,
            acct(CREATOR),
            acct(BASE_MINT),
            acct(QUOTE_MINT),
            acct(QUOTE_MINT),
            999_999_999,
            1_000_000_000,
            false,
            false,
            10
        ),
        Err(PumpFunError::WrongBaseAmountOnCreation)
    );
    // ...and that supply must be the configured issuance.
    assert_eq!(
        create_pool(
            &ms,
            acct(CREATOR),
            acct(BASE_MINT),
            acct(QUOTE_MINT),
            acct(QUOTE_MINT),
            999_999_999,
            999_999_999,
            false,
            false,
            10
        ),
        Err(PumpFunError::WrongBaseAmountOnCreation)
    );
    // The base token must be irrevocably issued.
    assert_eq!(
        create_pool(
            &ms,
            acct(CREATOR),
            acct(BASE_MINT),
            acct(QUOTE_MINT),
            acct(QUOTE_MINT),
            1_000_000_000,
            1_000_000_000,
            true,
            false,
            10
        ),
        Err(PumpFunError::BaseTokenMustNotBeMintable)
    );
    assert_eq!(
        create_pool(
            &ms,
            acct(CREATOR),
            acct(BASE_MINT),
            acct(QUOTE_MINT),
            acct(QUOTE_MINT),
            1_000_000_000,
            1_000_000_000,
            false,
            true,
            10
        ),
        Err(PumpFunError::BaseTokenMustNotBeFreezable)
    );
}

#[test]
fn buy_exact_quote_scenario() {
    // The end-to-end pricing scenario: 1% fee on a 1_000_000 buy leaves a
    // net of 990_000, and the curve with k = 1_066_666_666 * 10_000_000
    // prices the output at 96_087_353 base tokens.
    let ms = config();
    let mut pool = fresh_pool(&ms);
    let out = buy_tokens_from_exact_quote(&ms, &mut pool, acct(BUYER), 1_000_000, 0, 11).unwrap();
    assert_eq!(out.fee, 10_000);
    assert_eq!(out.input_quote_amount, 990_000);
    assert_eq!(out.base_amount, 96_087_353);
    assert_eq!(pool.real_base_reserves, 1_000_000_000 - 96_087_353);
    assert_eq!(pool.real_quote_reserves, 990_000);
    assert!(!pool.complete);
    assert_eq!(out.completion, None);
    let trade = out.trade;
    assert_eq!(trade.user, acct(BUYER));
    assert_eq!(trade.base_mint, acct(BASE_MINT));
    assert_eq!(trade.base_amount, 96_087_353);
    assert_eq!(trade.quote_amount, 1_000_000);
    assert_eq!(trade.base_reserves, 66_666_666 + 903_912_647);
    assert_eq!(trade.quote_reserves, 10_000_000 + 990_000);
    assert!(trade.is_buy);
    assert_eq!(trade.timestamp, 11);
}

#[test]
fn buy_refusals_leave_pool_unchanged() {
    let ms = config();
    let mut pool = fresh_pool(&ms);
    let before = pool;
    assert_eq!(
        buy_tokens_from_exact_quote(&ms, &mut pool, acct(BUYER), 0, 0, 11),
        Err(PumpFunError::WrongQuoteAmount)
    );
    assert_eq!(pool, before);
    // Asking for more base than this buy yields.
    assert_eq!(
        buy_tokens_from_exact_quote(&ms, &mut pool, acct(BUYER), 1_000_000, 96_087_354, 11),
        Err(PumpFunError::TooFewOutputTokens)
    );
    assert_eq!(pool, before);
    // No trade on a completed pool.
    pool.complete = true;
    let before = pool;
    assert_eq!(
        buy_tokens_from_exact_quote(&ms, &mut pool, acct(BUYER), 1_000_000, 0, 11),
        Err(PumpFunError::BondingCurveComplete)
    );
    assert_eq!(pool, before);
}

#[test]
fn buy_past_threshold_is_clamped_and_completes() {
    // A buy whose net input would overshoot the threshold is clamped so the
    // real quote reserves land exactly on it, and the pool completes.
    let ms = config();
    let mut pool = fresh_pool(&ms);
    buy_tokens_from_exact_quote(&ms, &mut pool, acct(BUYER), 1_000_000, 0, 11).unwrap();
    let out = buy_tokens_from_exact_quote(&ms, &mut pool, acct(BUYER), 40_000_000, 0, 12).unwrap();
    // The clamped gross charges exactly the headroom, grossed up for the fee.
    assert_eq!(out.input_quote_amount, 29_010_000);
    assert_eq!(out.fee, 293_030);
    assert_eq!(out.base_amount, 703_912_647);
    assert_eq!(pool.real_quote_reserves, 30_000_000);
    assert_eq!(pool.real_quote_reserves, pool.real_quote_threshold);
    assert!(pool.complete);
    assert_eq!(pool.real_base_reserves, 200_000_000);
    let completion = out.completion.unwrap();
    assert_eq!(completion.base_mint, acct(BASE_MINT));
    assert_eq!(completion.timestamp, 12);
    assert_eq!(out.trade.quote_amount, 29_303_030);
}

#[test]
fn buy_landing_exactly_on_threshold_completes_without_clamp() {
    let mut ms = config();
    ms.real_quote_threshold = 990_000;
    let mut pool = fresh_pool(&ms);
    let out = buy_tokens_from_exact_quote(&ms, &mut pool, acct(BUYER), 1_000_000, 0, 11).unwrap();
    assert_eq!(out.input_quote_amount, 990_000);
    assert_eq!(out.fee, 10_000);
    assert_eq!(pool.real_quote_reserves, 990_000);
    assert!(pool.complete);
    assert!(out.completion.is_some());
}

#[test]
fn buy_exact_base_scenario() {
    let ms = config();
    let mut pool = fresh_pool(&ms);
    let out =
        buy_exact_tokens_from_quote(&ms, &mut pool, acct(BUYER), 100_000_000, 2_000_000, 11)
            .unwrap();
    assert_eq!(out.base_amount, 100_000_000);
    // The rounded-up inverse of the curve, then grossed up for the fee.
    assert_eq!(out.input_quote_amount, 1_034_483);
    assert_eq!(out.fee, 10_449);
    assert_eq!(out.trade.quote_amount, 1_044_932);
    assert_eq!(pool.real_base_reserves, 900_000_000);
    assert_eq!(pool.real_quote_reserves, 1_034_483);
    assert!(!pool.complete);
}

#[test]
fn buy_exact_base_refusals() {
    let ms = config();
    let mut pool = fresh_pool(&ms);
    let before = pool;
    // The gross charge of 1_044_932 exceeds the caller's maximum by one.
    assert_eq!(
        buy_exact_tokens_from_quote(&ms, &mut pool, acct(BUYER), 100_000_000, 1_044_931, 11),
        Err(PumpFunError::TooMuchInputQuote)
    );
    assert_eq!(pool, before);
    assert_eq!(
        buy_exact_tokens_from_quote(&ms, &mut pool, acct(BUYER), 0, 1_000_000, 11),
        Err(PumpFunError::WrongBaseAmount)
    );
    assert_eq!(pool, before);
    // More base than the pool's real reserves hold.
    assert_eq!(
        buy_exact_tokens_from_quote(&ms, &mut pool, acct(BUYER), 1_000_000_001, u64::MAX, 11),
        Err(PumpFunError::WrongBaseAmount)
    );
    assert_eq!(pool, before);
    pool.complete = true;
    let before = pool;
    assert_eq!(
        buy_exact_tokens_from_quote(&ms, &mut pool, acct(BUYER), 1, u64::MAX, 11),
        Err(PumpFunError::BondingCurveComplete)
    );
    assert_eq!(pool, before);
}

#[test]
fn buy_exact_base_clamped_at_threshold() {
    let ms = config();
    let mut pool = fresh_pool(&ms);
    // 800_000_000 base would require 30_000_001 net quote: one past the
    // threshold, so the buy is clamped to the headroom.
    let out =
        buy_exact_tokens_from_quote(&ms, &mut pool, acct(BUYER), 800_000_000, u64::MAX, 11)
            .unwrap();
    assert_eq!(out.input_quote_amount, 30_000_000);
    assert_eq!(out.fee, 303_030);
    assert_eq!(out.base_amount, 800_000_000);
    assert_eq!(pool.real_quote_reserves, pool.real_quote_threshold);
    assert!(pool.complete);
    assert!(out.completion.is_some());
}

#[test]
fn buy_exact_base_arithmetic_overflow() {
    // A pool whose curve product is enormous: the rounded-up required quote
    // leaves the 64-bit range.
    let ms = MainState { trading_fee: 1000, ..config() };
    let pool_template = PoolState {
        owner: acct(CREATOR),
        base_mint: acct(BASE_MINT),
        quote_mint: acct(QUOTE_MINT),
        virt_base_reserves: 1,
        virt_quote_reserves: u64::MAX - 1,
        real_base_reserves: u64::MAX - 1,
        real_quote_reserves: 0,
        real_quote_threshold: 1,
        complete: false,
    };
    let mut pool = pool_template;
    assert_eq!(
        buy_exact_tokens_from_quote(&ms, &mut pool, acct(BUYER), u64::MAX - 2, u64::MAX, 11),
        Err(PumpFunError::ArithmeticError)
    );
    assert_eq!(pool, pool_template);
}

#[test]
fn sell_scenario_and_round_trip_favours_pool() {
    // Seed the pool with one buy, then buy and immediately resell the same
    // base amount: the net proceeds must not exceed what was spent.
    let ms = config();
    let mut pool = fresh_pool(&ms);
    buy_tokens_from_exact_quote(&ms, &mut pool, acct(BUYER), 1_000_000, 0, 11).unwrap();
    let bought =
        buy_tokens_from_exact_quote(&ms, &mut pool, acct(SELLER), 1_000_000, 0, 12).unwrap();
    assert_eq!(bought.base_amount, 80_206_471);
    let out = sell(
        &ms,
        &mut pool,
        acct(SELLER),
        bought.base_amount,
        0,
        bought.base_amount,
        13,
    )
    .unwrap();
    // The curve rounds one unit of dust back, and the fee takes it away.
    assert_eq!(out.base_amount, 80_206_471);
    assert_eq!(out.fee, 9_900);
    assert_eq!(out.output_quote_amount, 980_101);
    assert!(out.output_quote_amount <= 1_000_000);
    assert_eq!(pool.real_base_reserves, 903_912_647);
    assert_eq!(pool.real_quote_reserves, 989_999);
    assert!(!pool.complete);
    let trade = out.trade;
    assert_eq!(trade.user, acct(SELLER));
    assert_eq!(trade.base_amount, 80_206_471);
    assert_eq!(trade.quote_amount, 980_101);
    assert!(!trade.is_buy);
    assert_eq!(trade.base_reserves, 66_666_666 + 903_912_647);
    assert_eq!(trade.quote_reserves, 10_000_000 + 989_999);
    assert_eq!(trade.timestamp, 13);
}

#[test]
fn sell_beyond_balance_is_refused_first() {
    // Selling more base than the seller holds fails before any reserve
    // mutation, even on a pool that would also refuse for other reasons.
    let ms = config();
    let mut pool = fresh_pool(&ms);
    let before = pool;
    assert_eq!(
        sell(&ms, &mut pool, acct(SELLER), 1_000, 0, 999, 13),
        Err(PumpFunError::InsufficientFund)
    );
    assert_eq!(pool, before);
}

#[test]
fn sell_refusals_leave_pool_unchanged() {
    let ms = config();
    let mut pool = fresh_pool(&ms);
    buy_tokens_from_exact_quote(&ms, &mut pool, acct(SELLER), 1_000_000, 0, 11).unwrap();
    let before = pool;
    assert_eq!(
        sell(&ms, &mut pool, acct(SELLER), 0, 0, 1_000_000, 13),
        Err(PumpFunError::WrongBaseAmount)
    );
    assert_eq!(pool, before);
    // The gross proceeds of this sale would be 990_001: one more quote unit
    // than the pool's real reserves hold, so custody protection refuses.
    assert_eq!(
        sell(&ms, &mut pool, acct(SELLER), 96_087_353, 0, 96_087_353, 13),
        Err(PumpFunError::ArithmeticError)
    );
    assert_eq!(pool, before);
    // A minimum just above the actual proceeds.
    assert_eq!(
        sell(&ms, &mut pool, acct(SELLER), 40_000_000, 500_000, 40_000_000, 13),
        Err(PumpFunError::TooLowOutputQuote)
    );
    assert_eq!(pool, before);
    pool.complete = true;
    let before = pool;
    assert_eq!(
        sell(&ms, &mut pool, acct(SELLER), 1_000, 0, 1_000_000, 13),
        Err(PumpFunError::BondingCurveComplete)
    );
    assert_eq!(pool, before);
}

#[test]
fn sell_into_fresh_pool_cannot_drain_virtual_quote() {
    // With no real quote accumulated, any sale with positive proceeds would
    // pay out of the virtual reserves; the engine refuses.
    let ms = config();
    let mut pool = fresh_pool(&ms);
    let before = pool;
    assert_eq!(
        sell(&ms, &mut pool, acct(SELLER), 1_000, 0, 1_000, 13),
        Err(PumpFunError::ArithmeticError)
    );
    assert_eq!(pool, before);
}

#[test]
fn withdraw_takes_everything_exactly_once() {
    let ms = config();
    let mut pool = fresh_pool(&ms);
    buy_exact_tokens_from_quote(&ms, &mut pool, acct(BUYER), 800_000_000, u64::MAX, 11).unwrap();
    assert!(pool.complete);
    let out = withdraw(&ms, &mut pool, acct(WITHDRAWER), 14).unwrap();
    assert_eq!(out.base_amount, 200_000_000);
    assert_eq!(out.quote_amount, 30_000_000);
    assert_eq!(pool.real_base_reserves, 0);
    assert_eq!(pool.real_quote_reserves, 0);
    assert!(pool.complete);
    assert_eq!(out.event.withdrawer, acct(WITHDRAWER));
    assert_eq!(out.event.base_mint, acct(BASE_MINT));
    assert_eq!(out.event.base_amount, 200_000_000);
    assert_eq!(out.event.quote_amount, 30_000_000);
    assert_eq!(out.event.timestamp, 14);
    // A second withdrawal fails and the reserves stay zero.
    let before = pool;
    assert_eq!(
        withdraw(&ms, &mut pool, acct(WITHDRAWER), 15),
        Err(PumpFunError::BondingCurveAlreadyWithdrawn)
    );
    assert_eq!(pool, before);
    assert_eq!(pool.real_base_reserves, 0);
    assert_eq!(pool.real_quote_reserves, 0);
}

#[test]
fn invariants_hold_across_lifecycle() {
    // Walks a whole pool life and checks the account invariants after every
    // step: reserves move only by the settled amounts, real quote never
    // passes the threshold, completion never reverts, and the virtual
    // reserves and identity never change.
    let ms = config();
    let mut pool = fresh_pool(&ms);
    let initial = pool;
    let mut was_complete = false;
    let mut product: u128 = (pool.virt_base_reserves as u128 + pool.real_base_reserves as u128)
        * (pool.virt_quote_reserves as u128 + pool.real_quote_reserves as u128);

    // A buy, a sell, and the clamped buy that completes the pool.
    for step in 0..3 {
        let before = pool;
        let (base_delta_out, quote_delta_in): (u64, i128) = match step {
            0 => {
                let out =
                    buy_tokens_from_exact_quote(&ms, &mut pool, acct(BUYER), 5_000_000, 0, 20)
                        .unwrap();
                (out.base_amount, out.input_quote_amount as i128)
            }
            1 => {
                let held = pool.real_base_reserves;
                let out = sell(&ms, &mut pool, acct(SELLER), 1_000_000, 0, held, 21).unwrap();
                let gross = out.fee as i128 + out.output_quote_amount as i128;
                // Selling returns base to the pool.
                assert_eq!(
                    pool.real_base_reserves,
                    before.real_base_reserves + out.base_amount
                );
                (0, -gross)
            }
            _ => {
                let out =
                    buy_tokens_from_exact_quote(&ms, &mut pool, acct(BUYER), u64::MAX / 4, 0, 22)
                        .unwrap();
                (out.base_amount, out.input_quote_amount as i128)
            }
        };
        // Invariant: reserves change only by the settled deltas.
        if step != 1 {
            assert_eq!(pool.real_base_reserves, before.real_base_reserves - base_delta_out);
        }
        assert_eq!(
            pool.real_quote_reserves as i128,
            before.real_quote_reserves as i128 + quote_delta_in
        );
        // Invariant: real quote stays within the threshold.
        assert!(pool.real_quote_reserves <= pool.real_quote_threshold);
        if !pool.complete {
            assert!(pool.real_quote_reserves < pool.real_quote_threshold);
        }
        // Invariant: completion never reverts.
        assert!(!was_complete || pool.complete);
        was_complete = pool.complete;
        // Invariant: identity and virtual reserves are frozen at creation.
        assert_eq!(pool.owner, initial.owner);
        assert_eq!(pool.base_mint, initial.base_mint);
        assert_eq!(pool.quote_mint, initial.quote_mint);
        assert_eq!(pool.virt_base_reserves, initial.virt_base_reserves);
        assert_eq!(pool.virt_quote_reserves, initial.virt_quote_reserves);
        assert_eq!(pool.real_quote_threshold, initial.real_quote_threshold);
        // Invariant: these floor-priced trades never grow the curve product.
        let new_product: u128 = (pool.virt_base_reserves as u128
            + pool.real_base_reserves as u128)
            * (pool.virt_quote_reserves as u128 + pool.real_quote_reserves as u128);
        assert!(new_product <= product);
        product = new_product;
    }
    assert!(pool.complete);
    assert_eq!(pool.real_quote_reserves, pool.real_quote_threshold);
    withdraw(&ms, &mut pool, acct(WITHDRAWER), 23).unwrap();
    assert_eq!(pool.real_base_reserves, 0);
    assert_eq!(pool.real_quote_reserves, 0);
    assert!(pool.complete);
}

#[test]
fn fee_free_round_trip_can_gain_one_rounding_unit() {
    // The documented boundary of the no-arbitrage property: with no fee,
    // truncation on both legs can hand the trader exactly one quote unit.
    // Totals 100 and 10, net input 3: the buy takes 24 base, the resale
    // grosses 4.
    let ms = MainState { trading_fee: 0, ..config() };
    let mut pool = PoolState {
        owner: acct(CREATOR),
        base_mint: acct(BASE_MINT),
        quote_mint: acct(QUOTE_MINT),
        virt_base_reserves: 76,
        virt_quote_reserves: 6,
        real_base_reserves: 24,
        real_quote_reserves: 4,
        real_quote_threshold: 100,
        complete: false,
    };
    let bought = buy_tokens_from_exact_quote(&ms, &mut pool, acct(BUYER), 3, 0, 30).unwrap();
    assert_eq!(bought.fee, 0);
    assert_eq!(bought.base_amount, 24);
    let resold = sell(&ms, &mut pool, acct(BUYER), 24, 0, 24, 31).unwrap();
    assert_eq!(resold.fee, 0);
    assert_eq!(resold.output_quote_amount, 4);
    // One unit above the 3 spent - and never more than one.
}

#[test]
fn withdraw_refusals() {
    let ms = config();
    let mut pool = fresh_pool(&ms);
    let before = pool;
    // Not complete yet.
    assert_eq!(
        withdraw(&ms, &mut pool, acct(WITHDRAWER), 14),
        Err(PumpFunError::BondingCurveIncomplete)
    );
    assert_eq!(pool, before);
    // Only the configured withdrawer may call.
    buy_exact_tokens_from_quote(&ms, &mut pool, acct(BUYER), 800_000_000, u64::MAX, 11).unwrap();
    let before = pool;
    assert_eq!(withdraw(&ms, &mut pool, acct(BUYER), 14), Err(PumpFunError::Unauthorised));
    assert_eq!(pool, before);
}
