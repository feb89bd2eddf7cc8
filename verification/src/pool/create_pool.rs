//! Pool creation: checks that the creator hands over the base token's whole,
//! irrevocable issuance against the configured quote mint, and builds the
//! initial pool state.
use vstd::prelude::*;
use crate::AccountId;
use crate::error::PumpFunError;
use crate::main_state::MainState;
use crate::pool::event::CreateEvent;
use crate::pool::state::PoolState;

verus! {

/// Creates a pool under `main_state` for the pair `(base_mint, quote_mint)`.
///
/// The caller passes what the host read from the ledger: the creator's base
/// balance, the base mint's supply, and whether the base mint still has a
/// mint or freeze authority. On success the host must move
/// `creator_base_amount` base tokens from the creator into pool custody and
/// persist the returned state and record.
pub fn create_pool(
    main_state: &MainState,
    creator: AccountId,
    base_mint: AccountId,
    quote_mint: AccountId,
    expected_quote_mint: AccountId,
    creator_base_amount: u64,
    base_mint_supply: u64,
    base_mint_has_mint_authority: bool,
    base_mint_has_freeze_authority: bool,
    timestamp: i64,
) -> (r: Result<(PoolState, CreateEvent), PumpFunError>)
    requires
        main_state.wf(),
        main_state.init_virt_base_reserves + main_state.total_supply <= u64::MAX,
        main_state.init_virt_quote_reserves + main_state.real_quote_threshold <= u64::MAX,
    ensures
        match r {
            Ok(p) => {
                &&& base_mint != quote_mint
                &&& quote_mint == expected_quote_mint
                &&& creator_base_amount == base_mint_supply
                &&& creator_base_amount == main_state.total_supply
                &&& !base_mint_has_mint_authority
                &&& !base_mint_has_freeze_authority
                &&& p.0 == (PoolState {
                    owner: creator,
                    base_mint,
                    quote_mint,
                    virt_base_reserves: main_state.init_virt_base_reserves,
                    virt_quote_reserves: main_state.init_virt_quote_reserves,
                    real_base_reserves: main_state.total_supply,
                    real_quote_reserves: 0,
                    real_quote_threshold: main_state.real_quote_threshold,
                    complete: false,
                })
                &&& p.0.wf()
                &&& p.1 == (CreateEvent {
                    creator,
                    base_mint,
                    base_reserves: (main_state.total_supply
                        + main_state.init_virt_base_reserves) as u64,
                    quote_reserves: main_state.init_virt_quote_reserves,
                    timestamp,
                })
            },
            Err(e) => {
                &&& (base_mint == quote_mint || quote_mint != expected_quote_mint
                    || creator_base_amount != base_mint_supply || creator_base_amount
                    != main_state.total_supply || base_mint_has_mint_authority
                    || base_mint_has_freeze_authority)
                &&& e == (if base_mint == quote_mint {
                    PumpFunError::InvalidTokenPair
                } else if quote_mint != expected_quote_mint {
                    PumpFunError::UnknownQuoteMint
                } else if creator_base_amount != base_mint_supply || creator_base_amount
                    != main_state.total_supply {
                    PumpFunError::WrongBaseAmountOnCreation
                } else if base_mint_has_mint_authority {
                    PumpFunError::BaseTokenMustNotBeMintable
                } else {
                    PumpFunError::BaseTokenMustNotBeFreezable
                })
            },
        },
{
    if base_mint == quote_mint {
        return Err(PumpFunError::InvalidTokenPair);
    }
    if quote_mint != expected_quote_mint {
        return Err(PumpFunError::UnknownQuoteMint);
    }
    if creator_base_amount != base_mint_supply {
        return Err(PumpFunError::WrongBaseAmountOnCreation);
    }
    if creator_base_amount != main_state.total_supply {
        return Err(PumpFunError::WrongBaseAmountOnCreation);
    }
    if base_mint_has_mint_authority {
        return Err(PumpFunError::BaseTokenMustNotBeMintable);
    }
    if base_mint_has_freeze_authority {
        return Err(PumpFunError::BaseTokenMustNotBeFreezable);
    }
    let pool = PoolState {
        owner: creator,
        base_mint,
        quote_mint,
        virt_base_reserves: main_state.init_virt_base_reserves,
        virt_quote_reserves: main_state.init_virt_quote_reserves,
        real_base_reserves: main_state.total_supply,
        real_quote_reserves: 0,
        real_quote_threshold: main_state.real_quote_threshold,
        complete: false,
    };
    let event = CreateEvent {
        creator: pool.owner,
        base_mint: pool.base_mint,
        base_reserves: pool.real_base_reserves + pool.virt_base_reserves,
        quote_reserves: pool.virt_quote_reserves,
        timestamp,
    };
    Ok((pool, event))
}

} // verus!
