//! The deployment-wide configuration: who owns it, who withdraws and collects
//! fees, the fee rate, and the curve parameters every new pool is created
//! with; together with the three operations that create and mutate it.
use vstd::prelude::*;
use crate::AccountId;
use crate::constants::{
    FEE_PER_DIV, INIT_VIRT_BASE_RESERVE, INIT_VIRT_QUOTE_RESERVE, MAX_TRADING_FEE,
    REAL_QUOTE_THRESHOLD, TOTAL_SUPPLY,
};
use crate::error::PumpFunError;

verus! {

/// The singleton configuration, created once per deployment.
#[derive(Clone, Copy, Debug, PartialEq, Eq, Structural)]
pub struct MainState {
    /// Identity allowed to mutate the configuration and hand it on.
    pub owner: AccountId,
    /// Identity allowed to withdraw from a completed pool.
    pub withdrawer: AccountId,
    /// Identity collected fees are sent to.
    pub fee_recipient: AccountId,
    /// Fee rate applied to every buy and sell, in units of `FEE_PER_DIV` per
    /// percent.
    pub trading_fee: u64,
    /// Base-token issuance every pool must be created with.
    pub total_supply: u64,
    /// Virtual base reserves assigned to every new pool.
    pub init_virt_base_reserves: u64,
    /// Virtual quote reserves assigned to every new pool.
    pub init_virt_quote_reserves: u64,
    /// Real quote level at which a new pool will complete.
    pub real_quote_threshold: u64,
}

impl MainState {
    /// Well-formedness: the fee is within its cap and every curve parameter
    /// is positive. Creation establishes it and updates preserve it.
    pub open spec fn wf(self) -> bool {
        &&& self.trading_fee <= MAX_TRADING_FEE
        &&& self.total_supply >= 1
        &&& self.init_virt_base_reserves >= 1
        &&& self.init_virt_quote_reserves >= 1
        &&& self.real_quote_threshold >= 1
    }
}

/// Emitted once when the configuration is created.
#[derive(Clone, Copy, Debug, PartialEq, Eq, Structural)]
pub struct MainStateInitialized {
    pub owner: AccountId,
    pub withdrawer: AccountId,
    pub fee_recipient: AccountId,
    pub trading_fee: u64,
    pub total_supply: u64,
    pub init_virt_base_reserves: u64,
    pub init_virt_quote_reserves: u64,
    pub real_quote_threshold: u64,
}

/// Emitted when the configuration changes hands.
#[derive(Clone, Copy, Debug, PartialEq, Eq, Structural)]
pub struct OwnershipTransferred {
    pub previous_owner: AccountId,
    pub new_owner: AccountId,
}

/// Emitted after a configuration update, carrying the values now in force.
#[derive(Clone, Copy, Debug, PartialEq, Eq, Structural)]
pub struct MainStateUpdated {
    pub withdrawer: AccountId,
    pub fee_recipient: AccountId,
    pub trading_fee: u64,
    pub total_supply: u64,
    pub init_virt_base_reserves: u64,
    pub init_virt_quote_reserves: u64,
    pub real_quote_threshold: u64,
}

/// Parameters of a configuration update. The three mandatory fields are
/// always written; the optional ones only where given.
#[derive(Clone, Copy, Debug, PartialEq, Eq, Structural)]
pub struct UpdateMainStateInput {
    /// New withdrawer.
    pub withdrawer: AccountId,
    /// New fee recipient.
    pub fee_recipient: AccountId,
    /// New trading fee.
    pub trading_fee: u64,
    /// New total supply, where given.
    pub total_supply: Option<u64>,
    /// New initial virtual base reserves, where given.
    pub init_virt_base_reserves: Option<u64>,
    /// New initial virtual quote reserves, where given.
    pub init_virt_quote_reserves: Option<u64>,
    /// New real quote threshold, where given.
    pub real_quote_threshold: Option<u64>,
}

/// Creates the configuration: the initializer becomes owner, withdrawer and
/// fee recipient, the fee starts at one percent, and the curve parameters
/// take their deployment defaults.
pub fn init_main_state(owner: AccountId) -> (r: (MainState, MainStateInitialized))
    ensures
        r.0 == (MainState {
            owner,
            withdrawer: owner,
            fee_recipient: owner,
            trading_fee: FEE_PER_DIV,
            total_supply: TOTAL_SUPPLY,
            init_virt_base_reserves: INIT_VIRT_BASE_RESERVE,
            init_virt_quote_reserves: INIT_VIRT_QUOTE_RESERVE,
            real_quote_threshold: REAL_QUOTE_THRESHOLD,
        }),
        r.0.wf(),
        r.1 == (MainStateInitialized {
            owner,
            withdrawer: owner,
            fee_recipient: owner,
            trading_fee: FEE_PER_DIV,
            total_supply: TOTAL_SUPPLY,
            init_virt_base_reserves: INIT_VIRT_BASE_RESERVE,
            init_virt_quote_reserves: INIT_VIRT_QUOTE_RESERVE,
            real_quote_threshold: REAL_QUOTE_THRESHOLD,
        }),
{
    let state = MainState {
        owner,
        withdrawer: owner,
        fee_recipient: owner,
        trading_fee: 1 * FEE_PER_DIV,
        total_supply: TOTAL_SUPPLY,
        init_virt_base_reserves: INIT_VIRT_BASE_RESERVE,
        init_virt_quote_reserves: INIT_VIRT_QUOTE_RESERVE,
        real_quote_threshold: REAL_QUOTE_THRESHOLD,
    };
    let event = MainStateInitialized {
        owner: state.owner,
        withdrawer: state.withdrawer,
        fee_recipient: state.fee_recipient,
        trading_fee: state.trading_fee,
        total_supply: state.total_supply,
        init_virt_base_reserves: state.init_virt_base_reserves,
        init_virt_quote_reserves: state.init_virt_quote_reserves,
        real_quote_threshold: state.real_quote_threshold,
    };
    (state, event)
}

/// Hands the configuration to `new_owner`. Only the current owner may do so,
/// and not to itself; nothing else changes.
pub fn transfer_ownership(main_state: &mut MainState, caller: AccountId, new_owner: AccountId) -> (r:
    Result<OwnershipTransferred, PumpFunError>)
    ensures
        match r {
            Ok(ev) => {
                &&& caller == old(main_state).owner
                &&& new_owner != old(main_state).owner
                &&& *final(main_state) == (MainState { owner: new_owner, ..*old(main_state) })
                &&& ev == (OwnershipTransferred {
                    previous_owner: old(main_state).owner,
                    new_owner,
                })
            },
            Err(e) => {
                &&& *final(main_state) == *old(main_state)
                &&& if caller != old(main_state).owner {
                    e == PumpFunError::Unauthorised
                } else {
                    e == PumpFunError::AlreadyBecameOwner && new_owner == old(main_state).owner
                }
            },
        },
        old(main_state).wf() ==> final(main_state).wf(),
{
    if caller != main_state.owner {
        return Err(PumpFunError::Unauthorised);
    }
    if main_state.owner == new_owner {
        return Err(PumpFunError::AlreadyBecameOwner);
    }
    let previous_owner = main_state.owner;
    main_state.owner = new_owner;
    Ok(OwnershipTransferred { previous_owner, new_owner })
}

/// The configuration the update would leave in force: mandatory fields
/// overwritten, optional ones only where given.
pub open spec fn spec_updated_state(state: MainState, input: UpdateMainStateInput) -> MainState {
    MainState {
        owner: state.owner,
        withdrawer: input.withdrawer,
        fee_recipient: input.fee_recipient,
        trading_fee: input.trading_fee,
        total_supply: if input.total_supply is Some {
            input.total_supply->0
        } else {
            state.total_supply
        },
        init_virt_base_reserves: if input.init_virt_base_reserves is Some {
            input.init_virt_base_reserves->0
        } else {
            state.init_virt_base_reserves
        },
        init_virt_quote_reserves: if input.init_virt_quote_reserves is Some {
            input.init_virt_quote_reserves->0
        } else {
            state.init_virt_quote_reserves
        },
        real_quote_threshold: if input.real_quote_threshold is Some {
            input.real_quote_threshold->0
        } else {
            state.real_quote_threshold
        },
    }
}

/// Rewrites the configuration. Only the owner may; the fee must stay within
/// its cap and every given curve parameter must be positive, otherwise
/// nothing changes. The record carries the values now in force.
pub fn update_main_state(
    main_state: &mut MainState,
    caller: AccountId,
    input: UpdateMainStateInput,
) -> (r: Result<MainStateUpdated, PumpFunError>)
    ensures
        match r {
            Ok(ev) => {
                let updated = spec_updated_state(*old(main_state), input);
                &&& caller == old(main_state).owner
                &&& input.trading_fee <= MAX_TRADING_FEE
                &&& (input.total_supply is Some ==> input.total_supply->0 > 0)
                &&& (input.init_virt_base_reserves is Some ==> input.init_virt_base_reserves->0
                    > 0)
                &&& (input.init_virt_quote_reserves is Some ==> input.init_virt_quote_reserves->0
                    > 0)
                &&& (input.real_quote_threshold is Some ==> input.real_quote_threshold->0 > 0)
                &&& *final(main_state) == updated
                &&& ev == (MainStateUpdated {
                    withdrawer: updated.withdrawer,
                    fee_recipient: updated.fee_recipient,
                    trading_fee: updated.trading_fee,
                    total_supply: updated.total_supply,
                    init_virt_base_reserves: updated.init_virt_base_reserves,
                    init_virt_quote_reserves: updated.init_virt_quote_reserves,
                    real_quote_threshold: updated.real_quote_threshold,
                })
            },
            Err(e) => {
                &&& *final(main_state) == *old(main_state)
                &&& if caller != old(main_state).owner {
                    e == PumpFunError::Unauthorised
                } else if input.trading_fee > MAX_TRADING_FEE {
                    e == PumpFunError::InvalidFee
                } else if input.total_supply is Some && input.total_supply->0 == 0 {
                    e == PumpFunError::InvalidTotalSupply
                } else if input.init_virt_base_reserves is Some && input.init_virt_base_reserves->0
                    == 0 {
                    e == PumpFunError::InvalidInitVirtBaseReserves
                } else if input.init_virt_quote_reserves is Some
                    && input.init_virt_quote_reserves->0 == 0 {
                    e == PumpFunError::InvalidInitVirtQuoteReserves
                } else {
                    e == PumpFunError::InvalidRealQuoteThreshold && input.real_quote_threshold
                        is Some && input.real_quote_threshold->0 == 0
                }
            },
        },
        old(main_state).wf() && r is Ok ==> final(main_state).wf(),
{
    if caller != main_state.owner {
        return Err(PumpFunError::Unauthorised);
    }
    if input.trading_fee > MAX_TRADING_FEE {
        return Err(PumpFunError::InvalidFee);
    }
    // Validate every given parameter before writing anything, so a refused
    // update leaves the configuration untouched.
    if let Some(total_supply) = input.total_supply {
        if total_supply == 0 {
            return Err(PumpFunError::InvalidTotalSupply);
        }
    }
    if let Some(init_virt_base_reserves) = input.init_virt_base_reserves {
        if init_virt_base_reserves == 0 {
            return Err(PumpFunError::InvalidInitVirtBaseReserves);
        }
    }
    if let Some(init_virt_quote_reserves) = input.init_virt_quote_reserves {
        if init_virt_quote_reserves == 0 {
            return Err(PumpFunError::InvalidInitVirtQuoteReserves);
        }
    }
    if let Some(real_quote_threshold) = input.real_quote_threshold {
        if real_quote_threshold == 0 {
            return Err(PumpFunError::InvalidRealQuoteThreshold);
        }
    }
    main_state.withdrawer = input.withdrawer;
    main_state.fee_recipient = input.fee_recipient;
    main_state.trading_fee = input.trading_fee;
    if let Some(total_supply) = input.total_supply {
        main_state.total_supply = total_supply;
    }
    if let Some(init_virt_base_reserves) = input.init_virt_base_reserves {
        main_state.init_virt_base_reserves = init_virt_base_reserves;
    }
    if let Some(init_virt_quote_reserves) = input.init_virt_quote_reserves {
        main_state.init_virt_quote_reserves = init_virt_quote_reserves;
    }
    if let Some(real_quote_threshold) = input.real_quote_threshold {
        main_state.real_quote_threshold = real_quote_threshold;
    }
    let ev = MainStateUpdated {
        withdrawer: main_state.withdrawer,
        fee_recipient: main_state.fee_recipient,
        trading_fee: main_state.trading_fee,
        total_supply: main_state.total_supply,
        init_virt_base_reserves: main_state.init_virt_base_reserves,
        init_virt_quote_reserves: main_state.init_virt_quote_reserves,
        real_quote_threshold: main_state.real_quote_threshold,
    };
    Ok(ev)
}

} // verus!
