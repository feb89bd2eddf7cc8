//! The error kinds an instruction can fail with. Every failure aborts the
//! whole operation: no state is mutated when an `Err` is returned.
use vstd::prelude::*;

verus! {

/// Reason an instruction was refused.
#[derive(Clone, Copy, Debug, PartialEq, Eq, Structural)]
pub enum PumpFunError {
    /// The caller is not the identity the operation is gated on.
    Unauthorised,
    /// Ownership was offered to the identity that already owns the configuration.
    AlreadyBecameOwner,
    /// A trading fee above the allowed maximum.
    InvalidFee,
    /// A zero total supply.
    InvalidTotalSupply,
    /// Zero initial virtual base reserves.
    InvalidInitVirtBaseReserves,
    /// Zero initial virtual quote reserves.
    InvalidInitVirtQuoteReserves,
    /// A zero real-quote threshold.
    InvalidRealQuoteThreshold,
    /// The creator did not supply exactly the configured total supply.
    WrongBaseAmountOnCreation,
    /// The base token still has a mint authority.
    BaseTokenMustNotBeMintable,
    /// The base token still has a freeze authority.
    BaseTokenMustNotBeFreezable,
    /// A buy with a zero quote amount.
    WrongQuoteAmount,
    /// A trade with a zero base amount, or one beyond the pool's real reserves.
    WrongBaseAmount,
    /// The caller's balance does not cover the requested amount.
    InsufficientFund,
    /// The quote mint is not the one the deployment is configured for.
    UnknownQuoteMint,
    /// Base and quote mint do not form a valid pair.
    InvalidTokenPair,
    /// A buy returned fewer base tokens than the caller's minimum.
    TooFewOutputTokens,
    /// A buy required more quote than the caller's maximum.
    TooMuchInputQuote,
    /// A sell returned less quote than the caller's minimum.
    TooLowOutputQuote,
    /// Withdrawal attempted before the pool completed.
    BondingCurveIncomplete,
    /// A trade attempted after the pool completed.
    BondingCurveComplete,
    /// Withdrawal attempted after the reserves were already taken out.
    BondingCurveAlreadyWithdrawn,
    /// A curve computation left the representable range or would empty a reserve.
    ArithmeticError,
}

} // verus!
