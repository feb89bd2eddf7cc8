//! Deployment-wide constants: fee scaling and the default curve parameters
//! assigned to a fresh configuration.
use vstd::prelude::*;

verus! {

/// Fee-rate unit: a `trading_fee` of `FEE_PER_DIV` is one percent.
pub const FEE_PER_DIV: u64 = 1000;

/// Largest trading fee a configuration may carry (five percent).
pub const MAX_TRADING_FEE: u64 = 5 * FEE_PER_DIV;

/// Base-token issuance every pool must be created with.
pub const TOTAL_SUPPLY: u64 = 1_000_000_000_000_000;

/// Virtual base reserves assigned to every new pool.
pub const INIT_VIRT_BASE_RESERVE: u64 = 66_666_666_000_000;

/// Virtual quote reserves assigned to every new pool.
pub const INIT_VIRT_QUOTE_RESERVE: u64 = 10_000_000_000_000;

/// Accumulated real quote reserves at which a pool completes.
pub const REAL_QUOTE_THRESHOLD: u64 = 30_000_000_000_000;

} // verus!
