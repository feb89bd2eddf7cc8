//! Per-market state: the pool account, the curve engine on its reserves, the
//! four pool instructions and the records they emit.

pub mod buy;
pub mod create_pool;
pub mod event;
pub mod laws;
pub mod sell;
pub mod state;
pub mod withdraw;
