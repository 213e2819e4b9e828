//! The four operations on a pool, one module each.

pub mod add_liquidity;
pub mod initialize_pool;
pub mod remove_liquidity;
pub mod swap;
