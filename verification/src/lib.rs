//! A constant-product automated market maker for one pair of tokens.
//!
//! The crate holds the accounting of a pool: how much a swap pays out, how
//! many shares a deposit earns and what a share redeems. Every operation
//! reads a snapshot of the accounts it touches and answers with the ledger
//! instructions to carry out, in order; it moves no tokens itself. The
//! reserves of a pool are what its two vaults hold in that snapshot, and the
//! supply of shares is what the share token's mint reports in it.

pub mod errors;
pub mod instructions;
pub mod ledger;
pub mod math;
pub mod state;

pub use crate::errors::AMMError;
pub use crate::instructions::add_liquidity::{AddLiquidity, AddLiquidityPlan, process_add_liquidity};
pub use crate::instructions::initialize_pool::{
    InitializePool, InitializePoolPlan, process_initialize_pool,
};
pub use crate::instructions::remove_liquidity::{
    RemoveLiquidity, RemoveLiquidityPlan, process_remove_liquidity,
};
pub use crate::instructions::swap::{Swap, SwapPlan, calculate_output_amount, process_swap};
pub use crate::ledger::{BurnChecked, MintTo, PoolSigner, TransferChecked};
pub use crate::state::{Mint, Pool, PoolAccount, Pubkey, TokenAccount};

use crate::math::is_floor_sqrt;
use vstd::prelude::*;

verus! {

/// Creates the pool of a pair and seeds it with the first deposit.
pub fn initialize_pool(ctx: &mut InitializePool, token_a_amount: u64, token_b_amount: u64) -> (res:
    Result<InitializePoolPlan, AMMError>)
    ensures
        *final(ctx) == old(ctx).initialized(),
        res matches Ok(plan) && plan.deposit_a == old(ctx).deposit_a(token_a_amount)
            && plan.deposit_b == old(ctx).deposit_b(token_b_amount) && plan.mint == old(ctx).mint(
            plan.mint.amount,
        ) && is_floor_sqrt(plan.mint.amount as nat, token_a_amount as nat * token_b_amount as nat),
{
    process_initialize_pool(ctx, token_a_amount, token_b_amount)
}

/// Trades `amount_in` of one token of the pair for the other.
pub fn swap(ctx: &Swap, amount_in: u64, minimum_amount_out: u64, a_to_b: bool) -> (res: Result<
    SwapPlan,
    AMMError,
>)
    ensures
        res == ctx.outcome(amount_in, minimum_amount_out, a_to_b),
{
    process_swap(ctx, amount_in, minimum_amount_out, a_to_b)
}

/// Deposits both tokens of the pair for new shares.
pub fn add_liquidity(ctx: &AddLiquidity, amount_a: u64, amount_b: u64, minimum_lp_tokens: u64) -> (res:
    Result<AddLiquidityPlan, AMMError>)
    ensures
        res == ctx.outcome(amount_a, amount_b, minimum_lp_tokens),
{
    process_add_liquidity(ctx, amount_a, amount_b, minimum_lp_tokens)
}

/// Redeems shares for a part of both reserves.
pub fn remove_liquidity(
    ctx: &RemoveLiquidity,
    lp_amount: u64,
    minimum_token_a: u64,
    minimum_token_b: u64,
) -> (res: Result<RemoveLiquidityPlan, AMMError>)
    ensures
        res == ctx.outcome(lp_amount, minimum_token_a, minimum_token_b),
{
    process_remove_liquidity(ctx, lp_amount, minimum_token_a, minimum_token_b)
}

} // verus!
