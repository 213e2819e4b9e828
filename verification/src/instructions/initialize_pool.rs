//! Creating a pool and seeding its reserves.

use crate::errors::AMMError;
use crate::ledger::{MintTo, PoolSigner, TransferChecked};
use crate::math::{integer_sqrt, is_floor_sqrt, lemma_product_fits};
use crate::state::{Mint, Pool, PoolAccount, Pubkey, TokenAccount};
use vstd::prelude::*;

verus! {

/// The accounts of a pool's creation. The vaults, the share token and the
/// pool's own account are new and empty; the pool's record is still to be
/// written.
#[derive(Clone, Copy, Debug, PartialEq, Eq)]
pub struct InitializePool {
    /// The wallet that creates the pool and makes the first deposit.
    pub creator: Pubkey,
    pub token_a_mint: Mint,
    pub token_b_mint: Mint,
    pub vault_a: TokenAccount,
    pub vault_b: TokenAccount,
    pub liquidity_pool: PoolAccount,
    /// The nonce found for the address of `liquidity_pool`.
    pub liquidity_pool_bump: u8,
    pub creator_token_a: TokenAccount,
    pub creator_token_b: TokenAccount,
    /// The share token of the pool.
    pub lp_mint: Mint,
    /// The creator's account of shares.
    pub creator_lp_token: TokenAccount,
}

/// What the ledger is to do to seed a pool, in this order: take both deposits,
/// then issue the first shares to the creator.
#[derive(Clone, Copy, Debug, PartialEq, Eq)]
pub struct InitializePoolPlan {
    pub deposit_a: TransferChecked,
    pub deposit_b: TransferChecked,
    pub mint: MintTo,
}

impl InitializePool {
    /// The record of the pool that these accounts make up.
    pub open spec fn pool(self) -> Pool {
        Pool {
            token_a_mint: self.token_a_mint.key,
            token_b_mint: self.token_b_mint.key,
            vault_a: self.vault_a.key,
            vault_b: self.vault_b.key,
            lp_mint: self.lp_mint.key,
            bump: self.liquidity_pool_bump,
        }
    }

    /// The same accounts with the pool's record written.
    pub open spec fn initialized(self) -> InitializePool {
        InitializePool {
            liquidity_pool: PoolAccount { key: self.liquidity_pool.key, pool: self.pool() },
            ..self
        }
    }

    /// The seeds that sign for the pool.
    pub open spec fn pool_signer(self) -> PoolSigner {
        PoolSigner {
            token_a_mint: self.token_a_mint.key,
            token_b_mint: self.token_b_mint.key,
            bump: self.liquidity_pool_bump,
        }
    }

    /// The transfer of `amount` of token A from the creator to the vault.
    pub open spec fn deposit_a(self, amount: u64) -> TransferChecked {
        TransferChecked {
            from: self.creator_token_a.key,
            mint: self.token_a_mint.key,
            to: self.vault_a.key,
            authority: self.creator,
            signer: None,
            amount,
            decimals: self.token_a_mint.decimals,
        }
    }

    /// The transfer of `amount` of token B from the creator to the vault.
    pub open spec fn deposit_b(self, amount: u64) -> TransferChecked {
        TransferChecked {
            from: self.creator_token_b.key,
            mint: self.token_b_mint.key,
            to: self.vault_b.key,
            authority: self.creator,
            signer: None,
            amount,
            decimals: self.token_b_mint.decimals,
        }
    }

    /// The issue of `amount` shares to the creator.
    pub open spec fn mint(self, amount: u64) -> MintTo {
        MintTo {
            mint: self.lp_mint.key,
            to: self.creator_lp_token.key,
            authority: self.liquidity_pool.key,
            signer: self.pool_signer(),
            amount,
        }
    }
}

/// Writes the pool's record and seeds the pool with `token_a_amount` and
/// `token_b_amount`. The creator receives the square root of the product of
/// the two deposits in shares, rounded down; a deposit of zero on either
/// side therefore earns no share. Nothing is refused here: whether the
/// creator holds the deposits is for the ledger to say.
pub fn process_initialize_pool(
    ctx: &mut InitializePool,
    token_a_amount: u64,
    token_b_amount: u64,
) -> (res: Result<InitializePoolPlan, AMMError>)
    ensures
        *final(ctx) == old(ctx).initialized(),
        res matches Ok(plan) && plan.deposit_a == old(ctx).deposit_a(token_a_amount)
            && plan.deposit_b == old(ctx).deposit_b(token_b_amount) && plan.mint == old(ctx).mint(
            plan.mint.amount,
        ) && is_floor_sqrt(plan.mint.amount as nat, token_a_amount as nat * token_b_amount as nat),
{
    ctx.liquidity_pool.pool.token_a_mint = ctx.token_a_mint.key;
    ctx.liquidity_pool.pool.token_b_mint = ctx.token_b_mint.key;
    ctx.liquidity_pool.pool.vault_a = ctx.vault_a.key;
    ctx.liquidity_pool.pool.vault_b = ctx.vault_b.key;
    ctx.liquidity_pool.pool.lp_mint = ctx.lp_mint.key;
    ctx.liquidity_pool.pool.bump = ctx.liquidity_pool_bump;

    let deposit_a = TransferChecked {
        from: ctx.creator_token_a.key,
        mint: ctx.token_a_mint.key,
        to: ctx.vault_a.key,
        authority: ctx.creator,
        signer: None,
        amount: token_a_amount,
        decimals: ctx.token_a_mint.decimals,
    };
    let deposit_b = TransferChecked {
        from: ctx.creator_token_b.key,
        mint: ctx.token_b_mint.key,
        to: ctx.vault_b.key,
        authority: ctx.creator,
        signer: None,
        amount: token_b_amount,
        decimals: ctx.token_b_mint.decimals,
    };

    proof {
        lemma_product_fits(token_a_amount, token_b_amount);
    }
    let lp_token_amount = integer_sqrt((token_a_amount as u128) * (token_b_amount as u128));

    let mint = MintTo {
        mint: ctx.lp_mint.key,
        to: ctx.creator_lp_token.key,
        authority: ctx.liquidity_pool.key,
        signer: PoolSigner::new(ctx.token_a_mint.key, ctx.token_b_mint.key, ctx.liquidity_pool_bump),
        amount: lp_token_amount,
    };
    Ok(InitializePoolPlan { deposit_a, deposit_b, mint })
}

} // verus!
