//! Depositing both tokens for new shares.

use crate::errors::AMMError;
use crate::ledger::{MintTo, PoolSigner, TransferChecked};
use crate::math::{
    lemma_floor_bounds, lemma_product_fits, lemma_round_trip, mul_div, mul_div_amounts,
    mul_div_floor, to_amount,
};
use crate::state::{Mint, PoolAccount, Pubkey, TokenAccount};
use vstd::prelude::*;

verus! {

/// The accounts of a deposit, as they stand when the operation starts.
#[derive(Clone, Copy, Debug, PartialEq, Eq)]
pub struct AddLiquidity {
    /// The wallet that deposits; it signs both transfers.
    pub liquidity_provider: Pubkey,
    pub token_a_mint: Mint,
    pub token_b_mint: Mint,
    pub liquidity_pool: PoolAccount,
    pub vault_a: TokenAccount,
    pub vault_b: TokenAccount,
    pub provider_token_a: TokenAccount,
    pub provider_token_b: TokenAccount,
    /// The share token of the pool.
    pub lp_mint: Mint,
    /// The provider's account of shares.
    pub provider_token_lp: TokenAccount,
}

/// What the ledger is to do for a deposit, in this order: take the deposit of
/// each token, then issue the shares.
#[derive(Clone, Copy, Debug, PartialEq, Eq)]
pub struct AddLiquidityPlan {
    pub deposit_a: TransferChecked,
    pub deposit_b: TransferChecked,
    pub mint: MintTo,
}

impl AddLiquidity {
    /// The shares that `amount_a` of token A alone would buy: that part of the
    /// supply which the amount is of the vault, rounded down.
    pub open spec fn shares_for_a(self, amount_a: u64) -> nat {
        mul_div_floor(amount_a as nat, self.lp_mint.supply as nat, self.vault_a.amount as nat)
    }

    /// The shares that `amount_b` of token B alone would buy.
    pub open spec fn shares_for_b(self, amount_b: u64) -> nat {
        mul_div_floor(amount_b as nat, self.lp_mint.supply as nat, self.vault_b.amount as nat)
    }

    /// The shares that the two amounts buy together: what the scarcer one buys.
    pub open spec fn shares_to_mint(self, amount_a: u64, amount_b: u64) -> nat {
        if self.shares_for_a(amount_a) <= self.shares_for_b(amount_b) {
            self.shares_for_a(amount_a)
        } else {
            self.shares_for_b(amount_b)
        }
    }

    /// The deposit of token A that goes with `shares`: that part of the vault
    /// which the shares are of the supply, rounded down.
    pub open spec fn required_a(self, shares: nat) -> nat {
        mul_div_floor(shares, self.vault_a.amount as nat, self.lp_mint.supply as nat)
    }

    /// The deposit of token B that goes with `shares`.
    pub open spec fn required_b(self, shares: nat) -> nat {
        mul_div_floor(shares, self.vault_b.amount as nat, self.lp_mint.supply as nat)
    }

    /// The seeds that sign for the pool.
    pub open spec fn pool_signer(self) -> PoolSigner {
        PoolSigner {
            token_a_mint: self.token_a_mint.key,
            token_b_mint: self.token_b_mint.key,
            bump: self.liquidity_pool.pool.bump,
        }
    }

    /// The transfer of `amount` of token A from the provider to the vault.
    pub open spec fn deposit_a(self, amount: u64) -> TransferChecked {
        TransferChecked {
            from: self.provider_token_a.key,
            mint: self.token_a_mint.key,
            to: self.vault_a.key,
            authority: self.liquidity_provider,
            signer: None,
            amount,
            decimals: self.token_a_mint.decimals,
        }
    }

    /// The transfer of `amount` of token B from the provider to the vault.
    pub open spec fn deposit_b(self, amount: u64) -> TransferChecked {
        TransferChecked {
            from: self.provider_token_b.key,
            mint: self.token_b_mint.key,
            to: self.vault_b.key,
            authority: self.liquidity_provider,
            signer: None,
            amount,
            decimals: self.token_b_mint.decimals,
        }
    }

    /// The issue of `amount` shares to the provider.
    pub open spec fn mint(self, amount: u64) -> MintTo {
        MintTo {
            mint: self.lp_mint.key,
            to: self.provider_token_lp.key,
            authority: self.liquidity_pool.key,
            signer: self.pool_signer(),
            amount,
        }
    }

    /// The answer to an offer of `amount_a` and `amount_b` for no fewer than
    /// `minimum_lp_tokens` shares. The deposits are those that go with the
    /// shares issued, which may be less than what was offered.
    ///
    /// An empty vault or an empty supply leaves a quotient without a divisor,
    /// and more shares than 64 bits hold cannot be issued: these are
    /// arithmetic faults, each met where the computation reaches it.
    pub open spec fn outcome(self, amount_a: u64, amount_b: u64, minimum_lp_tokens: u64) -> Result<
        AddLiquidityPlan,
        AMMError,
    > {
        let shares = self.shares_to_mint(amount_a, amount_b);
        let required_a = self.required_a(shares);
        let required_b = self.required_b(shares);
        if self.vault_a.amount == 0 || self.vault_b.amount == 0 {
            Err(AMMError::ArithmeticFault)
        } else if shares < minimum_lp_tokens {
            Err(AMMError::SlippageExceededForLP)
        } else if self.lp_mint.supply == 0 {
            Err(AMMError::ArithmeticFault)
        } else if amount_a < required_a || amount_b < required_b {
            Err(AMMError::InsufficientAmount)
        } else if shares > u64::MAX {
            Err(AMMError::ArithmeticFault)
        } else {
            Ok(
                AddLiquidityPlan {
                    deposit_a: self.deposit_a(required_a as u64),
                    deposit_b: self.deposit_b(required_b as u64),
                    mint: self.mint(shares as u64),
                },
            )
        }
    }
}

/// Deposits into the pool of `ctx` and issues shares for the deposit.
///
/// The deposits taken never exceed the offer, so no offer is answered with
/// [`AMMError::InsufficientAmount`]: shares are priced down from the offer,
/// and the deposit is valued down from the shares.
pub fn process_add_liquidity(
    ctx: &AddLiquidity,
    amount_a: u64,
    amount_b: u64,
    minimum_lp_tokens: u64,
) -> (res: Result<AddLiquidityPlan, AMMError>)
    ensures
        res == ctx.outcome(amount_a, amount_b, minimum_lp_tokens),
        res matches Ok(plan) ==> plan.mint.amount == ctx.shares_to_mint(amount_a, amount_b)
            && plan.mint.amount >= minimum_lp_tokens && plan.deposit_a.amount <= amount_a
            && plan.deposit_b.amount <= amount_b,
        // each deposit is in proportion to the shares, short by less than one unit
        res matches Ok(plan) ==> plan.deposit_a.amount * ctx.lp_mint.supply <= plan.mint.amount
            * ctx.vault_a.amount < (plan.deposit_a.amount + 1) * ctx.lp_mint.supply,
        res matches Ok(plan) ==> plan.deposit_b.amount * ctx.lp_mint.supply <= plan.mint.amount
            * ctx.vault_b.amount < (plan.deposit_b.amount + 1) * ctx.lp_mint.supply,
        !(res matches Err(AMMError::InsufficientAmount)),
{
    let vault_a_amount = ctx.vault_a.amount;
    let vault_b_amount = ctx.vault_b.amount;
    let total_lp_supply = ctx.lp_mint.supply;

    let required_lp_token_a = mul_div_amounts(amount_a, total_lp_supply, vault_a_amount)?;
    let required_lp_token_b = mul_div_amounts(amount_b, total_lp_supply, vault_b_amount)?;

    let lp_token_to_mint = if required_lp_token_a <= required_lp_token_b {
        required_lp_token_a
    } else {
        required_lp_token_b
    };

    if !(lp_token_to_mint >= minimum_lp_tokens as u128) {
        return Err(AMMError::SlippageExceededForLP);
    }
    proof {
        if total_lp_supply > 0 {
            lemma_product_fits(amount_a, total_lp_supply);
            lemma_product_fits(amount_b, total_lp_supply);
            lemma_round_trip(
                amount_a as nat,
                total_lp_supply as nat,
                vault_a_amount as nat,
                lp_token_to_mint as nat,
            );
            lemma_round_trip(
                amount_b as nat,
                total_lp_supply as nat,
                vault_b_amount as nat,
                lp_token_to_mint as nat,
            );
        }
    }
    let amount_to_transfer_a = to_amount(
        mul_div(lp_token_to_mint, vault_a_amount as u128, total_lp_supply as u128)?,
    )?;
    let amount_to_transfer_b = to_amount(
        mul_div(lp_token_to_mint, vault_b_amount as u128, total_lp_supply as u128)?,
    )?;

    if !(amount_a >= amount_to_transfer_a && amount_b >= amount_to_transfer_b) {
        return Err(AMMError::InsufficientAmount);
    }
    let shares = to_amount(lp_token_to_mint)?;
    proof {
        lemma_floor_bounds((shares * vault_a_amount) as nat, total_lp_supply as nat);
        lemma_floor_bounds((shares * vault_b_amount) as nat, total_lp_supply as nat);
    }

    let deposit_a = TransferChecked {
        from: ctx.provider_token_a.key,
        mint: ctx.token_a_mint.key,
        to: ctx.vault_a.key,
        authority: ctx.liquidity_provider,
        signer: None,
        amount: amount_to_transfer_a,
        decimals: ctx.token_a_mint.decimals,
    };
    let deposit_b = TransferChecked {
        from: ctx.provider_token_b.key,
        mint: ctx.token_b_mint.key,
        to: ctx.vault_b.key,
        authority: ctx.liquidity_provider,
        signer: None,
        amount: amount_to_transfer_b,
        decimals: ctx.token_b_mint.decimals,
    };
    let mint = MintTo {
        mint: ctx.lp_mint.key,
        to: ctx.provider_token_lp.key,
        authority: ctx.liquidity_pool.key,
        signer: PoolSigner::new(
            ctx.token_a_mint.key,
            ctx.token_b_mint.key,
            ctx.liquidity_pool.pool.bump,
        ),
        amount: shares,
    };
    Ok(AddLiquidityPlan { deposit_a, deposit_b, mint })
}

} // verus!
