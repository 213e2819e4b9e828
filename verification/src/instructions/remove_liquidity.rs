//! Redeeming shares for a part of both reserves.

use crate::errors::AMMError;
use crate::ledger::{BurnChecked, PoolSigner, TransferChecked};
use crate::instructions::add_liquidity::{AddLiquidity, AddLiquidityPlan};
use crate::math::{
    lemma_part_within_whole, lemma_redeem_after_deposit, mul_div_amounts, mul_div_floor, to_amount,
};
use crate::state::{Mint, PoolAccount, Pubkey, TokenAccount};
use vstd::prelude::*;

verus! {

/// The accounts of a redemption, as they stand when the operation starts.
#[derive(Clone, Copy, Debug, PartialEq, Eq)]
pub struct RemoveLiquidity {
    /// The wallet that redeems; it signs the burn.
    pub liquidity_revoker: Pubkey,
    pub token_a_mint: Mint,
    pub token_b_mint: Mint,
    pub liquidity_pool: PoolAccount,
    pub vault_a: TokenAccount,
    pub vault_b: TokenAccount,
    /// The share token of the pool.
    pub lp_mint: Mint,
    pub revoker_token_a: TokenAccount,
    pub revoker_token_b: TokenAccount,
    /// The redeemer's account of shares.
    pub revoker_token_lp: TokenAccount,
}

/// What the ledger is to do for a redemption, in this order: burn the shares,
/// then pay out of each vault.
#[derive(Clone, Copy, Debug, PartialEq, Eq)]
pub struct RemoveLiquidityPlan {
    pub burn: BurnChecked,
    pub payout_a: TransferChecked,
    pub payout_b: TransferChecked,
}

impl RemoveLiquidity {
    /// What `lp_amount` shares redeem of token A: that part of the vault which
    /// the shares are of the supply, rounded down.
    pub open spec fn entitlement_a(self, lp_amount: u64) -> nat {
        mul_div_floor(lp_amount as nat, self.vault_a.amount as nat, self.lp_mint.supply as nat)
    }

    /// What `lp_amount` shares redeem of token B.
    pub open spec fn entitlement_b(self, lp_amount: u64) -> nat {
        mul_div_floor(lp_amount as nat, self.vault_b.amount as nat, self.lp_mint.supply as nat)
    }

    /// The seeds that sign for the pool.
    pub open spec fn signer(self) -> PoolSigner {
        PoolSigner {
            token_a_mint: self.token_a_mint.key,
            token_b_mint: self.token_b_mint.key,
            bump: self.liquidity_pool.pool.bump,
        }
    }

    /// The burn of `lp_amount` shares out of the redeemer's account.
    pub open spec fn burn(self, lp_amount: u64) -> BurnChecked {
        BurnChecked {
            mint: self.lp_mint.key,
            from: self.revoker_token_lp.key,
            authority: self.liquidity_revoker,
            amount: lp_amount,
            decimals: self.lp_mint.decimals,
        }
    }

    /// The transfer of `amount` of token A from the vault to the redeemer.
    pub open spec fn payout_a(self, amount: u64) -> TransferChecked {
        TransferChecked {
            from: self.vault_a.key,
            mint: self.token_a_mint.key,
            to: self.revoker_token_a.key,
            authority: self.liquidity_pool.key,
            signer: Some(self.signer()),
            amount,
            decimals: self.token_a_mint.decimals,
        }
    }

    /// The transfer of `amount` of token B from the vault to the redeemer.
    pub open spec fn payout_b(self, amount: u64) -> TransferChecked {
        TransferChecked {
            from: self.vault_b.key,
            mint: self.token_b_mint.key,
            to: self.revoker_token_b.key,
            authority: self.liquidity_pool.key,
            signer: Some(self.signer()),
            amount,
            decimals: self.token_b_mint.decimals,
        }
    }

    /// The answer to a request to redeem `lp_amount` shares for no less than
    /// `minimum_token_a` and `minimum_token_b`.
    ///
    /// The guard looks at what the redeemer holds, not at what is asked for:
    /// a request for zero shares by a holder passes it and redeems nothing,
    /// and a request for more than the holder has is left for the ledger to
    /// refuse at the burn.
    pub open spec fn outcome(
        self,
        lp_amount: u64,
        minimum_token_a: u64,
        minimum_token_b: u64,
    ) -> Result<RemoveLiquidityPlan, AMMError> {
        let a = self.entitlement_a(lp_amount);
        let b = self.entitlement_b(lp_amount);
        if self.revoker_token_lp.amount == 0 {
            Err(AMMError::ZeroContriInPool)
        } else if self.lp_mint.supply == 0 || a > u64::MAX || b > u64::MAX {
            Err(AMMError::ArithmeticFault)
        } else if a < minimum_token_a || b < minimum_token_b {
            Err(AMMError::SlippageExceededForLR)
        } else {
            Ok(
                RemoveLiquidityPlan {
                    burn: self.burn(lp_amount),
                    payout_a: self.payout_a(a as u64),
                    payout_b: self.payout_b(b as u64),
                },
            )
        }
    }
}

/// No shares stand for nothing of a reserve.
pub proof fn lemma_nothing_redeems_nothing(reserve: nat, supply: nat)
    requires
        supply > 0,
    ensures
        mul_div_floor(0, reserve, supply) == 0,
{
    assert(0 * reserve == 0) by (nonlinear_arith);
}

/// Redeems `lp_amount` shares against the reserves and the supply of `ctx`.
///
/// Only a redeemer who holds no share is turned away as one. A holder may ask
/// for zero shares: asking for nothing back, the holder gets a plan that burns
/// and pays nothing.
pub fn process_remove_liquidity(
    ctx: &RemoveLiquidity,
    lp_amount: u64,
    minimum_token_a: u64,
    minimum_token_b: u64,
) -> (res: Result<RemoveLiquidityPlan, AMMError>)
    ensures
        res == ctx.outcome(lp_amount, minimum_token_a, minimum_token_b),
        res matches Ok(plan) ==> plan.burn.amount == lp_amount && plan.payout_a.amount
            == ctx.entitlement_a(lp_amount) && plan.payout_b.amount == ctx.entitlement_b(lp_amount)
            && plan.payout_a.amount >= minimum_token_a && plan.payout_b.amount >= minimum_token_b,
        // shares that exist are never owed more than the vaults hold
        res matches Ok(plan) ==> (lp_amount <= ctx.lp_mint.supply ==> plan.payout_a.amount
            <= ctx.vault_a.amount && plan.payout_b.amount <= ctx.vault_b.amount),
        (res matches Err(AMMError::ZeroContriInPool)) <==> ctx.revoker_token_lp.amount == 0,
        lp_amount == 0 && ctx.revoker_token_lp.amount > 0 && ctx.lp_mint.supply > 0
            && minimum_token_a == 0 && minimum_token_b == 0 ==> (res matches Ok(plan)
            && plan.burn.amount == 0 && plan.payout_a.amount == 0 && plan.payout_b.amount == 0),
{
    if ctx.revoker_token_lp.amount == 0 {
        return Err(AMMError::ZeroContriInPool);
    }
    proof {
        if lp_amount == 0 && ctx.lp_mint.supply > 0 {
            lemma_nothing_redeems_nothing(ctx.vault_a.amount as nat, ctx.lp_mint.supply as nat);
            lemma_nothing_redeems_nothing(ctx.vault_b.amount as nat, ctx.lp_mint.supply as nat);
        }
        if 0 < ctx.lp_mint.supply && lp_amount <= ctx.lp_mint.supply {
            lemma_part_within_whole(
                lp_amount as nat,
                ctx.vault_a.amount as nat,
                ctx.lp_mint.supply as nat,
            );
            lemma_part_within_whole(
                lp_amount as nat,
                ctx.vault_b.amount as nat,
                ctx.lp_mint.supply as nat,
            );
        }
    }
    let vault_a_amount = ctx.vault_a.amount;
    let vault_b_amount = ctx.vault_b.amount;
    let total_lp_supply = ctx.lp_mint.supply;

    let required_token_a = to_amount(mul_div_amounts(lp_amount, vault_a_amount, total_lp_supply)?)?;
    let required_token_b = to_amount(mul_div_amounts(lp_amount, vault_b_amount, total_lp_supply)?)?;

    if !(required_token_a >= minimum_token_a && required_token_b >= minimum_token_b) {
        return Err(AMMError::SlippageExceededForLR);
    }
    let burn = BurnChecked {
        mint: ctx.lp_mint.key,
        from: ctx.revoker_token_lp.key,
        authority: ctx.liquidity_revoker,
        amount: lp_amount,
        decimals: ctx.lp_mint.decimals,
    };

    let signer = PoolSigner::new(
        ctx.token_a_mint.key,
        ctx.token_b_mint.key,
        ctx.liquidity_pool.pool.bump,
    );
    let payout_a = TransferChecked {
        from: ctx.vault_a.key,
        mint: ctx.token_a_mint.key,
        to: ctx.revoker_token_a.key,
        authority: ctx.liquidity_pool.key,
        signer: Some(signer),
        amount: required_token_a,
        decimals: ctx.token_a_mint.decimals,
    };
    let payout_b = TransferChecked {
        from: ctx.vault_b.key,
        mint: ctx.token_b_mint.key,
        to: ctx.revoker_token_b.key,
        authority: ctx.liquidity_pool.key,
        signer: Some(signer),
        amount: required_token_b,
        decimals: ctx.token_b_mint.decimals,
    };
    Ok(RemoveLiquidityPlan { burn, payout_a, payout_b })
}

/// Shares redeemed right after they were issued return what was deposited for
/// them, to the unit, and so no more than was offered: rounding never favours
/// the provider.
///
/// `added` is what a deposit into `before` moved; `after` is the same pool once
/// the ledger has carried that out, with nothing in between.
pub proof fn lemma_redeem_returns_no_more_than_deposited(
    before: AddLiquidity,
    amount_a: u64,
    amount_b: u64,
    minimum_lp_tokens: u64,
    added: AddLiquidityPlan,
    after: RemoveLiquidity,
    minimum_token_a: u64,
    minimum_token_b: u64,
)
    requires
        before.outcome(amount_a, amount_b, minimum_lp_tokens) == Ok::<AddLiquidityPlan, AMMError>(
            added,
        ),
        after.vault_a.amount == before.vault_a.amount + added.deposit_a.amount,
        after.vault_b.amount == before.vault_b.amount + added.deposit_b.amount,
        after.lp_mint.supply == before.lp_mint.supply + added.mint.amount,
    ensures
        after.entitlement_a(added.mint.amount) == added.deposit_a.amount <= amount_a,
        after.entitlement_b(added.mint.amount) == added.deposit_b.amount <= amount_b,
        after.outcome(added.mint.amount, minimum_token_a, minimum_token_b) matches Ok(redeemed)
            ==> redeemed.payout_a.amount <= added.deposit_a.amount && redeemed.payout_b.amount
            <= added.deposit_b.amount,
{
    let shares = added.mint.amount as nat;
    lemma_redeem_after_deposit(shares, before.vault_a.amount as nat, before.lp_mint.supply as nat);
    lemma_redeem_after_deposit(shares, before.vault_b.amount as nat, before.lp_mint.supply as nat);
}

} // verus!
