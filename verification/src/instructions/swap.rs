//! Trading one token of the pair for the other.

use crate::errors::AMMError;
use crate::ledger::{PoolSigner, TransferChecked};
use crate::math::{lemma_product_fits, mul_div_amounts, mul_div_floor};
use crate::state::{Mint, PoolAccount, Pubkey, TokenAccount};
use vstd::arithmetic::div_mod::{
    lemma_div_by_multiple, lemma_div_is_ordered, lemma_fundamental_div_mod, lemma_mod_pos_bound,
};
use vstd::prelude::*;

verus! {

/// The accounts of a trade, as they stand when the operation starts.
#[derive(Clone, Copy, Debug, PartialEq, Eq)]
pub struct Swap {
    /// The trader's wallet; it signs the transfer into the pool.
    pub signer: Pubkey,
    pub token_a_mint: Mint,
    pub token_b_mint: Mint,
    pub liquidity_pool: PoolAccount,
    pub vault_a: TokenAccount,
    pub vault_b: TokenAccount,
    /// The trader's account of token A.
    pub swap_account_a: TokenAccount,
    /// The trader's account of token B.
    pub swap_account_b: TokenAccount,
}

/// What the ledger is to do for a trade, in this order: take the whole amount
/// offered into the vault of the token sold, then pay out of the other vault.
#[derive(Clone, Copy, Debug, PartialEq, Eq)]
pub struct SwapPlan {
    pub deposit: TransferChecked,
    pub payout: TransferChecked,
}

/// Of every 1000 units offered, 997 are priced; the other three stay in the
/// pool as the fee.
pub const FEE_NUMERATOR: u64 = 997;

pub const FEE_DENOMINATOR: u64 = 1000;

/// The part of `amount_in` that is priced, rounded down.
pub open spec fn amount_after_fee(amount_in: nat) -> nat {
    mul_div_floor(amount_in, FEE_NUMERATOR as nat, FEE_DENOMINATOR as nat)
}

/// What the reserve of the token bought must still hold after the trade: the
/// product of the two reserves, divided by the reserve of the token sold once
/// the priced part of `amount_in` has joined it, rounded down.
pub open spec fn reserve_out_after(reserve_in: nat, reserve_out: nat, amount_in: nat) -> nat {
    (reserve_in * reserve_out) / (reserve_in + amount_after_fee(amount_in))
}

/// What a trade of `amount_in` pays out: whatever the reserve of the token
/// bought holds above [`reserve_out_after`].
pub open spec fn swap_output(reserve_in: nat, reserve_out: nat, amount_in: nat) -> int {
    reserve_out - reserve_out_after(reserve_in, reserve_out, amount_in)
}

/// The part of `amount_in` that stays in the pool as the fee.
pub open spec fn fee_retained(amount_in: nat) -> int {
    amount_in - amount_after_fee(amount_in)
}

/// What rounding [`reserve_out_after`] down leaves undivided of the product of
/// the reserves.
pub open spec fn rounding_loss(reserve_in: nat, reserve_out: nat, amount_in: nat) -> nat {
    (reserve_in * reserve_out) % (reserve_in + amount_after_fee(amount_in))
}

/// The fee of a trade makes up for what rounding gives the trader: the fee,
/// valued at what the reserve of the token bought still holds, is no less
/// than [`rounding_loss`].
pub open spec fn fee_covers_rounding(reserve_in: nat, reserve_out: nat, amount_in: nat) -> bool {
    fee_retained(amount_in) * reserve_out_after(reserve_in, reserve_out, amount_in)
        >= rounding_loss(reserve_in, reserve_out, amount_in)
}

/// The product of the reserves once a trade is settled: the whole amount
/// offered has joined one reserve and the payout has left the other.
pub open spec fn product_settled(reserve_in: nat, reserve_out: nat, amount_in: nat) -> int {
    (reserve_in + amount_in) * (reserve_out - swap_output(reserve_in, reserve_out, amount_in))
}

/// The fee is never negative: the priced part of an amount is no more than the amount.
pub proof fn lemma_fee_retained_bounds(amount_in: nat)
    ensures
        0 <= fee_retained(amount_in) <= amount_in,
{
    assert(amount_in * 997 <= amount_in * 1000) by (nonlinear_arith);
    lemma_div_is_ordered((amount_in * 997) as int, (amount_in * 1000) as int, 1000);
    lemma_div_by_multiple(amount_in as int, 1000);
}

/// A trade never pays out more than the reserve holds, nor less than nothing.
pub proof fn lemma_swap_output_bounds(reserve_in: nat, reserve_out: nat, amount_in: nat)
    requires
        reserve_in > 0,
    ensures
        0 <= swap_output(reserve_in, reserve_out, amount_in) <= reserve_out,
{
    let grown = reserve_in + amount_after_fee(amount_in);
    let product = reserve_in * reserve_out;
    assert(product <= grown * reserve_out) by (nonlinear_arith)
        requires
            product == reserve_in * reserve_out,
            reserve_in <= grown,
    ;
    lemma_div_is_ordered(product as int, (grown * reserve_out) as int, grown as int);
    assert(grown * reserve_out == reserve_out * grown) by (nonlinear_arith);
    lemma_div_by_multiple(reserve_out as int, grown as int);
}

/// Where the product of the reserves goes in a trade: it loses what rounding
/// leaves undivided and gains the fee, valued at what the reserve of the
/// token bought still holds.
pub proof fn lemma_product_settled(reserve_in: nat, reserve_out: nat, amount_in: nat)
    requires
        reserve_in > 0,
    ensures
        product_settled(reserve_in, reserve_out, amount_in) == reserve_in * reserve_out
            - rounding_loss(reserve_in, reserve_out, amount_in) + fee_retained(amount_in)
            * reserve_out_after(reserve_in, reserve_out, amount_in),
{
    let priced = amount_after_fee(amount_in);
    let grown = reserve_in + priced;
    let product = reserve_in * reserve_out;
    let kept = reserve_out_after(reserve_in, reserve_out, amount_in);
    let fee = fee_retained(amount_in);
    lemma_fundamental_div_mod(product as int, grown as int);
    assert(product == grown * kept + product % grown);
    assert((reserve_in + amount_in) * kept == grown * kept + fee * kept) by (nonlinear_arith)
        requires
            reserve_in + amount_in == grown + fee,
    ;
}

/// A trade lets the product of the reserves stand or grow exactly where its
/// fee covers the rounding; on every other trade the product falls.
pub proof fn lemma_product_kept_iff_fee_covers(reserve_in: nat, reserve_out: nat, amount_in: nat)
    requires
        reserve_in > 0,
    ensures
        product_settled(reserve_in, reserve_out, amount_in) >= reserve_in * reserve_out
            <==> fee_covers_rounding(reserve_in, reserve_out, amount_in),
{
    lemma_product_settled(reserve_in, reserve_out, amount_in);
}

/// However a trade is rounded, the product of the reserves falls by less than
/// the reserve of the token sold has grown to.
pub proof fn lemma_product_loss_bounded(reserve_in: nat, reserve_out: nat, amount_in: nat)
    requires
        reserve_in > 0,
    ensures
        product_settled(reserve_in, reserve_out, amount_in) + reserve_in + amount_after_fee(amount_in)
            > reserve_in * reserve_out,
{
    lemma_product_settled(reserve_in, reserve_out, amount_in);
    lemma_fee_retained_bounds(amount_in);
    lemma_mod_pos_bound(
        (reserve_in * reserve_out) as int,
        (reserve_in + amount_after_fee(amount_in)) as int,
    );
    assert(fee_retained(amount_in) * reserve_out_after(reserve_in, reserve_out, amount_in) >= 0)
        by (nonlinear_arith)
        requires
            fee_retained(amount_in) >= 0,
            reserve_out_after(reserve_in, reserve_out, amount_in) >= 0,
    ;
}

/// Prices a trade of `amount_in` against the two reserves: what leaves
/// `reserve_out` when `amount_in` is offered to `reserve_in`.
pub fn calculate_output_amount(reserve_in: u64, reserve_out: u64, amount_in: u64) -> (res: Result<
    u64,
    AMMError,
>)
    ensures
        reserve_in == 0 || reserve_out == 0 ==> res == Err::<u64, AMMError>(
            AMMError::InsufficientLiquidity,
        ),
        reserve_in > 0 && reserve_out > 0 && amount_in == 0 ==> res == Err::<u64, AMMError>(
            AMMError::InvalidInput,
        ),
        reserve_in > 0 && reserve_out > 0 && amount_in > 0 ==> (res matches Ok(out) && out
            == swap_output(reserve_in as nat, reserve_out as nat, amount_in as nat) && out
            <= reserve_out),
{
    if !(reserve_in > 0 && reserve_out > 0) {
        return Err(AMMError::InsufficientLiquidity);
    }
    if !(amount_in > 0) {
        return Err(AMMError::InvalidInput);
    }
    let amount_in_after_fee = mul_div_amounts(amount_in, FEE_NUMERATOR, FEE_DENOMINATOR)?;
    proof {
        lemma_product_fits(reserve_in, reserve_out);
        lemma_swap_output_bounds(reserve_in as nat, reserve_out as nat, amount_in as nat);
    }
    let k = match (reserve_in as u128).checked_mul(reserve_out as u128) {
        Some(product) => product,
        None => { return Err(AMMError::ArithmeticFault); },
    };
    let new_reserve_in = match (reserve_in as u128).checked_add(amount_in_after_fee) {
        Some(sum) => sum,
        None => { return Err(AMMError::ArithmeticFault); },
    };
    let new_reserve_out = match k.checked_div(new_reserve_in) {
        Some(quotient) => quotient,
        None => { return Err(AMMError::ArithmeticFault); },
    };
    let amount_out = match (reserve_out as u128).checked_sub(new_reserve_out) {
        Some(difference) => difference,
        None => { return Err(AMMError::ArithmeticFault); },
    };
    Ok(amount_out as u64)
}

impl Swap {
    /// The reserve of the token sold: vault A when trading A for B.
    pub open spec fn reserve_in(self, a_to_b: bool) -> u64 {
        if a_to_b {
            self.vault_a.amount
        } else {
            self.vault_b.amount
        }
    }

    /// The reserve of the token bought.
    pub open spec fn reserve_out(self, a_to_b: bool) -> u64 {
        if a_to_b {
            self.vault_b.amount
        } else {
            self.vault_a.amount
        }
    }

    /// The product of the two reserves in the snapshot.
    pub open spec fn product_before(self, a_to_b: bool) -> int {
        self.reserve_in(a_to_b) * self.reserve_out(a_to_b)
    }

    /// The product of the two reserves once the ledger has carried out `plan`:
    /// the deposit has joined the reserve of the token sold and the payout has
    /// left the reserve of the token bought.
    pub open spec fn product_after(self, plan: SwapPlan, a_to_b: bool) -> int {
        (self.reserve_in(a_to_b) + plan.deposit.amount) * (self.reserve_out(a_to_b)
            - plan.payout.amount)
    }

    /// The seeds that sign for the pool.
    pub open spec fn pool_signer(self) -> PoolSigner {
        PoolSigner {
            token_a_mint: self.token_a_mint.key,
            token_b_mint: self.token_b_mint.key,
            bump: self.liquidity_pool.pool.bump,
        }
    }

    /// The transfer of `amount_in` from the trader to the vault of the token sold.
    pub open spec fn deposit(self, amount_in: u64, a_to_b: bool) -> TransferChecked {
        if a_to_b {
            TransferChecked {
                from: self.swap_account_a.key,
                mint: self.token_a_mint.key,
                to: self.vault_a.key,
                authority: self.signer,
                signer: None,
                amount: amount_in,
                decimals: self.token_a_mint.decimals,
            }
        } else {
            TransferChecked {
                from: self.swap_account_b.key,
                mint: self.token_b_mint.key,
                to: self.vault_b.key,
                authority: self.signer,
                signer: None,
                amount: amount_in,
                decimals: self.token_b_mint.decimals,
            }
        }
    }

    /// The transfer of `amount_out` from the vault of the token bought to the trader.
    pub open spec fn payout(self, amount_out: u64, a_to_b: bool) -> TransferChecked {
        if a_to_b {
            TransferChecked {
                from: self.vault_b.key,
                mint: self.token_b_mint.key,
                to: self.swap_account_b.key,
                authority: self.liquidity_pool.key,
                signer: Some(self.pool_signer()),
                amount: amount_out,
                decimals: self.token_b_mint.decimals,
            }
        } else {
            TransferChecked {
                from: self.vault_a.key,
                mint: self.token_a_mint.key,
                to: self.swap_account_a.key,
                authority: self.liquidity_pool.key,
                signer: Some(self.pool_signer()),
                amount: amount_out,
                decimals: self.token_a_mint.decimals,
            }
        }
    }

    /// The answer to a request to sell `amount_in` for no less than
    /// `minimum_amount_out`. The price comes from the two reserves as the
    /// snapshot holds them, before the amount offered reaches its vault.
    pub open spec fn outcome(self, amount_in: u64, minimum_amount_out: u64, a_to_b: bool) -> Result<
        SwapPlan,
        AMMError,
    > {
        let amount_out = swap_output(
            self.reserve_in(a_to_b) as nat,
            self.reserve_out(a_to_b) as nat,
            amount_in as nat,
        );
        if self.reserve_in(a_to_b) == 0 || self.reserve_out(a_to_b) == 0 {
            Err(AMMError::InsufficientLiquidity)
        } else if amount_in == 0 {
            Err(AMMError::InvalidInput)
        } else if amount_out < minimum_amount_out {
            Err(AMMError::SlippageExceeded)
        } else {
            Ok(
                SwapPlan {
                    deposit: self.deposit(amount_in, a_to_b),
                    payout: self.payout(amount_out as u64, a_to_b),
                },
            )
        }
    }
}

/// Sells `amount_in` of token A for token B where `a_to_b` holds, of token B
/// for token A where it does not.
///
/// The whole amount offered goes into the pool and the payout is
/// [`swap_output`] to the unit. The product of the reserves stands or grows
/// exactly on the trades whose fee covers the rounding.
pub fn process_swap(ctx: &Swap, amount_in: u64, minimum_amount_out: u64, a_to_b: bool) -> (res:
    Result<SwapPlan, AMMError>)
    ensures
        res == ctx.outcome(amount_in, minimum_amount_out, a_to_b),
        res matches Ok(plan) ==> plan.deposit.amount == amount_in && plan.payout.amount
            == swap_output(
            ctx.reserve_in(a_to_b) as nat,
            ctx.reserve_out(a_to_b) as nat,
            amount_in as nat,
        ) && plan.payout.amount >= minimum_amount_out && plan.payout.amount <= ctx.reserve_out(
            a_to_b,
        ),
        res matches Ok(plan) ==> (ctx.product_after(plan, a_to_b) >= ctx.product_before(a_to_b)
            <==> fee_covers_rounding(
            ctx.reserve_in(a_to_b) as nat,
            ctx.reserve_out(a_to_b) as nat,
            amount_in as nat,
        )),
{
    proof {
        if ctx.reserve_in(a_to_b) > 0 {
            lemma_swap_output_bounds(
                ctx.reserve_in(a_to_b) as nat,
                ctx.reserve_out(a_to_b) as nat,
                amount_in as nat,
            );
            lemma_product_kept_iff_fee_covers(
                ctx.reserve_in(a_to_b) as nat,
                ctx.reserve_out(a_to_b) as nat,
                amount_in as nat,
            );
        }
    }
    let (vault_in, vault_out, user_in, user_out, mint_in, mint_out) = if a_to_b {
        (
            &ctx.vault_a,
            &ctx.vault_b,
            &ctx.swap_account_a,
            &ctx.swap_account_b,
            &ctx.token_a_mint,
            &ctx.token_b_mint,
        )
    } else {
        (
            &ctx.vault_b,
            &ctx.vault_a,
            &ctx.swap_account_b,
            &ctx.swap_account_a,
            &ctx.token_b_mint,
            &ctx.token_a_mint,
        )
    };
    // the price is taken from the reserves as they stand before the deposit
    let reserve_in = vault_in.amount;
    let reserve_out = vault_out.amount;

    let deposit = TransferChecked {
        from: user_in.key,
        mint: mint_in.key,
        to: vault_in.key,
        authority: ctx.signer,
        signer: None,
        amount: amount_in,
        decimals: mint_in.decimals,
    };

    let amount_out = calculate_output_amount(reserve_in, reserve_out, amount_in)?;

    if !(amount_out >= minimum_amount_out) {
        return Err(AMMError::SlippageExceeded);
    }
    let signer = PoolSigner::new(
        ctx.token_a_mint.key,
        ctx.token_b_mint.key,
        ctx.liquidity_pool.pool.bump,
    );
    let payout = TransferChecked {
        from: vault_out.key,
        mint: mint_out.key,
        to: user_out.key,
        authority: ctx.liquidity_pool.key,
        signer: Some(signer),
        amount: amount_out,
        decimals: mint_out.decimals,
    };
    Ok(SwapPlan { deposit, payout })
}

/// A trade that is accepted and whose fee covers the rounding leaves the
/// product of the reserves no smaller than it found it.
///
/// Not every trade is such a one. Against reserves of 1000 and 1000 an offer
/// of 100 leaves a fee of 1, worth 909, where rounding gives away 1009: the
/// trader receives 91 and the product falls from 1 000 000 to 999 900.
pub proof fn lemma_swap_keeps_product(
    ctx: Swap,
    amount_in: u64,
    minimum_amount_out: u64,
    a_to_b: bool,
    plan: SwapPlan,
)
    requires
        ctx.outcome(amount_in, minimum_amount_out, a_to_b) == Ok::<SwapPlan, AMMError>(plan),
        fee_covers_rounding(
            ctx.reserve_in(a_to_b) as nat,
            ctx.reserve_out(a_to_b) as nat,
            amount_in as nat,
        ),
    ensures
        ctx.product_after(plan, a_to_b) >= ctx.product_before(a_to_b),
{
    lemma_swap_output_bounds(
        ctx.reserve_in(a_to_b) as nat,
        ctx.reserve_out(a_to_b) as nat,
        amount_in as nat,
    );
    lemma_product_kept_iff_fee_covers(
        ctx.reserve_in(a_to_b) as nat,
        ctx.reserve_out(a_to_b) as nat,
        amount_in as nat,
    );
}

} // verus!
