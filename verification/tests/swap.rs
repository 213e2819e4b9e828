use amm::instructions::swap::{FEE_DENOMINATOR, FEE_NUMERATOR};
use amm::{
    calculate_output_amount, process_swap, swap, AMMError, Mint, Pool, PoolAccount, PoolSigner,
    Pubkey, Swap, SwapPlan, TokenAccount, TransferChecked,
};

fn key(tag: u8) -> Pubkey {
    Pubkey { bytes: [tag; 32] }
}

fn pair(reserve_a: u64, reserve_b: u64) -> Swap {
    Swap {
        signer: key(1),
        token_a_mint: Mint { key: key(2), decimals: 6, supply: 1_000_000_000 },
        token_b_mint: Mint { key: key(3), decimals: 9, supply: 5_000_000_000 },
        liquidity_pool: PoolAccount {
            key: key(4),
            pool: Pool {
                token_a_mint: key(2),
                token_b_mint: key(3),
                vault_a: key(5),
                vault_b: key(6),
                lp_mint: key(9),
                bump: 254,
            },
        },
        vault_a: TokenAccount { key: key(5), amount: reserve_a },
        vault_b: TokenAccount { key: key(6), amount: reserve_b },
        swap_account_a: TokenAccount { key: key(7), amount: 10_000 },
        swap_account_b: TokenAccount { key: key(8), amount: 20_000 },
    }
}

#[test]
fn fee_is_three_in_a_thousand() {
    assert_eq!(FEE_NUMERATOR, 997);
    assert_eq!(FEE_DENOMINATOR, 1000);
}

#[test]
fn output_follows_floor_division_step_by_step() {
    // 100 offered: 99 are priced; 1_000_000 / 1099 is 909 and a remainder, so 91 leave.
    let amount_in_after_fee = 100u128 * 997 / 1000;
    assert_eq!(amount_in_after_fee, 99);
    let k = 1000u128 * 1000;
    assert_eq!(k, 1_000_000);
    let new_reserve_in = 1000 + amount_in_after_fee;
    assert_eq!(new_reserve_in, 1099);
    let new_reserve_out = k / new_reserve_in;
    assert_eq!(new_reserve_out, 909);
    assert_eq!(calculate_output_amount(1000, 1000, 100), Ok(91));
    assert_eq!(1000 - new_reserve_out, 91);
}

#[test]
fn output_exact_values() {
    assert_eq!(calculate_output_amount(5, 7, 3), Ok(2));
    assert_eq!(calculate_output_amount(3, 10, 2), Ok(3));
    assert_eq!(calculate_output_amount(1000, 1000, 1000), Ok(500));
    assert_eq!(calculate_output_amount(2_000_000, 1_000_000, 1000), Ok(499));
    assert_eq!(
        calculate_output_amount(1_000_000_000_000, 2_000_000_000_000, 1_000_000_000),
        Ok(1_992_013_963)
    );
}

#[test]
fn output_of_an_amount_that_the_fee_swallows_is_zero() {
    assert_eq!(calculate_output_amount(1000, 1000, 1), Ok(0));
    assert_eq!(calculate_output_amount(1, 1, 1), Ok(0));
}

#[test]
fn output_at_the_width_of_the_amounts() {
    let max = u64::MAX;
    assert_eq!(calculate_output_amount(max, max, max), Ok(9_209_516_195_036_766_630));
    assert_eq!(calculate_output_amount(1, max, max), Ok(18_446_744_073_709_551_614));
    assert_eq!(calculate_output_amount(max, 1, max), Ok(1));
}

#[test]
fn output_never_exceeds_the_reserve() {
    let reserves = [1u64, 2, 7, 1000, 123_456_789, u64::MAX];
    let offers = [1u64, 2, 3, 999, 1000, 1001, 1_000_000_007, u64::MAX];
    for reserve_in in reserves {
        for reserve_out in reserves {
            for amount_in in offers {
                let out = calculate_output_amount(reserve_in, reserve_out, amount_in).unwrap();
                assert!(out <= reserve_out);
                let priced = amount_in as u128 * 997 / 1000;
                let kept = (reserve_in as u128 * reserve_out as u128) / (reserve_in as u128 + priced);
                assert_eq!(out as u128, reserve_out as u128 - kept);
            }
        }
    }
}

#[test]
fn output_is_the_same_on_every_call() {
    let first = calculate_output_amount(123_456, 654_321, 7_777);
    let second = calculate_output_amount(123_456, 654_321, 7_777);
    assert_eq!(first, second);
    let ctx = pair(123_456, 654_321);
    assert_eq!(process_swap(&ctx, 7_777, 0, true), process_swap(&ctx, 7_777, 0, true));
}

#[test]
fn empty_reserve_is_insufficient_liquidity() {
    assert_eq!(calculate_output_amount(0, 1000, 100), Err(AMMError::InsufficientLiquidity));
    assert_eq!(calculate_output_amount(1000, 0, 100), Err(AMMError::InsufficientLiquidity));
    assert_eq!(calculate_output_amount(0, 0, 100), Err(AMMError::InsufficientLiquidity));
}

#[test]
fn zero_offer_is_invalid_input() {
    assert_eq!(calculate_output_amount(1000, 1000, 0), Err(AMMError::InvalidInput));
}

#[test]
fn empty_reserve_is_reported_before_zero_offer() {
    assert_eq!(calculate_output_amount(0, 1000, 0), Err(AMMError::InsufficientLiquidity));
    assert_eq!(process_swap(&pair(1000, 0), 0, 0, true), Err(AMMError::InsufficientLiquidity));
}

#[test]
fn swap_of_one_hundred_against_even_reserves() {
    let ctx = pair(1000, 1000);
    let plan = process_swap(&ctx, 100, 91, true).unwrap();
    assert_eq!(plan.deposit.amount, 100);
    assert_eq!(plan.payout.amount, 91);
}

#[test]
fn swap_slippage_floor_is_inclusive() {
    let ctx = pair(1000, 1000);
    assert_eq!(process_swap(&ctx, 100, 92, true), Err(AMMError::SlippageExceeded));
    assert!(process_swap(&ctx, 100, 91, true).is_ok());
    assert!(process_swap(&ctx, 100, 90, true).is_ok());
    assert!(process_swap(&ctx, 100, 0, true).is_ok());
    assert_eq!(process_swap(&ctx, 100, u64::MAX, true), Err(AMMError::SlippageExceeded));
}

#[test]
fn swap_a_to_b_names_the_accounts() {
    let ctx = pair(1000, 1000);
    let plan = process_swap(&ctx, 100, 0, true).unwrap();
    assert_eq!(
        plan,
        SwapPlan {
            deposit: TransferChecked {
                from: key(7),
                mint: key(2),
                to: key(5),
                authority: key(1),
                signer: None,
                amount: 100,
                decimals: 6,
            },
            payout: TransferChecked {
                from: key(6),
                mint: key(3),
                to: key(8),
                authority: key(4),
                signer: Some(PoolSigner { token_a_mint: key(2), token_b_mint: key(3), bump: 254 }),
                amount: 91,
                decimals: 9,
            },
        }
    );
}

#[test]
fn swap_b_to_a_names_the_accounts() {
    let ctx = pair(2_000_000, 1_000_000);
    let plan = process_swap(&ctx, 1000, 0, false).unwrap();
    // vault B is the reserve sold into, vault A the reserve bought from
    let expected_out = 2_000_000 - (2_000_000u128 * 1_000_000) / (1_000_000 + 997);
    assert_eq!(expected_out, 1993);
    assert_eq!(
        plan,
        SwapPlan {
            deposit: TransferChecked {
                from: key(8),
                mint: key(3),
                to: key(6),
                authority: key(1),
                signer: None,
                amount: 1000,
                decimals: 9,
            },
            payout: TransferChecked {
                from: key(5),
                mint: key(2),
                to: key(7),
                authority: key(4),
                signer: Some(PoolSigner { token_a_mint: key(2), token_b_mint: key(3), bump: 254 }),
                amount: 1993,
                decimals: 6,
            },
        }
    );
}

#[test]
fn swap_direction_changes_the_price() {
    let ctx = pair(2_000_000, 1_000_000);
    assert_eq!(process_swap(&ctx, 1000, 0, true).unwrap().payout.amount, 499);
    assert_eq!(process_swap(&ctx, 1000, 0, false).unwrap().payout.amount, 1993);
}

#[test]
fn swap_prices_from_the_vaults_not_from_the_wallets() {
    let mut ctx = pair(1000, 1000);
    ctx.swap_account_a.amount = 0;
    ctx.swap_account_b.amount = u64::MAX;
    ctx.token_a_mint.supply = 0;
    assert_eq!(process_swap(&ctx, 100, 0, true).unwrap().payout.amount, 91);
}

#[test]
fn swap_errors_through_the_engine() {
    assert_eq!(process_swap(&pair(0, 1000), 100, 0, true), Err(AMMError::InsufficientLiquidity));
    assert_eq!(process_swap(&pair(1000, 0), 100, 0, false), Err(AMMError::InsufficientLiquidity));
    assert_eq!(process_swap(&pair(1000, 1000), 0, 0, true), Err(AMMError::InvalidInput));
    assert_eq!(process_swap(&pair(1000, 1000), 1, 1, true), Err(AMMError::SlippageExceeded));
}

#[test]
fn swap_entry_point_agrees_with_the_engine() {
    let ctx = pair(1000, 1000);
    assert_eq!(swap(&ctx, 100, 91, true), process_swap(&ctx, 100, 91, true));
    assert_eq!(swap(&ctx, 100, 92, true), Err(AMMError::SlippageExceeded));
    assert_eq!(swap(&ctx, 100, 0, false), process_swap(&ctx, 100, 0, false));
}

fn product_after(reserve_in: u64, reserve_out: u64, amount_in: u64) -> u128 {
    let out = calculate_output_amount(reserve_in, reserve_out, amount_in).unwrap();
    (reserve_in as u128 + amount_in as u128) * (reserve_out as u128 - out as u128)
}

fn fee_covers_rounding(reserve_in: u64, reserve_out: u64, amount_in: u64) -> bool {
    let priced = amount_in as u128 * 997 / 1000;
    let fee = amount_in as u128 - priced;
    let product = reserve_in as u128 * reserve_out as u128;
    let grown = reserve_in as u128 + priced;
    fee * (product / grown) >= product % grown
}

#[test]
fn product_of_reserves_grows_where_the_fee_covers_the_rounding() {
    assert!(fee_covers_rounding(1000, 1000, 1000));
    assert_eq!(product_after(1000, 1000, 1000), 1_000_000);
    assert!(fee_covers_rounding(2_000_000, 1_000_000, 1000));
    assert_eq!(product_after(2_000_000, 1_000_000, 1000), 2_000_001_501_000);
    assert!(fee_covers_rounding(5, 7, 3));
    assert_eq!(product_after(5, 7, 3), 40);
}

#[test]
fn product_of_reserves_falls_where_the_fee_is_too_small() {
    // 1 unit of fee against a remainder of 1009: the trader gains the rounding
    assert!(!fee_covers_rounding(1000, 1000, 100));
    assert_eq!(product_after(1000, 1000, 100), 999_900);
    // the loss stays under the grown reserve of the token sold
    assert!(product_after(1000, 1000, 100) + 1099 > 1_000_000);
    assert!(!fee_covers_rounding(u64::MAX, 1, u64::MAX));
    assert_eq!(product_after(u64::MAX, 1, u64::MAX), 0);
}

#[test]
fn product_of_reserves_is_kept_exactly_where_the_fee_covers() {
    let reserves = [1u64, 3, 10, 999, 1000, 65_537, 4_000_000_000];
    let offers = [1u64, 2, 10, 100, 333, 1000, 5000, 1_000_000];
    for reserve_in in reserves {
        for reserve_out in reserves {
            for amount_in in offers {
                let before = reserve_in as u128 * reserve_out as u128;
                let after = product_after(reserve_in, reserve_out, amount_in);
                assert_eq!(after >= before, fee_covers_rounding(reserve_in, reserve_out, amount_in));
                let priced = amount_in as u128 * 997 / 1000;
                assert!(after + reserve_in as u128 + priced > before);
            }
        }
    }
}
