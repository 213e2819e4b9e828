//! Wide multiply-then-divide arithmetic, narrowing, and the integer square root.

use crate::errors::AMMError;
use vstd::arithmetic::div_mod::{
    lemma_div_by_multiple, lemma_div_is_ordered, lemma_fundamental_div_mod, lemma_mod_pos_bound,
};
use vstd::arithmetic::mul::lemma_mul_inequality;
use vstd::prelude::*;

verus! {

/// `x * y / d`, rounded down.
pub open spec fn mul_div_floor(x: nat, y: nat, d: nat) -> nat {
    (x * y) / d
}

/// Multiplies two 128-bit quantities and divides the product by `d`, rounding
/// down. The product must fit in 128 bits and `d` must not be zero; anything
/// else is an arithmetic fault.
pub fn mul_div(x: u128, y: u128, d: u128) -> (res: Result<u128, AMMError>)
    ensures
        d == 0 || x * y > u128::MAX ==> res == Err::<u128, AMMError>(AMMError::ArithmeticFault),
        d != 0 && x * y <= u128::MAX ==> (res matches Ok(q) && q == mul_div_floor(
            x as nat,
            y as nat,
            d as nat,
        )),
{
    match x.checked_mul(y) {
        None => Err(AMMError::ArithmeticFault),
        Some(product) => match product.checked_div(d) {
            None => Err(AMMError::ArithmeticFault),
            Some(quotient) => Ok(quotient),
        },
    }
}

/// Rounding a quotient down loses less than one divisor.
pub proof fn lemma_floor_bounds(x: nat, d: nat)
    requires
        d > 0,
    ensures
        (x / d) * d <= x < (x / d + 1) * d,
{
    lemma_fundamental_div_mod(x as int, d as int);
    lemma_mod_pos_bound(x as int, d as int);
    let q = x / d;
    assert(q * d == d * q && (q + 1) * d == d * q + d) by (nonlinear_arith);
}

/// A part of the supply stands for no more than the whole reserve.
pub proof fn lemma_part_within_whole(shares: nat, reserve: nat, supply: nat)
    requires
        0 < supply,
        shares <= supply,
    ensures
        mul_div_floor(shares, reserve, supply) <= reserve,
{
    lemma_mul_inequality(shares as int, supply as int, reserve as int);
    lemma_div_is_ordered((shares * reserve) as int, (supply * reserve) as int, supply as int);
    assert(supply * reserve == reserve * supply) by (nonlinear_arith);
    lemma_div_by_multiple(reserve as int, supply as int);
}

/// Shares priced down and then valued down are worth no more than they cost:
/// whoever receives at most `amount * supply / reserve` shares for `amount`
/// holds at most `amount` of the reserve in them.
pub proof fn lemma_round_trip(amount: nat, supply: nat, reserve: nat, shares: nat)
    requires
        supply > 0,
        reserve > 0,
        shares <= mul_div_floor(amount, supply, reserve),
    ensures
        shares * reserve <= amount * supply,
        mul_div_floor(shares, reserve, supply) <= amount,
{
    let priced = mul_div_floor(amount, supply, reserve);
    lemma_floor_bounds(amount * supply, reserve);
    lemma_mul_inequality(shares as int, priced as int, reserve as int);
    lemma_div_is_ordered((shares * reserve) as int, (amount * supply) as int, supply as int);
    lemma_div_by_multiple(amount as int, supply as int);
}

/// Shares redeemed right after they were issued return the deposit that went
/// with them, to the unit: once `shares` and their deposit have joined the
/// supply and the reserve, the shares stand for exactly that deposit.
pub proof fn lemma_redeem_after_deposit(shares: nat, reserve: nat, supply: nat)
    requires
        supply > 0,
    ensures
        mul_div_floor(
            shares,
            reserve + mul_div_floor(shares, reserve, supply),
            supply + shares,
        ) == mul_div_floor(shares, reserve, supply),
{
    let deposit = mul_div_floor(shares, reserve, supply);
    let redeemed = mul_div_floor(shares, reserve + deposit, supply + shares);
    lemma_floor_bounds(shares * reserve, supply);
    lemma_floor_bounds(shares * (reserve + deposit), supply + shares);
    assert(deposit * (supply + shares) <= shares * (reserve + deposit) < (deposit + 1) * (supply
        + shares)) by (nonlinear_arith)
        requires
            deposit * supply <= shares * reserve < (deposit + 1) * supply,
    ;
    assert(deposit - 1 < redeemed < deposit + 1) by (nonlinear_arith)
        requires
            redeemed * (supply + shares) < (deposit + 1) * (supply + shares),
            deposit * (supply + shares) < (redeemed + 1) * (supply + shares),
            supply + shares > 0,
    ;
}

/// The product of two 64-bit amounts fits in 128 bits.
pub proof fn lemma_product_fits(x: u64, y: u64)
    ensures
        x * y <= u128::MAX,
{
    assert(x * y <= 0xffff_ffff_ffff_ffff * 0xffff_ffff_ffff_ffff) by (nonlinear_arith)
        requires
            0 <= x <= 0xffff_ffff_ffff_ffff,
            0 <= y <= 0xffff_ffff_ffff_ffff,
    ;
}

/// Multiplies two amounts in 128 bits and divides the product by `d`, rounding
/// down. Only a zero divisor is a fault: the product always fits.
pub fn mul_div_amounts(x: u64, y: u64, d: u64) -> (res: Result<u128, AMMError>)
    ensures
        d == 0 ==> res == Err::<u128, AMMError>(AMMError::ArithmeticFault),
        d != 0 ==> (res matches Ok(q) && q == mul_div_floor(x as nat, y as nat, d as nat)),
{
    proof {
        lemma_product_fits(x, y);
    }
    mul_div(x as u128, y as u128, d as u128)
}

/// Narrows a 128-bit quantity to an amount. One that needs more than 64 bits
/// is an arithmetic fault.
pub fn to_amount(x: u128) -> (res: Result<u64, AMMError>)
    ensures
        x > u64::MAX ==> res == Err::<u64, AMMError>(AMMError::ArithmeticFault),
        x <= u64::MAX ==> res == Ok::<u64, AMMError>(x as u64),
{
    if x > u64::MAX as u128 {
        Err(AMMError::ArithmeticFault)
    } else {
        Ok(x as u64)
    }
}

/// `r` is the square root of `n`, rounded down.
pub open spec fn is_floor_sqrt(r: nat, n: nat) -> bool {
    r * r <= n < (r + 1) * (r + 1)
}

/// A number has one rounded-down square root only.
pub proof fn lemma_floor_sqrt_unique(r1: nat, r2: nat, n: nat)
    requires
        is_floor_sqrt(r1, n),
        is_floor_sqrt(r2, n),
    ensures
        r1 == r2,
{
    if r1 < r2 {
        assert((r1 + 1) * (r1 + 1) <= r2 * r2) by (nonlinear_arith)
            requires
                r1 + 1 <= r2,
        ;
    } else if r2 < r1 {
        assert((r2 + 1) * (r2 + 1) <= r1 * r1) by (nonlinear_arith)
            requires
                r2 + 1 <= r1,
        ;
    }
}

/// The square root of `n`, rounded down, by bisection.
pub fn integer_sqrt(n: u128) -> (r: u64)
    ensures
        is_floor_sqrt(r as nat, n as nat),
{
    let mut low: u128 = 0;
    let mut high: u128 = 0x1_0000_0000_0000_0000;
    assert(high * high > n) by (nonlinear_arith)
        requires
            high == 0x1_0000_0000_0000_0000,
            n <= 0xffff_ffff_ffff_ffff_ffff_ffff_ffff_ffff,
    ;
    while high - low > 1
        invariant
            low < high <= 0x1_0000_0000_0000_0000,
            low * low <= n < high * high,
        decreases high - low,
    {
        let middle = low + (high - low) / 2;
        assert(middle * middle <= 0xffff_ffff_ffff_ffff * 0xffff_ffff_ffff_ffff) by (nonlinear_arith)
            requires
                0 <= middle <= 0xffff_ffff_ffff_ffff,
        ;
        if middle * middle <= n {
            low = middle;
        } else {
            high = middle;
        }
    }
    low as u64
}

} // verus!
