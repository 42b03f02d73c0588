//! The pool arithmetic: swap quotes, the liquidity share of a deposit, the LP
//! tokens minted for it and the tokens paid out for burnt LP tokens.
//!
//! Amounts are `u128`; where the arithmetic would overflow or divide by zero,
//! the pool aborts, so every such input is left out by `requires`.
use vstd::prelude::*;

use crate::laws::law_swap_out_within_reserve;

verus! {

/// Fixed-point scale of the share of a deposit in the pool.
pub const ADD_LIQUIDITY_SCALE: u128 = 1_000_000;

/// LP supply assumed when the LP token has none yet.
pub const INITIAL_LP_SUPPLY: u128 = 1_000_000;

/// Fixed-point scale of the share of the LP supply that is burnt.
pub const REMOVE_LIQUIDITY_SCALE: u128 = 10_000_000_000;

/// The fee denominator a new pool starts with.
pub const FEE_MULTIPLIER: u128 = 1000;

/// `amount_in` scaled by the part of `multiplier` that is not fee.
pub open spec fn with_fee(amount_in: int, fee: int, multiplier: int) -> int {
    amount_in * (multiplier - fee)
}

/// The arithmetic of `with_fee` stays within `u128`.
pub open spec fn with_fee_defined(amount_in: int, fee: int, multiplier: int) -> bool {
    &&& fee <= multiplier
    &&& with_fee(amount_in, fee, multiplier) <= u128::MAX
}

/// The amount a swap pays out for the fee-scaled input `amount_in_with_fee`.
pub open spec fn swap_out(amount_in_with_fee: int, reserve_in: int, reserve_out: int, multiplier: int) -> int {
    (amount_in_with_fee * reserve_out) / (reserve_in * multiplier + amount_in_with_fee)
}

/// The arithmetic of `swap_out` stays within `u128` and divides by a nonzero number.
pub open spec fn swap_out_defined(amount_in_with_fee: int, reserve_in: int, reserve_out: int, multiplier: int) -> bool {
    &&& amount_in_with_fee * reserve_out <= u128::MAX
    &&& reserve_in * multiplier <= u128::MAX
    &&& reserve_in * multiplier + amount_in_with_fee <= u128::MAX
    &&& reserve_in * multiplier + amount_in_with_fee != 0
}

/// The amount by which a swap grows the reserve of the token paid in.
pub open spec fn credited_in(amount_in: int, fee: int, multiplier: int) -> int {
    with_fee(amount_in, fee, multiplier) / multiplier
}

/// The share of the pool, scaled by `ADD_LIQUIDITY_SCALE`, that a deposit buys:
/// the smaller of the two sides, and nothing while a reserve is empty.
pub open spec fn deposit_share(amount0: int, amount1: int, reserve0: int, reserve1: int) -> int {
    if reserve0 != 0 && reserve1 != 0 {
        let share0 = amount0 * ADD_LIQUIDITY_SCALE / reserve0;
        let share1 = amount1 * ADD_LIQUIDITY_SCALE / reserve1;
        if share0 < share1 { share0 } else { share1 }
    } else {
        0
    }
}

/// The arithmetic of `deposit_share` stays within `u128`.
pub open spec fn deposit_share_defined(amount0: int, amount1: int, reserve0: int, reserve1: int) -> bool {
    reserve0 != 0 && reserve1 != 0 ==> {
        &&& amount0 * ADD_LIQUIDITY_SCALE <= u128::MAX
        &&& amount1 * ADD_LIQUIDITY_SCALE <= u128::MAX
    }
}

/// The LP supply that minting is measured against.
pub open spec fn effective_supply(total_supply: int) -> int {
    if total_supply == 0 { INITIAL_LP_SUPPLY as int } else { total_supply }
}

/// The LP tokens minted for a deposit share.
pub open spec fn minted(share: int, total_supply: int) -> int {
    share * effective_supply(total_supply) / ADD_LIQUIDITY_SCALE as int
}

/// The arithmetic of `minted` stays within `u128`.
pub open spec fn minted_defined(share: int, total_supply: int) -> bool {
    share * effective_supply(total_supply) <= u128::MAX
}

/// The share of the LP supply, scaled by `REMOVE_LIQUIDITY_SCALE`, that `liquid` is.
pub open spec fn burn_share(liquid: int, total_supply: int) -> int {
    liquid * REMOVE_LIQUIDITY_SCALE / total_supply
}

/// The amount of a reserve that a burn share pays out.
pub open spec fn payout(reserve: int, share: int) -> int {
    reserve * share / REMOVE_LIQUIDITY_SCALE as int
}

/// The arithmetic of a withdrawal stays within `u128` and divides by a nonzero number.
pub open spec fn withdraw_defined(reserve0: int, reserve1: int, liquid: int, total_supply: int) -> bool {
    &&& total_supply != 0
    &&& liquid * REMOVE_LIQUIDITY_SCALE <= u128::MAX
    &&& reserve0 * burn_share(liquid, total_supply) <= u128::MAX
    &&& reserve1 * burn_share(liquid, total_supply) <= u128::MAX
}

/// Scales `amount_in` by the part of `multiplier` that is not fee.
pub fn amount_in_with_fee(amount_in: u128, fee: u128, multiplier: u128) -> (r: u128)
    requires
        with_fee_defined(amount_in as int, fee as int, multiplier as int),
    ensures
        r == with_fee(amount_in as int, fee as int, multiplier as int),
{
    amount_in * (multiplier - fee)
}

/// The amount a swap pays out of `reserve_out` for the fee-scaled input.
pub fn amount_out(amount_in_with_fee: u128, reserve_in: u128, reserve_out: u128, multiplier: u128) -> (r: u128)
    requires
        swap_out_defined(amount_in_with_fee as int, reserve_in as int, reserve_out as int, multiplier as int),
    ensures
        r == swap_out(amount_in_with_fee as int, reserve_in as int, reserve_out as int, multiplier as int),
        r <= reserve_out,
{
    proof {
        law_swap_out_within_reserve(amount_in_with_fee as int, reserve_in as int, reserve_out as int, multiplier as int);
    }
    let numerator = amount_in_with_fee * reserve_out;
    let denominator = reserve_in * multiplier + amount_in_with_fee;
    numerator / denominator
}

/// The share of the pool, scaled by `ADD_LIQUIDITY_SCALE`, that a deposit buys.
pub fn liquidity_share(amount0: u128, amount1: u128, reserve0: u128, reserve1: u128) -> (r: u128)
    requires
        deposit_share_defined(amount0 as int, amount1 as int, reserve0 as int, reserve1 as int),
    ensures
        r == deposit_share(amount0 as int, amount1 as int, reserve0 as int, reserve1 as int),
{
    let mut percent: u128 = 0;
    if reserve0 != 0 && reserve1 != 0 {
        let percent0 = amount0 * ADD_LIQUIDITY_SCALE / reserve0;
        let percent1 = amount1 * ADD_LIQUIDITY_SCALE / reserve1;
        percent = if percent0 < percent1 { percent0 } else { percent1 };
    }
    percent
}

/// The LP tokens minted for a deposit share, against the LP supply
/// (`INITIAL_LP_SUPPLY` while the supply is zero).
pub fn lp_mint_amount(share: u128, total_supply: u128) -> (r: u128)
    requires
        minted_defined(share as int, total_supply as int),
    ensures
        r == minted(share as int, total_supply as int),
{
    let mut supply = total_supply;
    if supply == 0 {
        supply = INITIAL_LP_SUPPLY;
    }
    share * supply / ADD_LIQUIDITY_SCALE
}

/// The amounts of the two reserves that burning `liquid` LP tokens out of
/// `total_supply` pays out.
pub fn withdraw_amounts(reserve0: u128, reserve1: u128, liquid: u128, total_supply: u128) -> (r: (u128, u128))
    requires
        withdraw_defined(reserve0 as int, reserve1 as int, liquid as int, total_supply as int),
    ensures
        r.0 == payout(reserve0 as int, burn_share(liquid as int, total_supply as int)),
        r.1 == payout(reserve1 as int, burn_share(liquid as int, total_supply as int)),
{
    let percent = liquid * REMOVE_LIQUIDITY_SCALE / total_supply;
    let token0_amount = reserve0 * percent / REMOVE_LIQUIDITY_SCALE;
    let token1_amount = reserve1 * percent / REMOVE_LIQUIDITY_SCALE;
    (token0_amount, token1_amount)
}

} // verus!
