//! Decides, before a message runs, whether it runs without aborting: the
//! checks a caller that is not verified makes before it calls `execute` or
//! `query`.
use vstd::prelude::*;

use crate::amm::{
    amount_in_with_fee, liquidity_share, swap_out_defined, with_fee_defined, withdraw_amounts, ADD_LIQUIDITY_SCALE,
    INITIAL_LP_SUPPLY, REMOVE_LIQUIDITY_SCALE,
};
use crate::contract::{query_defined, query_lp_token_info};
use crate::laws::law_quote_within_reserve;
use crate::model::{
    lp_info_needed, add_liquid_defined, direction, execute_defined, path_readable, path_view, quote_defined, remove_liquid_defined,
    swap_defined,
};
use crate::msg::{ExecuteMsg, QueryMsg};
use crate::state::{get_fee, get_reserves, get_tokens, PairStorage};

verus! {

/// Whether the product fits in a `u128`.
fn product_fits(x: u128, y: u128) -> (r: bool)
    ensures
        r == (x * y <= u128::MAX),
{
    x.checked_mul(y).is_some()
}

/// Whether scaling `amount_in` by the part of `multiplier` that is not fee stays within `u128`.
fn with_fee_fits(amount_in: u128, fee: u128, multiplier: u128) -> (r: bool)
    ensures
        r == with_fee_defined(amount_in as int, fee as int, multiplier as int),
{
    fee <= multiplier && product_fits(amount_in, multiplier - fee)
}

/// Whether the swap output is computed within `u128` and without division by zero.
fn swap_out_fits(x: u128, reserve_in: u128, reserve_out: u128, multiplier: u128) -> (r: bool)
    ensures
        r == swap_out_defined(x as int, reserve_in as int, reserve_out as int, multiplier as int),
{
    if !product_fits(x, reserve_out) || !product_fits(reserve_in, multiplier) {
        return false;
    }
    match (reserve_in * multiplier).checked_add(x) {
        Some(d) => d != 0,
        None => false,
    }
}

/// Which way the path crosses the pair, where the path holds what telling it reads.
fn path_direction(path: &Vec<String>, token0: &String, token1: &String) -> (r: Option<Option<bool>>)
    ensures
        r is Some <==> path_readable(path_view(path@), token0@, token1@),
        r matches Some(d) ==> d == direction(path_view(path@), token0@, token1@),
{
    if path.len() == 0 {
        return None;
    }
    if (path[0] == *token0 || path[0] == *token1) && path.len() < 2 {
        return None;
    }
    if path[0] == *token0 && path[1] == *token1 {
        Some(Some(true))
    } else if path[0] == *token1 && path[1] == *token0 {
        Some(Some(false))
    } else {
        Some(None)
    }
}

/// Whether the quote for `amount_in` along `path` is computed without aborting.
fn quote_is_defined(storage: &PairStorage, amount_in: u128, path: &Vec<String>) -> (r: bool)
    requires
        storage.is_initialized(),
    ensures
        r == quote_defined(storage.state_of(), storage.reserves_of(), amount_in, path_view(path@)),
{
    let (token0, token1) = get_tokens(storage);
    let (fee, multiplier) = get_fee(storage);
    let (reserve0, reserve1) = get_reserves(storage);
    if !with_fee_fits(amount_in, fee, multiplier) {
        return false;
    }
    let x = amount_in_with_fee(amount_in, fee, multiplier);
    match path_direction(path, &token0, &token1) {
        None => false,
        Some(None) => true,
        Some(Some(forward)) => {
            if forward {
                swap_out_fits(x, reserve0, reserve1, multiplier)
            } else {
                swap_out_fits(x, reserve1, reserve0, multiplier)
            }
        },
    }
}

/// Whether a swap of `amount_in` along `path` runs without aborting.
fn swap_is_defined(storage: &PairStorage, amount_in: u128, path: &Vec<String>) -> (r: bool)
    requires
        storage.is_initialized(),
    ensures
        r == swap_defined(storage.state_of(), storage.reserves_of(), amount_in, path_view(path@)),
{
    if !quote_is_defined(storage, amount_in, path) || path.len() < 2 {
        return false;
    }
    let (token0, token1) = get_tokens(storage);
    let (fee, multiplier) = get_fee(storage);
    let (reserve0, reserve1) = get_reserves(storage);
    if multiplier == 0 {
        return false;
    }
    let ghost pv = path_view(path@);
    proof {
        law_quote_within_reserve(storage.state_of(), storage.reserves_of(), amount_in, pv);
    }
    let x = amount_in_with_fee(amount_in, fee, multiplier);
    let credit = x / multiplier;
    match path_direction(path, &token0, &token1) {
        Some(Some(true)) => reserve0.checked_add(credit).is_some(),
        Some(Some(false)) => reserve1.checked_add(credit).is_some(),
        _ => true,
    }
}

/// Whether a deposit runs without aborting.
fn add_liquid_is_defined(storage: &PairStorage, amount0: u128, amount1: u128, lp_info: Option<(u128, u128, u8)>) -> (r: bool)
    requires
        storage.is_initialized(),
    ensures
        r == add_liquid_defined(*storage, amount0, amount1, lp_info),
{
    let (reserve0, reserve1) = get_reserves(storage);
    if reserve0.checked_add(amount0).is_none() || reserve1.checked_add(amount1).is_none() {
        return false;
    }
    if reserve0 != 0 && reserve1 != 0 {
        if !product_fits(amount0, ADD_LIQUIDITY_SCALE) || !product_fits(amount1, ADD_LIQUIDITY_SCALE) {
            return false;
        }
    }
    let share = liquidity_share(amount0, amount1, reserve0, reserve1);
    if share == 0 {
        return true;
    }
    let (_, total_supply, _) = query_lp_token_info(lp_info);
    let supply = if total_supply == 0 { INITIAL_LP_SUPPLY } else { total_supply };
    product_fits(share, supply)
}

/// Whether a withdrawal runs without aborting.
fn remove_liquid_is_defined(storage: &PairStorage, liquid: u128, lp_info: Option<(u128, u128, u8)>) -> (r: bool)
    requires
        storage.is_initialized(),
    ensures
        r == remove_liquid_defined(*storage, liquid, lp_info),
{
    let (reserve0, reserve1) = get_reserves(storage);
    let (_, total_supply, _) = query_lp_token_info(lp_info);
    if total_supply == 0 {
        return true;
    }
    if !product_fits(liquid, REMOVE_LIQUIDITY_SCALE) {
        return false;
    }
    let share = liquid * REMOVE_LIQUIDITY_SCALE / total_supply;
    if !product_fits(reserve0, share) || !product_fits(reserve1, share) {
        return false;
    }
    let (token0_amount, token1_amount) = withdraw_amounts(reserve0, reserve1, liquid, total_supply);
    token0_amount <= reserve0 && token1_amount <= reserve1
}

/// Whether `execute` runs `msg` from `sender` without aborting, so that its `requires` holds.
pub fn execute_is_defined(
    storage: &PairStorage,
    sender: &String,
    msg: &ExecuteMsg,
    lp_info: Option<(u128, u128, u8)>,
) -> (r: bool)
    ensures
        r == execute_defined(*storage, sender@, *msg, lp_info),
{
    match msg {
        ExecuteMsg::SetLpToken { .. } => storage.state.is_some(),
        ExecuteMsg::AddLiquid { amount0, amount1 } => {
            storage.state.is_some() && storage.reserves.is_some() && add_liquid_is_defined(storage, *amount0, *amount1, lp_info)
        },
        ExecuteMsg::RemoveLiquid { liquid } => {
            storage.state.is_some() && storage.reserves.is_some() && remove_liquid_is_defined(storage, *liquid, lp_info)
        },
        ExecuteMsg::Receive(message) => match &message.msg {
            Some(swap) => {
                if !(swap.path.len() >= 1 && swap.path[0] == *sender) {
                    return true;
                }
                storage.state.is_some() && storage.reserves.is_some() && swap_is_defined(storage, message.amount, &swap.path)
            },
            None => true,
        },
        ExecuteMsg::Swap { amount_in, path } => {
            storage.state.is_some() && storage.reserves.is_some() && swap_is_defined(storage, *amount_in, path)
        },
    }
}

/// Whether `execute` asks for the LP token's answer on `msg`: always to burn
/// LP tokens, and for a deposit only where it runs and buys a nonzero share of
/// the pool, since only then does it mint.
pub fn needs_lp_info(storage: &PairStorage, msg: &ExecuteMsg) -> (r: bool)
    ensures
        r == lp_info_needed(*storage, *msg),
{
    match msg {
        ExecuteMsg::RemoveLiquid { .. } => true,
        ExecuteMsg::AddLiquid { amount0, amount1 } => {
            if storage.state.is_none() || storage.reserves.is_none() {
                return false;
            }
            let (reserve0, reserve1) = get_reserves(storage);
            if reserve0 != 0 && reserve1 != 0 {
                if !product_fits(*amount0, ADD_LIQUIDITY_SCALE) || !product_fits(*amount1, ADD_LIQUIDITY_SCALE) {
                    return false;
                }
            }
            liquidity_share(*amount0, *amount1, reserve0, reserve1) != 0
        },
        _ => false,
    }
}

/// Whether `query` answers `msg` without aborting, so that its `requires` holds.
pub fn query_is_defined(storage: &PairStorage, msg: &QueryMsg) -> (r: bool)
    ensures
        r == query_defined(*storage, *msg),
{
    match msg {
        QueryMsg::GetLpTokenInfo { .. } => true,
        QueryMsg::GetReserves {} => storage.reserves.is_some(),
        QueryMsg::GetAmountsOut { amount_in, path } => {
            storage.state.is_some() && storage.reserves.is_some() && quote_is_defined(storage, *amount_in, path)
        },
    }
}

} // verus!
