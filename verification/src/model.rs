//! The rules of the pair as plain values: which way a path crosses the pair,
//! the quote, the calls each message sends to token contracts, when a message
//! runs without aborting, and what each message does to the storage and
//! answers.
use vstd::prelude::*;

use crate::amm::{
    burn_share, credited_in, deposit_share, deposit_share_defined, minted, minted_defined, payout, swap_out,
    swap_out_defined, with_fee, with_fee_defined, withdraw_defined,
};
use crate::encode::{cw20_msg_json, Cw20Call, Cw20CallView};
use crate::error::ContractError;
use crate::msg::{Cw20ReceiveMsg, ExecuteMsg};
use crate::response::Response;
use crate::state::{with_lp_token, with_reserves, PairStorage, State};

verus! {

/// A call addressed to a token contract, as plain values.
pub type PlannedCall = (Seq<char>, Cw20CallView);

/// The messages that carry `calls`, each call encoded.
pub open spec fn encoded(calls: Seq<PlannedCall>) -> Seq<(Seq<char>, Seq<u8>)> {
    calls.map_values(|c: PlannedCall| (c.0, cw20_msg_json(c.1)))
}

/// The path, each address by its characters.
pub open spec fn path_view(path: Seq<String>) -> Seq<Seq<char>> {
    path.map_values(|s: String| s@)
}

/// Which way `path` crosses the pair: `Some(true)` from token0 to token1,
/// `Some(false)` from token1 to token0, `None` neither.
pub open spec fn direction(path: Seq<Seq<char>>, token0: Seq<char>, token1: Seq<char>) -> Option<bool> {
    if path[0] == token0 && path[1] == token1 {
        Some(true)
    } else if path[0] == token1 && path[1] == token0 {
        Some(false)
    } else {
        None
    }
}

/// The path holds every entry that telling its direction reads.
pub open spec fn path_readable(path: Seq<Seq<char>>, token0: Seq<char>, token1: Seq<char>) -> bool {
    &&& path.len() >= 1
    &&& (path[0] == token0 || path[0] == token1) ==> path.len() >= 2
}

/// The reserve paid into and the reserve paid out of, for a direction.
pub open spec fn reserves_in_out(reserves: (u128, u128), forward: bool) -> (u128, u128) {
    if forward { (reserves.0, reserves.1) } else { (reserves.1, reserves.0) }
}

/// The quote for `amount_in` along `path`: the amount in and the amount out,
/// or `(0, 0)` where the path does not cross the pair.
pub open spec fn quote(state: State, reserves: (u128, u128), amount_in: u128, path: Seq<Seq<char>>) -> (int, int) {
    match direction(path, state.token0@, state.token1@) {
        Some(forward) => {
            let (r_in, r_out) = reserves_in_out(reserves, forward);
            (amount_in as int, swap_out(with_fee(amount_in as int, state.fee as int, state.multiplier as int), r_in as int, r_out as int, state.multiplier as int))
        },
        None => (0, 0),
    }
}

/// The quote is computed without overflow, division by zero or a read past the path.
pub open spec fn quote_defined(state: State, reserves: (u128, u128), amount_in: u128, path: Seq<Seq<char>>) -> bool {
    &&& with_fee_defined(amount_in as int, state.fee as int, state.multiplier as int)
    &&& path_readable(path, state.token0@, state.token1@)
    &&& match direction(path, state.token0@, state.token1@) {
        Some(forward) => {
            let (r_in, r_out) = reserves_in_out(reserves, forward);
            swap_out_defined(with_fee(amount_in as int, state.fee as int, state.multiplier as int), r_in as int, r_out as int, state.multiplier as int)
        },
        None => true,
    }
}

/// The reserves after a swap of `amount_in` that pays out `out` along `path`,
/// or `None` where the path does not cross the pair.
pub open spec fn swapped_reserves(state: State, reserves: (u128, u128), amount_in: u128, path: Seq<Seq<char>>, out: int) -> Option<(int, int)> {
    let credit = credited_in(amount_in as int, state.fee as int, state.multiplier as int);
    match direction(path, state.token0@, state.token1@) {
        Some(true) => Some((reserves.0 + credit, reserves.1 - out)),
        Some(false) => Some((reserves.0 - out, reserves.1 + credit)),
        None => None,
    }
}

/// A swap of `amount_in` along `path` runs without overflow, division by zero
/// or a read past the path.
pub open spec fn swap_defined(state: State, reserves: (u128, u128), amount_in: u128, path: Seq<Seq<char>>) -> bool {
    &&& quote_defined(state, reserves, amount_in, path)
    &&& path.len() >= 2
    &&& state.multiplier != 0
    &&& match swapped_reserves(state, reserves, amount_in, path, quote(state, reserves, amount_in, path).1) {
        Some(r) => r.0 <= u128::MAX && r.1 <= u128::MAX,
        None => true,
    }
}

/// The LP supply that the answer of the LP token's query gives, zero where the query failed.
pub open spec fn lp_info_or_zero(lp_info: Option<(u128, u128, u8)>) -> (u128, u128, u8) {
    match lp_info {
        Some(info) => info,
        None => (0, 0, 0),
    }
}

/// The transfers into the pair that a deposit asks for, one per nonzero amount.
pub open spec fn deposit_calls(state: State, sender: Seq<char>, contract: Seq<char>, amount0: u128, amount1: u128) -> Seq<PlannedCall> {
    let first: Seq<PlannedCall> = if amount0 != 0 {
        seq![(state.token0@, Cw20CallView::TransferFrom { owner: sender, recipient: contract, amount: amount0 })]
    } else {
        seq![]
    };
    let second: Seq<PlannedCall> = if amount1 != 0 {
        seq![(state.token1@, Cw20CallView::TransferFrom { owner: sender, recipient: contract, amount: amount1 })]
    } else {
        seq![]
    };
    first + second
}

/// The calls a deposit sends: its transfers and, where it buys a nonzero share
/// of the pool, the mint of LP tokens for the sender.
pub open spec fn add_liquid_calls(
    storage: PairStorage,
    sender: Seq<char>,
    contract: Seq<char>,
    amount0: u128,
    amount1: u128,
    lp_info: Option<(u128, u128, u8)>,
) -> Seq<PlannedCall> {
    let st = storage.state_of();
    let (r0, r1) = storage.reserves_of();
    let transfers = deposit_calls(st, sender, contract, amount0, amount1);
    let share = deposit_share(amount0 as int, amount1 as int, r0 as int, r1 as int);
    if share == 0 {
        transfers
    } else {
        transfers.push((st.lp_token@, Cw20CallView::Mint {
            recipient: sender,
            amount: minted(share, lp_info_or_zero(lp_info).1 as int) as u128,
        }))
    }
}

/// A deposit runs without overflow.
pub open spec fn add_liquid_defined(storage: PairStorage, amount0: u128, amount1: u128, lp_info: Option<(u128, u128, u8)>) -> bool {
    let (r0, r1) = storage.reserves_of();
    let share = deposit_share(amount0 as int, amount1 as int, r0 as int, r1 as int);
    &&& storage.is_initialized()
    &&& r0 + amount0 <= u128::MAX
    &&& r1 + amount1 <= u128::MAX
    &&& deposit_share_defined(amount0 as int, amount1 as int, r0 as int, r1 as int)
    &&& share != 0 ==> minted_defined(share, lp_info_or_zero(lp_info).1 as int)
}

/// The calls that a withdrawal sends: each token's payout in that token, and
/// the burn of the LP tokens.
pub open spec fn withdraw_calls(
    state: State,
    sender: Seq<char>,
    liquid: u128,
    token0_amount: u128,
    token1_amount: u128,
) -> Seq<PlannedCall> {
    seq![
        (state.token0@, Cw20CallView::Transfer { recipient: sender, amount: token0_amount }),
        (state.token1@, Cw20CallView::Transfer { recipient: sender, amount: token1_amount }),
        (state.lp_token@, Cw20CallView::BurnFrom { owner: sender, amount: liquid }),
    ]
}

/// A withdrawal runs without overflow or a reserve going below zero; with no
/// LP supply it is refused before any arithmetic.
pub open spec fn remove_liquid_defined(storage: PairStorage, liquid: u128, lp_info: Option<(u128, u128, u8)>) -> bool {
    let (r0, r1) = storage.reserves_of();
    let supply = lp_info_or_zero(lp_info).1 as int;
    let share = burn_share(liquid as int, supply);
    &&& storage.is_initialized()
    &&& supply != 0 ==> {
        &&& withdraw_defined(r0 as int, r1 as int, liquid as int, supply)
        &&& payout(r0 as int, share) <= r0
        &&& payout(r1 as int, share) <= r1
    }
}

/// Calls to token contracts, as plain values.
pub open spec fn planned_view(calls: Seq<(String, Cw20Call)>) -> Seq<PlannedCall> {
    calls.map_values(|c: (String, Cw20Call)| (c.0@, c.1@))
}

/// The calls a swap sends: the input moved from the sender to the pair, and
/// the output sent to the sender.
pub open spec fn swap_calls(path: Seq<Seq<char>>, sender: Seq<char>, contract: Seq<char>, amount_in: u128, amount_out: u128) -> Seq<PlannedCall> {
    seq![
        (path[0], Cw20CallView::TransferFrom { owner: sender, recipient: contract, amount: amount_in }),
        (path[1], Cw20CallView::Transfer { recipient: sender, amount: amount_out }),
    ]
}

/// `sender` is the owner recorded at instantiation.
pub open spec fn is_owner(storage: PairStorage, sender: Seq<char>) -> bool {
    storage.owner matches Some(owner) && owner@ == sender
}

/// What `SetLpToken` does: from the owner, replaces the LP token address and
/// answers with one attribute; from anyone else, is refused and changes nothing.
pub open spec fn set_lp_token_post(
    old: PairStorage,
    new: PairStorage,
    r: Result<Response, ContractError>,
    sender: Seq<char>,
    lp_token: String,
) -> bool {
    if is_owner(old, sender) {
        &&& new == with_lp_token(old, lp_token)
        &&& r matches Ok(resp)
        &&& resp.messages_view() == Seq::<(Seq<char>, Seq<u8>)>::empty()
        &&& resp.attributes_view() == seq![("method"@, "set_lptoken"@)]
    } else {
        &&& new == old
        &&& r matches Err(e) && e is Unauthorized
    }
}

/// What `AddLiquid` does: grows the reserves by the amounts and answers with
/// its calls.
pub open spec fn add_liquid_post(
    old: PairStorage,
    new: PairStorage,
    r: Result<Response, ContractError>,
    sender: Seq<char>,
    contract: Seq<char>,
    amount0: u128,
    amount1: u128,
    lp_info: Option<(u128, u128, u8)>,
) -> bool {
    let (r0, r1) = old.reserves_of();
    let calls = add_liquid_calls(old, sender, contract, amount0, amount1, lp_info);
    &&& new == with_reserves(old, (r0 + amount0) as u128, (r1 + amount1) as u128)
    &&& r matches Ok(resp)
    &&& resp.messages_view() == encoded(calls)
    &&& resp.attributes_view() == seq![("Method"@, "add_liquidity"@)]
}

/// The payouts of a withdrawal of `liquid` LP tokens out of the supply in `lp_info`.
pub open spec fn withdrawal(old: PairStorage, liquid: u128, lp_info: Option<(u128, u128, u8)>) -> (int, int) {
    let (r0, r1) = old.reserves_of();
    let share = burn_share(liquid as int, lp_info_or_zero(lp_info).1 as int);
    (payout(r0 as int, share), payout(r1 as int, share))
}

/// What `RemoveLiquid` does: with no LP supply it is refused and changes
/// nothing; else it pays out each token's share, burns the LP tokens, and
/// shrinks each reserve by its payout.
pub open spec fn remove_liquid_post(
    old: PairStorage,
    new: PairStorage,
    r: Result<Response, ContractError>,
    sender: Seq<char>,
    liquid: u128,
    lp_info: Option<(u128, u128, u8)>,
) -> bool {
    let (r0, r1) = old.reserves_of();
    let (token0_amount, token1_amount) = withdrawal(old, liquid, lp_info);
    let calls = withdraw_calls(old.state_of(), sender, liquid, token0_amount as u128, token1_amount as u128);
    if lp_info_or_zero(lp_info).1 == 0 {
        &&& new == old
        &&& r matches Err(e) && e is ZeroLpSupply
    } else {
        &&& new == with_reserves(old, (r0 - token0_amount) as u128, (r1 - token1_amount) as u128)
        &&& r matches Ok(resp)
        &&& resp.messages_view() == encoded(calls)
        &&& resp.attributes_view() == seq![("Method"@, "remove_liquidity"@)]
    }
}

/// What a swap does once its calls are known: it is refused where the path
/// does not cross the pair, and then changes nothing; else it settles the
/// reserves and answers with the calls.
pub open spec fn swap_post(
    old: PairStorage,
    new: PairStorage,
    r: Result<Response, ContractError>,
    amount_in: u128,
    path: Seq<Seq<char>>,
    calls: Seq<PlannedCall>,
) -> bool {
    let st = old.state_of();
    let out = quote(st, old.reserves_of(), amount_in, path).1;
    match swapped_reserves(st, old.reserves_of(), amount_in, path, out) {
        Some(res) => {
            &&& new == with_reserves(old, res.0 as u128, res.1 as u128)
            &&& r matches Ok(resp)
            &&& resp.messages_view() == encoded(calls)
            &&& resp.attributes_view() == seq![("Method"@, "swap"@)]
        },
        None => {
            &&& new == old
            &&& r matches Err(e) && e is InvalidPath
        },
    }
}

/// The call a cw20-triggered swap sends: the output, to the token's sender.
pub open spec fn direct_swap_calls(path: Seq<Seq<char>>, sender: Seq<char>, amount_out: u128) -> Seq<PlannedCall> {
    seq![(path[1], Cw20CallView::Transfer { recipient: sender, amount: amount_out })]
}

/// The funds of a cw20 `Receive` come from the token the path starts from.
pub open spec fn sent_by_input_token(token: Seq<char>, path: Seq<Seq<char>>) -> bool {
    path.len() >= 1 && path[0] == token
}

/// A cw20-triggered swap runs without overflow, division by zero or a read
/// past the path; a payload that does not decode, or funds from another token,
/// are refused before the storage is read.
pub open spec fn direct_swap_defined(storage: PairStorage, token: Seq<char>, message: Cw20ReceiveMsg) -> bool {
    match message.msg {
        Some(m) => sent_by_input_token(token, path_view(m.path@)) ==> {
            &&& storage.is_initialized()
            &&& swap_defined(storage.state_of(), storage.reserves_of(), message.amount, path_view(m.path@))
        },
        None => true,
    }
}

/// What `Receive` from the cw20 contract `token` does: refuses a payload that
/// is not a swap message, and funds from a token other than the path's first;
/// else swaps the received amount along the path for the token's sender.
pub open spec fn direct_swap_post(
    old: PairStorage,
    new: PairStorage,
    r: Result<Response, ContractError>,
    token: Seq<char>,
    message: Cw20ReceiveMsg,
) -> bool {
    match message.msg {
        Some(m) => {
            let path = path_view(m.path@);
            if sent_by_input_token(token, path) {
                let out = quote(old.state_of(), old.reserves_of(), message.amount, path).1;
                swap_post(old, new, r, message.amount, path, direct_swap_calls(path, message.sender@, out as u128))
            } else {
                &&& new == old
                &&& r matches Err(e) && e is InvalidToken
            }
        },
        None => {
            &&& new == old
            &&& r matches Err(e) && e is InvalidSwapMsg
        },
    }
}

/// Where `execute` reads the LP token's answer on `msg`: to burn LP tokens,
/// and for a deposit that runs and buys a nonzero share of the pool.
pub open spec fn lp_info_needed(storage: PairStorage, msg: ExecuteMsg) -> bool {
    match msg {
        ExecuteMsg::RemoveLiquid { .. } => true,
        ExecuteMsg::AddLiquid { amount0, amount1 } => {
            let (r0, r1) = storage.reserves_of();
            &&& storage.is_initialized()
            &&& deposit_share_defined(amount0 as int, amount1 as int, r0 as int, r1 as int)
            &&& deposit_share(amount0 as int, amount1 as int, r0 as int, r1 as int) != 0
        },
        _ => false,
    }
}

/// An execute message from `sender` runs without overflow, division by zero, a
/// read past a path or a read of an empty storage slot.
pub open spec fn execute_defined(storage: PairStorage, sender: Seq<char>, msg: ExecuteMsg, lp_info: Option<(u128, u128, u8)>) -> bool {
    match msg {
        ExecuteMsg::SetLpToken { .. } => storage.state is Some,
        ExecuteMsg::AddLiquid { amount0, amount1 } => add_liquid_defined(storage, amount0, amount1, lp_info),
        ExecuteMsg::RemoveLiquid { liquid } => remove_liquid_defined(storage, liquid, lp_info),
        ExecuteMsg::Receive(message) => direct_swap_defined(storage, sender, message),
        ExecuteMsg::Swap { amount_in, path } => {
            &&& storage.is_initialized()
            &&& swap_defined(storage.state_of(), storage.reserves_of(), amount_in, path_view(path@))
        },
    }
}

/// What an execute message from `sender` does.
pub open spec fn execute_post(
    old: PairStorage,
    new: PairStorage,
    r: Result<Response, ContractError>,
    sender: Seq<char>,
    contract: Seq<char>,
    msg: ExecuteMsg,
    lp_info: Option<(u128, u128, u8)>,
) -> bool {
    match msg {
        ExecuteMsg::SetLpToken { lp_token } => set_lp_token_post(old, new, r, sender, lp_token),
        ExecuteMsg::AddLiquid { amount0, amount1 } => add_liquid_post(old, new, r, sender, contract, amount0, amount1, lp_info),
        ExecuteMsg::RemoveLiquid { liquid } => remove_liquid_post(old, new, r, sender, liquid, lp_info),
        ExecuteMsg::Receive(message) => direct_swap_post(old, new, r, sender, message),
        ExecuteMsg::Swap { amount_in, path } => {
            let pv = path_view(path@);
            let out = quote(old.state_of(), old.reserves_of(), amount_in, pv).1;
            swap_post(old, new, r, amount_in, pv, swap_calls(pv, sender, contract, amount_in, out as u128))
        },
    }
}

} // verus!
