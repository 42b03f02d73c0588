//! The pair's entry points: instantiation, migration, the execute messages
//! (setting the LP token, adding and removing liquidity, swapping) and the
//! queries.
use vstd::prelude::*;

use crate::amm::{
    amount_in_with_fee, amount_out, liquidity_share, lp_mint_amount, payout, with_fee_defined, withdraw_amounts,
    FEE_MULTIPLIER,
};
use crate::encode::{cw20_msg_json, encode_cw20_call, Cw20Call, Cw20CallView};
use crate::error::ContractError;
use crate::laws::law_quote_within_reserve;
use crate::model::{
    add_liquid_calls, add_liquid_defined, add_liquid_post, deposit_calls, direct_swap_calls, direct_swap_defined,
    direct_swap_post, encoded, execute_defined, execute_post, lp_info_or_zero, path_view, planned_view, quote,
    quote_defined, remove_liquid_defined, remove_liquid_post, sent_by_input_token, set_lp_token_post, swap_calls,
    swap_defined, swap_post, swapped_reserves, withdraw_calls,
};
use crate::msg::{
    Cw20ReceiveMsg, Env, ExecuteMsg, InstantiateMsg, MessageInfo, MigrateMsg, QueryMsg, QueryResponse,
    ReserveResponse,
};
use crate::response::{Response, WasmMsg};
use crate::state::{
    copy_string, get_fee, get_lp_token, get_reserves, get_tokens, set_lp_token, set_reserves, with_reserves, PairStorage,
    Reserve, State,
};

verus! {

/// Encodes a call to a token contract into the message that carries it.
fn wasm_execute(contract_addr: String, call: Cw20Call) -> (r: WasmMsg)
    ensures
        r@ == (contract_addr@, cw20_msg_json(call@)),
{
    let bytes = encode_cw20_call(&call).unwrap();
    WasmMsg { contract_addr, msg: bytes }
}

/// Copies a call.
fn copy_call(call: &Cw20Call) -> (r: Cw20Call)
    ensures
        r@ == call@,
{
    match call {
        Cw20Call::Transfer { recipient, amount } => Cw20Call::Transfer { recipient: copy_string(recipient), amount: *amount },
        Cw20Call::TransferFrom { owner, recipient, amount } => Cw20Call::TransferFrom {
            owner: copy_string(owner),
            recipient: copy_string(recipient),
            amount: *amount,
        },
        Cw20Call::Mint { recipient, amount } => Cw20Call::Mint { recipient: copy_string(recipient), amount: *amount },
        Cw20Call::BurnFrom { owner, amount } => Cw20Call::BurnFrom { owner: copy_string(owner), amount: *amount },
    }
}

/// Encodes the calls in order into the messages that carry them.
fn encode_calls(calls: &Vec<(String, Cw20Call)>) -> (r: Vec<WasmMsg>)
    ensures
        r@.map_values(|m: WasmMsg| m@) == encoded(planned_view(calls@)),
{
    let ghost pv = planned_view(calls@);
    let mut messages: Vec<WasmMsg> = Vec::new();
    let mut i: usize = 0;
    while i < calls.len()
        invariant
            i <= calls.len(),
            pv == planned_view(calls@),
            messages@.map_values(|m: WasmMsg| m@) == encoded(pv.take(i as int)),
        decreases calls.len() - i,
    {
        let ghost pc = pv[i as int];
        let ghost before = messages@;
        let m = wasm_execute(copy_string(&calls[i].0), copy_call(&calls[i].1));
        messages.push(m);
        assert(pv.take(i + 1) =~= pv.take(i as int).push(pc));
        assert(messages@.map_values(|m: WasmMsg| m@) =~= before.map_values(|m: WasmMsg| m@).push((pc.0, cw20_msg_json(pc.1))));
        assert(encoded(pv.take(i as int).push(pc)) =~= encoded(pv.take(i as int)).push((pc.0, cw20_msg_json(pc.1))));
        i = i + 1;
    }
    assert(pv.take(i as int) =~= pv);
    messages
}

/// The response of a handler: its messages and the one attribute naming its method.
fn method_response(messages: Vec<WasmMsg>, key: &str, method: &str) -> (r: Response)
    ensures
        r.messages == messages,
        r.attributes_view() == seq![(key@, method@)],
{
    let mut response = Response { messages, attributes: Vec::new() };
    assert(response.attributes_view() =~= Seq::<(Seq<char>, Seq<char>)>::empty());
    response.add_attribute(key, method);
    assert(response.attributes_view() =~= seq![(key@, method@)]);
    response
}

/// Copies a path.
fn copy_path(path: &Vec<String>) -> (r: Vec<String>)
    ensures
        r@ == path@,
{
    let mut copy: Vec<String> = Vec::new();
    let mut i: usize = 0;
    while i < path.len()
        invariant
            i <= path.len(),
            copy@ == path@.take(i as int),
        decreases path.len() - i,
    {
        copy.push(copy_string(&path[i]));
        assert(path@.take(i + 1) =~= path@.take(i as int).push(path@[i as int]));
        i = i + 1;
    }
    assert(path@.take(i as int) =~= path@);
    copy
}

/// Credits the fee-reduced input to the reserve paid into and debits `amount_out`
/// from the reserve paid out of; refuses a path that does not cross the pair.
fn settle_swap(storage: &mut PairStorage, amount_in: u128, path: &Vec<String>, amount_out: u128) -> (r: Result<(), ContractError>)
    requires
        old(storage).is_initialized(),
        old(storage).state_of().multiplier != 0,
        with_fee_defined(amount_in as int, old(storage).state_of().fee as int, old(storage).state_of().multiplier as int),
        path.len() >= 2,
        match swapped_reserves(old(storage).state_of(), old(storage).reserves_of(), amount_in, path_view(path@), amount_out as int) {
            Some(res) => 0 <= res.0 <= u128::MAX && 0 <= res.1 <= u128::MAX,
            None => true,
        },
    ensures
        match swapped_reserves(old(storage).state_of(), old(storage).reserves_of(), amount_in, path_view(path@), amount_out as int) {
            Some(res) => r is Ok && *final(storage) == with_reserves(*old(storage), res.0 as u128, res.1 as u128),
            None => r matches Err(e) && e is InvalidPath && *final(storage) == *old(storage),
        },
{
    let (token0, token1) = get_tokens(storage);
    let (reserve0, reserve1) = get_reserves(storage);
    let (fee, multiplier) = get_fee(storage);
    let amount_in_fee = amount_in_with_fee(amount_in, fee, multiplier) / multiplier;

    if path[0] == token0 && path[1] == token1 {
        set_reserves(storage, reserve0 + amount_in_fee, reserve1 - amount_out);
        Ok(())
    } else if path[0] == token1 && path[1] == token0 {
        set_reserves(storage, reserve0 - amount_out, reserve1 + amount_in_fee);
        Ok(())
    } else {
        Err(ContractError::InvalidPath)
    }
}

/// Migration: accepted with an empty response.
pub fn migrate(_msg: MigrateMsg) -> (r: Response)
    ensures
        r.messages_view() == Seq::<(Seq<char>, Seq<u8>)>::empty(),
        r.attributes_view() == Seq::<(Seq<char>, Seq<char>)>::empty(),
{
    Response::new()
}

/// Instantiation: stores the configuration, with the LP token not set yet and
/// the fee denominator at `FEE_MULTIPLIER`, empty reserves, and the sender as
/// the owner.
pub fn instantiate(storage: &mut PairStorage, info: &MessageInfo, msg: InstantiateMsg) -> (r: Response)
    ensures
        final(storage).state == Some(State {
            lp_token: final(storage).state_of().lp_token,
            token0: msg.token0,
            token1: msg.token1,
            fee: msg.fee,
            multiplier: FEE_MULTIPLIER,
        }),
        final(storage).state_of().lp_token@ == "not setted"@,
        final(storage).reserves == Some(Reserve { reserve0: 0, reserve1: 0 }),
        final(storage).owner == Some(info.sender),
        r.messages_view() == Seq::<(Seq<char>, Seq<u8>)>::empty(),
        r.attributes_view() == seq![("method"@, "instantiate"@), ("owner"@, info.sender@)],
{
    let state = State {
        lp_token: "not setted".to_owned(),
        token0: msg.token0,
        token1: msg.token1,
        fee: msg.fee,
        multiplier: FEE_MULTIPLIER,
    };
    storage.state = Some(state);
    let reserve = Reserve { reserve0: 0, reserve1: 0 };
    storage.reserves = Some(reserve);
    storage.owner = Some(copy_string(&info.sender));
    let mut response = Response::new();
    response.add_attribute("method", "instantiate");
    response.add_attribute("owner", info.sender.as_str());
    assert(response.attributes_view() =~= seq![("method"@, "instantiate"@), ("owner"@, info.sender@)]);
    response
}

/// Sets the address of the LP token, where the sender is the owner; refuses
/// anyone else.
pub fn try_set_lp_tokens(storage: &mut PairStorage, info: &MessageInfo, lp_token: String) -> (r: Result<Response, ContractError>)
    requires
        old(storage).state is Some,
    ensures
        set_lp_token_post(*old(storage), *final(storage), r, info.sender@, lp_token),
{
    let authorized = match &storage.owner {
        Some(owner) => *owner == info.sender,
        None => false,
    };
    if !authorized {
        return Err(ContractError::Unauthorized);
    }
    set_lp_token(storage, lp_token);
    let response = method_response(Vec::new(), "method", "set_lptoken");
    assert(response.messages_view() =~= Seq::<(Seq<char>, Seq<u8>)>::empty());
    Ok(response)
}

/// The LP token information that the LP token's query answered, or zeros
/// where the query failed.
pub fn query_lp_token_info(lp_info: Option<(u128, u128, u8)>) -> (r: (u128, u128, u8))
    ensures
        r == lp_info_or_zero(lp_info),
{
    match lp_info {
        Some(value) => value,
        None => (0, 0, 0),
    }
}

/// The reserves.
pub fn query_reserves(storage: &PairStorage) -> (r: ReserveResponse)
    requires
        storage.reserves is Some,
    ensures
        (r.reserve0, r.reserve1) == storage.reserves_of(),
{
    let reserves = get_reserves(storage);
    ReserveResponse { reserve0: reserves.0, reserve1: reserves.1 }
}

/// The amount in and the amount out of a swap of `amount_in` along `path`;
/// `(0, 0)` where the path does not cross the pair.
pub fn query_amounts_out(storage: &PairStorage, amount_in: u128, path: Vec<String>) -> (r: (u128, u128))
    requires
        storage.is_initialized(),
        quote_defined(storage.state_of(), storage.reserves_of(), amount_in, path_view(path@)),
    ensures
        (r.0 as int, r.1 as int) == quote(storage.state_of(), storage.reserves_of(), amount_in, path_view(path@)),
{
    let ghost pv = path_view(path@);
    let (token0, token1) = get_tokens(storage);
    let (fee, multiplier) = get_fee(storage);
    let (reserve0, reserve1) = get_reserves(storage);

    let amount_in_fee = amount_in_with_fee(amount_in, fee, multiplier);

    let reserve_in;
    let reserve_out;
    if path[0] == token0 && path[1] == token1 {
        reserve_in = reserve0;
        reserve_out = reserve1;
    } else if path[0] == token1 && path[1] == token0 {
        reserve_in = reserve1;
        reserve_out = reserve0;
    } else {
        return (0, 0);
    }
    let out = amount_out(amount_in_fee, reserve_in, reserve_out, multiplier);
    (amount_in, out)
}

/// Adds `amount0` of token0 and `amount1` of token1 to the pool: asks the
/// tokens to move each nonzero amount from the sender to the pair, grows the
/// reserves by the amounts and, where the deposit buys a nonzero share of the
/// pool, mints LP tokens for the sender against the LP supply in `lp_info`.
pub fn try_add_liquid(
    storage: &mut PairStorage,
    info: &MessageInfo,
    env: &Env,
    amount0: u128,
    amount1: u128,
    lp_info: Option<(u128, u128, u8)>,
) -> (r: Result<Response, ContractError>)
    requires
        add_liquid_defined(*old(storage), amount0, amount1, lp_info),
    ensures
        add_liquid_post(*old(storage), *final(storage), r, info.sender@, env.contract_address@, amount0, amount1, lp_info),
{
    let ghost old_storage = *storage;
    let (token0, token1) = get_tokens(storage);
    let mut calls: Vec<(String, Cw20Call)> = Vec::new();
    if amount0 != 0 {
        calls.push((token0, Cw20Call::TransferFrom {
            owner: copy_string(&info.sender),
            recipient: copy_string(&env.contract_address),
            amount: amount0,
        }));
    }
    if amount1 != 0 {
        calls.push((token1, Cw20Call::TransferFrom {
            owner: copy_string(&info.sender),
            recipient: copy_string(&env.contract_address),
            amount: amount1,
        }));
    }
    assert(planned_view(calls@) =~= deposit_calls(old_storage.state_of(), info.sender@, env.contract_address@, amount0, amount1));

    let (reserve0, reserve1) = get_reserves(storage);
    set_reserves(storage, reserve0 + amount0, reserve1 + amount1);

    let percent = liquidity_share(amount0, amount1, reserve0, reserve1);
    if percent != 0 {
        let (_, total_supply, _) = query_lp_token_info(lp_info);
        let lp_amount = lp_mint_amount(percent, total_supply);
        let lp_token = get_lp_token(storage);
        let ghost before = planned_view(calls@);
        calls.push((lp_token, Cw20Call::Mint { recipient: copy_string(&info.sender), amount: lp_amount }));
        assert(planned_view(calls@) =~= before.push((old_storage.state_of().lp_token@, Cw20CallView::Mint {
            recipient: info.sender@,
            amount: lp_amount,
        })));
    }
    assert(planned_view(calls@) == add_liquid_calls(old_storage, info.sender@, env.contract_address@, amount0, amount1, lp_info));
    let messages = encode_calls(&calls);
    let response = method_response(messages, "Method", "add_liquidity");
    Ok(response)
}

/// Burns `liquid` LP tokens of the sender for their share of the pool, out of
/// the LP supply in `lp_info`: sends each token's payout in that token, burns
/// the LP tokens, and shrinks each reserve by its payout. Refused while the LP
/// token reports no supply.
pub fn try_remove_liquid(
    storage: &mut PairStorage,
    info: &MessageInfo,
    liquid: u128,
    lp_info: Option<(u128, u128, u8)>,
) -> (r: Result<Response, ContractError>)
    requires
        remove_liquid_defined(*old(storage), liquid, lp_info),
    ensures
        remove_liquid_post(*old(storage), *final(storage), r, info.sender@, liquid, lp_info),
{
    let (_, total_supply, _) = query_lp_token_info(lp_info);
    if total_supply == 0 {
        return Err(ContractError::ZeroLpSupply);
    }
    let (reserve0, reserve1) = get_reserves(storage);
    let (token0_amount, token1_amount) = withdraw_amounts(reserve0, reserve1, liquid, total_supply);
    let (token0, token1) = get_tokens(storage);
    let lp_token = get_lp_token(storage);

    let mut calls: Vec<(String, Cw20Call)> = Vec::new();
    calls.push((token0, Cw20Call::Transfer { recipient: copy_string(&info.sender), amount: token0_amount }));
    calls.push((token1, Cw20Call::Transfer { recipient: copy_string(&info.sender), amount: token1_amount }));
    calls.push((lp_token, Cw20Call::BurnFrom { owner: copy_string(&info.sender), amount: liquid }));
    assert(planned_view(calls@) =~= withdraw_calls(storage.state_of(), info.sender@, liquid, token0_amount, token1_amount));

    let messages = encode_calls(&calls);
    set_reserves(storage, reserve0 - token0_amount, reserve1 - token1_amount);
    Ok(method_response(messages, "Method", "remove_liquidity"))
}

/// Swaps `amount_in` of `path[0]`, taken from the sender, for the quoted
/// amount of `path[1]`, sent to the sender; the reserve paid into grows by the
/// fee-reduced input and the other shrinks by the output.
pub fn try_swap(
    storage: &mut PairStorage,
    info: &MessageInfo,
    env: &Env,
    amount_in: u128,
    path: Vec<String>,
) -> (r: Result<Response, ContractError>)
    requires
        old(storage).is_initialized(),
        swap_defined(old(storage).state_of(), old(storage).reserves_of(), amount_in, path_view(path@)),
    ensures
        ({
            let pv = path_view(path@);
            let out = quote(old(storage).state_of(), old(storage).reserves_of(), amount_in, pv).1;
            swap_post(*old(storage), *final(storage), r, amount_in, pv, swap_calls(pv, info.sender@, env.contract_address@, amount_in, out as u128))
        }),
{
    let ghost pv = path_view(path@);
    let (_, amount_out) = query_amounts_out(storage, amount_in, copy_path(&path));
    proof {
        law_quote_within_reserve(storage.state_of(), storage.reserves_of(), amount_in, pv);
    }

    let mut calls: Vec<(String, Cw20Call)> = Vec::new();
    calls.push((copy_string(&path[0]), Cw20Call::TransferFrom {
        owner: copy_string(&info.sender),
        recipient: copy_string(&env.contract_address),
        amount: amount_in,
    }));
    calls.push((copy_string(&path[1]), Cw20Call::Transfer { recipient: copy_string(&info.sender), amount: amount_out }));
    assert(planned_view(calls@) =~= swap_calls(pv, info.sender@, env.contract_address@, amount_in, amount_out));
    let messages = encode_calls(&calls);

    match settle_swap(storage, amount_in, &path, amount_out) {
        Ok(()) => {},
        Err(e) => return Err(e),
    }
    Ok(method_response(messages, "Method", "swap"))
}

/// Whether the cw20 contract `token` is the token `path` starts from.
fn sent_by(token: &String, path: &Vec<String>) -> (r: bool)
    ensures
        r == sent_by_input_token(token@, path_view(path@)),
{
    path.len() >= 1 && path[0] == *token
}

/// Swaps the amount that the cw20 contract `info.sender` sent to the pair
/// along the path of the attached swap message, paying the output to the
/// token's sender; refuses a payload that is not a swap message, and funds
/// from a token other than the one the path starts from.
pub fn try_direct_swap(storage: &mut PairStorage, info: &MessageInfo, message: Cw20ReceiveMsg) -> (r: Result<Response, ContractError>)
    requires
        direct_swap_defined(*old(storage), info.sender@, message),
    ensures
        direct_swap_post(*old(storage), *final(storage), r, info.sender@, message),
{
    let ghost msg = message;
    let sender = message.sender;
    let amount_in = message.amount;
    match message.msg {
        Some(swap_msg) => {
            let path = copy_path(&swap_msg.path);
            let ghost pv = path_view(path@);
            if !sent_by(&info.sender, &path) {
                return Err(ContractError::InvalidToken);
            }
            let (_, amount_out) = query_amounts_out(storage, amount_in, copy_path(&path));
            proof {
                law_quote_within_reserve(storage.state_of(), storage.reserves_of(), amount_in, pv);
            }

            let mut calls: Vec<(String, Cw20Call)> = Vec::new();
            calls.push((copy_string(&path[1]), Cw20Call::Transfer { recipient: sender, amount: amount_out }));
            assert(planned_view(calls@) =~= direct_swap_calls(pv, msg.sender@, amount_out));
            let messages = encode_calls(&calls);

            match settle_swap(storage, amount_in, &path, amount_out) {
                Ok(()) => {},
                Err(e) => return Err(e),
            }
            Ok(method_response(messages, "Method", "swap"))
        },
        None => Err(ContractError::InvalidSwapMsg),
    }
}

/// Runs an execute message sent by `info.sender` to the pair at
/// `env.contract_address`; `lp_info` is the LP token's answer, for the sender,
/// to the balance and token-info queries (`None` where a query failed or was
/// not made).
pub fn execute(
    storage: &mut PairStorage,
    env: &Env,
    info: &MessageInfo,
    msg: ExecuteMsg,
    lp_info: Option<(u128, u128, u8)>,
) -> (r: Result<Response, ContractError>)
    requires
        execute_defined(*old(storage), info.sender@, msg, lp_info),
    ensures
        execute_post(*old(storage), *final(storage), r, info.sender@, env.contract_address@, msg, lp_info),
{
    match msg {
        ExecuteMsg::SetLpToken { lp_token } => try_set_lp_tokens(storage, info, lp_token),
        ExecuteMsg::AddLiquid { amount0, amount1 } => try_add_liquid(storage, info, env, amount0, amount1, lp_info),
        ExecuteMsg::RemoveLiquid { liquid } => try_remove_liquid(storage, info, liquid, lp_info),
        ExecuteMsg::Swap { amount_in, path } => try_swap(storage, info, env, amount_in, path),
        ExecuteMsg::Receive(message) => try_direct_swap(storage, info, message),
    }
}

/// A query runs without overflow, division by zero, a read past a path or a
/// read of an empty storage slot.
pub open spec fn query_defined(storage: PairStorage, msg: QueryMsg) -> bool {
    match msg {
        QueryMsg::GetLpTokenInfo { .. } => true,
        QueryMsg::GetReserves {} => storage.reserves is Some,
        QueryMsg::GetAmountsOut { amount_in, path } => {
            &&& storage.is_initialized()
            &&& quote_defined(storage.state_of(), storage.reserves_of(), amount_in, path_view(path@))
        },
    }
}

/// Answers a query; `lp_info` is the LP token's answer for the queried user
/// (`None` where its query failed).
pub fn query(storage: &PairStorage, msg: QueryMsg, lp_info: Option<(u128, u128, u8)>) -> (r: QueryResponse)
    requires
        query_defined(*storage, msg),
    ensures
        match msg {
            QueryMsg::GetLpTokenInfo { .. } => {
                let info = lp_info_or_zero(lp_info);
                r == QueryResponse::LpTokenInfo(info.0, info.1, info.2)
            },
            QueryMsg::GetReserves {} => r == QueryResponse::Reserves(ReserveResponse {
                reserve0: storage.reserves_of().0,
                reserve1: storage.reserves_of().1,
            }),
            QueryMsg::GetAmountsOut { amount_in, path } => {
                let q = quote(storage.state_of(), storage.reserves_of(), amount_in, path_view(path@));
                r == QueryResponse::AmountsOut(q.0 as u128, q.1 as u128)
            },
        },
{
    match msg {
        QueryMsg::GetLpTokenInfo { .. } => {
            let (balance, total_supply, decimals) = query_lp_token_info(lp_info);
            QueryResponse::LpTokenInfo(balance, total_supply, decimals)
        },
        QueryMsg::GetReserves {} => QueryResponse::Reserves(query_reserves(storage)),
        QueryMsg::GetAmountsOut { amount_in, path } => {
            let (amount_in, amount_out) = query_amounts_out(storage, amount_in, path);
            QueryResponse::AmountsOut(amount_in, amount_out)
        },
    }
}

} // verus!
