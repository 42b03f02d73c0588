//! What holds of the pair across all inputs: the bounds on what a swap and a
//! withdrawal pay out, that paying more in never pays less out, that rounding
//! favours the pool, that minting grows with the deposit, that an empty pool
//! mints nothing, that a withdrawal pays what the reserves lose, that a swap
//! pays what the quote says, that a cw20-triggered swap is a swap without the
//! pull of the input, and that execute messages keep the configuration; and,
//! stated over the raw inputs, what each message sends and settles: a deposit
//! pulls what the reserves gain and mints the rounded-down share of the supply
//! its share buys, the share is the largest both sides pay for, a swap goes
//! only across the pair at the rounded-down constant-product quote, and a
//! withdrawal burns exactly the liquid it pays the rounded-down share of.
use vstd::arithmetic::div_mod::{lemma_div_by_multiple, lemma_div_is_ordered, lemma_div_pos_is_pos, lemma_fundamental_div_mod};
use vstd::arithmetic::mul::{lemma_mul_inequality, lemma_mul_is_commutative, lemma_mul_nonnegative};
use vstd::prelude::*;

use crate::amm::{
    burn_share, credited_in, deposit_share, effective_supply, minted, payout, swap_out, with_fee,
    ADD_LIQUIDITY_SCALE, INITIAL_LP_SUPPLY, REMOVE_LIQUIDITY_SCALE,
};
use crate::encode::{cw20_msg_json, Cw20CallView};
use crate::error::ContractError;
use crate::model::{
    add_liquid_calls, add_liquid_post, deposit_calls, direct_swap_calls, direct_swap_post, direction, encoded,
    execute_post, lp_info_or_zero, path_view, quote, quote_defined, remove_liquid_defined, remove_liquid_post,
    reserves_in_out, sent_by_input_token, add_liquid_defined, swap_defined, PlannedCall, set_lp_token_post, swap_calls, swap_post, withdraw_calls, withdrawal,
};
use crate::msg::{Cw20ReceiveMsg, ExecuteMsg};
use crate::response::Response;
use crate::state::{PairStorage, State};

verus! {

/// Where `q * d` is at most `n`, `q` is at most the quotient of `n` by `d`.
proof fn lemma_le_quotient(q: int, n: int, d: int)
    requires
        d > 0,
        q * d <= n,
    ensures
        q <= n / d,
{
    lemma_fundamental_div_mod(n, d);
    assert(q <= n / d) by (nonlinear_arith)
        requires
            d > 0,
            q * d <= n,
            n == d * (n / d) + n % d,
            n % d < d,
    {}
}

/// The quotient times the divisor is at most the dividend.
proof fn lemma_quotient_times_divisor(n: int, d: int)
    requires
        d > 0,
        n >= 0,
    ensures
        (n / d) * d <= n,
        n / d >= 0,
{
    lemma_fundamental_div_mod(n, d);
    lemma_div_pos_is_pos(n, d);
    assert((n / d) * d <= n) by (nonlinear_arith)
        requires
            d > 0,
            n == d * (n / d) + n % d,
            n % d >= 0,
    {}
}

/// A swap never pays out more than the reserve it pays from.
pub proof fn law_swap_out_within_reserve(amount_in_with_fee: int, reserve_in: int, reserve_out: int, multiplier: int)
    requires
        0 <= amount_in_with_fee,
        0 <= reserve_in,
        0 <= reserve_out,
        0 <= multiplier,
        reserve_in * multiplier + amount_in_with_fee != 0,
    ensures
        0 <= swap_out(amount_in_with_fee, reserve_in, reserve_out, multiplier) <= reserve_out,
{
    let d = reserve_in * multiplier + amount_in_with_fee;
    lemma_mul_nonnegative(reserve_in, multiplier);
    lemma_mul_nonnegative(amount_in_with_fee, reserve_out);
    lemma_mul_inequality(amount_in_with_fee, d, reserve_out);
    lemma_mul_is_commutative(d, reserve_out);
    lemma_div_is_ordered(amount_in_with_fee * reserve_out, reserve_out * d, d);
    lemma_div_by_multiple(reserve_out, d);
    lemma_div_pos_is_pos(amount_in_with_fee * reserve_out, d);
}

/// The quote never pays out more than the reserve it pays from, so a swap never
/// takes a reserve below zero; a path that does not cross the pair is quoted zero.
pub proof fn law_quote_within_reserve(state: State, reserves: (u128, u128), amount_in: u128, path: Seq<Seq<char>>)
    requires
        quote_defined(state, reserves, amount_in, path),
    ensures
        quote(state, reserves, amount_in, path).1 >= 0,
        match direction(path, state.token0@, state.token1@) {
            Some(forward) => quote(state, reserves, amount_in, path).1 <= reserves_in_out(reserves, forward).1,
            None => quote(state, reserves, amount_in, path) == (0int, 0int),
        },
{
    match direction(path, state.token0@, state.token1@) {
        Some(forward) => {
            let (r_in, r_out) = reserves_in_out(reserves, forward);
            let x = with_fee(amount_in as int, state.fee as int, state.multiplier as int);
            lemma_mul_nonnegative(amount_in as int, (state.multiplier - state.fee) as int);
            law_swap_out_within_reserve(x, r_in as int, r_out as int, state.multiplier as int);
        },
        None => {},
    }
}

/// Paying more in never pays less out.
pub proof fn law_swap_out_monotone(x1: int, x2: int, reserve_in: int, reserve_out: int, multiplier: int)
    requires
        0 <= x1 <= x2,
        0 <= reserve_in,
        0 <= reserve_out,
        0 <= multiplier,
        reserve_in * multiplier + x1 != 0,
    ensures
        swap_out(x1, reserve_in, reserve_out, multiplier) <= swap_out(x2, reserve_in, reserve_out, multiplier),
{
    let d1 = reserve_in * multiplier + x1;
    let d2 = reserve_in * multiplier + x2;
    let q1 = swap_out(x1, reserve_in, reserve_out, multiplier);
    lemma_mul_nonnegative(reserve_in, multiplier);
    lemma_mul_nonnegative(x1, reserve_out);
    law_swap_out_within_reserve(x1, reserve_in, reserve_out, multiplier);
    lemma_quotient_times_divisor(x1 * reserve_out, d1);
    assert(q1 * d2 <= x2 * reserve_out) by (nonlinear_arith)
        requires
            q1 * d1 <= x1 * reserve_out,
            d2 == d1 + (x2 - x1),
            0 <= q1 <= reserve_out,
            x1 <= x2,
    {}
    lemma_le_quotient(q1, x2 * reserve_out, d2);
}

/// Nothing in, nothing out.
pub proof fn law_swap_out_of_nothing(reserve_in: int, reserve_out: int, multiplier: int)
    requires
        reserve_in * multiplier > 0,
    ensures
        swap_out(0, reserve_in, reserve_out, multiplier) == 0,
{
}

/// The reserve paid into grows by at most what the sender pays in.
pub proof fn law_credit_at_most_input(amount_in: int, fee: int, multiplier: int)
    requires
        0 <= amount_in,
        0 <= fee <= multiplier,
        0 < multiplier,
    ensures
        0 <= credited_in(amount_in, fee, multiplier) <= amount_in,
{
    assert(0 <= with_fee(amount_in, fee, multiplier) <= amount_in * multiplier) by (nonlinear_arith)
        requires
            0 <= amount_in,
            0 <= fee <= multiplier,
    {}
    lemma_div_is_ordered(with_fee(amount_in, fee, multiplier), amount_in * multiplier, multiplier);
    lemma_div_by_multiple(amount_in, multiplier);
    lemma_div_pos_is_pos(with_fee(amount_in, fee, multiplier), multiplier);
}

/// A withdrawal pays out of a reserve at most the burnt fraction of it:
/// rounding favours the pool, and burning no more than the supply never
/// pays out more than the reserve.
pub proof fn law_withdraw_at_most_pro_rata(reserve: int, liquid: int, total_supply: int)
    requires
        0 <= reserve,
        0 <= liquid,
        0 < total_supply,
    ensures
        0 <= payout(reserve, burn_share(liquid, total_supply)) <= reserve * liquid / total_supply,
        liquid <= total_supply ==> payout(reserve, burn_share(liquid, total_supply)) <= reserve,
{
    let e = REMOVE_LIQUIDITY_SCALE as int;
    let share = burn_share(liquid, total_supply);
    lemma_mul_nonnegative(liquid, e);
    lemma_quotient_times_divisor(liquid * e, total_supply);
    lemma_mul_nonnegative(reserve, share);
    lemma_quotient_times_divisor(reserve * share, e);
    let q = payout(reserve, share);
    assert(q * total_supply <= reserve * liquid) by (nonlinear_arith)
        requires
            share * total_supply <= liquid * e,
            q * e <= reserve * share,
            e > 0,
            0 <= reserve,
            0 <= share,
            0 <= q,
            0 < total_supply,
    {}
    lemma_le_quotient(q, reserve * liquid, total_supply);
    if liquid <= total_supply {
        lemma_mul_inequality(liquid, total_supply, reserve);
        lemma_mul_is_commutative(liquid, reserve);
        lemma_mul_is_commutative(total_supply, reserve);
        lemma_div_is_ordered(reserve * liquid, reserve * total_supply, total_supply);
        lemma_div_by_multiple(reserve, total_supply);
    }
}

/// The LP tokens minted for a deposit into a pool with both reserves nonzero
/// are at most the deposit's fraction of each reserve times the LP supply:
/// rounding favours the pool.
pub proof fn law_mint_at_most_pro_rata(amount0: int, amount1: int, reserve0: int, reserve1: int, total_supply: int)
    requires
        0 <= amount0,
        0 <= amount1,
        0 < reserve0,
        0 < reserve1,
        0 <= total_supply,
    ensures
        0 <= minted(deposit_share(amount0, amount1, reserve0, reserve1), total_supply),
        minted(deposit_share(amount0, amount1, reserve0, reserve1), total_supply) <= amount0 * effective_supply(total_supply) / reserve0,
        minted(deposit_share(amount0, amount1, reserve0, reserve1), total_supply) <= amount1 * effective_supply(total_supply) / reserve1,
{
    let s = ADD_LIQUIDITY_SCALE as int;
    let t = effective_supply(total_supply);
    let share = deposit_share(amount0, amount1, reserve0, reserve1);
    lemma_mul_nonnegative(amount0, s);
    lemma_mul_nonnegative(amount1, s);
    lemma_quotient_times_divisor(amount0 * s, reserve0);
    lemma_quotient_times_divisor(amount1 * s, reserve1);
    let p0 = amount0 * s / reserve0;
    let p1 = amount1 * s / reserve1;
    assert(0 <= share <= p0 && share <= p1);
    lemma_mul_nonnegative(share, t);
    lemma_quotient_times_divisor(share * t, s);
    let q = minted(share, total_supply);
    assert(q * reserve0 <= amount0 * t) by (nonlinear_arith)
        requires
            p0 * reserve0 <= amount0 * s,
            q * s <= share * t,
            share <= p0,
            0 <= share,
            0 <= q,
            t > 0,
            s > 0,
            reserve0 > 0,
    {}
    assert(q * reserve1 <= amount1 * t) by (nonlinear_arith)
        requires
            p1 * reserve1 <= amount1 * s,
            q * s <= share * t,
            share <= p1,
            0 <= share,
            0 <= q,
            t > 0,
            s > 0,
            reserve1 > 0,
    {}
    lemma_le_quotient(q, amount0 * t, reserve0);
    lemma_le_quotient(q, amount1 * t, reserve1);
}

/// A deposit into a pool with an empty reserve mints no LP tokens: it sends
/// only its transfers.
pub proof fn law_empty_pool_mints_nothing(
    storage: PairStorage,
    sender: Seq<char>,
    contract: Seq<char>,
    amount0: u128,
    amount1: u128,
    lp_info: Option<(u128, u128, u8)>,
)
    requires
        storage.reserves_of().0 == 0 || storage.reserves_of().1 == 0,
    ensures
        add_liquid_calls(storage, sender, contract, amount0, amount1, lp_info)
            == deposit_calls(storage.state_of(), sender, contract, amount0, amount1),
{
}

/// An accepted swap pays the sender exactly what `GetAmountsOut` quotes for the
/// same amount and path, changes only the reserves, and moves each reserve by
/// the credited input and the quoted output.
pub proof fn law_swap_pays_the_quote(
    old: PairStorage,
    new: PairStorage,
    r: Result<Response, ContractError>,
    sender: Seq<char>,
    contract: Seq<char>,
    amount_in: u128,
    path: Vec<String>,
    lp_info: Option<(u128, u128, u8)>,
)
    requires
        execute_post(old, new, r, sender, contract, ExecuteMsg::Swap { amount_in, path }, lp_info),
        r is Ok,
    ensures
        ({
            let pv = path_view(path@);
            let st = old.state_of();
            let out = quote(st, old.reserves_of(), amount_in, pv).1;
            let credit = credited_in(amount_in as int, st.fee as int, st.multiplier as int);
            let (r0, r1) = old.reserves_of();
            &&& r->Ok_0.messages_view()[1] == (pv[1], cw20_msg_json(Cw20CallView::Transfer { recipient: sender, amount: out as u128 }))
            &&& new.state == old.state
            &&& direction(pv, st.token0@, st.token1@) == Some(true) ==> new.reserves_of() == ((r0 + credit) as u128, (r1 - out) as u128)
            &&& direction(pv, st.token0@, st.token1@) == Some(false) ==> new.reserves_of() == ((r0 - out) as u128, (r1 + credit) as u128)
        }),
{
    let pv = path_view(path@);
    let out = quote(old.state_of(), old.reserves_of(), amount_in, pv).1;
    let calls = swap_calls(pv, sender, contract, amount_in, out as u128);
    assert(encoded(calls)[1] == (calls[1].0, cw20_msg_json(calls[1].1)));
}

/// A larger share of the pool never mints fewer LP tokens.
proof fn lemma_minted_monotone(share_a: int, share_b: int, total_supply: int)
    requires
        0 <= share_a <= share_b,
        0 <= total_supply,
    ensures
        minted(share_a, total_supply) <= minted(share_b, total_supply),
{
    let t = effective_supply(total_supply);
    lemma_mul_inequality(share_a, share_b, t);
    lemma_div_is_ordered(share_a * t, share_b * t, ADD_LIQUIDITY_SCALE as int);
}

/// Depositing no less of either token into the same pool, against the same
/// LP supply, never mints fewer LP tokens.
pub proof fn law_mint_monotone(
    amount0: int,
    amount1: int,
    more0: int,
    more1: int,
    reserve0: int,
    reserve1: int,
    total_supply: int,
)
    requires
        0 <= amount0 <= more0,
        0 <= amount1 <= more1,
        0 <= reserve0,
        0 <= reserve1,
        0 <= total_supply,
    ensures
        0 <= deposit_share(amount0, amount1, reserve0, reserve1) <= deposit_share(more0, more1, reserve0, reserve1),
        minted(deposit_share(amount0, amount1, reserve0, reserve1), total_supply)
            <= minted(deposit_share(more0, more1, reserve0, reserve1), total_supply),
{
    let s = ADD_LIQUIDITY_SCALE as int;
    if reserve0 != 0 && reserve1 != 0 {
        lemma_mul_inequality(amount0, more0, s);
        lemma_mul_inequality(amount1, more1, s);
        lemma_mul_nonnegative(amount0, s);
        lemma_mul_nonnegative(amount1, s);
        lemma_div_is_ordered(amount0 * s, more0 * s, reserve0);
        lemma_div_is_ordered(amount1 * s, more1 * s, reserve1);
        lemma_div_pos_is_pos(amount0 * s, reserve0);
        lemma_div_pos_is_pos(amount1 * s, reserve1);
    }
    lemma_minted_monotone(
        deposit_share(amount0, amount1, reserve0, reserve1),
        deposit_share(more0, more1, reserve0, reserve1),
        total_supply,
    );
}

/// An accepted withdrawal pays out of each token exactly what its reserve loses.
pub proof fn law_withdraw_pays_what_reserves_lose(
    old: PairStorage,
    new: PairStorage,
    r: Result<Response, ContractError>,
    sender: Seq<char>,
    liquid: u128,
    lp_info: Option<(u128, u128, u8)>,
)
    requires
        old.is_initialized(),
        remove_liquid_defined(old, liquid, lp_info),
        remove_liquid_post(old, new, r, sender, liquid, lp_info),
        r is Ok,
    ensures
        ({
            let st = old.state_of();
            let (r0, r1) = old.reserves_of();
            let (n0, n1) = new.reserves_of();
            &&& r->Ok_0.messages_view()[0] == (st.token0@, cw20_msg_json(Cw20CallView::Transfer { recipient: sender, amount: (r0 - n0) as u128 }))
            &&& r->Ok_0.messages_view()[1] == (st.token1@, cw20_msg_json(Cw20CallView::Transfer { recipient: sender, amount: (r1 - n1) as u128 }))
            &&& 0 <= r0 - n0
            &&& 0 <= r1 - n1
            &&& new.state == old.state
        }),
{
    let (t0, t1) = withdrawal(old, liquid, lp_info);
    let calls = withdraw_calls(old.state_of(), sender, liquid, t0 as u128, t1 as u128);
    let supply = lp_info_or_zero(lp_info).1 as int;
    let share = burn_share(liquid as int, supply);
    let (r0, r1) = old.reserves_of();
    lemma_mul_nonnegative(liquid as int, REMOVE_LIQUIDITY_SCALE as int);
    lemma_div_pos_is_pos(liquid as int * REMOVE_LIQUIDITY_SCALE as int, supply);
    lemma_mul_nonnegative(r0 as int, share);
    lemma_mul_nonnegative(r1 as int, share);
    lemma_div_pos_is_pos(r0 as int * share, REMOVE_LIQUIDITY_SCALE as int);
    lemma_div_pos_is_pos(r1 as int * share, REMOVE_LIQUIDITY_SCALE as int);
    assert(encoded(calls)[0] == (calls[0].0, cw20_msg_json(calls[0].1)));
    assert(encoded(calls)[1] == (calls[1].0, cw20_msg_json(calls[1].1)));
}

/// A swap triggered by a cw20 `Receive` from the path's first token is the swap
/// of the received amount that the token's sender would make directly, without
/// the pull of the input: the same refusal, the same reserves, and the same
/// output transfer.
pub proof fn law_direct_swap_is_swap_without_pull(
    old: PairStorage,
    direct_new: PairStorage,
    direct_r: Result<Response, ContractError>,
    swap_new: PairStorage,
    swap_r: Result<Response, ContractError>,
    token: Seq<char>,
    contract: Seq<char>,
    message: Cw20ReceiveMsg,
    lp_info: Option<(u128, u128, u8)>,
)
    requires
        message.msg is Some,
        sent_by_input_token(token, path_view(message.msg->0.path@)),
        direct_swap_post(old, direct_new, direct_r, token, message),
        execute_post(
            old,
            swap_new,
            swap_r,
            message.sender@,
            contract,
            ExecuteMsg::Swap { amount_in: message.amount, path: message.msg->0.path },
            lp_info,
        ),
    ensures
        direct_r is Ok <==> swap_r is Ok,
        direct_new == swap_new,
        direct_r matches Err(e) ==> e is InvalidPath,
        swap_r matches Err(e) ==> e is InvalidPath,
        direct_r is Ok ==> direct_r->Ok_0.messages_view() == swap_r->Ok_0.messages_view().drop_first(),
{
    let path = path_view(message.msg->0.path@);
    let out = quote(old.state_of(), old.reserves_of(), message.amount, path).1;
    let d = direct_swap_calls(path, message.sender@, out as u128);
    let s = swap_calls(path, message.sender@, contract, message.amount, out as u128);
    assert(encoded(d) =~= encoded(s).drop_first());
}

/// An accepted execute message keeps the configuration: the tokens, the fee and
/// its denominator always, the LP token unless the message sets it, and the owner.
pub proof fn law_execute_keeps_configuration(
    old: PairStorage,
    new: PairStorage,
    r: Result<Response, ContractError>,
    sender: Seq<char>,
    contract: Seq<char>,
    msg: ExecuteMsg,
    lp_info: Option<(u128, u128, u8)>,
)
    requires
        old.state is Some,
        execute_post(old, new, r, sender, contract, msg, lp_info),
    ensures
        new.state is Some,
        new.owner == old.owner,
        new.state_of().token0 == old.state_of().token0,
        new.state_of().token1 == old.state_of().token1,
        new.state_of().fee == old.state_of().fee,
        new.state_of().multiplier == old.state_of().multiplier,
        !(msg is SetLpToken) ==> new.state == old.state,
{
}

/// `execute` does what the handler of each message does.
pub proof fn law_execute_dispatches(
    old: PairStorage,
    new: PairStorage,
    r: Result<Response, ContractError>,
    sender: Seq<char>,
    contract: Seq<char>,
    msg: ExecuteMsg,
    lp_info: Option<(u128, u128, u8)>,
)
    requires
        execute_post(old, new, r, sender, contract, msg, lp_info),
    ensures
        match msg {
            ExecuteMsg::SetLpToken { lp_token } => set_lp_token_post(old, new, r, sender, lp_token),
            ExecuteMsg::AddLiquid { amount0, amount1 } => add_liquid_post(old, new, r, sender, contract, amount0, amount1, lp_info),
            ExecuteMsg::RemoveLiquid { liquid } => remove_liquid_post(old, new, r, sender, liquid, lp_info),
            ExecuteMsg::Receive(message) => direct_swap_post(old, new, r, sender, message),
            ExecuteMsg::Swap { amount_in, path } => {
                let pv = path_view(path@);
                let out = quote(old.state_of(), old.reserves_of(), amount_in, pv).1;
                swap_post(old, new, r, amount_in, pv, swap_calls(pv, sender, contract, amount_in, out as u128))
            },
        },
{
}

/// A deposit pulls from the sender exactly what the reserves gain: each
/// nonzero amount is asked of its token by a transfer from the sender to the
/// pair, whatever the other amount, and each reserve grows by that amount.
pub proof fn law_deposit_pulls_what_reserves_gain(
    old: PairStorage,
    new: PairStorage,
    r: Result<Response, ContractError>,
    sender: Seq<char>,
    contract: Seq<char>,
    amount0: u128,
    amount1: u128,
    lp_info: Option<(u128, u128, u8)>,
)
    requires
        add_liquid_defined(old, amount0, amount1, lp_info),
        add_liquid_post(old, new, r, sender, contract, amount0, amount1, lp_info),
    ensures
        r is Ok,
        new.state == old.state,
        new.reserves_of().0 == old.reserves_of().0 + amount0,
        new.reserves_of().1 == old.reserves_of().1 + amount1,
        amount0 != 0 ==> r->Ok_0.messages_view().contains((
            old.state_of().token0@,
            cw20_msg_json(Cw20CallView::TransferFrom { owner: sender, recipient: contract, amount: amount0 }),
        )),
        amount1 != 0 ==> r->Ok_0.messages_view().contains((
            old.state_of().token1@,
            cw20_msg_json(Cw20CallView::TransferFrom { owner: sender, recipient: contract, amount: amount1 }),
        )),
{
    let st = old.state_of();
    let transfers = deposit_calls(st, sender, contract, amount0, amount1);
    let calls = add_liquid_calls(old, sender, contract, amount0, amount1, lp_info);
    let msgs = encoded(calls);
    let c0: PlannedCall = (st.token0@, Cw20CallView::TransferFrom { owner: sender, recipient: contract, amount: amount0 });
    let c1: PlannedCall = (st.token1@, Cw20CallView::TransferFrom { owner: sender, recipient: contract, amount: amount1 });
    assert(forall|i: int| 0 <= i < transfers.len() ==> calls[i] == transfers[i]);
    if amount0 != 0 {
        assert(transfers[0] == c0);
        assert(msgs[0] == (c0.0, cw20_msg_json(c0.1)));
    }
    if amount1 != 0 {
        let k = transfers.len() - 1;
        assert(transfers[k] == c1);
        assert(msgs[k] == (c1.0, cw20_msg_json(c1.1)));
    }
}

/// Whether `path` leads from one token of the pair to the other.
pub open spec fn crosses_pair(path: Seq<Seq<char>>, token0: Seq<char>, token1: Seq<char>) -> bool {
    &&& path.len() >= 2
    &&& ((path[0] == token0 && path[1] == token1) || (path[0] == token1 && path[1] == token0))
}

/// A swap is accepted exactly when its path leads from one token of the pair
/// to the other; any other path is refused as invalid and changes nothing.
/// Swapping from token0 never shrinks reserve0 nor grows reserve1, and from
/// token1 the other way round.
pub proof fn law_swap_only_across_pair(
    old: PairStorage,
    new: PairStorage,
    r: Result<Response, ContractError>,
    amount_in: u128,
    path: Seq<Seq<char>>,
    calls: Seq<PlannedCall>,
)
    requires
        old.is_initialized(),
        swap_defined(old.state_of(), old.reserves_of(), amount_in, path),
        swap_post(old, new, r, amount_in, path, calls),
    ensures
        ({
            let t0 = old.state_of().token0@;
            let t1 = old.state_of().token1@;
            let (r0, r1) = old.reserves_of();
            let (n0, n1) = new.reserves_of();
            &&& r is Ok <==> crosses_pair(path, t0, t1)
            &&& !crosses_pair(path, t0, t1) ==> new == old && (r matches Err(e) && e is InvalidPath)
            &&& new.state == old.state
            &&& path[0] == t0 && path[1] == t1 ==> n0 >= r0 && n1 <= r1
            &&& !(path[0] == t0 && path[1] == t1) && path[0] == t1 && path[1] == t0 ==> n0 <= r0 && n1 >= r1
        }),
{
    let st = old.state_of();
    law_quote_within_reserve(st, old.reserves_of(), amount_in, path);
    lemma_mul_nonnegative(amount_in as int, (st.multiplier - st.fee) as int);
    lemma_div_pos_is_pos(with_fee(amount_in as int, st.fee as int, st.multiplier as int), st.multiplier as int);
}

/// A quote pays out only along a path that leads from one token of the pair
/// to the other; along any other path it is `(0, 0)`.
pub proof fn law_quote_only_across_pair(state: State, reserves: (u128, u128), amount_in: u128, path: Seq<Seq<char>>)
    requires
        quote_defined(state, reserves, amount_in, path),
    ensures
        crosses_pair(path, state.token0@, state.token1@) ==> quote(state, reserves, amount_in, path).0 == amount_in,
        !crosses_pair(path, state.token0@, state.token1@) ==> quote(state, reserves, amount_in, path) == (0int, 0int),
{
}

/// The share a deposit buys in a pool with both reserves nonzero is the
/// largest scaled share that both amounts pay for: it fits within each side,
/// and one more unit of share would not fit within one of them. Deposits larger
/// than the pool buy more than the whole pool.
pub proof fn law_deposit_share_is_largest_fitting(amount0: int, amount1: int, reserve0: int, reserve1: int)
    requires
        0 <= amount0,
        0 <= amount1,
        0 < reserve0,
        0 < reserve1,
    ensures
        ({
            let s = deposit_share(amount0, amount1, reserve0, reserve1);
            let scale = ADD_LIQUIDITY_SCALE as int;
            &&& 0 <= s
            &&& s * reserve0 <= amount0 * scale
            &&& s * reserve1 <= amount1 * scale
            &&& (s + 1) * reserve0 > amount0 * scale || (s + 1) * reserve1 > amount1 * scale
        }),
{
    let scale = ADD_LIQUIDITY_SCALE as int;
    lemma_mul_nonnegative(amount0, scale);
    lemma_mul_nonnegative(amount1, scale);
    let n0 = amount0 * scale;
    let n1 = amount1 * scale;
    lemma_fundamental_div_mod(n0, reserve0);
    lemma_fundamental_div_mod(n1, reserve1);
    lemma_div_pos_is_pos(n0, reserve0);
    lemma_div_pos_is_pos(n1, reserve1);
    let p0 = n0 / reserve0;
    let p1 = n1 / reserve1;
    assert(p0 * reserve0 <= n0 < (p0 + 1) * reserve0) by (nonlinear_arith)
        requires
            n0 == reserve0 * p0 + n0 % reserve0,
            0 <= n0 % reserve0 < reserve0,
    {}
    assert(p1 * reserve1 <= n1 < (p1 + 1) * reserve1) by (nonlinear_arith)
        requires
            n1 == reserve1 * p1 + n1 % reserve1,
            0 <= n1 % reserve1 < reserve1,
    {}
    let s = deposit_share(amount0, amount1, reserve0, reserve1);
    if p0 < p1 {
        assert(s == p0);
        assert(s * reserve1 <= n1) by (nonlinear_arith)
            requires
                s <= p1,
                p1 * reserve1 <= n1,
                0 < reserve1,
        {}
    } else {
        assert(s == p1);
        assert(s * reserve0 <= n0) by (nonlinear_arith)
            requires
                s <= p0,
                p0 * reserve0 <= n0,
                0 < reserve0,
        {}
    }
}

/// An accepted withdrawal sends three messages, the last of which burns from
/// the sender exactly the LP tokens the payouts were computed for.
pub proof fn law_withdraw_burns_the_liquid(
    old: PairStorage,
    new: PairStorage,
    r: Result<Response, ContractError>,
    sender: Seq<char>,
    liquid: u128,
    lp_info: Option<(u128, u128, u8)>,
)
    requires
        remove_liquid_post(old, new, r, sender, liquid, lp_info),
        r is Ok,
    ensures
        r->Ok_0.messages_view().len() == 3,
        r->Ok_0.messages_view()[2] == (
            old.state_of().lp_token@,
            cw20_msg_json(Cw20CallView::BurnFrom { owner: sender, amount: liquid }),
        ),
{
    let (t0, t1) = withdrawal(old, liquid, lp_info);
    let calls = withdraw_calls(old.state_of(), sender, liquid, t0 as u128, t1 as u128);
    assert(encoded(calls)[2] == (calls[2].0, cw20_msg_json(calls[2].1)));
}

/// The quotient `n / d` is the largest `q` with `q * d <= n`.
proof fn lemma_floor(n: int, d: int)
    requires
        0 <= n,
        0 < d,
    ensures
        0 <= n / d,
        (n / d) * d <= n,
        n < (n / d + 1) * d,
{
    lemma_fundamental_div_mod(n, d);
    lemma_div_pos_is_pos(n, d);
    assert((n / d) * d <= n < (n / d + 1) * d) by (nonlinear_arith)
        requires
            n == d * (n / d) + n % d,
            0 <= n % d < d,
    {}
}

/// The quote along a path across the pair is the constant-product output
/// rounded down: with `x` the input scaled by the part of the multiplier that
/// is not fee, and `d` the reserve paid into times the multiplier plus `x`,
/// the output `q` is the largest with `q * d <= x * reserve_out`.
pub proof fn law_quote_is_rounded_down_product(state: State, reserves: (u128, u128), amount_in: u128, path: Seq<Seq<char>>)
    requires
        quote_defined(state, reserves, amount_in, path),
        crosses_pair(path, state.token0@, state.token1@),
    ensures
        ({
            let forward = path[0] == state.token0@ && path[1] == state.token1@;
            let r_in = if forward { reserves.0 as int } else { reserves.1 as int };
            let r_out = if forward { reserves.1 as int } else { reserves.0 as int };
            let x = amount_in * (state.multiplier - state.fee);
            let d = r_in * state.multiplier + x;
            let q = quote(state, reserves, amount_in, path).1;
            &&& q * d <= x * r_out
            &&& x * r_out < (q + 1) * d
        }),
{
    let forward = path[0] == state.token0@ && path[1] == state.token1@;
    let r_in = if forward { reserves.0 as int } else { reserves.1 as int };
    let r_out = if forward { reserves.1 as int } else { reserves.0 as int };
    let x = amount_in * (state.multiplier - state.fee);
    lemma_mul_nonnegative(amount_in as int, (state.multiplier - state.fee) as int);
    lemma_mul_nonnegative(x, r_out);
    lemma_mul_nonnegative(r_in, state.multiplier as int);
    lemma_floor(x * r_out, r_in * state.multiplier + x);
}

/// An accepted swap credits the reserve paid into with the fee-reduced input
/// rounded down (the largest `c` with `c * multiplier` at most the input times
/// the part of the multiplier that is not fee), and debits the other reserve
/// by the quoted output.
pub proof fn law_swap_settles_reserves(
    old: PairStorage,
    new: PairStorage,
    r: Result<Response, ContractError>,
    amount_in: u128,
    path: Seq<Seq<char>>,
    calls: Seq<PlannedCall>,
)
    requires
        old.is_initialized(),
        swap_defined(old.state_of(), old.reserves_of(), amount_in, path),
        swap_post(old, new, r, amount_in, path, calls),
        r is Ok,
    ensures
        ({
            let st = old.state_of();
            let forward = path[0] == st.token0@ && path[1] == st.token1@;
            let (r0, r1) = old.reserves_of();
            let (n0, n1) = new.reserves_of();
            let credit = if forward { n0 - r0 } else { n1 - r1 };
            let debit = if forward { r1 - n1 } else { r0 - n0 };
            let x = amount_in * (st.multiplier - st.fee);
            &&& debit == quote(st, old.reserves_of(), amount_in, path).1
            &&& credit * st.multiplier <= x
            &&& x < (credit + 1) * st.multiplier
        }),
{
    let st = old.state_of();
    law_quote_within_reserve(st, old.reserves_of(), amount_in, path);
    lemma_mul_nonnegative(amount_in as int, (st.multiplier - st.fee) as int);
    lemma_floor(amount_in * (st.multiplier - st.fee), st.multiplier as int);
}

/// A deposit that buys a nonzero share `s` of the pool mints for the sender
/// the share of the LP supply (taken as `INITIAL_LP_SUPPLY` while the LP token
/// reports none) that `s` stands for, rounded down: the mint message, after the
/// transfers, carries the largest `m` with `m * ADD_LIQUIDITY_SCALE <= s * supply`. A deposit that buys no share
/// sends its transfers only.
pub proof fn law_deposit_mints_share_of_supply(
    old: PairStorage,
    new: PairStorage,
    r: Result<Response, ContractError>,
    sender: Seq<char>,
    contract: Seq<char>,
    amount0: u128,
    amount1: u128,
    lp_info: Option<(u128, u128, u8)>,
)
    requires
        add_liquid_defined(old, amount0, amount1, lp_info),
        add_liquid_post(old, new, r, sender, contract, amount0, amount1, lp_info),
    ensures
        ({
            let (r0, r1) = old.reserves_of();
            let s = deposit_share(amount0 as int, amount1 as int, r0 as int, r1 as int);
            let reported = lp_info_or_zero(lp_info).1 as int;
            let supply = if reported == 0 { INITIAL_LP_SUPPLY as int } else { reported };
            let scale = ADD_LIQUIDITY_SCALE as int;
            let transfers = (if amount0 != 0 { 1int } else { 0int }) + (if amount1 != 0 { 1int } else { 0int });
            let m = minted(s, reported);
            &&& s == 0 ==> r->Ok_0.messages_view().len() == transfers
            &&& s != 0 ==> {
                &&& r->Ok_0.messages_view().len() == transfers + 1
                &&& r->Ok_0.messages_view()[transfers] == (
                    old.state_of().lp_token@,
                    cw20_msg_json(Cw20CallView::Mint { recipient: sender, amount: m as u128 }),
                )
                &&& 0 <= m
                &&& m * scale <= s * supply
                &&& s * supply < (m + 1) * scale
            }
        }),
{
    let (r0, r1) = old.reserves_of();
    let s = deposit_share(amount0 as int, amount1 as int, r0 as int, r1 as int);
    let supply = effective_supply(lp_info_or_zero(lp_info).1 as int);
    let st = old.state_of();
    let transfers = deposit_calls(st, sender, contract, amount0, amount1);
    let calls = add_liquid_calls(old, sender, contract, amount0, amount1, lp_info);
    if s != 0 {
        law_deposit_share_nonnegative(amount0 as int, amount1 as int, r0 as int, r1 as int);
        lemma_mul_nonnegative(s, supply);
        lemma_floor(s * supply, ADD_LIQUIDITY_SCALE as int);
        let m = minted(s, lp_info_or_zero(lp_info).1 as int) as u128;
        let k = transfers.len() as int;
        assert(calls[k] == (st.lp_token@, Cw20CallView::Mint { recipient: sender, amount: m }));
        assert(encoded(calls)[k] == (calls[k].0, cw20_msg_json(calls[k].1)));
    }
}

/// A deposit share is never negative.
proof fn law_deposit_share_nonnegative(amount0: int, amount1: int, reserve0: int, reserve1: int)
    requires
        0 <= amount0,
        0 <= amount1,
        0 <= reserve0,
        0 <= reserve1,
    ensures
        0 <= deposit_share(amount0, amount1, reserve0, reserve1),
{
    if reserve0 != 0 && reserve1 != 0 {
        lemma_mul_nonnegative(amount0, ADD_LIQUIDITY_SCALE as int);
        lemma_mul_nonnegative(amount1, ADD_LIQUIDITY_SCALE as int);
        lemma_div_pos_is_pos(amount0 * ADD_LIQUIDITY_SCALE as int, reserve0);
        lemma_div_pos_is_pos(amount1 * ADD_LIQUIDITY_SCALE as int, reserve1);
    }
}

/// An accepted withdrawal pays out of each reserve the burnt fraction of the
/// supply rounded down twice: with `p` the largest scaled share such that
/// `p * supply <= liquid * REMOVE_LIQUIDITY_SCALE`, each payout `t` is the
/// largest with `t * REMOVE_LIQUIDITY_SCALE <= reserve * p`.
pub proof fn law_withdraw_pays_rounded_share(
    old: PairStorage,
    new: PairStorage,
    r: Result<Response, ContractError>,
    sender: Seq<char>,
    liquid: u128,
    lp_info: Option<(u128, u128, u8)>,
)
    requires
        remove_liquid_defined(old, liquid, lp_info),
        remove_liquid_post(old, new, r, sender, liquid, lp_info),
        r is Ok,
    ensures
        ({
            let supply = lp_info_or_zero(lp_info).1 as int;
            let e = REMOVE_LIQUIDITY_SCALE as int;
            let (r0, r1) = old.reserves_of();
            let (n0, n1) = new.reserves_of();
            let t0 = r0 - n0;
            let t1 = r1 - n1;
            let p = burn_share(liquid as int, supply);
            &&& 0 <= p
            &&& p * supply <= liquid * e
            &&& liquid * e < (p + 1) * supply
            &&& t0 * e <= r0 * p
            &&& r0 * p < (t0 + 1) * e
            &&& t1 * e <= r1 * p
            &&& r1 * p < (t1 + 1) * e
        }),
{
    let supply = lp_info_or_zero(lp_info).1 as int;
    let e = REMOVE_LIQUIDITY_SCALE as int;
    let (r0, r1) = old.reserves_of();
    lemma_mul_nonnegative(liquid as int, e);
    lemma_floor(liquid * e, supply);
    let p = burn_share(liquid as int, supply);
    lemma_mul_nonnegative(r0 as int, p);
    lemma_mul_nonnegative(r1 as int, p);
    lemma_floor(r0 * p, e);
    lemma_floor(r1 * p, e);
    assert(p * supply <= liquid * e);
}

} // verus!
