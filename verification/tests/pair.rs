use sca_pair::amm::{
    amount_in_with_fee, amount_out, liquidity_share, lp_mint_amount, withdraw_amounts, FEE_MULTIPLIER,
    INITIAL_LP_SUPPLY,
};
use sca_pair::contract::{
    execute, instantiate, migrate, query, query_amounts_out, query_lp_token_info, query_reserves, try_add_liquid,
    try_direct_swap, try_remove_liquid, try_set_lp_tokens, try_swap,
};
use sca_pair::error::ContractError;
use sca_pair::guard::{execute_is_defined, needs_lp_info, query_is_defined};
use sca_pair::msg::{
    Cw20ReceiveMsg, Env, ExecuteMsg, InstantiateMsg, MessageInfo, MigrateMsg, QueryMsg, QueryResponse,
    ReserveResponse, SwapMsg,
};
use sca_pair::response::{Attribute, Response, WasmMsg};
use sca_pair::router;
use sca_pair::state::{
    get_fee, get_lp_token, get_reserves, get_state, get_tokens, set_lp_token, set_reserves, PairStorage,
    Reserve, State,
};

fn info(sender: &str) -> MessageInfo {
    MessageInfo { sender: sender.to_string() }
}

fn env() -> Env {
    Env { contract_address: "pair".to_string() }
}

fn path(a: &str, b: &str) -> Vec<String> {
    vec![a.to_string(), b.to_string()]
}

/// A pair of tokA and tokB with a fee of 3 per 1000, the LP token "lp" and the given reserves.
fn pool(reserve0: u128, reserve1: u128) -> PairStorage {
    let mut storage = PairStorage::new();
    instantiate(
        &mut storage,
        &info("creator"),
        InstantiateMsg { token0: "tokA".to_string(), token1: "tokB".to_string(), fee: 3 },
    );
    try_set_lp_tokens(&mut storage, &info("creator"), "lp".to_string()).unwrap();
    set_reserves(&mut storage, reserve0, reserve1);
    storage
}

fn json(s: &str) -> Vec<u8> {
    s.as_bytes().to_vec()
}

fn wasm(contract: &str, body: &str) -> WasmMsg {
    WasmMsg { contract_addr: contract.to_string(), msg: json(body) }
}

fn attrs(pairs: &[(&str, &str)]) -> Vec<Attribute> {
    pairs.iter().map(|(k, v)| Attribute { key: k.to_string(), value: v.to_string() }).collect()
}

#[test]
fn instantiate_stores_configuration_and_empty_reserves() {
    let mut storage = PairStorage::new();
    let resp = instantiate(
        &mut storage,
        &info("creator"),
        InstantiateMsg { token0: "tokA".to_string(), token1: "tokB".to_string(), fee: 3 },
    );
    assert_eq!(
        get_state(&storage),
        State {
            lp_token: "not setted".to_string(),
            token0: "tokA".to_string(),
            token1: "tokB".to_string(),
            fee: 3,
            multiplier: 1000,
        }
    );
    assert_eq!(get_reserves(&storage), (0, 0));
    assert_eq!(get_fee(&storage), (3, FEE_MULTIPLIER));
    assert!(resp.messages.is_empty());
    assert_eq!(resp.attributes, attrs(&[("method", "instantiate"), ("owner", "creator")]));
    assert_eq!(storage.owner, Some("creator".to_string()));
}

#[test]
fn migrate_answers_empty_response() {
    let resp = migrate(MigrateMsg {});
    assert_eq!(resp, Response { messages: vec![], attributes: vec![] });
}

#[test]
fn set_lp_token_is_read_back() {
    let mut storage = pool(10, 20);
    let resp = try_set_lp_tokens(&mut storage, &info("creator"), "lp2".to_string()).unwrap();
    assert_eq!(get_lp_token(&storage), "lp2");
    assert_eq!(get_tokens(&storage), ("tokA".to_string(), "tokB".to_string()));
    assert_eq!(get_reserves(&storage), (10, 20));
    assert_eq!(resp.attributes, attrs(&[("method", "set_lptoken")]));
    set_lp_token(&mut storage, "lp3".to_string());
    assert_eq!(get_lp_token(&storage), "lp3");
}

#[test]
fn set_lp_token_refuses_anyone_but_owner() {
    let mut storage = pool(10, 20);
    let before = storage.clone();
    let r = try_set_lp_tokens(&mut storage, &info("mallory"), "evil".to_string());
    assert!(matches!(r, Err(ContractError::Unauthorized)));
    assert_eq!(storage, before);
    let r = execute(&mut storage, &env(), &info("mallory"), ExecuteMsg::SetLpToken { lp_token: "evil".to_string() }, None);
    assert!(matches!(r, Err(ContractError::Unauthorized)));
    assert_eq!(get_lp_token(&storage), "lp");
}

#[test]
fn reserves_are_read_back() {
    let mut storage = PairStorage::new();
    set_reserves(&mut storage, 7, 9);
    assert_eq!(get_reserves(&storage), (7, 9));
    assert_eq!(storage.reserves, Some(Reserve { reserve0: 7, reserve1: 9 }));
    assert_eq!(query_reserves(&storage), ReserveResponse { reserve0: 7, reserve1: 9 });
}

#[test]
fn arithmetic_exact_values() {
    assert_eq!(amount_in_with_fee(100, 3, 1000), 99_700);
    assert_eq!(amount_out(99_700, 1000, 2000, 1000), 181);
    assert_eq!(amount_out(99_700, 2000, 1000, 1000), 47);
    assert_eq!(amount_out(0, 1000, 2000, 1000), 0);
    assert_eq!(amount_out(5, 0, 2000, 1000), 2000);
    assert_eq!(liquidity_share(100, 300, 1000, 2000), 100_000);
    assert_eq!(liquidity_share(300, 100, 1000, 2000), 50_000);
    assert_eq!(liquidity_share(100, 300, 0, 2000), 0);
    assert_eq!(lp_mint_amount(100_000, 5000), 500);
    assert_eq!(lp_mint_amount(100_000, 0), 100_000 * INITIAL_LP_SUPPLY / 1_000_000);
    assert_eq!(withdraw_amounts(1000, 2000, 500, 5000), (100, 200));
    assert_eq!(withdraw_amounts(1000, 2000, 5000, 5000), (1000, 2000));
}

#[test]
fn quote_forward_backward_and_foreign_path() {
    let storage = pool(1000, 2000);
    assert_eq!(query_amounts_out(&storage, 100, path("tokA", "tokB")), (100, 181));
    assert_eq!(query_amounts_out(&storage, 100, path("tokB", "tokA")), (100, 47));
    assert_eq!(query_amounts_out(&storage, 100, path("tokC", "tokB")), (0, 0));
    assert_eq!(query_amounts_out(&storage, 100, vec!["tokC".to_string()]), (0, 0));
    assert_eq!(query_amounts_out(&storage, 0, path("tokA", "tokB")), (0, 0));
}

#[test]
fn quote_is_monotone_and_within_reserve() {
    let storage = pool(1000, 2000);
    let mut last = 0;
    for amount in [0u128, 1, 10, 100, 1000, 10_000, 1_000_000, 1_000_000_000] {
        let (_, out) = query_amounts_out(&storage, amount, path("tokA", "tokB"));
        assert!(out >= last);
        assert!(out <= 2000);
        last = out;
    }
}

#[test]
fn swap_forward_pays_quote_and_settles_reserves() {
    let mut storage = pool(1000, 2000);
    let resp = try_swap(&mut storage, &info("alice"), &env(), 100, path("tokA", "tokB")).unwrap();
    assert_eq!(
        resp.messages,
        vec![
            wasm("tokA", r#"{"transfer_from":{"owner":"alice","recipient":"pair","amount":"100"}}"#),
            wasm("tokB", r#"{"transfer":{"recipient":"alice","amount":"181"}}"#),
        ]
    );
    assert_eq!(resp.attributes, attrs(&[("Method", "swap")]));
    assert_eq!(get_reserves(&storage), (1000 + 99, 2000 - 181));
    assert_eq!(get_lp_token(&storage), "lp");
}

#[test]
fn swap_backward_settles_reserves() {
    let mut storage = pool(1000, 2000);
    let resp = try_swap(&mut storage, &info("bob"), &env(), 100, path("tokB", "tokA")).unwrap();
    assert_eq!(resp.messages[1], wasm("tokA", r#"{"transfer":{"recipient":"bob","amount":"47"}}"#));
    assert_eq!(get_reserves(&storage), (1000 - 47, 2000 + 99));
}

#[test]
fn swap_with_invalid_path_is_refused_and_keeps_storage() {
    let mut storage = pool(1000, 2000);
    let before = storage.clone();
    let r = try_swap(&mut storage, &info("alice"), &env(), 100, path("tokA", "tokC"));
    assert!(matches!(r, Err(ContractError::InvalidPath)));
    assert_eq!(storage, before);
}

#[test]
fn direct_swap_pays_sender_of_tokens() {
    let mut storage = pool(1000, 2000);
    let message = Cw20ReceiveMsg {
        sender: "carol".to_string(),
        amount: 100,
        msg: Some(SwapMsg { amount_in: 5, path: path("tokA", "tokB") }),
    };
    let resp = try_direct_swap(&mut storage, &info("tokA"), message).unwrap();
    assert_eq!(resp.messages, vec![wasm("tokB", r#"{"transfer":{"recipient":"carol","amount":"181"}}"#)]);
    assert_eq!(resp.attributes, attrs(&[("Method", "swap")]));
    assert_eq!(get_reserves(&storage), (1099, 1819));
}

#[test]
fn direct_swap_refuses_bad_payload_and_bad_path() {
    let mut storage = pool(1000, 2000);
    let before = storage.clone();
    let bad = Cw20ReceiveMsg { sender: "carol".to_string(), amount: 100, msg: None };
    assert!(matches!(try_direct_swap(&mut storage, &info("tokA"), bad), Err(ContractError::InvalidSwapMsg)));
    let wrong = Cw20ReceiveMsg {
        sender: "carol".to_string(),
        amount: 100,
        msg: Some(SwapMsg { amount_in: 100, path: path("tokB", "tokB") }),
    };
    assert!(matches!(try_direct_swap(&mut storage, &info("tokB"), wrong), Err(ContractError::InvalidPath)));
    assert_eq!(storage, before);
}

#[test]
fn direct_swap_refuses_funds_from_another_token() {
    let mut storage = pool(1000, 2000);
    let before = storage.clone();
    let message = Cw20ReceiveMsg {
        sender: "carol".to_string(),
        amount: 100,
        msg: Some(SwapMsg { amount_in: 100, path: path("tokA", "tokB") }),
    };
    assert!(matches!(try_direct_swap(&mut storage, &info("tokB"), message.clone()), Err(ContractError::InvalidToken)));
    assert!(matches!(try_direct_swap(&mut storage, &info("carol"), message), Err(ContractError::InvalidToken)));
    let empty = Cw20ReceiveMsg { sender: "carol".to_string(), amount: 100, msg: Some(SwapMsg { amount_in: 1, path: vec![] }) };
    assert!(matches!(try_direct_swap(&mut storage, &info("tokA"), empty), Err(ContractError::InvalidToken)));
    assert_eq!(storage, before);
}

#[test]
fn direct_swap_matches_swap_without_pull() {
    let mut direct = pool(1000, 2000);
    let mut swapped = pool(1000, 2000);
    let message = Cw20ReceiveMsg {
        sender: "carol".to_string(),
        amount: 250,
        msg: Some(SwapMsg { amount_in: 7, path: path("tokB", "tokA") }),
    };
    let d = try_direct_swap(&mut direct, &info("tokB"), message).unwrap();
    let s = try_swap(&mut swapped, &info("carol"), &env(), 250, path("tokB", "tokA")).unwrap();
    assert_eq!(d.messages, s.messages[1..].to_vec());
    assert_eq!(direct, swapped);
}

#[test]
fn add_liquidity_mints_smaller_share() {
    let mut storage = pool(1000, 2000);
    let resp = try_add_liquid(&mut storage, &info("dave"), &env(), 100, 300, Some((0, 5000, 6))).unwrap();
    assert_eq!(
        resp.messages,
        vec![
            wasm("tokA", r#"{"transfer_from":{"owner":"dave","recipient":"pair","amount":"100"}}"#),
            wasm("tokB", r#"{"transfer_from":{"owner":"dave","recipient":"pair","amount":"300"}}"#),
            wasm("lp", r#"{"mint":{"recipient":"dave","amount":"500"}}"#),
        ]
    );
    assert_eq!(resp.attributes, attrs(&[("Method", "add_liquidity")]));
    assert_eq!(get_reserves(&storage), (1100, 2300));
}

#[test]
fn add_liquidity_without_supply_mints_against_initial_supply() {
    let mut storage = pool(1000, 2000);
    let resp = try_add_liquid(&mut storage, &info("dave"), &env(), 100, 300, None).unwrap();
    assert_eq!(resp.messages[2], wasm("lp", r#"{"mint":{"recipient":"dave","amount":"100000"}}"#));
}

#[test]
fn add_liquidity_to_empty_pool_mints_nothing() {
    let mut storage = pool(0, 0);
    let resp = try_add_liquid(&mut storage, &info("erin"), &env(), 100, 0, Some((0, 5000, 6))).unwrap();
    assert_eq!(
        resp.messages,
        vec![wasm("tokA", r#"{"transfer_from":{"owner":"erin","recipient":"pair","amount":"100"}}"#)]
    );
    assert_eq!(get_reserves(&storage), (100, 0));
}

#[test]
fn remove_liquidity_pays_each_token_its_share() {
    let mut storage = pool(1000, 2000);
    let resp = try_remove_liquid(&mut storage, &info("frank"), 500, Some((500, 5000, 6))).unwrap();
    assert_eq!(
        resp.messages,
        vec![
            wasm("tokA", r#"{"transfer":{"recipient":"frank","amount":"100"}}"#),
            wasm("tokB", r#"{"transfer":{"recipient":"frank","amount":"200"}}"#),
            wasm("lp", r#"{"burn_from":{"owner":"frank","amount":"500"}}"#),
        ]
    );
    assert_eq!(resp.attributes, attrs(&[("Method", "remove_liquidity")]));
    assert_eq!(get_reserves(&storage), (900, 1800));
}

#[test]
fn remove_liquidity_worked_example() {
    let mut storage = pool(1000, 2000);
    let resp = try_remove_liquid(&mut storage, &info("alice"), 10, Some((10, 100, 6))).unwrap();
    assert_eq!(
        resp.messages,
        vec![
            wasm("tokA", r#"{"transfer":{"recipient":"alice","amount":"100"}}"#),
            wasm("tokB", r#"{"transfer":{"recipient":"alice","amount":"200"}}"#),
            wasm("lp", r#"{"burn_from":{"owner":"alice","amount":"10"}}"#),
        ]
    );
    assert_eq!(get_reserves(&storage), (900, 1800));
}

#[test]
fn remove_liquidity_without_supply_is_refused() {
    let mut storage = pool(1000, 2000);
    let before = storage.clone();
    assert!(matches!(try_remove_liquid(&mut storage, &info("alice"), 10, None), Err(ContractError::ZeroLpSupply)));
    assert!(matches!(
        try_remove_liquid(&mut storage, &info("alice"), 10, Some((10, 0, 6))),
        Err(ContractError::ZeroLpSupply)
    ));
    assert_eq!(storage, before);
}

#[test]
fn remove_all_liquidity_empties_pool() {
    let mut storage = pool(1000, 2000);
    try_remove_liquid(&mut storage, &info("frank"), 5000, Some((5000, 5000, 6))).unwrap();
    assert_eq!(get_reserves(&storage), (0, 0));
}

#[test]
fn lp_token_info_falls_back_to_zero() {
    assert_eq!(query_lp_token_info(Some((1, 2, 3))), (1, 2, 3));
    assert_eq!(query_lp_token_info(None), (0, 0, 0));
}

#[test]
fn execute_dispatches_each_message() {
    let mut storage = pool(1000, 2000);
    let r = execute(&mut storage, &env(), &info("alice"), ExecuteMsg::Swap { amount_in: 100, path: path("tokA", "tokB") }, None)
        .unwrap();
    assert_eq!(r.attributes, attrs(&[("Method", "swap")]));
    let r = execute(&mut storage, &env(), &info("creator"), ExecuteMsg::SetLpToken { lp_token: "lpX".to_string() }, None)
        .unwrap();
    assert_eq!(r.attributes, attrs(&[("method", "set_lptoken")]));
    assert_eq!(get_lp_token(&storage), "lpX");
    let r = execute(&mut storage, &env(), &info("alice"), ExecuteMsg::AddLiquid { amount0: 0, amount1: 0 }, None).unwrap();
    assert!(r.messages.is_empty());
    let r = execute(&mut storage, &env(), &info("alice"), ExecuteMsg::RemoveLiquid { liquid: 0 }, Some((0, 10, 6))).unwrap();
    assert_eq!(r.messages.len(), 3);
    let bad = Cw20ReceiveMsg { sender: "x".to_string(), amount: 1, msg: None };
    assert!(matches!(
        execute(&mut storage, &env(), &info("tokA"), ExecuteMsg::Receive(bad), None),
        Err(ContractError::InvalidSwapMsg)
    ));
}

#[test]
fn query_dispatches_each_message() {
    let storage = pool(1000, 2000);
    assert_eq!(
        query(&storage, QueryMsg::GetLpTokenInfo { user: "u".to_string() }, Some((4, 5, 6))),
        QueryResponse::LpTokenInfo(4, 5, 6)
    );
    assert_eq!(
        query(&storage, QueryMsg::GetReserves {}, None),
        QueryResponse::Reserves(ReserveResponse { reserve0: 1000, reserve1: 2000 })
    );
    assert_eq!(
        query(&storage, QueryMsg::GetAmountsOut { amount_in: 100, path: path("tokA", "tokB") }, None),
        QueryResponse::AmountsOut(100, 181)
    );
}

#[test]
fn guards_reject_aborting_messages() {
    let empty = PairStorage::new();
    let alice = "alice".to_string();
    assert!(!execute_is_defined(&empty, &alice, &ExecuteMsg::SetLpToken { lp_token: "x".to_string() }, None));
    let undecodable = Cw20ReceiveMsg { sender: "x".to_string(), amount: 1, msg: None };
    assert!(execute_is_defined(&empty, &alice, &ExecuteMsg::Receive(undecodable), None));
    assert!(!query_is_defined(&empty, &QueryMsg::GetReserves {}));
    let storage = pool(1000, 2000);
    assert!(execute_is_defined(&storage, &alice, &ExecuteMsg::Swap { amount_in: 100, path: path("tokA", "tokB") }, None));
    assert!(!execute_is_defined(&storage, &alice, &ExecuteMsg::Swap { amount_in: 100, path: vec!["tokA".to_string()] }, None));
    assert!(!execute_is_defined(&storage, &alice, &ExecuteMsg::Swap { amount_in: u128::MAX, path: path("tokA", "tokB") }, None));
    assert!(execute_is_defined(&storage, &alice, &ExecuteMsg::RemoveLiquid { liquid: 1 }, None));
    assert!(!execute_is_defined(&storage, &alice, &ExecuteMsg::RemoveLiquid { liquid: 11 }, Some((0, 10, 6))));
    assert!(execute_is_defined(&storage, &alice, &ExecuteMsg::RemoveLiquid { liquid: 10 }, Some((0, 10, 6))));
    assert!(!execute_is_defined(&storage, &alice, &ExecuteMsg::AddLiquid { amount0: u128::MAX, amount1: 0 }, None));
    assert!(query_is_defined(&storage, &QueryMsg::GetAmountsOut { amount_in: 1, path: vec!["tokC".to_string()] }));
    assert!(!query_is_defined(&storage, &QueryMsg::GetAmountsOut { amount_in: 1, path: vec![] }));
}

#[test]
fn lp_info_is_needed_only_to_mint_or_burn() {
    let storage = pool(1000, 2000);
    assert!(needs_lp_info(&storage, &ExecuteMsg::RemoveLiquid { liquid: 1 }));
    assert!(needs_lp_info(&storage, &ExecuteMsg::AddLiquid { amount0: 10, amount1: 20 }));
    assert!(!needs_lp_info(&storage, &ExecuteMsg::AddLiquid { amount0: 0, amount1: 20 }));
    assert!(!needs_lp_info(&pool(0, 2000), &ExecuteMsg::AddLiquid { amount0: 10, amount1: 20 }));
    assert!(!needs_lp_info(&storage, &ExecuteMsg::Swap { amount_in: 1, path: path("tokA", "tokB") }));
}

#[test]
fn mint_is_monotone_in_deposit() {
    let mut last = 0;
    for (a0, a1) in [(0u128, 0u128), (1, 1), (10, 30), (100, 300), (100, 400), (500, 400)] {
        let minted = lp_mint_amount(liquidity_share(a0, a1, 1000, 2000), 5000);
        assert!(minted >= last);
        last = minted;
    }
}

#[test]
fn router_state_is_empty_record() {
    assert_eq!(router::State {}, router::State {});
}

#[test]
fn swap_credits_at_most_the_input() {
    let mut storage = pool(1000, 2000);
    try_swap(&mut storage, &info("alice"), &env(), 1, path("tokA", "tokB")).unwrap();
    // 1 * 997 / 1000 rounds to nothing credited, while the quote pays 1.
    assert_eq!(get_reserves(&storage), (1000, 1999));
    let mut storage = pool(1000, 2000);
    try_swap(&mut storage, &info("alice"), &env(), 1000, path("tokA", "tokB")).unwrap();
    assert_eq!(get_reserves(&storage).0, 1000 + 997);
}

#[test]
fn swap_pays_exactly_the_quote() {
    let storage = pool(12_345, 67_890);
    for amount in [1u128, 17, 999, 123_456] {
        let (_, quoted) = query_amounts_out(&storage, amount, path("tokB", "tokA"));
        let mut s = storage.clone();
        let resp = try_swap(&mut s, &info("alice"), &env(), amount, path("tokB", "tokA")).unwrap();
        let expected = format!(r#"{{"transfer":{{"recipient":"alice","amount":"{}"}}}}"#, quoted);
        assert_eq!(resp.messages[1], wasm("tokA", &expected));
        assert_eq!(get_reserves(&s).0, 12_345 - quoted);
    }
}

#[test]
fn withdrawal_rounds_in_favour_of_pool() {
    // A third of the supply: the exact shares are 333.3 and 666.6.
    assert_eq!(withdraw_amounts(1000, 2000, 1, 3), (333, 666));
    assert_eq!(withdraw_amounts(7, 11, 3, 3), (7, 11));
}

#[test]
fn mint_rounds_in_favour_of_pool() {
    // The deposit is a seventh of reserve0 and more of reserve1: at most 1/7 of 1000 LP is minted.
    let share = liquidity_share(1, 5, 7, 10);
    assert_eq!(share, 142_857);
    assert_eq!(lp_mint_amount(share, 1000), 142);
}
