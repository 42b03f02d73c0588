//! The messages that the pair is instantiated, executed, migrated and queried
//! with, and what it answers a query with.
use vstd::prelude::*;

verus! {

/// The message a migration carries; it holds nothing.
#[derive(Debug, Clone, PartialEq, Eq)]
pub struct MigrateMsg {}

/// The configuration a new pair starts from.
#[derive(Debug, Clone, PartialEq, Eq)]
pub struct InstantiateMsg {
    pub token0: String,
    pub token1: String,
    pub fee: u128,
}

/// A swap of `amount_in` along `path`, from `path[0]` to `path[1]`.
#[derive(Debug, Clone, PartialEq, Eq)]
pub struct SwapMsg {
    pub amount_in: u128,
    pub path: Vec<String>,
}

/// A cw20 token's notice that `amount` of it was sent to the pair by `sender`,
/// with the attached payload decoded as a `SwapMsg` (`None` where it does not
/// decode as one).
#[derive(Debug, Clone, PartialEq, Eq)]
pub struct Cw20ReceiveMsg {
    pub sender: String,
    pub amount: u128,
    pub msg: Option<SwapMsg>,
}

/// The messages the pair executes.
#[derive(Debug, Clone, PartialEq, Eq)]
pub enum ExecuteMsg {
    SetLpToken { lp_token: String },
    /// Adds liquidity and mints LP tokens for it.
    AddLiquid { amount0: u128, amount1: u128 },
    RemoveLiquid { liquid: u128 },
    Receive(Cw20ReceiveMsg),
    Swap { amount_in: u128, path: Vec<String> },
}

/// The queries the pair answers.
#[derive(Debug, Clone, PartialEq, Eq)]
pub enum QueryMsg {
    GetLpTokenInfo { user: String },
    /// The reserves, which give the price.
    GetReserves {},
    /// The amount a swap would pay out.
    GetAmountsOut { amount_in: u128, path: Vec<String> },
}

/// The reserves, as a query answers them.
#[derive(Debug, Clone, Copy, PartialEq, Eq)]
pub struct ReserveResponse {
    pub reserve0: u128,
    pub reserve1: u128,
}

/// The answer to a query, before it is encoded.
#[derive(Debug, Clone, PartialEq, Eq)]
pub enum QueryResponse {
    /// A user's LP balance, the LP supply and the LP token's decimals.
    LpTokenInfo(u128, u128, u8),
    Reserves(ReserveResponse),
    /// The amount in and the amount out.
    AmountsOut(u128, u128),
}

/// Who sent the message being executed.
#[derive(Debug, Clone, PartialEq, Eq)]
pub struct MessageInfo {
    pub sender: String,
}

/// The environment the pair runs in: its own address.
#[derive(Debug, Clone, PartialEq, Eq)]
pub struct Env {
    pub contract_address: String,
}

} // verus!
