//! The pair's stored state: its configuration, its reserves and its owner,
//! each kept in a slot of its own that is empty until the pair is instantiated.
use vstd::prelude::*;

verus! {

/// The pair's configuration.
#[derive(Debug, Clone, PartialEq, Eq)]
pub struct State {
    pub lp_token: String,
    pub token0: String,
    /// For simplicity, token1 stands for USD.
    pub token1: String,
    pub fee: u128,
    pub multiplier: u128,
}

/// The amounts of the two tokens that the pair holds.
#[derive(Debug, Clone, Copy, PartialEq, Eq)]
pub struct Reserve {
    pub reserve0: u128,
    pub reserve1: u128,
}

/// The pair's storage: the slots of the configuration, of the reserves and of
/// the owner, who instantiated the pair and alone may set its LP token.
#[derive(Debug, Clone, PartialEq, Eq)]
pub struct PairStorage {
    pub state: Option<State>,
    pub reserves: Option<Reserve>,
    pub owner: Option<String>,
}

impl PairStorage {
    /// Storage with every slot empty.
    pub fn new() -> (r: PairStorage)
        ensures
            r.state is None,
            r.reserves is None,
            r.owner is None,
    {
        PairStorage { state: None, reserves: None, owner: None }
    }

    /// The configuration and the reserves are stored.
    pub open spec fn is_initialized(&self) -> bool {
        self.state is Some && self.reserves is Some
    }

    /// The configuration, read from its slot.
    pub open spec fn state_of(&self) -> State {
        self.state->0
    }

    /// The reserves, read from their slot.
    pub open spec fn reserves_of(&self) -> (u128, u128) {
        (self.reserves->0.reserve0, self.reserves->0.reserve1)
    }
}

/// The storage after `set_reserves`.
pub open spec fn with_reserves(storage: PairStorage, reserve0: u128, reserve1: u128) -> PairStorage {
    PairStorage { reserves: Some(Reserve { reserve0, reserve1 }), ..storage }
}

/// The storage after `set_lp_token`.
pub open spec fn with_lp_token(storage: PairStorage, lp_token: String) -> PairStorage {
    PairStorage { state: Some(State { lp_token, ..storage.state->0 }), ..storage }
}

/// Copies a string.
pub(crate) fn copy_string(s: &String) -> (r: String)
    ensures
        r == *s,
{
    s.clone()
}

/// Loads the configuration.
pub fn get_state(storage: &PairStorage) -> (r: State)
    requires
        storage.state is Some,
    ensures
        r == storage.state_of(),
{
    let state = storage.state.as_ref().unwrap();
    State {
        lp_token: copy_string(&state.lp_token),
        token0: copy_string(&state.token0),
        token1: copy_string(&state.token1),
        fee: state.fee,
        multiplier: state.multiplier,
    }
}

/// Replaces the LP token address in the configuration.
pub fn set_lp_token(storage: &mut PairStorage, lp_token: String)
    requires
        old(storage).state is Some,
    ensures
        *final(storage) == with_lp_token(*old(storage), lp_token),
{
    let mut state = get_state(storage);
    state.lp_token = lp_token;
    storage.state = Some(state);
}

/// The LP token address.
pub fn get_lp_token(storage: &PairStorage) -> (r: String)
    requires
        storage.state is Some,
    ensures
        r == storage.state_of().lp_token,
{
    let state = get_state(storage);
    state.lp_token
}

/// The addresses of the two tokens.
pub fn get_tokens(storage: &PairStorage) -> (r: (String, String))
    requires
        storage.state is Some,
    ensures
        r.0 == storage.state_of().token0,
        r.1 == storage.state_of().token1,
{
    let state = get_state(storage);
    (state.token0, state.token1)
}

/// The two reserves.
pub fn get_reserves(storage: &PairStorage) -> (r: (u128, u128))
    requires
        storage.reserves is Some,
    ensures
        r == storage.reserves_of(),
{
    let reserve = storage.reserves.unwrap();
    (reserve.reserve0, reserve.reserve1)
}

/// Stores new reserves.
pub fn set_reserves(storage: &mut PairStorage, new_reserve0: u128, new_reserve1: u128)
    ensures
        *final(storage) == with_reserves(*old(storage), new_reserve0, new_reserve1),
{
    let new_reserve = Reserve { reserve0: new_reserve0, reserve1: new_reserve1 };
    storage.reserves = Some(new_reserve);
}

/// The fee and its denominator.
pub fn get_fee(storage: &PairStorage) -> (r: (u128, u128))
    requires
        storage.state is Some,
    ensures
        r.0 == storage.state_of().fee,
        r.1 == storage.state_of().multiplier,
{
    let state = get_state(storage);
    (state.fee, state.multiplier)
}

/// What `set_reserves` stores, `get_reserves` reads back.
pub proof fn law_reserves_read_after_write(storage: PairStorage, reserve0: u128, reserve1: u128)
    ensures
        with_reserves(storage, reserve0, reserve1).reserves is Some,
        with_reserves(storage, reserve0, reserve1).reserves_of() == (reserve0, reserve1),
        with_reserves(storage, reserve0, reserve1).state == storage.state,
        with_reserves(storage, reserve0, reserve1).owner == storage.owner,
{
}

/// What `set_lp_token` stores, `get_lp_token` reads back, and the rest of the
/// configuration and the reserves stay as they were.
pub proof fn law_lp_token_read_after_write(storage: PairStorage, lp_token: String)
    requires
        storage.state is Some,
    ensures
        with_lp_token(storage, lp_token).state is Some,
        with_lp_token(storage, lp_token).state_of().lp_token == lp_token,
        with_lp_token(storage, lp_token).state_of().token0 == storage.state_of().token0,
        with_lp_token(storage, lp_token).state_of().token1 == storage.state_of().token1,
        with_lp_token(storage, lp_token).state_of().fee == storage.state_of().fee,
        with_lp_token(storage, lp_token).state_of().multiplier == storage.state_of().multiplier,
        with_lp_token(storage, lp_token).reserves == storage.reserves,
        with_lp_token(storage, lp_token).owner == storage.owner,
{
}

} // verus!
