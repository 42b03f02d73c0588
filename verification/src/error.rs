//! The errors that the pair answers a refused message with.
use vstd::prelude::*;

verus! {

/// Why the pair refused a message.
#[derive(Debug)]
pub enum ContractError {
    /// The host failed at a task the pair handed it.
    Std(cosmwasm_std::StdError),
    /// The swap path does not lead from one token of the pair to the other.
    InvalidPath,
    /// The payload of a cw20 `Receive` does not decode as a swap message.
    InvalidSwapMsg,
    /// The sender may not send this message.
    Unauthorized,
    /// The cw20 token that sent funds is not the token the swap path starts from.
    InvalidToken,
    /// LP tokens cannot be burnt while the LP token reports no supply.
    ZeroLpSupply,
}

} // verus!
