//! The calls the pair sends to cw20 token contracts, and their encoding as
//! the JSON of `cw20::Cw20ExecuteMsg`, which `cosmwasm_std` computes.
use cosmwasm_std::{to_binary, Uint128};
use cw20::Cw20ExecuteMsg;
use vstd::prelude::*;

verus! {

/// `cosmwasm_std::StdError`, the error of the host's operations, carried through unchanged.
#[verifier::external_type_specification]
#[verifier::external_body]
pub struct ExStdError(cosmwasm_std::StdError);

/// A call on a cw20 token contract that this pair sends.
#[derive(Debug, Clone, PartialEq, Eq)]
pub enum Cw20Call {
    Transfer { recipient: String, amount: u128 },
    TransferFrom { owner: String, recipient: String, amount: u128 },
    Mint { recipient: String, amount: u128 },
    BurnFrom { owner: String, amount: u128 },
}

/// A cw20 call seen as plain values.
pub ghost enum Cw20CallView {
    Transfer { recipient: Seq<char>, amount: u128 },
    TransferFrom { owner: Seq<char>, recipient: Seq<char>, amount: u128 },
    Mint { recipient: Seq<char>, amount: u128 },
    BurnFrom { owner: Seq<char>, amount: u128 },
}

impl View for Cw20Call {
    type V = Cw20CallView;

    open spec fn view(&self) -> Cw20CallView {
        match self {
            Cw20Call::Transfer { recipient, amount } => Cw20CallView::Transfer { recipient: recipient@, amount: *amount },
            Cw20Call::TransferFrom { owner, recipient, amount } => Cw20CallView::TransferFrom { owner: owner@, recipient: recipient@, amount: *amount },
            Cw20Call::Mint { recipient, amount } => Cw20CallView::Mint { recipient: recipient@, amount: *amount },
            Cw20Call::BurnFrom { owner, amount } => Cw20CallView::BurnFrom { owner: owner@, amount: *amount },
        }
    }
}

/// The bytes that `cosmwasm_std::to_binary` makes of the `cw20::Cw20ExecuteMsg`
/// variant that `call` stands for: the JSON that `serde_json_wasm` writes. It
/// depends on the call alone.
pub uninterp spec fn cw20_msg_json(call: Cw20CallView) -> Seq<u8>;

/// Builds the `cw20::Cw20ExecuteMsg` variant of the same name and fields as
/// `call` (amounts as `Uint128`) and serialises it with `cosmwasm_std::to_binary`.
/// The contract claims that the call succeeds and gives the bytes named by
/// `cw20_msg_json`: `to_binary` fails only where `serde_json_wasm::to_vec`
/// does, and for a struct variant whose fields are strings and `Uint128`
/// (written as a string) every step of that serialiser returns `Ok`. What the
/// bytes are is left unsaid.
#[verifier::external_body]
pub(crate) fn encode_cw20_call(call: &Cw20Call) -> (r: Result<Vec<u8>, cosmwasm_std::StdError>)
    ensures
        r is Ok,
        r matches Ok(bytes) ==> bytes@ == cw20_msg_json(call@),
{
    let msg = match call.clone() {
        Cw20Call::Transfer { recipient, amount } => Cw20ExecuteMsg::Transfer { recipient, amount: Uint128::new(amount) },
        Cw20Call::TransferFrom { owner, recipient, amount } => {
            Cw20ExecuteMsg::TransferFrom { owner, recipient, amount: Uint128::new(amount) }
        },
        Cw20Call::Mint { recipient, amount } => Cw20ExecuteMsg::Mint { recipient, amount: Uint128::new(amount) },
        Cw20Call::BurnFrom { owner, amount } => Cw20ExecuteMsg::BurnFrom { owner, amount: Uint128::new(amount) },
    };
    to_binary(&msg).map(|b| b.0)
}

} // verus!
