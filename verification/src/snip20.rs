//! The SNIP-20 messages the contracts send to the food token contract, as
//! `secret_toolkit` builds them.
use vstd::prelude::*;

use secret_cosmwasm_std::{CosmosMsg, HumanAddr, StdError, Uint128, WasmMsg};
use secret_toolkit::snip20::{burn_from_msg, mint_msg};

use crate::common::{Coin, Message};

verus! {

/// A host error, such as a failed serialisation.
#[verifier::external_type_specification]
#[verifier::external_body]
pub struct ExStdError(StdError);

/// An execution of another contract, as sent on the wire: `msg` is the JSON
/// body and `send` the funds attached.
#[derive(Clone, Debug, PartialEq, Eq)]
pub struct WasmExecute {
    pub contract_addr: String,
    pub callback_code_hash: String,
    pub msg: Vec<u8>,
    pub send: Vec<Coin>,
}

/// The JSON body `secret_toolkit::snip20::mint_msg` builds for a mint of
/// `amount` to `recipient` with no memo, no padding and block size 0.
pub uninterp spec fn snip20_mint_body(recipient: Seq<char>, amount: u128) -> Seq<u8>;

/// The JSON body `secret_toolkit::snip20::burn_from_msg` builds for burning
/// `amount` of `owner`'s tokens with no memo, no padding and block size 0.
pub uninterp spec fn snip20_burn_from_body(owner: Seq<char>, amount: u128) -> Seq<u8>;

/// Calls `secret_toolkit::snip20::mint_msg` (no memo, no padding, block size
/// 0). Trusted: where it succeeds it builds a `Wasm` `Execute` message to
/// `contract_addr` with `callback_code_hash`, no funds attached, and a body
/// that depends on `recipient` and `amount` alone. Nothing is said of when
/// its serialisation fails.
#[verifier::external_body]
fn snip20_mint(recipient: String, amount: u128, callback_code_hash: String, contract_addr: String) -> (res: Result<
    Option<WasmExecute>,
    StdError,
>)
    ensures
        res matches Ok(o) ==> (o matches Some(w) && w.contract_addr == contract_addr
            && w.callback_code_hash == callback_code_hash && w.msg@ == snip20_mint_body(recipient@, amount)
            && w.send@.len() == 0),
{
    match mint_msg(HumanAddr(recipient), Uint128(amount), None, None, 0, callback_code_hash, HumanAddr(contract_addr))? {
        CosmosMsg::Wasm(WasmMsg::Execute { contract_addr, callback_code_hash, msg, send }) => Ok(Some(WasmExecute {
            contract_addr: contract_addr.0,
            callback_code_hash,
            msg: msg.0,
            send: send.into_iter().map(|c| Coin { denom: c.denom, amount: c.amount.u128() }).collect(),
        })),
        _ => Ok(None),
    }
}

/// Calls `secret_toolkit::snip20::burn_from_msg` (no memo, no padding, block
/// size 0). Trusted: where it succeeds it builds a `Wasm` `Execute` message
/// to `contract_addr` with `callback_code_hash`, no funds attached, and a
/// body that depends on `owner` and `amount` alone. Nothing is said of when
/// its serialisation fails.
#[verifier::external_body]
fn snip20_burn_from(owner: String, amount: u128, callback_code_hash: String, contract_addr: String) -> (res: Result<
    Option<WasmExecute>,
    StdError,
>)
    ensures
        res matches Ok(o) ==> (o matches Some(w) && w.contract_addr == contract_addr
            && w.callback_code_hash == callback_code_hash && w.msg@ == snip20_burn_from_body(owner@, amount)
            && w.send@.len() == 0),
{
    match burn_from_msg(HumanAddr(owner), Uint128(amount), None, None, 0, callback_code_hash, HumanAddr(contract_addr))? {
        CosmosMsg::Wasm(WasmMsg::Execute { contract_addr, callback_code_hash, msg, send }) => Ok(Some(WasmExecute {
            contract_addr: contract_addr.0,
            callback_code_hash,
            msg: msg.0,
            send: send.into_iter().map(|c| Coin { denom: c.denom, amount: c.amount.u128() }).collect(),
        })),
        _ => Ok(None),
    }
}

/// The wire form of a token message: a mint or a burn is built by the
/// SNIP-20 helpers and goes to the token contract with no funds; any other
/// message is not a token message.
pub fn token_message(msg: &Message) -> (res: Option<Result<WasmExecute, StdError>>)
    ensures
        match *msg {
            Message::Mint { recipient, amount, callback_code_hash, contract_addr } => res matches Some(r)
                && (r matches Ok(w) ==> w.contract_addr == contract_addr && w.callback_code_hash == callback_code_hash
                && w.msg@ == snip20_mint_body(recipient@, amount) && w.send@.len() == 0),
            Message::BurnFrom { owner, amount, callback_code_hash, contract_addr } => res matches Some(r)
                && (r matches Ok(w) ==> w.contract_addr == contract_addr && w.callback_code_hash == callback_code_hash
                && w.msg@ == snip20_burn_from_body(owner@, amount) && w.send@.len() == 0),
            Message::Execute { .. } => res is None,
        },
{
    let built = match msg {
        Message::Mint { recipient, amount, callback_code_hash, contract_addr } => snip20_mint(
            recipient.clone(),
            *amount,
            callback_code_hash.clone(),
            contract_addr.clone(),
        ),
        Message::BurnFrom { owner, amount, callback_code_hash, contract_addr } => snip20_burn_from(
            owner.clone(),
            *amount,
            callback_code_hash.clone(),
            contract_addr.clone(),
        ),
        Message::Execute { .. } => return None,
    };
    match built {
        Err(e) => Some(Err(e)),
        Ok(Some(w)) => Some(Ok(w)),
        Ok(None) => None,
    }
}

} // verus!
