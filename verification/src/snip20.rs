//! Messages to SNIP-20 token contracts.

use secret_cosmwasm_std::{CosmosMsg, HumanAddr, Uint128, WasmMsg};
use vstd::prelude::*;

use crate::constants::RESPONSE_BLOCK_SIZE;
use crate::padding::space_padded;

verus! {

/// A call of another contract, to which no coins are sent.
#[derive(Debug)]
pub struct Execute {
    pub contract_addr: String,
    pub callback_code_hash: String,
    pub msg: Vec<u8>,
}

/// What an [`Execute`] holds.
pub struct ExecuteView {
    pub contract_addr: Seq<char>,
    pub callback_code_hash: Seq<char>,
    pub msg: Seq<u8>,
}

impl View for Execute {
    type V = ExecuteView;

    open spec fn view(&self) -> ExecuteView {
        ExecuteView {
            contract_addr: self.contract_addr@,
            callback_code_hash: self.callback_code_hash@,
            msg: self.msg@,
        }
    }
}

/// What an optional text holds.
pub open spec fn text_view(text: Option<String>) -> Option<Seq<char>> {
    match text {
        Some(text) => Some(text@),
        None => None,
    }
}

/// The payload that asks a token contract to transfer tokens.
pub uninterp spec fn transfer_payload(
    recipient: Seq<char>,
    amount: u128,
    memo: Option<Seq<char>>,
    padding: Option<Seq<char>>,
) -> Seq<u8>;

/// The payload that asks a token contract to notify a contract of tokens sent to it.
pub uninterp spec fn register_receive_payload(
    code_hash: Seq<char>,
    padding: Option<Seq<char>>,
) -> Seq<u8>;

/// The payload that sets the sender's viewing key at a token contract.
pub uninterp spec fn set_viewing_key_payload(
    key: Seq<char>,
    padding: Option<Seq<char>>,
) -> Seq<u8>;

/// A call of a contract with a padded payload.
pub open spec fn padded_call(
    contract_addr: Seq<char>,
    callback_code_hash: Seq<char>,
    payload: Seq<u8>,
    block_size: nat,
) -> ExecuteView {
    ExecuteView { contract_addr, callback_code_hash, msg: space_padded(payload, block_size) }
}

/// Calls `secret_toolkit::snip20::transfer_msg`. Trusted: it succeeds with a call of the given
/// contract that sends no coins; the payload is padded with spaces, and recipient, amount, memo
/// and padding alone decide what it is before that. The encoder does not fail on texts and
/// numbers. The call replaces a block size of zero, and would panic on one for which no memory can
/// be reserved.
#[verifier::external_body]
pub(crate) fn transfer_msg(
    recipient: String,
    amount: u128,
    memo: Option<String>,
    padding: Option<String>,
    block_size: usize,
    callback_code_hash: String,
    contract_addr: String,
) -> (msg: Option<Execute>)
    requires
        0 < block_size <= RESPONSE_BLOCK_SIZE,
    ensures
        msg is Some,
        msg->0@ == padded_call(
            contract_addr@,
            callback_code_hash@,
            transfer_payload(recipient@, amount, text_view(memo), text_view(padding)),
            block_size as nat,
        ),
{
    match secret_toolkit::snip20::transfer_msg(
        HumanAddr(recipient), Uint128(amount), memo, padding, block_size, callback_code_hash,
        HumanAddr(contract_addr),
    ) {
        Ok(CosmosMsg::Wasm(WasmMsg::Execute { contract_addr, callback_code_hash, msg, .. })) => {
            Some(Execute { contract_addr: contract_addr.0, callback_code_hash, msg: msg.0 })
        },
        _ => None,
    }
}

/// Calls `secret_toolkit::snip20::register_receive_msg`. Trusted: it succeeds with a call of the
/// given contract that sends no coins; the payload is padded with spaces, and code hash and
/// padding alone decide what it is before that. The encoder does not fail on texts. The call
/// replaces a block size of zero, and would panic on one for which no memory can be reserved.
#[verifier::external_body]
pub(crate) fn register_receive_msg(
    your_contracts_code_hash: String,
    padding: Option<String>,
    block_size: usize,
    callback_code_hash: String,
    contract_addr: String,
) -> (msg: Option<Execute>)
    requires
        0 < block_size <= RESPONSE_BLOCK_SIZE,
    ensures
        msg is Some,
        msg->0@ == padded_call(
            contract_addr@,
            callback_code_hash@,
            register_receive_payload(your_contracts_code_hash@, text_view(padding)),
            block_size as nat,
        ),
{
    match secret_toolkit::snip20::register_receive_msg(
        your_contracts_code_hash, padding, block_size, callback_code_hash,
        HumanAddr(contract_addr),
    ) {
        Ok(CosmosMsg::Wasm(WasmMsg::Execute { contract_addr, callback_code_hash, msg, .. })) => {
            Some(Execute { contract_addr: contract_addr.0, callback_code_hash, msg: msg.0 })
        },
        _ => None,
    }
}

/// Calls `secret_toolkit::snip20::set_viewing_key_msg`. Trusted: it succeeds with a call of the
/// given contract that sends no coins; the payload is padded with spaces, and key and padding
/// alone decide what it is before that. The encoder does not fail on texts. The call replaces a
/// block size of zero, and would panic on one for which no memory can be reserved.
#[verifier::external_body]
pub(crate) fn set_viewing_key_msg(
    key: String,
    padding: Option<String>,
    block_size: usize,
    callback_code_hash: String,
    contract_addr: String,
) -> (msg: Option<Execute>)
    requires
        0 < block_size <= RESPONSE_BLOCK_SIZE,
    ensures
        msg is Some,
        msg->0@ == padded_call(
            contract_addr@,
            callback_code_hash@,
            set_viewing_key_payload(key@, text_view(padding)),
            block_size as nat,
        ),
{
    match secret_toolkit::snip20::set_viewing_key_msg(
        key, padding, block_size, callback_code_hash, HumanAddr(contract_addr),
    ) {
        Ok(CosmosMsg::Wasm(WasmMsg::Execute { contract_addr, callback_code_hash, msg, .. })) => {
            Some(Execute { contract_addr: contract_addr.0, callback_code_hash, msg: msg.0 })
        },
        _ => None,
    }
}

} // verus!
