//! Padding that hides how long an answer is.

use secret_cosmwasm_std::{Binary, HandleResponse};
use vstd::prelude::*;

use crate::constants::RESPONSE_BLOCK_SIZE;

verus! {

/// Bytes followed by as many spaces as it takes to fill whole blocks.
pub open spec fn space_padded(data: Seq<u8>, block_size: nat) -> Seq<u8> {
    let surplus = data.len() % block_size;
    if surplus == 0 {
        data
    } else {
        data + Seq::new((block_size - surplus) as nat, |i: int| 0x20u8)
    }
}

/// Calls `secret_toolkit::utils::pad_query_result` on a successful answer. Trusted: the answer
/// comes back padded with spaces. A block size of zero would make the call panic, and so would one
/// for which no memory can be reserved.
#[verifier::external_body]
pub(crate) fn pad_query_result(data: Vec<u8>, block_size: usize) -> (padded: Vec<u8>)
    requires
        0 < block_size <= RESPONSE_BLOCK_SIZE,
    ensures
        padded@ == space_padded(data@, block_size as nat),
{
    match secret_toolkit::utils::pad_query_result(Ok(Binary(data)), block_size) {
        Ok(padded) => padded.0,
        Err(_) => Vec::new(),
    }
}

/// Calls `secret_toolkit::utils::pad_handle_result` on a successful response without messages and
/// logs. Trusted: the data, if there is any, comes back padded with spaces. A block size of zero
/// would make the call panic, and so would one for which no memory can be reserved.
#[verifier::external_body]
pub(crate) fn pad_handle_result(data: Option<Vec<u8>>, block_size: usize) -> (padded: Option<
    Vec<u8>,
>)
    requires
        0 < block_size <= RESPONSE_BLOCK_SIZE,
    ensures
        match padded {
            Some(bytes) => data matches Some(d) && bytes@ == space_padded(d@, block_size as nat),
            None => data is None,
        },
{
    let data = data.map(Binary);
    let response: HandleResponse = HandleResponse { messages: vec![], log: vec![], data };
    match secret_toolkit::utils::pad_handle_result(Ok(response), block_size) {
        Ok(padded) => padded.data.map(|data| data.0),
        Err(_) => None,
    }
}

} // verus!
