//! What the chain says of a transaction.

use vstd::prelude::*;

verus! {

/// The block that a transaction is in.
#[derive(Debug)]
pub struct BlockInfo {
    pub height: u64,
    pub time: u64,
}

/// Who sent a transaction.
#[derive(Debug)]
pub struct MessageInfo {
    pub sender: String,
}

/// This contract.
#[derive(Debug)]
pub struct ContractInfo {
    pub address: String,
}

/// What the chain says of a transaction.
#[derive(Debug)]
pub struct Env {
    pub block: BlockInfo,
    pub message: MessageInfo,
    pub contract: ContractInfo,
    pub contract_code_hash: String,
}

} // verus!
