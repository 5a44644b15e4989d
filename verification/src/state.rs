//! The records that the contract keeps.

use vstd::prelude::*;

verus! {

/// A SNIP-20 token contract.
#[derive(Debug)]
pub struct Snip20 {
    pub address: String,
    pub contract_hash: String,
}

/// What a [`Snip20`] holds.
pub struct Snip20View {
    pub address: Seq<char>,
    pub contract_hash: Seq<char>,
}

impl View for Snip20 {
    type V = Snip20View;

    open spec fn view(&self) -> Snip20View {
        Snip20View { address: self.address@, contract_hash: self.contract_hash@ }
    }
}

impl Clone for Snip20 {
    fn clone(&self) -> (res: Self)
        ensures
            res == *self,
    {
        Snip20 { address: self.address.clone(), contract_hash: self.contract_hash.clone() }
    }
}

/// The contract's settings.
#[derive(Debug)]
pub struct Config {
    pub admin: String,
    pub reward_token: Snip20,
    pub inc_token: Snip20,
    pub pool_claim_height: u64,
    pub end_by_height: u64,
    pub viewing_key: String,
    pub prng_seed: Vec<u8>,
    pub is_stopped: bool,
}

/// What a [`Config`] holds.
pub struct ConfigView {
    pub admin: Seq<char>,
    pub reward_token: Snip20View,
    pub inc_token: Snip20View,
    pub pool_claim_height: u64,
    pub end_by_height: u64,
    pub viewing_key: Seq<char>,
    pub prng_seed: Seq<u8>,
    pub is_stopped: bool,
}

impl View for Config {
    type V = ConfigView;

    open spec fn view(&self) -> ConfigView {
        ConfigView {
            admin: self.admin@,
            reward_token: self.reward_token@,
            inc_token: self.inc_token@,
            pool_claim_height: self.pool_claim_height,
            end_by_height: self.end_by_height,
            viewing_key: self.viewing_key@,
            prng_seed: self.prng_seed@,
            is_stopped: self.is_stopped,
        }
    }
}

/// The pool from which rewards vest, block by block, to the holders of locked tokens.
#[derive(Clone, Copy, PartialEq, Eq, Structural, Debug)]
pub struct RewardPool {
    pub pending_rewards: u128,
    pub inc_token_supply: u128,
    pub last_reward_block: u64,
    pub acc_reward_per_share: u128,
}

/// What one user has locked, and the part of the accumulated rewards that is not theirs.
#[derive(Clone, Copy, PartialEq, Eq, Structural, Debug)]
pub struct UserInfo {
    pub locked: u128,
    pub debt: u128,
}

} // verus!
