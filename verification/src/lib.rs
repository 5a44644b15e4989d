//! A contract that locks an incentivized token and pays out a reward token.

pub mod behaviour;
pub mod constants;
pub mod contract;
pub mod crypto;
pub mod env;
pub mod error;
pub mod laws;
pub mod model;
pub mod msg;
pub mod padding;
pub mod rewards;
pub mod snip20;
pub mod state;
pub mod storage;
pub mod text;
pub mod viewing_key;
