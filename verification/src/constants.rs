//! Storage keys, scales and sizes.

use vstd::prelude::*;

verus! {

/// Key under which the contract's settings are stored.
pub const CONFIG_KEY: &'static str = "config";

/// Key under which the reward pool is stored.
pub const REWARD_POOL_KEY: &'static str = "rewardpool";

/// Namespace of the hashed viewing keys.
pub const VIEWING_KEY_KEY: &'static str = "viewingkey";

/// Length of a hashed viewing key.
pub const VIEWING_KEY_SIZE: usize = 32;

/// What every generated viewing key begins with.
pub const VIEWING_KEY_PREFIX: &'static str = "api_key_";

/// Private payloads and answers are padded to a multiple of this many bytes.
pub const RESPONSE_BLOCK_SIZE: usize = 256;

/// Accumulated rewards per share are kept multiplied by this factor.
pub const REWARD_SCALE: u128 = 1_000_000_000_000;

/// Incentivized tokens are counted in units of this many base units.
pub const INC_TOKEN_SCALE: u128 = 1_000_000_000;

} // verus!
