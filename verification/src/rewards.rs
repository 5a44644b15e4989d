//! How rewards vest and how they are shared out.
//!
//! The pool keeps, per unit of locked tokens, the rewards accumulated since the beginning. A user's
//! debt is the part of their units' accumulated rewards that was paid, or had vested before they
//! locked; the rest is pending.

use vstd::prelude::*;

use crate::constants::{INC_TOKEN_SCALE, REWARD_SCALE};
use crate::state::{RewardPool, UserInfo};

verus! {

// ---------------------------------------------------------------------------------------------
// Vesting
// ---------------------------------------------------------------------------------------------

/// Whether a pool is brought up to date at the given height: once per block, until the end.
pub open spec fn is_due(pool: RewardPool, end_by_height: u64, height: u64) -> bool {
    pool.last_reward_block < height <= end_by_height
}

/// The rewards that vest at the given height: for each block passed since the last update, an
/// equal part of the pending rewards, counted over the blocks that remained then. Nothing vests
/// while nothing is locked.
pub open spec fn vested(pool: RewardPool, end_by_height: u64, height: u64) -> int {
    if is_due(pool, end_by_height, height) && pool.inc_token_supply > 0 {
        (height - pool.last_reward_block) * (pool.pending_rewards as int / (end_by_height
            - pool.last_reward_block))
    } else {
        0
    }
}

/// What the vesting rewards add to the accumulated reward of one unit.
pub open spec fn vested_per_share(pool: RewardPool, end_by_height: u64, height: u64) -> int {
    if pool.inc_token_supply > 0 {
        vested(pool, end_by_height, height) * REWARD_SCALE / pool.inc_token_supply as int
    } else {
        0
    }
}

/// Whether the numbers of an update stay within their type.
pub open spec fn update_fits(pool: RewardPool, end_by_height: u64, height: u64) -> bool {
    &&& vested(pool, end_by_height, height) * REWARD_SCALE <= u128::MAX
    &&& pool.acc_reward_per_share + vested_per_share(pool, end_by_height, height) <= u128::MAX
}

/// The pool at the given height.
pub open spec fn updated_pool(pool: RewardPool, end_by_height: u64, height: u64) -> RewardPool {
    if is_due(pool, end_by_height, height) {
        RewardPool {
            last_reward_block: height,
            acc_reward_per_share: (pool.acc_reward_per_share + vested_per_share(
                pool,
                end_by_height,
                height,
            )) as u128,
            ..pool
        }
    } else {
        pool
    }
}

/// No update lets more vest than is pending.
pub proof fn lemma_vested_at_most_pending(pool: RewardPool, end_by_height: u64, height: u64)
    ensures
        0 <= vested(pool, end_by_height, height) <= pool.pending_rewards,
        vested_per_share(pool, end_by_height, height) >= 0,
{
    if is_due(pool, end_by_height, height) && pool.inc_token_supply > 0 {
        let pending = pool.pending_rewards as int;
        let to_go = end_by_height - pool.last_reward_block;
        let to_vest = height - pool.last_reward_block;
        let part = pending / to_go;
        assert(part >= 0 && to_go * part <= pending) by (nonlinear_arith)
            requires
                pending >= 0,
                to_go > 0,
                part == pending / to_go,
        ;
        assert(0 <= to_vest * part <= to_go * part) by (nonlinear_arith)
            requires
                0 <= to_vest <= to_go,
                part >= 0,
        ;
        let scaled = to_vest * part * REWARD_SCALE;
        let supply = pool.inc_token_supply as int;
        assert(scaled / supply >= 0) by (nonlinear_arith)
            requires
                scaled >= 0,
                supply > 0,
        ;
    }
}

/// Brings a pool up to date.
pub fn update_pool(pool: RewardPool, end_by_height: u64, height: u64) -> (updated: RewardPool)
    requires
        update_fits(pool, end_by_height, height),
    ensures
        updated == updated_pool(pool, end_by_height, height),
{
    let mut pool = pool;
    if height <= pool.last_reward_block || height > end_by_height {
        return pool;
    }
    proof {
        lemma_vested_at_most_pending(pool, end_by_height, height);
    }
    if pool.inc_token_supply == 0 || pool.pending_rewards == 0 {
        proof {
            if pool.inc_token_supply > 0 {
                assert(vested(pool, end_by_height, height) == 0);
                assert(0int / (pool.inc_token_supply as int) == 0) by (nonlinear_arith)
                    requires
                        pool.inc_token_supply > 0,
                ;
            }
        }
        pool.last_reward_block = height;
        return pool;
    }
    let blocks_to_go: u64 = end_by_height - pool.last_reward_block;
    let blocks_to_vest: u64 = height - pool.last_reward_block;
    let rewards: u128 = blocks_to_vest as u128 * (pool.pending_rewards / (blocks_to_go as u128));
    assert(rewards == vested(pool, end_by_height, height));
    pool.acc_reward_per_share = pool.acc_reward_per_share + rewards * REWARD_SCALE
        / pool.inc_token_supply;
    pool.last_reward_block = height;
    pool
}

/// Tests whether the numbers of an update stay within their type.
pub fn check_update(pool: &RewardPool, end_by_height: u64, height: u64) -> (fits: bool)
    ensures
        fits == update_fits(*pool, end_by_height, height),
{
    proof {
        lemma_vested_at_most_pending(*pool, end_by_height, height);
    }
    if height <= pool.last_reward_block || height > end_by_height || pool.inc_token_supply == 0 {
        assert(vested(*pool, end_by_height, height) == 0);
        assert(pool.inc_token_supply > 0 ==> 0int / (pool.inc_token_supply as int) == 0)
            by (nonlinear_arith);
        return true;
    }
    let blocks_to_go: u64 = end_by_height - pool.last_reward_block;
    let blocks_to_vest: u64 = height - pool.last_reward_block;
    let rewards: u128 = blocks_to_vest as u128 * (pool.pending_rewards / (blocks_to_go as u128));
    assert(rewards == vested(*pool, end_by_height, height));
    match rewards.checked_mul(REWARD_SCALE) {
        Some(scaled) => pool.acc_reward_per_share.checked_add(
            scaled / pool.inc_token_supply,
        ).is_some(),
        None => false,
    }
}

// ---------------------------------------------------------------------------------------------
// Sharing out
// ---------------------------------------------------------------------------------------------

/// The rewards accumulated on a number of units since the beginning.
pub open spec fn accumulated(units: u128, pool: RewardPool) -> int {
    units * pool.acc_reward_per_share / REWARD_SCALE as int
}

/// The rewards that a user has not been paid yet.
pub open spec fn pending(user: UserInfo, pool: RewardPool) -> int {
    accumulated(user.locked, pool) - user.debt
}

/// Whether a user's pending rewards can be computed: the numbers stay within their type, and the
/// user does not owe more than has accumulated.
pub open spec fn pending_fits(user: UserInfo, pool: RewardPool) -> bool {
    &&& user.locked * pool.acc_reward_per_share <= u128::MAX
    &&& user.debt <= accumulated(user.locked, pool)
}

/// Computes a user's pending rewards.
pub fn pending_rewards(user: &UserInfo, pool: &RewardPool) -> (amount: u128)
    requires
        pending_fits(*user, *pool),
    ensures
        amount == pending(*user, *pool),
{
    user.locked * pool.acc_reward_per_share / REWARD_SCALE - user.debt
}

/// Tests whether a user's pending rewards can be computed.
pub fn check_pending(user: &UserInfo, pool: &RewardPool) -> (fits: bool)
    ensures
        fits == pending_fits(*user, *pool),
{
    match user.locked.checked_mul(pool.acc_reward_per_share) {
        Some(product) => user.debt <= product / REWARD_SCALE,
        None => false,
    }
}

/// What a change of a user's locked units leads to.
#[derive(Clone, Copy, PartialEq, Eq, Structural, Debug)]
pub struct Settlement {
    pub user: UserInfo,
    pub pool: RewardPool,
    pub payout: u128,
}

/// A user with the given number of units, none of whose accumulated rewards are pending.
pub open spec fn settled(units: u128, pool: RewardPool) -> UserInfo {
    UserInfo { locked: units, debt: accumulated(units, pool) as u128 }
}

/// Whether the numbers stay within their type when a user locks more units.
pub open spec fn lock_fits(user: UserInfo, pool: RewardPool, units: u128) -> bool {
    &&& user.locked > 0 ==> pending_fits(user, pool)
    &&& user.locked + units <= u128::MAX
    &&& (user.locked + units) * pool.acc_reward_per_share <= u128::MAX
    &&& pool.inc_token_supply + units <= u128::MAX
}

/// A user locks more units: what was pending is paid out, and nothing is pending afterwards.
pub open spec fn lock_settlement(user: UserInfo, pool: RewardPool, units: u128) -> Settlement {
    Settlement {
        user: settled((user.locked + units) as u128, pool),
        pool: RewardPool { inc_token_supply: (pool.inc_token_supply + units) as u128, ..pool },
        payout: if user.locked > 0 {
            pending(user, pool) as u128
        } else {
            0
        },
    }
}

/// Lets a user lock more units.
pub fn lock(user: &UserInfo, pool: &RewardPool, units: u128) -> (settlement: Settlement)
    requires
        lock_fits(*user, *pool, units),
    ensures
        settlement == lock_settlement(*user, *pool, units),
{
    let payout: u128 = if user.locked > 0 {
        pending_rewards(user, pool)
    } else {
        0
    };
    let locked: u128 = user.locked + units;
    let debt: u128 = locked * pool.acc_reward_per_share / REWARD_SCALE;
    Settlement {
        user: UserInfo { locked, debt },
        pool: RewardPool {
            pending_rewards: pool.pending_rewards,
            inc_token_supply: pool.inc_token_supply + units,
            last_reward_block: pool.last_reward_block,
            acc_reward_per_share: pool.acc_reward_per_share,
        },
        payout,
    }
}

/// Tests whether the numbers stay within their type when a user locks more units.
pub fn check_lock(user: &UserInfo, pool: &RewardPool, units: u128) -> (fits: bool)
    ensures
        fits == lock_fits(*user, *pool, units),
{
    if user.locked > 0 && !check_pending(user, pool) {
        return false;
    }
    match user.locked.checked_add(units) {
        Some(locked) => locked.checked_mul(pool.acc_reward_per_share).is_some()
            && pool.inc_token_supply.checked_add(units).is_some(),
        None => false,
    }
}

/// Whether the numbers stay within their type when a user unlocks units that they have.
pub open spec fn unlock_fits(user: UserInfo, pool: RewardPool, units: u128) -> bool {
    &&& pending_fits(user, pool)
    &&& units <= pool.inc_token_supply
}

/// A user unlocks units: what was pending is paid out, and nothing is pending afterwards.
pub open spec fn unlock_settlement(user: UserInfo, pool: RewardPool, units: u128) -> Settlement {
    Settlement {
        user: settled((user.locked - units) as u128, pool),
        pool: RewardPool { inc_token_supply: (pool.inc_token_supply - units) as u128, ..pool },
        payout: pending(user, pool) as u128,
    }
}

/// Lets a user unlock units that they have.
pub fn unlock(user: &UserInfo, pool: &RewardPool, units: u128) -> (settlement: Settlement)
    requires
        units <= user.locked,
        unlock_fits(*user, *pool, units),
    ensures
        settlement == unlock_settlement(*user, *pool, units),
{
    let payout: u128 = pending_rewards(user, pool);
    let locked: u128 = user.locked - units;
    assert(locked * pool.acc_reward_per_share <= user.locked * pool.acc_reward_per_share)
        by (nonlinear_arith)
        requires
            locked <= user.locked,
    ;
    let debt: u128 = locked * pool.acc_reward_per_share / REWARD_SCALE;
    Settlement {
        user: UserInfo { locked, debt },
        pool: RewardPool {
            pending_rewards: pool.pending_rewards,
            inc_token_supply: pool.inc_token_supply - units,
            last_reward_block: pool.last_reward_block,
            acc_reward_per_share: pool.acc_reward_per_share,
        },
        payout,
    }
}

/// Tests whether the numbers stay within their type when a user unlocks units that they have.
pub fn check_unlock(user: &UserInfo, pool: &RewardPool, units: u128) -> (fits: bool)
    ensures
        fits == unlock_fits(*user, *pool, units),
{
    check_pending(user, pool) && units <= pool.inc_token_supply
}

// ---------------------------------------------------------------------------------------------
// Units
// ---------------------------------------------------------------------------------------------

/// The whole units in an amount of the incentivized token.
pub open spec fn whole_units(amount: u128) -> u128 {
    (amount as int / INC_TOKEN_SCALE as int) as u128
}

/// Whether a user's units can be written as an amount of the incentivized token.
pub open spec fn amount_fits(units: u128) -> bool {
    units * INC_TOKEN_SCALE <= u128::MAX
}

/// The units that a user asks for: those in the amount, or all that they have.
pub open spec fn requested_units(user: UserInfo, amount: Option<u128>) -> u128 {
    match amount {
        Some(amount) => whole_units(amount),
        None => user.locked,
    }
}

/// Computes the units that a user asks for.
pub fn units_to_redeem(user: &UserInfo, amount: Option<u128>) -> (units: u128)
    requires
        amount_fits(user.locked),
    ensures
        units == requested_units(*user, amount),
{
    let everything: u128 = user.locked * INC_TOKEN_SCALE;
    let amount: u128 = match amount {
        Some(amount) => amount,
        None => everything,
    };
    amount / INC_TOKEN_SCALE
}

} // verus!
