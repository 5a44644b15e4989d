use lockup::rewards::{
    check_lock, check_pending, check_unlock, check_update, lock, pending_rewards, units_to_redeem,
    unlock, update_pool, Settlement,
};
use lockup::state::{RewardPool, UserInfo};
use lockup::text::{fill_in, to_decimal};

const SCALE: u128 = 1_000_000_000_000;

fn pool(pending: u128, supply: u128, last: u64, acc: u128) -> RewardPool {
    RewardPool {
        pending_rewards: pending,
        inc_token_supply: supply,
        last_reward_block: last,
        acc_reward_per_share: acc,
    }
}

#[test]
fn rewards_vest_block_by_block() {
    // 100 over 10 blocks is 10 per block, shared by 4 units.
    let start = pool(100, 4, 0, 3);
    assert!(check_update(&start, 10, 5));
    assert_eq!(update_pool(start, 10, 5), pool(100, 4, 5, 3 + 50 * SCALE / 4));
    // What is pending is spread anew over the blocks that remain.
    let middle = update_pool(start, 10, 5);
    assert_eq!(
        update_pool(middle, 10, 10),
        pool(100, 4, 10, 3 + 50 * SCALE / 4 + 100 * SCALE / 4)
    );
    // Division rounds down twice.
    assert_eq!(update_pool(pool(10, 7, 0, 0), 4, 3), pool(10, 7, 3, 6 * SCALE / 7));
    assert_eq!(6 * SCALE / 7, 857_142_857_142);
}

#[test]
fn rewards_vest_at_most_once_per_block_and_not_after_the_end() {
    let start = pool(100, 4, 5, 3);
    assert_eq!(update_pool(start, 10, 5), start);
    assert_eq!(update_pool(start, 10, 4), start);
    assert_eq!(update_pool(start, 10, 11), start);
    let updated = update_pool(start, 10, 6);
    assert_eq!(update_pool(updated, 10, 6), updated);
    // At the end itself, rewards still vest.
    assert_eq!(update_pool(start, 10, 10), pool(100, 4, 10, 3 + 100 * SCALE / 4));
}

#[test]
fn nothing_vests_while_nothing_is_locked_or_pending() {
    assert_eq!(update_pool(pool(100, 0, 0, 3), 10, 5), pool(100, 0, 5, 3));
    assert_eq!(update_pool(pool(0, 4, 0, 3), 10, 5), pool(0, 4, 5, 3));
}

#[test]
fn an_update_that_does_not_fit_is_noticed() {
    assert!(!check_update(&pool(u128::MAX, 1, 0, 0), 10, 10));
    assert!(!check_update(&pool(10, 1, 0, u128::MAX), 10, 10));
    assert!(check_update(&pool(u128::MAX, 0, 0, 0), 10, 10));
    assert!(check_update(&pool(u128::MAX, 1, 10, u128::MAX), 10, 10));
}

#[test]
fn pending_rewards_are_what_accumulated_less_the_debt() {
    let user = UserInfo { locked: 3, debt: 2 };
    let current = pool(0, 3, 0, 5 * SCALE / 2);
    assert!(check_pending(&user, &current));
    // 3 * 2.5 is 7.5, rounded down to 7.
    assert_eq!(pending_rewards(&user, &current), 5);
    assert!(!check_pending(&UserInfo { locked: 3, debt: 8 }, &current));
    assert!(!check_pending(&UserInfo { locked: u128::MAX, debt: 0 }, &current));
}

#[test]
fn locking_pays_and_counts() {
    let user = UserInfo { locked: 3, debt: 2 };
    let current = pool(9, 10, 6, 5 * SCALE / 2);
    assert!(check_lock(&user, &current, 4));
    assert_eq!(
        lock(&user, &current, 4),
        Settlement {
            user: UserInfo { locked: 7, debt: 17 },
            pool: pool(9, 14, 6, 5 * SCALE / 2),
            payout: 5,
        }
    );
    // A first deposit is paid nothing.
    assert_eq!(
        lock(&UserInfo { locked: 0, debt: 0 }, &current, 4),
        Settlement {
            user: UserInfo { locked: 4, debt: 10 },
            pool: pool(9, 14, 6, 5 * SCALE / 2),
            payout: 0,
        }
    );
    assert!(!check_lock(&user, &current, u128::MAX));
    assert!(!check_lock(&user, &pool(9, u128::MAX, 6, 0), 1));
    assert!(!check_lock(&UserInfo { locked: 3, debt: 8 }, &current, 1));
}

#[test]
fn unlocking_pays_and_counts() {
    let user = UserInfo { locked: 3, debt: 2 };
    let current = pool(9, 10, 6, 5 * SCALE / 2);
    assert!(check_unlock(&user, &current, 2));
    assert_eq!(
        unlock(&user, &current, 2),
        Settlement {
            user: UserInfo { locked: 1, debt: 2 },
            pool: pool(9, 8, 6, 5 * SCALE / 2),
            payout: 5,
        }
    );
    assert!(!check_unlock(&user, &pool(9, 1, 6, 5 * SCALE / 2), 2));
    assert!(!check_unlock(&UserInfo { locked: 3, debt: 8 }, &current, 1));
}

#[test]
fn unlocking_undoes_locking_in_units() {
    let user = UserInfo { locked: 3, debt: 2 };
    let current = pool(9, 10, 6, 5 * SCALE / 2);
    let locked = lock(&user, &current, 4);
    let unlocked = unlock(&locked.user, &locked.pool, 4);
    assert_eq!(unlocked.user, lock(&user, &current, 0).user);
    assert_eq!(unlocked.pool, current);
    assert_eq!(unlocked.payout, 0);
}

#[test]
fn locking_in_two_steps_adds_up() {
    let user = UserInfo { locked: 3, debt: 2 };
    let current = pool(9, 10, 6, 5 * SCALE / 2);
    let once = lock(&user, &current, 5);
    let step = lock(&user, &current, 2);
    let twice = lock(&step.user, &step.pool, 3);
    assert_eq!(twice.user, once.user);
    assert_eq!(twice.pool, once.pool);
    assert_eq!(step.payout, once.payout);
    assert_eq!(twice.payout, 0);
}

#[test]
fn amounts_are_redeemed_in_whole_units() {
    let user = UserInfo { locked: 3, debt: 0 };
    assert_eq!(units_to_redeem(&user, None), 3);
    assert_eq!(units_to_redeem(&user, Some(0)), 0);
    assert_eq!(units_to_redeem(&user, Some(1_999_999_999)), 1);
    assert_eq!(units_to_redeem(&user, Some(7_000_000_000)), 7);
}

#[test]
fn numbers_are_written_in_decimal() {
    assert_eq!(to_decimal(0), "0");
    assert_eq!(to_decimal(120), "120");
    assert_eq!(to_decimal(u128::MAX), "340282366920938463463374607431768211455");
    assert_eq!(fill_in("a", "b", "c", "d"), "abcd");
}

#[test]
fn everything_but_a_remainder_vests_by_the_end() {
    // 107 over 10 blocks is 10 per block; 7 are left over.
    let end = update_pool(pool(107, 1, 0, 0), 10, 10);
    assert_eq!(end, pool(107, 1, 10, 100 * SCALE));
}

#[test]
fn no_more_is_promised_than_vests() {
    // 100 rewards for 3 units: 33 and a third each, rounded down.
    let before = pool(100, 3, 0, 0);
    let after = update_pool(before, 1, 1);
    assert!(after.acc_reward_per_share * 3 <= 100 * SCALE);
    let single = UserInfo { locked: 1, debt: 0 };
    let double = UserInfo { locked: 2, debt: 0 };
    assert_eq!(pending_rewards(&single, &after), 33);
    assert_eq!(pending_rewards(&double, &after), 66);
}
