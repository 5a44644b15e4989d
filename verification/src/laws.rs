//! What holds of the contract as a whole.

use vstd::arithmetic::div_mod::{
    lemma_div_is_ordered, lemma_fundamental_div_mod, lemma_mod_bound, lemma_mod_multiples_basic,
};
use vstd::arithmetic::mul::lemma_mul_is_commutative;
use vstd::bytes::lemma_auto_spec_u128_to_from_le_bytes;
use vstd::prelude::*;
use vstd::utf8::{encode_utf8, encode_utf8_decode_utf8};

use crate::constants::{INC_TOKEN_SCALE, REWARD_SCALE};
use crate::env::Env;
use crate::error::{generic, Record, StdErrorView};
use crate::model::{
    account, changed_settings, changes_settings, claim_end, contents_at, handle_fits,
    handle_outcome, initial_config, initial_contents, is_authorized, not_admin, payout_calls,
    query_answer, query_fits, transfer_call, unsupported_token, HandledView, Reply,
};
use crate::msg::{
    HandleAnswerView, HandleMsg, HandleResponseView, InitMsg, Payload, QueryAnswerView, QueryMsg,
};
use crate::padding::space_padded;
use crate::rewards::{
    accumulated, amount_fits, is_due, lemma_vested_at_most_pending, lock_fits, lock_settlement,
    pending, requested_units, unlock_fits, unlock_settlement, update_fits, updated_pool, vested,
    vested_per_share, whole_units,
};
use crate::state::{ConfigView, RewardPool, UserInfo};
use crate::storage::{
    config_decoding, config_fits, config_key, holds_config, lemma_config_round_trip,
    lemma_pool_round_trip, lemma_record_keys, lemma_user_round_trip, pool_key, read_config,
    read_pool, read_user, read_viewing_key, user_key, viewing_key_key, write_config, write_pool,
    write_user, Contents,
};
use crate::viewing_key::{generated_key, key_hash};

verus! {

// ---------------------------------------------------------------------------------------------
// Vesting
// ---------------------------------------------------------------------------------------------

/// Bringing a pool up to date never takes an accumulated reward back, never goes back in time, and
/// changes neither what is pending in the pool nor how much is locked.
pub proof fn rewards_only_accumulate(pool: RewardPool, end_by_height: u64, height: u64)
    requires
        update_fits(pool, end_by_height, height),
    ensures
        updated_pool(pool, end_by_height, height).acc_reward_per_share
            >= pool.acc_reward_per_share,
        updated_pool(pool, end_by_height, height).last_reward_block >= pool.last_reward_block,
        updated_pool(pool, end_by_height, height).pending_rewards == pool.pending_rewards,
        updated_pool(pool, end_by_height, height).inc_token_supply == pool.inc_token_supply,
{
    lemma_vested_at_most_pending(pool, end_by_height, height);
}

/// Rewards vest once per block: a pool that is up to date stays as it is.
pub proof fn rewards_vest_once_per_block(pool: RewardPool, end_by_height: u64, height: u64)
    ensures
        updated_pool(updated_pool(pool, end_by_height, height), end_by_height, height)
            == updated_pool(pool, end_by_height, height),
{
}

/// Nothing vests after the end.
pub proof fn nothing_vests_after_the_end(pool: RewardPool, end_by_height: u64, height: u64)
    requires
        height > end_by_height,
    ensures
        vested(pool, end_by_height, height) == 0,
        updated_pool(pool, end_by_height, height) == pool,
{
}

/// Where tokens are locked, an update at the end lets everything vest that is pending, but for a
/// remainder smaller than the number of blocks it was spread over.
pub proof fn everything_vests_by_the_end(pool: RewardPool, end_by_height: u64)
    requires
        is_due(pool, end_by_height, end_by_height),
        pool.inc_token_supply > 0,
    ensures
        pool.pending_rewards - vested(pool, end_by_height, end_by_height) < end_by_height
            - pool.last_reward_block,
{
    let pending = pool.pending_rewards as int;
    let to_go = end_by_height - pool.last_reward_block;
    assert(pending - to_go * (pending / to_go) < to_go) by (nonlinear_arith)
        requires
            to_go > 0,
            pending >= 0,
    ;
}

/// What an update adds to all locked units together is at most what vests, and what vests is at
/// most what is pending.
pub proof fn no_more_is_shared_out_than_vests(pool: RewardPool, end_by_height: u64, height: u64)
    ensures
        vested_per_share(pool, end_by_height, height) * pool.inc_token_supply <= vested(
            pool,
            end_by_height,
            height,
        ) * REWARD_SCALE,
        vested(pool, end_by_height, height) <= pool.pending_rewards,
{
    lemma_vested_at_most_pending(pool, end_by_height, height);
    if pool.inc_token_supply > 0 {
        let scaled = vested(pool, end_by_height, height) * REWARD_SCALE;
        let supply = pool.inc_token_supply as int;
        assert(scaled / supply * supply <= scaled) by (nonlinear_arith)
            requires
                supply > 0,
        ;
    }
}

// ---------------------------------------------------------------------------------------------
// Sharing out
// ---------------------------------------------------------------------------------------------

/// Whether a user's debt is covered by what their units have accumulated.
pub open spec fn is_covered(user: UserInfo, pool: RewardPool) -> bool {
    user.debt <= accumulated(user.locked, pool)
}

/// More units and a higher reward per unit accumulate more.
proof fn lemma_accumulated_ordered(a: u128, b: u128, pool_a: RewardPool, pool_b: RewardPool)
    requires
        a <= b,
        pool_a.acc_reward_per_share <= pool_b.acc_reward_per_share,
    ensures
        0 <= accumulated(a, pool_a) <= accumulated(b, pool_b),
{
    let x = a * pool_a.acc_reward_per_share;
    let y = b * pool_b.acc_reward_per_share;
    assert(0 <= x <= y) by (nonlinear_arith)
        requires
            0 <= a <= b,
            0 <= pool_a.acc_reward_per_share <= pool_b.acc_reward_per_share,
            x == a * pool_a.acc_reward_per_share,
            y == b * pool_b.acc_reward_per_share,
    ;
    lemma_div_is_ordered(x, y, REWARD_SCALE as int);
}

/// A user without a record has nothing locked and owes nothing.
pub proof fn newcomers_owe_nothing(contents: Contents, address: Seq<char>, pool: RewardPool)
    requires
        !contents.contains_key(user_key(address)),
    ensures
        read_user(contents, address).locked == 0,
        is_covered(read_user(contents, address), pool),
{
    lemma_accumulated_ordered(0, 0, pool, pool);
}

/// Bringing the pool up to date keeps every user's debt covered.
pub proof fn vesting_keeps_debts_covered(
    user: UserInfo,
    pool: RewardPool,
    end_by_height: u64,
    height: u64,
)
    requires
        update_fits(pool, end_by_height, height),
        is_covered(user, pool),
    ensures
        is_covered(user, updated_pool(pool, end_by_height, height)),
        pending(user, pool) <= pending(user, updated_pool(pool, end_by_height, height)),
{
    rewards_only_accumulate(pool, end_by_height, height);
    lemma_accumulated_ordered(
        user.locked,
        user.locked,
        pool,
        updated_pool(pool, end_by_height, height),
    );
}

/// Locking pays out what is pending, once: nothing is pending afterwards. The user and the pool
/// count the same units on top, and the rewards per unit stay as they are.
pub proof fn locking_settles(user: UserInfo, pool: RewardPool, units: u128)
    requires
        lock_fits(user, pool, units),
        is_covered(user, pool),
    ensures
        ({
            let settlement = lock_settlement(user, pool, units);
            &&& settlement.payout == pending(user, pool)
            &&& pending(settlement.user, settlement.pool) == 0
            &&& settlement.user.locked == user.locked + units
            &&& settlement.pool.inc_token_supply == pool.inc_token_supply + units
            &&& settlement.pool.acc_reward_per_share == pool.acc_reward_per_share
            &&& settlement.pool.pending_rewards == pool.pending_rewards
            &&& settlement.pool.last_reward_block == pool.last_reward_block
        }),
{
    let locked = (user.locked + units) as u128;
    lemma_accumulated_fits(locked, pool);
    if user.locked == 0 {
        assert(0 * pool.acc_reward_per_share == 0);
        assert(accumulated(user.locked, pool) == 0);
    } else {
        lemma_accumulated_fits(user.locked, pool);
    }
}

/// Unlocking pays out what is pending, once: nothing is pending afterwards. The user and the pool
/// count the same units less, and the rewards per unit stay as they are.
pub proof fn unlocking_settles(user: UserInfo, pool: RewardPool, units: u128)
    requires
        units <= user.locked,
        unlock_fits(user, pool, units),
    ensures
        ({
            let settlement = unlock_settlement(user, pool, units);
            &&& settlement.payout == pending(user, pool)
            &&& pending(settlement.user, settlement.pool) == 0
            &&& settlement.user.locked == user.locked - units
            &&& settlement.pool.inc_token_supply == pool.inc_token_supply - units
            &&& settlement.pool.acc_reward_per_share == pool.acc_reward_per_share
            &&& settlement.pool.pending_rewards == pool.pending_rewards
            &&& settlement.pool.last_reward_block == pool.last_reward_block
        }),
{
    let locked = (user.locked - units) as u128;
    lemma_accumulated_ordered(locked, user.locked, pool, pool);
    lemma_accumulated_fits(user.locked, pool);
}

/// What accumulates on units whose product with the reward per unit fits, fits.
proof fn lemma_accumulated_fits(units: u128, pool: RewardPool)
    requires
        units * pool.acc_reward_per_share <= u128::MAX,
    ensures
        0 <= accumulated(units, pool) <= u128::MAX,
{
    lemma_accumulated_ordered(0, units, pool, pool);
}

/// Locking units and unlocking them again at the same height gives the user and the pool back as
/// they would be if the user had locked nothing more; the second step pays no rewards.
pub proof fn unlocking_undoes_locking(user: UserInfo, pool: RewardPool, units: u128)
    requires
        lock_fits(user, pool, units),
        is_covered(user, pool),
    ensures
        ({
            let locked = lock_settlement(user, pool, units);
            let unlocked = unlock_settlement(locked.user, locked.pool, units);
            &&& unlock_fits(locked.user, locked.pool, units)
            &&& unlocked.user == lock_settlement(user, pool, 0).user
            &&& unlocked.user.locked == user.locked
            &&& unlocked.pool == pool
            &&& unlocked.payout == 0
        }),
{
    locking_settles(user, pool, units);
}

/// Locking in two steps at the same height comes to the same as locking at once.
pub proof fn locking_adds_up(user: UserInfo, pool: RewardPool, first: u128, second: u128)
    requires
        is_covered(user, pool),
        first + second <= u128::MAX,
        lock_fits(user, pool, (first + second) as u128),
    ensures
        ({
            let once = lock_settlement(user, pool, (first + second) as u128);
            let step = lock_settlement(user, pool, first);
            let twice = lock_settlement(step.user, step.pool, second);
            &&& twice.user == once.user
            &&& twice.pool == once.pool
            &&& step.payout == once.payout
            &&& twice.payout == 0
        }),
{
    let both = (first + second) as u128;
    assert((user.locked + first) * pool.acc_reward_per_share <= (user.locked + both)
        * pool.acc_reward_per_share) by (nonlinear_arith)
        requires
            first <= both,
    ;
    assert(lock_fits(user, pool, first));
    locking_settles(user, pool, first);
}

// ---------------------------------------------------------------------------------------------
// Which records a message touches
// ---------------------------------------------------------------------------------------------

/// Whether two stores hold the same under a key.
pub open spec fn same_at(a: Contents, b: Contents, key: Seq<u8>) -> bool {
    &&& a.contains_key(key) <==> b.contains_key(key)
    &&& a.contains_key(key) ==> a[key] == b[key]
}

/// Whether two stores hold the same settings, the same pool, and the same records of one user.
pub open spec fn agree(a: Contents, b: Contents, address: Seq<char>) -> bool {
    &&& same_at(a, b, config_key())
    &&& same_at(a, b, pool_key())
    &&& same_at(a, b, user_key(address))
    &&& same_at(a, b, viewing_key_key(address))
}

/// Different users' records are kept apart.
proof fn lemma_user_keys(a: Seq<char>, b: Seq<char>)
    ensures
        user_key(a) == user_key(b) ==> a == b,
        viewing_key_key(a) == viewing_key_key(b) ==> a == b,
{
    encode_utf8_decode_utf8(a);
    encode_utf8_decode_utf8(b);
    if viewing_key_key(a) == viewing_key_key(b) {
        let start = viewing_key_key(a).len() - encode_utf8(a).len();
        assert(viewing_key_key(a).skip(start as int) =~= encode_utf8(a));
        assert(viewing_key_key(b).skip(start as int) =~= encode_utf8(b));
    }
}

/// A message touches the settings, the pool and its own user's records, and nothing else.
pub proof fn a_message_touches_its_own_records(
    contents: Contents,
    env: Env,
    msg: HandleMsg,
    key: Seq<u8>,
)
    requires
        key != config_key(),
        key != pool_key(),
        key != user_key(account(env, msg)),
        key != viewing_key_key(account(env, msg)),
    ensures
        same_at(contents, handle_outcome(contents, env, msg).0, key),
{
}

/// What comes of a message depends on the settings, the pool and its own user's records, and on
/// nothing else that is stored.
pub proof fn a_message_depends_on_its_own_records(
    a: Contents,
    b: Contents,
    env: Env,
    msg: HandleMsg,
)
    requires
        agree(a, b, account(env, msg)),
    ensures
        handle_fits(a, env, msg) == handle_fits(b, env, msg),
        handle_outcome(a, env, msg).1 == handle_outcome(b, env, msg).1,
        agree(handle_outcome(a, env, msg).0, handle_outcome(b, env, msg).0, account(env, msg)),
{
    assert(read_config(a) == read_config(b));
    assert(read_pool(a) == read_pool(b));
    assert(read_user(a, account(env, msg)) == read_user(b, account(env, msg)));
}

/// The answer to a question depends on the settings, the pool and the records of the user that it
/// is about, and on nothing else that is stored.
pub proof fn an_answer_depends_on_its_own_records(a: Contents, b: Contents, msg: QueryMsg)
    requires
        agree(a, b, msg.about()),
    ensures
        query_fits(a, msg) == query_fits(b, msg),
        query_answer(a, msg) == query_answer(b, msg),
{
}

/// A refused message changes nothing; nor does a claim, which only moves tokens.
pub proof fn a_refusal_changes_nothing(contents: Contents, env: Env, msg: HandleMsg)
    ensures
        match handle_outcome(contents, env, msg).1 {
            HandledView::Reply { reply: Ok(_), .. } => true,
            _ => handle_outcome(contents, env, msg).0 == contents,
        },
{
}

// ---------------------------------------------------------------------------------------------
// The settings
// ---------------------------------------------------------------------------------------------

/// Whether a message is one that only the admin may send: those that change the settings, and the
/// claim.
pub open spec fn is_for_the_admin(config: ConfigView, msg: HandleMsg) -> bool {
    if config.is_stopped {
        msg is ResumeContract
    } else {
        msg is UpdateIncentivizedToken || msg is UpdateRewardToken || msg is StopContract
            || msg is ChangeAdmin || msg is ClaimRewardPool
    }
}

/// The reply to a message, if there is one yet.
pub open spec fn replied(outcome: (Contents, HandledView)) -> Option<Reply> {
    match outcome.1 {
        HandledView::Reply { reply, .. } => Some(reply),
        HandledView::Claim(_) => None,
    }
}

/// Settings that can be read are settings whose texts have lengths that can be written down.
proof fn lemma_read_config_fits(contents: Contents, config: ConfigView)
    requires
        read_config(contents) == Ok::<_, StdErrorView>(config),
    ensures
        config_fits(config),
{
    let bytes = contents[config_key()];
    assert(config_decoding(bytes) == Some(config));
    assert(holds_config(bytes, config));
}

/// Anybody but the admin is refused what only the admin may do.
pub proof fn only_the_admin_is_obeyed(
    contents: Contents,
    config: ConfigView,
    env: Env,
    msg: HandleMsg,
)
    requires
        read_config(contents) == Ok::<_, StdErrorView>(config),
        is_for_the_admin(config, msg),
        env.message.sender@ != config.admin,
    ensures
        handle_outcome(contents, env, msg).0 == contents,
        replied(handle_outcome(contents, env, msg)) == Some(
            Err::<HandleResponseView, _>(not_admin(env)),
        ),
{
}

/// The settings stay as they are unless the admin changes them. The record of a user whose address
/// is the key of the settings would take their place.
pub proof fn settings_stay(contents: Contents, config: ConfigView, env: Env, msg: HandleMsg)
    requires
        read_config(contents) == Ok::<_, StdErrorView>(config),
        !changes_settings(config, env, msg),
        user_key(account(env, msg)) != config_key(),
    ensures
        read_config(handle_outcome(contents, env, msg).0) == Ok::<_, StdErrorView>(config),
{
    lemma_record_keys();
}

/// The admin's change of the settings is what is read afterwards, and changes nothing else.
pub proof fn settings_change(contents: Contents, config: ConfigView, env: Env, msg: HandleMsg)
    requires
        read_config(contents) == Ok::<_, StdErrorView>(config),
        changes_settings(config, env, msg),
        config_fits(changed_settings(config, msg)),
    ensures
        handle_outcome(contents, env, msg).0 == write_config(
            contents,
            changed_settings(config, msg),
        ),
        read_config(handle_outcome(contents, env, msg).0) == Ok::<_, StdErrorView>(
            changed_settings(config, msg),
        ),
        replied(handle_outcome(contents, env, msg)) matches Some(Ok(_)),
{
    lemma_config_round_trip(changed_settings(config, msg));
}

/// A stopped contract refuses everything but redeeming and resuming.
pub proof fn a_stopped_contract_refuses(
    contents: Contents,
    config: ConfigView,
    env: Env,
    msg: HandleMsg,
)
    requires
        read_config(contents) == Ok::<_, StdErrorView>(config),
        config.is_stopped,
        !(msg is Redeem),
        !(msg is ResumeContract),
    ensures
        handle_outcome(contents, env, msg).0 == contents,
        replied(handle_outcome(contents, env, msg)) == Some(
            Err::<HandleResponseView, _>(
                generic("This contract is stopped and this action is not allowed"@),
            ),
        ),
{
}

/// Stopping the contract keeps nobody from redeeming: a user gets the same calls, and leaves the
/// same records behind, as if the contract were not stopped. The store differs in its settings
/// alone.
pub proof fn a_stopped_contract_redeems(
    contents: Contents,
    config: ConfigView,
    env: Env,
    amount: Option<u128>,
)
    requires
        !config.is_stopped,
        user_key(env.message.sender@) != config_key(),
        read_config(contents) == Ok::<_, StdErrorView>(config),
    ensures
        ({
            let stopped = ConfigView { is_stopped: true, ..config };
            let before = write_config(contents, stopped);
            let msg = HandleMsg::Redeem { amount };
            &&& handle_fits(before, env, msg) == handle_fits(contents, env, msg)
            &&& replied(handle_outcome(before, env, msg)) == replied(
                handle_outcome(contents, env, msg),
            )
            &&& handle_outcome(before, env, msg).0 == write_config(
                handle_outcome(contents, env, msg).0,
                stopped,
            )
        }),
{
    let stopped = ConfigView { is_stopped: true, ..config };
    let before = write_config(contents, stopped);
    let msg = HandleMsg::Redeem { amount };
    lemma_record_keys();
    lemma_read_config_fits(contents, config);
    lemma_config_round_trip(stopped);
    assert(read_config(before) == Ok::<_, StdErrorView>(stopped));
    assert(read_pool(before) == read_pool(contents));
    assert(read_user(before, env.message.sender@) == read_user(contents, env.message.sender@));
    assert(handle_outcome(before, env, msg).0 =~= write_config(
        handle_outcome(contents, env, msg).0,
        stopped,
    ));
}

/// Resuming undoes stopping.
pub proof fn resuming_undoes_stopping(
    contents: Contents,
    config: ConfigView,
    stopping: Env,
    resuming: Env,
)
    requires
        read_config(contents) == Ok::<_, StdErrorView>(config),
        !config.is_stopped,
        stopping.message.sender@ == config.admin,
        resuming.message.sender@ == config.admin,
    ensures
        ({
            let stopped = handle_outcome(contents, stopping, HandleMsg::StopContract).0;
            let resumed = handle_outcome(stopped, resuming, HandleMsg::ResumeContract).0;
            &&& resumed == write_config(contents, config)
            &&& read_config(resumed) == Ok::<_, StdErrorView>(config)
        }),
{
    lemma_read_config_fits(contents, config);
    settings_change(contents, config, stopping, HandleMsg::StopContract);
    let stopped = handle_outcome(contents, stopping, HandleMsg::StopContract).0;
    let settings = changed_settings(config, HandleMsg::StopContract);
    settings_change(stopped, settings, resuming, HandleMsg::ResumeContract);
    let resumed = handle_outcome(stopped, resuming, HandleMsg::ResumeContract).0;
    assert(changed_settings(settings, HandleMsg::ResumeContract) == config);
    assert(resumed =~= write_config(contents, config));
}

// ---------------------------------------------------------------------------------------------
// Viewing keys
// ---------------------------------------------------------------------------------------------

/// After a user set a viewing key, questions about them are answered for that key, and for no key
/// with another digest.
pub proof fn a_set_viewing_key_opens(
    contents: Contents,
    config: ConfigView,
    env: Env,
    msg: HandleMsg,
    question: QueryMsg,
)
    requires
        read_config(contents) == Ok::<_, StdErrorView>(config),
        !config.is_stopped,
        msg is SetViewingKey,
        question.is_authenticated(),
        question.about() == env.message.sender@,
    ensures
        is_authorized(handle_outcome(contents, env, msg).0, question) <==> key_hash(
            question.offered_key(),
        ) == key_hash(msg->SetViewingKey_key@),
{
}

/// The viewing key that a user is answered with opens questions about them, and no key with
/// another digest does.
pub proof fn a_created_viewing_key_opens(
    contents: Contents,
    config: ConfigView,
    env: Env,
    msg: HandleMsg,
    question: QueryMsg,
)
    requires
        read_config(contents) == Ok::<_, StdErrorView>(config),
        !config.is_stopped,
        msg is CreateViewingKey,
        question.is_authenticated(),
        question.about() == env.message.sender@,
    ensures
        ({
            let key = generated_key(
                env,
                config.prng_seed,
                encode_utf8(msg->CreateViewingKey_entropy@),
            );
            &&& replied(handle_outcome(contents, env, msg)) == Some(
                Ok::<_, StdErrorView>(
                    HandleResponseView {
                        messages: seq![],
                        data: Some(HandleAnswerView::CreateViewingKey { key }),
                    },
                ),
            )
            &&& is_authorized(handle_outcome(contents, env, msg).0, question) <==> key_hash(
                question.offered_key(),
            ) == key_hash(key)
        }),
{
}

/// A user's viewing key stays as it is unless that user sets or generates another. The record of a
/// user whose address is the key of a viewing key would take its place.
pub proof fn viewing_keys_stay(contents: Contents, env: Env, msg: HandleMsg, address: Seq<char>)
    requires
        (msg is SetViewingKey || msg is CreateViewingKey) ==> address != env.message.sender@,
        user_key(account(env, msg)) != viewing_key_key(address),
    ensures
        read_viewing_key(handle_outcome(contents, env, msg).0, address) == read_viewing_key(
            contents,
            address,
        ),
{
    lemma_record_keys();
    lemma_user_keys(address, env.message.sender@);
}

/// A question with a wrong key, or about a user who has set none, is always answered the same,
/// whatever is stored.
pub proof fn a_wrong_key_reveals_nothing(contents: Contents, msg: QueryMsg)
    requires
        msg.is_authenticated(),
        !is_authorized(contents, msg),
    ensures
        query_fits(contents, msg),
        query_answer(contents, msg) == Ok::<_, StdErrorView>(
            QueryAnswerView::QueryError {
                msg: "Wrong viewing key for this address or viewing key not set"@,
            },
        ),
{
}

/// Until a user has a viewing key, no key opens questions about them.
pub proof fn without_a_viewing_key_nothing_opens(contents: Contents, msg: QueryMsg)
    requires
        msg.is_authenticated(),
        read_viewing_key(contents, msg.about()) is None,
    ensures
        !is_authorized(contents, msg),
{
}

// ---------------------------------------------------------------------------------------------
// Deposits
// ---------------------------------------------------------------------------------------------

/// Whether a message hands tokens on to be locked.
pub open spec fn is_lock(msg: HandleMsg) -> bool {
    msg matches HandleMsg::Receive { msg: Payload::Message(handed_on), .. }
        && *handed_on is LockTokens
}

/// Whether a message hands tokens on to be added to the pool.
pub open spec fn is_addition(msg: HandleMsg) -> bool {
    msg matches HandleMsg::Receive { msg: Payload::Message(handed_on), .. }
        && *handed_on is AddToRewardPool
}

/// Whether a user's record has a place of its own: the address is not the key of another record
/// that the message may write.
pub open spec fn is_apart(env: Env, msg: HandleMsg, address: Seq<char>) -> bool {
    &&& msg is Redeem || is_lock(msg) || is_addition(msg) ==> user_key(address) != pool_key()
    &&& msg is UpdateIncentivizedToken || msg is UpdateRewardToken || msg is StopContract
        || msg is ResumeContract || msg is ChangeAdmin ==> user_key(address) != config_key()
    &&& msg is SetViewingKey || msg is CreateViewingKey ==> user_key(address) != viewing_key_key(
        env.message.sender@,
    )
}

/// A pool is read back as it was written, and so is a user's record that is kept elsewhere.
pub proof fn lemma_read_back(
    contents: Contents,
    address: Seq<char>,
    user: UserInfo,
    pool: RewardPool,
)
    ensures
        read_pool(write_pool(contents, pool)) == Ok::<_, StdErrorView>(pool),
        read_user(write_user(contents, address, user), address) == user,
        user_key(address) != pool_key() ==> read_user(
            write_pool(write_user(contents, address, user), pool),
            address,
        ) == user,
        user_key(address) != pool_key() ==> read_user(write_pool(contents, pool), address)
            == read_user(contents, address),
{
    lemma_pool_round_trip(pool);
    lemma_user_round_trip(user);
}

/// What a user has locked, and owes, stays as it is unless they redeem, or lock more.
pub proof fn deposits_stay(contents: Contents, env: Env, msg: HandleMsg, address: Seq<char>)
    requires
        is_apart(env, msg, address),
        address == account(env, msg) ==> !(msg is Redeem) && !is_lock(msg),
    ensures
        read_user(handle_outcome(contents, env, msg).0, address) == read_user(contents, address),
{
    lemma_user_keys(address, account(env, msg));
}

/// Tokens that the incentivized token's contract hands on are locked for their owner, in whole
/// units: the owner's deposit and the pool's supply grow alike. The owner is paid what was pending,
/// and nothing is pending afterwards.
pub proof fn locking_counts(contents: Contents, config: ConfigView, env: Env, msg: HandleMsg)
    requires
        read_config(contents) == Ok::<_, StdErrorView>(config),
        !config.is_stopped,
        is_lock(msg),
        env.message.sender@ == config.inc_token.address,
        read_pool(contents) is Ok,
        user_key(account(env, msg)) != pool_key(),
        is_covered(read_user(contents, account(env, msg)), read_pool(contents)->Ok_0),
        handle_fits(contents, env, msg),
    ensures
        ({
            let owner = account(env, msg);
            let units = whole_units(msg->Receive_amount);
            let user = read_user(contents, owner);
            let pool = updated_pool(
                read_pool(contents)->Ok_0,
                config.end_by_height,
                env.block.height,
            );
            let (after, handled) = handle_outcome(contents, env, msg);
            &&& read_user(after, owner).locked == user.locked + units
            &&& read_pool(after) is Ok
            &&& read_pool(after)->Ok_0.inc_token_supply == pool.inc_token_supply + units
            &&& pending(read_user(after, owner), read_pool(after)->Ok_0) == 0
            &&& replied((after, handled)) matches Some(Ok(response))
                && response.messages == payout_calls(config, owner, pending(user, pool) as u128)
        }),
{
    let owner = account(env, msg);
    let units = whole_units(msg->Receive_amount);
    let pool = read_pool(contents)->Ok_0;
    let updated = updated_pool(pool, config.end_by_height, env.block.height);
    let current = contents_at(contents, pool, config, env.block.height);
    let user = read_user(contents, owner);
    lemma_read_back(contents, owner, user, updated);
    assert(read_user(current, owner) == user);
    vesting_keeps_debts_covered(user, pool, config.end_by_height, env.block.height);
    locking_settles(user, updated, units);
    let settlement = lock_settlement(user, updated, units);
    lemma_read_back(current, owner, settlement.user, settlement.pool);
    lemma_read_back(
        write_user(current, owner, settlement.user),
        owner,
        settlement.user,
        settlement.pool,
    );
}

/// Whoever redeems gets the units back that they asked for, and what was pending; the deposit and
/// the pool's supply shrink alike, and nothing is pending afterwards.
pub proof fn redeeming_pays(
    contents: Contents,
    config: ConfigView,
    env: Env,
    amount: Option<u128>,
)
    requires
        read_config(contents) == Ok::<_, StdErrorView>(config),
        read_pool(contents) is Ok,
        user_key(env.message.sender@) != pool_key(),
        requested_units(read_user(contents, env.message.sender@), amount) <= read_user(
            contents,
            env.message.sender@,
        ).locked,
        handle_fits(contents, env, (HandleMsg::Redeem { amount })),
    ensures
        ({
            let owner = env.message.sender@;
            let user = read_user(contents, owner);
            let units = requested_units(user, amount);
            let pool = updated_pool(
                read_pool(contents)->Ok_0,
                config.end_by_height,
                env.block.height,
            );
            let (after, handled) = handle_outcome(contents, env, HandleMsg::Redeem { amount });
            &&& read_user(after, owner).locked == user.locked - units
            &&& read_pool(after) is Ok
            &&& read_pool(after)->Ok_0.inc_token_supply == pool.inc_token_supply - units
            &&& pending(read_user(after, owner), read_pool(after)->Ok_0) == 0
            &&& replied((after, handled)) == Some(
                Ok::<_, StdErrorView>(
                    HandleResponseView {
                        messages: payout_calls(config, owner, pending(user, pool) as u128).push(
                            transfer_call(
                                config.inc_token,
                                owner,
                                (units * INC_TOKEN_SCALE) as u128,
                            ),
                        ),
                        data: None,
                    },
                ),
            )
        }),
{
    let owner = env.message.sender@;
    let user = read_user(contents, owner);
    let units = requested_units(user, amount);
    let pool = read_pool(contents)->Ok_0;
    let updated = updated_pool(pool, config.end_by_height, env.block.height);
    let current = contents_at(contents, pool, config, env.block.height);
    unlocking_settles(user, updated, units);
    let settlement = unlock_settlement(user, updated, units);
    lemma_read_back(
        write_user(current, owner, settlement.user),
        owner,
        settlement.user,
        settlement.pool,
    );
    lemma_read_back(current, owner, settlement.user, settlement.pool);
}

/// Whoever locks tokens and redeems the same amount at the same height gets the whole units back,
/// and no rewards on top: the deposit and the pool's supply are as before.
pub proof fn redeeming_undoes_locking(
    contents: Contents,
    config: ConfigView,
    locking: Env,
    msg: HandleMsg,
    redeeming: Env,
)
    requires
        read_config(contents) == Ok::<_, StdErrorView>(config),
        !config.is_stopped,
        is_lock(msg),
        locking.message.sender@ == config.inc_token.address,
        redeeming.message.sender@ == account(locking, msg),
        redeeming.block.height == locking.block.height,
        read_pool(contents) is Ok,
        user_key(account(locking, msg)) != config_key(),
        user_key(account(locking, msg)) != pool_key(),
        is_covered(read_user(contents, account(locking, msg)), read_pool(contents)->Ok_0),
        handle_fits(contents, locking, msg),
        amount_fits(
            (read_user(contents, account(locking, msg)).locked + whole_units(
                msg->Receive_amount,
            )) as u128,
        ),
    ensures
        ({
            let owner = account(locking, msg);
            let locked = handle_outcome(contents, locking, msg).0;
            let back = HandleMsg::Redeem { amount: Some(msg->Receive_amount) };
            let (redeemed, handled) = handle_outcome(locked, redeeming, back);
            &&& handle_fits(locked, redeeming, back)
            &&& read_user(redeemed, owner).locked == read_user(contents, owner).locked
            &&& read_pool(redeemed) is Ok
            &&& read_pool(redeemed)->Ok_0.inc_token_supply
                == read_pool(contents)->Ok_0.inc_token_supply
            &&& replied((redeemed, handled)) matches Some(Ok(response)) && response.messages
                == seq![
                transfer_call(
                    config.inc_token,
                    owner,
                    (whole_units(msg->Receive_amount) * INC_TOKEN_SCALE) as u128,
                ),
            ]
        }),
{
    let owner = account(locking, msg);
    let amount = Some(msg->Receive_amount);
    let units = whole_units(msg->Receive_amount);
    let locked = handle_outcome(contents, locking, msg).0;
    let user = read_user(contents, owner);
    let pool = read_pool(contents)->Ok_0;
    let updated = updated_pool(pool, config.end_by_height, locking.block.height);
    let current = contents_at(contents, pool, config, locking.block.height);
    locking_counts(contents, config, locking, msg);
    vesting_keeps_debts_covered(user, pool, config.end_by_height, locking.block.height);
    lemma_read_back(contents, owner, user, updated);
    locking_settles(user, updated, units);
    let settlement = lock_settlement(user, updated, units);
    lemma_read_back(
        write_user(current, owner, settlement.user),
        owner,
        settlement.user,
        settlement.pool,
    );
    lemma_read_back(current, owner, settlement.user, settlement.pool);
    settings_stay(contents, config, locking, msg);
    assert(read_pool(locked) == Ok::<_, StdErrorView>(settlement.pool));
    assert(read_user(locked, owner) == settlement.user);
    assert(updated_pool(settlement.pool, config.end_by_height, locking.block.height)
        == settlement.pool);
    assert(vested(settlement.pool, config.end_by_height, locking.block.height) == 0);
    lemma_idle_update_fits(settlement.pool, config.end_by_height, locking.block.height);
    redeeming_pays(locked, config, redeeming, amount);
    let calls = payout_calls(config, owner, 0);
    let back = transfer_call(config.inc_token, owner, (units * INC_TOKEN_SCALE) as u128);
    assert(calls.push(back) =~= seq![back]);
}

/// An update that is not due fits.
proof fn lemma_idle_update_fits(pool: RewardPool, end_by_height: u64, height: u64)
    requires
        !is_due(pool, end_by_height, height),
    ensures
        update_fits(pool, end_by_height, height),
{
    if pool.inc_token_supply > 0 {
        assert(0int / (pool.inc_token_supply as int) == 0) by (nonlinear_arith)
            requires
                pool.inc_token_supply > 0,
        ;
    }
}

/// The rewards that a question is answered with are those that redeeming pays, as long as the pool
/// is up to date.
pub proof fn the_answer_is_what_redeeming_pays(
    contents: Contents,
    config: ConfigView,
    env: Env,
    amount: Option<u128>,
    question: QueryMsg,
)
    requires
        read_config(contents) == Ok::<_, StdErrorView>(config),
        read_pool(contents) is Ok,
        !is_due(read_pool(contents)->Ok_0, config.end_by_height, env.block.height),
        question is QueryRewards,
        question.about() == env.message.sender@,
        is_authorized(contents, question),
        requested_units(read_user(contents, env.message.sender@), amount) <= read_user(
            contents,
            env.message.sender@,
        ).locked,
        handle_fits(contents, env, (HandleMsg::Redeem { amount })),
    ensures
        query_fits(contents, question),
        query_answer(contents, question) matches Ok(QueryAnswerView::QueryRewards { rewards })
            && replied(handle_outcome(contents, env, HandleMsg::Redeem { amount })) matches Some(
            Ok(response),
        ) && response.messages == payout_calls(config, env.message.sender@, rewards).push(
            transfer_call(
                config.inc_token,
                env.message.sender@,
                (requested_units(read_user(contents, env.message.sender@), amount)
                    * INC_TOKEN_SCALE) as u128,
            ),
        ),
{
}

/// What some users have locked together.
pub open spec fn total_locked(contents: Contents, users: Seq<Seq<char>>) -> int
    decreases users.len(),
{
    if users.len() == 0 {
        0
    } else {
        total_locked(contents, users.drop_last()) + read_user(contents, users.last()).locked
    }
}

/// Where only one user's record differs, the totals differ by as much as that record.
proof fn lemma_total_locked(
    before: Contents,
    after: Contents,
    users: Seq<Seq<char>>,
    owner: Seq<char>,
)
    requires
        users.no_duplicates(),
        forall|i: int|
            0 <= i < users.len() && users[i] != owner ==> read_user(after, #[trigger] users[i])
                == read_user(before, users[i]),
    ensures
        total_locked(after, users) - total_locked(before, users) == if users.contains(owner) {
            read_user(after, owner).locked - read_user(before, owner).locked
        } else {
            0
        },
    decreases users.len(),
{
    if users.len() > 0 {
        let rest = users.drop_last();
        assert(forall|i: int| 0 <= i < rest.len() ==> #[trigger] rest[i] == users[i]);
        lemma_total_locked(before, after, rest, owner);
        if users.last() == owner {
            assert(users[users.len() - 1] == owner);
            assert(!rest.contains(owner));
        } else {
            assert(read_user(after, users[users.len() - 1]) == read_user(
                before,
                users[users.len() - 1],
            ));
            assert(users.contains(owner) <==> rest.contains(owner)) by {
                if users.contains(owner) {
                    let i = users.index_of(owner);
                    assert(rest[i] == owner);
                }
                if rest.contains(owner) {
                    let i = rest.index_of(owner);
                    assert(users[i] == owner);
                }
            }
        }
    }
}

/// Nobody has more locked than all together.
proof fn lemma_total_locked_covers(contents: Contents, users: Seq<Seq<char>>, owner: Seq<char>)
    requires
        users.contains(owner),
    ensures
        read_user(contents, owner).locked <= total_locked(contents, users),
    decreases users.len(),
{
    let rest = users.drop_last();
    lemma_total_locked_positive(contents, rest);
    if users.last() != owner {
        let i = users.index_of(owner);
        assert(rest[i] == owner);
        lemma_total_locked_covers(contents, rest, owner);
    }
}

/// Totals are not negative.
proof fn lemma_total_locked_positive(contents: Contents, users: Seq<Seq<char>>)
    ensures
        total_locked(contents, users) >= 0,
    decreases users.len(),
{
    if users.len() > 0 {
        lemma_total_locked_positive(contents, users.drop_last());
    }
}

/// The pool's supply changes by as much as the deposit of the message's user.
proof fn lemma_supply_follows_deposit(contents: Contents, env: Env, msg: HandleMsg)
    requires
        read_pool(contents) is Ok,
        msg is Redeem || is_lock(msg) ==> user_key(account(env, msg)) != pool_key(),
        handle_fits(contents, env, msg),
    ensures
        ({
            let owner = account(env, msg);
            let after = handle_outcome(contents, env, msg).0;
            &&& read_pool(after) is Ok
            &&& read_pool(after)->Ok_0.inc_token_supply
                - read_pool(contents)->Ok_0.inc_token_supply == if msg is Redeem || is_lock(msg) {
                read_user(after, owner).locked - read_user(contents, owner).locked
            } else {
                0
            }
        }),
{
    let owner = account(env, msg);
    let pool = read_pool(contents)->Ok_0;
    let user = read_user(contents, owner);
    lemma_record_keys();
    if read_config(contents) is Ok {
        let config = read_config(contents)->Ok_0;
        let updated = updated_pool(pool, config.end_by_height, env.block.height);
        let current = contents_at(contents, pool, config, env.block.height);
        if msg is Redeem {
            if requested_units(user, msg->Redeem_amount) <= user.locked {
                redeeming_pays(contents, config, env, msg->Redeem_amount);
            }
        } else if is_lock(msg) {
            if !config.is_stopped && env.message.sender@ == config.inc_token.address {
                lemma_read_back(contents, owner, user, updated);
                let settlement = lock_settlement(user, updated, whole_units(msg->Receive_amount));
                lemma_read_back(
                    write_user(current, owner, settlement.user),
                    owner,
                    settlement.user,
                    settlement.pool,
                );
                lemma_read_back(current, owner, settlement.user, settlement.pool);
            }
        } else if is_addition(msg) {
            let more = RewardPool {
                pending_rewards: (updated.pending_rewards + msg->Receive_amount) as u128,
                ..updated
            };
            lemma_pool_round_trip(more);
        }
    }
}

/// The pool's supply is what all users have locked together, and every message keeps it so.
pub proof fn the_supply_is_what_is_locked(
    contents: Contents,
    env: Env,
    msg: HandleMsg,
    users: Seq<Seq<char>>,
)
    requires
        users.no_duplicates(),
        forall|i: int| 0 <= i < users.len() ==> is_apart(
            env,
            msg,
            #[trigger] users[i],
        ),
        msg is Redeem || is_lock(msg) ==> users.contains(account(env, msg)),
        read_pool(contents) is Ok,
        read_pool(contents)->Ok_0.inc_token_supply == total_locked(contents, users),
        handle_fits(contents, env, msg),
    ensures
        read_pool(handle_outcome(contents, env, msg).0) is Ok,
        read_pool(handle_outcome(contents, env, msg).0)->Ok_0.inc_token_supply == total_locked(
            handle_outcome(contents, env, msg).0,
            users,
        ),
{
    let owner = account(env, msg);
    let after = handle_outcome(contents, env, msg).0;
    assert forall|i: int|
        0 <= i < users.len() && (users[i] != owner || !(msg is Redeem || is_lock(
            msg,
        ))) implies read_user(after, #[trigger] users[i]) == read_user(contents, users[i]) by {
        deposits_stay(contents, env, msg, users[i]);
    }
    lemma_total_locked(contents, after, users, owner);
    if users.contains(owner) {
        assert(is_apart(env, msg, users[users.index_of(owner)]));
    }
    lemma_supply_follows_deposit(contents, env, msg);
}

/// No user owes more than has accumulated for them, and every message keeps it so.
pub proof fn debts_stay_covered(
    contents: Contents,
    env: Env,
    msg: HandleMsg,
    address: Seq<char>,
)
    requires
        is_apart(env, msg, address),
        read_pool(contents) is Ok,
        is_covered(read_user(contents, address), read_pool(contents)->Ok_0),
        handle_fits(contents, env, msg),
    ensures
        read_pool(handle_outcome(contents, env, msg).0) is Ok,
        is_covered(
            read_user(handle_outcome(contents, env, msg).0, address),
            read_pool(handle_outcome(contents, env, msg).0)->Ok_0,
        ),
{
    let owner = account(env, msg);
    let after = handle_outcome(contents, env, msg).0;
    let pool = read_pool(contents)->Ok_0;
    lemma_record_keys();
    lemma_user_keys(address, owner);
    if read_config(contents) is Ok {
        let config = read_config(contents)->Ok_0;
        let updated = updated_pool(pool, config.end_by_height, env.block.height);
        let current = contents_at(contents, pool, config, env.block.height);
        if address != owner || (!(msg is Redeem) && !is_lock(msg)) {
            deposits_stay(contents, env, msg, address);
        }
        if msg is Redeem {
            let amount = msg->Redeem_amount;
            let user = read_user(contents, owner);
            let units = requested_units(user, amount);
            if units <= user.locked {
                vesting_keeps_debts_covered(
                    read_user(contents, address),
                    pool,
                    config.end_by_height,
                    env.block.height,
                );
                unlocking_settles(user, updated, units);
                let settlement = unlock_settlement(user, updated, units);
                lemma_read_back(
                    write_user(current, owner, settlement.user),
                    owner,
                    settlement.user,
                    settlement.pool,
                );
                lemma_read_back(current, owner, settlement.user, settlement.pool);
            }
        } else if is_lock(msg) && !config.is_stopped && env.message.sender@
            == config.inc_token.address {
            vesting_keeps_debts_covered(
                read_user(contents, address),
                pool,
                config.end_by_height,
                env.block.height,
            );
            let units = whole_units(msg->Receive_amount);
            let user = read_user(current, owner);
            lemma_read_back(contents, owner, user, updated);
            let settlement = lock_settlement(user, updated, units);
            lemma_read_back(
                write_user(current, owner, settlement.user),
                owner,
                settlement.user,
                settlement.pool,
            );
            lemma_read_back(current, owner, settlement.user, settlement.pool);
            if address == owner {
                locking_settles(user, updated, units);
            }
        } else if is_addition(msg) && !config.is_stopped && env.message.sender@
            == config.reward_token.address {
            vesting_keeps_debts_covered(
                read_user(contents, address),
                pool,
                config.end_by_height,
                env.block.height,
            );
            let more = RewardPool {
                pending_rewards: (updated.pending_rewards + msg->Receive_amount) as u128,
                ..updated
            };
            lemma_pool_round_trip(more);
        }
    }
}

/// What some users together have not been paid yet.
pub open spec fn total_pending(contents: Contents, users: Seq<Seq<char>>, pool: RewardPool) -> int
    decreases users.len(),
{
    if users.len() == 0 {
        0
    } else {
        total_pending(contents, users.drop_last(), pool) + pending(
            read_user(contents, users.last()),
            pool,
        )
    }
}

/// What one update adds for one user is at most their share, and less than one more by rounding.
proof fn lemma_share(units: u128, before: RewardPool, after: RewardPool)
    requires
        before.acc_reward_per_share <= after.acc_reward_per_share,
    ensures
        (accumulated(units, after) - accumulated(units, before) - 1) * REWARD_SCALE <= units * (
        after.acc_reward_per_share - before.acc_reward_per_share),
{
    let x = units * before.acc_reward_per_share;
    let y = units * after.acc_reward_per_share;
    let scale = REWARD_SCALE as int;
    lemma_fundamental_div_mod(x, scale);
    lemma_fundamental_div_mod(y, scale);
    lemma_mod_bound(x, scale);
    lemma_mod_bound(y, scale);
    assert((y / scale - x / scale - 1) * scale == scale * (y / scale) - scale * (x / scale)
        - scale) by (nonlinear_arith);
    assert(units * (after.acc_reward_per_share - before.acc_reward_per_share) == y - x)
        by (nonlinear_arith)
        requires
            x == units * before.acc_reward_per_share,
            y == units * after.acc_reward_per_share,
    ;
}

/// What one update adds for some users is at most their share, and less than one more for each.
proof fn lemma_shares(
    contents: Contents,
    users: Seq<Seq<char>>,
    before: RewardPool,
    after: RewardPool,
)
    requires
        before.acc_reward_per_share <= after.acc_reward_per_share,
    ensures
        (total_pending(contents, users, after) - total_pending(contents, users, before)
            - users.len()) * REWARD_SCALE <= total_locked(contents, users) * (
        after.acc_reward_per_share - before.acc_reward_per_share),
    decreases users.len(),
{
    let gain = after.acc_reward_per_share - before.acc_reward_per_share;
    if users.len() == 0 {
        assert(0 * gain == 0);
    } else {
        let rest = users.drop_last();
        let user = read_user(contents, users.last());
        lemma_shares(contents, rest, before, after);
        lemma_share(user.locked, before, after);
        let others = total_pending(contents, rest, after) - total_pending(contents, rest, before)
            - rest.len();
        let own = accumulated(user.locked, after) - accumulated(user.locked, before) - 1;
        let locked = total_locked(contents, rest);
        assert((others + own) * REWARD_SCALE <= (locked + user.locked) * gain)
            by (nonlinear_arith)
            requires
                others * REWARD_SCALE <= locked * gain,
                own * REWARD_SCALE <= user.locked * gain,
        ;
        assert(total_pending(contents, users, after) - total_pending(contents, users, before)
            - users.len() == others + own);
    }
}

/// An update promises all users together at most what vests; rounding can add less than one for
/// each of them.
pub proof fn no_more_is_promised_than_vests(
    contents: Contents,
    users: Seq<Seq<char>>,
    pool: RewardPool,
    end_by_height: u64,
    height: u64,
)
    requires
        pool.inc_token_supply == total_locked(contents, users),
        update_fits(pool, end_by_height, height),
    ensures
        total_pending(contents, users, updated_pool(pool, end_by_height, height)) - total_pending(
            contents,
            users,
            pool,
        ) <= vested(pool, end_by_height, height) + users.len(),
{
    let updated = updated_pool(pool, end_by_height, height);
    rewards_only_accumulate(pool, end_by_height, height);
    lemma_shares(contents, users, pool, updated);
    no_more_is_shared_out_than_vests(pool, end_by_height, height);
    let gain = updated.acc_reward_per_share - pool.acc_reward_per_share;
    let promised = total_pending(contents, users, updated) - total_pending(contents, users, pool)
        - users.len();
    let vesting = vested(pool, end_by_height, height);
    lemma_vested_at_most_pending(pool, end_by_height, height);
    assert(total_locked(contents, users) * gain <= vesting * REWARD_SCALE) by {
        if is_due(pool, end_by_height, height) {
            assert(gain == vested_per_share(pool, end_by_height, height));
            lemma_mul_is_commutative(gain, pool.inc_token_supply as int);
        } else {
            assert(total_locked(contents, users) * 0 == 0);
        }
    }
    assert(promised <= vesting) by (nonlinear_arith)
        requires
            promised * REWARD_SCALE <= vesting * REWARD_SCALE,
            REWARD_SCALE > 0,
    ;
}

/// As long as the supply is what all users have locked together, and debts are covered, redeeming
/// what one has locked succeeds for all numbers that stay within their type.
pub proof fn redeeming_succeeds(
    contents: Contents,
    config: ConfigView,
    env: Env,
    amount: Option<u128>,
    users: Seq<Seq<char>>,
)
    requires
        read_config(contents) == Ok::<_, StdErrorView>(config),
        read_pool(contents) is Ok,
        users.contains(env.message.sender@),
        read_pool(contents)->Ok_0.inc_token_supply == total_locked(contents, users),
        is_covered(read_user(contents, env.message.sender@), read_pool(contents)->Ok_0),
        update_fits(read_pool(contents)->Ok_0, config.end_by_height, env.block.height),
        amount_fits(read_user(contents, env.message.sender@).locked),
        read_user(contents, env.message.sender@).locked * updated_pool(
            read_pool(contents)->Ok_0,
            config.end_by_height,
            env.block.height,
        ).acc_reward_per_share <= u128::MAX,
        requested_units(read_user(contents, env.message.sender@), amount) <= read_user(
            contents,
            env.message.sender@,
        ).locked,
    ensures
        handle_fits(contents, env, (HandleMsg::Redeem { amount })),
        replied(handle_outcome(contents, env, HandleMsg::Redeem { amount })) matches Some(Ok(_)),
{
    let user = read_user(contents, env.message.sender@);
    let pool = read_pool(contents)->Ok_0;
    vesting_keeps_debts_covered(user, pool, config.end_by_height, env.block.height);
    lemma_total_locked_covers(contents, users, env.message.sender@);
}

/// What is pending in the pool grows by what the reward token's contract hands on to be added, and
/// stays as it is otherwise.
pub proof fn only_the_reward_token_feeds_the_pool(contents: Contents, env: Env, msg: HandleMsg)
    requires
        read_pool(contents) is Ok,
        handle_fits(contents, env, msg),
    ensures
        read_pool(handle_outcome(contents, env, msg).0) is Ok,
        read_pool(handle_outcome(contents, env, msg).0)->Ok_0.pending_rewards
            == read_pool(contents)->Ok_0.pending_rewards + if is_addition(msg) && (read_config(
            contents,
        ) matches Ok(config) && !config.is_stopped && env.message.sender@
            == config.reward_token.address) {
            msg->Receive_amount as int
        } else {
            0
        },
{
    lemma_record_keys();
    let pool = read_pool(contents)->Ok_0;
    if read_config(contents) is Ok {
        let config = read_config(contents)->Ok_0;
        let updated = updated_pool(pool, config.end_by_height, env.block.height);
        let current = contents_at(contents, pool, config, env.block.height);
        let owner = account(env, msg);
        if msg is Redeem {
            let user = read_user(contents, owner);
            let settlement = unlock_settlement(
                user,
                updated,
                requested_units(user, msg->Redeem_amount),
            );
            lemma_pool_round_trip(settlement.pool);
        } else if is_lock(msg) {
            let settlement = lock_settlement(
                read_user(current, owner),
                updated,
                whole_units(msg->Receive_amount),
            );
            lemma_pool_round_trip(settlement.pool);
        } else if is_addition(msg) {
            let more = RewardPool {
                pending_rewards: (updated.pending_rewards + msg->Receive_amount) as u128,
                ..updated
            };
            lemma_pool_round_trip(more);
        }
    }
}

/// Tokens that another contract than the incentivized token's hands on are not locked, and tokens
/// that another contract than the reward token's hands on are not added to the pool.
pub proof fn other_tokens_are_refused(
    contents: Contents,
    config: ConfigView,
    env: Env,
    msg: HandleMsg,
)
    requires
        read_config(contents) == Ok::<_, StdErrorView>(config),
        !config.is_stopped,
        is_lock(msg) && env.message.sender@ != config.inc_token.address || is_addition(msg)
            && env.message.sender@ != config.reward_token.address,
    ensures
        handle_outcome(contents, env, msg).0 == contents,
        replied(handle_outcome(contents, env, msg)) == Some(
            Err::<HandleResponseView, _>(unsupported_token(env, config)),
        ),
{
}

// ---------------------------------------------------------------------------------------------
// Setting up, claiming and padding
// ---------------------------------------------------------------------------------------------

/// A new contract has the settings that it was set up with, and no pool yet: until a pool takes the
/// place of the bare number, whoever locks or redeems tokens, or adds rewards, is refused.
pub proof fn a_new_contract_has_no_pool(
    contents: Contents,
    setup: Env,
    init: InitMsg,
    env: Env,
    msg: HandleMsg,
)
    requires
        config_fits(initial_config(setup, init)),
    ensures
        read_config(initial_contents(contents, setup, init)) == Ok::<_, StdErrorView>(
            initial_config(setup, init),
        ),
        read_pool(initial_contents(contents, setup, init)) == Err::<RewardPool, _>(
            StdErrorView::Unreadable { kind: Record::RewardPool },
        ),
        msg is Redeem || msg is Receive ==> replied(
            handle_outcome(initial_contents(contents, setup, init), env, msg),
        ) matches Some(Err(_)),
{
    lemma_record_keys();
    lemma_config_round_trip(initial_config(setup, init));
    lemma_auto_spec_u128_to_from_le_bytes();
}

/// A claim is for the admin, from the claim height on, and pays the contract's whole balance of the
/// reward token to the recipient, or to the admin.
pub proof fn a_claim_pays_the_whole_balance(
    contents: Contents,
    config: ConfigView,
    env: Env,
    recipient: Option<String>,
    balance: u128,
)
    requires
        read_config(contents) == Ok::<_, StdErrorView>(config),
        !config.is_stopped,
        env.message.sender@ == config.admin,
        env.block.height >= config.pool_claim_height,
    ensures
        match handle_outcome(contents, env, HandleMsg::ClaimRewardPool { recipient }).1 {
            HandledView::Claim(claim) => {
                &&& claim.query.address == env.contract.address@
                &&& claim.query.contract_addr == config.reward_token.address
                &&& claim.query.key == config.viewing_key
                &&& claim_end(claim, Ok(balance)) == Ok::<_, StdErrorView>(
                    HandleResponseView {
                        messages: seq![
                            transfer_call(
                                config.reward_token,
                                match recipient {
                                    Some(recipient) => recipient@,
                                    None => config.admin,
                                },
                                balance,
                            ),
                        ],
                        data: None,
                    },
                )
            },
            _ => false,
        },
{
}

/// The pool cannot be claimed before its time.
pub proof fn no_claim_before_its_time(
    contents: Contents,
    config: ConfigView,
    env: Env,
    recipient: Option<String>,
)
    requires
        read_config(contents) == Ok::<_, StdErrorView>(config),
        env.block.height < config.pool_claim_height,
    ensures
        replied(
            handle_outcome(contents, env, HandleMsg::ClaimRewardPool { recipient }),
        ) matches Some(Err(_)),
{
}

/// Padding keeps the data, adds spaces behind it, fewer than make a block, and fills whole blocks.
pub proof fn padding_fills_blocks(data: Seq<u8>, block_size: nat)
    requires
        block_size > 0,
    ensures
        space_padded(data, block_size).len() % block_size == 0,
        data.len() <= space_padded(data, block_size).len() < data.len() + block_size,
        data.is_prefix_of(space_padded(data, block_size)),
        forall|i: int|
            data.len() <= i < space_padded(data, block_size).len() ==> #[trigger] space_padded(
                data,
                block_size,
            )[i] == 0x20u8,
{
    let surplus = data.len() % block_size;
    lemma_fundamental_div_mod(data.len() as int, block_size as int);
    if surplus != 0 {
        let blocks = data.len() as int / block_size as int;
        assert(block_size * blocks + block_size == block_size * (blocks + 1)) by (nonlinear_arith);
        lemma_mod_multiples_basic(blocks + 1, block_size as int);
    }
}

} // verus!
