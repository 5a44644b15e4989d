//! What each operation does, in plain arithmetic on what is stored before and after it.
//!
//! Numbers that come of a division are described by the products between which they lie: `q` is
//! the quotient of `x` by `d` where `q * d <= x < (q + 1) * d`.

use vstd::arithmetic::div_mod::{
    lemma_div_denominator, lemma_fundamental_div_mod, lemma_fundamental_div_mod_converse,
    lemma_mod_bound,
};
use vstd::bytes::{
    lemma_auto_spec_u128_to_from_le_bytes, lemma_auto_spec_u64_to_from_le_bytes,
    spec_u128_to_le_bytes, spec_u64_to_le_bytes,
};
use vstd::prelude::*;
use vstd::utf8::{encode_utf8, is_ascii_chars_encode_utf8};

use crate::constants::{INC_TOKEN_SCALE, REWARD_SCALE};
use crate::contract::{answer_view, Claim, Handled};
use crate::crypto::{base64_text, first_random_bytes, sha_256_digest};
use crate::env::Env;
use crate::error::{Record, StdError, StdErrorView};
use crate::laws::{lemma_read_back, padding_fills_blocks, same_at};
use crate::model::{
    account, add_to_pool_fits, add_to_pool_outcome, authenticated_answer, change_admin_outcome,
    changed_settings, claim_end, claim_start, contents_at, create_viewing_key_outcome, execute_fits,
    execute_outcome, generate_viewing_key_outcome, handle_fits, handle_outcome, initial_calls,
    initial_config, initial_contents, is_authorized, lock_tokens_fits, lock_tokens_outcome, padded,
    payout_calls, pending_rewards_answer, query_answer, query_fits, receive_outcome, redeem_fits,
    redeem_outcome, reply_view, resume_contract_outcome, set_viewing_key_outcome, settings_answer,
    stop_contract_outcome, transfer_call, update_inc_token_outcome, update_reward_token_outcome,
    HandledView, Reply,
};
use crate::msg::{
    HandleAnswer, HandleAnswerView, HandleMsg, HandleResponse, HandleResponseView, InitMsg, Payload,
    QueryAnswer, QueryAnswerView, QueryMsg, ResponseStatus,
};
use crate::padding::space_padded;
use crate::rewards::{
    accumulated, amount_fits, lock_fits, lock_settlement, pending, pending_fits, requested_units,
    unlock_fits, unlock_settlement, update_fits, updated_pool, vested, vested_per_share,
    whole_units,
};
use crate::snip20::{
    padded_call, register_receive_payload, set_viewing_key_payload, text_view, transfer_payload,
    Execute, ExecuteView,
};
use crate::state::{Config, ConfigView, RewardPool, Snip20, Snip20View, UserInfo};
use crate::storage::{
    config_encoding, config_fits, config_key, holds_config, lemma_config_decoding,
    lemma_config_round_trip,
    lemma_pool_as_user, lemma_pool_round_trip, lemma_record_keys, load_refusal, pool_decoding,
    pool_key, read_config, read_pool, read_user, read_viewing_key, record_view, user_key,
    viewing_key_key, write_config, write_pool, write_user, write_viewing_key, ConfigRecord,
    Contents, LoadError,
};
use crate::text::decimal;
use crate::viewing_key::{big_endian, key_hash, ViewingKey};

verus! {

/// A quotient lies between two products.
proof fn lemma_quotient(x: int, d: int)
    requires
        d > 0,
    ensures
        x / d * d <= x < (x / d + 1) * d,
{
    lemma_fundamental_div_mod(x, d);
    lemma_mod_bound(x, d);
    let q = x / d;
    assert(q * d == d * q && (q + 1) * d == d * q + d) by (nonlinear_arith);
}

/// Only the quotient lies between those products.
proof fn lemma_only_quotient(x: int, d: int, q: int)
    requires
        d > 0,
        q * d <= x < (q + 1) * d,
    ensures
        q == x / d,
{
    assert((q + 1) * d == q * d + d) by (nonlinear_arith);
    lemma_fundamental_div_mod_converse(x, d, q, x - q * d);
}

// ---------------------------------------------------------------------------------------------
// Vesting
// ---------------------------------------------------------------------------------------------

/// Where tokens are locked and the end has not passed, the pending rewards vest in proportion to
/// the blocks that went by, whatever has accumulated before; rounding takes less than one reward
/// per block. What vests is shared equally by the locked units, and nothing else changes but the
/// height.
pub proof fn rewards_vest_in_proportion(pool: RewardPool, end_by_height: u64, height: u64)
    requires
        pool.last_reward_block < height <= end_by_height,
        pool.inc_token_supply > 0,
    ensures
        ({
            let passed = height - pool.last_reward_block;
            let to_go = end_by_height - pool.last_reward_block;
            let rewards = vested(pool, end_by_height, height);
            let gain = vested_per_share(pool, end_by_height, height);
            &&& pool.pending_rewards * passed - passed * to_go < rewards * to_go
            &&& rewards * to_go <= pool.pending_rewards * passed
            &&& gain * pool.inc_token_supply <= rewards * REWARD_SCALE
            &&& rewards * REWARD_SCALE < (gain + 1) * pool.inc_token_supply
            &&& update_fits(pool, end_by_height, height) ==> updated_pool(
                pool,
                end_by_height,
                height,
            ) == (RewardPool {
                pending_rewards: pool.pending_rewards,
                inc_token_supply: pool.inc_token_supply,
                last_reward_block: height,
                acc_reward_per_share: (pool.acc_reward_per_share + gain) as u128,
            })
        }),
{
    let passed = height - pool.last_reward_block;
    let to_go = end_by_height - pool.last_reward_block;
    let part = pool.pending_rewards as int / to_go;
    lemma_quotient(pool.pending_rewards as int, to_go);
    rewards_vest_block_by_block(pool, end_by_height, height, part as nat);
    let rewards = vested(pool, end_by_height, height);
    assert(pool.pending_rewards * passed - passed * to_go < rewards * to_go
        && rewards * to_go <= pool.pending_rewards * passed) by (nonlinear_arith)
        requires
            rewards == passed * part,
            part * to_go <= pool.pending_rewards < (part + 1) * to_go,
            passed > 0,
            to_go > 0,
    ;
    lemma_quotient(rewards * REWARD_SCALE, pool.inc_token_supply as int);
}

/// Each block lets the same number of rewards vest: the pending rewards divided by the blocks that
/// were left.
pub proof fn rewards_vest_block_by_block(
    pool: RewardPool,
    end_by_height: u64,
    height: u64,
    per_block: nat,
)
    requires
        pool.last_reward_block < height <= end_by_height,
        pool.inc_token_supply > 0,
        per_block * (end_by_height - pool.last_reward_block) <= pool.pending_rewards < (per_block
            + 1) * (end_by_height - pool.last_reward_block),
    ensures
        vested(pool, end_by_height, height) == (height - pool.last_reward_block) * per_block,
        vested(pool, end_by_height, height) >= 0,
{
    let to_go = end_by_height - pool.last_reward_block;
    lemma_only_quotient(pool.pending_rewards as int, to_go, per_block as int);
    assert((height - pool.last_reward_block) * per_block >= 0) by (nonlinear_arith)
        requires
            pool.last_reward_block < height,
    ;
}

/// Without locked tokens, an update moves the height on and nothing else; at a height that was
/// reached before, or after the end, it does nothing at all.
pub proof fn other_updates_share_nothing_out(pool: RewardPool, end_by_height: u64, height: u64)
    requires
        pool.inc_token_supply == 0 || height <= pool.last_reward_block || height > end_by_height,
    ensures
        vested(pool, end_by_height, height) == 0,
        update_fits(pool, end_by_height, height),
        updated_pool(pool, end_by_height, height) == if pool.last_reward_block < height
            <= end_by_height {
            RewardPool {
                pending_rewards: pool.pending_rewards,
                inc_token_supply: pool.inc_token_supply,
                last_reward_block: height,
                acc_reward_per_share: pool.acc_reward_per_share,
            }
        } else {
            pool
        },
{
    if pool.inc_token_supply > 0 {
        assert(0int / (pool.inc_token_supply as int) == 0) by (nonlinear_arith)
            requires
                pool.inc_token_supply > 0,
        ;
    }
}

/// An update fits exactly where the scaled rewards and the new reward per unit do.
pub proof fn when_an_update_fits(
    pool: RewardPool,
    end_by_height: u64,
    height: u64,
    per_block: nat,
    gain: nat,
)
    requires
        pool.last_reward_block < height <= end_by_height,
        pool.inc_token_supply > 0,
        per_block * (end_by_height - pool.last_reward_block) <= pool.pending_rewards < (per_block
            + 1) * (end_by_height - pool.last_reward_block),
        gain * pool.inc_token_supply <= (height - pool.last_reward_block) * per_block
            * REWARD_SCALE < (gain + 1) * pool.inc_token_supply,
    ensures
        update_fits(pool, end_by_height, height) <==> (height - pool.last_reward_block) * per_block
            * REWARD_SCALE <= u128::MAX && pool.acc_reward_per_share + gain <= u128::MAX,
        update_fits(pool, end_by_height, height) ==> updated_pool(
            pool,
            end_by_height,
            height,
        ).acc_reward_per_share == pool.acc_reward_per_share + gain,
{
    rewards_vest_block_by_block(pool, end_by_height, height, per_block);
    lemma_only_quotient(
        vested(pool, end_by_height, height) * REWARD_SCALE,
        pool.inc_token_supply as int,
        gain as int,
    );
}

// ---------------------------------------------------------------------------------------------
// Units and settlements
// ---------------------------------------------------------------------------------------------

/// An amount holds as many units as fit into it.
pub proof fn units_of_an_amount(amount: u128)
    ensures
        whole_units(amount) * INC_TOKEN_SCALE <= amount < (whole_units(amount) + 1)
            * INC_TOKEN_SCALE,
{
    lemma_quotient(amount as int, INC_TOKEN_SCALE as int);
}

/// Whoever names an amount asks for the units in it; whoever names none asks for all they have.
pub proof fn units_asked_for(user: UserInfo, amount: Option<u128>)
    ensures
        match amount {
            Some(amount) => requested_units(user, Some(amount)) * INC_TOKEN_SCALE <= amount < (
            requested_units(user, Some(amount)) + 1) * INC_TOKEN_SCALE,
            None => requested_units(user, None) == user.locked,
        },
        amount_fits(user.locked) <==> user.locked * INC_TOKEN_SCALE <= u128::MAX,
{
    if amount is Some {
        units_of_an_amount(amount->0);
    }
}

/// What a user is owed: their units times the reward per unit, scaled down, less their debt.
pub proof fn what_is_pending(user: UserInfo, pool: RewardPool)
    ensures
        (pending(user, pool) + user.debt) * REWARD_SCALE <= user.locked * pool.acc_reward_per_share
            < (pending(user, pool) + user.debt + 1) * REWARD_SCALE,
        pending_fits(user, pool) <==> user.debt * REWARD_SCALE <= user.locked
            * pool.acc_reward_per_share <= u128::MAX,
{
    let product = user.locked * pool.acc_reward_per_share;
    lemma_quotient(product, REWARD_SCALE as int);
    let q = accumulated(user.locked, pool);
    assert(user.debt <= q <==> user.debt * REWARD_SCALE <= product) by (nonlinear_arith)
        requires
            q * REWARD_SCALE <= product < (q + 1) * REWARD_SCALE,
            REWARD_SCALE > 0,
    ;
}

/// Whether a debt covers everything that units have accumulated, and no more.
pub open spec fn is_settled(user: UserInfo, acc_reward_per_share: u128) -> bool {
    user.debt * REWARD_SCALE <= user.locked * acc_reward_per_share < (user.debt + 1) * REWARD_SCALE
}

/// Locking adds the units to the user and to the pool, pays what is pending, and sets the debt to
/// what the units have accumulated. A user without units is paid nothing.
pub proof fn what_locking_does(user: UserInfo, pool: RewardPool, units: u128)
    ensures
        lock_fits(user, pool, units) <==> {
            &&& user.locked > 0 ==> user.debt * REWARD_SCALE <= user.locked
                * pool.acc_reward_per_share <= u128::MAX
            &&& user.locked + units <= u128::MAX
            &&& (user.locked + units) * pool.acc_reward_per_share <= u128::MAX
            &&& pool.inc_token_supply + units <= u128::MAX
        },
        lock_fits(user, pool, units) ==> {
            let settlement = lock_settlement(user, pool, units);
            &&& settlement.user.locked == user.locked + units
            &&& is_settled(settlement.user, pool.acc_reward_per_share)
            &&& settlement.pool == (RewardPool {
                pending_rewards: pool.pending_rewards,
                inc_token_supply: (pool.inc_token_supply + units) as u128,
                last_reward_block: pool.last_reward_block,
                acc_reward_per_share: pool.acc_reward_per_share,
            })
            &&& user.locked == 0 ==> settlement.payout == 0
            &&& user.locked > 0 ==> (settlement.payout + user.debt) * REWARD_SCALE <= user.locked
                * pool.acc_reward_per_share < (settlement.payout + user.debt + 1) * REWARD_SCALE
        },
{
    what_is_pending(user, pool);
    if lock_fits(user, pool, units) {
        let locked = (user.locked + units) as u128;
        lemma_settled(locked, pool);
        if user.locked > 0 {
            lemma_pending_in_range(user, pool);
        }
    }
}

/// Unlocking takes the units from the user and from the pool, pays what is pending, and sets the
/// debt to what the remaining units have accumulated.
pub proof fn what_unlocking_does(user: UserInfo, pool: RewardPool, units: u128)
    ensures
        unlock_fits(user, pool, units) <==> {
            &&& user.debt * REWARD_SCALE <= user.locked * pool.acc_reward_per_share <= u128::MAX
            &&& units <= pool.inc_token_supply
        },
        units <= user.locked && unlock_fits(user, pool, units) ==> {
            let settlement = unlock_settlement(user, pool, units);
            &&& settlement.user.locked == user.locked - units
            &&& is_settled(settlement.user, pool.acc_reward_per_share)
            &&& settlement.pool == (RewardPool {
                pending_rewards: pool.pending_rewards,
                inc_token_supply: (pool.inc_token_supply - units) as u128,
                last_reward_block: pool.last_reward_block,
                acc_reward_per_share: pool.acc_reward_per_share,
            })
            &&& (settlement.payout + user.debt) * REWARD_SCALE <= user.locked
                * pool.acc_reward_per_share < (settlement.payout + user.debt + 1) * REWARD_SCALE
        },
{
    what_is_pending(user, pool);
    if units <= user.locked && unlock_fits(user, pool, units) {
        let locked = (user.locked - units) as u128;
        assert(locked * pool.acc_reward_per_share <= user.locked * pool.acc_reward_per_share)
            by (nonlinear_arith)
            requires
                locked <= user.locked,
        ;
        lemma_settled(locked, pool);
        lemma_pending_in_range(user, pool);
    }
}

/// What accumulated on units whose product with the reward per unit fits is a fitting debt.
proof fn lemma_settled(units: u128, pool: RewardPool)
    requires
        units * pool.acc_reward_per_share <= u128::MAX,
    ensures
        0 <= accumulated(units, pool) <= u128::MAX,
        accumulated(units, pool) * REWARD_SCALE <= units * pool.acc_reward_per_share < (
        accumulated(units, pool) + 1) * REWARD_SCALE,
{
    let product = units * pool.acc_reward_per_share;
    assert(product >= 0) by (nonlinear_arith)
        requires
            product == units * pool.acc_reward_per_share,
    ;
    lemma_quotient(product, REWARD_SCALE as int);
}

/// Pending rewards that can be computed are an amount.
proof fn lemma_pending_in_range(user: UserInfo, pool: RewardPool)
    requires
        pending_fits(user, pool),
    ensures
        0 <= pending(user, pool) <= u128::MAX,
{
    lemma_settled(user.locked, pool);
}

// ---------------------------------------------------------------------------------------------
// Calls and replies
// ---------------------------------------------------------------------------------------------

/// Whether a call goes to a token's contract with the given payload, followed by no more spaces
/// than fill the last block.
pub open spec fn is_call(
    call: ExecuteView,
    token: Snip20View,
    payload: Seq<u8>,
    block_size: int,
) -> bool {
    &&& call.contract_addr == token.address
    &&& call.callback_code_hash == token.contract_hash
    &&& payload.is_prefix_of(call.msg)
    &&& call.msg.len() % block_size as nat == 0
    &&& call.msg.len() < payload.len() + block_size
    &&& forall|i: int| payload.len() <= i < call.msg.len() ==> #[trigger] call.msg[i] == 0x20u8
}

/// Whether a call transfers an amount of a token.
pub open spec fn is_transfer(
    call: ExecuteView,
    token: Snip20View,
    recipient: Seq<char>,
    amount: u128,
) -> bool {
    is_call(call, token, transfer_payload(recipient, amount, None, None), 256)
}

/// Whether calls pay rewards, in one transfer, or in none where there are none.
pub open spec fn is_payout(
    calls: Seq<ExecuteView>,
    config: ConfigView,
    recipient: Seq<char>,
    rewards: u128,
) -> bool {
    if rewards == 0 {
        calls.len() == 0
    } else {
        calls.len() == 1 && is_transfer(calls[0], config.reward_token, recipient, rewards)
    }
}

/// A refusal with the given text, and nothing changed.
pub open spec fn refuses(
    outcome: (Contents, HandledView),
    contents: Contents,
    text: Seq<char>,
    block_size: Option<usize>,
) -> bool {
    fails(outcome, contents, StdErrorView::GenericErr { msg: text }, block_size)
}

/// A failure with the given error, and nothing changed.
pub open spec fn fails(
    outcome: (Contents, HandledView),
    contents: Contents,
    error: StdErrorView,
    block_size: Option<usize>,
) -> bool {
    &&& outcome.0 == contents
    &&& outcome.1 == (HandledView::Reply {
        reply: Err::<HandleResponseView, StdErrorView>(error),
        block_size,
    })
}

/// An answer and no calls.
pub open spec fn answers(
    outcome: (Contents, HandledView),
    data: HandleAnswerView,
    block_size: Option<usize>,
) -> bool {
    match outcome.1 {
        HandledView::Reply { reply: Ok(response), block_size: size } => {
            &&& response.messages.len() == 0
            &&& response.data == Some(data)
            &&& size == block_size
        },
        _ => false,
    }
}

/// The padding of an answer: none while the contract is stopped.
pub open spec fn block_size(config: ConfigView) -> Option<usize> {
    if config.is_stopped {
        None
    } else {
        Some(256usize)
    }
}

/// A padded call is such a call.
proof fn lemma_padded_call(token: Snip20View, payload: Seq<u8>, size: nat)
    requires
        size > 0,
    ensures
        is_call(
            padded_call(token.address, token.contract_hash, payload, size),
            token,
            payload,
            size as int,
        ),
{
    padding_fills_blocks(payload, size);
    let call = padded_call(token.address, token.contract_hash, payload, size);
    assert forall|i: int| payload.len() <= i < call.msg.len() implies #[trigger] call.msg[i]
        == 0x20u8 by {
        assert(space_padded(payload, size)[i] == 0x20u8);
    }
}

/// The model's transfers are transfers.
proof fn lemma_transfer(token: Snip20View, recipient: Seq<char>, amount: u128)
    ensures
        is_transfer(transfer_call(token, recipient, amount), token, recipient, amount),
{
    lemma_padded_call(token, transfer_payload(recipient, amount, None, None), 256);
}

// ---------------------------------------------------------------------------------------------
// Redeeming, locking, adding
// ---------------------------------------------------------------------------------------------

/// Redeeming gives the sender the units in the amount they named, or all that they have locked,
/// and pays what is pending once the pool is up to date. The remaining units are settled, the
/// pool's supply shrinks by the redeemed ones, and no other record changes. Who asks for more than
/// they have is told how much that is.
pub proof fn what_redeeming_changes(
    contents: Contents,
    config: ConfigView,
    env: Env,
    amount: Option<u128>,
    units: u128,
    rewards: u128,
)
    requires
        read_config(contents) == Ok::<_, StdErrorView>(config),
        match amount {
            Some(amount) => units * INC_TOKEN_SCALE <= amount < (units + 1) * INC_TOKEN_SCALE,
            None => units == read_user(contents, env.message.sender@).locked,
        },
    ensures
        ({
            let sender = env.message.sender@;
            let user = read_user(contents, sender);
            let outcome = handle_outcome(contents, env, HandleMsg::Redeem { amount });
            let fits = handle_fits(contents, env, HandleMsg::Redeem { amount });
            if units > user.locked {
                &&& fits <==> user.locked * INC_TOKEN_SCALE <= u128::MAX
                &&& refuses(
                    outcome,
                    contents,
                    "insufficient funds to redeem: balance="@ + decimal(user.locked as nat)
                        + ", required="@ + decimal(units as nat),
                    block_size(config),
                )
            } else {
                match read_pool(contents) {
                    Err(error) => {
                        &&& fits <==> user.locked * INC_TOKEN_SCALE <= u128::MAX
                        &&& fails(outcome, contents, error, block_size(config))
                    },
                    Ok(pool) => {
                        let updated = updated_pool(pool, config.end_by_height, env.block.height);
                        let product = user.locked * updated.acc_reward_per_share;
                        &&& fits <==> {
                            &&& user.locked * INC_TOKEN_SCALE <= u128::MAX
                            &&& update_fits(pool, config.end_by_height, env.block.height)
                            &&& user.debt * REWARD_SCALE <= product <= u128::MAX
                            &&& units <= pool.inc_token_supply
                        }
                        &&& fits ==> {
                            &&& read_pool(outcome.0) == Ok::<_, StdErrorView>(
                                RewardPool {
                                    pending_rewards: updated.pending_rewards,
                                    inc_token_supply: (pool.inc_token_supply - units) as u128,
                                    last_reward_block: updated.last_reward_block,
                                    acc_reward_per_share: updated.acc_reward_per_share,
                                },
                            )
                            &&& user_key(sender) != pool_key() ==> {
                                &&& read_user(outcome.0, sender).locked == user.locked - units
                                &&& is_settled(
                                    read_user(outcome.0, sender),
                                    updated.acc_reward_per_share,
                                )
                            }
                            &&& forall|key: Seq<u8>|
                                key != pool_key() && key != user_key(sender) ==> #[trigger] same_at(
                                    contents,
                                    outcome.0,
                                    key,
                                )
                            &&& (rewards + user.debt) * REWARD_SCALE <= product < (rewards
                                + user.debt + 1) * REWARD_SCALE ==> match outcome.1 {
                                HandledView::Reply { reply: Ok(response), block_size: size } => {
                                    let calls = response.messages;
                                    &&& size == block_size(config)
                                    &&& response.data is None
                                    &&& calls.len() > 0
                                    &&& is_payout(calls.drop_last(), config, sender, rewards)
                                    &&& is_transfer(
                                        calls.last(),
                                        config.inc_token,
                                        sender,
                                        (units * INC_TOKEN_SCALE) as u128,
                                    )
                                    &&& units * INC_TOKEN_SCALE <= u128::MAX
                                },
                                _ => false,
                            }
                        }
                    },
                }
            }
        }),
{
    let sender = env.message.sender@;
    let user = read_user(contents, sender);
    let msg = HandleMsg::Redeem { amount };
    let outcome = handle_outcome(contents, env, msg);
    units_asked_for(user, amount);
    if amount is Some {
        lemma_only_quotient(amount->0 as int, INC_TOKEN_SCALE as int, units as int);
        lemma_only_quotient(
            amount->0 as int,
            INC_TOKEN_SCALE as int,
            requested_units(user, amount) as int,
        );
    }
    assert(requested_units(user, amount) == units);
    if units <= user.locked && read_pool(contents) is Ok {
        let pool = read_pool(contents)->Ok_0;
        let updated = updated_pool(pool, config.end_by_height, env.block.height);
        let current = contents_at(contents, pool, config, env.block.height);
        what_unlocking_does(user, updated, units);
        if handle_fits(contents, env, msg) {
            let settlement = unlock_settlement(user, updated, units);
            lemma_read_back(
                write_user(current, sender, settlement.user),
                sender,
                settlement.user,
                settlement.pool,
            );
            lemma_read_back(current, sender, settlement.user, settlement.pool);
            assert(units * INC_TOKEN_SCALE <= user.locked * INC_TOKEN_SCALE) by (nonlinear_arith)
                requires
                    units <= user.locked,
            ;
            let product = user.locked * updated.acc_reward_per_share;
            if (rewards + user.debt) * REWARD_SCALE <= product < (rewards + user.debt + 1)
                * REWARD_SCALE {
                lemma_only_quotient(product, REWARD_SCALE as int, rewards + user.debt);
                lemma_only_quotient(product, REWARD_SCALE as int, settlement.payout + user.debt);
                assert(settlement.payout == rewards);
                let paid = payout_calls(config, sender, rewards);
                let back = transfer_call(
                    config.inc_token,
                    sender,
                    (units * INC_TOKEN_SCALE) as u128,
                );
                assert(paid.push(back).drop_last() =~= paid);
                lemma_transfer(config.reward_token, sender, rewards);
                lemma_transfer(config.inc_token, sender, (units * INC_TOKEN_SCALE) as u128);
            }
        }
    }
}

/// Who redeems without naming an amount gets back everything they have locked, and has nothing
/// locked afterwards.
pub proof fn redeeming_all_gives_all_back(
    contents: Contents,
    config: ConfigView,
    env: Env,
    pool: RewardPool,
)
    requires
        read_config(contents) == Ok::<_, StdErrorView>(config),
        read_pool(contents) == Ok::<_, StdErrorView>(pool),
        user_key(env.message.sender@) != pool_key(),
        handle_fits(contents, env, (HandleMsg::Redeem { amount: None })),
    ensures
        ({
            let sender = env.message.sender@;
            let before = read_user(contents, sender);
            let outcome = handle_outcome(contents, env, HandleMsg::Redeem { amount: None });
            &&& read_user(outcome.0, sender) == (UserInfo { locked: 0, debt: 0 })
            &&& read_pool(outcome.0) is Ok
            &&& read_pool(outcome.0)->Ok_0.inc_token_supply == pool.inc_token_supply
                - before.locked
            &&& match outcome.1 {
                HandledView::Reply { reply: Ok(response), .. } => response.messages.len() > 0
                    && is_transfer(
                    response.messages.last(),
                    config.inc_token,
                    sender,
                    (before.locked * INC_TOKEN_SCALE) as u128,
                ),
                _ => false,
            }
        }),
{
    let user = read_user(contents, env.message.sender@);
    let updated = updated_pool(pool, config.end_by_height, env.block.height);
    let product = user.locked * updated.acc_reward_per_share;
    what_redeeming_changes(contents, config, env, None, user.locked, 0);
    lemma_settled(user.locked, updated);
    let rewards = (accumulated(user.locked, updated) - user.debt) as u128;
    assert(accumulated(user.locked, updated) >= user.debt) by {
        what_is_pending(user, updated);
    }
    what_redeeming_changes(contents, config, env, None, user.locked, rewards);
    let after = read_user(
        handle_outcome(contents, env, HandleMsg::Redeem { amount: None }).0,
        env.message.sender@,
    );
    assert(after.debt == 0) by (nonlinear_arith)
        requires
            after.debt * REWARD_SCALE <= 0 * updated.acc_reward_per_share,
            REWARD_SCALE > 0,
    ;
}

/// Locking counts the whole units in the amount, on top of what the owner and the pool had, and
/// pays the owner what is pending once the pool is up to date. All of the owner's units are settled
/// afterwards, and no other record changes.
pub proof fn what_locking_changes(
    contents: Contents,
    config: ConfigView,
    env: Env,
    sender: String,
    from: String,
    amount: u128,
    units: u128,
    rewards: u128,
)
    requires
        read_config(contents) == Ok::<_, StdErrorView>(config),
        !config.is_stopped,
        units * INC_TOKEN_SCALE <= amount < (units + 1) * INC_TOKEN_SCALE,
    ensures
        ({
            let msg = HandleMsg::Receive {
                sender,
                from,
                amount,
                msg: Payload::Message(Box::new(HandleMsg::LockTokens)),
            };
            let user = read_user(contents, from@);
            let outcome = handle_outcome(contents, env, msg);
            let fits = handle_fits(contents, env, msg);
            if env.message.sender@ != config.inc_token.address {
                &&& fits
                &&& refuses(
                    outcome,
                    contents,
                    "This token is not supported. Supported: "@ + env.message.sender@
                        + ", given: "@ + config.inc_token.address,
                    Some(256),
                )
            } else {
                match read_pool(contents) {
                    Err(error) => fits && fails(outcome, contents, error, Some(256)),
                    Ok(pool) => {
                        let updated = updated_pool(pool, config.end_by_height, env.block.height);
                        let product = user.locked * updated.acc_reward_per_share;
                        let owed = user.locked > 0;
                        &&& fits <==> {
                            &&& update_fits(pool, config.end_by_height, env.block.height)
                            &&& owed ==> user.debt * REWARD_SCALE <= product <= u128::MAX
                            &&& user.locked + units <= u128::MAX
                            &&& (user.locked + units) * updated.acc_reward_per_share <= u128::MAX
                            &&& pool.inc_token_supply + units <= u128::MAX
                        }
                        &&& fits ==> {
                            &&& read_pool(outcome.0) == Ok::<_, StdErrorView>(
                                RewardPool {
                                    pending_rewards: updated.pending_rewards,
                                    inc_token_supply: (pool.inc_token_supply + units) as u128,
                                    last_reward_block: updated.last_reward_block,
                                    acc_reward_per_share: updated.acc_reward_per_share,
                                },
                            )
                            &&& user_key(from@) != pool_key() ==> {
                                &&& read_user(outcome.0, from@).locked == user.locked + units
                                &&& is_settled(
                                    read_user(outcome.0, from@),
                                    updated.acc_reward_per_share,
                                )
                            }
                            &&& forall|key: Seq<u8>|
                                key != pool_key() && key != user_key(from@) ==> #[trigger] same_at(
                                    contents,
                                    outcome.0,
                                    key,
                                )
                            &&& (if owed {
                                (rewards + user.debt) * REWARD_SCALE <= product < (rewards
                                    + user.debt + 1) * REWARD_SCALE
                            } else {
                                rewards == 0
                            }) ==> match outcome.1 {
                                HandledView::Reply { reply: Ok(response), block_size: size } => {
                                    &&& size == Some(256usize)
                                    &&& response.data == Some(
                                        HandleAnswerView::LockTokens {
                                            status: ResponseStatus::Success,
                                        },
                                    )
                                    &&& is_payout(response.messages, config, from@, rewards)
                                },
                                _ => false,
                            }
                        }
                    },
                }
            }
        }),
{
    let msg = HandleMsg::Receive {
        sender,
        from,
        amount,
        msg: Payload::Message(Box::new(HandleMsg::LockTokens)),
    };
    let owner = from@;
    let user = read_user(contents, owner);
    units_of_an_amount(amount);
    lemma_only_quotient(amount as int, INC_TOKEN_SCALE as int, units as int);
    lemma_only_quotient(amount as int, INC_TOKEN_SCALE as int, whole_units(amount) as int);
    assert(whole_units(amount) == units);
    if env.message.sender@ == config.inc_token.address && read_pool(contents) is Ok {
        let pool = read_pool(contents)->Ok_0;
        let updated = updated_pool(pool, config.end_by_height, env.block.height);
        let current = contents_at(contents, pool, config, env.block.height);
        lemma_same_user(contents, pool, config, env.block.height, owner);
        what_locking_does(user, updated, units);
        if handle_fits(contents, env, msg) {
            let settlement = lock_settlement(user, updated, units);
            lemma_read_back(
                write_user(current, owner, settlement.user),
                owner,
                settlement.user,
                settlement.pool,
            );
            lemma_read_back(current, owner, settlement.user, settlement.pool);
            let product = user.locked * updated.acc_reward_per_share;
            if user.locked > 0 {
                if (rewards + user.debt) * REWARD_SCALE <= product < (rewards + user.debt + 1)
                    * REWARD_SCALE {
                    lemma_only_quotient(product, REWARD_SCALE as int, rewards + user.debt);
                    lemma_only_quotient(
                        product,
                        REWARD_SCALE as int,
                        settlement.payout + user.debt,
                    );
                    assert(settlement.payout == rewards);
                }
            }
            lemma_transfer(config.reward_token, owner, settlement.payout);
        }
    }
}

/// Bringing the pool up to date changes no user's record, not even that of one kept in its place.
proof fn lemma_same_user(
    contents: Contents,
    pool: RewardPool,
    config: ConfigView,
    height: u64,
    address: Seq<char>,
)
    requires
        read_pool(contents) == Ok::<_, StdErrorView>(pool),
    ensures
        read_user(contents_at(contents, pool, config, height), address) == read_user(
            contents,
            address,
        ),
{
    let updated = updated_pool(pool, config.end_by_height, height);
    if user_key(address) == pool_key() {
        lemma_pool_as_user(updated);
        let bytes = contents[pool_key()];
        assert(pool_decoding(bytes) == Some(pool));
    }
}

/// A deposit and the pool's supply grow by as many units as fit into the amount that is locked,
/// for every amount.
pub proof fn locking_counts_every_unit(
    contents: Contents,
    config: ConfigView,
    env: Env,
    sender: String,
    from: String,
    amount: u128,
)
    requires
        read_config(contents) == Ok::<_, StdErrorView>(config),
        !config.is_stopped,
        env.message.sender@ == config.inc_token.address,
        read_pool(contents) is Ok,
        user_key(from@) != pool_key(),
        handle_fits(
            contents,
            env,
            (HandleMsg::Receive {
                sender,
                from,
                amount,
                msg: Payload::Message(Box::new(HandleMsg::LockTokens)),
            }),
        ),
    ensures
        ({
            let after = handle_outcome(
                contents,
                env,
                HandleMsg::Receive {
                    sender,
                    from,
                    amount,
                    msg: Payload::Message(Box::new(HandleMsg::LockTokens)),
                },
            ).0;
            let more = read_user(after, from@).locked - read_user(contents, from@).locked;
            &&& more * INC_TOKEN_SCALE <= amount < (more + 1) * INC_TOKEN_SCALE
            &&& read_pool(after) is Ok
            &&& read_pool(after)->Ok_0.inc_token_supply
                - read_pool(contents)->Ok_0.inc_token_supply == more
        }),
{
    let units = whole_units(amount);
    units_of_an_amount(amount);
    what_locking_changes(contents, config, env, sender, from, amount, units, 0);
}

/// Adding rewards brings the pool up to date and adds the amount to what is pending in it; nothing
/// else changes.
pub proof fn what_adding_changes(
    contents: Contents,
    config: ConfigView,
    env: Env,
    sender: String,
    from: String,
    amount: u128,
)
    requires
        read_config(contents) == Ok::<_, StdErrorView>(config),
        !config.is_stopped,
    ensures
        ({
            let msg = HandleMsg::Receive {
                sender,
                from,
                amount,
                msg: Payload::Message(Box::new(HandleMsg::AddToRewardPool)),
            };
            let outcome = handle_outcome(contents, env, msg);
            let fits = handle_fits(contents, env, msg);
            if env.message.sender@ != config.reward_token.address {
                &&& fits
                &&& refuses(
                    outcome,
                    contents,
                    "This token is not supported. Supported: "@ + env.message.sender@
                        + ", given: "@ + config.inc_token.address,
                    Some(256),
                )
            } else {
                match read_pool(contents) {
                    Err(error) => fits && fails(outcome, contents, error, Some(256)),
                    Ok(pool) => {
                        let updated = updated_pool(pool, config.end_by_height, env.block.height);
                        &&& fits <==> {
                            &&& update_fits(pool, config.end_by_height, env.block.height)
                            &&& pool.pending_rewards + amount <= u128::MAX
                        }
                        &&& fits ==> {
                            &&& read_pool(outcome.0) == Ok::<_, StdErrorView>(
                                RewardPool {
                                    pending_rewards: (pool.pending_rewards + amount) as u128,
                                    inc_token_supply: updated.inc_token_supply,
                                    last_reward_block: updated.last_reward_block,
                                    acc_reward_per_share: updated.acc_reward_per_share,
                                },
                            )
                            &&& forall|key: Seq<u8>|
                                key != pool_key() ==> #[trigger] same_at(contents, outcome.0, key)
                            &&& answers(
                                outcome,
                                HandleAnswerView::AddToRewardPool {
                                    status: ResponseStatus::Success,
                                },
                                Some(256),
                            )
                        }
                    },
                }
            }
        }),
{
    if read_pool(contents) is Ok {
        let pool = read_pool(contents)->Ok_0;
        let updated = updated_pool(pool, config.end_by_height, env.block.height);
        lemma_pool_round_trip(
            RewardPool {
                pending_rewards: (updated.pending_rewards + amount) as u128,
                ..updated
            },
        );
    }
}

/// An addition takes nobody's rewards: what is pending for a user right after it is what redeeming
/// at that height would have paid them right before it.
pub proof fn adding_keeps_everybodys_rewards(
    contents: Contents,
    config: ConfigView,
    adding: Env,
    sender: String,
    from: String,
    amount: u128,
    redeeming: Env,
    question: QueryMsg,
)
    requires
        read_config(contents) == Ok::<_, StdErrorView>(config),
        !config.is_stopped,
        adding.message.sender@ == config.reward_token.address,
        read_pool(contents) is Ok,
        redeeming.block.height == adding.block.height,
        user_key(redeeming.message.sender@) != pool_key(),
        handle_fits(
            contents,
            adding,
            (HandleMsg::Receive {
                sender,
                from,
                amount,
                msg: Payload::Message(Box::new(HandleMsg::AddToRewardPool)),
            }),
        ),
        handle_fits(contents, redeeming, (HandleMsg::Redeem { amount: Some(0) })),
        question is QueryRewards,
        question.about() == redeeming.message.sender@,
        is_authorized(contents, question),
    ensures
        ({
            let after = handle_outcome(
                contents,
                adding,
                HandleMsg::Receive {
                    sender,
                    from,
                    amount,
                    msg: Payload::Message(Box::new(HandleMsg::AddToRewardPool)),
                },
            ).0;
            let redeemed = handle_outcome(
                contents,
                redeeming,
                HandleMsg::Redeem { amount: Some(0) },
            ).1;
            match query_answer(after, question) {
                Ok(QueryAnswerView::QueryRewards { rewards }) => match redeemed {
                    HandledView::Reply { reply: Ok(response), .. } => {
                        &&& response.messages.len() > 0
                        &&& is_payout(
                            response.messages.drop_last(),
                            config,
                            redeeming.message.sender@,
                            rewards,
                        )
                    },
                    _ => false,
                },
                _ => false,
            }
        }),
{
    let msg = HandleMsg::Receive {
        sender,
        from,
        amount,
        msg: Payload::Message(Box::new(HandleMsg::AddToRewardPool)),
    };
    let owner = redeeming.message.sender@;
    let user = read_user(contents, owner);
    let pool = read_pool(contents)->Ok_0;
    let updated = updated_pool(pool, config.end_by_height, adding.block.height);
    let after = handle_outcome(contents, adding, msg).0;
    what_adding_changes(contents, config, adding, sender, from, amount);
    lemma_record_keys();
    assert(same_at(contents, after, user_key(owner)));
    assert(same_at(contents, after, viewing_key_key(owner)));
    let now = read_pool(after)->Ok_0;
    assert(read_user(after, owner) == user);
    what_redeeming_changes(contents, config, redeeming, Some(0), 0, 0);
    what_is_pending(user, updated);
    lemma_pending_in_range(user, updated);
    what_redeeming_changes(
        contents,
        config,
        redeeming,
        Some(0),
        0,
        pending(user, updated) as u128,
    );
    assert(pending(user, now) == pending(user, updated));
}

// ---------------------------------------------------------------------------------------------
// The other messages
// ---------------------------------------------------------------------------------------------

/// Every message but those that redeem, lock or add can be handled whatever the numbers are.
pub proof fn other_messages_always_fit(contents: Contents, env: Env, msg: HandleMsg)
    requires
        match msg {
            HandleMsg::Redeem { .. } => false,
            HandleMsg::Receive { msg: Payload::Message(handed_on), .. } => match *handed_on {
                HandleMsg::LockTokens => false,
                HandleMsg::AddToRewardPool => false,
                _ => true,
            },
            _ => true,
        },
    ensures
        handle_fits(contents, env, msg),
{
}

/// Where the settings cannot be read, every message fails for that reason.
pub proof fn without_settings_every_message_fails(
    contents: Contents,
    error: StdErrorView,
    env: Env,
    msg: HandleMsg,
)
    requires
        read_config(contents) == Err::<ConfigView, _>(error),
    ensures
        handle_fits(contents, env, msg),
        fails(handle_outcome(contents, env, msg), contents, error, None),
{
}

/// A stopped contract refuses all messages but two, and neither looks into them nor pads the
/// answer.
pub proof fn what_a_stopped_contract_refuses(
    contents: Contents,
    config: ConfigView,
    env: Env,
    msg: HandleMsg,
)
    requires
        read_config(contents) == Ok::<_, StdErrorView>(config),
        config.is_stopped,
        match msg {
            HandleMsg::Redeem { .. } => false,
            HandleMsg::ResumeContract => false,
            _ => true,
        },
    ensures
        handle_fits(contents, env, msg),
        refuses(
            handle_outcome(contents, env, msg),
            contents,
            "This contract is stopped and this action is not allowed"@,
            None,
        ),
{
}

/// What a token contract hands on is refused where it cannot be read, where it is itself handed
/// on, and where it is neither locking nor adding.
pub proof fn what_is_not_handed_on(
    contents: Contents,
    config: ConfigView,
    env: Env,
    sender: String,
    from: String,
    amount: u128,
    payload: Payload,
)
    requires
        read_config(contents) == Ok::<_, StdErrorView>(config),
        !config.is_stopped,
    ensures
        ({
            let outcome = handle_outcome(
                contents,
                env,
                HandleMsg::Receive { sender, from, amount, msg: payload },
            );
            match payload {
                Payload::Malformed(text) => fails(
                    outcome,
                    contents,
                    StdErrorView::ParseErr { msg: text@ },
                    Some(256),
                ),
                Payload::Message(handed_on) => match *handed_on {
                    HandleMsg::LockTokens => true,
                    HandleMsg::AddToRewardPool => true,
                    HandleMsg::Receive { .. } => refuses(
                        outcome,
                        contents,
                        "Recursive call to receive() is not allowed"@,
                        Some(256),
                    ),
                    _ => refuses(
                        outcome,
                        contents,
                        "Illegal internal receive message"@,
                        Some(256),
                    ),
                },
            }
        }),
{
}

/// Locking and adding have to be handed on by a token contract, and only a stopped contract can be
/// resumed.
pub proof fn what_is_no_action(
    contents: Contents,
    config: ConfigView,
    env: Env,
    msg: HandleMsg,
)
    requires
        read_config(contents) == Ok::<_, StdErrorView>(config),
        !config.is_stopped,
        match msg {
            HandleMsg::LockTokens => true,
            HandleMsg::AddToRewardPool => true,
            HandleMsg::ResumeContract => true,
            _ => false,
        },
    ensures
        refuses(
            handle_outcome(contents, env, msg),
            contents,
            "Unavailable or unknown action"@,
            Some(256),
        ),
{
}

/// Setting a viewing key keeps the digest of its bytes for the sender, and changes nothing else.
pub proof fn what_setting_a_viewing_key_changes(
    contents: Contents,
    config: ConfigView,
    env: Env,
    key: String,
    padding: Option<String>,
)
    requires
        read_config(contents) == Ok::<_, StdErrorView>(config),
        !config.is_stopped,
    ensures
        ({
            let outcome = handle_outcome(contents, env, HandleMsg::SetViewingKey { key, padding });
            let sender = env.message.sender@;
            &&& read_viewing_key(outcome.0, sender) == Some(sha_256_digest(encode_utf8(key@)))
            &&& forall|other: Seq<u8>|
                other != viewing_key_key(sender) ==> #[trigger] same_at(contents, outcome.0, other)
            &&& answers(
                outcome,
                HandleAnswerView::SetViewingKey { status: ResponseStatus::Success },
                Some(256),
            )
            &&& set_viewing_key_outcome(contents, env, key@).0 == outcome.0
            &&& answers(
                padded(set_viewing_key_outcome(contents, env, key@)),
                HandleAnswerView::SetViewingKey { status: ResponseStatus::Success },
                Some(256),
            )
        }),
{
}

/// Creating a viewing key answers with a key that is drawn from the contract's seed, the block's
/// height and time, the sender and what the sender adds; its digest is kept for the sender, and
/// nothing else changes.
pub proof fn what_creating_a_viewing_key_changes(
    contents: Contents,
    config: ConfigView,
    env: Env,
    entropy: String,
    padding: Option<String>,
)
    requires
        read_config(contents) == Ok::<_, StdErrorView>(config),
        !config.is_stopped,
    ensures
        ({
            let outcome = handle_outcome(
                contents,
                env,
                HandleMsg::CreateViewingKey { entropy, padding },
            );
            let sender = env.message.sender@;
            let random = first_random_bytes(
                config.prng_seed,
                big_endian(env.block.height) + big_endian(env.block.time) + encode_utf8(sender)
                    + encode_utf8(entropy@),
            );
            let key = "api_key_"@ + base64_text(sha_256_digest(random));
            &&& read_viewing_key(outcome.0, sender) == Some(sha_256_digest(encode_utf8(key)))
            &&& forall|other: Seq<u8>|
                other != viewing_key_key(sender) ==> #[trigger] same_at(contents, outcome.0, other)
            &&& answers(outcome, HandleAnswerView::CreateViewingKey { key }, Some(256))
            &&& padded(create_viewing_key_outcome(contents, env, encode_utf8(entropy@))) == outcome
        }),
{
}

/// The bytes of a number, most significant first, are its digits to the base of 256.
pub proof fn what_big_endian_bytes_are(n: u64)
    ensures
        big_endian(n).len() == 8,
        n == ((((((big_endian(n)[0] * 256 + big_endian(n)[1]) * 256 + big_endian(n)[2]) * 256
            + big_endian(n)[3]) * 256 + big_endian(n)[4]) * 256 + big_endian(n)[5]) * 256
            + big_endian(n)[6]) * 256 + big_endian(n)[7],
{
    let bytes = big_endian(n);
    let x = n as int;
    lemma_next_byte(x, 0x1_0000_0000_0000, 0x100_0000_0000_0000);
    lemma_next_byte(x, 0x100_0000_0000, 0x1_0000_0000_0000);
    lemma_next_byte(x, 0x1_0000_0000, 0x100_0000_0000);
    lemma_next_byte(x, 0x100_0000, 0x1_0000_0000);
    lemma_next_byte(x, 0x1_0000, 0x100_0000);
    lemma_next_byte(x, 0x100, 0x1_0000);
    lemma_next_byte(x, 1, 0x100);
    assert(0 <= x / 0x100_0000_0000_0000 < 256);
    let n1 = bytes[0] * 256 + bytes[1];
    assert(n1 == x / 0x1_0000_0000_0000);
    let n2 = n1 * 256 + bytes[2];
    assert(n2 == x / 0x100_0000_0000);
    let n3 = n2 * 256 + bytes[3];
    assert(n3 == x / 0x1_0000_0000);
    let n4 = n3 * 256 + bytes[4];
    assert(n4 == x / 0x100_0000);
    let n5 = n4 * 256 + bytes[5];
    assert(n5 == x / 0x1_0000);
    let n6 = n5 * 256 + bytes[6];
    assert(n6 == x / 0x100);
    assert(x / 1 == x);
}

/// One more byte of a number.
proof fn lemma_next_byte(x: int, place: int, next: int)
    requires
        x >= 0,
        place > 0,
        next == place * 256,
    ensures
        x / place == x / next * 256 + x / place % 256,
        0 <= x / place % 256 < 256,
{
    lemma_div_denominator(x, place, 256);
    lemma_fundamental_div_mod(x / place, 256);
}

/// Without readable settings no viewing key is created.
pub proof fn without_settings_no_key_is_created(
    contents: Contents,
    error: StdErrorView,
    env: Env,
    entropy: Seq<u8>,
)
    requires
        read_config(contents) == Err::<ConfigView, _>(error),
    ensures
        create_viewing_key_outcome(contents, env, entropy) == (
            contents,
            Err::<HandleResponseView, _>(error),
        ),
{
}

/// Whether a message was answered by new settings, and nothing else was changed.
pub open spec fn sets(
    outcome: (Contents, HandledView),
    contents: Contents,
    config: ConfigView,
    data: HandleAnswerView,
    block_size: Option<usize>,
) -> bool {
    &&& config_fits(config) ==> read_config(outcome.0) == Ok::<_, StdErrorView>(config)
    &&& forall|key: Seq<u8>|
        key != config_key() ==> #[trigger] same_at(contents, outcome.0, key)
    &&& answers(outcome, data, block_size)
}

/// The admin sets exactly what a message names, and all other settings stay; anybody else is
/// refused.
pub proof fn what_the_admin_sets(contents: Contents, config: ConfigView, env: Env, msg: HandleMsg)
    requires
        read_config(contents) == Ok::<_, StdErrorView>(config),
        config.is_stopped == (msg is ResumeContract),
    ensures
        ({
            let outcome = handle_outcome(contents, env, msg);
            let success = ResponseStatus::Success;
            let is_admin = env.message.sender@ == config.admin;
            let refused = refuses(
                outcome,
                contents,
                "no assets locked for: "@ + env.message.sender@,
                block_size(config),
            );
            match msg {
                HandleMsg::UpdateIncentivizedToken { new_token } => if is_admin {
                    sets(
                        outcome,
                        contents,
                        ConfigView {
                            inc_token: Snip20View {
                                address: new_token.address@,
                                contract_hash: new_token.contract_hash@,
                            },
                            ..config
                        },
                        HandleAnswerView::UpdateIncentivizedToken { status: success },
                        Some(256),
                    )
                } else {
                    refused
                },
                HandleMsg::UpdateRewardToken { new_token } => if is_admin {
                    sets(
                        outcome,
                        contents,
                        ConfigView {
                            reward_token: Snip20View {
                                address: new_token.address@,
                                contract_hash: new_token.contract_hash@,
                            },
                            ..config
                        },
                        HandleAnswerView::UpdateRewardToken { status: success },
                        Some(256),
                    )
                } else {
                    refused
                },
                HandleMsg::StopContract => if is_admin {
                    sets(
                        outcome,
                        contents,
                        ConfigView { is_stopped: true, ..config },
                        HandleAnswerView::StopContract { status: success },
                        Some(256),
                    )
                } else {
                    refused
                },
                HandleMsg::ResumeContract => if is_admin {
                    sets(
                        outcome,
                        contents,
                        ConfigView { is_stopped: false, ..config },
                        HandleAnswerView::ResumeContract { status: success },
                        None,
                    )
                } else {
                    refused
                },
                HandleMsg::ChangeAdmin { address } => if is_admin {
                    sets(
                        outcome,
                        contents,
                        ConfigView { admin: address@, ..config },
                        HandleAnswerView::ChangeAdmin { status: success },
                        Some(256),
                    )
                } else {
                    refused
                },
                _ => true,
            }
        }),
{
    let changed = changed_settings(config, msg);
    if config_fits(changed) {
        lemma_config_round_trip(changed);
    }
}

/// The admin claims from the claim height on: the balance of this contract at the reward token is
/// asked for, and then transferred as a whole. Anybody else, and the admin before, is refused.
pub proof fn what_a_claim_does(
    contents: Contents,
    config: ConfigView,
    env: Env,
    recipient: Option<String>,
    balance: Result<u128, StdErrorView>,
)
    requires
        read_config(contents) == Ok::<_, StdErrorView>(config),
        !config.is_stopped,
    ensures
        ({
            let outcome = handle_outcome(contents, env, HandleMsg::ClaimRewardPool { recipient });
            let receiver = match recipient {
                Some(recipient) => recipient@,
                None => env.message.sender@,
            };
            if env.message.sender@ != config.admin {
                refuses(
                    outcome,
                    contents,
                    "no assets locked for: "@ + env.message.sender@,
                    Some(256),
                )
            } else if env.block.height < config.pool_claim_height {
                refuses(
                    outcome,
                    contents,
                    "minimum claim height hasn't passed yet: "@ + decimal(
                        config.pool_claim_height as nat,
                    ),
                    Some(256),
                )
            } else {
                &&& outcome.0 == contents
                &&& match outcome.1 {
                    HandledView::Claim(claim) => {
                        &&& claim.query.address == env.contract.address@
                        &&& claim.query.key == config.viewing_key
                        &&& claim.query.block_size == 256
                        &&& claim.query.callback_code_hash == env.contract_code_hash@
                        &&& claim.query.contract_addr == config.reward_token.address
                        &&& match balance {
                            Ok(amount) => match claim_end(claim, balance) {
                                Ok(response) => {
                                    &&& response.data is None
                                    &&& response.messages.len() == 1
                                    &&& is_transfer(
                                        response.messages[0],
                                        config.reward_token,
                                        receiver,
                                        amount,
                                    )
                                },
                                Err(_) => false,
                            },
                            Err(error) => claim_end(claim, balance) == Err::<
                                HandleResponseView,
                                _,
                            >(error),
                        }
                    },
                    _ => false,
                }
            }
        }),
{
    let receiver = match recipient {
        Some(recipient) => recipient@,
        None => env.message.sender@,
    };
    if balance is Ok {
        lemma_transfer(config.reward_token, receiver, balance->Ok_0);
    }
}

/// Whether what comes of a message is the given outcome, padded or not.
pub open spec fn gives(
    handled: (Contents, HandledView),
    outcome: (Contents, Reply),
    block_size: Option<usize>,
) -> bool {
    handled == (outcome.0, HandledView::Reply { reply: outcome.1, block_size })
}

/// The functions for single messages do what handling those messages does.
pub proof fn messages_are_handled_one_by_one(
    contents: Contents,
    config: ConfigView,
    env: Env,
    msg: HandleMsg,
)
    requires
        read_config(contents) == Ok::<_, StdErrorView>(config),
    ensures
        handle_outcome(contents, env, msg) == execute_outcome(contents, config, env, msg),
        handle_fits(contents, env, msg) == execute_fits(contents, config, env, msg),
        match msg {
            HandleMsg::Redeem { amount } => {
                let outcome = redeem_outcome(contents, config, env, amount);
                &&& handle_fits(contents, env, msg) == redeem_fits(contents, config, env, amount)
                &&& handle_outcome(contents, env, msg) == (
                    outcome.0,
                    HandledView::Reply { reply: outcome.1, block_size: block_size(config) },
                )
            },
            HandleMsg::Receive { from, amount, msg: payload, .. } => !config.is_stopped ==> {
                let outcome = receive_outcome(contents, config, env, from@, amount, payload);
                &&& handle_outcome(contents, env, msg) == (
                    outcome.0,
                    HandledView::Reply { reply: outcome.1, block_size: Some(256usize) },
                )
                &&& match payload {
                    Payload::Message(handed_on) => match *handed_on {
                        HandleMsg::LockTokens => {
                            &&& outcome == lock_tokens_outcome(contents, config, env, from@, amount)
                            &&& handle_fits(contents, env, msg) == lock_tokens_fits(
                                contents,
                                config,
                                env,
                                from@,
                                amount,
                            )
                        },
                        HandleMsg::AddToRewardPool => {
                            &&& outcome == add_to_pool_outcome(contents, config, env, amount)
                            &&& handle_fits(contents, env, msg) == add_to_pool_fits(
                                contents,
                                config,
                                env,
                                amount,
                            )
                        },
                        _ => true,
                    },
                    _ => true,
                }
            },
            HandleMsg::UpdateIncentivizedToken { new_token } => !config.is_stopped ==> gives(
                handle_outcome(contents, env, msg),
                update_inc_token_outcome(contents, config, env, new_token@),
                Some(256),
            ),
            HandleMsg::UpdateRewardToken { new_token } => !config.is_stopped ==> gives(
                handle_outcome(contents, env, msg),
                update_reward_token_outcome(contents, config, env, new_token@),
                Some(256),
            ),
            HandleMsg::StopContract => !config.is_stopped ==> gives(
                handle_outcome(contents, env, msg),
                stop_contract_outcome(contents, config, env),
                Some(256),
            ),
            HandleMsg::ResumeContract => config.is_stopped ==> gives(
                handle_outcome(contents, env, msg),
                resume_contract_outcome(contents, config, env),
                None,
            ),
            HandleMsg::ChangeAdmin { address } => !config.is_stopped ==> gives(
                handle_outcome(contents, env, msg),
                change_admin_outcome(contents, config, env, address@),
                Some(256),
            ),
            HandleMsg::CreateViewingKey { entropy, .. } => !config.is_stopped ==> gives(
                handle_outcome(contents, env, msg),
                generate_viewing_key_outcome(contents, config, env, encode_utf8(entropy@)),
                Some(256),
            ),
            HandleMsg::SetViewingKey { key, .. } => !config.is_stopped ==> gives(
                handle_outcome(contents, env, msg),
                set_viewing_key_outcome(contents, env, key@),
                Some(256),
            ),
            HandleMsg::ClaimRewardPool { recipient } => !config.is_stopped ==> handle_outcome(
                contents,
                env,
                msg,
            ) == (
                contents,
                match claim_start(config, env, text_view(recipient)) {
                    Ok(claim) => HandledView::Claim(claim),
                    Err(error) => HandledView::Reply {
                        reply: Err(error),
                        block_size: Some(256usize),
                    },
                },
            ),
            _ => true,
        },
        account(env, msg) == match msg {
            HandleMsg::Receive { from, .. } => from@,
            _ => env.message.sender@,
        },
{
}

/// Bringing the stored pool up to date writes the pool where that is due, and nothing else.
pub proof fn what_an_update_stores(
    contents: Contents,
    pool: RewardPool,
    config: ConfigView,
    height: u64,
)
    requires
        read_pool(contents) == Ok::<_, StdErrorView>(pool),
    ensures
        read_pool(contents_at(contents, pool, config, height)) == Ok::<_, StdErrorView>(
            updated_pool(pool, config.end_by_height, height),
        ),
        forall|key: Seq<u8>|
            key != pool_key() ==> #[trigger] same_at(
                contents,
                contents_at(contents, pool, config, height),
                key,
            ),
        !(pool.last_reward_block < height <= config.end_by_height) ==> contents_at(
            contents,
            pool,
            config,
            height,
        ) == contents,
{
    lemma_pool_round_trip(updated_pool(pool, config.end_by_height, height));
}

// ---------------------------------------------------------------------------------------------
// Questions
// ---------------------------------------------------------------------------------------------

/// A question about a user is for those who know the viewing key whose digest is kept for that
/// user.
pub proof fn who_is_told(contents: Contents, address: String, key: String)
    ensures
        ({
            let known = read_viewing_key(contents, address@) == Some(
                sha_256_digest(encode_utf8(key@)),
            );
            let refusal = Ok::<_, StdErrorView>(
                QueryAnswerView::QueryError {
                    msg: "Wrong viewing key for this address or viewing key not set"@,
                },
            );
            let rewards = QueryMsg::QueryRewards { address, key };
            let deposit = QueryMsg::QueryDeposit { address, key };
            &&& is_authorized(contents, rewards) <==> known
            &&& is_authorized(contents, deposit) <==> known
            &&& !known ==> query_answer(contents, rewards) == refusal
            &&& !known ==> query_answer(contents, deposit) == refusal
            &&& !known ==> query_fits(contents, rewards)
            &&& query_fits(contents, deposit)
            &&& authenticated_answer(contents, rewards) == query_answer(contents, rewards)
            &&& authenticated_answer(contents, deposit) == query_answer(contents, deposit)
            &&& rewards.about() == address@ && deposit.about() == address@
            &&& rewards.offered_key() == key@ && deposit.offered_key() == key@
            &&& rewards.is_authenticated() && deposit.is_authenticated()
        }),
{
}

/// Who is told a deposit is told exactly what is locked, whatever is owed.
pub proof fn the_deposit_told_is_what_is_locked(
    contents: Contents,
    address: String,
    key: String,
)
    requires
        read_viewing_key(contents, address@) == Some(sha_256_digest(encode_utf8(key@))),
    ensures
        query_answer(contents, (QueryMsg::QueryDeposit { address, key })) == Ok::<_, StdErrorView>(
            QueryAnswerView::QueryDeposit { deposit: read_user(contents, address@).locked },
        ),
{
}

/// The deposit that a user is told, in base units, is what redeeming without an amount gives back.
pub proof fn the_deposit_told_is_what_comes_back(
    contents: Contents,
    config: ConfigView,
    env: Env,
    pool: RewardPool,
    question: QueryMsg,
)
    requires
        read_config(contents) == Ok::<_, StdErrorView>(config),
        read_pool(contents) == Ok::<_, StdErrorView>(pool),
        user_key(env.message.sender@) != pool_key(),
        handle_fits(contents, env, (HandleMsg::Redeem { amount: None })),
        question is QueryDeposit,
        question->QueryDeposit_address@ == env.message.sender@,
        is_authorized(contents, question),
    ensures
        match query_answer(contents, question) {
            Ok(QueryAnswerView::QueryDeposit { deposit }) => match handle_outcome(
                contents,
                env,
                HandleMsg::Redeem { amount: None },
            ).1 {
                HandledView::Reply { reply: Ok(response), .. } => {
                    &&& response.messages.len() > 0
                    &&& deposit * INC_TOKEN_SCALE <= u128::MAX
                    &&& is_transfer(
                        response.messages.last(),
                        config.inc_token,
                        env.message.sender@,
                        (deposit * INC_TOKEN_SCALE) as u128,
                    )
                },
                _ => false,
            },
            _ => false,
        },
{
    redeeming_all_gives_all_back(contents, config, env, pool);
    units_asked_for(read_user(contents, env.message.sender@), None);
}

/// Who is told their rewards is told what the stored pool owes them: their units times the reward
/// per unit, scaled down, less their debt.
pub proof fn the_rewards_told_are_what_is_owed(
    contents: Contents,
    address: String,
    key: String,
)
    requires
        read_viewing_key(contents, address@) == Some(sha_256_digest(encode_utf8(key@))),
    ensures
        ({
            let question = QueryMsg::QueryRewards { address, key };
            let user = read_user(contents, address@);
            &&& pending_rewards_answer(contents, address@) == query_answer(contents, question)
            &&& match read_pool(contents) {
                Err(error) => {
                    &&& query_fits(contents, question)
                    &&& query_answer(contents, question) == Err::<QueryAnswerView, _>(error)
                },
                Ok(pool) => {
                    let product = user.locked * pool.acc_reward_per_share;
                    &&& query_fits(contents, question) <==> user.debt * REWARD_SCALE <= product
                        <= u128::MAX
                    &&& query_fits(contents, question) ==> match query_answer(contents, question) {
                        Ok(QueryAnswerView::QueryRewards { rewards }) => (rewards + user.debt)
                            * REWARD_SCALE <= product < (rewards + user.debt + 1) * REWARD_SCALE,
                        _ => false,
                    }
                },
            }
        }),
{
    if read_pool(contents) is Ok {
        let user = read_user(contents, address@);
        let pool = read_pool(contents)->Ok_0;
        what_is_pending(user, pool);
        if pending_fits(user, pool) {
            lemma_pending_in_range(user, pool);
        }
    }
}

/// Questions about the settings are answered with what is stored, and need no key.
pub proof fn what_is_told_of_the_settings(contents: Contents)
    ensures
        query_fits(contents, QueryMsg::QueryUnlockClaimHeight),
        query_fits(contents, QueryMsg::QueryContractStatus),
        query_fits(contents, QueryMsg::QueryRewardToken),
        query_fits(contents, QueryMsg::QueryIncentivizedToken),
        query_fits(contents, QueryMsg::QueryEndHeight),
        query_fits(contents, QueryMsg::QueryLastRewardBlock),
        match read_config(contents) {
            Ok(config) => {
                &&& query_answer(contents, QueryMsg::QueryUnlockClaimHeight) == Ok::<
                    _,
                    StdErrorView,
                >(
                    QueryAnswerView::QueryUnlockClaimHeight {
                        height: config.pool_claim_height as u128,
                    },
                )
                &&& query_answer(contents, QueryMsg::QueryContractStatus) == Ok::<_, StdErrorView>(
                    QueryAnswerView::QueryContractStatus { is_stopped: config.is_stopped },
                )
                &&& query_answer(contents, QueryMsg::QueryRewardToken) == Ok::<_, StdErrorView>(
                    QueryAnswerView::QueryRewardToken { token: config.reward_token },
                )
                &&& query_answer(contents, QueryMsg::QueryIncentivizedToken) == Ok::<
                    _,
                    StdErrorView,
                >(QueryAnswerView::QueryIncentivizedToken { token: config.inc_token })
                &&& query_answer(contents, QueryMsg::QueryEndHeight) == Ok::<_, StdErrorView>(
                    QueryAnswerView::QueryEndHeight { height: config.end_by_height },
                )
                &&& forall|msg: QueryMsg|
                    match msg {
                        QueryMsg::QueryRewards { .. } => true,
                        QueryMsg::QueryDeposit { .. } => true,
                        QueryMsg::QueryLastRewardBlock => true,
                        _ => query_answer(contents, msg) == Ok::<_, StdErrorView>(
                            #[trigger] settings_answer(config, msg),
                        ),
                    }
            },
            Err(error) => forall|msg: QueryMsg|
                match msg {
                    QueryMsg::QueryRewards { .. } => true,
                    QueryMsg::QueryDeposit { .. } => true,
                    QueryMsg::QueryLastRewardBlock => true,
                    _ => #[trigger] query_answer(contents, msg) == Err::<QueryAnswerView, _>(error),
                },
        },
        query_answer(contents, QueryMsg::QueryLastRewardBlock) == match read_pool(contents) {
            Ok(pool) => Ok::<_, StdErrorView>(
                QueryAnswerView::QueryEndHeight { height: pool.last_reward_block },
            ),
            Err(error) => Err::<QueryAnswerView, _>(error),
        },
{
}

// ---------------------------------------------------------------------------------------------
// Setting up
// ---------------------------------------------------------------------------------------------

/// Setting up keeps the settings that the message names, with the sender as admin, the digest of
/// the seed, and the contract running; a bare zero takes the pool's place. The contract introduces
/// itself to both tokens, the reward token first.
pub proof fn what_setting_up_does(contents: Contents, env: Env, msg: InitMsg)
    ensures
        ({
            let after = initial_contents(contents, env, msg);
            let calls = initial_calls(env, msg);
            let config = ConfigView {
                admin: env.message.sender@,
                reward_token: Snip20View {
                    address: msg.reward_token.address@,
                    contract_hash: msg.reward_token.contract_hash@,
                },
                inc_token: Snip20View {
                    address: msg.inc_token.address@,
                    contract_hash: msg.inc_token.contract_hash@,
                },
                pool_claim_height: msg.pool_claim_block,
                end_by_height: msg.end_by_height,
                viewing_key: msg.viewing_key@,
                prng_seed: sha_256_digest(msg.prng_seed@),
                is_stopped: false,
            };
            &&& initial_config(env, msg) == config
            &&& config_fits(config) ==> read_config(after) == Ok::<_, StdErrorView>(config)
            &&& after.contains_key(pool_key())
            &&& after[pool_key()] == spec_u128_to_le_bytes(0)
            &&& forall|key: Seq<u8>|
                key != config_key() && key != pool_key() ==> #[trigger] same_at(
                    contents,
                    after,
                    key,
                )
            &&& calls.len() == 4
            &&& is_call(
                calls[0],
                config.reward_token,
                register_receive_payload(env.contract_code_hash@, None),
                1,
            )
            &&& is_call(
                calls[1],
                config.inc_token,
                register_receive_payload(env.contract_code_hash@, None),
                1,
            )
            &&& is_call(
                calls[2],
                config.reward_token,
                set_viewing_key_payload(msg.viewing_key@, None),
                256,
            )
            &&& is_call(
                calls[3],
                config.inc_token,
                set_viewing_key_payload(msg.viewing_key@, None),
                256,
            )
        }),
{
    let config = initial_config(env, msg);
    lemma_record_keys();
    if config_fits(config) {
        lemma_config_round_trip(config);
    }
    let register = register_receive_payload(env.contract_code_hash@, None);
    let set_key = set_viewing_key_payload(msg.viewing_key@, None);
    lemma_padded_call(config.reward_token, register, 1);
    lemma_padded_call(config.inc_token, register, 1);
    lemma_padded_call(config.reward_token, set_key, 256);
    lemma_padded_call(config.inc_token, set_key, 256);
}

// ---------------------------------------------------------------------------------------------
// Records and texts
// ---------------------------------------------------------------------------------------------

/// Where each record is kept.
pub proof fn where_records_are(address: Seq<char>)
    ensures
        config_key() == encode_utf8("config"@),
        pool_key() == encode_utf8("rewardpool"@),
        user_key(address) == encode_utf8(address),
        viewing_key_key(address) == seq![0u8, 10u8] + encode_utf8("viewingkey"@) + encode_utf8(
            address,
        ),
{
    reveal_strlit("viewingkey");
    is_ascii_chars_encode_utf8("viewingkey"@);
}

/// A pool is kept as its four numbers, least significant byte first; fewer bytes are no pool, and
/// what follows is ignored.
pub proof fn what_a_stored_pool_is(contents: Contents, pool: RewardPool, rest: Seq<u8>)
    ensures
        ({
            let bytes = spec_u128_to_le_bytes(pool.pending_rewards) + spec_u128_to_le_bytes(
                pool.inc_token_supply,
            ) + spec_u64_to_le_bytes(pool.last_reward_block) + spec_u128_to_le_bytes(
                pool.acc_reward_per_share,
            );
            &&& read_pool(contents.insert(pool_key(), bytes + rest)) == Ok::<_, StdErrorView>(pool)
            &&& write_pool(contents, pool) == contents.insert(pool_key(), bytes)
        }),
        rest.len() < 56 ==> read_pool(contents.insert(pool_key(), rest)) == Err::<RewardPool, _>(
            StdErrorView::Unreadable { kind: Record::RewardPool },
        ),
        read_pool(contents.remove(pool_key())) == Err::<RewardPool, _>(
            StdErrorView::NotFound { kind: Record::RewardPool },
        ),
{
    lemma_auto_spec_u128_to_from_le_bytes();
    lemma_auto_spec_u64_to_from_le_bytes();
    let pending = spec_u128_to_le_bytes(pool.pending_rewards);
    let supply = spec_u128_to_le_bytes(pool.inc_token_supply);
    let last = spec_u64_to_le_bytes(pool.last_reward_block);
    let acc = spec_u128_to_le_bytes(pool.acc_reward_per_share);
    let bytes = pending + supply + last + acc + rest;
    assert(bytes.subrange(0, 16) =~= pending);
    assert(bytes.subrange(16, 32) =~= supply);
    assert(bytes.subrange(32, 40) =~= last);
    assert(bytes.subrange(40, 56) =~= acc);
}

/// A user's record is kept as its two numbers, least significant byte first; who has fewer bytes or
/// none has nothing locked, and what follows is ignored.
pub proof fn what_a_stored_user_is(
    contents: Contents,
    address: Seq<char>,
    user: UserInfo,
    rest: Seq<u8>,
)
    ensures
        ({
            let bytes = spec_u128_to_le_bytes(user.locked) + spec_u128_to_le_bytes(user.debt);
            &&& read_user(contents.insert(user_key(address), bytes + rest), address) == user
            &&& write_user(contents, address, user) == contents.insert(user_key(address), bytes)
        }),
        rest.len() < 32 ==> read_user(contents.insert(user_key(address), rest), address) == (
        UserInfo { locked: 0, debt: 0 }),
        read_user(contents.remove(user_key(address)), address) == (UserInfo {
            locked: 0,
            debt: 0,
        }),
{
    lemma_auto_spec_u128_to_from_le_bytes();
    let locked = spec_u128_to_le_bytes(user.locked);
    let debt = spec_u128_to_le_bytes(user.debt);
    let bytes = locked + debt + rest;
    assert(bytes.subrange(0, 16) =~= locked);
    assert(bytes.subrange(16, 32) =~= debt);
}

/// A viewing key's digest is kept as it is.
pub proof fn what_a_stored_viewing_key_is(contents: Contents, address: Seq<char>, hash: Seq<u8>)
    ensures
        read_viewing_key(contents.insert(viewing_key_key(address), hash), address) == Some(hash),
        write_viewing_key(contents, address, hash) == contents.insert(
            viewing_key_key(address),
            hash,
        ),
        read_viewing_key(contents.remove(viewing_key_key(address)), address) is None,
{
}

/// The settings are kept as each of them in turn: numbers in eight bytes, least significant first;
/// texts as their UTF-8 bytes behind their length; and a one where the contract is stopped. They
/// are read back as they were written, whatever follows them.
pub proof fn what_stored_settings_are(contents: Contents, config: ConfigView, rest: Seq<u8>)
    requires
        config_fits(config),
    ensures
        ({
            let text = |text: Seq<char>|
                spec_u64_to_le_bytes(encode_utf8(text).len() as u64) + encode_utf8(text);
            let bytes = text(config.admin) + text(config.reward_token.address) + text(
                config.reward_token.contract_hash,
            ) + text(config.inc_token.address) + text(config.inc_token.contract_hash)
                + spec_u64_to_le_bytes(config.pool_claim_height) + spec_u64_to_le_bytes(
                config.end_by_height,
            ) + text(config.viewing_key) + (spec_u64_to_le_bytes(config.prng_seed.len() as u64)
                + config.prng_seed) + seq![
                if config.is_stopped {
                    1u8
                } else {
                    0u8
                },
            ];
            &&& read_config(contents.insert(config_key(), bytes + rest)) == Ok::<_, StdErrorView>(
                config,
            )
            &&& write_config(contents, config) == contents.insert(config_key(), bytes)
        }),
        (forall|other: ConfigView| !holds_config(rest, other)) ==> read_config(
            contents.insert(config_key(), rest),
        ) == Err::<ConfigView, _>(StdErrorView::Unreadable { kind: Record::Config }),
        read_config(contents.remove(config_key())) == Err::<ConfigView, _>(
            StdErrorView::NotFound { kind: Record::Config },
        ),
{
    let bytes = config_encoding(config) + rest;
    assert(config_encoding(config).is_prefix_of(bytes));
    lemma_config_decoding(bytes, config);
}

/// The value of a decimal text.
pub open spec fn decimal_value(text: Seq<char>) -> int
    decreases text.len(),
{
    if text.len() == 0 {
        0
    } else {
        decimal_value(text.drop_last()) * 10 + (text.last() as u32 - '0' as u32)
    }
}

/// A number is written in decimal digits whose value it is, without zeros in front.
pub proof fn what_a_decimal_text_is(n: nat)
    ensures
        decimal_value(decimal(n)) == n,
        decimal(n).len() > 0,
        decimal(n).len() > 1 ==> decimal(n)[0] != '0',
        forall|i: int| 0 <= i < decimal(n).len() ==> '0' <= #[trigger] decimal(n)[i] <= '9',
    decreases n,
{
    reveal_with_fuel(decimal_value, 2);
    if n < 10 {
        let text = decimal(n);
        assert(text.drop_last() =~= Seq::<char>::empty());
        assert(text.last() as u32 - '0' as u32 == n);
    } else {
        let front = decimal(n / 10);
        what_a_decimal_text_is(n / 10);
        assert(decimal(n).drop_last() =~= front);
        assert(decimal(n)[0] == front[0]);
        if front.len() == 1 {
            assert(front.drop_last() =~= Seq::<char>::empty());
            assert(decimal_value(front) == front[0] as u32 - '0' as u32);
            assert(front[0] != '0');
        }
    }
}

/// What is kept of a viewing key is the digest of its bytes.
pub proof fn what_is_kept_of_a_viewing_key(key: Seq<char>)
    ensures
        key_hash(key) == sha_256_digest(encode_utf8(key)),
{
}

/// A record that is missing, and one that cannot be decoded, are told apart, with the decoder's
/// text.
pub proof fn what_a_failed_load_is_answered(kind: Record, text: String)
    ensures
        load_refusal(kind, LoadError::Missing) == (StdError::NotFound { kind }),
        load_refusal(kind, LoadError::Malformed(text)) == (StdError::Unreadable {
            kind,
            msg: text,
        }),
{
}

// ---------------------------------------------------------------------------------------------
// Views
// ---------------------------------------------------------------------------------------------

/// The views of tokens, settings, calls and texts hold all of their fields.
pub proof fn records_are_viewed_whole(
    token: Snip20,
    config: Config,
    record: ConfigRecord,
    call: Execute,
    text: String,
)
    ensures
        record_view(record).admin == record.0@,
        record_view(record).reward_token.address == record.1.0@,
        record_view(record).reward_token.contract_hash == record.1.1@,
        record_view(record).inc_token.address == record.2.0@,
        record_view(record).inc_token.contract_hash == record.2.1@,
        record_view(record).pool_claim_height == record.3,
        record_view(record).end_by_height == record.4,
        record_view(record).viewing_key == record.5@,
        record_view(record).prng_seed == record.6@,
        record_view(record).is_stopped == record.7,
        text_view(Some(text)) == Some(text@),
        text_view(None) == None::<Seq<char>>,
        token@.address == token.address@,
        token@.contract_hash == token.contract_hash@,
        config@.admin == config.admin@,
        config@.reward_token == config.reward_token@,
        config@.inc_token == config.inc_token@,
        config@.pool_claim_height == config.pool_claim_height,
        config@.end_by_height == config.end_by_height,
        config@.viewing_key == config.viewing_key@,
        config@.prng_seed == config.prng_seed@,
        config@.is_stopped == config.is_stopped,
        call@.contract_addr == call.contract_addr@,
        call@.callback_code_hash == call.callback_code_hash@,
        call@.msg == call.msg@,
{
}

/// The view of a response holds its calls in their order, and its answer.
pub proof fn responses_are_viewed_whole(response: HandleResponse, error: StdError)
    ensures
        response@.messages.len() == response.messages@.len(),
        forall|i: int|
            0 <= i < response.messages@.len() ==> #[trigger] response@.messages[i]
                == response.messages@[i]@,
        response.data is None <==> response@.data is None,
        response.data is Some ==> response@.data->0 == response.data->0@,
        reply_view(Ok(response)) == Ok::<_, StdErrorView>(response@),
        reply_view(Err(error)) == Err::<HandleResponseView, _>(error@),
{
}

/// The view of an error holds everything but the decoder's text.
pub proof fn errors_are_viewed_whole(kind: Record, msg: String)
    ensures
        (StdError::GenericErr { msg })@ == (StdErrorView::GenericErr { msg: msg@ }),
        (StdError::NotFound { kind })@ == (StdErrorView::NotFound { kind }),
        (StdError::Unreadable { kind, msg })@ == (StdErrorView::Unreadable { kind }),
        (StdError::ParseErr { msg })@ == (StdErrorView::ParseErr { msg: msg@ }),
        StdError::Unauthorized@ == StdErrorView::Unauthorized,
{
}

/// The view of the answer to a question holds what is answered.
pub proof fn answers_to_questions_are_viewed_whole(
    number: u128,
    height: u64,
    flag: bool,
    token: Snip20,
    msg: String,
)
    ensures
        (QueryAnswer::QueryRewards { rewards: number })@ == (QueryAnswerView::QueryRewards {
            rewards: number,
        }),
        (QueryAnswer::QueryDeposit { deposit: number })@ == (QueryAnswerView::QueryDeposit {
            deposit: number,
        }),
        (QueryAnswer::QueryUnlockClaimHeight { height: number })@ == (
        QueryAnswerView::QueryUnlockClaimHeight { height: number }),
        (QueryAnswer::QueryContractStatus { is_stopped: flag })@ == (
        QueryAnswerView::QueryContractStatus { is_stopped: flag }),
        (QueryAnswer::QueryRewardToken { token })@ == (QueryAnswerView::QueryRewardToken {
            token: token@,
        }),
        (QueryAnswer::QueryIncentivizedToken { token })@ == (
        QueryAnswerView::QueryIncentivizedToken { token: token@ }),
        (QueryAnswer::QueryEndHeight { height })@ == (QueryAnswerView::QueryEndHeight { height }),
        (QueryAnswer::QueryError { msg })@ == (QueryAnswerView::QueryError { msg: msg@ }),
{
}

/// The view of the answer to a message holds what is answered.
pub proof fn answers_to_messages_are_viewed_whole(status: ResponseStatus, key: ViewingKey)
    ensures
        key@ == key.0@,
        (HandleAnswer::CreateViewingKey { key })@ == (HandleAnswerView::CreateViewingKey {
            key: key.0@,
        }),
        (HandleAnswer::SetViewingKey { status })@ == (HandleAnswerView::SetViewingKey { status }),
        (HandleAnswer::LockTokens { status })@ == (HandleAnswerView::LockTokens { status }),
        (HandleAnswer::AddToRewardPool { status })@ == (HandleAnswerView::AddToRewardPool {
            status,
        }),
        (HandleAnswer::UpdateIncentivizedToken { status })@ == (
        HandleAnswerView::UpdateIncentivizedToken { status }),
        (HandleAnswer::UpdateRewardToken { status })@ == (HandleAnswerView::UpdateRewardToken {
            status,
        }),
        (HandleAnswer::StopContract { status })@ == (HandleAnswerView::StopContract { status }),
        (HandleAnswer::ResumeContract { status })@ == (HandleAnswerView::ResumeContract {
            status,
        }),
        (HandleAnswer::ChangeAdmin { status })@ == (HandleAnswerView::ChangeAdmin { status }),
{
}

/// The views of what comes of a message, and of a claim, hold all of it.
pub proof fn outcomes_are_viewed_whole(
    claim: Claim,
    reply: Result<HandleResponse, StdError>,
    block_size: Option<usize>,
    answer: QueryAnswer,
    error: StdError,
)
    ensures
        claim@.query.address == claim.query.address@,
        claim@.query.key == claim.query.key@,
        claim@.query.block_size == claim.query.block_size,
        claim@.query.callback_code_hash == claim.query.callback_code_hash@,
        claim@.query.contract_addr == claim.query.contract_addr@,
        claim@.recipient == claim.recipient@,
        claim@.token == claim.token@,
        Handled::Claim(claim)@ == HandledView::Claim(claim@),
        (Handled::Reply { reply, block_size })@ == (HandledView::Reply {
            reply: reply_view(reply),
            block_size,
        }),
        answer_view(Ok(answer)) == Ok::<_, StdErrorView>(answer@),
        answer_view(Err(error)) == Err::<QueryAnswerView, _>(error@),
{
}

} // verus!
