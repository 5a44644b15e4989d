//! What the contract does, as functions from what is stored to what is stored and answered.

use vstd::prelude::*;

use crate::constants::{INC_TOKEN_SCALE, RESPONSE_BLOCK_SIZE};
use crate::env::Env;
use crate::error::{generic, StdError, StdErrorView};
use crate::msg::{
    HandleAnswerView, HandleMsg, HandleResponse, HandleResponseView, InitMsg, Payload,
    QueryAnswerView, QueryMsg, ResponseStatus,
};
use crate::rewards::{
    amount_fits, is_due, lock_fits, lock_settlement, pending, pending_fits, requested_units,
    unlock_fits, unlock_settlement, update_fits, updated_pool, whole_units,
};
use crate::crypto::sha_256_digest;
use crate::snip20::{
    padded_call, register_receive_payload, set_viewing_key_payload, transfer_payload, ExecuteView,
};
use crate::state::{ConfigView, RewardPool, Snip20View};
use crate::storage::{
    read_config, read_pool, read_user, read_viewing_key, write_bare_pool, write_config, write_pool,
    write_user, write_viewing_key, Contents,
};
use crate::text::decimal;
use crate::viewing_key::{generated_key, key_hash};

verus! {

/// The answer to a message: what follows from it, or why it was refused.
pub type Reply = Result<HandleResponseView, StdErrorView>;

/// What a reply says.
pub open spec fn reply_view(reply: Result<HandleResponse, StdError>) -> Reply {
    match reply {
        Ok(response) => Ok(response@),
        Err(error) => Err(error@),
    }
}

// ---------------------------------------------------------------------------------------------
// Setting up
// ---------------------------------------------------------------------------------------------

/// The first settings: the sender is the admin, and the contract is not stopped.
pub open spec fn initial_config(env: Env, msg: InitMsg) -> ConfigView {
    ConfigView {
        admin: env.message.sender@,
        reward_token: msg.reward_token@,
        inc_token: msg.inc_token@,
        pool_claim_height: msg.pool_claim_block,
        end_by_height: msg.end_by_height,
        viewing_key: msg.viewing_key@,
        prng_seed: sha_256_digest(msg.prng_seed@),
        is_stopped: false,
    }
}

/// What is stored at first: the settings, and a bare zero in the place of the reward pool.
pub open spec fn initial_contents(contents: Contents, env: Env, msg: InitMsg) -> Contents {
    write_bare_pool(write_config(contents, initial_config(env, msg)), 0)
}

/// The call that asks a token contract to notify this contract of tokens sent to it. The payload
/// is public, so it is not padded.
pub open spec fn register_call(env: Env, token: Snip20View) -> ExecuteView {
    padded_call(
        token.address,
        token.contract_hash,
        register_receive_payload(env.contract_code_hash@, None),
        1,
    )
}

/// The call that sets this contract's viewing key at a token contract.
pub open spec fn viewing_key_call(key: Seq<char>, token: Snip20View) -> ExecuteView {
    padded_call(
        token.address,
        token.contract_hash,
        set_viewing_key_payload(key, None),
        RESPONSE_BLOCK_SIZE as nat,
    )
}

/// The calls with which the contract introduces itself to its two tokens.
pub open spec fn initial_calls(env: Env, msg: InitMsg) -> Seq<ExecuteView> {
    seq![
        register_call(env, msg.reward_token@),
        register_call(env, msg.inc_token@),
        viewing_key_call(msg.viewing_key@, msg.reward_token@),
        viewing_key_call(msg.viewing_key@, msg.inc_token@),
    ]
}

// ---------------------------------------------------------------------------------------------
// Locking and redeeming
// ---------------------------------------------------------------------------------------------

/// A refusal of tokens that came from another contract than expected. It names the sender first
/// and the incentivized token second.
pub open spec fn unsupported_token(env: Env, config: ConfigView) -> StdErrorView {
    generic(
        "This token is not supported. Supported: "@ + env.message.sender@ + ", given: "@
            + config.inc_token.address,
    )
}

/// What is stored after the pool was brought up to date.
pub open spec fn contents_at(
    contents: Contents,
    pool: RewardPool,
    config: ConfigView,
    height: u64,
) -> Contents {
    if is_due(pool, config.end_by_height, height) {
        write_pool(contents, updated_pool(pool, config.end_by_height, height))
    } else {
        contents
    }
}

/// The call that transfers tokens.
pub open spec fn transfer_call(
    token: Snip20View,
    recipient: Seq<char>,
    amount: u128,
) -> ExecuteView {
    padded_call(
        token.address,
        token.contract_hash,
        transfer_payload(recipient, amount, None, None),
        RESPONSE_BLOCK_SIZE as nat,
    )
}

/// The calls that pay rewards out: none where there is nothing to pay.
pub open spec fn payout_calls(
    config: ConfigView,
    recipient: Seq<char>,
    payout: u128,
) -> Seq<ExecuteView> {
    if payout > 0 {
        seq![transfer_call(config.reward_token, recipient, payout)]
    } else {
        seq![]
    }
}

/// A user locks tokens that the incentivized token's contract received for this contract. What
/// does not make a whole unit is kept, but not locked.
pub open spec fn lock_tokens_outcome(
    contents: Contents,
    config: ConfigView,
    env: Env,
    from: Seq<char>,
    amount: u128,
) -> (Contents, Reply) {
    if env.message.sender@ != config.inc_token.address {
        (contents, Err(unsupported_token(env, config)))
    } else {
        match read_pool(contents) {
            Err(error) => (contents, Err(error)),
            Ok(pool) => {
                let current = contents_at(contents, pool, config, env.block.height);
                let settlement = lock_settlement(
                    read_user(current, from),
                    updated_pool(pool, config.end_by_height, env.block.height),
                    whole_units(amount),
                );
                (
                    write_pool(write_user(current, from, settlement.user), settlement.pool),
                    Ok(
                        HandleResponseView {
                            messages: payout_calls(config, from, settlement.payout),
                            data: Some(
                                HandleAnswerView::LockTokens { status: ResponseStatus::Success },
                            ),
                        },
                    ),
                )
            },
        }
    }
}

/// Whether the numbers stay within their type when a user locks tokens.
pub open spec fn lock_tokens_fits(
    contents: Contents,
    config: ConfigView,
    env: Env,
    from: Seq<char>,
    amount: u128,
) -> bool {
    env.message.sender@ == config.inc_token.address ==> match read_pool(contents) {
        Err(_) => true,
        Ok(pool) => update_fits(pool, config.end_by_height, env.block.height) && lock_fits(
            read_user(contents_at(contents, pool, config, env.block.height), from),
            updated_pool(pool, config.end_by_height, env.block.height),
            whole_units(amount),
        ),
    }
}

/// Reward tokens that the reward token's contract received for this contract are added to the
/// pool.
pub open spec fn add_to_pool_outcome(
    contents: Contents,
    config: ConfigView,
    env: Env,
    amount: u128,
) -> (Contents, Reply) {
    if env.message.sender@ != config.reward_token.address {
        (contents, Err(unsupported_token(env, config)))
    } else {
        match read_pool(contents) {
            Err(error) => (contents, Err(error)),
            Ok(pool) => {
                let current = updated_pool(pool, config.end_by_height, env.block.height);
                (
                    write_pool(
                        contents,
                        RewardPool {
                            pending_rewards: (current.pending_rewards + amount) as u128,
                            ..current
                        },
                    ),
                    Ok(
                        HandleResponseView {
                            messages: seq![],
                            data: Some(
                                HandleAnswerView::AddToRewardPool {
                                    status: ResponseStatus::Success,
                                },
                            ),
                        },
                    ),
                )
            },
        }
    }
}

/// Whether the numbers stay within their type when rewards are added to the pool.
pub open spec fn add_to_pool_fits(
    contents: Contents,
    config: ConfigView,
    env: Env,
    amount: u128,
) -> bool {
    env.message.sender@ == config.reward_token.address ==> match read_pool(contents) {
        Err(_) => true,
        Ok(pool) => {
            &&& update_fits(pool, config.end_by_height, env.block.height)
            &&& pool.pending_rewards + amount <= u128::MAX
        },
    }
}

/// A refusal to give more than the sender has locked.
pub open spec fn insufficient_funds(locked: u128, requested: u128) -> StdErrorView {
    generic(
        "insufficient funds to redeem: balance="@ + decimal(locked as nat) + ", required="@
            + decimal(requested as nat),
    )
}

/// The sender redeems locked tokens, and is paid the rewards that are pending.
pub open spec fn redeem_outcome(
    contents: Contents,
    config: ConfigView,
    env: Env,
    amount: Option<u128>,
) -> (Contents, Reply) {
    let sender = env.message.sender@;
    let user = read_user(contents, sender);
    let units = requested_units(user, amount);
    if units > user.locked {
        (contents, Err(insufficient_funds(user.locked, units)))
    } else {
        match read_pool(contents) {
            Err(error) => (contents, Err(error)),
            Ok(pool) => {
                let settlement = unlock_settlement(
                    user,
                    updated_pool(pool, config.end_by_height, env.block.height),
                    units,
                );
                (
                    write_pool(
                        write_user(
                            contents_at(contents, pool, config, env.block.height),
                            sender,
                            settlement.user,
                        ),
                        settlement.pool,
                    ),
                    Ok(
                        HandleResponseView {
                            messages: payout_calls(config, sender, settlement.payout).push(
                                transfer_call(
                                    config.inc_token,
                                    sender,
                                    (units * INC_TOKEN_SCALE) as u128,
                                ),
                            ),
                            data: None,
                        },
                    ),
                )
            },
        }
    }
}

/// Whether the numbers stay within their type when the sender redeems tokens.
pub open spec fn redeem_fits(
    contents: Contents,
    config: ConfigView,
    env: Env,
    amount: Option<u128>,
) -> bool {
    let user = read_user(contents, env.message.sender@);
    let units = requested_units(user, amount);
    &&& amount_fits(user.locked)
    &&& units <= user.locked ==> match read_pool(contents) {
        Err(_) => true,
        Ok(pool) => update_fits(pool, config.end_by_height, env.block.height) && unlock_fits(
            user,
            updated_pool(pool, config.end_by_height, env.block.height),
            units,
        ),
    }
}

// ---------------------------------------------------------------------------------------------
// Viewing keys
// ---------------------------------------------------------------------------------------------

/// The sender generates a viewing key. Its hash is kept, and the key is in the answer.
pub open spec fn generate_viewing_key_outcome(
    contents: Contents,
    config: ConfigView,
    env: Env,
    entropy: Seq<u8>,
) -> (Contents, Reply) {
    let key = generated_key(env, config.prng_seed, entropy);
    (
        write_viewing_key(contents, env.message.sender@, key_hash(key)),
        Ok(
            HandleResponseView {
                messages: seq![],
                data: Some(HandleAnswerView::CreateViewingKey { key }),
            },
        ),
    )
}

/// The sender generates a viewing key under the stored settings.
pub open spec fn create_viewing_key_outcome(contents: Contents, env: Env, entropy: Seq<u8>) -> (
    Contents,
    Reply,
) {
    match read_config(contents) {
        Ok(config) => generate_viewing_key_outcome(contents, config, env, entropy),
        Err(error) => (contents, Err(error)),
    }
}

/// The sender sets a viewing key. Its hash is kept.
pub open spec fn set_viewing_key_outcome(contents: Contents, env: Env, key: Seq<char>) -> (
    Contents,
    Reply,
) {
    (
        write_viewing_key(contents, env.message.sender@, key_hash(key)),
        Ok(
            HandleResponseView {
                messages: seq![],
                data: Some(HandleAnswerView::SetViewingKey { status: ResponseStatus::Success }),
            },
        ),
    )
}

// ---------------------------------------------------------------------------------------------
// The admin's messages
// ---------------------------------------------------------------------------------------------

/// A refusal of what only the admin may do.
pub open spec fn not_admin(env: Env) -> StdErrorView {
    generic("no assets locked for: "@ + env.message.sender@)
}

/// The admin changes the settings; anybody else is refused.
pub open spec fn settings_outcome(
    contents: Contents,
    config: ConfigView,
    env: Env,
    changed: ConfigView,
    answer: HandleAnswerView,
) -> (Contents, Reply) {
    if config.admin != env.message.sender@ {
        (contents, Err(not_admin(env)))
    } else {
        (
            write_config(contents, changed),
            Ok(HandleResponseView { messages: seq![], data: Some(answer) }),
        )
    }
}

/// The outcome of changing the token that is locked.
pub open spec fn update_inc_token_outcome(
    contents: Contents,
    config: ConfigView,
    env: Env,
    token: Snip20View,
) -> (Contents, Reply) {
    settings_outcome(
        contents,
        config,
        env,
        ConfigView { inc_token: token, ..config },
        HandleAnswerView::UpdateIncentivizedToken { status: ResponseStatus::Success },
    )
}

/// The outcome of changing the token that rewards are paid in.
pub open spec fn update_reward_token_outcome(
    contents: Contents,
    config: ConfigView,
    env: Env,
    token: Snip20View,
) -> (Contents, Reply) {
    settings_outcome(
        contents,
        config,
        env,
        ConfigView { reward_token: token, ..config },
        HandleAnswerView::UpdateRewardToken { status: ResponseStatus::Success },
    )
}

/// The outcome of stopping the contract.
pub open spec fn stop_contract_outcome(contents: Contents, config: ConfigView, env: Env) -> (
    Contents,
    Reply,
) {
    settings_outcome(
        contents,
        config,
        env,
        ConfigView { is_stopped: true, ..config },
        HandleAnswerView::StopContract { status: ResponseStatus::Success },
    )
}

/// The outcome of resuming the contract.
pub open spec fn resume_contract_outcome(contents: Contents, config: ConfigView, env: Env) -> (
    Contents,
    Reply,
) {
    settings_outcome(
        contents,
        config,
        env,
        ConfigView { is_stopped: false, ..config },
        HandleAnswerView::ResumeContract { status: ResponseStatus::Success },
    )
}

/// The outcome of handing the contract over.
pub open spec fn change_admin_outcome(
    contents: Contents,
    config: ConfigView,
    env: Env,
    address: Seq<char>,
) -> (Contents, Reply) {
    settings_outcome(
        contents,
        config,
        env,
        ConfigView { admin: address, ..config },
        HandleAnswerView::ChangeAdmin { status: ResponseStatus::Success },
    )
}

/// A refusal to pay the pool out before its time.
pub open spec fn too_early(config: ConfigView) -> StdErrorView {
    generic(
        "minimum claim height hasn't passed yet: "@ + decimal(config.pool_claim_height as nat),
    )
}

/// A question to a token contract: how much an address has. It goes to `contract_addr`, with
/// `callback_code_hash`.
pub struct BalanceQueryView {
    pub address: Seq<char>,
    pub key: Seq<char>,
    pub block_size: usize,
    pub callback_code_hash: Seq<char>,
    pub contract_addr: Seq<char>,
}

/// A claim that waits for the balance to be known.
pub struct ClaimView {
    pub query: BalanceQueryView,
    pub recipient: Seq<char>,
    pub token: Snip20View,
}

/// The admin claims the contract's whole reward balance, for themself or for the recipient: the
/// balance has to be asked for first.
pub open spec fn claim_start(
    config: ConfigView,
    env: Env,
    recipient: Option<Seq<char>>,
) -> Result<ClaimView, StdErrorView> {
    if config.admin != env.message.sender@ {
        Err(not_admin(env))
    } else if env.block.height < config.pool_claim_height {
        Err(too_early(config))
    } else {
        Ok(
            ClaimView {
                query: BalanceQueryView {
                    address: env.contract.address@,
                    key: config.viewing_key,
                    block_size: RESPONSE_BLOCK_SIZE,
                    callback_code_hash: env.contract_code_hash@,
                    contract_addr: config.reward_token.address,
                },
                recipient: match recipient {
                    Some(recipient) => recipient,
                    None => env.message.sender@,
                },
                token: config.reward_token,
            },
        )
    }
}

/// The outcome of a claim once the balance is known, or could not be learned.
pub open spec fn claim_end(claim: ClaimView, balance: Result<u128, StdErrorView>) -> Reply {
    match balance {
        Ok(amount) => Ok(
            HandleResponseView {
                messages: seq![transfer_call(claim.token, claim.recipient, amount)],
                data: None,
            },
        ),
        Err(error) => Err(error),
    }
}

// ---------------------------------------------------------------------------------------------
// All messages
// ---------------------------------------------------------------------------------------------

/// Whose records a message is about: those of the sender, or of the owner of the tokens that a
/// token contract received.
pub open spec fn account(env: Env, msg: HandleMsg) -> Seq<char> {
    match msg {
        HandleMsg::Receive { from, .. } => from@,
        _ => env.message.sender@,
    }
}

/// What comes of a message: an answer, whose data is to be padded to whole blocks of the given
/// size, if one is given; or a claim.
pub enum HandledView {
    Reply { reply: Reply, block_size: Option<usize> },
    Claim(ClaimView),
}

/// An answer that is to be padded.
pub open spec fn padded(outcome: (Contents, Reply)) -> (Contents, HandledView) {
    (
        outcome.0,
        HandledView::Reply { reply: outcome.1, block_size: Some(RESPONSE_BLOCK_SIZE) },
    )
}

/// An answer that is not to be padded.
pub open spec fn unpadded(outcome: (Contents, Reply)) -> (Contents, HandledView) {
    (outcome.0, HandledView::Reply { reply: outcome.1, block_size: None })
}

/// The outcome of a message that a token contract hands on.
pub open spec fn receive_outcome(
    contents: Contents,
    config: ConfigView,
    env: Env,
    from: Seq<char>,
    amount: u128,
    payload: Payload,
) -> (Contents, Reply) {
    match payload {
        Payload::Malformed(text) => (contents, Err(StdErrorView::ParseErr { msg: text@ })),
        Payload::Message(msg) => match *msg {
            HandleMsg::Receive { .. } => (
                contents,
                Err(generic("Recursive call to receive() is not allowed"@)),
            ),
            HandleMsg::LockTokens => lock_tokens_outcome(contents, config, env, from, amount),
            HandleMsg::AddToRewardPool => add_to_pool_outcome(contents, config, env, amount),
            _ => (contents, Err(generic("Illegal internal receive message"@))),
        },
    }
}

/// The outcome of a message under given settings. A stopped contract only lets users redeem, and
/// the admin resume it.
pub open spec fn execute_outcome(
    contents: Contents,
    config: ConfigView,
    env: Env,
    msg: HandleMsg,
) -> (Contents, HandledView) {
    if config.is_stopped {
        unpadded(
            match msg {
                HandleMsg::Redeem { amount } => redeem_outcome(contents, config, env, amount),
                HandleMsg::ResumeContract => resume_contract_outcome(contents, config, env),
                _ => (
                    contents,
                    Err(generic("This contract is stopped and this action is not allowed"@)),
                ),
            },
        )
    } else {
        match msg {
            HandleMsg::Redeem { amount } => padded(redeem_outcome(contents, config, env, amount)),
            HandleMsg::Receive { from, amount, msg, .. } => padded(
                receive_outcome(contents, config, env, from@, amount, msg),
            ),
            HandleMsg::CreateViewingKey { entropy, .. } => padded(
                generate_viewing_key_outcome(
                    contents,
                    config,
                    env,
                    vstd::utf8::encode_utf8(entropy@),
                ),
            ),
            HandleMsg::SetViewingKey { key, .. } => padded(
                set_viewing_key_outcome(contents, env, key@),
            ),
            HandleMsg::UpdateIncentivizedToken { new_token } => padded(
                update_inc_token_outcome(contents, config, env, new_token@),
            ),
            HandleMsg::UpdateRewardToken { new_token } => padded(
                update_reward_token_outcome(contents, config, env, new_token@),
            ),
            HandleMsg::ClaimRewardPool { recipient } => match claim_start(
                config,
                env,
                crate::snip20::text_view(recipient),
            ) {
                Ok(claim) => (contents, HandledView::Claim(claim)),
                Err(error) => padded((contents, Err(error))),
            },
            HandleMsg::StopContract => padded(stop_contract_outcome(contents, config, env)),
            HandleMsg::ChangeAdmin { address } => padded(
                change_admin_outcome(contents, config, env, address@),
            ),
            _ => padded((contents, Err(generic("Unavailable or unknown action"@)))),
        }
    }
}

/// Whether the numbers stay within their type when a message is handled under given settings.
pub open spec fn execute_fits(
    contents: Contents,
    config: ConfigView,
    env: Env,
    msg: HandleMsg,
) -> bool {
    match msg {
        HandleMsg::Redeem { amount } => redeem_fits(contents, config, env, amount),
        HandleMsg::Receive {
            from,
            amount,
            msg: Payload::Message(msg),
            ..
        } => !config.is_stopped ==> match *msg {
            HandleMsg::LockTokens => lock_tokens_fits(contents, config, env, from@, amount),
            HandleMsg::AddToRewardPool => add_to_pool_fits(contents, config, env, amount),
            _ => true,
        },
        _ => true,
    }
}

/// Whether a message changes the settings: one that does has to come from the admin, and only
/// resuming is possible while the contract is stopped, and only then.
pub open spec fn changes_settings(config: ConfigView, env: Env, msg: HandleMsg) -> bool {
    config.admin == env.message.sender@ && if config.is_stopped {
        msg is ResumeContract
    } else {
        msg is UpdateIncentivizedToken || msg is UpdateRewardToken || msg is StopContract
            || msg is ChangeAdmin
    }
}

/// The settings after a message that changes them.
pub open spec fn changed_settings(config: ConfigView, msg: HandleMsg) -> ConfigView {
    match msg {
        HandleMsg::UpdateIncentivizedToken { new_token } => ConfigView {
            inc_token: new_token@,
            ..config
        },
        HandleMsg::UpdateRewardToken { new_token } => ConfigView {
            reward_token: new_token@,
            ..config
        },
        HandleMsg::StopContract => ConfigView { is_stopped: true, ..config },
        HandleMsg::ResumeContract => ConfigView { is_stopped: false, ..config },
        HandleMsg::ChangeAdmin { address } => ConfigView { admin: address@, ..config },
        _ => config,
    }
}

/// The outcome of a message.
pub open spec fn handle_outcome(contents: Contents, env: Env, msg: HandleMsg) -> (
    Contents,
    HandledView,
) {
    match read_config(contents) {
        Ok(config) => execute_outcome(contents, config, env, msg),
        Err(error) => unpadded((contents, Err(error))),
    }
}

/// Whether the numbers stay within their type when a message is handled.
pub open spec fn handle_fits(contents: Contents, env: Env, msg: HandleMsg) -> bool {
    match read_config(contents) {
        Ok(config) => execute_fits(contents, config, env, msg),
        Err(_) => true,
    }
}

// ---------------------------------------------------------------------------------------------
// Questions
// ---------------------------------------------------------------------------------------------

/// Whether a question comes with the viewing key of the user that it is about.
pub open spec fn is_authorized(contents: Contents, msg: QueryMsg) -> bool {
    read_viewing_key(contents, msg.about()) == Some(key_hash(msg.offered_key()))
}

/// The rewards that are pending for a user, according to the pool as it is stored.
pub open spec fn pending_rewards_answer(contents: Contents, address: Seq<char>) -> Result<
    QueryAnswerView,
    StdErrorView,
> {
    match read_pool(contents) {
        Ok(pool) => Ok(
            QueryAnswerView::QueryRewards {
                rewards: pending(read_user(contents, address), pool) as u128,
            },
        ),
        Err(error) => Err(error),
    }
}

/// The answer to a question about a user.
pub open spec fn authenticated_answer(contents: Contents, msg: QueryMsg) -> Result<
    QueryAnswerView,
    StdErrorView,
> {
    if !is_authorized(contents, msg) {
        Ok(
            QueryAnswerView::QueryError {
                msg: "Wrong viewing key for this address or viewing key not set"@,
            },
        )
    } else if msg is QueryRewards {
        pending_rewards_answer(contents, msg.about())
    } else {
        Ok(QueryAnswerView::QueryDeposit { deposit: read_user(contents, msg.about()).locked })
    }
}

/// The answer to a question about the settings.
pub open spec fn settings_answer(config: ConfigView, msg: QueryMsg) -> QueryAnswerView {
    match msg {
        QueryMsg::QueryUnlockClaimHeight => QueryAnswerView::QueryUnlockClaimHeight {
            height: config.pool_claim_height as u128,
        },
        QueryMsg::QueryContractStatus => QueryAnswerView::QueryContractStatus {
            is_stopped: config.is_stopped,
        },
        QueryMsg::QueryRewardToken => QueryAnswerView::QueryRewardToken {
            token: config.reward_token,
        },
        QueryMsg::QueryIncentivizedToken => QueryAnswerView::QueryIncentivizedToken {
            token: config.inc_token,
        },
        _ => QueryAnswerView::QueryEndHeight { height: config.end_by_height },
    }
}

/// The answer to a question. The last reward block is answered in the form of an end height.
pub open spec fn query_answer(contents: Contents, msg: QueryMsg) -> Result<
    QueryAnswerView,
    StdErrorView,
> {
    match msg {
        QueryMsg::QueryRewards { .. } => authenticated_answer(contents, msg),
        QueryMsg::QueryDeposit { .. } => authenticated_answer(contents, msg),
        QueryMsg::QueryLastRewardBlock => match read_pool(contents) {
            Ok(pool) => Ok(QueryAnswerView::QueryEndHeight { height: pool.last_reward_block }),
            Err(error) => Err(error),
        },
        _ => match read_config(contents) {
            Ok(config) => Ok(settings_answer(config, msg)),
            Err(error) => Err(error),
        },
    }
}

/// Whether the numbers stay within their type when a question is answered.
pub open spec fn query_fits(contents: Contents, msg: QueryMsg) -> bool {
    msg is QueryRewards && is_authorized(contents, msg) ==> match read_pool(contents) {
        Ok(pool) => pending_fits(read_user(contents, msg.about()), pool),
        Err(_) => true,
    }
}

} // verus!
