//! The contract: setting it up, handling messages, and answering questions.

use secret_cosmwasm_std::MemoryStorage;
use vstd::prelude::*;
use vstd::string::StringExecFns;
use vstd::utf8::encode_utf8;

use crate::constants::{INC_TOKEN_SCALE, RESPONSE_BLOCK_SIZE, REWARD_POOL_KEY, VIEWING_KEY_SIZE};
use crate::crypto::sha_256;
use crate::env::Env;
use crate::error::{StdError, StdErrorView};
use crate::model::{
    account, add_to_pool_fits, add_to_pool_outcome, authenticated_answer, change_admin_outcome,
    changed_settings, changes_settings, claim_end, claim_start, contents_at,
    create_viewing_key_outcome, execute_fits, execute_outcome, generate_viewing_key_outcome,
    handle_fits, handle_outcome, initial_calls, initial_config, initial_contents, is_authorized,
    lock_tokens_fits, lock_tokens_outcome, not_admin, payout_calls, pending_rewards_answer,
    query_answer, query_fits, receive_outcome, redeem_fits, redeem_outcome, reply_view,
    resume_contract_outcome, set_viewing_key_outcome, settings_answer, stop_contract_outcome,
    transfer_call, unsupported_token, update_inc_token_outcome, update_reward_token_outcome,
    BalanceQueryView, ClaimView, HandledView,
};
use crate::msg::{
    views, HandleAnswer, HandleMsg, HandleResponse, InitMsg, InitResponse, Payload, QueryAnswer,
    QueryAnswerView, QueryMsg, ResponseStatus,
};
use crate::padding::{pad_handle_result, pad_query_result, space_padded};
use crate::rewards::{
    check_lock, check_pending, check_unlock, check_update, lock, pending_fits, pending_rewards,
    units_to_redeem, unlock, update_fits, update_pool, updated_pool,
};
use crate::snip20::{
    register_receive_msg, set_viewing_key_msg, text_view, transfer_msg, Execute, ExecuteView,
};
use crate::state::{Config, ConfigView, RewardPool, Snip20, UserInfo};
use crate::storage::{
    lemma_pool_as_user, lemma_record_keys, load_config, load_pool, load_user, load_viewing_key,
    read_config, read_pool, read_user, store_bare_pool, store_config, store_pool, store_user,
    store_viewing_key, stored,
};
use crate::text::{fill_in, to_decimal};
use crate::viewing_key::{slices_match, ViewingKey};

verus! {

/// Sets the contract up, and makes it known to its two tokens.
pub fn init(storage: &mut MemoryStorage, env: Env, msg: InitMsg) -> (response: Result<
    InitResponse,
    StdError,
>)
    ensures
        response is Ok,
        views(response->Ok_0.messages@) == initial_calls(env, msg),
        stored(*final(storage)) == initial_contents(stored(*old(storage)), env, msg),
        read_config(stored(*final(storage))) == Ok::<_, StdErrorView>(initial_config(env, msg)),
{
    let prng_seed_hashed = sha_256(msg.prng_seed.as_slice());
    let mut prng_seed: Vec<u8> = Vec::new();
    prng_seed.extend_from_slice(prng_seed_hashed.as_slice());
    assert(prng_seed@ =~= prng_seed_hashed@);
    let config = Config {
        admin: env.message.sender.clone(),
        reward_token: msg.reward_token.clone(),
        inc_token: msg.inc_token.clone(),
        pool_claim_height: msg.pool_claim_block,
        end_by_height: msg.end_by_height,
        viewing_key: msg.viewing_key.clone(),
        prng_seed,
        is_stopped: false,
    };
    store_config(storage, &config);
    store_bare_pool(storage, 0);
    proof {
        lemma_record_keys();
    }

    // Register for both tokens, and set a viewing key at both.
    let mut messages: Vec<Execute> = Vec::new();
    messages.push(
        register_receive_msg(
            env.contract_code_hash.clone(),
            None,
            1,
            msg.reward_token.contract_hash.clone(),
            msg.reward_token.address.clone(),
        ).unwrap(),
    );
    messages.push(
        register_receive_msg(
            env.contract_code_hash,
            None,
            1,
            msg.inc_token.contract_hash.clone(),
            msg.inc_token.address.clone(),
        ).unwrap(),
    );
    messages.push(
        set_viewing_key_msg(
            msg.viewing_key.clone(),
            None,
            RESPONSE_BLOCK_SIZE,
            msg.reward_token.contract_hash,
            msg.reward_token.address,
        ).unwrap(),
    );
    messages.push(
        set_viewing_key_msg(
            msg.viewing_key,
            None,
            RESPONSE_BLOCK_SIZE,
            msg.inc_token.contract_hash,
            msg.inc_token.address,
        ).unwrap(),
    );
    assert(views(messages@) =~= initial_calls(env, msg));
    Ok(InitResponse { messages })
}

// ---------------------------------------------------------------------------------------------
// Locking and redeeming
// ---------------------------------------------------------------------------------------------

/// Brings the stored pool up to date.
pub fn update_rewards(storage: &mut MemoryStorage, env: &Env, config: &Config) -> (updated: Result<
    RewardPool,
    StdError,
>)
    requires
        read_pool(stored(*old(storage))) matches Ok(pool) ==> update_fits(
            pool,
            config.end_by_height,
            env.block.height,
        ),
    ensures
        match read_pool(stored(*old(storage))) {
            Ok(pool) => {
                &&& updated == Ok::<_, StdError>(
                    updated_pool(pool, config.end_by_height, env.block.height),
                )
                &&& stored(*final(storage)) == contents_at(
                    stored(*old(storage)),
                    pool,
                    config@,
                    env.block.height,
                )
            },
            Err(error) => {
                &&& updated matches Err(e) && e@ == error
                &&& stored(*final(storage)) == stored(*old(storage))
            },
        },
{
    let pool = match load_pool(storage) {
        Ok(pool) => pool,
        Err(error) => {
            return Err(error);
        },
    };
    let updated = update_pool(pool, config.end_by_height, env.block.height);
    if pool.last_reward_block < env.block.height && env.block.height <= config.end_by_height {
        store_pool(storage, &updated);
    }
    Ok(updated)
}

/// Refuses tokens that came from another contract than expected.
fn refuse_token(env: &Env, config: &Config) -> (error: StdError)
    ensures
        error@ == unsupported_token(*env, config@),
{
    StdError::GenericErr {
        msg: fill_in(
            "This token is not supported. Supported: ",
            env.message.sender.as_str(),
            ", given: ",
            config.inc_token.address.as_str(),
        ),
    }
}

/// A call that transfers tokens.
fn transfer(token: &Snip20, recipient: &String, amount: u128) -> (message: Execute)
    ensures
        message@ == transfer_call(token@, recipient@, amount),
{
    transfer_msg(
        recipient.clone(),
        amount,
        None,
        None,
        RESPONSE_BLOCK_SIZE,
        token.contract_hash.clone(),
        token.address.clone(),
    ).unwrap()
}

/// The calls that pay rewards out: none where there is nothing to pay.
fn pay_out(config: &Config, recipient: &String, payout: u128) -> (messages: Vec<Execute>)
    ensures
        views(messages@) == payout_calls(config@, recipient@, payout),
{
    let mut messages: Vec<Execute> = Vec::new();
    if payout > 0 {
        messages.push(transfer(&config.reward_token, recipient, payout));
    }
    assert(views(messages@) =~= payout_calls(config@, recipient@, payout));
    messages
}

/// Locks tokens that the incentivized token's contract received for this contract.
pub fn lock_tokens(
    storage: &mut MemoryStorage,
    config: &Config,
    env: &Env,
    from: &String,
    amount: u128,
) -> (reply: Result<HandleResponse, StdError>)
    requires
        lock_tokens_fits(stored(*old(storage)), config@, *env, from@, amount),
    ensures
        (stored(*final(storage)), reply_view(reply)) == lock_tokens_outcome(
            stored(*old(storage)),
            config@,
            *env,
            from@,
            amount,
        ),
{
    // The tokens have to come from the incentivized token's contract
    if env.message.sender != config.inc_token.address {
        return Err(refuse_token(env, config));
    }
    // Whole units keep the products below within their type
    let units: u128 = amount / INC_TOKEN_SCALE;
    let pool = match update_rewards(storage, env, config) {
        Ok(pool) => pool,
        Err(error) => {
            return Err(error);
        },
    };
    let user = load_user(storage, from);
    let settlement = lock(&user, &pool, units);
    let messages = pay_out(config, from, settlement.payout);
    store_user(storage, from, &settlement.user);
    store_pool(storage, &settlement.pool);
    Ok(
        HandleResponse {
            messages,
            data: Some(HandleAnswer::LockTokens { status: ResponseStatus::Success }),
        },
    )
}

/// Adds tokens that the reward token's contract received for this contract to the pool.
pub fn add_to_pool(
    storage: &mut MemoryStorage,
    config: &Config,
    env: &Env,
    amount: u128,
) -> (reply: Result<HandleResponse, StdError>)
    requires
        add_to_pool_fits(stored(*old(storage)), config@, *env, amount),
    ensures
        (stored(*final(storage)), reply_view(reply)) == add_to_pool_outcome(
            stored(*old(storage)),
            config@,
            *env,
            amount,
        ),
{
    if env.message.sender != config.reward_token.address {
        return Err(refuse_token(env, config));
    }
    let mut pool = match update_rewards(storage, env, config) {
        Ok(pool) => pool,
        Err(error) => {
            return Err(error);
        },
    };
    pool.pending_rewards = pool.pending_rewards + amount;
    store_pool(storage, &pool);
    let messages: Vec<Execute> = Vec::new();
    assert(views(messages@) =~= seq![]);
    assert(stored(*storage) =~= add_to_pool_outcome(
        stored(*old(storage)),
        config@,
        *env,
        amount,
    ).0);
    Ok(
        HandleResponse {
            messages,
            data: Some(HandleAnswer::AddToRewardPool { status: ResponseStatus::Success }),
        },
    )
}

/// Gives the sender locked tokens back, and pays the pending rewards out.
pub fn redeem(
    storage: &mut MemoryStorage,
    config: &Config,
    env: &Env,
    amount: Option<u128>,
) -> (reply: Result<HandleResponse, StdError>)
    requires
        redeem_fits(stored(*old(storage)), config@, *env, amount),
    ensures
        (stored(*final(storage)), reply_view(reply)) == redeem_outcome(
            stored(*old(storage)),
            config@,
            *env,
            amount,
        ),
{
    let user = load_user(storage, &env.message.sender);
    let units: u128 = units_to_redeem(&user, amount);
    if units > user.locked {
        return Err(
            StdError::GenericErr {
                msg: fill_in(
                    "insufficient funds to redeem: balance=",
                    to_decimal(user.locked).as_str(),
                    ", required=",
                    to_decimal(units).as_str(),
                ),
            },
        );
    }
    let pool = match update_rewards(storage, env, config) {
        Ok(pool) => pool,
        Err(error) => {
            return Err(error);
        },
    };
    let settlement = unlock(&user, &pool, units);
    // Transfer rewards
    let mut messages = pay_out(config, &env.message.sender, settlement.payout);
    let ghost payouts = messages@;
    store_user(storage, &env.message.sender, &settlement.user);
    store_pool(storage, &settlement.pool);
    // Transfer redeemed tokens
    assert(units * INC_TOKEN_SCALE <= user.locked * INC_TOKEN_SCALE) by (nonlinear_arith)
        requires
            units <= user.locked,
    ;
    messages.push(transfer(&config.inc_token, &env.message.sender, units * INC_TOKEN_SCALE));
    assert(views(messages@) =~= views(payouts).push(messages@.last()@));
    Ok(HandleResponse { messages, data: None })
}

// ---------------------------------------------------------------------------------------------
// Viewing keys
// ---------------------------------------------------------------------------------------------

/// A response that only answers.
fn answer(data: HandleAnswer) -> (response: HandleResponse)
    ensures
        response@.messages == Seq::<ExecuteView>::empty(),
        response@.data == Some(data@),
{
    let messages: Vec<Execute> = Vec::new();
    assert(views(messages@) =~= Seq::<ExecuteView>::empty());
    HandleResponse { messages, data: Some(data) }
}

/// Generates the sender's viewing key under the given settings.
pub fn generate_viewing_key(
    storage: &mut MemoryStorage,
    config: &Config,
    env: &Env,
    entropy: &String,
) -> (reply: Result<HandleResponse, StdError>)
    ensures
        (stored(*final(storage)), reply_view(reply)) == generate_viewing_key_outcome(
            stored(*old(storage)),
            config@,
            *env,
            encode_utf8(entropy@),
        ),
{
    let key = ViewingKey::new(env, config.prng_seed.as_slice(), entropy.as_str().as_bytes());
    store_viewing_key(storage, &env.message.sender, key.to_hashed().as_slice());
    Ok(answer(HandleAnswer::CreateViewingKey { key }))
}

/// Generates the sender's viewing key.
pub fn create_viewing_key(storage: &mut MemoryStorage, env: Env, entropy: String) -> (reply: Result<
    HandleResponse,
    StdError,
>)
    ensures
        (stored(*final(storage)), reply_view(reply)) == create_viewing_key_outcome(
            stored(*old(storage)),
            env,
            encode_utf8(entropy@),
        ),
{
    match load_config(storage) {
        Ok(config) => generate_viewing_key(storage, &config, &env, &entropy),
        Err(error) => Err(error),
    }
}

/// Sets the sender's viewing key.
pub fn set_viewing_key(storage: &mut MemoryStorage, env: Env, key: String) -> (reply: Result<
    HandleResponse,
    StdError,
>)
    ensures
        (stored(*final(storage)), reply_view(reply)) == set_viewing_key_outcome(
            stored(*old(storage)),
            env,
            key@,
        ),
{
    let vk = ViewingKey(key);
    store_viewing_key(storage, &env.message.sender, vk.to_hashed().as_slice());
    Ok(answer(HandleAnswer::SetViewingKey { status: ResponseStatus::Success }))
}

// ---------------------------------------------------------------------------------------------
// The admin's messages
// ---------------------------------------------------------------------------------------------

/// Refuses everybody but the admin.
pub fn enforce_admin(config: &Config, env: &Env) -> (allowed: Result<(), StdError>)
    ensures
        match allowed {
            Ok(_) => config.admin@ == env.message.sender@,
            Err(error) => config.admin@ != env.message.sender@ && error@ == not_admin(*env),
        },
{
    if config.admin != env.message.sender {
        let mut msg = "no assets locked for: ".to_owned();
        msg.append(env.message.sender.as_str());
        return Err(StdError::GenericErr { msg });
    }
    Ok(())
}

/// Changes the token that is locked.
pub fn update_inc_token(
    storage: &mut MemoryStorage,
    config: Config,
    env: &Env,
    new_token: Snip20,
) -> (reply: Result<HandleResponse, StdError>)
    ensures
        (stored(*final(storage)), reply_view(reply)) == update_inc_token_outcome(
            stored(*old(storage)),
            config@,
            *env,
            new_token@,
        ),
        reply is Ok ==> read_config(stored(*final(storage))) == Ok::<_, StdErrorView>(
            ConfigView { inc_token: new_token@, ..config@ },
        ),
{
    let mut config = config;
    match enforce_admin(&config, env) {
        Ok(_) => {},
        Err(error) => {
            return Err(error);
        },
    }
    config.inc_token = new_token;
    store_config(storage, &config);
    Ok(answer(HandleAnswer::UpdateIncentivizedToken { status: ResponseStatus::Success }))
}

/// Changes the token that rewards are paid in.
pub fn update_reward_token(
    storage: &mut MemoryStorage,
    config: Config,
    env: &Env,
    new_token: Snip20,
) -> (reply: Result<HandleResponse, StdError>)
    ensures
        (stored(*final(storage)), reply_view(reply)) == update_reward_token_outcome(
            stored(*old(storage)),
            config@,
            *env,
            new_token@,
        ),
        reply is Ok ==> read_config(stored(*final(storage))) == Ok::<_, StdErrorView>(
            ConfigView { reward_token: new_token@, ..config@ },
        ),
{
    let mut config = config;
    match enforce_admin(&config, env) {
        Ok(_) => {},
        Err(error) => {
            return Err(error);
        },
    }
    config.reward_token = new_token;
    store_config(storage, &config);
    Ok(answer(HandleAnswer::UpdateRewardToken { status: ResponseStatus::Success }))
}

/// Stops the contract.
pub fn stop_contract(storage: &mut MemoryStorage, config: Config, env: &Env) -> (reply: Result<
    HandleResponse,
    StdError,
>)
    ensures
        (stored(*final(storage)), reply_view(reply)) == stop_contract_outcome(
            stored(*old(storage)),
            config@,
            *env,
        ),
        reply is Ok ==> read_config(stored(*final(storage))) == Ok::<_, StdErrorView>(
            ConfigView { is_stopped: true, ..config@ },
        ),
{
    let mut config = config;
    match enforce_admin(&config, env) {
        Ok(_) => {},
        Err(error) => {
            return Err(error);
        },
    }
    config.is_stopped = true;
    store_config(storage, &config);
    Ok(answer(HandleAnswer::StopContract { status: ResponseStatus::Success }))
}

/// Resumes the contract.
pub fn resume_contract(storage: &mut MemoryStorage, config: Config, env: &Env) -> (reply: Result<
    HandleResponse,
    StdError,
>)
    ensures
        (stored(*final(storage)), reply_view(reply)) == resume_contract_outcome(
            stored(*old(storage)),
            config@,
            *env,
        ),
        reply is Ok ==> read_config(stored(*final(storage))) == Ok::<_, StdErrorView>(
            ConfigView { is_stopped: false, ..config@ },
        ),
{
    let mut config = config;
    match enforce_admin(&config, env) {
        Ok(_) => {},
        Err(error) => {
            return Err(error);
        },
    }
    config.is_stopped = false;
    store_config(storage, &config);
    Ok(answer(HandleAnswer::ResumeContract { status: ResponseStatus::Success }))
}

/// Hands the contract over.
pub fn change_admin(
    storage: &mut MemoryStorage,
    config: Config,
    env: &Env,
    address: String,
) -> (reply: Result<HandleResponse, StdError>)
    ensures
        (stored(*final(storage)), reply_view(reply)) == change_admin_outcome(
            stored(*old(storage)),
            config@,
            *env,
            address@,
        ),
        reply is Ok ==> read_config(stored(*final(storage))) == Ok::<_, StdErrorView>(
            ConfigView { admin: address@, ..config@ },
        ),
{
    let mut config = config;
    match enforce_admin(&config, env) {
        Ok(_) => {},
        Err(error) => {
            return Err(error);
        },
    }
    config.admin = address;
    store_config(storage, &config);
    Ok(answer(HandleAnswer::ChangeAdmin { status: ResponseStatus::Success }))
}

/// A question to a token contract: how much `address` has. It goes to `contract_addr`.
#[derive(Debug)]
pub struct BalanceQuery {
    pub address: String,
    pub key: String,
    pub block_size: usize,
    pub callback_code_hash: String,
    pub contract_addr: String,
}

impl View for BalanceQuery {
    type V = BalanceQueryView;

    open spec fn view(&self) -> BalanceQueryView {
        BalanceQueryView {
            address: self.address@,
            key: self.key@,
            block_size: self.block_size,
            callback_code_hash: self.callback_code_hash@,
            contract_addr: self.contract_addr@,
        }
    }
}

/// A claim of the reward balance that waits for the answer to its question.
#[derive(Debug)]
pub struct Claim {
    pub query: BalanceQuery,
    pub recipient: String,
    pub token: Snip20,
}

impl View for Claim {
    type V = ClaimView;

    open spec fn view(&self) -> ClaimView {
        ClaimView { query: self.query@, recipient: self.recipient@, token: self.token@ }
    }
}

/// Starts a claim of the contract's whole reward balance.
pub fn claim_reward_pool(config: Config, env: Env, recipient: Option<String>) -> (claim: Result<
    Claim,
    StdError,
>)
    ensures
        match claim {
            Ok(claim) => claim_start(config@, env, text_view(recipient)) == Ok::<_, StdErrorView>(
                claim@,
            ),
            Err(error) => claim_start(config@, env, text_view(recipient)) == Err::<ClaimView, _>(
                error@,
            ),
        },
{
    match enforce_admin(&config, &env) {
        Ok(_) => {},
        Err(error) => {
            return Err(error);
        },
    }
    if env.block.height < config.pool_claim_height {
        let mut msg = "minimum claim height hasn't passed yet: ".to_owned();
        msg.append(to_decimal(config.pool_claim_height as u128).as_str());
        return Err(StdError::GenericErr { msg });
    }
    let query = BalanceQuery {
        address: env.contract.address,
        key: config.viewing_key,
        block_size: RESPONSE_BLOCK_SIZE,
        callback_code_hash: env.contract_code_hash,
        contract_addr: config.reward_token.address.clone(),
    };
    let recipient = match recipient {
        Some(recipient) => recipient,
        None => env.message.sender,
    };
    Ok(Claim { query, recipient, token: config.reward_token })
}

/// Ends a claim once the balance is known, or could not be learned: the error is then handed on as
/// it came.
pub fn finish_claim(claim: Claim, balance: Result<u128, StdError>) -> (reply: Result<
    HandleResponse,
    StdError,
>)
    ensures
        reply_view(reply) == claim_end(
            claim@,
            match balance {
                Ok(amount) => Ok(amount),
                Err(error) => Err(error@),
            },
        ),
        balance matches Err(error) ==> reply == Err::<HandleResponse, StdError>(error),
{
    match balance {
        Ok(amount) => {
            let mut messages: Vec<Execute> = Vec::new();
            messages.push(transfer(&claim.token, &claim.recipient, amount));
            assert(views(messages@) =~= seq![
                transfer_call(claim.token@, claim.recipient@, amount),
            ]);
            Ok(HandleResponse { messages, data: None })
        },
        Err(error) => Err(error),
    }
}

// ---------------------------------------------------------------------------------------------
// All messages
// ---------------------------------------------------------------------------------------------

/// What comes of a message.
#[derive(Debug)]
pub enum Handled {
    /// An answer, whose data is to be padded to whole blocks of the given size, if one is given.
    Reply { reply: Result<HandleResponse, StdError>, block_size: Option<usize> },
    /// A claim, to be finished once its question is answered.
    Claim(Claim),
}

impl View for Handled {
    type V = HandledView;

    open spec fn view(&self) -> HandledView {
        match *self {
            Handled::Reply { reply, block_size } => HandledView::Reply {
                reply: reply_view(reply),
                block_size,
            },
            Handled::Claim(claim) => HandledView::Claim(claim@),
        }
    }
}

/// Whose records a message is about.
pub fn account_of<'a>(env: &'a Env, msg: &'a HandleMsg) -> (address: &'a String)
    ensures
        address@ == account(*env, *msg),
{
    match msg {
        HandleMsg::Receive { from, .. } => from,
        _ => &env.message.sender,
    }
}

/// Handles a message that a token contract hands on.
pub fn receive(
    storage: &mut MemoryStorage,
    config: &Config,
    env: &Env,
    from: &String,
    amount: u128,
    payload: Payload,
) -> (reply: Result<HandleResponse, StdError>)
    requires
        payload matches Payload::Message(msg) ==> {
            &&& *msg is LockTokens ==> lock_tokens_fits(
                stored(*old(storage)),
                config@,
                *env,
                from@,
                amount,
            )
            &&& *msg is AddToRewardPool ==> add_to_pool_fits(
                stored(*old(storage)),
                config@,
                *env,
                amount,
            )
        },
    ensures
        (stored(*final(storage)), reply_view(reply)) == receive_outcome(
            stored(*old(storage)),
            config@,
            *env,
            from@,
            amount,
            payload,
        ),
{
    let msg = match payload {
        Payload::Message(msg) => msg,
        Payload::Malformed(msg) => {
            return Err(StdError::ParseErr { msg });
        },
    };
    match *msg {
        HandleMsg::Receive { .. } => Err(
            StdError::generic_err("Recursive call to receive() is not allowed"),
        ),
        HandleMsg::LockTokens => lock_tokens(storage, config, env, from, amount),
        HandleMsg::AddToRewardPool => add_to_pool(storage, config, env, amount),
        _ => Err(StdError::generic_err("Illegal internal receive message")),
    }
}

/// Handles a message under the given settings, which are those in the store.
pub fn execute(storage: &mut MemoryStorage, config: Config, env: Env, msg: HandleMsg) -> (handled:
    Handled)
    requires
        execute_fits(stored(*old(storage)), config@, env, msg),
    ensures
        (stored(*final(storage)), handled@) == execute_outcome(
            stored(*old(storage)),
            config@,
            env,
            msg,
        ),
        changes_settings(config@, env, msg) ==> read_config(stored(*final(storage))) == Ok::<
            _,
            StdErrorView,
        >(changed_settings(config@, msg)),
{
    if config.is_stopped {
        let reply = match msg {
            HandleMsg::Redeem { amount } => redeem(storage, &config, &env, amount),
            HandleMsg::ResumeContract => resume_contract(storage, config, &env),
            _ => Err(
                StdError::generic_err("This contract is stopped and this action is not allowed"),
            ),
        };
        return Handled::Reply { reply, block_size: None };
    }
    let reply = match msg {
        HandleMsg::Redeem { amount } => redeem(storage, &config, &env, amount),
        HandleMsg::Receive { from, amount, msg, .. } => receive(
            storage,
            &config,
            &env,
            &from,
            amount,
            msg,
        ),
        HandleMsg::CreateViewingKey { entropy, .. } => generate_viewing_key(
            storage,
            &config,
            &env,
            &entropy,
        ),
        HandleMsg::SetViewingKey { key, .. } => set_viewing_key(storage, env, key),
        HandleMsg::UpdateIncentivizedToken { new_token } => update_inc_token(
            storage,
            config,
            &env,
            new_token,
        ),
        HandleMsg::UpdateRewardToken { new_token } => update_reward_token(
            storage,
            config,
            &env,
            new_token,
        ),
        HandleMsg::ClaimRewardPool { recipient } => match claim_reward_pool(
            config,
            env,
            recipient,
        ) {
            Ok(claim) => {
                return Handled::Claim(claim);
            },
            Err(error) => Err(error),
        },
        HandleMsg::StopContract => stop_contract(storage, config, &env),
        HandleMsg::ChangeAdmin { address } => change_admin(storage, config, &env, address),
        _ => Err(StdError::generic_err("Unavailable or unknown action")),
    };
    Handled::Reply { reply, block_size: Some(RESPONSE_BLOCK_SIZE) }
}

/// Handles a message.
pub fn handle(storage: &mut MemoryStorage, env: Env, msg: HandleMsg) -> (handled: Handled)
    requires
        handle_fits(stored(*old(storage)), env, msg),
    ensures
        (stored(*final(storage)), handled@) == handle_outcome(stored(*old(storage)), env, msg),
        read_config(stored(*old(storage))) matches Ok(config) ==> (changes_settings(
            config,
            env,
            msg,
        ) ==> read_config(stored(*final(storage))) == Ok::<_, StdErrorView>(
            changed_settings(config, msg),
        )),
{
    match load_config(storage) {
        Ok(config) => execute(storage, config, env, msg),
        Err(error) => Handled::Reply { reply: Err(error), block_size: None },
    }
}

/// A user's record once the stored pool is brought up to date. The record changes with the pool
/// only where it is kept in the same place.
fn user_at(
    storage: &MemoryStorage,
    from: &String,
    pool: &RewardPool,
    config: &Config,
    env: &Env,
) -> (user: UserInfo)
    requires
        update_fits(*pool, config.end_by_height, env.block.height),
    ensures
        user == read_user(
            contents_at(stored(*storage), *pool, config@, env.block.height),
            from@,
        ),
{
    if pool.last_reward_block < env.block.height && env.block.height <= config.end_by_height
        && slices_match(from.as_str().as_bytes(), REWARD_POOL_KEY.as_bytes()) {
        let updated = update_pool(*pool, config.end_by_height, env.block.height);
        proof {
            lemma_pool_as_user(updated);
        }
        UserInfo { locked: updated.pending_rewards, debt: updated.inc_token_supply }
    } else {
        load_user(storage, from)
    }
}

/// Tests whether the numbers stay within their type when a user locks tokens.
pub fn check_lock_tokens(
    storage: &MemoryStorage,
    config: &Config,
    env: &Env,
    from: &String,
    amount: u128,
) -> (fits: bool)
    ensures
        fits == lock_tokens_fits(stored(*storage), config@, *env, from@, amount),
{
    if env.message.sender != config.inc_token.address {
        return true;
    }
    match load_pool(storage) {
        Ok(pool) => {
            if !check_update(&pool, config.end_by_height, env.block.height) {
                return false;
            }
            let user = user_at(storage, from, &pool, config, env);
            let updated = update_pool(pool, config.end_by_height, env.block.height);
            check_lock(&user, &updated, amount / INC_TOKEN_SCALE)
        },
        Err(_) => true,
    }
}

/// Tests whether the numbers stay within their type when rewards are added to the pool.
pub fn check_add_to_pool(
    storage: &MemoryStorage,
    config: &Config,
    env: &Env,
    amount: u128,
) -> (fits: bool)
    ensures
        fits == add_to_pool_fits(stored(*storage), config@, *env, amount),
{
    if env.message.sender != config.reward_token.address {
        return true;
    }
    match load_pool(storage) {
        Ok(pool) => check_update(&pool, config.end_by_height, env.block.height)
            && pool.pending_rewards.checked_add(amount).is_some(),
        Err(_) => true,
    }
}

/// Tests whether the numbers stay within their type when the sender redeems tokens.
pub fn check_redeem(
    storage: &MemoryStorage,
    config: &Config,
    env: &Env,
    amount: Option<u128>,
) -> (fits: bool)
    ensures
        fits == redeem_fits(stored(*storage), config@, *env, amount),
{
    let user = load_user(storage, &env.message.sender);
    if user.locked.checked_mul(INC_TOKEN_SCALE).is_none() {
        return false;
    }
    let units: u128 = units_to_redeem(&user, amount);
    if units > user.locked {
        return true;
    }
    match load_pool(storage) {
        Ok(pool) => {
            if !check_update(&pool, config.end_by_height, env.block.height) {
                return false;
            }
            let updated = update_pool(pool, config.end_by_height, env.block.height);
            check_unlock(&user, &updated, units)
        },
        Err(_) => true,
    }
}

/// Tests whether the numbers stay within their type when a message is handled under the given
/// settings.
pub fn check_execute(
    storage: &MemoryStorage,
    config: &Config,
    env: &Env,
    msg: &HandleMsg,
) -> (fits: bool)
    ensures
        fits == execute_fits(stored(*storage), config@, *env, *msg),
{
    match msg {
        HandleMsg::Redeem { amount } => check_redeem(storage, config, env, *amount),
        HandleMsg::Receive { from, amount, msg: Payload::Message(msg), .. } => {
            if config.is_stopped {
                return true;
            }
            match **msg {
                HandleMsg::LockTokens => check_lock_tokens(storage, config, env, from, *amount),
                HandleMsg::AddToRewardPool => check_add_to_pool(storage, config, env, *amount),
                _ => true,
            }
        },
        _ => true,
    }
}

/// Handles a message if its numbers stay within their type; otherwise changes nothing.
pub fn try_handle(storage: &mut MemoryStorage, env: Env, msg: HandleMsg) -> (handled: Option<
    Handled,
>)
    ensures
        match handled {
            Some(handled) => {
                &&& handle_fits(stored(*old(storage)), env, msg)
                &&& (stored(*final(storage)), handled@) == handle_outcome(
                    stored(*old(storage)),
                    env,
                    msg,
                )
            },
            None => {
                &&& !handle_fits(stored(*old(storage)), env, msg)
                &&& stored(*final(storage)) == stored(*old(storage))
            },
        },
        read_config(stored(*old(storage))) matches Ok(config) ==> (handled is Some
            && changes_settings(config, env, msg) ==> read_config(stored(*final(storage))) == Ok::<
            _,
            StdErrorView,
        >(changed_settings(config, msg))),
{
    match load_config(storage) {
        Ok(config) => {
            if !check_execute(storage, &config, &env, &msg) {
                return None;
            }
        },
        Err(_) => {},
    }
    Some(handle(storage, env, msg))
}

/// Pads the data of an answer, which may be none, to whole blocks of the given size, if one is
/// given.
pub fn pad_answer(data: Option<Vec<u8>>, block_size: Option<usize>) -> (padded: Option<Vec<u8>>)
    requires
        block_size matches Some(size) ==> 0 < size <= RESPONSE_BLOCK_SIZE,
    ensures
        match (data, block_size) {
            (Some(bytes), Some(size)) => padded matches Some(p) && p@ == space_padded(
                bytes@,
                size as nat,
            ),
            _ => padded == data,
        },
{
    match block_size {
        Some(size) => pad_handle_result(data, size),
        None => data,
    }
}

// ---------------------------------------------------------------------------------------------
// Questions
// ---------------------------------------------------------------------------------------------

/// What the answer to a question says.
pub open spec fn answer_view(answer: Result<QueryAnswer, StdError>) -> Result<
    QueryAnswerView,
    StdErrorView,
> {
    match answer {
        Ok(answer) => Ok(answer@),
        Err(error) => Err(error@),
    }
}

/// Answers a question about the given settings.
pub fn answer_from_settings(config: Config, msg: &QueryMsg) -> (answer: QueryAnswer)
    ensures
        answer@ == settings_answer(config@, *msg),
{
    match msg {
        QueryMsg::QueryUnlockClaimHeight => QueryAnswer::QueryUnlockClaimHeight {
            height: config.pool_claim_height as u128,
        },
        QueryMsg::QueryContractStatus => QueryAnswer::QueryContractStatus {
            is_stopped: config.is_stopped,
        },
        QueryMsg::QueryRewardToken => QueryAnswer::QueryRewardToken { token: config.reward_token },
        QueryMsg::QueryIncentivizedToken => QueryAnswer::QueryIncentivizedToken {
            token: config.inc_token,
        },
        _ => QueryAnswer::QueryEndHeight { height: config.end_by_height },
    }
}

/// Answers from which height on the pool can be claimed.
pub fn query_claim_unlock_height(storage: &MemoryStorage) -> (answer: Result<QueryAnswer, StdError>)
    ensures
        answer_view(answer) == query_answer(stored(*storage), QueryMsg::QueryUnlockClaimHeight),
{
    match load_config(storage) {
        Ok(config) => Ok(answer_from_settings(config, &QueryMsg::QueryUnlockClaimHeight)),
        Err(error) => Err(error),
    }
}

/// Answers whether the contract is stopped.
pub fn query_contract_status(storage: &MemoryStorage) -> (answer: Result<QueryAnswer, StdError>)
    ensures
        answer_view(answer) == query_answer(stored(*storage), QueryMsg::QueryContractStatus),
{
    match load_config(storage) {
        Ok(config) => Ok(answer_from_settings(config, &QueryMsg::QueryContractStatus)),
        Err(error) => Err(error),
    }
}

/// Answers which token rewards are paid in.
pub fn query_reward_token(storage: &MemoryStorage) -> (answer: Result<QueryAnswer, StdError>)
    ensures
        answer_view(answer) == query_answer(stored(*storage), QueryMsg::QueryRewardToken),
{
    match load_config(storage) {
        Ok(config) => Ok(answer_from_settings(config, &QueryMsg::QueryRewardToken)),
        Err(error) => Err(error),
    }
}

/// Answers which token is locked.
pub fn query_incentivized_token(storage: &MemoryStorage) -> (answer: Result<QueryAnswer, StdError>)
    ensures
        answer_view(answer) == query_answer(stored(*storage), QueryMsg::QueryIncentivizedToken),
{
    match load_config(storage) {
        Ok(config) => Ok(answer_from_settings(config, &QueryMsg::QueryIncentivizedToken)),
        Err(error) => Err(error),
    }
}

/// Answers until which height rewards vest.
pub fn query_end_height(storage: &MemoryStorage) -> (answer: Result<QueryAnswer, StdError>)
    ensures
        answer_view(answer) == query_answer(stored(*storage), QueryMsg::QueryEndHeight),
{
    match load_config(storage) {
        Ok(config) => Ok(answer_from_settings(config, &QueryMsg::QueryEndHeight)),
        Err(error) => Err(error),
    }
}

/// Answers at which height rewards were last updated.
pub fn query_last_reward_block(storage: &MemoryStorage) -> (answer: Result<QueryAnswer, StdError>)
    ensures
        answer_view(answer) == query_answer(stored(*storage), QueryMsg::QueryLastRewardBlock),
{
    match load_pool(storage) {
        Ok(pool) => Ok(QueryAnswer::QueryEndHeight { height: pool.last_reward_block }),
        Err(error) => Err(error),
    }
}

/// Answers which rewards were pending for a user when the pool was last updated. The height is not
/// known here, so what vested since then is left out.
pub fn query_pending_rewards(storage: &MemoryStorage, address: &String) -> (answer: Result<
    QueryAnswer,
    StdError,
>)
    requires
        read_pool(stored(*storage)) matches Ok(pool) ==> pending_fits(
            read_user(stored(*storage), address@),
            pool,
        ),
    ensures
        answer_view(answer) == pending_rewards_answer(stored(*storage), address@),
{
    let pool = match load_pool(storage) {
        Ok(pool) => pool,
        Err(error) => {
            return Err(error);
        },
    };
    let user = load_user(storage, address);
    Ok(QueryAnswer::QueryRewards { rewards: pending_rewards(&user, &pool) })
}

/// Answers how many units a user has locked.
pub fn query_deposit(storage: &MemoryStorage, address: &String) -> (answer: Result<
    QueryAnswer,
    StdError,
>)
    ensures
        answer_view(answer) == Ok::<_, StdErrorView>(
            QueryAnswerView::QueryDeposit { deposit: read_user(stored(*storage), address@).locked },
        ),
{
    Ok(QueryAnswer::QueryDeposit { deposit: load_user(storage, address).locked })
}

/// Tests whether a question comes with the viewing key of the user that it is about. The test
/// takes as long where no key is set.
pub fn authorize(storage: &MemoryStorage, msg: &QueryMsg) -> (authorized: bool)
    requires
        msg.is_authenticated(),
    ensures
        authorized == is_authorized(stored(*storage), *msg),
{
    let (address, key) = msg.get_validation_params();
    match load_viewing_key(storage, address) {
        Some(expected_key) => key.check_viewing_key(expected_key.as_slice()),
        None => {
            let unset: [u8; VIEWING_KEY_SIZE] = [0u8; VIEWING_KEY_SIZE];
            key.check_viewing_key(unset.as_slice());
            false
        },
    }
}

/// Answers a question about a user.
pub fn authenticated_queries(storage: &MemoryStorage, msg: QueryMsg) -> (answer: Result<
    QueryAnswer,
    StdError,
>)
    requires
        msg.is_authenticated(),
        query_fits(stored(*storage), msg),
    ensures
        answer_view(answer) == authenticated_answer(stored(*storage), msg),
{
    if authorize(storage, &msg) {
        return match &msg {
            QueryMsg::QueryRewards { address, .. } => query_pending_rewards(storage, address),
            QueryMsg::QueryDeposit { address, .. } => query_deposit(storage, address),
            _ => vstd::pervasive::unreached(),
        };
    }
    Ok(
        QueryAnswer::QueryError {
            msg: "Wrong viewing key for this address or viewing key not set".to_owned(),
        },
    )
}

/// Answers a question.
pub fn query(storage: &MemoryStorage, msg: QueryMsg) -> (answer: Result<QueryAnswer, StdError>)
    requires
        query_fits(stored(*storage), msg),
    ensures
        answer_view(answer) == query_answer(stored(*storage), msg),
{
    match msg {
        QueryMsg::QueryUnlockClaimHeight => query_claim_unlock_height(storage),
        QueryMsg::QueryContractStatus => query_contract_status(storage),
        QueryMsg::QueryRewardToken => query_reward_token(storage),
        QueryMsg::QueryIncentivizedToken => query_incentivized_token(storage),
        QueryMsg::QueryEndHeight => query_end_height(storage),
        QueryMsg::QueryLastRewardBlock => query_last_reward_block(storage),
        _ => authenticated_queries(storage, msg),
    }
}

/// Answers a question if the numbers of the answer stay within their type.
pub fn try_query(storage: &MemoryStorage, msg: QueryMsg) -> (answer: Option<
    Result<QueryAnswer, StdError>,
>)
    ensures
        match answer {
            Some(answer) => {
                &&& query_fits(stored(*storage), msg)
                &&& answer_view(answer) == query_answer(stored(*storage), msg)
            },
            None => !query_fits(stored(*storage), msg),
        },
{
    match &msg {
        QueryMsg::QueryRewards { address, .. } => {
            if authorize(storage, &msg) {
                match load_pool(storage) {
                    Ok(pool) => {
                        if !check_pending(&load_user(storage, address), &pool) {
                            return None;
                        }
                    },
                    Err(_) => {},
                }
            }
        },
        _ => {},
    }
    Some(query(storage, msg))
}

/// Pads the data of an answer to a question to whole blocks.
pub fn pad_query_answer(data: Vec<u8>) -> (padded: Vec<u8>)
    ensures
        padded@ == space_padded(data@, RESPONSE_BLOCK_SIZE as nat),
{
    pad_query_result(data, RESPONSE_BLOCK_SIZE)
}

} // verus!
