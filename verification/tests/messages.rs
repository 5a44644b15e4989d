use lockup::contract::{
    account_of, finish_claim, init, pad_answer, pad_query_answer, try_handle, try_query, Handled,
};
use lockup::env::{BlockInfo, ContractInfo, Env, MessageInfo};
use lockup::error::{Record, StdError};
use lockup::msg::{
    HandleAnswer, HandleMsg, HandleResponse, InitMsg, Payload, QueryAnswer, QueryMsg,
    ResponseStatus,
};
use lockup::rewards::check_pending;
use lockup::state::{RewardPool, Snip20, UserInfo};
use lockup::storage::{
    load_config, load_pool, load_user, load_viewing_key, store_pool, store_user,
};
use lockup::viewing_key::ViewingKey;
use secret_cosmwasm_std::{Binary, CosmosMsg, HumanAddr, MemoryStorage, Uint128, WasmMsg};

const UNIT: u128 = 1_000_000_000;
const SCALE: u128 = 1_000_000_000_000;

fn env(sender: &str, height: u64) -> Env {
    Env {
        block: BlockInfo { height, time: 1_600_000_000 },
        message: MessageInfo { sender: sender.to_string() },
        contract: ContractInfo { address: "lockup".to_string() },
        contract_code_hash: "lockup hash".to_string(),
    }
}

fn token(name: &str) -> Snip20 {
    Snip20 { address: name.to_string(), contract_hash: format!("{} hash", name) }
}

/// A contract that runs until height 100, with an empty pool.
fn contract() -> MemoryStorage {
    let mut storage = MemoryStorage::new();
    let msg = InitMsg {
        reward_token: token("reward"),
        inc_token: token("inc"),
        pool_claim_block: 200,
        end_by_height: 100,
        viewing_key: "contract key".to_string(),
        prng_seed: b"abc".to_vec(),
    };
    init(&mut storage, env("admin", 0), msg).unwrap();
    let pool = RewardPool {
        pending_rewards: 0,
        inc_token_supply: 0,
        last_reward_block: 0,
        acc_reward_per_share: 0,
    };
    store_pool(&mut storage, &pool);
    storage
}

fn reply(handled: Option<Handled>) -> (Result<HandleResponse, StdError>, Option<usize>) {
    match handled {
        Some(Handled::Reply { reply, block_size }) => (reply, block_size),
        other => panic!("{:?}", other),
    }
}

fn accepted(storage: &mut MemoryStorage, sender: &str, height: u64, msg: HandleMsg) -> HandleResponse {
    let (reply, block_size) = reply(try_handle(storage, env(sender, height), msg));
    assert_eq!(block_size, Some(256));
    reply.unwrap()
}

fn refused(storage: &mut MemoryStorage, sender: &str, height: u64, msg: HandleMsg) -> String {
    match reply(try_handle(storage, env(sender, height), msg)).0 {
        Err(StdError::GenericErr { msg }) => msg,
        other => panic!("{:?}", other),
    }
}

fn handed_on(from: &str, amount: u128, msg: HandleMsg) -> HandleMsg {
    HandleMsg::Receive {
        sender: from.to_string(),
        from: from.to_string(),
        amount,
        msg: Payload::Message(Box::new(msg)),
    }
}

fn lock(from: &str, amount: u128) -> HandleMsg {
    handed_on(from, amount, HandleMsg::LockTokens)
}

fn add(amount: u128) -> HandleMsg {
    handed_on("anybody", amount, HandleMsg::AddToRewardPool)
}

fn redeem(amount: Option<u128>) -> HandleMsg {
    HandleMsg::Redeem { amount }
}

fn user(storage: &MemoryStorage, address: &str) -> UserInfo {
    load_user(storage, &address.to_string())
}

/// What the calls in a response transfer: token, recipient and amount of each.
fn transfers(response: &HandleResponse) -> Vec<(String, String)> {
    let mut found = Vec::new();
    for message in &response.messages {
        assert_eq!(message.msg.len() % 256, 0);
        assert_eq!(message.callback_code_hash, format!("{} hash", message.contract_addr));
        let text = String::from_utf8(message.msg.clone()).unwrap();
        found.push((message.contract_addr.clone(), text.trim_end().to_string()));
    }
    found
}

fn transfer(token: &str, recipient: &str, amount: u128) -> (String, String) {
    let start = format!(r#"{{"transfer":{{"recipient":"{}","amount":"{}","#, recipient, amount);
    (token.to_string(), format!(r#"{}"memo":null,"padding":null}}}}"#, start))
}

#[test]
fn rewards_go_to_those_who_locked() {
    let mut storage = contract();
    // Alice locks 3 units and some change at height 10, Bob 1 unit at the same height.
    let response = accepted(&mut storage, "inc", 10, lock("alice", 3 * UNIT + 5));
    assert!(response.messages.is_empty());
    assert!(matches!(
        response.data,
        Some(HandleAnswer::LockTokens { status: ResponseStatus::Success })
    ));
    accepted(&mut storage, "inc", 10, lock("bob", UNIT));
    assert_eq!(user(&storage, "alice"), UserInfo { locked: 3, debt: 0 });
    assert_eq!(user(&storage, "bob"), UserInfo { locked: 1, debt: 0 });
    assert_eq!(load_pool(&storage).unwrap().inc_token_supply, 4);

    // 900 rewards over the 90 blocks that remain.
    let response = accepted(&mut storage, "reward", 10, add(900));
    assert!(response.messages.is_empty());
    assert!(matches!(
        response.data,
        Some(HandleAnswer::AddToRewardPool { status: ResponseStatus::Success })
    ));
    assert_eq!(load_pool(&storage).unwrap().pending_rewards, 900);

    // 20 blocks later, 200 have vested: 150 for Alice, 50 for Bob.
    let response = accepted(&mut storage, "alice", 30, redeem(Some(2 * UNIT)));
    assert!(response.data.is_none());
    assert_eq!(
        transfers(&response),
        vec![transfer("reward", "alice", 150), transfer("inc", "alice", 2 * UNIT)]
    );
    assert_eq!(user(&storage, "alice"), UserInfo { locked: 1, debt: 50 });
    assert_eq!(
        load_pool(&storage).unwrap(),
        RewardPool {
            pending_rewards: 900,
            inc_token_supply: 2,
            last_reward_block: 30,
            acc_reward_per_share: 50 * SCALE,
        }
    );

    // Bob locks another unit at the same height, and is paid what is pending.
    let response = accepted(&mut storage, "inc", 30, lock("bob", UNIT));
    assert_eq!(transfers(&response), vec![transfer("reward", "bob", 50)]);
    assert_eq!(user(&storage, "bob"), UserInfo { locked: 2, debt: 100 });

    // Nothing is pending twice.
    let response = accepted(&mut storage, "bob", 30, redeem(None));
    assert_eq!(transfers(&response), vec![transfer("inc", "bob", 2 * UNIT)]);
    assert_eq!(user(&storage, "bob"), UserInfo { locked: 0, debt: 0 });
    assert_eq!(load_pool(&storage).unwrap().inc_token_supply, 1);
}

#[test]
fn the_payload_of_a_transfer_is_what_the_toolkit_makes() {
    let mut storage = contract();
    accepted(&mut storage, "inc", 1, lock("alice", 7 * UNIT));
    let response = accepted(&mut storage, "alice", 2, redeem(None));
    let expected = secret_toolkit::snip20::transfer_msg(
        HumanAddr("alice".to_string()),
        Uint128(7 * UNIT),
        None,
        None,
        256,
        "inc hash".to_string(),
        HumanAddr("inc".to_string()),
    )
    .unwrap();
    let call = &response.messages[0];
    let given = CosmosMsg::Wasm(WasmMsg::Execute {
        contract_addr: HumanAddr(call.contract_addr.clone()),
        callback_code_hash: call.callback_code_hash.clone(),
        msg: Binary(call.msg.clone()),
        send: vec![],
    });
    assert_eq!(given, expected);
}

#[test]
fn redeeming_undoes_locking_at_the_same_height() {
    let mut storage = contract();
    accepted(&mut storage, "inc", 10, lock("alice", 3 * UNIT));
    accepted(&mut storage, "reward", 10, add(900));
    accepted(&mut storage, "alice", 30, redeem(Some(0)));
    let before = load_pool(&storage).unwrap();
    accepted(&mut storage, "inc", 30, lock("alice", 2 * UNIT + 1));
    let response = accepted(&mut storage, "alice", 30, redeem(Some(2 * UNIT + 1)));
    assert_eq!(transfers(&response), vec![transfer("inc", "alice", 2 * UNIT)]);
    assert_eq!(user(&storage, "alice").locked, 3);
    assert_eq!(load_pool(&storage).unwrap(), before);
}

#[test]
fn the_supply_is_the_sum_of_the_deposits() {
    let mut storage = contract();
    let steps = [
        ("inc", 1, lock("alice", 3 * UNIT)),
        ("inc", 2, lock("bob", 5 * UNIT)),
        ("reward", 3, add(1000)),
        ("alice", 4, redeem(Some(UNIT))),
        ("inc", 50, lock("carol", 9 * UNIT)),
        ("bob", 60, redeem(None)),
        ("carol", 120, redeem(Some(4 * UNIT))),
        ("inc", 130, lock("alice", UNIT)),
    ];
    for (sender, height, msg) in steps {
        accepted(&mut storage, sender, height, msg);
        for address in ["alice", "bob", "carol"] {
            assert!(check_pending(&user(&storage, address), &load_pool(&storage).unwrap()));
        }
        let total = user(&storage, "alice").locked
            + user(&storage, "bob").locked
            + user(&storage, "carol").locked;
        assert_eq!(load_pool(&storage).unwrap().inc_token_supply, total);
    }
    assert_eq!(user(&storage, "alice").locked, 3);
    assert_eq!(user(&storage, "carol").locked, 5);
    // Nothing vests after the end.
    assert_eq!(load_pool(&storage).unwrap().last_reward_block, 60);
}

#[test]
fn nobody_redeems_more_than_they_locked() {
    let mut storage = contract();
    accepted(&mut storage, "inc", 10, lock("alice", 3 * UNIT));
    assert_eq!(
        refused(&mut storage, "alice", 11, redeem(Some(12 * UNIT))),
        "insufficient funds to redeem: balance=3, required=12"
    );
    assert_eq!(
        refused(&mut storage, "bob", 11, redeem(Some(UNIT))),
        "insufficient funds to redeem: balance=0, required=1"
    );
    assert_eq!(user(&storage, "alice").locked, 3);
    assert_eq!(load_pool(&storage).unwrap().last_reward_block, 10);
}

#[test]
fn other_tokens_are_refused() {
    let mut storage = contract();
    assert_eq!(
        refused(&mut storage, "reward", 10, lock("alice", UNIT)),
        "This token is not supported. Supported: reward, given: inc"
    );
    assert_eq!(
        refused(&mut storage, "inc", 10, add(100)),
        "This token is not supported. Supported: inc, given: inc"
    );
    assert_eq!(user(&storage, "alice").locked, 0);
    assert_eq!(load_pool(&storage).unwrap().pending_rewards, 0);
}

#[test]
fn only_locking_and_adding_can_be_handed_on() {
    let mut storage = contract();
    let nested = handed_on("alice", 1, lock("alice", 1));
    assert_eq!(
        refused(&mut storage, "inc", 10, nested),
        "Recursive call to receive() is not allowed"
    );
    let other = handed_on("alice", 1, HandleMsg::StopContract);
    assert_eq!(refused(&mut storage, "admin", 10, other), "Illegal internal receive message");
    let malformed = HandleMsg::Receive {
        sender: "alice".to_string(),
        from: "alice".to_string(),
        amount: 1,
        msg: Payload::Malformed("not a message".to_string()),
    };
    match reply(try_handle(&mut storage, env("inc", 10), malformed)) {
        (Err(StdError::ParseErr { msg }), Some(256)) => assert_eq!(msg, "not a message"),
        other => panic!("{:?}", other),
    }
    for msg in [HandleMsg::LockTokens, HandleMsg::AddToRewardPool, HandleMsg::ResumeContract] {
        assert_eq!(refused(&mut storage, "admin", 10, msg), "Unavailable or unknown action");
    }
}

#[test]
fn the_admin_changes_the_settings() {
    let mut storage = contract();
    let response = accepted(
        &mut storage,
        "admin",
        1,
        HandleMsg::UpdateIncentivizedToken { new_token: token("inc2") },
    );
    assert!(response.messages.is_empty());
    assert!(matches!(
        response.data,
        Some(HandleAnswer::UpdateIncentivizedToken { status: ResponseStatus::Success })
    ));
    let response = accepted(
        &mut storage,
        "admin",
        1,
        HandleMsg::UpdateRewardToken { new_token: token("reward2") },
    );
    assert!(matches!(
        response.data,
        Some(HandleAnswer::UpdateRewardToken { status: ResponseStatus::Success })
    ));
    let response = accepted(
        &mut storage,
        "admin",
        1,
        HandleMsg::ChangeAdmin { address: "alice".to_string() },
    );
    assert!(matches!(
        response.data,
        Some(HandleAnswer::ChangeAdmin { status: ResponseStatus::Success })
    ));
    let config = load_config(&storage).unwrap();
    assert_eq!(config.inc_token.address, "inc2");
    assert_eq!(config.reward_token.contract_hash, "reward2 hash");
    assert_eq!(config.admin, "alice");
    assert_eq!(config.end_by_height, 100);
    assert_eq!(config.viewing_key, "contract key");
    // The former admin is one no more.
    assert_eq!(
        refused(&mut storage, "admin", 1, HandleMsg::StopContract),
        "no assets locked for: admin"
    );
}

#[test]
fn anybody_else_is_refused_what_the_admin_may() {
    let mut storage = contract();
    let messages = [
        HandleMsg::UpdateIncentivizedToken { new_token: token("x") },
        HandleMsg::UpdateRewardToken { new_token: token("x") },
        HandleMsg::StopContract,
        HandleMsg::ChangeAdmin { address: "mallory".to_string() },
        HandleMsg::ClaimRewardPool { recipient: None },
    ];
    for msg in messages {
        assert_eq!(refused(&mut storage, "mallory", 300, msg), "no assets locked for: mallory");
    }
    let config = load_config(&storage).unwrap();
    assert_eq!(config.admin, "admin");
    assert_eq!(config.inc_token.address, "inc");
    assert_eq!(config.reward_token.address, "reward");
    assert!(!config.is_stopped);
}

#[test]
fn a_stopped_contract_only_redeems_and_resumes() {
    let mut storage = contract();
    accepted(&mut storage, "inc", 10, lock("alice", 3 * UNIT));
    let response = accepted(&mut storage, "admin", 11, HandleMsg::StopContract);
    assert!(matches!(
        response.data,
        Some(HandleAnswer::StopContract { status: ResponseStatus::Success })
    ));
    assert!(load_config(&storage).unwrap().is_stopped);
    let messages = [
        lock("alice", UNIT),
        HandleMsg::SetViewingKey { key: "k".to_string(), padding: None },
        HandleMsg::CreateViewingKey { entropy: "e".to_string(), padding: None },
        HandleMsg::ChangeAdmin { address: "alice".to_string() },
        HandleMsg::ClaimRewardPool { recipient: None },
        HandleMsg::StopContract,
        HandleMsg::LockTokens,
    ];
    for msg in messages {
        let (reply, block_size) = reply(try_handle(&mut storage, env("admin", 300), msg));
        assert_eq!(block_size, None);
        match reply {
            Err(StdError::GenericErr { msg }) => {
                assert_eq!(msg, "This contract is stopped and this action is not allowed")
            }
            other => panic!("{:?}", other),
        }
    }
    let (redeemed, block_size) =
        reply(try_handle(&mut storage, env("alice", 12), redeem(Some(UNIT))));
    assert_eq!(block_size, None);
    assert_eq!(transfers(&redeemed.unwrap()), vec![transfer("inc", "alice", UNIT)]);
    assert_eq!(
        refused(&mut storage, "mallory", 12, HandleMsg::ResumeContract),
        "no assets locked for: mallory"
    );
    let (resumed, _) = reply(try_handle(&mut storage, env("admin", 12), HandleMsg::ResumeContract));
    assert!(matches!(
        resumed.unwrap().data,
        Some(HandleAnswer::ResumeContract { status: ResponseStatus::Success })
    ));
    assert!(!load_config(&storage).unwrap().is_stopped);
    accepted(&mut storage, "inc", 13, lock("alice", UNIT));
    assert_eq!(user(&storage, "alice").locked, 3);
}

#[test]
fn the_pool_is_claimed_from_its_height_on() {
    let mut storage = contract();
    assert_eq!(
        refused(&mut storage, "admin", 199, HandleMsg::ClaimRewardPool { recipient: None }),
        "minimum claim height hasn't passed yet: 200"
    );
    for (recipient, expected) in [(None, "admin"), (Some("carol".to_string()), "carol")] {
        let msg = HandleMsg::ClaimRewardPool { recipient };
        let claim = match try_handle(&mut storage, env("admin", 200), msg) {
            Some(Handled::Claim(claim)) => claim,
            other => panic!("{:?}", other),
        };
        assert_eq!(claim.query.address, "lockup");
        assert_eq!(claim.query.key, "contract key");
        assert_eq!(claim.query.block_size, 256);
        assert_eq!(claim.query.callback_code_hash, "lockup hash");
        assert_eq!(claim.query.contract_addr, "reward");
        let response = finish_claim(claim, Ok(1234)).unwrap();
        assert!(response.data.is_none());
        assert_eq!(transfers(&response), vec![transfer("reward", expected, 1234)]);
    }
    let msg = HandleMsg::ClaimRewardPool { recipient: None };
    match try_handle(&mut storage, env("admin", 200), msg) {
        Some(Handled::Claim(claim)) => {
            assert!(matches!(
                finish_claim(claim, Err(StdError::Unauthorized)),
                Err(StdError::Unauthorized)
            ));
        }
        other => panic!("{:?}", other),
    }
}

#[test]
fn a_claim_hands_the_error_on_as_it_came() {
    let mut storage = contract();
    let msg = HandleMsg::ClaimRewardPool { recipient: None };
    match try_handle(&mut storage, env("admin", 200), msg) {
        Some(Handled::Claim(claim)) => {
            let error = StdError::Unreadable { kind: Record::Config, msg: "why".to_string() };
            match finish_claim(claim, Err(error)) {
                Err(StdError::Unreadable { kind: Record::Config, msg }) => assert_eq!(msg, "why"),
                other => panic!("{:?}", other),
            }
        }
        other => panic!("{:?}", other),
    }
}

#[test]
fn an_account_named_like_the_settings_keeps_its_deposit_until_they_change() {
    let mut storage = contract();
    accepted(&mut storage, "inc", 10, lock("alice", 2 * UNIT));
    // The length of the admin's name and its first letters, read as a deposit.
    let misread = user(&storage, "config").locked;
    accepted(&mut storage, "alice", 11, redeem(Some(UNIT)));
    let key = HandleMsg::SetViewingKey { key: "abc".to_string(), padding: None };
    accepted(&mut storage, "alice", 11, key);
    assert_eq!(user(&storage, "config").locked, misread);
    let change = HandleMsg::ChangeAdmin { address: "alice".to_string() };
    accepted(&mut storage, "admin", 11, change);
    assert_ne!(user(&storage, "config").locked, misread);
}

#[test]
fn numbers_that_do_not_fit_change_nothing() {
    let mut storage = contract();
    accepted(&mut storage, "inc", 10, lock("alice", UNIT));
    accepted(&mut storage, "reward", 10, add(u128::MAX));
    let pool = load_pool(&storage).unwrap();
    // More rewards than can be counted.
    assert!(try_handle(&mut storage, env("reward", 10), add(1)).is_none());
    // More rewards per unit than can be counted.
    assert!(try_handle(&mut storage, env("alice", 20), redeem(None)).is_none());
    assert!(try_handle(&mut storage, env("inc", 20), lock("alice", UNIT)).is_none());
    assert_eq!(load_pool(&storage).unwrap(), pool);
    assert_eq!(user(&storage, "alice").locked, 1);
    // A deposit that cannot be written as an amount.
    store_user(&mut storage, &"bob".to_string(), &UserInfo { locked: u128::MAX, debt: 0 });
    assert!(try_handle(&mut storage, env("bob", 10), redeem(Some(0))).is_none());
}

#[test]
fn a_message_touches_the_records_of_its_account() {
    let msg = lock("alice", UNIT);
    assert_eq!(account_of(&env("inc", 1), &msg), "alice");
    assert_eq!(account_of(&env("bob", 1), &redeem(None)), "bob");
}

#[test]
fn an_account_named_like_the_pool_shares_its_place() {
    let mut storage = contract();
    accepted(&mut storage, "inc", 10, lock("alice", 2 * UNIT));
    accepted(&mut storage, "reward", 10, add(180));
    // The pool's record is read as that of the account, after it was brought up to date.
    let response = accepted(&mut storage, "inc", 20, lock("rewardpool", UNIT));
    // 180 units at 10 rewards each, less a debt of 2.
    assert_eq!(transfers(&response), vec![transfer("reward", "rewardpool", 1798)]);
    assert_eq!(
        load_pool(&storage).unwrap(),
        RewardPool {
            pending_rewards: 180,
            inc_token_supply: 3,
            last_reward_block: 20,
            acc_reward_per_share: 10 * SCALE,
        }
    );
}

#[test]
fn questions_about_the_settings_need_no_key() {
    let mut storage = contract();
    accepted(&mut storage, "inc", 10, lock("alice", UNIT));
    let ask = |msg: QueryMsg| try_query(&storage, msg).unwrap().unwrap();
    assert!(matches!(
        ask(QueryMsg::QueryUnlockClaimHeight),
        QueryAnswer::QueryUnlockClaimHeight { height: 200 }
    ));
    assert!(matches!(
        ask(QueryMsg::QueryContractStatus),
        QueryAnswer::QueryContractStatus { is_stopped: false }
    ));
    match ask(QueryMsg::QueryRewardToken) {
        QueryAnswer::QueryRewardToken { token } => assert_eq!(token.address, "reward"),
        other => panic!("{:?}", other),
    }
    match ask(QueryMsg::QueryIncentivizedToken) {
        QueryAnswer::QueryIncentivizedToken { token } => {
            assert_eq!(token.contract_hash, "inc hash")
        }
        other => panic!("{:?}", other),
    }
    assert!(matches!(
        ask(QueryMsg::QueryEndHeight),
        QueryAnswer::QueryEndHeight { height: 100 }
    ));
    // The last reward block is answered in the form of an end height.
    assert!(matches!(
        ask(QueryMsg::QueryLastRewardBlock),
        QueryAnswer::QueryEndHeight { height: 10 }
    ));
}

fn rewards_of(address: &str, key: &str) -> QueryMsg {
    QueryMsg::QueryRewards { address: address.to_string(), key: key.to_string() }
}

fn deposit_of(address: &str, key: &str) -> QueryMsg {
    QueryMsg::QueryDeposit { address: address.to_string(), key: key.to_string() }
}

fn refused_to_tell(storage: &MemoryStorage, msg: QueryMsg) -> bool {
    match try_query(storage, msg) {
        Some(Ok(QueryAnswer::QueryError { msg })) => {
            msg == "Wrong viewing key for this address or viewing key not set"
        }
        _ => false,
    }
}

#[test]
fn a_viewing_key_opens_questions_about_its_user() {
    let mut storage = contract();
    accepted(&mut storage, "inc", 10, lock("alice", 3 * UNIT));
    accepted(&mut storage, "inc", 10, lock("bob", UNIT));
    accepted(&mut storage, "reward", 10, add(900));
    assert!(refused_to_tell(&storage, deposit_of("alice", "")));
    let response = accepted(
        &mut storage,
        "alice",
        30,
        HandleMsg::SetViewingKey { key: "abc".to_string(), padding: None },
    );
    assert!(matches!(
        response.data,
        Some(HandleAnswer::SetViewingKey { status: ResponseStatus::Success })
    ));
    assert!(refused_to_tell(&storage, deposit_of("alice", "abd")));
    assert!(refused_to_tell(&storage, rewards_of("alice", "")));
    assert!(refused_to_tell(&storage, deposit_of("bob", "abc")));
    assert!(matches!(
        try_query(&storage, deposit_of("alice", "abc")),
        Some(Ok(QueryAnswer::QueryDeposit { deposit: 3 }))
    ));
    // The answer is that of the last update.
    assert!(matches!(
        try_query(&storage, rewards_of("alice", "abc")),
        Some(Ok(QueryAnswer::QueryRewards { rewards: 0 }))
    ));
    accepted(&mut storage, "bob", 30, redeem(Some(0)));
    assert!(matches!(
        try_query(&storage, rewards_of("alice", "abc")),
        Some(Ok(QueryAnswer::QueryRewards { rewards: 150 }))
    ));
    // It is what redeeming pays at the same height.
    let response = accepted(&mut storage, "alice", 30, redeem(Some(0)));
    assert_eq!(
        transfers(&response),
        vec![transfer("reward", "alice", 150), transfer("inc", "alice", 0)]
    );
}

#[test]
fn a_question_whose_numbers_do_not_fit_is_noticed() {
    let mut storage = contract();
    let key = HandleMsg::SetViewingKey { key: "abc".to_string(), padding: None };
    accepted(&mut storage, "alice", 1, key);
    store_user(&mut storage, &"alice".to_string(), &UserInfo { locked: 1, debt: 1 });
    assert!(try_query(&storage, rewards_of("alice", "abc")).is_none());
    assert!(refused_to_tell(&storage, rewards_of("alice", "wrong")));
    assert!(matches!(
        try_query(&storage, deposit_of("alice", "abc")),
        Some(Ok(QueryAnswer::QueryDeposit { deposit: 1 }))
    ));
}

#[test]
fn a_created_viewing_key_is_drawn_from_seed_and_transaction() {
    let mut storage = contract();
    let response = accepted(
        &mut storage,
        "alice",
        0x0102,
        HandleMsg::CreateViewingKey { entropy: "more".to_string(), padding: None },
    );
    let key = match response.data {
        Some(HandleAnswer::CreateViewingKey { key: ViewingKey(key) }) => key,
        other => panic!("{:?}", other),
    };
    let mut entropy = vec![0, 0, 0, 0, 0, 0, 1, 2];
    entropy.extend_from_slice(&1_600_000_000u64.to_be_bytes());
    entropy.extend_from_slice(b"alicemore");
    let seed = secret_toolkit::crypto::sha_256(b"abc");
    let random = secret_toolkit::crypto::Prng::new(&seed, &entropy).rand_bytes();
    let digest = secret_toolkit::crypto::sha_256(&random);
    assert_eq!(key, format!("api_key_{}", Binary(digest.to_vec()).to_base64()));
    assert_eq!(key.len(), 8 + 44);

    assert!(matches!(
        try_query(&storage, deposit_of("alice", &key)),
        Some(Ok(QueryAnswer::QueryDeposit { deposit: 0 }))
    ));
    assert!(refused_to_tell(&storage, deposit_of("alice", "api_key_")));
    assert!(refused_to_tell(&storage, deposit_of("bob", &key)));
}

#[test]
fn a_later_viewing_key_takes_the_place_of_the_earlier() {
    let mut storage = contract();
    for key in ["first", "second"] {
        let msg = HandleMsg::SetViewingKey { key: key.to_string(), padding: None };
        accepted(&mut storage, "alice", 1, msg);
    }
    assert!(refused_to_tell(&storage, deposit_of("alice", "first")));
    assert!(!refused_to_tell(&storage, deposit_of("alice", "second")));
}

#[test]
fn a_viewing_key_is_checked_against_its_digest() {
    let key = ViewingKey("abc".to_string());
    let digest = key.to_hashed();
    assert_eq!(digest[0..4], [0xba, 0x78, 0x16, 0xbf]);
    assert!(key.check_viewing_key(&digest));
    assert!(!key.check_viewing_key(&digest[0..31]));
    assert!(!key.check_viewing_key(&[0u8; 32]));
    assert!(!ViewingKey("abd".to_string()).check_viewing_key(&digest));
}

#[test]
fn answers_are_padded_to_whole_blocks() {
    let mut expected = b"{}".to_vec();
    expected.resize(256, b' ');
    assert_eq!(pad_query_answer(b"{}".to_vec()), expected);
    assert_eq!(pad_answer(Some(b"{}".to_vec()), Some(256)), Some(expected));
    assert_eq!(pad_answer(Some(b"{}".to_vec()), None), Some(b"{}".to_vec()));
    assert_eq!(pad_answer(None, Some(256)), None);
    assert_eq!(pad_answer(Some(b"abc".to_vec()), Some(2)), Some(b"abc ".to_vec()));
    // Whole blocks stay as they are.
    assert_eq!(pad_query_answer(vec![b'x'; 512]), vec![b'x'; 512]);
    assert_eq!(pad_query_answer(vec![]), Vec::<u8>::new());
    assert_eq!(pad_query_answer(vec![b'x'; 257]).len(), 512);
}

#[test]
fn what_comes_of_a_message_depends_on_its_own_records() {
    let mut quiet = contract();
    let mut busy = contract();
    for storage in [&mut quiet, &mut busy] {
        accepted(storage, "inc", 10, lock("alice", 3 * UNIT));
    }
    // Bob's record and key differ, and nothing else.
    store_user(&mut busy, &"bob".to_string(), &UserInfo { locked: 9, debt: 0 });
    let key = HandleMsg::SetViewingKey { key: "abc".to_string(), padding: None };
    accepted(&mut busy, "bob", 10, key);
    let bobs_key = load_viewing_key(&busy, &"bob".to_string());
    let first = accepted(&mut quiet, "alice", 20, redeem(Some(UNIT)));
    let second = accepted(&mut busy, "alice", 20, redeem(Some(UNIT)));
    assert_eq!(transfers(&first), transfers(&second));
    assert_eq!(user(&quiet, "alice"), user(&busy, "alice"));
    assert_eq!(load_pool(&quiet).unwrap(), load_pool(&busy).unwrap());
    assert_eq!(user(&busy, "bob"), UserInfo { locked: 9, debt: 0 });
    assert_eq!(load_viewing_key(&busy, &"bob".to_string()), bobs_key);
    assert!(bobs_key.is_some());
}

#[test]
fn stopping_and_resuming_leave_the_settings_as_they_were() {
    let mut storage = contract();
    let before = load_config(&storage).unwrap();
    accepted(&mut storage, "admin", 1, HandleMsg::StopContract);
    let (resumed, _) = reply(try_handle(&mut storage, env("admin", 2), HandleMsg::ResumeContract));
    assert!(resumed.is_ok());
    let after = load_config(&storage).unwrap();
    assert_eq!(format!("{:?}", after), format!("{:?}", before));
}
