use lockup::contract::{create_viewing_key, init, query, try_handle, try_query, Handled};
use lockup::env::{BlockInfo, ContractInfo, Env, MessageInfo};
use lockup::error::{Record, StdError};
use lockup::msg::{HandleMsg, InitMsg, Payload, QueryAnswer, QueryMsg};
use lockup::state::{RewardPool, Snip20, UserInfo};
use lockup::storage::{
    config_from, load_config, load_pool, load_user, load_viewing_key, pool_from, refusal,
    store_bare_pool, store_pool, store_user, store_viewing_key, ConfigRecord, LoadError,
};
use secret_cosmwasm_std::{MemoryStorage, ReadonlyStorage, Storage};
use secret_toolkit::storage::TypedStore;

fn env(sender: &str, height: u64) -> Env {
    Env {
        block: BlockInfo { height, time: 1_600_000_000 },
        message: MessageInfo { sender: sender.to_string() },
        contract: ContractInfo { address: "lockup".to_string() },
        contract_code_hash: "lockup hash".to_string(),
    }
}

fn token(name: &str) -> Snip20 {
    Snip20 { address: name.to_string(), contract_hash: format!("{} hash", name) }
}

fn init_msg() -> InitMsg {
    InitMsg {
        reward_token: token("reward"),
        inc_token: token("inc"),
        pool_claim_block: 200,
        end_by_height: 100,
        viewing_key: "contract key".to_string(),
        prng_seed: b"abc".to_vec(),
    }
}

/// The SHA-256 digest of "abc".
const ABC_DIGEST: [u8; 32] = [
    0xba, 0x78, 0x16, 0xbf, 0x8f, 0x01, 0xcf, 0xea, 0x41, 0x41, 0x40, 0xde, 0x5d, 0xae, 0x22, 0x23,
    0xb0, 0x03, 0x61, 0xa3, 0x96, 0x17, 0x7a, 0x9c, 0xb4, 0x10, 0xff, 0x61, 0xf2, 0x00, 0x15, 0xad,
];

fn padded(text: &str, block_size: usize) -> Vec<u8> {
    let mut bytes = text.as_bytes().to_vec();
    while bytes.len() % block_size != 0 {
        bytes.push(b' ');
    }
    bytes
}

#[test]
fn proper_initialization() {
    let mut storage = MemoryStorage::new();
    let response = init(&mut storage, env("admin", 7), init_msg()).unwrap();

    let config = load_config(&storage).unwrap();
    assert_eq!(config.admin, "admin");
    assert_eq!(config.reward_token.address, "reward");
    assert_eq!(config.reward_token.contract_hash, "reward hash");
    assert_eq!(config.inc_token.address, "inc");
    assert_eq!(config.inc_token.contract_hash, "inc hash");
    assert_eq!(config.pool_claim_height, 200);
    assert_eq!(config.end_by_height, 100);
    assert_eq!(config.viewing_key, "contract key");
    assert_eq!(config.prng_seed, ABC_DIGEST.to_vec());
    assert!(!config.is_stopped);

    assert_eq!(storage.get(b"rewardpool"), Some(vec![0u8; 16]));

    let register = br#"{"register_receive":{"code_hash":"lockup hash","padding":null}}"#.to_vec();
    let set_key = padded(r#"{"set_viewing_key":{"key":"contract key","padding":null}}"#, 256);
    let expected = [
        ("reward", "reward hash", register.clone()),
        ("inc", "inc hash", register),
        ("reward", "reward hash", set_key.clone()),
        ("inc", "inc hash", set_key),
    ];
    assert_eq!(response.messages.len(), 4);
    for (message, (address, hash, payload)) in response.messages.iter().zip(expected.iter()) {
        assert_eq!(&message.contract_addr, address);
        assert_eq!(&message.callback_code_hash, hash);
        assert_eq!(&message.msg, payload);
    }
}

#[test]
fn settings_are_kept_in_a_fixed_layout() {
    let mut storage = MemoryStorage::new();
    init(&mut storage, env("admin", 7), init_msg()).unwrap();
    let mut expected: Vec<u8> = Vec::new();
    for text in ["admin", "reward", "reward hash", "inc", "inc hash"] {
        expected.extend_from_slice(&(text.len() as u64).to_le_bytes());
        expected.extend_from_slice(text.as_bytes());
    }
    expected.extend_from_slice(&200u64.to_le_bytes());
    expected.extend_from_slice(&100u64.to_le_bytes());
    expected.extend_from_slice(&12u64.to_le_bytes());
    expected.extend_from_slice(b"contract key");
    expected.extend_from_slice(&32u64.to_le_bytes());
    expected.extend_from_slice(&ABC_DIGEST);
    expected.push(0);
    assert_eq!(storage.get(b"config"), Some(expected.clone()));

    // What follows the settings is ignored.
    expected.push(77);
    storage.set(b"config", &expected);
    assert_eq!(load_config(&storage).unwrap().admin, "admin");

    // The flag has to be a zero or a one, and texts have to be UTF-8.
    let flag = expected.len() - 2;
    expected[flag] = 2;
    storage.set(b"config", &expected);
    assert!(matches!(
        load_config(&storage),
        Err(StdError::Unreadable { kind: Record::Config, .. })
    ));
    expected[flag] = 1;
    storage.set(b"config", &expected);
    assert!(load_config(&storage).unwrap().is_stopped);
    expected[8] = 0xff;
    storage.set(b"config", &expected);
    assert!(matches!(
        load_config(&storage),
        Err(StdError::Unreadable { kind: Record::Config, .. })
    ));

    // A length beyond the end.
    storage.set(b"config", &[0xff; 64]);
    assert!(matches!(
        load_config(&storage),
        Err(StdError::Unreadable { kind: Record::Config, .. })
    ));
}

#[test]
fn pool_and_users_are_kept_in_a_fixed_layout() {
    let mut storage = MemoryStorage::new();
    let pool = RewardPool {
        pending_rewards: 1,
        inc_token_supply: 0x0203,
        last_reward_block: 4,
        acc_reward_per_share: u128::MAX,
    };
    store_pool(&mut storage, &pool);
    let mut expected = [0u8; 56];
    expected[0] = 1;
    expected[16] = 3;
    expected[17] = 2;
    expected[32] = 4;
    for byte in expected[40..].iter_mut() {
        *byte = 0xff;
    }
    assert_eq!(storage.get(b"rewardpool"), Some(expected.to_vec()));
    assert_eq!(load_pool(&storage).unwrap(), pool);

    let alice = "alice".to_string();
    store_user(&mut storage, &alice, &UserInfo { locked: 5, debt: 7 });
    let mut expected = [0u8; 32];
    expected[0] = 5;
    expected[16] = 7;
    assert_eq!(storage.get(b"alice"), Some(expected.to_vec()));
    assert_eq!(load_user(&storage, &alice), UserInfo { locked: 5, debt: 7 });
    assert_eq!(load_user(&storage, &"bob".to_string()), UserInfo { locked: 0, debt: 0 });

    // A record that is too short counts as none, and what follows a record is ignored.
    storage.set(b"bob", &[1; 31]);
    assert_eq!(load_user(&storage, &"bob".to_string()), UserInfo { locked: 0, debt: 0 });
    let mut longer = expected.to_vec();
    longer.push(9);
    storage.set(b"bob", &longer);
    assert_eq!(load_user(&storage, &"bob".to_string()), UserInfo { locked: 5, debt: 7 });
}

#[test]
fn viewing_key_hashes_are_kept_in_a_namespace() {
    let mut storage = MemoryStorage::new();
    let alice = "alice".to_string();
    assert_eq!(load_viewing_key(&storage, &alice), None);
    store_viewing_key(&mut storage, &alice, &[1, 2, 3]);
    assert_eq!(load_viewing_key(&storage, &alice), Some(vec![1, 2, 3]));
    assert_eq!(storage.get(b"\x00\x0aviewingkeyalice"), Some(vec![1, 2, 3]));
    assert_eq!(load_viewing_key(&storage, &"bob".to_string()), None);
}

#[test]
fn missing_and_malformed_records_are_told_apart() {
    let mut storage = MemoryStorage::new();
    assert!(matches!(load_config(&storage), Err(StdError::NotFound { kind: Record::Config })));
    assert!(matches!(load_pool(&storage), Err(StdError::NotFound { kind: Record::RewardPool })));
    store_bare_pool(&mut storage, 0);
    assert!(matches!(
        load_pool(&storage),
        Err(StdError::Unreadable { kind: Record::RewardPool, .. })
    ));
}

#[test]
fn the_text_of_a_decoding_failure_is_handed_on() {
    assert!(matches!(
        refusal(Record::Config, LoadError::Missing),
        StdError::NotFound { kind: Record::Config }
    ));
    match refusal(Record::RewardPool, LoadError::Malformed("why".to_string())) {
        StdError::Unreadable { kind: Record::RewardPool, msg } => assert_eq!(msg, "why"),
        other => panic!("{:?}", other),
    }
    match config_from(Err(LoadError::Malformed("why".to_string()))) {
        Err(StdError::Unreadable { kind: Record::Config, msg }) => assert_eq!(msg, "why"),
        other => panic!("{:?}", other),
    }
    match pool_from(Err(LoadError::Malformed("why".to_string()))) {
        Err(StdError::Unreadable { kind: Record::RewardPool, msg }) => assert_eq!(msg, "why"),
        other => panic!("{:?}", other),
    }

    // The text is that of the toolkit's store.
    let mut storage = MemoryStorage::new();
    store_bare_pool(&mut storage, 0);
    storage.set(b"config", &[1, 2, 3]);
    let pool = TypedStore::<(u128, u128, u64, u128), MemoryStorage>::attach(&storage)
        .load(b"rewardpool");
    match (load_pool(&storage), pool) {
        (
            Err(StdError::Unreadable { msg, .. }),
            Err(secret_cosmwasm_std::StdError::ParseErr { msg: text, .. }),
        ) => {
            assert_eq!(msg, text);
            assert!(!msg.is_empty());
        }
        other => panic!("{:?}", other),
    }
    let config = TypedStore::<ConfigRecord, MemoryStorage>::attach(&storage).load(b"config");
    match (load_config(&storage), config) {
        (
            Err(StdError::Unreadable { msg, .. }),
            Err(secret_cosmwasm_std::StdError::ParseErr { msg: text, .. }),
        ) => {
            assert_eq!(msg, text);
            assert!(!msg.is_empty());
        }
        other => panic!("{:?}", other),
    }
}

#[test]
fn without_settings_nothing_is_handled() {
    let mut storage = MemoryStorage::new();
    match try_handle(&mut storage, env("alice", 1), HandleMsg::StopContract) {
        Some(Handled::Reply {
            reply: Err(StdError::NotFound { kind: Record::Config }),
            block_size: None,
        }) => {}
        other => panic!("{:?}", other),
    }
    assert!(matches!(
        create_viewing_key(&mut storage, env("alice", 1), "x".to_string()),
        Err(StdError::NotFound { kind: Record::Config })
    ));
    assert!(matches!(
        query(&storage, QueryMsg::QueryEndHeight),
        Err(StdError::NotFound { kind: Record::Config })
    ));
    assert!(matches!(
        query(&storage, QueryMsg::QueryLastRewardBlock),
        Err(StdError::NotFound { kind: Record::RewardPool })
    ));
}

#[test]
fn a_new_contract_refuses_what_needs_the_pool() {
    let mut storage = MemoryStorage::new();
    init(&mut storage, env("admin", 7), init_msg()).unwrap();
    let lock = HandleMsg::Receive {
        sender: "alice".to_string(),
        from: "alice".to_string(),
        amount: 5_000_000_000,
        msg: Payload::Message(Box::new(HandleMsg::LockTokens)),
    };
    let add = HandleMsg::Receive {
        sender: "admin".to_string(),
        from: "admin".to_string(),
        amount: 100,
        msg: Payload::Message(Box::new(HandleMsg::AddToRewardPool)),
    };
    let redeem = HandleMsg::Redeem { amount: None };
    for (sender, msg) in [("inc", lock), ("reward", add), ("alice", redeem)] {
        match try_handle(&mut storage, env(sender, 8), msg) {
            Some(Handled::Reply {
                reply: Err(StdError::Unreadable { kind: Record::RewardPool, .. }),
                block_size: Some(256),
            }) => {}
            other => panic!("{:?}", other),
        }
    }
    assert_eq!(storage.get(b"rewardpool"), Some(vec![0u8; 16]));
    assert_eq!(storage.get(b"alice"), None);
    assert!(matches!(
        try_query(&storage, QueryMsg::QueryLastRewardBlock),
        Some(Err(StdError::Unreadable { kind: Record::RewardPool, .. }))
    ));
    assert!(matches!(
        query(&storage, QueryMsg::QueryEndHeight),
        Ok(QueryAnswer::QueryEndHeight { height: 100 })
    ));
}
