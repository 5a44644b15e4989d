//! The contract's records in a key-value store.
//!
//! Settings, pool and users are kept in the encoding of [`secret_toolkit::storage`]; hashed viewing
//! keys are kept as they are, in a namespace of [`secret_cosmwasm_storage`].

use secret_cosmwasm_std::{MemoryStorage, ReadonlyStorage, Storage};
use secret_cosmwasm_storage::{PrefixedStorage, ReadonlyPrefixedStorage};
use secret_toolkit::storage::{TypedStore, TypedStoreMut};
use vstd::bytes::{
    lemma_auto_spec_u128_to_from_le_bytes, lemma_auto_spec_u64_to_from_le_bytes,
    spec_u128_from_le_bytes, spec_u128_to_le_bytes, spec_u64_from_le_bytes, spec_u64_to_le_bytes,
};
use vstd::prelude::*;
use vstd::utf8::{encode_utf8, encode_utf8_decode_utf8, is_ascii_chars_encode_utf8};

use crate::constants::{CONFIG_KEY, REWARD_POOL_KEY, VIEWING_KEY_KEY};
use crate::error::{Record, StdError, StdErrorView};
use crate::state::{Config, ConfigView, RewardPool, Snip20, Snip20View, UserInfo};

verus! {

/// The bytes kept under each key.
pub type Contents = Map<Seq<u8>, Seq<u8>>;

/// [`secret_cosmwasm_std::MemoryStorage`], whose insides stay closed here.
#[verifier::external_type_specification]
#[verifier::external_body]
pub struct ExMemoryStorage(MemoryStorage);

/// What a store holds.
pub uninterp spec fn stored(storage: MemoryStorage) -> Map<Seq<u8>, Seq<u8>>;

// ---------------------------------------------------------------------------------------------
// Keys
// ---------------------------------------------------------------------------------------------

/// Where the settings are.
pub open spec fn config_key() -> Seq<u8> {
    encode_utf8(CONFIG_KEY@)
}

/// Where the reward pool is.
pub open spec fn pool_key() -> Seq<u8> {
    encode_utf8(REWARD_POOL_KEY@)
}

/// Where a user's record is.
pub open spec fn user_key(address: Seq<char>) -> Seq<u8> {
    encode_utf8(address)
}

/// Where a user's hashed viewing key is.
pub open spec fn viewing_key_key(address: Seq<char>) -> Seq<u8> {
    namespaced(encode_utf8(VIEWING_KEY_KEY@), encode_utf8(address))
}

/// A key in a namespace: the length of the namespace in two bytes, most significant first, then
/// the namespace, then the key.
pub open spec fn namespaced(namespace: Seq<u8>, key: Seq<u8>) -> Seq<u8> {
    seq![(namespace.len() / 256) as u8, (namespace.len() % 256) as u8] + namespace + key
}

/// The namespace of the viewing keys is short.
proof fn lemma_namespace_length()
    ensures
        encode_utf8(VIEWING_KEY_KEY@).len() == 10,
{
    reveal_strlit("viewingkey");
    is_ascii_chars_encode_utf8(VIEWING_KEY_KEY@);
}

/// Settings, pool and viewing keys are kept apart.
pub proof fn lemma_record_keys()
    ensures
        config_key() != pool_key(),
        forall|address: Seq<char>| #[trigger] viewing_key_key(address) != config_key(),
        forall|address: Seq<char>| #[trigger] viewing_key_key(address) != pool_key(),
{
    reveal_strlit("config");
    reveal_strlit("rewardpool");
    is_ascii_chars_encode_utf8(CONFIG_KEY@);
    is_ascii_chars_encode_utf8(REWARD_POOL_KEY@);
    lemma_namespace_length();
    assert(config_key()[0] == 'c' as u8);
    assert(pool_key()[0] == 'r' as u8);
    assert forall|address: Seq<char>| (#[trigger] viewing_key_key(address))[0] == 0 by {}
}

// ---------------------------------------------------------------------------------------------
// Encodings
// ---------------------------------------------------------------------------------------------

/// The bytes of a byte string: its length in eight bytes, least significant first, then the bytes
/// themselves.
pub open spec fn bytes_encoding(bytes: Seq<u8>) -> Seq<u8> {
    spec_u64_to_le_bytes(bytes.len() as u64) + bytes
}

/// The bytes of a text: those of its UTF-8 form.
pub open spec fn text_encoding(text: Seq<char>) -> Seq<u8> {
    bytes_encoding(encode_utf8(text))
}

/// Whether the length of a text can be written down. That of every text in memory can.
pub open spec fn text_fits(text: Seq<char>) -> bool {
    encode_utf8(text).len() <= u64::MAX
}

/// Whether the lengths of all texts in the settings can be written down.
pub open spec fn config_fits(config: ConfigView) -> bool {
    &&& text_fits(config.admin)
    &&& text_fits(config.reward_token.address)
    &&& text_fits(config.reward_token.contract_hash)
    &&& text_fits(config.inc_token.address)
    &&& text_fits(config.inc_token.contract_hash)
    &&& text_fits(config.viewing_key)
    &&& config.prng_seed.len() <= u64::MAX
}

/// The bytes of the settings: those of each in turn, and a one where the contract is stopped.
pub open spec fn config_encoding(config: ConfigView) -> Seq<u8> {
    text_encoding(config.admin) + text_encoding(config.reward_token.address) + text_encoding(
        config.reward_token.contract_hash,
    ) + text_encoding(config.inc_token.address) + text_encoding(config.inc_token.contract_hash)
        + spec_u64_to_le_bytes(config.pool_claim_height) + spec_u64_to_le_bytes(
        config.end_by_height,
    ) + text_encoding(config.viewing_key) + bytes_encoding(config.prng_seed) + seq![
        if config.is_stopped {
            1u8
        } else {
            0u8
        },
    ]
}

/// Whether bytes begin with those of the given settings.
pub open spec fn holds_config(bytes: Seq<u8>, config: ConfigView) -> bool {
    config_fits(config) && config_encoding(config).is_prefix_of(bytes)
}

/// The settings that the given bytes are read as: those with whose bytes they begin, if there are
/// any. What follows is ignored.
pub open spec fn config_decoding(bytes: Seq<u8>) -> Option<ConfigView> {
    if exists|config: ConfigView| holds_config(bytes, config) {
        Some(choose|config: ConfigView| holds_config(bytes, config))
    } else {
        None
    }
}

/// The bytes of a pool: its four numbers, least significant byte first.
pub open spec fn pool_encoding(pool: RewardPool) -> Seq<u8> {
    spec_u128_to_le_bytes(pool.pending_rewards) + spec_u128_to_le_bytes(pool.inc_token_supply)
        + spec_u64_to_le_bytes(pool.last_reward_block) + spec_u128_to_le_bytes(
        pool.acc_reward_per_share,
    )
}

/// The pool that the given bytes are read as: they have to hold four numbers, and what follows
/// is ignored.
pub open spec fn pool_decoding(bytes: Seq<u8>) -> Option<RewardPool> {
    if bytes.len() < 56 {
        None
    } else {
        Some(
            RewardPool {
                pending_rewards: spec_u128_from_le_bytes(bytes.subrange(0, 16)),
                inc_token_supply: spec_u128_from_le_bytes(bytes.subrange(16, 32)),
                last_reward_block: spec_u64_from_le_bytes(bytes.subrange(32, 40)),
                acc_reward_per_share: spec_u128_from_le_bytes(bytes.subrange(40, 56)),
            },
        )
    }
}

/// The bytes of a user's record: its two numbers, least significant byte first.
pub open spec fn user_encoding(user: UserInfo) -> Seq<u8> {
    spec_u128_to_le_bytes(user.locked) + spec_u128_to_le_bytes(user.debt)
}

/// The record that the given bytes are read as: they have to hold two numbers, and what follows
/// is ignored.
pub open spec fn user_decoding(bytes: Seq<u8>) -> Option<UserInfo> {
    if bytes.len() < 32 {
        None
    } else {
        Some(
            UserInfo {
                locked: spec_u128_from_le_bytes(bytes.subrange(0, 16)),
                debt: spec_u128_from_le_bytes(bytes.subrange(16, 32)),
            },
        )
    }
}

/// A number's bytes show where they end.
proof fn lemma_number_prefix(a: u64, b: u64, after_a: Seq<u8>, after_b: Seq<u8>)
    requires
        spec_u64_to_le_bytes(a) + after_a == spec_u64_to_le_bytes(b) + after_b,
    ensures
        a == b,
        after_a == after_b,
{
    lemma_auto_spec_u64_to_from_le_bytes();
    let bytes = spec_u64_to_le_bytes(a) + after_a;
    assert(bytes.subrange(0, 8) =~= spec_u64_to_le_bytes(a));
    assert(bytes.subrange(0, 8) =~= spec_u64_to_le_bytes(b));
    assert(bytes.skip(8) =~= after_a);
    assert(bytes.skip(8) =~= after_b);
}

/// A byte string's bytes show where they end.
proof fn lemma_bytes_prefix(a: Seq<u8>, b: Seq<u8>, after_a: Seq<u8>, after_b: Seq<u8>)
    requires
        a.len() <= u64::MAX,
        b.len() <= u64::MAX,
        bytes_encoding(a) + after_a == bytes_encoding(b) + after_b,
    ensures
        a == b,
        after_a == after_b,
{
    assert(bytes_encoding(a) + after_a =~= spec_u64_to_le_bytes(a.len() as u64) + (a + after_a));
    assert(bytes_encoding(b) + after_b =~= spec_u64_to_le_bytes(b.len() as u64) + (b + after_b));
    lemma_number_prefix(a.len() as u64, b.len() as u64, a + after_a, b + after_b);
    assert((a + after_a).take(a.len() as int) =~= a);
    assert((b + after_b).take(b.len() as int) =~= b);
    assert((a + after_a).skip(a.len() as int) =~= after_a);
    assert((b + after_b).skip(b.len() as int) =~= after_b);
}

/// A text's bytes show where they end.
proof fn lemma_text_prefix(a: Seq<char>, b: Seq<char>, after_a: Seq<u8>, after_b: Seq<u8>)
    requires
        text_fits(a),
        text_fits(b),
        text_encoding(a) + after_a == text_encoding(b) + after_b,
    ensures
        a == b,
        after_a == after_b,
{
    lemma_bytes_prefix(encode_utf8(a), encode_utf8(b), after_a, after_b);
    encode_utf8_decode_utf8(a);
    encode_utf8_decode_utf8(b);
}

/// Concatenation can be regrouped.
proof fn lemma_regroup(a: Seq<u8>, b: Seq<u8>, c: Seq<u8>)
    ensures
        (a + b) + c == a + (b + c),
{
    assert((a + b) + c =~= a + (b + c));
}

/// The bytes of the settings begin with those of the admin, after which come the others.
proof fn lemma_config_encoding_split(config: ConfigView, after: Seq<u8>)
    ensures
        config_encoding(config) + after == text_encoding(config.admin) + (text_encoding(
            config.reward_token.address,
        ) + (text_encoding(config.reward_token.contract_hash) + (text_encoding(
            config.inc_token.address,
        ) + (text_encoding(config.inc_token.contract_hash) + (spec_u64_to_le_bytes(
            config.pool_claim_height,
        ) + (spec_u64_to_le_bytes(config.end_by_height) + (text_encoding(config.viewing_key) + (
        bytes_encoding(config.prng_seed) + (seq![
            if config.is_stopped {
                1u8
            } else {
                0u8
            },
        ] + after))))))))),
{
    let admin = text_encoding(config.admin);
    let reward = text_encoding(config.reward_token.address);
    let reward_hash = text_encoding(config.reward_token.contract_hash);
    let inc = text_encoding(config.inc_token.address);
    let inc_hash = text_encoding(config.inc_token.contract_hash);
    let claim = spec_u64_to_le_bytes(config.pool_claim_height);
    let end = spec_u64_to_le_bytes(config.end_by_height);
    let key = text_encoding(config.viewing_key);
    let seed = bytes_encoding(config.prng_seed);
    let flag = seq![
        if config.is_stopped {
            1u8
        } else {
            0u8
        },
    ];
    let to_reward = admin + reward;
    let to_reward_hash = to_reward + reward_hash;
    let to_inc = to_reward_hash + inc;
    let to_inc_hash = to_inc + inc_hash;
    let to_claim = to_inc_hash + claim;
    let to_end = to_claim + end;
    let to_key = to_end + key;
    let to_seed = to_key + seed;
    lemma_regroup(to_seed, flag, after);
    lemma_regroup(to_key, seed, flag + after);
    lemma_regroup(to_end, key, seed + (flag + after));
    lemma_regroup(to_claim, end, key + (seed + (flag + after)));
    let from_end = end + (key + (seed + (flag + after)));
    lemma_regroup(to_inc_hash, claim, from_end);
    lemma_regroup(to_inc, inc_hash, claim + from_end);
    lemma_regroup(to_reward_hash, inc, inc_hash + (claim + from_end));
    lemma_regroup(to_reward, reward_hash, inc + (inc_hash + (claim + from_end)));
    lemma_regroup(admin, reward, reward_hash + (inc + (inc_hash + (claim + from_end))));
}

/// Bytes begin with those of at most one record of settings.
pub proof fn lemma_config_decoding(bytes: Seq<u8>, config: ConfigView)
    requires
        holds_config(bytes, config),
    ensures
        config_decoding(bytes) == Some(config),
{
    let other = choose|other: ConfigView| holds_config(bytes, other);
    let after = bytes.skip(config_encoding(config).len() as int);
    let other_after = bytes.skip(config_encoding(other).len() as int);
    assert(bytes =~= config_encoding(config) + after);
    assert(bytes =~= config_encoding(other) + other_after);
    lemma_config_encoding_split(config, after);
    lemma_config_encoding_split(other, other_after);
    let flag = seq![
        if config.is_stopped {
            1u8
        } else {
            0u8
        },
    ] + after;
    let other_flag = seq![
        if other.is_stopped {
            1u8
        } else {
            0u8
        },
    ] + other_after;
    let seed = bytes_encoding(config.prng_seed) + flag;
    let other_seed = bytes_encoding(other.prng_seed) + other_flag;
    let key = text_encoding(config.viewing_key) + seed;
    let other_key = text_encoding(other.viewing_key) + other_seed;
    let end = spec_u64_to_le_bytes(config.end_by_height) + key;
    let other_end = spec_u64_to_le_bytes(other.end_by_height) + other_key;
    let claim = spec_u64_to_le_bytes(config.pool_claim_height) + end;
    let other_claim = spec_u64_to_le_bytes(other.pool_claim_height) + other_end;
    let inc_hash = text_encoding(config.inc_token.contract_hash) + claim;
    let other_inc_hash = text_encoding(other.inc_token.contract_hash) + other_claim;
    let inc = text_encoding(config.inc_token.address) + inc_hash;
    let other_inc = text_encoding(other.inc_token.address) + other_inc_hash;
    let reward_hash = text_encoding(config.reward_token.contract_hash) + inc;
    let other_reward_hash = text_encoding(other.reward_token.contract_hash) + other_inc;
    let reward = text_encoding(config.reward_token.address) + reward_hash;
    let other_reward = text_encoding(other.reward_token.address) + other_reward_hash;
    lemma_text_prefix(config.admin, other.admin, reward, other_reward);
    lemma_text_prefix(
        config.reward_token.address,
        other.reward_token.address,
        reward_hash,
        other_reward_hash,
    );
    lemma_text_prefix(
        config.reward_token.contract_hash,
        other.reward_token.contract_hash,
        inc,
        other_inc,
    );
    lemma_text_prefix(config.inc_token.address, other.inc_token.address, inc_hash, other_inc_hash);
    lemma_text_prefix(
        config.inc_token.contract_hash,
        other.inc_token.contract_hash,
        claim,
        other_claim,
    );
    lemma_number_prefix(config.pool_claim_height, other.pool_claim_height, end, other_end);
    lemma_number_prefix(config.end_by_height, other.end_by_height, key, other_key);
    lemma_text_prefix(config.viewing_key, other.viewing_key, seed, other_seed);
    lemma_bytes_prefix(config.prng_seed, other.prng_seed, flag, other_flag);
    assert(flag[0] == other_flag[0]);
}

/// Settings are read back as they were written.
pub proof fn lemma_config_round_trip(config: ConfigView)
    requires
        config_fits(config),
    ensures
        config_decoding(config_encoding(config)) == Some(config),
{
    assert(config_encoding(config).is_prefix_of(config_encoding(config)));
    lemma_config_decoding(config_encoding(config), config);
}

/// A pool is read back as it was written.
pub proof fn lemma_pool_round_trip(pool: RewardPool)
    ensures
        pool_decoding(pool_encoding(pool)) == Some(pool),
{
    lemma_auto_spec_u128_to_from_le_bytes();
    lemma_auto_spec_u64_to_from_le_bytes();
    let bytes = pool_encoding(pool);
    assert(bytes.subrange(0, 16) =~= spec_u128_to_le_bytes(pool.pending_rewards));
    assert(bytes.subrange(16, 32) =~= spec_u128_to_le_bytes(pool.inc_token_supply));
    assert(bytes.subrange(32, 40) =~= spec_u64_to_le_bytes(pool.last_reward_block));
    assert(bytes.subrange(40, 56) =~= spec_u128_to_le_bytes(pool.acc_reward_per_share));
}

/// A user's record is read back as it was written.
pub proof fn lemma_user_round_trip(user: UserInfo)
    ensures
        user_decoding(user_encoding(user)) == Some(user),
{
    lemma_auto_spec_u128_to_from_le_bytes();
    let bytes = user_encoding(user);
    assert(bytes.subrange(0, 16) =~= spec_u128_to_le_bytes(user.locked));
    assert(bytes.subrange(16, 32) =~= spec_u128_to_le_bytes(user.debt));
}

/// What the bytes of a pool are read as where a user's record is expected.
pub proof fn lemma_pool_as_user(pool: RewardPool)
    ensures
        user_decoding(pool_encoding(pool)) == Some(
            UserInfo { locked: pool.pending_rewards, debt: pool.inc_token_supply },
        ),
{
    lemma_pool_round_trip(pool);
    lemma_auto_spec_u128_to_from_le_bytes();
    lemma_auto_spec_u64_to_from_le_bytes();
}

// ---------------------------------------------------------------------------------------------
// Records
// ---------------------------------------------------------------------------------------------

/// The settings in a store.
pub open spec fn read_config(contents: Contents) -> Result<ConfigView, StdErrorView> {
    if !contents.contains_key(config_key()) {
        Err(StdErrorView::NotFound { kind: Record::Config })
    } else {
        match config_decoding(contents[config_key()]) {
            Some(config) => Ok(config),
            None => Err(StdErrorView::Unreadable { kind: Record::Config }),
        }
    }
}

/// The reward pool in a store.
pub open spec fn read_pool(contents: Contents) -> Result<RewardPool, StdErrorView> {
    if !contents.contains_key(pool_key()) {
        Err(StdErrorView::NotFound { kind: Record::RewardPool })
    } else {
        match pool_decoding(contents[pool_key()]) {
            Some(pool) => Ok(pool),
            None => Err(StdErrorView::Unreadable { kind: Record::RewardPool }),
        }
    }
}

/// A user's record in a store; who has none has nothing locked.
pub open spec fn read_user(contents: Contents, address: Seq<char>) -> UserInfo {
    if contents.contains_key(user_key(address)) {
        match user_decoding(contents[user_key(address)]) {
            Some(user) => user,
            None => UserInfo { locked: 0, debt: 0 },
        }
    } else {
        UserInfo { locked: 0, debt: 0 }
    }
}

/// A user's hashed viewing key in a store.
pub open spec fn read_viewing_key(contents: Contents, address: Seq<char>) -> Option<Seq<u8>> {
    if contents.contains_key(viewing_key_key(address)) {
        Some(contents[viewing_key_key(address)])
    } else {
        None
    }
}

/// A store after the settings were written.
pub open spec fn write_config(contents: Contents, config: ConfigView) -> Contents {
    contents.insert(config_key(), config_encoding(config))
}

/// A store after the reward pool was written.
pub open spec fn write_pool(contents: Contents, pool: RewardPool) -> Contents {
    contents.insert(pool_key(), pool_encoding(pool))
}

/// A store after a bare number was written in the place of the reward pool.
pub open spec fn write_bare_pool(contents: Contents, value: u128) -> Contents {
    contents.insert(pool_key(), spec_u128_to_le_bytes(value))
}

/// A store after a user's record was written.
pub open spec fn write_user(contents: Contents, address: Seq<char>, user: UserInfo) -> Contents {
    contents.insert(user_key(address), user_encoding(user))
}

/// A store after a user's hashed viewing key was written.
pub open spec fn write_viewing_key(
    contents: Contents,
    address: Seq<char>,
    hash: Seq<u8>,
) -> Contents {
    contents.insert(viewing_key_key(address), hash)
}

// ---------------------------------------------------------------------------------------------
// Outside calls
// ---------------------------------------------------------------------------------------------

/// Why a record could not be loaded: nothing is kept, or the decoder failed with the given text.
#[derive(Debug)]
pub enum LoadError {
    Missing,
    Malformed(String),
}

/// The settings as a tuple, in the order in which they are encoded.
pub type ConfigRecord = (
    String,
    (String, String),
    (String, String),
    u64,
    u64,
    String,
    Vec<u8>,
    bool,
);

/// What a [`ConfigRecord`] holds.
pub open spec fn record_view(record: ConfigRecord) -> ConfigView {
    ConfigView {
        admin: record.0@,
        reward_token: Snip20View { address: record.1.0@, contract_hash: record.1.1@ },
        inc_token: Snip20View { address: record.2.0@, contract_hash: record.2.1@ },
        pool_claim_height: record.3,
        end_by_height: record.4,
        viewing_key: record.5@,
        prng_seed: record.6@,
        is_stopped: record.7,
    }
}

/// Calls `secret_toolkit::storage::TypedStore::load` for the settings. Trusted: the call fails as
/// not found exactly where nothing is kept under the key; it returns settings with whose encoding
/// the bytes kept there begin, and fails as malformed exactly where there are none such. The text
/// of a decoding failure is left open: it differs between machines.
#[verifier::external_body]
fn load_config_record(storage: &MemoryStorage, key: &[u8]) -> (loaded: Result<
    ConfigRecord,
    LoadError,
>)
    ensures
        match loaded {
            Ok(record) => {
                &&& stored(*storage).contains_key(key@)
                &&& holds_config(stored(*storage)[key@], record_view(record))
            },
            Err(LoadError::Missing) => !stored(*storage).contains_key(key@),
            Err(LoadError::Malformed(_)) => {
                &&& stored(*storage).contains_key(key@)
                &&& config_decoding(stored(*storage)[key@]) is None
            },
        },
{
    match TypedStore::<ConfigRecord, MemoryStorage>::attach(storage).load(key) {
        Ok(record) => Ok(record),
        Err(secret_cosmwasm_std::StdError::NotFound { .. }) => Err(LoadError::Missing),
        Err(secret_cosmwasm_std::StdError::ParseErr { msg, .. }) => Err(LoadError::Malformed(msg)),
        Err(error) => Err(LoadError::Malformed(error.to_string())),
    }
}

/// Calls `secret_toolkit::storage::TypedStoreMut::store` for the settings. Trusted: the encoded
/// settings are kept under the key, nothing else changes, and what is kept there holds those
/// settings: the lengths of texts in memory can be written down. The encoder does not fail on
/// such a tuple.
#[verifier::external_body]
fn store_config_record(storage: &mut MemoryStorage, key: &[u8], record: &ConfigRecord)
    ensures
        stored(*final(storage)) == stored(*old(storage)).insert(
            key@,
            config_encoding(record_view(*record)),
        ),
        holds_config(stored(*final(storage))[key@], record_view(*record)),
{
    let _ = TypedStoreMut::attach(storage).store(key, record);
}

/// Calls `secret_toolkit::storage::TypedStore::load` for four numbers. Trusted: the call fails as
/// not found exactly where nothing is kept under the key, and as malformed exactly where fewer
/// bytes are kept there than the numbers take; otherwise the numbers are read from those bytes,
/// least significant byte first. The text of a decoding failure is left open.
#[verifier::external_body]
fn load_pool_record(storage: &MemoryStorage, key: &[u8]) -> (loaded: Result<
    (u128, u128, u64, u128),
    LoadError,
>)
    ensures
        match loaded {
            Ok(record) => {
                &&& stored(*storage).contains_key(key@)
                &&& stored(*storage)[key@].len() >= 56
                &&& record.0 == spec_u128_from_le_bytes(stored(*storage)[key@].subrange(0, 16))
                &&& record.1 == spec_u128_from_le_bytes(stored(*storage)[key@].subrange(16, 32))
                &&& record.2 == spec_u64_from_le_bytes(stored(*storage)[key@].subrange(32, 40))
                &&& record.3 == spec_u128_from_le_bytes(stored(*storage)[key@].subrange(40, 56))
            },
            Err(LoadError::Missing) => !stored(*storage).contains_key(key@),
            Err(LoadError::Malformed(_)) => {
                &&& stored(*storage).contains_key(key@)
                &&& stored(*storage)[key@].len() < 56
            },
        },
{
    match TypedStore::<(u128, u128, u64, u128), MemoryStorage>::attach(storage).load(key) {
        Ok(record) => Ok(record),
        Err(secret_cosmwasm_std::StdError::NotFound { .. }) => Err(LoadError::Missing),
        Err(secret_cosmwasm_std::StdError::ParseErr { msg, .. }) => Err(LoadError::Malformed(msg)),
        Err(error) => Err(LoadError::Malformed(error.to_string())),
    }
}

/// Calls `secret_toolkit::storage::TypedStoreMut::store` for four numbers. Trusted: their bytes,
/// one number after the other and least significant byte first, are kept under the key, and
/// nothing else changes. The encoder does not fail on numbers.
#[verifier::external_body]
fn store_pool_record(storage: &mut MemoryStorage, key: &[u8], record: &(u128, u128, u64, u128))
    ensures
        stored(*final(storage)) == stored(*old(storage)).insert(
            key@,
            spec_u128_to_le_bytes(record.0) + spec_u128_to_le_bytes(record.1)
                + spec_u64_to_le_bytes(record.2) + spec_u128_to_le_bytes(record.3),
        ),
{
    let _ = TypedStoreMut::attach(storage).store(key, record);
}

/// Calls `secret_toolkit::storage::TypedStoreMut::store` for one number. Trusted: its bytes, least
/// significant first, are kept under the key, and nothing else changes. The encoder does not fail
/// on a number.
#[verifier::external_body]
fn store_number(storage: &mut MemoryStorage, key: &[u8], number: &u128)
    ensures
        stored(*final(storage)) == stored(*old(storage)).insert(
            key@,
            spec_u128_to_le_bytes(*number),
        ),
{
    let _ = TypedStoreMut::attach(storage).store(key, number);
}

/// Calls `secret_toolkit::storage::TypedStore::load` for two numbers, and gives nothing where the
/// call fails. Trusted: it succeeds exactly where at least as many bytes are kept under the key
/// as the numbers take, and reads the numbers from those bytes, least significant byte first.
#[verifier::external_body]
fn load_user_record(storage: &MemoryStorage, key: &[u8]) -> (loaded: Option<(u128, u128)>)
    ensures
        match loaded {
            Some(record) => {
                &&& stored(*storage).contains_key(key@)
                &&& stored(*storage)[key@].len() >= 32
                &&& record.0 == spec_u128_from_le_bytes(stored(*storage)[key@].subrange(0, 16))
                &&& record.1 == spec_u128_from_le_bytes(stored(*storage)[key@].subrange(16, 32))
            },
            None => !stored(*storage).contains_key(key@) || stored(*storage)[key@].len() < 32,
        },
{
    TypedStore::<(u128, u128), MemoryStorage>::attach(storage).load(key).ok()
}

/// Calls `secret_toolkit::storage::TypedStoreMut::store` for two numbers. Trusted: their bytes,
/// one number after the other and least significant byte first, are kept under the key, and
/// nothing else changes. The encoder does not fail on numbers.
#[verifier::external_body]
fn store_user_record(storage: &mut MemoryStorage, key: &[u8], record: &(u128, u128))
    ensures
        stored(*final(storage)) == stored(*old(storage)).insert(
            key@,
            spec_u128_to_le_bytes(record.0) + spec_u128_to_le_bytes(record.1),
        ),
{
    let _ = TypedStoreMut::attach(storage).store(key, record);
}

/// Calls `get` on a `secret_cosmwasm_storage::ReadonlyPrefixedStorage`. Trusted: it returns what
/// is kept under the namespaced key, if anything is. A namespace of more than 65535 bytes would
/// make the call panic.
#[verifier::external_body]
fn get_in_namespace(namespace: &[u8], storage: &MemoryStorage, key: &[u8]) -> (value: Option<
    Vec<u8>,
>)
    requires
        namespace@.len() <= 0xFFFF,
    ensures
        match value {
            Some(bytes) => {
                &&& stored(*storage).contains_key(namespaced(namespace@, key@))
                &&& stored(*storage)[namespaced(namespace@, key@)] == bytes@
            },
            None => !stored(*storage).contains_key(namespaced(namespace@, key@)),
        },
{
    ReadonlyPrefixedStorage::new(namespace, storage).get(key)
}

/// Calls `set` on a `secret_cosmwasm_storage::PrefixedStorage`. Trusted: the value is kept under
/// the namespaced key, and nothing else changes. A namespace of more than 65535 bytes would make
/// the call panic.
#[verifier::external_body]
fn set_in_namespace(namespace: &[u8], storage: &mut MemoryStorage, key: &[u8], value: &[u8])
    requires
        namespace@.len() <= 0xFFFF,
    ensures
        stored(*final(storage)) == stored(*old(storage)).insert(
            namespaced(namespace@, key@),
            value@,
        ),
{
    PrefixedStorage::new(namespace, storage).set(key, value)
}

// ---------------------------------------------------------------------------------------------
// Loading and storing
// ---------------------------------------------------------------------------------------------

/// The error with which a failure to load a record is answered. The decoder's text is handed on.
pub open spec fn load_refusal(kind: Record, failure: LoadError) -> StdError {
    match failure {
        LoadError::Missing => StdError::NotFound { kind },
        LoadError::Malformed(msg) => StdError::Unreadable { kind, msg },
    }
}

/// Answers a failure to load a record.
pub fn refusal(kind: Record, failure: LoadError) -> (error: StdError)
    ensures
        error == load_refusal(kind, failure),
{
    match failure {
        LoadError::Missing => StdError::NotFound { kind },
        LoadError::Malformed(msg) => StdError::Unreadable { kind, msg },
    }
}

/// The settings in a loaded record, or why there are none.
pub fn config_from(loaded: Result<ConfigRecord, LoadError>) -> (config: Result<Config, StdError>)
    ensures
        match loaded {
            Ok(record) => config is Ok && config->Ok_0@ == record_view(record),
            Err(failure) => config == Err::<Config, StdError>(
                load_refusal(Record::Config, failure),
            ),
        },
{
    match loaded {
        Ok(record) => Ok(
            Config {
                admin: record.0,
                reward_token: Snip20 { address: record.1.0, contract_hash: record.1.1 },
                inc_token: Snip20 { address: record.2.0, contract_hash: record.2.1 },
                pool_claim_height: record.3,
                end_by_height: record.4,
                viewing_key: record.5,
                prng_seed: record.6,
                is_stopped: record.7,
            },
        ),
        Err(failure) => Err(refusal(Record::Config, failure)),
    }
}

/// The pool in a loaded record, or why there is none.
pub fn pool_from(loaded: Result<(u128, u128, u64, u128), LoadError>) -> (pool: Result<
    RewardPool,
    StdError,
>)
    ensures
        pool == match loaded {
            Ok(record) => Ok::<RewardPool, StdError>(
                RewardPool {
                    pending_rewards: record.0,
                    inc_token_supply: record.1,
                    last_reward_block: record.2,
                    acc_reward_per_share: record.3,
                },
            ),
            Err(failure) => Err::<RewardPool, StdError>(load_refusal(Record::RewardPool, failure)),
        },
{
    match loaded {
        Ok(record) => Ok(
            RewardPool {
                pending_rewards: record.0,
                inc_token_supply: record.1,
                last_reward_block: record.2,
                acc_reward_per_share: record.3,
            },
        ),
        Err(failure) => Err(refusal(Record::RewardPool, failure)),
    }
}

/// Loads the settings. The text of a decoding failure is the decoder's; it differs between
/// machines.
pub fn load_config(storage: &MemoryStorage) -> (loaded: Result<Config, StdError>)
    ensures
        match loaded {
            Ok(config) => read_config(stored(*storage)) == Ok::<ConfigView, StdErrorView>(config@),
            Err(error) => read_config(stored(*storage)) == Err::<ConfigView, StdErrorView>(error@),
        },
{
    let loaded = load_config_record(storage, CONFIG_KEY.as_bytes());
    proof {
        if loaded is Ok {
            lemma_config_decoding(stored(*storage)[config_key()], record_view(loaded->Ok_0));
        }
    }
    config_from(loaded)
}

/// Stores the settings.
pub fn store_config(storage: &mut MemoryStorage, config: &Config)
    ensures
        stored(*final(storage)) == write_config(stored(*old(storage)), config@),
        read_config(stored(*final(storage))) == Ok::<ConfigView, StdErrorView>(config@),
{
    let record = (
        config.admin.clone(),
        (config.reward_token.address.clone(), config.reward_token.contract_hash.clone()),
        (config.inc_token.address.clone(), config.inc_token.contract_hash.clone()),
        config.pool_claim_height,
        config.end_by_height,
        config.viewing_key.clone(),
        config.prng_seed.clone(),
        config.is_stopped,
    );
    assert(record_view(record) == config@);
    store_config_record(storage, CONFIG_KEY.as_bytes(), &record);
    proof {
        lemma_config_decoding(stored(*storage)[config_key()], config@);
    }
}

/// Loads the reward pool. The text of a decoding failure is the decoder's; it differs between
/// machines.
pub fn load_pool(storage: &MemoryStorage) -> (loaded: Result<RewardPool, StdError>)
    ensures
        match loaded {
            Ok(pool) => read_pool(stored(*storage)) == Ok::<RewardPool, StdErrorView>(pool),
            Err(error) => read_pool(stored(*storage)) == Err::<RewardPool, StdErrorView>(error@),
        },
{
    pool_from(load_pool_record(storage, REWARD_POOL_KEY.as_bytes()))
}

/// Stores the reward pool.
pub fn store_pool(storage: &mut MemoryStorage, pool: &RewardPool)
    ensures
        stored(*final(storage)) == write_pool(stored(*old(storage)), *pool),
{
    let record = (
        pool.pending_rewards,
        pool.inc_token_supply,
        pool.last_reward_block,
        pool.acc_reward_per_share,
    );
    store_pool_record(storage, REWARD_POOL_KEY.as_bytes(), &record);
}

/// Stores a bare number in the place of the reward pool.
pub fn store_bare_pool(storage: &mut MemoryStorage, value: u128)
    ensures
        stored(*final(storage)) == write_bare_pool(stored(*old(storage)), value),
{
    store_number(storage, REWARD_POOL_KEY.as_bytes(), &value);
}

/// Loads a user's record; a user who has none has nothing locked.
pub fn load_user(storage: &MemoryStorage, address: &String) -> (user: UserInfo)
    ensures
        user == read_user(stored(*storage), address@),
{
    match load_user_record(storage, address.as_str().as_bytes()) {
        Some(record) => UserInfo { locked: record.0, debt: record.1 },
        None => UserInfo { locked: 0, debt: 0 },
    }
}

/// Stores a user's record.
pub fn store_user(storage: &mut MemoryStorage, address: &String, user: &UserInfo)
    ensures
        stored(*final(storage)) == write_user(stored(*old(storage)), address@, *user),
{
    let record = (user.locked, user.debt);
    store_user_record(storage, address.as_str().as_bytes(), &record);
}

/// Loads a user's hashed viewing key.
pub fn load_viewing_key(storage: &MemoryStorage, address: &String) -> (hash: Option<Vec<u8>>)
    ensures
        match hash {
            Some(bytes) => read_viewing_key(stored(*storage), address@) == Some(bytes@),
            None => read_viewing_key(stored(*storage), address@) is None,
        },
{
    proof {
        lemma_namespace_length();
    }
    get_in_namespace(VIEWING_KEY_KEY.as_bytes(), storage, address.as_str().as_bytes())
}

/// Stores a user's hashed viewing key.
pub fn store_viewing_key(storage: &mut MemoryStorage, address: &String, hash: &[u8])
    ensures
        stored(*final(storage)) == write_viewing_key(stored(*old(storage)), address@, hash@),
{
    proof {
        lemma_namespace_length();
    }
    set_in_namespace(VIEWING_KEY_KEY.as_bytes(), storage, address.as_str().as_bytes(), hash)
}

} // verus!
