//! Viewing keys: secrets with which users read their own data.

use vstd::prelude::*;
use vstd::string::StringExecFns;
use vstd::utf8::encode_utf8;

use crate::constants::{VIEWING_KEY_PREFIX, VIEWING_KEY_SIZE};
use crate::crypto::{
    base64_text, first_random_bytes, random_bytes, sha_256, sha_256_digest, to_base64,
};
use crate::env::Env;

verus! {

/// A viewing key.
#[derive(Debug)]
pub struct ViewingKey(pub String);

impl View for ViewingKey {
    type V = Seq<char>;

    open spec fn view(&self) -> Seq<char> {
        self.0@
    }
}

/// What the contract keeps of a viewing key.
pub open spec fn key_hash(key: Seq<char>) -> Seq<u8> {
    sha_256_digest(encode_utf8(key))
}

/// The bytes of a number, most significant first.
pub open spec fn big_endian(n: u64) -> Seq<u8> {
    seq![
        (n as int / 0x100_0000_0000_0000) as u8,
        (n as int / 0x1_0000_0000_0000 % 0x100) as u8,
        (n as int / 0x100_0000_0000 % 0x100) as u8,
        (n as int / 0x1_0000_0000 % 0x100) as u8,
        (n as int / 0x100_0000 % 0x100) as u8,
        (n as int / 0x1_0000 % 0x100) as u8,
        (n as int / 0x100 % 0x100) as u8,
        (n as int % 0x100) as u8,
    ]
}

/// What a new key is drawn from, besides the contract's seed: the block's height and time, the
/// sender, and what the sender adds.
pub open spec fn key_entropy(env: Env, entropy: Seq<u8>) -> Seq<u8> {
    big_endian(env.block.height) + big_endian(env.block.time) + encode_utf8(env.message.sender@)
        + entropy
}

/// The key that a transaction generates.
pub open spec fn generated_key(env: Env, seed: Seq<u8>, entropy: Seq<u8>) -> Seq<char> {
    VIEWING_KEY_PREFIX@ + base64_text(
        sha_256_digest(first_random_bytes(seed, key_entropy(env, entropy))),
    )
}

/// Appends the bytes of a number, most significant first.
fn push_big_endian(bytes: &mut Vec<u8>, n: u64)
    ensures
        final(bytes)@ == old(bytes)@ + big_endian(n),
{
    bytes.push((n / 0x100_0000_0000_0000) as u8);
    bytes.push((n / 0x1_0000_0000_0000 % 0x100) as u8);
    bytes.push((n / 0x100_0000_0000 % 0x100) as u8);
    bytes.push((n / 0x1_0000_0000 % 0x100) as u8);
    bytes.push((n / 0x100_0000 % 0x100) as u8);
    bytes.push((n / 0x1_0000 % 0x100) as u8);
    bytes.push((n / 0x100 % 0x100) as u8);
    bytes.push((n % 0x100) as u8);
    assert(bytes@ =~= old(bytes)@ + big_endian(n));
}

/// Compares two byte strings in a time that depends on their lengths alone.
pub fn slices_match(a: &[u8], b: &[u8]) -> (equal: bool)
    ensures
        equal == (a@ == b@),
{
    if a.len() != b.len() {
        return false;
    }
    let mut difference: u8 = 0;
    let mut i: usize = 0;
    while i < a.len()
        invariant
            a@.len() == b@.len(),
            i <= a@.len(),
            difference == 0 <==> (forall|j: int| 0 <= j < i ==> a@[j] == b@[j]),
        decreases a@.len() - i,
    {
        let x: u8 = a[i];
        let y: u8 = b[i];
        let before: u8 = difference;
        difference = before | (x ^ y);
        assert((before | (x ^ y)) == 0 <==> before == 0 && x == y) by (bit_vector);
        i += 1;
    }
    assert(difference == 0 ==> a@ =~= b@);
    difference == 0
}

impl ViewingKey {
    /// Generates a key.
    pub fn new(env: &Env, seed: &[u8], entropy: &[u8]) -> (key: ViewingKey)
        ensures
            key@ == generated_key(*env, seed@, entropy@),
    {
        let mut rng_entropy: Vec<u8> = Vec::new();
        push_big_endian(&mut rng_entropy, env.block.height);
        push_big_endian(&mut rng_entropy, env.block.time);
        rng_entropy.extend_from_slice(env.message.sender.as_str().as_bytes());
        rng_entropy.extend_from_slice(entropy);
        assert(rng_entropy@ =~= key_entropy(*env, entropy@));
        let random = random_bytes(seed, rng_entropy.as_slice());
        let digest = sha_256(random.as_slice());
        let mut key = VIEWING_KEY_PREFIX.to_owned();
        key.append(to_base64(digest.as_slice()).as_str());
        ViewingKey(key)
    }

    /// What the contract keeps of this key.
    pub fn to_hashed(&self) -> (hash: [u8; VIEWING_KEY_SIZE])
        ensures
            hash@ == key_hash(self@),
    {
        sha_256(self.0.as_str().as_bytes())
    }

    /// Whether this is the key of which the given hash was kept.
    pub fn check_viewing_key(&self, hashed: &[u8]) -> (matches: bool)
        ensures
            matches == (key_hash(self@) == hashed@),
    {
        let mine = self.to_hashed();
        slices_match(mine.as_slice(), hashed)
    }
}

} // verus!
