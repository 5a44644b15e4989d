//! Digests, random bytes and base64.

use secret_cosmwasm_std::Binary;
use vstd::prelude::*;

use crate::constants::VIEWING_KEY_SIZE;

verus! {

/// The SHA-256 digest of the given bytes.
pub uninterp spec fn sha_256_digest(data: Seq<u8>) -> Seq<u8>;

/// The first random bytes that a seed and an entropy give.
pub uninterp spec fn first_random_bytes(seed: Seq<u8>, entropy: Seq<u8>) -> Seq<u8>;

/// The base64 text of the given bytes.
pub uninterp spec fn base64_text(data: Seq<u8>) -> Seq<char>;

/// Calls `secret_toolkit::crypto::sha_256`. Trusted: the bytes alone decide the digest.
#[verifier::external_body]
pub(crate) fn sha_256(data: &[u8]) -> (digest: [u8; VIEWING_KEY_SIZE])
    ensures
        digest@ == sha_256_digest(data@),
{
    secret_toolkit::crypto::sha_256(data)
}

/// Calls `rand_bytes` on a new `secret_toolkit::crypto::Prng`. Trusted: the seed and the entropy
/// alone decide the bytes.
#[verifier::external_body]
pub(crate) fn random_bytes(seed: &[u8], entropy: &[u8]) -> (bytes: [u8; 32])
    ensures
        bytes@ == first_random_bytes(seed@, entropy@),
{
    secret_toolkit::crypto::Prng::new(seed, entropy).rand_bytes()
}

/// Calls `secret_cosmwasm_std::Binary::to_base64`. Trusted: the bytes alone decide the text.
#[verifier::external_body]
pub(crate) fn to_base64(data: &[u8]) -> (text: String)
    ensures
        text@ == base64_text(data@),
{
    Binary(data.to_vec()).to_base64()
}

} // verus!
