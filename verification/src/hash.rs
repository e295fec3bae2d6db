//! The genesis hash: the first difficulty target of the contract.

use sha2::Digest;
use sha2::Sha256;
use vstd::prelude::*;

verus! {

/// Length in bytes of a SHA-256 digest.
pub const DIGEST_LEN: usize = 32;

/// The SHA-256 digest of `data`.
pub uninterp spec fn sha256_digest(data: Seq<u8>) -> Seq<u8>;

/// SHA-256 applied twice: the digest of the digest of `data`.
pub open spec fn double_sha256(data: Seq<u8>) -> Seq<u8> {
    sha256_digest(sha256_digest(data))
}

/// Calls `sha2::Sha256::digest`. Trusted: the result is the SHA-256 digest of
/// `data`, a function of the bytes of `data` alone, and it is 32 bytes long.
#[verifier::external_body]
fn sha256(data: &[u8]) -> (digest: Vec<u8>)
    ensures
        digest@ == sha256_digest(data@),
        digest@.len() == DIGEST_LEN,
{
    Sha256::digest(data).to_vec()
}

/// Equal references have equal genesis hashes.
pub proof fn lemma_genesis_hash_deterministic(first: Seq<u8>, second: Seq<u8>)
    requires
        first == second,
    ensures
        double_sha256(first) == double_sha256(second),
{
}

/// Derives the initial difficulty target from the bytes of the output
/// reference that the genesis transaction consumes.
pub fn genesis_hash(output_reference: &[u8]) -> (hash: Vec<u8>)
    ensures
        hash@ == double_sha256(output_reference@),
        hash@.len() == DIGEST_LEN,
{
    let inner = sha256(output_reference);
    sha256(inner.as_slice())
}

} // verus!
