//! Keccak-256, the hash behind ciphertext handles and content digests.

use sha3::Digest;
use vstd::prelude::*;

verus! {

/// Number of bytes in a Keccak-256 output.
pub const HASH_LEN: usize = 32;

/// The Keccak-256 hash of a byte string, as `sha3::Keccak256` computes it.
pub uninterp spec fn spec_keccak256(data: Seq<u8>) -> Seq<u8>;

/// Hashes `data` with `sha3::Keccak256::digest`.
///
/// Trusted: the result is the Keccak-256 hash of exactly the bytes given,
/// and is 32 bytes long (the output size the hasher is declared with).
#[verifier::external_body]
pub(crate) fn keccak256(data: &[u8]) -> (hash: Vec<u8>)
    ensures
        hash@ == spec_keccak256(data@),
        hash@.len() == HASH_LEN,
{
    sha3::Keccak256::digest(data).to_vec()
}

} // verus!
