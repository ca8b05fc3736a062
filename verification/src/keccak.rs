//! Keccak-256 hashing through the ledger SDK.

use vstd::prelude::*;

verus! {

/// The Keccak-256 digest of a byte sequence.
pub uninterp spec fn keccak256(data: Seq<u8>) -> Seq<u8>;

/// Hashes `data` with `anchor_lang::solana_program::keccak::hash` and returns
/// the 32 digest bytes. Trusted: the digest is taken to be a function of the
/// input bytes alone, which [`keccak256`] names.
#[verifier::external_body]
pub(crate) fn hash(data: &[u8]) -> (digest: [u8; 32])
    ensures
        digest@ == keccak256(data@),
{
    anchor_lang::solana_program::keccak::hash(data).to_bytes()
}

} // verus!
