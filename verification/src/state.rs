//! Plain-value records of the ledger state that the engine reads and updates.

use vstd::prelude::*;
use crate::bytes::{all_zero, bytes_equal};
use crate::errors::ClaimErrorCode;

verus! {

/// A 32-byte identity: an account address or a public key.
#[derive(Clone, Copy, Debug, PartialEq, Eq)]
pub struct Identity {
    pub bytes: [u8; 32],
}

impl View for Identity {
    type V = Seq<u8>;

    open spec fn view(&self) -> Seq<u8> {
        self.bytes@
    }
}

impl Identity {
    /// Wraps 32 raw bytes.
    pub fn new(bytes: [u8; 32]) -> (id: Identity)
        ensures
            id.bytes == bytes,
            id@ == bytes@,
    {
        Identity { bytes }
    }

    /// The raw bytes of the identity.
    pub fn to_bytes(&self) -> (bytes: [u8; 32])
        ensures
            bytes == self.bytes,
            bytes@ == self@,
    {
        self.bytes
    }

    /// The all-zero identity is the null identity.
    pub open spec fn spec_is_zero(&self) -> bool {
        forall|i: int| 0 <= i < self@.len() ==> self@[i] == 0
    }

    /// Tells whether this is the null identity.
    pub fn is_zero(&self) -> (zero: bool)
        ensures
            zero == self.spec_is_zero(),
    {
        let bytes = self.bytes.as_slice();
        assert(bytes@ == self@);
        all_zero(bytes)
    }

    /// Tells whether two identities hold the same bytes.
    pub fn same_as(&self, other: &Identity) -> (same: bool)
        ensures
            same == (self@ == other@),
    {
        bytes_equal(self.bytes.as_slice(), other.bytes.as_slice())
    }
}

/// Per-owner nonce record; one exists for each owner and claim class.
#[derive(Clone, Copy, Debug, PartialEq, Eq, Structural)]
pub struct AccountManager {
    /// The nonce of the last accepted claim; zero before the first.
    pub nonce: u64,
}

impl AccountManager {
    /// The nonce that the next accepted claim must carry.
    pub open spec fn expected_nonce(self) -> int {
        self.nonce + 1
    }

    /// Accepts `requested` if it is the stored nonce plus one, stores it and
    /// returns it. Any other nonce, an old one as well as one further ahead,
    /// is refused with `InvalidNonce` and the record stays as it was.
    pub fn check_and_advance(&mut self, requested: u64) -> (res: Result<u64, ClaimErrorCode>)
        ensures
            requested == old(self).expected_nonce() ==> res == Ok::<u64, ClaimErrorCode>(requested)
                && *final(self) == (AccountManager { nonce: requested }),
            requested != old(self).expected_nonce() ==> res == Err::<u64, ClaimErrorCode>(
                ClaimErrorCode::InvalidNonce,
            ) && *final(self) == *old(self),
    {
        if self.nonce == u64::MAX || requested != self.nonce + 1 {
            return Err(ClaimErrorCode::InvalidNonce);
        }
        self.nonce = requested;
        Ok(requested)
    }
}

/// Process-wide configuration written once at bootstrap.
#[derive(Clone, Copy, Debug, PartialEq, Eq)]
pub struct GlobalConfig {
    /// Public key of the authority whose signature legitimises a claim.
    pub signer_address: Identity,
    /// Identifier of the pooled asset.
    pub token_mint_address: Identity,
    /// Fee charged for a lottery entry.
    pub lottery_fees: u64,
}

/// A token balance held under an address.
#[derive(Clone, Copy, Debug, PartialEq, Eq)]
pub struct TokenAccount {
    /// Address of the account itself.
    pub key: Identity,
    /// Asset that the balance is denominated in.
    pub mint: Identity,
    /// Identity allowed to move the balance.
    pub owner: Identity,
    /// The balance.
    pub amount: u64,
}

/// The host ledger's notion of time.
#[derive(Clone, Copy, Debug, PartialEq, Eq, Structural)]
pub struct Clock {
    /// Monotonically increasing sequence counter of the host ledger.
    pub slot: u64,
    /// Seconds since the epoch.
    pub unix_timestamp: i64,
}

/// An account reference carried by an instruction.
#[derive(Clone, Copy, Debug, PartialEq, Eq)]
pub struct AccountMeta {
    pub pubkey: Identity,
    pub is_signer: bool,
    pub is_writable: bool,
}

/// One instruction of the enclosing transaction, as the host exposes it.
#[derive(Clone, Debug, PartialEq, Eq)]
pub struct Instruction {
    /// Program that the instruction is addressed to.
    pub program_id: Identity,
    /// Accounts handed to the program.
    pub accounts: Vec<AccountMeta>,
    /// Opaque payload.
    pub data: Vec<u8>,
}

} // verus!
