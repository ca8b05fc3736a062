//! Error kinds reported by the administrative and the redemption operations.

use vstd::prelude::*;

verus! {

/// Failures of the administrative operations.
#[derive(Clone, Copy, Debug, PartialEq, Eq, Structural)]
pub enum StakeErrorCode {
    /// The caller is not the administrator.
    NotSigner,
    /// The round is not valid.
    InvalidRound,
    /// The configuration has already been initialised.
    AlreadyInited,
    /// Signature verification failed.
    SigVerificationFailed,
    /// A required identity is the all-zero identity.
    ZeroAddressError,
}

/// Failures of the redemption operations.
#[derive(Clone, Copy, Debug, PartialEq, Eq, Structural)]
pub enum ClaimErrorCode {
    /// The amount is not valid.
    InvalidAmount,
    /// The operation was not approved.
    NotApproved,
    /// The authorisation does not verify against the authority key.
    SigVerificationFailed,
    /// The requested disbursement exceeds the pool balance.
    InsufficientBalance,
    /// The authorisation is older than the expiry window allows.
    InvalidTimestamp,
    /// The nonce is not the stored nonce plus one.
    InvalidNonce,
}

impl StakeErrorCode {
    /// The message that goes with the error.
    pub open spec fn spec_message(self) -> Seq<char> {
        match self {
            StakeErrorCode::NotSigner => "the caller is not signer"@,
            StakeErrorCode::InvalidRound => "Invalid round"@,
            StakeErrorCode::AlreadyInited => "Already been initialized"@,
            StakeErrorCode::SigVerificationFailed => "Signature verification failed."@,
            StakeErrorCode::ZeroAddressError => "ZeroAddressError"@,
        }
    }

    /// The message that goes with the error.
    pub fn message(&self) -> (msg: &'static str)
        ensures
            msg@ == self.spec_message(),
    {
        match self {
            StakeErrorCode::NotSigner => "the caller is not signer",
            StakeErrorCode::InvalidRound => "Invalid round",
            StakeErrorCode::AlreadyInited => "Already been initialized",
            StakeErrorCode::SigVerificationFailed => "Signature verification failed.",
            StakeErrorCode::ZeroAddressError => "ZeroAddressError",
        }
    }
}

impl ClaimErrorCode {
    /// The message that goes with the error.
    pub open spec fn spec_message(self) -> Seq<char> {
        match self {
            ClaimErrorCode::InvalidAmount => "Invalid Amount"@,
            ClaimErrorCode::NotApproved => "Not Approved"@,
            ClaimErrorCode::SigVerificationFailed => "Signature verification failed"@,
            ClaimErrorCode::InsufficientBalance => "Insufficient Balance"@,
            ClaimErrorCode::InvalidTimestamp => "Invalid Timestamp"@,
            ClaimErrorCode::InvalidNonce => "Invalid Nonce"@,
        }
    }

    /// The message that goes with the error.
    pub fn message(&self) -> (msg: &'static str)
        ensures
            msg@ == self.spec_message(),
    {
        match self {
            ClaimErrorCode::InvalidAmount => "Invalid Amount",
            ClaimErrorCode::NotApproved => "Not Approved",
            ClaimErrorCode::SigVerificationFailed => "Signature verification failed",
            ClaimErrorCode::InsufficientBalance => "Insufficient Balance",
            ClaimErrorCode::InvalidTimestamp => "Invalid Timestamp",
            ClaimErrorCode::InvalidNonce => "Invalid Nonce",
        }
    }
}

} // verus!
