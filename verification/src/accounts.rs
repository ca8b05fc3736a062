//! The accounts that each operation works on, as plain values.
//!
//! The host loads these from the ledger before an operation. After a
//! successful one it stores the nonce record back and carries out the
//! returned transfers, which bring the token balances on the ledger to the
//! ones recorded here. A failed operation leaves the accounts untouched and
//! returns nothing to carry out.

use vstd::prelude::*;
use crate::state::{AccountManager, Clock, GlobalConfig, Identity, Instruction, TokenAccount};

verus! {

/// Accounts of an operation that needs none.
#[derive(Clone, Copy, Debug, PartialEq, Eq, Structural)]
pub struct Config {}

/// Accounts of the administrative bootstrap.
#[derive(Clone, Copy, Debug, PartialEq, Eq)]
pub struct InitConfig {
    /// The configuration slot; empty until the bootstrap has run.
    pub global_config: Option<GlobalConfig>,
    /// Derived address that acts as authority over the pool.
    pub global_account: Identity,
    /// Identity that signed the request.
    pub signer: Identity,
    /// Identity of the administrator, the only one allowed to bootstrap.
    pub admin: Identity,
}

/// Accounts of a lottery entry.
#[derive(Clone, Copy, Debug, PartialEq, Eq)]
pub struct Lottery {
    pub global_config: GlobalConfig,
    /// Derived address that acts as authority over the pool.
    pub global_account: Identity,
    pub token_mint: Identity,
    /// The shared custodial pool.
    pub pool_token_account: TokenAccount,
    pub payer: Identity,
    /// The payer's own token account, which the fee is taken from.
    pub user_token_account: TokenAccount,
    /// Externally minted token that the entry is made for.
    pub nft_mint: Identity,
    pub clock: Clock,
}

/// Accounts of a standard claim.
#[derive(Clone, Debug, PartialEq, Eq)]
pub struct Claim {
    pub payer: Identity,
    /// Derived address that acts as authority over the pool.
    pub global_account: Identity,
    /// Bump of the derived address of `global_account`.
    pub global_account_bump: u8,
    /// The payer's nonce record for standard claims.
    pub address_manager: AccountManager,
    pub global_config: GlobalConfig,
    pub token_mint: Identity,
    /// The shared custodial pool.
    pub pool_token_account: TokenAccount,
    /// Token accounts that the three legs are paid to.
    pub output_one_account: Identity,
    pub output_sec_account: Identity,
    pub output_third_account: Identity,
    /// Holders behind the second and third recipient accounts. The engine
    /// carries them and does not read them.
    pub output_sec_origin_account: Identity,
    pub output_third_origin_account: Identity,
    /// The instructions of the enclosing transaction, in order.
    pub instructions: Vec<Instruction>,
    pub clock: Clock,
}

/// Accounts of a rank claim.
#[derive(Clone, Debug, PartialEq, Eq)]
pub struct ClaimRank {
    pub payer: Identity,
    /// Derived address that acts as authority over the pool.
    pub global_account: Identity,
    /// Bump of the derived address of `global_account`.
    pub global_account_bump: u8,
    /// The payer's nonce record for rank claims.
    pub address_rank_manager: AccountManager,
    pub global_config: GlobalConfig,
    pub token_mint: Identity,
    /// The shared custodial pool.
    pub pool_token_account: TokenAccount,
    /// Token account that the single leg is paid to.
    pub output_one_account: Identity,
    /// The instructions of the enclosing transaction, in order.
    pub instructions: Vec<Instruction>,
    pub clock: Clock,
}

/// Accounts of the creation of a payer's nonce record for standard claims.
#[derive(Clone, Copy, Debug, PartialEq, Eq)]
pub struct InitAddressManager {
    pub payer: Identity,
    /// The record's slot; empty until created.
    pub address_manager: Option<AccountManager>,
}

/// Accounts of the creation of a payer's nonce record for rank claims.
#[derive(Clone, Copy, Debug, PartialEq, Eq)]
pub struct InitRankAddressManager {
    pub payer: Identity,
    /// The record's slot; empty until created.
    pub address_manager: Option<AccountManager>,
}

/// Accounts of a burn notification.
#[derive(Clone, Copy, Debug, PartialEq, Eq)]
pub struct BurnNft {
    pub payer: Identity,
    pub nft_mint: Identity,
    pub clock: Clock,
}

} // verus!
