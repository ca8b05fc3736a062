//! Custodial-pool redemption engine: signature-authorised, replay-protected
//! payouts from a shared token pool.
//!
//! An off-chain authority authorises a payout by signing the Keccak-256
//! digest of the claim's canonical message. The engine checks that the pool
//! can pay, that the authorisation is fresh, that the nonce is the next in
//! the payer's sequence and that the signature is the authority's; then it
//! advances the nonce and pays out of the pool, all or nothing.

pub mod accounts;
pub mod admin;
pub mod bytes;
pub mod claim;
pub mod errors;
pub mod events;
pub mod keccak;
pub mod laws;
pub mod lottery;
pub mod message;
pub mod state;
pub mod utils;

pub use accounts::{
    BurnNft, Claim, ClaimRank, Config, InitAddressManager, InitConfig, InitRankAddressManager,
    Lottery,
};
pub use admin::{init_address_manager, init_config, init_rank_address_manager};
pub use claim::{claim, claim_rank, settle_claim, settle_claim_rank, Settlement, EXPIRY_WINDOW};
pub use errors::{ClaimErrorCode, StakeErrorCode};
pub use events::{BurnEvent, ClaimEvent, ClaimRankEvent, LotteryEvent};
pub use lottery::{burn_nft, lottery};
pub use state::{AccountManager, AccountMeta, Clock, GlobalConfig, Identity, Instruction, TokenAccount};
pub use utils::{transfer_token_from_pool, transfer_token_to_pool, verify_ed25519_ix, TokenTransfer};
