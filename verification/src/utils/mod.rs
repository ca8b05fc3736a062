//! Helpers of the redemption engine: signature checking and pool transfers.

pub mod ed25519;
pub mod transfer;

pub use ed25519::verify_ed25519_ix;
pub use transfer::{transfer_token_from_pool, transfer_token_to_pool, TokenTransfer};
