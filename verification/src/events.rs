//! Records emitted for audit; the engine never reads them back.

use vstd::prelude::*;
use crate::state::Identity;

verus! {

/// A lottery entry was paid for.
#[derive(Clone, Debug, PartialEq, Eq)]
pub struct LotteryEvent {
    pub payer: Identity,
    pub nft_mint: Identity,
    pub block_number: u64,
    pub nft_name: String,
    pub lottery_fee: u64,
}

/// A standard claim was settled.
#[derive(Clone, Copy, Debug, PartialEq, Eq)]
pub struct ClaimEvent {
    pub payer: Identity,
    pub nonce: u64,
    pub order_type: u64,
    pub amount_one: u64,
    pub amount_two: u64,
    pub amount_three: u64,
    pub output_one: Identity,
    pub output_two: Identity,
    pub output_three: Identity,
    pub timestamp: u64,
}

/// A rank claim was settled.
#[derive(Clone, Copy, Debug, PartialEq, Eq)]
pub struct ClaimRankEvent {
    pub payer: Identity,
    pub nonce: u64,
    pub amount: u64,
    pub start_time: u64,
    pub end_time: u64,
    pub timestamp: u64,
}

/// A token burn was announced.
#[derive(Clone, Debug, PartialEq, Eq)]
pub struct BurnEvent {
    pub payer: Identity,
    pub nft_mint: Identity,
    pub timestamp: u64,
    pub nft_name: String,
}

} // verus!
