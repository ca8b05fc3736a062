//! The redemption engine: verification and settlement of claims.

use vstd::prelude::*;
use crate::accounts::{Claim, ClaimRank};
use crate::errors::ClaimErrorCode;
use crate::events::{ClaimEvent, ClaimRankEvent};
use crate::keccak::{hash, keccak256};
use crate::message::{build_claim_message, build_claim_rank_message, claim_message, claim_rank_message};
use crate::state::{AccountManager, Clock, Identity, TokenAccount};
use crate::utils::ed25519::{signature_verified, verify_signature};
use crate::utils::transfer::{transfer_token_from_pool, TokenTransfer};

verus! {

/// Seconds for which an authorisation stays valid after its timestamp.
pub const EXPIRY_WINDOW: u64 = 300;

/// The current time in seconds, as the engine reads the host's clock: the
/// signed clock value reinterpreted as unsigned.
pub open spec fn spec_current_timestamp(clock: Clock) -> u64 {
    clock.unix_timestamp as u64
}

/// The current time in seconds.
pub fn current_timestamp(clock: &Clock) -> (now: u64)
    ensures
        now == spec_current_timestamp(*clock),
{
    clock.unix_timestamp as u64
}

/// The checks that a claim passes through, in order; the first that fails
/// names the error. `total` is the sum of the legs, `stored_nonce` the nonce
/// of the last accepted claim, `signed` whether the authority's signature
/// over the claim's digest has been verified.
pub open spec fn admission(
    total: int,
    pool_balance: u64,
    timestamp: u64,
    now: u64,
    nonce: u64,
    stored_nonce: u64,
    signed: bool,
) -> Result<(), ClaimErrorCode> {
    if total > pool_balance {
        Err(ClaimErrorCode::InsufficientBalance)
    } else if timestamp + EXPIRY_WINDOW < now {
        Err(ClaimErrorCode::InvalidTimestamp)
    } else if nonce != stored_nonce + 1 {
        Err(ClaimErrorCode::InvalidNonce)
    } else if !signed {
        Err(ClaimErrorCode::SigVerificationFailed)
    } else {
        Ok(())
    }
}

/// What an accepted claim leaves for the host to do: the transfers out of
/// the pool, in the order of the legs, and the record to emit.
#[derive(Debug, PartialEq, Eq)]
pub struct Settlement<E> {
    pub transfers: Vec<TokenTransfer>,
    pub event: E,
}

/// The outcome of the checks on a standard claim whose canonical message
/// has the digest `digest`.
pub open spec fn claim_admission(
    ctx: Claim,
    nonce: u64,
    amount_one: u64,
    amount_two: u64,
    amount_three: u64,
    timestamp: u64,
    digest: Seq<u8>,
    signature: Seq<u8>,
) -> Result<(), ClaimErrorCode> {
    admission(
        amount_one + amount_two + amount_three,
        ctx.pool_token_account.amount,
        timestamp,
        spec_current_timestamp(ctx.clock),
        nonce,
        ctx.address_manager.nonce,
        signature_verified(
            ctx.instructions@,
            ctx.global_config.signer_address@,
            digest,
            signature,
        ),
    )
}

/// The accounts after a standard claim has been accepted: the nonce record
/// holds the claim's nonce and the pool has paid out the three legs.
pub open spec fn claim_settled(
    ctx: Claim,
    nonce: u64,
    amount_one: u64,
    amount_two: u64,
    amount_three: u64,
) -> Claim {
    Claim {
        address_manager: AccountManager { nonce },
        pool_token_account: TokenAccount {
            amount: (ctx.pool_token_account.amount - (amount_one + amount_two + amount_three)) as u64,
            ..ctx.pool_token_account
        },
        ..ctx
    }
}

/// One leg of a settlement: `amount` tokens from the pool to `to`, signed
/// for by the pool authority.
pub open spec fn pool_payout(
    pool: TokenAccount,
    to: Identity,
    amount: u64,
    authority: Identity,
    bump: u8,
) -> TokenTransfer {
    TokenTransfer { from: pool.key, to, authority, amount, signer_bump: Some(bump) }
}

/// The three legs of a standard claim, in order.
pub open spec fn claim_transfers(
    ctx: Claim,
    amount_one: u64,
    amount_two: u64,
    amount_three: u64,
) -> Seq<TokenTransfer> {
    seq![
        pool_payout(
            ctx.pool_token_account,
            ctx.output_one_account,
            amount_one,
            ctx.global_account,
            ctx.global_account_bump,
        ),
        pool_payout(
            ctx.pool_token_account,
            ctx.output_sec_account,
            amount_two,
            ctx.global_account,
            ctx.global_account_bump,
        ),
        pool_payout(
            ctx.pool_token_account,
            ctx.output_third_account,
            amount_three,
            ctx.global_account,
            ctx.global_account_bump,
        ),
    ]
}

/// The record of a settled standard claim: the request as accepted, with
/// the accounts that the three legs were paid to.
pub open spec fn claim_event(
    ctx: Claim,
    nonce: u64,
    amount_one: u64,
    amount_two: u64,
    amount_three: u64,
    order_type: u64,
    timestamp: u64,
) -> ClaimEvent {
    ClaimEvent {
        payer: ctx.payer,
        nonce,
        order_type,
        amount_one,
        amount_two,
        amount_three,
        output_one: ctx.output_one_account,
        output_two: ctx.output_sec_account,
        output_three: ctx.output_third_account,
        timestamp,
    }
}

/// The canonical message of a standard claim on these accounts.
pub open spec fn claim_message_of(
    ctx: Claim,
    nonce: u64,
    amount_one: u64,
    amount_two: u64,
    amount_three: u64,
    order_type: u64,
    timestamp: u64,
) -> Seq<u8> {
    claim_message(
        ctx.payer@,
        ctx.output_one_account@,
        ctx.output_sec_account@,
        ctx.output_third_account@,
        order_type,
        amount_one,
        amount_two,
        amount_three,
        timestamp,
        nonce,
    )
}

/// Checks and settles a standard claim whose canonical message has the
/// digest `digest`.
///
/// The claim is accepted exactly when [`claim_admission`] is `Ok`. Then the
/// nonce record advances to `nonce`, the pool pays out the three legs, and
/// the transfers and the record are returned. Otherwise the first failed
/// check is returned as the error and the accounts stay as they were.
pub fn settle_claim(
    ctx: &mut Claim,
    nonce: u64,
    amount_one: u64,
    amount_two: u64,
    amount_three: u64,
    order_type: u64,
    timestamp: u64,
    digest: &[u8; 32],
    signature: &[u8; 64],
) -> (res: Result<Settlement<ClaimEvent>, ClaimErrorCode>)
    ensures
        claim_admission(
            *old(ctx),
            nonce,
            amount_one,
            amount_two,
            amount_three,
            timestamp,
            digest@,
            signature@,
        ) matches Err(e) ==> res == Err::<Settlement<ClaimEvent>, ClaimErrorCode>(e) && *final(ctx)
            == *old(ctx),
        claim_admission(
            *old(ctx),
            nonce,
            amount_one,
            amount_two,
            amount_three,
            timestamp,
            digest@,
            signature@,
        ) is Ok ==> {
            &&& res matches Ok(settlement)
            &&& settlement.transfers@ == claim_transfers(
                *old(ctx),
                amount_one,
                amount_two,
                amount_three,
            )
            &&& settlement.event == claim_event(
                *old(ctx),
                nonce,
                amount_one,
                amount_two,
                amount_three,
                order_type,
                timestamp,
            )
            &&& *final(ctx) == claim_settled(*old(ctx), nonce, amount_one, amount_two, amount_three)
        },
{
    let total: u128 = amount_one as u128 + amount_two as u128 + amount_three as u128;
    if total > ctx.pool_token_account.amount as u128 {
        return Err(ClaimErrorCode::InsufficientBalance);
    }
    let now = current_timestamp(&ctx.clock);
    if timestamp as u128 + (EXPIRY_WINDOW as u128) < now as u128 {
        return Err(ClaimErrorCode::InvalidTimestamp);
    }
    // Work on copies of the nonce record and the pool; commit at the end.
    let mut manager = ctx.address_manager;
    let accepted = manager.check_and_advance(nonce)?;
    verify_signature(&ctx.instructions, &ctx.global_config.signer_address, digest, signature)?;
    let mut pool = ctx.pool_token_account;
    let bump = ctx.global_account_bump;
    let first = transfer_token_from_pool(
        &mut pool,
        ctx.output_one_account,
        amount_one,
        &ctx.global_account,
        bump,
    )?;
    let second = transfer_token_from_pool(
        &mut pool,
        ctx.output_sec_account,
        amount_two,
        &ctx.global_account,
        bump,
    )?;
    let third = transfer_token_from_pool(
        &mut pool,
        ctx.output_third_account,
        amount_three,
        &ctx.global_account,
        bump,
    )?;
    let mut transfers: Vec<TokenTransfer> = Vec::new();
    transfers.push(first);
    transfers.push(second);
    transfers.push(third);
    let event = ClaimEvent {
        payer: ctx.payer,
        nonce: accepted,
        order_type,
        amount_one,
        amount_two,
        amount_three,
        output_one: ctx.output_one_account,
        output_two: ctx.output_sec_account,
        output_three: ctx.output_third_account,
        timestamp,
    };
    ctx.address_manager = manager;
    ctx.pool_token_account = pool;
    assert(transfers@ =~= claim_transfers(*old(ctx), amount_one, amount_two, amount_three));
    Ok(Settlement { transfers, event })
}

/// Verifies and settles a standard claim: `amount_one`, `amount_two` and
/// `amount_three` are paid from the pool to the three recipient accounts if
/// the pool can pay them, the authorisation is fresh, `nonce` is the next in
/// the payer's sequence and `signature` is the authority's signature over
/// the Keccak-256 digest of the claim's canonical message.
///
/// The outcome is that of [`settle_claim`] for that digest.
pub fn claim(
    ctx: &mut Claim,
    nonce: u64,
    amount_one: u64,
    amount_two: u64,
    amount_three: u64,
    order_type: u64,
    timestamp: u64,
    signature: [u8; 64],
) -> (res: Result<Settlement<ClaimEvent>, ClaimErrorCode>)
    ensures
        claim_admission(
            *old(ctx),
            nonce,
            amount_one,
            amount_two,
            amount_three,
            timestamp,
            keccak256(
                claim_message_of(
                    *old(ctx),
                    nonce,
                    amount_one,
                    amount_two,
                    amount_three,
                    order_type,
                    timestamp,
                ),
            ),
            signature@,
        ) matches Err(e) ==> res == Err::<Settlement<ClaimEvent>, ClaimErrorCode>(e) && *final(ctx)
            == *old(ctx),
        claim_admission(
            *old(ctx),
            nonce,
            amount_one,
            amount_two,
            amount_three,
            timestamp,
            keccak256(
                claim_message_of(
                    *old(ctx),
                    nonce,
                    amount_one,
                    amount_two,
                    amount_three,
                    order_type,
                    timestamp,
                ),
            ),
            signature@,
        ) is Ok ==> {
            &&& res matches Ok(settlement)
            &&& settlement.transfers@ == claim_transfers(
                *old(ctx),
                amount_one,
                amount_two,
                amount_three,
            )
            &&& settlement.event == claim_event(
                *old(ctx),
                nonce,
                amount_one,
                amount_two,
                amount_three,
                order_type,
                timestamp,
            )
            &&& *final(ctx) == claim_settled(*old(ctx), nonce, amount_one, amount_two, amount_three)
        },
{
    let msg = build_claim_message(
        &ctx.payer,
        &ctx.output_one_account,
        &ctx.output_sec_account,
        &ctx.output_third_account,
        order_type,
        amount_one,
        amount_two,
        amount_three,
        timestamp,
        nonce,
    );
    let digest = hash(msg.as_slice());
    settle_claim(
        ctx,
        nonce,
        amount_one,
        amount_two,
        amount_three,
        order_type,
        timestamp,
        &digest,
        &signature,
    )
}

/// The outcome of the checks on a rank claim whose canonical message has
/// the digest `digest`. The start and end time are signed but not checked
/// against the clock: that policy is the authority's.
pub open spec fn claim_rank_admission(
    ctx: ClaimRank,
    nonce: u64,
    amount: u64,
    timestamp: u64,
    digest: Seq<u8>,
    signature: Seq<u8>,
) -> Result<(), ClaimErrorCode> {
    admission(
        amount as int,
        ctx.pool_token_account.amount,
        timestamp,
        spec_current_timestamp(ctx.clock),
        nonce,
        ctx.address_rank_manager.nonce,
        signature_verified(
            ctx.instructions@,
            ctx.global_config.signer_address@,
            digest,
            signature,
        ),
    )
}

/// The accounts after a rank claim has been accepted.
pub open spec fn claim_rank_settled(ctx: ClaimRank, nonce: u64, amount: u64) -> ClaimRank {
    ClaimRank {
        address_rank_manager: AccountManager { nonce },
        pool_token_account: TokenAccount {
            amount: (ctx.pool_token_account.amount - amount) as u64,
            ..ctx.pool_token_account
        },
        ..ctx
    }
}

/// The single leg of a rank claim.
pub open spec fn claim_rank_transfers(ctx: ClaimRank, amount: u64) -> Seq<TokenTransfer> {
    seq![
        pool_payout(
            ctx.pool_token_account,
            ctx.output_one_account,
            amount,
            ctx.global_account,
            ctx.global_account_bump,
        ),
    ]
}

/// The record of a settled rank claim.
pub open spec fn claim_rank_event(
    ctx: ClaimRank,
    nonce: u64,
    amount: u64,
    timestamp: u64,
    start_time: u64,
    end_time: u64,
) -> ClaimRankEvent {
    ClaimRankEvent { payer: ctx.payer, nonce, amount, start_time, end_time, timestamp }
}

/// The canonical message of a rank claim on these accounts.
pub open spec fn claim_rank_message_of(
    ctx: ClaimRank,
    nonce: u64,
    amount: u64,
    timestamp: u64,
    start_time: u64,
    end_time: u64,
) -> Seq<u8> {
    claim_rank_message(
        ctx.payer@,
        ctx.output_one_account@,
        start_time,
        end_time,
        amount,
        timestamp,
        nonce,
    )
}

/// Checks and settles a rank claim whose canonical message has the digest
/// `digest`.
///
/// The claim is accepted exactly when [`claim_rank_admission`] is `Ok`. Then
/// the nonce record advances to `nonce`, the pool pays out the leg, and the
/// transfer and the record are returned. Otherwise the first failed check is
/// returned as the error and the accounts stay as they were.
pub fn settle_claim_rank(
    ctx: &mut ClaimRank,
    nonce: u64,
    amount: u64,
    timestamp: u64,
    start_time: u64,
    end_time: u64,
    digest: &[u8; 32],
    signature: &[u8; 64],
) -> (res: Result<Settlement<ClaimRankEvent>, ClaimErrorCode>)
    ensures
        claim_rank_admission(*old(ctx), nonce, amount, timestamp, digest@, signature@) matches Err(
            e,
        ) ==> res == Err::<Settlement<ClaimRankEvent>, ClaimErrorCode>(e) && *final(ctx) == *old(ctx),
        claim_rank_admission(*old(ctx), nonce, amount, timestamp, digest@, signature@) is Ok ==> {
            &&& res matches Ok(settlement)
            &&& settlement.transfers@ == claim_rank_transfers(*old(ctx), amount)
            &&& settlement.event == claim_rank_event(
                *old(ctx),
                nonce,
                amount,
                timestamp,
                start_time,
                end_time,
            )
            &&& *final(ctx) == claim_rank_settled(*old(ctx), nonce, amount)
        },
{
    if amount > ctx.pool_token_account.amount {
        return Err(ClaimErrorCode::InsufficientBalance);
    }
    let now = current_timestamp(&ctx.clock);
    if timestamp as u128 + (EXPIRY_WINDOW as u128) < now as u128 {
        return Err(ClaimErrorCode::InvalidTimestamp);
    }
    // Work on copies of the nonce record and the pool; commit at the end.
    let mut manager = ctx.address_rank_manager;
    let accepted = manager.check_and_advance(nonce)?;
    verify_signature(&ctx.instructions, &ctx.global_config.signer_address, digest, signature)?;
    let mut pool = ctx.pool_token_account;
    let leg = transfer_token_from_pool(
        &mut pool,
        ctx.output_one_account,
        amount,
        &ctx.global_account,
        ctx.global_account_bump,
    )?;
    let mut transfers: Vec<TokenTransfer> = Vec::new();
    transfers.push(leg);
    let event = ClaimRankEvent {
        payer: ctx.payer,
        nonce: accepted,
        amount,
        start_time,
        end_time,
        timestamp,
    };
    ctx.address_rank_manager = manager;
    ctx.pool_token_account = pool;
    assert(transfers@ =~= claim_rank_transfers(*old(ctx), amount));
    Ok(Settlement { transfers, event })
}

/// Verifies and settles a rank claim: `amount` is paid from the pool to the
/// recipient account if the pool can pay it, the authorisation is fresh,
/// `nonce` is the next in the payer's rank sequence and `signature` is the
/// authority's signature over the Keccak-256 digest of the claim's canonical
/// message.
///
/// The outcome is that of [`settle_claim_rank`] for that digest.
pub fn claim_rank(
    ctx: &mut ClaimRank,
    nonce: u64,
    amount: u64,
    timestamp: u64,
    start_time: u64,
    end_time: u64,
    signature: [u8; 64],
) -> (res: Result<Settlement<ClaimRankEvent>, ClaimErrorCode>)
    ensures
        claim_rank_admission(
            *old(ctx),
            nonce,
            amount,
            timestamp,
            keccak256(
                claim_rank_message_of(*old(ctx), nonce, amount, timestamp, start_time, end_time),
            ),
            signature@,
        ) matches Err(e) ==> res == Err::<Settlement<ClaimRankEvent>, ClaimErrorCode>(e)
            && *final(ctx) == *old(ctx),
        claim_rank_admission(
            *old(ctx),
            nonce,
            amount,
            timestamp,
            keccak256(
                claim_rank_message_of(*old(ctx), nonce, amount, timestamp, start_time, end_time),
            ),
            signature@,
        ) is Ok ==> {
            &&& res matches Ok(settlement)
            &&& settlement.transfers@ == claim_rank_transfers(*old(ctx), amount)
            &&& settlement.event == claim_rank_event(
                *old(ctx),
                nonce,
                amount,
                timestamp,
                start_time,
                end_time,
            )
            &&& *final(ctx) == claim_rank_settled(*old(ctx), nonce, amount)
        },
{
    let msg = build_claim_rank_message(
        &ctx.payer,
        &ctx.output_one_account,
        start_time,
        end_time,
        amount,
        timestamp,
        nonce,
    );
    let digest = hash(msg.as_slice());
    settle_claim_rank(ctx, nonce, amount, timestamp, start_time, end_time, &digest, &signature)
}

} // verus!
