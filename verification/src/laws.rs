//! What holds of the redemption engine on every input: the laws that its
//! callers may rely on, proved from the definitions that the contracts of
//! the operations are stated in.

use vstd::prelude::*;
use crate::accounts::{Claim, ClaimRank};
use crate::claim::{
    claim_admission, claim_message_of, claim_rank_admission, claim_rank_message_of,
    claim_rank_settled, claim_settled, spec_current_timestamp, EXPIRY_WINDOW,
};
use crate::errors::ClaimErrorCode;
use crate::keccak::keccak256;
use crate::state::Instruction;
use crate::utils::ed25519::{
    ed25519_ix_verifies, lemma_ed25519_instruction_layout, signature_verified,
};

verus! {

/// A standard claim is accepted whenever the pool can pay the three legs,
/// the authorisation is no older than the expiry window, the nonce is the
/// stored nonce plus one and the signature is verified. The pool balance
/// then decreases by the sum of the legs and the stored nonce becomes the
/// claim's nonce.
pub proof fn law_valid_claim_is_settled(
    ctx: Claim,
    nonce: u64,
    amount_one: u64,
    amount_two: u64,
    amount_three: u64,
    timestamp: u64,
    digest: Seq<u8>,
    signature: Seq<u8>,
)
    requires
        timestamp + EXPIRY_WINDOW >= spec_current_timestamp(ctx.clock),
        amount_one + amount_two + amount_three <= ctx.pool_token_account.amount,
        nonce == ctx.address_manager.nonce + 1,
        signature_verified(
            ctx.instructions@,
            ctx.global_config.signer_address@,
            digest,
            signature,
        ),
    ensures
        claim_admission(
            ctx,
            nonce,
            amount_one,
            amount_two,
            amount_three,
            timestamp,
            digest,
            signature,
        ) == Ok::<(), ClaimErrorCode>(()),
        claim_settled(ctx, nonce, amount_one, amount_two, amount_three).pool_token_account.amount
            == ctx.pool_token_account.amount - (amount_one + amount_two + amount_three),
        claim_settled(ctx, nonce, amount_one, amount_two, amount_three).address_manager.nonce
            == nonce,
{
}

/// A rank claim is accepted whenever the pool can pay it, the authorisation
/// is no older than the expiry window, the nonce is the stored nonce plus
/// one and the signature is verified. The pool balance then decreases by the
/// amount and the stored nonce becomes the claim's nonce.
pub proof fn law_valid_rank_claim_is_settled(
    ctx: ClaimRank,
    nonce: u64,
    amount: u64,
    timestamp: u64,
    digest: Seq<u8>,
    signature: Seq<u8>,
)
    requires
        timestamp + EXPIRY_WINDOW >= spec_current_timestamp(ctx.clock),
        amount <= ctx.pool_token_account.amount,
        nonce == ctx.address_rank_manager.nonce + 1,
        signature_verified(
            ctx.instructions@,
            ctx.global_config.signer_address@,
            digest,
            signature,
        ),
    ensures
        claim_rank_admission(ctx, nonce, amount, timestamp, digest, signature) == Ok::<
            (),
            ClaimErrorCode,
        >(()),
        claim_rank_settled(ctx, nonce, amount).pool_token_account.amount
            == ctx.pool_token_account.amount - amount,
        claim_rank_settled(ctx, nonce, amount).address_rank_manager.nonce == nonce,
{
}

/// Every accepted claim advances the payer's nonce by exactly one and never
/// raises the pool balance: the nonce sequence is strictly increasing and
/// the pool only pays out.
pub proof fn law_accepted_claim_advances_the_nonce(
    ctx: Claim,
    nonce: u64,
    amount_one: u64,
    amount_two: u64,
    amount_three: u64,
    timestamp: u64,
    digest: Seq<u8>,
    signature: Seq<u8>,
)
    requires
        claim_admission(
            ctx,
            nonce,
            amount_one,
            amount_two,
            amount_three,
            timestamp,
            digest,
            signature,
        ) is Ok,
    ensures
        claim_settled(ctx, nonce, amount_one, amount_two, amount_three).address_manager.nonce
            == ctx.address_manager.nonce + 1,
        claim_settled(ctx, nonce, amount_one, amount_two, amount_three).pool_token_account.amount
            + amount_one + amount_two + amount_three == ctx.pool_token_account.amount,
{
}

/// Every accepted rank claim advances the payer's rank nonce by exactly one
/// and never raises the pool balance.
pub proof fn law_accepted_rank_claim_advances_the_nonce(
    ctx: ClaimRank,
    nonce: u64,
    amount: u64,
    timestamp: u64,
    digest: Seq<u8>,
    signature: Seq<u8>,
)
    requires
        claim_rank_admission(ctx, nonce, amount, timestamp, digest, signature) is Ok,
    ensures
        claim_rank_settled(ctx, nonce, amount).address_rank_manager.nonce
            == ctx.address_rank_manager.nonce + 1,
        claim_rank_settled(ctx, nonce, amount).pool_token_account.amount + amount
            == ctx.pool_token_account.amount,
{
}

/// Replay: once a claim has been accepted, a claim with the same nonce on
/// the nonce record that it left is rejected, whatever its signature. The
/// error is `InvalidNonce` unless the pool cannot pay the legs or the
/// authorisation is stale, which are checked first.
pub proof fn law_replay_is_rejected(
    ctx: Claim,
    nonce: u64,
    amount_one: u64,
    amount_two: u64,
    amount_three: u64,
    timestamp: u64,
    digest: Seq<u8>,
    signature: Seq<u8>,
    later: Claim,
    amount_one2: u64,
    amount_two2: u64,
    amount_three2: u64,
    timestamp2: u64,
    digest2: Seq<u8>,
    signature2: Seq<u8>,
)
    requires
        claim_admission(
            ctx,
            nonce,
            amount_one,
            amount_two,
            amount_three,
            timestamp,
            digest,
            signature,
        ) is Ok,
        later.address_manager == claim_settled(
            ctx,
            nonce,
            amount_one,
            amount_two,
            amount_three,
        ).address_manager,
    ensures
        claim_admission(
            later,
            nonce,
            amount_one2,
            amount_two2,
            amount_three2,
            timestamp2,
            digest2,
            signature2,
        ) is Err,
        amount_one2 + amount_two2 + amount_three2 <= later.pool_token_account.amount && timestamp2
            + EXPIRY_WINDOW >= spec_current_timestamp(later.clock) ==> claim_admission(
            later,
            nonce,
            amount_one2,
            amount_two2,
            amount_three2,
            timestamp2,
            digest2,
            signature2,
        ) == Err::<(), ClaimErrorCode>(ClaimErrorCode::InvalidNonce),
{
}

/// Replay of a rank claim: as [`law_replay_is_rejected`], on the rank
/// nonce record.
pub proof fn law_rank_replay_is_rejected(
    ctx: ClaimRank,
    nonce: u64,
    amount: u64,
    timestamp: u64,
    digest: Seq<u8>,
    signature: Seq<u8>,
    later: ClaimRank,
    amount2: u64,
    timestamp2: u64,
    digest2: Seq<u8>,
    signature2: Seq<u8>,
)
    requires
        claim_rank_admission(ctx, nonce, amount, timestamp, digest, signature) is Ok,
        later.address_rank_manager == claim_rank_settled(ctx, nonce, amount).address_rank_manager,
    ensures
        claim_rank_admission(later, nonce, amount2, timestamp2, digest2, signature2) is Err,
        amount2 <= later.pool_token_account.amount && timestamp2 + EXPIRY_WINDOW
            >= spec_current_timestamp(later.clock) ==> claim_rank_admission(
            later,
            nonce,
            amount2,
            timestamp2,
            digest2,
            signature2,
        ) == Err::<(), ClaimErrorCode>(ClaimErrorCode::InvalidNonce),
{
}

/// Skip-ahead: a claim whose nonce is anything but the stored nonce plus
/// one, the stored nonce plus two in particular, is rejected even with a
/// verified signature. The error is `InvalidNonce` unless the pool cannot
/// pay the legs or the authorisation is stale, which are checked first.
pub proof fn law_skipped_nonce_is_rejected(
    ctx: Claim,
    nonce: u64,
    amount_one: u64,
    amount_two: u64,
    amount_three: u64,
    timestamp: u64,
    digest: Seq<u8>,
    signature: Seq<u8>,
)
    requires
        nonce != ctx.address_manager.nonce + 1,
    ensures
        claim_admission(
            ctx,
            nonce,
            amount_one,
            amount_two,
            amount_three,
            timestamp,
            digest,
            signature,
        ) is Err,
        amount_one + amount_two + amount_three <= ctx.pool_token_account.amount && timestamp
            + EXPIRY_WINDOW >= spec_current_timestamp(ctx.clock) ==> claim_admission(
            ctx,
            nonce,
            amount_one,
            amount_two,
            amount_three,
            timestamp,
            digest,
            signature,
        ) == Err::<(), ClaimErrorCode>(ClaimErrorCode::InvalidNonce),
{
}

/// Skip-ahead of a rank claim: as [`law_skipped_nonce_is_rejected`].
pub proof fn law_rank_skipped_nonce_is_rejected(
    ctx: ClaimRank,
    nonce: u64,
    amount: u64,
    timestamp: u64,
    digest: Seq<u8>,
    signature: Seq<u8>,
)
    requires
        nonce != ctx.address_rank_manager.nonce + 1,
    ensures
        claim_rank_admission(ctx, nonce, amount, timestamp, digest, signature) is Err,
        amount <= ctx.pool_token_account.amount && timestamp + EXPIRY_WINDOW
            >= spec_current_timestamp(ctx.clock) ==> claim_rank_admission(
            ctx,
            nonce,
            amount,
            timestamp,
            digest,
            signature,
        ) == Err::<(), ClaimErrorCode>(ClaimErrorCode::InvalidNonce),
{
}

/// An Ed25519 verification instruction speaks for one digest only: if it
/// verifies a signature over one digest under a key, it verifies the same
/// signature under that key over no other digest.
pub proof fn lemma_instruction_binds_digest(
    ix: Instruction,
    pubkey: Seq<u8>,
    sig: Seq<u8>,
    digest: Seq<u8>,
    other: Seq<u8>,
)
    requires
        ed25519_ix_verifies(ix, pubkey, digest, sig),
        other != digest,
    ensures
        !ed25519_ix_verifies(ix, pubkey, other, sig),
{
    if ed25519_ix_verifies(ix, pubkey, other, sig) {
        // Both messages are what the instruction data holds from the
        // message offset on.
        lemma_ed25519_instruction_layout(pubkey, sig, digest);
        lemma_ed25519_instruction_layout(pubkey, sig, other);
    }
}

/// Tamper: take a standard claim whose signature is verified. The same
/// signature, presented with a payer, a recipient, an order type, an amount,
/// a timestamp or a nonce that gives the canonical message another digest,
/// is rejected. The error is `SigVerificationFailed` when the other checks
/// pass.
pub proof fn law_tampered_claim_is_rejected(
    ctx: Claim,
    nonce: u64,
    amount_one: u64,
    amount_two: u64,
    amount_three: u64,
    order_type: u64,
    timestamp: u64,
    signature: Seq<u8>,
    tampered: Claim,
    nonce2: u64,
    amount_one2: u64,
    amount_two2: u64,
    amount_three2: u64,
    order_type2: u64,
    timestamp2: u64,
)
    requires
        tampered.instructions@ == ctx.instructions@,
        tampered.global_config.signer_address@ == ctx.global_config.signer_address@,
        signature_verified(
            ctx.instructions@,
            ctx.global_config.signer_address@,
            keccak256(
                claim_message_of(
                    ctx,
                    nonce,
                    amount_one,
                    amount_two,
                    amount_three,
                    order_type,
                    timestamp,
                ),
            ),
            signature,
        ),
        keccak256(
            claim_message_of(
                tampered,
                nonce2,
                amount_one2,
                amount_two2,
                amount_three2,
                order_type2,
                timestamp2,
            ),
        ) != keccak256(
            claim_message_of(
                ctx,
                nonce,
                amount_one,
                amount_two,
                amount_three,
                order_type,
                timestamp,
            ),
        ),
    ensures
        claim_admission(
            tampered,
            nonce2,
            amount_one2,
            amount_two2,
            amount_three2,
            timestamp2,
            keccak256(
                claim_message_of(
                    tampered,
                    nonce2,
                    amount_one2,
                    amount_two2,
                    amount_three2,
                    order_type2,
                    timestamp2,
                ),
            ),
            signature,
        ) is Err,
        amount_one2 + amount_two2 + amount_three2 <= tampered.pool_token_account.amount
            && timestamp2 + EXPIRY_WINDOW >= spec_current_timestamp(tampered.clock) && nonce2
            == tampered.address_manager.nonce + 1 ==> claim_admission(
            tampered,
            nonce2,
            amount_one2,
            amount_two2,
            amount_three2,
            timestamp2,
            keccak256(
                claim_message_of(
                    tampered,
                    nonce2,
                    amount_one2,
                    amount_two2,
                    amount_three2,
                    order_type2,
                    timestamp2,
                ),
            ),
            signature,
        ) == Err::<(), ClaimErrorCode>(ClaimErrorCode::SigVerificationFailed),
{
    lemma_instruction_binds_digest(
        ctx.instructions@[2],
        ctx.global_config.signer_address@,
        signature,
        keccak256(
            claim_message_of(
                ctx,
                nonce,
                amount_one,
                amount_two,
                amount_three,
                order_type,
                timestamp,
            ),
        ),
        keccak256(
            claim_message_of(
                tampered,
                nonce2,
                amount_one2,
                amount_two2,
                amount_three2,
                order_type2,
                timestamp2,
            ),
        ),
    );
}

/// Tamper with a rank claim: as [`law_tampered_claim_is_rejected`]; the
/// start and end time are among the fields that the signature covers.
pub proof fn law_tampered_rank_claim_is_rejected(
    ctx: ClaimRank,
    nonce: u64,
    amount: u64,
    timestamp: u64,
    start_time: u64,
    end_time: u64,
    signature: Seq<u8>,
    tampered: ClaimRank,
    nonce2: u64,
    amount2: u64,
    timestamp2: u64,
    start_time2: u64,
    end_time2: u64,
)
    requires
        tampered.instructions@ == ctx.instructions@,
        tampered.global_config.signer_address@ == ctx.global_config.signer_address@,
        signature_verified(
            ctx.instructions@,
            ctx.global_config.signer_address@,
            keccak256(claim_rank_message_of(ctx, nonce, amount, timestamp, start_time, end_time)),
            signature,
        ),
        keccak256(
            claim_rank_message_of(tampered, nonce2, amount2, timestamp2, start_time2, end_time2),
        ) != keccak256(
            claim_rank_message_of(ctx, nonce, amount, timestamp, start_time, end_time),
        ),
    ensures
        claim_rank_admission(
            tampered,
            nonce2,
            amount2,
            timestamp2,
            keccak256(
                claim_rank_message_of(
                    tampered,
                    nonce2,
                    amount2,
                    timestamp2,
                    start_time2,
                    end_time2,
                ),
            ),
            signature,
        ) is Err,
        amount2 <= tampered.pool_token_account.amount && timestamp2 + EXPIRY_WINDOW
            >= spec_current_timestamp(tampered.clock) && nonce2
            == tampered.address_rank_manager.nonce + 1 ==> claim_rank_admission(
            tampered,
            nonce2,
            amount2,
            timestamp2,
            keccak256(
                claim_rank_message_of(
                    tampered,
                    nonce2,
                    amount2,
                    timestamp2,
                    start_time2,
                    end_time2,
                ),
            ),
            signature,
        ) == Err::<(), ClaimErrorCode>(ClaimErrorCode::SigVerificationFailed),
{
    lemma_instruction_binds_digest(
        ctx.instructions@[2],
        ctx.global_config.signer_address@,
        signature,
        keccak256(claim_rank_message_of(ctx, nonce, amount, timestamp, start_time, end_time)),
        keccak256(
            claim_rank_message_of(tampered, nonce2, amount2, timestamp2, start_time2, end_time2),
        ),
    );
}

/// Solvency boundary: a claim for exactly the pool balance passes the
/// solvency check and, when otherwise valid, is accepted; a claim for one
/// more than the balance fails with `InsufficientBalance`, whatever else
/// holds of it.
pub proof fn law_solvency_boundary(
    ctx: Claim,
    nonce: u64,
    amount_one: u64,
    amount_two: u64,
    amount_three: u64,
    timestamp: u64,
    digest: Seq<u8>,
    signature: Seq<u8>,
)
    ensures
        amount_one + amount_two + amount_three == ctx.pool_token_account.amount && timestamp
            + EXPIRY_WINDOW >= spec_current_timestamp(ctx.clock) && nonce
            == ctx.address_manager.nonce + 1 && signature_verified(
            ctx.instructions@,
            ctx.global_config.signer_address@,
            digest,
            signature,
        ) ==> claim_admission(
            ctx,
            nonce,
            amount_one,
            amount_two,
            amount_three,
            timestamp,
            digest,
            signature,
        ) == Ok::<(), ClaimErrorCode>(()),
        amount_one + amount_two + amount_three > ctx.pool_token_account.amount ==> claim_admission(
            ctx,
            nonce,
            amount_one,
            amount_two,
            amount_three,
            timestamp,
            digest,
            signature,
        ) == Err::<(), ClaimErrorCode>(ClaimErrorCode::InsufficientBalance),
{
}

/// Solvency boundary of a rank claim: as [`law_solvency_boundary`].
pub proof fn law_rank_solvency_boundary(
    ctx: ClaimRank,
    nonce: u64,
    amount: u64,
    timestamp: u64,
    digest: Seq<u8>,
    signature: Seq<u8>,
)
    ensures
        amount == ctx.pool_token_account.amount && timestamp + EXPIRY_WINDOW
            >= spec_current_timestamp(ctx.clock) && nonce == ctx.address_rank_manager.nonce + 1
            && signature_verified(
            ctx.instructions@,
            ctx.global_config.signer_address@,
            digest,
            signature,
        ) ==> claim_rank_admission(ctx, nonce, amount, timestamp, digest, signature) == Ok::<
            (),
            ClaimErrorCode,
        >(()),
        amount > ctx.pool_token_account.amount ==> claim_rank_admission(
            ctx,
            nonce,
            amount,
            timestamp,
            digest,
            signature,
        ) == Err::<(), ClaimErrorCode>(ClaimErrorCode::InsufficientBalance),
{
}

/// Expiry boundary: an authorisation whose timestamp lies exactly the
/// expiry window before the current time is still fresh, and the claim,
/// when otherwise valid, is accepted; one second older, it fails with
/// `InvalidTimestamp` if the pool can pay. Timestamps in the future are
/// never stale.
pub proof fn law_expiry_boundary(
    ctx: Claim,
    nonce: u64,
    amount_one: u64,
    amount_two: u64,
    amount_three: u64,
    timestamp: u64,
    digest: Seq<u8>,
    signature: Seq<u8>,
)
    requires
        amount_one + amount_two + amount_three <= ctx.pool_token_account.amount,
    ensures
        timestamp + EXPIRY_WINDOW >= spec_current_timestamp(ctx.clock) && nonce
            == ctx.address_manager.nonce + 1 && signature_verified(
            ctx.instructions@,
            ctx.global_config.signer_address@,
            digest,
            signature,
        ) ==> claim_admission(
            ctx,
            nonce,
            amount_one,
            amount_two,
            amount_three,
            timestamp,
            digest,
            signature,
        ) == Ok::<(), ClaimErrorCode>(()),
        timestamp + EXPIRY_WINDOW < spec_current_timestamp(ctx.clock) ==> claim_admission(
            ctx,
            nonce,
            amount_one,
            amount_two,
            amount_three,
            timestamp,
            digest,
            signature,
        ) == Err::<(), ClaimErrorCode>(ClaimErrorCode::InvalidTimestamp),
{
}

/// Expiry boundary of a rank claim: as [`law_expiry_boundary`].
pub proof fn law_rank_expiry_boundary(
    ctx: ClaimRank,
    nonce: u64,
    amount: u64,
    timestamp: u64,
    digest: Seq<u8>,
    signature: Seq<u8>,
)
    requires
        amount <= ctx.pool_token_account.amount,
    ensures
        timestamp + EXPIRY_WINDOW >= spec_current_timestamp(ctx.clock) && nonce
            == ctx.address_rank_manager.nonce + 1 && signature_verified(
            ctx.instructions@,
            ctx.global_config.signer_address@,
            digest,
            signature,
        ) ==> claim_rank_admission(ctx, nonce, amount, timestamp, digest, signature) == Ok::<
            (),
            ClaimErrorCode,
        >(()),
        timestamp + EXPIRY_WINDOW < spec_current_timestamp(ctx.clock) ==> claim_rank_admission(
            ctx,
            nonce,
            amount,
            timestamp,
            digest,
            signature,
        ) == Err::<(), ClaimErrorCode>(ClaimErrorCode::InvalidTimestamp),
{
}

} // verus!
