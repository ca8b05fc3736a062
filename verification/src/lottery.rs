//! Lottery entries and burn notifications: bookkeeping around the pool.

use vstd::prelude::*;
use crate::accounts::{BurnNft, Lottery};
use crate::claim::{current_timestamp, spec_current_timestamp, Settlement};
use crate::events::{BurnEvent, LotteryEvent};
use crate::errors::ClaimErrorCode;
use crate::utils::transfer::{
    credited, debited, deposit_admission, transfer_token_to_pool, TokenTransfer,
};

verus! {

/// Takes a lottery entry: the configured fee goes from the payer's token
/// account into the pool, and the entry is recorded with the host ledger's
/// sequence counter. Returns the transfer to carry out and the record.
///
/// Fails, leaving the accounts as they were, with `InsufficientBalance`
/// when the payer holds less than the fee, and with `InvalidAmount` when the
/// pool's balance cannot take it.
pub fn lottery(ctx: &mut Lottery, nft_name: String) -> (res: Result<
    Settlement<LotteryEvent>,
    ClaimErrorCode,
>)
    ensures
        deposit_admission(
            old(ctx).user_token_account,
            old(ctx).pool_token_account,
            old(ctx).global_config.lottery_fees,
        ) matches Err(e) ==> res == Err::<Settlement<LotteryEvent>, ClaimErrorCode>(e) && *final(ctx) == *old(ctx),
        deposit_admission(
            old(ctx).user_token_account,
            old(ctx).pool_token_account,
            old(ctx).global_config.lottery_fees,
        ) is Ok ==> {
            &&& res matches Ok(entry)
            &&& *final(ctx) == (Lottery {
                user_token_account: debited(
                    old(ctx).user_token_account,
                    old(ctx).global_config.lottery_fees,
                ),
                pool_token_account: credited(
                    old(ctx).pool_token_account,
                    old(ctx).global_config.lottery_fees,
                ),
                ..*old(ctx)
            })
            &&& final(ctx).user_token_account.amount == old(ctx).user_token_account.amount - old(ctx).global_config.lottery_fees
            &&& final(ctx).pool_token_account.amount == old(ctx).pool_token_account.amount + old(ctx).global_config.lottery_fees
            &&& entry.transfers@ == seq![
                TokenTransfer {
                    from: old(ctx).user_token_account.key,
                    to: old(ctx).pool_token_account.key,
                    authority: old(ctx).payer,
                    amount: old(ctx).global_config.lottery_fees,
                    signer_bump: None,
                },
            ]
            &&& entry.event == (LotteryEvent {
                payer: old(ctx).payer,
                nft_mint: old(ctx).nft_mint,
                block_number: old(ctx).clock.slot,
                nft_name,
                lottery_fee: old(ctx).global_config.lottery_fees,
            })
        },
{
    let block_number = ctx.clock.slot;
    let fee = ctx.global_config.lottery_fees;
    let payer = ctx.payer;
    let transfer = transfer_token_to_pool(
        &mut ctx.user_token_account,
        &mut ctx.pool_token_account,
        fee,
        payer,
    )?;
    let mut transfers: Vec<TokenTransfer> = Vec::new();
    transfers.push(transfer);
    let event = LotteryEvent {
        payer,
        nft_mint: ctx.nft_mint,
        block_number,
        nft_name,
        lottery_fee: fee,
    };
    assert(transfers@ =~= seq![transfer]);
    Ok(Settlement { transfers, event })
}

/// Announces the burn of a token: the record carries the payer, the token,
/// the current time and the given name. Nothing else changes.
pub fn burn_nft(ctx: &BurnNft, nft_name: String) -> (event: BurnEvent)
    ensures
        event == (BurnEvent {
            payer: ctx.payer,
            nft_mint: ctx.nft_mint,
            timestamp: spec_current_timestamp(ctx.clock),
            nft_name,
        }),
{
    BurnEvent {
        payer: ctx.payer,
        nft_mint: ctx.nft_mint,
        timestamp: current_timestamp(&ctx.clock),
        nft_name,
    }
}

} // verus!
