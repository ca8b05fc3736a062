//! Bootstrap of the configuration and of the per-payer nonce records.

use vstd::prelude::*;
use crate::accounts::{InitAddressManager, InitConfig, InitRankAddressManager};
use crate::errors::StakeErrorCode;
use crate::state::{AccountManager, GlobalConfig, Identity};

verus! {

/// The outcome of the checks on a bootstrap request, in order: the slot must
/// be empty, the signer must be the administrator, and neither the authority
/// key nor the asset identifier may be the null identity.
pub open spec fn init_config_admission(
    ctx: InitConfig,
    signer_address: Identity,
    token_mint_address: Identity,
) -> Result<(), StakeErrorCode> {
    if ctx.global_config is Some {
        Err(StakeErrorCode::AlreadyInited)
    } else if ctx.signer@ != ctx.admin@ {
        Err(StakeErrorCode::NotSigner)
    } else if signer_address.spec_is_zero() || token_mint_address.spec_is_zero() {
        Err(StakeErrorCode::ZeroAddressError)
    } else {
        Ok(())
    }
}

/// Writes the configuration: the authority's public key, the asset
/// identifier and the lottery fee. Succeeds once, for the administrator; a
/// rejected request leaves the slot as it was.
pub fn init_config(
    ctx: &mut InitConfig,
    signer_address: Identity,
    token_mint_address: Identity,
    lottery_fees: u64,
) -> (res: Result<(), StakeErrorCode>)
    ensures
        res == init_config_admission(*old(ctx), signer_address, token_mint_address),
        res is Err ==> *final(ctx) == *old(ctx),
        res is Ok ==> *final(ctx) == (InitConfig {
            global_config: Some(
                GlobalConfig { signer_address, token_mint_address, lottery_fees },
            ),
            ..*old(ctx)
        }),
{
    if ctx.global_config.is_some() {
        return Err(StakeErrorCode::AlreadyInited);
    }
    if !ctx.signer.same_as(&ctx.admin) {
        return Err(StakeErrorCode::NotSigner);
    }
    if signer_address.is_zero() || token_mint_address.is_zero() {
        return Err(StakeErrorCode::ZeroAddressError);
    }
    ctx.global_config = Some(GlobalConfig { signer_address, token_mint_address, lottery_fees });
    Ok(())
}

/// Creates the payer's nonce record for standard claims, with nonce zero.
/// A record that exists is never reset: the request fails and the record
/// stays as it was.
pub fn init_address_manager(ctx: &mut InitAddressManager) -> (res: Result<(), StakeErrorCode>)
    ensures
        old(ctx).address_manager is None ==> res == Ok::<(), StakeErrorCode>(()) && *final(ctx)
            == (InitAddressManager {
            address_manager: Some(AccountManager { nonce: 0 }),
            ..*old(ctx)
        }),
        old(ctx).address_manager is Some ==> res == Err::<(), StakeErrorCode>(
            StakeErrorCode::AlreadyInited,
        ) && *final(ctx) == *old(ctx),
{
    if ctx.address_manager.is_some() {
        return Err(StakeErrorCode::AlreadyInited);
    }
    ctx.address_manager = Some(AccountManager { nonce: 0 });
    Ok(())
}

/// Creates the payer's nonce record for rank claims, with nonce zero.
/// A record that exists is never reset: the request fails and the record
/// stays as it was.
pub fn init_rank_address_manager(ctx: &mut InitRankAddressManager) -> (res: Result<
    (),
    StakeErrorCode,
>)
    ensures
        old(ctx).address_manager is None ==> res == Ok::<(), StakeErrorCode>(()) && *final(ctx)
            == (InitRankAddressManager {
            address_manager: Some(AccountManager { nonce: 0 }),
            ..*old(ctx)
        }),
        old(ctx).address_manager is Some ==> res == Err::<(), StakeErrorCode>(
            StakeErrorCode::AlreadyInited,
        ) && *final(ctx) == *old(ctx),
{
    if ctx.address_manager.is_some() {
        return Err(StakeErrorCode::AlreadyInited);
    }
    ctx.address_manager = Some(AccountManager { nonce: 0 });
    Ok(())
}

} // verus!
