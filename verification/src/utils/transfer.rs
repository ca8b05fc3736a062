//! Movements of tokens into and out of the custodial pool.
//!
//! Each function updates the balances that it is given and returns the
//! transfer that the host ledger has to carry out. A payment into the pool
//! debits the holder's account and credits the pool. A payment out of the
//! pool debits the pool; the recipient is known by its address only, and
//! its balance is the host's to credit.

use vstd::prelude::*;
use crate::errors::ClaimErrorCode;
use crate::state::{Identity, TokenAccount};

verus! {

/// A transfer of tokens for the host ledger to carry out.
#[derive(Clone, Copy, Debug, PartialEq, Eq)]
pub struct TokenTransfer {
    /// Account debited.
    pub from: Identity,
    /// Account credited.
    pub to: Identity,
    /// Identity that authorises the debit.
    pub authority: Identity,
    /// Number of tokens moved.
    pub amount: u64,
    /// Bump of the pool authority's derived address when the program signs
    /// for it; `None` when the authority signs the transaction itself.
    pub signer_bump: Option<u8>,
}

/// An account after `amount` tokens have been paid into it.
pub open spec fn credited(account: TokenAccount, amount: u64) -> TokenAccount {
    TokenAccount { amount: (account.amount + amount) as u64, ..account }
}

/// An account after `amount` tokens have been paid out of it.
pub open spec fn debited(account: TokenAccount, amount: u64) -> TokenAccount {
    TokenAccount { amount: (account.amount - amount) as u64, ..account }
}

/// Whether `amount` tokens can move from the holder's account `from` into
/// the pool `to`: the holder must hold them, and the pool's balance must be
/// able to take them.
pub open spec fn deposit_admission(from: TokenAccount, to: TokenAccount, amount: u64) -> Result<
    (),
    ClaimErrorCode,
> {
    if amount > from.amount {
        Err(ClaimErrorCode::InsufficientBalance)
    } else if to.amount + amount > u64::MAX {
        Err(ClaimErrorCode::InvalidAmount)
    } else {
        Ok(())
    }
}

/// Pays `amount` tokens from a holder's account into the pool, on the
/// holder's own authority: the holder's balance goes down by the amount and
/// the pool's goes up by it. Fails, leaving both as they were, with
/// `InsufficientBalance` when the holder holds less than `amount`, and with
/// `InvalidAmount` when the pool's balance cannot take it.
pub fn transfer_token_to_pool(
    from: &mut TokenAccount,
    to: &mut TokenAccount,
    amount: u64,
    authority: Identity,
) -> (res: Result<TokenTransfer, ClaimErrorCode>)
    ensures
        deposit_admission(*old(from), *old(to), amount) matches Err(e) ==> {
            &&& res == Err::<TokenTransfer, ClaimErrorCode>(e)
            &&& *final(from) == *old(from)
            &&& *final(to) == *old(to)
        },
        deposit_admission(*old(from), *old(to), amount) is Ok ==> {
            &&& *final(from) == debited(*old(from), amount)
            &&& final(from).amount == old(from).amount - amount
            &&& *final(to) == credited(*old(to), amount)
            &&& final(to).amount == old(to).amount + amount
            &&& res == Ok::<TokenTransfer, ClaimErrorCode>(
                TokenTransfer {
                    from: old(from).key,
                    to: old(to).key,
                    authority,
                    amount,
                    signer_bump: None,
                },
            )
        },
{
    if amount > from.amount {
        return Err(ClaimErrorCode::InsufficientBalance);
    }
    if amount > u64::MAX - to.amount {
        return Err(ClaimErrorCode::InvalidAmount);
    }
    from.amount = from.amount - amount;
    to.amount = to.amount + amount;
    Ok(TokenTransfer { from: from.key, to: to.key, authority, amount, signer_bump: None })
}

/// Pays `amount` tokens out of the pool to the account `to`, signed for by
/// the pool authority's derived address. Fails, leaving the pool as it was,
/// exactly when the pool holds less than `amount`.
pub fn transfer_token_from_pool(
    from: &mut TokenAccount,
    to: Identity,
    amount: u64,
    authority: &Identity,
    bump: u8,
) -> (res: Result<TokenTransfer, ClaimErrorCode>)
    ensures
        amount <= old(from).amount ==> {
            &&& *final(from) == debited(*old(from), amount)
            &&& final(from).amount == old(from).amount - amount
            &&& res == Ok::<TokenTransfer, ClaimErrorCode>(
                TokenTransfer {
                    from: old(from).key,
                    to,
                    authority: *authority,
                    amount,
                    signer_bump: Some(bump),
                },
            )
        },
        amount > old(from).amount ==> {
            &&& *final(from) == *old(from)
            &&& res == Err::<TokenTransfer, ClaimErrorCode>(ClaimErrorCode::InsufficientBalance)
        },
{
    if amount > from.amount {
        return Err(ClaimErrorCode::InsufficientBalance);
    }
    from.amount = from.amount - amount;
    Ok(TokenTransfer { from: from.key, to, authority: *authority, amount, signer_bump: Some(bump) })
}

} // verus!
