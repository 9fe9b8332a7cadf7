//! Token balances and the one primitive that moves funds between them.

use vstd::prelude::*;
use crate::address::Address;
use crate::error::TransferError;

verus! {

/// A balance of one denomination, held by one party.
///
/// A pooled balance is one held by the protocol's control key rather than by a user.
#[derive(Clone, Copy, Debug, PartialEq, Eq)]
pub struct TokenAccount {
    /// The denomination.
    pub mint: Address,
    /// The party whose word moves funds out of this balance.
    pub owner: Address,
    pub amount: u64,
}

impl TokenAccount {
    /// This balance with `amount` taken out.
    pub open spec fn debited(self, amount: u64) -> TokenAccount
        recommends
            amount <= self.amount,
    {
        TokenAccount { amount: (self.amount - amount) as u64, ..self }
    }

    /// This balance with `amount` put in.
    pub open spec fn credited(self, amount: u64) -> TokenAccount
        recommends
            self.amount + amount <= u64::MAX,
    {
        TokenAccount { amount: (self.amount + amount) as u64, ..self }
    }
}

/// Why moving `amount` of denomination `mint` out of `from` into `to`, on the word of
/// `authority`, is refused; `None` where it goes through.
///
/// Both balances must be of the denomination, `from` must be held by `authority` and
/// cover the amount, and `to` must have room for it. Where several of these fail, the
/// first in this order is the reason given.
pub open spec fn transfer_refusal(
    from: TokenAccount,
    to: TokenAccount,
    mint: Address,
    authority: Address,
    amount: u64,
) -> Option<TransferError> {
    if from.mint != mint || to.mint != mint {
        Some(TransferError::MintMismatch)
    } else if from.owner != authority {
        Some(TransferError::OwnerMismatch)
    } else if from.amount < amount {
        Some(TransferError::InsufficientFunds)
    } else if to.amount + amount > u64::MAX {
        Some(TransferError::Overflow)
    } else {
        None
    }
}

/// Why a user's payment into a pool is refused: the pool must be held by `custodian`,
/// and then the movement from `wallet`, on the word of `depositor`, must go through.
pub open spec fn deposit_refusal(
    wallet: TokenAccount,
    pool: TokenAccount,
    mint: Address,
    depositor: Address,
    custodian: Address,
    amount: u64,
) -> Option<TransferError> {
    if pool.owner != custodian {
        Some(TransferError::OwnerMismatch)
    } else {
        transfer_refusal(wallet, pool, mint, depositor, amount)
    }
}

/// Moves `amount` of denomination `mint` out of `from` into `to`, on the word of
/// `authority`, or refuses and leaves both balances as they were.
pub(crate) fn transfer(
    from: &mut TokenAccount,
    to: &mut TokenAccount,
    mint: &Address,
    authority: &Address,
    amount: u64,
) -> (res: Result<(), TransferError>)
    ensures
        match transfer_refusal(*old(from), *old(to), *mint, *authority, amount) {
            Some(e) => res == Err::<(), TransferError>(e) && *final(from) == *old(from)
                && *final(to) == *old(to),
            None => res is Ok && *final(from) == old(from).debited(amount)
                && *final(to) == old(to).credited(amount),
        },
{
    if from.mint != *mint || to.mint != *mint {
        return Err(TransferError::MintMismatch);
    }
    if from.owner != *authority {
        return Err(TransferError::OwnerMismatch);
    }
    if from.amount < amount {
        return Err(TransferError::InsufficientFunds);
    }
    match to.amount.checked_add(amount) {
        None => Err(TransferError::Overflow),
        Some(sum) => {
            from.amount = from.amount - amount;
            to.amount = sum;
            Ok(())
        },
    }
}

/// Pays `amount` out of a user's `wallet` into `pool`, on the word of `depositor`, provided
/// that `pool` is held by `custodian`; or refuses and leaves both balances as they were.
pub(crate) fn deposit(
    wallet: &mut TokenAccount,
    pool: &mut TokenAccount,
    mint: &Address,
    depositor: &Address,
    custodian: &Address,
    amount: u64,
) -> (res: Result<(), TransferError>)
    ensures
        match deposit_refusal(*old(wallet), *old(pool), *mint, *depositor, *custodian, amount) {
            Some(e) => res == Err::<(), TransferError>(e) && *final(wallet) == *old(wallet)
                && *final(pool) == *old(pool),
            None => res is Ok && *final(wallet) == old(wallet).debited(amount) && *final(pool)
                == old(pool).credited(amount),
        },
{
    if pool.owner != *custodian {
        return Err(TransferError::OwnerMismatch);
    }
    transfer(wallet, pool, mint, depositor, amount)
}

} // verus!
