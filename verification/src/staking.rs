//! Staking capital and taking it back.

use vstd::prelude::*;
use crate::address::Address;
use crate::custody::{deposit, deposit_refusal, transfer, transfer_refusal, TokenAccount};
use crate::error::ApolloError;
use crate::records::{Config, Stake};

verus! {

/// What `stake_aph` works on.
#[derive(Clone, Copy, Debug, PartialEq, Eq)]
pub struct StakeAPH {
    pub config: Config,
    /// The protocol's control key, which holds the pools.
    pub config_key: Address,
    /// The place of the caller's stake record: `None` until the caller first stakes.
    pub stake: Option<Stake>,
    /// The caller.
    pub authority: Address,
    /// The balance that the capital is taken from.
    pub user_aph_account: TokenAccount,
    pub capital_pool: TokenAccount,
}

impl StakeAPH {
    /// What the caller has staked before this deposit: nothing where no record exists.
    pub open spec fn prior(self) -> u64 {
        match self.stake {
            Some(s) => s.amount,
            None => 0,
        }
    }

    /// Why a deposit of `amount` is refused, if it is. The amount must be positive, the
    /// transfer into the capital pool must go through, an existing record must be the
    /// caller's, and the staked total must stay in range; where several fail, the first in
    /// this order is the reason given.
    pub open spec fn refusal(self, amount: u64) -> Option<ApolloError> {
        if amount == 0 {
            Some(ApolloError::InvalidParameter)
        } else if let Some(e) = deposit_refusal(
            self.user_aph_account,
            self.capital_pool,
            self.config.aph_mint,
            self.authority,
            self.config_key,
            amount,
        ) {
            Some(ApolloError::Transfer(e))
        } else if self.stake matches Some(s) && s.authority != self.authority {
            Some(ApolloError::Unauthorized)
        } else if self.prior() + amount > u64::MAX {
            Some(ApolloError::ArithmeticOverflow)
        } else {
            None
        }
    }

    /// The state after a deposit of `amount` at time `now`: the amount has moved from the
    /// caller's balance into the capital pool, and the caller's record shows it on top of
    /// what was staked before, with `now` as the time of the latest deposit.
    pub open spec fn staked(self, amount: u64, now: i64) -> StakeAPH {
        StakeAPH {
            stake: Some(
                Stake {
                    authority: self.authority,
                    amount: (self.prior() + amount) as u64,
                    start_timestamp: now,
                },
            ),
            user_aph_account: self.user_aph_account.debited(amount),
            capital_pool: self.capital_pool.credited(amount),
            ..self
        }
    }
}

/// Stakes `amount` of the caller's capital: moves it into the capital pool and adds it to
/// the caller's stake record, which is created where there is none. All of it or nothing.
pub fn stake_aph(ctx: &mut StakeAPH, amount: u64, now: i64) -> (res: Result<(), ApolloError>)
    ensures
        match old(ctx).refusal(amount) {
            Some(e) => res == Err::<(), ApolloError>(e) && *final(ctx) == *old(ctx),
            None => res is Ok && *final(ctx) == old(ctx).staked(amount, now),
        },
{
    if amount == 0 {
        return Err(ApolloError::InvalidParameter);
    }
    let mut wallet = ctx.user_aph_account;
    let mut pool = ctx.capital_pool;
    match deposit(
        &mut wallet,
        &mut pool,
        &ctx.config.aph_mint,
        &ctx.authority,
        &ctx.config_key,
        amount,
    ) {
        Err(e) => {
            return Err(ApolloError::Transfer(e));
        },
        Ok(()) => {},
    }
    let prior: u64 = match ctx.stake {
        None => 0,
        Some(s) => {
            if s.authority != ctx.authority {
                return Err(ApolloError::Unauthorized);
            }
            s.amount
        },
    };
    match prior.checked_add(amount) {
        None => Err(ApolloError::ArithmeticOverflow),
        Some(total) => {
            ctx.user_aph_account = wallet;
            ctx.capital_pool = pool;
            ctx.stake = Some(Stake { authority: ctx.authority, amount: total, start_timestamp: now });
            Ok(())
        },
    }
}

/// What `unstake_aph` works on.
#[derive(Clone, Copy, Debug, PartialEq, Eq)]
pub struct UnstakeAPH {
    pub config: Config,
    /// The protocol's control key, which holds the pools.
    pub config_key: Address,
    /// The caller's stake record.
    pub stake: Stake,
    /// The caller.
    pub authority: Address,
    /// The balance that the capital is returned to.
    pub user_aph_account: TokenAccount,
    pub capital_pool: TokenAccount,
}

impl UnstakeAPH {
    /// Why the withdrawal is refused, if it is. Something must be staked, the record must
    /// be the caller's, and the transfer of the whole stake out of the capital pool, on the
    /// word of the control key, must go through; where several fail, the first in this
    /// order is the reason given.
    pub open spec fn refusal(self) -> Option<ApolloError> {
        if self.stake.amount == 0 {
            Some(ApolloError::InvalidParameter)
        } else if self.stake.authority != self.authority {
            Some(ApolloError::Unauthorized)
        } else if let Some(e) = transfer_refusal(
            self.capital_pool,
            self.user_aph_account,
            self.config.aph_mint,
            self.config_key,
            self.stake.amount,
        ) {
            Some(ApolloError::Transfer(e))
        } else {
            None
        }
    }

    /// The state after the withdrawal: the whole stake has moved from the capital pool to
    /// the caller's balance, and the record shows nothing staked.
    pub open spec fn unstaked(self) -> UnstakeAPH {
        UnstakeAPH {
            stake: Stake { amount: 0, ..self.stake },
            user_aph_account: self.user_aph_account.credited(self.stake.amount),
            capital_pool: self.capital_pool.debited(self.stake.amount),
            ..self
        }
    }
}

/// Returns the caller's whole stake from the capital pool and sets the record to zero,
/// both or neither. There is no partial withdrawal and no waiting time.
pub fn unstake_aph(ctx: &mut UnstakeAPH) -> (res: Result<(), ApolloError>)
    ensures
        match old(ctx).refusal() {
            Some(e) => res == Err::<(), ApolloError>(e) && *final(ctx) == *old(ctx),
            None => res is Ok && *final(ctx) == old(ctx).unstaked(),
        },
        old(ctx).stake.amount == 0 ==> res == Err::<(), ApolloError>(
            ApolloError::InvalidParameter,
        ) && *final(ctx) == *old(ctx),
{
    let amount: u64 = ctx.stake.amount;
    if amount == 0 {
        return Err(ApolloError::InvalidParameter);
    }
    if ctx.stake.authority != ctx.authority {
        return Err(ApolloError::Unauthorized);
    }
    match transfer(
        &mut ctx.capital_pool,
        &mut ctx.user_aph_account,
        &ctx.config.aph_mint,
        &ctx.config_key,
        amount,
    ) {
        Err(e) => Err(ApolloError::Transfer(e)),
        Ok(()) => {
            ctx.stake.amount = 0;
            Ok(())
        },
    }
}

} // verus!
