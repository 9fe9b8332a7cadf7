//! Enrolling members and taking premiums.

use vstd::prelude::*;
use crate::address::Address;
use crate::custody::{deposit, deposit_refusal, TokenAccount};
use crate::error::{ApolloError, TransferError};
use crate::records::{Config, Member, Policy};

verus! {

/// What `enroll_member` works on.
#[derive(Clone, Copy, Debug, PartialEq, Eq)]
pub struct EnrollMember {
    pub config: Config,
    /// The protocol's control key, which holds the pools.
    pub config_key: Address,
    /// The policy enrolled under.
    pub policy: Policy,
    /// The reference under which the policy is stored.
    pub policy_key: Address,
    /// The place of the caller's membership record: `None` until the caller enrolls.
    pub member: Option<Member>,
    /// The caller.
    pub authority: Address,
    /// The balance that the first premium is taken from.
    pub user_usdc_account: TokenAccount,
    pub premium_pool: TokenAccount,
}

impl EnrollMember {
    /// Why the payment of the policy's premium out of the caller's balance into the premium
    /// pool is refused, if it is.
    pub open spec fn payment_refusal(self) -> Option<TransferError> {
        deposit_refusal(
            self.user_usdc_account,
            self.premium_pool,
            self.config.usdc_mint,
            self.authority,
            self.config_key,
            self.policy.monthly_premium,
        )
    }

    /// Why enrollment is refused, if it is: the caller is enrolled already, or else the
    /// first premium cannot be paid.
    pub open spec fn refusal(self) -> Option<ApolloError> {
        if self.member is Some {
            Some(ApolloError::AlreadyEnrolled)
        } else {
            match self.payment_refusal() {
                Some(e) => Some(ApolloError::Transfer(e)),
                None => None,
            }
        }
    }

    /// The membership record that enrollment at time `now` creates.
    pub open spec fn membership(self, now: i64) -> Member {
        Member {
            authority: self.authority,
            policy: self.policy_key,
            active: true,
            join_timestamp: now,
            claim_count: 0,
        }
    }

    /// The state after enrollment at time `now`: the premium has moved from the caller's
    /// balance into the pool, and the membership record exists.
    pub open spec fn enrolled(self, now: i64) -> EnrollMember {
        EnrollMember {
            member: Some(self.membership(now)),
            user_usdc_account: self.user_usdc_account.debited(self.policy.monthly_premium),
            premium_pool: self.premium_pool.credited(self.policy.monthly_premium),
            ..self
        }
    }
}

/// Enrolls the caller under the policy: takes the first premium and creates the
/// membership record, both or neither.
///
/// A caller who is enrolled already is refused with `AlreadyEnrolled` and not charged
/// again. Where the premium cannot be paid, the transfer's reason is handed on and no
/// membership record comes to exist.
pub fn enroll_member(ctx: &mut EnrollMember, now: i64) -> (res: Result<(), ApolloError>)
    ensures
        match old(ctx).refusal() {
            Some(e) => res == Err::<(), ApolloError>(e) && *final(ctx) == *old(ctx),
            None => res is Ok && *final(ctx) == old(ctx).enrolled(now),
        },
        old(ctx).member is None && old(ctx).payment_refusal() is Some ==> res is Err
            && final(ctx).member is None,
{
    if ctx.member.is_some() {
        return Err(ApolloError::AlreadyEnrolled);
    }
    match deposit(
        &mut ctx.user_usdc_account,
        &mut ctx.premium_pool,
        &ctx.config.usdc_mint,
        &ctx.authority,
        &ctx.config_key,
        ctx.policy.monthly_premium,
    ) {
        Err(e) => Err(ApolloError::Transfer(e)),
        Ok(()) => {
            ctx.member = Some(
                Member {
                    authority: ctx.authority,
                    policy: ctx.policy_key,
                    active: true,
                    join_timestamp: now,
                    claim_count: 0,
                },
            );
            Ok(())
        },
    }
}

/// What `pay_premium` works on. No membership record is among it: a premium is taken
/// from any caller.
#[derive(Clone, Copy, Debug, PartialEq, Eq)]
pub struct PayPremium {
    pub config: Config,
    /// The protocol's control key, which holds the pools.
    pub config_key: Address,
    /// The policy whose premium is paid.
    pub policy: Policy,
    /// The caller.
    pub authority: Address,
    /// The balance that the premium is taken from.
    pub user_usdc_account: TokenAccount,
    pub premium_pool: TokenAccount,
}

impl PayPremium {
    /// Why the payment is refused, if it is: only for the transfer's own reasons.
    pub open spec fn refusal(self) -> Option<ApolloError> {
        match deposit_refusal(
            self.user_usdc_account,
            self.premium_pool,
            self.config.usdc_mint,
            self.authority,
            self.config_key,
            self.policy.monthly_premium,
        ) {
            Some(e) => Some(ApolloError::Transfer(e)),
            None => None,
        }
    }

    /// The state after the payment: the premium has moved from the caller's balance into
    /// the pool.
    pub open spec fn paid(self) -> PayPremium {
        PayPremium {
            user_usdc_account: self.user_usdc_account.debited(self.policy.monthly_premium),
            premium_pool: self.premium_pool.credited(self.policy.monthly_premium),
            ..self
        }
    }
}

/// Takes one premium of the policy from the caller into the premium pool. No record is
/// created or changed, and the caller need not be a member.
pub fn pay_premium(ctx: &mut PayPremium) -> (res: Result<(), ApolloError>)
    ensures
        match old(ctx).refusal() {
            Some(e) => res == Err::<(), ApolloError>(e) && *final(ctx) == *old(ctx),
            None => res is Ok && *final(ctx) == old(ctx).paid(),
        },
{
    match deposit(
        &mut ctx.user_usdc_account,
        &mut ctx.premium_pool,
        &ctx.config.usdc_mint,
        &ctx.authority,
        &ctx.config_key,
        ctx.policy.monthly_premium,
    ) {
        Err(e) => Err(ApolloError::Transfer(e)),
        Ok(()) => Ok(()),
    }
}

} // verus!
