//! Submitting claims and deciding them.
//!
//! A claim is created either as `Paid`, when its amount is within the fast-claim threshold
//! and the premium pool covers it, or as `NeedsReview`. Only the authority moves a claim
//! on, and only from `NeedsReview`: to `Paid` by approval, to `Denied` by denial. Nothing
//! leaves `Paid` or `Denied`.

use vstd::prelude::*;
use crate::address::Address;
use crate::custody::{transfer, transfer_refusal, TokenAccount};
use crate::error::{ApolloError, TransferError};
use crate::records::{Claim, ClaimStatus, Config, Member};

verus! {

/// What `submit_claim` works on.
#[derive(Clone, Copy, Debug, PartialEq, Eq)]
pub struct SubmitClaim {
    pub config: Config,
    /// The protocol's control key, which holds the pools.
    pub config_key: Address,
    /// The claimant's membership record.
    pub member: Member,
    /// The reference under which the membership record is stored.
    pub member_key: Address,
    /// The caller.
    pub authority: Address,
    pub premium_pool: TokenAccount,
    /// The balance that a claim paid at once is paid into.
    pub user_usdc_account: TokenAccount,
}

impl SubmitClaim {
    /// Whether a claim of `amount` is paid at once: it is within the threshold. With a
    /// threshold of 0 no claim is, as every claim is for a positive amount.
    pub open spec fn fast(self, amount: u64) -> bool {
        amount <= self.config.fast_claim_threshold
    }

    /// The sequence number of the claim to be submitted among the member's claims.
    pub open spec fn sequence(self) -> u64 {
        self.member.claim_count
    }

    /// Why the payment of a claim of `amount` out of the premium pool, on the word of the
    /// control key, is refused, if it is. A claim above the threshold needs no payment.
    pub open spec fn payment_refusal(self, amount: u64) -> Option<TransferError> {
        if self.fast(amount) {
            transfer_refusal(
                self.premium_pool,
                self.user_usdc_account,
                self.config.usdc_mint,
                self.config_key,
                amount,
            )
        } else {
            None
        }
    }

    /// Why the submission of a claim of `amount` is refused, if it is. The amount must be
    /// positive and the membership record the caller's; a claim within the threshold must be
    /// covered by the premium pool, and its payment, on the word of the control key, must go
    /// through; and the member's claim counter must have room for one more. Where several
    /// fail, the first in this order is the reason given.
    pub open spec fn refusal(self, amount: u64) -> Option<ApolloError> {
        if amount == 0 {
            Some(ApolloError::InvalidParameter)
        } else if self.member.authority != self.authority {
            Some(ApolloError::Unauthorized)
        } else if self.fast(amount) && self.premium_pool.amount < amount {
            Some(ApolloError::InsufficientPoolBalance)
        } else if let Some(e) = self.payment_refusal(amount) {
            Some(ApolloError::Transfer(e))
        } else if self.member.claim_count == u64::MAX {
            Some(ApolloError::ArithmeticOverflow)
        } else {
            None
        }
    }

    /// The claim that a submission at time `now` creates: `Paid` where it is within the
    /// threshold, `NeedsReview` otherwise.
    pub open spec fn claim(self, amount: u64, hash: [u8; 32], now: i64) -> Claim {
        Claim {
            member: self.member_key,
            amount,
            status: if self.fast(amount) {
                ClaimStatus::Paid
            } else {
                ClaimStatus::NeedsReview
            },
            submitted_at: now,
            updated_at: now,
            hash,
        }
    }

    /// The state after the submission of a claim of `amount`: the member has one more
    /// claim, and a claim within the threshold has been paid out of the premium pool. One
    /// above the threshold moves no funds.
    pub open spec fn submitted(self, amount: u64) -> SubmitClaim {
        let member = Member { claim_count: (self.member.claim_count + 1) as u64, ..self.member };
        if self.fast(amount) {
            SubmitClaim {
                member,
                premium_pool: self.premium_pool.debited(amount),
                user_usdc_account: self.user_usdc_account.credited(amount),
                ..self
            }
        } else {
            SubmitClaim { member, ..self }
        }
    }
}

/// Submits a claim of `amount` with the digest of its documents.
///
/// The new claim is returned for the caller to store under the member's reference and
/// `sequence()`. Where the submission is refused, no claim is returned and nothing
/// changes: in particular a claim within the threshold that the pool cannot cover is not
/// queued for review instead.
pub fn submit_claim(ctx: &mut SubmitClaim, amount: u64, offchain_hash: [u8; 32], now: i64) -> (res:
    Result<Claim, ApolloError>)
    ensures
        match old(ctx).refusal(amount) {
            Some(e) => res == Err::<Claim, ApolloError>(e) && *final(ctx) == *old(ctx),
            None => res == Ok::<Claim, ApolloError>(old(ctx).claim(amount, offchain_hash, now))
                && *final(ctx) == old(ctx).submitted(amount),
        },
        res matches Ok(c) ==> c.wf() && c.status != ClaimStatus::Submitted,
{
    if amount == 0 {
        return Err(ApolloError::InvalidParameter);
    }
    if ctx.member.authority != ctx.authority {
        return Err(ApolloError::Unauthorized);
    }
    let fast: bool = amount <= ctx.config.fast_claim_threshold;
    let mut pool = ctx.premium_pool;
    let mut wallet = ctx.user_usdc_account;
    if fast {
        if pool.amount < amount {
            return Err(ApolloError::InsufficientPoolBalance);
        }
        match transfer(&mut pool, &mut wallet, &ctx.config.usdc_mint, &ctx.config_key, amount) {
            Err(e) => {
                return Err(ApolloError::Transfer(e));
            },
            Ok(()) => {},
        }
    }
    match ctx.member.claim_count.checked_add(1) {
        None => Err(ApolloError::ArithmeticOverflow),
        Some(count) => {
            ctx.premium_pool = pool;
            ctx.user_usdc_account = wallet;
            ctx.member.claim_count = count;
            Ok(
                Claim {
                    member: ctx.member_key,
                    amount,
                    status: if fast {
                        ClaimStatus::Paid
                    } else {
                        ClaimStatus::NeedsReview
                    },
                    submitted_at: now,
                    updated_at: now,
                    hash: offchain_hash,
                },
            )
        },
    }
}

/// What `approve_claim` works on.
#[derive(Clone, Copy, Debug, PartialEq, Eq)]
pub struct ApproveClaim {
    pub config: Config,
    /// The protocol's control key, which holds the pools.
    pub config_key: Address,
    /// The claim to approve.
    pub claim: Claim,
    /// The caller.
    pub authority: Address,
    pub premium_pool: TokenAccount,
    /// The claimant's balance, which the claim is paid into.
    pub user_usdc_account: TokenAccount,
}

impl ApproveClaim {
    /// Why the approval is refused, if it is. The caller must be the protocol authority,
    /// the claim must await review, the premium pool must cover it, and its payment, on the
    /// word of the control key, must go through; where several fail, the first in this
    /// order is the reason given.
    pub open spec fn refusal(self) -> Option<ApolloError> {
        if self.authority != self.config.authority {
            Some(ApolloError::Unauthorized)
        } else if self.claim.status != ClaimStatus::NeedsReview {
            Some(ApolloError::InvalidClaimStatus)
        } else if self.premium_pool.amount < self.claim.amount {
            Some(ApolloError::InsufficientPoolBalance)
        } else if let Some(e) = transfer_refusal(
            self.premium_pool,
            self.user_usdc_account,
            self.config.usdc_mint,
            self.config_key,
            self.claim.amount,
        ) {
            Some(ApolloError::Transfer(e))
        } else {
            None
        }
    }

    /// The state after approval at time `now`: the claim is `Paid`, and its amount has
    /// moved from the premium pool to the claimant's balance.
    pub open spec fn approved(self, now: i64) -> ApproveClaim {
        ApproveClaim {
            claim: Claim { status: ClaimStatus::Paid, updated_at: now, ..self.claim },
            premium_pool: self.premium_pool.debited(self.claim.amount),
            user_usdc_account: self.user_usdc_account.credited(self.claim.amount),
            ..self
        }
    }
}

/// Approves a claim that awaits review and pays it out of the premium pool, both or
/// neither.
pub fn approve_claim(ctx: &mut ApproveClaim, now: i64) -> (res: Result<(), ApolloError>)
    ensures
        match old(ctx).refusal() {
            Some(e) => res == Err::<(), ApolloError>(e) && *final(ctx) == *old(ctx),
            None => res is Ok && *final(ctx) == old(ctx).approved(now),
        },
        old(ctx).authority != old(ctx).config.authority ==> res == Err::<(), ApolloError>(
            ApolloError::Unauthorized,
        ),
{
    if ctx.authority != ctx.config.authority {
        return Err(ApolloError::Unauthorized);
    }
    if ctx.claim.status != ClaimStatus::NeedsReview {
        return Err(ApolloError::InvalidClaimStatus);
    }
    let amount: u64 = ctx.claim.amount;
    if ctx.premium_pool.amount < amount {
        return Err(ApolloError::InsufficientPoolBalance);
    }
    match transfer(
        &mut ctx.premium_pool,
        &mut ctx.user_usdc_account,
        &ctx.config.usdc_mint,
        &ctx.config_key,
        amount,
    ) {
        Err(e) => Err(ApolloError::Transfer(e)),
        Ok(()) => {
            ctx.claim.status = ClaimStatus::Paid;
            ctx.claim.updated_at = now;
            Ok(())
        },
    }
}

/// What `deny_claim` works on.
#[derive(Clone, Copy, Debug, PartialEq, Eq)]
pub struct DenyClaim {
    pub config: Config,
    /// The claim to deny.
    pub claim: Claim,
    /// The caller.
    pub authority: Address,
}

impl DenyClaim {
    /// Why the denial is refused, if it is: the caller is not the protocol authority, or
    /// else the claim does not await review.
    pub open spec fn refusal(self) -> Option<ApolloError> {
        if self.authority != self.config.authority {
            Some(ApolloError::Unauthorized)
        } else if self.claim.status != ClaimStatus::NeedsReview {
            Some(ApolloError::InvalidClaimStatus)
        } else {
            None
        }
    }

    /// The state after denial at time `now`: the claim is `Denied`.
    pub open spec fn denied(self, now: i64) -> DenyClaim {
        DenyClaim {
            claim: Claim { status: ClaimStatus::Denied, updated_at: now, ..self.claim },
            ..self
        }
    }
}

/// Denies a claim that awaits review. No funds move.
pub fn deny_claim(ctx: &mut DenyClaim, now: i64) -> (res: Result<(), ApolloError>)
    ensures
        match old(ctx).refusal() {
            Some(e) => res == Err::<(), ApolloError>(e) && *final(ctx) == *old(ctx),
            None => res is Ok && *final(ctx) == old(ctx).denied(now),
        },
        old(ctx).authority != old(ctx).config.authority ==> res == Err::<(), ApolloError>(
            ApolloError::Unauthorized,
        ),
{
    if ctx.authority != ctx.config.authority {
        return Err(ApolloError::Unauthorized);
    }
    if ctx.claim.status != ClaimStatus::NeedsReview {
        return Err(ApolloError::InvalidClaimStatus);
    }
    ctx.claim.status = ClaimStatus::Denied;
    ctx.claim.updated_at = now;
    Ok(())
}

} // verus!
