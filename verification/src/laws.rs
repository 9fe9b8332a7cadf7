//! What holds of the operations taken together.
//!
//! Each operation's contract gives its refusal and its effect as functions of the state
//! before it. The laws here are proved of those functions, so they hold of every run of
//! the operations.

use vstd::prelude::*;
use crate::address::Address;
use crate::claims::{ApproveClaim, DenyClaim, SubmitClaim};
use crate::custody::{transfer_refusal, TokenAccount};
use crate::error::ApolloError;
use crate::membership::{EnrollMember, PayPremium};
use crate::policy::CreatePolicy;
use crate::records::{Claim, ClaimStatus, Config, Member, Stake};
use crate::staking::{StakeAPH, UnstakeAPH};

verus! {

/// A transfer that goes through takes from one balance exactly what it adds to the other,
/// and changes neither the denomination nor the holder of either.
pub proof fn transfer_conserves_funds(
    from: TokenAccount,
    to: TokenAccount,
    mint: Address,
    authority: Address,
    amount: u64,
)
    requires
        transfer_refusal(from, to, mint, authority, amount) is None,
    ensures
        from.debited(amount).amount == from.amount - amount,
        to.credited(amount).amount == to.amount + amount,
        from.debited(amount).amount + to.credited(amount).amount == from.amount + to.amount,
        from.debited(amount).mint == from.mint && from.debited(amount).owner == from.owner,
        to.credited(amount).mint == to.mint && to.credited(amount).owner == to.owner,
{
}

/// No funds leave a balance but on the word of its holder: a transfer on the word of
/// anyone else is refused. So nothing leaves a pool, which the control key holds, on the
/// word of a user.
pub proof fn only_the_holder_moves_funds(
    from: TokenAccount,
    to: TokenAccount,
    mint: Address,
    authority: Address,
    amount: u64,
)
    requires
        authority != from.owner,
    ensures
        transfer_refusal(from, to, mint, authority, amount) is Some,
{
}

/// Only the protocol authority creates policies and decides claims: any other caller is
/// refused with `Unauthorized`, whatever else is asked.
pub proof fn only_the_authority_decides(
    create: CreatePolicy,
    monthly_premium: u64,
    coverage_limit: u64,
    approve: ApproveClaim,
    deny: DenyClaim,
)
    ensures
        create.authority != create.config.authority ==> create.refusal(
            monthly_premium,
            coverage_limit,
        ) == Some(ApolloError::Unauthorized),
        approve.authority != approve.config.authority ==> approve.refusal() == Some(
            ApolloError::Unauthorized,
        ),
        deny.authority != deny.config.authority ==> deny.refusal() == Some(
            ApolloError::Unauthorized,
        ),
        create.refusal(monthly_premium, coverage_limit) is None ==> create.authority
            == create.config.authority,
        approve.refusal() is None ==> approve.authority == approve.config.authority,
        deny.refusal() is None ==> deny.authority == deny.config.authority,
{
}

/// The configuration stays as it was created: no operation changes the authority, the
/// denominations or the threshold, and only the creation of a policy changes the policy
/// counter, by one. No operation changes a policy.
pub proof fn configuration_and_policies_are_fixed(
    create: CreatePolicy,
    enroll: EnrollMember,
    pay: PayPremium,
    stake: StakeAPH,
    unstake: UnstakeAPH,
    submit: SubmitClaim,
    approve: ApproveClaim,
    deny: DenyClaim,
    amount: u64,
    now: i64,
)
    requires
        create.config.next_policy_id < u64::MAX,
    ensures
        create.created().config == (Config {
            next_policy_id: (create.config.next_policy_id + 1) as u64,
            ..create.config
        }),
        create.created().config.next_policy_id == create.config.next_policy_id + 1,
        enroll.enrolled(now).config == enroll.config,
        enroll.enrolled(now).policy == enroll.policy,
        pay.paid().config == pay.config,
        pay.paid().policy == pay.policy,
        stake.staked(amount, now).config == stake.config,
        unstake.unstaked().config == unstake.config,
        submit.submitted(amount).config == submit.config,
        approve.approved(now).config == approve.config,
        deny.denied(now).config == deny.config,
{
}

/// Every policy that is created has a positive premium and a positive coverage limit, and
/// the protocol authority as its creator. A policy with an amount of zero is not created,
/// whoever asks.
pub proof fn created_policies_are_well_formed(
    ctx: CreatePolicy,
    monthly_premium: u64,
    coverage_limit: u64,
)
    ensures
        ctx.refusal(monthly_premium, coverage_limit) is None ==> ctx.policy(
            monthly_premium,
            coverage_limit,
        ).wf() && ctx.policy(monthly_premium, coverage_limit).creator == ctx.config.authority,
        monthly_premium == 0 || coverage_limit == 0 ==> ctx.refusal(
            monthly_premium,
            coverage_limit,
        ) is Some,
        (monthly_premium == 0 || coverage_limit == 0) && ctx.authority == ctx.config.authority
            ==> ctx.refusal(monthly_premium, coverage_limit) == Some(
            ApolloError::InvalidParameter,
        ),
{
}

/// A claim that is accepted is for a positive amount and is either `Paid` or
/// `NeedsReview`, never `Submitted`. It is `Paid` exactly when its amount is within the
/// threshold, and then exactly its amount has moved from the premium pool to the
/// claimant; otherwise no funds have moved. Either way the member has one more claim.
pub proof fn submission_pays_or_queues(ctx: SubmitClaim, amount: u64, hash: [u8; 32], now: i64)
    requires
        ctx.refusal(amount) is None,
    ensures
        amount > 0,
        ctx.claim(amount, hash, now).status == ClaimStatus::Paid <==> amount
            <= ctx.config.fast_claim_threshold,
        ctx.claim(amount, hash, now).status == ClaimStatus::NeedsReview <==> amount
            > ctx.config.fast_claim_threshold,
        ctx.fast(amount) ==> ctx.submitted(amount).premium_pool.amount == ctx.premium_pool.amount
            - amount && ctx.submitted(amount).user_usdc_account.amount
            == ctx.user_usdc_account.amount + amount,
        !ctx.fast(amount) ==> ctx.submitted(amount).premium_pool == ctx.premium_pool
            && ctx.submitted(amount).user_usdc_account == ctx.user_usdc_account,
        ctx.submitted(amount).member == (Member {
            claim_count: (ctx.member.claim_count + 1) as u64,
            ..ctx.member
        }),
        ctx.submitted(amount).member.claim_count == ctx.member.claim_count + 1,
        ctx.submitted(amount).sequence() == ctx.sequence() + 1,
        ctx.claim(amount, hash, now).member == ctx.member_key,
{
}

/// A claim within the threshold that the premium pool cannot cover is refused with
/// `InsufficientPoolBalance`; it is not queued for review instead.
pub proof fn uncovered_fast_claim_is_refused(ctx: SubmitClaim, amount: u64)
    requires
        amount > 0,
        ctx.member.authority == ctx.authority,
        amount <= ctx.config.fast_claim_threshold,
        ctx.premium_pool.amount < amount,
    ensures
        ctx.refusal(amount) == Some(ApolloError::InsufficientPoolBalance),
{
}

/// With a threshold of 0 no claim is paid on submission: every accepted claim awaits
/// review, and no funds move.
pub proof fn zero_threshold_queues_every_claim(
    ctx: SubmitClaim,
    amount: u64,
    hash: [u8; 32],
    now: i64,
)
    requires
        ctx.config.fast_claim_threshold == 0,
        ctx.refusal(amount) is None,
    ensures
        ctx.claim(amount, hash, now).status == ClaimStatus::NeedsReview,
        ctx.submitted(amount).premium_pool == ctx.premium_pool,
        ctx.submitted(amount).user_usdc_account == ctx.user_usdc_account,
{
}

/// The authority's approval of a claim that awaits review, where the premium pool covers
/// the claim and the payment is one that the transfer primitive accepts, goes through: it
/// makes the claim `Paid` and pays the claimant exactly the claim's amount out of the
/// premium pool. Approving the claim again, in whatever state the balances then are, is
/// refused with `InvalidClaimStatus`, and so is denying it.
pub proof fn approval_pays_once(ctx: ApproveClaim, now: i64, again: ApproveClaim, deny: DenyClaim)
    requires
        ctx.authority == ctx.config.authority,
        ctx.claim.status == ClaimStatus::NeedsReview,
        ctx.premium_pool.amount >= ctx.claim.amount,
        transfer_refusal(
            ctx.premium_pool,
            ctx.user_usdc_account,
            ctx.config.usdc_mint,
            ctx.config_key,
            ctx.claim.amount,
        ) is None,
        again.claim == ctx.approved(now).claim,
        again.authority == again.config.authority,
        deny.claim == ctx.approved(now).claim,
        deny.authority == deny.config.authority,
    ensures
        ctx.refusal() is None,
        ctx.approved(now).claim.status == ClaimStatus::Paid,
        ctx.approved(now).user_usdc_account.amount == ctx.user_usdc_account.amount
            + ctx.claim.amount,
        ctx.approved(now).premium_pool.amount == ctx.premium_pool.amount - ctx.claim.amount,
        ctx.approved(now).refusal() == Some(ApolloError::InvalidClaimStatus),
        again.refusal() == Some(ApolloError::InvalidClaimStatus),
        deny.refusal() == Some(ApolloError::InvalidClaimStatus),
{
}

/// The authority's denial of a claim that awaits review goes through and makes the claim
/// `Denied`. Approving the claim afterwards is refused with `InvalidClaimStatus`, and so
/// is denying it again.
pub proof fn denial_is_final(ctx: DenyClaim, now: i64, approve: ApproveClaim, again: DenyClaim)
    requires
        ctx.authority == ctx.config.authority,
        ctx.claim.status == ClaimStatus::NeedsReview,
        approve.claim == ctx.denied(now).claim,
        approve.authority == approve.config.authority,
        again.claim == ctx.denied(now).claim,
        again.authority == again.config.authority,
    ensures
        ctx.refusal() is None,
        ctx.denied(now).claim.status == ClaimStatus::Denied,
        approve.refusal() == Some(ApolloError::InvalidClaimStatus),
        again.refusal() == Some(ApolloError::InvalidClaimStatus),
        ctx.denied(now).refusal() == Some(ApolloError::InvalidClaimStatus),
{
}

/// A decision changes of a claim only its status and the time of its last change: the
/// member, the amount, the time of submission and the digest stay as they were
/// submitted.
pub proof fn decisions_keep_what_was_claimed(approve: ApproveClaim, deny: DenyClaim, now: i64)
    ensures
        approve.approved(now).claim == (Claim {
            status: ClaimStatus::Paid,
            updated_at: now,
            ..approve.claim
        }),
        deny.denied(now).claim == (Claim {
            status: ClaimStatus::Denied,
            updated_at: now,
            ..deny.claim
        }),
{
}

/// Nothing leaves a final status: a claim that is `Paid` or `Denied` is neither approved
/// nor denied, whoever asks. A claim is decided only from `NeedsReview`.
pub proof fn final_status_admits_no_decision(approve: ApproveClaim, deny: DenyClaim)
    ensures
        approve.claim.status.is_final() ==> approve.refusal() is Some,
        deny.claim.status.is_final() ==> deny.refusal() is Some,
        approve.refusal() is None ==> approve.claim.status == ClaimStatus::NeedsReview,
        deny.refusal() is None ==> deny.claim.status == ClaimStatus::NeedsReview,
{
}

/// Two deposits by one party add up: after staking `first` and then `second`, the record
/// shows both on top of what was staked before, carries the time of the second deposit,
/// and the capital pool has grown by as much as the record.
pub proof fn stakes_add_up(ctx: StakeAPH, first: u64, then: i64, second: u64, later: i64)
    requires
        ctx.refusal(first) is None,
        ctx.staked(first, then).refusal(second) is None,
    ensures
        ctx.staked(first, then).staked(second, later).stake == Some(
            Stake {
                authority: ctx.authority,
                amount: (ctx.prior() + first + second) as u64,
                start_timestamp: later,
            },
        ),
        ctx.prior() + first + second <= u64::MAX,
        ctx.staked(first, then).staked(second, later).capital_pool.amount
            == ctx.capital_pool.amount + first + second,
        ctx.staked(first, then).staked(second, later).user_aph_account.amount
            == ctx.user_aph_account.amount - first - second,
{
}

/// Where the capital pool covers a party's stake before a deposit, it covers it after.
pub proof fn pool_backs_the_stake(ctx: StakeAPH, amount: u64, now: i64)
    requires
        ctx.refusal(amount) is None,
        ctx.prior() <= ctx.capital_pool.amount,
    ensures
        ctx.staked(amount, now).prior() <= ctx.staked(amount, now).capital_pool.amount,
        ctx.staked(amount, now).prior() - ctx.prior() == ctx.staked(
            amount,
            now,
        ).capital_pool.amount - ctx.capital_pool.amount,
{
}

/// A withdrawal that goes through returns the whole stake: the record shows nothing
/// staked, the party's balance has grown by exactly what was staked, and the capital pool
/// has shrunk by as much. Withdrawing again is refused with `InvalidParameter`.
pub proof fn unstake_returns_everything(ctx: UnstakeAPH)
    requires
        ctx.refusal() is None,
    ensures
        ctx.unstaked().stake.amount == 0,
        ctx.unstaked().stake.authority == ctx.stake.authority,
        ctx.unstaked().user_aph_account.amount == ctx.user_aph_account.amount + ctx.stake.amount,
        ctx.unstaked().capital_pool.amount == ctx.capital_pool.amount - ctx.stake.amount,
        ctx.unstaked().refusal() == Some(ApolloError::InvalidParameter),
{
}

/// A stake of nothing is not withdrawn, whoever asks and whatever the balances are.
pub proof fn empty_stake_is_not_withdrawn(ctx: UnstakeAPH)
    requires
        ctx.stake.amount == 0,
    ensures
        ctx.refusal() == Some(ApolloError::InvalidParameter),
{
}

} // verus!
