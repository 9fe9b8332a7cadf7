use apollo_core::{
    approve_claim, deny_claim, submit_claim, Address, ApolloError, ApproveClaim, Claim,
    ClaimStatus, Config, DenyClaim, Member, SubmitClaim, TokenAccount, TransferError,
};

fn addr(b: u8) -> Address {
    Address::new([b; 32])
}

const AUTHORITY: u8 = 1;
const ALICE: u8 = 2;
const BOB: u8 = 3;
const CONTROL: u8 = 9;
const USDC: u8 = 10;
const APH: u8 = 11;
const POLICY: u8 = 20;
const MEMBER: u8 = 30;
const DIGEST: [u8; 32] = [0xab; 32];

fn config(threshold: u64) -> Config {
    Config {
        authority: addr(AUTHORITY),
        usdc_mint: addr(USDC),
        aph_mint: addr(APH),
        fast_claim_threshold: threshold,
        next_policy_id: 1,
    }
}

fn usdc(owner: u8, amount: u64) -> TokenAccount {
    TokenAccount { mint: addr(USDC), owner: addr(owner), amount }
}

fn member(claim_count: u64) -> Member {
    Member {
        authority: addr(ALICE),
        policy: addr(POLICY),
        active: true,
        join_timestamp: 100,
        claim_count,
    }
}

fn submission(threshold: u64, pool_amount: u64, wallet_amount: u64) -> SubmitClaim {
    SubmitClaim {
        config: config(threshold),
        config_key: addr(CONTROL),
        member: member(0),
        member_key: addr(MEMBER),
        authority: addr(ALICE),
        premium_pool: usdc(CONTROL, pool_amount),
        user_usdc_account: usdc(ALICE, wallet_amount),
    }
}

fn claim(amount: u64, status: ClaimStatus) -> Claim {
    Claim {
        member: addr(MEMBER),
        amount,
        status,
        submitted_at: 200,
        updated_at: 200,
        hash: DIGEST,
    }
}

fn approval(amount: u64, status: ClaimStatus, pool_amount: u64, wallet_amount: u64) -> ApproveClaim {
    ApproveClaim {
        config: config(500),
        config_key: addr(CONTROL),
        claim: claim(amount, status),
        authority: addr(AUTHORITY),
        premium_pool: usdc(CONTROL, pool_amount),
        user_usdc_account: usdc(ALICE, wallet_amount),
    }
}

fn denial(amount: u64, status: ClaimStatus) -> DenyClaim {
    DenyClaim { config: config(500), claim: claim(amount, status), authority: addr(AUTHORITY) }
}

#[test]
fn submit_claim_within_the_threshold_is_paid_at_once() {
    let mut ctx = submission(500, 1000, 40);
    let made = submit_claim(&mut ctx, 300, DIGEST, 1234).unwrap();
    assert_eq!(
        made,
        Claim {
            member: addr(MEMBER),
            amount: 300,
            status: ClaimStatus::Paid,
            submitted_at: 1234,
            updated_at: 1234,
            hash: DIGEST,
        }
    );
    assert_eq!(ctx.premium_pool, usdc(CONTROL, 700));
    assert_eq!(ctx.user_usdc_account, usdc(ALICE, 340));
    assert_eq!(ctx.member, member(1));
}

#[test]
fn submit_claim_that_the_pool_covers_exactly_empties_the_pool() {
    let mut ctx = submission(500, 300, 0);
    let made = submit_claim(&mut ctx, 300, DIGEST, 1).unwrap();
    assert_eq!(made.status, ClaimStatus::Paid);
    assert_eq!(ctx.premium_pool.amount, 0);
    assert_eq!(ctx.user_usdc_account.amount, 300);
}

#[test]
fn submit_claim_that_the_pool_cannot_cover_is_refused() {
    let mut ctx = submission(500, 100, 40);
    let before = ctx;
    assert_eq!(submit_claim(&mut ctx, 300, DIGEST, 1234), Err(ApolloError::InsufficientPoolBalance));
    assert_eq!(ctx, before);
    assert_eq!(ctx.member.claim_count, 0);
    assert_eq!(ctx.premium_pool.amount, 100);
}

#[test]
fn submit_claim_above_the_threshold_awaits_review() {
    let mut ctx = submission(500, 100, 40);
    let made = submit_claim(&mut ctx, 1000, DIGEST, 1234).unwrap();
    assert_eq!(
        made,
        Claim {
            member: addr(MEMBER),
            amount: 1000,
            status: ClaimStatus::NeedsReview,
            submitted_at: 1234,
            updated_at: 1234,
            hash: DIGEST,
        }
    );
    assert_eq!(ctx.premium_pool, usdc(CONTROL, 100));
    assert_eq!(ctx.user_usdc_account, usdc(ALICE, 40));
    assert_eq!(ctx.member, member(1));
}

#[test]
fn submit_claim_at_the_threshold_is_paid_and_one_above_is_not() {
    let mut ctx = submission(500, 10_000, 0);
    assert_eq!(submit_claim(&mut ctx, 500, DIGEST, 1).unwrap().status, ClaimStatus::Paid);
    assert_eq!(submit_claim(&mut ctx, 501, DIGEST, 2).unwrap().status, ClaimStatus::NeedsReview);
    assert_eq!(ctx.premium_pool.amount, 9_500);
    assert_eq!(ctx.user_usdc_account.amount, 500);
    assert_eq!(ctx.member.claim_count, 2);
}

#[test]
fn submit_claim_with_a_zero_threshold_always_awaits_review() {
    let mut ctx = submission(0, 10_000, 0);
    assert_eq!(submit_claim(&mut ctx, 1, DIGEST, 1).unwrap().status, ClaimStatus::NeedsReview);
    assert_eq!(ctx.premium_pool.amount, 10_000);
    assert_eq!(ctx.user_usdc_account.amount, 0);
    assert_eq!(ctx.member.claim_count, 1);
}

#[test]
fn submit_claim_keeps_the_digest() {
    let mut digest = [0u8; 32];
    digest[0] = 1;
    digest[31] = 255;
    let mut ctx = submission(500, 10_000, 0);
    assert_eq!(submit_claim(&mut ctx, 5, digest, 1).unwrap().hash, digest);
}

#[test]
fn submit_claim_for_nothing_is_refused() {
    let mut ctx = submission(500, 1000, 40);
    let before = ctx;
    assert_eq!(submit_claim(&mut ctx, 0, DIGEST, 1), Err(ApolloError::InvalidParameter));
    assert_eq!(ctx, before);
}

#[test]
fn submit_claim_for_nothing_is_refused_with_a_zero_threshold_too() {
    let mut ctx = submission(0, 1000, 40);
    assert_eq!(submit_claim(&mut ctx, 0, DIGEST, 1), Err(ApolloError::InvalidParameter));
}

#[test]
fn submit_claim_under_the_membership_of_another_party_is_unauthorized() {
    let mut ctx = submission(500, 1000, 40);
    ctx.authority = addr(BOB);
    ctx.user_usdc_account.owner = addr(BOB);
    let before = ctx;
    assert_eq!(submit_claim(&mut ctx, 300, DIGEST, 1), Err(ApolloError::Unauthorized));
    assert_eq!(ctx, before);
}

#[test]
fn submit_claim_with_a_full_claim_counter_overflows_and_pays_nothing() {
    let mut ctx = submission(500, 1000, 40);
    ctx.member.claim_count = u64::MAX;
    let before = ctx;
    assert_eq!(submit_claim(&mut ctx, 300, DIGEST, 1), Err(ApolloError::ArithmeticOverflow));
    assert_eq!(ctx, before);
    assert_eq!(submit_claim(&mut ctx, 1000, DIGEST, 1), Err(ApolloError::ArithmeticOverflow));
    assert_eq!(ctx, before);
}

#[test]
fn submit_claim_fills_the_last_sequence_number() {
    let mut ctx = submission(500, 1000, 40);
    ctx.member.claim_count = u64::MAX - 1;
    assert!(submit_claim(&mut ctx, 300, DIGEST, 1).is_ok());
    assert_eq!(ctx.member.claim_count, u64::MAX);
}

#[test]
fn submit_claim_out_of_a_pool_not_held_by_the_control_key_is_refused() {
    let mut ctx = submission(500, 1000, 40);
    ctx.premium_pool.owner = addr(ALICE);
    let before = ctx;
    assert_eq!(
        submit_claim(&mut ctx, 300, DIGEST, 1),
        Err(ApolloError::Transfer(TransferError::OwnerMismatch))
    );
    assert_eq!(ctx, before);
}

#[test]
fn submit_claim_into_a_wallet_of_another_denomination_is_refused_when_paid_at_once() {
    let mut ctx = submission(500, 1000, 40);
    ctx.user_usdc_account.mint = addr(APH);
    let before = ctx;
    assert_eq!(
        submit_claim(&mut ctx, 300, DIGEST, 1),
        Err(ApolloError::Transfer(TransferError::MintMismatch))
    );
    assert_eq!(ctx, before);
    assert_eq!(submit_claim(&mut ctx, 501, DIGEST, 1).unwrap().status, ClaimStatus::NeedsReview);
}

#[test]
fn submit_claim_into_a_full_wallet_is_refused() {
    let mut ctx = submission(500, 1000, u64::MAX - 299);
    let before = ctx;
    assert_eq!(
        submit_claim(&mut ctx, 300, DIGEST, 1),
        Err(ApolloError::Transfer(TransferError::Overflow))
    );
    assert_eq!(ctx, before);
}

#[test]
fn submit_claim_names_the_pool_balance_before_the_transfer() {
    let mut ctx = submission(500, 100, 40);
    ctx.premium_pool.owner = addr(ALICE);
    ctx.premium_pool.mint = addr(APH);
    assert_eq!(submit_claim(&mut ctx, 300, DIGEST, 1), Err(ApolloError::InsufficientPoolBalance));
}

#[test]
fn approve_claim_pays_once() {
    let mut ctx = approval(1000, ClaimStatus::NeedsReview, 2500, 40);
    assert_eq!(approve_claim(&mut ctx, 999), Ok(()));
    assert_eq!(
        ctx.claim,
        Claim {
            member: addr(MEMBER),
            amount: 1000,
            status: ClaimStatus::Paid,
            submitted_at: 200,
            updated_at: 999,
            hash: DIGEST,
        }
    );
    assert_eq!(ctx.premium_pool, usdc(CONTROL, 1500));
    assert_eq!(ctx.user_usdc_account, usdc(ALICE, 1040));

    let before = ctx;
    assert_eq!(approve_claim(&mut ctx, 1000), Err(ApolloError::InvalidClaimStatus));
    assert_eq!(ctx, before);
    assert_eq!(ctx.premium_pool.amount, 1500);
    assert_eq!(ctx.user_usdc_account.amount, 1040);
}

#[test]
fn approve_claim_that_the_pool_covers_exactly_empties_the_pool() {
    let mut ctx = approval(1000, ClaimStatus::NeedsReview, 1000, 0);
    assert_eq!(approve_claim(&mut ctx, 999), Ok(()));
    assert_eq!(ctx.premium_pool.amount, 0);
    assert_eq!(ctx.user_usdc_account.amount, 1000);
}

#[test]
fn approve_claim_that_the_pool_cannot_cover_is_refused() {
    let mut ctx = approval(1000, ClaimStatus::NeedsReview, 999, 40);
    let before = ctx;
    assert_eq!(approve_claim(&mut ctx, 999), Err(ApolloError::InsufficientPoolBalance));
    assert_eq!(ctx, before);
    assert_eq!(ctx.claim.status, ClaimStatus::NeedsReview);
}

#[test]
fn approve_claim_by_another_caller_is_unauthorized() {
    let mut ctx = approval(1000, ClaimStatus::NeedsReview, 2500, 40);
    ctx.authority = addr(ALICE);
    let before = ctx;
    assert_eq!(approve_claim(&mut ctx, 999), Err(ApolloError::Unauthorized));
    assert_eq!(ctx, before);
}

#[test]
fn approve_claim_by_another_caller_is_unauthorized_whatever_the_status() {
    let mut ctx = approval(1000, ClaimStatus::Paid, 0, 40);
    ctx.authority = addr(ALICE);
    assert_eq!(approve_claim(&mut ctx, 999), Err(ApolloError::Unauthorized));
}

#[test]
fn approve_claim_in_the_reserved_status_is_refused() {
    let mut ctx = approval(1000, ClaimStatus::Submitted, 2500, 40);
    let before = ctx;
    assert_eq!(approve_claim(&mut ctx, 999), Err(ApolloError::InvalidClaimStatus));
    assert_eq!(ctx, before);
}

#[test]
fn approve_claim_names_the_status_before_the_pool_balance() {
    let mut ctx = approval(1000, ClaimStatus::Denied, 0, 40);
    assert_eq!(approve_claim(&mut ctx, 999), Err(ApolloError::InvalidClaimStatus));
}

#[test]
fn approve_claim_out_of_a_pool_not_held_by_the_control_key_is_refused() {
    let mut ctx = approval(1000, ClaimStatus::NeedsReview, 2500, 40);
    ctx.premium_pool.owner = addr(AUTHORITY);
    let before = ctx;
    assert_eq!(
        approve_claim(&mut ctx, 999),
        Err(ApolloError::Transfer(TransferError::OwnerMismatch))
    );
    assert_eq!(ctx, before);
}

#[test]
fn approve_claim_out_of_a_pool_of_another_denomination_is_refused() {
    let mut ctx = approval(1000, ClaimStatus::NeedsReview, 2500, 40);
    ctx.premium_pool.mint = addr(APH);
    ctx.user_usdc_account.mint = addr(APH);
    let before = ctx;
    assert_eq!(
        approve_claim(&mut ctx, 999),
        Err(ApolloError::Transfer(TransferError::MintMismatch))
    );
    assert_eq!(ctx, before);
}

#[test]
fn approve_claim_into_a_full_wallet_is_refused() {
    let mut ctx = approval(1000, ClaimStatus::NeedsReview, 2500, u64::MAX - 999);
    let before = ctx;
    assert_eq!(
        approve_claim(&mut ctx, 999),
        Err(ApolloError::Transfer(TransferError::Overflow))
    );
    assert_eq!(ctx, before);
}

#[test]
fn deny_claim_is_final() {
    let mut ctx = denial(1000, ClaimStatus::NeedsReview);
    assert_eq!(deny_claim(&mut ctx, 999), Ok(()));
    assert_eq!(
        ctx.claim,
        Claim {
            member: addr(MEMBER),
            amount: 1000,
            status: ClaimStatus::Denied,
            submitted_at: 200,
            updated_at: 999,
            hash: DIGEST,
        }
    );

    let mut later = ApproveClaim {
        config: ctx.config,
        config_key: addr(CONTROL),
        claim: ctx.claim,
        authority: addr(AUTHORITY),
        premium_pool: usdc(CONTROL, 2500),
        user_usdc_account: usdc(ALICE, 40),
    };
    let before = later;
    assert_eq!(approve_claim(&mut later, 1000), Err(ApolloError::InvalidClaimStatus));
    assert_eq!(later, before);

    let denied = ctx;
    assert_eq!(deny_claim(&mut ctx, 1001), Err(ApolloError::InvalidClaimStatus));
    assert_eq!(ctx, denied);
}

#[test]
fn deny_claim_that_was_paid_is_refused() {
    let mut ctx = denial(300, ClaimStatus::Paid);
    let before = ctx;
    assert_eq!(deny_claim(&mut ctx, 999), Err(ApolloError::InvalidClaimStatus));
    assert_eq!(ctx, before);
}

#[test]
fn deny_claim_in_the_reserved_status_is_refused() {
    let mut ctx = denial(300, ClaimStatus::Submitted);
    assert_eq!(deny_claim(&mut ctx, 999), Err(ApolloError::InvalidClaimStatus));
}

#[test]
fn deny_claim_by_another_caller_is_unauthorized() {
    let mut ctx = denial(1000, ClaimStatus::NeedsReview);
    ctx.authority = addr(BOB);
    let before = ctx;
    assert_eq!(deny_claim(&mut ctx, 999), Err(ApolloError::Unauthorized));
    assert_eq!(ctx, before);
}

#[test]
fn submitted_claim_is_approved_by_the_authority() {
    let mut ctx = submission(500, 5000, 0);
    let made = submit_claim(&mut ctx, 2000, DIGEST, 10).unwrap();
    assert_eq!(made.status, ClaimStatus::NeedsReview);
    let mut decide = ApproveClaim {
        config: ctx.config,
        config_key: ctx.config_key,
        claim: made,
        authority: addr(AUTHORITY),
        premium_pool: ctx.premium_pool,
        user_usdc_account: ctx.user_usdc_account,
    };
    assert_eq!(approve_claim(&mut decide, 20), Ok(()));
    assert_eq!(decide.claim.status, ClaimStatus::Paid);
    assert_eq!(decide.claim.submitted_at, 10);
    assert_eq!(decide.claim.updated_at, 20);
    assert_eq!(decide.premium_pool.amount, 3000);
    assert_eq!(decide.user_usdc_account.amount, 2000);
}
