use apollo_core::{create_policy, Address, ApolloError, Config, CreatePolicy, Policy};

fn addr(b: u8) -> Address {
    Address::new([b; 32])
}

fn config(next_policy_id: u64) -> Config {
    Config {
        authority: addr(1),
        usdc_mint: addr(10),
        aph_mint: addr(11),
        fast_claim_threshold: 500,
        next_policy_id,
    }
}

#[test]
fn create_policy_returns_the_policy_and_advances_the_counter() {
    let mut ctx = CreatePolicy { config: config(0), authority: addr(1) };
    let policy = create_policy(&mut ctx, 25, 1000).unwrap();
    assert_eq!(policy, Policy { creator: addr(1), monthly_premium: 25, coverage_limit: 1000 });
    assert_eq!(ctx.config, config(1));
    assert_eq!(ctx.authority, addr(1));
}

#[test]
fn create_policy_numbers_policies_in_turn() {
    let mut ctx = CreatePolicy { config: config(41), authority: addr(1) };
    assert!(create_policy(&mut ctx, 1, 1).is_ok());
    assert_eq!(ctx.config.next_policy_id, 42);
    assert!(create_policy(&mut ctx, 2, 2).is_ok());
    assert_eq!(ctx.config.next_policy_id, 43);
}

#[test]
fn create_policy_with_zero_premium_is_refused() {
    let mut ctx = CreatePolicy { config: config(3), authority: addr(1) };
    let before = ctx;
    assert_eq!(create_policy(&mut ctx, 0, 100), Err(ApolloError::InvalidParameter));
    assert_eq!(ctx, before);
}

#[test]
fn create_policy_with_zero_coverage_is_refused() {
    let mut ctx = CreatePolicy { config: config(3), authority: addr(1) };
    let before = ctx;
    assert_eq!(create_policy(&mut ctx, 100, 0), Err(ApolloError::InvalidParameter));
    assert_eq!(ctx, before);
}

#[test]
fn create_policy_by_another_caller_is_unauthorized() {
    let mut ctx = CreatePolicy { config: config(3), authority: addr(2) };
    let before = ctx;
    assert_eq!(create_policy(&mut ctx, 25, 1000), Err(ApolloError::Unauthorized));
    assert_eq!(ctx, before);
}

#[test]
fn create_policy_by_another_caller_is_unauthorized_whatever_the_amounts() {
    let mut ctx = CreatePolicy { config: config(u64::MAX), authority: addr(2) };
    let before = ctx;
    assert_eq!(create_policy(&mut ctx, 0, 0), Err(ApolloError::Unauthorized));
    assert_eq!(ctx, before);
}

#[test]
fn create_policy_with_zero_amount_is_refused_before_the_counter_is_looked_at() {
    let mut ctx = CreatePolicy { config: config(u64::MAX), authority: addr(1) };
    assert_eq!(create_policy(&mut ctx, 0, 100), Err(ApolloError::InvalidParameter));
}

#[test]
fn create_policy_with_a_full_counter_overflows() {
    let mut ctx = CreatePolicy { config: config(u64::MAX), authority: addr(1) };
    let before = ctx;
    assert_eq!(create_policy(&mut ctx, 25, 1000), Err(ApolloError::ArithmeticOverflow));
    assert_eq!(ctx, before);
}

#[test]
fn create_policy_fills_the_last_id() {
    let mut ctx = CreatePolicy { config: config(u64::MAX - 1), authority: addr(1) };
    assert!(create_policy(&mut ctx, u64::MAX, u64::MAX).is_ok());
    assert_eq!(ctx.config.next_policy_id, u64::MAX);
}
