//! Creating policies.

use vstd::prelude::*;
use crate::address::Address;
use crate::error::ApolloError;
use crate::records::{Config, Policy};

verus! {

/// What `create_policy` works on.
#[derive(Clone, Copy, Debug, PartialEq, Eq)]
pub struct CreatePolicy {
    pub config: Config,
    /// The caller.
    pub authority: Address,
}

impl CreatePolicy {
    /// Why the creation of a policy is refused, if it is. The caller must be the protocol
    /// authority, both amounts must be positive, and the policy counter must have room
    /// for one more; where several fail, the first in this order is the reason given.
    pub open spec fn refusal(self, monthly_premium: u64, coverage_limit: u64) -> Option<
        ApolloError,
    > {
        if self.authority != self.config.authority {
            Some(ApolloError::Unauthorized)
        } else if monthly_premium == 0 || coverage_limit == 0 {
            Some(ApolloError::InvalidParameter)
        } else if self.config.next_policy_id == u64::MAX {
            Some(ApolloError::ArithmeticOverflow)
        } else {
            None
        }
    }

    /// The policy that is created: the caller's, with the amounts as given.
    pub open spec fn policy(self, monthly_premium: u64, coverage_limit: u64) -> Policy {
        Policy { creator: self.authority, monthly_premium, coverage_limit }
    }

    /// The state after a policy was created: one more policy is counted.
    pub open spec fn created(self) -> CreatePolicy
        recommends
            self.config.next_policy_id < u64::MAX,
    {
        CreatePolicy {
            config: Config {
                next_policy_id: (self.config.next_policy_id + 1) as u64,
                ..self.config
            },
            ..self
        }
    }
}

/// Creates a policy under the id that the counter shows, and advances the counter by one.
///
/// The new policy is returned for the caller to store under that id. Where the creation
/// is refused, no policy is returned and nothing changes.
pub fn create_policy(ctx: &mut CreatePolicy, monthly_premium: u64, coverage_limit: u64) -> (res:
    Result<Policy, ApolloError>)
    ensures
        match old(ctx).refusal(monthly_premium, coverage_limit) {
            Some(e) => res == Err::<Policy, ApolloError>(e) && *final(ctx) == *old(ctx),
            None => res == Ok::<Policy, ApolloError>(
                old(ctx).policy(monthly_premium, coverage_limit),
            ) && *final(ctx) == old(ctx).created(),
        },
        res matches Ok(p) ==> p.wf(),
        old(ctx).authority != old(ctx).config.authority ==> res == Err::<Policy, ApolloError>(
            ApolloError::Unauthorized,
        ),
{
    if ctx.authority != ctx.config.authority {
        return Err(ApolloError::Unauthorized);
    }
    if monthly_premium == 0 || coverage_limit == 0 {
        return Err(ApolloError::InvalidParameter);
    }
    match ctx.config.next_policy_id.checked_add(1) {
        None => Err(ApolloError::ArithmeticOverflow),
        Some(next) => {
            ctx.config.next_policy_id = next;
            Ok(Policy { creator: ctx.authority, monthly_premium, coverage_limit })
        },
    }
}

} // verus!
