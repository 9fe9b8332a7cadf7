//! The stored records of the protocol: their content and what makes them well formed.

use vstd::prelude::*;
use crate::address::Address;

verus! {

/// The protocol's one configuration record.
#[derive(Clone, Copy, Debug, PartialEq, Eq)]
pub struct Config {
    /// The party that may create policies and decide claims; fixed at creation.
    pub authority: Address,
    /// Denomination of premiums and claim payments.
    pub usdc_mint: Address,
    /// Denomination of staked capital.
    pub aph_mint: Address,
    /// Largest claim that is paid without review; with 0 no claim is.
    pub fast_claim_threshold: u64,
    /// Number of policies created so far, and the id of the next one.
    pub next_policy_id: u64,
}

/// A coverage template that members enroll against. Never changed once created.
#[derive(Clone, Copy, Debug, PartialEq, Eq)]
pub struct Policy {
    pub creator: Address,
    pub monthly_premium: u64,
    pub coverage_limit: u64,
}

impl Policy {
    /// Both amounts of a policy are positive.
    pub open spec fn wf(self) -> bool {
        self.monthly_premium > 0 && self.coverage_limit > 0
    }
}

/// The enrollment of one party under one policy.
#[derive(Clone, Copy, Debug, PartialEq, Eq)]
pub struct Member {
    /// The enrolled party.
    pub authority: Address,
    /// The policy enrolled under.
    pub policy: Address,
    pub active: bool,
    pub join_timestamp: i64,
    /// Number of claims submitted so far; the sequence number of the next one.
    pub claim_count: u64,
}

/// The capital that one party has staked.
#[derive(Clone, Copy, Debug, PartialEq, Eq)]
pub struct Stake {
    /// The staking party.
    pub authority: Address,
    /// What the party has in the capital pool.
    pub amount: u64,
    /// Time of the latest deposit.
    pub start_timestamp: i64,
}

/// Where a claim stands.
#[derive(Clone, Copy, Debug, PartialEq, Eq, Structural)]
pub enum ClaimStatus {
    /// Reserved: no operation gives a claim this status.
    Submitted,
    /// Paid out, on submission or on approval. Final.
    Paid,
    /// Awaiting the authority's decision.
    NeedsReview,
    /// Turned down by the authority. Final.
    Denied,
}

impl ClaimStatus {
    /// No operation changes a claim in a final status.
    pub open spec fn is_final(self) -> bool {
        self == ClaimStatus::Paid || self == ClaimStatus::Denied
    }
}

/// One request for reimbursement.
#[derive(Clone, Copy, Debug, PartialEq, Eq)]
pub struct Claim {
    /// The membership record claimed under.
    pub member: Address,
    pub amount: u64,
    pub status: ClaimStatus,
    pub submitted_at: i64,
    pub updated_at: i64,
    /// Digest of the documents kept elsewhere.
    pub hash: [u8; 32],
}

impl Claim {
    /// A claim is for a positive amount.
    pub open spec fn wf(self) -> bool {
        self.amount > 0
    }
}

} // verus!
