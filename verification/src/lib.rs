//! Claims-and-custody core of a mutual-insurance protocol.
//!
//! One authority defines policies; parties enroll and pay premiums into a premium pool,
//! stake capital into a capital pool, and submit claims, which are paid at once when small
//! and queued for the authority's decision otherwise. Each operation takes the records and
//! balances it touches, checks who calls and what is asked, and either applies all of its
//! changes or refuses and changes nothing.

pub mod address;
pub mod claims;
pub mod custody;
pub mod error;
pub mod laws;
pub mod membership;
pub mod policy;
pub mod records;
pub mod setup;
pub mod staking;

pub use address::Address;
pub use claims::{
    approve_claim, deny_claim, submit_claim, ApproveClaim, DenyClaim, SubmitClaim,
};
pub use custody::TokenAccount;
pub use error::{ApolloError, TransferError};
pub use membership::{enroll_member, pay_premium, EnrollMember, PayPremium};
pub use policy::{create_policy, CreatePolicy};
pub use records::{Claim, ClaimStatus, Config, Member, Policy, Stake};
pub use setup::{initialize, Initialize};
pub use staking::{stake_aph, unstake_aph, StakeAPH, UnstakeAPH};
