//! Why an operation is refused.

use vstd::prelude::*;

verus! {

/// Why the custodial transfer primitive refuses to move funds.
#[derive(Clone, Copy, Debug, PartialEq, Eq, Structural)]
pub enum TransferError {
    /// One of the two balances is not of the expected denomination.
    MintMismatch,
    /// A balance is not held by the party that the transfer names as its holder.
    OwnerMismatch,
    /// The debited balance holds less than the amount.
    InsufficientFunds,
    /// The credited balance cannot hold the amount on top of what it has.
    Overflow,
}

/// Why a protocol operation is refused. A refused operation changes nothing.
#[derive(Clone, Copy, Debug, PartialEq, Eq, Structural)]
pub enum ApolloError {
    /// The caller is not the party that the operation is reserved for.
    Unauthorized,
    /// A numeric input is zero where a positive amount is needed.
    InvalidParameter,
    /// The premium pool holds less than the claim to be paid.
    InsufficientPoolBalance,
    /// The claim is not awaiting review.
    InvalidClaimStatus,
    /// A counter or a staked amount would exceed its range.
    ArithmeticOverflow,
    /// The protocol configuration exists already.
    AlreadyInitialized,
    /// The caller has a membership record already.
    AlreadyEnrolled,
    /// The transfer primitive refused; its reason is handed on unchanged.
    Transfer(TransferError),
}

} // verus!
