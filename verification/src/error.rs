//! Why an operation was rejected.

use vstd::prelude::*;

verus! {

/// The reason an operation was rejected. A rejected operation changes nothing.
#[derive(Clone, Copy, Debug, PartialEq, Eq, Structural)]
pub enum TreasuryError {
    /// The quorum given at creation was zero.
    InvalidApprovalsRequired,
    /// An amount or a withdrawal limit was zero.
    InvalidWithdrawalAmount,
    /// The group identifier is longer than 32 bytes.
    InvalidGroupId,
    /// The treasury is paused.
    TreasuryPaused,
    /// The principal is already a member.
    AlreadyMember,
    /// The member list is full.
    TooManyMembers,
    /// The principal is not a member of the treasury.
    NotAMember,
    /// Only the creator may change the membership.
    NotAuthorized,
    /// The amount is above the per-request limit.
    WithdrawalLimitExceeded,
    /// The amount is above the tracked balance.
    InsufficientFunds,
    /// The description is longer than 200 bytes.
    InvalidDescription,
    /// The request is no longer waiting for approvals.
    WithdrawalNotPending,
    /// The member has already approved the request.
    AlreadyApproved,
    /// The request has not reached its quorum, or was already executed.
    WithdrawalNotApproved,
    /// The waiting period of the request has not yet passed.
    TimelockNotExpired,
    /// A counter, a timestamp or the balance would leave its range.
    ArithmeticOverflow,
    /// The ledger gateway reported that it moved nothing.
    TransferFailed,
    /// The waiting period given at creation was negative.
    InvalidTimelockDuration,
}

} // verus!
