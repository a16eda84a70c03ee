//! Withdrawal requests and their life: proposed by a member, approved by a
//! quorum of members, executed once the waiting period has passed.
//!
//! ```text
//! Pending --(quorum reached)--> Approved --(executed)--> Executed
//! ```
//!
//! A request whose proposer alone meets the quorum starts as `Approved`.
//! `Rejected` is a status that no operation here gives to a request.

use crate::error::TreasuryError;
use crate::keys::{contains_key, copy_keys, lemma_push_keeps_distinct, same_key};
use crate::ledger::{Transfer, TransferOutcome};
use crate::treasury::{byte_len, Treasury, TreasuryView};
use anchor_lang::prelude::Pubkey;
use vstd::prelude::*;

verus! {

/// The largest length of a request's description, in bytes.
pub const MAX_DESCRIPTION_LEN: usize = 200;

/// Where a withdrawal request stands.
#[derive(Clone, Copy, Debug, PartialEq, Eq, Structural)]
pub enum WithdrawalStatus {
    /// Waiting for more approvals.
    Pending,
    /// The quorum is reached; the request can be executed once its waiting
    /// period has passed.
    Approved,
    /// The funds have left the treasury. Nothing changes the request again.
    Executed,
    /// Turned down. No operation of this library leads here.
    Rejected,
}

/// One proposed transfer out of a treasury, with the approvals it has got.
#[derive(Debug, PartialEq, Eq)]
pub struct WithdrawalRequest {
    /// The holding account of the treasury that the request draws on.
    pub treasury: Pubkey,
    /// The member that proposed the withdrawal.
    pub proposer: Pubkey,
    /// The principal that the funds are meant for.
    pub recipient: Pubkey,
    /// The native units to withdraw.
    pub amount: u64,
    /// What the withdrawal is for.
    pub description: String,
    /// The members that have approved, the proposer first.
    pub approvals: Vec<Pubkey>,
    /// The time of the proposal.
    pub proposed_at: i64,
    /// The earliest time of execution.
    pub timelock_expiry: i64,
    /// Where the request stands.
    pub status: WithdrawalStatus,
    /// The identifier of the request within its treasury.
    pub request_id: u64,
}

/// A withdrawal request as a mathematical value.
pub struct WithdrawalRequestView {
    pub treasury: Pubkey,
    pub proposer: Pubkey,
    pub recipient: Pubkey,
    pub amount: nat,
    pub description: Seq<char>,
    pub approvals: Seq<Pubkey>,
    pub proposed_at: int,
    pub timelock_expiry: int,
    pub status: WithdrawalStatus,
    pub request_id: nat,
}

impl View for WithdrawalRequest {
    type V = WithdrawalRequestView;

    open spec fn view(&self) -> WithdrawalRequestView {
        WithdrawalRequestView {
            treasury: self.treasury,
            proposer: self.proposer,
            recipient: self.recipient,
            amount: self.amount as nat,
            description: self.description@,
            approvals: self.approvals@,
            proposed_at: self.proposed_at as int,
            timelock_expiry: self.timelock_expiry as int,
            status: self.status,
            request_id: self.request_id as nat,
        }
    }
}

impl Clone for WithdrawalRequest {
    fn clone(&self) -> (copy: Self)
        ensures
            copy@ == self@,
    {
        WithdrawalRequest {
            treasury: self.treasury,
            proposer: self.proposer,
            recipient: self.recipient,
            amount: self.amount,
            description: self.description.clone(),
            approvals: copy_keys(&self.approvals),
            proposed_at: self.proposed_at,
            timelock_expiry: self.timelock_expiry,
            status: self.status,
            request_id: self.request_id,
        }
    }
}

/// The status of a request with `approvals` approvals that was `Pending`
/// until now, in a treasury that asks for `approvals_required` of them.
pub open spec fn status_at(approvals: nat, approvals_required: nat) -> WithdrawalStatus {
    if approvals >= approvals_required {
        WithdrawalStatus::Approved
    } else {
        WithdrawalStatus::Pending
    }
}

impl WithdrawalRequestView {
    /// What holds of every request that `propose_withdrawal` issued for
    /// `treasury` and that only the operations of this library changed, on
    /// it or on the treasury.
    pub open spec fn wf(self, treasury: TreasuryView) -> bool {
        &&& 1 <= self.request_id < treasury.next_request_id
        &&& 1 <= self.amount <= treasury.withdrawal_limit
        &&& byte_len(self.description) <= MAX_DESCRIPTION_LEN
        &&& self.timelock_expiry == self.proposed_at + treasury.timelock_duration
        &&& self.approvals.no_duplicates()
        &&& self.approvals.len() >= 1
        &&& self.approvals[0] == self.proposer
        &&& forall|i: int|
            0 <= i < self.approvals.len() ==> treasury.is_member(#[trigger] self.approvals[i])
        &&& self.status is Pending ==> self.approvals.len() < treasury.approvals_required
        &&& (self.status is Approved || self.status is Executed) ==> self.approvals.len()
            >= treasury.approvals_required
        &&& self.status !is Rejected
    }

    /// Whether `key` has approved the request.
    pub open spec fn is_approved_by(self, key: Pubkey) -> bool {
        self.approvals.contains(key)
    }

    /// The request with the approval of `approver` added, in a treasury that
    /// asks for `approvals_required` approvals.
    pub open spec fn approved_by(self, approver: Pubkey, approvals_required: nat) -> Self {
        WithdrawalRequestView {
            approvals: self.approvals.push(approver),
            status: if self.approvals.len() + 1 >= approvals_required {
                WithdrawalStatus::Approved
            } else {
                self.status
            },
            ..self
        }
    }

    /// The request, executed.
    pub open spec fn executed(self) -> Self {
        WithdrawalRequestView { status: WithdrawalStatus::Executed, ..self }
    }
}

/// Why `proposer` cannot propose this withdrawal at the time `now`, if
/// anything stands against it. The end of the waiting period can fall below
/// the range of a timestamp only in a treasury that is not well-formed.
pub open spec fn proposal_rejection(
    treasury: TreasuryView,
    proposer: Pubkey,
    amount: nat,
    description: Seq<char>,
    now: int,
) -> Option<TreasuryError> {
    if treasury.is_paused {
        Some(TreasuryError::TreasuryPaused)
    } else if !treasury.is_member(proposer) {
        Some(TreasuryError::NotAMember)
    } else if amount == 0 {
        Some(TreasuryError::InvalidWithdrawalAmount)
    } else if amount > treasury.withdrawal_limit {
        Some(TreasuryError::WithdrawalLimitExceeded)
    } else if amount > treasury.balance {
        Some(TreasuryError::InsufficientFunds)
    } else if byte_len(description) > MAX_DESCRIPTION_LEN {
        Some(TreasuryError::InvalidDescription)
    } else if now + treasury.timelock_duration > i64::MAX || now + treasury.timelock_duration
        < i64::MIN {
        Some(TreasuryError::ArithmeticOverflow)
    } else if treasury.next_request_id + 1 > u64::MAX {
        Some(TreasuryError::ArithmeticOverflow)
    } else {
        None
    }
}

/// The request that a successful proposal issues: it carries the treasury's
/// next identifier and the proposer's approval, its waiting period runs from
/// `now`, and it is `Approved` at once where one approval is a quorum.
pub open spec fn proposed(
    treasury: TreasuryView,
    treasury_key: Pubkey,
    proposer: Pubkey,
    amount: nat,
    recipient: Pubkey,
    description: Seq<char>,
    now: int,
) -> WithdrawalRequestView {
    WithdrawalRequestView {
        treasury: treasury_key,
        proposer,
        recipient,
        amount,
        description,
        approvals: seq![proposer],
        proposed_at: now,
        timelock_expiry: now + treasury.timelock_duration,
        status: status_at(1, treasury.approvals_required),
        request_id: treasury.next_request_id,
    }
}

/// Why `approver` cannot approve `request`, if anything stands against it.
pub open spec fn approval_rejection(
    treasury: TreasuryView,
    request: WithdrawalRequestView,
    approver: Pubkey,
) -> Option<TreasuryError> {
    if treasury.is_paused {
        Some(TreasuryError::TreasuryPaused)
    } else if !treasury.is_member(approver) {
        Some(TreasuryError::NotAMember)
    } else if request.status !is Pending {
        Some(TreasuryError::WithdrawalNotPending)
    } else if request.is_approved_by(approver) {
        Some(TreasuryError::AlreadyApproved)
    } else {
        None
    }
}

/// Why the ledger gateway must not be asked to pay `request` out into
/// `recipient_account` at the time `now`, if anything stands against it.
pub open spec fn execution_refusal(
    treasury: TreasuryView,
    request: WithdrawalRequestView,
    recipient_account: Pubkey,
    now: int,
) -> Option<TreasuryError> {
    if treasury.is_paused {
        Some(TreasuryError::TreasuryPaused)
    } else if request.status !is Approved {
        Some(TreasuryError::WithdrawalNotApproved)
    } else if now < request.timelock_expiry {
        Some(TreasuryError::TimelockNotExpired)
    } else if treasury.balance < request.amount {
        Some(TreasuryError::InsufficientFunds)
    } else if recipient_account != request.recipient {
        Some(TreasuryError::NotAuthorized)
    } else {
        None
    }
}

/// Why `request` is not executed at the time `now`, given the gateway's
/// answer, if anything stands against it.
pub open spec fn execution_rejection(
    treasury: TreasuryView,
    request: WithdrawalRequestView,
    recipient_account: Pubkey,
    now: int,
    outcome: TransferOutcome,
) -> Option<TreasuryError> {
    if execution_refusal(treasury, request, recipient_account, now) is Some {
        execution_refusal(treasury, request, recipient_account, now)
    } else if outcome is Failed {
        Some(TreasuryError::TransferFailed)
    } else {
        None
    }
}

/// Proposes to withdraw `amount` from the treasury for `recipient`, at the
/// time `now`. `treasury_key` is the treasury's holding account.
///
/// The proposer must be a member of a treasury that is not paused; the amount
/// must be positive, within the withdrawal limit and within the balance; the
/// description must be at most 200 bytes long; and the end of the waiting
/// period and the next request identifier must fit their types. The first of
/// these that fails decides the error, and the treasury stays as it was: a
/// rejected proposal uses up no identifier.
///
/// On success the request carries the treasury's next identifier, which the
/// treasury then moves past, and the proposer's approval.
pub fn propose_withdrawal(
    treasury: &mut Treasury,
    treasury_key: Pubkey,
    proposer: Pubkey,
    amount: u64,
    recipient: Pubkey,
    description: String,
    now: i64,
) -> (result: Result<WithdrawalRequest, TreasuryError>)
    ensures
        match proposal_rejection(old(treasury)@, proposer, amount as nat, description@, now as int) {
            Some(e) => result == Err::<WithdrawalRequest, TreasuryError>(e) && *final(treasury)
                == *old(treasury),
            None => result is Ok && result->Ok_0@ == proposed(
                old(treasury)@,
                treasury_key,
                proposer,
                amount as nat,
                recipient,
                description@,
                now as int,
            ) && final(treasury)@ == old(treasury)@.issuing(),
        },
        old(treasury)@.wf() ==> final(treasury)@.wf(),
        old(treasury)@.wf() ==> (result matches Ok(request) ==> request@.wf(final(treasury)@)),
{
    if treasury.is_paused {
        return Err(TreasuryError::TreasuryPaused);
    }
    if !contains_key(&treasury.members, &proposer) {
        return Err(TreasuryError::NotAMember);
    }
    if amount == 0 {
        return Err(TreasuryError::InvalidWithdrawalAmount);
    }
    if amount > treasury.withdrawal_limit {
        return Err(TreasuryError::WithdrawalLimitExceeded);
    }
    if amount > treasury.balance {
        return Err(TreasuryError::InsufficientFunds);
    }
    if description.as_str().as_bytes().len() > MAX_DESCRIPTION_LEN {
        return Err(TreasuryError::InvalidDescription);
    }
    let timelock_expiry = match now.checked_add(treasury.timelock_duration) {
        Some(expiry) => expiry,
        None => {
            return Err(TreasuryError::ArithmeticOverflow);
        },
    };
    let following_id = match treasury.next_request_id.checked_add(1) {
        Some(id) => id,
        None => {
            return Err(TreasuryError::ArithmeticOverflow);
        },
    };
    let approvals = vec![proposer];
    let status = if approvals.len() >= treasury.approvals_required as usize {
        WithdrawalStatus::Approved
    } else {
        WithdrawalStatus::Pending
    };
    let request = WithdrawalRequest {
        treasury: treasury_key,
        proposer,
        recipient,
        amount,
        description,
        approvals,
        proposed_at: now,
        timelock_expiry,
        status,
        request_id: treasury.next_request_id,
    };
    treasury.next_request_id = following_id;
    proof {
        assert(request.approvals@ =~= seq![proposer]);
    }
    Ok(request)
}

/// Adds the approval of `approver` to `request`, and marks the request
/// `Approved` where that approval completes the quorum of `treasury`.
///
/// The approver must be a member of a treasury that is not paused, the request
/// must be `Pending`, and nobody approves twice. The first of these that
/// fails decides the error, and the request stays as it was.
pub fn approve_withdrawal(
    treasury: &Treasury,
    request: &mut WithdrawalRequest,
    approver: Pubkey,
) -> (result: Result<(), TreasuryError>)
    ensures
        match approval_rejection(treasury@, old(request)@, approver) {
            Some(e) => result == Err::<(), TreasuryError>(e) && *final(request) == *old(request),
            None => result is Ok && final(request)@ == old(request)@.approved_by(
                approver,
                treasury@.approvals_required,
            ),
        },
        old(request)@.wf(treasury@) ==> final(request)@.wf(treasury@),
{
    if treasury.is_paused {
        return Err(TreasuryError::TreasuryPaused);
    }
    if !contains_key(&treasury.members, &approver) {
        return Err(TreasuryError::NotAMember);
    }
    if request.status != WithdrawalStatus::Pending {
        return Err(TreasuryError::WithdrawalNotPending);
    }
    if contains_key(&request.approvals, &approver) {
        return Err(TreasuryError::AlreadyApproved);
    }
    request.approvals.push(approver);
    if request.approvals.len() >= treasury.approvals_required as usize {
        request.status = WithdrawalStatus::Approved;
    }
    proof {
        if old(request)@.wf(treasury@) {
            lemma_approval_keeps_wf(treasury@, old(request)@, approver);
        }
    }
    Ok(())
}

/// An approval that is not rejected keeps the request well-formed.
pub proof fn lemma_approval_keeps_wf(
    treasury: TreasuryView,
    request: WithdrawalRequestView,
    approver: Pubkey,
)
    requires
        request.wf(treasury),
        approval_rejection(treasury, request, approver) is None,
    ensures
        request.approved_by(approver, treasury.approvals_required).wf(treasury),
{
    let after = request.approved_by(approver, treasury.approvals_required).approvals;
    lemma_push_keeps_distinct(request.approvals, approver);
    assert forall|i: int| 0 <= i < after.len() implies treasury.is_member(#[trigger] after[i]) by {
        if i < request.approvals.len() {
            assert(after[i] == request.approvals[i]);
        }
    }
    assert(after[0] == request.approvals[0]);
}

/// Names the transfer that pays `request` out of the holding account
/// `treasury_key` into `recipient_account`, at the time `now`.
///
/// The treasury must not be paused, the request must be `Approved`, its
/// waiting period must have passed, the balance must cover the amount, and
/// `recipient_account` must be the recipient that the request names; the
/// first of these that fails decides the error. The ledger gateway is to be
/// asked only when this returns a transfer.
pub fn withdrawal_transfer(
    treasury: &Treasury,
    treasury_key: Pubkey,
    request: &WithdrawalRequest,
    recipient_account: Pubkey,
    now: i64,
) -> (result: Result<Transfer, TreasuryError>)
    ensures
        match execution_refusal(treasury@, request@, recipient_account, now as int) {
            Some(e) => result == Err::<Transfer, TreasuryError>(e),
            None => result == Ok::<Transfer, TreasuryError>(
                (Transfer { from: treasury_key, to: request.recipient, amount: request.amount }),
            ),
        },
{
    match check_execution(treasury, request, recipient_account, now) {
        Some(e) => Err(e),
        None => Ok(Transfer { from: treasury_key, to: recipient_account, amount: request.amount }),
    }
}

/// The first of the conditions of an execution that fails, if one does.
fn check_execution(
    treasury: &Treasury,
    request: &WithdrawalRequest,
    recipient_account: Pubkey,
    now: i64,
) -> (refusal: Option<TreasuryError>)
    ensures
        refusal == execution_refusal(treasury@, request@, recipient_account, now as int),
{
    if treasury.is_paused {
        Some(TreasuryError::TreasuryPaused)
    } else if request.status != WithdrawalStatus::Approved {
        Some(TreasuryError::WithdrawalNotApproved)
    } else if now < request.timelock_expiry {
        Some(TreasuryError::TimelockNotExpired)
    } else if treasury.balance < request.amount {
        Some(TreasuryError::InsufficientFunds)
    } else if !same_key(&recipient_account, &request.recipient) {
        Some(TreasuryError::NotAuthorized)
    } else {
        None
    }
}

/// Executes `request` at the time `now`, given the ledger gateway's answer to
/// the transfer that `withdrawal_transfer` named.
///
/// The amount leaves the balance and the request becomes `Executed` when the
/// treasury is not paused, the request is `Approved`, its waiting period has
/// passed, the balance covers the amount, `recipient_account` is the
/// recipient that the request names, and the gateway moved the funds. In
/// every other case treasury and request stay as they were, and the first of
/// these conditions that fails decides the error. An executed request is no
/// longer `Approved`, so it is never executed again.
pub fn execute_withdrawal(
    treasury: &mut Treasury,
    request: &mut WithdrawalRequest,
    recipient_account: Pubkey,
    now: i64,
    outcome: TransferOutcome,
) -> (result: Result<(), TreasuryError>)
    ensures
        match execution_rejection(
            old(treasury)@,
            old(request)@,
            recipient_account,
            now as int,
            outcome,
        ) {
            Some(e) => result == Err::<(), TreasuryError>(e) && *final(treasury) == *old(treasury)
                && *final(request) == *old(request),
            None => result is Ok && final(treasury)@ == old(treasury)@.debited(old(request)@.amount)
                && final(request)@ == old(request)@.executed(),
        },
        old(treasury)@.wf() ==> final(treasury)@.wf(),
        old(request)@.wf(old(treasury)@) ==> final(request)@.wf(final(treasury)@),
{
    if let Some(e) = check_execution(treasury, request, recipient_account, now) {
        return Err(e);
    }
    if outcome == TransferOutcome::Failed {
        return Err(TreasuryError::TransferFailed);
    }
    match treasury.balance.checked_sub(request.amount) {
        Some(balance) => {
            treasury.balance = balance;
            request.status = WithdrawalStatus::Executed;
            Ok(())
        },
        None => Err(TreasuryError::ArithmeticOverflow),
    }
}

} // verus!
