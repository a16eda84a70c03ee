//! The treasury: its governance parameters, its members and its tracked
//! balance, with the operations that create it, admit members and take
//! deposits.

use crate::error::TreasuryError;
use crate::keys::{
    contains_key, copy_keys, lemma_push_keeps_contained, lemma_push_keeps_distinct, same_key,
};
use crate::ledger::{Transfer, TransferOutcome};
use anchor_lang::prelude::Pubkey;
use vstd::prelude::*;

verus! {

/// The largest number of members a treasury can have.
pub const MAX_MEMBERS: usize = 10;

/// The largest length of a group identifier, in bytes.
pub const MAX_GROUP_ID_LEN: usize = 32;

/// The length of a text in bytes, as UTF-8.
pub open spec fn byte_len(text: Seq<char>) -> nat {
    vstd::utf8::encode_utf8(text).len()
}

/// The shared fund of one group and the rules that govern it.
#[derive(Debug, PartialEq, Eq)]
pub struct Treasury {
    /// The identifier of the group that owns the fund.
    pub group_id: String,
    /// The principal that created the treasury and administers its members.
    pub creator: Pubkey,
    /// The principals that may propose and approve withdrawals, in the order
    /// in which they joined.
    pub members: Vec<Pubkey>,
    /// The number of distinct approvals a withdrawal needs.
    pub approvals_required: u8,
    /// The largest amount one withdrawal request may ask for.
    pub withdrawal_limit: u64,
    /// The seconds that pass between a proposal and its earliest execution.
    pub timelock_duration: i64,
    /// The native units that the treasury holds.
    pub balance: u64,
    /// The identifier that the next withdrawal request will get.
    pub next_request_id: u64,
    /// The time of creation.
    pub created_at: i64,
    /// While set, every operation on the treasury is rejected.
    pub is_paused: bool,
}

/// A treasury as a mathematical value.
pub struct TreasuryView {
    pub group_id: Seq<char>,
    pub creator: Pubkey,
    pub members: Seq<Pubkey>,
    pub approvals_required: nat,
    pub withdrawal_limit: nat,
    pub timelock_duration: int,
    pub balance: nat,
    pub next_request_id: nat,
    pub created_at: int,
    pub is_paused: bool,
}

impl View for Treasury {
    type V = TreasuryView;

    open spec fn view(&self) -> TreasuryView {
        TreasuryView {
            group_id: self.group_id@,
            creator: self.creator,
            members: self.members@,
            approvals_required: self.approvals_required as nat,
            withdrawal_limit: self.withdrawal_limit as nat,
            timelock_duration: self.timelock_duration as int,
            balance: self.balance as nat,
            next_request_id: self.next_request_id as nat,
            created_at: self.created_at as int,
            is_paused: self.is_paused,
        }
    }
}

impl Clone for Treasury {
    fn clone(&self) -> (copy: Self)
        ensures
            copy@ == self@,
    {
        Treasury {
            group_id: self.group_id.clone(),
            creator: self.creator,
            members: copy_keys(&self.members),
            approvals_required: self.approvals_required,
            withdrawal_limit: self.withdrawal_limit,
            timelock_duration: self.timelock_duration,
            balance: self.balance,
            next_request_id: self.next_request_id,
            created_at: self.created_at,
            is_paused: self.is_paused,
        }
    }
}

impl TreasuryView {
    /// What holds of every treasury that `create_treasury` made and that only
    /// the operations of this library changed: no member occurs twice, the
    /// creator is a member, there are at most ten members, the quorum and the
    /// withdrawal limit are positive, the waiting period is not negative, and
    /// request identifiers start at 1.
    pub open spec fn wf(self) -> bool {
        &&& byte_len(self.group_id) <= MAX_GROUP_ID_LEN
        &&& self.members.no_duplicates()
        &&& self.members.contains(self.creator)
        &&& self.members.len() <= MAX_MEMBERS
        &&& self.approvals_required >= 1
        &&& self.withdrawal_limit >= 1
        &&& self.timelock_duration >= 0
        &&& self.next_request_id >= 1
    }

    /// Whether `key` is a member.
    pub open spec fn is_member(self, key: Pubkey) -> bool {
        self.members.contains(key)
    }

    /// Why `admin` may not admit `new_member`, if anything stands against it.
    pub open spec fn admission_rejection(self, admin: Pubkey, new_member: Pubkey) -> Option<
        TreasuryError,
    > {
        if admin != self.creator {
            Some(TreasuryError::NotAuthorized)
        } else if self.is_paused {
            Some(TreasuryError::TreasuryPaused)
        } else if self.is_member(new_member) {
            Some(TreasuryError::AlreadyMember)
        } else if self.members.len() >= MAX_MEMBERS {
            Some(TreasuryError::TooManyMembers)
        } else {
            None
        }
    }

    /// The treasury with `new_member` as its newest member.
    pub open spec fn admitting(self, new_member: Pubkey) -> TreasuryView {
        TreasuryView { members: self.members.push(new_member), ..self }
    }

    /// Why the ledger gateway must not be asked to take in `amount`, if
    /// anything stands against it. A deposit that the balance could not hold
    /// is refused here, before any funds move.
    pub open spec fn deposit_refusal(self, amount: nat) -> Option<TreasuryError> {
        if self.is_paused {
            Some(TreasuryError::TreasuryPaused)
        } else if amount == 0 {
            Some(TreasuryError::InvalidWithdrawalAmount)
        } else if self.balance + amount > u64::MAX {
            Some(TreasuryError::ArithmeticOverflow)
        } else {
            None
        }
    }

    /// Why a deposit of `amount` is not credited, given the gateway's answer,
    /// if anything stands against it. The gateway's failure is reported
    /// before the balance is looked at.
    pub open spec fn deposit_rejection(self, amount: nat, outcome: TransferOutcome) -> Option<
        TreasuryError,
    > {
        if self.is_paused {
            Some(TreasuryError::TreasuryPaused)
        } else if amount == 0 {
            Some(TreasuryError::InvalidWithdrawalAmount)
        } else if outcome is Failed {
            Some(TreasuryError::TransferFailed)
        } else if self.balance + amount > u64::MAX {
            Some(TreasuryError::ArithmeticOverflow)
        } else {
            None
        }
    }

    /// The treasury with `amount` added to its balance.
    pub open spec fn credited(self, amount: nat) -> TreasuryView {
        TreasuryView { balance: self.balance + amount, ..self }
    }

    /// The treasury with `amount` taken from its balance.
    pub open spec fn debited(self, amount: nat) -> TreasuryView
        recommends
            amount <= self.balance,
    {
        TreasuryView { balance: (self.balance - amount) as nat, ..self }
    }

    /// The treasury after it has issued its next request identifier.
    pub open spec fn issuing(self) -> TreasuryView {
        TreasuryView { next_request_id: self.next_request_id + 1, ..self }
    }
}

/// Why a treasury with these parameters cannot be created, if anything stands
/// against it.
pub open spec fn creation_rejection(
    group_id: Seq<char>,
    approvals_required: nat,
    withdrawal_limit: nat,
    timelock_duration: int,
) -> Option<TreasuryError> {
    if approvals_required == 0 {
        Some(TreasuryError::InvalidApprovalsRequired)
    } else if withdrawal_limit == 0 {
        Some(TreasuryError::InvalidWithdrawalAmount)
    } else if byte_len(group_id) > MAX_GROUP_ID_LEN {
        Some(TreasuryError::InvalidGroupId)
    } else if timelock_duration < 0 {
        Some(TreasuryError::InvalidTimelockDuration)
    } else {
        None
    }
}

/// The treasury as it is right after its creation: empty, not paused, with
/// the creator as its only member and 1 as its first request identifier.
pub open spec fn created(
    group_id: Seq<char>,
    approvals_required: nat,
    withdrawal_limit: nat,
    timelock_duration: int,
    creator: Pubkey,
    now: int,
) -> TreasuryView {
    TreasuryView {
        group_id,
        creator,
        members: seq![creator],
        approvals_required,
        withdrawal_limit,
        timelock_duration,
        balance: 0,
        next_request_id: 1,
        created_at: now,
        is_paused: false,
    }
}

/// Creates the treasury of the group `group_id`, at the time `now`, with
/// `creator` as its first member and its administrator.
///
/// The quorum and the withdrawal limit must be positive, the group identifier
/// at most 32 bytes long and the waiting period not negative; the first of
/// these that fails decides the error. The quorum may be larger than the
/// member list will ever be.
pub fn create_treasury(
    group_id: String,
    approvals_required: u8,
    withdrawal_limit: u64,
    timelock_duration: i64,
    creator: Pubkey,
    now: i64,
) -> (result: Result<Treasury, TreasuryError>)
    ensures
        match creation_rejection(
            group_id@,
            approvals_required as nat,
            withdrawal_limit as nat,
            timelock_duration as int,
        ) {
            Some(e) => result == Err::<Treasury, TreasuryError>(e),
            None => result is Ok && result->Ok_0@ == created(
                group_id@,
                approvals_required as nat,
                withdrawal_limit as nat,
                timelock_duration as int,
                creator,
                now as int,
            ),
        },
        result matches Ok(treasury) ==> treasury@.wf(),
{
    if approvals_required == 0 {
        return Err(TreasuryError::InvalidApprovalsRequired);
    }
    if withdrawal_limit == 0 {
        return Err(TreasuryError::InvalidWithdrawalAmount);
    }
    if group_id.as_str().as_bytes().len() > MAX_GROUP_ID_LEN {
        return Err(TreasuryError::InvalidGroupId);
    }
    if timelock_duration < 0 {
        return Err(TreasuryError::InvalidTimelockDuration);
    }
    let treasury = Treasury {
        group_id,
        creator,
        members: vec![creator],
        approvals_required,
        withdrawal_limit,
        timelock_duration,
        balance: 0,
        next_request_id: 1,
        created_at: now,
        is_paused: false,
    };
    proof {
        assert(treasury.members@ =~= seq![creator]);
    }
    Ok(treasury)
}

/// Admits `new_member` to the treasury, on the authority of `admin`.
///
/// Only the creator may admit members. A paused treasury admits nobody, no
/// principal is admitted twice, and the eleventh member is turned away. On
/// rejection the treasury stays as it was.
pub fn add_member(treasury: &mut Treasury, admin: Pubkey, new_member: Pubkey) -> (result: Result<
    (),
    TreasuryError,
>)
    ensures
        match old(treasury)@.admission_rejection(admin, new_member) {
            Some(e) => result == Err::<(), TreasuryError>(e) && *final(treasury) == *old(treasury),
            None => result is Ok && final(treasury)@ == old(treasury)@.admitting(new_member),
        },
        old(treasury)@.wf() ==> final(treasury)@.wf(),
{
    if !same_key(&admin, &treasury.creator) {
        return Err(TreasuryError::NotAuthorized);
    }
    if treasury.is_paused {
        return Err(TreasuryError::TreasuryPaused);
    }
    if contains_key(&treasury.members, &new_member) {
        return Err(TreasuryError::AlreadyMember);
    }
    if treasury.members.len() >= MAX_MEMBERS {
        return Err(TreasuryError::TooManyMembers);
    }
    treasury.members.push(new_member);
    proof {
        if old(treasury)@.wf() {
            lemma_admitting_keeps_wf(old(treasury)@, new_member);
        }
    }
    Ok(())
}

/// Admitting a principal that is not yet a member, while there is room, keeps
/// the treasury well-formed.
pub proof fn lemma_admitting_keeps_wf(treasury: TreasuryView, new_member: Pubkey)
    requires
        treasury.wf(),
        !treasury.is_member(new_member),
        treasury.members.len() < MAX_MEMBERS,
    ensures
        treasury.admitting(new_member).wf(),
{
    lemma_push_keeps_distinct(treasury.members, new_member);
    lemma_push_keeps_contained(treasury.members, new_member, treasury.creator);
}

/// Names the transfer that brings a deposit of `amount` from `depositor` into
/// the holding account `treasury_key` of the treasury.
///
/// A paused treasury takes no deposit, a deposit moves at least one unit, and
/// the balance must be able to hold it; the first of these that fails decides
/// the error. The ledger gateway is to be asked only when this returns a
/// transfer: a transfer that is named and carried out is always credited.
pub fn deposit_transfer(
    treasury: &Treasury,
    treasury_key: Pubkey,
    depositor: Pubkey,
    amount: u64,
) -> (result: Result<Transfer, TreasuryError>)
    ensures
        match treasury@.deposit_refusal(amount as nat) {
            Some(e) => result == Err::<Transfer, TreasuryError>(e),
            None => result == Ok::<Transfer, TreasuryError>(
                (Transfer { from: depositor, to: treasury_key, amount }),
            ),
        },
{
    if treasury.is_paused {
        return Err(TreasuryError::TreasuryPaused);
    }
    if amount == 0 {
        return Err(TreasuryError::InvalidWithdrawalAmount);
    }
    if treasury.balance.checked_add(amount).is_none() {
        return Err(TreasuryError::ArithmeticOverflow);
    }
    Ok(Transfer { from: depositor, to: treasury_key, amount })
}

/// Credits a deposit of `amount`, given the ledger gateway's answer to the
/// transfer that `deposit_transfer` named.
///
/// The balance grows by `amount` when the treasury is not paused, the amount
/// is positive, the gateway moved the funds and the new balance fits. In
/// every other case the treasury stays as it was, and the first of these
/// conditions that fails decides the error.
pub fn deposit(treasury: &mut Treasury, amount: u64, outcome: TransferOutcome) -> (result: Result<
    (),
    TreasuryError,
>)
    ensures
        match old(treasury)@.deposit_rejection(amount as nat, outcome) {
            Some(e) => result == Err::<(), TreasuryError>(e) && *final(treasury) == *old(treasury),
            None => result is Ok && final(treasury)@ == old(treasury)@.credited(amount as nat),
        },
        old(treasury)@.wf() ==> final(treasury)@.wf(),
{
    if treasury.is_paused {
        return Err(TreasuryError::TreasuryPaused);
    }
    if amount == 0 {
        return Err(TreasuryError::InvalidWithdrawalAmount);
    }
    if outcome == TransferOutcome::Failed {
        return Err(TreasuryError::TransferFailed);
    }
    match treasury.balance.checked_add(amount) {
        Some(balance) => {
            treasury.balance = balance;
            Ok(())
        },
        None => Err(TreasuryError::ArithmeticOverflow),
    }
}

} // verus!
