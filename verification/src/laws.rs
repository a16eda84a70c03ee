//! What holds of a treasury and its withdrawal requests over their whole
//! life, whatever operations are tried on them and in whatever order.
//!
//! A [`Fund`] is a treasury together with every request it has issued. An
//! [`Operation`] is one call of an operation of this library, and
//! [`Fund::apply`] is what that call does, put together from the same
//! functions that the contracts of the operations are stated in.

use crate::error::TreasuryError;
use crate::keys::lemma_push_keeps_contained;
use crate::ledger::TransferOutcome;
use crate::treasury::{created, creation_rejection, lemma_admitting_keeps_wf, TreasuryView, MAX_MEMBERS};
use crate::withdrawal::{
    approval_rejection, execution_refusal, execution_rejection, lemma_approval_keeps_wf,
    proposal_rejection, proposed, WithdrawalRequestView,
};
use anchor_lang::prelude::Pubkey;
use vstd::prelude::*;

verus! {

/// A treasury with the withdrawal requests it has issued, by identifier.
pub struct Fund {
    pub treasury: TreasuryView,
    pub requests: Map<nat, WithdrawalRequestView>,
}

/// One call of an operation on a fund, with its arguments. An approval or an
/// execution names the request it is addressed to.
pub enum Operation {
    AddMember { admin: Pubkey, new_member: Pubkey },
    Deposit { amount: nat, outcome: TransferOutcome },
    Propose {
        treasury_key: Pubkey,
        proposer: Pubkey,
        amount: nat,
        recipient: Pubkey,
        description: Seq<char>,
        now: int,
    },
    Approve { request_id: nat, approver: Pubkey },
    Execute { request_id: nat, recipient_account: Pubkey, now: int, outcome: TransferOutcome },
}

impl Fund {
    /// The fund of a treasury that has issued no request yet.
    pub open spec fn opening(treasury: TreasuryView) -> Fund {
        Fund { treasury, requests: Map::empty() }
    }

    /// Whether the fund has issued a request with this identifier.
    pub open spec fn has(self, request_id: nat) -> bool {
        self.requests.dom().contains(request_id)
    }

    /// The request on file under `request_id` carries that identifier and is
    /// well-formed.
    pub open spec fn files_well(self, request_id: nat) -> bool {
        &&& self.requests[request_id].request_id == request_id
        &&& self.requests[request_id].wf(self.treasury)
    }

    /// The treasury is well-formed, and so is each request, on file under its
    /// own identifier.
    pub open spec fn wf(self) -> bool {
        &&& self.treasury.wf()
        &&& forall|id: nat| #[trigger] self.has(id) ==> self.files_well(id)
    }

    /// Whether the operation goes through. One that is addressed to a request
    /// that the fund never issued does not.
    pub open spec fn accepts(self, op: Operation) -> bool {
        match op {
            Operation::AddMember { admin, new_member } => {
                self.treasury.admission_rejection(admin, new_member) is None
            },
            Operation::Deposit { amount, outcome } => {
                self.treasury.deposit_rejection(amount, outcome) is None
            },
            Operation::Propose { proposer, amount, description, now, .. } => {
                proposal_rejection(self.treasury, proposer, amount, description, now) is None
            },
            Operation::Approve { request_id, approver } => {
                &&& self.has(request_id)
                &&& approval_rejection(self.treasury, self.requests[request_id], approver) is None
            },
            Operation::Execute { request_id, recipient_account, now, outcome } => {
                &&& self.has(request_id)
                &&& execution_rejection(
                    self.treasury,
                    self.requests[request_id],
                    recipient_account,
                    now,
                    outcome,
                ) is None
            },
        }
    }

    /// The fund after the operation: changed as the operation says where it
    /// goes through, and as it was where it does not.
    pub open spec fn apply(self, op: Operation) -> Fund {
        if !self.accepts(op) {
            self
        } else {
            match op {
                Operation::AddMember { new_member, .. } => {
                    Fund { treasury: self.treasury.admitting(new_member), ..self }
                },
                Operation::Deposit { amount, .. } => {
                    Fund { treasury: self.treasury.credited(amount), ..self }
                },
                Operation::Propose {
                    treasury_key,
                    proposer,
                    amount,
                    recipient,
                    description,
                    now,
                } => {
                    let request = proposed(
                        self.treasury,
                        treasury_key,
                        proposer,
                        amount,
                        recipient,
                        description,
                        now,
                    );
                    Fund {
                        treasury: self.treasury.issuing(),
                        requests: self.requests.insert(self.treasury.next_request_id, request),
                    }
                },
                Operation::Approve { request_id, approver } => {
                    let request = self.requests[request_id].approved_by(
                        approver,
                        self.treasury.approvals_required,
                    );
                    Fund { requests: self.requests.insert(request_id, request), ..self }
                },
                Operation::Execute { request_id, .. } => {
                    let request = self.requests[request_id];
                    Fund {
                        treasury: self.treasury.debited(request.amount),
                        requests: self.requests.insert(request_id, request.executed()),
                    }
                },
            }
        }
    }

    /// The fund after the operations `ops`, tried one after the other.
    pub open spec fn run(self, ops: Seq<Operation>) -> Fund
        decreases ops.len(),
    {
        if ops.len() == 0 {
            self
        } else {
            self.run(ops.drop_last()).apply(ops.last())
        }
    }

    /// The identifier that the operation issues, if it is a proposal that goes
    /// through.
    pub open spec fn issues(self, op: Operation) -> Option<nat> {
        if op is Propose && self.accepts(op) {
            Some(self.treasury.next_request_id)
        } else {
            None
        }
    }

    /// The identifiers that the operations `ops` issue, in the order of issue.
    pub open spec fn issued(self, ops: Seq<Operation>) -> Seq<nat>
        decreases ops.len(),
    {
        if ops.len() == 0 {
            Seq::empty()
        } else {
            let earlier = self.issued(ops.drop_last());
            match self.run(ops.drop_last()).issues(ops.last()) {
                Some(id) => earlier.push(id),
                None => earlier,
            }
        }
    }

    /// What the operation brings into the treasury: the amount of a deposit
    /// that goes through, the amount of an execution that goes through as a
    /// loss, and nothing otherwise.
    pub open spec fn inflow(self, op: Operation) -> int {
        if !self.accepts(op) {
            0
        } else {
            match op {
                Operation::Deposit { amount, .. } => amount as int,
                Operation::Execute { request_id, .. } => -(self.requests[request_id].amount as int),
                _ => 0,
            }
        }
    }

    /// What the operations `ops` bring into the treasury, all in all.
    pub open spec fn net_inflow(self, ops: Seq<Operation>) -> int
        decreases ops.len(),
    {
        if ops.len() == 0 {
            0
        } else {
            self.net_inflow(ops.drop_last()) + self.run(ops.drop_last()).inflow(ops.last())
        }
    }
}

/// The fund of a newly created treasury is well-formed.
pub proof fn opening_is_wf(
    group_id: Seq<char>,
    approvals_required: nat,
    withdrawal_limit: nat,
    timelock_duration: int,
    creator: Pubkey,
    now: int,
)
    requires
        creation_rejection(group_id, approvals_required, withdrawal_limit, timelock_duration)
            is None,
    ensures
        Fund::opening(
            created(group_id, approvals_required, withdrawal_limit, timelock_duration, creator, now),
        ).wf(),
{
    let treasury = created(
        group_id,
        approvals_required,
        withdrawal_limit,
        timelock_duration,
        creator,
        now,
    );
    assert(treasury.members[0] == creator);
}

/// No operation breaks a well-formed fund: members stay distinct and at most
/// ten, the creator stays a member, and every request keeps its identifier,
/// its approvals from distinct members, and a status that agrees with the
/// number of its approvals.
pub proof fn operations_keep_wf(fund: Fund, op: Operation)
    requires
        fund.wf(),
    ensures
        fund.apply(op).wf(),
{
    let after = fund.apply(op);
    if fund.accepts(op) {
        match op {
            Operation::AddMember { new_member, .. } => {
                lemma_admitting_keeps_wf(fund.treasury, new_member);
            },
            Operation::Approve { request_id, approver } => {
                lemma_approval_keeps_wf(fund.treasury, fund.requests[request_id], approver);
            },
            _ => {},
        }
        assert forall|id: nat| #[trigger] after.has(id) implies after.files_well(id) by {
            if fund.has(id) {
                assert(fund.files_well(id));
                if let Operation::AddMember { new_member, .. } = op {
                    lemma_admitting_keeps_requests(fund.treasury, new_member, fund.requests[id]);
                }
            }
        }
    }
}

/// A request stays well-formed when a principal is admitted to its treasury.
proof fn lemma_admitting_keeps_requests(
    treasury: TreasuryView,
    new_member: Pubkey,
    request: WithdrawalRequestView,
)
    requires
        request.wf(treasury),
    ensures
        request.wf(treasury.admitting(new_member)),
{
    let after = treasury.admitting(new_member);
    assert forall|i: int| 0 <= i < request.approvals.len() implies after.is_member(
        #[trigger] request.approvals[i],
    ) by {
        lemma_push_keeps_contained(treasury.members, new_member, request.approvals[i]);
    }
}

/// No run of operations breaks a well-formed fund.
pub proof fn runs_keep_wf(fund: Fund, ops: Seq<Operation>)
    requires
        fund.wf(),
    ensures
        fund.run(ops).wf(),
    decreases ops.len(),
{
    if ops.len() > 0 {
        runs_keep_wf(fund, ops.drop_last());
        operations_keep_wf(fund.run(ops.drop_last()), ops.last());
    }
}

/// The terms of a treasury are fixed at its creation: no operation changes
/// its group, its creator, its quorum, its withdrawal limit, its waiting
/// period, its time of creation or whether it is paused. Members are only
/// ever added, at the end of the list.
pub proof fn treasury_terms_are_fixed(fund: Fund, op: Operation)
    ensures
        ({
            let before = fund.treasury;
            let after = fund.apply(op).treasury;
            &&& after.group_id == before.group_id
            &&& after.creator == before.creator
            &&& after.approvals_required == before.approvals_required
            &&& after.withdrawal_limit == before.withdrawal_limit
            &&& after.timelock_duration == before.timelock_duration
            &&& after.created_at == before.created_at
            &&& after.is_paused == before.is_paused
            &&& before.members.is_prefix_of(after.members)
        }),
{
}

/// The balance is never negative, and it never falls but by the execution of
/// a withdrawal: where an operation leaves less in the treasury than it
/// found, it is the execution of a request that was `Approved` and is now
/// `Executed`, the ledger gateway has moved the funds, and what is missing is
/// the amount of that request, which the balance covered.
pub proof fn balance_falls_only_by_execution(fund: Fund, op: Operation)
    ensures
        fund.apply(op).treasury.balance >= 0,
        fund.apply(op).treasury.balance < fund.treasury.balance ==> {
            &&& op matches Operation::Execute { request_id, outcome, .. }
            &&& outcome is Completed
            &&& fund.has(request_id)
            &&& fund.requests[request_id].status is Approved
            &&& fund.apply(op).requests[request_id].status is Executed
            &&& fund.requests[request_id].amount <= fund.treasury.balance
            &&& fund.apply(op).treasury.balance == fund.treasury.balance
                - fund.requests[request_id].amount
        },
{
}

/// The balance follows the ledger: after any run of operations it is what it
/// was, plus the deposits that went through, less the withdrawals that were
/// executed.
pub proof fn balance_follows_the_ledger(fund: Fund, ops: Seq<Operation>)
    ensures
        fund.run(ops).treasury.balance == fund.treasury.balance + fund.net_inflow(ops),
    decreases ops.len(),
{
    if ops.len() > 0 {
        balance_follows_the_ledger(fund, ops.drop_last());
    }
}

/// Nobody approves twice: once the approval of `approver` is on a request,
/// every later approval of that request by `approver` is rejected, whatever
/// was done to the fund in between, and leaves the fund, and with it the
/// approvals of the request, as it is.
pub proof fn repeated_approval_is_rejected(
    fund: Fund,
    request_id: nat,
    approver: Pubkey,
    between: Seq<Operation>,
)
    requires
        fund.wf(),
        fund.accepts(Operation::Approve { request_id, approver }),
    ensures
        ({
            let again = Operation::Approve { request_id, approver };
            let later = fund.apply(again).run(between);
            &&& later.has(request_id)
            &&& later.requests[request_id].is_approved_by(approver)
            &&& approval_rejection(later.treasury, later.requests[request_id], approver) is Some
            &&& !later.accepts(again)
            &&& later.apply(again) == later
        }),
{
    let first = Operation::Approve { request_id, approver };
    let approved = fund.apply(first);
    let before = fund.requests[request_id].approvals;
    assert(approved.requests[request_id].approvals[before.len() as int] == approver);
    operations_keep_wf(fund, first);
    lemma_approvals_stay(approved, request_id, approver, between);
}

/// An approval stays on its request through every run of operations.
proof fn lemma_approvals_stay(fund: Fund, request_id: nat, approver: Pubkey, ops: Seq<Operation>)
    requires
        fund.wf(),
        fund.has(request_id),
        fund.requests[request_id].is_approved_by(approver),
    ensures
        fund.run(ops).has(request_id),
        fund.run(ops).requests[request_id].is_approved_by(approver),
    decreases ops.len(),
{
    if ops.len() > 0 {
        lemma_approvals_stay(fund, request_id, approver, ops.drop_last());
        runs_keep_wf(fund, ops.drop_last());
        let before = fund.run(ops.drop_last());
        let approvals = before.requests[request_id].approvals;
        let i = choose|i: int| 0 <= i < approvals.len() && approvals[i] == approver;
        requests_move_forward(before, ops.last(), request_id);
        assert(before.apply(ops.last()).requests[request_id].approvals[i] == approver);
    }
}

/// A request stays on file under its identifier and keeps its terms: no
/// operation changes its treasury, proposer, recipient, amount, description
/// or times. Approvals are only ever added, at the end of the list, and the
/// status moves forward only: from `Pending` to `Approved` by an approval,
/// and from `Approved` to `Executed` by an execution.
pub proof fn requests_move_forward(fund: Fund, op: Operation, request_id: nat)
    requires
        fund.wf(),
        fund.has(request_id),
    ensures
        fund.apply(op).has(request_id),
        ({
            let before = fund.requests[request_id];
            let after = fund.apply(op).requests[request_id];
            &&& after.request_id == before.request_id
            &&& after.treasury == before.treasury
            &&& after.proposer == before.proposer
            &&& after.recipient == before.recipient
            &&& after.amount == before.amount
            &&& after.description == before.description
            &&& after.proposed_at == before.proposed_at
            &&& after.timelock_expiry == before.timelock_expiry
            &&& before.approvals.is_prefix_of(after.approvals)
            &&& {
                ||| after.status == before.status
                ||| before.status is Pending && after.status is Approved && op is Approve
                ||| before.status is Approved && after.status is Executed && op is Execute
            }
        }),
{
    assert(fund.files_well(request_id));
}

/// A request becomes `Executed` in one way only: where an operation leaves a
/// request `Executed` that was not so before, the operation is the execution
/// of that request in favour of its recipient, the request was `Approved`,
/// its waiting period had passed at the time of the call, and the ledger
/// gateway has moved the funds. No request is `Executed` from its proposal on.
pub proof fn executed_only_after_approval_and_expiry(fund: Fund, op: Operation, request_id: nat)
    requires
        fund.apply(op).has(request_id),
        fund.apply(op).requests[request_id].status is Executed,
        !(fund.has(request_id) && fund.requests[request_id].status is Executed),
    ensures
        fund.has(request_id),
        fund.requests[request_id].status is Approved,
        op matches Operation::Execute { request_id: executed, recipient_account, now, outcome } && {
            &&& executed == request_id
            &&& recipient_account == fund.requests[request_id].recipient
            &&& now >= fund.requests[request_id].timelock_expiry
            &&& outcome is Completed
        },
{
}

/// The same over a run of operations: a request that is `Executed` at the
/// end of a run, and was not at its start, was executed by one operation of
/// the run, which found it `Approved` and its waiting period over. The
/// result is the place of that operation in the run.
pub proof fn executed_somewhere_in_the_run(fund: Fund, ops: Seq<Operation>, request_id: nat) -> (at:
    int)
    requires
        fund.run(ops).has(request_id),
        fund.run(ops).requests[request_id].status is Executed,
        !(fund.has(request_id) && fund.requests[request_id].status is Executed),
    ensures
        0 <= at < ops.len(),
        fund.run(ops.take(at)).has(request_id),
        fund.run(ops.take(at)).requests[request_id].status is Approved,
        ops[at] matches Operation::Execute { request_id: executed, recipient_account, now, outcome }
            && {
            &&& executed == request_id
            &&& recipient_account == fund.run(ops.take(at)).requests[request_id].recipient
            &&& now >= fund.run(ops.take(at)).requests[request_id].timelock_expiry
            &&& outcome is Completed
        },
    decreases ops.len(),
{
    assert(ops.len() > 0);
    let earlier = ops.drop_last();
    let before = fund.run(earlier);
    if before.has(request_id) && before.requests[request_id].status is Executed {
        let at = executed_somewhere_in_the_run(fund, earlier, request_id);
        assert(earlier.take(at) == ops.take(at));
        at
    } else {
        executed_only_after_approval_and_expiry(before, ops.last(), request_id);
        assert(ops.take(ops.len() - 1) == earlier);
        ops.len() - 1
    }
}

/// An executed request stays executed, and nothing about it changes again.
pub proof fn executed_is_final(fund: Fund, op: Operation, request_id: nat)
    requires
        fund.wf(),
        fund.has(request_id),
        fund.requests[request_id].status is Executed,
    ensures
        fund.apply(op).has(request_id),
        fund.apply(op).requests[request_id] == fund.requests[request_id],
{
    assert(fund.files_well(request_id));
}

/// The next request identifier never falls, and only a proposal that goes
/// through moves it, by one, past the identifier that it has just given to
/// the new request.
pub proof fn counter_moves_only_by_issue(fund: Fund, op: Operation)
    ensures
        match fund.issues(op) {
            Some(id) => {
                &&& id == fund.treasury.next_request_id
                &&& fund.apply(op).treasury.next_request_id == id + 1
                &&& fund.apply(op).has(id)
                &&& fund.apply(op).requests[id].request_id == id
            },
            None => fund.apply(op).treasury.next_request_id == fund.treasury.next_request_id,
        },
{
}

/// Request identifiers are issued in strictly increasing order and never
/// again: of the identifiers that a run of operations issues, each is larger
/// than all that were issued before it, none is below the counter that the
/// run started from, and all are below the counter that it ends with. A
/// rejected proposal issues nothing and leaves the counter alone.
pub proof fn identifiers_strictly_increase(fund: Fund, ops: Seq<Operation>)
    ensures
        fund.treasury.next_request_id <= fund.run(ops).treasury.next_request_id,
        forall|i: int|
            0 <= i < fund.issued(ops).len() ==> fund.treasury.next_request_id
                <= #[trigger] fund.issued(ops)[i] < fund.run(ops).treasury.next_request_id,
        forall|i: int, j: int|
            0 <= i < j < fund.issued(ops).len() ==> fund.issued(ops)[i] < fund.issued(ops)[j],
    decreases ops.len(),
{
    let all = fund.issued(ops);
    if ops.len() > 0 {
        let earlier = fund.issued(ops.drop_last());
        identifiers_strictly_increase(fund, ops.drop_last());
        counter_moves_only_by_issue(fund.run(ops.drop_last()), ops.last());
        assert forall|i: int| 0 <= i < all.len() implies fund.treasury.next_request_id
            <= #[trigger] all[i] < fund.run(ops).treasury.next_request_id by {
            if i < earlier.len() {
                assert(all[i] == earlier[i]);
            }
        }
        assert forall|i: int, j: int| 0 <= i < j < all.len() implies all[i] < all[j] by {
            assert(all[i] == earlier[i]);
            if j < earlier.len() {
                assert(all[j] == earlier[j]);
            }
        }
    } else {
        assert(all.len() == 0);
    }
}

/// An identifier that is issued was never in use: in a well-formed fund no
/// request carries the identifier that the next proposal will get.
pub proof fn issued_identifier_is_fresh(fund: Fund, op: Operation)
    requires
        fund.wf(),
    ensures
        fund.issues(op) matches Some(id) ==> !fund.has(id),
{
    let id = fund.treasury.next_request_id;
    if fund.has(id) {
        assert(fund.files_well(id));
    }
}

/// A request never has more approvals than the treasury has members, so never
/// more than ten; and a request that is `Approved` or `Executed` has its
/// quorum of approvals, each from another member.
pub proof fn approvals_are_distinct_members(treasury: TreasuryView, request: WithdrawalRequestView)
    requires
        treasury.wf(),
        request.wf(treasury),
    ensures
        request.approvals.no_duplicates(),
        forall|key: Pubkey| request.is_approved_by(key) ==> treasury.is_member(key),
        request.approvals.len() <= treasury.members.len() <= MAX_MEMBERS,
        request.status is Approved || request.status is Executed ==> request.approvals.len()
            >= treasury.approvals_required,
{
    let approvals = request.approvals;
    let members = treasury.members;
    assert forall|key: Pubkey| request.is_approved_by(key) implies treasury.is_member(key) by {
        let i = choose|i: int| 0 <= i < approvals.len() && approvals[i] == key;
        assert(treasury.is_member(approvals[i]));
    }
    assert(approvals.to_set().subset_of(members.to_set())) by {
        assert forall|key: Pubkey| approvals.to_set().contains(key) implies members.to_set().contains(
            key,
        ) by {
            assert(request.is_approved_by(key));
        }
    }
    approvals.unique_seq_to_set();
    members.unique_seq_to_set();
    vstd::seq_lib::seq_to_set_is_finite(members);
    vstd::set_lib::lemma_len_subset(approvals.to_set(), members.to_set());
}

/// A paused treasury rejects every operation with `TreasuryPaused`, whatever
/// else holds of the call; only an admission that does not come from the
/// creator is turned away as `NotAuthorized` first. Nothing changes.
pub proof fn paused_treasury_rejects_everything(fund: Fund, op: Operation)
    requires
        fund.treasury.is_paused,
    ensures
        !fund.accepts(op),
        fund.apply(op) == fund,
        match op {
            Operation::AddMember { admin, new_member } => {
                fund.treasury.admission_rejection(admin, new_member) == Some(
                    if admin == fund.treasury.creator {
                        TreasuryError::TreasuryPaused
                    } else {
                        TreasuryError::NotAuthorized
                    },
                )
            },
            Operation::Deposit { amount, outcome } => {
                &&& fund.treasury.deposit_refusal(amount) == Some(TreasuryError::TreasuryPaused)
                &&& fund.treasury.deposit_rejection(amount, outcome) == Some(
                    TreasuryError::TreasuryPaused,
                )
            },
            Operation::Propose { proposer, amount, description, now, .. } => {
                proposal_rejection(fund.treasury, proposer, amount, description, now) == Some(
                    TreasuryError::TreasuryPaused,
                )
            },
            Operation::Approve { request_id, approver } => {
                approval_rejection(fund.treasury, fund.requests[request_id], approver) == Some(
                    TreasuryError::TreasuryPaused,
                )
            },
            Operation::Execute { request_id, recipient_account, now, outcome } => {
                let request = fund.requests[request_id];
                &&& execution_refusal(fund.treasury, request, recipient_account, now) == Some(
                    TreasuryError::TreasuryPaused,
                )
                &&& execution_rejection(fund.treasury, request, recipient_account, now, outcome)
                    == Some(TreasuryError::TreasuryPaused)
            },
        },
{
}

/// A transfer that the library names and the ledger gateway carries out is
/// always booked: a deposit is credited, and a withdrawal is executed, exactly
/// when its transfer was named and the gateway has moved the funds. So the
/// gateway never moves funds that the library then turns away.
pub proof fn named_transfers_are_booked(
    treasury: TreasuryView,
    request: WithdrawalRequestView,
    amount: nat,
    recipient_account: Pubkey,
    now: int,
    outcome: TransferOutcome,
)
    ensures
        treasury.deposit_rejection(amount, outcome) is None <==> treasury.deposit_refusal(amount)
            is None && outcome is Completed,
        execution_rejection(treasury, request, recipient_account, now, outcome) is None
            <==> execution_refusal(treasury, request, recipient_account, now) is None
            && outcome is Completed,
{
}

/// The waiting period is a delay: a request of a well-formed treasury cannot
/// be executed before the time of its proposal, nor before its waiting period
/// is over.
pub proof fn waiting_period_is_a_delay(
    treasury: TreasuryView,
    request: WithdrawalRequestView,
    recipient_account: Pubkey,
    now: int,
    outcome: TransferOutcome,
)
    requires
        treasury.wf(),
        request.wf(treasury),
    ensures
        request.timelock_expiry >= request.proposed_at,
        execution_rejection(treasury, request, recipient_account, now, outcome) is None ==> now
            >= request.timelock_expiry,
        execution_refusal(treasury, request, recipient_account, now) is None ==> now
            >= request.timelock_expiry,
{
}

} // verus!
