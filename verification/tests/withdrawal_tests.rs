use anchor_lang::prelude::Pubkey;
use hawamoni_treasury::{
    add_member, approve_withdrawal, create_treasury, deposit, execute_withdrawal,
    propose_withdrawal, withdrawal_transfer, Transfer, TransferOutcome, Treasury, TreasuryError,
    WithdrawalRequest, WithdrawalStatus,
};

const TREASURY_KEY: u8 = 200;
const CREATED: i64 = 1_700_000_000;

fn principal(n: u8) -> Pubkey {
    Pubkey::new_from_array([n; 32])
}

/// A treasury of the members 1, 2 and 3 that holds `balance`.
fn funded(approvals_required: u8, balance: u64) -> Treasury {
    let mut t = create_treasury(
        String::from("savings-circle"),
        approvals_required,
        1000,
        3600,
        principal(1),
        CREATED,
    )
    .unwrap();
    add_member(&mut t, principal(1), principal(2)).unwrap();
    add_member(&mut t, principal(1), principal(3)).unwrap();
    if balance > 0 {
        deposit(&mut t, balance, TransferOutcome::Completed).unwrap();
    }
    t
}

fn propose(t: &mut Treasury, proposer: u8, amount: u64, now: i64) -> Result<WithdrawalRequest, TreasuryError> {
    propose_withdrawal(
        t,
        principal(TREASURY_KEY),
        principal(proposer),
        amount,
        principal(50),
        String::from("rent"),
        now,
    )
}

#[test]
fn a_proposal_fills_in_the_request() {
    let mut t = funded(2, 500);
    let r = propose_withdrawal(
        &mut t,
        principal(TREASURY_KEY),
        principal(2),
        300,
        principal(50),
        String::from("rent"),
        CREATED + 10,
    )
    .unwrap();
    let expected = WithdrawalRequest {
        treasury: principal(TREASURY_KEY),
        proposer: principal(2),
        recipient: principal(50),
        amount: 300,
        description: String::from("rent"),
        approvals: vec![principal(2)],
        proposed_at: CREATED + 10,
        timelock_expiry: CREATED + 3610,
        status: WithdrawalStatus::Pending,
        request_id: 1,
    };
    assert_eq!(r, expected);
    assert_eq!(t.next_request_id, 2);
    assert_eq!(t.balance, 500);
}

#[test]
fn a_proposal_changes_only_the_counter() {
    let mut t = funded(2, 500);
    let mut expected = t.clone();
    propose(&mut t, 1, 300, CREATED).unwrap();
    expected.next_request_id = 2;
    assert_eq!(t, expected);
}

#[test]
fn identifiers_count_up_from_one() {
    let mut t = funded(2, 500);
    let a = propose(&mut t, 1, 100, CREATED).unwrap();
    let b = propose(&mut t, 2, 100, CREATED).unwrap();
    let c = propose(&mut t, 3, 100, CREATED).unwrap();
    assert_eq!((a.request_id, b.request_id, c.request_id), (1, 2, 3));
    assert_eq!(t.next_request_id, 4);
}

#[test]
fn a_rejected_proposal_uses_up_no_identifier() {
    let mut t = funded(2, 500);
    let a = propose(&mut t, 1, 100, CREATED).unwrap();
    let before = t.clone();
    assert_eq!(propose(&mut t, 1, 0, CREATED), Err(TreasuryError::InvalidWithdrawalAmount));
    assert_eq!(propose(&mut t, 9, 100, CREATED), Err(TreasuryError::NotAMember));
    assert_eq!(propose(&mut t, 1, 501, CREATED), Err(TreasuryError::InsufficientFunds));
    assert_eq!(t, before);
    let b = propose(&mut t, 1, 100, CREATED).unwrap();
    assert_eq!(a.request_id, 1);
    assert_eq!(b.request_id, 2);
}

#[test]
fn a_stranger_cannot_propose() {
    let mut t = funded(2, 500);
    assert_eq!(propose(&mut t, 9, 100, CREATED), Err(TreasuryError::NotAMember));
}

#[test]
fn a_proposal_needs_a_positive_amount() {
    let mut t = funded(2, 500);
    assert_eq!(propose(&mut t, 1, 0, CREATED), Err(TreasuryError::InvalidWithdrawalAmount));
}

#[test]
fn a_proposal_stays_within_the_limit() {
    let mut t = funded(2, 5000);
    assert_eq!(propose(&mut t, 1, 1001, CREATED), Err(TreasuryError::WithdrawalLimitExceeded));
    assert!(propose(&mut t, 1, 1000, CREATED).is_ok());
}

#[test]
fn a_proposal_stays_within_the_balance() {
    let mut t = funded(2, 500);
    assert_eq!(propose(&mut t, 1, 501, CREATED), Err(TreasuryError::InsufficientFunds));
    assert!(propose(&mut t, 1, 500, CREATED).is_ok());
}

#[test]
fn the_limit_is_checked_before_the_balance() {
    let mut t = funded(2, 500);
    assert_eq!(propose(&mut t, 1, 1001, CREATED), Err(TreasuryError::WithdrawalLimitExceeded));
    assert_eq!(propose(&mut t, 1, 600, CREATED), Err(TreasuryError::InsufficientFunds));
}

#[test]
fn a_description_has_at_most_200_bytes() {
    let mut t = funded(2, 500);
    let long = propose_withdrawal(
        &mut t,
        principal(TREASURY_KEY),
        principal(1),
        100,
        principal(50),
        "d".repeat(201),
        CREATED,
    );
    assert_eq!(long, Err(TreasuryError::InvalidDescription));
    assert_eq!(t.next_request_id, 1);
    let fits = propose_withdrawal(
        &mut t,
        principal(TREASURY_KEY),
        principal(1),
        100,
        principal(50),
        "d".repeat(200),
        CREATED,
    );
    assert!(fits.is_ok());
    // 67 characters of three bytes each are 201 bytes.
    let wide = propose_withdrawal(
        &mut t,
        principal(TREASURY_KEY),
        principal(1),
        100,
        principal(50),
        "\u{20ac}".repeat(67),
        CREATED,
    );
    assert_eq!(wide, Err(TreasuryError::InvalidDescription));
}

#[test]
fn a_proposal_checks_in_order() {
    let mut t = funded(2, 500);
    let all_wrong = propose_withdrawal(
        &mut t,
        principal(TREASURY_KEY),
        principal(9),
        0,
        principal(50),
        "d".repeat(300),
        CREATED,
    );
    assert_eq!(all_wrong, Err(TreasuryError::NotAMember));
    let member = propose_withdrawal(
        &mut t,
        principal(TREASURY_KEY),
        principal(1),
        0,
        principal(50),
        "d".repeat(300),
        CREATED,
    );
    assert_eq!(member, Err(TreasuryError::InvalidWithdrawalAmount));
    let funded_amount = propose_withdrawal(
        &mut t,
        principal(TREASURY_KEY),
        principal(1),
        2000,
        principal(50),
        "d".repeat(300),
        CREATED,
    );
    assert_eq!(funded_amount, Err(TreasuryError::WithdrawalLimitExceeded));
}

#[test]
fn a_waiting_period_past_the_end_of_time_is_rejected() {
    let mut t = funded(2, 500);
    let before = t.clone();
    assert_eq!(propose(&mut t, 1, 100, i64::MAX - 3599), Err(TreasuryError::ArithmeticOverflow));
    assert_eq!(t, before);
    let r = propose(&mut t, 1, 100, i64::MAX - 3600).unwrap();
    assert_eq!(r.timelock_expiry, i64::MAX);
}

#[test]
fn a_request_is_never_due_before_its_proposal() {
    let mut t = create_treasury(String::from("g"), 1, 1000, 0, principal(1), 0).unwrap();
    deposit(&mut t, 10, TransferOutcome::Completed).unwrap();
    let mut r = propose(&mut t, 1, 10, 1000).unwrap();
    assert_eq!(r.proposed_at, 1000);
    assert_eq!(r.timelock_expiry, 1000);
    let early = execute_withdrawal(&mut t, &mut r, principal(50), 999, TransferOutcome::Completed);
    assert_eq!(early, Err(TreasuryError::TimelockNotExpired));
    let due = execute_withdrawal(&mut t, &mut r, principal(50), 1000, TransferOutcome::Completed);
    assert_eq!(due, Ok(()));
}

#[test]
fn a_waiting_period_that_leaves_the_range_of_time_is_rejected() {
    // A treasury that was not made by `create_treasury`.
    let mut t = funded(2, 500);
    t.timelock_duration = -100;
    let before = t.clone();
    assert_eq!(propose(&mut t, 1, 100, i64::MIN + 99), Err(TreasuryError::ArithmeticOverflow));
    assert_eq!(t, before);
}

#[test]
fn a_copy_of_a_request_is_equal_to_it() {
    let mut t = funded(3, 500);
    let mut r = propose(&mut t, 1, 100, CREATED).unwrap();
    approve_withdrawal(&t, &mut r, principal(2)).unwrap();
    let copy = r.clone();
    assert_eq!(copy, r);
    assert_eq!(copy.approvals, vec![principal(1), principal(2)]);
    assert_eq!(copy.description, "rent");
}

#[test]
fn the_last_identifier_is_never_issued_twice() {
    let mut t = funded(2, 500);
    t.next_request_id = u64::MAX - 1;
    let r = propose(&mut t, 1, 100, CREATED).unwrap();
    assert_eq!(r.request_id, u64::MAX - 1);
    assert_eq!(t.next_request_id, u64::MAX);
    let before = t.clone();
    assert_eq!(propose(&mut t, 1, 100, CREATED), Err(TreasuryError::ArithmeticOverflow));
    assert_eq!(t, before);
}

#[test]
fn a_paused_treasury_takes_no_proposal() {
    let mut t = funded(2, 500);
    t.is_paused = true;
    let before = t.clone();
    assert_eq!(propose(&mut t, 1, 100, CREATED), Err(TreasuryError::TreasuryPaused));
    assert_eq!(propose(&mut t, 9, 0, CREATED), Err(TreasuryError::TreasuryPaused));
    assert_eq!(t, before);
}

#[test]
fn a_quorum_of_one_approves_at_once() {
    let mut t = funded(1, 500);
    let r = propose(&mut t, 2, 100, CREATED).unwrap();
    assert_eq!(r.status, WithdrawalStatus::Approved);
    assert_eq!(r.approvals, vec![principal(2)]);
}

#[test]
fn an_approval_is_recorded() {
    let mut t = funded(3, 500);
    let mut r = propose(&mut t, 1, 100, CREATED).unwrap();
    let mut expected = r.clone();
    assert_eq!(approve_withdrawal(&t, &mut r, principal(3)), Ok(()));
    expected.approvals = vec![principal(1), principal(3)];
    assert_eq!(r, expected);
    assert_eq!(r.status, WithdrawalStatus::Pending);
    assert_eq!(approve_withdrawal(&t, &mut r, principal(2)), Ok(()));
    assert_eq!(r.approvals, vec![principal(1), principal(3), principal(2)]);
    assert_eq!(r.status, WithdrawalStatus::Approved);
}

#[test]
fn the_proposer_has_approved_already() {
    let mut t = funded(2, 500);
    let mut r = propose(&mut t, 1, 100, CREATED).unwrap();
    let before = r.clone();
    assert_eq!(approve_withdrawal(&t, &mut r, principal(1)), Err(TreasuryError::AlreadyApproved));
    assert_eq!(r, before);
}

#[test]
fn nobody_approves_twice() {
    let mut t = funded(3, 500);
    let mut r = propose(&mut t, 1, 100, CREATED).unwrap();
    assert_eq!(approve_withdrawal(&t, &mut r, principal(2)), Ok(()));
    let before = r.clone();
    assert_eq!(approve_withdrawal(&t, &mut r, principal(2)), Err(TreasuryError::AlreadyApproved));
    assert_eq!(r, before);
    assert_eq!(r.approvals, vec![principal(1), principal(2)]);
}

#[test]
fn a_second_approval_after_the_quorum_finds_the_request_closed() {
    let mut t = funded(2, 500);
    let mut r = propose(&mut t, 1, 100, CREATED).unwrap();
    assert_eq!(approve_withdrawal(&t, &mut r, principal(2)), Ok(()));
    assert_eq!(r.status, WithdrawalStatus::Approved);
    let before = r.clone();
    assert_eq!(approve_withdrawal(&t, &mut r, principal(2)), Err(TreasuryError::WithdrawalNotPending));
    assert_eq!(approve_withdrawal(&t, &mut r, principal(3)), Err(TreasuryError::WithdrawalNotPending));
    assert_eq!(r, before);
}

#[test]
fn a_stranger_cannot_approve() {
    let mut t = funded(2, 500);
    let mut r = propose(&mut t, 1, 100, CREATED).unwrap();
    let before = r.clone();
    assert_eq!(approve_withdrawal(&t, &mut r, principal(9)), Err(TreasuryError::NotAMember));
    assert_eq!(r, before);
}

#[test]
fn only_a_pending_request_is_approved() {
    let mut t = funded(2, 500);
    let mut r = propose(&mut t, 1, 100, CREATED).unwrap();
    r.status = WithdrawalStatus::Rejected;
    assert_eq!(approve_withdrawal(&t, &mut r, principal(2)), Err(TreasuryError::WithdrawalNotPending));
    r.status = WithdrawalStatus::Executed;
    assert_eq!(approve_withdrawal(&t, &mut r, principal(2)), Err(TreasuryError::WithdrawalNotPending));
    r.status = WithdrawalStatus::Approved;
    assert_eq!(approve_withdrawal(&t, &mut r, principal(2)), Err(TreasuryError::WithdrawalNotPending));
    assert_eq!(r.approvals, vec![principal(1)]);
}

#[test]
fn a_paused_treasury_takes_no_approval() {
    let mut t = funded(2, 500);
    let mut r = propose(&mut t, 1, 100, CREATED).unwrap();
    t.is_paused = true;
    let before = r.clone();
    assert_eq!(approve_withdrawal(&t, &mut r, principal(2)), Err(TreasuryError::TreasuryPaused));
    assert_eq!(approve_withdrawal(&t, &mut r, principal(9)), Err(TreasuryError::TreasuryPaused));
    assert_eq!(r, before);
}

#[test]
fn a_quorum_out_of_reach_keeps_the_request_pending() {
    let mut t = funded(4, 500);
    let mut r = propose(&mut t, 1, 100, CREATED).unwrap();
    approve_withdrawal(&t, &mut r, principal(2)).unwrap();
    approve_withdrawal(&t, &mut r, principal(3)).unwrap();
    assert_eq!(r.status, WithdrawalStatus::Pending);
    assert_eq!(
        withdrawal_transfer(&t, principal(TREASURY_KEY), &r, principal(50), i64::MAX),
        Err(TreasuryError::WithdrawalNotApproved)
    );
}

/// A request for 300 that members 1 and 2 have approved, proposed at `CREATED`.
fn approved(t: &mut Treasury) -> WithdrawalRequest {
    let mut r = propose(t, 1, 300, CREATED).unwrap();
    approve_withdrawal(t, &mut r, principal(2)).unwrap();
    assert_eq!(r.status, WithdrawalStatus::Approved);
    r
}

#[test]
fn an_execution_names_its_transfer() {
    let mut t = funded(2, 500);
    let r = approved(&mut t);
    let transfer = withdrawal_transfer(&t, principal(TREASURY_KEY), &r, principal(50), CREATED + 3600);
    assert_eq!(
        transfer,
        Ok(Transfer { from: principal(TREASURY_KEY), to: principal(50), amount: 300 })
    );
}

#[test]
fn an_execution_pays_out() {
    let mut t = funded(2, 500);
    let mut r = approved(&mut t);
    let mut expected_treasury = t.clone();
    let mut expected_request = r.clone();
    let done = execute_withdrawal(&mut t, &mut r, principal(50), CREATED + 3600, TransferOutcome::Completed);
    assert_eq!(done, Ok(()));
    expected_treasury.balance = 200;
    expected_request.status = WithdrawalStatus::Executed;
    assert_eq!(t, expected_treasury);
    assert_eq!(r, expected_request);
}

#[test]
fn the_waiting_period_ends_at_its_last_second() {
    let mut t = funded(2, 500);
    let mut r = approved(&mut t);
    let (before_t, before_r) = (t.clone(), r.clone());
    let early = execute_withdrawal(&mut t, &mut r, principal(50), CREATED + 3599, TransferOutcome::Completed);
    assert_eq!(early, Err(TreasuryError::TimelockNotExpired));
    assert_eq!((&t, &r), (&before_t, &before_r));
    assert_eq!(
        withdrawal_transfer(&t, principal(TREASURY_KEY), &r, principal(50), CREATED + 3599),
        Err(TreasuryError::TimelockNotExpired)
    );
    let on_time = execute_withdrawal(&mut t, &mut r, principal(50), CREATED + 3600, TransferOutcome::Completed);
    assert_eq!(on_time, Ok(()));
}

#[test]
fn the_waiting_period_runs_from_the_proposal() {
    let mut t = funded(2, 500);
    let mut r = propose(&mut t, 1, 300, CREATED).unwrap();
    // The second approval comes long after the waiting period has passed.
    approve_withdrawal(&t, &mut r, principal(2)).unwrap();
    assert_eq!(r.timelock_expiry, CREATED + 3600);
    let done = execute_withdrawal(&mut t, &mut r, principal(50), CREATED + 3600, TransferOutcome::Completed);
    assert_eq!(done, Ok(()));
}

#[test]
fn a_pending_request_is_not_executed() {
    let mut t = funded(2, 500);
    let mut r = propose(&mut t, 1, 300, CREATED).unwrap();
    let (before_t, before_r) = (t.clone(), r.clone());
    let result = execute_withdrawal(&mut t, &mut r, principal(50), CREATED + 9999, TransferOutcome::Completed);
    assert_eq!(result, Err(TreasuryError::WithdrawalNotApproved));
    assert_eq!((&t, &r), (&before_t, &before_r));
    r.status = WithdrawalStatus::Rejected;
    let result = execute_withdrawal(&mut t, &mut r, principal(50), CREATED + 9999, TransferOutcome::Completed);
    assert_eq!(result, Err(TreasuryError::WithdrawalNotApproved));
}

#[test]
fn an_executed_request_is_not_executed_again() {
    let mut t = funded(2, 500);
    let mut r = approved(&mut t);
    execute_withdrawal(&mut t, &mut r, principal(50), CREATED + 3600, TransferOutcome::Completed).unwrap();
    let (before_t, before_r) = (t.clone(), r.clone());
    let again = execute_withdrawal(&mut t, &mut r, principal(50), CREATED + 3600, TransferOutcome::Completed);
    assert_eq!(again, Err(TreasuryError::WithdrawalNotApproved));
    assert_eq!((&t, &r), (&before_t, &before_r));
    assert_eq!(
        withdrawal_transfer(&t, principal(TREASURY_KEY), &r, principal(50), CREATED + 3600),
        Err(TreasuryError::WithdrawalNotApproved)
    );
    assert_eq!(t.balance, 200);
}

#[test]
fn the_balance_must_still_cover_the_amount() {
    let mut t = funded(2, 500);
    let mut first = approved(&mut t);
    let mut second = approved(&mut t);
    execute_withdrawal(&mut t, &mut first, principal(50), CREATED + 3600, TransferOutcome::Completed).unwrap();
    assert_eq!(t.balance, 200);
    let (before_t, before_r) = (t.clone(), second.clone());
    let result = execute_withdrawal(&mut t, &mut second, principal(50), CREATED + 3600, TransferOutcome::Completed);
    assert_eq!(result, Err(TreasuryError::InsufficientFunds));
    assert_eq!((&t, &second), (&before_t, &before_r));
    deposit(&mut t, 100, TransferOutcome::Completed).unwrap();
    let result = execute_withdrawal(&mut t, &mut second, principal(50), CREATED + 3600, TransferOutcome::Completed);
    assert_eq!(result, Ok(()));
    assert_eq!(t.balance, 0);
}

#[test]
fn the_funds_go_to_the_named_recipient_only() {
    let mut t = funded(2, 500);
    let mut r = approved(&mut t);
    let (before_t, before_r) = (t.clone(), r.clone());
    assert_eq!(
        withdrawal_transfer(&t, principal(TREASURY_KEY), &r, principal(51), CREATED + 3600),
        Err(TreasuryError::NotAuthorized)
    );
    let result = execute_withdrawal(&mut t, &mut r, principal(51), CREATED + 3600, TransferOutcome::Completed);
    assert_eq!(result, Err(TreasuryError::NotAuthorized));
    assert_eq!((&t, &r), (&before_t, &before_r));
}

#[test]
fn a_failed_transfer_executes_nothing() {
    let mut t = funded(2, 500);
    let mut r = approved(&mut t);
    let (before_t, before_r) = (t.clone(), r.clone());
    let result = execute_withdrawal(&mut t, &mut r, principal(50), CREATED + 3600, TransferOutcome::Failed);
    assert_eq!(result, Err(TreasuryError::TransferFailed));
    assert_eq!((&t, &r), (&before_t, &before_r));
    // The request is still approved and can be executed once the gateway delivers.
    let result = execute_withdrawal(&mut t, &mut r, principal(50), CREATED + 3600, TransferOutcome::Completed);
    assert_eq!(result, Ok(()));
}

#[test]
fn an_execution_checks_in_order() {
    let mut t = funded(2, 500);
    let mut r = propose(&mut t, 1, 300, CREATED).unwrap();
    t.balance = 0;
    // Pending, too early, uncovered, wrong recipient, failed transfer.
    let result = execute_withdrawal(&mut t, &mut r, principal(51), CREATED, TransferOutcome::Failed);
    assert_eq!(result, Err(TreasuryError::WithdrawalNotApproved));
    approve_withdrawal(&t, &mut r, principal(2)).unwrap();
    let result = execute_withdrawal(&mut t, &mut r, principal(51), CREATED, TransferOutcome::Failed);
    assert_eq!(result, Err(TreasuryError::TimelockNotExpired));
    let result = execute_withdrawal(&mut t, &mut r, principal(51), CREATED + 3600, TransferOutcome::Failed);
    assert_eq!(result, Err(TreasuryError::InsufficientFunds));
    t.balance = 300;
    let result = execute_withdrawal(&mut t, &mut r, principal(51), CREATED + 3600, TransferOutcome::Failed);
    assert_eq!(result, Err(TreasuryError::NotAuthorized));
    let result = execute_withdrawal(&mut t, &mut r, principal(50), CREATED + 3600, TransferOutcome::Failed);
    assert_eq!(result, Err(TreasuryError::TransferFailed));
}

#[test]
fn a_paused_treasury_executes_nothing() {
    let mut t = funded(2, 500);
    let mut r = approved(&mut t);
    t.is_paused = true;
    let (before_t, before_r) = (t.clone(), r.clone());
    let result = execute_withdrawal(&mut t, &mut r, principal(50), CREATED + 3600, TransferOutcome::Completed);
    assert_eq!(result, Err(TreasuryError::TreasuryPaused));
    assert_eq!(
        withdrawal_transfer(&t, principal(TREASURY_KEY), &r, principal(50), CREATED + 3600),
        Err(TreasuryError::TreasuryPaused)
    );
    assert_eq!((&t, &r), (&before_t, &before_r));
}

#[test]
fn anyone_may_execute_an_approved_request() {
    // The execution asks for no caller: status and waiting period decide.
    let mut t = funded(1, 500);
    let mut r = propose(&mut t, 3, 500, CREATED).unwrap();
    let result = execute_withdrawal(&mut t, &mut r, principal(50), CREATED + 3600, TransferOutcome::Completed);
    assert_eq!(result, Ok(()));
    assert_eq!(t.balance, 0);
}
