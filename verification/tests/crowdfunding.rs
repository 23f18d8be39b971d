use crowdfunding::machine::{ContractError, Crowdfunding, Status, Transfer};

const OWNER: u64 = 7;
const A: u64 = 1;
const B: u64 = 2;
const STRANGER: u64 = 3;
const TARGET: u128 = 100;
const DEADLINE: u64 = 1000;

fn campaign() -> Crowdfunding {
    Crowdfunding::init(OWNER, TARGET, DEADLINE)
}

#[test]
fn fresh_campaign_getters() {
    let c = campaign();
    assert_eq!(c.target(), TARGET);
    assert_eq!(c.deadline(), DEADLINE);
    assert_eq!(c.owner(), OWNER);
    assert_eq!(c.get_current_funds(), 0);
    assert_eq!(c.deposit(A), 0);
}

#[test]
fn scenario_failed_campaign_refunds_each_depositor() {
    let mut c = campaign();
    assert_eq!(c.fund(A, 40, 500), Ok(()));
    assert_eq!(c.fund(B, 50, 600), Ok(()));
    assert_eq!(c.get_current_funds(), 90);
    assert_eq!(c.status(DEADLINE + 1), Status::Failed);
    assert_eq!(c.claim(A, DEADLINE + 1), Ok(Some(Transfer { to: A, amount: 40 })));
    assert_eq!(c.claim(B, DEADLINE + 2), Ok(Some(Transfer { to: B, amount: 50 })));
    assert_eq!(c.get_current_funds(), 0);
    assert_eq!(c.deposit(A), 0);
    assert_eq!(c.deposit(B), 0);
}

#[test]
fn scenario_successful_campaign_pays_only_the_owner() {
    let mut c = campaign();
    assert_eq!(c.fund(A, 40, 500), Ok(()));
    assert_eq!(c.fund(B, 60, 600), Ok(()));
    assert_eq!(c.get_current_funds(), 100);
    assert_eq!(c.status(DEADLINE + 1), Status::Successful);
    assert_eq!(c.claim(STRANGER, DEADLINE + 1), Err(ContractError::Unauthorized));
    assert_eq!(c.get_current_funds(), 100);
    assert_eq!(
        c.claim(OWNER, DEADLINE + 1),
        Ok(Some(Transfer { to: OWNER, amount: 100 }))
    );
    assert_eq!(c.get_current_funds(), 0);
}

#[test]
fn scenario_fund_after_deadline_is_rejected_unchanged() {
    let mut c = campaign();
    assert_eq!(c.fund(A, 40, 500), Ok(()));
    assert_eq!(c.fund(B, 10, DEADLINE + 1), Err(ContractError::DeadlinePassed));
    assert_eq!(c.deposit(A), 40);
    assert_eq!(c.deposit(B), 0);
    assert_eq!(c.get_current_funds(), 40);
}

#[test]
fn deposits_accumulate_to_the_sum_of_payments() {
    let mut c = campaign();
    assert_eq!(c.fund(A, 10, 100), Ok(()));
    assert_eq!(c.fund(A, 25, 200), Ok(()));
    assert_eq!(c.fund(A, 5, 999), Ok(()));
    assert_eq!(c.deposit(A), 40);
    assert_eq!(c.get_current_funds(), 40);
}

#[test]
fn status_is_determined_by_time_funds_and_target() {
    let mut c = campaign();
    assert_eq!(c.status(0), Status::FundingPeriod);
    assert_eq!(c.status(DEADLINE), Status::FundingPeriod);
    assert_eq!(c.status(DEADLINE + 1), Status::Failed);
    assert_eq!(c.fund(A, TARGET, 500), Ok(()));
    assert_eq!(c.status(DEADLINE), Status::FundingPeriod);
    assert_eq!(c.status(DEADLINE + 1), Status::Successful);
    // same inputs, same answer
    assert_eq!(c.status(DEADLINE + 1), Status::Successful);
}

#[test]
fn fund_at_the_deadline_tick_is_rejected_while_status_still_reads_funding() {
    let mut c = campaign();
    assert_eq!(c.status(DEADLINE), Status::FundingPeriod);
    assert_eq!(c.fund(A, 1, DEADLINE), Err(ContractError::DeadlinePassed));
    assert_eq!(c.fund(A, 1, DEADLINE - 1), Ok(()));
}

#[test]
fn second_claim_after_a_refund_is_a_silent_noop() {
    let mut c = campaign();
    assert_eq!(c.fund(A, 40, 500), Ok(()));
    assert_eq!(c.fund(B, 20, 600), Ok(()));
    assert_eq!(c.claim(A, DEADLINE + 1), Ok(Some(Transfer { to: A, amount: 40 })));
    assert_eq!(c.claim(A, DEADLINE + 2), Ok(None));
    assert_eq!(c.deposit(A), 0);
    assert_eq!(c.deposit(B), 20);
    assert_eq!(c.get_current_funds(), 20);
}

#[test]
fn claim_by_a_non_depositor_under_failed_status_is_a_silent_noop() {
    let mut c = campaign();
    assert_eq!(c.fund(A, 40, 500), Ok(()));
    assert_eq!(c.claim(STRANGER, DEADLINE + 1), Ok(None));
    assert_eq!(c.get_current_funds(), 40);
    assert_eq!(c.deposit(A), 40);
}

#[test]
fn claim_before_the_deadline_is_not_yet_settled() {
    let mut c = campaign();
    assert_eq!(c.fund(A, 40, 500), Ok(()));
    assert_eq!(c.claim(A, 600), Err(ContractError::NotYetSettled));
    assert_eq!(c.claim(OWNER, DEADLINE), Err(ContractError::NotYetSettled));
    assert_eq!(c.deposit(A), 40);
    assert_eq!(c.get_current_funds(), 40);
}

#[test]
fn currency_received_outside_fund_counts_toward_the_target() {
    let mut c = campaign();
    assert_eq!(c.fund(A, 40, 500), Ok(()));
    c.receive(60);
    assert_eq!(c.get_current_funds(), 100);
    assert_eq!(c.deposit(A), 40);
    assert_eq!(c.status(DEADLINE + 1), Status::Successful);
    assert_eq!(
        c.claim(OWNER, DEADLINE + 1),
        Ok(Some(Transfer { to: OWNER, amount: 100 }))
    );
    assert_eq!(c.get_current_funds(), 0);
}

#[test]
fn the_largest_amount_can_be_funded_and_refunded() {
    let mut c = Crowdfunding::init(OWNER, u128::MAX, DEADLINE);
    assert_eq!(c.fund(A, u128::MAX - 1, 500), Ok(()));
    assert_eq!(c.deposit(A), u128::MAX - 1);
    assert_eq!(c.status(DEADLINE + 1), Status::Failed);
    assert_eq!(
        c.claim(A, DEADLINE + 1),
        Ok(Some(Transfer { to: A, amount: u128::MAX - 1 }))
    );
    assert_eq!(c.get_current_funds(), 0);
}

#[test]
fn a_zero_payment_is_accepted_and_leaves_nothing_to_refund() {
    let mut c = campaign();
    assert_eq!(c.fund(A, 0, 500), Ok(()));
    assert_eq!(c.deposit(A), 0);
    assert_eq!(c.claim(A, DEADLINE + 1), Ok(None));
    assert_eq!(c.get_current_funds(), 0);
}

#[test]
fn successful_sweep_forfeits_recorded_deposits() {
    let mut c = campaign();
    assert_eq!(c.fund(A, 100, 500), Ok(()));
    assert_eq!(
        c.claim(OWNER, DEADLINE + 1),
        Ok(Some(Transfer { to: OWNER, amount: 100 }))
    );
    assert_eq!(c.deposit(A), 0);
    // nothing left to refund afterwards, whatever the status now reads
    assert_eq!(c.claim(A, DEADLINE + 2), Ok(None));
}
