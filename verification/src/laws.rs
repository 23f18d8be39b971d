//! The laws the funding state machine obeys, proved once and for all over
//! the spec-level transitions that the executable operations are specified
//! against.

use vstd::prelude::*;

use crate::machine::{
    claim_step, fund_step, spec_status, status_of, ContractError, State, Status, Transfer,
};

verus! {

/// The sum of a sequence of payments.
pub open spec fn sum_payments(ps: Seq<u128>) -> int
    decreases ps.len(),
{
    if ps.len() == 0 {
        0
    } else {
        sum_payments(ps.drop_last()) + ps.last()
    }
}

/// The state after one depositor's payments were all accepted, in order.
pub open spec fn fund_many(s: State, caller: u64, ps: Seq<u128>) -> State
    decreases ps.len(),
{
    if ps.len() == 0 {
        s
    } else {
        fund_step(fund_many(s, caller, ps.drop_last()), caller, ps.last())
    }
}

/// Monotonic deposits: across any sequence of accepted `fund` calls by the
/// same depositor, the recorded deposit grows by exactly the sum of the
/// attached payments, and so does the balance in custody; target, deadline
/// and owner never move.
pub proof fn lemma_monotonic_deposits(s: State, caller: u64, ps: Seq<u128>)
    requires
        s.deposits[caller] <= s.balance,
        s.balance + sum_payments(ps) <= u128::MAX,
    ensures
        fund_many(s, caller, ps).deposits[caller] == s.deposits[caller] + sum_payments(ps),
        fund_many(s, caller, ps).balance == s.balance + sum_payments(ps),
        fund_many(s, caller, ps).target == s.target,
        fund_many(s, caller, ps).deadline == s.deadline,
        fund_many(s, caller, ps).owner == s.owner,
    decreases ps.len(),
{
    if ps.len() > 0 {
        lemma_sum_payments_nonneg(ps.drop_last());
        lemma_monotonic_deposits(s, caller, ps.drop_last());
    }
}

pub proof fn lemma_sum_payments_nonneg(ps: Seq<u128>)
    ensures
        0 <= sum_payments(ps),
    decreases ps.len(),
{
    if ps.len() > 0 {
        lemma_sum_payments_nonneg(ps.drop_last());
    }
}

/// Status determinism: the status is a pure function of current time,
/// deadline, collected funds and target, and for any such tuple exactly one
/// of the three variants holds — each clause below pins the variant to its
/// defining condition, and the three conditions partition all inputs.
pub proof fn lemma_status_determined(current_time: u64, deadline: u64, funds: u128, target: u128)
    ensures
        spec_status(current_time, deadline, funds, target) == Status::FundingPeriod
            <==> current_time <= deadline,
        spec_status(current_time, deadline, funds, target) == Status::Successful
            <==> (current_time > deadline && funds >= target),
        spec_status(current_time, deadline, funds, target) == Status::Failed
            <==> (current_time > deadline && funds < target),
{
}

/// No double claim: once a claim under `Failed` status has settled a
/// depositor's refund (or found nothing to refund), a second claim by the
/// same depositor after the deadline pays out nothing and changes nothing.
pub proof fn lemma_no_double_claim(s: State, caller: u64, t1: u64, t2: u64)
    requires
        s.deposits[caller] <= s.balance,
        status_of(s, t1) == Status::Failed,
        t2 > s.deadline,
    ensures
        ({
            let (s1, r1) = claim_step(s, caller, t1);
            let (s2, r2) = claim_step(s1, caller, t2);
            s2 == s1 && r2 == Ok::<Option<Transfer>, ContractError>(None)
        }),
{
    let (s1, _r1) = claim_step(s, caller, t1);
    assert(status_of(s1, t2) == Status::Failed);
    assert(s1.deposits[caller] == 0);
    assert(claim_step(s1, caller, t2).0 =~= s1);
}

/// Owner-only success payout: while the status is `Successful`, a claim by
/// anyone but the owner is rejected as unauthorized and moves nothing, and
/// the owner's claim sweeps the entire balance in custody, leaving it at
/// zero.
pub proof fn lemma_owner_only_payout(s: State, caller: u64, t: u64)
    requires
        status_of(s, t) == Status::Successful,
    ensures
        caller != s.owner ==> claim_step(s, caller, t) == (
            s,
            Err::<Option<Transfer>, ContractError>(ContractError::Unauthorized),
        ),
        caller == s.owner ==> ({
            let (s1, r1) = claim_step(s, caller, t);
            &&& r1 == Ok::<Option<Transfer>, ContractError>(
                Some((Transfer { to: s.owner, amount: s.balance })),
            )
            &&& s1.balance == 0
            &&& s1.deposits == crate::machine::zero_deposits()
        }),
{
}

} // verus!
