//! The funding state machine: deposits are collected toward `target` until
//! `deadline`, then the balance is either swept to `owner` or refunded
//! depositor by depositor.
//!
//! Every operation takes the environment facts it depends on (current time,
//! caller identity, attached payment) as arguments; the machine's own fields
//! are the persisted state. `State` is the mathematical view: the deposit
//! ledger appears as a total map from identity to recorded amount, with
//! absent identities at zero.

use vstd::prelude::*;

use crate::ledger::{
    deposit_of, keys_distinct, lemma_deposit_absent, lemma_deposit_at_index,
    lemma_deposit_le_sum, lemma_push_entry, lemma_update_entry, sum_of, Entry,
};

verus! {

/// Where the collected balance stands relative to target and deadline.
/// Never stored: always derived from current time and live balance.
#[derive(Clone, Copy, PartialEq, Eq, Structural, Debug)]
pub enum Status {
    /// The deadline has not passed yet (the deadline tick itself included).
    FundingPeriod,
    /// The deadline has passed and the collected balance reached the target.
    Successful,
    /// The deadline has passed and the collected balance missed the target.
    Failed,
}

/// Why an operation was rejected. A rejected operation leaves the state
/// untouched: the host rolls the whole call back.
#[derive(Clone, Copy, PartialEq, Eq, Structural, Debug)]
pub enum ContractError {
    /// `fund` was called at or after the deadline.
    DeadlinePassed,
    /// `claim` was called before the deadline passed.
    NotYetSettled,
    /// A non-owner called `claim` while the campaign was successful.
    Unauthorized,
}

/// An outbound payment the host must perform on the machine's behalf.
#[derive(Clone, Copy, PartialEq, Eq, Structural, Debug)]
pub struct Transfer {
    /// The identity the amount is owed to.
    pub to: u64,
    /// The amount to pay out, in the native currency's smallest unit.
    pub amount: u128,
}

/// The mathematical view of a `Crowdfunding` value.
#[verifier::ext_equal]
pub struct State {
    /// The identity that created the campaign.
    pub owner: u64,
    /// The funding goal. Write-once.
    pub target: u128,
    /// The funding cut-off timestamp. Write-once.
    pub deadline: u64,
    /// The contract's live native-currency balance.
    pub balance: u128,
    /// Recorded amount per depositor identity; zero when never funded.
    pub deposits: Map<u64, u128>,
}

/// The three-way status derivation: the deadline tick itself still counts as
/// the funding period; afterwards the balance decides success.
pub open spec fn spec_status(current_time: u64, deadline: u64, funds: u128, target: u128) -> Status {
    if current_time <= deadline {
        Status::FundingPeriod
    } else if funds >= target {
        Status::Successful
    } else {
        Status::Failed
    }
}

/// The ledger with every identity at zero.
pub open spec fn zero_deposits() -> Map<u64, u128> {
    Map::new(|a: u64| true, |a: u64| 0u128)
}

/// The state a fresh campaign starts in.
pub open spec fn init_state(owner: u64, target: u128, deadline: u64) -> State {
    State { owner, target, deadline, balance: 0, deposits: zero_deposits() }
}

/// The status `s` derives at `current_time`.
pub open spec fn status_of(s: State, current_time: u64) -> Status {
    spec_status(current_time, s.deadline, s.balance, s.target)
}

/// What an accepted `fund` call does: the payment joins both the caller's
/// recorded deposit and the live balance.
pub open spec fn fund_step(s: State, caller: u64, payment: u128) -> State {
    State {
        balance: (s.balance + payment) as u128,
        deposits: s.deposits.insert(caller, (s.deposits[caller] + payment) as u128),
        ..s
    }
}

/// What currency arriving outside `fund` does: only the live balance grows.
pub open spec fn receive_step(s: State, amount: u128) -> State {
    State { balance: (s.balance + amount) as u128, ..s }
}

/// What a `claim` call decides: the next state together with the outcome,
/// branching strictly on the derived status.
pub open spec fn claim_step(s: State, caller: u64, current_time: u64) -> (State, Result<
    Option<Transfer>,
    ContractError,
>) {
    match status_of(s, current_time) {
        Status::FundingPeriod => (s, Err(ContractError::NotYetSettled)),
        Status::Successful => if caller == s.owner {
            (
                State { balance: 0, deposits: zero_deposits(), ..s },
                Ok(Some(Transfer { to: caller, amount: s.balance })),
            )
        } else {
            (s, Err(ContractError::Unauthorized))
        },
        Status::Failed => if s.deposits[caller] > 0 {
            (
                State {
                    balance: (s.balance - s.deposits[caller]) as u128,
                    deposits: s.deposits.insert(caller, 0),
                    ..s
                },
                Ok(Some(Transfer { to: caller, amount: s.deposits[caller] })),
            )
        } else {
            (s, Ok(None))
        },
    }
}

/// The funding state machine. Fields mirror the persisted storage of the
/// campaign; the deposit ledger is an association list with distinct keys.
pub struct Crowdfunding {
    owner: u64,
    target: u128,
    deadline: u64,
    balance: u128,
    entries: Vec<Entry>,
}

impl View for Crowdfunding {
    type V = State;

    closed spec fn view(&self) -> State {
        State {
            owner: self.owner,
            target: self.target,
            deadline: self.deadline,
            balance: self.balance,
            deposits: Map::new(|a: u64| true, |a: u64| deposit_of(self.entries@, a)),
        }
    }
}

impl Crowdfunding {
    /// Every reachable campaign state keeps one ledger entry per depositor
    /// and never records more, in sum, than the balance it holds in custody.
    #[verifier::type_invariant]
    spec fn wf(&self) -> bool {
        &&& keys_distinct(self.entries@)
        &&& sum_of(self.entries@) <= self.balance
    }

    /// Creates the campaign: target and deadline are fixed here once and for
    /// all, no deposits are on record, and custody starts empty.
    pub fn init(owner: u64, target: u128, deadline: u64) -> (c: Crowdfunding)
        ensures
            c@ == init_state(owner, target, deadline),
    {
        let c = Crowdfunding { owner, target, deadline, balance: 0, entries: Vec::new() };
        proof {
            assert(c@.deposits =~= zero_deposits());
            assert(c@ =~= init_state(owner, target, deadline));
        }
        c
    }

    /// The index of `a`'s ledger entry, if it has one.
    fn find(&self, a: u64) -> (r: Option<usize>)
        ensures
            match r {
                Some(i) => i < self.entries@.len() && self.entries@[i as int].0 == a,
                None => forall|j: int|
                    0 <= j < self.entries@.len() ==> (#[trigger] self.entries@[j]).0 != a,
            },
    {
        let mut i: usize = 0;
        while i < self.entries.len()
            invariant
                i <= self.entries@.len(),
                forall|j: int| 0 <= j < i ==> (#[trigger] self.entries@[j]).0 != a,
            decreases self.entries@.len() - i,
        {
            if self.entries[i].0 == a {
                return Some(i);
            }
            i = i + 1;
        }
        None
    }

    /// Accepts an attached payment strictly before the deadline, adding it to
    /// the caller's recorded deposit and to the balance in custody; at or
    /// after the deadline it is rejected and nothing changes.
    pub fn fund(&mut self, caller: u64, payment: u128, current_time: u64) -> (r: Result<
        (),
        ContractError,
    >)
        requires
            old(self)@.balance + payment <= u128::MAX,
        ensures
            r is Ok <==> current_time < old(self)@.deadline,
            r is Ok ==> final(self)@ == fund_step(old(self)@, caller, payment),
            r is Err ==> final(self)@ == old(self)@ && r == Err::<(), ContractError>(
                ContractError::DeadlinePassed,
            ),
    {
        proof {
            use_type_invariant(&*self);
        }
        if !(current_time < self.deadline) {
            return Err(ContractError::DeadlinePassed);
        }
        let ghost s0 = self.entries@;
        let idx = self.find(caller);
        self.balance = self.balance + payment;
        let mut entries: Vec<Entry> = Vec::new();
        std::mem::swap(&mut entries, &mut self.entries);
        match idx {
            Some(i) => {
                let old_v = entries[i].1;
                proof {
                    lemma_deposit_at_index(s0, i as int);
                    lemma_deposit_le_sum(s0, caller);
                    lemma_update_entry(s0, i as int, (old_v + payment) as u128);
                }
                let new_v = old_v + payment;
                entries[i] = (caller, new_v);
            },
            None => {
                proof {
                    lemma_deposit_absent(s0, caller);
                    lemma_push_entry(s0, caller, payment);
                }
                entries.push((caller, payment));
            },
        }
        self.entries = entries;
        proof {
            assert(self@.deposits =~= fund_step(old(self)@, caller, payment).deposits);
            assert(self@ =~= fund_step(old(self)@, caller, payment));
        }
        Ok(())
    }

    /// Credits currency that arrived without a `fund` call: the balance in
    /// custody grows, no deposit is recorded.
    pub fn receive(&mut self, amount: u128)
        requires
            old(self)@.balance + amount <= u128::MAX,
        ensures
            final(self)@ == receive_step(old(self)@, amount),
    {
        proof {
            use_type_invariant(&*self);
        }
        self.balance = self.balance + amount;
        proof {
            assert(self@.deposits =~= receive_step(old(self)@, amount).deposits);
            assert(self@ =~= receive_step(old(self)@, amount));
        }
    }

    /// Derives the campaign's status from the current time and the live
    /// balance; reads nothing else and changes nothing.
    pub fn status(&self, current_time: u64) -> (s: Status)
        ensures
            s == status_of(self@, current_time),
    {
        if current_time <= self.deadline {
            Status::FundingPeriod
        } else if self.balance >= self.target {
            Status::Successful
        } else {
            Status::Failed
        }
    }

    /// Settles or rejects a claim, branching strictly on the derived status:
    /// before settlement every claim is rejected; on success only the owner
    /// may sweep the full balance (all recorded deposits are forfeited and
    /// zeroed); on failure anyone is refunded their own recorded deposit,
    /// which is zeroed before the refund transfer is handed out, so a repeat
    /// claim is a silent no-op.
    pub fn claim(&mut self, caller: u64, current_time: u64) -> (r: Result<
        Option<Transfer>,
        ContractError,
    >)
        ensures
            ({
                let (s1, r1) = claim_step(old(self)@, caller, current_time);
                final(self)@ == s1 && r == r1
            }),
            r is Err <==> (current_time <= old(self)@.deadline || (old(self)@.balance
                >= old(self)@.target && caller != old(self)@.owner)),
    {
        proof {
            use_type_invariant(&*self);
        }
        let st = self.status(current_time);
        match st {
            Status::FundingPeriod => Err(ContractError::NotYetSettled),
            Status::Successful => {
                if caller != self.owner {
                    return Err(ContractError::Unauthorized);
                }
                let amount = self.balance;
                // The sweep forfeits every recorded deposit to the owner:
                // the entries are zeroed together with the balance they fed.
                self.entries = Vec::new();
                self.balance = 0;
                proof {
                    let (s1, _r1) = claim_step(old(self)@, caller, current_time);
                    assert(self@.deposits =~= s1.deposits);
                    assert(self@ =~= s1);
                }
                Ok(Some(Transfer { to: caller, amount }))
            },
            Status::Failed => {
                let ghost s0 = self.entries@;
                match self.find(caller) {
                    None => {
                        proof {
                            lemma_deposit_absent(s0, caller);
                            assert(self@ =~= claim_step(old(self)@, caller, current_time).0);
                        }
                        Ok(None)
                    },
                    Some(i) => {
                        let d = self.entries[i].1;
                        proof {
                            lemma_deposit_at_index(s0, i as int);
                            lemma_deposit_le_sum(s0, caller);
                        }
                        if d > 0 {
                            // Zero the caller's entry before handing out the
                            // refund transfer: a second claim re-reads zero.
                            proof {
                                lemma_update_entry(s0, i as int, 0);
                            }
                            let mut entries: Vec<Entry> = Vec::new();
                            std::mem::swap(&mut entries, &mut self.entries);
                            entries[i] = (caller, 0);
                            self.entries = entries;
                            self.balance = self.balance - d;
                            proof {
                                let (s1, _r1) = claim_step(old(self)@, caller, current_time);
                                assert(self@.deposits =~= s1.deposits);
                                assert(self@ =~= s1);
                            }
                            Ok(Some(Transfer { to: caller, amount: d }))
                        } else {
                            proof {
                                assert(self@ =~= claim_step(old(self)@, caller, current_time).0);
                            }
                            Ok(None)
                        }
                    },
                }
            },
        }
    }

    /// The funding goal, as fixed at creation.
    pub fn target(&self) -> (r: u128)
        ensures
            r == self@.target,
    {
        self.target
    }

    /// The funding cut-off timestamp, as fixed at creation.
    pub fn deadline(&self) -> (r: u64)
        ensures
            r == self@.deadline,
    {
        self.deadline
    }

    /// The identity that created the campaign.
    pub fn owner(&self) -> (r: u64)
        ensures
            r == self@.owner,
    {
        self.owner
    }

    /// The contract's live native-currency balance: the authoritative
    /// "funds raised" figure the status derivation reads.
    pub fn get_current_funds(&self) -> (r: u128)
        ensures
            r == self@.balance,
    {
        self.balance
    }

    /// The amount `donor` has on record; zero when it never funded or has
    /// already been paid out.
    pub fn deposit(&self, donor: u64) -> (r: u128)
        ensures
            r == self@.deposits[donor],
    {
        proof {
            use_type_invariant(&*self);
        }
        match self.find(donor) {
            Some(i) => {
                proof {
                    lemma_deposit_at_index(self.entries@, i as int);
                }
                self.entries[i].1
            },
            None => {
                proof {
                    lemma_deposit_absent(self.entries@, donor);
                }
                0
            },
        }
    }
}

} // verus!
