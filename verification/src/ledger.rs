//! The deposit ledger: an association list from depositor identity to the
//! amount that depositor has on record, with the spec functions and lemmas
//! the contract's proofs rest on.
//!
//! Absence of an identity is equivalent to a zero balance, so the ledger is
//! read through `deposit_of`, a total function over identities.

use vstd::prelude::*;

verus! {

/// One recorded deposit: a depositor identity and its recorded amount.
pub type Entry = (u64, u128);

/// No two entries record the same depositor.
pub open spec fn keys_distinct(s: Seq<Entry>) -> bool {
    forall|i: int, j: int| 0 <= i < j < s.len() ==> (#[trigger] s[i]).0 != (#[trigger] s[j]).0
}

/// The amount recorded for depositor `a`; zero when `a` has no entry.
pub open spec fn deposit_of(s: Seq<Entry>, a: u64) -> u128
    decreases s.len(),
{
    if s.len() == 0 {
        0
    } else if s.last().0 == a {
        s.last().1
    } else {
        deposit_of(s.drop_last(), a)
    }
}

/// The sum of all recorded amounts.
pub open spec fn sum_of(s: Seq<Entry>) -> int
    decreases s.len(),
{
    if s.len() == 0 {
        0
    } else {
        sum_of(s.drop_last()) + s.last().1
    }
}

pub proof fn lemma_sum_nonneg(s: Seq<Entry>)
    ensures
        0 <= sum_of(s),
    decreases s.len(),
{
    if s.len() > 0 {
        lemma_sum_nonneg(s.drop_last());
    }
}

/// Each single recorded amount is bounded by the sum of all of them.
pub proof fn lemma_deposit_le_sum(s: Seq<Entry>, a: u64)
    ensures
        deposit_of(s, a) <= sum_of(s),
    decreases s.len(),
{
    if s.len() > 0 {
        lemma_sum_nonneg(s.drop_last());
        if s.last().0 != a {
            lemma_deposit_le_sum(s.drop_last(), a);
        }
    }
}

/// With distinct keys, the entry at an index is the recorded amount of its key.
pub proof fn lemma_deposit_at_index(s: Seq<Entry>, i: int)
    requires
        keys_distinct(s),
        0 <= i < s.len(),
    ensures
        deposit_of(s, s[i].0) == s[i].1,
    decreases s.len(),
{
    if i < s.len() - 1 {
        assert(s[i].0 != s.last().0);
        assert(keys_distinct(s.drop_last()));
        lemma_deposit_at_index(s.drop_last(), i);
    }
}

/// A key that appears in no entry has a zero recorded amount.
pub proof fn lemma_deposit_absent(s: Seq<Entry>, a: u64)
    requires
        forall|i: int| 0 <= i < s.len() ==> (#[trigger] s[i]).0 != a,
    ensures
        deposit_of(s, a) == 0,
    decreases s.len(),
{
    if s.len() > 0 {
        lemma_deposit_absent(s.drop_last(), a);
    }
}

/// Overwriting the amount at one index changes that key's recorded amount,
/// leaves every other key's amount alone, and shifts the sum by the
/// difference.
pub proof fn lemma_update_entry(s: Seq<Entry>, i: int, v: u128)
    requires
        keys_distinct(s),
        0 <= i < s.len(),
    ensures
        keys_distinct(s.update(i, (s[i].0, v))),
        sum_of(s.update(i, (s[i].0, v))) == sum_of(s) - s[i].1 + v,
        deposit_of(s.update(i, (s[i].0, v)), s[i].0) == v,
        forall|b: u64| b != s[i].0 ==> deposit_of(s.update(i, (s[i].0, v)), b) == #[trigger] deposit_of(s, b),
    decreases s.len(),
{
    let t = s.update(i, (s[i].0, v));
    if i == s.len() - 1 {
        assert(t.drop_last() =~= s.drop_last());
        assert forall|b: u64| b != s[i].0 implies deposit_of(t, b) == deposit_of(s, b) by {
            assert(deposit_of(t, b) == deposit_of(t.drop_last(), b));
        }
    } else {
        assert(keys_distinct(s.drop_last()));
        lemma_update_entry(s.drop_last(), i, v);
        assert(t.drop_last() =~= s.drop_last().update(i, (s[i].0, v)));
        assert(t.last() == s.last());
        assert(s[i].0 != s.last().0);
        assert forall|b: u64| b != s[i].0 implies deposit_of(t, b) == deposit_of(s, b) by {
            if b == s.last().0 {
                assert(deposit_of(t, b) == t.last().1);
            } else {
                assert(deposit_of(t, b) == deposit_of(t.drop_last(), b));
                assert(deposit_of(s, b) == deposit_of(s.drop_last(), b));
            }
        }
        assert(deposit_of(t, s[i].0) == deposit_of(t.drop_last(), s[i].0));
    }
}

/// Appending an entry for a key that has none records that key's amount,
/// leaves every other key's amount alone, and adds the amount to the sum.
pub proof fn lemma_push_entry(s: Seq<Entry>, a: u64, v: u128)
    requires
        keys_distinct(s),
        forall|i: int| 0 <= i < s.len() ==> (#[trigger] s[i]).0 != a,
    ensures
        keys_distinct(s.push((a, v))),
        sum_of(s.push((a, v))) == sum_of(s) + v,
        deposit_of(s.push((a, v)), a) == v,
        forall|b: u64| b != a ==> deposit_of(s.push((a, v)), b) == #[trigger] deposit_of(s, b),
{
    let t = s.push((a, v));
    assert(t.drop_last() =~= s);
    assert(t.last() == (a, v));
    assert forall|b: u64| b != a implies deposit_of(t, b) == deposit_of(s, b) by {
        assert(deposit_of(t, b) == deposit_of(t.drop_last(), b));
    }
}

} // verus!
