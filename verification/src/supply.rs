//! The sum of a balance table, and how it changes when one entry is written.
use vstd::prelude::*;

use crate::account::{balance_in, AccountId};

verus! {

/// The sum of all balances recorded in a finite balance table.
pub open spec fn sum_balances(m: Map<AccountId, i128>) -> int
    decreases m.dom().len(),
{
    if m.dom().finite() && m.dom().len() > 0 {
        let k = m.dom().choose();
        m[k] + sum_balances(m.remove(k))
    } else {
        0
    }
}

/// Any entry, not only the one that `choose` picks, can be split off the sum.
pub proof fn lemma_sum_remove(m: Map<AccountId, i128>, k: AccountId)
    requires
        m.dom().finite(),
        m.contains_key(k),
    ensures
        sum_balances(m) == m[k] + sum_balances(m.remove(k)),
    decreases m.dom().len(),
{
    let c = m.dom().choose();
    if c != k {
        let mc = m.remove(c);
        let mk = m.remove(k);
        lemma_sum_remove(mc, k);
        lemma_sum_remove(mk, c);
        assert(mc.remove(k) =~= mk.remove(c));
    }
}

/// Writing `v` for `k` changes the sum by `v` minus the balance `k` had.
pub proof fn lemma_sum_insert(m: Map<AccountId, i128>, k: AccountId, v: i128)
    requires
        m.dom().finite(),
    ensures
        m.insert(k, v).dom().finite(),
        sum_balances(m.insert(k, v)) == sum_balances(m) - balance_in(m, k) + v,
{
    let n = m.insert(k, v);
    lemma_sum_remove(n, k);
    assert(n.remove(k) =~= m.remove(k));
    if m.contains_key(k) {
        lemma_sum_remove(m, k);
    } else {
        assert(m.remove(k) =~= m);
    }
}

/// The empty table sums to zero.
pub proof fn lemma_sum_empty()
    ensures
        sum_balances(Map::<AccountId, i128>::empty()) == 0,
{
    assert(Map::<AccountId, i128>::empty().dom() =~= Set::<AccountId>::empty());
}

/// A table of non-negative balances has a non-negative sum.
pub proof fn lemma_sum_nonnegative(m: Map<AccountId, i128>)
    requires
        m.dom().finite(),
        forall|k: AccountId| #[trigger] m.contains_key(k) ==> m[k] >= 0,
    ensures
        sum_balances(m) >= 0,
    decreases m.dom().len(),
{
    if m.dom().len() > 0 {
        let k = m.dom().choose();
        lemma_sum_nonnegative(m.remove(k));
    }
}

/// In a table of non-negative balances, no balance exceeds the sum.
pub proof fn lemma_balance_at_most_sum(m: Map<AccountId, i128>, k: AccountId)
    requires
        m.dom().finite(),
        forall|j: AccountId| #[trigger] m.contains_key(j) ==> m[j] >= 0,
    ensures
        0 <= balance_in(m, k) <= sum_balances(m),
{
    lemma_sum_nonnegative(m);
    if m.contains_key(k) {
        lemma_sum_remove(m, k);
        lemma_sum_nonnegative(m.remove(k));
    }
}

} // verus!
