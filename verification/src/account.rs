use std::collections::BTreeMap;
use vstd::prelude::*;

verus! {

/// Identity of an account (a wallet or a contract) as the ledger sees it.
pub type AccountId = u64;

/// The balance that a balance table records for `id`; an account that
/// never held tokens has balance zero.
pub open spec fn balance_in(balances: Map<AccountId, i128>, id: AccountId) -> i128 {
    if balances.contains_key(id) {
        balances[id]
    } else {
        0
    }
}

/// Reads the balance of `id` from `balances`.
pub fn read_balance(balances: &BTreeMap<AccountId, i128>, id: AccountId) -> (b: i128)
    ensures
        b == balance_in(balances@, id),
{
    match balances.get(&id) {
        Some(v) => *v,
        None => 0,
    }
}


} // verus!
