//! The mathematical model of the token contract: its state, and what each
//! entry point does to that state, as pure spec functions.
use vstd::prelude::*;

use crate::account::{balance_in, AccountId};

verus! {

/// Errors that the token contract reports.
#[derive(Clone, Copy, Debug, PartialEq, Eq)]
pub enum TokenError {
    /// `initialize` has not been called yet.
    NotInitialized,
    /// `initialize` was called a second time.
    AlreadyInitialized,
    /// The amount is negative, exceeds the holder's balance, or would
    /// overflow the recipient's balance.
    InsufficientBalance,
    /// The spender's allowance is too small or has expired.
    InsufficientAllowance,
}

/// An allowance granted by an owner to a spender: how much may still be
/// spent, and the last ledger at which it may be spent.
#[derive(Clone, Copy, Debug, PartialEq, Eq)]
pub struct AllowanceValue {
    pub amount: i128,
    pub expiration_ledger: u32,
}

/// What an entry point of the token answers: whose signature the call
/// demands (if it got that far), and whether it succeeded.
///
/// A call with `auth == Some(a)` is only valid when `a` authorized it; a
/// host that cannot obtain that authorization aborts the call and discards
/// the state change.
#[derive(Debug, PartialEq, Eq)]
pub struct Outcome<E> {
    pub auth: Option<AccountId>,
    pub result: Result<(), E>,
}

/// Abstract state of a token contract.
pub struct TokenState {
    /// The administrator; `None` until `initialize` has run.
    pub admin: Option<AccountId>,
    /// Name and symbol, as the bytes the ledger stores.
    pub name: Seq<u8>,
    pub symbol: Seq<u8>,
    pub decimals: u32,
    pub total_supply: i128,
    pub balances: Map<AccountId, i128>,
    pub allowances: Map<(AccountId, AccountId), AllowanceValue>,
}

/// The state of a contract whose storage is empty.
pub open spec fn empty_token() -> TokenState {
    TokenState {
        admin: None,
        name: Seq::empty(),
        symbol: Seq::empty(),
        decimals: 0,
        total_supply: 0,
        balances: Map::empty(),
        allowances: Map::empty(),
    }
}

/// The allowance record of `(from, spender)`, or an empty one that expired
/// at ledger zero.
pub open spec fn allowance_record(s: TokenState, from: AccountId, spender: AccountId) -> AllowanceValue {
    if s.allowances.contains_key((from, spender)) {
        s.allowances[(from, spender)]
    } else {
        AllowanceValue { amount: 0, expiration_ledger: 0 }
    }
}

/// What `spender` may still spend of `from`'s tokens at ledger `ledger`.
pub open spec fn live_allowance(s: TokenState, from: AccountId, spender: AccountId, ledger: u32) -> i128 {
    if s.allowances.contains_key((from, spender)) && ledger <= s.allowances[(from, spender)].expiration_ledger {
        s.allowances[(from, spender)].amount
    } else {
        0
    }
}

/// An allowance check passes when it has not expired and covers `amount`.
pub open spec fn allowance_covers(s: TokenState, from: AccountId, spender: AccountId, amount: i128, ledger: u32) -> bool {
    let v = allowance_record(s, from, spender);
    ledger <= v.expiration_ledger && amount <= v.amount
}

pub open spec fn rejected(s: TokenState, auth: Option<AccountId>, e: TokenError) -> (Outcome<TokenError>, TokenState) {
    (Outcome { auth, result: Err(e) }, s)
}

pub open spec fn accepted(auth: Option<AccountId>, post: TokenState) -> (Outcome<TokenError>, TokenState) {
    (Outcome { auth, result: Ok(()) }, post)
}

/// `initialize`: the first call installs admin and metadata and sets the
/// supply to zero; later calls are refused before any signature is asked.
pub open spec fn initialize_step(s: TokenState, admin: AccountId, name: Seq<u8>, symbol: Seq<u8>, decimals: u32) -> (Outcome<TokenError>, TokenState) {
    if s.admin is Some {
        rejected(s, None, TokenError::AlreadyInitialized)
    } else {
        accepted(Some(admin), TokenState { admin: Some(admin), name, symbol, decimals, total_supply: 0, ..s })
    }
}

/// `mint`: admin only; credits `to` and grows the supply.
pub open spec fn mint_step(s: TokenState, to: AccountId, amount: i128) -> (Outcome<TokenError>, TokenState) {
    match s.admin {
        None => rejected(s, None, TokenError::NotInitialized),
        Some(a) => {
            let b = balance_in(s.balances, to);
            if amount < 0 || b + amount > i128::MAX {
                rejected(s, Some(a), TokenError::InsufficientBalance)
            } else {
                accepted(Some(a), TokenState {
                    balances: s.balances.insert(to, (b + amount) as i128),
                    total_supply: (s.total_supply + amount) as i128,
                    ..s
                })
            }
        },
    }
}

/// The inputs on which `mint` would overflow the total supply.
pub open spec fn mint_overflows(s: TokenState, to: AccountId, amount: i128) -> bool {
    &&& s.admin is Some
    &&& 0 <= amount
    &&& balance_in(s.balances, to) + amount <= i128::MAX
    &&& s.total_supply + amount > i128::MAX
}

/// `burn_admin`: admin only; debits `from` and shrinks the supply.
pub open spec fn burn_admin_step(s: TokenState, from: AccountId, amount: i128) -> (Outcome<TokenError>, TokenState) {
    match s.admin {
        None => rejected(s, None, TokenError::NotInitialized),
        Some(a) => {
            let b = balance_in(s.balances, from);
            if amount < 0 || b < amount {
                rejected(s, Some(a), TokenError::InsufficientBalance)
            } else {
                accepted(Some(a), TokenState {
                    balances: s.balances.insert(from, (b - amount) as i128),
                    total_supply: (s.total_supply - amount) as i128,
                    ..s
                })
            }
        },
    }
}

/// The inputs on which `burn_admin` would underflow the total supply.
pub open spec fn burn_admin_overflows(s: TokenState, from: AccountId, amount: i128) -> bool {
    &&& s.admin is Some
    &&& 0 <= amount <= balance_in(s.balances, from)
    &&& s.total_supply - amount < i128::MIN
}

/// `set_admin`: the current admin hands the role over.
pub open spec fn set_admin_step(s: TokenState, new_admin: AccountId) -> (Outcome<TokenError>, TokenState) {
    match s.admin {
        None => rejected(s, None, TokenError::NotInitialized),
        Some(a) => accepted(Some(a), TokenState { admin: Some(new_admin), ..s }),
    }
}

/// `approve`: `from` sets the allowance of `spender`, replacing any earlier one.
pub open spec fn approve_step(s: TokenState, from: AccountId, spender: AccountId, amount: i128, expiration_ledger: u32) -> (Outcome<TokenError>, TokenState) {
    accepted(Some(from), TokenState {
        allowances: s.allowances.insert((from, spender), AllowanceValue { amount, expiration_ledger }),
        ..s
    })
}

/// The balance table after `amount` moves from `from` to `to`: the debit is
/// written first and the credit reads the table as the debit left it.
pub open spec fn moved_balances(balances: Map<AccountId, i128>, from: AccountId, to: AccountId, amount: i128) -> Map<AccountId, i128> {
    let debited = balances.insert(from, (balance_in(balances, from) - amount) as i128);
    debited.insert(to, (balance_in(debited, to) + amount) as i128)
}

/// The balance movement shared by `transfer` and `transfer_from`.
pub open spec fn transfer_core(s: TokenState, from: AccountId, to: AccountId, amount: i128) -> Result<TokenState, TokenError> {
    if amount < 0 || balance_in(s.balances, from) < amount {
        Err(TokenError::InsufficientBalance)
    } else {
        Ok(TokenState { balances: moved_balances(s.balances, from, to, amount), ..s })
    }
}

/// The inputs on which a balance movement would overflow the recipient.
pub open spec fn transfer_overflows(s: TokenState, from: AccountId, to: AccountId, amount: i128) -> bool {
    &&& 0 <= amount <= balance_in(s.balances, from)
    &&& from != to
    &&& balance_in(s.balances, to) + amount > i128::MAX
}

/// `transfer`: `from` moves `amount` of its own tokens to `to`.
pub open spec fn transfer_step(s: TokenState, from: AccountId, to: AccountId, amount: i128) -> (Outcome<TokenError>, TokenState) {
    match transfer_core(s, from, to, amount) {
        Err(e) => rejected(s, Some(from), e),
        Ok(post) => accepted(Some(from), post),
    }
}

/// The state after `spender` uses `amount` of its allowance over `from`.
pub open spec fn allowance_spent(s: TokenState, spender: AccountId, from: AccountId, amount: i128) -> TokenState {
    let v = allowance_record(s, from, spender);
    TokenState {
        allowances: s.allowances.insert(
            (from, spender),
            AllowanceValue { amount: (v.amount - amount) as i128, expiration_ledger: v.expiration_ledger },
        ),
        ..s
    }
}

/// `transfer_from`: `spender` moves `amount` of `from`'s tokens to `to`
/// within its allowance; a failed movement undoes the allowance change.
pub open spec fn transfer_from_step(s: TokenState, spender: AccountId, from: AccountId, to: AccountId, amount: i128, ledger: u32) -> (Outcome<TokenError>, TokenState) {
    if !allowance_covers(s, from, spender, amount, ledger) {
        rejected(s, Some(spender), TokenError::InsufficientAllowance)
    } else {
        match transfer_core(allowance_spent(s, spender, from, amount), from, to, amount) {
            Err(e) => rejected(s, Some(spender), e),
            Ok(post) => accepted(Some(spender), post),
        }
    }
}

/// The inputs on which `transfer_from` would overflow the allowance or the
/// recipient's balance.
pub open spec fn transfer_from_overflows(s: TokenState, spender: AccountId, from: AccountId, to: AccountId, amount: i128, ledger: u32) -> bool {
    &&& allowance_covers(s, from, spender, amount, ledger)
    &&& (allowance_record(s, from, spender).amount - amount > i128::MAX
        || transfer_overflows(s, from, to, amount))
}

/// `burn`: `from` destroys `amount` of its own tokens; a negative amount
/// is refused.
pub open spec fn burn_step(s: TokenState, from: AccountId, amount: i128) -> (Outcome<TokenError>, TokenState) {
    let b = balance_in(s.balances, from);
    if amount < 0 || b < amount {
        rejected(s, Some(from), TokenError::InsufficientBalance)
    } else {
        accepted(Some(from), TokenState {
            balances: s.balances.insert(from, (b - amount) as i128),
            total_supply: (s.total_supply - amount) as i128,
            ..s
        })
    }
}

/// The inputs on which `burn` would underflow the supply.
pub open spec fn burn_overflows(s: TokenState, from: AccountId, amount: i128) -> bool {
    &&& 0 <= amount <= balance_in(s.balances, from)
    &&& s.total_supply - amount < i128::MIN
}

/// `burn_from`: `spender` destroys `amount` of `from`'s tokens within its
/// allowance; a negative amount is refused.
pub open spec fn burn_from_step(s: TokenState, spender: AccountId, from: AccountId, amount: i128, ledger: u32) -> (Outcome<TokenError>, TokenState) {
    let b = balance_in(s.balances, from);
    if !allowance_covers(s, from, spender, amount, ledger) {
        rejected(s, Some(spender), TokenError::InsufficientAllowance)
    } else if amount < 0 || b < amount {
        rejected(s, Some(spender), TokenError::InsufficientBalance)
    } else {
        let spent = allowance_spent(s, spender, from, amount);
        accepted(Some(spender), TokenState {
            balances: s.balances.insert(from, (b - amount) as i128),
            total_supply: (s.total_supply - amount) as i128,
            ..spent
        })
    }
}

/// The inputs on which `burn_from` would underflow the supply.
pub open spec fn burn_from_overflows(s: TokenState, spender: AccountId, from: AccountId, amount: i128, ledger: u32) -> bool {
    &&& allowance_covers(s, from, spender, amount, ledger)
    &&& burn_overflows(s, from, amount)
}

} // verus!
