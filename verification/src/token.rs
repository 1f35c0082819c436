//! The token contract: fungible balances, allowances, admin-only minting.
use std::collections::BTreeMap;
use vstd::prelude::*;

use crate::account::{balance_in, read_balance, AccountId};
use crate::token_model::{
    allowance_record, approve_step, burn_admin_overflows, burn_admin_step, burn_from_overflows,
    burn_from_step, burn_overflows, burn_step, empty_token, initialize_step, live_allowance, mint_overflows,
    mint_step, set_admin_step, transfer_core, transfer_from_overflows, transfer_from_step,
    transfer_overflows, transfer_step, allowance_spent, AllowanceValue, Outcome, TokenError,
    TokenState,
};

verus! {

/// State of a token contract: what its storage holds.
///
/// A fresh contract (`new`) is uninitialized: no admin, no metadata, zero
/// supply, no balances and no allowances.
pub struct TokenContract {
    pub admin: Option<AccountId>,
    pub name: Vec<u8>,
    pub symbol: Vec<u8>,
    pub decimals: u32,
    pub total_supply: i128,
    pub balances: BTreeMap<AccountId, i128>,
    pub allowances: BTreeMap<(AccountId, AccountId), AllowanceValue>,
}

impl View for TokenContract {
    type V = TokenState;

    open spec fn view(&self) -> TokenState {
        TokenState {
            admin: self.admin,
            name: self.name@,
            symbol: self.symbol@,
            decimals: self.decimals,
            total_supply: self.total_supply,
            balances: self.balances@,
            allowances: self.allowances@,
        }
    }
}

fn outcome(auth: Option<AccountId>, result: Result<(), TokenError>) -> (o: Outcome<TokenError>)
    ensures
        o == (Outcome { auth, result }),
{
    Outcome { auth, result }
}

impl TokenContract {
    /// A contract whose storage is empty.
    pub fn new() -> (c: Self)
        ensures
            c@ == empty_token(),
    {
        TokenContract {
            admin: None,
            name: Vec::new(),
            symbol: Vec::new(),
            decimals: 0,
            total_supply: 0,
            balances: BTreeMap::new(),
            allowances: BTreeMap::new(),
        }
    }

    /// Whether `initialize` has run.
    pub fn is_initialized(&self) -> (b: bool)
        ensures
            b == self@.admin is Some,
    {
        self.admin.is_some()
    }

    /// Initialize the token with metadata and an admin; only the first call
    /// succeeds, and it demands the new admin's signature.
    pub fn initialize(&mut self, admin: AccountId, name: Vec<u8>, symbol: Vec<u8>, decimals: u32) -> (o: Outcome<TokenError>)
        ensures
            (o, final(self)@) == initialize_step(old(self)@, admin, name@, symbol@, decimals),
    {
        if self.admin.is_some() {
            return outcome(None, Err(TokenError::AlreadyInitialized));
        }
        self.admin = Some(admin);
        self.name = name;
        self.symbol = symbol;
        self.decimals = decimals;
        self.total_supply = 0;
        outcome(Some(admin), Ok(()))
    }

    /// Mint `amount` tokens to `to`. Admin only.
    pub fn mint(&mut self, to: AccountId, amount: i128) -> (o: Outcome<TokenError>)
        requires
            !mint_overflows(old(self)@, to, amount),
        ensures
            (o, final(self)@) == mint_step(old(self)@, to, amount),
    {
        let admin = match self.admin {
            None => return outcome(None, Err(TokenError::NotInitialized)),
            Some(a) => a,
        };
        if amount < 0 {
            return outcome(Some(admin), Err(TokenError::InsufficientBalance));
        }
        let balance = self.balance_of(to);
        let new_balance = match balance.checked_add(amount) {
            None => return outcome(Some(admin), Err(TokenError::InsufficientBalance)),
            Some(b) => b,
        };
        self.balances.insert(to, new_balance);
        self.total_supply = self.total_supply + amount;
        outcome(Some(admin), Ok(()))
    }

    /// Burn `amount` tokens from `from`. Admin only.
    pub fn burn_admin(&mut self, from: AccountId, amount: i128) -> (o: Outcome<TokenError>)
        requires
            !burn_admin_overflows(old(self)@, from, amount),
        ensures
            (o, final(self)@) == burn_admin_step(old(self)@, from, amount),
    {
        let admin = match self.admin {
            None => return outcome(None, Err(TokenError::NotInitialized)),
            Some(a) => a,
        };
        if amount < 0 {
            return outcome(Some(admin), Err(TokenError::InsufficientBalance));
        }
        let balance = self.balance_of(from);
        if balance < amount {
            return outcome(Some(admin), Err(TokenError::InsufficientBalance));
        }
        let new_balance = match balance.checked_sub(amount) {
            None => return outcome(Some(admin), Err(TokenError::InsufficientBalance)),
            Some(b) => b,
        };
        self.balances.insert(from, new_balance);
        self.total_supply = self.total_supply - amount;
        outcome(Some(admin), Ok(()))
    }

    /// Transfer the admin role to `new_admin`. Current admin only.
    pub fn set_admin(&mut self, new_admin: AccountId) -> (o: Outcome<TokenError>)
        ensures
            (o, final(self)@) == set_admin_step(old(self)@, new_admin),
    {
        let admin = match self.admin {
            None => return outcome(None, Err(TokenError::NotInitialized)),
            Some(a) => a,
        };
        self.admin = Some(new_admin);
        outcome(Some(admin), Ok(()))
    }

    /// The current admin.
    pub fn admin(&self) -> (a: AccountId)
        requires
            self@.admin is Some,
        ensures
            self@.admin == Some(a),
    {
        self.admin.unwrap()
    }

    /// The current total supply.
    pub fn total_supply(&self) -> (t: i128)
        ensures
            t == self@.total_supply,
    {
        self.total_supply
    }

    /// What `spender` may still transfer from `from` at ledger `ledger`: zero
    /// when no allowance exists or it has expired.
    pub fn allowance(&self, from: AccountId, spender: AccountId, ledger: u32) -> (a: i128)
        ensures
            a == live_allowance(self@, from, spender, ledger),
    {
        match self.allowances.get(&(from, spender)) {
            Some(v) => {
                if ledger <= v.expiration_ledger {
                    v.amount
                } else {
                    0
                }
            },
            None => 0,
        }
    }

    /// `from` allows `spender` to transfer up to `amount` until
    /// `expiration_ledger`.
    pub fn approve(&mut self, from: AccountId, spender: AccountId, amount: i128, expiration_ledger: u32) -> (o: Outcome<TokenError>)
        ensures
            (o, final(self)@) == approve_step(old(self)@, from, spender, amount, expiration_ledger),
    {
        self.allowances.insert((from, spender), AllowanceValue { amount, expiration_ledger });
        outcome(Some(from), Ok(()))
    }

    /// The balance of `id`; zero if it never held tokens.
    pub fn balance(&self, id: AccountId) -> (b: i128)
        ensures
            b == balance_in(self@.balances, id),
    {
        self.balance_of(id)
    }

    /// `from` transfers `amount` of its tokens to `to`.
    pub fn transfer(&mut self, from: AccountId, to: AccountId, amount: i128) -> (o: Outcome<TokenError>)
        requires
            !transfer_overflows(old(self)@, from, to, amount),
        ensures
            (o, final(self)@) == transfer_step(old(self)@, from, to, amount),
    {
        let r = self.transfer_impl(from, to, amount);
        outcome(Some(from), r)
    }

    /// `spender` transfers `amount` of `from`'s tokens to `to`, using its
    /// allowance.
    pub fn transfer_from(&mut self, spender: AccountId, from: AccountId, to: AccountId, amount: i128, ledger: u32) -> (o: Outcome<TokenError>)
        requires
            !transfer_from_overflows(old(self)@, spender, from, to, amount, ledger),
        ensures
            (o, final(self)@) == transfer_from_step(old(self)@, spender, from, to, amount, ledger),
    {
        let v = self.allowance_record(from, spender);
        if ledger > v.expiration_ledger || v.amount < amount {
            return outcome(Some(spender), Err(TokenError::InsufficientAllowance));
        }
        let ghost before = self@;
        let previous = self.allowances.insert(
            (from, spender),
            AllowanceValue { amount: v.amount - amount, expiration_ledger: v.expiration_ledger },
        );
        assert(self@ == allowance_spent(before, spender, from, amount));
        let r = self.transfer_impl(from, to, amount);
        if r.is_err() {
            // A failed movement aborts the whole call: restore the allowance.
            match previous {
                Some(p) => {
                    self.allowances.insert((from, spender), p);
                },
                None => {
                    self.allowances.remove(&(from, spender));
                },
            }
            assert(self.allowances@ =~= before.allowances);
        }
        outcome(Some(spender), r)
    }

    /// `from` burns `amount` of its tokens; a negative amount is refused.
    pub fn burn(&mut self, from: AccountId, amount: i128) -> (o: Outcome<TokenError>)
        requires
            !burn_overflows(old(self)@, from, amount),
        ensures
            (o, final(self)@) == burn_step(old(self)@, from, amount),
    {
        let balance = self.balance_of(from);
        if amount < 0 || balance < amount {
            return outcome(Some(from), Err(TokenError::InsufficientBalance));
        }
        self.balances.insert(from, balance - amount);
        self.total_supply = self.total_supply - amount;
        outcome(Some(from), Ok(()))
    }

    /// `spender` burns `amount` of `from`'s tokens, using its allowance; a
    /// negative amount is refused.
    pub fn burn_from(&mut self, spender: AccountId, from: AccountId, amount: i128, ledger: u32) -> (o: Outcome<TokenError>)
        requires
            !burn_from_overflows(old(self)@, spender, from, amount, ledger),
        ensures
            (o, final(self)@) == burn_from_step(old(self)@, spender, from, amount, ledger),
    {
        let v = self.allowance_record(from, spender);
        if ledger > v.expiration_ledger || v.amount < amount {
            return outcome(Some(spender), Err(TokenError::InsufficientAllowance));
        }
        let balance = self.balance_of(from);
        if amount < 0 || balance < amount {
            return outcome(Some(spender), Err(TokenError::InsufficientBalance));
        }
        self.allowances.insert(
            (from, spender),
            AllowanceValue { amount: v.amount - amount, expiration_ledger: v.expiration_ledger },
        );
        self.balances.insert(from, balance - amount);
        self.total_supply = self.total_supply - amount;
        outcome(Some(spender), Ok(()))
    }

    /// Number of decimal places of the token.
    pub fn decimals(&self) -> (d: u32)
        requires
            self@.admin is Some,
        ensures
            d == self@.decimals,
    {
        self.decimals
    }

    /// Human-readable name of the token.
    pub fn name(&self) -> (n: Vec<u8>)
        requires
            self@.admin is Some,
        ensures
            n@ == self@.name,
    {
        let n = self.name.clone();
        assert(n@ =~= self.name@);
        n
    }

    /// Ticker symbol of the token.
    pub fn symbol(&self) -> (s: Vec<u8>)
        requires
            self@.admin is Some,
        ensures
            s@ == self@.symbol,
    {
        let s = self.symbol.clone();
        assert(s@ =~= self.symbol@);
        s
    }

    fn balance_of(&self, id: AccountId) -> (b: i128)
        ensures
            b == balance_in(self@.balances, id),
    {
        read_balance(&self.balances, id)
    }

    fn allowance_record(&self, from: AccountId, spender: AccountId) -> (v: AllowanceValue)
        ensures
            v == allowance_record(self@, from, spender),
    {
        match self.allowances.get(&(from, spender)) {
            Some(v) => *v,
            None => AllowanceValue { amount: 0, expiration_ledger: 0 },
        }
    }

    /// Moves `amount` from `from` to `to`; refuses a negative amount or one
    /// that exceeds the balance of `from`, leaving the state unchanged.
    fn transfer_impl(&mut self, from: AccountId, to: AccountId, amount: i128) -> (r: Result<(), TokenError>)
        requires
            !transfer_overflows(old(self)@, from, to, amount),
        ensures
            match transfer_core(old(self)@, from, to, amount) {
                Err(e) => r == Err::<(), TokenError>(e) && final(self)@ == old(self)@,
                Ok(post) => r == Ok::<(), TokenError>(()) && final(self)@ == post,
            },
    {
        if amount < 0 {
            return Err(TokenError::InsufficientBalance);
        }
        let from_balance = self.balance_of(from);
        if from_balance < amount {
            return Err(TokenError::InsufficientBalance);
        }
        self.balances.insert(from, from_balance - amount);
        let to_balance = self.balance_of(to);
        self.balances.insert(to, to_balance + amount);
        Ok(())
    }
}

} // verus!
