//! Properties that hold of every run of the token contract.
use vstd::prelude::*;

use crate::account::{balance_in, AccountId};
use crate::supply::{lemma_balance_at_most_sum, lemma_sum_empty, lemma_sum_insert, sum_balances};
use crate::token_model::{
    allowance_record, approve_step, burn_admin_overflows, burn_admin_step, burn_from_overflows,
    burn_from_step, burn_overflows, burn_step, empty_token, initialize_step, live_allowance, mint_overflows,
    mint_step, moved_balances, set_admin_step, transfer_from_overflows, transfer_from_step,
    transfer_overflows, transfer_step, AllowanceValue, Outcome, TokenError, TokenState,
};

verus! {

/// The total supply equals the sum of all balances.
pub open spec fn supply_consistent(s: TokenState) -> bool {
    &&& s.balances.dom().finite()
    &&& s.total_supply == sum_balances(s.balances)
}

/// No account holds a negative balance.
pub open spec fn balances_nonnegative(s: TokenState) -> bool {
    forall|k: AccountId| #[trigger] s.balances.contains_key(k) ==> s.balances[k] >= 0
}

/// A contract with empty storage is consistent: zero supply, no balances.
pub proof fn law_empty_is_consistent(s: TokenState)
    requires
        s.total_supply == 0,
        s.balances == Map::<AccountId, i128>::empty(),
    ensures
        supply_consistent(s),
        balances_nonnegative(s),
{
    lemma_sum_empty();
}

proof fn lemma_moved_sum(m: Map<AccountId, i128>, from: AccountId, to: AccountId, amount: i128)
    requires
        m.dom().finite(),
        0 <= amount <= balance_in(m, from),
        from != to ==> balance_in(m, to) + amount <= i128::MAX,
    ensures
        moved_balances(m, from, to, amount).dom().finite(),
        sum_balances(moved_balances(m, from, to, amount)) == sum_balances(m),
{
    let d = m.insert(from, (balance_in(m, from) - amount) as i128);
    lemma_sum_insert(m, from, (balance_in(m, from) - amount) as i128);
    lemma_sum_insert(d, to, (balance_in(d, to) + amount) as i128);
}

/// Every other entry point keeps the total supply equal to the sum of
/// balances.
pub proof fn law_supply_matches_balances(
    s: TokenState,
    spender: AccountId,
    from: AccountId,
    to: AccountId,
    amount: i128,
    expiration_ledger: u32,
    ledger: u32,
)
    requires
        supply_consistent(s),
    ensures
        !mint_overflows(s, to, amount) ==> supply_consistent(mint_step(s, to, amount).1),
        !burn_admin_overflows(s, from, amount) ==> supply_consistent(burn_admin_step(s, from, amount).1),
        supply_consistent(set_admin_step(s, to).1),
        supply_consistent(approve_step(s, from, spender, amount, expiration_ledger).1),
        !transfer_overflows(s, from, to, amount) ==> supply_consistent(transfer_step(s, from, to, amount).1),
        !transfer_from_overflows(s, spender, from, to, amount, ledger)
            ==> supply_consistent(transfer_from_step(s, spender, from, to, amount, ledger).1),
        !burn_overflows(s, from, amount) ==> supply_consistent(burn_step(s, from, amount).1),
        !burn_from_overflows(s, spender, from, amount, ledger)
            ==> supply_consistent(burn_from_step(s, spender, from, amount, ledger).1),
{
    let m = s.balances;
    let bt = balance_in(m, to);
    let bf = balance_in(m, from);
    lemma_sum_insert(m, to, (bt + amount) as i128);
    lemma_sum_insert(m, from, (bf - amount) as i128);
    if 0 <= amount <= bf && (from != to ==> bt + amount <= i128::MAX) {
        lemma_moved_sum(m, from, to, amount);
    }
}

/// No entry point leaves a negative balance behind.
pub proof fn law_balances_stay_nonnegative(
    s: TokenState,
    spender: AccountId,
    from: AccountId,
    to: AccountId,
    amount: i128,
    expiration_ledger: u32,
    ledger: u32,
    name: Seq<u8>,
    symbol: Seq<u8>,
    decimals: u32,
)
    requires
        balances_nonnegative(s),
    ensures
        balances_nonnegative(initialize_step(s, to, name, symbol, decimals).1),
        balances_nonnegative(mint_step(s, to, amount).1),
        balances_nonnegative(burn_admin_step(s, from, amount).1),
        balances_nonnegative(set_admin_step(s, to).1),
        balances_nonnegative(approve_step(s, from, spender, amount, expiration_ledger).1),
        !transfer_overflows(s, from, to, amount) ==> balances_nonnegative(transfer_step(s, from, to, amount).1),
        !transfer_from_overflows(s, spender, from, to, amount, ledger)
            ==> balances_nonnegative(transfer_from_step(s, spender, from, to, amount, ledger).1),
        !burn_overflows(s, from, amount) ==> balances_nonnegative(burn_step(s, from, amount).1),
        !burn_from_overflows(s, spender, from, amount, ledger)
            ==> balances_nonnegative(burn_from_step(s, spender, from, amount, ledger).1),
{
    let m = s.balances;
    assert(balance_in(m, from) >= 0 && balance_in(m, to) >= 0);
    if 0 <= amount <= balance_in(m, from) {
        let d = m.insert(from, (balance_in(m, from) - amount) as i128);
        assert(balance_in(d, to) >= 0);
    }
}

/// A refused call changes nothing.
pub proof fn law_refusal_changes_nothing(
    s: TokenState,
    spender: AccountId,
    from: AccountId,
    to: AccountId,
    amount: i128,
    ledger: u32,
    name: Seq<u8>,
    symbol: Seq<u8>,
    decimals: u32,
)
    ensures
        initialize_step(s, to, name, symbol, decimals).0.result is Err
            ==> initialize_step(s, to, name, symbol, decimals).1 == s,
        mint_step(s, to, amount).0.result is Err ==> mint_step(s, to, amount).1 == s,
        burn_admin_step(s, from, amount).0.result is Err ==> burn_admin_step(s, from, amount).1 == s,
        set_admin_step(s, to).0.result is Err ==> set_admin_step(s, to).1 == s,
        transfer_step(s, from, to, amount).0.result is Err ==> transfer_step(s, from, to, amount).1 == s,
        transfer_from_step(s, spender, from, to, amount, ledger).0.result is Err
            ==> transfer_from_step(s, spender, from, to, amount, ledger).1 == s,
        burn_step(s, from, amount).0.result is Err ==> burn_step(s, from, amount).1 == s,
        burn_from_step(s, spender, from, amount, ledger).0.result is Err
            ==> burn_from_step(s, spender, from, amount, ledger).1 == s,
{
}

/// Tokens leave an account only with the signature of its holder, or of a
/// spender whose unexpired allowance covers the amount; minting, admin
/// burning and handing over the admin role need the admin's signature.
pub proof fn law_who_must_sign(
    s: TokenState,
    spender: AccountId,
    from: AccountId,
    to: AccountId,
    amount: i128,
    ledger: u32,
)
    ensures
        mint_step(s, to, amount).0.result is Ok ==> mint_step(s, to, amount).0.auth == s.admin,
        burn_admin_step(s, from, amount).0.result is Ok ==> burn_admin_step(s, from, amount).0.auth == s.admin,
        set_admin_step(s, to).0.result is Ok ==> set_admin_step(s, to).0.auth == s.admin,
        transfer_step(s, from, to, amount).0.auth == Some(from),
        burn_step(s, from, amount).0.auth == Some(from),
        transfer_from_step(s, spender, from, to, amount, ledger).0.auth == Some(spender),
        burn_from_step(s, spender, from, amount, ledger).0.auth == Some(spender),
        transfer_from_step(s, spender, from, to, amount, ledger).0.result is Ok
            ==> amount <= live_allowance(s, from, spender, ledger),
        burn_from_step(s, spender, from, amount, ledger).0.result is Ok
            ==> amount <= live_allowance(s, from, spender, ledger),
        set_admin_step(s, to).0.result is Ok ==> set_admin_step(s, to).1.admin == Some(to),
{
}

/// A successful transfer moves exactly `amount` from `from` to `to`, leaves
/// every other balance, the supply and the allowances unchanged, and a
/// transfer to oneself changes no balance.
pub proof fn law_transfer_moves_amount(s: TokenState, from: AccountId, to: AccountId, amount: i128, other: AccountId)
    requires
        transfer_step(s, from, to, amount).0.result is Ok,
        !transfer_overflows(s, from, to, amount),
    ensures
        ({
            let post = transfer_step(s, from, to, amount).1;
            &&& post.total_supply == s.total_supply
            &&& post.allowances == s.allowances
            &&& (from != to ==> balance_in(post.balances, from) == balance_in(s.balances, from) - amount)
            &&& (from != to ==> balance_in(post.balances, to) == balance_in(s.balances, to) + amount)
            &&& (from == to ==> balance_in(post.balances, from) == balance_in(s.balances, from))
            &&& (other != from && other != to ==> balance_in(post.balances, other) == balance_in(s.balances, other))
        }),
{
}

/// A successful `transfer_from` moves exactly `amount` and lowers the
/// spender's allowance by exactly that much, keeping its expiration.
pub proof fn law_transfer_from_spends_allowance(
    s: TokenState,
    spender: AccountId,
    from: AccountId,
    to: AccountId,
    amount: i128,
    ledger: u32,
    other: AccountId,
)
    requires
        transfer_from_step(s, spender, from, to, amount, ledger).0.result is Ok,
        !transfer_from_overflows(s, spender, from, to, amount, ledger),
    ensures
        ({
            let post = transfer_from_step(s, spender, from, to, amount, ledger).1;
            &&& post.total_supply == s.total_supply
            &&& live_allowance(post, from, spender, ledger) == live_allowance(s, from, spender, ledger) - amount
            &&& allowance_record(post, from, spender).expiration_ledger
                == allowance_record(s, from, spender).expiration_ledger
            &&& (from != to ==> balance_in(post.balances, from) == balance_in(s.balances, from) - amount)
            &&& (from != to ==> balance_in(post.balances, to) == balance_in(s.balances, to) + amount)
            &&& (other != from && other != to ==> balance_in(post.balances, other) == balance_in(s.balances, other))
        }),
{
}

/// What an approval grants is what `allowance` reads back until it expires,
/// and zero afterwards.
pub proof fn law_approve_then_allowance(
    s: TokenState,
    from: AccountId,
    spender: AccountId,
    amount: i128,
    expiration_ledger: u32,
    ledger: u32,
)
    ensures
        live_allowance(approve_step(s, from, spender, amount, expiration_ledger).1, from, spender, ledger)
            == (if ledger <= expiration_ledger { amount } else { 0 }),
        approve_step(s, from, spender, amount, expiration_ledger).0.result is Ok,
{
}

/// A successful mint credits the recipient with exactly `amount` and grows
/// the supply by the same; an admin burn does the reverse.
pub proof fn law_mint_and_burn_admin_amounts(s: TokenState, who: AccountId, amount: i128)
    requires
        !mint_overflows(s, who, amount),
        !burn_admin_overflows(s, who, amount),
    ensures
        mint_step(s, who, amount).0.result is Ok ==> {
            &&& balance_in(mint_step(s, who, amount).1.balances, who) == balance_in(s.balances, who) + amount
            &&& mint_step(s, who, amount).1.total_supply == s.total_supply + amount
        },
        burn_admin_step(s, who, amount).0.result is Ok ==> {
            &&& balance_in(burn_admin_step(s, who, amount).1.balances, who) == balance_in(s.balances, who) - amount
            &&& burn_admin_step(s, who, amount).1.total_supply == s.total_supply - amount
        },
        s.admin is Some && 0 <= amount && balance_in(s.balances, who) + amount <= i128::MAX
            ==> mint_step(s, who, amount).0.result is Ok,
        s.admin is Some && 0 <= amount <= balance_in(s.balances, who)
            ==> burn_admin_step(s, who, amount).0.result is Ok,
{
}

/// `initialize` takes effect at most once: after any call of it, a further
/// call is refused.
pub proof fn law_initialize_once(
    s: TokenState,
    admin: AccountId,
    name: Seq<u8>,
    symbol: Seq<u8>,
    decimals: u32,
    admin2: AccountId,
    name2: Seq<u8>,
    symbol2: Seq<u8>,
    decimals2: u32,
)
    ensures
        ({
            let first = initialize_step(s, admin, name, symbol, decimals).1;
            initialize_step(first, admin2, name2, symbol2, decimals2)
                == (Outcome { auth: None, result: Err(TokenError::AlreadyInitialized) }, first)
        }),
{
}

/// A call to the token contract, as a caller makes it.
pub enum TokenCall {
    Initialize { admin: AccountId, name: Seq<u8>, symbol: Seq<u8>, decimals: u32 },
    Mint { to: AccountId, amount: i128 },
    BurnAdmin { from: AccountId, amount: i128 },
    SetAdmin { new_admin: AccountId },
    Approve { from: AccountId, spender: AccountId, amount: i128, expiration_ledger: u32 },
    Transfer { from: AccountId, to: AccountId, amount: i128 },
    TransferFrom { spender: AccountId, from: AccountId, to: AccountId, amount: i128, ledger: u32 },
    Burn { from: AccountId, amount: i128 },
    BurnFrom { spender: AccountId, from: AccountId, amount: i128, ledger: u32 },
}

/// Whether the call would overflow, which aborts it.
pub open spec fn call_overflows(s: TokenState, c: TokenCall) -> bool {
    match c {
        TokenCall::Initialize { .. } => false,
        TokenCall::Mint { to, amount } => mint_overflows(s, to, amount),
        TokenCall::BurnAdmin { from, amount } => burn_admin_overflows(s, from, amount),
        TokenCall::SetAdmin { .. } => false,
        TokenCall::Approve { .. } => false,
        TokenCall::Transfer { from, to, amount } => transfer_overflows(s, from, to, amount),
        TokenCall::TransferFrom { spender, from, to, amount, ledger } =>
            transfer_from_overflows(s, spender, from, to, amount, ledger),
        TokenCall::Burn { from, amount } => burn_overflows(s, from, amount),
        TokenCall::BurnFrom { spender, from, amount, ledger } => burn_from_overflows(s, spender, from, amount, ledger),
    }
}

/// What the call does, when it does not overflow.
pub open spec fn call_step(s: TokenState, c: TokenCall) -> (Outcome<TokenError>, TokenState) {
    match c {
        TokenCall::Initialize { admin, name, symbol, decimals } => initialize_step(s, admin, name, symbol, decimals),
        TokenCall::Mint { to, amount } => mint_step(s, to, amount),
        TokenCall::BurnAdmin { from, amount } => burn_admin_step(s, from, amount),
        TokenCall::SetAdmin { new_admin } => set_admin_step(s, new_admin),
        TokenCall::Approve { from, spender, amount, expiration_ledger } =>
            approve_step(s, from, spender, amount, expiration_ledger),
        TokenCall::Transfer { from, to, amount } => transfer_step(s, from, to, amount),
        TokenCall::TransferFrom { spender, from, to, amount, ledger } =>
            transfer_from_step(s, spender, from, to, amount, ledger),
        TokenCall::Burn { from, amount } => burn_step(s, from, amount),
        TokenCall::BurnFrom { spender, from, amount, ledger } => burn_from_step(s, spender, from, amount, ledger),
    }
}

/// The state after a call; an overflowing call aborts and leaves the state
/// as it was.
pub open spec fn apply_call(s: TokenState, c: TokenCall) -> TokenState {
    if call_overflows(s, c) {
        s
    } else {
        call_step(s, c).1
    }
}

/// The state after a history of calls, made in order.
pub open spec fn run_calls(s: TokenState, calls: Seq<TokenCall>) -> TokenState
    decreases calls.len(),
{
    if calls.len() == 0 {
        s
    } else {
        apply_call(run_calls(s, calls.drop_last()), calls.last())
    }
}

/// What every reachable state satisfies: the supply equals the sum of
/// balances, no balance is negative, and before `initialize` the supply is
/// zero.
pub open spec fn token_invariant(s: TokenState) -> bool {
    &&& supply_consistent(s)
    &&& balances_nonnegative(s)
    &&& (s.admin is None ==> s.total_supply == 0)
}

/// Every call keeps the invariant.
pub proof fn law_invariant_preserved(s: TokenState, c: TokenCall)
    requires
        token_invariant(s),
    ensures
        token_invariant(apply_call(s, c)),
{
    if !call_overflows(s, c) {
        match c {
            TokenCall::Initialize { admin, name, symbol, decimals } => {
                law_balances_stay_nonnegative(s, admin, admin, admin, 0, 0, 0, name, symbol, decimals);
            },
            TokenCall::Mint { to, amount } => {
                law_supply_matches_balances(s, to, to, to, amount, 0, 0);
                law_balances_stay_nonnegative(s, to, to, to, amount, 0, 0, Seq::empty(), Seq::empty(), 0);
            },
            TokenCall::BurnAdmin { from, amount } => {
                law_supply_matches_balances(s, from, from, from, amount, 0, 0);
                law_balances_stay_nonnegative(s, from, from, from, amount, 0, 0, Seq::empty(), Seq::empty(), 0);
            },
            TokenCall::SetAdmin { new_admin } => {
                law_supply_matches_balances(s, new_admin, new_admin, new_admin, 0, 0, 0);
                law_balances_stay_nonnegative(s, new_admin, new_admin, new_admin, 0, 0, 0, Seq::empty(), Seq::empty(), 0);
            },
            TokenCall::Approve { from, spender, amount, expiration_ledger } => {
                law_supply_matches_balances(s, spender, from, from, amount, expiration_ledger, 0);
                law_balances_stay_nonnegative(s, spender, from, from, amount, expiration_ledger, 0, Seq::empty(), Seq::empty(), 0);
            },
            TokenCall::Transfer { from, to, amount } => {
                law_supply_matches_balances(s, from, from, to, amount, 0, 0);
                law_balances_stay_nonnegative(s, from, from, to, amount, 0, 0, Seq::empty(), Seq::empty(), 0);
            },
            TokenCall::TransferFrom { spender, from, to, amount, ledger } => {
                law_supply_matches_balances(s, spender, from, to, amount, 0, ledger);
                law_balances_stay_nonnegative(s, spender, from, to, amount, 0, ledger, Seq::empty(), Seq::empty(), 0);
            },
            TokenCall::Burn { from, amount } => {
                law_supply_matches_balances(s, from, from, from, amount, 0, 0);
                law_balances_stay_nonnegative(s, from, from, from, amount, 0, 0, Seq::empty(), Seq::empty(), 0);
                lemma_balance_at_most_sum(s.balances, from);
            },
            TokenCall::BurnFrom { spender, from, amount, ledger } => {
                law_supply_matches_balances(s, spender, from, from, amount, 0, ledger);
                law_balances_stay_nonnegative(s, spender, from, from, amount, 0, ledger, Seq::empty(), Seq::empty(), 0);
                lemma_balance_at_most_sum(s.balances, from);
            },
        }
    }
}

/// From empty storage, through `initialize` and any history of calls, the
/// total supply equals the sum of all balances and no balance is negative.
pub proof fn law_supply_over_any_history(calls: Seq<TokenCall>)
    ensures
        token_invariant(run_calls(empty_token(), calls)),
        supply_consistent(run_calls(empty_token(), calls)),
        balances_nonnegative(run_calls(empty_token(), calls)),
    decreases calls.len(),
{
    if calls.len() == 0 {
        law_empty_is_consistent(empty_token());
    } else {
        law_supply_over_any_history(calls.drop_last());
        law_invariant_preserved(run_calls(empty_token(), calls.drop_last()), calls.last());
    }
}

/// An admin burn of what was just minted restores the balance and the
/// supply.
pub proof fn law_burn_admin_undoes_mint(s: TokenState, to: AccountId, amount: i128)
    requires
        mint_step(s, to, amount).0.result is Ok,
        !mint_overflows(s, to, amount),
        balance_in(s.balances, to) >= 0,
    ensures
        ({
            let minted = mint_step(s, to, amount).1;
            &&& !burn_admin_overflows(minted, to, amount)
            &&& burn_admin_step(minted, to, amount).0.result is Ok
            &&& balance_in(burn_admin_step(minted, to, amount).1.balances, to) == balance_in(s.balances, to)
            &&& burn_admin_step(minted, to, amount).1.total_supply == s.total_supply
        }),
{
}

/// Burning never creates tokens: a burn by the holder or by a spender
/// never raises the holder's balance, the supply or the spender's
/// allowance, and a negative amount is refused.
pub proof fn law_burns_never_create(s: TokenState, spender: AccountId, from: AccountId, amount: i128, ledger: u32)
    requires
        !burn_overflows(s, from, amount),
        !burn_from_overflows(s, spender, from, amount, ledger),
    ensures
        amount < 0 ==> burn_step(s, from, amount).0.result is Err,
        amount < 0 ==> burn_from_step(s, spender, from, amount, ledger).0.result is Err,
        balance_in(burn_step(s, from, amount).1.balances, from) <= balance_in(s.balances, from),
        burn_step(s, from, amount).1.total_supply <= s.total_supply,
        balance_in(burn_from_step(s, spender, from, amount, ledger).1.balances, from) <= balance_in(s.balances, from),
        burn_from_step(s, spender, from, amount, ledger).1.total_supply <= s.total_supply,
        live_allowance(burn_from_step(s, spender, from, amount, ledger).1, from, spender, ledger)
            <= live_allowance(s, from, spender, ledger),
{
}

/// For a positive amount, spending from an allowance is refused for want of
/// allowance exactly when the amount exceeds what `allowance` reads at that
/// ledger (zero when there is none or it expired).
pub proof fn law_allowance_refusal_is_exact(s: TokenState, spender: AccountId, from: AccountId, to: AccountId, amount: i128, ledger: u32)
    requires
        amount > 0,
    ensures
        (transfer_from_step(s, spender, from, to, amount, ledger).0.result
            == Err::<(), TokenError>(TokenError::InsufficientAllowance))
            <==> amount > live_allowance(s, from, spender, ledger),
        (burn_from_step(s, spender, from, amount, ledger).0.result
            == Err::<(), TokenError>(TokenError::InsufficientAllowance))
            <==> amount > live_allowance(s, from, spender, ledger),
{
}

/// `transfer` succeeds exactly when the amount is non-negative and at most
/// the sender's balance (a holder may send its whole balance); it then moves
/// exactly that amount and leaves every other balance, the supply and the
/// allowances as they were.
pub proof fn law_transfer_outcome(s: TokenState, from: AccountId, to: AccountId, amount: i128, other: AccountId)
    requires
        !transfer_overflows(s, from, to, amount),
    ensures
        ({
            let (o, post) = transfer_step(s, from, to, amount);
            &&& o.auth == Some(from)
            &&& (o.result is Ok <==> 0 <= amount <= balance_in(s.balances, from))
            &&& (o.result is Err ==> o.result == Err::<(), TokenError>(TokenError::InsufficientBalance) && post == s)
            &&& (o.result is Ok ==> {
                &&& post.total_supply == s.total_supply
                &&& post.allowances == s.allowances
                &&& post.admin == s.admin
                &&& (from != to ==> balance_in(post.balances, from) == balance_in(s.balances, from) - amount)
                &&& (from != to ==> balance_in(post.balances, to) == balance_in(s.balances, to) + amount)
                &&& (from == to ==> balance_in(post.balances, from) == balance_in(s.balances, from))
                &&& (other != from && other != to ==> balance_in(post.balances, other) == balance_in(s.balances, other))
            })
        }),
{
}

/// `transfer_from` with a positive amount succeeds exactly when the amount
/// is within both the spender's live allowance and the owner's balance; it
/// then moves the amount, lowers the live allowance by exactly the amount
/// and keeps its expiration. A negative amount is always refused.
pub proof fn law_transfer_from_outcome(
    s: TokenState,
    spender: AccountId,
    from: AccountId,
    to: AccountId,
    amount: i128,
    ledger: u32,
    other: AccountId,
)
    requires
        !transfer_from_overflows(s, spender, from, to, amount, ledger),
    ensures
        ({
            let (o, post) = transfer_from_step(s, spender, from, to, amount, ledger);
            &&& o.auth == Some(spender)
            &&& (amount < 0 ==> o.result is Err)
            &&& (amount > 0 ==> (o.result is Ok <==> amount <= live_allowance(s, from, spender, ledger)
                && amount <= balance_in(s.balances, from)))
            &&& (amount > live_allowance(s, from, spender, ledger) && amount > 0
                ==> o.result == Err::<(), TokenError>(TokenError::InsufficientAllowance))
            &&& (0 < amount <= live_allowance(s, from, spender, ledger) && amount > balance_in(s.balances, from)
                ==> o.result == Err::<(), TokenError>(TokenError::InsufficientBalance))
            &&& (o.result is Err ==> post == s)
            &&& (o.result is Ok ==> {
                &&& post.total_supply == s.total_supply
                &&& post.admin == s.admin
                &&& live_allowance(post, from, spender, ledger) == live_allowance(s, from, spender, ledger) - amount
                &&& allowance_record(post, from, spender).expiration_ledger
                    == allowance_record(s, from, spender).expiration_ledger
                &&& (from != to ==> balance_in(post.balances, from) == balance_in(s.balances, from) - amount)
                &&& (from != to ==> balance_in(post.balances, to) == balance_in(s.balances, to) + amount)
                &&& (from == to ==> balance_in(post.balances, from) == balance_in(s.balances, from))
                &&& (other != from && other != to ==> balance_in(post.balances, other) == balance_in(s.balances, other))
            })
        }),
{
}

/// `burn` succeeds exactly when the amount is non-negative and at most the
/// holder's balance (the whole balance may be burned); it then lowers the
/// holder's balance and the supply by exactly the amount and changes
/// nothing else.
pub proof fn law_burn_outcome(s: TokenState, from: AccountId, amount: i128, other: AccountId)
    requires
        !burn_overflows(s, from, amount),
    ensures
        ({
            let (o, post) = burn_step(s, from, amount);
            &&& o.auth == Some(from)
            &&& (o.result is Ok <==> 0 <= amount <= balance_in(s.balances, from))
            &&& (o.result is Err ==> o.result == Err::<(), TokenError>(TokenError::InsufficientBalance) && post == s)
            &&& (o.result is Ok ==> {
                &&& balance_in(post.balances, from) == balance_in(s.balances, from) - amount
                &&& post.total_supply == s.total_supply - amount
                &&& post.allowances == s.allowances
                &&& post.admin == s.admin
                &&& (other != from ==> balance_in(post.balances, other) == balance_in(s.balances, other))
            })
        }),
{
}

/// `burn_from` with a positive amount succeeds exactly when the amount is
/// within both the spender's live allowance and the owner's balance; it then
/// lowers the balance, the supply and the live allowance by exactly the
/// amount, keeping the allowance's expiration. A negative amount is always
/// refused for insufficient balance when the allowance check passes.
pub proof fn law_burn_from_outcome(s: TokenState, spender: AccountId, from: AccountId, amount: i128, ledger: u32, other: AccountId)
    requires
        !burn_from_overflows(s, spender, from, amount, ledger),
    ensures
        ({
            let (o, post) = burn_from_step(s, spender, from, amount, ledger);
            &&& o.auth == Some(spender)
            &&& (amount < 0 ==> o.result is Err)
            &&& (amount > 0 ==> (o.result is Ok <==> amount <= live_allowance(s, from, spender, ledger)
                && amount <= balance_in(s.balances, from)))
            &&& (amount > live_allowance(s, from, spender, ledger) && amount > 0
                ==> o.result == Err::<(), TokenError>(TokenError::InsufficientAllowance))
            &&& (0 < amount <= live_allowance(s, from, spender, ledger) && amount > balance_in(s.balances, from)
                ==> o.result == Err::<(), TokenError>(TokenError::InsufficientBalance))
            &&& (o.result is Err ==> post == s)
            &&& (o.result is Ok ==> {
                &&& balance_in(post.balances, from) == balance_in(s.balances, from) - amount
                &&& post.total_supply == s.total_supply - amount
                &&& live_allowance(post, from, spender, ledger) == live_allowance(s, from, spender, ledger) - amount
                &&& allowance_record(post, from, spender).expiration_ledger
                    == allowance_record(s, from, spender).expiration_ledger
                &&& post.admin == s.admin
                &&& (other != from ==> balance_in(post.balances, other) == balance_in(s.balances, other))
            })
        }),
{
}

/// `mint` succeeds exactly when the token is initialized, the amount is
/// non-negative and the recipient's balance does not overflow; it then
/// raises that balance and the supply by the amount. `burn_admin` succeeds
/// exactly when initialized with `0 <= amount <=` balance, and lowers both.
pub proof fn law_mint_and_burn_admin_outcome(s: TokenState, who: AccountId, amount: i128, other: AccountId)
    requires
        !mint_overflows(s, who, amount),
        !burn_admin_overflows(s, who, amount),
    ensures
        ({
            let (o, post) = mint_step(s, who, amount);
            &&& (o.result is Ok <==> s.admin is Some && 0 <= amount && balance_in(s.balances, who) + amount <= i128::MAX)
            &&& (s.admin is None ==> o == (Outcome { auth: None, result: Err(TokenError::NotInitialized) }))
            &&& (s.admin is Some && o.result is Err ==> o == (Outcome { auth: s.admin, result: Err(TokenError::InsufficientBalance) }))
            &&& (o.result is Err ==> post == s)
            &&& (o.result is Ok ==> {
                &&& o.auth == s.admin
                &&& balance_in(post.balances, who) == balance_in(s.balances, who) + amount
                &&& post.total_supply == s.total_supply + amount
                &&& post.allowances == s.allowances
                &&& (other != who ==> balance_in(post.balances, other) == balance_in(s.balances, other))
            })
        }),
        ({
            let (o, post) = burn_admin_step(s, who, amount);
            &&& (o.result is Ok <==> s.admin is Some && 0 <= amount <= balance_in(s.balances, who))
            &&& (s.admin is None ==> o == (Outcome { auth: None, result: Err(TokenError::NotInitialized) }))
            &&& (s.admin is Some && o.result is Err ==> o == (Outcome { auth: s.admin, result: Err(TokenError::InsufficientBalance) }))
            &&& (o.result is Err ==> post == s)
            &&& (o.result is Ok ==> {
                &&& o.auth == s.admin
                &&& balance_in(post.balances, who) == balance_in(s.balances, who) - amount
                &&& post.total_supply == s.total_supply - amount
                &&& post.allowances == s.allowances
                &&& (other != who ==> balance_in(post.balances, other) == balance_in(s.balances, other))
            })
        }),
{
}

/// `initialize` succeeds exactly on an uninitialized token and installs the
/// given admin and metadata with a zero supply; `set_admin` succeeds exactly
/// on an initialized token and changes only the admin; `approve` always
/// succeeds and changes only the one allowance.
pub proof fn law_setup_and_admin_outcome(
    s: TokenState,
    admin: AccountId,
    name: Seq<u8>,
    symbol: Seq<u8>,
    decimals: u32,
    from: AccountId,
    spender: AccountId,
    amount: i128,
    expiration_ledger: u32,
    other_from: AccountId,
    other_spender: AccountId,
    ledger: u32,
)
    ensures
        ({
            let (o, post) = initialize_step(s, admin, name, symbol, decimals);
            &&& (o.result is Ok <==> s.admin is None)
            &&& (o.result is Err ==> o == (Outcome { auth: None, result: Err(TokenError::AlreadyInitialized) }) && post == s)
            &&& (o.result is Ok ==> {
                &&& o.auth == Some(admin)
                &&& post.admin == Some(admin)
                &&& post.name == name && post.symbol == symbol && post.decimals == decimals
                &&& post.total_supply == 0
                &&& post.balances == s.balances
                &&& post.allowances == s.allowances
            })
        }),
        ({
            let (o, post) = set_admin_step(s, admin);
            &&& (o.result is Ok <==> s.admin is Some)
            &&& (o.result is Err ==> o == (Outcome { auth: None, result: Err(TokenError::NotInitialized) }) && post == s)
            &&& (o.result is Ok ==> o.auth == s.admin && post == (TokenState { admin: Some(admin), ..s }))
        }),
        ({
            let (o, post) = approve_step(s, from, spender, amount, expiration_ledger);
            &&& o.result is Ok && o.auth == Some(from)
            &&& allowance_record(post, from, spender) == (AllowanceValue { amount, expiration_ledger })
            &&& ((other_from, other_spender) != (from, spender) ==> live_allowance(post, other_from, other_spender, ledger)
                == live_allowance(s, other_from, other_spender, ledger))
            &&& post.balances == s.balances && post.total_supply == s.total_supply && post.admin == s.admin
        }),
{
}

} // verus!
