use token_escrow::{AllowanceValue, Outcome, TokenContract, TokenError};

const ADMIN: u64 = 1;
const USER1: u64 = 2;
const USER2: u64 = 3;
const SPENDER: u64 = 4;
const NEW_ADMIN: u64 = 5;

/// The ledger sequence of a fresh test environment.
const LEDGER: u32 = 0;

fn ok(auth: u64) -> Outcome<TokenError> {
    Outcome { auth: Some(auth), result: Ok(()) }
}

fn init_token(admin: u64) -> TokenContract {
    let mut t = TokenContract::new();
    let o = t.initialize(admin, b"Test Token".to_vec(), b"TEST".to_vec(), 18u32);
    assert_eq!(o, ok(admin));
    t
}

#[test]
fn test_initialize() {
    let mut client = TokenContract::new();
    let name = b"Test Token".to_vec();
    let symbol = b"TEST".to_vec();
    let decimals = 18u32;

    let o = client.initialize(ADMIN, name.clone(), symbol.clone(), decimals);
    assert_eq!(o, ok(ADMIN));

    assert_eq!(client.admin(), ADMIN);
    assert_eq!(client.name(), name);
    assert_eq!(client.symbol(), symbol);
    assert_eq!(client.decimals(), decimals);
    assert_eq!(client.total_supply(), 0);
}

#[test]
fn test_initialize_twice() {
    let mut client = TokenContract::new();
    let name = b"Test Token".to_vec();
    let symbol = b"TEST".to_vec();
    let decimals = 18u32;

    assert_eq!(client.initialize(ADMIN, name.clone(), symbol.clone(), decimals), ok(ADMIN));
    let second = client.initialize(ADMIN, name, symbol, decimals);
    assert_eq!(second, Outcome { auth: None, result: Err(TokenError::AlreadyInitialized) });
}

#[test]
fn test_mint() {
    let mut client = init_token(ADMIN);
    let amount = 1000i128;
    assert_eq!(client.mint(USER1, amount), ok(ADMIN));

    assert_eq!(client.balance(USER1), amount);
    assert_eq!(client.total_supply(), amount);
}

#[test]
fn test_burn() {
    let mut client = init_token(ADMIN);
    let mint_amount = 1000i128;
    assert_eq!(client.mint(USER1, mint_amount), ok(ADMIN));

    let burn_amount = 300i128;
    assert_eq!(client.burn_admin(USER1, burn_amount), ok(ADMIN));

    assert_eq!(client.balance(USER1), mint_amount - burn_amount);
    assert_eq!(client.total_supply(), mint_amount - burn_amount);
}

#[test]
fn test_transfer() {
    let mut client = init_token(ADMIN);
    let mint_amount = 1000i128;
    assert_eq!(client.mint(USER1, mint_amount), ok(ADMIN));

    let transfer_amount = 300i128;
    assert_eq!(client.transfer(USER1, USER2, transfer_amount), ok(USER1));

    assert_eq!(client.balance(USER1), mint_amount - transfer_amount);
    assert_eq!(client.balance(USER2), transfer_amount);
    assert_eq!(client.total_supply(), mint_amount);
}

#[test]
fn test_approve_and_transfer_from() {
    let mut client = init_token(ADMIN);
    let mint_amount = 1000i128;
    assert_eq!(client.mint(USER1, mint_amount), ok(ADMIN));

    let approve_amount = 500i128;
    let expiration = LEDGER + 100;
    assert_eq!(client.approve(USER1, SPENDER, approve_amount, expiration), ok(USER1));

    assert_eq!(client.allowance(USER1, SPENDER, LEDGER), approve_amount);

    let transfer_amount = 200i128;
    assert_eq!(client.transfer_from(SPENDER, USER1, USER2, transfer_amount, LEDGER), ok(SPENDER));

    assert_eq!(client.balance(USER1), mint_amount - transfer_amount);
    assert_eq!(client.balance(USER2), transfer_amount);
    assert_eq!(client.allowance(USER1, SPENDER, LEDGER), approve_amount - transfer_amount);
}

#[test]
fn test_burn_from() {
    let mut client = init_token(ADMIN);
    let mint_amount = 1000i128;
    assert_eq!(client.mint(USER1, mint_amount), ok(ADMIN));

    let approve_amount = 500i128;
    let expiration = LEDGER + 100;
    assert_eq!(client.approve(USER1, SPENDER, approve_amount, expiration), ok(USER1));

    let burn_amount = 200i128;
    assert_eq!(client.burn_from(SPENDER, USER1, burn_amount, LEDGER), ok(SPENDER));

    assert_eq!(client.balance(USER1), mint_amount - burn_amount);
    assert_eq!(client.total_supply(), mint_amount - burn_amount);
    assert_eq!(client.allowance(USER1, SPENDER, LEDGER), approve_amount - burn_amount);
}

#[test]
fn test_set_admin() {
    let mut client = init_token(ADMIN);
    assert_eq!(client.set_admin(NEW_ADMIN), ok(ADMIN));
    assert_eq!(client.admin(), NEW_ADMIN);
}

// ── Further scenarios ────────────────────────────────────────────────────

fn refused(auth: Option<u64>, e: TokenError) -> Outcome<TokenError> {
    Outcome { auth, result: Err(e) }
}

#[test]
fn uninitialized_token_refuses_admin_calls_without_asking_for_a_signature() {
    let mut t = TokenContract::new();
    assert!(!t.is_initialized());
    assert_eq!(t.mint(USER1, 10), refused(None, TokenError::NotInitialized));
    assert_eq!(t.burn_admin(USER1, 10), refused(None, TokenError::NotInitialized));
    assert_eq!(t.set_admin(USER2), refused(None, TokenError::NotInitialized));
    assert_eq!(t.total_supply(), 0);
    assert_eq!(t.balance(USER1), 0);
}

#[test]
fn mint_refuses_negative_amounts_and_overflow() {
    let mut t = init_token(ADMIN);
    assert_eq!(t.mint(USER1, -1), refused(Some(ADMIN), TokenError::InsufficientBalance));
    assert_eq!(t.mint(USER1, i128::MAX), ok(ADMIN));
    assert_eq!(t.mint(USER1, 1), refused(Some(ADMIN), TokenError::InsufficientBalance));
    assert_eq!(t.balance(USER1), i128::MAX);
    assert_eq!(t.total_supply(), i128::MAX);
}

#[test]
fn burn_admin_refuses_more_than_the_balance() {
    let mut t = init_token(ADMIN);
    assert_eq!(t.mint(USER1, 50), ok(ADMIN));
    assert_eq!(t.burn_admin(USER1, 51), refused(Some(ADMIN), TokenError::InsufficientBalance));
    assert_eq!(t.burn_admin(USER1, -1), refused(Some(ADMIN), TokenError::InsufficientBalance));
    assert_eq!(t.burn_admin(USER1, 50), ok(ADMIN));
    assert_eq!(t.balance(USER1), 0);
    assert_eq!(t.total_supply(), 0);
}

#[test]
fn transfer_refusals_change_nothing() {
    let mut t = init_token(ADMIN);
    assert_eq!(t.mint(USER1, 100), ok(ADMIN));
    assert_eq!(t.transfer(USER1, USER2, 101), refused(Some(USER1), TokenError::InsufficientBalance));
    assert_eq!(t.transfer(USER1, USER2, -5), refused(Some(USER1), TokenError::InsufficientBalance));
    assert_eq!(t.balance(USER1), 100);
    assert_eq!(t.balance(USER2), 0);
}

#[test]
fn transfer_to_oneself_keeps_the_balance() {
    let mut t = init_token(ADMIN);
    assert_eq!(t.mint(USER1, 100), ok(ADMIN));
    assert_eq!(t.transfer(USER1, USER1, 40), ok(USER1));
    assert_eq!(t.balance(USER1), 100);
    assert_eq!(t.total_supply(), 100);
}

#[test]
fn transfer_from_needs_a_live_sufficient_allowance() {
    let mut t = init_token(ADMIN);
    assert_eq!(t.mint(USER1, 1000), ok(ADMIN));
    // No allowance at all.
    assert_eq!(
        t.transfer_from(SPENDER, USER1, USER2, 1, 10),
        refused(Some(SPENDER), TokenError::InsufficientAllowance)
    );
    assert_eq!(t.approve(USER1, SPENDER, 100, 20), ok(USER1));
    // Too much.
    assert_eq!(
        t.transfer_from(SPENDER, USER1, USER2, 101, 10),
        refused(Some(SPENDER), TokenError::InsufficientAllowance)
    );
    // Expired.
    assert_eq!(t.allowance(USER1, SPENDER, 21), 0);
    assert_eq!(
        t.transfer_from(SPENDER, USER1, USER2, 10, 21),
        refused(Some(SPENDER), TokenError::InsufficientAllowance)
    );
    // On the last valid ledger.
    assert_eq!(t.transfer_from(SPENDER, USER1, USER2, 100, 20), ok(SPENDER));
    assert_eq!(t.allowance(USER1, SPENDER, 20), 0);
    assert_eq!(t.balance(USER2), 100);
}

#[test]
fn transfer_from_with_allowance_but_no_balance_keeps_the_allowance() {
    let mut t = init_token(ADMIN);
    assert_eq!(t.mint(USER1, 10), ok(ADMIN));
    assert_eq!(t.approve(USER1, SPENDER, 500, 100), ok(USER1));
    assert_eq!(
        t.transfer_from(SPENDER, USER1, USER2, 50, 0),
        refused(Some(SPENDER), TokenError::InsufficientBalance)
    );
    assert_eq!(t.allowance(USER1, SPENDER, 0), 500);
    assert_eq!(
        t.allowances.get(&(USER1, SPENDER)),
        Some(&AllowanceValue { amount: 500, expiration_ledger: 100 })
    );
    assert_eq!(t.balance(USER1), 10);
}

#[test]
fn approve_replaces_the_previous_allowance() {
    let mut t = init_token(ADMIN);
    assert_eq!(t.approve(USER1, SPENDER, 500, 100), ok(USER1));
    assert_eq!(t.approve(USER1, SPENDER, 7, 50), ok(USER1));
    assert_eq!(t.allowance(USER1, SPENDER, 50), 7);
    assert_eq!(t.allowance(USER1, SPENDER, 51), 0);
    assert_eq!(t.allowance(SPENDER, USER1, 0), 0);
}

#[test]
fn burn_by_holder() {
    let mut t = init_token(ADMIN);
    assert_eq!(t.mint(USER1, 100), ok(ADMIN));
    assert_eq!(t.burn(USER1, 101), refused(Some(USER1), TokenError::InsufficientBalance));
    assert_eq!(t.burn(USER1, 60), ok(USER1));
    assert_eq!(t.balance(USER1), 40);
    assert_eq!(t.total_supply(), 40);
}

#[test]
fn burn_from_checks_allowance_before_balance() {
    let mut t = init_token(ADMIN);
    assert_eq!(t.mint(USER1, 10), ok(ADMIN));
    assert_eq!(
        t.burn_from(SPENDER, USER1, 20, 0),
        refused(Some(SPENDER), TokenError::InsufficientAllowance)
    );
    assert_eq!(t.approve(USER1, SPENDER, 30, 100), ok(USER1));
    assert_eq!(
        t.burn_from(SPENDER, USER1, 20, 0),
        refused(Some(SPENDER), TokenError::InsufficientBalance)
    );
    assert_eq!(t.allowance(USER1, SPENDER, 0), 30);
    assert_eq!(t.burn_from(SPENDER, USER1, 10, 0), ok(SPENDER));
    assert_eq!(t.allowance(USER1, SPENDER, 0), 20);
    assert_eq!(t.total_supply(), 0);
}

#[test]
fn supply_equals_sum_of_balances_after_a_run() {
    let mut t = init_token(ADMIN);
    assert_eq!(t.mint(USER1, 1000), ok(ADMIN));
    assert_eq!(t.mint(USER2, 500), ok(ADMIN));
    assert_eq!(t.transfer(USER1, USER2, 250), ok(USER1));
    assert_eq!(t.approve(USER2, SPENDER, 400, 10), ok(USER2));
    assert_eq!(t.transfer_from(SPENDER, USER2, SPENDER, 300, 5), ok(SPENDER));
    assert_eq!(t.burn(SPENDER, 100), ok(SPENDER));
    assert_eq!(t.burn_from(SPENDER, USER2, 100, 5), ok(SPENDER));
    assert_eq!(t.burn_admin(USER1, 50), ok(ADMIN));
    let sum: i128 = t.balances.values().sum();
    assert_eq!(t.total_supply(), sum);
    assert_eq!(sum, 1000 + 500 - 100 - 100 - 50);
    assert!(t.balances.values().all(|b| *b >= 0));
}

#[test]
fn set_admin_moves_the_admin_signature() {
    let mut t = init_token(ADMIN);
    assert_eq!(t.set_admin(NEW_ADMIN), ok(ADMIN));
    assert_eq!(t.mint(USER1, 5), ok(NEW_ADMIN));
    assert_eq!(t.set_admin(ADMIN), ok(NEW_ADMIN));
    assert_eq!(t.admin(), ADMIN);
}

#[test]
fn negative_burns_are_refused() {
    let mut t = TokenContract::new();
    assert_eq!(t.burn(USER1, -5), refused(Some(USER1), TokenError::InsufficientBalance));
    assert_eq!(t.balance(USER1), 0);
    assert_eq!(t.total_supply(), 0);

    let mut t = init_token(ADMIN);
    assert_eq!(t.mint(USER1, 100), ok(ADMIN));
    assert_eq!(t.approve(USER1, SPENDER, 50, 10), ok(USER1));
    assert_eq!(t.burn(USER1, -1), refused(Some(USER1), TokenError::InsufficientBalance));
    assert_eq!(
        t.burn_from(SPENDER, USER1, -7, 0),
        refused(Some(SPENDER), TokenError::InsufficientBalance)
    );
    assert_eq!(t.balance(USER1), 100);
    assert_eq!(t.total_supply(), 100);
    assert_eq!(t.allowance(USER1, SPENDER, 0), 50);
}

#[test]
fn supply_matches_balances_from_empty_storage() {
    // Calls before setup cannot create tokens; setup starts from zero.
    let mut t = TokenContract::new();
    assert_eq!(t.transfer(USER1, USER2, 0), ok(USER1));
    assert_eq!(t.burn(USER1, 0), ok(USER1));
    assert_eq!(t.burn(USER1, 1), refused(Some(USER1), TokenError::InsufficientBalance));
    assert_eq!(
        t.initialize(ADMIN, b"Test Token".to_vec(), b"TEST".to_vec(), 18),
        ok(ADMIN)
    );
    assert_eq!(t.mint(USER2, 40), ok(ADMIN));
    let sum: i128 = t.balances.values().sum();
    assert_eq!(t.total_supply(), sum);
    assert_eq!(sum, 40);
}

#[test]
fn burn_admin_undoes_mint() {
    let mut t = init_token(ADMIN);
    assert_eq!(t.mint(USER1, 70), ok(ADMIN));
    assert_eq!(t.mint(USER1, 30), ok(ADMIN));
    assert_eq!(t.burn_admin(USER1, 30), ok(ADMIN));
    assert_eq!(t.balance(USER1), 70);
    assert_eq!(t.total_supply(), 70);
}
