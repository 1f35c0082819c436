use token_escrow::{
    EscrowContract, EscrowError, EscrowInfo, EscrowOutcome, EscrowState, Flow, Payment,
    MIN_DEADLINE_BUFFER,
};

const BUYER: u64 = 10;
const SELLER: u64 = 11;
const ARBITER: u64 = 12;
const TOKEN: u64 = 13;
const AMOUNT: i128 = 1_000_0000000;
const NOW: u32 = 1_000;
const DEADLINE: u32 = NOW + 10_000;

fn created() -> EscrowContract {
    let mut e = EscrowContract::new();
    let o = e.initialize(BUYER, SELLER, ARBITER, TOKEN, AMOUNT, DEADLINE, NOW);
    assert_eq!(o, EscrowOutcome { auth: None, payment: None, result: Ok(()) });
    e
}

fn funded() -> EscrowContract {
    let mut e = created();
    assert!(e.fund().result.is_ok());
    e
}

fn delivered() -> EscrowContract {
    let mut e = funded();
    assert!(e.mark_delivered().result.is_ok());
    e
}

fn refused(auth: Option<u64>, err: EscrowError) -> EscrowOutcome {
    EscrowOutcome { auth, payment: None, result: Err(err) }
}

fn payout(to: u64, amount: i128) -> Option<Payment> {
    Some(Payment { token: TOKEN, flow: Flow::OutOfEscrow, party: to, amount })
}

#[test]
fn initialize_records_the_terms() {
    let e = created();
    assert_eq!(e.get_state(), Some(EscrowState::Created));
    assert_eq!(
        e.get_escrow_info(),
        EscrowInfo {
            buyer: BUYER,
            seller: SELLER,
            arbiter: ARBITER,
            token_contract: TOKEN,
            amount: AMOUNT,
            deadline: DEADLINE,
            state: EscrowState::Created,
        }
    );
    assert!(!e.buyer_approved);
    assert!(!e.seller_delivered);
}

#[test]
fn initialize_refuses_a_second_call_and_bad_amounts() {
    let mut e = created();
    assert_eq!(
        e.initialize(BUYER, SELLER, ARBITER, TOKEN, AMOUNT, DEADLINE, NOW),
        refused(None, EscrowError::AlreadyInitialized)
    );
    let mut fresh = EscrowContract::new();
    assert_eq!(
        fresh.initialize(BUYER, SELLER, ARBITER, TOKEN, 0, DEADLINE, NOW),
        refused(None, EscrowError::InvalidAmount)
    );
    assert_eq!(
        fresh.initialize(BUYER, SELLER, ARBITER, TOKEN, -3, DEADLINE, NOW),
        refused(None, EscrowError::InvalidAmount)
    );
    assert_eq!(fresh.get_state(), None);
}

#[test]
fn initialize_accepts_the_minimal_deadline() {
    let mut e = EscrowContract::new();
    let o = e.initialize(BUYER, SELLER, ARBITER, TOKEN, 1, NOW + MIN_DEADLINE_BUFFER, NOW);
    assert!(o.result.is_ok());
    assert_eq!(e.get_escrow_info().deadline, NOW + 100);
}

#[test]
fn calls_before_initialize_are_refused() {
    let mut e = EscrowContract::new();
    let not_init = refused(None, EscrowError::NotInitialized);
    assert_eq!(e.fund(), not_init);
    assert_eq!(e.mark_delivered(), not_init);
    assert_eq!(e.approve_delivery(), not_init);
    assert_eq!(e.request_refund(NOW), not_init);
    assert_eq!(e.resolve_dispute(true), not_init);
    assert_eq!(e.release_partial(1), not_init);
    assert_eq!(e.cancel(), not_init);
    assert_eq!(e.bump(), Err(EscrowError::NotInitialized));
    assert_eq!(e.get_state(), None);
    assert!(!e.is_deadline_passed(0));
    assert!(!e.is_deadline_passed(u32::MAX));
}

#[test]
fn happy_path_pays_the_seller() {
    let mut e = created();
    let o = e.fund();
    assert_eq!(
        o,
        EscrowOutcome {
            auth: Some(BUYER),
            payment: Some(Payment { token: TOKEN, flow: Flow::IntoEscrow, party: BUYER, amount: AMOUNT }),
            result: Ok(()),
        }
    );
    assert_eq!(e.get_state(), Some(EscrowState::Funded));

    assert_eq!(e.mark_delivered(), EscrowOutcome { auth: Some(SELLER), payment: None, result: Ok(()) });
    assert_eq!(e.get_state(), Some(EscrowState::Delivered));
    assert!(e.seller_delivered);

    assert_eq!(
        e.approve_delivery(),
        EscrowOutcome { auth: Some(BUYER), payment: payout(SELLER, AMOUNT), result: Ok(()) }
    );
    assert_eq!(e.get_state(), Some(EscrowState::Completed));
    assert!(e.buyer_approved);
    assert_eq!(e.bump(), Ok(()));
}

#[test]
fn state_checks() {
    let mut e = created();
    assert_eq!(e.mark_delivered(), refused(None, EscrowError::InvalidState));
    assert_eq!(e.approve_delivery(), refused(None, EscrowError::InvalidState));
    assert_eq!(e.resolve_dispute(true), refused(None, EscrowError::InvalidState));
    assert_eq!(e.release_partial(1), refused(None, EscrowError::InvalidState));
    let mut f = funded();
    assert_eq!(f.fund(), refused(None, EscrowError::InvalidState));
    assert_eq!(f.cancel(), refused(None, EscrowError::InvalidState));
    assert_eq!(f.approve_delivery(), refused(None, EscrowError::InvalidState));
    let mut d = delivered();
    assert_eq!(d.mark_delivered(), refused(None, EscrowError::InvalidState));
}

#[test]
fn refund_waits_for_the_deadline() {
    let mut e = funded();
    assert!(!e.is_deadline_passed(DEADLINE));
    assert_eq!(e.request_refund(DEADLINE), refused(Some(BUYER), EscrowError::DeadlineNotReached));
    assert_eq!(e.get_state(), Some(EscrowState::Funded));
    assert!(e.is_deadline_passed(DEADLINE + 1));
    assert_eq!(
        e.request_refund(DEADLINE + 1),
        EscrowOutcome { auth: Some(BUYER), payment: payout(BUYER, AMOUNT), result: Ok(()) }
    );
    assert_eq!(e.get_state(), Some(EscrowState::Refunded));
}

#[test]
fn refund_from_delivered_and_not_from_created() {
    let mut d = delivered();
    assert_eq!(d.request_refund(DEADLINE + 5).payment, payout(BUYER, AMOUNT));
    assert_eq!(d.get_state(), Some(EscrowState::Refunded));
    let mut c = created();
    assert_eq!(c.request_refund(DEADLINE + 5), refused(Some(BUYER), EscrowError::DeadlineNotReached));
}

#[test]
fn arbiter_resolves_both_ways() {
    let mut e = funded();
    assert_eq!(
        e.resolve_dispute(true),
        EscrowOutcome { auth: Some(ARBITER), payment: payout(SELLER, AMOUNT), result: Ok(()) }
    );
    assert_eq!(e.get_state(), Some(EscrowState::Completed));
    let mut d = delivered();
    assert_eq!(
        d.resolve_dispute(false),
        EscrowOutcome { auth: Some(ARBITER), payment: payout(BUYER, AMOUNT), result: Ok(()) }
    );
    assert_eq!(d.get_state(), Some(EscrowState::Refunded));
}

#[test]
fn partial_release_keeps_the_rest_escrowed() {
    let mut e = funded();
    let part = 250_0000000i128;
    assert_eq!(
        e.release_partial(part),
        EscrowOutcome { auth: Some(BUYER), payment: payout(SELLER, part), result: Ok(()) }
    );
    assert_eq!(e.get_escrow_info().amount, AMOUNT - part);
    assert_eq!(e.get_state(), Some(EscrowState::Funded));
    assert_eq!(
        e.release_partial(AMOUNT),
        refused(Some(BUYER), EscrowError::InsufficientFunds)
    );
    assert_eq!(e.get_escrow_info().amount, AMOUNT - part);
    // The final release pays only what is left.
    assert!(e.mark_delivered().result.is_ok());
    assert_eq!(e.approve_delivery().payment, payout(SELLER, AMOUNT - part));
}

#[test]
fn cancel_only_before_funding() {
    let mut e = created();
    assert_eq!(e.cancel(), EscrowOutcome { auth: Some(BUYER), payment: None, result: Ok(()) });
    assert_eq!(e.get_state(), Some(EscrowState::Cancelled));
    assert_eq!(e.fund(), refused(None, EscrowError::InvalidState));
}

#[test]
fn final_states_refuse_everything() {
    let mut done = delivered();
    assert!(done.approve_delivery().result.is_ok());
    let before = done;
    assert_eq!(done.fund().result, Err(EscrowError::InvalidState));
    assert_eq!(done.mark_delivered().result, Err(EscrowError::InvalidState));
    assert_eq!(done.approve_delivery().result, Err(EscrowError::InvalidState));
    assert_eq!(done.request_refund(u32::MAX).result, Err(EscrowError::DeadlineNotReached));
    assert_eq!(done.resolve_dispute(false).result, Err(EscrowError::InvalidState));
    assert_eq!(done.release_partial(1).result, Err(EscrowError::InvalidState));
    assert_eq!(done.cancel().result, Err(EscrowError::InvalidState));
    assert_eq!(done, before);
}

#[test]
fn escrow_pays_out_exactly_what_it_took_in() {
    let mut e = created();
    let mut paid_in: i128 = 0;
    let mut paid_out: i128 = 0;
    let mut book = |o: &EscrowOutcome| {
        if let (Ok(()), Some(p)) = (o.result, o.payment) {
            match p.flow {
                Flow::IntoEscrow => paid_in += p.amount,
                Flow::OutOfEscrow => paid_out += p.amount,
            }
        }
    };
    book(&e.fund());
    book(&e.release_partial(100));
    book(&e.release_partial(AMOUNT));
    book(&e.release_partial(300));
    book(&e.resolve_dispute(false));
    book(&e.approve_delivery());
    book(&e.request_refund(u32::MAX));
    assert_eq!(paid_in, AMOUNT);
    assert_eq!(paid_out, AMOUNT);
    assert_eq!(e.get_state(), Some(EscrowState::Refunded));
}
