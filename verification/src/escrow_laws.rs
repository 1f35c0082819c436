//! Properties that hold of every run of the escrow contract.
use vstd::prelude::*;

use crate::account::AccountId;
use crate::escrow_model::{
    approve_delivery_step, cancel_step, deadline_passed, empty_escrow, fund_step, initialize_rejects_deadline, initialize_step,
    is_active, is_final, mark_delivered_step, release_partial_overflows, release_partial_step, request_refund_step,
    resolve_dispute_step, EscrowContract, EscrowError, EscrowInfo, EscrowOutcome, EscrowState, Flow,
    Payment,
};

verus! {

/// The funds that the escrow holds for the parties: the escrowed amount
/// while funded or delivered, nothing otherwise.
pub open spec fn held(s: EscrowContract) -> int {
    match s.info {
        Some(i) => if is_active(i.state) { i.amount as int } else { 0 },
        None => 0,
    }
}

/// How a payment changes what the escrow holds.
pub open spec fn net_flow(p: Option<Payment>) -> int {
    match p {
        Some(p) => match p.flow {
            Flow::IntoEscrow => p.amount as int,
            Flow::OutOfEscrow => -p.amount,
        },
        None => 0,
    }
}

/// The steps of the lifecycle: `Created → Funded → Delivered → Completed`,
/// `Created → Cancelled`, a funded or delivered escrow may complete or be
/// refunded, and one may stay funded or delivered.
pub open spec fn lifecycle_step(a: EscrowState, b: EscrowState) -> bool {
    ||| a == EscrowState::Created && (b == EscrowState::Funded || b == EscrowState::Cancelled)
    ||| a == EscrowState::Funded && b == EscrowState::Delivered
    ||| is_active(a) && (b == EscrowState::Completed || b == EscrowState::Refunded || b == a)
}

/// The terms that no call changes once set: the parties, the token and the
/// deadline.
pub open spec fn same_terms(a: EscrowInfo, b: EscrowInfo) -> bool {
    &&& a.buyer == b.buyer
    &&& a.seller == b.seller
    &&& a.arbiter == b.arbiter
    &&& a.token_contract == b.token_contract
    &&& a.deadline == b.deadline
}

/// What each successful call does to an initialized escrow: it moves along
/// the lifecycle, keeps the terms, and changes the funds held by exactly the
/// payment it asks for, which only pays out to the buyer or the seller.
pub open spec fn sound_step(s: EscrowContract, r: (EscrowOutcome, EscrowContract)) -> bool {
    let (o, post) = r;
    o.result is Ok ==> {
        &&& post.info is Some
        &&& lifecycle_step(s.info.unwrap().state, post.info.unwrap().state)
        &&& same_terms(s.info.unwrap(), post.info.unwrap())
        &&& held(post) == held(s) + net_flow(o.payment)
        &&& (o.payment matches Some(p) ==> {
            &&& p.token == s.info.unwrap().token_contract
            &&& (p.flow == Flow::IntoEscrow ==> p.party == s.info.unwrap().buyer)
            &&& (p.flow == Flow::OutOfEscrow ==> p.party == s.info.unwrap().buyer
                || p.party == s.info.unwrap().seller)
        })
    }
}

/// Every call on an initialized escrow is a sound step.
pub proof fn law_calls_follow_lifecycle(s: EscrowContract, ledger: u32, release_to_seller: bool, amount: i128)
    requires
        s.info is Some,
    ensures
        sound_step(s, fund_step(s)),
        sound_step(s, mark_delivered_step(s)),
        sound_step(s, approve_delivery_step(s)),
        sound_step(s, request_refund_step(s, ledger)),
        sound_step(s, resolve_dispute_step(s, release_to_seller)),
        !release_partial_overflows(s, amount) ==> sound_step(s, release_partial_step(s, amount)),
        sound_step(s, cancel_step(s)),
{
}

/// Once completed, refunded or cancelled, an escrow refuses every call and
/// moves no funds.
pub proof fn law_final_states_are_final(
    s: EscrowContract,
    ledger: u32,
    release_to_seller: bool,
    amount: i128,
    buyer: AccountId,
    seller: AccountId,
    arbiter: AccountId,
    token: AccountId,
    deadline: u32,
)
    requires
        s.info is Some,
        is_final(s.info.unwrap().state),
    ensures
        fund_step(s).0.result is Err && fund_step(s).0.payment is None && fund_step(s).1 == s,
        mark_delivered_step(s).0.result is Err && mark_delivered_step(s).1 == s,
        approve_delivery_step(s).0.result is Err && approve_delivery_step(s).0.payment is None
            && approve_delivery_step(s).1 == s,
        request_refund_step(s, ledger).0.result is Err && request_refund_step(s, ledger).0.payment is None
            && request_refund_step(s, ledger).1 == s,
        resolve_dispute_step(s, release_to_seller).0.result is Err
            && resolve_dispute_step(s, release_to_seller).0.payment is None
            && resolve_dispute_step(s, release_to_seller).1 == s,
        release_partial_step(s, amount).0.result is Err && release_partial_step(s, amount).0.payment is None
            && release_partial_step(s, amount).1 == s,
        cancel_step(s).0.result is Err && cancel_step(s).1 == s,
        initialize_step(s, buyer, seller, arbiter, token, amount, deadline).0.result is Err
            && initialize_step(s, buyer, seller, arbiter, token, amount, deadline).1 == s,
{
}

/// A refused call changes nothing and moves no funds.
pub proof fn law_refusal_changes_nothing(
    s: EscrowContract,
    ledger: u32,
    release_to_seller: bool,
    amount: i128,
    buyer: AccountId,
    seller: AccountId,
    arbiter: AccountId,
    token: AccountId,
    deadline: u32,
)
    ensures
        initialize_step(s, buyer, seller, arbiter, token, amount, deadline).0.result is Err ==> {
            &&& initialize_step(s, buyer, seller, arbiter, token, amount, deadline).1 == s
            &&& initialize_step(s, buyer, seller, arbiter, token, amount, deadline).0.payment is None
        },
        fund_step(s).0.result is Err ==> fund_step(s).1 == s && fund_step(s).0.payment is None,
        mark_delivered_step(s).0.result is Err ==> mark_delivered_step(s).1 == s
            && mark_delivered_step(s).0.payment is None,
        approve_delivery_step(s).0.result is Err ==> approve_delivery_step(s).1 == s
            && approve_delivery_step(s).0.payment is None,
        request_refund_step(s, ledger).0.result is Err ==> request_refund_step(s, ledger).1 == s
            && request_refund_step(s, ledger).0.payment is None,
        resolve_dispute_step(s, release_to_seller).0.result is Err ==> resolve_dispute_step(s, release_to_seller).1
            == s && resolve_dispute_step(s, release_to_seller).0.payment is None,
        release_partial_step(s, amount).0.result is Err ==> release_partial_step(s, amount).1 == s
            && release_partial_step(s, amount).0.payment is None,
        cancel_step(s).0.result is Err ==> cancel_step(s).1 == s && cancel_step(s).0.payment is None,
{
}

/// Who must sign each successful call: the buyer funds, approves, asks for a
/// refund, releases part of the funds and cancels; the seller marks the
/// delivery; the arbiter resolves disputes; setting up needs no signature.
pub proof fn law_who_must_sign(s: EscrowContract, ledger: u32, release_to_seller: bool, amount: i128)
    requires
        s.info is Some,
    ensures
        fund_step(s).0.result is Ok ==> fund_step(s).0.auth == Some(s.info.unwrap().buyer),
        mark_delivered_step(s).0.result is Ok ==> mark_delivered_step(s).0.auth == Some(s.info.unwrap().seller),
        approve_delivery_step(s).0.result is Ok ==> approve_delivery_step(s).0.auth == Some(s.info.unwrap().buyer),
        request_refund_step(s, ledger).0.result is Ok ==> request_refund_step(s, ledger).0.auth
            == Some(s.info.unwrap().buyer),
        resolve_dispute_step(s, release_to_seller).0.result is Ok ==> resolve_dispute_step(s, release_to_seller).0.auth
            == Some(s.info.unwrap().arbiter),
        release_partial_step(s, amount).0.result is Ok ==> release_partial_step(s, amount).0.auth
            == Some(s.info.unwrap().buyer),
        cancel_step(s).0.result is Ok ==> cancel_step(s).0.auth == Some(s.info.unwrap().buyer),
{
}

/// The buyer gets a refund on its own only after the deadline, and only
/// from a funded or delivered escrow.
pub proof fn law_refund_only_after_deadline(s: EscrowContract, ledger: u32)
    requires
        request_refund_step(s, ledger).0.result is Ok,
    ensures
        s.info is Some,
        ledger > s.info.unwrap().deadline,
        is_active(s.info.unwrap().state),
{
}

/// A successful setup escrows a positive amount in state `Created`.
pub proof fn law_setup_escrows_positive_amount(
    s: EscrowContract,
    buyer: AccountId,
    seller: AccountId,
    arbiter: AccountId,
    token: AccountId,
    amount: i128,
    deadline: u32,
)
    requires
        initialize_step(s, buyer, seller, arbiter, token, amount, deadline).0.result is Ok,
    ensures
        ({
            let post = initialize_step(s, buyer, seller, arbiter, token, amount, deadline).1;
            &&& post.info is Some
            &&& post.info.unwrap().amount == amount > 0
            &&& post.info.unwrap().state == EscrowState::Created
            &&& held(post) == 0
        }),
{
}

/// A successful setup cannot be repeated: a later `initialize` is refused
/// and changes nothing.
pub proof fn law_initialize_once(
    s: EscrowContract,
    buyer: AccountId,
    seller: AccountId,
    arbiter: AccountId,
    token: AccountId,
    amount: i128,
    deadline: u32,
    buyer2: AccountId,
    seller2: AccountId,
    arbiter2: AccountId,
    token2: AccountId,
    amount2: i128,
    deadline2: u32,
)
    requires
        initialize_step(s, buyer, seller, arbiter, token, amount, deadline).0.result is Ok,
    ensures
        ({
            let first = initialize_step(s, buyer, seller, arbiter, token, amount, deadline).1;
            &&& initialize_step(first, buyer2, seller2, arbiter2, token2, amount2, deadline2).0.result
                == Err::<(), EscrowError>(EscrowError::AlreadyInitialized)
            &&& initialize_step(first, buyer2, seller2, arbiter2, token2, amount2, deadline2).1 == first
        }),
{
}

/// Every call on `s` is refused, changes nothing and moves no funds.
pub open spec fn refuses_all(s: EscrowContract, ledger: u32, release_to_seller: bool, amount: i128) -> bool {
    &&& fund_step(s) == (EscrowOutcome { auth: None, payment: None, result: Err(EscrowError::InvalidState) }, s)
    &&& mark_delivered_step(s).0.result is Err && mark_delivered_step(s).0.payment is None
        && mark_delivered_step(s).1 == s
    &&& approve_delivery_step(s).0.result is Err && approve_delivery_step(s).0.payment is None
        && approve_delivery_step(s).1 == s
    &&& request_refund_step(s, ledger).0.result is Err && request_refund_step(s, ledger).0.payment is None
        && request_refund_step(s, ledger).1 == s
    &&& resolve_dispute_step(s, release_to_seller).0.result is Err
        && resolve_dispute_step(s, release_to_seller).0.payment is None
        && resolve_dispute_step(s, release_to_seller).1 == s
    &&& release_partial_step(s, amount).0.result is Err && release_partial_step(s, amount).0.payment is None
        && release_partial_step(s, amount).1 == s
    &&& cancel_step(s).0.result is Err && cancel_step(s).0.payment is None && cancel_step(s).1 == s
}

/// Paying the funds out (approval, refund, or a dispute settled either way)
/// closes the escrow: the state written before the payment is asked for is
/// final, so any later call, also one made while the payment is under way,
/// is refused and pays nothing more.
pub proof fn law_payout_closes_escrow(
    s: EscrowContract,
    ledger: u32,
    release_to_seller: bool,
    ledger2: u32,
    release2: bool,
    amount2: i128,
)
    ensures
        approve_delivery_step(s).0.result is Ok ==> {
            &&& is_final(approve_delivery_step(s).1.info.unwrap().state)
            &&& refuses_all(approve_delivery_step(s).1, ledger2, release2, amount2)
        },
        request_refund_step(s, ledger).0.result is Ok ==> {
            &&& is_final(request_refund_step(s, ledger).1.info.unwrap().state)
            &&& refuses_all(request_refund_step(s, ledger).1, ledger2, release2, amount2)
        },
        resolve_dispute_step(s, release_to_seller).0.result is Ok ==> {
            &&& is_final(resolve_dispute_step(s, release_to_seller).1.info.unwrap().state)
            &&& refuses_all(resolve_dispute_step(s, release_to_seller).1, ledger2, release2, amount2)
        },
{
}

/// A call to the escrow contract, as a caller makes it; calls that read the
/// ledger carry its sequence number.
pub enum EscrowCall {
    Initialize {
        buyer: AccountId,
        seller: AccountId,
        arbiter: AccountId,
        token_contract: AccountId,
        amount: i128,
        deadline: u32,
        ledger: u32,
    },
    Fund,
    MarkDelivered,
    ApproveDelivery,
    RequestRefund { ledger: u32 },
    ResolveDispute { release_to_seller: bool },
    ReleasePartial { amount: i128 },
    Cancel,
}

/// Whether the call gives up (a too-close deadline, an overflow), which
/// aborts it.
pub open spec fn call_aborts(s: EscrowContract, c: EscrowCall) -> bool {
    match c {
        EscrowCall::Initialize { amount, deadline, ledger, .. } => initialize_rejects_deadline(s, amount, deadline, ledger),
        EscrowCall::ReleasePartial { amount } => release_partial_overflows(s, amount),
        _ => false,
    }
}

/// What the call does, when it does not give up.
pub open spec fn call_step(s: EscrowContract, c: EscrowCall) -> (EscrowOutcome, EscrowContract) {
    match c {
        EscrowCall::Initialize { buyer, seller, arbiter, token_contract, amount, deadline, .. } =>
            initialize_step(s, buyer, seller, arbiter, token_contract, amount, deadline),
        EscrowCall::Fund => fund_step(s),
        EscrowCall::MarkDelivered => mark_delivered_step(s),
        EscrowCall::ApproveDelivery => approve_delivery_step(s),
        EscrowCall::RequestRefund { ledger } => request_refund_step(s, ledger),
        EscrowCall::ResolveDispute { release_to_seller } => resolve_dispute_step(s, release_to_seller),
        EscrowCall::ReleasePartial { amount } => release_partial_step(s, amount),
        EscrowCall::Cancel => cancel_step(s),
    }
}

/// The payment that a call completes with, if any.
pub open spec fn completed_payment(s: EscrowContract, c: EscrowCall) -> Option<Payment> {
    if !call_aborts(s, c) && call_step(s, c).0.result is Ok {
        call_step(s, c).0.payment
    } else {
        None
    }
}

pub open spec fn paid_in(p: Option<Payment>) -> int {
    match p {
        Some(p) => if p.flow == Flow::IntoEscrow { p.amount as int } else { 0 },
        None => 0,
    }
}

pub open spec fn paid_out(p: Option<Payment>) -> int {
    match p {
        Some(p) => if p.flow == Flow::OutOfEscrow { p.amount as int } else { 0 },
        None => 0,
    }
}

/// The state after a history of calls, with the totals paid into and out of
/// the escrow by the calls that completed.
pub open spec fn run_calls(s: EscrowContract, calls: Seq<EscrowCall>) -> (EscrowContract, int, int)
    decreases calls.len(),
{
    if calls.len() == 0 {
        (s, 0, 0)
    } else {
        let (pre, total_in, total_out) = run_calls(s, calls.drop_last());
        let c = calls.last();
        let post = if call_aborts(pre, c) { pre } else { call_step(pre, c).1 };
        let p = completed_payment(pre, c);
        (post, total_in + paid_in(p), total_out + paid_out(p))
    }
}

/// What the totals of every history satisfy: the escrow holds exactly what
/// was paid in and not yet paid out, and nothing moves before funding.
pub open spec fn books_balance(s: EscrowContract, total_in: int, total_out: int) -> bool {
    &&& total_in - total_out == held(s)
    &&& (match s.info {
        None => true,
        Some(i) => i.state == EscrowState::Created || i.state == EscrowState::Cancelled,
    }) ==> total_in == 0 && total_out == 0
}

proof fn lemma_books_step(s: EscrowContract, total_in: int, total_out: int, c: EscrowCall)
    requires
        books_balance(s, total_in, total_out),
    ensures
        ({
            let post = if call_aborts(s, c) { s } else { call_step(s, c).1 };
            let p = completed_payment(s, c);
            books_balance(post, total_in + paid_in(p), total_out + paid_out(p))
        }),
{
    if s.info is Some {
        match c {
            EscrowCall::RequestRefund { ledger } => law_calls_follow_lifecycle(s, ledger, true, 0),
            EscrowCall::ResolveDispute { release_to_seller } => law_calls_follow_lifecycle(s, 0, release_to_seller, 0),
            EscrowCall::ReleasePartial { amount } => law_calls_follow_lifecycle(s, 0, true, amount),
            _ => law_calls_follow_lifecycle(s, 0, true, 0),
        }
    }
}

/// Over any history from empty storage, the escrow holds exactly what was
/// paid in minus what was paid out; once completed or refunded it has paid
/// out exactly what it took in, and a cancelled escrow never moved funds.
pub proof fn law_payouts_over_any_history(calls: Seq<EscrowCall>)
    ensures
        ({
            let (s, total_in, total_out) = run_calls(empty_escrow(), calls);
            &&& books_balance(s, total_in, total_out)
            &&& (s.info matches Some(i) ==> (is_final(i.state) ==> total_out == total_in))
            &&& (s.info matches Some(i) ==> (is_active(i.state) ==> total_out + i.amount == total_in))
        }),
    decreases calls.len(),
{
    if calls.len() > 0 {
        law_payouts_over_any_history(calls.drop_last());
        let (pre, total_in, total_out) = run_calls(empty_escrow(), calls.drop_last());
        lemma_books_step(pre, total_in, total_out, calls.last());
    }
}

/// The whole escrowed amount, paid out of the escrow to `to`.
pub open spec fn full_payout(i: EscrowInfo, to: AccountId) -> Payment {
    Payment { token: i.token_contract, flow: Flow::OutOfEscrow, party: to, amount: i.amount }
}

/// The escrow's info with another state, all terms and the amount kept.
pub open spec fn moved_to(i: EscrowInfo, st: EscrowState) -> Option<EscrowInfo> {
    Some(EscrowInfo { state: st, ..i })
}

/// `resolve_dispute` succeeds exactly on a funded or delivered escrow. With
/// `release_to_seller` it pays the whole amount to the seller and completes;
/// otherwise it pays it back to the buyer and refunds. The arbiter signs.
pub proof fn law_resolve_dispute_outcome(s: EscrowContract, release_to_seller: bool)
    requires
        s.info is Some,
    ensures
        ({
            let i = s.info.unwrap();
            let (o, post) = resolve_dispute_step(s, release_to_seller);
            &&& (o.result is Ok <==> i.state == EscrowState::Funded || i.state == EscrowState::Delivered)
            &&& (o.result is Ok ==> o.auth == Some(i.arbiter))
            &&& (o.result is Ok && release_to_seller ==> {
                &&& o.payment == Some(full_payout(i, i.seller))
                &&& post.info == moved_to(i, EscrowState::Completed)
            })
            &&& (o.result is Ok && !release_to_seller ==> {
                &&& o.payment == Some(full_payout(i, i.buyer))
                &&& post.info == moved_to(i, EscrowState::Refunded)
            })
            &&& (o.result is Err ==> o == (EscrowOutcome { auth: None, payment: None, result: Err(EscrowError::InvalidState) })
                && post == s)
        }),
{
}

/// `release_partial` succeeds exactly on a funded or delivered escrow when
/// the amount is at most the escrowed amount; the buyer signs, the seller is
/// paid exactly the amount, the escrowed amount drops by it and the state and
/// terms are kept.
pub proof fn law_release_partial_outcome(s: EscrowContract, amount: i128)
    requires
        s.info is Some,
        !release_partial_overflows(s, amount),
    ensures
        ({
            let i = s.info.unwrap();
            let (o, post) = release_partial_step(s, amount);
            &&& (o.result is Ok <==> (i.state == EscrowState::Funded || i.state == EscrowState::Delivered)
                && amount <= i.amount)
            &&& (o.result is Ok ==> {
                &&& o.auth == Some(i.buyer)
                &&& o.payment == Some(Payment { token: i.token_contract, flow: Flow::OutOfEscrow, party: i.seller, amount })
                &&& post.info is Some
                &&& post.info.unwrap().amount == i.amount - amount
                &&& post.info.unwrap().state == i.state
                &&& same_terms(i, post.info.unwrap())
                &&& post.buyer_approved == s.buyer_approved && post.seller_delivered == s.seller_delivered
            })
            &&& (o.result is Err ==> post == s && o.payment is None)
            &&& (i.state != EscrowState::Funded && i.state != EscrowState::Delivered
                ==> o == (EscrowOutcome { auth: None, payment: None, result: Err(EscrowError::InvalidState) }))
            &&& ((i.state == EscrowState::Funded || i.state == EscrowState::Delivered) && amount > i.amount
                ==> o == (EscrowOutcome { auth: Some(i.buyer), payment: None, result: Err(EscrowError::InsufficientFunds) }))
        }),
{
}

/// What each lifecycle call does to an initialized escrow:
/// - `fund` succeeds exactly from `Created`; the buyer pays the escrowed
///   amount in and the escrow is funded;
/// - `mark_delivered` succeeds exactly from `Funded`; the seller signs, no
///   funds move and the escrow is delivered;
/// - `approve_delivery` succeeds exactly from `Delivered`; the buyer signs,
///   the seller gets the whole amount and the escrow completes;
/// - `request_refund` succeeds exactly from `Funded` or `Delivered` after the
///   deadline; the buyer signs, gets the whole amount back and the escrow is
///   refunded;
/// - `cancel` succeeds exactly from `Created`; the buyer signs, no funds move
///   and the escrow is cancelled.
pub proof fn law_lifecycle_outcomes(s: EscrowContract, ledger: u32)
    requires
        s.info is Some,
    ensures
        ({
            let i = s.info.unwrap();
            let (o, post) = fund_step(s);
            &&& (o.result is Ok <==> i.state == EscrowState::Created)
            &&& (o.result is Err ==> o == (EscrowOutcome { auth: None, payment: None, result: Err(EscrowError::InvalidState) }))
            &&& (o.result is Ok ==> {
                &&& o.auth == Some(i.buyer)
                &&& o.payment == Some(Payment { token: i.token_contract, flow: Flow::IntoEscrow, party: i.buyer, amount: i.amount })
                &&& post.info == moved_to(i, EscrowState::Funded)
            })
        }),
        ({
            let i = s.info.unwrap();
            let (o, post) = mark_delivered_step(s);
            &&& (o.result is Ok <==> i.state == EscrowState::Funded)
            &&& (o.result is Err ==> o == (EscrowOutcome { auth: None, payment: None, result: Err(EscrowError::InvalidState) }))
            &&& (o.result is Ok ==> {
                &&& o.auth == Some(i.seller)
                &&& o.payment is None
                &&& post.info == moved_to(i, EscrowState::Delivered)
                &&& post.seller_delivered
            })
        }),
        ({
            let i = s.info.unwrap();
            let (o, post) = approve_delivery_step(s);
            &&& (o.result is Ok <==> i.state == EscrowState::Delivered)
            &&& (o.result is Err ==> o == (EscrowOutcome { auth: None, payment: None, result: Err(EscrowError::InvalidState) }))
            &&& (o.result is Ok ==> {
                &&& o.auth == Some(i.buyer)
                &&& o.payment == Some(full_payout(i, i.seller))
                &&& post.info == moved_to(i, EscrowState::Completed)
                &&& post.buyer_approved
            })
        }),
        ({
            let i = s.info.unwrap();
            let (o, post) = request_refund_step(s, ledger);
            &&& o.auth == Some(i.buyer)
            &&& (deadline_passed(s, ledger) <==> ledger > i.deadline)
            &&& (o.result is Err ==> o.result == Err::<(), EscrowError>(EscrowError::DeadlineNotReached) && o.payment is None)
            &&& (o.result is Ok <==> (i.state == EscrowState::Funded || i.state == EscrowState::Delivered)
                && ledger > i.deadline)
            &&& (o.result is Ok ==> {
                &&& o.payment == Some(full_payout(i, i.buyer))
                &&& post.info == moved_to(i, EscrowState::Refunded)
            })
        }),
        ({
            let i = s.info.unwrap();
            let (o, post) = cancel_step(s);
            &&& (o.result is Ok <==> i.state == EscrowState::Created)
            &&& (o.result is Err ==> o == (EscrowOutcome { auth: None, payment: None, result: Err(EscrowError::InvalidState) }))
            &&& (o.result is Ok ==> {
                &&& o.auth == Some(i.buyer)
                &&& o.payment is None
                &&& post.info == moved_to(i, EscrowState::Cancelled)
            })
        }),
{
}

/// `initialize` succeeds exactly on an uninitialized escrow with a positive
/// amount, and records exactly the given terms in state `Created`.
pub proof fn law_initialize_outcome(
    s: EscrowContract,
    buyer: AccountId,
    seller: AccountId,
    arbiter: AccountId,
    token: AccountId,
    amount: i128,
    deadline: u32,
)
    ensures
        ({
            let (o, post) = initialize_step(s, buyer, seller, arbiter, token, amount, deadline);
            &&& (o.result is Ok <==> s.info is None && amount > 0)
            &&& o.auth is None && o.payment is None
            &&& (o.result is Ok ==> post.info == Some(EscrowInfo {
                buyer,
                seller,
                arbiter,
                token_contract: token,
                amount,
                deadline,
                state: EscrowState::Created,
            }))
        }),
{
}

/// Before `initialize`, every call is refused as not initialized, asks for
/// no signature and moves no funds, and the deadline never counts as passed.
pub proof fn law_uninitialized_refuses(s: EscrowContract, ledger: u32, release_to_seller: bool, amount: i128)
    requires
        s.info is None,
    ensures
        ({
            let r = EscrowOutcome { auth: None, payment: None, result: Err(EscrowError::NotInitialized) };
            &&& fund_step(s) == (r, s)
            &&& mark_delivered_step(s) == (r, s)
            &&& approve_delivery_step(s) == (r, s)
            &&& request_refund_step(s, ledger) == (r, s)
            &&& resolve_dispute_step(s, release_to_seller) == (r, s)
            &&& release_partial_step(s, amount) == (r, s)
            &&& cancel_step(s) == (r, s)
            &&& !deadline_passed(s, ledger)
        }),
{
}

} // verus!
