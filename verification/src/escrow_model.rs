//! The mathematical model of the escrow contract: its lifecycle
//! `Created → Funded → Delivered → Completed`, with side exits to
//! `Refunded` and `Cancelled`, as pure spec functions.
use vstd::prelude::*;

use crate::account::AccountId;

verus! {

/// Ledgers that must at least separate the current ledger from a deadline
/// when the escrow is set up.
pub const MIN_DEADLINE_BUFFER: u32 = 100;

/// Errors that the escrow contract reports.
#[derive(Clone, Copy, Debug, PartialEq, Eq)]
pub enum EscrowError {
    /// `initialize` was called a second time.
    AlreadyInitialized,
    /// `initialize` has not been called yet.
    NotInitialized,
    /// The escrowed amount is zero or negative.
    InvalidAmount,
    /// The escrow is not in a state that allows the call.
    InvalidState,
    /// A refund was asked before the deadline, or in an ineligible state.
    DeadlineNotReached,
    /// A partial release asked for more than is escrowed.
    InsufficientFunds,
}

/// Where an escrow stands in its lifecycle.
#[derive(Clone, Copy, Debug, PartialEq, Eq, Structural)]
pub enum EscrowState {
    Created,
    Funded,
    Delivered,
    Completed,
    Refunded,
    Cancelled,
}

/// The terms and the current state of an escrow.
#[derive(Clone, Copy, Debug, PartialEq, Eq)]
pub struct EscrowInfo {
    pub buyer: AccountId,
    pub seller: AccountId,
    pub arbiter: AccountId,
    pub token_contract: AccountId,
    pub amount: i128,
    pub deadline: u32,
    pub state: EscrowState,
}

/// Direction of a token movement, seen from the escrow.
#[derive(Clone, Copy, Debug, PartialEq, Eq)]
pub enum Flow {
    /// From `party` into the escrow's own account.
    IntoEscrow,
    /// From the escrow's own account to `party`.
    OutOfEscrow,
}

/// A token transfer that a call asks the token contract to carry out.
#[derive(Clone, Copy, Debug, PartialEq, Eq)]
pub struct Payment {
    pub token: AccountId,
    pub flow: Flow,
    pub party: AccountId,
    pub amount: i128,
}

/// What an entry point of the escrow answers: whose signature the call
/// demands (if it got that far), the transfer it asks for, and whether it
/// succeeded.
///
/// The host must obtain `auth`'s authorization and carry out `payment`;
/// when either fails the whole call is aborted and its state change is
/// discarded.
#[derive(Debug, PartialEq, Eq)]
pub struct EscrowOutcome {
    pub auth: Option<AccountId>,
    pub payment: Option<Payment>,
    pub result: Result<(), EscrowError>,
}

/// Storage of an escrow contract: the terms once initialized, and the two
/// acknowledgement flags.
#[derive(Clone, Copy, Debug, PartialEq, Eq)]
pub struct EscrowContract {
    pub info: Option<EscrowInfo>,
    pub buyer_approved: bool,
    pub seller_delivered: bool,
}

/// The empty storage of an escrow.
pub open spec fn empty_escrow() -> EscrowContract {
    EscrowContract { info: None, buyer_approved: false, seller_delivered: false }
}

/// States from which funds may still leave the escrow.
pub open spec fn is_active(st: EscrowState) -> bool {
    st == EscrowState::Funded || st == EscrowState::Delivered
}

/// States from which no call moves the escrow any more.
pub open spec fn is_final(st: EscrowState) -> bool {
    st == EscrowState::Completed || st == EscrowState::Refunded || st == EscrowState::Cancelled
}

pub open spec fn refused(s: EscrowContract, auth: Option<AccountId>, e: EscrowError) -> (EscrowOutcome, EscrowContract) {
    (EscrowOutcome { auth, payment: None, result: Err(e) }, s)
}

pub open spec fn done(auth: Option<AccountId>, payment: Option<Payment>, post: EscrowContract) -> (EscrowOutcome, EscrowContract) {
    (EscrowOutcome { auth, payment, result: Ok(()) }, post)
}

pub open spec fn with_state(s: EscrowContract, i: EscrowInfo, st: EscrowState) -> EscrowContract {
    EscrowContract { info: Some(EscrowInfo { state: st, ..i }), ..s }
}

pub open spec fn payout(i: EscrowInfo, to: AccountId, amount: i128) -> Payment {
    Payment { token: i.token_contract, flow: Flow::OutOfEscrow, party: to, amount }
}

/// `initialize`: records the terms in state `Created`; needs no signature.
pub open spec fn initialize_step(
    s: EscrowContract,
    buyer: AccountId,
    seller: AccountId,
    arbiter: AccountId,
    token_contract: AccountId,
    amount: i128,
    deadline: u32,
) -> (EscrowOutcome, EscrowContract) {
    if s.info is Some {
        refused(s, None, EscrowError::AlreadyInitialized)
    } else if amount <= 0 {
        refused(s, None, EscrowError::InvalidAmount)
    } else {
        done(None, None, EscrowContract {
            info: Some(EscrowInfo {
                buyer,
                seller,
                arbiter,
                token_contract,
                amount,
                deadline,
                state: EscrowState::Created,
            }),
            buyer_approved: false,
            seller_delivered: false,
        })
    }
}

/// The inputs on which `initialize` gives up: a deadline closer than
/// `MIN_DEADLINE_BUFFER` ledgers (or a current ledger so late that the
/// buffer cannot be added).
pub open spec fn initialize_rejects_deadline(s: EscrowContract, amount: i128, deadline: u32, ledger: u32) -> bool {
    &&& s.info is None
    &&& amount > 0
    &&& deadline < ledger + MIN_DEADLINE_BUFFER
}

/// `fund`: the buyer pays the escrowed amount in; `Created → Funded`.
pub open spec fn fund_step(s: EscrowContract) -> (EscrowOutcome, EscrowContract) {
    match s.info {
        None => refused(s, None, EscrowError::NotInitialized),
        Some(i) => if i.state != EscrowState::Created {
            refused(s, None, EscrowError::InvalidState)
        } else {
            done(
                Some(i.buyer),
                Some(Payment { token: i.token_contract, flow: Flow::IntoEscrow, party: i.buyer, amount: i.amount }),
                with_state(s, i, EscrowState::Funded),
            )
        },
    }
}

/// `mark_delivered`: the seller acknowledges delivery; `Funded → Delivered`.
pub open spec fn mark_delivered_step(s: EscrowContract) -> (EscrowOutcome, EscrowContract) {
    match s.info {
        None => refused(s, None, EscrowError::NotInitialized),
        Some(i) => if i.state != EscrowState::Funded {
            refused(s, None, EscrowError::InvalidState)
        } else {
            done(Some(i.seller), None, EscrowContract { seller_delivered: true, ..with_state(s, i, EscrowState::Delivered) })
        },
    }
}

/// Pays the whole escrowed amount to the seller; the escrow completes.
pub open spec fn release_to_seller_step(s: EscrowContract, i: EscrowInfo, auth: AccountId) -> (EscrowOutcome, EscrowContract) {
    done(Some(auth), Some(payout(i, i.seller, i.amount)), with_state(s, i, EscrowState::Completed))
}

/// Pays the whole escrowed amount back to the buyer; the escrow is refunded.
pub open spec fn refund_to_buyer_step(s: EscrowContract, i: EscrowInfo, auth: AccountId) -> (EscrowOutcome, EscrowContract) {
    done(Some(auth), Some(payout(i, i.buyer, i.amount)), with_state(s, i, EscrowState::Refunded))
}

/// `approve_delivery`: the buyer approves; the seller is paid;
/// `Delivered → Completed`.
pub open spec fn approve_delivery_step(s: EscrowContract) -> (EscrowOutcome, EscrowContract) {
    match s.info {
        None => refused(s, None, EscrowError::NotInitialized),
        Some(i) => if i.state != EscrowState::Delivered {
            refused(s, None, EscrowError::InvalidState)
        } else {
            release_to_seller_step(EscrowContract { buyer_approved: true, ..s }, i, i.buyer)
        },
    }
}

/// `request_refund`: past the deadline, the buyer takes the funds back from
/// a funded or delivered escrow.
pub open spec fn request_refund_step(s: EscrowContract, ledger: u32) -> (EscrowOutcome, EscrowContract) {
    match s.info {
        None => refused(s, None, EscrowError::NotInitialized),
        Some(i) => if !(is_active(i.state) && ledger > i.deadline) {
            refused(s, Some(i.buyer), EscrowError::DeadlineNotReached)
        } else {
            refund_to_buyer_step(s, i, i.buyer)
        },
    }
}

/// `resolve_dispute`: the arbiter sends the funds of a funded or delivered
/// escrow to the seller or back to the buyer.
pub open spec fn resolve_dispute_step(s: EscrowContract, release_to_seller: bool) -> (EscrowOutcome, EscrowContract) {
    match s.info {
        None => refused(s, None, EscrowError::NotInitialized),
        Some(i) => if !is_active(i.state) {
            refused(s, None, EscrowError::InvalidState)
        } else if release_to_seller {
            release_to_seller_step(s, i, i.arbiter)
        } else {
            refund_to_buyer_step(s, i, i.arbiter)
        },
    }
}

/// `release_partial`: the buyer pays part of the escrowed amount to the
/// seller; the escrow keeps the rest and its state.
pub open spec fn release_partial_step(s: EscrowContract, amount: i128) -> (EscrowOutcome, EscrowContract) {
    match s.info {
        None => refused(s, None, EscrowError::NotInitialized),
        Some(i) => if !is_active(i.state) {
            refused(s, None, EscrowError::InvalidState)
        } else if amount > i.amount {
            refused(s, Some(i.buyer), EscrowError::InsufficientFunds)
        } else {
            done(
                Some(i.buyer),
                Some(payout(i, i.seller, amount)),
                EscrowContract { info: Some(EscrowInfo { amount: (i.amount - amount) as i128, ..i }), ..s },
            )
        },
    }
}

/// The inputs on which `release_partial` would overflow the remaining amount.
pub open spec fn release_partial_overflows(s: EscrowContract, amount: i128) -> bool {
    &&& s.info is Some
    &&& is_active(s.info.unwrap().state)
    &&& amount <= s.info.unwrap().amount
    &&& s.info.unwrap().amount - amount > i128::MAX
}

/// `cancel`: the buyer calls off an escrow that was never funded;
/// `Created → Cancelled`.
pub open spec fn cancel_step(s: EscrowContract) -> (EscrowOutcome, EscrowContract) {
    match s.info {
        None => refused(s, None, EscrowError::NotInitialized),
        Some(i) => if i.state != EscrowState::Created {
            refused(s, None, EscrowError::InvalidState)
        } else {
            done(Some(i.buyer), None, with_state(s, i, EscrowState::Cancelled))
        },
    }
}

/// Whether the deadline has passed at `ledger`; never for an escrow that
/// was not initialized.
pub open spec fn deadline_passed(s: EscrowContract, ledger: u32) -> bool {
    match s.info {
        None => false,
        Some(i) => ledger > i.deadline,
    }
}

} // verus!
