//! The escrow contract: a buyer pays into escrow, the seller delivers, and
//! the funds go to the seller on approval, back to the buyer after the
//! deadline, or wherever an arbiter decides.
use vstd::prelude::*;

use crate::account::AccountId;
use crate::escrow_model::{
    approve_delivery_step, cancel_step, deadline_passed, empty_escrow, fund_step, initialize_rejects_deadline,
    initialize_step, mark_delivered_step, release_partial_overflows, release_partial_step,
    release_to_seller_step, refund_to_buyer_step, request_refund_step, resolve_dispute_step,
    EscrowContract, EscrowError, EscrowInfo, EscrowOutcome, EscrowState, Flow, Payment,
    MIN_DEADLINE_BUFFER,
};

verus! {

fn refusal(auth: Option<AccountId>, e: EscrowError) -> (o: EscrowOutcome)
    ensures
        o == (EscrowOutcome { auth, payment: None, result: Err(e) }),
{
    EscrowOutcome { auth, payment: None, result: Err(e) }
}

fn is_active(st: EscrowState) -> (b: bool)
    ensures
        b == crate::escrow_model::is_active(st),
{
    match st {
        EscrowState::Funded | EscrowState::Delivered => true,
        _ => false,
    }
}

impl EscrowContract {
    /// An escrow whose storage is empty.
    pub fn new() -> (c: Self)
        ensures
            c == empty_escrow(),
    {
        EscrowContract { info: None, buyer_approved: false, seller_delivered: false }
    }

    /// Set up a new escrow at ledger `ledger`. Must be called exactly once;
    /// the amount must be positive and the deadline at least
    /// `MIN_DEADLINE_BUFFER` ledgers away.
    pub fn initialize(
        &mut self,
        buyer: AccountId,
        seller: AccountId,
        arbiter: AccountId,
        token_contract: AccountId,
        amount: i128,
        deadline_ledger: u32,
        ledger: u32,
    ) -> (o: EscrowOutcome)
        requires
            !initialize_rejects_deadline(*old(self), amount, deadline_ledger, ledger),
        ensures
            (o, *final(self)) == initialize_step(*old(self), buyer, seller, arbiter, token_contract, amount, deadline_ledger),
    {
        if self.info.is_some() {
            return refusal(None, EscrowError::AlreadyInitialized);
        }
        if amount <= 0 {
            return refusal(None, EscrowError::InvalidAmount);
        }
        assert(ledger + MIN_DEADLINE_BUFFER <= deadline_ledger);
        self.info = Some(EscrowInfo {
            buyer,
            seller,
            arbiter,
            token_contract,
            amount,
            deadline: deadline_ledger,
            state: EscrowState::Created,
        });
        self.buyer_approved = false;
        self.seller_delivered = false;
        EscrowOutcome { auth: None, payment: None, result: Ok(()) }
    }

    /// The buyer pays the escrowed amount into the escrow.
    pub fn fund(&mut self) -> (o: EscrowOutcome)
        ensures
            (o, *final(self)) == fund_step(*old(self)),
    {
        let i = match self.info {
            None => return refusal(None, EscrowError::NotInitialized),
            Some(i) => i,
        };
        match i.state {
            EscrowState::Created => {},
            _ => return refusal(None, EscrowError::InvalidState),
        }
        self.info = Some(EscrowInfo { state: EscrowState::Funded, ..i });
        let payment = Payment { token: i.token_contract, flow: Flow::IntoEscrow, party: i.buyer, amount: i.amount };
        EscrowOutcome { auth: Some(i.buyer), payment: Some(payment), result: Ok(()) }
    }

    /// The seller marks the goods or services as delivered.
    pub fn mark_delivered(&mut self) -> (o: EscrowOutcome)
        ensures
            (o, *final(self)) == mark_delivered_step(*old(self)),
    {
        let i = match self.info {
            None => return refusal(None, EscrowError::NotInitialized),
            Some(i) => i,
        };
        match i.state {
            EscrowState::Funded => {},
            _ => return refusal(None, EscrowError::InvalidState),
        }
        self.seller_delivered = true;
        self.info = Some(EscrowInfo { state: EscrowState::Delivered, ..i });
        EscrowOutcome { auth: Some(i.seller), payment: None, result: Ok(()) }
    }

    /// The buyer approves the delivery, which releases the funds to the seller.
    pub fn approve_delivery(&mut self) -> (o: EscrowOutcome)
        ensures
            (o, *final(self)) == approve_delivery_step(*old(self)),
    {
        let i = match self.info {
            None => return refusal(None, EscrowError::NotInitialized),
            Some(i) => i,
        };
        match i.state {
            EscrowState::Delivered => {},
            _ => return refusal(None, EscrowError::InvalidState),
        }
        self.buyer_approved = true;
        self.release_to_seller(i, i.buyer)
    }

    /// After the deadline, the buyer takes back the funds of a funded or
    /// delivered escrow.
    pub fn request_refund(&mut self, ledger: u32) -> (o: EscrowOutcome)
        ensures
            (o, *final(self)) == request_refund_step(*old(self), ledger),
    {
        let i = match self.info {
            None => return refusal(None, EscrowError::NotInitialized),
            Some(i) => i,
        };
        let can_refund = is_active(i.state) && ledger > i.deadline;
        if !can_refund {
            return refusal(Some(i.buyer), EscrowError::DeadlineNotReached);
        }
        self.refund_to_buyer(i, i.buyer)
    }

    /// The arbiter settles a dispute over a funded or delivered escrow: to
    /// the seller when `release_to_seller`, else back to the buyer.
    pub fn resolve_dispute(&mut self, release_to_seller: bool) -> (o: EscrowOutcome)
        ensures
            (o, *final(self)) == resolve_dispute_step(*old(self), release_to_seller),
    {
        let i = match self.info {
            None => return refusal(None, EscrowError::NotInitialized),
            Some(i) => i,
        };
        if !is_active(i.state) {
            return refusal(None, EscrowError::InvalidState);
        }
        if release_to_seller {
            self.release_to_seller(i, i.arbiter)
        } else {
            self.refund_to_buyer(i, i.arbiter)
        }
    }

    /// The buyer releases `amount` of the escrowed funds to the seller.
    pub fn release_partial(&mut self, amount: i128) -> (o: EscrowOutcome)
        requires
            !release_partial_overflows(*old(self), amount),
        ensures
            (o, *final(self)) == release_partial_step(*old(self), amount),
    {
        let i = match self.info {
            None => return refusal(None, EscrowError::NotInitialized),
            Some(i) => i,
        };
        if !is_active(i.state) {
            return refusal(None, EscrowError::InvalidState);
        }
        if amount > i.amount {
            return refusal(Some(i.buyer), EscrowError::InsufficientFunds);
        }
        self.info = Some(EscrowInfo { amount: i.amount - amount, ..i });
        let payment = Payment { token: i.token_contract, flow: Flow::OutOfEscrow, party: i.seller, amount };
        EscrowOutcome { auth: Some(i.buyer), payment: Some(payment), result: Ok(()) }
    }

    /// The buyer cancels an escrow that was never funded.
    pub fn cancel(&mut self) -> (o: EscrowOutcome)
        ensures
            (o, *final(self)) == cancel_step(*old(self)),
    {
        let i = match self.info {
            None => return refusal(None, EscrowError::NotInitialized),
            Some(i) => i,
        };
        match i.state {
            EscrowState::Created => {},
            _ => return refusal(None, EscrowError::InvalidState),
        }
        self.info = Some(EscrowInfo { state: EscrowState::Cancelled, ..i });
        EscrowOutcome { auth: Some(i.buyer), payment: None, result: Ok(()) }
    }

    /// Whether the storage of an active escrow may be kept alive: only an
    /// initialized escrow can be.
    pub fn bump(&self) -> (r: Result<(), EscrowError>)
        ensures
            r == (if self.info is Some { Ok::<(), EscrowError>(()) } else { Err(EscrowError::NotInitialized) }),
    {
        match self.info {
            Some(_) => Ok(()),
            None => Err(EscrowError::NotInitialized),
        }
    }

    /// All the terms of the escrow and its state.
    pub fn get_escrow_info(&self) -> (info: EscrowInfo)
        requires
            self.info is Some,
        ensures
            Some(info) == self.info,
    {
        self.info.unwrap()
    }

    /// The state of the escrow, or `None` before it is initialized.
    pub fn get_state(&self) -> (st: Option<EscrowState>)
        ensures
            st == (match self.info {
                Some(i) => Some(i.state),
                None => None::<EscrowState>,
            }),
    {
        match self.info {
            Some(i) => Some(i.state),
            None => None,
        }
    }

    /// Whether ledger `ledger` is past the deadline; `false` before the
    /// escrow is initialized.
    pub fn is_deadline_passed(&self, ledger: u32) -> (b: bool)
        ensures
            b == deadline_passed(*self, ledger),
    {
        match self.info {
            Some(i) => ledger > i.deadline,
            None => false,
        }
    }

    /// Completes the escrow and pays the whole amount to the seller; the
    /// state is written before the payment is asked for.
    fn release_to_seller(&mut self, i: EscrowInfo, auth: AccountId) -> (o: EscrowOutcome)
        requires
            old(self).info == Some(i),
        ensures
            (o, *final(self)) == release_to_seller_step(*old(self), i, auth),
    {
        self.info = Some(EscrowInfo { state: EscrowState::Completed, ..i });
        let payment = Payment { token: i.token_contract, flow: Flow::OutOfEscrow, party: i.seller, amount: i.amount };
        EscrowOutcome { auth: Some(auth), payment: Some(payment), result: Ok(()) }
    }

    /// Refunds the escrow and pays the whole amount back to the buyer; the
    /// state is written before the payment is asked for.
    fn refund_to_buyer(&mut self, i: EscrowInfo, auth: AccountId) -> (o: EscrowOutcome)
        requires
            old(self).info == Some(i),
        ensures
            (o, *final(self)) == refund_to_buyer_step(*old(self), i, auth),
    {
        self.info = Some(EscrowInfo { state: EscrowState::Refunded, ..i });
        let payment = Payment { token: i.token_contract, flow: Flow::OutOfEscrow, party: i.buyer, amount: i.amount };
        EscrowOutcome { auth: Some(auth), payment: Some(payment), result: Ok(()) }
    }
}

} // verus!
