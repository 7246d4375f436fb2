//! The escrow service as exposed to callers of the service interface, which
//! also refuses requests that the program sends to itself and announces each
//! completed operation with an event.

use vstd::prelude::*;
use crate::actor::ActorId;
use crate::state::{EscrowBook, SafeDealState, deadline};
use crate::types::{ESCROW_FEE, Escrow, Payout, PayoutKind, SafeDealError, SafeDealEvent};

verus! {

/// What the service decides on a creation request from `source` (the program
/// being `program_id`), with `value` attached, at block `block`: a request
/// from the program itself is refused first, then a value below the fee, then
/// the zero seller. On success: the new id and the creation event.
pub open spec fn service_create_outcome(
    book: EscrowBook,
    source: ActorId,
    program_id: ActorId,
    value: u128,
    block: u32,
    seller: ActorId,
    timeout_blocks: u32,
) -> Result<(u64, SafeDealEvent), SafeDealError> {
    if source == program_id {
        Err(SafeDealError::SelfLoop)
    } else if value < ESCROW_FEE {
        Err(SafeDealError::InsufficientFunds)
    } else if seller.spec_is_zero() {
        Err(SafeDealError::SellerCannotBeZero)
    } else {
        Ok(
            (
                book.next_escrow_id,
                SafeDealEvent::EscrowCreated {
                    id: book.next_escrow_id,
                    buyer: source,
                    seller,
                    amount: (value - ESCROW_FEE) as u128,
                    deadline: deadline(block, timeout_blocks),
                },
            ),
        )
    }
}

/// The event announced once `p` has gone through.
pub open spec fn settled_event(p: Payout) -> SafeDealEvent {
    match p.kind {
        PayoutKind::Release => SafeDealEvent::DeliveryConfirmed { id: p.escrow_id, seller: p.to, amount: p.amount },
        PayoutKind::Refund => SafeDealEvent::EscrowRefunded { id: p.escrow_id, buyer: p.to, amount: p.amount },
    }
}

/// The escrow service over its book.
pub struct SafeDealService {
    state: SafeDealState,
}

impl View for SafeDealService {
    type V = EscrowBook;

    closed spec fn view(&self) -> EscrowBook {
        self.state@
    }
}

impl SafeDealService {
    /// Whether the book satisfies its invariant.
    pub open spec fn wf(&self) -> bool {
        self@.wf()
    }

    /// A service over an empty book whose first escrow will get id 1.
    pub fn new() -> (s: SafeDealService)
        ensures
            s.wf(),
            s@.escrows == Map::<u64, Escrow>::empty(),
            s@.next_escrow_id == 1,
    {
        SafeDealService { state: SafeDealState::new() }
    }

    /// `source` opens an escrow for `seller`, attaching `value`, at block
    /// `current_block`; `program_id` is the service's own address. Returns the
    /// new id and the creation event to announce.
    pub fn create_escrow(
        &mut self,
        source: ActorId,
        program_id: ActorId,
        value: u128,
        current_block: u32,
        seller: ActorId,
        timeout_blocks: u32,
    ) -> (r: Result<(u64, SafeDealEvent), SafeDealError>)
        ensures
            final(self).wf(),
            r == service_create_outcome(old(self)@, source, program_id, value, current_block, seller, timeout_blocks),
            r is Ok ==> final(self)@ == old(self)@.opened(
                source,
                seller,
                (value - ESCROW_FEE) as u128,
                current_block,
                timeout_blocks,
            ),
            r is Err ==> final(self)@ == old(self)@,
    {
        proof {
            use_type_invariant(&self.state);
        }
        if source == program_id {
            return Err(SafeDealError::SelfLoop);
        }
        if value < ESCROW_FEE {
            return Err(SafeDealError::InsufficientFunds);
        }
        if seller.is_zero() {
            return Err(SafeDealError::SellerCannotBeZero);
        }
        let amount = value - ESCROW_FEE;
        let id = self.state.open_escrow(source, seller, amount, current_block, timeout_blocks);
        let deadline_at = current_block.saturating_add(timeout_blocks);
        Ok((id, SafeDealEvent::EscrowCreated { id, buyer: source, seller, amount, deadline: deadline_at }))
    }

    /// `caller` confirms delivery of escrow `escrow_id`: the payout to the
    /// seller, or why there is none.
    pub fn confirm_delivery(&self, caller: ActorId, escrow_id: u64) -> (r: Result<Payout, SafeDealError>)
        ensures
            r == self@.confirm_check(caller, escrow_id),
    {
        self.state.check_confirm(caller, escrow_id)
    }

    /// Anyone asks, at block `current_block`, for the refund of escrow
    /// `escrow_id`: the payout to the buyer, or why there is none.
    pub fn refund_on_timeout(&self, current_block: u32, escrow_id: u64) -> (r: Result<Payout, SafeDealError>)
        ensures
            r == self@.refund_check(current_block, escrow_id),
    {
        self.state.check_refund(current_block, escrow_id)
    }

    /// Records whether the transfer of `payout`, a payout just granted by
    /// `confirm_delivery` or `refund_on_timeout`, went through, and returns
    /// the event to announce when it did. The service sends every payout, a
    /// zero amount included, so a refused transfer always fails.
    pub fn settle(&mut self, payout: &Payout, transfer_ok: bool) -> (r: Result<SafeDealEvent, SafeDealError>)
        requires
            old(self)@.is_due(*payout),
        ensures
            final(self).wf(),
            transfer_ok ==> r == Ok::<SafeDealEvent, SafeDealError>(settled_event(*payout)) && final(self)@
                == old(self)@.settled(*payout),
            !transfer_ok ==> r == Err::<SafeDealEvent, SafeDealError>(SafeDealError::TransferFailed)
                && final(self)@ == old(self)@,
    {
        proof {
            use_type_invariant(&self.state);
        }
        match self.state.settle(payout, transfer_ok) {
            Ok(()) => match payout.kind {
                PayoutKind::Release => Ok(
                    SafeDealEvent::DeliveryConfirmed { id: payout.escrow_id, seller: payout.to, amount: payout.amount },
                ),
                PayoutKind::Refund => Ok(
                    SafeDealEvent::EscrowRefunded { id: payout.escrow_id, buyer: payout.to, amount: payout.amount },
                ),
            },
            Err(e) => Err(e),
        }
    }

    /// The escrow under `escrow_id`, if any.
    pub fn get_escrow(&self, escrow_id: u64) -> (r: Option<Escrow>)
        ensures
            r == self@.lookup(escrow_id),
    {
        self.state.get_escrow(escrow_id)
    }

    /// The escrows whose buyer is `buyer`, in increasing id order.
    pub fn get_escrows_by_buyer(&self, buyer: ActorId) -> (r: Vec<Escrow>)
        ensures
            self@.lists_exactly(r@, buyer, false),
    {
        self.state.escrows_involving(buyer, false)
    }

    /// The escrows whose seller is `seller`, in increasing id order.
    pub fn get_escrows_by_seller(&self, seller: ActorId) -> (r: Vec<Escrow>)
        ensures
            self@.lists_exactly(r@, seller, true),
    {
        self.state.escrows_involving(seller, true)
    }

    /// The flat fee kept from every deposit.
    pub fn get_fee() -> (fee: u128)
        ensures
            fee == ESCROW_FEE,
    {
        ESCROW_FEE
    }
}

/// The program that hosts the escrow service.
pub struct Program {
    service: SafeDealService,
}

impl View for Program {
    type V = EscrowBook;

    closed spec fn view(&self) -> EscrowBook {
        self.service@
    }
}

impl Program {
    /// A program whose service starts with an empty book; the first escrow
    /// will get id 1.
    pub fn new() -> (p: Program)
        ensures
            p@.wf(),
            p@.escrows == Map::<u64, Escrow>::empty(),
            p@.next_escrow_id == 1,
    {
        Program { service: SafeDealService::new() }
    }

    /// The escrow service, for handling a request: what the service holds
    /// after the request is what the program holds.
    pub fn safedeal(&mut self) -> (s: &mut SafeDealService)
        ensures
            s@ == old(self)@,
            final(self)@ == final(s)@,
    {
        &mut self.service
    }
}

} // verus!
