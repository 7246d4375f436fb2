//! The escrow program driven by one command per message.

use vstd::prelude::*;
use crate::actor::ActorId;
use crate::state::{EscrowBook, SafeDealState};
use crate::types::{ESCROW_FEE, Escrow, Payout, PayoutKind, SafeDealError};

verus! {

/// What creating an escrow for `seller` with `value` attached decides: the
/// zero seller is refused first, then a value below the fee.
pub open spec fn create_outcome(book: EscrowBook, seller: ActorId, value: u128) -> Result<u64, SafeDealError> {
    if seller.spec_is_zero() {
        Err(SafeDealError::SellerCannotBeZero)
    } else if value < ESCROW_FEE {
        Err(SafeDealError::InsufficientFunds)
    } else {
        Ok(book.next_escrow_id)
    }
}

/// A request to the program.
#[derive(Clone, Copy, Debug)]
pub enum Command {
    CreateEscrow { seller: ActorId, timeout_blocks: u32 },
    ConfirmDelivery { escrow_id: u64 },
    RefundOnTimeout { escrow_id: u64 },
    GetEscrow { escrow_id: u64 },
    GetEscrowsByBuyer { buyer: ActorId },
    GetEscrowsBySeller { seller: ActorId },
    GetFee,
}

/// The program's answer to a request.
#[derive(Debug)]
pub enum Reply {
    EscrowCreated(u64),
    DeliveryConfirmed,
    RefundProcessed,
    EscrowInfo(Option<Escrow>),
    EscrowList(Vec<Escrow>),
    Fee(u128),
    Error(SafeDealError),
}

/// What the runtime has to do after a request has been handled.
#[derive(Debug)]
pub enum Action {
    /// Answer with this reply; nothing else is owed.
    Reply(Reply),
    /// Send this payout, then hand its outcome to `SafeDeal::complete`.
    Transfer(Payout),
}

/// Whether the program settles `p` when the transfer outcome was
/// `transfer_ok`: a zero amount is never sent, so it settles whatever the
/// flag says.
pub open spec fn settles_without_failure(p: Payout, transfer_ok: bool) -> bool {
    transfer_ok || p.amount == 0
}

/// The gas a value transfer is sent with: half of the gas still available.
pub fn transfer_gas_limit(gas_available: u64) -> (limit: u64)
    ensures
        limit == gas_available / 2,
{
    gas_available / 2
}

/// The reply owed once a payout of this kind has gone through.
pub open spec fn settled_reply(kind: PayoutKind) -> Reply {
    match kind {
        PayoutKind::Release => Reply::DeliveryConfirmed,
        PayoutKind::Refund => Reply::RefundProcessed,
    }
}

/// The escrow program: the book and its operations.
pub struct SafeDeal {
    state: SafeDealState,
}

impl View for SafeDeal {
    type V = EscrowBook;

    closed spec fn view(&self) -> EscrowBook {
        self.state@
    }
}

impl SafeDeal {
    /// Whether the book satisfies its invariant.
    pub open spec fn wf(&self) -> bool {
        self@.wf()
    }

    /// An empty program whose first escrow will get id 1.
    pub fn new() -> (s: SafeDeal)
        ensures
            s.wf(),
            s@.escrows == Map::<u64, Escrow>::empty(),
            s@.next_escrow_id == 1,
    {
        SafeDeal { state: SafeDealState::new() }
    }

    /// The id the next escrow will get.
    pub fn next_escrow_id(&self) -> (id: u64)
        ensures
            id == self@.next_escrow_id,
    {
        self.state.next_escrow_id()
    }

    /// Whether no escrow has been created.
    pub fn is_empty(&self) -> (r: bool)
        ensures
            r == self@.escrows.is_empty(),
    {
        self.state.is_empty()
    }

    /// `buyer` opens an escrow for `seller`, attaching `value`, at block
    /// `current_block`. The escrow holds `value` minus the fee and may be
    /// refunded from `timeout_blocks` blocks on. Returns the new escrow's id.
    pub fn create_escrow(
        &mut self,
        buyer: ActorId,
        value: u128,
        current_block: u32,
        seller: ActorId,
        timeout_blocks: u32,
    ) -> (r: Result<u64, SafeDealError>)
        ensures
            final(self).wf(),
            r == create_outcome(old(self)@, seller, value),
            r is Ok ==> final(self)@ == old(self)@.opened(
                buyer,
                seller,
                (value - ESCROW_FEE) as u128,
                current_block,
                timeout_blocks,
            ),
            r is Err ==> final(self)@ == old(self)@,
    {
        proof {
            use_type_invariant(&self.state);
        }
        if seller.is_zero() {
            return Err(SafeDealError::SellerCannotBeZero);
        }
        if value < ESCROW_FEE {
            return Err(SafeDealError::InsufficientFunds);
        }
        let amount = value - ESCROW_FEE;
        let id = self.state.open_escrow(buyer, seller, amount, current_block, timeout_blocks);
        Ok(id)
    }

    /// `caller` confirms delivery of escrow `escrow_id`: the payout that
    /// releases the deposit to the seller, or why there is none. The escrow
    /// closes once the payout has gone through (`settle`).
    pub fn confirm_delivery(&self, caller: ActorId, escrow_id: u64) -> (r: Result<Payout, SafeDealError>)
        ensures
            r == self@.confirm_check(caller, escrow_id),
    {
        self.state.check_confirm(caller, escrow_id)
    }

    /// Anyone asks, at block `current_block`, for the refund of escrow
    /// `escrow_id`: the payout that returns the deposit to the buyer, or why
    /// there is none. The escrow closes once the payout has gone through
    /// (`settle`).
    pub fn refund_on_timeout(&self, current_block: u32, escrow_id: u64) -> (r: Result<Payout, SafeDealError>)
        ensures
            r == self@.refund_check(current_block, escrow_id),
    {
        self.state.check_refund(current_block, escrow_id)
    }

    /// Records whether the transfer of `payout`, a payout just granted by
    /// `confirm_delivery` or `refund_on_timeout`, went through. A zero amount
    /// needs no transfer and settles whatever `transfer_ok` says.
    pub fn settle(&mut self, payout: &Payout, transfer_ok: bool) -> (r: Result<(), SafeDealError>)
        requires
            old(self)@.is_due(*payout),
        ensures
            final(self).wf(),
            settles_without_failure(*payout, transfer_ok) ==> r == Ok::<(), SafeDealError>(()) && final(self)@
                == old(self)@.settled(*payout),
            !settles_without_failure(*payout, transfer_ok) ==> r == Err::<(), SafeDealError>(
                SafeDealError::TransferFailed,
            ) && final(self)@ == old(self)@,
    {
        proof {
            use_type_invariant(&self.state);
        }
        let sent = transfer_ok || !payout.needs_transfer();
        self.state.settle(payout, sent)
    }

    /// The escrow under `escrow_id`, if any.
    pub fn get_escrow(&self, escrow_id: u64) -> (r: Option<Escrow>)
        ensures
            r == self@.lookup(escrow_id),
    {
        self.state.get_escrow(escrow_id)
    }

    /// The escrows whose buyer is `buyer`, in increasing id order.
    pub fn get_escrows_by_buyer(&self, buyer: ActorId) -> (r: Vec<Escrow>)
        ensures
            self@.lists_exactly(r@, buyer, false),
    {
        self.state.escrows_involving(buyer, false)
    }

    /// The escrows whose seller is `seller`, in increasing id order.
    pub fn get_escrows_by_seller(&self, seller: ActorId) -> (r: Vec<Escrow>)
        ensures
            self@.lists_exactly(r@, seller, true),
    {
        self.state.escrows_involving(seller, true)
    }

    /// The flat fee kept from every deposit.
    pub fn get_fee() -> (fee: u128)
        ensures
            fee == ESCROW_FEE,
    {
        ESCROW_FEE
    }

    /// Handles one request sent by `source` with `value` attached, at block
    /// `current_block`. A confirmation or refund that is due comes back as a
    /// transfer to perform; everything else comes back as the reply.
    pub fn handle(&mut self, source: ActorId, value: u128, current_block: u32, command: Command) -> (action: Action)
        ensures
            final(self).wf(),
            match command {
                Command::CreateEscrow { seller, timeout_blocks } => match create_outcome(old(self)@, seller, value) {
                    Ok(id) => {
                        &&& action == Action::Reply(Reply::EscrowCreated(id))
                        &&& final(self)@ == old(self)@.opened(
                            source,
                            seller,
                            (value - ESCROW_FEE) as u128,
                            current_block,
                            timeout_blocks,
                        )
                    },
                    Err(e) => action == Action::Reply(Reply::Error(e)) && final(self)@ == old(self)@,
                },
                Command::ConfirmDelivery { escrow_id } => {
                    &&& final(self)@ == old(self)@
                    &&& match old(self)@.confirm_check(source, escrow_id) {
                        Ok(p) => action == Action::Transfer(p),
                        Err(e) => action == Action::Reply(Reply::Error(e)),
                    }
                },
                Command::RefundOnTimeout { escrow_id } => {
                    &&& final(self)@ == old(self)@
                    &&& match old(self)@.refund_check(current_block, escrow_id) {
                        Ok(p) => action == Action::Transfer(p),
                        Err(e) => action == Action::Reply(Reply::Error(e)),
                    }
                },
                Command::GetEscrow { escrow_id } => {
                    &&& final(self)@ == old(self)@
                    &&& action == Action::Reply(Reply::EscrowInfo(old(self)@.lookup(escrow_id)))
                },
                Command::GetEscrowsByBuyer { buyer } => {
                    &&& final(self)@ == old(self)@
                    &&& action matches Action::Reply(Reply::EscrowList(v))
                    &&& old(self)@.lists_exactly(v@, buyer, false)
                },
                Command::GetEscrowsBySeller { seller } => {
                    &&& final(self)@ == old(self)@
                    &&& action matches Action::Reply(Reply::EscrowList(v))
                    &&& old(self)@.lists_exactly(v@, seller, true)
                },
                Command::GetFee => final(self)@ == old(self)@ && action == Action::Reply(Reply::Fee(ESCROW_FEE)),
            },
    {
        proof {
            use_type_invariant(&self.state);
        }
        match command {
            Command::CreateEscrow { seller, timeout_blocks } => {
                match self.create_escrow(source, value, current_block, seller, timeout_blocks) {
                    Ok(id) => Action::Reply(Reply::EscrowCreated(id)),
                    Err(e) => Action::Reply(Reply::Error(e)),
                }
            },
            Command::ConfirmDelivery { escrow_id } => match self.confirm_delivery(source, escrow_id) {
                Ok(p) => Action::Transfer(p),
                Err(e) => Action::Reply(Reply::Error(e)),
            },
            Command::RefundOnTimeout { escrow_id } => match self.refund_on_timeout(current_block, escrow_id) {
                Ok(p) => Action::Transfer(p),
                Err(e) => Action::Reply(Reply::Error(e)),
            },
            Command::GetEscrow { escrow_id } => Action::Reply(Reply::EscrowInfo(self.get_escrow(escrow_id))),
            Command::GetEscrowsByBuyer { buyer } => Action::Reply(Reply::EscrowList(self.get_escrows_by_buyer(buyer))),
            Command::GetEscrowsBySeller { seller } => Action::Reply(
                Reply::EscrowList(self.get_escrows_by_seller(seller)),
            ),
            Command::GetFee => Action::Reply(Reply::Fee(SafeDeal::get_fee())),
        }
    }

    /// Finishes a request whose payout `handle` ordered: `transfer_ok` says
    /// whether the runtime accepted the transfer (a zero amount needs none and
    /// settles regardless). The reply is the one owed for the payout's kind,
    /// or `TransferFailed` with the book unchanged.
    pub fn complete(&mut self, payout: Payout, transfer_ok: bool) -> (reply: Reply)
        requires
            old(self)@.is_due(payout),
        ensures
            final(self).wf(),
            settles_without_failure(payout, transfer_ok) ==> reply == settled_reply(payout.kind) && final(self)@
                == old(self)@.settled(payout),
            !settles_without_failure(payout, transfer_ok) ==> reply == Reply::Error(SafeDealError::TransferFailed)
                && final(self)@ == old(self)@,
    {
        proof {
            use_type_invariant(&self.state);
        }
        match self.settle(&payout, transfer_ok) {
            Ok(()) => match payout.kind {
                PayoutKind::Release => Reply::DeliveryConfirmed,
                PayoutKind::Refund => Reply::RefundProcessed,
            },
            Err(e) => Reply::Error(e),
        }
    }
}

} // verus!
