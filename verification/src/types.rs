//! Escrow records, errors, events and payout orders.

use vstd::prelude::*;
use crate::actor::ActorId;

verus! {

/// The flat fee kept from every deposit: 1 VARA in its smallest units (10^12).
pub const ESCROW_FEE: u128 = 1_000_000_000_000;

/// Where an escrow stands.
#[derive(Clone, Copy, Debug, PartialEq, Eq, Structural)]
pub enum EscrowStatus {
    /// Awaiting the buyer's confirmation or the timeout.
    Pending,
    /// The deposit has been released to the seller.
    Completed,
    /// The deposit has been returned to the buyer.
    Refunded,
}

/// One escrow: a deposit held for `seller` on behalf of `buyer`.
#[derive(Clone, Copy, Debug)]
pub struct Escrow {
    pub escrow_id: u64,
    pub buyer: ActorId,
    pub seller: ActorId,
    /// The deposit held, fee excluded.
    pub amount: u128,
    /// The block height from which anyone may trigger the refund.
    pub timeout_at: u32,
    pub status: EscrowStatus,
    /// The block height at which the escrow was created.
    pub created_at: u32,
}

/// Why a request was refused.
#[derive(Clone, Copy, Debug, PartialEq, Eq, Structural)]
pub enum SafeDealError {
    /// The attached value does not cover the fee.
    InsufficientFunds,
    /// No escrow has that id.
    InvalidEscrowId,
    /// The escrow is in the wrong state for the operation.
    InvalidStatus,
    /// The caller may not perform the operation on that escrow.
    UnauthorizedActor,
    /// The escrow has already been released or refunded.
    EscrowAlreadyCompleted,
    /// The refund was asked for before the timeout block.
    TimeoutNotReached,
    /// The seller is the all-zero identifier.
    SellerCannotBeZero,
    /// The runtime refused to send the value.
    TransferFailed,
    /// The program itself sent the request.
    SelfLoop,
}

/// What happens to a deposit when it leaves the escrow.
#[derive(Clone, Copy, Debug, PartialEq, Eq, Structural)]
pub enum PayoutKind {
    /// The buyer confirmed delivery: the deposit goes to the seller.
    Release,
    /// The timeout was reached: the deposit goes back to the buyer.
    Refund,
}

impl PayoutKind {
    /// The status an escrow takes once its payout has been sent.
    pub open spec fn spec_final_status(self) -> EscrowStatus {
        match self {
            PayoutKind::Release => EscrowStatus::Completed,
            PayoutKind::Refund => EscrowStatus::Refunded,
        }
    }

    /// The status an escrow takes once its payout has been sent.
    pub fn final_status(&self) -> (s: EscrowStatus)
        ensures
            s == self.spec_final_status(),
    {
        match self {
            PayoutKind::Release => EscrowStatus::Completed,
            PayoutKind::Refund => EscrowStatus::Refunded,
        }
    }
}

/// An order to send `amount` to `to`, closing escrow `escrow_id`.
#[derive(Clone, Copy, Debug)]
pub struct Payout {
    pub escrow_id: u64,
    pub to: ActorId,
    pub amount: u128,
    pub kind: PayoutKind,
}

impl Payout {
    /// Whether a value transfer has to be sent at all: a zero amount is
    /// settled without one.
    pub fn needs_transfer(&self) -> (r: bool)
        ensures
            r == (self.amount != 0),
    {
        self.amount != 0
    }
}

/// What the escrow service announces after a successful operation.
#[derive(Clone, Copy, Debug)]
pub enum SafeDealEvent {
    EscrowCreated { id: u64, buyer: ActorId, seller: ActorId, amount: u128, deadline: u32 },
    DeliveryConfirmed { id: u64, seller: ActorId, amount: u128 },
    EscrowRefunded { id: u64, buyer: ActorId, amount: u128 },
}

} // verus!
