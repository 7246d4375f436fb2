use safe_deal::actor::ActorId;
use safe_deal::safe_deal::{Action, Command, Reply, SafeDeal};
use safe_deal::types::{EscrowStatus, PayoutKind, SafeDealError};

const FEE: u128 = 1_000_000_000_000;
const AMOUNT: u128 = 5_000_000_000_000;

fn actor(n: u8) -> ActorId {
    ActorId::new([n; 32])
}

#[test]
fn test_new_safe_deal() {
    let safe_deal = SafeDeal::new();
    assert_eq!(safe_deal.next_escrow_id(), 1);
    assert!(safe_deal.is_empty());
}

#[test]
fn test_fee_constant() {
    assert_eq!(SafeDeal::get_fee(), safe_deal::types::ESCROW_FEE);
    assert_eq!(SafeDeal::get_fee(), 1_000_000_000_000);
}

#[test]
fn program_checks_seller_before_fee() {
    let mut deal = SafeDeal::new();
    let result = deal.create_escrow(actor(1), 0, 1, ActorId::zero(), 10);
    assert_eq!(result, Err(SafeDealError::SellerCannotBeZero));
    let result = deal.create_escrow(actor(1), FEE - 1, 1, actor(2), 10);
    assert_eq!(result, Err(SafeDealError::InsufficientFunds));
    assert!(deal.is_empty());
    assert_eq!(deal.next_escrow_id(), 1);
}

#[test]
fn program_create_then_get() {
    let mut deal = SafeDeal::new();
    let id = deal.create_escrow(actor(1), FEE + AMOUNT, 40, actor(2), 60).unwrap();
    assert_eq!(id, 1);
    let e = deal.get_escrow(id).unwrap();
    assert_eq!(e.escrow_id, 1);
    assert_eq!(e.buyer, actor(1));
    assert_eq!(e.seller, actor(2));
    assert_eq!(e.amount, AMOUNT);
    assert_eq!(e.amount + FEE, FEE + AMOUNT);
    assert_eq!(e.timeout_at, 100);
    assert_eq!(e.created_at, 40);
    assert_eq!(e.status, EscrowStatus::Pending);
    assert_eq!(deal.next_escrow_id(), 2);
    assert!(deal.get_escrow(2).is_none());
}

#[test]
fn program_fee_only_deposit_holds_zero() {
    let mut deal = SafeDeal::new();
    let id = deal.create_escrow(actor(1), FEE, 1, actor(2), 1).unwrap();
    let p = deal.confirm_delivery(actor(1), id).unwrap();
    assert_eq!(p.amount, 0);
    assert!(!p.needs_transfer());
    // Nothing had to be sent, so the payout settles whatever the transfer flag says.
    assert_eq!(deal.settle(&p, false), Ok(()));
    assert_eq!(deal.get_escrow(id).unwrap().status, EscrowStatus::Completed);
}

#[test]
fn program_zero_amount_reply_without_transfer() {
    let mut deal = SafeDeal::new();
    let id = deal.create_escrow(actor(1), FEE, 1, actor(2), 1).unwrap();
    let payout = match deal.handle(actor(5), 0, 2, Command::RefundOnTimeout { escrow_id: id }) {
        Action::Transfer(p) => p,
        other => panic!("unexpected {:?}", other),
    };
    assert!(matches!(deal.complete(payout, false), Reply::RefundProcessed));
    assert_eq!(deal.get_escrow(id).unwrap().status, EscrowStatus::Refunded);
}

#[test]
fn program_ids_are_consecutive() {
    let mut deal = SafeDeal::new();
    let a = deal.create_escrow(actor(1), FEE + 1, 1, actor(2), 5).unwrap();
    // Failed creations, checks, settlements and queries take no id.
    assert!(deal.create_escrow(actor(1), FEE - 1, 1, actor(2), 5).is_err());
    assert!(deal.create_escrow(actor(1), FEE + 1, 1, ActorId::zero(), 5).is_err());
    let p = deal.confirm_delivery(actor(1), a).unwrap();
    deal.settle(&p, true).unwrap();
    assert!(deal.get_escrow(a).is_some());
    let b = deal.create_escrow(actor(3), FEE + 1, 1, actor(4), 5).unwrap();
    assert_eq!(b, a + 1);
}

#[test]
fn program_deadline_saturates() {
    let mut deal = SafeDeal::new();
    let id = deal.create_escrow(actor(1), FEE + 1, u32::MAX - 5, actor(2), 100).unwrap();
    assert_eq!(deal.get_escrow(id).unwrap().timeout_at, u32::MAX);
}

#[test]
fn program_unknown_escrow() {
    let deal = SafeDeal::new();
    assert!(matches!(deal.confirm_delivery(actor(1), 7), Err(SafeDealError::InvalidEscrowId)));
    assert!(matches!(deal.refund_on_timeout(1000, 7), Err(SafeDealError::InvalidEscrowId)));
    assert!(deal.get_escrow(7).is_none());
}

#[test]
fn program_released_escrow_pays_nothing_more() {
    let mut deal = SafeDeal::new();
    let id = deal.create_escrow(actor(1), FEE + AMOUNT, 1, actor(2), 10).unwrap();
    let p = deal.confirm_delivery(actor(1), id).unwrap();
    assert!(deal.settle(&p, true).is_ok());
    assert!(matches!(deal.confirm_delivery(actor(1), id), Err(SafeDealError::EscrowAlreadyCompleted)));
    assert!(matches!(deal.refund_on_timeout(1000, id), Err(SafeDealError::EscrowAlreadyCompleted)));
    // A stranger is still told that they are not the buyer.
    assert!(matches!(deal.confirm_delivery(actor(5), id), Err(SafeDealError::UnauthorizedActor)));
}

#[test]
fn program_refunded_escrow_cannot_be_released() {
    let mut deal = SafeDeal::new();
    let id = deal.create_escrow(actor(1), FEE + AMOUNT, 1, actor(2), 10).unwrap();
    // Anyone may trigger the refund: the caller plays no part.
    let p = deal.refund_on_timeout(11, id).unwrap();
    assert_eq!(p.kind, PayoutKind::Refund);
    assert!(deal.settle(&p, true).is_ok());
    assert_eq!(deal.get_escrow(id).unwrap().status, EscrowStatus::Refunded);
    assert!(matches!(deal.confirm_delivery(actor(1), id), Err(SafeDealError::EscrowAlreadyCompleted)));
}

#[test]
fn program_refund_exactly_at_timeout() {
    let mut deal = SafeDeal::new();
    let id = deal.create_escrow(actor(1), FEE + AMOUNT, 5, actor(2), 10).unwrap();
    assert!(matches!(deal.refund_on_timeout(14, id), Err(SafeDealError::TimeoutNotReached)));
    assert!(deal.refund_on_timeout(15, id).is_ok());
}

#[test]
fn program_confirm_after_timeout_is_allowed() {
    let mut deal = SafeDeal::new();
    let id = deal.create_escrow(actor(1), FEE + AMOUNT, 5, actor(2), 10).unwrap();
    assert!(deal.confirm_delivery(actor(1), id).is_ok());
}

#[test]
fn program_failed_transfer_keeps_escrow_open() {
    let mut deal = SafeDeal::new();
    let id = deal.create_escrow(actor(1), FEE + AMOUNT, 1, actor(2), 10).unwrap();
    let p = deal.confirm_delivery(actor(1), id).unwrap();
    assert_eq!(deal.settle(&p, false), Err(SafeDealError::TransferFailed));
    assert_eq!(deal.get_escrow(id).unwrap().status, EscrowStatus::Pending);
    // The buyer can try again.
    assert!(deal.confirm_delivery(actor(1), id).is_ok());
}

#[test]
fn program_settle_touches_only_its_escrow() {
    let mut deal = SafeDeal::new();
    let a = deal.create_escrow(actor(1), FEE + 10, 1, actor(2), 10).unwrap();
    let b = deal.create_escrow(actor(1), FEE + 20, 1, actor(2), 10).unwrap();
    let p = deal.confirm_delivery(actor(1), a).unwrap();
    deal.settle(&p, true).unwrap();
    assert_eq!(deal.get_escrow(a).unwrap().status, EscrowStatus::Completed);
    let other = deal.get_escrow(b).unwrap();
    assert_eq!(other.status, EscrowStatus::Pending);
    assert_eq!(other.amount, 20);
}

#[test]
fn program_handle_round_trip() {
    let mut deal = SafeDeal::new();
    let buyer = actor(1);
    let seller = actor(2);
    match deal.handle(buyer, FEE + AMOUNT, 3, Command::CreateEscrow { seller, timeout_blocks: 10 }) {
        Action::Reply(Reply::EscrowCreated(id)) => assert_eq!(id, 1),
        other => panic!("unexpected {:?}", other),
    }
    match deal.handle(buyer, 0, 3, Command::GetEscrow { escrow_id: 1 }) {
        Action::Reply(Reply::EscrowInfo(Some(e))) => assert_eq!(e.amount, AMOUNT),
        other => panic!("unexpected {:?}", other),
    }
    match deal.handle(actor(7), 0, 3, Command::ConfirmDelivery { escrow_id: 1 }) {
        Action::Reply(Reply::Error(SafeDealError::UnauthorizedActor)) => {},
        other => panic!("unexpected {:?}", other),
    }
    match deal.handle(actor(7), 0, 4, Command::RefundOnTimeout { escrow_id: 1 }) {
        Action::Reply(Reply::Error(SafeDealError::TimeoutNotReached)) => {},
        other => panic!("unexpected {:?}", other),
    }
    let payout = match deal.handle(buyer, 0, 4, Command::ConfirmDelivery { escrow_id: 1 }) {
        Action::Transfer(p) => p,
        other => panic!("unexpected {:?}", other),
    };
    assert_eq!(payout.to, seller);
    assert_eq!(payout.amount, AMOUNT);
    assert!(matches!(deal.complete(payout, false), Reply::Error(SafeDealError::TransferFailed)));
    assert!(matches!(deal.complete(payout, true), Reply::DeliveryConfirmed));
    match deal.handle(buyer, 0, 50, Command::RefundOnTimeout { escrow_id: 1 }) {
        Action::Reply(Reply::Error(SafeDealError::EscrowAlreadyCompleted)) => {},
        other => panic!("unexpected {:?}", other),
    }
    match deal.handle(buyer, 0, 50, Command::GetEscrowsByBuyer { buyer }) {
        Action::Reply(Reply::EscrowList(v)) => assert_eq!(v.len(), 1),
        other => panic!("unexpected {:?}", other),
    }
    match deal.handle(buyer, 0, 50, Command::GetEscrowsBySeller { seller: buyer }) {
        Action::Reply(Reply::EscrowList(v)) => assert!(v.is_empty()),
        other => panic!("unexpected {:?}", other),
    }
    match deal.handle(buyer, 0, 50, Command::GetFee) {
        Action::Reply(Reply::Fee(f)) => assert_eq!(f, FEE),
        other => panic!("unexpected {:?}", other),
    }
}

#[test]
fn program_refund_reply() {
    let mut deal = SafeDeal::new();
    let id = deal.create_escrow(actor(1), FEE + AMOUNT, 1, actor(2), 2).unwrap();
    let payout = match deal.handle(actor(9), 0, 3, Command::RefundOnTimeout { escrow_id: id }) {
        Action::Transfer(p) => p,
        other => panic!("unexpected {:?}", other),
    };
    assert_eq!(payout.to, actor(1));
    assert!(matches!(deal.complete(payout, true), Reply::RefundProcessed));
    assert_eq!(deal.get_escrow(id).unwrap().status, EscrowStatus::Refunded);
}

#[test]
fn actor_ids() {
    assert!(ActorId::zero().is_zero());
    assert!(!actor(1).is_zero());
    let mut bytes = [0u8; 32];
    bytes[31] = 1;
    assert!(!ActorId::new(bytes).is_zero());
    assert_eq!(ActorId::new(bytes).into_bytes(), bytes);
    assert_ne!(actor(1), actor(2));
    assert_eq!(actor(3), actor(3));
}

#[test]
fn program_transfer_gas_is_half_of_available() {
    assert_eq!(safe_deal::safe_deal::transfer_gas_limit(1_000), 500);
    assert_eq!(safe_deal::safe_deal::transfer_gas_limit(7), 3);
    assert_eq!(safe_deal::safe_deal::transfer_gas_limit(0), 0);
}
