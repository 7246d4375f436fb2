use safe_deal::actor::ActorId;
use safe_deal::service::{Program, SafeDealService};
use safe_deal::types::{EscrowStatus, PayoutKind, SafeDealError, SafeDealEvent};

const FEE: u128 = 1_000_000_000_000;
const AMOUNT: u128 = 5_000_000_000_000;

fn actor(n: u8) -> ActorId {
    ActorId::new([n; 32])
}

fn program_id() -> ActorId {
    actor(99)
}

#[test]
fn test_create_escrow_happy_path() {
    let mut program = Program::new();
    let buyer = actor(1);
    let seller = actor(2);
    let fee = 1_000_000_000_000u128;
    let amount = 5_000_000_000_000u128;

    let result = program.safedeal().create_escrow(buyer, program_id(), fee + amount, 1, seller, 100);
    assert!(result.is_ok(), "Create escrow should succeed");
    let (id, _) = result.unwrap();
    let escrow = program.safedeal().get_escrow(id).unwrap();
    // What the buyer paid is held as the escrow plus the retained fee.
    assert_eq!(escrow.amount + SafeDealService::get_fee(), fee + amount, "Buyer should pay fee + amount");
}

#[test]
fn test_create_escrow_insufficient_funds() {
    let mut program = Program::new();
    let insufficient = 500_000_000_000u128;
    let result = program.safedeal().create_escrow(actor(1), program_id(), insufficient, 1, actor(2), 100);
    assert!(matches!(result, Err(SafeDealError::InsufficientFunds)), "Should reject insufficient payment");
}

#[test]
fn test_create_escrow_zero_seller() {
    let mut program = Program::new();
    let fee = 1_000_000_000_000u128;
    let result = program.safedeal().create_escrow(actor(1), program_id(), fee, 1, ActorId::zero(), 100);
    assert!(matches!(result, Err(SafeDealError::SellerCannotBeZero)), "Should reject zero seller address");
}

#[test]
fn test_confirm_delivery_happy_path() {
    let mut program = Program::new();
    let buyer = actor(1);
    let seller = actor(2);
    let (escrow_id, _) = program.safedeal().create_escrow(buyer, program_id(), FEE + AMOUNT, 1, seller, 100).expect("Should create escrow");

    let payout = program.safedeal().confirm_delivery(buyer, escrow_id).expect("Confirm should succeed");
    let result = program.safedeal().settle(&payout, true);

    assert!(result.is_ok(), "Confirm should succeed");
    assert_eq!(payout.to, seller);
    assert_eq!(payout.amount, AMOUNT, "Seller should receive escrow amount");
    assert_eq!(payout.kind, PayoutKind::Release);
    assert_eq!(program.safedeal().get_escrow(escrow_id).unwrap().status, EscrowStatus::Completed);
}

#[test]
fn test_confirm_delivery_unauthorized() {
    let mut program = Program::new();
    let buyer = actor(1);
    let seller = actor(2);
    let attacker = actor(3);
    let (escrow_id, _) = program.safedeal().create_escrow(buyer, program_id(), FEE + AMOUNT, 1, seller, 100).expect("Should create escrow");

    let result = program.safedeal().confirm_delivery(attacker, escrow_id);
    assert!(matches!(result, Err(SafeDealError::UnauthorizedActor)), "Only buyer should be able to confirm");
}

#[test]
fn test_refund_on_timeout_happy_path() {
    let mut program = Program::new();
    let buyer = actor(1);
    let seller = actor(2);
    let (escrow_id, _) = program.safedeal().create_escrow(buyer, program_id(), FEE + AMOUNT, 1, seller, 50).expect("Should create escrow");

    // 100 blocks later.
    let payout = program.safedeal().refund_on_timeout(101, escrow_id).expect("Refund should succeed");
    let result = program.safedeal().settle(&payout, true);

    assert!(result.is_ok(), "Refund should succeed");
    assert_eq!(payout.to, buyer);
    assert_eq!(payout.amount, AMOUNT, "Buyer should receive refund amount");
    assert_eq!(program.safedeal().get_escrow(escrow_id).unwrap().status, EscrowStatus::Refunded);
}

#[test]
fn test_refund_before_timeout_fails() {
    let mut program = Program::new();
    let (escrow_id, _) = program.safedeal().create_escrow(actor(1), program_id(), FEE + AMOUNT, 1, actor(2), 100).expect("Should create escrow");

    // Only 10 blocks later.
    let result = program.safedeal().refund_on_timeout(11, escrow_id);
    assert!(matches!(result, Err(SafeDealError::TimeoutNotReached)), "Should reject refund before timeout");
}

#[test]
fn test_get_escrow() {
    let mut program = Program::new();
    let buyer = actor(1);
    let seller = actor(2);
    let timeout = 100u32;
    let (escrow_id, _) = program.safedeal().create_escrow(buyer, program_id(), FEE + AMOUNT, 1, seller, timeout).expect("Should create escrow");

    let escrow = program.safedeal().get_escrow(escrow_id).expect("Should get escrow");
    assert_eq!(escrow.escrow_id, escrow_id);
    assert_eq!(escrow.buyer, buyer);
    assert_eq!(escrow.seller, seller);
    assert_eq!(escrow.amount, AMOUNT);
    assert_eq!(escrow.status, EscrowStatus::Pending);
}

#[test]
fn test_get_fee() {
    let fee = SafeDealService::get_fee();
    assert_eq!(fee, 1_000_000_000_000);
}

#[test]
fn service_refuses_self_loop_first() {
    let mut service = SafeDealService::new();
    // Even with no value and a zero seller, a request from the program itself is a self-loop.
    let result = service.create_escrow(program_id(), program_id(), 0, 1, ActorId::zero(), 100);
    assert!(matches!(result, Err(SafeDealError::SelfLoop)));
    assert!(service.get_escrow(1).is_none());
}

#[test]
fn service_checks_fee_before_seller() {
    let mut service = SafeDealService::new();
    let result = service.create_escrow(actor(1), program_id(), FEE - 1, 1, ActorId::zero(), 100);
    assert!(matches!(result, Err(SafeDealError::InsufficientFunds)));
}

#[test]
fn service_creation_event() {
    let mut service = SafeDealService::new();
    let (id, event) = service.create_escrow(actor(1), program_id(), FEE + AMOUNT, 7, actor(2), 30).unwrap();
    assert_eq!(id, 1);
    match event {
        SafeDealEvent::EscrowCreated { id: eid, buyer, seller, amount, deadline } => {
            assert_eq!(eid, 1);
            assert_eq!(buyer, actor(1));
            assert_eq!(seller, actor(2));
            assert_eq!(amount, AMOUNT);
            assert_eq!(deadline, 37);
        },
        _ => panic!("expected a creation event"),
    }
}

#[test]
fn service_settlement_events() {
    let mut service = SafeDealService::new();
    let (a, _) = service.create_escrow(actor(1), program_id(), FEE + 10, 1, actor(2), 5).unwrap();
    let (b, _) = service.create_escrow(actor(3), program_id(), FEE + 20, 1, actor(4), 5).unwrap();
    let p = service.confirm_delivery(actor(1), a).unwrap();
    match service.settle(&p, true).unwrap() {
        SafeDealEvent::DeliveryConfirmed { id, seller, amount } => {
            assert_eq!((id, seller, amount), (a, actor(2), 10));
        },
        _ => panic!("expected a delivery event"),
    }
    let q = service.refund_on_timeout(6, b).unwrap();
    match service.settle(&q, true).unwrap() {
        SafeDealEvent::EscrowRefunded { id, buyer, amount } => {
            assert_eq!((id, buyer, amount), (b, actor(3), 20));
        },
        _ => panic!("expected a refund event"),
    }
}

#[test]
fn service_listings() {
    let mut service = SafeDealService::new();
    service.create_escrow(actor(1), program_id(), FEE + 1, 1, actor(2), 5).unwrap();
    service.create_escrow(actor(3), program_id(), FEE + 2, 1, actor(2), 5).unwrap();
    service.create_escrow(actor(1), program_id(), FEE + 3, 1, actor(4), 5).unwrap();
    let by_buyer: Vec<u64> = service.get_escrows_by_buyer(actor(1)).iter().map(|e| e.escrow_id).collect();
    assert_eq!(by_buyer, vec![1, 3]);
    let by_seller: Vec<u64> = service.get_escrows_by_seller(actor(2)).iter().map(|e| e.escrow_id).collect();
    assert_eq!(by_seller, vec![1, 2]);
    assert!(service.get_escrows_by_seller(actor(1)).is_empty());
}

#[test]
fn service_fee_only_refused_transfer_fails() {
    let mut service = SafeDealService::new();
    let (id, _) = service.create_escrow(actor(1), program_id(), FEE, 1, actor(2), 5).unwrap();
    // The service sends every payout, a zero amount included.
    let p = service.confirm_delivery(actor(1), id).unwrap();
    assert_eq!(p.amount, 0);
    assert!(matches!(service.settle(&p, false), Err(SafeDealError::TransferFailed)));
    assert_eq!(service.get_escrow(id).unwrap().status, EscrowStatus::Pending);
    let q = service.refund_on_timeout(6, id).unwrap();
    assert!(matches!(service.settle(&q, false), Err(SafeDealError::TransferFailed)));
    assert_eq!(service.get_escrow(id).unwrap().status, EscrowStatus::Pending);
    assert!(service.settle(&q, true).is_ok());
    assert_eq!(service.get_escrow(id).unwrap().status, EscrowStatus::Refunded);
}
