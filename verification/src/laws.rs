//! Properties of the escrow book that span operations.

use vstd::prelude::*;
use crate::actor::ActorId;
use crate::safe_deal::{Reply, create_outcome, settled_reply, settles_without_failure};
use crate::service::{service_create_outcome, settled_event};
use crate::state::{EscrowBook, deadline, saturating_next};
use crate::types::{ESCROW_FEE, Escrow, EscrowStatus, Payout, PayoutKind, SafeDealError, SafeDealEvent};

verus! {

/// A successful creation stores, under the id it returns, a pending escrow
/// that holds the attached value minus the fee, and reading that id gives
/// it back.
pub proof fn law_create_then_get(
    book: EscrowBook,
    buyer: ActorId,
    value: u128,
    block: u32,
    seller: ActorId,
    timeout_blocks: u32,
)
    requires
        book.wf(),
        create_outcome(book, seller, value) is Ok,
    ensures
        ({
            let id = create_outcome(book, seller, value)->Ok_0;
            let after = book.opened(buyer, seller, (value - ESCROW_FEE) as u128, block, timeout_blocks);
            &&& after.wf()
            &&& after.lookup(id) == Some(
                Escrow {
                    escrow_id: id,
                    buyer,
                    seller,
                    amount: (value - ESCROW_FEE) as u128,
                    timeout_at: deadline(block, timeout_blocks),
                    status: EscrowStatus::Pending,
                    created_at: block,
                },
            )
            &&& after.lookup(id).unwrap().amount + ESCROW_FEE == value
        }),
{
}

/// While ids are left, a creation takes a fresh id and leaves every existing
/// escrow as it was.
pub proof fn law_create_keeps_existing(
    book: EscrowBook,
    buyer: ActorId,
    seller: ActorId,
    amount: u128,
    block: u32,
    timeout_blocks: u32,
    id: u64,
)
    requires
        book.wf(),
        book.next_escrow_id < u64::MAX,
    ensures
        !book.escrows.contains_key(book.next_escrow_id),
        book.opened(buyer, seller, amount, block, timeout_blocks).next_escrow_id == book.next_escrow_id + 1,
        id != book.next_escrow_id ==> book.opened(buyer, seller, amount, block, timeout_blocks).lookup(id)
            == book.lookup(id),
        book.escrows.contains_key(id) ==> book.opened(buyer, seller, amount, block, timeout_blocks).lookup(id)
            == book.lookup(id),
{
}

/// Only the buyer can release an escrow, only while it is pending, and the
/// release pays the seller exactly the amount held.
pub proof fn law_only_buyer_releases(book: EscrowBook, caller: ActorId, id: u64)
    requires
        book.confirm_check(caller, id) is Ok,
    ensures
        ({
            let p = book.confirm_check(caller, id)->Ok_0;
            let e = book.lookup(id).unwrap();
            &&& book.lookup(id) is Some
            &&& e.buyer == caller
            &&& e.status == EscrowStatus::Pending
            &&& p == Payout { escrow_id: id, to: e.seller, amount: e.amount, kind: PayoutKind::Release }
        }),
{
}

/// A refund is granted only from the timeout block on, only while the escrow
/// is pending, and pays the buyer exactly the amount held, whoever asks.
pub proof fn law_refund_only_after_timeout(book: EscrowBook, block: u32, id: u64)
    requires
        book.refund_check(block, id) is Ok,
    ensures
        ({
            let p = book.refund_check(block, id)->Ok_0;
            let e = book.lookup(id).unwrap();
            &&& book.lookup(id) is Some
            &&& e.timeout_at <= block
            &&& e.status == EscrowStatus::Pending
            &&& p == Payout { escrow_id: id, to: e.buyer, amount: e.amount, kind: PayoutKind::Refund }
        }),
{
}

/// Once an escrow has been released or refunded, neither a confirmation nor
/// a refund is granted on it again, whoever asks and whenever.
pub proof fn law_closed_escrow_pays_nothing(book: EscrowBook, id: u64, caller: ActorId, block: u32)
    requires
        book.lookup(id) is Some,
        book.lookup(id).unwrap().status != EscrowStatus::Pending,
    ensures
        book.confirm_check(caller, id) is Err,
        book.refund_check(block, id) == Err::<Payout, SafeDealError>(SafeDealError::EscrowAlreadyCompleted),
{
}

/// A deposit leaves at most once: after a granted payout has been settled,
/// its escrow is closed with the payout's final status, and no further
/// confirmation or refund of it is granted.
pub proof fn law_payout_settles_once(book: EscrowBook, p: Payout, caller: ActorId, block: u32)
    requires
        book.wf(),
        book.is_due(p),
    ensures
        book.settled(p).wf(),
        book.settled(p).lookup(p.escrow_id) == Some(
            Escrow { status: p.kind.spec_final_status(), ..book.lookup(p.escrow_id).unwrap() },
        ),
        book.settled(p).confirm_check(caller, p.escrow_id) is Err,
        book.settled(p).refund_check(block, p.escrow_id) == Err::<Payout, SafeDealError>(
            SafeDealError::EscrowAlreadyCompleted,
        ),
{
}

/// Settling a payout changes nothing but the status of its own escrow.
pub proof fn law_settle_touches_only_its_escrow(book: EscrowBook, p: Payout, id: u64)
    requires
        book.wf(),
    ensures
        book.settled(p).wf(),
        book.settled(p).next_escrow_id == book.next_escrow_id,
        id != p.escrow_id ==> book.settled(p).lookup(id) == book.lookup(id),
        book.lookup(p.escrow_id) is Some ==> book.settled(p).lookup(p.escrow_id) == Some(
            Escrow { status: p.kind.spec_final_status(), ..book.lookup(p.escrow_id).unwrap() },
        ),
        book.lookup(p.escrow_id) is None ==> book.settled(p) == book,
{
}

/// A closed escrow never changes again: neither settling a granted payout nor
/// (while ids are left) creating a new escrow alters it.
pub proof fn law_closed_escrow_is_final(
    book: EscrowBook,
    id: u64,
    p: Payout,
    buyer: ActorId,
    seller: ActorId,
    amount: u128,
    block: u32,
    timeout_blocks: u32,
)
    requires
        book.wf(),
        book.lookup(id) is Some,
        book.lookup(id).unwrap().status != EscrowStatus::Pending,
    ensures
        book.is_due(p) ==> book.settled(p).lookup(id) == book.lookup(id),
        book.next_escrow_id < u64::MAX ==> book.opened(buyer, seller, amount, block, timeout_blocks).lookup(id)
            == book.lookup(id),
{
    if book.is_due(p) {
        if p.escrow_id == id {
            if exists|caller: ActorId| book.confirm_check(caller, p.escrow_id) == Ok::<Payout, SafeDealError>(p) {
                let caller = choose|caller: ActorId|
                    book.confirm_check(caller, p.escrow_id) == Ok::<Payout, SafeDealError>(p);
                assert(book.confirm_check(caller, p.escrow_id) is Ok);
            } else {
                let b = choose|b: u32| book.refund_check(b, p.escrow_id) == Ok::<Payout, SafeDealError>(p);
                assert(book.refund_check(b, p.escrow_id) is Ok);
            }
        }
    }
}

/// How a call of the library can change the book. A successful creation
/// opens an escrow and a settled payout closes one; failed calls, checks and
/// queries change nothing (their contracts leave the book as it was).
pub enum BookChange {
    Open { buyer: ActorId, seller: ActorId, amount: u128, block: u32, timeout_blocks: u32 },
    Settle(Payout),
}

/// The book after one change.
pub open spec fn changed(book: EscrowBook, c: BookChange) -> EscrowBook {
    match c {
        BookChange::Open { buyer, seller, amount, block, timeout_blocks } => book.opened(
            buyer,
            seller,
            amount,
            block,
            timeout_blocks,
        ),
        BookChange::Settle(p) => book.settled(p),
    }
}

/// Whether the library lets the change happen: a payout is settled only once
/// a check has granted it.
pub open spec fn allowed(book: EscrowBook, c: BookChange) -> bool {
    match c {
        BookChange::Open { .. } => true,
        BookChange::Settle(p) => book.is_due(p),
    }
}

/// The book after a sequence of changes.
pub open spec fn run(book: EscrowBook, cs: Seq<BookChange>) -> EscrowBook
    decreases cs.len(),
{
    if cs.len() == 0 {
        book
    } else {
        run(changed(book, cs[0]), cs.drop_first())
    }
}

/// Whether every change of the sequence is allowed where it happens.
pub open spec fn allowed_run(book: EscrowBook, cs: Seq<BookChange>) -> bool
    decreases cs.len(),
{
    cs.len() == 0 || (allowed(book, cs[0]) && allowed_run(changed(book, cs[0]), cs.drop_first()))
}

/// How many escrows a sequence of changes opens.
pub open spec fn opens(cs: Seq<BookChange>) -> nat
    decreases cs.len(),
{
    if cs.len() == 0 {
        0
    } else {
        (if cs[0] is Open {
            1nat
        } else {
            0nat
        }) + opens(cs.drop_first())
    }
}

/// Whatever the library does to a well-formed book keeps it well-formed.
pub proof fn law_run_keeps_wf(book: EscrowBook, cs: Seq<BookChange>)
    requires
        book.wf(),
    ensures
        run(book, cs).wf(),
    decreases cs.len(),
{
    if cs.len() > 0 {
        law_run_keeps_wf(changed(book, cs[0]), cs.drop_first());
    }
}

/// Ids are handed out one after the other: whatever happens in between, the
/// next id has grown by exactly the number of escrows opened, so the next
/// successful creation (by the program or by the service) gets that id.
/// Failed creations, checks, settlements and queries take no id.
pub proof fn law_ids_consecutive(
    book: EscrowBook,
    cs: Seq<BookChange>,
    buyer: ActorId,
    program_id: ActorId,
    value: u128,
    block: u32,
    seller: ActorId,
    timeout_blocks: u32,
)
    requires
        book.next_escrow_id + opens(cs) <= u64::MAX,
    ensures
        run(book, cs).next_escrow_id == book.next_escrow_id + opens(cs),
        create_outcome(run(book, cs), seller, value) is Ok ==> create_outcome(run(book, cs), seller, value)->Ok_0
            == book.next_escrow_id + opens(cs),
        service_create_outcome(run(book, cs), buyer, program_id, value, block, seller, timeout_blocks) is Ok
            ==> service_create_outcome(
            run(book, cs),
            buyer,
            program_id,
            value,
            block,
            seller,
            timeout_blocks,
        )->Ok_0.0 == book.next_escrow_id + opens(cs),
    decreases cs.len(),
{
    if cs.len() > 0 {
        law_ids_consecutive(
            changed(book, cs[0]),
            cs.drop_first(),
            buyer,
            program_id,
            value,
            block,
            seller,
            timeout_blocks,
        );
    }
}

/// No double spending: once an escrow has been released or refunded (and its
/// id was not the last one of a full counter), no later sequence of calls
/// changes it or pays it out again. Its buyer's confirmation is refused as
/// already completed, anyone else's as unauthorized, and every refund as
/// already completed.
pub proof fn law_closed_escrow_stays_closed(
    book: EscrowBook,
    cs: Seq<BookChange>,
    id: u64,
    caller: ActorId,
    block: u32,
)
    requires
        book.wf(),
        allowed_run(book, cs),
        book.lookup(id) is Some,
        book.lookup(id).unwrap().status != EscrowStatus::Pending,
        id < book.next_escrow_id,
    ensures
        run(book, cs).lookup(id) == book.lookup(id),
        run(book, cs).confirm_check(caller, id) is Err,
        caller == book.lookup(id).unwrap().buyer ==> run(book, cs).confirm_check(caller, id) == Err::<
            Payout,
            SafeDealError,
        >(SafeDealError::EscrowAlreadyCompleted),
        run(book, cs).refund_check(block, id) == Err::<Payout, SafeDealError>(
            SafeDealError::EscrowAlreadyCompleted,
        ),
    decreases cs.len(),
{
    if cs.len() > 0 {
        let next = changed(book, cs[0]);
        match cs[0] {
            BookChange::Open { .. } => {},
            BookChange::Settle(p) => {
                if p.escrow_id == id {
                    if exists|c: ActorId| book.confirm_check(c, p.escrow_id) == Ok::<Payout, SafeDealError>(p) {
                        let c = choose|c: ActorId|
                            book.confirm_check(c, p.escrow_id) == Ok::<Payout, SafeDealError>(p);
                        assert(book.confirm_check(c, p.escrow_id) is Ok);
                    } else {
                        let b = choose|b: u32| book.refund_check(b, p.escrow_id) == Ok::<Payout, SafeDealError>(p);
                        assert(book.refund_check(b, p.escrow_id) is Ok);
                    }
                }
            },
        }
        assert(next.lookup(id) == book.lookup(id));
        law_closed_escrow_stays_closed(next, cs.drop_first(), id, caller, block);
    }
}

/// When does a confirmation succeed: whenever the escrow exists, is pending
/// and the caller is its buyer, the confirmation is granted, and the payout
/// releases the escrow's whole amount to its seller. An unknown id is refused
/// as invalid, a caller other than the buyer as unauthorized, and the buyer of
/// a closed escrow as already completed.
pub proof fn law_buyer_confirmation_is_granted(book: EscrowBook, caller: ActorId, id: u64)
    ensures
        book.escrows.contains_key(id) && book.escrows[id].status == EscrowStatus::Pending && caller
            == book.escrows[id].buyer ==> book.confirm_check(caller, id) == Ok::<Payout, SafeDealError>(
            Payout { escrow_id: id, to: book.escrows[id].seller, amount: book.escrows[id].amount, kind: PayoutKind::Release },
        ),
        !book.escrows.contains_key(id) ==> book.confirm_check(caller, id) == Err::<Payout, SafeDealError>(
            SafeDealError::InvalidEscrowId,
        ),
        book.escrows.contains_key(id) && caller != book.escrows[id].buyer ==> book.confirm_check(caller, id)
            == Err::<Payout, SafeDealError>(SafeDealError::UnauthorizedActor),
        book.escrows.contains_key(id) && caller == book.escrows[id].buyer && book.escrows[id].status
            != EscrowStatus::Pending ==> book.confirm_check(caller, id) == Err::<Payout, SafeDealError>(
            SafeDealError::EscrowAlreadyCompleted,
        ),
{
}

/// When does a refund succeed: for every block from the escrow's timeout on,
/// a pending escrow is refunded, whoever asks, and the payout returns its
/// whole amount to its buyer. Before the timeout a pending escrow is refused
/// as not yet timed out; an unknown id is refused as invalid.
pub proof fn law_refund_is_granted_after_timeout(book: EscrowBook, block: u32, id: u64)
    ensures
        book.escrows.contains_key(id) && book.escrows[id].status == EscrowStatus::Pending && block
            >= book.escrows[id].timeout_at ==> book.refund_check(block, id) == Ok::<Payout, SafeDealError>(
            Payout { escrow_id: id, to: book.escrows[id].buyer, amount: book.escrows[id].amount, kind: PayoutKind::Refund },
        ),
        book.escrows.contains_key(id) && book.escrows[id].status == EscrowStatus::Pending && block
            < book.escrows[id].timeout_at ==> book.refund_check(block, id) == Err::<Payout, SafeDealError>(
            SafeDealError::TimeoutNotReached,
        ),
        !book.escrows.contains_key(id) ==> book.refund_check(block, id) == Err::<Payout, SafeDealError>(
            SafeDealError::InvalidEscrowId,
        ),
{
}

/// An identifier is the zero identifier exactly when all 32 of its bytes are
/// zero: one non-zero byte anywhere makes it a real address, and any two zero
/// identifiers are the same.
pub proof fn law_zero_id_is_all_zero_bytes(a: ActorId, b: ActorId)
    ensures
        a.spec_is_zero() <==> a.bytes@ == Seq::new(32, |_i: int| 0u8),
        (exists|i: int| 0 <= i < 32 && a.bytes[i] != 0) ==> !a.spec_is_zero(),
        a.spec_is_zero() && b.spec_is_zero() ==> a == b,
{
    if a.spec_is_zero() {
        assert(a.bytes@ =~= Seq::new(32, |_i: int| 0u8));
    }
    if a.bytes@ == Seq::new(32, |_i: int| 0u8) {
        assert forall|i: int| 0 <= i < 32 implies a.bytes[i] == 0 by {
            assert(a.bytes@[i] == 0);
        }
    }
    if a.spec_is_zero() && b.spec_is_zero() {
        assert(a.bytes =~= b.bytes);
    }
}

/// When does a creation succeed: with at least the fee attached and a seller
/// that has some non-zero byte, the program creates the escrow under the next
/// id; the service does so too unless the request comes from the program
/// itself.
pub proof fn law_creation_is_granted(
    book: EscrowBook,
    source: ActorId,
    program_id: ActorId,
    value: u128,
    block: u32,
    seller: ActorId,
    timeout_blocks: u32,
)
    requires
        exists|i: int| 0 <= i < 32 && seller.bytes[i] != 0,
        value >= ESCROW_FEE,
    ensures
        create_outcome(book, seller, value) == Ok::<u64, SafeDealError>(book.next_escrow_id),
        source != program_id ==> service_create_outcome(
            book,
            source,
            program_id,
            value,
            block,
            seller,
            timeout_blocks,
        ) is Ok && service_create_outcome(book, source, program_id, value, block, seller, timeout_blocks)->Ok_0.0
            == book.next_escrow_id,
{
}

/// What a listing by buyer holds, stated on the buyer field: every escrow in
/// it is stored as listed and was bought by `buyer`, and every stored escrow
/// bought by `buyer`, whatever its status, is in it.
pub proof fn law_buyer_listing(book: EscrowBook, r: Seq<Escrow>, buyer: ActorId)
    requires
        book.lists_exactly(r, buyer, false),
    ensures
        forall|i: int, j: int| 0 <= i < j < r.len() ==> r[i].escrow_id < r[j].escrow_id,
        forall|i: int|
            0 <= i < r.len() ==> r[i].buyer == buyer && book.escrows.contains_key(r[i].escrow_id)
                && book.escrows[r[i].escrow_id] == r[i],
        forall|id: u64|
            book.escrows.contains_key(id) && book.escrows[id].buyer == buyer ==> exists|i: int|
                0 <= i < r.len() && r[i].escrow_id == id,
{
    assert forall|i: int| 0 <= i < r.len() implies r[i].buyer == buyer && book.escrows.contains_key(r[i].escrow_id)
        && book.escrows[r[i].escrow_id] == r[i] by {
        assert(book.escrows.contains_key(r[i].escrow_id));
    }
    assert forall|id: u64| book.escrows.contains_key(id) && book.escrows[id].buyer == buyer implies exists|i: int|
        0 <= i < r.len() && r[i].escrow_id == id by {
        assert(book.escrows.contains_key(id));
    }
}

/// What a listing by seller holds, stated on the seller field: every escrow
/// in it is stored as listed and sold by `seller`, and every stored escrow
/// sold by `seller`, pending, released or refunded, is in it.
pub proof fn law_seller_listing(book: EscrowBook, r: Seq<Escrow>, seller: ActorId)
    requires
        book.lists_exactly(r, seller, true),
    ensures
        forall|i: int, j: int| 0 <= i < j < r.len() ==> r[i].escrow_id < r[j].escrow_id,
        forall|i: int|
            0 <= i < r.len() ==> r[i].seller == seller && book.escrows.contains_key(r[i].escrow_id)
                && book.escrows[r[i].escrow_id] == r[i],
        forall|id: u64|
            book.escrows.contains_key(id) && book.escrows[id].seller == seller ==> exists|i: int|
                0 <= i < r.len() && r[i].escrow_id == id,
{
    assert forall|i: int| 0 <= i < r.len() implies r[i].seller == seller && book.escrows.contains_key(r[i].escrow_id)
        && book.escrows[r[i].escrow_id] == r[i] by {
        assert(book.escrows.contains_key(r[i].escrow_id));
    }
    assert forall|id: u64| book.escrows.contains_key(id) && book.escrows[id].seller == seller implies exists|i: int|
        0 <= i < r.len() && r[i].escrow_id == id by {
        assert(book.escrows.contains_key(id));
    }
}

/// When is a creation refused: the program refuses a zero seller first and
/// then a value below the fee (1 VARA, 10^12 units); the service refuses a
/// request from the program itself first, then a value below the fee, then a
/// zero seller. A refused creation takes no id.
pub proof fn law_creation_is_refused(
    book: EscrowBook,
    source: ActorId,
    program_id: ActorId,
    value: u128,
    block: u32,
    seller: ActorId,
    timeout_blocks: u32,
)
    ensures
        ESCROW_FEE == 1_000_000_000_000,
        (forall|i: int| 0 <= i < 32 ==> seller.bytes[i] == 0) ==> create_outcome(book, seller, value) == Err::<
            u64,
            SafeDealError,
        >(SafeDealError::SellerCannotBeZero),
        (exists|i: int| 0 <= i < 32 && seller.bytes[i] != 0) && value < ESCROW_FEE ==> create_outcome(
            book,
            seller,
            value,
        ) == Err::<u64, SafeDealError>(SafeDealError::InsufficientFunds),
        source == program_id ==> service_create_outcome(book, source, program_id, value, block, seller, timeout_blocks)
            == Err::<(u64, SafeDealEvent), SafeDealError>(SafeDealError::SelfLoop),
        source != program_id && value < ESCROW_FEE ==> service_create_outcome(
            book,
            source,
            program_id,
            value,
            block,
            seller,
            timeout_blocks,
        ) == Err::<(u64, SafeDealEvent), SafeDealError>(SafeDealError::InsufficientFunds),
        source != program_id && value >= ESCROW_FEE && (forall|i: int| 0 <= i < 32 ==> seller.bytes[i] == 0)
            ==> service_create_outcome(book, source, program_id, value, block, seller, timeout_blocks) == Err::<
            (u64, SafeDealEvent),
            SafeDealError,
        >(SafeDealError::SellerCannotBeZero),
{
}

/// The refund deadline is the creation block plus the timeout, capped at the
/// last block number; the id counter moves on by one and stays at its last
/// value once full.
pub proof fn law_deadline_and_next_id(block: u32, timeout_blocks: u32, id: u64)
    ensures
        block + timeout_blocks <= u32::MAX ==> deadline(block, timeout_blocks) == block + timeout_blocks,
        block + timeout_blocks > u32::MAX ==> deadline(block, timeout_blocks) == u32::MAX,
        deadline(block, timeout_blocks) >= block,
        id < u64::MAX ==> saturating_next(id) == id + 1,
        id == u64::MAX ==> saturating_next(id) == id,
{
}

/// What settling means: a release closes the escrow as completed and a refund
/// as refunded. The program answers a release with `DeliveryConfirmed` and a
/// refund with `RefundProcessed`; it settles a zero amount even without a
/// transfer, and a non-zero amount only when the transfer went through. The
/// service announces a release with the seller paid and a refund with the
/// buyer paid, each with the payout's id and amount.
pub proof fn law_settlement_outcomes(p: Payout, transfer_ok: bool)
    ensures
        PayoutKind::Release.spec_final_status() == EscrowStatus::Completed,
        PayoutKind::Refund.spec_final_status() == EscrowStatus::Refunded,
        settled_reply(PayoutKind::Release) == Reply::DeliveryConfirmed,
        settled_reply(PayoutKind::Refund) == Reply::RefundProcessed,
        settles_without_failure(p, true),
        p.amount == 0 ==> settles_without_failure(p, transfer_ok),
        p.amount != 0 && !transfer_ok ==> !settles_without_failure(p, transfer_ok),
        p.kind == PayoutKind::Release ==> settled_event(p) == (SafeDealEvent::DeliveryConfirmed {
            id: p.escrow_id,
            seller: p.to,
            amount: p.amount,
        }),
        p.kind == PayoutKind::Refund ==> settled_event(p) == (SafeDealEvent::EscrowRefunded {
            id: p.escrow_id,
            buyer: p.to,
            amount: p.amount,
        }),
{
}

} // verus!
