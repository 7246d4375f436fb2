//! The escrow book: every escrow by id, and the id the next one will get.

use std::collections::BTreeMap;
use vstd::prelude::*;
use crate::actor::ActorId;
use crate::types::{Escrow, EscrowStatus, Payout, PayoutKind, SafeDealError};

verus! {

/// `x + 1`, staying at `u64::MAX` once it is reached.
pub open spec fn saturating_next(x: u64) -> u64 {
    if x == u64::MAX {
        x
    } else {
        (x + 1) as u64
    }
}

/// The block height `timeout_blocks` after `block`, capped at `u32::MAX`.
pub open spec fn deadline(block: u32, timeout_blocks: u32) -> u32 {
    if block + timeout_blocks > u32::MAX {
        u32::MAX
    } else {
        (block + timeout_blocks) as u32
    }
}

/// Whether `party` is the buyer of `e` (or, with `as_seller`, its seller).
pub open spec fn involves(e: Escrow, party: ActorId, as_seller: bool) -> bool {
    if as_seller {
        e.seller == party
    } else {
        e.buyer == party
    }
}

/// The abstract escrow book.
pub struct EscrowBook {
    pub escrows: Map<u64, Escrow>,
    pub next_escrow_id: u64,
}

impl EscrowBook {
    /// Every escrow sits under its own id, ids start at 1, and ids below
    /// `next_escrow_id` are the ones handed out (the last id, `u64::MAX`,
    /// stays in use once the counter has saturated).
    pub open spec fn wf(self) -> bool {
        &&& 1 <= self.next_escrow_id
        &&& forall|id: u64| #[trigger]
            self.escrows.contains_key(id) ==> {
                &&& self.escrows[id].escrow_id == id
                &&& 1 <= id
                &&& (id < self.next_escrow_id || (id == u64::MAX && self.next_escrow_id
                    == u64::MAX))
            }
    }

    /// The escrow under `id`, if any.
    pub open spec fn lookup(self, id: u64) -> Option<Escrow> {
        if self.escrows.contains_key(id) {
            Some(self.escrows[id])
        } else {
            None
        }
    }

    /// The escrow that the next creation stores.
    pub open spec fn new_escrow(
        self,
        buyer: ActorId,
        seller: ActorId,
        amount: u128,
        block: u32,
        timeout_blocks: u32,
    ) -> Escrow {
        Escrow {
            escrow_id: self.next_escrow_id,
            buyer,
            seller,
            amount,
            timeout_at: deadline(block, timeout_blocks),
            status: EscrowStatus::Pending,
            created_at: block,
        }
    }

    /// The book after a new escrow has been stored under the next id.
    pub open spec fn opened(
        self,
        buyer: ActorId,
        seller: ActorId,
        amount: u128,
        block: u32,
        timeout_blocks: u32,
    ) -> EscrowBook {
        EscrowBook {
            escrows: self.escrows.insert(
                self.next_escrow_id,
                self.new_escrow(buyer, seller, amount, block, timeout_blocks),
            ),
            next_escrow_id: saturating_next(self.next_escrow_id),
        }
    }

    /// What confirming delivery of escrow `id` by `caller` decides: the
    /// payout to the seller, or why there is none.
    pub open spec fn confirm_check(self, caller: ActorId, id: u64) -> Result<Payout, SafeDealError> {
        match self.lookup(id) {
            None => Err(SafeDealError::InvalidEscrowId),
            Some(e) => if e.buyer != caller {
                Err(SafeDealError::UnauthorizedActor)
            } else if e.status != EscrowStatus::Pending {
                Err(SafeDealError::EscrowAlreadyCompleted)
            } else {
                Ok(Payout { escrow_id: id, to: e.seller, amount: e.amount, kind: PayoutKind::Release })
            },
        }
    }

    /// What a refund of escrow `id` at block `block` decides: the payout back
    /// to the buyer, or why there is none. The caller plays no part.
    pub open spec fn refund_check(self, block: u32, id: u64) -> Result<Payout, SafeDealError> {
        match self.lookup(id) {
            None => Err(SafeDealError::InvalidEscrowId),
            Some(e) => if e.status != EscrowStatus::Pending {
                Err(SafeDealError::EscrowAlreadyCompleted)
            } else if block < e.timeout_at {
                Err(SafeDealError::TimeoutNotReached)
            } else {
                Ok(Payout { escrow_id: id, to: e.buyer, amount: e.amount, kind: PayoutKind::Refund })
            },
        }
    }

    /// Whether `p` is a payout that one of the two checks grants on this book.
    pub open spec fn is_due(self, p: Payout) -> bool {
        ||| exists|caller: ActorId| self.confirm_check(caller, p.escrow_id) == Ok::<Payout, SafeDealError>(p)
        ||| exists|block: u32| self.refund_check(block, p.escrow_id) == Ok::<Payout, SafeDealError>(p)
    }

    /// The book once the payout `p` has been sent: its escrow takes its
    /// final status.
    pub open spec fn settled(self, p: Payout) -> EscrowBook {
        if self.escrows.contains_key(p.escrow_id) {
            EscrowBook {
                escrows: self.escrows.insert(
                    p.escrow_id,
                    Escrow { status: p.kind.spec_final_status(), ..self.escrows[p.escrow_id] },
                ),
                next_escrow_id: self.next_escrow_id,
            }
        } else {
            self
        }
    }

    /// Whether `r` lists exactly the escrows that involve `party` (as buyer,
    /// or as seller with `as_seller`), each once, in increasing id order.
    pub open spec fn lists_exactly(self, r: Seq<Escrow>, party: ActorId, as_seller: bool) -> bool {
        &&& forall|i: int, j: int|
            0 <= i < j < r.len() ==> #[trigger] r[i].escrow_id < #[trigger] r[j].escrow_id
        &&& forall|i: int|
            0 <= i < r.len() ==> {
                &&& self.escrows.contains_key(#[trigger] r[i].escrow_id)
                &&& self.escrows[r[i].escrow_id] == r[i]
                &&& involves(r[i], party, as_seller)
            }
        &&& forall|id: u64|
            #[trigger] self.escrows.contains_key(id) && involves(self.escrows[id], party, as_seller)
                ==> exists|i: int| 0 <= i < r.len() && #[trigger] r[i].escrow_id == id
    }
}

/// The keys of a `BTreeMap` walk come in increasing order.
proof fn lemma_increasing_keys(keys: Seq<u64>)
    requires
        vstd::std_specs::btree::increasing_seq(keys),
    ensures
        forall|i: int, j: int| 0 <= i < j < keys.len() ==> keys[i] < keys[j],
{
    assert(vstd::laws_cmp::obeys_cmp::<u64>());
    assert forall|i: int, j: int| 0 <= i < j < keys.len() implies keys[i] < keys[j] by {
        assert(vstd::std_specs::cmp::OrdSpec::cmp_spec(&keys[i], &keys[j]) is Less);
    }
}

/// The escrow book as the program stores it.
pub struct SafeDealState {
    escrows: BTreeMap<u64, Escrow>,
    next_escrow_id: u64,
}

impl View for SafeDealState {
    type V = EscrowBook;

    closed spec fn view(&self) -> EscrowBook {
        EscrowBook { escrows: self.escrows@, next_escrow_id: self.next_escrow_id }
    }
}

impl SafeDealState {
    /// Every stored book satisfies the book invariant.
    #[verifier::type_invariant]
    pub(crate) open spec fn inv(self) -> bool {
        self@.wf()
    }

    /// An empty book whose first escrow will get id 1.
    pub fn new() -> (s: SafeDealState)
        ensures
            s@.wf(),
            s@.escrows == Map::<u64, Escrow>::empty(),
            s@.next_escrow_id == 1,
    {
        SafeDealState { escrows: BTreeMap::new(), next_escrow_id: 1 }
    }

    /// The id the next escrow will get.
    pub fn next_escrow_id(&self) -> (id: u64)
        ensures
            id == self@.next_escrow_id,
    {
        self.next_escrow_id
    }

    /// Whether the book holds no escrow.
    pub fn is_empty(&self) -> (r: bool)
        ensures
            r == self@.escrows.is_empty(),
    {
        self.escrows.is_empty()
    }

    /// Stores a new pending escrow under the next id and returns that id.
    pub fn open_escrow(
        &mut self,
        buyer: ActorId,
        seller: ActorId,
        amount: u128,
        block: u32,
        timeout_blocks: u32,
    ) -> (id: u64)
        ensures
            final(self)@.wf(),
            id == old(self)@.next_escrow_id,
            final(self)@ == old(self)@.opened(buyer, seller, amount, block, timeout_blocks),
    {
        let id = self.next_escrow_id;
        let escrow = Escrow {
            escrow_id: id,
            buyer,
            seller,
            amount,
            timeout_at: block.saturating_add(timeout_blocks),
            status: EscrowStatus::Pending,
            created_at: block,
        };
        proof {
            use_type_invariant(&*self);
        }
        let mut escrows = BTreeMap::new();
        std::mem::swap(&mut escrows, &mut self.escrows);
        self.next_escrow_id = self.next_escrow_id.saturating_add(1);
        escrows.insert(id, escrow);
        self.escrows = escrows;
        id
    }

    /// The escrow under `escrow_id`, if any.
    pub fn get_escrow(&self, escrow_id: u64) -> (r: Option<Escrow>)
        ensures
            r == self@.lookup(escrow_id),
    {
        match self.escrows.get(&escrow_id) {
            Some(e) => Some(*e),
            None => None,
        }
    }

    /// Decides whether `caller` may confirm delivery of escrow `escrow_id`,
    /// and if so the payout to its seller. The book is not changed: the
    /// escrow closes only once the payout has been sent (see `settle`).
    pub fn check_confirm(&self, caller: ActorId, escrow_id: u64) -> (r: Result<Payout, SafeDealError>)
        ensures
            r == self@.confirm_check(caller, escrow_id),
    {
        match self.escrows.get(&escrow_id) {
            None => Err(SafeDealError::InvalidEscrowId),
            Some(e) => {
                if e.buyer != caller {
                    Err(SafeDealError::UnauthorizedActor)
                } else if e.status != EscrowStatus::Pending {
                    Err(SafeDealError::EscrowAlreadyCompleted)
                } else {
                    Ok(Payout { escrow_id, to: e.seller, amount: e.amount, kind: PayoutKind::Release })
                }
            },
        }
    }

    /// Decides whether escrow `escrow_id` may be refunded at block
    /// `current_block`, and if so the payout to its buyer. The book is not
    /// changed (see `settle`).
    pub fn check_refund(&self, current_block: u32, escrow_id: u64) -> (r: Result<Payout, SafeDealError>)
        ensures
            r == self@.refund_check(current_block, escrow_id),
    {
        match self.escrows.get(&escrow_id) {
            None => Err(SafeDealError::InvalidEscrowId),
            Some(e) => {
                if e.status != EscrowStatus::Pending {
                    Err(SafeDealError::EscrowAlreadyCompleted)
                } else if current_block < e.timeout_at {
                    Err(SafeDealError::TimeoutNotReached)
                } else {
                    Ok(Payout { escrow_id, to: e.buyer, amount: e.amount, kind: PayoutKind::Refund })
                }
            },
        }
    }

    /// Records the outcome of sending `payout`, a payout that one of the
    /// checks has just granted. When the transfer went through, its escrow
    /// takes its final status; when it failed, nothing changes and the error
    /// is `TransferFailed`.
    pub fn settle(&mut self, payout: &Payout, transfer_ok: bool) -> (r: Result<(), SafeDealError>)
        requires
            old(self)@.is_due(*payout),
        ensures
            final(self)@.wf(),
            transfer_ok ==> r == Ok::<(), SafeDealError>(()) && final(self)@ == old(self)@.settled(*payout),
            !transfer_ok ==> r == Err::<(), SafeDealError>(SafeDealError::TransferFailed) && final(self)@
                == old(self)@,
    {
        proof {
            use_type_invariant(&*self);
        }
        if !transfer_ok {
            return Err(SafeDealError::TransferFailed);
        }
        let closed = match self.escrows.get(&payout.escrow_id) {
            Some(e) => Some(Escrow { status: payout.kind.final_status(), ..*e }),
            None => None,
        };
        match closed {
            Some(c) => {
                let mut escrows = BTreeMap::new();
                std::mem::swap(&mut escrows, &mut self.escrows);
                escrows.insert(payout.escrow_id, c);
                self.escrows = escrows;
            },
            None => {},
        }
        Ok(())
    }

    /// The escrows that involve `party` (as buyer, or as seller with
    /// `as_seller`), in increasing id order.
    pub fn escrows_involving(&self, party: ActorId, as_seller: bool) -> (r: Vec<Escrow>)
        ensures
            self@.lists_exactly(r@, party, as_seller),
    {
        proof {
            use_type_invariant(self);
        }
        let mut out: Vec<Escrow> = Vec::new();
        let ghost m = self.escrows@;
        let entries = self.escrows.iter();
        proof {
            let rem = vstd::std_specs::iter::IteratorSpec::remaining(&entries);
            let keys = rem.map_values(|kv: (&u64, &Escrow)| *kv.0);
            lemma_increasing_keys(keys);
            assert forall|t1: int, t2: int| 0 <= t1 < t2 < rem.len() implies *rem[t1].0 < *rem[t2].0 by {
                assert(keys[t1] == *rem[t1].0);
                assert(keys[t2] == *rem[t2].0);
            }
        }
        for pair in it: entries
            invariant
                m == self.escrows@,
                self@.wf(),
                forall|t: int|
                    0 <= t < it.seq().len() ==> m.contains_key(*(#[trigger] it.seq()[t]).0) && m[*it.seq()[t].0]
                        == *it.seq()[t].1,
                forall|t1: int, t2: int|
                    0 <= t1 < t2 < it.seq().len() ==> *(#[trigger] it.seq()[t1]).0 < *(#[trigger] it.seq()[t2]).0,
                forall|i: int, j: int|
                    0 <= i < j < out@.len() ==> #[trigger] out@[i].escrow_id < #[trigger] out@[j].escrow_id,
                forall|i: int|
                    0 <= i < out@.len() ==> {
                        &&& m.contains_key(#[trigger] out@[i].escrow_id)
                        &&& m[out@[i].escrow_id] == out@[i]
                        &&& involves(out@[i], party, as_seller)
                    },
                forall|i: int, t: int|
                    0 <= i < out@.len() && it.index() <= t < it.seq().len() ==> #[trigger] out@[i].escrow_id
                        < *(#[trigger] it.seq()[t]).0,
                forall|t: int|
                    0 <= t < it.index() && involves(*(#[trigger] it.seq()[t]).1, party, as_seller)
                        ==> exists|i: int| 0 <= i < out@.len() && #[trigger] out@[i].escrow_id == *it.seq()[t].0,
        {
            let ghost before = out@;
            let (k, e) = pair;
            assert(pair == it.seq()[it.index() as int]);
            assert(e.escrow_id == *k);
            let keep = if as_seller {
                e.seller == party
            } else {
                e.buyer == party
            };
            if keep {
                out.push(*e);
                assert(out@[out@.len() - 1].escrow_id == *k);
            }
            assert forall|t: int|
                0 <= t <= it.index() && involves(*(#[trigger] it.seq()[t]).1, party, as_seller) implies exists|i: int|
                0 <= i < out@.len() && #[trigger] out@[i].escrow_id == *it.seq()[t].0 by {
                if t < it.index() {
                    let i = choose|i: int| 0 <= i < before.len() && #[trigger] before[i].escrow_id == *it.seq()[t].0;
                    assert(out@[i] == before[i]);
                }
            }
        }
        out
    }
}

} // verus!
