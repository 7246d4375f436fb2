# safe_deal

A verified two-party escrow book for a Gear (Vara) program.

- `src/actor.rs`: 32-byte account identifiers.
- `src/types.rs`: escrow records, statuses, errors, payout orders, events, the flat fee.
- `src/state.rs`: the escrow book (`SafeDealState`), its abstract view `EscrowBook`,
  its invariant, and the checked operations all front ends share.
- `src/safe_deal.rs`: the command-driven program (`SafeDeal`): one `handle` step per
  message, and `complete` once a payout transfer has been attempted.
- `src/service.rs`: the service interface (`SafeDealService`, hosted by `Program`),
  which also refuses self-sent requests and returns events.
- `src/laws.rs`: properties that span operations (a read gives back a creation,
  a deposit leaves at most once, ids are consecutive, closed escrows stay closed
  whatever calls follow, ...).
- `app/`: the Gear entry point: decodes commands, reads the message context,
  sends value transfers and encodes replies.

A payout is decided first and recorded only once the runtime has accepted the
transfer: a failed transfer leaves the escrow pending. Only a payout that a check
has just granted can be settled. The command-driven program does not send a zero
amount and settles it regardless; the service sends every payout.
