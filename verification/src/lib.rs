//! SafeDeal: a two-party escrow book.
//!
//! A buyer deposits value for a seller; the deposit (minus a flat fee) is
//! released to the seller when the buyer confirms delivery, or returned to
//! the buyer by anyone once the timeout block has been reached.
//!
//! The library holds the escrow state machine. The runtime around it (reading
//! the message source, attached value and block height, and sending value)
//! hands plain values in and performs the transfers that the library asks for.

pub mod actor;
pub mod types;
pub mod state;
pub mod safe_deal;
pub mod service;
pub mod laws;
