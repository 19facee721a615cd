//! A bilateral trade-proposal lifecycle engine.
//!
//! A trade record moves through a fixed set of lifecycle states, from `Draft`
//! through approval to execution or cancellation. Every transition is gated by
//! the capability of the acting identity, every mutation is validated against
//! the record's trade date, and every successful transition appends one entry,
//! with a field-level diff, to an append-only history ledger.

mod clock;
pub mod error;
pub mod history;
pub mod state;
pub mod trade;
pub mod users;
