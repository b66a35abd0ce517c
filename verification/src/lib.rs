//! A minimal transactional ledger.
//!
//! The ledger records transfer events into a fixed-capacity, append-only
//! store, keeps a monotonically increasing count of recorded transfers, and
//! hands one notification per successful recording to every registered
//! listener.  A small registry stub for tradable token identifiers and two
//! read-only token-account projections sit beside the core.

pub mod counter;
pub mod errors;
pub mod exchange;
pub mod history;
pub mod identity;
pub mod ledger;
pub mod notify;
pub mod record;
