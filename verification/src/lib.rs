//! A verified fungible-token ledger.
//!
//! The crate keeps per-account balances of a fungible asset, enforces
//! conservation of the total supply across every operation, manages the
//! storage cost of account registration, and implements the synchronous
//! transfer as well as the asynchronous transfer-and-call protocol with its
//! resolution step.  Every operation validates its inputs before mutating
//! anything, so a failed call leaves the ledger unchanged.
//!
//! The blockchain host runtime (call context, attached deposits, storage
//! measurement, promise scheduling) is an external collaborator: callers hand
//! the relevant host values in as plain arguments.

pub mod contract;
pub mod errors;
pub mod events;
pub mod ledger;
pub mod laws;
pub mod metadata;
pub mod storage;
