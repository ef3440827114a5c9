//! Structured event records for mint, transfer and burn.
//!
//! Events are purely observational: they never influence the ledger.  The
//! contract appends one record per logical operation, after the corresponding
//! ledger mutation commits and never before, so an observer never sees an
//! event for a mutation that was rolled back.

use vstd::prelude::*;

verus! {

/// One structured notification record, as appended to the contract's event
/// log for off-chain observers.
#[derive(Clone, Debug, PartialEq, Eq)]
pub enum Event {
    /// Tokens entered circulation on `owner_id`'s balance.
    Mint { owner_id: String, amount: u128, memo: Option<String> },
    /// `amount` moved from `sender_id` to `receiver_id`.
    Transfer { sender_id: String, receiver_id: String, amount: u128, memo: Option<String> },
    /// Tokens left circulation from `owner_id`'s balance.
    Burn { owner_id: String, amount: u128, memo: Option<String> },
}

/// The mathematical content of an [`Event`], over character sequences.
pub enum EventV {
    Mint { owner_id: Seq<char>, amount: u128, memo: Option<Seq<char>> },
    Transfer { sender_id: Seq<char>, receiver_id: Seq<char>, amount: u128, memo: Option<Seq<char>> },
    Burn { owner_id: Seq<char>, amount: u128, memo: Option<Seq<char>> },
}

impl View for Event {
    type V = EventV;

    open spec fn view(&self) -> EventV {
        match self {
            Event::Mint { owner_id, amount, memo } => EventV::Mint {
                owner_id: owner_id@,
                amount: *amount,
                memo: memo.deep_view(),
            },
            Event::Transfer { sender_id, receiver_id, amount, memo } => EventV::Transfer {
                sender_id: sender_id@,
                receiver_id: receiver_id@,
                amount: *amount,
                memo: memo.deep_view(),
            },
            Event::Burn { owner_id, amount, memo } => EventV::Burn {
                owner_id: owner_id@,
                amount: *amount,
                memo: memo.deep_view(),
            },
        }
    }
}

impl DeepView for Event {
    type V = EventV;

    open spec fn deep_view(&self) -> EventV {
        self@
    }
}

} // verus!
