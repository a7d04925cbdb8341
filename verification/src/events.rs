//! Notifications of what changed on the ledger.
//!
//! Every successful mutation hands one of these back to the caller, who
//! passes it on to whoever listens.

use vstd::prelude::*;
use crate::identity::Identity;

verus! {

/// A stream was created.
#[derive(Debug, Clone, Copy, PartialEq, Eq)]
pub struct StreamCreated {
    pub stream_id: u64,
    pub sender: Identity,
    pub recipient: Identity,
    pub total_amount: u128,
    pub start_time: u64,
    pub stop_time: u64,
}

/// The recipient withdrew `amount` from a stream.
#[derive(Debug, Clone, Copy, PartialEq, Eq)]
pub struct Withdrawn {
    pub stream_id: u64,
    pub recipient: Identity,
    pub amount: u128,
}

/// A stream was cancelled, and what was still locked was split.
#[derive(Debug, Clone, Copy, PartialEq, Eq)]
pub struct StreamCancelled {
    pub stream_id: u64,
    pub sender: Identity,
    pub recipient: Identity,
    /// What goes back to the sender.
    pub sender_balance: u128,
    /// What had accrued to the recipient and was not yet withdrawn.
    pub recipient_balance: u128,
}

} // verus!
