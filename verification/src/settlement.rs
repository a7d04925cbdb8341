//! Paying out what a withdrawal or a cancellation owes.
//!
//! The ledger is updated before any value moves. What is owed is then paid by
//! the host, one transfer at a time and in a fixed order, and the first
//! transfer that fails ends the call with [`Error::TransferFailed`]. A
//! [`Settlement`] keeps track: it says which transfer to attempt next and is
//! told how each attempt went.

use vstd::prelude::*;
use crate::error::Error;
use crate::events::{StreamCancelled, Withdrawn};
use crate::identity::Identity;

verus! {

/// One payment for the host to make.
#[derive(Debug, Clone, Copy, PartialEq, Eq)]
pub struct Transfer {
    pub to: Identity,
    pub amount: u128,
}

/// The transfers that a withdrawal owes: the amount, to the recipient.
pub open spec fn withdrawal_transfers(notice: Withdrawn) -> Seq<Transfer> {
    seq![Transfer { to: notice.recipient, amount: notice.amount }]
}

/// The transfers that a cancellation owes: first the recipient's balance,
/// then the sender's, each only if it is not zero.
pub open spec fn cancellation_transfers(notice: StreamCancelled) -> Seq<Transfer> {
    let to_recipient = if notice.recipient_balance > 0 {
        seq![Transfer { to: notice.recipient, amount: notice.recipient_balance }]
    } else {
        Seq::<Transfer>::empty()
    };
    let to_sender = if notice.sender_balance > 0 {
        seq![Transfer { to: notice.sender, amount: notice.sender_balance }]
    } else {
        Seq::<Transfer>::empty()
    };
    to_recipient + to_sender
}

/// The sum of the amounts of some transfers.
pub open spec fn total_amount(transfers: Seq<Transfer>) -> nat
    decreases transfers.len(),
{
    if transfers.len() == 0 {
        0
    } else {
        total_amount(transfers.drop_last()) + transfers.last().amount as nat
    }
}

/// The progress of the payments that one call owes.
pub struct Settlement {
    due: Vec<Transfer>,
    done: usize,
    failed: bool,
}

/// What a settlement is, mathematically.
pub struct SettlementView {
    /// All that is owed, in the order of payment.
    pub due: Seq<Transfer>,
    /// How many of them have gone through.
    pub done: nat,
    /// Whether an attempt has failed.
    pub failed: bool,
}

impl SettlementView {
    /// The invariant of every settlement.
    pub open spec fn wf(self) -> bool {
        self.done <= self.due.len()
    }

    /// The settlement of `due` before any attempt.
    pub open spec fn start(due: Seq<Transfer>) -> SettlementView {
        SettlementView { due, done: 0, failed: false }
    }

    /// The transfer to attempt next: none once one has failed or all have
    /// gone through.
    pub open spec fn pending(self) -> Option<Transfer> {
        if self.failed || self.done >= self.due.len() {
            None
        } else {
            Some(self.due[self.done as int])
        }
    }

    /// Whether all that is owed has been paid.
    pub open spec fn is_complete(self) -> bool {
        !self.failed && self.done == self.due.len()
    }

    /// The settlement after the pending transfer was attempted. Without a
    /// pending transfer there is nothing to record.
    pub open spec fn after_attempt(self, succeeded: bool) -> SettlementView {
        if self.pending() is None {
            self
        } else if succeeded {
            SettlementView { done: self.done + 1, ..self }
        } else {
            SettlementView { failed: true, ..self }
        }
    }

    /// What has been paid so far.
    pub open spec fn paid(self) -> nat {
        total_amount(self.due.take(self.done as int))
    }
}

impl View for Settlement {
    type V = SettlementView;

    closed spec fn view(&self) -> SettlementView {
        SettlementView { due: self.due@, done: self.done as nat, failed: self.failed }
    }
}

impl Settlement {
    /// Whether the settlement satisfies its invariant.
    pub open spec fn wf(&self) -> bool {
        self@.wf()
    }

    /// The settlement of a withdrawal.
    pub fn of_withdrawal(notice: &Withdrawn) -> (settlement: Settlement)
        ensures
            settlement@ == SettlementView::start(withdrawal_transfers(*notice)),
            settlement.wf(),
    {
        let mut due: Vec<Transfer> = Vec::new();
        due.push(Transfer { to: notice.recipient, amount: notice.amount });
        assert(due@ =~= withdrawal_transfers(*notice));
        Settlement { due, done: 0, failed: false }
    }

    /// The settlement of a cancellation.
    pub fn of_cancellation(notice: &StreamCancelled) -> (settlement: Settlement)
        ensures
            settlement@ == SettlementView::start(cancellation_transfers(*notice)),
            settlement.wf(),
    {
        let mut due: Vec<Transfer> = Vec::new();
        if notice.recipient_balance > 0 {
            due.push(Transfer { to: notice.recipient, amount: notice.recipient_balance });
        }
        if notice.sender_balance > 0 {
            due.push(Transfer { to: notice.sender, amount: notice.sender_balance });
        }
        assert(due@ =~= cancellation_transfers(*notice));
        Settlement { due, done: 0, failed: false }
    }

    /// The transfer that the host has to attempt now, if any.
    pub fn pending(&self) -> (r: Option<Transfer>)
        requires
            self.wf(),
        ensures
            r == self@.pending(),
    {
        if self.failed || self.done >= self.due.len() {
            None
        } else {
            Some(self.due[self.done])
        }
    }

    /// Whether all that is owed has been paid.
    pub fn is_complete(&self) -> (r: bool)
        requires
            self.wf(),
        ensures
            r == self@.is_complete(),
    {
        !self.failed && self.done == self.due.len()
    }

    /// Records how the attempt at the pending transfer went.
    ///
    /// A failed attempt ends the settlement: nothing is pending after it, and
    /// this and every later call report [`Error::TransferFailed`].
    pub fn record(&mut self, succeeded: bool) -> (r: Result<(), Error>)
        requires
            old(self).wf(),
        ensures
            final(self).wf(),
            final(self)@ == old(self)@.after_attempt(succeeded),
            match r {
                Ok(()) => !final(self)@.failed,
                Err(e) => final(self)@.failed && e == Error::TransferFailed,
            },
    {
        if self.failed {
            return Err(Error::TransferFailed);
        }
        if self.done >= self.due.len() {
            return Ok(());
        }
        if succeeded {
            self.done = self.done + 1;
            Ok(())
        } else {
            self.failed = true;
            Err(Error::TransferFailed)
        }
    }
}

} // verus!
