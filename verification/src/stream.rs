//! A single payment stream: its record, its invariant and its accrual.
//!
//! Amounts are `u128`, instants are milliseconds in `u64`. What a stream owes
//! is always derived from the time elapsed since its start and its fixed rate,
//! never accumulated, so asking twice gives the same answer.

use vstd::prelude::*;
use crate::error::Error;
use crate::identity::Identity;
use crate::laws::lemma_created_is_wf;

verus! {

/// One payment stream.
///
/// A stream is made by [`Stream::open`], advanced by [`Stream::withdraw`] and
/// ended by [`Stream::cancel`]; [`Stream::from_parts`] reads one back from
/// where it was stored. Every stream obtained in these ways is well formed
/// (see [`StreamView::wf`]).
#[derive(Debug, Clone, Copy, PartialEq, Eq)]
pub struct Stream {
    sender: Identity,
    recipient: Identity,
    total_amount: u128,
    flow_rate: u128,
    start_time: u64,
    stop_time: u64,
    amount_withdrawn: u128,
    is_active: bool,
}

/// What a stream is, mathematically.
pub struct StreamView {
    /// Who pays.
    pub sender: Identity,
    /// Who is paid.
    pub recipient: Identity,
    /// The value locked at creation.
    pub total_amount: nat,
    /// The value released per millisecond.
    pub flow_rate: nat,
    /// The instant of creation, in milliseconds.
    pub start_time: nat,
    /// The instant from which everything is released.
    pub stop_time: nat,
    /// What the recipient has withdrawn so far.
    pub amount_withdrawn: nat,
    /// False once the stream has been cancelled.
    pub is_active: bool,
}

impl StreamView {
    /// The invariant of every stream.
    ///
    /// The last clause says that the rate never releases more than was locked
    /// before the stream matures.
    pub open spec fn wf(self) -> bool {
        &&& !self.recipient.spec_is_null()
        &&& 0 < self.total_amount <= u128::MAX
        &&& 0 < self.flow_rate
        &&& self.amount_withdrawn <= self.total_amount
        &&& self.start_time <= self.stop_time <= u64::MAX
        &&& self.flow_rate * (self.stop_time - self.start_time) <= self.total_amount
    }

    /// Why a stream of `value` over `duration` seconds to `recipient` cannot
    /// be created, if it cannot. The checks are made in this order.
    pub open spec fn creation_refusal(recipient: Identity, value: nat, duration: nat) -> Option<
        Error,
    > {
        if value == 0 {
            Some(Error::InvalidAmount)
        } else if recipient.spec_is_null() {
            Some(Error::InvalidRecipient)
        } else if duration == 0 {
            Some(Error::InvalidDuration)
        } else if value / (duration * 1000) == 0 {
            Some(Error::ZeroFlowRate)
        } else {
            None
        }
    }

    /// The stream that creation at the instant `now` gives.
    ///
    /// The rate is the value divided by the duration in milliseconds, rounded
    /// down. The stop time saturates at `u64::MAX`.
    pub open spec fn created(
        sender: Identity,
        recipient: Identity,
        value: nat,
        duration: nat,
        now: nat,
    ) -> StreamView {
        StreamView {
            sender,
            recipient,
            total_amount: value,
            flow_rate: value / (duration * 1000),
            start_time: now,
            stop_time: if now + duration * 1000 <= u64::MAX {
                now + duration * 1000
            } else {
                u64::MAX as nat
            },
            amount_withdrawn: 0,
            is_active: true,
        }
    }

    /// The value released by the instant `now`, withdrawn or not.
    pub open spec fn streamed(self, now: nat) -> nat {
        if now < self.start_time {
            0
        } else if now >= self.stop_time {
            self.total_amount
        } else {
            ((now - self.start_time) * self.flow_rate) as nat
        }
    }

    /// The value released by the instant `now` and not yet withdrawn.
    pub open spec fn claimable(self, now: nat) -> nat {
        if self.streamed(now) >= self.amount_withdrawn {
            (self.streamed(now) - self.amount_withdrawn) as nat
        } else {
            0
        }
    }

    /// Why `caller` cannot withdraw at the instant `now`, if they cannot.
    pub open spec fn withdrawal_refusal(self, caller: Identity, now: nat) -> Option<Error> {
        if !self.is_active {
            Some(Error::StreamNotActive)
        } else if caller != self.recipient {
            Some(Error::NotRecipient)
        } else if self.claimable(now) == 0 {
            Some(Error::NoFundsToWithdraw)
        } else {
            None
        }
    }

    /// The stream after the recipient has withdrawn all that is claimable at
    /// the instant `now`.
    pub open spec fn after_withdrawal(self, now: nat) -> StreamView {
        StreamView { amount_withdrawn: self.amount_withdrawn + self.claimable(now), ..self }
    }

    /// Why `caller` cannot cancel, if they cannot.
    pub open spec fn cancellation_refusal(self, caller: Identity) -> Option<Error> {
        if !self.is_active {
            Some(Error::StreamNotActive)
        } else if caller != self.sender && caller != self.recipient {
            Some(Error::NotAuthorized)
        } else {
            None
        }
    }

    /// What a cancellation at the instant `now` pays the recipient.
    pub open spec fn recipient_payout(self, now: nat) -> nat {
        self.claimable(now)
    }

    /// What a cancellation at the instant `now` gives back to the sender:
    /// all that is neither withdrawn nor owed to the recipient.
    pub open spec fn sender_refund(self, now: nat) -> nat {
        if self.total_amount >= self.amount_withdrawn + self.claimable(now) {
            (self.total_amount - self.amount_withdrawn - self.claimable(now)) as nat
        } else {
            0
        }
    }

    /// The stream after cancellation.
    pub open spec fn after_cancellation(self) -> StreamView {
        StreamView { is_active: false, ..self }
    }
}

impl View for Stream {
    type V = StreamView;

    closed spec fn view(&self) -> StreamView {
        StreamView {
            sender: self.sender,
            recipient: self.recipient,
            total_amount: self.total_amount as nat,
            flow_rate: self.flow_rate as nat,
            start_time: self.start_time as nat,
            stop_time: self.stop_time as nat,
            amount_withdrawn: self.amount_withdrawn as nat,
            is_active: self.is_active,
        }
    }
}

impl Stream {
    /// Whether the stream satisfies its invariant.
    pub open spec fn wf(&self) -> bool {
        self@.wf()
    }

    /// Creates a stream of `value` from `sender` to `recipient` that starts at
    /// the instant `now` (milliseconds) and lasts `duration` seconds.
    pub fn open(sender: Identity, recipient: Identity, value: u128, duration: u64, now: u64) -> (r:
        Result<Stream, Error>)
        ensures
            match r {
                Ok(stream) => {
                    &&& StreamView::creation_refusal(recipient, value as nat, duration as nat)
                        is None
                    &&& stream@ == StreamView::created(
                        sender,
                        recipient,
                        value as nat,
                        duration as nat,
                        now as nat,
                    )
                    &&& stream.wf()
                },
                Err(e) => StreamView::creation_refusal(recipient, value as nat, duration as nat)
                    == Some(e),
            },
    {
        if value == 0 {
            return Err(Error::InvalidAmount);
        }
        if recipient.is_null() {
            return Err(Error::InvalidRecipient);
        }
        if duration == 0 {
            return Err(Error::InvalidDuration);
        }
        let duration_ms: u128 = (duration as u128) * 1000;
        if duration_ms == 0 {
            return Err(Error::InvalidDuration);
        }
        let flow_rate: u128 = match value.checked_div(duration_ms) {
            Some(rate) => rate,
            None => {
                return Err(Error::InvalidDuration);
            },
        };
        if flow_rate == 0 {
            return Err(Error::ZeroFlowRate);
        }
        let span: u64 = if duration_ms > u64::MAX as u128 {
            u64::MAX
        } else {
            duration_ms as u64
        };
        let stop_time: u64 = now.saturating_add(span);
        proof {
            lemma_created_is_wf(sender, recipient, value, duration, now);
        }
        Ok(
            Stream {
                sender,
                recipient,
                total_amount: value,
                flow_rate,
                start_time: now,
                stop_time,
                amount_withdrawn: 0,
                is_active: true,
            },
        )
    }

    /// What has been released by the instant `now` and not yet withdrawn,
    /// whether or not the stream is active.
    fn accrued(&self, now: u64) -> (amount: u128)
        requires
            self.wf(),
        ensures
            amount == self@.claimable(now as nat),
            self@.amount_withdrawn + amount <= self@.total_amount,
    {
        if now < self.start_time {
            return 0;
        }
        if now >= self.stop_time {
            return self.total_amount.saturating_sub(self.amount_withdrawn);
        }
        let elapsed: u64 = now.saturating_sub(self.start_time);
        proof {
            let rate = self.flow_rate as nat;
            let span = (self.stop_time - self.start_time) as nat;
            assert(elapsed as nat * rate <= rate * span) by (nonlinear_arith)
                requires
                    elapsed as nat <= span,
            ;
        }
        let streamed: u128 = match (elapsed as u128).checked_mul(self.flow_rate) {
            Some(product) => product,
            None => u128::MAX,
        };
        streamed.saturating_sub(self.amount_withdrawn)
    }

    /// What the recipient could withdraw at the instant `now`.
    ///
    /// A cancelled stream accrues nothing: asking is refused.
    pub fn claimable_balance(&self, now: u64) -> (r: Result<u128, Error>)
        requires
            self.wf(),
        ensures
            match r {
                Ok(amount) => self@.is_active && amount == self@.claimable(now as nat),
                Err(e) => !self@.is_active && e == Error::StreamNotActive,
            },
    {
        if !self.is_active {
            return Err(Error::StreamNotActive);
        }
        Ok(self.accrued(now))
    }

    /// Withdraws for `caller` all that is claimable at the instant `now`, and
    /// returns the amount to pay out. A refused call changes nothing.
    pub fn withdraw(&mut self, caller: Identity, now: u64) -> (r: Result<u128, Error>)
        requires
            old(self).wf(),
        ensures
            final(self).wf(),
            match r {
                Ok(amount) => {
                    &&& old(self)@.withdrawal_refusal(caller, now as nat) is None
                    &&& amount == old(self)@.claimable(now as nat)
                    &&& final(self)@ == old(self)@.after_withdrawal(now as nat)
                },
                Err(e) => {
                    &&& old(self)@.withdrawal_refusal(caller, now as nat) == Some(e)
                    &&& final(self)@ == old(self)@
                },
            },
    {
        if !self.is_active {
            return Err(Error::StreamNotActive);
        }
        if caller != self.recipient {
            return Err(Error::NotRecipient);
        }
        let amount: u128 = self.accrued(now);
        if amount == 0 {
            return Err(Error::NoFundsToWithdraw);
        }
        self.amount_withdrawn = self.amount_withdrawn.saturating_add(amount);
        Ok(amount)
    }

    /// Cancels the stream for `caller` at the instant `now`, and returns what
    /// is owed: first the sender's refund, then the recipient's payout. A
    /// refused call changes nothing.
    pub fn cancel(&mut self, caller: Identity, now: u64) -> (r: Result<(u128, u128), Error>)
        requires
            old(self).wf(),
        ensures
            final(self).wf(),
            match r {
                Ok((sender_refund, recipient_payout)) => {
                    &&& old(self)@.cancellation_refusal(caller) is None
                    &&& sender_refund == old(self)@.sender_refund(now as nat)
                    &&& recipient_payout == old(self)@.recipient_payout(now as nat)
                    &&& final(self)@ == old(self)@.after_cancellation()
                },
                Err(e) => {
                    &&& old(self)@.cancellation_refusal(caller) == Some(e)
                    &&& final(self)@ == old(self)@
                },
            },
    {
        if !self.is_active {
            return Err(Error::StreamNotActive);
        }
        if caller != self.sender && caller != self.recipient {
            return Err(Error::NotAuthorized);
        }
        let recipient_payout: u128 = self.accrued(now);
        let remaining: u128 = self.total_amount.saturating_sub(self.amount_withdrawn);
        let sender_refund: u128 = remaining.saturating_sub(recipient_payout);
        self.is_active = false;
        Ok((sender_refund, recipient_payout))
    }

    /// Rebuilds a stream from its stored fields, if they satisfy the
    /// invariant of a stream.
    pub fn from_parts(
        sender: Identity,
        recipient: Identity,
        total_amount: u128,
        flow_rate: u128,
        start_time: u64,
        stop_time: u64,
        amount_withdrawn: u128,
        is_active: bool,
    ) -> (r: Option<Stream>)
        ensures
            ({
                let parts = StreamView {
                    sender,
                    recipient,
                    total_amount: total_amount as nat,
                    flow_rate: flow_rate as nat,
                    start_time: start_time as nat,
                    stop_time: stop_time as nat,
                    amount_withdrawn: amount_withdrawn as nat,
                    is_active,
                };
                match r {
                    Some(stream) => stream@ == parts && parts.wf(),
                    None => !parts.wf(),
                }
            }),
    {
        if recipient.is_null() || total_amount == 0 || flow_rate == 0 || amount_withdrawn
            > total_amount || start_time > stop_time {
            return None;
        }
        let span: u64 = stop_time - start_time;
        let within_total: bool = match flow_rate.checked_mul(span as u128) {
            Some(released) => released <= total_amount,
            None => false,
        };
        if !within_total {
            return None;
        }
        Some(
            Stream {
                sender,
                recipient,
                total_amount,
                flow_rate,
                start_time,
                stop_time,
                amount_withdrawn,
                is_active,
            },
        )
    }

    /// Who pays.
    pub fn sender(&self) -> (r: Identity)
        ensures
            r == self@.sender,
    {
        self.sender
    }

    /// Who is paid.
    pub fn recipient(&self) -> (r: Identity)
        ensures
            r == self@.recipient,
    {
        self.recipient
    }

    /// The value locked at creation.
    pub fn total_amount(&self) -> (r: u128)
        ensures
            r == self@.total_amount,
    {
        self.total_amount
    }

    /// The value released per millisecond.
    pub fn flow_rate(&self) -> (r: u128)
        ensures
            r == self@.flow_rate,
    {
        self.flow_rate
    }

    /// The instant of creation, in milliseconds.
    pub fn start_time(&self) -> (r: u64)
        ensures
            r == self@.start_time,
    {
        self.start_time
    }

    /// The instant from which everything is released.
    pub fn stop_time(&self) -> (r: u64)
        ensures
            r == self@.stop_time,
    {
        self.stop_time
    }

    /// What the recipient has withdrawn so far.
    pub fn amount_withdrawn(&self) -> (r: u128)
        ensures
            r == self@.amount_withdrawn,
    {
        self.amount_withdrawn
    }

    /// False once the stream has been cancelled.
    pub fn is_active(&self) -> (r: bool)
        ensures
            r == self@.is_active,
    {
        self.is_active
    }
}

} // verus!
