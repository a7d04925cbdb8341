//! The ledger: every stream ever created, by identifier.
//!
//! Identifiers are handed out in sequence from 1 and never reused. A stream
//! stays on the ledger for good: cancelling it only marks it inactive.
//!
//! The ledger keeps no clock and moves no value. Each call is told who calls
//! and what the time is, and each successful mutation returns the notification
//! that says what the host has to pay out.

use std::collections::HashMap;
use vstd::prelude::*;
use crate::error::Error;
use crate::events::{StreamCancelled, StreamCreated, Withdrawn};
use crate::identity::Identity;
use crate::stream::{Stream, StreamView};

verus! {

broadcast use vstd::std_specs::hash::group_hash_axioms;

/// The ledger of payment streams.
pub struct PolkadotStream {
    streams: HashMap<u64, Stream>,
    next_stream_id: u64,
}

/// What a ledger is, mathematically: its streams by identifier, and the
/// identifier that the next stream will get.
pub struct LedgerView {
    pub streams: Map<u64, StreamView>,
    pub next_stream_id: nat,
}

impl LedgerView {
    /// The ledger without streams.
    pub open spec fn empty() -> LedgerView {
        LedgerView { streams: Map::empty(), next_stream_id: 1 }
    }

    /// The invariant of every ledger: the identifiers in use are exactly
    /// those below the next one, from 1 on, and every stream is well formed.
    pub open spec fn wf(self) -> bool {
        &&& 1 <= self.next_stream_id <= u64::MAX
        &&& forall|id: u64| #[trigger]
            self.streams.contains_key(id) <==> 1 <= id < self.next_stream_id
        &&& forall|id: u64| #[trigger]
            self.streams.contains_key(id) ==> self.streams[id].wf()
    }

    /// How many streams have been created.
    pub open spec fn stream_count(self) -> nat {
        if self.next_stream_id >= 1 {
            (self.next_stream_id - 1) as nat
        } else {
            0
        }
    }

    /// Whether an identifier is left for one more stream.
    pub open spec fn has_free_id(self) -> bool {
        self.next_stream_id < u64::MAX
    }

    /// The notification of a successful creation.
    pub open spec fn creation_notice(
        self,
        caller: Identity,
        recipient: Identity,
        value: u128,
        duration: u64,
        now: u64,
    ) -> StreamCreated {
        let stream = StreamView::created(
            caller,
            recipient,
            value as nat,
            duration as nat,
            now as nat,
        );
        StreamCreated {
            stream_id: self.next_stream_id as u64,
            sender: caller,
            recipient,
            total_amount: value,
            start_time: now,
            stop_time: stream.stop_time as u64,
        }
    }

    /// The ledger after a successful creation.
    pub open spec fn after_creation(
        self,
        caller: Identity,
        recipient: Identity,
        value: u128,
        duration: u64,
        now: u64,
    ) -> LedgerView {
        LedgerView {
            streams: self.streams.insert(
                self.next_stream_id as u64,
                StreamView::created(caller, recipient, value as nat, duration as nat, now as nat),
            ),
            next_stream_id: self.next_stream_id + 1,
        }
    }

    /// Why the claimable balance of `stream_id` cannot be told, if it cannot.
    pub open spec fn balance_refusal(self, stream_id: u64) -> Option<Error> {
        if !self.streams.contains_key(stream_id) {
            Some(Error::StreamNotFound)
        } else if !self.streams[stream_id].is_active {
            Some(Error::StreamNotActive)
        } else {
            None
        }
    }

    /// The answer to asking for the claimable balance of `stream_id` at the
    /// instant `now`.
    pub open spec fn claimable_balance(self, stream_id: u64, now: u64) -> Result<u128, Error> {
        match self.balance_refusal(stream_id) {
            Some(e) => Err(e),
            None => Ok(self.streams[stream_id].claimable(now as nat) as u128),
        }
    }

    /// Why `caller` cannot withdraw from `stream_id` at the instant `now`, if
    /// they cannot.
    pub open spec fn withdrawal_refusal(self, caller: Identity, stream_id: u64, now: u64) -> Option<
        Error,
    > {
        if !self.streams.contains_key(stream_id) {
            Some(Error::StreamNotFound)
        } else {
            self.streams[stream_id].withdrawal_refusal(caller, now as nat)
        }
    }

    /// The notification of a successful withdrawal.
    pub open spec fn withdrawal_notice(self, stream_id: u64, now: u64) -> Withdrawn {
        Withdrawn {
            stream_id,
            recipient: self.streams[stream_id].recipient,
            amount: self.streams[stream_id].claimable(now as nat) as u128,
        }
    }

    /// The ledger after a successful withdrawal.
    pub open spec fn after_withdrawal(self, stream_id: u64, now: u64) -> LedgerView {
        LedgerView {
            streams: self.streams.insert(
                stream_id,
                self.streams[stream_id].after_withdrawal(now as nat),
            ),
            ..self
        }
    }

    /// Why `caller` cannot cancel `stream_id`, if they cannot.
    pub open spec fn cancellation_refusal(self, caller: Identity, stream_id: u64) -> Option<Error> {
        if !self.streams.contains_key(stream_id) {
            Some(Error::StreamNotFound)
        } else {
            self.streams[stream_id].cancellation_refusal(caller)
        }
    }

    /// The notification of a successful cancellation.
    pub open spec fn cancellation_notice(self, stream_id: u64, now: u64) -> StreamCancelled {
        StreamCancelled {
            stream_id,
            sender: self.streams[stream_id].sender,
            recipient: self.streams[stream_id].recipient,
            sender_balance: self.streams[stream_id].sender_refund(now as nat) as u128,
            recipient_balance: self.streams[stream_id].recipient_payout(now as nat) as u128,
        }
    }

    /// The ledger after a successful cancellation.
    pub open spec fn after_cancellation(self, stream_id: u64) -> LedgerView {
        LedgerView {
            streams: self.streams.insert(stream_id, self.streams[stream_id].after_cancellation()),
            ..self
        }
    }
}

impl View for PolkadotStream {
    type V = LedgerView;

    closed spec fn view(&self) -> LedgerView {
        LedgerView {
            streams: Map::new(
                |id: u64| self.streams@.contains_key(id),
                |id: u64| self.streams@[id]@,
            ),
            next_stream_id: self.next_stream_id as nat,
        }
    }
}

impl PolkadotStream {
    /// Whether the ledger satisfies its invariant.
    pub open spec fn wf(&self) -> bool {
        self@.wf()
    }

    /// The ledger without streams. The first stream will get the identifier 1.
    pub fn new() -> (ledger: Self)
        ensures
            ledger@ == LedgerView::empty(),
            ledger.wf(),
    {
        let ledger = PolkadotStream { streams: HashMap::new(), next_stream_id: 1 };
        assert(ledger@.streams =~= Map::<u64, StreamView>::empty());
        ledger
    }

    /// Hands out the next identifier and advances the counter.
    fn allocate_id(&mut self) -> (id: u64)
        requires
            old(self)@.has_free_id(),
        ensures
            id == old(self)@.next_stream_id,
            final(self)@ == (LedgerView { next_stream_id: id as nat + 1, ..old(self)@ }),
    {
        let id: u64 = self.next_stream_id;
        self.next_stream_id = self.next_stream_id.saturating_add(1);
        assert(self@.streams =~= old(self)@.streams);
        id
    }

    /// The record stored under `stream_id`, if there is one.
    fn get(&self, stream_id: u64) -> (r: Option<Stream>)
        ensures
            match r {
                Some(stream) => {
                    &&& self@.streams.contains_key(stream_id)
                    &&& stream@ == self@.streams[stream_id]
                },
                None => !self@.streams.contains_key(stream_id),
            },
    {
        match self.streams.get(&stream_id) {
            Some(stream) => Some(*stream),
            None => None,
        }
    }

    /// Stores `stream` under `stream_id`, over whatever was there.
    fn put(&mut self, stream_id: u64, stream: Stream)
        ensures
            final(self)@ == (LedgerView {
                streams: old(self)@.streams.insert(stream_id, stream@),
                ..old(self)@
            }),
    {
        self.streams.insert(stream_id, stream);
        assert(self@.streams =~= old(self)@.streams.insert(stream_id, stream@));
    }

    /// Whether an identifier is left for one more stream.
    pub fn has_free_id(&self) -> (r: bool)
        ensures
            r == self@.has_free_id(),
    {
        self.next_stream_id < u64::MAX
    }

    /// Creates a stream of `value` from `caller` to `recipient` that starts at
    /// the instant `now` (milliseconds) and lasts `duration` seconds.
    ///
    /// `value` is what the host holds in custody for the stream. A refused
    /// call changes nothing.
    ///
    /// Identifiers are never reused, so the ledger must have one left: see
    /// [`PolkadotStream::has_free_id`].
    pub fn create_stream(
        &mut self,
        caller: Identity,
        recipient: Identity,
        value: u128,
        duration: u64,
        now: u64,
    ) -> (r: Result<StreamCreated, Error>)
        requires
            old(self).wf(),
            old(self)@.has_free_id(),
        ensures
            final(self).wf(),
            match r {
                Ok(notice) => {
                    &&& StreamView::creation_refusal(recipient, value as nat, duration as nat)
                        is None
                    &&& notice == old(self)@.creation_notice(
                        caller,
                        recipient,
                        value,
                        duration,
                        now,
                    )
                    &&& final(self)@ == old(self)@.after_creation(
                        caller,
                        recipient,
                        value,
                        duration,
                        now,
                    )
                },
                Err(e) => {
                    &&& StreamView::creation_refusal(recipient, value as nat, duration as nat)
                        == Some(e)
                    &&& final(self)@ == old(self)@
                },
            },
    {
        let stream = match Stream::open(caller, recipient, value, duration, now) {
            Ok(stream) => stream,
            Err(e) => {
                return Err(e);
            },
        };
        let stream_id: u64 = self.allocate_id();
        self.put(stream_id, stream);
        Ok(
            StreamCreated {
                stream_id,
                sender: stream.sender(),
                recipient: stream.recipient(),
                total_amount: stream.total_amount(),
                start_time: stream.start_time(),
                stop_time: stream.stop_time(),
            },
        )
    }

    /// What the recipient of `stream_id` could withdraw at the instant `now`.
    pub fn get_claimable_balance(&self, stream_id: u64, now: u64) -> (r: Result<u128, Error>)
        requires
            self.wf(),
        ensures
            r == self@.claimable_balance(stream_id, now),
            r matches Ok(amount) ==> amount == self@.streams[stream_id].claimable(now as nat),
    {
        match self.get(stream_id) {
            Some(stream) => stream.claimable_balance(now),
            None => Err(Error::StreamNotFound),
        }
    }

    /// Withdraws for `caller` all that is claimable from `stream_id` at the
    /// instant `now`.
    ///
    /// The ledger is updated before anything is paid: the notification tells
    /// the host what to transfer to the recipient. A refused call changes
    /// nothing.
    pub fn withdraw_from_stream(&mut self, caller: Identity, stream_id: u64, now: u64) -> (r:
        Result<Withdrawn, Error>)
        requires
            old(self).wf(),
        ensures
            final(self).wf(),
            match r {
                Ok(notice) => {
                    &&& old(self)@.withdrawal_refusal(caller, stream_id, now) is None
                    &&& notice == old(self)@.withdrawal_notice(stream_id, now)
                    &&& final(self)@ == old(self)@.after_withdrawal(stream_id, now)
                },
                Err(e) => {
                    &&& old(self)@.withdrawal_refusal(caller, stream_id, now) == Some(e)
                    &&& final(self)@ == old(self)@
                },
            },
    {
        let mut stream = match self.get(stream_id) {
            Some(stream) => stream,
            None => {
                return Err(Error::StreamNotFound);
            },
        };
        let amount: u128 = match stream.withdraw(caller, now) {
            Ok(amount) => amount,
            Err(e) => {
                return Err(e);
            },
        };
        self.put(stream_id, stream);
        Ok(Withdrawn { stream_id, recipient: stream.recipient(), amount })
    }

    /// Cancels `stream_id` for `caller` at the instant `now`.
    ///
    /// The stream is final from here on, whatever becomes of the payments:
    /// the notification tells the host what to transfer to the recipient and
    /// what to give back to the sender. A refused call changes nothing.
    pub fn cancel_stream(&mut self, caller: Identity, stream_id: u64, now: u64) -> (r: Result<
        StreamCancelled,
        Error,
    >)
        requires
            old(self).wf(),
        ensures
            final(self).wf(),
            match r {
                Ok(notice) => {
                    &&& old(self)@.cancellation_refusal(caller, stream_id) is None
                    &&& notice == old(self)@.cancellation_notice(stream_id, now)
                    &&& final(self)@ == old(self)@.after_cancellation(stream_id)
                },
                Err(e) => {
                    &&& old(self)@.cancellation_refusal(caller, stream_id) == Some(e)
                    &&& final(self)@ == old(self)@
                },
            },
    {
        let mut stream = match self.get(stream_id) {
            Some(stream) => stream,
            None => {
                return Err(Error::StreamNotFound);
            },
        };
        let (sender_balance, recipient_balance) = match stream.cancel(caller, now) {
            Ok(split) => split,
            Err(e) => {
                return Err(e);
            },
        };
        self.put(stream_id, stream);
        Ok(
            StreamCancelled {
                stream_id,
                sender: stream.sender(),
                recipient: stream.recipient(),
                sender_balance,
                recipient_balance,
            },
        )
    }

    /// The record of `stream_id`, if there is one. Cancelled and matured
    /// streams stay on record.
    pub fn get_stream(&self, stream_id: u64) -> (r: Option<Stream>)
        ensures
            match r {
                Some(stream) => {
                    &&& self@.streams.contains_key(stream_id)
                    &&& stream@ == self@.streams[stream_id]
                },
                None => !self@.streams.contains_key(stream_id),
            },
            self.wf() && r is Some ==> r->0.wf(),
    {
        self.get(stream_id)
    }

    /// How many streams have been created.
    pub fn get_stream_count(&self) -> (count: u64)
        ensures
            count == self@.stream_count(),
    {
        self.next_stream_id.saturating_sub(1)
    }
}

impl Default for PolkadotStream {
    fn default() -> (ledger: Self)
        ensures
            ledger@ == LedgerView::empty(),
            ledger.wf(),
    {
        PolkadotStream::new()
    }
}

} // verus!
