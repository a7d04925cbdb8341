//! What holds of every stream and every ledger.
//!
//! Each statement is over the mathematical views, so it holds of whatever the
//! operations of this crate return.

use vstd::prelude::*;
use crate::error::Error;
use crate::events::{StreamCancelled, Withdrawn};
use crate::identity::Identity;
use crate::ledger::LedgerView;
use crate::settlement::{
    cancellation_transfers, total_amount, withdrawal_transfers, SettlementView, Transfer,
};
use crate::stream::StreamView;

verus! {

// Creation

/// Every stream that creation gives is well formed.
pub proof fn lemma_created_is_wf(
    sender: Identity,
    recipient: Identity,
    value: u128,
    duration: u64,
    now: u64,
)
    requires
        StreamView::creation_refusal(recipient, value as nat, duration as nat) is None,
    ensures
        StreamView::created(sender, recipient, value as nat, duration as nat, now as nat).wf(),
{
    let stream = StreamView::created(sender, recipient, value as nat, duration as nat, now as nat);
    let span = duration as nat * 1000;
    let length = (stream.stop_time - stream.start_time) as nat;
    assert((value as nat / span) * length <= value as nat) by (nonlinear_arith)
        requires
            0 < span,
            length <= span,
    ;
}

/// A stream created without reaching the end of time runs from its start to
/// a later stop, and its rate is what was locked divided by its length in
/// milliseconds, rounded down.
pub proof fn lemma_created_rate(
    sender: Identity,
    recipient: Identity,
    value: nat,
    duration: nat,
    now: nat,
)
    requires
        StreamView::creation_refusal(recipient, value, duration) is None,
        now + duration * 1000 <= u64::MAX,
    ensures
        ({
            let stream = StreamView::created(sender, recipient, value, duration, now);
            &&& stream.start_time < stream.stop_time
            &&& stream.flow_rate == stream.total_amount / ((stream.stop_time
                - stream.start_time) as nat)
        }),
{
}

// Accrual

/// A stream never releases more than was locked in it.
pub proof fn lemma_streamed_within_total(stream: StreamView, now: nat)
    requires
        stream.wf(),
    ensures
        stream.streamed(now) <= stream.total_amount,
{
    if stream.start_time <= now < stream.stop_time {
        let elapsed = (now - stream.start_time) as nat;
        let span = (stream.stop_time - stream.start_time) as nat;
        let rate = stream.flow_rate;
        assert(elapsed * rate <= rate * span) by (nonlinear_arith)
            requires
                elapsed <= span,
        ;
    }
}

/// What a stream has released never shrinks as time goes on.
pub proof fn lemma_streamed_is_monotonic(stream: StreamView, earlier: nat, later: nat)
    requires
        stream.wf(),
        earlier <= later,
    ensures
        stream.streamed(earlier) <= stream.streamed(later),
{
    lemma_streamed_within_total(stream, earlier);
    if stream.start_time <= earlier && later < stream.stop_time {
        let e1 = (earlier - stream.start_time) as nat;
        let e2 = (later - stream.start_time) as nat;
        let rate = stream.flow_rate;
        assert(e1 * rate <= e2 * rate) by (nonlinear_arith)
            requires
                e1 <= e2,
        ;
    }
}

/// Value is conserved: what was withdrawn and what is claimable never exceed
/// what was locked, and make up all of it once the stream has matured.
pub proof fn lemma_conservation(stream: StreamView, now: nat)
    requires
        stream.wf(),
    ensures
        stream.amount_withdrawn + stream.claimable(now) <= stream.total_amount,
        now >= stream.stop_time ==> stream.amount_withdrawn + stream.claimable(now)
            == stream.total_amount,
{
    lemma_streamed_within_total(stream, now);
}

/// While nothing is withdrawn, the claimable balance never shrinks as time
/// goes on.
pub proof fn lemma_claimable_is_monotonic(stream: StreamView, earlier: nat, later: nat)
    requires
        stream.wf(),
        earlier <= later,
    ensures
        stream.claimable(earlier) <= stream.claimable(later),
{
    lemma_streamed_is_monotonic(stream, earlier, later);
}

/// Between two instants at which the stream is running, the claimable
/// balance grows, provided that the stream has by the later instant released
/// more than was withdrawn. (If it has not, the balance is zero at both: see
/// [`lemma_nothing_claimable_below_withdrawn`].)
pub proof fn lemma_claimable_is_strictly_increasing(stream: StreamView, earlier: nat, later: nat)
    requires
        stream.wf(),
        stream.start_time <= earlier < later < stream.stop_time,
        stream.amount_withdrawn < stream.streamed(later),
    ensures
        stream.claimable(earlier) < stream.claimable(later),
{
    let e1 = (earlier - stream.start_time) as nat;
    let e2 = (later - stream.start_time) as nat;
    let rate = stream.flow_rate;
    assert(e1 * rate < e2 * rate) by (nonlinear_arith)
        requires
            e1 < e2,
            0 < rate,
    ;
}

/// Where the recipient has withdrawn at least what the stream has released by
/// some instant, nothing is claimable at that instant or before. This is the
/// case when the clock of a call lags behind that of an earlier withdrawal.
pub proof fn lemma_nothing_claimable_below_withdrawn(stream: StreamView, earlier: nat, later: nat)
    requires
        stream.wf(),
        earlier <= later,
        stream.amount_withdrawn >= stream.streamed(later),
    ensures
        stream.claimable(earlier) == 0,
        stream.claimable(later) == 0,
{
    lemma_streamed_is_monotonic(stream, earlier, later);
}

/// Reading the claimable balance is idempotent: two answers for the same
/// ledger, stream and instant are the same answer.
pub proof fn lemma_balance_read_is_idempotent(
    ledger: LedgerView,
    stream_id: u64,
    now: u64,
    first: Result<u128, Error>,
    second: Result<u128, Error>,
)
    requires
        first == ledger.claimable_balance(stream_id, now),
        second == ledger.claimable_balance(stream_id, now),
    ensures
        first == second,
{
}

// Withdrawal

/// After a withdrawal nothing is left to claim at the same instant, and what
/// was withdrawn has grown by what was claimable.
pub proof fn lemma_withdrawal_takes_all(stream: StreamView, now: nat)
    requires
        stream.wf(),
    ensures
        stream.after_withdrawal(now).wf(),
        stream.after_withdrawal(now).claimable(now) == 0,
        stream.after_withdrawal(now).amount_withdrawn == stream.amount_withdrawn
            + stream.claimable(now),
{
    lemma_conservation(stream, now);
}

// Cancellation

/// A cancellation splits exactly what was locked and not yet withdrawn: the
/// sender's refund and the recipient's payout make up all of it.
pub proof fn lemma_cancellation_split(stream: StreamView, now: nat)
    requires
        stream.wf(),
    ensures
        stream.sender_refund(now) + stream.recipient_payout(now) == stream.total_amount
            - stream.amount_withdrawn,
{
    lemma_conservation(stream, now);
}

/// The split of a cancellation as the ledger reports it and as the host pays
/// it: the two balances of the notification, and the transfers made for them,
/// amount to what was locked and not yet withdrawn.
pub proof fn lemma_cancellation_notice_split(ledger: LedgerView, stream_id: u64, now: u64)
    requires
        ledger.wf(),
        ledger.streams.contains_key(stream_id),
    ensures
        ({
            let notice = ledger.cancellation_notice(stream_id, now);
            let stream = ledger.streams[stream_id];
            &&& notice.sender_balance + notice.recipient_balance == stream.total_amount
                - stream.amount_withdrawn
            &&& total_amount(cancellation_transfers(notice)) == stream.total_amount
                - stream.amount_withdrawn
        }),
{
    let notice = ledger.cancellation_notice(stream_id, now);
    let stream = ledger.streams[stream_id];
    lemma_cancellation_split(stream, now as nat);
    lemma_cancellation_transfers_total(notice);
}

/// A cancelled stream refuses every withdrawal, every cancellation and every
/// question about its balance, by whomever and whenever, and it is still on
/// record.
pub proof fn lemma_cancelled_stream_refuses(
    ledger: LedgerView,
    stream_id: u64,
    caller: Identity,
    now: u64,
)
    requires
        ledger.wf(),
        ledger.streams.contains_key(stream_id),
        !ledger.streams[stream_id].is_active,
    ensures
        ledger.withdrawal_refusal(caller, stream_id, now) == Some(Error::StreamNotActive),
        ledger.cancellation_refusal(caller, stream_id) == Some(Error::StreamNotActive),
        ledger.claimable_balance(stream_id, now) == Err::<u128, Error>(Error::StreamNotActive),
        1 <= stream_id < ledger.next_stream_id,
{
}

/// No accepted call changes the record of a cancelled stream, so it stays
/// cancelled for good.
pub proof fn lemma_cancelled_stream_is_final(
    ledger: LedgerView,
    stream_id: u64,
    caller: Identity,
    recipient: Identity,
    value: u128,
    duration: u64,
    other_id: u64,
    now: u64,
)
    requires
        ledger.wf(),
        ledger.streams.contains_key(stream_id),
        !ledger.streams[stream_id].is_active,
    ensures
        ledger.after_creation(caller, recipient, value, duration, now).streams.contains_key(
            stream_id,
        ),
        ledger.after_creation(caller, recipient, value, duration, now).streams[stream_id]
            == ledger.streams[stream_id],
        ledger.withdrawal_refusal(caller, other_id, now) is None ==> {
            &&& ledger.after_withdrawal(other_id, now).streams.contains_key(stream_id)
            &&& ledger.after_withdrawal(other_id, now).streams[stream_id]
                == ledger.streams[stream_id]
        },
        ledger.cancellation_refusal(caller, other_id) is None ==> {
            &&& ledger.after_cancellation(other_id).streams.contains_key(stream_id)
            &&& ledger.after_cancellation(other_id).streams[stream_id]
                == ledger.streams[stream_id]
        },
{
}

// The ledger

/// The invariant of the ledger holds after every accepted call, whatever the
/// call: a stream never holds more withdrawn than locked, never releases more
/// than was locked, and never changes who pays, who is paid, how much or when.
pub proof fn lemma_accepted_calls_keep_the_invariant(
    ledger: LedgerView,
    caller: Identity,
    recipient: Identity,
    value: u128,
    duration: u64,
    stream_id: u64,
    now: u64,
)
    requires
        ledger.wf(),
    ensures
        ledger.has_free_id() && StreamView::creation_refusal(
            recipient,
            value as nat,
            duration as nat,
        ) is None ==> ledger.after_creation(caller, recipient, value, duration, now).wf(),
        ledger.withdrawal_refusal(caller, stream_id, now) is None ==> {
            let before = ledger.streams[stream_id];
            let after = ledger.after_withdrawal(stream_id, now).streams[stream_id];
            &&& ledger.after_withdrawal(stream_id, now).wf()
            &&& after == (StreamView { amount_withdrawn: after.amount_withdrawn, ..before })
            &&& after.amount_withdrawn > before.amount_withdrawn
        },
        ledger.cancellation_refusal(caller, stream_id) is None ==> {
            let before = ledger.streams[stream_id];
            let after = ledger.after_cancellation(stream_id).streams[stream_id];
            &&& ledger.after_cancellation(stream_id).wf()
            &&& after == (StreamView { is_active: false, ..before })
        },
{
    if StreamView::creation_refusal(recipient, value as nat, duration as nat) is None {
        lemma_created_is_wf(caller, recipient, value, duration, now);
    }
    if ledger.withdrawal_refusal(caller, stream_id, now) is None {
        lemma_withdrawal_takes_all(ledger.streams[stream_id], now as nat);
    }
}

/// The identifiers from 1 up to, and without, `next`.
pub open spec fn ids_below(next: nat) -> Set<u64> {
    Set::new(|id: u64| 1 <= id < next)
}

/// There are `next - 1` identifiers below `next`.
pub proof fn lemma_ids_below(next: nat)
    requires
        1 <= next <= u64::MAX,
    ensures
        ids_below(next).finite(),
        ids_below(next).len() == next - 1,
    decreases next,
{
    if next == 1 {
        assert(ids_below(next) =~= Set::<u64>::empty());
    } else {
        lemma_ids_below((next - 1) as nat);
        assert(ids_below(next) =~= ids_below((next - 1) as nat).insert((next - 1) as u64));
    }
}

/// The streams on record are as many as were created, under the identifiers
/// from 1 on, each used once.
pub proof fn lemma_stream_count(ledger: LedgerView)
    requires
        ledger.wf(),
    ensures
        ledger.streams.dom() == ids_below(ledger.next_stream_id),
        ledger.streams.dom().finite(),
        ledger.streams.dom().len() == ledger.stream_count(),
{
    assert(ledger.streams.dom() =~= ids_below(ledger.next_stream_id));
    lemma_ids_below(ledger.next_stream_id);
}

/// Creation never reuses an identifier: the new stream gets one that was not
/// on record, and every stream that was on record stays as it was.
pub proof fn lemma_creation_keeps_records(
    ledger: LedgerView,
    caller: Identity,
    recipient: Identity,
    value: u128,
    duration: u64,
    now: u64,
    stream_id: u64,
)
    requires
        ledger.wf(),
        ledger.has_free_id(),
        ledger.streams.contains_key(stream_id),
    ensures
        !ledger.streams.contains_key(
            ledger.creation_notice(caller, recipient, value, duration, now).stream_id,
        ),
        ledger.after_creation(caller, recipient, value, duration, now).streams[stream_id]
            == ledger.streams[stream_id],
{
}

// Payment

/// The transfer of a withdrawal amounts to what its notification reports.
pub proof fn lemma_withdrawal_transfers_total(notice: Withdrawn)
    ensures
        total_amount(withdrawal_transfers(notice)) == notice.amount,
{
    let due = withdrawal_transfers(notice);
    reveal_with_fuel(total_amount, 2);
    assert(due.drop_last().len() == 0);
}

/// The transfers of a cancellation amount to the two balances that its
/// notification reports.
pub proof fn lemma_cancellation_transfers_total(notice: StreamCancelled)
    ensures
        total_amount(cancellation_transfers(notice)) == notice.sender_balance
            + notice.recipient_balance,
{
    let due = cancellation_transfers(notice);
    reveal_with_fuel(total_amount, 3);
    if due.len() == 2 {
        assert(due.drop_last().len() == 1);
        assert(due.drop_last().drop_last().len() == 0);
    } else if due.len() == 1 {
        assert(due.drop_last().len() == 0);
    }
}

/// The first transfers of a list amount to no more than the whole list, and
/// one transfer more adds its amount.
pub proof fn lemma_total_amount_of_prefix(transfers: Seq<Transfer>, count: int)
    requires
        0 <= count <= transfers.len(),
    ensures
        total_amount(transfers.take(count)) <= total_amount(transfers),
        count < transfers.len() ==> total_amount(transfers.take(count + 1)) == total_amount(
            transfers.take(count),
        ) + transfers[count].amount,
    decreases transfers.len() - count,
{
    if count == transfers.len() {
        assert(transfers.take(count) =~= transfers);
    } else {
        assert(transfers.take(count + 1).drop_last() =~= transfers.take(count));
        lemma_total_amount_of_prefix(transfers, count + 1);
    }
}

/// A settlement never pays more than is owed, and has paid all of it when it
/// is complete. A successful attempt pays the pending transfer and a failed
/// one pays nothing.
pub proof fn lemma_settlement_pays_what_is_due(settlement: SettlementView, succeeded: bool)
    requires
        settlement.wf(),
    ensures
        settlement.paid() <= total_amount(settlement.due),
        settlement.is_complete() ==> settlement.paid() == total_amount(settlement.due),
        settlement.after_attempt(succeeded).wf(),
        settlement.after_attempt(succeeded).due == settlement.due,
        settlement.after_attempt(succeeded).paid() == settlement.paid() + (if succeeded {
            match settlement.pending() {
                Some(transfer) => transfer.amount as nat,
                None => 0,
            }
        } else {
            0
        }),
        settlement.failed ==> settlement.after_attempt(succeeded) == settlement,
{
    lemma_total_amount_of_prefix(settlement.due, settlement.done as int);
    if settlement.done == settlement.due.len() {
        assert(settlement.due.take(settlement.done as int) =~= settlement.due);
    }
}

} // verus!
