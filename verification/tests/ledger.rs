use polkadot_stream::{
    Error, Identity, PolkadotStream, StreamCancelled, StreamCreated, Withdrawn,
};

fn alice() -> Identity {
    Identity([1u8; 32])
}

fn bob() -> Identity {
    Identity([2u8; 32])
}

fn charlie() -> Identity {
    Identity([3u8; 32])
}

/// A ledger with one stream of 100000 from alice to bob over 100 seconds,
/// created at the instant `start`.
fn ledger_with_stream(start: u64) -> PolkadotStream {
    let mut ledger = PolkadotStream::new();
    ledger.create_stream(alice(), bob(), 100_000, 100, start).unwrap();
    ledger
}

#[test]
fn get_claimable_balance_works() {
    let mut contract = PolkadotStream::new();
    let stream_id = contract.create_stream(alice(), bob(), 100000, 100, 0).unwrap().stream_id;

    let balance = contract.get_claimable_balance(stream_id, 6);
    assert!(balance.is_ok());
    assert_eq!(balance, Ok(6));
}

#[test]
fn withdraw_works() {
    let mut contract = PolkadotStream::new();
    let stream_id = contract.create_stream(alice(), bob(), 100000, 100, 0).unwrap().stream_id;

    let result = contract.withdraw_from_stream(bob(), stream_id, 6);
    assert!(result.is_ok());
    assert_eq!(result, Ok(Withdrawn { stream_id, recipient: bob(), amount: 6 }));
}

#[test]
fn new_ledger_is_empty() {
    let ledger = PolkadotStream::new();
    assert_eq!(ledger.get_stream_count(), 0);
    assert!(ledger.has_free_id());
    assert_eq!(ledger.get_stream(0), None);
    assert_eq!(ledger.get_stream(1), None);
    assert_eq!(ledger.get_claimable_balance(1, 0), Err(Error::StreamNotFound));
}

#[test]
fn default_ledger_is_empty() {
    let ledger = PolkadotStream::default();
    assert_eq!(ledger.get_stream_count(), 0);
    assert_eq!(ledger.get_stream(1), None);
}

#[test]
fn creation_reports_and_records_the_stream() {
    let mut ledger = PolkadotStream::new();
    let notice = ledger.create_stream(alice(), bob(), 100_000, 100, 7_000);
    assert_eq!(
        notice,
        Ok(StreamCreated {
            stream_id: 1,
            sender: alice(),
            recipient: bob(),
            total_amount: 100_000,
            start_time: 7_000,
            stop_time: 107_000,
        })
    );
    let stream = ledger.get_stream(1).unwrap();
    assert_eq!(stream.sender(), alice());
    assert_eq!(stream.recipient(), bob());
    assert_eq!(stream.total_amount(), 100_000);
    assert_eq!(stream.flow_rate(), 1);
    assert_eq!(stream.start_time(), 7_000);
    assert_eq!(stream.stop_time(), 107_000);
    assert_eq!(stream.amount_withdrawn(), 0);
    assert!(stream.is_active());
    assert_eq!(ledger.get_stream_count(), 1);
}

#[test]
fn identifiers_are_sequential_from_one() {
    let mut ledger = PolkadotStream::new();
    for expected in 1..=5u64 {
        let notice = ledger.create_stream(alice(), bob(), 10_000, 1, 0).unwrap();
        assert_eq!(notice.stream_id, expected);
        assert_eq!(ledger.get_stream_count(), expected);
    }
    assert_eq!(ledger.get_stream(0), None);
    assert_eq!(ledger.get_stream(6), None);
    for id in 1..=5u64 {
        assert!(ledger.get_stream(id).is_some());
    }
}

#[test]
fn refused_creation_uses_no_identifier() {
    let mut ledger = PolkadotStream::new();
    assert_eq!(ledger.create_stream(alice(), bob(), 0, 100, 0), Err(Error::InvalidAmount));
    assert_eq!(
        ledger.create_stream(alice(), Identity::null(), 100_000, 100, 0),
        Err(Error::InvalidRecipient)
    );
    assert_eq!(ledger.create_stream(alice(), bob(), 100_000, 0, 0), Err(Error::InvalidDuration));
    assert_eq!(ledger.create_stream(alice(), bob(), 99_999, 100, 0), Err(Error::ZeroFlowRate));
    assert_eq!(ledger.get_stream_count(), 0);
    assert_eq!(ledger.get_stream(1), None);
    assert_eq!(ledger.create_stream(alice(), bob(), 100_000, 100, 0).unwrap().stream_id, 1);
}

#[test]
fn creation_checks_come_in_order() {
    let mut ledger = PolkadotStream::new();
    // No value and a null recipient and no duration: the value is checked first.
    assert_eq!(
        ledger.create_stream(alice(), Identity::null(), 0, 0, 0),
        Err(Error::InvalidAmount)
    );
    // A null recipient and no duration: the recipient is checked next.
    assert_eq!(
        ledger.create_stream(alice(), Identity::null(), 5, 0, 0),
        Err(Error::InvalidRecipient)
    );
    // No duration and too little value: the duration is checked before the rate.
    assert_eq!(ledger.create_stream(alice(), bob(), 5, 0, 0), Err(Error::InvalidDuration));
}

#[test]
fn thousand_over_hundred_seconds_is_too_small() {
    let mut ledger = PolkadotStream::new();
    // 1000 over 100 s is 1000 / 100000 per millisecond, which rounds down to 0.
    assert_eq!(ledger.create_stream(alice(), bob(), 1000, 100, 0), Err(Error::ZeroFlowRate));
}

#[test]
fn five_hundred_over_one_second_has_zero_flow_rate() {
    let mut ledger = PolkadotStream::new();
    assert_eq!(ledger.create_stream(alice(), bob(), 500, 1, 0), Err(Error::ZeroFlowRate));
    // One more than the number of milliseconds is enough.
    assert_eq!(ledger.create_stream(alice(), bob(), 999, 1, 0), Err(Error::ZeroFlowRate));
    let notice = ledger.create_stream(alice(), bob(), 1000, 1, 0).unwrap();
    assert_eq!(ledger.get_stream(notice.stream_id).unwrap().flow_rate(), 1);
}

#[test]
fn a_sender_may_stream_to_themselves() {
    let mut ledger = PolkadotStream::new();
    let notice = ledger.create_stream(alice(), alice(), 100_000, 100, 0).unwrap();
    assert_eq!(notice.sender, notice.recipient);
}

#[test]
fn accrual_of_one_per_millisecond() {
    let start: u64 = 1_000_000;
    let ledger = ledger_with_stream(start);
    assert_eq!(ledger.get_stream(1).unwrap().flow_rate(), 1);
    assert_eq!(ledger.get_claimable_balance(1, start), Ok(0));
    assert_eq!(ledger.get_claimable_balance(1, start + 1), Ok(1));
    assert_eq!(ledger.get_claimable_balance(1, start + 50_000), Ok(50_000));
    assert_eq!(ledger.get_claimable_balance(1, start + 99_999), Ok(99_999));
    assert_eq!(ledger.get_claimable_balance(1, start + 100_000), Ok(100_000));
    assert_eq!(ledger.get_claimable_balance(1, start + 100_001), Ok(100_000));
    assert_eq!(ledger.get_claimable_balance(1, u64::MAX), Ok(100_000));
}

#[test]
fn nothing_accrues_before_the_start() {
    let ledger = ledger_with_stream(1_000_000);
    assert_eq!(ledger.get_claimable_balance(1, 0), Ok(0));
    assert_eq!(ledger.get_claimable_balance(1, 999_999), Ok(0));
}

#[test]
fn rounding_is_made_up_at_maturity() {
    let mut ledger = PolkadotStream::new();
    // 1000000 over 3 s: 1000000 / 3000 = 333 per millisecond, 1000 left over.
    ledger.create_stream(alice(), bob(), 1_000_000, 3, 0).unwrap();
    assert_eq!(ledger.get_stream(1).unwrap().flow_rate(), 333);
    assert_eq!(ledger.get_claimable_balance(1, 1_000), Ok(333_000));
    assert_eq!(ledger.get_claimable_balance(1, 2_999), Ok(998_667));
    assert_eq!(ledger.get_claimable_balance(1, 3_000), Ok(1_000_000));
}

#[test]
fn reading_the_balance_twice_gives_the_same() {
    let ledger = ledger_with_stream(0);
    for now in [0u64, 1, 49_999, 50_000, 99_999, 100_000, 200_000] {
        let first = ledger.get_claimable_balance(1, now);
        let second = ledger.get_claimable_balance(1, now);
        assert_eq!(first, second);
    }
    assert_eq!(ledger.get_claimable_balance(9, 5), ledger.get_claimable_balance(9, 5));
}

#[test]
fn reading_the_balance_changes_nothing() {
    let ledger = ledger_with_stream(0);
    let before = ledger.get_stream(1).unwrap();
    ledger.get_claimable_balance(1, 50_000).unwrap();
    assert_eq!(ledger.get_stream(1).unwrap(), before);
    assert_eq!(ledger.get_stream_count(), 1);
}

#[test]
fn withdrawn_and_claimable_never_exceed_the_total() {
    let mut ledger = ledger_with_stream(0);
    let mut now: u64 = 0;
    while now <= 120_000 {
        if now % 30_000 == 10_000 {
            ledger.withdraw_from_stream(bob(), 1, now).unwrap();
        }
        let stream = ledger.get_stream(1).unwrap();
        let claimable = ledger.get_claimable_balance(1, now).unwrap();
        assert!(stream.amount_withdrawn() + claimable <= stream.total_amount());
        if now >= stream.stop_time() {
            assert_eq!(stream.amount_withdrawn() + claimable, stream.total_amount());
        }
        now += 5_000;
    }
}

#[test]
fn the_balance_grows_with_time() {
    let ledger = ledger_with_stream(10);
    let mut previous = ledger.get_claimable_balance(1, 0).unwrap();
    let mut now: u64 = 1;
    while now < 100_100 {
        let balance = ledger.get_claimable_balance(1, now).unwrap();
        assert!(balance >= previous);
        if 10 < now && now < 100_010 {
            assert!(balance > previous);
        }
        previous = balance;
        now += 1;
    }
}

#[test]
fn the_balance_stays_at_zero_below_what_was_withdrawn() {
    let mut ledger = ledger_with_stream(0);
    ledger.withdraw_from_stream(bob(), 1, 50_000).unwrap();
    // The clock of a later call may lag behind: nothing is claimable then.
    assert_eq!(ledger.get_claimable_balance(1, 10_000), Ok(0));
    assert_eq!(ledger.get_claimable_balance(1, 20_000), Ok(0));
    assert_eq!(ledger.get_claimable_balance(1, 50_000), Ok(0));
    assert_eq!(ledger.get_claimable_balance(1, 50_001), Ok(1));
}

#[test]
fn withdrawal_pays_what_is_claimable_and_no_more() {
    let mut ledger = ledger_with_stream(0);
    assert_eq!(
        ledger.withdraw_from_stream(bob(), 1, 50_000),
        Ok(Withdrawn { stream_id: 1, recipient: bob(), amount: 50_000 })
    );
    assert_eq!(ledger.get_stream(1).unwrap().amount_withdrawn(), 50_000);
    assert_eq!(ledger.get_claimable_balance(1, 50_000), Ok(0));
    assert_eq!(ledger.withdraw_from_stream(bob(), 1, 50_000), Err(Error::NoFundsToWithdraw));
    assert_eq!(
        ledger.withdraw_from_stream(bob(), 1, 60_000),
        Ok(Withdrawn { stream_id: 1, recipient: bob(), amount: 10_000 })
    );
    assert_eq!(
        ledger.withdraw_from_stream(bob(), 1, 500_000),
        Ok(Withdrawn { stream_id: 1, recipient: bob(), amount: 40_000 })
    );
    let stream = ledger.get_stream(1).unwrap();
    assert_eq!(stream.amount_withdrawn(), 100_000);
    // A matured stream stays active until it is cancelled.
    assert!(stream.is_active());
    assert_eq!(ledger.withdraw_from_stream(bob(), 1, 600_000), Err(Error::NoFundsToWithdraw));
}

#[test]
fn withdrawal_at_the_start_finds_nothing() {
    let mut ledger = ledger_with_stream(500);
    assert_eq!(ledger.withdraw_from_stream(bob(), 1, 500), Err(Error::NoFundsToWithdraw));
    assert_eq!(ledger.withdraw_from_stream(bob(), 1, 100), Err(Error::NoFundsToWithdraw));
    assert_eq!(ledger.get_stream(1).unwrap().amount_withdrawn(), 0);
}

#[test]
fn only_the_recipient_withdraws() {
    let mut ledger = ledger_with_stream(0);
    let before = ledger.get_stream(1).unwrap();
    assert_eq!(ledger.withdraw_from_stream(alice(), 1, 50_000), Err(Error::NotRecipient));
    assert_eq!(ledger.withdraw_from_stream(charlie(), 1, 50_000), Err(Error::NotRecipient));
    assert_eq!(ledger.withdraw_from_stream(Identity::null(), 1, 50_000), Err(Error::NotRecipient));
    assert_eq!(ledger.get_stream(1).unwrap(), before);
    assert_eq!(ledger.get_stream_count(), 1);
    assert_eq!(ledger.get_claimable_balance(1, 50_000), Ok(50_000));
}

#[test]
fn the_recipient_is_checked_before_the_balance() {
    let mut ledger = ledger_with_stream(0);
    // Nothing is claimable at the start, but a stranger is told off first.
    assert_eq!(ledger.withdraw_from_stream(charlie(), 1, 0), Err(Error::NotRecipient));
}

#[test]
fn unknown_streams_are_not_found() {
    let mut ledger = ledger_with_stream(0);
    assert_eq!(ledger.get_claimable_balance(0, 10), Err(Error::StreamNotFound));
    assert_eq!(ledger.get_claimable_balance(2, 10), Err(Error::StreamNotFound));
    assert_eq!(ledger.withdraw_from_stream(bob(), 2, 10), Err(Error::StreamNotFound));
    assert_eq!(ledger.cancel_stream(alice(), 2, 10), Err(Error::StreamNotFound));
    assert_eq!(ledger.cancel_stream(alice(), u64::MAX, 10), Err(Error::StreamNotFound));
    assert_eq!(ledger.get_stream(2), None);
    assert_eq!(ledger.get_stream_count(), 1);
}

#[test]
fn cancellation_splits_what_is_left() {
    let mut ledger = ledger_with_stream(0);
    assert_eq!(
        ledger.cancel_stream(alice(), 1, 30_000),
        Ok(StreamCancelled {
            stream_id: 1,
            sender: alice(),
            recipient: bob(),
            sender_balance: 70_000,
            recipient_balance: 30_000,
        })
    );
    let stream = ledger.get_stream(1).unwrap();
    assert!(!stream.is_active());
    assert_eq!(stream.amount_withdrawn(), 0);
    assert_eq!(stream.total_amount(), 100_000);
}

#[test]
fn withdrawal_at_half_then_cancellation_at_three_quarters() {
    let mut ledger = ledger_with_stream(0);
    let paid = ledger.withdraw_from_stream(bob(), 1, 50_000).unwrap();
    assert_eq!(paid.amount, 50_000);
    let split = ledger.cancel_stream(alice(), 1, 75_000).unwrap();
    // The recipient gets what accrued since the withdrawal.
    assert_eq!(split.recipient_balance, 25_000);
    assert_eq!(split.sender_balance, 25_000);
    assert_eq!(paid.amount + split.recipient_balance + split.sender_balance, 100_000);
}

#[test]
fn forty_thousand_withdrawn_then_split_of_sixty_thousand() {
    let mut ledger = ledger_with_stream(0);
    let paid = ledger.withdraw_from_stream(bob(), 1, 40_000).unwrap();
    assert_eq!(paid.amount, 40_000);
    let split = ledger.cancel_stream(alice(), 1, 65_000).unwrap();
    assert_eq!(split.recipient_balance, 25_000);
    assert_eq!(split.sender_balance, 35_000);
    assert_eq!(40_000 + 25_000 + 35_000, 100_000);
    assert_eq!(paid.amount + split.recipient_balance + split.sender_balance, 100_000);
}

#[test]
fn the_split_is_all_that_was_not_withdrawn() {
    for withdraw_at in [0u64, 1, 20_000, 99_999, 100_000, 150_000] {
        for cancel_at in [0u64, 5, 20_000, 60_000, 100_000, 200_000] {
            let mut ledger = ledger_with_stream(0);
            let withdrawn = match ledger.withdraw_from_stream(bob(), 1, withdraw_at) {
                Ok(notice) => notice.amount,
                Err(e) => {
                    assert_eq!(e, Error::NoFundsToWithdraw);
                    0
                }
            };
            let split = ledger.cancel_stream(bob(), 1, cancel_at).unwrap();
            assert_eq!(split.sender_balance + split.recipient_balance, 100_000 - withdrawn);
        }
    }
}

#[test]
fn either_party_may_cancel_and_nobody_else() {
    let mut ledger = PolkadotStream::new();
    ledger.create_stream(alice(), bob(), 100_000, 100, 0).unwrap();
    ledger.create_stream(alice(), bob(), 100_000, 100, 0).unwrap();
    assert_eq!(ledger.cancel_stream(charlie(), 1, 10), Err(Error::NotAuthorized));
    assert_eq!(ledger.cancel_stream(Identity::null(), 1, 10), Err(Error::NotAuthorized));
    assert!(ledger.get_stream(1).unwrap().is_active());
    assert!(ledger.cancel_stream(alice(), 1, 10).is_ok());
    assert!(ledger.cancel_stream(bob(), 2, 10).is_ok());
    assert!(!ledger.get_stream(1).unwrap().is_active());
    assert!(!ledger.get_stream(2).unwrap().is_active());
}

#[test]
fn cancellation_before_the_start_refunds_everything() {
    let mut ledger = ledger_with_stream(1_000);
    let split = ledger.cancel_stream(alice(), 1, 500).unwrap();
    assert_eq!(split.recipient_balance, 0);
    assert_eq!(split.sender_balance, 100_000);
}

#[test]
fn cancellation_after_maturity_pays_the_recipient_everything() {
    let mut ledger = ledger_with_stream(0);
    let split = ledger.cancel_stream(alice(), 1, 100_000).unwrap();
    assert_eq!(split.recipient_balance, 100_000);
    assert_eq!(split.sender_balance, 0);
}

#[test]
fn a_cancelled_stream_is_final_and_stays_on_record() {
    let mut ledger = ledger_with_stream(0);
    ledger.withdraw_from_stream(bob(), 1, 10_000).unwrap();
    ledger.cancel_stream(alice(), 1, 20_000).unwrap();
    let record = ledger.get_stream(1).unwrap();
    assert!(!record.is_active());
    assert_eq!(record.amount_withdrawn(), 10_000);

    for now in [0u64, 20_000, 50_000, 100_000, u64::MAX] {
        for caller in [alice(), bob(), charlie()] {
            assert_eq!(ledger.withdraw_from_stream(caller, 1, now), Err(Error::StreamNotActive));
            assert_eq!(ledger.cancel_stream(caller, 1, now), Err(Error::StreamNotActive));
        }
        assert_eq!(ledger.get_claimable_balance(1, now), Err(Error::StreamNotActive));
    }
    // Other streams come and go; the record does not change.
    ledger.create_stream(bob(), alice(), 5_000, 5, 30_000).unwrap();
    ledger.withdraw_from_stream(alice(), 2, 31_000).unwrap();
    ledger.cancel_stream(bob(), 2, 32_000).unwrap();
    assert_eq!(ledger.get_stream(1), Some(record));
    assert_eq!(ledger.get_stream_count(), 2);
}

#[test]
fn streams_do_not_touch_each_other() {
    let mut ledger = PolkadotStream::new();
    ledger.create_stream(alice(), bob(), 100_000, 100, 0).unwrap();
    ledger.create_stream(bob(), charlie(), 6_000, 2, 1_000).unwrap();
    let first = ledger.get_stream(1).unwrap();
    assert_eq!(ledger.get_stream(2).unwrap().flow_rate(), 3);
    assert_eq!(
        ledger.withdraw_from_stream(charlie(), 2, 2_000),
        Ok(Withdrawn { stream_id: 2, recipient: charlie(), amount: 3_000 })
    );
    assert_eq!(ledger.get_stream(1).unwrap(), first);
    assert_eq!(ledger.withdraw_from_stream(charlie(), 1, 2_000), Err(Error::NotRecipient));
}

#[test]
fn the_stop_time_saturates() {
    let mut ledger = PolkadotStream::new();
    let start = u64::MAX - 5_000;
    let notice = ledger.create_stream(alice(), bob(), 100_000, 100, start).unwrap();
    assert_eq!(notice.stop_time, u64::MAX);
    let stream = ledger.get_stream(1).unwrap();
    assert_eq!(stream.flow_rate(), 1);
    assert_eq!(ledger.get_claimable_balance(1, start + 4_999), Ok(4_999));
    // The end of time counts as maturity.
    assert_eq!(ledger.get_claimable_balance(1, u64::MAX), Ok(100_000));
}

#[test]
fn the_longest_stream_of_the_largest_value() {
    let mut ledger = PolkadotStream::new();
    let notice = ledger.create_stream(alice(), bob(), u128::MAX, u64::MAX, 0).unwrap();
    assert_eq!(notice.stop_time, u64::MAX);
    let rate = u128::MAX / (u64::MAX as u128 * 1000);
    assert_eq!(rate, 18_446_744_073_709_551);
    assert_eq!(ledger.get_stream(1).unwrap().flow_rate(), rate);
    assert_eq!(ledger.get_claimable_balance(1, 1_000), Ok(rate * 1_000));
    assert_eq!(
        ledger.get_claimable_balance(1, u64::MAX - 1),
        Ok(rate * (u64::MAX as u128 - 1))
    );
    assert_eq!(ledger.get_claimable_balance(1, u64::MAX), Ok(u128::MAX));
    let split = ledger.cancel_stream(alice(), 1, 1_000).unwrap();
    assert_eq!(split.recipient_balance + split.sender_balance, u128::MAX);
}

#[test]
fn a_stream_created_at_the_end_of_time_is_mature_at_once() {
    let mut ledger = PolkadotStream::new();
    let notice = ledger.create_stream(alice(), bob(), 100_000, 100, u64::MAX).unwrap();
    assert_eq!(notice.start_time, u64::MAX);
    assert_eq!(notice.stop_time, u64::MAX);
    assert_eq!(ledger.get_claimable_balance(1, u64::MAX), Ok(100_000));
    assert_eq!(ledger.get_claimable_balance(1, u64::MAX - 1), Ok(0));
}
