use transact::errors::RecordError;
use transact::identity::Identity;
use transact::ledger::Ledger;

fn id(byte: u8) -> Identity {
    Identity::new([byte; 32])
}

#[test]
fn single_record_is_listed_and_counted() {
    let mut ledger = Ledger::new(10, 64);
    let s1 = id(1);
    let r1 = id(2);
    let result = ledger.record_transfer_at(&s1, &s1, &r1, 100, "hi".to_string(), "greet".to_string(), 42);
    let rec = result.expect("recording within budget and capacity must succeed");
    assert_eq!(ledger.get_count(), 1);
    let listed = ledger.list_transfers();
    assert_eq!(listed.len(), 1);
    assert_eq!(listed[0].sender().to_bytes(), [1u8; 32]);
    assert_eq!(listed[0].receiver().to_bytes(), [2u8; 32]);
    assert_eq!(listed[0].amount(), 100);
    assert_eq!(listed[0].message().as_str(), "hi");
    assert_eq!(listed[0].keyword().as_str(), "greet");
    assert_eq!(listed[0].timestamp(), 42);
    assert_eq!(rec.timestamp(), 42);
    assert_eq!(rec.amount(), 100);
}

#[test]
fn three_records_keep_insertion_order() {
    let mut ledger = Ledger::new(10, 64);
    let s1 = id(1);
    let r1 = id(2);
    for amount in 1..=3u64 {
        let got = ledger.record_transfer_at(
            &s1,
            &s1,
            &r1,
            amount,
            format!("m{}", amount),
            "k".to_string(),
            100 + amount as i64,
        );
        assert!(got.is_ok());
    }
    assert_eq!(ledger.get_count(), 3);
    let listed = ledger.list_transfers();
    assert_eq!(listed.len(), 3);
    assert_eq!(listed[0].amount(), 1);
    assert_eq!(listed[1].amount(), 2);
    assert_eq!(listed[2].amount(), 3);
    assert_eq!(listed[0].message().as_str(), "m1");
    assert_eq!(listed[2].message().as_str(), "m3");
}

#[test]
fn mismatched_sender_is_unauthorized() {
    let mut ledger = Ledger::new(10, 64);
    let caller = id(1);
    let claimed = id(9);
    let receiver = id(2);
    let result = ledger.record_transfer_at(
        &caller,
        &claimed,
        &receiver,
        5,
        "hi".to_string(),
        "k".to_string(),
        7,
    );
    assert_eq!(result.unwrap_err(), RecordError::Unauthorized);
    assert_eq!(ledger.get_count(), 0);
    assert_eq!(ledger.list_transfers().len(), 0);
}

#[test]
fn oversized_message_is_rejected() {
    let mut ledger = Ledger::new(10, 4);
    let s1 = id(1);
    let r1 = id(2);
    let result = ledger.record_transfer_at(
        &s1,
        &s1,
        &r1,
        5,
        "five bytes and more".to_string(),
        "k".to_string(),
        7,
    );
    assert_eq!(result.unwrap_err(), RecordError::FieldTooLong);
    assert_eq!(ledger.get_count(), 0);
    assert_eq!(ledger.list_transfers().len(), 0);
}

#[test]
fn oversized_keyword_is_rejected() {
    let mut ledger = Ledger::new(10, 4);
    let s1 = id(1);
    let r1 = id(2);
    let result =
        ledger.record_transfer_at(&s1, &s1, &r1, 5, "ok".to_string(), "toolong".to_string(), 7);
    assert_eq!(result.unwrap_err(), RecordError::FieldTooLong);
    assert_eq!(ledger.get_count(), 0);
}

#[test]
fn full_store_rejects_one_more() {
    let mut ledger = Ledger::new(2, 64);
    let s1 = id(1);
    let r1 = id(2);
    assert!(ledger
        .record_transfer_at(&s1, &s1, &r1, 1, "a".to_string(), "k".to_string(), 1)
        .is_ok());
    assert!(ledger
        .record_transfer_at(&s1, &s1, &r1, 2, "b".to_string(), "k".to_string(), 2)
        .is_ok());
    let result = ledger.record_transfer_at(&s1, &s1, &r1, 3, "c".to_string(), "k".to_string(), 3);
    assert_eq!(result.unwrap_err(), RecordError::CapacityExceeded);
    assert_eq!(ledger.get_count(), 2);
    assert_eq!(ledger.list_transfers().len(), 2);
}

#[test]
fn count_always_matches_history_length() {
    let mut ledger = Ledger::new(2, 8);
    let s1 = id(1);
    let r1 = id(2);
    assert_eq!(ledger.get_count() as usize, ledger.list_transfers().len());
    let _ = ledger.record_transfer_at(&s1, &s1, &r1, 1, "a".to_string(), "k".to_string(), 1);
    assert_eq!(ledger.get_count() as usize, ledger.list_transfers().len());
    let _ = ledger.record_transfer_at(&s1, &r1, &r1, 2, "b".to_string(), "k".to_string(), 2);
    assert_eq!(ledger.get_count() as usize, ledger.list_transfers().len());
    let _ = ledger.record_transfer_at(&s1, &s1, &r1, 3, "way over the byte budget".to_string(), "k".to_string(), 3);
    assert_eq!(ledger.get_count() as usize, ledger.list_transfers().len());
    let _ = ledger.record_transfer_at(&s1, &s1, &r1, 4, "c".to_string(), "k".to_string(), 4);
    let _ = ledger.record_transfer_at(&s1, &s1, &r1, 5, "d".to_string(), "k".to_string(), 5);
    assert_eq!(ledger.get_count() as usize, ledger.list_transfers().len());
    assert_eq!(ledger.get_count(), 2);
}

#[test]
fn count_increases_by_exactly_one_per_success() {
    let mut ledger = Ledger::new(5, 16);
    let s1 = id(1);
    let r1 = id(2);
    let mut previous = ledger.get_count();
    assert_eq!(previous, 0);
    for amount in 0..4u64 {
        let got = ledger.record_transfer_at(&s1, &s1, &r1, amount, "m".to_string(), "k".to_string(), 9);
        assert!(got.is_ok());
        let now = ledger.get_count();
        assert_eq!(now, previous + 1);
        previous = now;
    }
}

#[test]
fn failed_call_leaves_ledger_unchanged() {
    let mut ledger = Ledger::new(5, 16);
    let s1 = id(1);
    let r1 = id(2);
    let stranger = id(3);
    assert!(ledger
        .record_transfer_at(&s1, &s1, &r1, 77, "keep".to_string(), "tag".to_string(), 11)
        .is_ok());
    let count_before = ledger.get_count();
    let listed_before: Vec<(Vec<u8>, Vec<u8>, u64, String, String, i64)> = ledger
        .list_transfers()
        .iter()
        .map(|r| {
            (
                r.sender().to_bytes().to_vec(),
                r.receiver().to_bytes().to_vec(),
                r.amount(),
                r.message().clone(),
                r.keyword().clone(),
                r.timestamp(),
            )
        })
        .collect();
    let denied = ledger.record_transfer_at(
        &stranger,
        &s1,
        &r1,
        99,
        "evil".to_string(),
        "tag".to_string(),
        12,
    );
    assert!(denied.is_err());
    assert_eq!(ledger.get_count(), count_before);
    let listed_after: Vec<(Vec<u8>, Vec<u8>, u64, String, String, i64)> = ledger
        .list_transfers()
        .iter()
        .map(|r| {
            (
                r.sender().to_bytes().to_vec(),
                r.receiver().to_bytes().to_vec(),
                r.amount(),
                r.message().clone(),
                r.keyword().clone(),
                r.timestamp(),
            )
        })
        .collect();
    assert_eq!(listed_before, listed_after);
}

#[test]
fn recorded_entries_never_change() {
    let mut ledger = Ledger::new(10, 32);
    let s1 = id(1);
    let r1 = id(2);
    assert!(ledger
        .record_transfer_at(&s1, &s1, &r1, 1, "first".to_string(), "k".to_string(), 1)
        .is_ok());
    let frozen_message = ledger.list_transfers()[0].message().clone();
    let frozen_amount = ledger.list_transfers()[0].amount();
    let h = ledger.on_transfer();
    assert!(ledger
        .record_transfer_at(&s1, &s1, &r1, 2, "second".to_string(), "k".to_string(), 2)
        .is_ok());
    let _ = ledger.collect_notifications(&h);
    let _ = ledger.unregister(&h);
    assert_eq!(ledger.list_transfers()[0].message().as_str(), frozen_message);
    assert_eq!(ledger.list_transfers()[0].amount(), frozen_amount);
}

#[test]
fn wall_clock_recording_succeeds() {
    let mut ledger = Ledger::new(3, 32);
    let s1 = id(4);
    let r1 = id(5);
    let rec = ledger
        .record_transfer(&s1, &s1, &r1, 10, "hi".to_string(), "greet".to_string())
        .expect("recording within budget and capacity must succeed");
    assert_eq!(ledger.get_count(), 1);
    let listed = ledger.list_transfers();
    assert_eq!(listed[0].timestamp(), rec.timestamp());
    assert_eq!(listed[0].amount(), 10);
    assert!(rec.timestamp() > 0);
}

#[test]
fn configuration_is_reported() {
    let ledger = Ledger::new(7, 21);
    assert_eq!(ledger.max_records(), 7);
    assert_eq!(ledger.field_budget(), 21);
    assert_eq!(ledger.get_count(), 0);
}
