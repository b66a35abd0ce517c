use transact::identity::Identity;
use transact::ledger::Ledger;
use transact::record::TransferRecord;

fn make_record(amount: u64, message: &str, keyword: &str, timestamp: i64) -> TransferRecord {
    let mut ledger = Ledger::new(1, 1024);
    let sender = Identity::new([1u8; 32]);
    let receiver = Identity::new([2u8; 32]);
    ledger
        .record_transfer_at(
            &sender,
            &sender,
            &receiver,
            amount,
            message.to_string(),
            keyword.to_string(),
            timestamp,
        )
        .expect("recording within budget and capacity must succeed")
}

#[test]
fn serialized_len_counts_fixed_part_and_text() {
    let rec = make_record(100, "hi", "greet", 42);
    assert_eq!(rec.serialized_len(), 88 + 2 + 5);
}

#[test]
fn serialized_len_counts_multibyte_text() {
    let rec = make_record(1, "é", "", 0);
    assert_eq!(rec.serialized_len(), 88 + 2);
}

#[test]
fn to_bytes_lays_fields_out_in_order() {
    let rec = make_record(0x0102030405060708, "hi", "greet", 0x1122334455667788);
    let mut expected: Vec<u8> = Vec::new();
    expected.extend_from_slice(&[1u8; 32]);
    expected.extend_from_slice(&[2u8; 32]);
    expected.extend_from_slice(&[0x08, 0x07, 0x06, 0x05, 0x04, 0x03, 0x02, 0x01]);
    expected.extend_from_slice(&[2, 0, 0, 0]);
    expected.extend_from_slice(b"hi");
    expected.extend_from_slice(&[0x88, 0x77, 0x66, 0x55, 0x44, 0x33, 0x22, 0x11]);
    expected.extend_from_slice(&[5, 0, 0, 0]);
    expected.extend_from_slice(b"greet");
    assert_eq!(rec.to_bytes(), expected);
    assert_eq!(rec.to_bytes().len() as u64, rec.serialized_len());
}

#[test]
fn negative_timestamp_serializes_as_twos_complement() {
    let rec = make_record(0, "", "", -1);
    let bytes = rec.to_bytes();
    assert_eq!(&bytes[76..84], &[0xff; 8]);
}

#[test]
fn clone_preserves_every_field() {
    let rec = make_record(9, "note", "tag", -5);
    let copy = rec.clone();
    assert_eq!(copy.sender().to_bytes(), rec.sender().to_bytes());
    assert_eq!(copy.receiver().to_bytes(), rec.receiver().to_bytes());
    assert_eq!(copy.amount(), rec.amount());
    assert_eq!(copy.message(), rec.message());
    assert_eq!(copy.keyword(), rec.keyword());
    assert_eq!(copy.timestamp(), rec.timestamp());
}

#[test]
fn identity_equality_is_by_bytes() {
    let a = Identity::new([7u8; 32]);
    let b = Identity::new([7u8; 32]);
    let mut other = [7u8; 32];
    other[31] = 8;
    let c = Identity::new(other);
    assert!(a == b);
    assert!(a != c);
    assert_eq!(a.to_bytes(), b.to_bytes());
    assert_ne!(a.to_bytes(), c.to_bytes());
}
