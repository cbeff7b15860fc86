use awskit::batch::OverflowKind;
use awskit::batch::RecordsBuilder;

#[test]
fn test_kinesis_data_streams_records() {
    let mut records = RecordsBuilder::new_with_limit(10, 20, 3);

    match records.add_entry("0123456789".as_bytes().to_vec(), Some("".to_string()), None) {
        Err(OverflowKind::EntryTooLarge) => {}
        _ => panic!("unexpected error"),
    }
    records
        .add_entry("012345678".as_bytes().to_vec(), Some("".to_string()), None)
        .unwrap();
    records
        .add_entry("012345678".as_bytes().to_vec(), Some("".to_string()), None)
        .unwrap();

    match records.add_entry("012345678".as_bytes().to_vec(), Some("".to_string()), None) {
        Err(OverflowKind::BatchFull) => {}
        _ => panic!("unexpected error"),
    }
    records
        .add_entry("0".as_bytes().to_vec(), Some("".to_string()), None)
        .unwrap();

    match records.add_entry("0".as_bytes().to_vec(), Some("".to_string()), None) {
        Err(OverflowKind::BatchFull) => {}
        _ => panic!("unexpected error"),
    }
}

#[test]
fn test_rejection_leaves_state_unchanged() {
    let mut records = RecordsBuilder::new_with_limit(10, 20, 3);
    records
        .add_entry("012345678".as_bytes().to_vec(), Some("".to_string()), None)
        .unwrap();
    assert_eq!(records.len(), 1);

    assert!(records
        .add_entry("0123456789".as_bytes().to_vec(), Some("".to_string()), None)
        .is_err());
    assert_eq!(records.len(), 1);

    let entries = records.build();
    assert_eq!(entries.len(), 1);
    assert_eq!(entries[0].data, "012345678".as_bytes().to_vec());
    assert_eq!(entries[0].partition_key, "");
}

#[test]
fn test_generated_partition_key_length() {
    let mut records = RecordsBuilder::new();
    records.add_entry_data("payload".as_bytes().to_vec()).unwrap();
    let entries = records.build();
    assert_eq!(entries.len(), 1);
    assert_eq!(entries[0].partition_key.chars().count(), 36);
    assert!(entries[0].explicit_hash_key.is_none());
}

#[test]
fn test_generated_keys_count_against_size() {
    // A generated key adds 36 to the entry size, so a payload that alone
    // would fit no longer does.
    let mut records = RecordsBuilder::new_with_limit(40, 1000, 10);
    assert!(records.add_entry_data(vec![0u8; 10]).is_err());
    assert!(records.add_entry_data(vec![0u8; 3]).is_ok());
}

#[test]
fn test_default_limits() {
    let mut records = RecordsBuilder::new();
    assert!(records.is_empty());
    assert!(records.add_entry(vec![0u8; 1000000], Some("".to_string()), None).is_err());
    assert!(records.add_entry(vec![0u8; 999999], Some("".to_string()), None).is_ok());
    assert_eq!(records.len(), 1);
}

#[test]
fn test_count_limit_reached_before_size() {
    let mut records = RecordsBuilder::new_with_limit(100, 1000, 2);
    records.add_entry(vec![1u8], Some("a".to_string()), None).unwrap();
    records.add_entry(vec![2u8], Some("b".to_string()), None).unwrap();
    match records.add_entry(vec![3u8], Some("c".to_string()), None) {
        Err(OverflowKind::BatchFull) => {}
        _ => panic!("unexpected error"),
    }
    assert_eq!(records.build().len(), 2);
}
