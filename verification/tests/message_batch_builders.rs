use awskit::message_batches::DeleteMessageBatchEntriesBuilder;
use awskit::message_batches::DeleteMessageBatchError;
use awskit::message_batches::DeleteMessageEntry;
use awskit::message_batches::DeleteMessageEntryBuilder;
use awskit::message_batches::MessageAttributeValue;
use awskit::message_batches::MessageEntryBuilder;
use awskit::message_batches::SendMessageBatchEntriesBuilder;
use awskit::message_batches::SendMessageBatchError;

#[test]
fn delete_message_batch_entries_builder_test_basic_batch() {
    let batch = DeleteMessageBatchEntriesBuilder::new()
        .add_message("msg1", "receipt_handle_1")
        .add_message("msg2", "receipt_handle_2")
        .build()
        .unwrap();

    assert_eq!(batch.len(), 2);
    assert_eq!(batch[0].id(), "msg1");
    assert_eq!(batch[0].receipt_handle(), "receipt_handle_1");
}

#[test]
fn delete_message_batch_entries_builder_test_too_many_messages() {
    let mut builder = DeleteMessageBatchEntriesBuilder::new();
    for i in 0..11 {
        builder = builder.add_message(&format!("msg{i}"), &format!("receipt_{i}"));
    }

    match builder.build() {
        Err(DeleteMessageBatchError::TooManyMessages(11)) => {}
        _ => panic!("Expected TooManyMessages error"),
    }
}

#[test]
fn delete_message_batch_entries_builder_test_duplicate_ids() {
    let result = DeleteMessageBatchEntriesBuilder::new()
        .add_message("same_id", "receipt_1")
        .add_message("same_id", "receipt_2")
        .build();

    match result {
        Err(DeleteMessageBatchError::DuplicateId(id)) => assert_eq!(id, "same_id"),
        _ => panic!("Expected DuplicateId error"),
    }
}

#[test]
fn delete_message_batch_entries_builder_test_empty_batch() {
    let result = DeleteMessageBatchEntriesBuilder::new().build();

    match result {
        Err(DeleteMessageBatchError::EmptyBatch) => {}
        _ => panic!("Expected EmptyBatch error"),
    }
}

#[test]
fn test_delete_entry_builder() {
    let entry = DeleteMessageEntryBuilder::new("custom", "custom_receipt").build();

    assert_eq!(entry.id(), "custom");
    assert_eq!(entry.receipt_handle(), "custom_receipt");
}

#[test]
fn test_add_entry() {
    let entry = DeleteMessageEntry {
        id: "direct".to_string(),
        receipt_handle: "direct_receipt".to_string(),
    };

    let batch = DeleteMessageBatchEntriesBuilder::new()
        .add_entry(entry)
        .build()
        .unwrap();

    assert_eq!(batch.len(), 1);
    assert_eq!(batch[0].id(), "direct");
    assert_eq!(batch[0].receipt_handle(), "direct_receipt");
}

#[test]
fn send_message_batch_entries_builder_test_basic_batch() {
    let batch = SendMessageBatchEntriesBuilder::new()
        .add_message("msg1", "Hello World")
        .add_message("msg2", "Goodbye World")
        .build()
        .unwrap();

    assert_eq!(batch.len(), 2);
    assert_eq!(batch[0].id(), "msg1");
    assert_eq!(batch[0].message_body(), "Hello World");
}

#[test]
fn test_message_with_delay() {
    let batch = SendMessageBatchEntriesBuilder::new()
        .add_message_with_delay("delayed", "Wait for me", 60)
        .build()
        .unwrap();

    assert_eq!(batch[0].delay_seconds(), Some(60));
}

#[test]
fn test_fifo_message() {
    let batch = SendMessageBatchEntriesBuilder::new()
        .add_fifo_message(
            "fifo1",
            "Order matters",
            "group1",
            Some("dedup123".to_string()),
        )
        .build()
        .unwrap();

    assert_eq!(batch[0].message_group_id(), Some("group1"));
    assert_eq!(batch[0].message_deduplication_id(), Some("dedup123"));
}

#[test]
fn send_message_batch_entries_builder_test_too_many_messages() {
    let mut builder = SendMessageBatchEntriesBuilder::new();
    for i in 0..11 {
        builder = builder.add_message(&format!("msg{i}"), "content");
    }

    match builder.build() {
        Err(SendMessageBatchError::TooManyMessages(11)) => {}
        _ => panic!("Expected TooManyMessages error"),
    }
}

#[test]
fn send_message_batch_entries_builder_test_duplicate_ids() {
    let result = SendMessageBatchEntriesBuilder::new()
        .add_message("same_id", "First")
        .add_message("same_id", "Second")
        .build();

    match result {
        Err(SendMessageBatchError::DuplicateId(id)) => assert_eq!(id, "same_id"),
        _ => panic!("Expected DuplicateId error"),
    }
}

#[test]
fn send_message_batch_entries_builder_test_empty_batch() {
    let result = SendMessageBatchEntriesBuilder::new().build();

    match result {
        Err(SendMessageBatchError::EmptyBatch) => {}
        _ => panic!("Expected EmptyBatch error"),
    }
}

#[test]
fn test_message_entry_builder() {
    let attr = MessageAttributeValue {
        data_type: "String".to_string(),
        string_value: Some("test_value".to_string()),
        binary_value: None,
    };

    let entry = MessageEntryBuilder::new("custom", "Custom message")
        .delay_seconds(30)
        .add_attribute("key1", attr)
        .message_group_id("custom_group")
        .build();

    assert_eq!(entry.id(), "custom");
    assert_eq!(entry.delay_seconds(), Some(30));
    assert!(entry.message_attributes().is_some());
    assert_eq!(entry.message_group_id(), Some("custom_group"));
}

#[test]
fn test_exactly_ten_messages_pass() {
    let mut builder = SendMessageBatchEntriesBuilder::new();
    for i in 0..10 {
        builder = builder.add_message(&format!("msg{i}"), "content");
    }

    assert_eq!(builder.build().unwrap().len(), 10);
}
