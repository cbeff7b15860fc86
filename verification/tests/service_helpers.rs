use awskit::dynamodb::get_capacity;
use awskit::dynamodb::import_step;
use awskit::dynamodb::ImportDecision;
use awskit::dynamodb::ImportProgress;
use awskit::dynamodb::TableDescription;
use awskit::dynamodb::Throughput;
use awskit::dynamodb::Error as DynamoError;
use awskit::dynamodb::ServiceErrorKind as DynamoKind;
use awskit::messaging::delete_entries_from_handles;
use awskit::messaging::fifo_queue_attributes;
use awskit::messaging::messages_from_parts;
use awskit::messaging::send_entries_from_messages;
use awskit::messaging::SendMessageType;
use awskit::queue_attributes::CreateQueueAttributeBuilder;
use awskit::queue_attributes::DeduplicationScope;
use awskit::queue_attributes::Error as AttrError;
use awskit::queue_attributes::FifoThroughputLimit;
use awskit::queue_attributes::QueueAttributeName;
use awskit::queue_attributes::RedriveAllowPolicy;
use awskit::queue_attributes::RedrivePolicy;
use awskit::s3::chunk_keys;
use awskit::s3::copy_destination_key;
use awskit::s3::object_exists;
use awskit::s3::strip_prefix_key;
use awskit::s3::Error as S3Error;
use awskit::s3::ServiceErrorKind as S3Kind;

#[test]
fn test_queue_attributes_happy_path() {
    let attrs = CreateQueueAttributeBuilder::new()
        .delay_seconds(30)
        .visibility_timeout(60)
        .content_based_deduplication(true)
        .build()
        .unwrap();

    assert_eq!(
        attrs,
        vec![
            (QueueAttributeName::DelaySeconds, "30".to_string()),
            (QueueAttributeName::VisibilityTimeout, "60".to_string()),
            (QueueAttributeName::ContentBasedDeduplication, "true".to_string()),
        ]
    );
}

#[test]
fn test_queue_attributes_delay_out_of_range() {
    let result = CreateQueueAttributeBuilder::new().delay_seconds(901).build();
    match result {
        Err(AttrError::ValidationError(m)) => {
            assert_eq!(m, "DelaySeconds must be between 0 and 900 seconds.");
        }
        _ => panic!("expected a validation error"),
    }
}

#[test]
fn test_queue_attributes_fifo_combination_required() {
    let result = CreateQueueAttributeBuilder::new()
        .fifo_throughput_limit(FifoThroughputLimit::PerMessageGroupId)
        .build();
    assert!(result.is_err());

    let ok = CreateQueueAttributeBuilder::new()
        .fifo_throughput_limit(FifoThroughputLimit::PerMessageGroupId)
        .deduplication_scope(DeduplicationScope::MessageGroup)
        .build()
        .unwrap();
    assert_eq!(
        ok,
        vec![
            (QueueAttributeName::FifoThroughputLimit, "perMessageGroupId".to_string()),
            (QueueAttributeName::DeduplicationScope, "messageGroup".to_string()),
        ]
    );
}

#[test]
fn test_queue_attributes_by_queue_needs_sources() {
    let result = CreateQueueAttributeBuilder::new()
        .redrive_allow_policy(RedriveAllowPolicy::by_queue(Vec::new()))
        .build();
    match result {
        Err(AttrError::ValidationError(m)) => {
            assert_eq!(m, "sourceQueueArns cannot be empty when using byQueue permission.");
        }
        _ => panic!("expected a validation error"),
    }
}

#[test]
fn test_redrive_policy_json_contents() {
    let json = RedrivePolicy::new(3, "arn:aws:sqs:eu-west-1:1:dead".to_string()).to_json();
    assert!(json.contains("maxReceiveCount"));
    assert!(json.contains("\"3\""));
    assert!(json.contains("deadLetterTargetArn"));
    assert!(json.contains("arn:aws:sqs:eu-west-1:1:dead"));
}

#[test]
fn test_redrive_allow_policy_json_contents() {
    let allow = RedriveAllowPolicy::allow_all().to_json();
    assert!(allow.contains("redrivePermission"));
    assert!(allow.contains("allowAll"));
    assert!(!allow.contains("sourceQueueArns"));

    let by_queue = RedriveAllowPolicy::by_queue(vec!["arn:q1".to_string()]).to_json();
    assert!(by_queue.contains("byQueue"));
    assert!(by_queue.contains("sourceQueueArns"));
    assert!(by_queue.contains("arn:q1"));
}

#[test]
fn test_queue_attributes_redrive_policies_rendered() {
    let attrs = CreateQueueAttributeBuilder::new()
        .redrive_policy(RedrivePolicy::new(5, "arn:dlq".to_string()))
        .redrive_allow_policy(RedriveAllowPolicy::deny_all())
        .build()
        .unwrap();

    assert_eq!(attrs.len(), 2);
    assert_eq!(attrs[0].0, QueueAttributeName::RedrivePolicy);
    assert!(attrs[0].1.contains("arn:dlq"));
    assert_eq!(attrs[1].0, QueueAttributeName::RedriveAllowPolicy);
    assert!(attrs[1].1.contains("denyAll"));
}

#[test]
fn test_fifo_queue_attributes() {
    let attrs = fifo_queue_attributes();
    assert_eq!(
        attrs,
        vec![
            (QueueAttributeName::MessageRetentionPeriod, "1209600".to_string()),
            (QueueAttributeName::VisibilityTimeout, "43200".to_string()),
            (QueueAttributeName::FifoQueue, "true".to_string()),
            (QueueAttributeName::DeduplicationScope, "messageGroup".to_string()),
            (QueueAttributeName::FifoThroughputLimit, "perMessageGroupId".to_string()),
        ]
    );
}

#[test]
fn test_messages_from_parts_drops_bodyless() {
    let parts = vec![
        (Some("rh1".to_string()), Some("hello".to_string())),
        (Some("rh2".to_string()), None),
        (None, Some("anonymous".to_string())),
    ];
    let messages = messages_from_parts(parts);
    assert_eq!(messages.len(), 2);
    assert_eq!(messages[0].receipt_handle, "rh1");
    assert_eq!(messages[0].message, "hello");
    assert_eq!(messages[1].receipt_handle, "");
    assert_eq!(messages[1].message, "anonymous");
}

#[test]
fn test_send_entries_are_numbered_and_keyed() {
    let messages = vec![
        SendMessageType { key: "k0".to_string(), message: "m0".to_string() },
        SendMessageType { key: "k1".to_string(), message: "m1".to_string() },
    ];
    let entries = send_entries_from_messages(&messages);
    assert_eq!(entries.len(), 2);
    assert_eq!(entries[0].id(), "message_0");
    assert_eq!(entries[1].id(), "message_1");
    assert_eq!(entries[1].message_body(), "m1");
    assert_eq!(entries[1].message_group_id(), Some("k1"));
    assert_eq!(entries[1].message_deduplication_id(), Some("k1"));
}

#[test]
fn test_delete_entries_are_numbered() {
    let handles = vec!["h0".to_string(), "h1".to_string(), "h2".to_string()];
    let entries = delete_entries_from_handles(&handles);
    assert_eq!(entries.len(), 3);
    assert_eq!(entries[2].id(), "message_2");
    assert_eq!(entries[2].receipt_handle(), "h2");
}

#[test]
fn test_chunk_keys_full_batches_then_rest() {
    let keys: Vec<String> = (0..5).map(|i| format!("k{i}")).collect();
    let chunks = chunk_keys(keys, 2);
    assert_eq!(chunks.len(), 3);
    assert_eq!(chunks[0], vec!["k0".to_string(), "k1".to_string()]);
    assert_eq!(chunks[1], vec!["k2".to_string(), "k3".to_string()]);
    assert_eq!(chunks[2], vec!["k4".to_string()]);
}

#[test]
fn test_chunk_keys_exact_multiple() {
    let keys: Vec<String> = (0..4).map(|i| format!("k{i}")).collect();
    let chunks = chunk_keys(keys, 2);
    assert_eq!(chunks.len(), 2);
    assert_eq!(chunks[1], vec!["k2".to_string(), "k3".to_string()]);

    assert_eq!(chunk_keys(Vec::new(), 1000).len(), 0);
}

#[test]
fn test_strip_prefix_key() {
    assert_eq!(
        strip_prefix_key("in/2024/file.csv", "in/"),
        Some("2024/file.csv".to_string())
    );
    assert_eq!(strip_prefix_key("other/file.csv", "in/"), None);
    assert_eq!(strip_prefix_key("in", "in/"), None);
    assert_eq!(strip_prefix_key("in/", "in/"), Some("".to_string()));
}

#[test]
fn test_copy_destination_key() {
    assert_eq!(copy_destination_key("out", "2024/file.csv"), "out/2024/file.csv");
}

#[test]
fn test_object_exists_decision() {
    assert_eq!(object_exists(Ok(())), Ok(true));
    assert_eq!(object_exists(Err(S3Error::AwsSdk(S3Kind::NoSuchKey))), Ok(false));
    assert_eq!(object_exists(Err(S3Error::AwsSdk(S3Kind::NoSuchBucket))), Ok(false));
    assert_eq!(
        object_exists(Err(S3Error::AwsSdk(S3Kind::Other))),
        Err(S3Error::AwsSdk(S3Kind::Other))
    );
}

#[test]
fn test_s3_error_classifiers() {
    assert!(S3Error::AwsSdk(S3Kind::NoSuchKey).is_no_such_key());
    assert!(!S3Error::AwsSdk(S3Kind::NoSuchKey).is_no_such_bucket());
    assert!(S3Error::AwsSdk(S3Kind::NotFound).is_not_found());
    assert!(!S3Error::ValidationError("x".to_string()).is_not_found());
}

#[test]
fn test_get_capacity() {
    assert_eq!(get_capacity(None), Err(DynamoError::NotFound));

    let unprovisioned = TableDescription { provisioned_throughput: None };
    match get_capacity(Some(unprovisioned)) {
        Err(DynamoError::ValidationError(m)) => {
            assert_eq!(m, "Table does not have provisioned throughput");
        }
        _ => panic!("expected a validation error"),
    }

    let table = TableDescription {
        provisioned_throughput: Some(Throughput {
            read_capacity_units: Some(7),
            write_capacity_units: None,
        }),
    };
    assert_eq!(get_capacity(Some(table)), Ok((7, 0)));
}

#[test]
fn test_dynamo_error_classifier() {
    assert!(DynamoError::AwsSdk(DynamoKind::ConditionalCheckFailed)
        .is_conditional_check_failed_exception());
    assert!(!DynamoError::NotFound.is_conditional_check_failed_exception());
}

#[test]
fn test_import_step() {
    assert_eq!(import_step(ImportProgress::Completed, 0, 60), ImportDecision::Done);
    assert_eq!(import_step(ImportProgress::Other, 0, 60), ImportDecision::Failed);
    assert_eq!(
        import_step(ImportProgress::InProgress, 0, 60),
        ImportDecision::SleepAndRetry(1)
    );
    assert_eq!(
        import_step(ImportProgress::InProgress, 59, 60),
        ImportDecision::SleepAndRetry(60)
    );
    assert_eq!(import_step(ImportProgress::InProgress, 60, 60), ImportDecision::TimedOut);
}
