//! Builder for the attribute set a queue is created with: every attribute
//! explicit, each validated against its documented range before anything is
//! emitted, and the two redrive policies rendered as JSON documents.
use crate::decimal::dec_digits;
use crate::decimal::u64_to_dec;
use vstd::prelude::*;
use vstd::string::StringExecFns;

verus! {

/// Why the attribute set failed validation.
#[derive(Debug, Clone, PartialEq, Eq)]
pub enum Error {
    ValidationError(String),
}

/// The attribute names the builder can emit.
#[derive(Debug, Clone, Copy, PartialEq, Eq, Structural)]
pub enum QueueAttributeName {
    DelaySeconds,
    MaximumMessageSize,
    MessageRetentionPeriod,
    Policy,
    ReceiveMessageWaitTimeSeconds,
    VisibilityTimeout,
    RedrivePolicy,
    RedriveAllowPolicy,
    ContentBasedDeduplication,
    KmsMasterKeyId,
    KmsDataKeyReusePeriodSeconds,
    SqsManagedSseEnabled,
    FifoThroughputLimit,
    DeduplicationScope,
    FifoQueue,
}

/// How FIFO throughput is limited.
#[derive(Debug, Clone, Copy, PartialEq, Eq, Structural)]
pub enum FifoThroughputLimit {
    PerMessageGroupId,
    PerQueue,
}

/// At which granularity FIFO deduplication applies.
#[derive(Debug, Clone, Copy, PartialEq, Eq, Structural)]
pub enum DeduplicationScope {
    MessageGroup,
    Queue,
}

/// Sends messages that failed too often to a dead-letter queue.
#[derive(Debug, Clone)]
pub struct RedrivePolicy {
    pub max_receive_count: u32,
    pub dead_letter_target_arn: String,
}

/// The JSON document `RedrivePolicy::to_json` renders from the receive
/// count and the target queue ARN.
pub uninterp spec fn redrive_policy_json_of(
    max_receive_count: int,
    dead_letter_target_arn: Seq<char>,
) -> Seq<char>;

/// Relies on `serde_json::to_string` over a two-field object of strings,
/// which cannot fail for such a value: the rendering depends on the two
/// fields alone.
#[verifier::external_body]
fn render_redrive_policy_json(max_receive_count: u32, dead_letter_target_arn: &str) -> (r: String)
    ensures
        r@ == redrive_policy_json_of(max_receive_count as int, dead_letter_target_arn@),
{
    let mut policy = serde_json::Map::new();
    policy.insert(
        "maxReceiveCount".to_string(),
        serde_json::Value::String(max_receive_count.to_string()),
    );
    policy.insert(
        "deadLetterTargetArn".to_string(),
        serde_json::Value::String(dead_letter_target_arn.to_string()),
    );
    serde_json::to_string(&serde_json::Value::Object(policy)).unwrap_or_default()
}

impl RedrivePolicy {
    /// A policy from its two pieces.
    pub fn new(max_receive_count: u32, dead_letter_target_arn: String) -> (r: Self)
        ensures
            r.max_receive_count == max_receive_count,
            r.dead_letter_target_arn == dead_letter_target_arn,
    {
        RedrivePolicy { max_receive_count, dead_letter_target_arn }
    }

    /// The policy as the JSON document the queue attribute carries.
    pub fn to_json(&self) -> (r: String)
        ensures
            r@ == redrive_policy_json_of(
                self.max_receive_count as int,
                self.dead_letter_target_arn@,
            ),
    {
        render_redrive_policy_json(self.max_receive_count, self.dead_letter_target_arn.as_str())
    }
}

/// Who may use this queue as a dead-letter target.
#[derive(Debug, Clone, Copy, PartialEq, Eq, Structural)]
pub enum RedrivePermission {
    AllowAll,
    DenyAll,
    ByQueue,
}

/// The permission's name inside the policy document.
pub open spec fn permission_str(p: RedrivePermission) -> Seq<char> {
    match p {
        RedrivePermission::AllowAll => "allowAll"@,
        RedrivePermission::DenyAll => "denyAll"@,
        RedrivePermission::ByQueue => "byQueue"@,
    }
}

impl RedrivePermission {
    /// The permission as the text the policy document uses.
    pub fn as_str(&self) -> (r: &'static str)
        ensures
            r@ == permission_str(*self),
    {
        match self {
            RedrivePermission::AllowAll => "allowAll",
            RedrivePermission::DenyAll => "denyAll",
            RedrivePermission::ByQueue => "byQueue",
        }
    }
}

/// Which source queues may redrive into this queue.
#[derive(Debug, Clone)]
pub struct RedriveAllowPolicy {
    pub redrive_permission: RedrivePermission,
    pub source_queue_arns: Option<Vec<String>>,
}

/// The JSON document `RedriveAllowPolicy::to_json` renders from the
/// permission name and the source queue ARNs, when any are named.
pub uninterp spec fn redrive_allow_policy_json_of(
    permission: Seq<char>,
    source_queue_arns: Option<Seq<Seq<char>>>,
) -> Seq<char>;

/// Relies on `serde_json::to_string` over an object of a string and an
/// optional array of strings, which cannot fail for such a value: the
/// rendering depends on those fields alone.
#[verifier::external_body]
fn render_redrive_allow_policy_json(permission: &str, source_queue_arns: Option<&Vec<String>>) -> (r:
    String)
    ensures
        r@ == redrive_allow_policy_json_of(
            permission@,
            match source_queue_arns {
                Some(arns) => Some(arns.deep_view()),
                None => None,
            },
        ),
{
    let mut policy = serde_json::Map::new();
    policy.insert(
        "redrivePermission".to_string(),
        serde_json::Value::String(permission.to_string()),
    );
    if let Some(arns) = source_queue_arns {
        let list = arns.iter().map(|a| serde_json::Value::String(a.clone())).collect();
        policy.insert("sourceQueueArns".to_string(), serde_json::Value::Array(list));
    }
    serde_json::to_string(&serde_json::Value::Object(policy)).unwrap_or_default()
}

impl RedriveAllowPolicy {
    /// A policy admitting every source queue.
    pub fn allow_all() -> (r: Self)
        ensures
            r.redrive_permission == RedrivePermission::AllowAll,
            r.source_queue_arns is None,
    {
        RedriveAllowPolicy { redrive_permission: RedrivePermission::AllowAll, source_queue_arns: None }
    }

    /// A policy admitting no source queue.
    pub fn deny_all() -> (r: Self)
        ensures
            r.redrive_permission == RedrivePermission::DenyAll,
            r.source_queue_arns is None,
    {
        RedriveAllowPolicy { redrive_permission: RedrivePermission::DenyAll, source_queue_arns: None }
    }

    /// A policy admitting exactly the named source queues.
    pub fn by_queue(source_queue_arns: Vec<String>) -> (r: Self)
        ensures
            r.redrive_permission == RedrivePermission::ByQueue,
            r.source_queue_arns == Some(source_queue_arns),
    {
        RedriveAllowPolicy {
            redrive_permission: RedrivePermission::ByQueue,
            source_queue_arns: Some(source_queue_arns),
        }
    }

    /// The policy as the JSON document the queue attribute carries.
    pub fn to_json(&self) -> (r: String)
        ensures
            r@ == redrive_allow_policy_json_of(
                permission_str(self.redrive_permission),
                match self.source_queue_arns {
                    Some(arns) => Some(arns.deep_view()),
                    None => None,
                },
            ),
    {
        match &self.source_queue_arns {
            Some(arns) => render_redrive_allow_policy_json(
                self.redrive_permission.as_str(),
                Some(arns),
            ),
            None => render_redrive_allow_policy_json(self.redrive_permission.as_str(), None),
        }
    }
}

/// The boolean attribute values.
pub open spec fn bool_str(b: bool) -> Seq<char> {
    if b {
        "true"@
    } else {
        "false"@
    }
}

fn bool_string(b: bool) -> (r: String)
    ensures
        r@ == bool_str(b),
{
    if b {
        "true".to_owned()
    } else {
        "false".to_owned()
    }
}

/// The throughput limit's attribute value.
pub open spec fn fifo_limit_str(f: FifoThroughputLimit) -> Seq<char> {
    match f {
        FifoThroughputLimit::PerMessageGroupId => "perMessageGroupId"@,
        FifoThroughputLimit::PerQueue => "perQueue"@,
    }
}

/// The deduplication scope's attribute value.
pub open spec fn scope_str(s: DeduplicationScope) -> Seq<char> {
    match s {
        DeduplicationScope::MessageGroup => "messageGroup"@,
        DeduplicationScope::Queue => "queue"@,
    }
}

/// The configuration the builder assembles: every attribute explicit, an
/// unset one emitted as nothing.
pub struct CreateQueueAttributeBuilder {
    pub delay_seconds: Option<u32>,
    pub maximum_message_size: Option<u32>,
    pub message_retention_period: Option<u32>,
    pub policy: Option<String>,
    pub receive_message_wait_time_seconds: Option<u32>,
    pub visibility_timeout: Option<u32>,
    pub redrive_policy: Option<RedrivePolicy>,
    pub redrive_allow_policy: Option<RedriveAllowPolicy>,
    pub content_based_deduplication: Option<bool>,
    pub kms_master_key_id: Option<String>,
    pub kms_data_key_reuse_period_seconds: Option<u32>,
    pub sqs_managed_sse_enabled: Option<bool>,
    pub fifo_throughput_limit: Option<FifoThroughputLimit>,
    pub deduplication_scope: Option<DeduplicationScope>,
}

/// The attribute pairs a set attribute contributes: one pair when set,
/// nothing otherwise.
pub open spec fn opt_attr(name: QueueAttributeName, v: Option<Seq<char>>) -> Seq<
    (QueueAttributeName, Seq<char>),
> {
    match v {
        Some(s) => seq![(name, s)],
        None => seq![],
    }
}

/// The first validation failure `build` reports, in the order the checks
/// run, if any attribute is outside its documented range.
pub open spec fn build_err(b: CreateQueueAttributeBuilder) -> Option<Seq<char>> {
    if (match b.delay_seconds {
        Some(v) => v > 900,
        None => false,
    }) {
        Some("DelaySeconds must be between 0 and 900 seconds."@)
    } else if (match b.maximum_message_size {
        Some(v) => v < 1024 || v > 262144,
        None => false,
    }) {
        Some("MaximumMessageSize must be between 1024 and 262144 bytes."@)
    } else if (match b.message_retention_period {
        Some(v) => v < 60 || v > 1209600,
        None => false,
    }) {
        Some("MessageRetentionPeriod must be between 60 and 1209600 seconds."@)
    } else if (match b.receive_message_wait_time_seconds {
        Some(v) => v > 20,
        None => false,
    }) {
        Some("ReceiveMessageWaitTimeSeconds must be between 0 and 20 seconds."@)
    } else if (match b.visibility_timeout {
        Some(v) => v > 43200,
        None => false,
    }) {
        Some("VisibilityTimeout must be between 0 and 43200 seconds."@)
    } else if (match b.kms_data_key_reuse_period_seconds {
        Some(v) => v < 60 || v > 86400,
        None => false,
    }) {
        Some("KmsDataKeyReusePeriodSeconds must be between 60 and 86400 seconds."@)
    } else if (match b.redrive_policy {
        Some(p) => p.max_receive_count < 1 || p.max_receive_count > 1000,
        None => false,
    }) {
        Some("maxReceiveCount must be between 1 and 1000."@)
    } else if (match b.redrive_allow_policy {
        Some(p) => p.redrive_permission is ByQueue && (match p.source_queue_arns {
            Some(a) => a@.len() == 0,
            None => false,
        }),
        None => false,
    }) {
        Some("sourceQueueArns cannot be empty when using byQueue permission."@)
    } else if (match b.redrive_allow_policy {
        Some(p) => p.redrive_permission is ByQueue && (match p.source_queue_arns {
            Some(a) => a@.len() > 10,
            None => false,
        }),
        None => false,
    }) {
        Some("sourceQueueArns cannot contain more than 10 queue ARNs."@)
    } else if (match b.redrive_allow_policy {
        Some(p) => p.redrive_permission is ByQueue && p.source_queue_arns is None,
        None => false,
    }) {
        Some("sourceQueueArns must be provided when using byQueue permission."@)
    } else if (match b.fifo_throughput_limit {
        Some(f) => f is PerMessageGroupId && !(b.deduplication_scope == Some(
            DeduplicationScope::MessageGroup,
        )),
        None => false,
    }) {
        Some("FifoThroughputLimit.PerMessageGroupId requires DeduplicationScope.MessageGroup"@)
    } else {
        None
    }
}

/// The attribute pairs `build` emits for a validated configuration, in the
/// order the attributes are listed.
pub open spec fn attrs_spec(b: CreateQueueAttributeBuilder) -> Seq<
    (QueueAttributeName, Seq<char>),
> {
    opt_attr(
        QueueAttributeName::DelaySeconds,
        match b.delay_seconds {
            Some(v) => Some(dec_digits(v as nat)),
            None => None,
        },
    ) + opt_attr(
        QueueAttributeName::MaximumMessageSize,
        match b.maximum_message_size {
            Some(v) => Some(dec_digits(v as nat)),
            None => None,
        },
    ) + opt_attr(
        QueueAttributeName::MessageRetentionPeriod,
        match b.message_retention_period {
            Some(v) => Some(dec_digits(v as nat)),
            None => None,
        },
    ) + opt_attr(
        QueueAttributeName::Policy,
        match b.policy {
            Some(p) => Some(p@),
            None => None,
        },
    ) + opt_attr(
        QueueAttributeName::ReceiveMessageWaitTimeSeconds,
        match b.receive_message_wait_time_seconds {
            Some(v) => Some(dec_digits(v as nat)),
            None => None,
        },
    ) + opt_attr(
        QueueAttributeName::VisibilityTimeout,
        match b.visibility_timeout {
            Some(v) => Some(dec_digits(v as nat)),
            None => None,
        },
    ) + opt_attr(
        QueueAttributeName::RedrivePolicy,
        match b.redrive_policy {
            Some(p) => Some(redrive_policy_json_of(
                p.max_receive_count as int,
                p.dead_letter_target_arn@,
            )),
            None => None,
        },
    ) + opt_attr(
        QueueAttributeName::RedriveAllowPolicy,
        match b.redrive_allow_policy {
            Some(p) => Some(redrive_allow_policy_json_of(
                permission_str(p.redrive_permission),
                match p.source_queue_arns {
                    Some(arns) => Some(arns.deep_view()),
                    None => None,
                },
            )),
            None => None,
        },
    ) + opt_attr(
        QueueAttributeName::ContentBasedDeduplication,
        match b.content_based_deduplication {
            Some(v) => Some(bool_str(v)),
            None => None,
        },
    ) + opt_attr(
        QueueAttributeName::KmsMasterKeyId,
        match b.kms_master_key_id {
            Some(k) => Some(k@),
            None => None,
        },
    ) + opt_attr(
        QueueAttributeName::KmsDataKeyReusePeriodSeconds,
        match b.kms_data_key_reuse_period_seconds {
            Some(v) => Some(dec_digits(v as nat)),
            None => None,
        },
    ) + opt_attr(
        QueueAttributeName::SqsManagedSseEnabled,
        match b.sqs_managed_sse_enabled {
            Some(v) => Some(bool_str(v)),
            None => None,
        },
    ) + opt_attr(
        QueueAttributeName::FifoThroughputLimit,
        match b.fifo_throughput_limit {
            Some(f) => Some(fifo_limit_str(f)),
            None => None,
        },
    ) + opt_attr(
        QueueAttributeName::DeduplicationScope,
        match b.deduplication_scope {
            Some(s) => Some(scope_str(s)),
            None => None,
        },
    )
}

/// The attribute pairs by view.
pub open spec fn pairs_view(s: Seq<(QueueAttributeName, String)>) -> Seq<
    (QueueAttributeName, Seq<char>),
> {
    s.map_values(|p: (QueueAttributeName, String)| (p.0, p.1@))
}

impl CreateQueueAttributeBuilder {
    /// A configuration with nothing set.
    pub fn new() -> (r: Self)
        ensures
            r == (CreateQueueAttributeBuilder {
                delay_seconds: None,
                maximum_message_size: None,
                message_retention_period: None,
                policy: None,
                receive_message_wait_time_seconds: None,
                visibility_timeout: None,
                redrive_policy: None,
                redrive_allow_policy: None,
                content_based_deduplication: None,
                kms_master_key_id: None,
                kms_data_key_reuse_period_seconds: None,
                sqs_managed_sse_enabled: None,
                fifo_throughput_limit: None,
                deduplication_scope: None,
            }),
    {
        CreateQueueAttributeBuilder {
            delay_seconds: None,
            maximum_message_size: None,
            message_retention_period: None,
            policy: None,
            receive_message_wait_time_seconds: None,
            visibility_timeout: None,
            redrive_policy: None,
            redrive_allow_policy: None,
            content_based_deduplication: None,
            kms_master_key_id: None,
            kms_data_key_reuse_period_seconds: None,
            sqs_managed_sse_enabled: None,
            fifo_throughput_limit: None,
            deduplication_scope: None,
        }
    }

    /// Sets the delivery delay, in seconds.
    pub fn delay_seconds(self, value: u32) -> (r: Self)
        ensures
            r == (CreateQueueAttributeBuilder { delay_seconds: Some(value), ..self }),
    {
        CreateQueueAttributeBuilder { delay_seconds: Some(value), ..self }
    }

    /// Sets the greatest accepted message size, in bytes.
    pub fn maximum_message_size(self, value: u32) -> (r: Self)
        ensures
            r == (CreateQueueAttributeBuilder { maximum_message_size: Some(value), ..self }),
    {
        CreateQueueAttributeBuilder { maximum_message_size: Some(value), ..self }
    }

    /// Sets how long a message is retained, in seconds.
    pub fn message_retention_period(self, value: u32) -> (r: Self)
        ensures
            r == (CreateQueueAttributeBuilder { message_retention_period: Some(value), ..self }),
    {
        CreateQueueAttributeBuilder { message_retention_period: Some(value), ..self }
    }

    /// Sets the queue's access policy document.
    pub fn policy(self, value: String) -> (r: Self)
        ensures
            r == (CreateQueueAttributeBuilder { policy: Some(value), ..self }),
    {
        CreateQueueAttributeBuilder { policy: Some(value), ..self }
    }

    /// Sets how long a receive call waits, in seconds.
    pub fn receive_message_wait_time_seconds(self, value: u32) -> (r: Self)
        ensures
            r == (CreateQueueAttributeBuilder {
                receive_message_wait_time_seconds: Some(value),
                ..self
            }),
    {
        CreateQueueAttributeBuilder { receive_message_wait_time_seconds: Some(value), ..self }
    }

    /// Sets the visibility timeout, in seconds.
    pub fn visibility_timeout(self, value: u32) -> (r: Self)
        ensures
            r == (CreateQueueAttributeBuilder { visibility_timeout: Some(value), ..self }),
    {
        CreateQueueAttributeBuilder { visibility_timeout: Some(value), ..self }
    }

    /// Sets the dead-letter redrive policy.
    pub fn redrive_policy(self, value: RedrivePolicy) -> (r: Self)
        ensures
            r == (CreateQueueAttributeBuilder { redrive_policy: Some(value), ..self }),
    {
        CreateQueueAttributeBuilder { redrive_policy: Some(value), ..self }
    }

    /// Sets the redrive allow policy.
    pub fn redrive_allow_policy(self, value: RedriveAllowPolicy) -> (r: Self)
        ensures
            r == (CreateQueueAttributeBuilder { redrive_allow_policy: Some(value), ..self }),
    {
        CreateQueueAttributeBuilder { redrive_allow_policy: Some(value), ..self }
    }

    /// Sets content-based deduplication for FIFO queues.
    pub fn content_based_deduplication(self, value: bool) -> (r: Self)
        ensures
            r == (CreateQueueAttributeBuilder { content_based_deduplication: Some(value), ..self }),
    {
        CreateQueueAttributeBuilder { content_based_deduplication: Some(value), ..self }
    }

    /// Sets the KMS key the queue encrypts with.
    pub fn kms_master_key_id(self, value: String) -> (r: Self)
        ensures
            r == (CreateQueueAttributeBuilder { kms_master_key_id: Some(value), ..self }),
    {
        CreateQueueAttributeBuilder { kms_master_key_id: Some(value), ..self }
    }

    /// Sets how long a data key is reused, in seconds.
    pub fn kms_data_key_reuse_period_seconds(self, value: u32) -> (r: Self)
        ensures
            r == (CreateQueueAttributeBuilder {
                kms_data_key_reuse_period_seconds: Some(value),
                ..self
            }),
    {
        CreateQueueAttributeBuilder { kms_data_key_reuse_period_seconds: Some(value), ..self }
    }

    /// Sets queue-managed server-side encryption.
    pub fn sqs_managed_sse_enabled(self, value: bool) -> (r: Self)
        ensures
            r == (CreateQueueAttributeBuilder { sqs_managed_sse_enabled: Some(value), ..self }),
    {
        CreateQueueAttributeBuilder { sqs_managed_sse_enabled: Some(value), ..self }
    }

    /// Sets the FIFO throughput limit.
    pub fn fifo_throughput_limit(self, value: FifoThroughputLimit) -> (r: Self)
        ensures
            r == (CreateQueueAttributeBuilder { fifo_throughput_limit: Some(value), ..self }),
    {
        CreateQueueAttributeBuilder { fifo_throughput_limit: Some(value), ..self }
    }

    /// Sets the FIFO deduplication scope.
    pub fn deduplication_scope(self, value: DeduplicationScope) -> (r: Self)
        ensures
            r == (CreateQueueAttributeBuilder { deduplication_scope: Some(value), ..self }),
    {
        CreateQueueAttributeBuilder { deduplication_scope: Some(value), ..self }
    }

    /// Validates every set attribute against its documented range; the
    /// first violation is reported.
    fn check(&self) -> (r: Result<(), Error>)
        ensures
            match r {
                Ok(()) => build_err(*self) is None,
                Err(Error::ValidationError(m)) => build_err(*self) matches Some(v) && m@ == v,
            },
    {
        if let Some(v) = self.delay_seconds {
            if v > 900 {
                return Err(
                    Error::ValidationError(
                        "DelaySeconds must be between 0 and 900 seconds.".to_owned(),
                    ),
                );
            }
        }
        if let Some(v) = self.maximum_message_size {
            if v < 1024 || v > 262144 {
                return Err(
                    Error::ValidationError(
                        "MaximumMessageSize must be between 1024 and 262144 bytes.".to_owned(),
                    ),
                );
            }
        }
        if let Some(v) = self.message_retention_period {
            if v < 60 || v > 1209600 {
                return Err(
                    Error::ValidationError(
                        "MessageRetentionPeriod must be between 60 and 1209600 seconds.".to_owned(),
                    ),
                );
            }
        }
        if let Some(v) = self.receive_message_wait_time_seconds {
            if v > 20 {
                return Err(
                    Error::ValidationError(
                        "ReceiveMessageWaitTimeSeconds must be between 0 and 20 seconds.".to_owned(),
                    ),
                );
            }
        }
        if let Some(v) = self.visibility_timeout {
            if v > 43200 {
                return Err(
                    Error::ValidationError(
                        "VisibilityTimeout must be between 0 and 43200 seconds.".to_owned(),
                    ),
                );
            }
        }
        if let Some(v) = self.kms_data_key_reuse_period_seconds {
            if v < 60 || v > 86400 {
                return Err(
                    Error::ValidationError(
                        "KmsDataKeyReusePeriodSeconds must be between 60 and 86400 seconds.".to_owned(),
                    ),
                );
            }
        }
        if let Some(p) = &self.redrive_policy {
            if p.max_receive_count < 1 || p.max_receive_count > 1000 {
                return Err(
                    Error::ValidationError("maxReceiveCount must be between 1 and 1000.".to_owned()),
                );
            }
        }
        if let Some(p) = &self.redrive_allow_policy {
            if matches!(p.redrive_permission, RedrivePermission::ByQueue) {
                match &p.source_queue_arns {
                    Some(arns) => {
                        if arns.len() == 0 {
                            return Err(
                                Error::ValidationError(
                                    "sourceQueueArns cannot be empty when using byQueue permission.".to_owned(),
                                ),
                            );
                        }
                        if arns.len() > 10 {
                            return Err(
                                Error::ValidationError(
                                    "sourceQueueArns cannot contain more than 10 queue ARNs.".to_owned(),
                                ),
                            );
                        }
                    },
                    None => {
                        return Err(
                            Error::ValidationError(
                                "sourceQueueArns must be provided when using byQueue permission.".to_owned(),
                            ),
                        );
                    },
                }
            }
        }
        if let Some(f) = &self.fifo_throughput_limit {
            if matches!(f, FifoThroughputLimit::PerMessageGroupId) {
                match &self.deduplication_scope {
                    Some(DeduplicationScope::MessageGroup) => {},
                    _ => {
                        return Err(
                            Error::ValidationError(
                                "FifoThroughputLimit.PerMessageGroupId requires DeduplicationScope.MessageGroup".to_owned(),
                            ),
                        );
                    },
                }
            }
        }
        Ok(())
    }

    /// Emits the attribute pairs of a validated configuration, in the
    /// fixed listing order.
    fn emit(self) -> (out: Vec<(QueueAttributeName, String)>)
        ensures
            pairs_view(out@) == attrs_spec(self),
    {
        let ghost b = self;
        let CreateQueueAttributeBuilder {
            delay_seconds,
            maximum_message_size,
            message_retention_period,
            policy,
            receive_message_wait_time_seconds,
            visibility_timeout,
            redrive_policy,
            redrive_allow_policy,
            content_based_deduplication,
            kms_master_key_id,
            kms_data_key_reuse_period_seconds,
            sqs_managed_sse_enabled,
            fifo_throughput_limit,
            deduplication_scope,
        } = self;
        let mut out: Vec<(QueueAttributeName, String)> = Vec::new();
        proof {
            assert(pairs_view(out@) =~= Seq::<(QueueAttributeName, Seq<char>)>::empty());
        }
        emit_num(&mut out, QueueAttributeName::DelaySeconds, delay_seconds);
        emit_num(&mut out, QueueAttributeName::MaximumMessageSize, maximum_message_size);
        emit_num(&mut out, QueueAttributeName::MessageRetentionPeriod, message_retention_period);
        emit_text(&mut out, QueueAttributeName::Policy, policy);
        emit_num(
            &mut out,
            QueueAttributeName::ReceiveMessageWaitTimeSeconds,
            receive_message_wait_time_seconds,
        );
        emit_num(&mut out, QueueAttributeName::VisibilityTimeout, visibility_timeout);
        emit_redrive(&mut out, redrive_policy);
        emit_redrive_allow(&mut out, redrive_allow_policy);
        emit_flag(
            &mut out,
            QueueAttributeName::ContentBasedDeduplication,
            content_based_deduplication,
        );
        emit_text(&mut out, QueueAttributeName::KmsMasterKeyId, kms_master_key_id);
        emit_num(
            &mut out,
            QueueAttributeName::KmsDataKeyReusePeriodSeconds,
            kms_data_key_reuse_period_seconds,
        );
        emit_flag(&mut out, QueueAttributeName::SqsManagedSseEnabled, sqs_managed_sse_enabled);
        emit_fifo(&mut out, fifo_throughput_limit);
        emit_scope(&mut out, deduplication_scope);
        proof {
            lemma_concat_empty_left(
                opt_attr(
                    QueueAttributeName::DelaySeconds,
                    match b.delay_seconds {
                        Some(v) => Some(dec_digits(v as nat)),
                        None => None,
                    },
                ),
            );
            assert(attrs_spec(b) == pairs_view(out@));
        }
        out
    }

    /// Validates every set attribute against its documented range, then
    /// emits the attribute pairs in a fixed order; the first violation is
    /// reported instead.
    pub fn build(self) -> (r: Result<Vec<(QueueAttributeName, String)>, Error>)
        ensures
            match r {
                Err(Error::ValidationError(m)) => build_err(self) matches Some(v) && m@ == v,
                Ok(v) => build_err(self) is None && pairs_view(v@) == attrs_spec(self),
            },
    {
        match self.check() {
            Err(e) => Err(e),
            Ok(()) => Ok(self.emit()),
        }
    }
}

fn emit_num(out: &mut Vec<(QueueAttributeName, String)>, name: QueueAttributeName, v: Option<u32>)
    ensures
        pairs_view(final(out)@) == pairs_view(old(out)@) + opt_attr(
            name,
            match v {
                Some(x) => Some(dec_digits(x as nat)),
                None => None,
            },
        ),
{
    match v {
        Some(x) => {
            push_attr(out, name, u64_to_dec(x as u64));
        },
        None => {
            proof {
                lemma_concat_empty_right(pairs_view(out@));
            }
        },
    }
}

fn emit_text(out: &mut Vec<(QueueAttributeName, String)>, name: QueueAttributeName, v: Option<String>)
    ensures
        pairs_view(final(out)@) == pairs_view(old(out)@) + opt_attr(
            name,
            match v {
                Some(p) => Some(p@),
                None => None,
            },
        ),
{
    match v {
        Some(p) => {
            push_attr(out, name, p);
        },
        None => {
            proof {
                lemma_concat_empty_right(pairs_view(out@));
            }
        },
    }
}

fn emit_flag(out: &mut Vec<(QueueAttributeName, String)>, name: QueueAttributeName, v: Option<bool>)
    ensures
        pairs_view(final(out)@) == pairs_view(old(out)@) + opt_attr(
            name,
            match v {
                Some(x) => Some(bool_str(x)),
                None => None,
            },
        ),
{
    match v {
        Some(x) => {
            push_attr(out, name, bool_string(x));
        },
        None => {
            proof {
                lemma_concat_empty_right(pairs_view(out@));
            }
        },
    }
}

fn emit_redrive(out: &mut Vec<(QueueAttributeName, String)>, v: Option<RedrivePolicy>)
    ensures
        pairs_view(final(out)@) == pairs_view(old(out)@) + opt_attr(
            QueueAttributeName::RedrivePolicy,
            match v {
                Some(p) => Some(redrive_policy_json_of(
                    p.max_receive_count as int,
                    p.dead_letter_target_arn@,
                )),
                None => None,
            },
        ),
{
    match v {
        Some(p) => {
            push_attr(out, QueueAttributeName::RedrivePolicy, p.to_json());
        },
        None => {
            proof {
                lemma_concat_empty_right(pairs_view(out@));
            }
        },
    }
}

fn emit_redrive_allow(out: &mut Vec<(QueueAttributeName, String)>, v: Option<RedriveAllowPolicy>)
    ensures
        pairs_view(final(out)@) == pairs_view(old(out)@) + opt_attr(
            QueueAttributeName::RedriveAllowPolicy,
            match v {
                Some(p) => Some(redrive_allow_policy_json_of(
                    permission_str(p.redrive_permission),
                    match p.source_queue_arns {
                        Some(arns) => Some(arns.deep_view()),
                        None => None,
                    },
                )),
                None => None,
            },
        ),
{
    match v {
        Some(p) => {
            push_attr(out, QueueAttributeName::RedriveAllowPolicy, p.to_json());
        },
        None => {
            proof {
                lemma_concat_empty_right(pairs_view(out@));
            }
        },
    }
}

fn emit_fifo(out: &mut Vec<(QueueAttributeName, String)>, v: Option<FifoThroughputLimit>)
    ensures
        pairs_view(final(out)@) == pairs_view(old(out)@) + opt_attr(
            QueueAttributeName::FifoThroughputLimit,
            match v {
                Some(f) => Some(fifo_limit_str(f)),
                None => None,
            },
        ),
{
    match v {
        Some(f) => {
            let value = match f {
                FifoThroughputLimit::PerMessageGroupId => "perMessageGroupId".to_owned(),
                FifoThroughputLimit::PerQueue => "perQueue".to_owned(),
            };
            push_attr(out, QueueAttributeName::FifoThroughputLimit, value);
        },
        None => {
            proof {
                lemma_concat_empty_right(pairs_view(out@));
            }
        },
    }
}

fn emit_scope(out: &mut Vec<(QueueAttributeName, String)>, v: Option<DeduplicationScope>)
    ensures
        pairs_view(final(out)@) == pairs_view(old(out)@) + opt_attr(
            QueueAttributeName::DeduplicationScope,
            match v {
                Some(s) => Some(scope_str(s)),
                None => None,
            },
        ),
{
    match v {
        Some(s) => {
            let value = match s {
                DeduplicationScope::MessageGroup => "messageGroup".to_owned(),
                DeduplicationScope::Queue => "queue".to_owned(),
            };
            push_attr(out, QueueAttributeName::DeduplicationScope, value);
        },
        None => {
            proof {
                lemma_concat_empty_right(pairs_view(out@));
            }
        },
    }
}

proof fn lemma_concat_empty_right<A>(s: Seq<A>)
    ensures
        s + Seq::<A>::empty() == s,
{
    assert(s + Seq::<A>::empty() =~= s);
}

proof fn lemma_concat_empty_left<A>(s: Seq<A>)
    ensures
        Seq::<A>::empty() + s == s,
{
    assert(Seq::<A>::empty() + s =~= s);
}

fn push_attr(out: &mut Vec<(QueueAttributeName, String)>, name: QueueAttributeName, value: String)
    ensures
        pairs_view(final(out)@) == pairs_view(old(out)@) + seq![(name, value@)],
{
    let ghost pre = out@;
    let ghost v = value@;
    out.push((name, value));
    proof {
        assert(pairs_view(out@) =~= pairs_view(pre) + seq![(name, v)]);
    }
}

} // verus!
