//! Message-level helpers around a queue: collecting received messages out
//! of raw response parts, numbering batch entries, and the fixed attribute
//! set a FIFO work queue is created with.
use crate::decimal::dec_digits;
use crate::decimal::u64_to_dec;
use crate::message_batches::DeleteMessageEntry;
use crate::message_batches::SendMessageEntry;
use crate::queue_attributes::pairs_view;
use crate::queue_attributes::QueueAttributeName;
use vstd::prelude::*;
use vstd::string::StringExecFns;

verus! {

/// A received message: its receipt handle and its body.
#[derive(Debug, Clone)]
pub struct SqsMessage {
    pub receipt_handle: String,
    pub message: String,
}

/// A message to send: the key it is grouped and deduplicated by, and its
/// body.
#[derive(Debug, Clone)]
pub struct SendMessageType {
    pub key: String,
    pub message: String,
}

/// The messages a received batch yields, by view: one per part that
/// carries a body, a missing receipt handle collapsing to the empty
/// string.
pub open spec fn collected_messages(parts: Seq<(Option<String>, Option<String>)>) -> Seq<
    (Seq<char>, Seq<char>),
>
    decreases parts.len(),
{
    if parts.len() == 0 {
        seq![]
    } else {
        (match parts[0] {
            (rh, Some(body)) => seq![
                (
                    match rh {
                        Some(h) => h@,
                        None => Seq::<char>::empty(),
                    },
                    body@,
                ),
            ],
            (_, None) => seq![],
        }) + collected_messages(parts.drop_first())
    }
}

/// The messages by view.
pub open spec fn messages_view(s: Seq<SqsMessage>) -> Seq<(Seq<char>, Seq<char>)> {
    s.map_values(|m: SqsMessage| (m.receipt_handle@, m.message@))
}

/// Collects received messages out of raw parts, each a receipt handle and
/// a body as the response carried them: parts without a body are dropped,
/// a missing receipt handle becomes the empty string.
#[verifier::loop_isolation(false)]
pub fn messages_from_parts(parts: Vec<(Option<String>, Option<String>)>) -> (out: Vec<SqsMessage>)
    ensures
        messages_view(out@) == collected_messages(parts@),
{
    let ghost target = collected_messages(parts@);
    let mut rest = parts;
    let mut out: Vec<SqsMessage> = Vec::new();
    proof {
        assert(messages_view(out@) + collected_messages(rest@) =~= target);
    }
    loop
        invariant
            target == messages_view(out@) + collected_messages(rest@),
        decreases rest@.len(),
    {
        if rest.len() == 0 {
            proof {
                assert(target =~= messages_view(out@));
            }
            return out;
        }
        let ghost pre_out = messages_view(out@);
        let part = rest.remove(0);
        match part {
            (rh, Some(body)) => {
                let handle = match rh {
                    Some(h) => h,
                    None => String::new(),
                };
                out.push(SqsMessage { receipt_handle: handle, message: body });
                proof {
                    assert(messages_view(out@) =~= pre_out.push(
                        (out@.last().receipt_handle@, out@.last().message@),
                    ));
                    assert(target =~= messages_view(out@) + collected_messages(rest@));
                }
            },
            (_, None) => {
                proof {
                    assert(target =~= messages_view(out@) + collected_messages(rest@));
                }
            },
        }
    }
}

/// The batch-local id of the entry at position `i`: `message_` and the
/// position in decimal.
pub open spec fn entry_id_at(i: int) -> Seq<char> {
    "message_"@ + dec_digits(i as nat)
}

/// Entries for one batched send: the message at position `i` becomes an
/// entry with id `message_i`, grouped and deduplicated by its key.
pub fn send_entries_from_messages(messages: &Vec<SendMessageType>) -> (out: Vec<SendMessageEntry>)
    ensures
        out@.len() == messages@.len(),
        forall|i: int|
            0 <= i < out@.len() ==> {
                let e = #[trigger] out@[i];
                &&& e.id@ == entry_id_at(i)
                &&& e.message_body@ == messages@[i].message@
                &&& e.message_group_id matches Some(g) && g@ == messages@[i].key@
                &&& e.message_deduplication_id matches Some(d) && d@ == messages@[i].key@
                &&& e.delay_seconds is None
                &&& e.message_attributes is None
            },
{
    let mut out: Vec<SendMessageEntry> = Vec::new();
    let n = messages.len();
    let mut i: usize = 0;
    while i < n
        invariant
            i <= n,
            n == messages@.len(),
            out@.len() == i,
            forall|k: int|
                0 <= k < i ==> {
                    let e = #[trigger] out@[k];
                    &&& e.id@ == entry_id_at(k)
                    &&& e.message_body@ == messages@[k].message@
                    &&& e.message_group_id matches Some(g) && g@ == messages@[k].key@
                    &&& e.message_deduplication_id matches Some(d) && d@ == messages@[k].key@
                    &&& e.delay_seconds is None
                    &&& e.message_attributes is None
                },
        decreases n - i,
    {
        let mut id: String = "message_".to_owned();
        let digits = u64_to_dec(i as u64);
        id.append(digits.as_str());
        let entry = SendMessageEntry {
            id,
            message_body: messages[i].message.clone(),
            delay_seconds: None,
            message_attributes: None,
            message_group_id: Some(messages[i].key.clone()),
            message_deduplication_id: Some(messages[i].key.clone()),
        };
        out.push(entry);
        i += 1;
    }
    out
}

/// Entries for one batched delete: the handle at position `i` becomes an
/// entry with id `message_i`.
pub fn delete_entries_from_handles(handles: &Vec<String>) -> (out: Vec<DeleteMessageEntry>)
    ensures
        out@.len() == handles@.len(),
        forall|i: int|
            0 <= i < out@.len() ==> {
                let e = #[trigger] out@[i];
                &&& e.id@ == entry_id_at(i)
                &&& e.receipt_handle@ == handles@[i]@
            },
{
    let mut out: Vec<DeleteMessageEntry> = Vec::new();
    let n = handles.len();
    let mut i: usize = 0;
    while i < n
        invariant
            i <= n,
            n == handles@.len(),
            out@.len() == i,
            forall|k: int|
                0 <= k < i ==> {
                    let e = #[trigger] out@[k];
                    &&& e.id@ == entry_id_at(k)
                    &&& e.receipt_handle@ == handles@[k]@
                },
        decreases n - i,
    {
        let mut id: String = "message_".to_owned();
        let digits = u64_to_dec(i as u64);
        id.append(digits.as_str());
        let entry = DeleteMessageEntry { id, receipt_handle: handles[i].clone() };
        out.push(entry);
        i += 1;
    }
    out
}

/// The attribute pairs a FIFO work queue is created with: messages kept
/// fourteen days, a twelve-hour visibility timeout, FIFO delivery with
/// per-message-group deduplication and throughput.
pub fn fifo_queue_attributes() -> (out: Vec<(QueueAttributeName, String)>)
    ensures
        pairs_view(out@) =~= seq![
            (QueueAttributeName::MessageRetentionPeriod, "1209600"@),
            (QueueAttributeName::VisibilityTimeout, "43200"@),
            (QueueAttributeName::FifoQueue, "true"@),
            (QueueAttributeName::DeduplicationScope, "messageGroup"@),
            (QueueAttributeName::FifoThroughputLimit, "perMessageGroupId"@),
        ],
{
    let mut out: Vec<(QueueAttributeName, String)> = Vec::new();
    out.push((QueueAttributeName::MessageRetentionPeriod, "1209600".to_owned()));
    out.push((QueueAttributeName::VisibilityTimeout, "43200".to_owned()));
    out.push((QueueAttributeName::FifoQueue, "true".to_owned()));
    out.push((QueueAttributeName::DeduplicationScope, "messageGroup".to_owned()));
    out.push((QueueAttributeName::FifoThroughputLimit, "perMessageGroupId".to_owned()));
    proof {
        assert(pairs_view(out@) =~= seq![
            (QueueAttributeName::MessageRetentionPeriod, "1209600"@),
            (QueueAttributeName::VisibilityTimeout, "43200"@),
            (QueueAttributeName::FifoQueue, "true"@),
            (QueueAttributeName::DeduplicationScope, "messageGroup"@),
            (QueueAttributeName::FifoThroughputLimit, "perMessageGroupId"@),
        ]);
    }
    out
}

} // verus!
