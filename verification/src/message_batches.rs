//! Builders for batched queue operations: entries for a batched send and a
//! batched delete, each batch capped at ten messages with unique ids, the
//! whole batch validated at build time.
use vstd::prelude::*;

verus! {

/// Whether the id at position `j` repeats an id that occurs earlier.
pub open spec fn has_dup_at(ids: Seq<Seq<char>>, j: int) -> bool {
    exists|i: int| 0 <= i < j && #[trigger] ids[i] == ids[j]
}

/// The first position whose id repeats an earlier one, from `k` on.
pub open spec fn first_dup_from(ids: Seq<Seq<char>>, k: int) -> Option<int>
    decreases ids.len() - k,
{
    if k < 0 || k >= ids.len() {
        None
    } else if has_dup_at(ids, k) {
        Some(k)
    } else {
        first_dup_from(ids, k + 1)
    }
}

/// The first position whose id repeats an earlier one, if any.
pub open spec fn first_dup(ids: Seq<Seq<char>>) -> Option<int> {
    first_dup_from(ids, 0)
}

proof fn lemma_first_dup_locate(ids: Seq<Seq<char>>, j: int, k: int)
    requires
        0 <= k <= j < ids.len(),
        has_dup_at(ids, j),
        forall|jj: int| k <= jj < j ==> !has_dup_at(ids, jj),
    ensures
        first_dup_from(ids, k) == Some(j),
    decreases j - k,
{
    if k < j {
        lemma_first_dup_locate(ids, j, k + 1);
    }
}

proof fn lemma_first_dup_none(ids: Seq<Seq<char>>, k: int)
    requires
        0 <= k,
        forall|jj: int| k <= jj < ids.len() ==> !has_dup_at(ids, jj),
    ensures
        first_dup_from(ids, k) is None,
    decreases ids.len() - k,
{
    if k < ids.len() {
        lemma_first_dup_none(ids, k + 1);
    }
}

/// Why a batch failed validation at build time.
#[derive(Debug, Clone, PartialEq, Eq)]
pub enum DeleteMessageBatchError {
    EmptyBatch,
    TooManyMessages(usize),
    DuplicateId(String),
}

/// Why a batch of messages to send failed validation at build time.
#[derive(Debug, Clone, PartialEq, Eq)]
pub enum SendMessageBatchError {
    EmptyBatch,
    TooManyMessages(usize),
    DuplicateId(String),
}

/// One message to delete: its batch-local id and its receipt handle.
pub struct DeleteMessageEntry {
    pub id: String,
    pub receipt_handle: String,
}

impl DeleteMessageEntry {
    /// The batch-local id.
    pub fn id(&self) -> (r: &str)
        ensures
            r@ == self.id@,
    {
        self.id.as_str()
    }

    /// The receipt handle of the message to delete.
    pub fn receipt_handle(&self) -> (r: &str)
        ensures
            r@ == self.receipt_handle@,
    {
        self.receipt_handle.as_str()
    }
}

/// Builds one delete entry from its two required pieces.
pub struct DeleteMessageEntryBuilder {
    id: String,
    receipt_handle: String,
}

impl DeleteMessageEntryBuilder {
    /// Starts an entry with its id and receipt handle.
    pub fn new(id: &str, receipt_handle: &str) -> (r: Self)
        ensures
            r.id_spec() == id@,
            r.receipt_handle_spec() == receipt_handle@,
    {
        DeleteMessageEntryBuilder { id: id.to_owned(), receipt_handle: receipt_handle.to_owned() }
    }

    /// The id set at construction.
    pub closed spec fn id_spec(self) -> Seq<char> {
        self.id@
    }

    /// The receipt handle set at construction.
    pub closed spec fn receipt_handle_spec(self) -> Seq<char> {
        self.receipt_handle@
    }

    /// The finished entry.
    pub fn build(self) -> (r: DeleteMessageEntry)
        ensures
            r.id@ == self.id_spec(),
            r.receipt_handle@ == self.receipt_handle_spec(),
    {
        DeleteMessageEntry { id: self.id, receipt_handle: self.receipt_handle }
    }
}

/// The ids of a sequence of delete entries, in order.
pub open spec fn delete_entry_ids(s: Seq<DeleteMessageEntry>) -> Seq<Seq<char>> {
    s.map_values(|e: DeleteMessageEntry| e.id@)
}

/// Accumulates entries for one batched delete and validates the batch.
pub struct DeleteMessageBatchEntriesBuilder {
    entries: Vec<DeleteMessageEntry>,
}

impl DeleteMessageBatchEntriesBuilder {
    /// The entries added so far, in order.
    pub closed spec fn entries_spec(self) -> Seq<DeleteMessageEntry> {
        self.entries@
    }

    /// An empty batch.
    pub fn new() -> (r: Self)
        ensures
            r.entries_spec() =~= Seq::<DeleteMessageEntry>::empty(),
    {
        DeleteMessageBatchEntriesBuilder { entries: Vec::new() }
    }

    /// Appends an entry built from an id and a receipt handle.
    pub fn add_message(self, id: &str, receipt_handle: &str) -> (r: Self)
        ensures
            r.entries_spec().len() == self.entries_spec().len() + 1,
            r.entries_spec().drop_last() == self.entries_spec(),
            r.entries_spec().last().id@ == id@,
            r.entries_spec().last().receipt_handle@ == receipt_handle@,
    {
        let mut entries = self.entries;
        let entry = DeleteMessageEntry { id: id.to_owned(), receipt_handle: receipt_handle.to_owned() };
        proof {
            assert(entries@.push(entry).drop_last() =~= entries@);
        }
        entries.push(entry);
        DeleteMessageBatchEntriesBuilder { entries }
    }

    /// Appends an already-built entry.
    pub fn add_entry(self, entry: DeleteMessageEntry) -> (r: Self)
        ensures
            r.entries_spec() == self.entries_spec().push(entry),
    {
        let mut entries = self.entries;
        entries.push(entry);
        DeleteMessageBatchEntriesBuilder { entries }
    }

    /// Validates and finalizes the batch: it must hold one to ten entries
    /// and no id may repeat; the first repeated id is reported.
    pub fn build(self) -> (r: Result<Vec<DeleteMessageEntry>, DeleteMessageBatchError>)
        ensures
            ({
                let ids = delete_entry_ids(self.entries_spec());
                match r {
                    Ok(v) => v@ == self.entries_spec() && 1 <= v@.len() <= 10 && first_dup(ids)
                        is None,
                    Err(DeleteMessageBatchError::EmptyBatch) => self.entries_spec().len() == 0,
                    Err(DeleteMessageBatchError::TooManyMessages(n)) => n
                        == self.entries_spec().len() && n > 10,
                    Err(DeleteMessageBatchError::DuplicateId(id)) => 1 <= self.entries_spec().len()
                        <= 10 && (first_dup(ids) matches Some(j) && id@ == ids[j]),
                }
            }),
    {
        let n = self.entries.len();
        if n == 0 {
            return Err(DeleteMessageBatchError::EmptyBatch);
        }
        if n > 10 {
            return Err(DeleteMessageBatchError::TooManyMessages(n));
        }
        let ghost ids = delete_entry_ids(self.entries@);
        let mut j: usize = 1;
        while j < n
            invariant
                1 <= j <= n,
                n == self.entries@.len(),
                1 <= n <= 10,
                ids == delete_entry_ids(self.entries@),
                forall|jj: int| 0 <= jj < j ==> !has_dup_at(ids, jj),
            decreases n - j,
        {
            let mut i: usize = 0;
            while i < j
                invariant
                    i <= j < n,
                    n == self.entries@.len(),
                    1 <= n <= 10,
                    ids == delete_entry_ids(self.entries@),
                    forall|jj: int| 0 <= jj < j ==> !has_dup_at(ids, jj),
                    forall|ii: int| 0 <= ii < i ==> ids[ii] != ids[j as int],
                decreases j - i,
            {
                if self.entries[i].id == self.entries[j].id {
                    proof {
                        assert(ids[i as int] == self.entries@[i as int].id@);
                        assert(ids[j as int] == self.entries@[j as int].id@);
                        assert(has_dup_at(ids, j as int)) by {
                            assert(ids[i as int] == ids[j as int]);
                        }
                        lemma_first_dup_locate(ids, j as int, 0);
                    }
                    return Err(DeleteMessageBatchError::DuplicateId(self.entries[j].id.clone()));
                }
                i += 1;
            }
            proof {
                assert(!has_dup_at(ids, j as int));
            }
            j += 1;
        }
        proof {
            lemma_first_dup_none(ids, 0);
        }
        Ok(self.entries)
    }

    /// How many entries have been added.
    pub fn len(&self) -> (r: usize)
        ensures
            r == self.entries_spec().len(),
    {
        self.entries.len()
    }

    /// Whether nothing has been added yet.
    pub fn is_empty(&self) -> (r: bool)
        ensures
            r == (self.entries_spec().len() == 0),
    {
        self.entries.is_empty()
    }
}

/// A typed attribute attached to a message: its declared type and its
/// textual or binary value.
pub struct MessageAttributeValue {
    pub data_type: String,
    pub string_value: Option<String>,
    pub binary_value: Option<Vec<u8>>,
}

/// One message to send: its batch-local id, its body, and the optional
/// delay, attributes and FIFO fields.
pub struct SendMessageEntry {
    pub id: String,
    pub message_body: String,
    pub delay_seconds: Option<i32>,
    pub message_attributes: Option<Vec<(String, MessageAttributeValue)>>,
    pub message_group_id: Option<String>,
    pub message_deduplication_id: Option<String>,
}

impl SendMessageEntry {
    /// The batch-local id.
    pub fn id(&self) -> (r: &str)
        ensures
            r@ == self.id@,
    {
        self.id.as_str()
    }

    /// The message body.
    pub fn message_body(&self) -> (r: &str)
        ensures
            r@ == self.message_body@,
    {
        self.message_body.as_str()
    }

    /// The delay before delivery, when one was set.
    pub fn delay_seconds(&self) -> (r: Option<i32>)
        ensures
            r == self.delay_seconds,
    {
        match self.delay_seconds {
            Some(d) => Some(d),
            None => None,
        }
    }

    /// The message group id, when one was set.
    pub fn message_group_id(&self) -> (r: Option<&str>)
        ensures
            match self.message_group_id {
                Some(g) => r matches Some(s) && s@ == g@,
                None => r is None,
            },
    {
        match &self.message_group_id {
            Some(g) => Some(g.as_str()),
            None => None,
        }
    }

    /// The deduplication id, when one was set.
    pub fn message_deduplication_id(&self) -> (r: Option<&str>)
        ensures
            match self.message_deduplication_id {
                Some(g) => r matches Some(s) && s@ == g@,
                None => r is None,
            },
    {
        match &self.message_deduplication_id {
            Some(g) => Some(g.as_str()),
            None => None,
        }
    }

    /// The attributes, when any were set.
    pub fn message_attributes(&self) -> (r: &Option<Vec<(String, MessageAttributeValue)>>)
        ensures
            r == self.message_attributes,
    {
        &self.message_attributes
    }
}

/// Builds one message entry field by field. An attribute key given twice
/// keeps both pairs in order; whoever collects them into a keyed map sees
/// the later value win.
pub struct MessageEntryBuilder {
    id: String,
    message_body: String,
    delay_seconds: Option<i32>,
    message_attributes: Option<Vec<(String, MessageAttributeValue)>>,
    message_group_id: Option<String>,
    message_deduplication_id: Option<String>,
}

impl MessageEntryBuilder {
    /// The entry as it would be built now.
    pub closed spec fn entry_spec(self) -> SendMessageEntry {
        SendMessageEntry {
            id: self.id,
            message_body: self.message_body,
            delay_seconds: self.delay_seconds,
            message_attributes: self.message_attributes,
            message_group_id: self.message_group_id,
            message_deduplication_id: self.message_deduplication_id,
        }
    }

    /// Starts an entry with its two required pieces.
    pub fn new(id: &str, message_body: &str) -> (r: Self)
        ensures
            r.entry_spec().id@ == id@,
            r.entry_spec().message_body@ == message_body@,
            r.entry_spec().delay_seconds is None,
            r.entry_spec().message_attributes is None,
            r.entry_spec().message_group_id is None,
            r.entry_spec().message_deduplication_id is None,
    {
        MessageEntryBuilder {
            id: id.to_owned(),
            message_body: message_body.to_owned(),
            delay_seconds: None,
            message_attributes: None,
            message_group_id: None,
            message_deduplication_id: None,
        }
    }

    /// Sets the delivery delay.
    pub fn delay_seconds(self, seconds: i32) -> (r: Self)
        ensures
            r.entry_spec() == (SendMessageEntry { delay_seconds: Some(seconds), ..self.entry_spec() }),
    {
        MessageEntryBuilder { delay_seconds: Some(seconds), ..self }
    }

    /// Appends one attribute pair.
    pub fn add_attribute(self, key: &str, value: MessageAttributeValue) -> (r: Self)
        ensures
            r.entry_spec().id == self.entry_spec().id,
            r.entry_spec().message_body == self.entry_spec().message_body,
            r.entry_spec().delay_seconds == self.entry_spec().delay_seconds,
            r.entry_spec().message_group_id == self.entry_spec().message_group_id,
            r.entry_spec().message_deduplication_id == self.entry_spec().message_deduplication_id,
            r.entry_spec().message_attributes matches Some(attrs) && attrs@.len() >= 1
                && attrs@.last().0@ == key@ && attrs@.last().1 == value,
            self.entry_spec().message_attributes matches Some(prior)
                ==> r.entry_spec().message_attributes->0@.drop_last() == prior@,
            self.entry_spec().message_attributes is None
                ==> r.entry_spec().message_attributes->0@.len() == 1,
    {
        let mut attrs: Vec<(String, MessageAttributeValue)> = match self.message_attributes {
            Some(a) => a,
            None => Vec::new(),
        };
        let pair = (key.to_owned(), value);
        proof {
            assert(attrs@.push(pair).drop_last() =~= attrs@);
        }
        attrs.push(pair);
        MessageEntryBuilder { message_attributes: Some(attrs), ..self }
    }

    /// Sets the message group id.
    pub fn message_group_id(self, group_id: &str) -> (r: Self)
        ensures
            r.entry_spec().message_group_id matches Some(g) && g@ == group_id@,
            r.entry_spec().id == self.entry_spec().id,
            r.entry_spec().message_body == self.entry_spec().message_body,
            r.entry_spec().delay_seconds == self.entry_spec().delay_seconds,
            r.entry_spec().message_attributes == self.entry_spec().message_attributes,
            r.entry_spec().message_deduplication_id == self.entry_spec().message_deduplication_id,
    {
        MessageEntryBuilder { message_group_id: Some(group_id.to_owned()), ..self }
    }

    /// Sets the deduplication id.
    pub fn message_deduplication_id(self, dedup_id: &str) -> (r: Self)
        ensures
            r.entry_spec().message_deduplication_id matches Some(g) && g@ == dedup_id@,
            r.entry_spec().id == self.entry_spec().id,
            r.entry_spec().message_body == self.entry_spec().message_body,
            r.entry_spec().delay_seconds == self.entry_spec().delay_seconds,
            r.entry_spec().message_attributes == self.entry_spec().message_attributes,
            r.entry_spec().message_group_id == self.entry_spec().message_group_id,
    {
        MessageEntryBuilder { message_deduplication_id: Some(dedup_id.to_owned()), ..self }
    }

    /// The finished entry.
    pub fn build(self) -> (r: SendMessageEntry)
        ensures
            r == self.entry_spec(),
    {
        SendMessageEntry {
            id: self.id,
            message_body: self.message_body,
            delay_seconds: self.delay_seconds,
            message_attributes: self.message_attributes,
            message_group_id: self.message_group_id,
            message_deduplication_id: self.message_deduplication_id,
        }
    }
}

/// The ids of a sequence of send entries, in order.
pub open spec fn send_entry_ids(s: Seq<SendMessageEntry>) -> Seq<Seq<char>> {
    s.map_values(|e: SendMessageEntry| e.id@)
}

/// Accumulates entries for one batched send and validates the batch.
pub struct SendMessageBatchEntriesBuilder {
    entries: Vec<SendMessageEntry>,
}

impl SendMessageBatchEntriesBuilder {
    /// The entries added so far, in order.
    pub closed spec fn entries_spec(self) -> Seq<SendMessageEntry> {
        self.entries@
    }

    /// An empty batch.
    pub fn new() -> (r: Self)
        ensures
            r.entries_spec() =~= Seq::<SendMessageEntry>::empty(),
    {
        SendMessageBatchEntriesBuilder { entries: Vec::new() }
    }

    /// Appends a plain message.
    pub fn add_message(self, id: &str, message_body: &str) -> (r: Self)
        ensures
            r.entries_spec().len() == self.entries_spec().len() + 1,
            r.entries_spec().drop_last() == self.entries_spec(),
            ({
                let e = r.entries_spec().last();
                &&& e.id@ == id@
                &&& e.message_body@ == message_body@
                &&& e.delay_seconds is None
                &&& e.message_attributes is None
                &&& e.message_group_id is None
                &&& e.message_deduplication_id is None
            }),
    {
        self.add_entry(MessageEntryBuilder::new(id, message_body).build())
    }

    /// Appends a message with a delivery delay.
    pub fn add_message_with_delay(self, id: &str, message_body: &str, delay_seconds: i32) -> (r:
        Self)
        ensures
            r.entries_spec().len() == self.entries_spec().len() + 1,
            r.entries_spec().drop_last() == self.entries_spec(),
            ({
                let e = r.entries_spec().last();
                &&& e.id@ == id@
                &&& e.message_body@ == message_body@
                &&& e.delay_seconds == Some(delay_seconds)
                &&& e.message_attributes is None
                &&& e.message_group_id is None
                &&& e.message_deduplication_id is None
            }),
    {
        self.add_entry(MessageEntryBuilder::new(id, message_body).delay_seconds(delay_seconds).build())
    }

    /// Appends a FIFO message with its group id and optional
    /// deduplication id.
    pub fn add_fifo_message(
        self,
        id: &str,
        message_body: &str,
        message_group_id: &str,
        message_deduplication_id: Option<String>,
    ) -> (r: Self)
        ensures
            r.entries_spec().len() == self.entries_spec().len() + 1,
            r.entries_spec().drop_last() == self.entries_spec(),
            ({
                let e = r.entries_spec().last();
                &&& e.id@ == id@
                &&& e.message_body@ == message_body@
                &&& e.delay_seconds is None
                &&& e.message_attributes is None
                &&& e.message_group_id matches Some(g) && g@ == message_group_id@
                &&& e.message_deduplication_id == message_deduplication_id
            }),
    {
        let builder = MessageEntryBuilder::new(id, message_body).message_group_id(
            message_group_id,
        );
        let entry = match message_deduplication_id {
            Some(d) => (SendMessageEntry { message_deduplication_id: Some(d), ..builder.build() }),
            None => builder.build(),
        };
        self.add_entry(entry)
    }

    /// Appends a message carrying attribute pairs.
    pub fn add_message_with_attributes(
        self,
        id: &str,
        message_body: &str,
        attributes: Vec<(String, MessageAttributeValue)>,
    ) -> (r: Self)
        ensures
            r.entries_spec().len() == self.entries_spec().len() + 1,
            r.entries_spec().drop_last() == self.entries_spec(),
            ({
                let e = r.entries_spec().last();
                &&& e.id@ == id@
                &&& e.message_body@ == message_body@
                &&& e.delay_seconds is None
                &&& e.message_attributes == Some(attributes)
                &&& e.message_group_id is None
                &&& e.message_deduplication_id is None
            }),
    {
        let base = MessageEntryBuilder::new(id, message_body).build();
        self.add_entry(SendMessageEntry { message_attributes: Some(attributes), ..base })
    }

    /// Appends an already-built entry.
    pub fn add_entry(self, entry: SendMessageEntry) -> (r: Self)
        ensures
            r.entries_spec() == self.entries_spec().push(entry),
    {
        let mut entries = self.entries;
        entries.push(entry);
        SendMessageBatchEntriesBuilder { entries }
    }

    /// Validates and finalizes the batch: it must hold one to ten entries
    /// and no id may repeat; the first repeated id is reported.
    pub fn build(self) -> (r: Result<Vec<SendMessageEntry>, SendMessageBatchError>)
        ensures
            ({
                let ids = send_entry_ids(self.entries_spec());
                match r {
                    Ok(v) => v@ == self.entries_spec() && 1 <= v@.len() <= 10 && first_dup(ids)
                        is None,
                    Err(SendMessageBatchError::EmptyBatch) => self.entries_spec().len() == 0,
                    Err(SendMessageBatchError::TooManyMessages(n)) => n
                        == self.entries_spec().len() && n > 10,
                    Err(SendMessageBatchError::DuplicateId(id)) => 1 <= self.entries_spec().len()
                        <= 10 && (first_dup(ids) matches Some(j) && id@ == ids[j]),
                }
            }),
    {
        let n = self.entries.len();
        if n == 0 {
            return Err(SendMessageBatchError::EmptyBatch);
        }
        if n > 10 {
            return Err(SendMessageBatchError::TooManyMessages(n));
        }
        let ghost ids = send_entry_ids(self.entries@);
        let mut j: usize = 1;
        while j < n
            invariant
                1 <= j <= n,
                n == self.entries@.len(),
                1 <= n <= 10,
                ids == send_entry_ids(self.entries@),
                forall|jj: int| 0 <= jj < j ==> !has_dup_at(ids, jj),
            decreases n - j,
        {
            let mut i: usize = 0;
            while i < j
                invariant
                    i <= j < n,
                    n == self.entries@.len(),
                    1 <= n <= 10,
                    ids == send_entry_ids(self.entries@),
                    forall|jj: int| 0 <= jj < j ==> !has_dup_at(ids, jj),
                    forall|ii: int| 0 <= ii < i ==> ids[ii] != ids[j as int],
                decreases j - i,
            {
                if self.entries[i].id == self.entries[j].id {
                    proof {
                        assert(ids[i as int] == self.entries@[i as int].id@);
                        assert(ids[j as int] == self.entries@[j as int].id@);
                        assert(has_dup_at(ids, j as int)) by {
                            assert(ids[i as int] == ids[j as int]);
                        }
                        lemma_first_dup_locate(ids, j as int, 0);
                    }
                    return Err(SendMessageBatchError::DuplicateId(self.entries[j].id.clone()));
                }
                i += 1;
            }
            proof {
                assert(!has_dup_at(ids, j as int));
            }
            j += 1;
        }
        proof {
            lemma_first_dup_none(ids, 0);
        }
        Ok(self.entries)
    }

    /// How many entries have been added.
    pub fn len(&self) -> (r: usize)
        ensures
            r == self.entries_spec().len(),
    {
        self.entries.len()
    }

    /// Whether nothing has been added yet.
    pub fn is_empty(&self) -> (r: bool)
        ensures
            r == (self.entries_spec().len() == 0),
    {
        self.entries.is_empty()
    }
}

} // verus!
