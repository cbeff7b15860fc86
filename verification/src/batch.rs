//! Bounded batch accumulator: assembles record entries into a group that
//! respects a per-entry size limit, an aggregate size limit and a record
//! count limit, rejecting anything that would overflow before it is added.
use vstd::prelude::*;
use vstd::string::StrSliceExecFns;

verus! {

/// One record awaiting submission: a payload, the partition key it is
/// routed by, and an optional explicit hash key.
pub struct RecordEntry {
    pub data: Vec<u8>,
    pub partition_key: String,
    pub explicit_hash_key: Option<String>,
}

impl RecordEntry {
    /// What an entry counts for against the batch limits: payload bytes plus
    /// partition-key characters.
    pub open spec fn size(self) -> int {
        self.data@.len() as int + self.partition_key@.len() as int
    }
}

/// Why an entry was rejected: it alone reaches the single-entry limit, or
/// accepting it would push the batch past the aggregate or count limit.
#[derive(Clone, Copy, Debug, PartialEq, Eq, Structural)]
pub enum OverflowKind {
    EntryTooLarge,
    BatchFull,
}

/// The combined size of a sequence of entries.
pub open spec fn entries_size(s: Seq<RecordEntry>) -> int
    decreases s.len(),
{
    if s.len() == 0 {
        0
    } else {
        entries_size(s.drop_last()) + s.last().size()
    }
}

/// The length the partition key of a new entry will have: the caller's key,
/// or the 36 characters of a generated one.
pub open spec fn new_key_len(partition_key: Option<String>) -> int {
    match partition_key {
        Some(k) => k@.len() as int,
        None => 36,
    }
}

/// Relies on `uuid::Uuid::now_v7` and its `Display` form: a hyphenated
/// UUID, 36 ASCII characters.
#[verifier::external_body]
fn generated_partition_key() -> (r: String)
    ensures
        r@.len() == 36,
{
    uuid::Uuid::now_v7().to_string()
}

/// Accumulates entries for one batched submission, enforcing all three
/// limits on every `add_entry` call.
pub struct RecordsBuilder {
    entries: Vec<RecordEntry>,
    total_size: usize,
    single_limit: usize,
    total_limit: usize,
    record_limit: usize,
}

impl RecordsBuilder {
    /// The entries accepted so far, in insertion order.
    pub closed spec fn records(self) -> Seq<RecordEntry> {
        self.entries@
    }

    /// The running aggregate size of the accepted entries.
    pub closed spec fn running_total(self) -> int {
        self.total_size as int
    }

    /// The size below which a single entry must stay.
    pub closed spec fn limit_single(self) -> int {
        self.single_limit as int
    }

    /// The size below which the aggregate must stay.
    pub closed spec fn limit_total(self) -> int {
        self.total_limit as int
    }

    /// The greatest number of entries a batch may hold.
    pub closed spec fn limit_records(self) -> int {
        self.record_limit as int
    }

    /// The accumulator's invariant: the running total is the combined size
    /// of the entries, the count respects the record limit, every entry is
    /// under the single-entry limit, and once anything was accepted the
    /// total is strictly under the aggregate limit.
    pub open spec fn wf(self) -> bool {
        &&& self.running_total() == entries_size(self.records())
        &&& self.records().len() <= self.limit_records()
        &&& (self.records().len() > 0 ==> self.running_total() < self.limit_total())
        &&& forall|i: int|
            0 <= i < self.records().len() ==> (#[trigger] self.records()[i]).size()
                < self.limit_single()
    }

    /// A fresh accumulator with the default limits: single entries under
    /// 1,000,000, an aggregate under 5,000,000, at most 500 records.
    pub fn new() -> (r: Self)
        ensures
            r.wf(),
            r.records() =~= Seq::<RecordEntry>::empty(),
            r.limit_single() == 1000000,
            r.limit_total() == 5000000,
            r.limit_records() == 500,
    {
        Self::new_with_limit(1000000, 5000000, 500)
    }

    /// A fresh accumulator with caller-chosen limits.
    pub fn new_with_limit(single_limit: usize, total_limit: usize, record_limit: usize) -> (r:
        Self)
        ensures
            r.wf(),
            r.records() =~= Seq::<RecordEntry>::empty(),
            r.limit_single() == single_limit,
            r.limit_total() == total_limit,
            r.limit_records() == record_limit,
    {
        RecordsBuilder {
            entries: Vec::new(),
            total_size: 0,
            single_limit,
            total_limit,
            record_limit,
        }
    }

    /// The finalized entry list; the accumulator is consumed.
    pub fn build(self) -> (r: Vec<RecordEntry>)
        ensures
            r@ == self.records(),
    {
        self.entries
    }

    /// Adds an entry with a generated partition key and no explicit hash key.
    pub fn add_entry_data(&mut self, data: Vec<u8>) -> (r: Result<(), OverflowKind>)
        requires
            old(self).wf(),
        ensures
            final(self).wf(),
            final(self).limit_single() == old(self).limit_single(),
            final(self).limit_total() == old(self).limit_total(),
            final(self).limit_records() == old(self).limit_records(),
            r is Err ==> *final(self) == *old(self),
            r == add_entry_result(*old(self), data@.len() as int + 36),
            r is Ok ==> exists|key: String|
                #![all_triggers]
                {
                    &&& key@.len() == 36
                    &&& final(self).records() == old(self).records().push(
                        (RecordEntry { data, partition_key: key, explicit_hash_key: None }),
                    )
                    &&& final(self).running_total() == old(self).running_total() + data@.len() as int
                        + 36
                },
    {
        self.add_entry(data, None, None)
    }

    /// Adds an entry, rejecting it without any state change when it alone
    /// reaches the single-entry limit, or when accepting it would reach the
    /// aggregate limit or the record limit.
    pub fn add_entry(
        &mut self,
        data: Vec<u8>,
        partition_key: Option<String>,
        explicit_hash_key: Option<String>,
    ) -> (r: Result<(), OverflowKind>)
        requires
            old(self).wf(),
        ensures
            final(self).wf(),
            final(self).limit_single() == old(self).limit_single(),
            final(self).limit_total() == old(self).limit_total(),
            final(self).limit_records() == old(self).limit_records(),
            r is Err ==> *final(self) == *old(self),
            r == add_entry_result(*old(self), data@.len() as int + new_key_len(partition_key)),
            r is Ok ==> exists|key: String|
                #![all_triggers]
                {
                    &&& match partition_key {
                        Some(k) => key == k,
                        None => key@.len() == 36,
                    }
                    &&& final(self).records() == old(self).records().push(
                        (RecordEntry { data, partition_key: key, explicit_hash_key }),
                    )
                    &&& final(self).running_total() == old(self).running_total() + data@.len() as int
                        + new_key_len(partition_key)
                },
    {
        let key: String = match partition_key {
            Some(k) => k,
            None => generated_partition_key(),
        };
        let klen = key.as_str().unicode_len();
        if data.len() as u128 + klen as u128 >= self.single_limit as u128 {
            return Err(OverflowKind::EntryTooLarge);
        }
        let size: usize = data.len() + klen;
        if self.total_size as u128 + size as u128 >= self.total_limit as u128 || self.entries.len()
            >= self.record_limit {
            return Err(OverflowKind::BatchFull);
        }
        let entry = RecordEntry { data, partition_key: key, explicit_hash_key };
        proof {
            assert(self.entries@.push(entry).drop_last() =~= self.entries@);
        }
        self.entries.push(entry);
        self.total_size = self.total_size + size;
        Ok(())
    }

    /// How many entries have been accepted.
    pub fn len(&self) -> (r: usize)
        ensures
            r == self.records().len(),
    {
        self.entries.len()
    }

    /// Whether no entry has been accepted yet.
    pub fn is_empty(&self) -> (r: bool)
        ensures
            r == (self.records().len() == 0),
    {
        self.entries.is_empty()
    }
}

/// The outcome `add_entry` owes for an entry of size `size`: rejected as too
/// large when it reaches the single-entry limit, rejected as overflowing
/// when the aggregate or the count would reach its limit, accepted
/// otherwise.
pub open spec fn add_entry_result(b: RecordsBuilder, size: int) -> Result<(), OverflowKind> {
    if size >= b.limit_single() {
        Err(OverflowKind::EntryTooLarge)
    } else if b.running_total() + size >= b.limit_total() || b.records().len()
        >= b.limit_records() {
        Err(OverflowKind::BatchFull)
    } else {
        Ok(())
    }
}

/// However an accumulator was built and filled through `new_with_limit` and
/// `add_entry`, at `build` time the running total is under the aggregate
/// limit whenever that limit is positive, and the count never exceeds the
/// record limit.
pub proof fn lemma_limits_hold_at_build(b: RecordsBuilder)
    requires
        b.wf(),
        b.limit_total() > 0,
    ensures
        entries_size(b.records()) < b.limit_total(),
        b.records().len() <= b.limit_records(),
{
}

} // verus!
