//! Key-value table helpers: the billing mode a table is created with, the
//! decision rule of the bounded import wait, reading a table's provisioned
//! capacity out of a description, and classifying service failures.
use vstd::prelude::*;

verus! {

/// How a table's capacity is billed: on demand, or provisioned with fixed
/// read and write capacity units.
#[derive(Clone, Copy, Debug, PartialEq, Eq, Structural)]
pub enum TableType {
    OnDemand,
    Provisioned(i64, i64),
}

/// The service failure kinds the helpers tell apart; everything else is
/// opaque.
#[derive(Clone, Copy, Debug, PartialEq, Eq, Structural)]
pub enum ServiceErrorKind {
    ConditionalCheckFailed,
    Other,
}

/// How a table call can fail: a classified service failure, a missing
/// record, a local validation failure, or a malformed response.
#[derive(Clone, Debug, PartialEq, Eq)]
pub enum Error {
    AwsSdk(ServiceErrorKind),
    NotFound,
    ValidationError(String),
    Invalid(String),
}

impl Error {
    /// Whether this is the service rejecting a conditional write.
    pub fn is_conditional_check_failed_exception(&self) -> (r: bool)
        ensures
            r == (*self == Error::AwsSdk(ServiceErrorKind::ConditionalCheckFailed)),
    {
        matches!(self, Error::AwsSdk(ServiceErrorKind::ConditionalCheckFailed))
    }
}

/// Where one poll of a bulk import stands.
#[derive(Clone, Copy, Debug, PartialEq, Eq, Structural)]
pub enum ImportProgress {
    InProgress,
    Completed,
    Other,
}

/// What the import wait does after one poll: it is done, the import
/// failed, the poll budget ran out, or it sleeps and polls again carrying
/// the new poll count.
#[derive(Clone, Copy, Debug, PartialEq, Eq, Structural)]
pub enum ImportDecision {
    Done,
    Failed,
    TimedOut,
    SleepAndRetry(u32),
}

/// The import wait's decision rule: a completed import ends the wait, an
/// unrecognized state fails it, and an import still in progress is polled
/// again until `max_polls` polls have been spent.
pub open spec fn import_step_spec(progress: ImportProgress, polls_done: u32, max_polls: u32) -> ImportDecision {
    match progress {
        ImportProgress::Completed => ImportDecision::Done,
        ImportProgress::Other => ImportDecision::Failed,
        ImportProgress::InProgress => if polls_done >= max_polls {
            ImportDecision::TimedOut
        } else {
            ImportDecision::SleepAndRetry((polls_done + 1) as u32)
        },
    }
}

/// Decides what the import wait does after one poll.
pub fn import_step(progress: ImportProgress, polls_done: u32, max_polls: u32) -> (r:
    ImportDecision)
    ensures
        r == import_step_spec(progress, polls_done, max_polls),
{
    match progress {
        ImportProgress::Completed => ImportDecision::Done,
        ImportProgress::Other => ImportDecision::Failed,
        ImportProgress::InProgress => {
            if polls_done >= max_polls {
                ImportDecision::TimedOut
            } else {
                ImportDecision::SleepAndRetry(polls_done + 1)
            }
        },
    }
}

/// A table's provisioned throughput as a description reports it, each
/// unit count absent when the response left it out.
#[derive(Clone, Copy, Debug, PartialEq, Eq, Structural)]
pub struct Throughput {
    pub read_capacity_units: Option<i64>,
    pub write_capacity_units: Option<i64>,
}

/// A table description, reduced to what the capacity reader needs.
pub struct TableDescription {
    pub provisioned_throughput: Option<Throughput>,
}

/// Reads the provisioned capacity out of a table description: the table
/// must exist and be provisioned, and an absent unit count reads as zero.
pub fn get_capacity(table: Option<TableDescription>) -> (r: Result<(i64, i64), Error>)
    ensures
        match table {
            None => r == Err::<(i64, i64), Error>(Error::NotFound),
            Some(desc) => match desc.provisioned_throughput {
                None => r matches Err(Error::ValidationError(m)) && m@
                    == "Table does not have provisioned throughput"@,
                Some(th) => r == Ok::<(i64, i64), Error>(
                    (
                        match th.read_capacity_units {
                            Some(x) => x,
                            None => 0,
                        },
                        match th.write_capacity_units {
                            Some(x) => x,
                            None => 0,
                        },
                    ),
                ),
            },
        },
{
    match table {
        None => Err(Error::NotFound),
        Some(desc) => match desc.provisioned_throughput {
            None => Err(
                Error::ValidationError("Table does not have provisioned throughput".to_owned()),
            ),
            Some(th) => {
                let read = match th.read_capacity_units {
                    Some(r) => r,
                    None => 0,
                };
                let write = match th.write_capacity_units {
                    Some(w) => w,
                    None => 0,
                };
                Ok((read, write))
            },
        },
    }
}

} // verus!
