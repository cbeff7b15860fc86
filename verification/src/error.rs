//! The error taxonomy shared by the poller, the pagination adapter and the
//! result streamer: transport failures pass through opaquely, malformed
//! responses are never retried, terminal job states and the client-side
//! deadline each have their own variant.
use vstd::prelude::*;

verus! {

/// Which field a structurally broken response was missing.
#[derive(Clone, Copy, Debug, PartialEq, Eq, Structural)]
pub enum InvalidKind {
    MissingJob,
    MissingStatus,
    MissingJobId,
    MissingResultSet,
}

/// How waiting on or enumerating a remote job can fail: the transport
/// failed, a response was malformed (never retried), the job reached a
/// cancelled or failed terminal state, or the client-side deadline elapsed
/// first. A failed job carries the remote diagnostic payload.
#[derive(Clone, Debug, PartialEq, Eq)]
pub enum Error {
    Transport(String),
    Invalid(InvalidKind),
    Cancelled,
    Failed(String),
    Timeout,
}

} // verus!
