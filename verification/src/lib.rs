//! Control-flow machinery for clients of asynchronous, paginated,
//! rate-limited remote services: a poll-until-terminal state machine with a
//! deadline, a cursor-based pagination adapter, a bounded batch accumulator,
//! a time-boxed memoizing cache, and the request builders that feed them.
pub mod batch;
pub mod cache;
pub mod cursor;
pub mod decimal;
pub mod dynamodb;
pub mod error;
pub mod message_batches;
pub mod messaging;
pub mod poller;
pub mod queue_attributes;
pub mod results;
pub mod s3;
pub mod schedule;
