//! Job queue model: statuses, retry policy, outcome classification and
//! the dispatcher of the worker pool.
pub mod error;
pub mod job;
pub mod worker;

pub use error::QueueError;
pub use job::{check_payload_kind, Ack, JobId, JobPayload, JobStatus, ProcessOutcome, QueueStats, RetryPolicy};
pub use worker::{dispatch_step, DispatchAction, DispatchEvent, WorkerPoolConfig};
