//! Job model: status state machine, retry policy, outcome handling.
use vstd::prelude::*;

use std::time::Duration;

use super::error::QueueError;
use crate::text::str_eq;
use crate::time::{backoff_delay, backoff_nanos, duration_as_nanos, duration_from_secs};

verus! {

/// Stable identifier for a job.
pub type JobId = i64;

/// State of a row in the job table.
#[derive(Debug, Clone, Copy, PartialEq, Eq, Structural)]
pub enum JobStatus {
    Pending,
    Claimed,
    Completed,
    Failed,
    DeadLetter,
}

/// The stored text of each status.
pub open spec fn status_text(s: JobStatus) -> Seq<char> {
    match s {
        JobStatus::Pending => "pending"@,
        JobStatus::Claimed => "claimed"@,
        JobStatus::Completed => "completed"@,
        JobStatus::Failed => "failed"@,
        JobStatus::DeadLetter => "dead_letter"@,
    }
}

/// The status whose stored text is `t`, if any.
pub open spec fn status_of_text(t: Seq<char>) -> Option<JobStatus> {
    if t == "pending"@ {
        Some(JobStatus::Pending)
    } else if t == "claimed"@ {
        Some(JobStatus::Claimed)
    } else if t == "completed"@ {
        Some(JobStatus::Completed)
    } else if t == "failed"@ {
        Some(JobStatus::Failed)
    } else if t == "dead_letter"@ {
        Some(JobStatus::DeadLetter)
    } else {
        None
    }
}

impl JobStatus {
    /// The stored text of this status.
    pub fn as_str(self) -> (r: &'static str)
        ensures
            r@ == status_text(self),
    {
        match self {
            JobStatus::Pending => "pending",
            JobStatus::Claimed => "claimed",
            JobStatus::Completed => "completed",
            JobStatus::Failed => "failed",
            JobStatus::DeadLetter => "dead_letter",
        }
    }

    /// Parse stored status text; unknown text is `InvalidStatus`.
    pub fn parse(s: &str) -> (r: Result<JobStatus, QueueError>)
        ensures
            match status_of_text(s@) {
                Some(st) => r == Ok::<JobStatus, QueueError>(st),
                None => r matches Err(QueueError::InvalidStatus(t)) && t@ == s@,
            },
    {
        if str_eq(s, "pending") {
            Ok(JobStatus::Pending)
        } else if str_eq(s, "claimed") {
            Ok(JobStatus::Claimed)
        } else if str_eq(s, "completed") {
            Ok(JobStatus::Completed)
        } else if str_eq(s, "failed") {
            Ok(JobStatus::Failed)
        } else if str_eq(s, "dead_letter") {
            Ok(JobStatus::DeadLetter)
        } else {
            Err(QueueError::InvalidStatus(s.to_string()))
        }
    }
}

impl std::str::FromStr for JobStatus {
    type Err = QueueError;

    fn from_str(s: &str) -> (r: Result<Self, Self::Err>)
        ensures
            match status_of_text(s@) {
                Some(st) => r == Ok::<JobStatus, QueueError>(st),
                None => r matches Err(QueueError::InvalidStatus(t)) && t@ == s@,
            },
    {
        JobStatus::parse(s)
    }
}

/// Reading back the text of a status gives the status: the stored form
/// round-trips for every status.
pub proof fn law_status_text_round_trips(s: JobStatus)
    ensures
        status_of_text(status_text(s)) == Some(s),
{
    reveal_strlit("pending");
    reveal_strlit("claimed");
    reveal_strlit("completed");
    reveal_strlit("failed");
    reveal_strlit("dead_letter");
    let p = "pending"@;
    let c = "claimed"@;
    let o = "completed"@;
    let f = "failed"@;
    let d = "dead_letter"@;
    assert(p[0] != c[0] && p[0] != o[0] && p[0] != f[0] && p[0] != d[0]);
    assert(c.len() != o.len() && c[0] != f[0] && c[0] != d[0]);
    assert(o[0] != f[0] && o[0] != d[0]);
    assert(f[0] != d[0]);
    assert(p != c && p != o && p != f && p != d);
    assert(c != o && c != f && c != d);
    assert(o != f && o != d);
    assert(f != d);
}

/// Retry behaviour for a queued job.
#[derive(Debug, Clone, Copy)]
pub struct RetryPolicy {
    pub max_attempts: u32,
    pub initial_backoff: Duration,
    pub max_backoff: Duration,
}

impl Default for RetryPolicy {
    /// The same policy as `RetryPolicy::defaults`.
    fn default() -> (r: Self)
        ensures
            r.max_attempts == 5,
            duration_as_nanos(r.initial_backoff) == 1_000_000_000,
            duration_as_nanos(r.max_backoff) == 60_000_000_000,
    {
        Self::defaults()
    }
}

impl RetryPolicy {
    /// Defaults: 5 attempts, 1s → 60s exponential.
    pub fn defaults() -> (r: Self)
        ensures
            r.max_attempts == 5,
            duration_as_nanos(r.initial_backoff) == 1_000_000_000,
            duration_as_nanos(r.max_backoff) == 60_000_000_000,
    {
        RetryPolicy {
            max_attempts: 5,
            initial_backoff: duration_from_secs(1),
            max_backoff: duration_from_secs(60),
        }
    }

    /// Delay to wait before the `attempt`-th retry (1-indexed).
    pub fn backoff_for(&self, attempt: u32) -> (d: Duration)
        ensures
            duration_as_nanos(d) == backoff_nanos(
                duration_as_nanos(self.initial_backoff) as int,
                duration_as_nanos(self.max_backoff) as int,
                attempt,
            ),
    {
        backoff_delay(self.initial_backoff, self.max_backoff, attempt)
    }
}

/// Result of running a single job, as the processor classifies it.
#[derive(Debug, Clone)]
pub enum ProcessOutcome {
    Success,
    /// Retry with exponential backoff, until attempts run out.
    Transient(String),
    /// Never retried.
    Permanent(String),
}

/// How a processed job is acknowledged.
#[derive(Debug)]
pub enum Ack {
    /// Mark completed.
    Success,
    /// Back to pending after `delay`, with the error recorded.
    Retry { message: String, delay: Duration },
    /// Out of attempts: dead letter.
    DeadLetter { message: String },
    /// Permanent error: failed.
    PermanentFailure { message: String },
}

/// The stored attempt count read as `u32` (`u32::MAX` when out of range).
pub open spec fn attempts_u32(a: i64) -> int {
    if 0 <= a <= u32::MAX { a as int } else { u32::MAX as int }
}

fn to_u32_or_max(a: i64) -> (r: u32)
    ensures
        r == attempts_u32(a),
{
    if 0 <= a && a <= 4294967295 {
        a as u32
    } else {
        4294967295
    }
}

/// Acknowledge a processed job: a transient failure is retried after the
/// backoff for the next attempt, or dead-lettered once the next attempt
/// would reach `max_attempts`; a permanent failure is failed at once.
pub fn decide_ack(outcome: ProcessOutcome, attempts: i64, max_attempts: i64, policy: &RetryPolicy) -> (r: Ack)
    requires
        attempts_u32(attempts) < u32::MAX,
    ensures
        match outcome {
            ProcessOutcome::Success => r is Success,
            ProcessOutcome::Permanent(m) => r == Ack::PermanentFailure { message: m },
            ProcessOutcome::Transient(m) => if attempts_u32(attempts) + 1 >= attempts_u32(max_attempts) {
                r == Ack::DeadLetter { message: m }
            } else {
                r matches Ack::Retry { message, delay } && message == m
                    && duration_as_nanos(delay) == backoff_nanos(
                        duration_as_nanos(policy.initial_backoff) as int,
                        duration_as_nanos(policy.max_backoff) as int,
                        (attempts_u32(attempts) + 1) as u32,
                    )
            },
        },
{
    let a = to_u32_or_max(attempts);
    let m = to_u32_or_max(max_attempts);
    match outcome {
        ProcessOutcome::Success => Ack::Success,
        ProcessOutcome::Transient(message) => {
            if a + 1 >= m {
                Ack::DeadLetter { message }
            } else {
                Ack::Retry { message, delay: policy.backoff_for(a + 1) }
            }
        },
        ProcessOutcome::Permanent(message) => Ack::PermanentFailure { message },
    }
}

/// A job that keeps failing transiently is tried exactly `max_attempts`
/// times: the failure of attempt number `k` (counting from one, `k - 1`
/// attempts recorded before it) is retried while `k < max_attempts` and
/// dead-lettered at `k == max_attempts`.
pub proof fn law_transient_failures_exhaust_at_max_attempts(recorded: i64, max_attempts: i64)
    requires
        0 <= recorded < u32::MAX,
        1 <= max_attempts <= u32::MAX,
    ensures
        (attempts_u32(recorded) + 1 >= attempts_u32(max_attempts)) <==> (recorded + 1 >= max_attempts),
{
}

/// Snapshot of queue health.
#[derive(Debug, Clone, Default)]
pub struct QueueStats {
    pub pending: i64,
    pub claimed: i64,
    pub completed: i64,
    pub failed: i64,
    pub dead_letter: i64,
}

/// Counts per status from `(status, count)` rows, the last row of a status
/// winning, over the first `n` rows; `None` when a row's status is unknown.
pub open spec fn tally(rows: Seq<(String, i64)>, n: int) -> Option<QueueStats>
    decreases n,
{
    if n <= 0 {
        Some(QueueStats { pending: 0, claimed: 0, completed: 0, failed: 0, dead_letter: 0 })
    } else {
        match tally(rows, n - 1) {
            None => None,
            Some(st) => {
                let (status, count) = rows[n - 1];
                match status_of_text(status@) {
                    None => None,
                    Some(JobStatus::Pending) => Some(QueueStats { pending: count, ..st }),
                    Some(JobStatus::Claimed) => Some(QueueStats { claimed: count, ..st }),
                    Some(JobStatus::Completed) => Some(QueueStats { completed: count, ..st }),
                    Some(JobStatus::Failed) => Some(QueueStats { failed: count, ..st }),
                    Some(JobStatus::DeadLetter) => Some(QueueStats { dead_letter: count, ..st }),
                }
            },
        }
    }
}

/// Queue statistics from grouped `(status, count)` rows.
pub fn stats_from_rows(rows: &Vec<(String, i64)>) -> (r: Result<QueueStats, QueueError>)
    ensures
        match tally(rows@, rows@.len() as int) {
            Some(st) => r == Ok::<QueueStats, QueueError>(st),
            None => r matches Err(QueueError::InvalidStatus(_)),
        },
{
    let mut st = QueueStats { pending: 0, claimed: 0, completed: 0, failed: 0, dead_letter: 0 };
    let mut i: usize = 0;
    while i < rows.len()
        invariant
            i <= rows@.len(),
            tally(rows@, i as int) == Some(st),
        decreases rows@.len() - i,
    {
        let status = JobStatus::parse(rows[i].0.as_str());
        let count = rows[i].1;
        match status {
            Err(e) => {
                proof {
                    let mut k = i as int + 1;
                    assert(tally(rows@, i + 1) is None);
                    lemma_tally_none_stays(rows@, i + 1, rows@.len() as int);
                }
                return Err(e);
            },
            Ok(JobStatus::Pending) => st.pending = count,
            Ok(JobStatus::Claimed) => st.claimed = count,
            Ok(JobStatus::Completed) => st.completed = count,
            Ok(JobStatus::Failed) => st.failed = count,
            Ok(JobStatus::DeadLetter) => st.dead_letter = count,
        }
        i = i + 1;
    }
    Ok(st)
}

proof fn lemma_tally_none_stays(rows: Seq<(String, i64)>, a: int, b: int)
    requires
        a <= b,
        tally(rows, a) is None,
    ensures
        tally(rows, b) is None,
    decreases b - a,
{
    if a < b {
        lemma_tally_none_stays(rows, a, b - 1);
    }
}

} // verus!

verus! {

/// A job payload type, as the queue routes it.
pub trait JobPayload {
    /// The identifier persisted in the `kind` column of its jobs; unique
    /// across payload types.
    fn kind() -> &'static str;
}

/// A stored job may be decoded as a payload of kind `expected` only when it
/// was stored under that kind; otherwise it is an unknown-kind error naming
/// the stored kind.
pub fn check_payload_kind(stored: &str, expected: &str) -> (r: Result<(), QueueError>)
    ensures
        stored@ == expected@ <==> r is Ok,
        r matches Err(e) ==> (e matches QueueError::UnknownKind(k) && k@ == stored@),
{
    if str_eq(stored, expected) {
        Ok(())
    } else {
        Err(QueueError::UnknownKind(String::from_str(stored)))
    }
}

} // verus!
