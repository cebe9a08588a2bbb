//! Transport rules shared by the Radarr and Sonarr clients: status
//! classification, the retry policy, endpoint paths and the idempotent add.
use vstd::prelude::*;

use std::time::Duration;

use super::common::AddOutcome;
use super::error::ArrError;
use crate::text::{decimal, u64_to_decimal};
use crate::time::{backoff_delay, backoff_nanos, duration_as_nanos, duration_from_millis, duration_from_secs};

verus! {

/// Default per-request timeout, in milliseconds.
pub const DEFAULT_TIMEOUT_MS: u64 = 15_000;

/// Retry policy for transient failures.
#[derive(Debug, Clone, Copy)]
pub struct RetryPolicy {
    pub max_attempts: u32,
    pub initial_backoff: Duration,
    pub max_backoff: Duration,
}

impl Default for RetryPolicy {
    /// The same policy as `RetryPolicy::defaults`.
    fn default() -> (r: Self)
        ensures
            r.max_attempts == 3,
            duration_as_nanos(r.initial_backoff) == 200_000_000,
            duration_as_nanos(r.max_backoff) == 5_000_000_000,
    {
        Self::defaults()
    }
}

impl RetryPolicy {
    /// Three attempts, 200ms → 400ms → 800ms, capped at 5s.
    pub fn defaults() -> (r: Self)
        ensures
            r.max_attempts == 3,
            duration_as_nanos(r.initial_backoff) == 200_000_000,
            duration_as_nanos(r.max_backoff) == 5_000_000_000,
    {
        RetryPolicy {
            max_attempts: 3,
            initial_backoff: duration_from_millis(200),
            max_backoff: duration_from_secs(5),
        }
    }

    /// A single attempt, no backoff.
    pub fn no_retry() -> (r: Self)
        ensures
            r.max_attempts == 1,
            duration_as_nanos(r.initial_backoff) == 0,
            duration_as_nanos(r.max_backoff) == 0,
    {
        RetryPolicy {
            max_attempts: 1,
            initial_backoff: duration_from_millis(0),
            max_backoff: duration_from_millis(0),
        }
    }

    /// Delay before retrying after the `attempt`-th try (1-indexed).
    pub fn backoff_for(&self, attempt: u32) -> (d: Duration)
        ensures
            duration_as_nanos(d) == backoff_nanos(
                duration_as_nanos(self.initial_backoff) as int,
                duration_as_nanos(self.max_backoff) as int,
                attempt,
            ),
    {
        backoff_delay(self.initial_backoff, self.max_backoff, attempt)
    }

    /// After a failed `attempt`, whether the client tries again: only for a
    /// transient error and while attempts remain.
    pub fn should_retry(&self, err: &ArrError, attempt: u32) -> (r: bool)
        ensures
            r == (err.spec_is_transient() && attempt < self.max_attempts),
    {
        err.is_transient() && attempt < self.max_attempts
    }
}

/// How a response status is classified.
pub open spec fn spec_classify(status: u16) -> int {
    if 200 <= status <= 299 {
        0
    } else if status == 404 {
        1
    } else if status == 409 {
        2
    } else if 500 <= status <= 599 {
        3
    } else {
        4
    }
}

/// Classify a response status: 2xx is success; 404 `NotFound`; 409
/// `Conflict`; 5xx `Server`; any other status `Client`.
pub fn classify_status(instance: &str, endpoint: &str, status: u16, body: String) -> (r: Result<(), ArrError>)
    ensures
        spec_classify(status) == 0 ==> r is Ok,
        spec_classify(status) == 1 ==> (r matches Err(ArrError::NotFound { instance: i, endpoint: e })
            && i@ == instance@ && e@ == endpoint@),
        spec_classify(status) == 2 ==> (r matches Err(ArrError::Conflict { instance: i, endpoint: e, body: b })
            && i@ == instance@ && e@ == endpoint@ && b == body),
        spec_classify(status) == 3 ==> (r matches Err(ArrError::Server { instance: i, endpoint: e, status: s, body: b })
            && i@ == instance@ && e@ == endpoint@ && s == status && b == body),
        spec_classify(status) == 4 ==> (r matches Err(ArrError::Client { instance: i, endpoint: e, status: s, body: b })
            && i@ == instance@ && e@ == endpoint@ && s == status && b == body),
{
    if 200 <= status && status <= 299 {
        Ok(())
    } else if status == 404 {
        Err(ArrError::NotFound { instance: instance.to_string(), endpoint: endpoint.to_string() })
    } else if status == 409 {
        Err(ArrError::Conflict { instance: instance.to_string(), endpoint: endpoint.to_string(), body })
    } else if 500 <= status && status <= 599 {
        Err(ArrError::Server { instance: instance.to_string(), endpoint: endpoint.to_string(), status, body })
    } else {
        Err(ArrError::Client { instance: instance.to_string(), endpoint: endpoint.to_string(), status, body })
    }
}

/// What the idempotent add does after its POST.
pub enum AddStep<T> {
    /// Finished: created, or failed with an error that is not a conflict.
    Done(Result<AddOutcome<T>, ArrError>),
    /// The POST hit a conflict: look the resource up by its external id.
    LookUp(ArrError),
}

/// Step of the idempotent add after the POST returned `post`.
pub fn add_after_post<T>(post: Result<T, ArrError>) -> (r: AddStep<T>)
    ensures
        match post {
            Ok(t) => r == AddStep::Done(Ok::<AddOutcome<T>, ArrError>(AddOutcome::Created(t))),
            Err(e) => match e {
                ArrError::Conflict { .. } => r == AddStep::<T>::LookUp(e),
                _ => r == AddStep::<T>::Done(Err(e)),
            },
        },
{
    match post {
        Ok(t) => AddStep::Done(Ok(AddOutcome::Created(t))),
        Err(e) => match e {
            ArrError::Conflict { .. } => AddStep::LookUp(e),
            _ => AddStep::Done(Err(e)),
        },
    }
}

/// Outcome of the idempotent add after a conflict: the record found by
/// external id means another caller created it; none found means the
/// conflict concerned something else and stands.
pub fn add_after_lookup<T>(conflict: ArrError, found: Option<T>) -> (r: Result<AddOutcome<T>, ArrError>)
    ensures
        match found {
            Some(t) => r == Ok::<AddOutcome<T>, ArrError>(AddOutcome::AlreadyExisted(t)),
            None => r == Err::<AddOutcome<T>, ArrError>(conflict),
        },
{
    match found {
        Some(t) => Ok(AddOutcome::AlreadyExisted(t)),
        None => Err(conflict),
    }
}

pub open spec fn bool_text(b: bool) -> Seq<char> {
    if b { "true"@ } else { "false"@ }
}

fn push_bool(s: &mut String, b: bool)
    ensures
        final(s)@ == old(s)@ + bool_text(b),
{
    if b {
        s.append("true");
    } else {
        s.append("false");
    }
}

/// `/api/v3/movie?tmdbId=<id>`.
pub fn movie_by_tmdb_endpoint(tmdb_id: u32) -> (r: String)
    ensures
        r@ == "/api/v3/movie?tmdbId="@ + decimal(tmdb_id as nat),
{
    let mut s = String::new();
    s.append("/api/v3/movie?tmdbId=");
    let n = u64_to_decimal(tmdb_id as u64);
    s.append(n.as_str());
    s
}

/// `/api/v3/movie/<id>?deleteFiles=<true|false>`.
pub fn delete_movie_endpoint(id: u32, delete_files: bool) -> (r: String)
    ensures
        r@ == "/api/v3/movie/"@ + decimal(id as nat) + "?deleteFiles="@ + bool_text(delete_files),
{
    let mut s = String::new();
    s.append("/api/v3/movie/");
    let n = u64_to_decimal(id as u64);
    s.append(n.as_str());
    s.append("?deleteFiles=");
    push_bool(&mut s, delete_files);
    s
}

/// `/api/v3/series?tvdbId=<id>`.
pub fn series_by_tvdb_endpoint(tvdb_id: u32) -> (r: String)
    ensures
        r@ == "/api/v3/series?tvdbId="@ + decimal(tvdb_id as nat),
{
    let mut s = String::new();
    s.append("/api/v3/series?tvdbId=");
    let n = u64_to_decimal(tvdb_id as u64);
    s.append(n.as_str());
    s
}

/// `/api/v3/series/<id>?deleteFiles=<true|false>`.
pub fn delete_series_endpoint(id: u32, delete_files: bool) -> (r: String)
    ensures
        r@ == "/api/v3/series/"@ + decimal(id as nat) + "?deleteFiles="@ + bool_text(delete_files),
{
    let mut s = String::new();
    s.append("/api/v3/series/");
    let n = u64_to_decimal(id as u64);
    s.append(n.as_str());
    s.append("?deleteFiles=");
    push_bool(&mut s, delete_files);
    s
}

/// `/api/v3/episodefile?seriesId=<id>`.
pub fn episode_files_endpoint(series_id: u32) -> (r: String)
    ensures
        r@ == "/api/v3/episodefile?seriesId="@ + decimal(series_id as nat),
{
    let mut s = String::new();
    s.append("/api/v3/episodefile?seriesId=");
    let n = u64_to_decimal(series_id as u64);
    s.append(n.as_str());
    s
}

} // verus!
