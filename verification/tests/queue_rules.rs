use std::str::FromStr;
use std::time::Duration;

use multilinguarr::queue::job::{decide_ack, stats_from_rows};
use multilinguarr::queue::{
    check_payload_kind, dispatch_step, Ack, DispatchAction, DispatchEvent, JobStatus,
    ProcessOutcome, QueueError, RetryPolicy, WorkerPoolConfig,
};

#[test]
fn status_round_trip() {
    for s in [
        JobStatus::Pending,
        JobStatus::Claimed,
        JobStatus::Completed,
        JobStatus::Failed,
        JobStatus::DeadLetter,
    ] {
        assert_eq!(JobStatus::from_str(s.as_str()).unwrap(), s);
    }
}

#[test]
fn unknown_status_rejected() {
    let err = JobStatus::from_str("nope").unwrap_err();
    assert!(matches!(err, QueueError::InvalidStatus(s) if s == "nope"));
}

#[test]
fn retry_backoff_caps_at_max() {
    let policy = RetryPolicy {
        max_attempts: 10,
        initial_backoff: Duration::from_secs(1),
        max_backoff: Duration::from_secs(8),
    };
    assert_eq!(policy.backoff_for(1), Duration::from_secs(1));
    assert_eq!(policy.backoff_for(2), Duration::from_secs(2));
    assert_eq!(policy.backoff_for(3), Duration::from_secs(4));
    assert_eq!(policy.backoff_for(4), Duration::from_secs(8));
    assert_eq!(policy.backoff_for(8), Duration::from_secs(8));
}

#[test]
fn status_text_forms() {
    assert_eq!(JobStatus::Pending.as_str(), "pending");
    assert_eq!(JobStatus::Claimed.as_str(), "claimed");
    assert_eq!(JobStatus::Completed.as_str(), "completed");
    assert_eq!(JobStatus::Failed.as_str(), "failed");
    assert_eq!(JobStatus::DeadLetter.as_str(), "dead_letter");
}

#[test]
fn queue_retry_defaults() {
    let p = RetryPolicy::defaults();
    assert_eq!(p.max_attempts, 5);
    assert_eq!(p.initial_backoff, Duration::from_secs(1));
    assert_eq!(p.max_backoff, Duration::from_secs(60));
    assert_eq!(p.backoff_for(0), Duration::from_secs(1));
    assert_eq!(p.backoff_for(7), Duration::from_secs(60));
    assert_eq!(p.backoff_for(u32::MAX), Duration::from_secs(60));
}

#[test]
fn transient_failure_is_retried_with_backoff() {
    let p = RetryPolicy::defaults();
    let ack = decide_ack(ProcessOutcome::Transient("boom".to_owned()), 1, 5, &p);
    match ack {
        Ack::Retry { message, delay } => {
            assert_eq!(message, "boom");
            assert_eq!(delay, Duration::from_secs(2));
        }
        other => panic!("expected retry, got {other:?}"),
    }
}

#[test]
fn transient_failure_dead_letters_at_max_attempts() {
    let p = RetryPolicy::defaults();
    let ack = decide_ack(ProcessOutcome::Transient("boom".to_owned()), 4, 5, &p);
    assert!(matches!(ack, Ack::DeadLetter { message } if message == "boom"));
}

#[test]
fn permanent_failure_fails_at_once() {
    let p = RetryPolicy::defaults();
    let ack = decide_ack(ProcessOutcome::Permanent("bad".to_owned()), 0, 5, &p);
    assert!(matches!(ack, Ack::PermanentFailure { message } if message == "bad"));
    let ok = decide_ack(ProcessOutcome::Success, 0, 5, &p);
    assert!(matches!(ok, Ack::Success));
}

#[test]
fn stats_count_rows_by_status() {
    let rows = vec![
        ("pending".to_owned(), 3),
        ("dead_letter".to_owned(), 2),
        ("completed".to_owned(), 7),
    ];
    let st = stats_from_rows(&rows).unwrap();
    assert_eq!(st.pending, 3);
    assert_eq!(st.claimed, 0);
    assert_eq!(st.completed, 7);
    assert_eq!(st.failed, 0);
    assert_eq!(st.dead_letter, 2);
}

#[test]
fn stats_reject_unknown_status() {
    let rows = vec![("weird".to_owned(), 1)];
    assert!(matches!(stats_from_rows(&rows), Err(QueueError::InvalidStatus(_))));
}

#[test]
fn payload_kind_must_match() {
    assert!(check_payload_kind("radarr_webhook", "radarr_webhook").is_ok());
    let err = check_payload_kind("sonarr_webhook", "radarr_webhook").unwrap_err();
    assert!(matches!(err, QueueError::UnknownKind(k) if k == "sonarr_webhook"));
}

#[test]
fn worker_pool_defaults() {
    let c = WorkerPoolConfig::new(4, "worker-1".to_owned());
    assert_eq!(c.concurrency, 4);
    assert_eq!(c.poll_interval_ms, 500);
    assert_eq!(c.claim_for_secs, 60);
    assert_eq!(c.retry_policy.max_attempts, 5);
    assert_eq!(c.worker_id, "worker-1");
}

#[test]
fn dispatcher_steps() {
    assert_eq!(dispatch_step(DispatchEvent::Cancelled), DispatchAction::Stop);
    assert_eq!(dispatch_step(DispatchEvent::SlotsClosed), DispatchAction::Stop);
    assert_eq!(dispatch_step(DispatchEvent::SlotAcquired), DispatchAction::Claim);
    assert_eq!(dispatch_step(DispatchEvent::Claimed), DispatchAction::SpawnWorker);
    assert_eq!(dispatch_step(DispatchEvent::QueueEmpty), DispatchAction::ReleaseAndSleep);
    assert_eq!(dispatch_step(DispatchEvent::ClaimFailed), DispatchAction::ReleaseAndSleep);
    assert_eq!(dispatch_step(DispatchEvent::PollElapsed), DispatchAction::AwaitSlot);
}

#[test]
fn retry_policies_default_to_their_defaults() {
    let q = RetryPolicy::default();
    assert_eq!(q.max_attempts, 5);
    assert_eq!(q.initial_backoff, Duration::from_secs(1));
    assert_eq!(q.max_backoff, Duration::from_secs(60));
    let c = multilinguarr::client::http::RetryPolicy::default();
    assert_eq!(c.max_attempts, 3);
    assert_eq!(c.initial_backoff, Duration::from_millis(200));
    assert_eq!(c.max_backoff, Duration::from_secs(5));
}
