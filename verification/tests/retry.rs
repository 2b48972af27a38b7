use zotero_rs::responses::ResponseMetadata;
use zotero_rs::retry::{
    attempt_count, compute_exponential_delay, compute_retry_delay, compute_sync_retry_delay,
    decide_attempt, decide_sync_conflict, should_retry_response, should_retry_transport_error,
    AttemptDecision, AttemptOutcome, OperationOutcome, SyncConflictDecision,
};
use zotero_rs::time::Duration;
use zotero_rs::{RetryPolicy, ZoteroClientError};

fn policy(attempts: u32, base_ms: u64, max_ms: u64) -> RetryPolicy {
    RetryPolicy {
        max_attempts: attempts,
        base_delay: Duration::from_millis(base_ms),
        max_delay: Duration::from_millis(max_ms),
    }
}

#[test]
fn uses_retry_after_or_backoff_before_exponential() {
    let metadata = ResponseMetadata {
        retry_after_seconds: Some(7),
        backoff_seconds: Some(2),
        ..ResponseMetadata::default()
    };

    let policy = RetryPolicy {
        max_attempts: 3,
        base_delay: Duration::from_millis(200),
        max_delay: Duration::from_secs(10),
    };

    let delay = compute_retry_delay(0, &metadata, policy);
    assert_eq!(delay, Duration::from_secs(7));
}

#[test]
fn retries_get_for_429_and_503() {
    assert!(should_retry_response(true, 429));
    assert!(should_retry_response(true, 503));
    assert!(!should_retry_response(false, 429));
}

#[test]
fn computes_increasing_sync_delays() {
    let policy = RetryPolicy {
        max_attempts: 3,
        base_delay: Duration::from_millis(50),
        max_delay: Duration::from_millis(300),
    };

    let d0 = compute_sync_retry_delay(0, policy);
    let d1 = compute_sync_retry_delay(1, policy);
    assert!(d1 > d0);
}

#[test]
fn backoff_uses_backoff_header_without_retry_after() {
    let metadata = ResponseMetadata { backoff_seconds: Some(2), ..ResponseMetadata::default() };
    let delay = compute_retry_delay(3, &metadata, policy(3, 200, 10_000));
    assert_eq!(delay, Duration::from_secs(2));
}

#[test]
fn zero_header_delay_falls_back_to_exponential() {
    let metadata = ResponseMetadata { retry_after_seconds: Some(0), backoff_seconds: Some(9), ..ResponseMetadata::default() };
    let delay = compute_retry_delay(2, &metadata, policy(3, 200, 10_000));
    assert_eq!(delay, Duration::from_millis(800));
}

#[test]
fn exponential_delay_doubles_and_caps() {
    let p = policy(3, 200, 5_000);
    assert_eq!(compute_exponential_delay(0, p), Duration::from_millis(200));
    assert_eq!(compute_exponential_delay(1, p), Duration::from_millis(400));
    assert_eq!(compute_exponential_delay(4, p), Duration::from_millis(3_200));
    assert_eq!(compute_exponential_delay(5, p), Duration::from_millis(5_000));
    assert_eq!(compute_exponential_delay(1_000, p), Duration::from_millis(5_000));
}

#[test]
fn exponential_delay_stops_doubling_after_twenty() {
    let p = RetryPolicy { max_attempts: 3, base_delay: Duration::from_millis(1), max_delay: Duration::from_secs(1_000_000) };
    assert_eq!(compute_exponential_delay(20, p), Duration::from_millis(1 << 20));
    assert_eq!(compute_exponential_delay(25, p), Duration::from_millis(1 << 20));
}

#[test]
fn exponential_delay_saturates() {
    let huge = Duration::from_secs(u64::MAX);
    let p = RetryPolicy { max_attempts: 3, base_delay: huge, max_delay: huge };
    assert_eq!(compute_exponential_delay(3, p), huge);
}

#[test]
fn transport_errors_wait_only_for_safe_requests() {
    assert!(should_retry_transport_error(true));
    assert!(!should_retry_transport_error(false));
}

#[test]
fn attempts_are_at_least_one() {
    assert_eq!(attempt_count(policy(0, 1, 2)), 1);
    assert_eq!(attempt_count(policy(4, 1, 2)), 4);
}

#[test]
fn safe_get_is_retried_after_503() {
    let metadata = ResponseMetadata { retry_after_seconds: Some(0), ..ResponseMetadata::default() };
    let d = decide_attempt(true, 0, 2, AttemptOutcome::Response { status: 503, metadata }, policy(2, 1, 3));
    match d {
        AttemptDecision::RetryAfter { delay, pending } => {
            assert_eq!(delay, Duration::from_millis(1));
            assert!(matches!(pending, Some(ZoteroClientError::ServiceUnavailable { .. })));
        }
        _ => panic!("retry expected"),
    }
    let ok = decide_attempt(true, 1, 2, AttemptOutcome::Response { status: 200, metadata: ResponseMetadata::default() }, policy(2, 1, 3));
    assert!(matches!(ok, AttemptDecision::Deliver));
}

#[test]
fn post_is_not_retried_after_503() {
    let d = decide_attempt(false, 0, 2, AttemptOutcome::Response { status: 503, metadata: ResponseMetadata::default() }, policy(2, 1, 3));
    assert!(matches!(d, AttemptDecision::Fail(ZoteroClientError::ServiceUnavailable { .. })));
}

#[test]
fn last_attempt_is_not_retried() {
    let d = decide_attempt(true, 1, 2, AttemptOutcome::Response { status: 429, metadata: ResponseMetadata::default() }, policy(2, 1, 3));
    assert!(matches!(d, AttemptDecision::Fail(ZoteroClientError::RateLimited { .. })));
}

#[test]
fn status_errors_are_classified() {
    let p = policy(3, 1, 3);
    let d = decide_attempt(true, 0, 3, AttemptOutcome::Response { status: 304, metadata: ResponseMetadata::default() }, p);
    assert!(matches!(d, AttemptDecision::Fail(ZoteroClientError::NotModified { .. })));
    let d = decide_attempt(true, 0, 3, AttemptOutcome::Response { status: 412, metadata: ResponseMetadata::default() }, p);
    assert!(matches!(d, AttemptDecision::Fail(ZoteroClientError::PreconditionFailed { .. })));
    let d = decide_attempt(true, 0, 3, AttemptOutcome::Response { status: 404, metadata: ResponseMetadata::default() }, p);
    assert!(matches!(d, AttemptDecision::FailWithBody { status: 404, .. }));
    let d = decide_attempt(false, 0, 3, AttemptOutcome::Response { status: 204, metadata: ResponseMetadata::default() }, p);
    assert!(matches!(d, AttemptDecision::Deliver));
}

#[test]
fn transport_failures_of_writes_end_the_request() {
    let p = policy(3, 100, 300);
    for attempt in 0..3 {
        let d = decide_attempt(false, attempt, 3, AttemptOutcome::TransportFailure, p);
        assert!(matches!(d, AttemptDecision::FailWithTransportError));
    }
    let d = decide_attempt(true, 0, 3, AttemptOutcome::TransportFailure, p);
    match d {
        AttemptDecision::RetryAfter { delay, pending } => {
            assert_eq!(delay, Duration::from_millis(100));
            assert!(pending.is_none());
        }
        _ => panic!("retry expected"),
    }
    let d = decide_attempt(true, 2, 3, AttemptOutcome::TransportFailure, p);
    assert!(matches!(d, AttemptDecision::FailWithTransportError));
}

#[test]
fn sync_conflicts_are_retried_until_runs_run_out() {
    let p = policy(3, 1, 2);
    assert!(matches!(decide_sync_conflict(0, 3, OperationOutcome::PreconditionFailed, p), SyncConflictDecision::RetryAfter(_)));
    assert!(matches!(decide_sync_conflict(1, 3, OperationOutcome::PreconditionFailed, p), SyncConflictDecision::RetryAfter(_)));
    assert!(matches!(decide_sync_conflict(2, 3, OperationOutcome::Succeeded, p), SyncConflictDecision::ReturnValue));
    assert!(matches!(decide_sync_conflict(2, 3, OperationOutcome::PreconditionFailed, p), SyncConflictDecision::ReturnError));
    assert!(matches!(decide_sync_conflict(0, 3, OperationOutcome::OtherFailure, p), SyncConflictDecision::ReturnError));
}

#[test]
fn default_retry_policy() {
    let p = RetryPolicy::default();
    assert_eq!(p.max_attempts, 3);
    assert_eq!(p.base_delay, Duration::from_millis(200));
    assert_eq!(p.max_delay, Duration::from_secs(5));
}

#[test]
fn exhausted_errors_carry_their_status() {
    let e = zotero_rs::retry::attempts_exhausted_error();
    assert!(matches!(&e, ZoteroClientError::HttpStatus { status: 500, .. }));
    assert_eq!(e.message(), "api returned status 500 Internal Server Error");
    let e = zotero_rs::retry::sync_conflict_exhausted_error();
    assert!(matches!(&e, ZoteroClientError::HttpStatus { status: 412, .. }));
}
