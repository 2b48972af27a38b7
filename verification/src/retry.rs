//! Retry decisions for transient failures: which responses are retried,
//! how long to wait before the next attempt, and what each attempt's outcome
//! turns into. The network exchange itself happens outside; this module
//! decides what to do with each answer.

use vstd::prelude::*;

use crate::config::RetryPolicy;
use crate::error::ZoteroClientError;
use crate::responses::ResponseMetadata;
use crate::time::{Duration, max_duration_nanos};

verus! {

/// `2^n`.
pub open spec fn pow2(n: nat) -> nat
    decreases n,
{
    if n == 0 {
        1
    } else {
        2 * pow2((n - 1) as nat)
    }
}

/// `a`, or the largest span when `a` is larger.
pub open spec fn saturate(a: nat) -> nat {
    if a <= max_duration_nanos() { a } else { max_duration_nanos() }
}

/// The smaller of two spans.
pub open spec fn min_nat(a: nat, b: nat) -> nat {
    if a <= b { a } else { b }
}

/// The exponential backoff before retry number `attempt + 1`, in nanoseconds:
/// the base delay doubled once per earlier attempt (at most twenty times),
/// never more than the maximum delay.
pub open spec fn exponential_delay(attempt: u32, policy: RetryPolicy) -> nat {
    let shift: nat = if attempt < 20 { attempt as nat } else { 20 };
    min_nat(saturate(policy.base_delay@ * pow2(shift)), policy.max_delay@)
}

/// The delay that the headers ask for, in seconds: `Retry-After`, else
/// `Backoff`, else none (zero).
pub open spec fn header_delay_secs(metadata: ResponseMetadata) -> u64 {
    match metadata.retry_after_seconds {
        Some(s) => s,
        None => match metadata.backoff_seconds {
            Some(s) => s,
            None => 0,
        },
    }
}

/// The delay before retrying after `attempt`, in nanoseconds: what the
/// headers ask for when that is not zero, else the exponential backoff.
pub open spec fn retry_delay(attempt: u32, metadata: ResponseMetadata, policy: RetryPolicy) -> nat {
    if header_delay_secs(metadata) > 0 {
        (header_delay_secs(metadata) as nat) * 1_000_000_000
    } else {
        exponential_delay(attempt, policy)
    }
}

/// Whether a response with `status` is retried: only safe (idempotent)
/// requests, and only on `429 Too Many Requests` or
/// `503 Service Unavailable`.
pub fn should_retry_response(is_safe_retry: bool, status: u16) -> (r: bool)
    ensures
        r == (is_safe_retry && (status == 429 || status == 503)),
{
    is_safe_retry && (status == 429 || status == 503)
}

/// Whether a failed exchange (no response at all) is retried after a wait:
/// only for safe requests.
pub fn should_retry_transport_error(is_safe_retry: bool) -> (r: bool)
    ensures
        r == is_safe_retry,
{
    is_safe_retry
}

/// The exponential backoff before retry number `attempt_index + 1`.
pub fn compute_exponential_delay(attempt_index: u32, policy: RetryPolicy) -> (d: Duration)
    ensures
        d@ == exponential_delay(attempt_index, policy),
{
    let shift: u32 = if attempt_index < 20 { attempt_index } else { 20 };
    let mut factor: u32 = 1;
    let mut i: u32 = 0;
    while i < shift
        invariant
            i <= shift <= 20,
            factor == pow2(i as nat),
            factor <= 0x100000,
        decreases shift - i,
    {
        proof { lemma_pow2_bounded(i as nat + 1, 20); }
        factor = factor * 2;
        i = i + 1;
    }
    let base = policy.base_delay.saturating_mul(factor);
    base.min(policy.max_delay)
}

proof fn lemma_pow2_bounded(n: nat, m: nat)
    requires
        n <= m,
    ensures
        pow2(n) <= pow2(m),
        m == 20 ==> pow2(m) == 0x100000,
    decreases m,
{
    if m == 20 {
        reveal_with_fuel(pow2, 21);
    }
    if n < m {
        lemma_pow2_bounded(n, (m - 1) as nat);
        lemma_pow2_bounded((m - 1) as nat, (m - 1) as nat);
    }
}

/// The delay before retrying after `attempt_index`: `Retry-After` or
/// `Backoff` (in that order) when non-zero, else the exponential backoff.
pub fn compute_retry_delay(attempt_index: u32, metadata: &ResponseMetadata, policy: RetryPolicy) -> (d: Duration)
    ensures
        d@ == retry_delay(attempt_index, *metadata, policy),
{
    let header_delay_seconds: u64 = match metadata.retry_after_seconds {
        Some(s) => s,
        None => match metadata.backoff_seconds {
            Some(s) => s,
            None => 0,
        },
    };
    if header_delay_seconds > 0 {
        return Duration::from_secs(header_delay_seconds);
    }
    compute_exponential_delay(attempt_index, policy)
}

/// The delay before retrying an operation that met a sync conflict
/// (`412 Precondition Failed`): the exponential backoff.
pub fn compute_sync_retry_delay(attempt_index: u32, policy: RetryPolicy) -> (d: Duration)
    ensures
        d@ == exponential_delay(attempt_index, policy),
{
    compute_exponential_delay(attempt_index, policy)
}

/// How many times an exchange is tried: the policy's attempts, at least one.
pub open spec fn attempt_limit(policy: RetryPolicy) -> u32 {
    if policy.max_attempts >= 1 { policy.max_attempts } else { 1 }
}

/// How many times an exchange is tried: the policy's attempts, at least one.
pub fn attempt_count(policy: RetryPolicy) -> (n: u32)
    ensures
        n == attempt_limit(policy),
        n >= 1,
{
    if policy.max_attempts >= 1 { policy.max_attempts } else { 1 }
}

// ---------------------------------------------------------------------------
// Laws of the backoff
// ---------------------------------------------------------------------------

/// The exponential backoff never exceeds the policy's maximum delay.
pub proof fn lemma_backoff_capped(attempt: u32, policy: RetryPolicy)
    ensures
        exponential_delay(attempt, policy) <= policy.max_delay@,
{
}

/// The exponential backoff never shrinks from one attempt to the next: a
/// later attempt waits at least as long as an earlier one.
pub proof fn lemma_backoff_monotone(a: u32, b: u32, policy: RetryPolicy)
    requires
        a <= b,
    ensures
        exponential_delay(a, policy) <= exponential_delay(b, policy),
{
    let sa: nat = if a < 20 { a as nat } else { 20 };
    let sb: nat = if b < 20 { b as nat } else { 20 };
    lemma_pow2_bounded(sa, sb);
    let x = policy.base_delay@;
    assert(x * pow2(sa) <= x * pow2(sb)) by (nonlinear_arith)
        requires pow2(sa) <= pow2(sb);
}

/// Headers win over the backoff: a non-zero `Retry-After`, else a non-zero
/// `Backoff`, sets the delay in whole seconds whatever the attempt.
pub proof fn lemma_header_delay_wins(attempt: u32, metadata: ResponseMetadata, policy: RetryPolicy)
    ensures
        metadata.retry_after_seconds matches Some(s) ==> (s > 0 ==> retry_delay(attempt, metadata, policy) == s * 1_000_000_000),
        metadata.retry_after_seconds is None ==> (metadata.backoff_seconds matches Some(s) ==> (s > 0
            ==> retry_delay(attempt, metadata, policy) == s * 1_000_000_000)),
        header_delay_secs(metadata) == 0 ==> retry_delay(attempt, metadata, policy) == exponential_delay(attempt, policy),
{
}

// ---------------------------------------------------------------------------
// One attempt's outcome and what follows it
// ---------------------------------------------------------------------------

/// What one attempt of an exchange came back with.
pub enum AttemptOutcome {
    /// A response arrived, with this status and these headers.
    Response { status: u16, metadata: ResponseMetadata },
    /// No response: the exchange failed in transport.
    TransportFailure,
}

/// What to do after one attempt.
pub enum AttemptDecision {
    /// Hand the response to the caller.
    Deliver,
    /// Stop and report this error.
    Fail(ZoteroClientError),
    /// Stop and report an unexpected status, with the response body.
    FailWithBody { status: u16, metadata: ResponseMetadata },
    /// Wait for `delay`, remember `pending` (or, when `None`, the transport
    /// failure) as the latest error, then try again.
    RetryAfter { delay: Duration, pending: Option<ZoteroClientError> },
    /// Stop and report the transport failure.
    FailWithTransportError,
}

/// Whether `status` is a success (`2xx`).
pub open spec fn is_success(status: u16) -> bool {
    200 <= status <= 299
}

/// Decides what follows attempt number `attempt` (from zero) of at most
/// `attempts` attempts.
///
/// A success is delivered. `304` and `412` fail at once with their own
/// errors. A safe request that met `429` or `503` waits (per
/// `compute_retry_delay`) and tries again while attempts remain; otherwise
/// these statuses fail with `RateLimited` / `ServiceUnavailable`. Any other
/// status fails with the body. A transport failure of a safe request waits
/// and tries again while attempts remain; a transport failure of a write, or
/// of the last attempt, ends the exchange with that failure: writes are
/// never sent twice.
pub fn decide_attempt(
    is_safe_retry: bool,
    attempt: u32,
    attempts: u32,
    outcome: AttemptOutcome,
    policy: RetryPolicy,
) -> (d: AttemptDecision)
    ensures
        match outcome {
            AttemptOutcome::Response { status, metadata } => {
                if is_success(status) {
                    d is Deliver
                } else if status == 304 {
                    d == AttemptDecision::Fail(ZoteroClientError::NotModified { metadata: Box::new(metadata) })
                } else if status == 412 {
                    d == AttemptDecision::Fail(ZoteroClientError::PreconditionFailed { metadata: Box::new(metadata) })
                } else if is_safe_retry && (status == 429 || status == 503) && attempt + 1 < attempts {
                    &&& d matches AttemptDecision::RetryAfter { delay, pending }
                    &&& delay@ == retry_delay(attempt, metadata, policy)
                    &&& pending == Some(if status == 429 {
                            ZoteroClientError::RateLimited { metadata: Box::new(metadata) }
                        } else {
                            ZoteroClientError::ServiceUnavailable { metadata: Box::new(metadata) }
                        })
                } else if status == 429 {
                    d == AttemptDecision::Fail(ZoteroClientError::RateLimited { metadata: Box::new(metadata) })
                } else if status == 503 {
                    d == AttemptDecision::Fail(ZoteroClientError::ServiceUnavailable { metadata: Box::new(metadata) })
                } else {
                    d == AttemptDecision::FailWithBody { status, metadata }
                }
            },
            AttemptOutcome::TransportFailure => {
                if is_safe_retry && attempt + 1 < attempts {
                    &&& d matches AttemptDecision::RetryAfter { delay, pending }
                    &&& pending is None
                    &&& delay@ == exponential_delay(attempt, policy)
                } else {
                    d is FailWithTransportError
                }
            },
        },
        // Only safe requests are ever retried after a wait, and never past
        // the last attempt.
        d is RetryAfter ==> is_safe_retry && attempt + 1 < attempts,
        // A write is sent again after no outcome: a transport failure ends it.
        !is_safe_retry && outcome is TransportFailure ==> d is FailWithTransportError,
{
    match outcome {
        AttemptOutcome::Response { status, metadata } => {
            if 200 <= status && status <= 299 {
                return AttemptDecision::Deliver;
            }
            if status == 304 {
                return AttemptDecision::Fail(ZoteroClientError::NotModified { metadata: Box::new(metadata) });
            }
            if status == 412 {
                return AttemptDecision::Fail(ZoteroClientError::PreconditionFailed { metadata: Box::new(metadata) });
            }
            if should_retry_response(is_safe_retry, status) && attempt < attempts && attempt + 1 < attempts {
                let delay = compute_retry_delay(attempt, &metadata, policy);
                let pending = if status == 429 {
                    ZoteroClientError::RateLimited { metadata: Box::new(metadata) }
                } else {
                    ZoteroClientError::ServiceUnavailable { metadata: Box::new(metadata) }
                };
                return AttemptDecision::RetryAfter { delay, pending: Some(pending) };
            }
            if status == 429 {
                return AttemptDecision::Fail(ZoteroClientError::RateLimited { metadata: Box::new(metadata) });
            }
            if status == 503 {
                return AttemptDecision::Fail(ZoteroClientError::ServiceUnavailable { metadata: Box::new(metadata) });
            }
            AttemptDecision::FailWithBody { status, metadata }
        },
        AttemptOutcome::TransportFailure => {
            if should_retry_transport_error(is_safe_retry) && attempt < attempts && attempt + 1 < attempts {
                let empty = ResponseMetadata::default();
                let delay = compute_retry_delay(attempt, &empty, policy);
                AttemptDecision::RetryAfter { delay, pending: None }
            } else {
                AttemptDecision::FailWithTransportError
            }
        },
    }
}

/// The error reported when every attempt ended without an error to report.
pub fn attempts_exhausted_error() -> (e: ZoteroClientError)
    ensures
        e matches ZoteroClientError::HttpStatus { status, body, metadata } && status == 500
            && body@ == "request failed without explicit error"@
            && crate::responses::is_empty_metadata(*metadata),
{
    ZoteroClientError::HttpStatus {
        status: 500,
        body: "request failed without explicit error".to_owned(),
        metadata: Box::new(ResponseMetadata::default()),
    }
}

// ---------------------------------------------------------------------------
// Retrying operations that meet a sync conflict
// ---------------------------------------------------------------------------

/// How a whole operation ended.
pub enum OperationOutcome {
    /// It produced a value.
    Succeeded,
    /// It failed with `412 Precondition Failed` (a sync conflict).
    PreconditionFailed,
    /// It failed with any other error.
    OtherFailure,
}

/// What follows one run of an operation under sync-conflict retry.
pub enum SyncConflictDecision {
    /// Return the value.
    ReturnValue,
    /// Wait for the delay, then run the operation again.
    RetryAfter(Duration),
    /// Return the error.
    ReturnError,
}

/// Decides what follows run number `attempt` (from zero) of at most
/// `attempts` runs: a sync conflict is retried after the exponential backoff
/// while runs remain; a value or any other error is returned.
pub fn decide_sync_conflict(attempt: u32, attempts: u32, outcome: OperationOutcome, policy: RetryPolicy) -> (d: SyncConflictDecision)
    ensures
        match outcome {
            OperationOutcome::Succeeded => d is ReturnValue,
            OperationOutcome::PreconditionFailed => {
                if attempt + 1 < attempts {
                    d matches SyncConflictDecision::RetryAfter(delay) && delay@ == exponential_delay(attempt, policy)
                } else {
                    d is ReturnError
                }
            },
            OperationOutcome::OtherFailure => d is ReturnError,
        },
        // A run is repeated only while runs remain, and only after a sync conflict.
        d is RetryAfter ==> attempt + 1 < attempts && outcome is PreconditionFailed,
{
    match outcome {
        OperationOutcome::Succeeded => SyncConflictDecision::ReturnValue,
        OperationOutcome::PreconditionFailed => {
            if attempt < attempts && attempt + 1 < attempts {
                SyncConflictDecision::RetryAfter(compute_sync_retry_delay(attempt, policy))
            } else {
                SyncConflictDecision::ReturnError
            }
        },
        OperationOutcome::OtherFailure => SyncConflictDecision::ReturnError,
    }
}

/// The error reported when the sync-conflict retries run out without an
/// error to report.
pub fn sync_conflict_exhausted_error() -> (e: ZoteroClientError)
    ensures
        e matches ZoteroClientError::HttpStatus { status, body, metadata } && status == 412
            && body@ == "sync conflict retry attempts exhausted"@
            && crate::responses::is_empty_metadata(*metadata),
{
    ZoteroClientError::HttpStatus {
        status: 412,
        body: "sync conflict retry attempts exhausted".to_owned(),
        metadata: Box::new(ResponseMetadata::default()),
    }
}

} // verus!
