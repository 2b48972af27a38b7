//! The retry policy and the defaults of client construction.

use vstd::prelude::*;

use crate::sort::{PairView, pair_view, pairs_view};
use crate::time::Duration;

verus! {

/// Retry behavior for transient API failures.
#[derive(Clone, Copy, Debug)]
pub struct RetryPolicy {
    /// Total attempts including the first request.
    pub max_attempts: u32,
    /// Base exponential backoff delay.
    pub base_delay: Duration,
    /// Maximum backoff delay.
    pub max_delay: Duration,
}

impl Default for RetryPolicy {
    fn default() -> (p: Self)
        ensures
            p.max_attempts == 3,
            p.base_delay@ == 200_000_000,
            p.max_delay@ == 5_000_000_000,
    {
        RetryPolicy {
            max_attempts: 3,
            base_delay: Duration::from_millis(200),
            max_delay: Duration::from_secs(5),
        }
    }
}

/// The API endpoint root used by default.
pub const DEFAULT_BASE_URL: &'static str = "https://api.zotero.org/";

/// The `User-Agent` sent by default.
pub const DEFAULT_USER_AGENT: &'static str = "zotero-rs/0.1.0";


/// Client construction options. `A` is the authentication the client sends
/// (the secret-holding type lives with the HTTP transport).
#[derive(Clone, Debug)]
pub struct ClientOptions<A> {
    /// API base URL.
    pub base_url: String,
    /// Authentication, if any.
    pub auth: Option<A>,
    /// Whole-request timeout.
    pub timeout: Duration,
    /// Connection timeout.
    pub connect_timeout: Duration,
    /// `User-Agent` header value.
    pub user_agent: String,
    /// Retry behavior for transient failures.
    pub retry_policy: RetryPolicy,
}

impl<A> Default for ClientOptions<A> {
    /// The API base URL, no authentication, 30 s and 10 s timeouts, this
    /// library's `User-Agent` and the default retry policy.
    fn default() -> (o: Self)
        ensures
            o.base_url@ == DEFAULT_BASE_URL@,
            o.auth is None,
            o.timeout@ == 30_000_000_000,
            o.connect_timeout@ == 10_000_000_000,
            o.user_agent@ == DEFAULT_USER_AGENT@,
            o.retry_policy.max_attempts == 3,
            o.retry_policy.base_delay@ == 200_000_000,
            o.retry_policy.max_delay@ == 5_000_000_000,
    {
        ClientOptions {
            base_url: DEFAULT_BASE_URL.to_owned(),
            auth: None,
            timeout: Duration::from_secs(30),
            connect_timeout: Duration::from_secs(10),
            user_agent: DEFAULT_USER_AGENT.to_owned(),
            retry_policy: RetryPolicy::default(),
        }
    }
}

/// The headers that every request of a client carries: the API version
/// (`Zotero-API-Version: 3`) and the `User-Agent`.
pub open spec fn default_headers_of(user_agent: Seq<char>) -> Seq<PairView> {
    seq![("Zotero-API-Version"@, "3"@), ("User-Agent"@, user_agent)]
}

/// The headers that every request of a client carries.
pub fn default_headers(user_agent: &str) -> (h: Vec<(String, String)>)
    ensures
        pairs_view(h@) == default_headers_of(user_agent@),
{
    let mut h: Vec<(String, String)> = Vec::new();
    let version = ("Zotero-API-Version".to_owned(), "3".to_owned());
    let agent = ("User-Agent".to_owned(), user_agent.to_owned());
    h.push(version);
    h.push(agent);
    assert(pairs_view(h@) =~= seq![pair_view(version), pair_view(agent)]);
    h
}

} // verus!
