use zotero_rs::config::{default_headers, ClientOptions, DEFAULT_BASE_URL, DEFAULT_USER_AGENT};
use zotero_rs::time::Duration;

#[test]
fn client_options_defaults() {
    let options = ClientOptions::<()>::default();
    assert_eq!(options.base_url, "https://api.zotero.org/");
    assert_eq!(options.base_url, DEFAULT_BASE_URL);
    assert!(options.auth.is_none());
    assert_eq!(options.timeout, Duration::from_secs(30));
    assert_eq!(options.connect_timeout, Duration::from_secs(10));
    assert_eq!(options.user_agent, DEFAULT_USER_AGENT);
    assert_eq!(options.retry_policy.max_attempts, 3);
    assert_eq!(options.retry_policy.base_delay, Duration::from_millis(200));
    assert_eq!(options.retry_policy.max_delay, Duration::from_secs(5));
}

#[test]
fn every_request_carries_the_api_version_and_user_agent() {
    assert_eq!(
        default_headers("agent/1"),
        vec![
            ("Zotero-API-Version".to_owned(), "3".to_owned()),
            ("User-Agent".to_owned(), "agent/1".to_owned()),
        ]
    );
}
