use zotero_rs::config::{DEFAULT_BASE_URL, DEFAULT_USER_AGENT};
use zotero_rs::responses::{PaginatedResponse, PaginationLinks, ResponseMetadata};
use zotero_rs::urls::{check_client_options, next_page_target, validate_base_url};
use zotero_rs::ZoteroClientError;

fn page_with_next(next: Option<&str>) -> PaginatedResponse<u32> {
    PaginatedResponse {
        data: vec![],
        metadata: ResponseMetadata {
            links: PaginationLinks {
                next: next.map(|s| s.to_owned()),
                ..PaginationLinks::default()
            },
            ..ResponseMetadata::default()
        },
    }
}

#[test]
fn rejects_http_base_url() {
    let result = check_client_options("http://api.zotero.org", DEFAULT_USER_AGENT);
    assert!(matches!(result, Err(ZoteroClientError::InsecureBaseUrl)));
}

#[test]
fn rejects_non_zotero_host() {
    let result = check_client_options("https://example.com", DEFAULT_USER_AGENT);
    assert!(matches!(result, Err(ZoteroClientError::UnsupportedHost)));
}

#[test]
fn accepts_default_options() {
    let parsed = check_client_options(DEFAULT_BASE_URL, DEFAULT_USER_AGENT).expect("defaults are valid");
    assert_eq!(parsed.scheme(), "https");
    assert_eq!(parsed.host(), Some("api.zotero.org"));
    assert_eq!(parsed.url().as_str(), "https://api.zotero.org/");
}

#[test]
fn rejects_unparsable_base_url() {
    let result = check_client_options("not a url", DEFAULT_USER_AGENT);
    assert!(matches!(result, Err(ZoteroClientError::UrlParse(_))));
}

#[test]
fn rejects_control_characters_in_user_agent() {
    let result = check_client_options(DEFAULT_BASE_URL, "agent\nnext");
    assert!(matches!(result, Err(ZoteroClientError::InvalidHeaderValue(_))));
    assert!(check_client_options(DEFAULT_BASE_URL, "tab\tis fine").is_ok());
}

#[test]
fn scheme_is_checked_before_host() {
    let result = check_client_options("http://example.com", DEFAULT_USER_AGENT);
    assert!(matches!(result, Err(ZoteroClientError::InsecureBaseUrl)));
}

#[test]
fn host_must_be_exactly_the_api_host() {
    let result = check_client_options("https://api.zotero.org.evil.com/", DEFAULT_USER_AGENT);
    assert!(matches!(result, Err(ZoteroClientError::UnsupportedHost)));
    let parsed = check_client_options("https://API.ZOTERO.ORG/", DEFAULT_USER_AGENT).expect("host is case-insensitive");
    assert_eq!(parsed.host(), Some("api.zotero.org"));
    assert!(validate_base_url(&parsed).is_ok());
}

#[test]
fn next_page_absent_gives_none() {
    let base = check_client_options(DEFAULT_BASE_URL, DEFAULT_USER_AGENT).expect("defaults are valid");
    assert!(matches!(next_page_target(&base, &page_with_next(None)), Ok(None)));
}

#[test]
fn next_page_on_same_host_is_followed() {
    let base = check_client_options(DEFAULT_BASE_URL, DEFAULT_USER_AGENT).expect("defaults are valid");
    let page = page_with_next(Some("https://api.zotero.org/users/1/items?start=25"));
    let next = next_page_target(&base, &page).expect("same host").expect("has next");
    assert_eq!(next.url().as_str(), "https://api.zotero.org/users/1/items?start=25");
}

#[test]
fn next_page_on_other_host_is_refused() {
    let base = check_client_options(DEFAULT_BASE_URL, DEFAULT_USER_AGENT).expect("defaults are valid");
    let page = page_with_next(Some("https://evil.example/users/1/items"));
    assert!(matches!(next_page_target(&base, &page), Err(ZoteroClientError::UnsupportedHost)));
    let page = page_with_next(Some("http://api.zotero.org/users/1/items"));
    assert!(matches!(next_page_target(&base, &page), Err(ZoteroClientError::UnsupportedHost)));
    let page = page_with_next(Some("::"));
    assert!(matches!(next_page_target(&base, &page), Err(ZoteroClientError::UrlParse(_))));
}

#[test]
fn error_messages_carry_the_outside_detail() {
    let err = check_client_options("not a url", DEFAULT_USER_AGENT).expect_err("must fail");
    assert_eq!(err.message(), "URL parse failed: relative URL without a base");
    let err = check_client_options(DEFAULT_BASE_URL, "bad\u{7f}").expect_err("must fail");
    assert_eq!(err.message(), "invalid header value: failed to parse header value");
    assert_eq!(ZoteroClientError::InsecureBaseUrl.message(), "base URL must use https");
    assert_eq!(
        ZoteroClientError::UnsupportedHost.message(),
        "base URL host must be api.zotero.org"
    );
}
