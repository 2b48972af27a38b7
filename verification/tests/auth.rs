use zotero_rs::auth::{auth_header, AuthScheme};

#[test]
fn injects_api_key_header() {
    let (name, value) = auth_header(AuthScheme::ApiKey, "test-key");
    assert_eq!(name, "Zotero-API-Key");
    assert_eq!(value, "test-key");
}

#[test]
fn injects_bearer_header() {
    let (name, value) = auth_header(AuthScheme::BearerToken, "test-token");
    assert_eq!(name, "Authorization");
    assert_eq!(value, "Bearer test-token");
}
