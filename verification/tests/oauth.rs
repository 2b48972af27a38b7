use zotero_rs::encoding::percent_encode_oauth;
use zotero_rs::oauth::{
    access_token_from_pairs, request_token_from_pairs,
    authorization_header, build_signature_base_string, hmac_sha1_signature, oauth_authorize_url,
    chrono_like_unix_seconds, oauth_nonce, oauth_timestamp, parse_access_token_response, unix_seconds_from, parse_request_token_response,
    sign_access_token_call, sign_request_token_call, OAuthAccessTokenRequest,
    OAuthRequestTokenRequest,
};
use zotero_rs::text::parse_u64;

fn owned(pairs: &[(&str, &str)]) -> Vec<(String, String)> {
    pairs
        .iter()
        .map(|(k, v)| ((*k).to_owned(), (*v).to_owned()))
        .collect()
}

#[test]
fn percent_encodes_oauth_values() {
    assert_eq!(percent_encode_oauth("a b+c"), "a%20b%2Bc");
}

#[test]
fn creates_deterministic_base_string() {
    let params = vec![
        ("oauth_consumer_key".to_owned(), "key".to_owned()),
        ("oauth_nonce".to_owned(), "nonce".to_owned()),
        ("oauth_signature_method".to_owned(), "HMAC-SHA1".to_owned()),
        ("oauth_timestamp".to_owned(), "1700000000".to_owned()),
        ("oauth_version".to_owned(), "1.0".to_owned()),
    ];

    let base =
        build_signature_base_string("POST", "https://www.zotero.org/oauth/request", &params);

    assert!(base.starts_with("POST&https%3A%2F%2Fwww.zotero.org%2Foauth%2Frequest&"));
}

#[test]
fn oauth_encode_keeps_expected_characters_encoded() {
    assert_eq!(
        percent_encode_oauth("https://example.com/callback?a=1&b=2"),
        "https%3A%2F%2Fexample.com%2Fcallback%3Fa%3D1%26b%3D2"
    );
}

#[test]
fn parses_request_token_response() {
    let parsed =
        parse_request_token_response("oauth_token=a&oauth_token_secret=b").expect("must parse");
    assert_eq!(parsed.token, "a");
    assert_eq!(parsed.token_secret, "b");
}

#[test]
fn fails_on_missing_request_token_secret() {
    let err = parse_request_token_response("oauth_token=a").expect_err("must fail");
    assert!(err.message().contains("oauth_token_secret"));
}

#[test]
fn parses_access_token_response() {
    let parsed = parse_access_token_response(
        "oauth_token=t&oauth_token_secret=s&userID=99&username=test-user",
    )
    .expect("must parse");

    assert_eq!(parsed.token, "t");
    assert_eq!(parsed.token_secret, "s");
    assert_eq!(parsed.user_id.as_deref(), Some("99"));
    assert_eq!(parsed.username.as_deref(), Some("test-user"));
}

#[test]
fn fails_on_missing_access_token() {
    let err = parse_access_token_response("oauth_token_secret=s").expect_err("must fail");
    assert!(err.message().contains("oauth_token"));
}

#[test]
fn builds_authorize_url_with_token() {
    assert_eq!(
        oauth_authorize_url("abc123"),
        "https://www.zotero.org/oauth/authorize?oauth_token=abc123"
    );
}

#[test]
fn authorize_url_form_encodes_the_token() {
    assert_eq!(
        oauth_authorize_url("a b&c"),
        "https://www.zotero.org/oauth/authorize?oauth_token=a+b%26c"
    );
}

#[test]
fn full_base_string_sorts_by_name_then_value() {
    let params = owned(&[("b", "2"), ("a", "z"), ("a", "y"), ("c d", "e/f")]);
    let base = build_signature_base_string("post", "https://x.org/p", &params);
    assert_eq!(
        base,
        "POST&https%3A%2F%2Fx.org%2Fp&a%3Dy%26a%3Dz%26b%3D2%26c%2520d%3De%252Ff"
    );
}

#[test]
fn base_string_does_not_depend_on_parameter_order() {
    let a = owned(&[("x", "1"), ("y", "2"), ("x", "0")]);
    let b = owned(&[("x", "0"), ("x", "1"), ("y", "2")]);
    assert_eq!(
        build_signature_base_string("GET", "https://x.org", &a),
        build_signature_base_string("GET", "https://x.org", &b)
    );
}

#[test]
fn signature_uses_encoded_secrets() {
    assert_eq!(
        hmac_sha1_signature("abc", "c s", Some("t&s")),
        "Zcc3vvYAZEtnEfTnZCq06DtxZU4="
    );
}

#[test]
fn authorization_header_sorts_by_name_only_and_keeps_ties() {
    let pairs = owned(&[("b", "1"), ("a", "z"), ("a", "y")]);
    assert_eq!(
        authorization_header(&pairs),
        "OAuth a=\"z\", a=\"y\", b=\"1\""
    );
}

#[test]
fn signs_request_token_call() {
    let request = OAuthRequestTokenRequest {
        consumer_key: "ck".to_owned(),
        consumer_secret: "cs".to_owned(),
        callback: "https://example.com/cb".to_owned(),
        name: "My App".to_owned(),
        library_access: "1".to_owned(),
        all_groups: false,
        write_access: true,
    };
    let call = sign_request_token_call(&request, "n0nce", "1700000000");
    assert_eq!(
        call.authorization,
        "OAuth oauth_callback=\"https%3A%2F%2Fexample.com%2Fcb\", oauth_consumer_key=\"ck\", \
         oauth_nonce=\"n0nce\", oauth_signature=\"ipHZTyNbXirzt%2FOtLqtkayI2z%2BU%3D\", \
         oauth_signature_method=\"HMAC-SHA1\", oauth_timestamp=\"1700000000\", oauth_version=\"1.0\""
    );
    assert_eq!(
        call.body_params,
        owned(&[
            ("name", "My App"),
            ("library_access", "1"),
            ("all_groups", "none"),
            ("write_access", "1"),
        ])
    );
}

#[test]
fn signs_access_token_call() {
    let request = OAuthAccessTokenRequest {
        consumer_key: "ck".to_owned(),
        consumer_secret: "cs".to_owned(),
        request_token: "rt".to_owned(),
        request_token_secret: "rts".to_owned(),
        verifier: "v".to_owned(),
    };
    let call = sign_access_token_call(&request, "n", "1");
    assert_eq!(
        call.authorization,
        "OAuth oauth_consumer_key=\"ck\", oauth_nonce=\"n\", \
         oauth_signature=\"JNha%2FA4%2BEfiwqWnz5IEYKuSOXGQ%3D\", oauth_signature_method=\"HMAC-SHA1\", \
         oauth_timestamp=\"1\", oauth_token=\"rt\", oauth_verifier=\"v\", oauth_version=\"1.0\""
    );
    assert!(call.body_params.is_empty());
}

#[test]
fn nonce_is_thirty_two_alphanumerics() {
    let nonce = oauth_nonce();
    assert_eq!(nonce.chars().count(), 32);
    assert!(nonce.chars().all(|c| c.is_ascii_alphanumeric()));
}

#[test]
fn timestamp_is_decimal_seconds() {
    let ts = oauth_timestamp();
    let secs = parse_u64(&ts).expect("decimal");
    assert!(secs > 1_600_000_000);
    assert_eq!(ts, secs.to_string());
}

#[test]
fn later_form_fields_win_and_are_decoded() {
    let parsed = parse_request_token_response("oauth_token=a%20b&oauth_token=c+d&oauth_token_secret=s")
        .expect("must parse");
    assert_eq!(parsed.token, "c d");
    assert_eq!(parsed.token_secret, "s");
}

#[test]
fn missing_token_is_reported_first() {
    let err = parse_request_token_response("").expect_err("must fail");
    assert_eq!(err.message(), "invalid oauth response: missing oauth_token");
}

#[test]
fn unix_seconds_come_from_the_reading() {
    assert_eq!(unix_seconds_from(Some(1_700_000_000)), 1_700_000_000);
    assert_eq!(unix_seconds_from(None), 0);
    assert!(chrono_like_unix_seconds() > 1_600_000_000);
}

#[test]
fn signatures_are_twenty_eight_characters() {
    assert_eq!(hmac_sha1_signature("", "", None).len(), 28);
    assert_eq!(
        hmac_sha1_signature("base", "secret", None),
        hmac_sha1_signature("base", "secret", Some(""))
    );
}

#[test]
fn tokens_are_read_from_form_pairs() {
    let pairs = owned(&[("oauth_token", "a"), ("oauth_token_secret", "b"), ("oauth_token", "c")]);
    let token = request_token_from_pairs(&pairs).expect("both fields");
    assert_eq!(token.token, "c");
    assert_eq!(token.token_secret, "b");
    let pairs = owned(&[("oauth_token", "t"), ("oauth_token_secret", "s"), ("userID", "7")]);
    let access = access_token_from_pairs(&pairs).expect("both fields");
    assert_eq!(access.user_id.as_deref(), Some("7"));
    assert_eq!(access.username, None);
    let err = access_token_from_pairs(&owned(&[("oauth_token", "t")])).expect_err("no secret");
    assert_eq!(err.message(), "invalid oauth response: missing oauth_token_secret");
}

#[test]
fn authorize_url_keeps_form_safe_characters() {
    assert_eq!(
        oauth_authorize_url("a*b-c.d_e~f"),
        "https://www.zotero.org/oauth/authorize?oauth_token=a*b-c.d_e%7Ef"
    );
}
