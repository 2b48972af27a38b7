use zotero_rs::headers::{parse_link_header, parse_response_metadata, parse_u64_header};
use zotero_rs::responses::{PaginatedResponse, ResponseMetadata};

#[test]
fn parses_metadata_and_link_relations() {
    let link = "<https://api.zotero.org/users/1/items?start=0>; rel=\"first\", <https://api.zotero.org/users/1/items?start=25>; rel=\"next\"";
    let metadata = parse_response_metadata(Some("14"), Some("15"), Some("30"), Some("12"), Some(link));
    assert_eq!(metadata.last_modified_version, Some(14));
    assert_eq!(metadata.library_version, Some(15));
    assert_eq!(metadata.backoff_seconds, Some(30));
    assert_eq!(metadata.retry_after_seconds, Some(12));
    assert_eq!(
        metadata.links.first.as_deref(),
        Some("https://api.zotero.org/users/1/items?start=0")
    );
    assert_eq!(
        metadata.links.next.as_deref(),
        Some("https://api.zotero.org/users/1/items?start=25")
    );
}

#[test]
fn absent_headers_give_empty_metadata() {
    let metadata = parse_response_metadata(None, None, None, None, None);
    assert_eq!(metadata.last_modified_version, None);
    assert_eq!(metadata.library_version, None);
    assert_eq!(metadata.backoff_seconds, None);
    assert_eq!(metadata.retry_after_seconds, None);
    assert!(metadata.links.first.is_none());
    assert!(metadata.links.prev.is_none());
    assert!(metadata.links.next.is_none());
    assert!(metadata.links.last.is_none());
    assert!(metadata.links.alternate.is_none());
}

#[test]
fn integer_headers_follow_u64_parsing() {
    assert_eq!(parse_u64_header(Some("0")), Some(0));
    assert_eq!(parse_u64_header(Some("+5")), Some(5));
    assert_eq!(parse_u64_header(Some("007")), Some(7));
    assert_eq!(parse_u64_header(Some("18446744073709551615")), Some(u64::MAX));
    assert_eq!(parse_u64_header(Some("18446744073709551616")), None);
    assert_eq!(parse_u64_header(Some("")), None);
    assert_eq!(parse_u64_header(Some("+")), None);
    assert_eq!(parse_u64_header(Some("-1")), None);
    assert_eq!(parse_u64_header(Some(" 5")), None);
    assert_eq!(parse_u64_header(Some("5s")), None);
    assert_eq!(parse_u64_header(None), None);
}

#[test]
fn reads_every_known_relation() {
    let links = parse_link_header(Some(
        "<f>; rel=\"first\", <p>; rel=\"prev\", <n>; rel=\"next\", <l>; rel=\"last\", <a>; rel=\"alternate\", <x>; rel=\"other\"",
    ));
    assert_eq!(links.first.as_deref(), Some("f"));
    assert_eq!(links.prev.as_deref(), Some("p"));
    assert_eq!(links.next.as_deref(), Some("n"));
    assert_eq!(links.last.as_deref(), Some("l"));
    assert_eq!(links.alternate.as_deref(), Some("a"));
}

#[test]
fn skips_malformed_entries_and_later_entries_win() {
    let links = parse_link_header(Some(
        "no-brackets; rel=\"first\", <n1>; rel=\"next\", <n2>; title=x; rel=next, <n3>",
    ));
    assert_eq!(links.first, None);
    assert_eq!(links.next.as_deref(), Some("n2"));
}

#[test]
fn rel_prefix_and_quotes_are_trimmed() {
    let links = parse_link_header(Some("  <u>  ;  rel=rel=\"\"last\"\"  "));
    assert_eq!(links.last.as_deref(), Some("u"));
}

#[test]
fn detects_next_page_from_parsed_headers() {
    let metadata: ResponseMetadata = parse_response_metadata(
        None,
        None,
        None,
        None,
        Some("<https://api.zotero.org/users/1/items?start=25>; rel=\"next\""),
    );
    let page: PaginatedResponse<u8> = PaginatedResponse {
        data: vec![],
        metadata,
    };
    assert!(page.has_next_page());
    assert_eq!(
        page.next_page_url(),
        Some("https://api.zotero.org/users/1/items?start=25")
    );
}
