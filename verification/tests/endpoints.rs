use zotero_rs::encoding::encode_path_segment;
use zotero_rs::endpoints::{
    plan_create_collections, plan_create_items, plan_delete_item, plan_get_collection,
    plan_get_deleted, plan_get_item, plan_get_search, plan_item_file, plan_list_collection_items,
    plan_list_collection_top_items, plan_list_collections, plan_list_items, plan_list_searches,
    plan_list_tags, plan_update_collection, plan_update_item, HttpMethod,
};
use zotero_rs::requests::{
    read_headers, ListCollectionsRequest, ListItemsRequest, ListSearchesRequest, ListTagsRequest,
};
use zotero_rs::{LibraryScope, WriteOptions};

fn pairs(ps: &[(&str, &str)]) -> Vec<(String, String)> {
    ps.iter().map(|(k, v)| ((*k).to_owned(), (*v).to_owned())).collect()
}

#[test]
fn encodes_reserved_path_characters() {
    assert_eq!(encode_path_segment("A/B C"), "A%2FB%20C");
}

#[test]
fn path_encoding_keeps_only_letters_and_digits() {
    assert_eq!(encode_path_segment("ABCD1234"), "ABCD1234");
    assert_eq!(encode_path_segment("a-b.c_d~e"), "a%2Db%2Ec%5Fd%7Ee");
    assert_eq!(encode_path_segment("é"), "%C3%A9");
    assert_eq!(encode_path_segment("../x"), "%2E%2E%2Fx");
    assert_eq!(encode_path_segment(""), "");
}

#[test]
fn scope_prefixes() {
    assert_eq!(LibraryScope::User(1).path_prefix(), "users/1");
    assert_eq!(LibraryScope::Group(0).path_prefix(), "groups/0");
    assert_eq!(
        LibraryScope::User(u64::MAX).path_prefix(),
        "users/18446744073709551615"
    );
}

#[test]
fn list_items_query_follows_field_order() {
    let request = ListItemsRequest {
        since: Some(5),
        limit: Some(25),
        start: Some(50),
        include_trash: true,
        collection_key: Some("COLL".to_owned()),
        item_type: Some("book".to_owned()),
        q: Some("a b".to_owned()),
    };
    assert_eq!(
        request.to_query_pairs(),
        pairs(&[
            ("since", "5"),
            ("limit", "25"),
            ("start", "50"),
            ("includeTrashed", "1"),
            ("collection", "COLL"),
            ("itemType", "book"),
            ("q", "a b"),
        ])
    );
    assert!(ListItemsRequest::default().to_query_pairs().is_empty());
}

#[test]
fn paged_queries() {
    let tags = ListTagsRequest { since: None, limit: Some(10), start: Some(0) };
    assert_eq!(tags.to_query_pairs(), pairs(&[("limit", "10"), ("start", "0")]));
    let collections = ListCollectionsRequest { since: Some(3), limit: None, start: None };
    assert_eq!(collections.to_query_pairs(), pairs(&[("since", "3")]));
    assert!(ListSearchesRequest::default().to_query_pairs().is_empty());
}

#[test]
fn write_and_read_headers() {
    let w = WriteOptions {
        if_unmodified_since_version: Some(9),
        write_token: Some("tok".to_owned()),
    };
    assert_eq!(
        w.write_headers(),
        pairs(&[("If-Unmodified-Since-Version", "9"), ("Zotero-Write-Token", "tok")])
    );
    assert!(WriteOptions::default().write_headers().is_empty());
    assert_eq!(read_headers(Some(4)), pairs(&[("If-Modified-Since-Version", "4")]));
    assert!(read_headers(None).is_empty());
}

#[test]
fn lists_items_within_specific_collection_endpoint() {
    let request = ListItemsRequest { since: Some(2), ..ListItemsRequest::default() };
    let plan = plan_list_collection_items(LibraryScope::User(1), "ABCD1234", &request);
    assert_eq!(plan.method, HttpMethod::Get);
    assert_eq!(plan.path, "users/1/collections/ABCD1234/items");
    assert_eq!(plan.query, pairs(&[("since", "2")]));
    assert_eq!(plan.headers, pairs(&[("If-Modified-Since-Version", "2")]));
    assert!(plan.is_safe_retry);
}

#[test]
fn lists_top_level_items_within_specific_collection_endpoint() {
    let plan =
        plan_list_collection_top_items(LibraryScope::User(1), "ABCD1234", &ListItemsRequest::default());
    assert_eq!(plan.method, HttpMethod::Get);
    assert_eq!(plan.path, "users/1/collections/ABCD1234/items/top");
    assert!(plan.query.is_empty());
    assert!(plan.headers.is_empty());
}

#[test]
fn read_endpoints() {
    let scope = LibraryScope::Group(7);
    assert_eq!(plan_list_items(scope, &ListItemsRequest::default()).path, "groups/7/items");
    let get = plan_get_item(scope, "K/1", Some(3));
    assert_eq!(get.path, "groups/7/items/K%2F1");
    assert_eq!(get.headers, pairs(&[("If-Modified-Since-Version", "3")]));
    assert_eq!(
        plan_list_collections(scope, &ListCollectionsRequest::default()).path,
        "groups/7/collections"
    );
    assert_eq!(plan_get_collection(scope, "C", None).path, "groups/7/collections/C");
    assert_eq!(
        plan_list_searches(scope, &ListSearchesRequest::default()).path,
        "groups/7/searches"
    );
    assert_eq!(plan_get_search(scope, "S", None).path, "groups/7/searches/S");
    assert_eq!(plan_list_tags(scope, &ListTagsRequest::default()).path, "groups/7/tags");
    let deleted = plan_get_deleted(scope, 12);
    assert_eq!(deleted.path, "groups/7/deleted");
    assert_eq!(deleted.query, pairs(&[("since", "12")]));
    assert!(deleted.headers.is_empty());
    assert!(deleted.is_safe_retry);
}

#[test]
fn write_endpoints() {
    let scope = LibraryScope::User(1);
    let w = WriteOptions { if_unmodified_since_version: Some(8), write_token: None };
    let create = plan_create_items(scope, &w);
    assert_eq!(create.method, HttpMethod::Post);
    assert_eq!(create.path, "users/1/items");
    assert!(create.query.is_empty());
    assert_eq!(create.headers, pairs(&[("If-Unmodified-Since-Version", "8")]));
    assert!(!create.is_safe_retry);
    let update = plan_update_item(scope, "I", &w);
    assert_eq!(update.method, HttpMethod::Patch);
    assert_eq!(update.path, "users/1/items/I");
    let delete = plan_delete_item(scope, "I", &w);
    assert_eq!(delete.method, HttpMethod::Delete);
    assert_eq!(delete.path, "users/1/items/I");
    assert_eq!(plan_create_collections(scope, &w).path, "users/1/collections");
    let update_c = plan_update_collection(scope, "C", &w);
    assert_eq!(update_c.method, HttpMethod::Patch);
    assert_eq!(update_c.path, "users/1/collections/C");
    let file = plan_item_file(scope, "ITEM", &WriteOptions::default());
    assert_eq!(file.method, HttpMethod::Post);
    assert_eq!(file.path, "users/1/items/ITEM/file");
    assert!(file.headers.is_empty());
    assert!(!file.is_safe_retry);
}
