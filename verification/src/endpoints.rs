//! What each API operation sends: its method, path under the base URL,
//! query, conditional headers, and whether it may be retried. The path
//! segments that callers supply (item, collection and search keys) are
//! percent-encoded, so a key can never reach another endpoint.

use vstd::prelude::*;
use vstd::string::*;
use vstd::utf8::encode_utf8;

use crate::encoding::{
    EncodeSet, encode_path_segment, encoded_char, kept, lemma_encoded_chars,
    lemma_percent_encoding_injective, percent_encoded,
};
use crate::requests::{
    ListCollectionsRequest, ListItemsRequest, ListSearchesRequest, ListTagsRequest, WriteOptions,
    list_items_query, paged_query, read_headers, read_headers_of, write_headers_of,
};
use crate::scope::{LibraryScope, scope_prefix};
use crate::sort::{PairView, pair_view, pairs_view};
use crate::text::{decimal, u64_to_string};

verus! {

/// HTTP methods used by the API.
#[derive(Clone, Copy, Debug, PartialEq, Eq, Structural)]
pub enum HttpMethod {
    Get,
    Post,
    Patch,
    Delete,
}

/// One API request, before the base URL, authentication and body are added.
pub struct RequestPlan {
    /// The method.
    pub method: HttpMethod,
    /// The path, relative to the base URL.
    pub path: String,
    /// The query pairs.
    pub query: Vec<(String, String)>,
    /// Extra headers (conditional reads and writes).
    pub headers: Vec<(String, String)>,
    /// Whether the request is safe to retry (reads are; writes are not).
    pub is_safe_retry: bool,
}

/// A key as it appears in a path: percent-encoded, letters and digits kept.
pub open spec fn path_key(key: Seq<char>) -> Seq<char> {
    percent_encoded(encode_utf8(key), EncodeSet::Alphanumeric)
}

/// Whether `p` is a read (`GET`) of `path` with this query and condition.
pub open spec fn is_read(p: RequestPlan, path: Seq<char>, query: Seq<PairView>, if_modified_since_version: Option<u64>) -> bool {
    &&& p.method == HttpMethod::Get
    &&& p.path@ == path
    &&& pairs_view(p.query@) == query
    &&& pairs_view(p.headers@) == read_headers_of(if_modified_since_version)
    &&& p.is_safe_retry
}

/// Whether `p` is a write with `method` to `path`, with no query and the
/// write options' headers.
pub open spec fn is_write(p: RequestPlan, method: HttpMethod, path: Seq<char>, write_options: WriteOptions) -> bool {
    &&& p.method == method
    &&& p.path@ == path
    &&& p.query@.len() == 0
    &&& pairs_view(p.headers@) == write_headers_of(write_options)
    &&& !p.is_safe_retry
}

/// A key placed in a path stays one path segment: its encoding holds no
/// `/`, `?`, `#` or `.`, whatever text the caller passed.
pub proof fn lemma_path_key_one_segment(key: Seq<char>)
    ensures
        forall|i: int| 0 <= i < path_key(key).len() ==> {
            let c = #[trigger] path_key(key)[i];
            c != '/' && c != '?' && c != '#' && c != '.'
        },
{
    lemma_encoded_chars(encode_utf8(key), EncodeSet::Alphanumeric);
    assert forall|i: int| 0 <= i < path_key(key).len() implies {
        let c = #[trigger] path_key(key)[i];
        c != '/' && c != '?' && c != '#' && c != '.'
    } by {
        let c = path_key(key)[i];
        assert(encoded_char(c, EncodeSet::Alphanumeric));
        if (c as u32) < 128 && kept((c as u32) as u8, EncodeSet::Alphanumeric) {
            let u = c as u32;
            assert((u as u8) as u32 == u) by (bit_vector)
                requires u < 128;
        }
    }
}

/// Different keys give different paths: no two keys reach the same
/// resource.
pub proof fn lemma_path_key_injective(a: Seq<char>, b: Seq<char>)
    requires
        path_key(a) == path_key(b),
    ensures
        a == b,
{
    lemma_percent_encoding_injective(a, b, EncodeSet::Alphanumeric);
}

fn scoped_path(scope: LibraryScope, rest: &str) -> (r: String)
    ensures
        r@ == scope_prefix(scope) + rest@,
{
    let mut r = scope.path_prefix();
    r.append(rest);
    r
}

fn scoped_key_path(scope: LibraryScope, middle: &str, key: &str, tail: &str) -> (r: String)
    ensures
        r@ == scope_prefix(scope) + middle@ + path_key(key@) + tail@,
{
    let mut r = scope.path_prefix();
    r.append(middle);
    let k = encode_path_segment(key);
    r.append(k.as_str());
    r.append(tail);
    r
}

fn scoped_key(scope: LibraryScope, middle: &str, key: &str) -> (r: String)
    ensures
        r@ == scope_prefix(scope) + middle@ + path_key(key@),
{
    let mut r = scope.path_prefix();
    r.append(middle);
    let k = encode_path_segment(key);
    r.append(k.as_str());
    r
}

fn no_query() -> (q: Vec<(String, String)>)
    ensures
        pairs_view(q@) == Seq::<PairView>::empty(),
{
    let q: Vec<(String, String)> = Vec::new();
    assert(pairs_view(q@) =~= Seq::<PairView>::empty());
    q
}

fn read_plan(path: String, query: Vec<(String, String)>, if_modified_since_version: Option<u64>) -> (p: RequestPlan)
    ensures
        is_read(p, path@, pairs_view(query@), if_modified_since_version),
{
    RequestPlan { method: HttpMethod::Get, path, query, headers: read_headers(if_modified_since_version), is_safe_retry: true }
}

fn write_plan(method: HttpMethod, path: String, write_options: &WriteOptions) -> (p: RequestPlan)
    ensures
        is_write(p, method, path@, *write_options),
{
    let query: Vec<(String, String)> = Vec::new();
    RequestPlan { method, path, query, headers: write_options.write_headers(), is_safe_retry: false }
}

/// `GET /{scope}/items`.
pub fn plan_list_items(scope: LibraryScope, request: &ListItemsRequest) -> (p: RequestPlan)
    ensures
        is_read(p, scope_prefix(scope) + "/items"@, list_items_query(*request), request.since),
{
    read_plan(scoped_path(scope, "/items"), request.to_query_pairs(), request.since)
}

/// `GET /{scope}/collections/{collectionKey}/items`.
pub fn plan_list_collection_items(scope: LibraryScope, collection_key: &str, request: &ListItemsRequest) -> (p: RequestPlan)
    ensures
        is_read(p, scope_prefix(scope) + "/collections/"@ + path_key(collection_key@) + "/items"@,
            list_items_query(*request), request.since),
{
    read_plan(scoped_key_path(scope, "/collections/", collection_key, "/items"), request.to_query_pairs(), request.since)
}

/// `GET /{scope}/collections/{collectionKey}/items/top`.
pub fn plan_list_collection_top_items(scope: LibraryScope, collection_key: &str, request: &ListItemsRequest) -> (p: RequestPlan)
    ensures
        is_read(p, scope_prefix(scope) + "/collections/"@ + path_key(collection_key@) + "/items/top"@,
            list_items_query(*request), request.since),
{
    read_plan(scoped_key_path(scope, "/collections/", collection_key, "/items/top"), request.to_query_pairs(), request.since)
}

/// `GET /{scope}/items/{itemKey}`.
pub fn plan_get_item(scope: LibraryScope, item_key: &str, if_modified_since_version: Option<u64>) -> (p: RequestPlan)
    ensures
        is_read(p, scope_prefix(scope) + "/items/"@ + path_key(item_key@), Seq::empty(), if_modified_since_version),
{
    read_plan(scoped_key(scope, "/items/", item_key), no_query(), if_modified_since_version)
}

/// `POST /{scope}/items`.
pub fn plan_create_items(scope: LibraryScope, write_options: &WriteOptions) -> (p: RequestPlan)
    ensures
        is_write(p, HttpMethod::Post, scope_prefix(scope) + "/items"@, *write_options),
{
    write_plan(HttpMethod::Post, scoped_path(scope, "/items"), write_options)
}

/// `PATCH /{scope}/items/{itemKey}`.
pub fn plan_update_item(scope: LibraryScope, item_key: &str, write_options: &WriteOptions) -> (p: RequestPlan)
    ensures
        is_write(p, HttpMethod::Patch, scope_prefix(scope) + "/items/"@ + path_key(item_key@), *write_options),
{
    write_plan(HttpMethod::Patch, scoped_key(scope, "/items/", item_key), write_options)
}

/// `DELETE /{scope}/items/{itemKey}`.
pub fn plan_delete_item(scope: LibraryScope, item_key: &str, write_options: &WriteOptions) -> (p: RequestPlan)
    ensures
        is_write(p, HttpMethod::Delete, scope_prefix(scope) + "/items/"@ + path_key(item_key@), *write_options),
{
    write_plan(HttpMethod::Delete, scoped_key(scope, "/items/", item_key), write_options)
}

/// `GET /{scope}/collections`.
pub fn plan_list_collections(scope: LibraryScope, request: &ListCollectionsRequest) -> (p: RequestPlan)
    ensures
        is_read(p, scope_prefix(scope) + "/collections"@, paged_query(request.since, request.limit, request.start), request.since),
{
    read_plan(scoped_path(scope, "/collections"), request.to_query_pairs(), request.since)
}

/// `GET /{scope}/collections/{collectionKey}`.
pub fn plan_get_collection(scope: LibraryScope, collection_key: &str, if_modified_since_version: Option<u64>) -> (p: RequestPlan)
    ensures
        is_read(p, scope_prefix(scope) + "/collections/"@ + path_key(collection_key@), Seq::empty(), if_modified_since_version),
{
    read_plan(scoped_key(scope, "/collections/", collection_key), no_query(), if_modified_since_version)
}

/// `POST /{scope}/collections`.
pub fn plan_create_collections(scope: LibraryScope, write_options: &WriteOptions) -> (p: RequestPlan)
    ensures
        is_write(p, HttpMethod::Post, scope_prefix(scope) + "/collections"@, *write_options),
{
    write_plan(HttpMethod::Post, scoped_path(scope, "/collections"), write_options)
}

/// `PATCH /{scope}/collections/{collectionKey}`.
pub fn plan_update_collection(scope: LibraryScope, collection_key: &str, write_options: &WriteOptions) -> (p: RequestPlan)
    ensures
        is_write(p, HttpMethod::Patch, scope_prefix(scope) + "/collections/"@ + path_key(collection_key@), *write_options),
{
    write_plan(HttpMethod::Patch, scoped_key(scope, "/collections/", collection_key), write_options)
}

/// `GET /{scope}/searches`.
pub fn plan_list_searches(scope: LibraryScope, request: &ListSearchesRequest) -> (p: RequestPlan)
    ensures
        is_read(p, scope_prefix(scope) + "/searches"@, paged_query(request.since, request.limit, request.start), request.since),
{
    read_plan(scoped_path(scope, "/searches"), request.to_query_pairs(), request.since)
}

/// `GET /{scope}/searches/{searchKey}`.
pub fn plan_get_search(scope: LibraryScope, search_key: &str, if_modified_since_version: Option<u64>) -> (p: RequestPlan)
    ensures
        is_read(p, scope_prefix(scope) + "/searches/"@ + path_key(search_key@), Seq::empty(), if_modified_since_version),
{
    read_plan(scoped_key(scope, "/searches/", search_key), no_query(), if_modified_since_version)
}

/// `GET /{scope}/tags`.
pub fn plan_list_tags(scope: LibraryScope, request: &ListTagsRequest) -> (p: RequestPlan)
    ensures
        is_read(p, scope_prefix(scope) + "/tags"@, paged_query(request.since, request.limit, request.start), request.since),
{
    read_plan(scoped_path(scope, "/tags"), request.to_query_pairs(), request.since)
}

/// `GET /{scope}/deleted?since=<since>`.
pub fn plan_get_deleted(scope: LibraryScope, since: u64) -> (p: RequestPlan)
    ensures
        is_read(p, scope_prefix(scope) + "/deleted"@, seq![("since"@, decimal(since as nat))], None),
{
    let mut query: Vec<(String, String)> = Vec::new();
    let q = ("since".to_owned(), u64_to_string(since));
    query.push(q);
    assert(pairs_view(query@) =~= seq![pair_view(q)]);
    read_plan(scoped_path(scope, "/deleted"), query, None)
}

/// `POST /{scope}/items/{itemKey}/file`: both the authorization and the
/// registration step of a file upload.
pub fn plan_item_file(scope: LibraryScope, item_key: &str, write_options: &WriteOptions) -> (p: RequestPlan)
    ensures
        is_write(p, HttpMethod::Post, scope_prefix(scope) + "/items/"@ + path_key(item_key@) + "/file"@, *write_options),
{
    write_plan(HttpMethod::Post, scoped_key_path(scope, "/items/", item_key, "/file"), write_options)
}

} // verus!
