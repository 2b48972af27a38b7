//! Query options for listings and the precondition headers of writes.

use vstd::prelude::*;
use vstd::string::*;

use crate::sort::{PairView, pair_view, pairs_view};
use crate::text::{decimal, u64_to_string};

verus! {

/// `(name, value)` when `v` is present, else nothing.
pub open spec fn optional_number_pair(name: Seq<char>, v: Option<u64>) -> Seq<PairView> {
    match v {
        Some(n) => seq![(name, decimal(n as nat))],
        None => Seq::empty(),
    }
}

/// `(name, value)` when `v` is present, else nothing.
pub open spec fn optional_small_number_pair(name: Seq<char>, v: Option<u32>) -> Seq<PairView> {
    match v {
        Some(n) => seq![(name, decimal(n as nat))],
        None => Seq::empty(),
    }
}

/// `(name, value)` when `v` is present, else nothing.
pub open spec fn optional_text_pair(name: Seq<char>, v: Option<String>) -> Seq<PairView> {
    match v {
        Some(t) => seq![(name, t@)],
        None => Seq::empty(),
    }
}

fn push_number(pairs: &mut Vec<(String, String)>, name: &str, v: Option<u64>)
    ensures
        pairs_view(final(pairs)@) == pairs_view(old(pairs)@) + optional_number_pair(name@, v),
{
    let ghost before = pairs_view(pairs@);
    match v {
        Some(n) => {
            let p = (name.to_owned(), u64_to_string(n));
            pairs.push(p);
            assert(pairs_view(pairs@) =~= before + seq![pair_view(p)]);
        },
        None => {
            assert(pairs_view(pairs@) =~= before + Seq::<PairView>::empty());
        },
    }
}

fn push_small_number(pairs: &mut Vec<(String, String)>, name: &str, v: Option<u32>)
    ensures
        pairs_view(final(pairs)@) == pairs_view(old(pairs)@) + optional_small_number_pair(name@, v),
{
    let ghost before = pairs_view(pairs@);
    match v {
        Some(n) => {
            let p = (name.to_owned(), u64_to_string(n as u64));
            pairs.push(p);
            assert(pairs_view(pairs@) =~= before + seq![pair_view(p)]);
        },
        None => {
            assert(pairs_view(pairs@) =~= before + Seq::<PairView>::empty());
        },
    }
}

fn push_text(pairs: &mut Vec<(String, String)>, name: &str, v: &Option<String>)
    ensures
        pairs_view(final(pairs)@) == pairs_view(old(pairs)@) + optional_text_pair(name@, *v),
{
    let ghost before = pairs_view(pairs@);
    match v {
        Some(t) => {
            let p = (name.to_owned(), t.clone());
            pairs.push(p);
            assert(pairs_view(pairs@) =~= before + seq![pair_view(p)]);
        },
        None => {
            assert(pairs_view(pairs@) =~= before + Seq::<PairView>::empty());
        },
    }
}

/// Query options for `list_items`.
#[derive(Clone, Debug)]
pub struct ListItemsRequest {
    /// Return only changes since this version.
    pub since: Option<u64>,
    /// Maximum items per page.
    pub limit: Option<u32>,
    /// Pagination offset.
    pub start: Option<u32>,
    /// Include trash items.
    pub include_trash: bool,
    /// Collection key filter.
    pub collection_key: Option<String>,
    /// Item type filter.
    pub item_type: Option<String>,
    /// Search query.
    pub q: Option<String>,
}

impl Default for ListItemsRequest {
    fn default() -> (r: Self)
        ensures
            r.since is None && r.limit is None && r.start is None && !r.include_trash
                && r.collection_key is None && r.item_type is None && r.q is None,
    {
        ListItemsRequest {
            since: None,
            limit: None,
            start: None,
            include_trash: false,
            collection_key: None,
            item_type: None,
            q: None,
        }
    }
}

/// The query pairs of an item listing, in this order: `since`, `limit`,
/// `start`, `includeTrashed=1`, `collection`, `itemType`, `q`, each only
/// when set.
pub open spec fn list_items_query(r: ListItemsRequest) -> Seq<PairView> {
    optional_number_pair("since"@, r.since)
        + optional_small_number_pair("limit"@, r.limit)
        + optional_small_number_pair("start"@, r.start)
        + (if r.include_trash { seq![("includeTrashed"@, "1"@)] } else { Seq::empty() })
        + optional_text_pair("collection"@, r.collection_key)
        + optional_text_pair("itemType"@, r.item_type)
        + optional_text_pair("q"@, r.q)
}

impl ListItemsRequest {
    /// Returns URL query pairs.
    pub fn to_query_pairs(&self) -> (pairs: Vec<(String, String)>)
        ensures
            pairs_view(pairs@) == list_items_query(*self),
    {
        let mut pairs: Vec<(String, String)> = Vec::new();
        assert(pairs_view(pairs@) =~= Seq::<PairView>::empty());
        push_number(&mut pairs, "since", self.since);
        push_small_number(&mut pairs, "limit", self.limit);
        push_small_number(&mut pairs, "start", self.start);
        let ghost before = pairs_view(pairs@);
        if self.include_trash {
            let p = ("includeTrashed".to_owned(), "1".to_owned());
            pairs.push(p);
            assert(pairs_view(pairs@) =~= before + seq![pair_view(p)]);
        } else {
            assert(pairs_view(pairs@) =~= before + Seq::<PairView>::empty());
        }
        push_text(&mut pairs, "collection", &self.collection_key);
        push_text(&mut pairs, "itemType", &self.item_type);
        push_text(&mut pairs, "q", &self.q);
        pairs
    }
}

/// The query pairs of a paged listing: `since`, `limit`, `start`, each only
/// when set.
pub open spec fn paged_query(since: Option<u64>, limit: Option<u32>, start: Option<u32>) -> Seq<PairView> {
    optional_number_pair("since"@, since)
        + optional_small_number_pair("limit"@, limit)
        + optional_small_number_pair("start"@, start)
}

fn paged_query_pairs(since: Option<u64>, limit: Option<u32>, start: Option<u32>) -> (pairs: Vec<(String, String)>)
    ensures
        pairs_view(pairs@) == paged_query(since, limit, start),
{
    let mut pairs: Vec<(String, String)> = Vec::new();
    assert(pairs_view(pairs@) =~= Seq::<PairView>::empty());
    push_number(&mut pairs, "since", since);
    push_small_number(&mut pairs, "limit", limit);
    push_small_number(&mut pairs, "start", start);
    pairs
}

/// Query options for `list_tags`.
#[derive(Clone, Debug)]
pub struct ListTagsRequest {
    /// Return only changes since this version.
    pub since: Option<u64>,
    /// Maximum tags per page.
    pub limit: Option<u32>,
    /// Pagination offset.
    pub start: Option<u32>,
}

impl Default for ListTagsRequest {
    fn default() -> (r: Self)
        ensures
            r.since is None && r.limit is None && r.start is None,
    {
        ListTagsRequest { since: None, limit: None, start: None }
    }
}

impl ListTagsRequest {
    /// Returns URL query pairs.
    pub fn to_query_pairs(&self) -> (pairs: Vec<(String, String)>)
        ensures
            pairs_view(pairs@) == paged_query(self.since, self.limit, self.start),
    {
        paged_query_pairs(self.since, self.limit, self.start)
    }
}

/// Query options for `list_collections`.
#[derive(Clone, Debug)]
pub struct ListCollectionsRequest {
    /// Return only changes since this version.
    pub since: Option<u64>,
    /// Maximum collections per page.
    pub limit: Option<u32>,
    /// Pagination offset.
    pub start: Option<u32>,
}

impl Default for ListCollectionsRequest {
    fn default() -> (r: Self)
        ensures
            r.since is None && r.limit is None && r.start is None,
    {
        ListCollectionsRequest { since: None, limit: None, start: None }
    }
}

impl ListCollectionsRequest {
    /// Returns URL query pairs.
    pub fn to_query_pairs(&self) -> (pairs: Vec<(String, String)>)
        ensures
            pairs_view(pairs@) == paged_query(self.since, self.limit, self.start),
    {
        paged_query_pairs(self.since, self.limit, self.start)
    }
}

/// Query options for `list_searches`.
#[derive(Clone, Debug)]
pub struct ListSearchesRequest {
    /// Return only changes since this version.
    pub since: Option<u64>,
    /// Maximum searches per page.
    pub limit: Option<u32>,
    /// Pagination offset.
    pub start: Option<u32>,
}

impl Default for ListSearchesRequest {
    fn default() -> (r: Self)
        ensures
            r.since is None && r.limit is None && r.start is None,
    {
        ListSearchesRequest { since: None, limit: None, start: None }
    }
}

impl ListSearchesRequest {
    /// Returns URL query pairs.
    pub fn to_query_pairs(&self) -> (pairs: Vec<(String, String)>)
        ensures
            pairs_view(pairs@) == paged_query(self.since, self.limit, self.start),
    {
        paged_query_pairs(self.since, self.limit, self.start)
    }
}

/// Precondition and idempotency headers for writes.
#[derive(Clone, Debug)]
pub struct WriteOptions {
    /// Sends `If-Unmodified-Since-Version` when set.
    pub if_unmodified_since_version: Option<u64>,
    /// Sends `Zotero-Write-Token` when set.
    pub write_token: Option<String>,
}

impl Default for WriteOptions {
    fn default() -> (r: Self)
        ensures
            r.if_unmodified_since_version is None && r.write_token is None,
    {
        WriteOptions { if_unmodified_since_version: None, write_token: None }
    }
}

/// The headers that a write sends: `If-Unmodified-Since-Version`, then
/// `Zotero-Write-Token`, each only when set.
pub open spec fn write_headers_of(w: WriteOptions) -> Seq<PairView> {
    optional_number_pair("If-Unmodified-Since-Version"@, w.if_unmodified_since_version)
        + optional_text_pair("Zotero-Write-Token"@, w.write_token)
}

impl WriteOptions {
    /// The headers that a write with these options sends.
    pub fn write_headers(&self) -> (headers: Vec<(String, String)>)
        ensures
            pairs_view(headers@) == write_headers_of(*self),
    {
        let mut headers: Vec<(String, String)> = Vec::new();
        assert(pairs_view(headers@) =~= Seq::<PairView>::empty());
        push_number(&mut headers, "If-Unmodified-Since-Version", self.if_unmodified_since_version);
        push_text(&mut headers, "Zotero-Write-Token", &self.write_token);
        headers
    }
}

/// The header that a conditional read sends: `If-Modified-Since-Version`
/// when a version is given.
pub open spec fn read_headers_of(if_modified_since_version: Option<u64>) -> Seq<PairView> {
    optional_number_pair("If-Modified-Since-Version"@, if_modified_since_version)
}

/// The headers that a read with this condition sends.
pub fn read_headers(if_modified_since_version: Option<u64>) -> (headers: Vec<(String, String)>)
    ensures
        pairs_view(headers@) == read_headers_of(if_modified_since_version),
{
    let mut headers: Vec<(String, String)> = Vec::new();
    assert(pairs_view(headers@) =~= Seq::<PairView>::empty());
    push_number(&mut headers, "If-Modified-Since-Version", if_modified_since_version);
    headers
}


// ---------------------------------------------------------------------------
// Laws: every option set on a request reaches the query or the headers
// ---------------------------------------------------------------------------

/// No pair of `s` is named `name`.
pub open spec fn lacks_name(s: Seq<PairView>, name: Seq<char>) -> bool {
    forall|i: int| 0 <= i < s.len() ==> (#[trigger] s[i]).0 != name
}

proof fn lemma_concat_keeps(a: Seq<PairView>, b: Seq<PairView>)
    ensures
        forall|x: PairView| a.contains(x) ==> #[trigger] (a + b).contains(x),
        forall|x: PairView| b.contains(x) ==> #[trigger] (a + b).contains(x),
        forall|n: Seq<char>| lacks_name(a, n) && lacks_name(b, n) ==> #[trigger] lacks_name(a + b, n),
{
    assert forall|x: PairView| a.contains(x) implies #[trigger] (a + b).contains(x) by {
        let i = choose|i: int| 0 <= i < a.len() && a[i] == x;
        assert((a + b)[i] == x);
    }
    assert forall|x: PairView| b.contains(x) implies #[trigger] (a + b).contains(x) by {
        let i = choose|i: int| 0 <= i < b.len() && b[i] == x;
        assert((a + b)[a.len() + i] == x);
    }
    assert forall|n: Seq<char>| lacks_name(a, n) && lacks_name(b, n) implies #[trigger] lacks_name(a + b, n) by {
        assert forall|i: int| 0 <= i < (a + b).len() implies (#[trigger] (a + b)[i]).0 != n by {
            if i < a.len() {
                assert((a + b)[i] == a[i]);
            } else {
                assert((a + b)[i] == b[i - a.len()]);
            }
        }
    }
}

proof fn lemma_number_piece(name: Seq<char>, v: Option<u64>)
    ensures
        v matches Some(n) ==> optional_number_pair(name, v).contains((name, decimal(n as nat))),
        v is None ==> lacks_name(optional_number_pair(name, v), name),
        forall|m: Seq<char>| m != name ==> #[trigger] lacks_name(optional_number_pair(name, v), m),
{
    if let Some(n) = v {
        assert(optional_number_pair(name, v)[0] == (name, decimal(n as nat)));
    }
}

proof fn lemma_small_number_piece(name: Seq<char>, v: Option<u32>)
    ensures
        v matches Some(n) ==> optional_small_number_pair(name, v).contains((name, decimal(n as nat))),
        v is None ==> lacks_name(optional_small_number_pair(name, v), name),
        forall|m: Seq<char>| m != name ==> #[trigger] lacks_name(optional_small_number_pair(name, v), m),
{
    if let Some(n) = v {
        assert(optional_small_number_pair(name, v)[0] == (name, decimal(n as nat)));
    }
}

proof fn lemma_text_piece(name: Seq<char>, v: Option<String>)
    ensures
        v matches Some(t) ==> optional_text_pair(name, v).contains((name, t@)),
        v is None ==> lacks_name(optional_text_pair(name, v), name),
        forall|m: Seq<char>| m != name ==> #[trigger] lacks_name(optional_text_pair(name, v), m),
{
    if let Some(t) = v {
        assert(optional_text_pair(name, v)[0] == (name, t@));
    }
}

/// Every option set on an item listing reaches its query, whatever the
/// other options are, and an option left unset sends no pair of its name:
/// `since`, `limit` and `start` as decimal numbers, `includeTrashed=1`
/// when trash is included, and `collection`, `itemType` and `q` as given.
pub proof fn lemma_list_items_query_reflects_request(r: ListItemsRequest)
    ensures
        r.since matches Some(n) ==> list_items_query(r).contains(("since"@, decimal(n as nat))),
        r.since is None ==> lacks_name(list_items_query(r), "since"@),
        r.limit matches Some(n) ==> list_items_query(r).contains(("limit"@, decimal(n as nat))),
        r.limit is None ==> lacks_name(list_items_query(r), "limit"@),
        r.start matches Some(n) ==> list_items_query(r).contains(("start"@, decimal(n as nat))),
        r.start is None ==> lacks_name(list_items_query(r), "start"@),
        r.include_trash ==> list_items_query(r).contains(("includeTrashed"@, "1"@)),
        !r.include_trash ==> lacks_name(list_items_query(r), "includeTrashed"@),
        r.collection_key matches Some(k) ==> list_items_query(r).contains(("collection"@, k@)),
        r.collection_key is None ==> lacks_name(list_items_query(r), "collection"@),
        r.item_type matches Some(t) ==> list_items_query(r).contains(("itemType"@, t@)),
        r.item_type is None ==> lacks_name(list_items_query(r), "itemType"@),
        r.q matches Some(q) ==> list_items_query(r).contains(("q"@, q@)),
        r.q is None ==> lacks_name(list_items_query(r), "q"@),
{
    reveal_strlit("since");
    reveal_strlit("limit");
    reveal_strlit("start");
    reveal_strlit("includeTrashed");
    reveal_strlit("collection");
    reveal_strlit("itemType");
    reveal_strlit("q");
    reveal_strlit("1");
    let p1 = optional_number_pair("since"@, r.since);
    let p2 = optional_small_number_pair("limit"@, r.limit);
    let p3 = optional_small_number_pair("start"@, r.start);
    let p4: Seq<PairView> = if r.include_trash { seq![("includeTrashed"@, "1"@)] } else { Seq::empty() };
    let p5 = optional_text_pair("collection"@, r.collection_key);
    let p6 = optional_text_pair("itemType"@, r.item_type);
    let p7 = optional_text_pair("q"@, r.q);
    lemma_number_piece("since"@, r.since);
    lemma_small_number_piece("limit"@, r.limit);
    lemma_small_number_piece("start"@, r.start);
    lemma_text_piece("collection"@, r.collection_key);
    lemma_text_piece("itemType"@, r.item_type);
    lemma_text_piece("q"@, r.q);
    if r.include_trash {
        assert(p4[0] == ("includeTrashed"@, "1"@));
    }
    assert forall|m: Seq<char>| m != "includeTrashed"@ implies #[trigger] lacks_name(p4, m) by {}
    lemma_concat_keeps(p1, p2);
    lemma_concat_keeps(p1 + p2, p3);
    lemma_concat_keeps(p1 + p2 + p3, p4);
    lemma_concat_keeps(p1 + p2 + p3 + p4, p5);
    lemma_concat_keeps(p1 + p2 + p3 + p4 + p5, p6);
    lemma_concat_keeps(p1 + p2 + p3 + p4 + p5 + p6, p7);
    assert(list_items_query(r) == p1 + p2 + p3 + p4 + p5 + p6 + p7);
    assert("since"@ != "limit"@) by { assert("since"@[0] != "limit"@[0]); }
    assert("since"@ != "start"@) by { assert("since"@[1] != "start"@[1]); }
    assert("since"@ != "includeTrashed"@) by { assert("since"@.len() != "includeTrashed"@.len()); }
    assert("since"@ != "collection"@) by { assert("since"@.len() != "collection"@.len()); }
    assert("since"@ != "itemType"@) by { assert("since"@.len() != "itemType"@.len()); }
    assert("since"@ != "q"@) by { assert("since"@.len() != "q"@.len()); }
    assert("limit"@ != "start"@) by { assert("limit"@[0] != "start"@[0]); }
    assert("limit"@ != "includeTrashed"@) by { assert("limit"@.len() != "includeTrashed"@.len()); }
    assert("limit"@ != "collection"@) by { assert("limit"@.len() != "collection"@.len()); }
    assert("limit"@ != "itemType"@) by { assert("limit"@.len() != "itemType"@.len()); }
    assert("limit"@ != "q"@) by { assert("limit"@.len() != "q"@.len()); }
    assert("start"@ != "includeTrashed"@) by { assert("start"@.len() != "includeTrashed"@.len()); }
    assert("start"@ != "collection"@) by { assert("start"@.len() != "collection"@.len()); }
    assert("start"@ != "itemType"@) by { assert("start"@.len() != "itemType"@.len()); }
    assert("start"@ != "q"@) by { assert("start"@.len() != "q"@.len()); }
    assert("includeTrashed"@ != "collection"@) by { assert("includeTrashed"@.len() != "collection"@.len()); }
    assert("includeTrashed"@ != "itemType"@) by { assert("includeTrashed"@.len() != "itemType"@.len()); }
    assert("includeTrashed"@ != "q"@) by { assert("includeTrashed"@.len() != "q"@.len()); }
    assert("collection"@ != "itemType"@) by { assert("collection"@.len() != "itemType"@.len()); }
    assert("collection"@ != "q"@) by { assert("collection"@.len() != "q"@.len()); }
    assert("itemType"@ != "q"@) by { assert("itemType"@.len() != "q"@.len()); }

}

/// Every option set on a paged listing (tags, collections, searches)
/// reaches its query as a decimal number, whatever the other options are,
/// and an option left unset sends no pair of its name.
pub proof fn lemma_paged_query_reflects_request(since: Option<u64>, limit: Option<u32>, start: Option<u32>)
    ensures
        since matches Some(n) ==> paged_query(since, limit, start).contains(("since"@, decimal(n as nat))),
        since is None ==> lacks_name(paged_query(since, limit, start), "since"@),
        limit matches Some(n) ==> paged_query(since, limit, start).contains(("limit"@, decimal(n as nat))),
        limit is None ==> lacks_name(paged_query(since, limit, start), "limit"@),
        start matches Some(n) ==> paged_query(since, limit, start).contains(("start"@, decimal(n as nat))),
        start is None ==> lacks_name(paged_query(since, limit, start), "start"@),
{
    reveal_strlit("since");
    reveal_strlit("limit");
    reveal_strlit("start");
    let p1 = optional_number_pair("since"@, since);
    let p2 = optional_small_number_pair("limit"@, limit);
    let p3 = optional_small_number_pair("start"@, start);
    lemma_number_piece("since"@, since);
    lemma_small_number_piece("limit"@, limit);
    lemma_small_number_piece("start"@, start);
    lemma_concat_keeps(p1, p2);
    lemma_concat_keeps(p1 + p2, p3);
    assert(paged_query(since, limit, start) == p1 + p2 + p3);
    assert("since"@ != "limit"@) by { assert("since"@[0] != "limit"@[0]); }
    assert("since"@ != "start"@) by { assert("since"@[1] != "start"@[1]); }
    assert("limit"@ != "start"@) by { assert("limit"@[0] != "start"@[0]); }

}

/// A write sends each precondition it was given, whatever the other is:
/// `If-Unmodified-Since-Version` as a decimal number and
/// `Zotero-Write-Token` as given; one left unset sends no header of its
/// name. A conditional read sends `If-Modified-Since-Version` exactly when
/// it has a version.
pub proof fn lemma_write_headers_reflect_options(w: WriteOptions, read_version: Option<u64>)
    ensures
        w.if_unmodified_since_version matches Some(v)
            ==> write_headers_of(w).contains(("If-Unmodified-Since-Version"@, decimal(v as nat))),
        w.if_unmodified_since_version is None ==> lacks_name(write_headers_of(w), "If-Unmodified-Since-Version"@),
        w.write_token matches Some(t) ==> write_headers_of(w).contains(("Zotero-Write-Token"@, t@)),
        w.write_token is None ==> lacks_name(write_headers_of(w), "Zotero-Write-Token"@),
        read_version matches Some(v) ==> read_headers_of(read_version) == seq![("If-Modified-Since-Version"@, decimal(v as nat))],
        read_version is None ==> read_headers_of(read_version).len() == 0,
{
    reveal_strlit("If-Unmodified-Since-Version");
    reveal_strlit("Zotero-Write-Token");
    let p1 = optional_number_pair("If-Unmodified-Since-Version"@, w.if_unmodified_since_version);
    let p2 = optional_text_pair("Zotero-Write-Token"@, w.write_token);
    lemma_number_piece("If-Unmodified-Since-Version"@, w.if_unmodified_since_version);
    lemma_text_piece("Zotero-Write-Token"@, w.write_token);
    lemma_concat_keeps(p1, p2);
    assert(write_headers_of(w) == p1 + p2);
    assert("If-Unmodified-Since-Version"@ != "Zotero-Write-Token"@) by {
        assert("If-Unmodified-Since-Version"@[0] != "Zotero-Write-Token"@[0]);
    }
}

} // verus!
