//! Response metadata read from Zotero's HTTP headers, and paginated pages.

use vstd::prelude::*;

verus! {

/// The `Option<String>` of an optional text, as an optional character sequence.
pub open spec fn opt_chars(o: Option<String>) -> Option<Seq<char>> {
    match o {
        Some(s) => Some(s@),
        None => None,
    }
}

/// The relations of a `Link` header, as character sequences.
pub struct LinksModel {
    pub first: Option<Seq<char>>,
    pub prev: Option<Seq<char>>,
    pub next: Option<Seq<char>>,
    pub last: Option<Seq<char>>,
    pub alternate: Option<Seq<char>>,
}

/// No relation at all.
pub open spec fn no_links() -> LinksModel {
    LinksModel { first: None, prev: None, next: None, last: None, alternate: None }
}

/// Pagination links parsed from the `Link` header.
#[derive(Clone, Debug)]
pub struct PaginationLinks {
    /// `rel=first`.
    pub first: Option<String>,
    /// `rel=prev`.
    pub prev: Option<String>,
    /// `rel=next`.
    pub next: Option<String>,
    /// `rel=last`.
    pub last: Option<String>,
    /// `rel=alternate`.
    pub alternate: Option<String>,
}

impl View for PaginationLinks {
    type V = LinksModel;

    open spec fn view(&self) -> LinksModel {
        LinksModel {
            first: opt_chars(self.first),
            prev: opt_chars(self.prev),
            next: opt_chars(self.next),
            last: opt_chars(self.last),
            alternate: opt_chars(self.alternate),
        }
    }
}

impl Default for PaginationLinks {
    fn default() -> (r: Self)
        ensures
            r@ == no_links(),
    {
        PaginationLinks { first: None, prev: None, next: None, last: None, alternate: None }
    }
}

/// Metadata extracted from HTTP response headers.
#[derive(Clone, Debug)]
pub struct ResponseMetadata {
    /// `Last-Modified-Version` header value.
    pub last_modified_version: Option<u64>,
    /// `Zotero-Library-Version` header value.
    pub library_version: Option<u64>,
    /// `Backoff` header in seconds.
    pub backoff_seconds: Option<u64>,
    /// `Retry-After` header in seconds.
    pub retry_after_seconds: Option<u64>,
    /// Parsed pagination links.
    pub links: PaginationLinks,
}

/// Whether `m` holds nothing: no version, no delay, no link.
pub open spec fn is_empty_metadata(m: ResponseMetadata) -> bool {
    &&& m.last_modified_version is None
    &&& m.library_version is None
    &&& m.backoff_seconds is None
    &&& m.retry_after_seconds is None
    &&& m.links@ == no_links()
}

impl Default for ResponseMetadata {
    fn default() -> (r: Self)
        ensures
            is_empty_metadata(r),
    {
        ResponseMetadata {
            last_modified_version: None,
            library_version: None,
            backoff_seconds: None,
            retry_after_seconds: None,
            links: PaginationLinks::default(),
        }
    }
}

/// One page of a listing, with the metadata of its response.
#[derive(Clone, Debug)]
pub struct PaginatedResponse<T> {
    /// Page items.
    pub data: Vec<T>,
    /// Parsed response metadata.
    pub metadata: ResponseMetadata,
}

impl<T> PaginatedResponse<T> {
    /// Returns true when the response contains a `rel="next"` link.
    pub fn has_next_page(&self) -> (r: bool)
        ensures
            r == self.metadata.links.next.is_some(),
    {
        self.metadata.links.next.is_some()
    }

    /// Returns the absolute URL for the next page when present.
    pub fn next_page_url(&self) -> (r: Option<&str>)
        ensures
            r is Some == self.metadata.links.next is Some,
            r matches Some(u) ==> u@ == self.metadata.links.next->Some_0@,
    {
        match &self.metadata.links.next {
            Some(u) => Some(u.as_str()),
            None => None,
        }
    }
}

} // verus!
