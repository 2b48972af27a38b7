//! URL checks: the API base URL must be HTTPS on `api.zotero.org`, upload
//! targets must be HTTPS, and a `rel="next"` page must stay on the base
//! URL's scheme and host.

use vstd::prelude::*;
use vstd::utf8::encode_utf8;

use crate::error::ZoteroClientError;
use crate::responses::{PaginatedResponse, opt_chars};
use crate::text::str_eq;

verus! {

/// A parsed absolute URL (`url::Url`).
#[verifier::external_type_specification]
#[verifier::external_body]
pub struct ExUrl(url::Url);

/// The scheme and host that the WHATWG URL parser (`url::Url::parse`) reads
/// from a text, or `None` when it refuses the text.
pub uninterp spec fn url_parts(input: Seq<char>) -> Option<(Seq<char>, Option<Seq<char>>)>;

/// What a parsed URL stands for: the text it was parsed from, and the
/// scheme and host that parsing read.
pub struct UrlView {
    pub text: Seq<char>,
    pub scheme: Seq<char>,
    pub host: Option<Seq<char>>,
}

/// A parsed URL with the text it came from, its scheme and its host. Only
/// `parse_url` builds one, so the URL is always the parse of the text, and
/// the scheme and host are always those of the URL.
#[derive(Debug)]
pub struct ParsedUrl {
    url: url::Url,
    text: String,
    scheme: String,
    host: Option<String>,
}

impl View for ParsedUrl {
    type V = UrlView;

    closed spec fn view(&self) -> UrlView {
        UrlView { text: self.text@, scheme: self.scheme@, host: opt_chars(self.host) }
    }
}

impl ParsedUrl {
    /// The parsed URL.
    pub fn url(&self) -> &url::Url {
        &self.url
    }

    /// The URL's scheme (`url.scheme()`).
    pub fn scheme(&self) -> (r: &str)
        ensures
            r@ == self@.scheme,
    {
        self.scheme.as_str()
    }

    /// The URL's host (`url.host_str()`).
    pub fn host(&self) -> (r: Option<&str>)
        ensures
            match r {
                Some(h) => self@.host == Some(h@),
                None => self@.host is None,
            },
    {
        match &self.host {
            Some(h) => Some(h.as_str()),
            None => None,
        }
    }
}

/// `url::Url::parse(input)`, kept with the input text and with the parsed
/// URL's `scheme()` and `host_str()` copied out. What the parser accepts and
/// reads is named (`url_parts`), not written out.
#[verifier::external_body]
pub(crate) fn parse_url(input: &str) -> (r: Result<ParsedUrl, url::ParseError>)
    ensures
        r matches Ok(p) ==> p@.text == input@ && url_parts(input@) == Some((p@.scheme, p@.host)),
        r is Err ==> url_parts(input@) is None,
{
    match url::Url::parse(input) {
        Ok(url) => {
            let scheme = url.scheme().to_owned();
            let host = url.host_str().map(|h| h.to_owned());
            Ok(ParsedUrl { url, text: input.to_owned(), scheme, host })
        },
        Err(e) => Err(e),
    }
}

/// The only host the client talks to.
pub const API_HOST: &'static str = "api.zotero.org";

/// The verdict on a base URL's scheme and host: HTTPS and `api.zotero.org`,
/// else the first rule it breaks.
pub open spec fn base_url_verdict(scheme: Seq<char>, host: Option<Seq<char>>) -> Option<ZoteroClientError> {
    if scheme != "https"@ {
        Some(ZoteroClientError::InsecureBaseUrl)
    } else if host != Some(API_HOST@) {
        Some(ZoteroClientError::UnsupportedHost)
    } else {
        None
    }
}

/// Checks a parsed base URL: it must use `https` and name the host
/// `api.zotero.org`.
pub fn validate_base_url(base_url: &ParsedUrl) -> (r: Result<(), ZoteroClientError>)
    ensures
        match base_url_verdict(base_url@.scheme, base_url@.host) {
            Some(e) => r == Err::<(), ZoteroClientError>(e),
            None => r is Ok,
        },
{
    if !str_eq(base_url.scheme(), "https") {
        return Err(ZoteroClientError::InsecureBaseUrl);
    }
    match base_url.host() {
        None => Err(ZoteroClientError::UnsupportedHost),
        Some(h) => {
            if !str_eq(h, API_HOST) {
                Err(ZoteroClientError::UnsupportedHost)
            } else {
                Ok(())
            }
        },
    }
}

/// Whether byte `b` may appear in an HTTP header value: visible ASCII,
/// space, tab, or any byte from 128 up (`http::HeaderValue`'s rule).
pub open spec fn header_value_byte(b: u8) -> bool {
    (b >= 32 && b != 127) || b == 9
}

/// Whether every byte of a text may appear in a header value.
pub open spec fn valid_header_value(s: Seq<char>) -> bool {
    forall|i: int| 0 <= i < encode_utf8(s).len() ==> header_value_byte(#[trigger] encode_utf8(s)[i])
}

/// `http::HeaderValue::from_str(value)`, keeping only whether it was
/// accepted: it refuses the text exactly when one of its UTF-8 bytes is a
/// control character other than tab (below 32, or 127).
#[verifier::external_body]
fn check_header_value(value: &str) -> (r: Result<(), http::header::InvalidHeaderValue>)
    ensures
        r is Ok <==> valid_header_value(value@),
{
    match http::header::HeaderValue::from_str(value) {
        Ok(_) => Ok(()),
        Err(e) => Err(e),
    }
}

/// What creating a client checks of its options, in order: the base URL
/// parses, it is HTTPS on `api.zotero.org`, and the `User-Agent` is a valid
/// header value. On success, the parsed base URL.
pub fn check_client_options(base_url: &str, user_agent: &str) -> (r: Result<ParsedUrl, ZoteroClientError>)
    ensures
        match url_parts(base_url@) {
            None => r matches Err(ZoteroClientError::UrlParse(_)),
            Some((scheme, host)) => match base_url_verdict(scheme, host) {
                Some(e) => r == Err::<ParsedUrl, ZoteroClientError>(e),
                None => if valid_header_value(user_agent@) {
                    r matches Ok(p) && p@.text == base_url@ && p@.scheme == scheme && p@.host == host
                } else {
                    r matches Err(ZoteroClientError::InvalidHeaderValue(_))
                },
            },
        },
        // Only an HTTPS base URL on the API host is ever accepted.
        r matches Ok(p) ==> p@.scheme == "https"@ && p@.host == Some(API_HOST@),
{
    let parsed = match parse_url(base_url) {
        Ok(p) => p,
        Err(e) => return Err(ZoteroClientError::UrlParse(e)),
    };
    match validate_base_url(&parsed) {
        Ok(()) => {},
        Err(e) => return Err(e),
    }
    match check_header_value(user_agent) {
        Ok(()) => Ok(parsed),
        Err(e) => Err(ZoteroClientError::InvalidHeaderValue(e)),
    }
}

/// Where to fetch the page after `current_page`: nothing when it has no
/// `rel="next"` link; the parsed link when it keeps the base URL's scheme
/// and host; an error otherwise.
pub fn next_page_target<T>(base_url: &ParsedUrl, current_page: &PaginatedResponse<T>) -> (r: Result<Option<ParsedUrl>, ZoteroClientError>)
    ensures
        match current_page.metadata.links.next {
            None => r matches Ok(None),
            Some(next) => match url_parts(next@) {
                None => r matches Err(ZoteroClientError::UrlParse(_)),
                Some((scheme, host)) => if scheme == base_url@.scheme && host == base_url@.host {
                    r matches Ok(Some(p)) && p@.text == next@ && p@.scheme == scheme && p@.host == host
                } else {
                    r matches Err(ZoteroClientError::UnsupportedHost)
                },
            },
        },
{
    let next_url = match current_page.next_page_url() {
        Some(u) => u,
        None => return Ok(None),
    };
    let next = match parse_url(next_url) {
        Ok(p) => p,
        Err(e) => return Err(ZoteroClientError::UrlParse(e)),
    };
    let same_scheme = str_eq(next.scheme(), base_url.scheme());
    let same_host = match (next.host(), base_url.host()) {
        (Some(a), Some(b)) => str_eq(a, b),
        (None, None) => true,
        _ => false,
    };
    if !same_scheme || !same_host {
        return Err(ZoteroClientError::UnsupportedHost);
    }
    Ok(Some(next))
}

} // verus!
