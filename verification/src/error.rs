//! The errors that client operations report.

use vstd::prelude::*;
use vstd::string::*;

use crate::responses::ResponseMetadata;
use crate::text::{decimal, u64_to_string};

verus! {

/// Why a URL could not be parsed (`url::ParseError`).
#[verifier::external_type_specification]
#[verifier::external_body]
pub struct ExUrlParseError(url::ParseError);

/// A header value with a byte that headers do not allow
/// (`http::header::InvalidHeaderValue`).
#[verifier::external_type_specification]
#[verifier::external_body]
pub struct ExInvalidHeaderValue(http::header::InvalidHeaderValue);

/// Error type for client operations.
#[derive(Debug)]
pub enum ZoteroClientError {
    /// Base URL must be HTTPS.
    InsecureBaseUrl,
    /// Base URL host must be `api.zotero.org`.
    UnsupportedHost,
    /// URL parsing failed.
    UrlParse(url::ParseError),
    /// `User-Agent` value is invalid.
    InvalidHeaderValue(http::header::InvalidHeaderValue),
    /// OAuth endpoint response could not be parsed.
    InvalidOAuthResponse(String),
    /// File-upload response is missing required fields.
    InvalidFileUploadResponse(String),
    /// Upload URL must use HTTPS.
    InsecureUploadUrl,
    /// API returned 304 Not Modified.
    NotModified {
        /// Parsed response metadata.
        metadata: Box<ResponseMetadata>,
    },
    /// API returned 412 Precondition Failed.
    PreconditionFailed {
        /// Parsed response metadata.
        metadata: Box<ResponseMetadata>,
    },
    /// API returned 429 Too Many Requests.
    RateLimited {
        /// Parsed response metadata.
        metadata: Box<ResponseMetadata>,
    },
    /// API returned 503 Service Unavailable.
    ServiceUnavailable {
        /// Parsed response metadata.
        metadata: Box<ResponseMetadata>,
    },
    /// API returned non-success status.
    HttpStatus {
        /// HTTP status code.
        status: u16,
        /// Response body text.
        body: String,
        /// Parsed metadata from headers.
        metadata: Box<ResponseMetadata>,
    },
}

/// The reason phrase that the `http` crate gives a status code, when it
/// knows one.
pub uninterp spec fn canonical_reason_of(status: u16) -> Option<Seq<char>>;

/// `http::StatusCode::from_u16(status)` and then `canonical_reason()`: the
/// reason phrase registered for `status`. The source builds no status code
/// outside 100..=999, so none has a phrase; which codes in that range have
/// one, and what it reads, is named and not stated.
#[verifier::external_body]
fn status_reason(status: u16) -> (r: Option<&'static str>)
    ensures
        r matches Some(t) ==> canonical_reason_of(status) == Some(t@),
        r is None ==> canonical_reason_of(status) is None,
        !(100 <= status <= 999) ==> r is None,
{
    match http::StatusCode::from_u16(status) {
        Ok(code) => code.canonical_reason(),
        Err(_) => None,
    }
}

/// The text of an `http::StatusCode`: the number, a space, and the reason
/// phrase (or `<unknown status code>`).
pub open spec fn status_text(status: u16) -> Seq<char> {
    decimal(status as nat) + " "@ + match canonical_reason_of(status) {
        Some(t) => t,
        None => "<unknown status code>"@,
    }
}

fn status_display(status: u16) -> (s: String)
    ensures
        s@ == status_text(status),
{
    let mut s = u64_to_string(status as u64);
    s.append(" ");
    match status_reason(status) {
        Some(t) => s.append(t),
        None => s.append("<unknown status code>"),
    }
    s
}

impl ZoteroClientError {
    /// The error's message, as its `Display` renders it.
    pub fn message(&self) -> (m: String)
        ensures
            self is InsecureBaseUrl ==> m@ == "base URL must use https"@,
            self is UnsupportedHost ==> m@ == "base URL host must be api.zotero.org"@,
            self matches ZoteroClientError::UrlParse(e) ==> exists|d: String|
                #[trigger] to_string_from_display_ensures::<url::ParseError>(e, d) && m@ == "URL parse failed: "@ + d@,
            self matches ZoteroClientError::InvalidHeaderValue(e) ==> exists|d: String|
                #[trigger] to_string_from_display_ensures::<http::header::InvalidHeaderValue>(e, d)
                    && m@ == "invalid header value: "@ + d@,
            self matches ZoteroClientError::InvalidOAuthResponse(t) ==> m@ == "invalid oauth response: "@ + t@,
            self matches ZoteroClientError::InvalidFileUploadResponse(t) ==> m@ == "missing file upload field: "@ + t@,
            self is InsecureUploadUrl ==> m@ == "upload URL must use https"@,
            self is NotModified ==> m@ == "resource not modified"@,
            self is PreconditionFailed ==> m@ == "write precondition failed"@,
            self is RateLimited ==> m@ == "rate limited"@,
            self is ServiceUnavailable ==> m@ == "service unavailable"@,
            self matches ZoteroClientError::HttpStatus { status, .. } ==> m@ == "api returned status "@ + status_text(*status),
    {
        match self {
            ZoteroClientError::InsecureBaseUrl => "base URL must use https".to_owned(),
            ZoteroClientError::UnsupportedHost => "base URL host must be api.zotero.org".to_owned(),
            ZoteroClientError::UrlParse(e) => {
                let mut m = "URL parse failed: ".to_owned();
                let detail = e.to_string();
                m.append(detail.as_str());
                m
            },
            ZoteroClientError::InvalidHeaderValue(e) => {
                let mut m = "invalid header value: ".to_owned();
                let detail = e.to_string();
                m.append(detail.as_str());
                m
            },
            ZoteroClientError::InvalidOAuthResponse(t) => {
                let mut m = "invalid oauth response: ".to_owned();
                m.append(t.as_str());
                m
            },
            ZoteroClientError::InvalidFileUploadResponse(t) => {
                let mut m = "missing file upload field: ".to_owned();
                m.append(t.as_str());
                m
            },
            ZoteroClientError::InsecureUploadUrl => "upload URL must use https".to_owned(),
            ZoteroClientError::NotModified { .. } => "resource not modified".to_owned(),
            ZoteroClientError::PreconditionFailed { .. } => "write precondition failed".to_owned(),
            ZoteroClientError::RateLimited { .. } => "rate limited".to_owned(),
            ZoteroClientError::ServiceUnavailable { .. } => "service unavailable".to_owned(),
            ZoteroClientError::HttpStatus { status, .. } => {
                let mut m = "api returned status ".to_owned();
                let t = status_display(*status);
                m.append(t.as_str());
                m
            },
        }
    }
}


} // verus!
