//! File upload: the authorization answer, the decision it leads to, the
//! upload target check and the bytes that are uploaded.

use vstd::prelude::*;
use vstd::utf8::encode_utf8;

use crate::error::ZoteroClientError;
use crate::responses::{ResponseMetadata, is_empty_metadata, opt_chars};
use crate::text::str_eq;
use crate::urls::{ParsedUrl, parse_url, url_parts};

verus! {

/// Request body for file upload authorization.
#[derive(Clone, Debug)]
pub struct FileUploadAuthorizationRequest {
    /// Item filename.
    pub filename: String,
    /// File size in bytes.
    pub filesize: u64,
    /// File MD5 hash.
    pub md5: String,
    /// File modification time (ms since epoch).
    pub mtime: u64,
    /// Optional MIME type.
    pub content_type: Option<String>,
    /// Optional charset.
    pub charset: Option<String>,
}

/// Response from file upload authorization call.
#[derive(Clone, Debug)]
pub struct FileUploadAuthorizationResponse {
    /// Whether file already exists remotely.
    pub exists: i32,
    /// Upload key for final registration.
    pub upload_key: Option<String>,
    /// Target upload URL for binary data.
    pub url: Option<String>,
    /// Prefix bytes wrapper.
    pub prefix: Option<String>,
    /// Suffix bytes wrapper.
    pub suffix: Option<String>,
}

/// Outcome from a full file upload flow.
#[derive(Clone, Debug)]
pub struct FileUploadResult {
    /// True when Zotero reports the same file already exists.
    pub already_exists: bool,
    /// Response metadata from the final upload-related API call.
    pub metadata: ResponseMetadata,
}

/// Next action to take after file-upload authorization.
#[derive(Clone, Debug)]
pub enum FileUploadAction {
    /// No upload needed because the same file already exists.
    AlreadyExists,
    /// Upload binary then register with Zotero.
    UploadRequired {
        /// Upload key returned by Zotero.
        upload_key: String,
        /// Target URL to receive the multipart-like byte payload.
        upload_url: String,
        /// Prefix wrapper bytes, UTF-8 encoded.
        prefix: String,
        /// Suffix wrapper bytes, UTF-8 encoded.
        suffix: String,
    },
}

/// Builds upload body bytes from Zotero-provided `prefix` and `suffix`
/// wrappers: the prefix's UTF-8 bytes, the file, the suffix's UTF-8 bytes.
pub fn compose_upload_body(prefix: &str, file_bytes: &[u8], suffix: &str) -> (out: Vec<u8>)
    ensures
        out@ == encode_utf8(prefix@) + file_bytes@ + encode_utf8(suffix@),
{
    let mut out: Vec<u8> = Vec::new();
    append_bytes(&mut out, prefix.as_bytes());
    append_bytes(&mut out, file_bytes);
    append_bytes(&mut out, suffix.as_bytes());
    out
}

fn append_bytes(out: &mut Vec<u8>, bytes: &[u8])
    ensures
        final(out)@ == old(out)@ + bytes@,
{
    let mut i: usize = 0;
    while i < bytes.len()
        invariant
            i <= bytes.len(),
            out@ == old(out)@ + bytes@.take(i as int),
        decreases bytes.len() - i,
    {
        out.push(bytes[i]);
        assert(bytes@.take(i as int + 1) =~= bytes@.take(i as int).push(bytes@[i as int]));
        i = i + 1;
    }
    assert(bytes@.take(bytes.len() as int) =~= bytes@);
}

/// Whether `r` is the error `InvalidFileUploadResponse` naming `field`.
pub open spec fn is_missing_field<T>(r: Result<T, ZoteroClientError>, field: Seq<char>) -> bool {
    r matches Err(ZoteroClientError::InvalidFileUploadResponse(f)) && f@ == field
}

/// Determines the required next upload step from the authorization
/// response: nothing when the file exists (`exists == 1`); otherwise an
/// upload, which needs `upload_key`, `url`, `prefix` and `suffix` (the first
/// one missing is reported).
pub fn determine_upload_action(response: &FileUploadAuthorizationResponse) -> (r: Result<FileUploadAction, ZoteroClientError>)
    ensures
        response.exists == 1 ==> r matches Ok(FileUploadAction::AlreadyExists),
        response.exists != 1 ==> {
            if response.upload_key is None {
                is_missing_field(r, "upload_key"@)
            } else if response.url is None {
                is_missing_field(r, "url"@)
            } else if response.prefix is None {
                is_missing_field(r, "prefix"@)
            } else if response.suffix is None {
                is_missing_field(r, "suffix"@)
            } else {
                r matches Ok(FileUploadAction::UploadRequired { upload_key, upload_url, prefix, suffix })
                    && Some(upload_key@) == opt_chars(response.upload_key)
                    && Some(upload_url@) == opt_chars(response.url)
                    && Some(prefix@) == opt_chars(response.prefix)
                    && Some(suffix@) == opt_chars(response.suffix)
            }
        },
{
    if response.exists == 1 {
        return Ok(FileUploadAction::AlreadyExists);
    }
    let upload_key = match &response.upload_key {
        Some(k) => k.clone(),
        None => return Err(ZoteroClientError::InvalidFileUploadResponse("upload_key".to_owned())),
    };
    let upload_url = match &response.url {
        Some(u) => u.clone(),
        None => return Err(ZoteroClientError::InvalidFileUploadResponse("url".to_owned())),
    };
    let prefix = match &response.prefix {
        Some(p) => p.clone(),
        None => return Err(ZoteroClientError::InvalidFileUploadResponse("prefix".to_owned())),
    };
    let suffix = match &response.suffix {
        Some(s) => s.clone(),
        None => return Err(ZoteroClientError::InvalidFileUploadResponse("suffix".to_owned())),
    };
    Ok(FileUploadAction::UploadRequired { upload_key, upload_url, prefix, suffix })
}

/// A checked upload: where the bytes go, and the bytes.
pub struct BinaryUpload {
    /// The parsed upload URL.
    pub target: ParsedUrl,
    /// The body: prefix, file, suffix.
    pub body: Vec<u8>,
}

/// Checks the upload URL (it must parse and use `https`) and builds the
/// body that is uploaded to it.
pub fn prepare_binary_upload(upload_url: &str, prefix: &str, file_bytes: &[u8], suffix: &str) -> (r: Result<BinaryUpload, ZoteroClientError>)
    ensures
        match url_parts(upload_url@) {
            None => r matches Err(ZoteroClientError::UrlParse(_)),
            Some((scheme, host)) => if scheme != "https"@ {
                r matches Err(ZoteroClientError::InsecureUploadUrl)
            } else {
                r matches Ok(u) && u.target@.text == upload_url@ && u.target@.scheme == scheme && u.target@.host == host
                    && u.body@ == encode_utf8(prefix@) + file_bytes@ + encode_utf8(suffix@)
            },
        },
{
    let parsed = match parse_url(upload_url) {
        Ok(p) => p,
        Err(e) => return Err(ZoteroClientError::UrlParse(e)),
    };
    if !str_eq(parsed.scheme(), "https") {
        return Err(ZoteroClientError::InsecureUploadUrl);
    }
    let body = compose_upload_body(prefix, file_bytes, suffix);
    Ok(BinaryUpload { target: parsed, body })
}


/// Where a whole file upload stands after its authorization.
pub enum UploadStep {
    /// Nothing more to send: the upload's result.
    Finished(FileUploadResult),
    /// Send the bytes to `upload_url`, wrapped in `prefix` and `suffix`,
    /// then register `upload_key`.
    SendBytes {
        /// Upload key to register once the bytes are sent.
        upload_key: String,
        /// Where the bytes go.
        upload_url: String,
        /// Text sent before the bytes.
        prefix: String,
        /// Text sent after the bytes.
        suffix: String,
    },
}

/// What follows the authorization of a whole upload: when the file already
/// exists, the upload is finished, with the authorization's metadata;
/// otherwise the bytes are to be sent. An answer missing a field is refused
/// as `determine_upload_action` refuses it.
pub fn step_after_authorization(response: &FileUploadAuthorizationResponse, metadata: ResponseMetadata) -> (r: Result<UploadStep, ZoteroClientError>)
    ensures
        response.exists == 1 ==> (r matches Ok(UploadStep::Finished(res)) && res.already_exists && res.metadata == metadata),
        response.exists != 1 ==> {
            if response.upload_key is None {
                is_missing_field(r, "upload_key"@)
            } else if response.url is None {
                is_missing_field(r, "url"@)
            } else if response.prefix is None {
                is_missing_field(r, "prefix"@)
            } else if response.suffix is None {
                is_missing_field(r, "suffix"@)
            } else {
                r matches Ok(UploadStep::SendBytes { upload_key, upload_url, prefix, suffix })
                    && Some(upload_key@) == opt_chars(response.upload_key)
                    && Some(upload_url@) == opt_chars(response.url)
                    && Some(prefix@) == opt_chars(response.prefix)
                    && Some(suffix@) == opt_chars(response.suffix)
            }
        },
{
    match determine_upload_action(response) {
        Ok(FileUploadAction::AlreadyExists) => Ok(UploadStep::Finished(FileUploadResult { already_exists: true, metadata })),
        Ok(FileUploadAction::UploadRequired { upload_key, upload_url, prefix, suffix }) => {
            Ok(UploadStep::SendBytes { upload_key, upload_url, prefix, suffix })
        },
        Err(e) => Err(e),
    }
}

/// The result of a whole upload whose bytes were sent and registered: not
/// already present, with the registration's metadata.
pub fn result_after_registration(metadata: ResponseMetadata) -> (r: FileUploadResult)
    ensures
        !r.already_exists,
        r.metadata == metadata,
{
    FileUploadResult { already_exists: false, metadata }
}

/// Whether the upload target took the bytes: any `2xx` reply.
pub fn binary_upload_accepted(status: u16) -> (r: bool)
    ensures
        r == (200 <= status <= 299),
{
    200 <= status && status <= 299
}

/// The error for an upload target that refused the bytes: its status and
/// reply body, with no metadata.
pub fn binary_upload_refused(status: u16, body: String) -> (e: ZoteroClientError)
    ensures
        e matches ZoteroClientError::HttpStatus { status: s, body: b, metadata }
            && s == status && b@ == body@ && is_empty_metadata(*metadata),
{
    ZoteroClientError::HttpStatus { status, body, metadata: Box::new(ResponseMetadata::default()) }
}

} // verus!
