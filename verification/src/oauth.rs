//! OAuth 1.0a: signing (HMAC-SHA1 over the sorted, percent-encoded
//! parameters), the `Authorization` header, the calls that obtain request
//! and access tokens, and reading Zotero's answers to them.

use base64::Engine as _;
use hmac::Mac as _;
use rand::distr::SampleString as _;
use vstd::prelude::*;
use vstd::string::*;
use vstd::utf8::encode_utf8;

use crate::encoding::{EncodeSet, hex_digit, is_ascii_alphanumeric, percent_encode_oauth, percent_encoded};
use crate::error::ZoteroClientError;
use crate::sort::{PairView, lemma_sorted_by_value_order_free, pair_view, pairs_view, sort_pairs, stable_sorted};
use crate::text::{chars_eq, chars_of, decimal, u64_to_string};

verus! {

// ---------------------------------------------------------------------------
// Outside computations
// ---------------------------------------------------------------------------

/// The result of `str::to_uppercase`: the Unicode upper-case mapping.
pub uninterp spec fn uppercase_of(s: Seq<char>) -> Seq<char>;

/// The ASCII upper-case of a character: `a`-`z` become `A`-`Z`, the rest
/// stay.
pub open spec fn ascii_upper(c: char) -> char {
    if 'a' <= c <= 'z' { ((c as u32) - 32) as char } else { c }
}

/// Whether every character of `s` is ASCII.
pub open spec fn is_ascii_text(s: Seq<char>) -> bool {
    forall|i: int| 0 <= i < s.len() ==> (#[trigger] s[i] as u32) < 128
}

/// `str::to_uppercase`. Its result is named (`uppercase_of`); the Unicode
/// case tables are not written out, except for ASCII text, which the
/// Unicode mapping upper-cases letter by letter (`a`-`z` to `A`-`Z`, the
/// rest unchanged).
#[verifier::external_body]
fn to_uppercase(s: &str) -> (r: String)
    ensures
        r@ == uppercase_of(s@),
        is_ascii_text(s@) ==> r@ == Seq::new(s@.len(), |i: int| ascii_upper(s@[i])),
{
    s.to_uppercase()
}

/// The HMAC-SHA1 tag of `message` under `key` (RFC 2104 with SHA-1).
pub uninterp spec fn hmac_sha1_of(key: Seq<u8>, message: Seq<u8>) -> Seq<u8>;

/// `Hmac::<Sha1>::new_from_slice(key)`, `update(message)`, `finalize()`.
/// HMAC accepts keys of any length, so the key is never refused; the tag is
/// SHA-1's 20 bytes. The tag itself is named, not computed here.
#[verifier::external_body]
fn hmac_sha1(key: &[u8], message: &[u8]) -> (r: Vec<u8>)
    ensures
        r@ == hmac_sha1_of(key@, message@),
        r@.len() == 20,
{
    let mut mac = hmac::Hmac::<sha1::Sha1>::new_from_slice(key).expect("HMAC takes keys of any length");
    mac.update(message);
    mac.finalize().into_bytes().to_vec()
}

/// The character of the standard Base64 alphabet (RFC 4648 §4:
/// `A`-`Z`, `a`-`z`, `0`-`9`, `+`, `/`) for a six-bit value.
pub open spec fn base64_char(v: nat) -> char {
    if v < 26 {
        (65 + v) as char
    } else if v < 52 {
        (97 + (v - 26)) as char
    } else if v < 62 {
        (48 + (v - 52)) as char
    } else if v == 62 {
        '+'
    } else {
        '/'
    }
}

/// The standard Base64 text of bytes, with `=` padding: each group of three
/// bytes gives four characters, six bits each; a last group of one or two
/// bytes gives two or three characters and is padded to four with `=`.
pub open spec fn base64_of(bytes: Seq<u8>) -> Seq<char>
    decreases bytes.len(),
{
    if bytes.len() == 0 {
        Seq::empty()
    } else if bytes.len() == 1 {
        let a = bytes[0] as nat;
        seq![base64_char(a / 4), base64_char((a % 4) * 16), '=', '=']
    } else if bytes.len() == 2 {
        let a = bytes[0] as nat;
        let b = bytes[1] as nat;
        seq![base64_char(a / 4), base64_char((a % 4) * 16 + b / 16), base64_char((b % 16) * 4), '=']
    } else {
        let a = bytes[0] as nat;
        let b = bytes[1] as nat;
        let c = bytes[2] as nat;
        seq![base64_char(a / 4), base64_char((a % 4) * 16 + b / 16), base64_char((b % 16) * 4 + c / 64), base64_char(c % 64)]
            + base64_of(bytes.subrange(3, bytes.len() as int))
    }
}

/// Base64 text has four characters for every started group of three bytes.
pub proof fn lemma_base64_len(bytes: Seq<u8>)
    ensures
        base64_of(bytes).len() == 4 * ((bytes.len() + 2) / 3),
    decreases bytes.len(),
{
    if bytes.len() >= 3 {
        lemma_base64_len(bytes.subrange(3, bytes.len() as int));
    }
}

/// `base64::engine::general_purpose::STANDARD.encode(bytes)`: the standard
/// alphabet with `=` padding. The encoder panics only when the text's length
/// (`encoded_len`) overflows `usize`, which the bound on the input rules out.
#[verifier::external_body]
fn base64_encode(bytes: &[u8]) -> (r: String)
    requires
        bytes@.len() <= usize::MAX / 2,
    ensures
        r@ == base64_of(bytes@),
{
    base64::engine::general_purpose::STANDARD.encode(bytes)
}

/// `Alphanumeric.sample_string(&mut rand::rng(), len)`: `len` characters,
/// each drawn at random from `A`-`Z`, `a`-`z` and `0`-`9`.
#[verifier::external_body]
fn random_alphanumeric(len: usize) -> (r: String)
    ensures
        r@.len() == len,
        forall|i: int| 0 <= i < r@.len() ==> is_alphanumeric_char(#[trigger] r@[i]),
{
    rand::distr::Alphanumeric.sample_string(&mut rand::rng(), len)
}

/// The system clock (`std::time::SystemTime`).
#[verifier::external_type_specification]
#[verifier::external_body]
pub struct ExSystemTime(std::time::SystemTime);

/// `SystemTime::now()`: the current time of the system clock.
#[verifier::external_body]
fn system_time_now() -> std::time::SystemTime {
    std::time::SystemTime::now()
}

/// `t.duration_since(UNIX_EPOCH)`: the span from the UNIX epoch to `t`, or
/// `None` when `t` lies before the epoch. What the clock read is not known
/// here, so nothing is stated of the span.
#[verifier::external_body]
fn duration_since_epoch(t: &std::time::SystemTime) -> Option<std::time::Duration> {
    t.duration_since(std::time::UNIX_EPOCH).ok()
}

/// `Duration::as_secs`: the whole seconds of a span. The span is opaque
/// here, so nothing is stated of the result.
#[verifier::external_body]
fn whole_seconds(d: &std::time::Duration) -> u64 {
    d.as_secs()
}

/// Whether `c` is an ASCII letter or digit.
pub open spec fn is_alphanumeric_char(c: char) -> bool {
    ('0' <= c <= '9') || ('A' <= c <= 'Z') || ('a' <= c <= 'z')
}

// ---------------------------------------------------------------------------
// Nonce and timestamp
// ---------------------------------------------------------------------------

/// Generates a random OAuth nonce: 32 random ASCII letters and digits.
pub fn oauth_nonce() -> (r: String)
    ensures
        r@.len() == 32,
        forall|i: int| 0 <= i < r@.len() ==> is_alphanumeric_char(#[trigger] r@[i]),
{
    random_alphanumeric(32)
}

/// The UNIX time that a clock reading gives: the whole seconds since the
/// epoch, or 0 when the clock read before 1970 (no reading).
pub open spec fn unix_seconds(reading: Option<u64>) -> u64 {
    match reading {
        Some(s) => s,
        None => 0,
    }
}

/// The UNIX time in whole seconds that a clock reading gives: the reading,
/// or 0 when the clock read before 1970.
pub fn unix_seconds_from(reading: Option<u64>) -> (r: u64)
    ensures
        r == unix_seconds(reading),
{
    match reading {
        Some(s) => s,
        None => 0,
    }
}

/// Reads the system clock: the whole seconds since the UNIX epoch, or `None`
/// when the clock reads before it.
fn clock_reading() -> Option<u64> {
    let now = system_time_now();
    match duration_since_epoch(&now) {
        Some(d) => Some(whole_seconds(&d)),
        None => None,
    }
}

/// The current UNIX time in whole seconds, or 0 when the clock reads before
/// 1970: `unix_seconds_from` applied to the clock's reading. What the clock
/// reads is not known here, so no clause fixes the number.
pub fn chrono_like_unix_seconds() -> u64 {
    let reading = clock_reading();
    unix_seconds_from(reading)
}

/// Creates a UNIX timestamp string for OAuth headers: the decimal text of
/// the current UNIX time in seconds (0 before 1970).
pub fn oauth_timestamp() -> (r: String)
    ensures
        exists|reading: Option<u64>| r@ == decimal(unix_seconds(reading) as nat),
{
    let t = chrono_like_unix_seconds();
    assert(unix_seconds(Some(t)) == t);
    u64_to_string(t)
}

// ---------------------------------------------------------------------------
// Signing
// ---------------------------------------------------------------------------

/// OAuth percent-encoding of a text (RFC 5849 §3.6).
pub open spec fn oauth_encoded(s: Seq<char>) -> Seq<char> {
    percent_encoded(encode_utf8(s), EncodeSet::OAuthUnreserved)
}

/// The parts joined, with `sep` between each two.
pub open spec fn join_with(parts: Seq<Seq<char>>, sep: Seq<char>) -> Seq<char>
    decreases parts.len(),
{
    if parts.len() == 0 {
        Seq::empty()
    } else if parts.len() == 1 {
        parts[0]
    } else {
        join_with(parts.drop_last(), sep) + sep + parts.last()
    }
}

fn join_strings(parts: &Vec<String>, sep: &str) -> (r: String)
    ensures
        r@ == join_with(Seq::new(parts@.len(), |i: int| parts@[i]@), sep@),
{
    let ghost ps = Seq::new(parts@.len(), |i: int| parts@[i]@);
    let mut r = String::new();
    let mut i: usize = 0;
    assert(ps.take(0) =~= Seq::<Seq<char>>::empty());
    while i < parts.len()
        invariant
            i <= parts.len(),
            ps == Seq::new(parts@.len(), |i: int| parts@[i]@),
            r@ == join_with(ps.take(i as int), sep@),
        decreases parts.len() - i,
    {
        let ghost next = ps.take(i as int + 1);
        assert(next.drop_last() =~= ps.take(i as int));
        assert(next.last() == parts@[i as int]@);
        if i > 0 {
            r.append(sep);
        } else {
            assert(next =~= seq![parts@[0]@]);
        }
        r.append(parts[i].as_str());
        i = i + 1;
    }
    assert(ps.take(parts.len() as int) =~= ps);
    r
}

/// `name=value`, both OAuth-encoded.
pub open spec fn param_text(p: PairView) -> Seq<char> {
    oauth_encoded(p.0) + "="@ + oauth_encoded(p.1)
}

/// The normalized parameter string: the parameters sorted by name and then
/// value, each as `name=value`, joined with `&`.
pub open spec fn parameter_string(params: Seq<PairView>) -> Seq<char> {
    let sorted = stable_sorted(params, true);
    join_with(Seq::new(sorted.len(), |i: int| param_text(sorted[i])), "&"@)
}

/// The signature base string: the upper-cased method, the encoded URL and
/// the encoded parameter string, joined with `&`.
pub open spec fn signature_base_text(method: Seq<char>, url: Seq<char>, params: Seq<PairView>) -> Seq<char> {
    uppercase_of(method) + "&"@ + oauth_encoded(url) + "&"@ + oauth_encoded(parameter_string(params))
}

/// Builds a sorted OAuth signature base string.
pub fn build_signature_base_string(method: &str, url: &str, params: &Vec<(String, String)>) -> (r: String)
    ensures
        r@ == signature_base_text(method@, url@, pairs_view(params@)),
{
    let sorted = sort_pairs(params, true);
    let ghost sv = stable_sorted(pairs_view(params@), true);
    let mut texts: Vec<String> = Vec::new();
    let mut i: usize = 0;
    while i < sorted.len()
        invariant
            i <= sorted.len(),
            pairs_view(sorted@) == sv,
            texts@.len() == i,
            forall|k: int| 0 <= k < i ==> (#[trigger] texts@[k])@ == param_text(sv[k]),
        decreases sorted.len() - i,
    {
        let mut t = percent_encode_oauth(sorted[i].0.as_str());
        t.append("=");
        let v = percent_encode_oauth(sorted[i].1.as_str());
        t.append(v.as_str());
        assert(sv[i as int] == pair_view(sorted@[i as int]));
        texts.push(t);
        i = i + 1;
    }
    let joined = join_strings(&texts, "&");
    assert(Seq::new(texts@.len(), |i: int| texts@[i]@) =~= Seq::new(sv.len(), |i: int| param_text(sv[i])));
    let mut r = to_uppercase(method);
    r.append("&");
    let u = percent_encode_oauth(url);
    r.append(u.as_str());
    r.append("&");
    let p = percent_encode_oauth(joined.as_str());
    r.append(p.as_str());
    r
}

/// The signature base string, and so the signature over it, does not depend
/// on the order in which the parameters are given: two lists that hold the
/// same pairs, each as often, give the same base string.
pub proof fn lemma_signature_base_order_free(method: Seq<char>, url: Seq<char>, a: Seq<PairView>, b: Seq<PairView>)
    requires
        a.to_multiset() == b.to_multiset(),
    ensures
        signature_base_text(method, url, a) == signature_base_text(method, url, b),
{
    lemma_sorted_by_value_order_free(a, b);
}

/// The signing key: the encoded consumer secret and the encoded token
/// secret (empty when there is none), joined with `&`.
pub open spec fn signing_key_text(consumer_secret: Seq<char>, token_secret: Option<Seq<char>>) -> Seq<char> {
    oauth_encoded(consumer_secret) + "&"@ + oauth_encoded(match token_secret {
        Some(t) => t,
        None => Seq::empty(),
    })
}

/// The HMAC-SHA1 signature of a base string, in Base64.
pub open spec fn signature_text(base: Seq<char>, consumer_secret: Seq<char>, token_secret: Option<Seq<char>>) -> Seq<char> {
    base64_of(hmac_sha1_of(encode_utf8(signing_key_text(consumer_secret, token_secret)), encode_utf8(base)))
}

/// The text of an optional `&str`.
pub open spec fn opt_text(o: Option<&str>) -> Option<Seq<char>> {
    match o {
        Some(s) => Some(s@),
        None => None,
    }
}

/// No token secret signs as an empty one does.
pub proof fn lemma_no_token_secret_signs_as_empty(base: Seq<char>, consumer_secret: Seq<char>)
    ensures
        signature_text(base, consumer_secret, None) == signature_text(base, consumer_secret, Some(Seq::<char>::empty())),
{
}

/// Creates an OAuth HMAC-SHA1 signature: Base64 of the 20-byte tag, so 28
/// characters.
pub fn hmac_sha1_signature(base_string: &str, consumer_secret: &str, token_secret: Option<&str>) -> (r: String)
    ensures
        r@ == signature_text(base_string@, consumer_secret@, opt_text(token_secret)),
        r@.len() == 28,
{
    let mut key = percent_encode_oauth(consumer_secret);
    key.append("&");
    let ts = match token_secret {
        Some(t) => t,
        None => "",
    };
    proof { reveal_strlit(""); }
    let ets = percent_encode_oauth(ts);
    key.append(ets.as_str());
    let sig = hmac_sha1(key.as_str().as_bytes(), base_string.as_bytes());
    proof { lemma_base64_len(sig@); }
    base64_encode(sig.as_slice())
}

/// `name="value"`, both OAuth-encoded.
pub open spec fn header_param_text(p: PairView) -> Seq<char> {
    oauth_encoded(p.0) + "=\""@ + oauth_encoded(p.1) + "\""@
}

/// The `Authorization` header value: `OAuth ` and the pairs, sorted stably
/// by name, each as `name="value"`, joined with `, `.
pub open spec fn authorization_header_text(pairs: Seq<PairView>) -> Seq<char> {
    let sorted = stable_sorted(pairs, false);
    "OAuth "@ + join_with(Seq::new(sorted.len(), |i: int| header_param_text(sorted[i])), ", "@)
}

/// Builds an OAuth Authorization header value.
pub fn authorization_header(oauth_pairs: &Vec<(String, String)>) -> (r: String)
    ensures
        r@ == authorization_header_text(pairs_view(oauth_pairs@)),
{
    let sorted = sort_pairs(oauth_pairs, false);
    let ghost sv = stable_sorted(pairs_view(oauth_pairs@), false);
    let mut texts: Vec<String> = Vec::new();
    let mut i: usize = 0;
    while i < sorted.len()
        invariant
            i <= sorted.len(),
            pairs_view(sorted@) == sv,
            texts@.len() == i,
            forall|k: int| 0 <= k < i ==> (#[trigger] texts@[k])@ == header_param_text(sv[k]),
        decreases sorted.len() - i,
    {
        let mut t = percent_encode_oauth(sorted[i].0.as_str());
        t.append("=\"");
        let v = percent_encode_oauth(sorted[i].1.as_str());
        t.append(v.as_str());
        t.append("\"");
        assert(sv[i as int] == pair_view(sorted@[i as int]));
        texts.push(t);
        i = i + 1;
    }
    let joined = join_strings(&texts, ", ");
    assert(Seq::new(texts@.len(), |i: int| texts@[i]@) =~= Seq::new(sv.len(), |i: int| header_param_text(sv[i])));
    let mut r = "OAuth ".to_owned();
    r.append(joined.as_str());
    r
}


// ---------------------------------------------------------------------------
// Requests, tokens and Zotero's answers
// ---------------------------------------------------------------------------

/// Inputs used to request a temporary OAuth token.
#[derive(Clone, Debug)]
pub struct OAuthRequestTokenRequest {
    /// OAuth consumer key.
    pub consumer_key: String,
    /// OAuth consumer secret.
    pub consumer_secret: String,
    /// OAuth callback URL.
    pub callback: String,
    /// Application name displayed by Zotero.
    pub name: String,
    /// Library scope, e.g. `all`.
    pub library_access: String,
    /// Whether all groups are requested.
    pub all_groups: bool,
    /// Whether write access is requested.
    pub write_access: bool,
}

/// Inputs used to exchange a request token for an access token.
#[derive(Clone, Debug)]
pub struct OAuthAccessTokenRequest {
    /// OAuth consumer key.
    pub consumer_key: String,
    /// OAuth consumer secret.
    pub consumer_secret: String,
    /// Request token.
    pub request_token: String,
    /// Request token secret.
    pub request_token_secret: String,
    /// OAuth verifier from callback.
    pub verifier: String,
}

/// Request token pair returned by Zotero OAuth endpoints.
#[derive(Clone, Debug)]
pub struct OAuthToken {
    /// OAuth token value.
    pub token: String,
    /// OAuth token secret.
    pub token_secret: String,
}

/// Access token response from Zotero OAuth access endpoint.
#[derive(Clone, Debug)]
pub struct OAuthAccessToken {
    /// Issued API key token.
    pub token: String,
    /// Issued API key secret.
    pub token_secret: String,
    /// Zotero user identifier.
    pub user_id: Option<String>,
    /// Zotero username.
    pub username: Option<String>,
}

/// Where temporary tokens are requested.
pub const OAUTH_REQUEST_ENDPOINT: &'static str = "https://www.zotero.org/oauth/request";

/// Where request tokens are exchanged for access tokens.
pub const OAUTH_ACCESS_ENDPOINT: &'static str = "https://www.zotero.org/oauth/access";

/// Where the user authorizes a request token.
pub const OAUTH_AUTHORIZE_ENDPOINT: &'static str = "https://www.zotero.org/oauth/authorize";

/// A signed OAuth call, ready to be sent with `POST`.
pub struct SignedOAuthCall {
    /// The `Authorization` header value.
    pub authorization: String,
    /// The form fields of the body (empty when the call has no body).
    pub body_params: Vec<(String, String)>,
}

/// The `oauth_*` parameters of a request-token call.
pub open spec fn request_token_oauth_params(request: OAuthRequestTokenRequest, nonce: Seq<char>, timestamp: Seq<char>) -> Seq<PairView> {
    seq![
        ("oauth_callback"@, request.callback@),
        ("oauth_consumer_key"@, request.consumer_key@),
        ("oauth_nonce"@, nonce),
        ("oauth_signature_method"@, "HMAC-SHA1"@),
        ("oauth_timestamp"@, timestamp),
        ("oauth_version"@, "1.0"@),
    ]
}

/// The form fields of a request-token call.
pub open spec fn request_token_body_params(request: OAuthRequestTokenRequest) -> Seq<PairView> {
    seq![
        ("name"@, request.name@),
        ("library_access"@, request.library_access@),
        ("all_groups"@, if request.all_groups { "write"@ } else { "none"@ }),
        ("write_access"@, if request.write_access { "1"@ } else { "0"@ }),
    ]
}

/// A request-token call asks for what the request says, in its four form
/// fields: the application's name, its library access, `all_groups=write`
/// when all groups are requested and `all_groups=none` when not, and
/// `write_access=1` or `write_access=0`. Requests that differ in any of
/// these send different bodies.
pub proof fn lemma_request_token_body_reflects_request(request: OAuthRequestTokenRequest)
    ensures
        request_token_body_params(request).len() == 4,
        request_token_body_params(request).contains(("name"@, request.name@)),
        request_token_body_params(request).contains(("library_access"@, request.library_access@)),
        request.all_groups ==> request_token_body_params(request).contains(("all_groups"@, "write"@))
            && !request_token_body_params(request).contains(("all_groups"@, "none"@)),
        !request.all_groups ==> request_token_body_params(request).contains(("all_groups"@, "none"@))
            && !request_token_body_params(request).contains(("all_groups"@, "write"@)),
        request.write_access ==> request_token_body_params(request).contains(("write_access"@, "1"@))
            && !request_token_body_params(request).contains(("write_access"@, "0"@)),
        !request.write_access ==> request_token_body_params(request).contains(("write_access"@, "0"@))
            && !request_token_body_params(request).contains(("write_access"@, "1"@)),
{
    reveal_strlit("name");
    reveal_strlit("library_access");
    reveal_strlit("all_groups");
    reveal_strlit("write_access");
    reveal_strlit("write");
    reveal_strlit("none");
    reveal_strlit("1");
    reveal_strlit("0");
    let b = request_token_body_params(request);
    assert(b[0] == ("name"@, request.name@));
    assert(b[1] == ("library_access"@, request.library_access@));
    assert(b[3].0 == "write_access"@);
    assert("write"@ != "none"@) by { assert("write"@.len() != "none"@.len()); }
    assert("1"@ != "0"@) by { assert("1"@[0] != "0"@[0]); }
    assert("name"@ != "all_groups"@) by { assert("name"@.len() != "all_groups"@.len()); }
    assert("name"@ != "write_access"@) by { assert("name"@.len() != "write_access"@.len()); }
    assert("library_access"@ != "all_groups"@) by { assert("library_access"@.len() != "all_groups"@.len()); }
    assert("library_access"@ != "write_access"@) by { assert("library_access"@[0] != "write_access"@[0]); }
    assert("all_groups"@ != "write_access"@) by { assert("all_groups"@.len() != "write_access"@.len()); }
}

/// The signature of a request-token call: over the `oauth_*` parameters and
/// the form fields, keyed by the consumer secret alone.
pub open spec fn request_token_signature(request: OAuthRequestTokenRequest, nonce: Seq<char>, timestamp: Seq<char>) -> Seq<char> {
    signature_text(
        signature_base_text("POST"@, OAUTH_REQUEST_ENDPOINT@,
            request_token_oauth_params(request, nonce, timestamp) + request_token_body_params(request)),
        request.consumer_secret@,
        None,
    )
}

fn pair(a: &str, b: &str) -> (p: (String, String))
    ensures
        pair_view(p) == (a@, b@),
{
    (a.to_owned(), b.to_owned())
}

fn pair_owned(a: &str, b: String) -> (p: (String, String))
    ensures
        pair_view(p) == (a@, b@),
{
    (a.to_owned(), b)
}

/// Signs a request-token call with the given nonce and timestamp: the
/// `Authorization` header carries the `oauth_*` parameters and their
/// signature; the body carries the application's name and requested access.
pub fn sign_request_token_call(request: &OAuthRequestTokenRequest, nonce: &str, timestamp: &str) -> (c: SignedOAuthCall)
    ensures
        c.authorization@ == authorization_header_text(
            request_token_oauth_params(*request, nonce@, timestamp@)
                .push(("oauth_signature"@, request_token_signature(*request, nonce@, timestamp@)))),
        pairs_view(c.body_params@) == request_token_body_params(*request),
{
    let mut oauth_params: Vec<(String, String)> = Vec::new();
    oauth_params.push(pair("oauth_callback", request.callback.as_str()));
    oauth_params.push(pair("oauth_consumer_key", request.consumer_key.as_str()));
    oauth_params.push(pair("oauth_nonce", nonce));
    oauth_params.push(pair("oauth_signature_method", "HMAC-SHA1"));
    oauth_params.push(pair("oauth_timestamp", timestamp));
    oauth_params.push(pair("oauth_version", "1.0"));
    assert(pairs_view(oauth_params@) =~= request_token_oauth_params(*request, nonce@, timestamp@));

    let mut body_params: Vec<(String, String)> = Vec::new();
    body_params.push(pair("name", request.name.as_str()));
    body_params.push(pair("library_access", request.library_access.as_str()));
    body_params.push(pair("all_groups", if request.all_groups { "write" } else { "none" }));
    body_params.push(pair("write_access", if request.write_access { "1" } else { "0" }));
    assert(pairs_view(body_params@) =~= request_token_body_params(*request));

    let mut signature_params: Vec<(String, String)> = Vec::new();
    let mut i: usize = 0;
    while i < oauth_params.len()
        invariant
            i <= oauth_params.len(),
            pairs_view(signature_params@) == pairs_view(oauth_params@).take(i as int),
        decreases oauth_params.len() - i,
    {
        let e = (oauth_params[i].0.clone(), oauth_params[i].1.clone());
        let ghost before = pairs_view(signature_params@);
        assert(pair_view(e) == pairs_view(oauth_params@)[i as int]);
        signature_params.push(e);
        assert(pairs_view(signature_params@) =~= before.push(pair_view(e)));
        assert(pairs_view(oauth_params@).take(i as int + 1) =~= pairs_view(oauth_params@).take(i as int).push(pair_view(e)));
        i = i + 1;
    }
    let mut j: usize = 0;
    while j < body_params.len()
        invariant
            j <= body_params.len(),
            pairs_view(signature_params@) == pairs_view(oauth_params@) + pairs_view(body_params@).take(j as int),
        decreases body_params.len() - j,
    {
        let e = (body_params[j].0.clone(), body_params[j].1.clone());
        let ghost before = pairs_view(signature_params@);
        assert(pair_view(e) == pairs_view(body_params@)[j as int]);
        signature_params.push(e);
        assert(pairs_view(signature_params@) =~= before.push(pair_view(e)));
        assert(pairs_view(body_params@).take(j as int + 1) =~= pairs_view(body_params@).take(j as int).push(pair_view(e)));
        assert(pairs_view(oauth_params@) + pairs_view(body_params@).take(j as int + 1) =~= (pairs_view(oauth_params@) + pairs_view(body_params@).take(j as int)).push(pair_view(e)));
        j = j + 1;
    }
    assert(pairs_view(body_params@).take(body_params.len() as int) =~= pairs_view(body_params@));

    let base = build_signature_base_string("POST", OAUTH_REQUEST_ENDPOINT, &signature_params);
    let signature = hmac_sha1_signature(base.as_str(), request.consumer_secret.as_str(), None);

    let mut header_pairs = oauth_params;
    header_pairs.push(pair_owned("oauth_signature", signature));
    assert(pairs_view(header_pairs@) =~= request_token_oauth_params(*request, nonce@, timestamp@)
        .push(("oauth_signature"@, request_token_signature(*request, nonce@, timestamp@))));
    let authorization = authorization_header(&header_pairs);
    SignedOAuthCall { authorization, body_params }
}

/// The `oauth_*` parameters of an access-token call.
pub open spec fn access_token_oauth_params(request: OAuthAccessTokenRequest, nonce: Seq<char>, timestamp: Seq<char>) -> Seq<PairView> {
    seq![
        ("oauth_consumer_key"@, request.consumer_key@),
        ("oauth_nonce"@, nonce),
        ("oauth_signature_method"@, "HMAC-SHA1"@),
        ("oauth_timestamp"@, timestamp),
        ("oauth_token"@, request.request_token@),
        ("oauth_verifier"@, request.verifier@),
        ("oauth_version"@, "1.0"@),
    ]
}

/// The signature of an access-token call: over its `oauth_*` parameters,
/// keyed by the consumer secret and the request token's secret.
pub open spec fn access_token_signature(request: OAuthAccessTokenRequest, nonce: Seq<char>, timestamp: Seq<char>) -> Seq<char> {
    signature_text(
        signature_base_text("POST"@, OAUTH_ACCESS_ENDPOINT@, access_token_oauth_params(request, nonce, timestamp)),
        request.consumer_secret@,
        Some(request.request_token_secret@),
    )
}

/// Signs an access-token call with the given nonce and timestamp; the call
/// has no body.
pub fn sign_access_token_call(request: &OAuthAccessTokenRequest, nonce: &str, timestamp: &str) -> (c: SignedOAuthCall)
    ensures
        c.authorization@ == authorization_header_text(
            access_token_oauth_params(*request, nonce@, timestamp@)
                .push(("oauth_signature"@, access_token_signature(*request, nonce@, timestamp@)))),
        c.body_params@.len() == 0,
{
    let mut oauth_params: Vec<(String, String)> = Vec::new();
    oauth_params.push(pair("oauth_consumer_key", request.consumer_key.as_str()));
    oauth_params.push(pair("oauth_nonce", nonce));
    oauth_params.push(pair("oauth_signature_method", "HMAC-SHA1"));
    oauth_params.push(pair("oauth_timestamp", timestamp));
    oauth_params.push(pair("oauth_token", request.request_token.as_str()));
    oauth_params.push(pair("oauth_verifier", request.verifier.as_str()));
    oauth_params.push(pair("oauth_version", "1.0"));
    assert(pairs_view(oauth_params@) =~= access_token_oauth_params(*request, nonce@, timestamp@));

    let base = build_signature_base_string("POST", OAUTH_ACCESS_ENDPOINT, &oauth_params);
    let signature = hmac_sha1_signature(base.as_str(), request.consumer_secret.as_str(),
        Some(request.request_token_secret.as_str()));
    oauth_params.push(pair_owned("oauth_signature", signature));
    assert(pairs_view(oauth_params@) =~= access_token_oauth_params(*request, nonce@, timestamp@)
        .push(("oauth_signature"@, access_token_signature(*request, nonce@, timestamp@))));
    let authorization = authorization_header(&oauth_params);
    SignedOAuthCall { authorization, body_params: Vec::new() }
}

/// The `(name, value)` pairs that `application/x-www-form-urlencoded`
/// parsing (WHATWG URL standard) reads from bytes.
pub uninterp spec fn form_urlencoded_parse(input: Seq<u8>) -> Seq<PairView>;

/// `url::form_urlencoded::parse(input).into_owned()`, collected in order.
/// The pairs are named (`form_urlencoded_parse`); the decoding rules are not
/// written out.
#[verifier::external_body]
fn form_pairs(input: &[u8]) -> (r: Vec<(String, String)>)
    ensures
        pairs_view(r@) == form_urlencoded_parse(input@),
{
    url::form_urlencoded::parse(input).into_owned().collect()
}

/// The value that collecting form pairs into a map keeps for `key`: that of
/// the last pair with this name.
pub open spec fn form_value(pairs: Seq<PairView>, key: Seq<char>) -> Option<Seq<char>>
    decreases pairs.len(),
{
    if pairs.len() == 0 {
        None
    } else if pairs.last().0 == key {
        Some(pairs.last().1)
    } else {
        form_value(pairs.drop_last(), key)
    }
}

fn lookup_form_value(pairs: &Vec<(String, String)>, key: &str) -> (r: Option<String>)
    ensures
        opt_view(r) == form_value(pairs_view(pairs@), key@),
{
    let ghost ps = pairs_view(pairs@);
    let key_chars = chars_of(key);
    let mut i: usize = pairs.len();
    assert(ps.take(pairs.len() as int) =~= ps);
    while i > 0
        invariant
            i <= pairs.len(),
            ps == pairs_view(pairs@),
            key_chars@ == key@,
            form_value(ps, key@) == form_value(ps.take(i as int), key@),
        decreases i,
    {
        let ghost t = ps.take(i as int);
        assert(t.last() == pair_view(pairs@[i - 1]));
        assert(t.drop_last() =~= ps.take(i - 1));
        let name = chars_of(pairs[i - 1].0.as_str());
        if chars_eq(&name, &key_chars) {
            return Some(pairs[i - 1].1.clone());
        }
        i = i - 1;
    }
    None
}

/// The text of an optional `String`.
pub open spec fn opt_view(o: Option<String>) -> Option<Seq<char>> {
    match o {
        Some(s) => Some(s@),
        None => None,
    }
}

/// Whether `r` is the error `InvalidOAuthResponse` with message `m`.
pub open spec fn is_oauth_error<T>(r: Result<T, ZoteroClientError>, m: Seq<char>) -> bool {
    r matches Err(ZoteroClientError::InvalidOAuthResponse(t)) && t@ == m
}

/// Whether `r` is what the form pairs of an answer to a request-token call
/// give: the `oauth_token` and `oauth_token_secret` fields, both required.
pub open spec fn reads_request_token(pairs: Seq<PairView>, r: Result<OAuthToken, ZoteroClientError>) -> bool {
    match (form_value(pairs, "oauth_token"@), form_value(pairs, "oauth_token_secret"@)) {
        (None, _) => is_oauth_error(r, "missing oauth_token"@),
        (Some(_), None) => is_oauth_error(r, "missing oauth_token_secret"@),
        (Some(t), Some(s)) => r matches Ok(tok) && tok.token@ == t && tok.token_secret@ == s,
    }
}

/// Whether `r` is what the form pairs of an answer to an access-token call
/// give: the `oauth_token` and `oauth_token_secret` fields, both required,
/// and the optional `userID` and `username`.
pub open spec fn reads_access_token(pairs: Seq<PairView>, r: Result<OAuthAccessToken, ZoteroClientError>) -> bool {
    match (form_value(pairs, "oauth_token"@), form_value(pairs, "oauth_token_secret"@)) {
        (None, _) => is_oauth_error(r, "missing oauth_token"@),
        (Some(_), None) => is_oauth_error(r, "missing oauth_token_secret"@),
        (Some(t), Some(s)) => r matches Ok(tok) && tok.token@ == t && tok.token_secret@ == s
            && opt_view(tok.user_id) == form_value(pairs, "userID"@)
            && opt_view(tok.username) == form_value(pairs, "username"@),
    }
}

/// Reads a request token from the form pairs of Zotero's answer.
pub fn request_token_from_pairs(pairs: &Vec<(String, String)>) -> (r: Result<OAuthToken, ZoteroClientError>)
    ensures
        reads_request_token(pairs_view(pairs@), r),
{
    let token = match lookup_form_value(pairs, "oauth_token") {
        Some(t) => t,
        None => return Err(ZoteroClientError::InvalidOAuthResponse("missing oauth_token".to_owned())),
    };
    let token_secret = match lookup_form_value(pairs, "oauth_token_secret") {
        Some(t) => t,
        None => return Err(ZoteroClientError::InvalidOAuthResponse("missing oauth_token_secret".to_owned())),
    };
    Ok(OAuthToken { token, token_secret })
}

/// Reads an access token from the form pairs of Zotero's answer.
pub fn access_token_from_pairs(pairs: &Vec<(String, String)>) -> (r: Result<OAuthAccessToken, ZoteroClientError>)
    ensures
        reads_access_token(pairs_view(pairs@), r),
{
    let token = match lookup_form_value(pairs, "oauth_token") {
        Some(t) => t,
        None => return Err(ZoteroClientError::InvalidOAuthResponse("missing oauth_token".to_owned())),
    };
    let token_secret = match lookup_form_value(pairs, "oauth_token_secret") {
        Some(t) => t,
        None => return Err(ZoteroClientError::InvalidOAuthResponse("missing oauth_token_secret".to_owned())),
    };
    let user_id = lookup_form_value(pairs, "userID");
    let username = lookup_form_value(pairs, "username");
    Ok(OAuthAccessToken { token, token_secret, user_id, username })
}

/// Reads the answer to a request-token call: its form pairs, read by
/// `request_token_from_pairs`.
pub fn parse_request_token_response(body: &str) -> (r: Result<OAuthToken, ZoteroClientError>)
    ensures
        reads_request_token(form_urlencoded_parse(encode_utf8(body@)), r),
{
    let pairs = form_pairs(body.as_bytes());
    request_token_from_pairs(&pairs)
}

/// Reads the answer to an access-token call: its form pairs, read by
/// `access_token_from_pairs`.
pub fn parse_access_token_response(body: &str) -> (r: Result<OAuthAccessToken, ZoteroClientError>)
    ensures
        reads_access_token(form_urlencoded_parse(encode_utf8(body@)), r),
{
    let pairs = form_pairs(body.as_bytes());
    access_token_from_pairs(&pairs)
}

/// Whether `application/x-www-form-urlencoded` serialization keeps byte
/// `b`: `*`, `-`, `.`, `_`, ASCII letters and digits.
pub open spec fn form_kept(b: u8) -> bool {
    b == 42 || b == 45 || b == 46 || b == 95 || is_ascii_alphanumeric(b)
}

/// The text that one byte becomes: itself when kept, `+` for a space, else
/// `%` and two upper-case hex digits.
pub open spec fn form_encoded_byte(b: u8) -> Seq<char> {
    if form_kept(b) {
        seq![b as char]
    } else if b == 32 {
        seq!['+']
    } else {
        seq!['%', hex_digit((b / 16) as nat), hex_digit((b % 16) as nat)]
    }
}

/// The `application/x-www-form-urlencoded` byte serialization of bytes
/// (`form_urlencoded::byte_serialize`): each byte as `form_encoded_byte`
/// gives it.
pub open spec fn form_byte_serialized(input: Seq<u8>) -> Seq<char>
    decreases input.len(),
{
    if input.len() == 0 {
        Seq::empty()
    } else {
        form_byte_serialized(input.drop_last()) + form_encoded_byte(input.last())
    }
}

/// `form_urlencoded::Serializer::new(String::new())`, then
/// `append_pair(name, value)` and `finish()`: a fresh serializer writes no
/// separator, then the serialized name, `=` and the serialized value (each
/// `byte_serialize` of the text's UTF-8 bytes).
#[verifier::external_body]
fn form_pair(name: &str, value: &str) -> (r: String)
    ensures
        r@ == form_byte_serialized(encode_utf8(name@)) + "="@ + form_byte_serialized(encode_utf8(value@)),
{
    let mut serializer = url::form_urlencoded::Serializer::new(String::new());
    serializer.append_pair(name, value);
    serializer.finish()
}

/// The user-authorization URL for a request token: the authorize endpoint,
/// which has no query, with the query holding the single form pair
/// `oauth_token=<token>`.
pub fn oauth_authorize_url(request_token: &str) -> (r: String)
    ensures
        r@ == OAUTH_AUTHORIZE_ENDPOINT@ + "?"@ + form_byte_serialized(encode_utf8("oauth_token"@))
            + "="@ + form_byte_serialized(encode_utf8(request_token@)),
{
    let mut url = OAUTH_AUTHORIZE_ENDPOINT.to_owned();
    url.append("?");
    let pair = form_pair("oauth_token", request_token);
    url.append(pair.as_str());
    url
}

} // verus!
