//! The header that carries a client's credentials.

use vstd::prelude::*;

use crate::sort::{PairView, pair_view};

verus! {

/// How a client authenticates.
#[derive(Clone, Copy, Debug, PartialEq, Eq, Structural)]
pub enum AuthScheme {
    /// An API key, sent as `Zotero-API-Key: <key>`.
    ApiKey,
    /// A bearer token, sent as `Authorization: Bearer <token>`.
    BearerToken,
}

/// The header that carries `secret` under `scheme`.
pub open spec fn auth_header_of(scheme: AuthScheme, secret: Seq<char>) -> PairView {
    match scheme {
        AuthScheme::ApiKey => ("Zotero-API-Key"@, secret),
        AuthScheme::BearerToken => ("Authorization"@, "Bearer "@ + secret),
    }
}

/// The header (name and value) that carries `secret` under `scheme`.
pub fn auth_header(scheme: AuthScheme, secret: &str) -> (h: (String, String))
    ensures
        pair_view(h) == auth_header_of(scheme, secret@),
{
    match scheme {
        AuthScheme::ApiKey => ("Zotero-API-Key".to_owned(), secret.to_owned()),
        AuthScheme::BearerToken => {
            let mut value = "Bearer ".to_owned();
            value.append(secret);
            ("Authorization".to_owned(), value)
        },
    }
}

} // verus!
