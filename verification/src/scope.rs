//! Library scope identifiers for user and group endpoints.

use vstd::prelude::*;
use vstd::string::*;

use crate::text::{decimal, u64_to_string};

verus! {

/// Scope used to select the Zotero library namespace.
#[derive(Clone, Copy, Debug, PartialEq, Eq, Structural)]
pub enum LibraryScope {
    /// User library scope.
    User(u64),
    /// Group library scope.
    Group(u64),
}

/// The API path prefix of a scope: `users/<id>` or `groups/<id>`.
pub open spec fn scope_prefix(scope: LibraryScope) -> Seq<char> {
    match scope {
        LibraryScope::User(id) => "users/"@ + decimal(id as nat),
        LibraryScope::Group(id) => "groups/"@ + decimal(id as nat),
    }
}

impl LibraryScope {
    /// Returns the API path prefix for the selected scope.
    pub fn path_prefix(self) -> (r: String)
        ensures
            r@ == scope_prefix(self),
    {
        match self {
            LibraryScope::User(id) => {
                let mut r = "users/".to_owned();
                let n = u64_to_string(id);
                r.append(n.as_str());
                r
            },
            LibraryScope::Group(id) => {
                let mut r = "groups/".to_owned();
                let n = u64_to_string(id);
                r.append(n.as_str());
                r
            },
        }
    }
}

} // verus!
