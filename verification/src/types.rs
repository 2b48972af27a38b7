//! Shared response types: tags, deleted keys and collection bodies.

use vstd::prelude::*;

use crate::items::JsonValue;

verus! {

/// Tag entry returned by `tags` endpoints.
#[derive(Clone, Debug)]
pub struct Tag {
    /// Tag text.
    pub tag: String,
    /// Tag type identifier (the JSON member `type`).
    pub tag_type: i32,
}

/// Deleted keys grouped by type.
#[derive(Clone, Debug)]
pub struct DeletedResponse {
    /// Collection keys.
    pub collections: Vec<String>,
    /// Search keys.
    pub searches: Vec<String>,
    /// Item keys.
    pub items: Vec<String>,
    /// Tag keys.
    pub tags: Vec<String>,
    /// Settings keys.
    pub settings: Vec<String>,
}

/// Body for creating/updating collections: the members of `data` are the
/// members of the body.
#[derive(Debug)]
pub struct CollectionInput {
    /// Resource payload sent to Zotero.
    pub data: JsonValue,
}

} // verus!
