//! JSON payloads as plain values, the generic object envelope, and the
//! structured item metadata read from an item's `data`.

use vstd::prelude::*;
use vstd::string::*;

use crate::responses::opt_chars;
use crate::text::{chars_eq, chars_of};

verus! {

/// A JSON value. Numbers are kept as their JSON text; an object keeps its
/// members in order (a member is found by its first occurrence).
#[derive(Debug, PartialEq)]
pub enum JsonValue {
    Null,
    Bool(bool),
    Number(String),
    String(String),
    Array(Vec<JsonValue>),
    Object(Vec<(String, JsonValue)>),
}

/// The value of the first member named `key`.
pub open spec fn member_of(entries: Seq<(String, JsonValue)>, key: Seq<char>) -> Option<JsonValue>
    decreases entries.len(),
{
    if entries.len() == 0 {
        None
    } else if entries[0].0@ == key {
        Some(entries[0].1)
    } else {
        member_of(entries.drop_first(), key)
    }
}

/// `value.get(key)`: the member named `key` of an object; nothing for any
/// other kind of value.
pub open spec fn json_get(v: JsonValue, key: Seq<char>) -> Option<JsonValue> {
    match v {
        JsonValue::Object(entries) => member_of(entries@, key),
        _ => None,
    }
}

/// `value.get(key).and_then(Value::as_str)`: the member named `key` when it
/// is a string.
pub open spec fn json_str_member(v: JsonValue, key: Seq<char>) -> Option<Seq<char>> {
    match json_get(v, key) {
        Some(JsonValue::String(s)) => Some(s@),
        _ => None,
    }
}

impl JsonValue {
    /// The member named `key` of an object (`Value::get`).
    pub fn get(&self, key: &str) -> (r: Option<&JsonValue>)
        ensures
            match json_get(*self, key@) {
                Some(m) => r == Some(&m),
                None => r is None,
            },
    {
        match self {
            JsonValue::Object(entries) => {
                let k = chars_of(key);
                let mut i: usize = 0;
                assert(entries@.skip(0) =~= entries@);
                while i < entries.len()
                    invariant
                        i <= entries.len(),
                        *self == JsonValue::Object(*entries),
                        k@ == key@,
                        member_of(entries@, key@) == member_of(entries@.skip(i as int), key@),
                    decreases entries.len() - i,
                {
                    let name = chars_of(entries[i].0.as_str());
                    assert(entries@.skip(i as int)[0] == entries@[i as int]);
                    if chars_eq(&name, &k) {
                        assert(member_of(entries@.skip(i as int), key@) == Some(entries@[i as int].1));
                        return Some(&entries[i].1);
                    }
                    assert(entries@.skip(i as int).drop_first() =~= entries@.skip(i as int + 1));
                    i = i + 1;
                }
                None
            },
            _ => None,
        }
    }

    /// The text of a string value (`Value::as_str`).
    pub fn as_str(&self) -> (r: Option<&str>)
        ensures
            match *self {
                JsonValue::String(s) => r matches Some(t) && t@ == s@,
                _ => r is None,
            },
    {
        match self {
            JsonValue::String(s) => Some(s.as_str()),
            _ => None,
        }
    }
}

/// A JSON value as mathematics sees it: what a `JsonValue` holds, with texts
/// as character sequences.
pub enum JsonModel {
    Null,
    Bool(bool),
    Number(Seq<char>),
    Text(Seq<char>),
    Array(Seq<JsonModel>),
    Object(Seq<(Seq<char>, JsonModel)>),
}

/// What a JSON value holds.
pub open spec fn json_model(v: JsonValue) -> JsonModel
    decreases v, 0nat,
{
    match v {
        JsonValue::Null => JsonModel::Null,
        JsonValue::Bool(b) => JsonModel::Bool(b),
        JsonValue::Number(n) => JsonModel::Number(n@),
        JsonValue::String(s) => JsonModel::Text(s@),
        JsonValue::Array(items) => {
            proof { assert(decreases_to!(items => items@)); }
            JsonModel::Array(json_models(items@))
        },
        JsonValue::Object(entries) => {
            proof { assert(decreases_to!(entries => entries@)); }
            JsonModel::Object(member_models(entries@))
        },
    }
}

/// What a sequence of JSON values holds.
pub open spec fn json_models(s: Seq<JsonValue>) -> Seq<JsonModel>
    decreases s, 1nat,
{
    if s.len() == 0 {
        Seq::empty()
    } else {
        proof {
            assert(decreases_to!(s => s[s.len() - 1]));
            assert(decreases_to!(s => s.subrange(0, s.len() - 1)));
        }
        json_models(s.subrange(0, s.len() - 1)).push(json_model(s[s.len() - 1]))
    }
}

/// What a sequence of JSON object members holds.
pub open spec fn member_models(s: Seq<(String, JsonValue)>) -> Seq<(Seq<char>, JsonModel)>
    decreases s, 1nat,
{
    if s.len() == 0 {
        Seq::empty()
    } else {
        proof {
            assert(decreases_to!(s => s[s.len() - 1]));
            assert(decreases_to!(s => s.subrange(0, s.len() - 1)));
        }
        member_models(s.subrange(0, s.len() - 1)).push((s[s.len() - 1].0@, json_model(s[s.len() - 1].1)))
    }
}

/// A copy of a JSON value.
pub fn json_clone(v: &JsonValue) -> (r: JsonValue)
    ensures
        json_model(r) == json_model(*v),
    decreases *v,
{
    match v {
        JsonValue::Null => JsonValue::Null,
        JsonValue::Bool(b) => JsonValue::Bool(*b),
        JsonValue::Number(n) => JsonValue::Number(n.clone()),
        JsonValue::String(s) => JsonValue::String(s.clone()),
        JsonValue::Array(items) => {
            let mut out: Vec<JsonValue> = Vec::new();
            let mut i: usize = 0;
            assert(items@.subrange(0, 0) =~= Seq::<JsonValue>::empty());
            assert(out@ =~= Seq::<JsonValue>::empty());
            while i < items.len()
                invariant
                    i <= items.len(),
                    *v == JsonValue::Array(*items),
                    json_models(out@) == json_models(items@.subrange(0, i as int)),
                decreases items.len() - i,
            {
                assert(decreases_to!(*v => v->Array_0));
                assert(v->Array_0 == *items);
                assert(decreases_to!(*items => items[i as int]));
                assert(decreases_to!(*v => items[i as int]));
                let c = json_clone(&items[i]);
                let ghost before = out@;
                out.push(c);
                assert(out@.subrange(0, out@.len() - 1) =~= before);
                assert(items@.subrange(0, i as int + 1).subrange(0, i as int) =~= items@.subrange(0, i as int));
                assert(items@.subrange(0, i as int + 1)[i as int] == items@[i as int]);
                i = i + 1;
            }
            assert(items@.subrange(0, items.len() as int) =~= items@);
            JsonValue::Array(out)
        },
        JsonValue::Object(entries) => {
            let mut out: Vec<(String, JsonValue)> = Vec::new();
            let mut i: usize = 0;
            assert(entries@.subrange(0, 0) =~= Seq::<(String, JsonValue)>::empty());
            assert(out@ =~= Seq::<(String, JsonValue)>::empty());
            while i < entries.len()
                invariant
                    i <= entries.len(),
                    *v == JsonValue::Object(*entries),
                    member_models(out@) == member_models(entries@.subrange(0, i as int)),
                decreases entries.len() - i,
            {
                assert(decreases_to!(*v => v->Object_0));
                assert(v->Object_0 == *entries);
                assert(decreases_to!(*entries => entries[i as int]));
                assert(decreases_to!(entries[i as int] => entries[i as int].1));
                assert(decreases_to!(*v => entries[i as int].1));
                let c = json_clone(&entries[i].1);
                let ghost before = out@;
                out.push((entries[i].0.clone(), c));
                assert(out@.subrange(0, out@.len() - 1) =~= before);
                assert(entries@.subrange(0, i as int + 1).subrange(0, i as int) =~= entries@.subrange(0, i as int));
                assert(entries@.subrange(0, i as int + 1)[i as int] == entries@[i as int]);
                i = i + 1;
            }
            assert(entries@.subrange(0, entries.len() as int) =~= entries@);
            JsonValue::Object(out)
        },
    }
}

/// Generic object shape returned by many Zotero endpoints.
#[derive(Debug)]
pub struct ZoteroObject {
    /// Item/collection/search key.
    pub key: String,
    /// Server object version.
    pub version: u64,
    /// Resource payload.
    pub data: JsonValue,
}

/// A creator entry from Zotero item data.
#[derive(Clone, Debug, PartialEq, Eq)]
pub struct ItemCreator {
    /// Creator role (e.g., `author`, `editor`).
    pub creator_type: Option<String>,
    /// First name when present.
    pub first_name: Option<String>,
    /// Last name when present.
    pub last_name: Option<String>,
    /// Single-field name used by some creator entries.
    pub name: Option<String>,
}

/// Structured item metadata with common fields and full raw payload.
#[derive(Debug, PartialEq)]
pub struct ItemMetadata {
    /// Item key.
    pub key: String,
    /// Item version.
    pub version: u64,
    /// Zotero item type (e.g., `webpage`, `blogPost`).
    pub item_type: Option<String>,
    /// Item title.
    pub title: Option<String>,
    /// Item URL when available.
    pub url: Option<String>,
    /// Item abstract (`abstractNote`) when available.
    pub abstract_note: Option<String>,
    /// All creators attached to the item.
    pub creators: Vec<ItemCreator>,
    /// Author display names, extracted from creators with `creatorType=author`.
    pub authors: Vec<String>,
    /// Full raw Zotero `data` payload to preserve all metadata fields.
    pub raw_data: JsonValue,
}

/// Whether `c` holds the string members `creatorType`, `firstName`,
/// `lastName` and `name` of `v` (each absent when not a string).
pub open spec fn creator_read_from(c: ItemCreator, v: JsonValue) -> bool {
    &&& opt_chars(c.creator_type) == json_str_member(v, "creatorType"@)
    &&& opt_chars(c.first_name) == json_str_member(v, "firstName"@)
    &&& opt_chars(c.last_name) == json_str_member(v, "lastName"@)
    &&& opt_chars(c.name) == json_str_member(v, "name"@)
}

/// The entries of the `creators` member, when it is an array.
pub open spec fn creator_entries(data: JsonValue) -> Seq<JsonValue> {
    match json_get(data, "creators"@) {
        Some(JsonValue::Array(items)) => items@,
        _ => Seq::empty(),
    }
}

/// The name shown for a creator: a non-empty `name`; else first and last
/// name joined by a space, or whichever of them is present.
pub open spec fn display_name(c: ItemCreator) -> Option<Seq<char>> {
    if c.name matches Some(n) && n@.len() > 0 {
        Some(c.name->Some_0@)
    } else {
        match (c.first_name, c.last_name) {
            (Some(f), Some(l)) => Some(f@ + " "@ + l@),
            (Some(f), None) => Some(f@),
            (None, Some(l)) => Some(l@),
            (None, None) => None,
        }
    }
}

/// Whether a creator's role is `author`.
pub open spec fn is_author(c: ItemCreator) -> bool {
    opt_chars(c.creator_type) == Some("author"@)
}

/// The display names of the authors among `creators`, in order (authors
/// without any name are skipped).
pub open spec fn author_names(creators: Seq<ItemCreator>) -> Seq<Seq<char>>
    decreases creators.len(),
{
    if creators.len() == 0 {
        Seq::empty()
    } else {
        let rest = author_names(creators.drop_last());
        let c = creators.last();
        if is_author(c) && display_name(c) is Some {
            rest.push(display_name(c)->Some_0)
        } else {
            rest
        }
    }
}

/// Adding a creator to the list adds its display name to the authors
/// exactly when its role is `author` and it has a name; a creator of any
/// other role (editor, translator, ...) adds nothing.
pub proof fn lemma_author_names_step(cs: Seq<ItemCreator>, c: ItemCreator)
    ensures
        opt_chars(c.creator_type) != Some("author"@) ==> author_names(cs.push(c)) == author_names(cs),
        opt_chars(c.creator_type) == Some("author"@) ==> author_names(cs.push(c)) == match display_name(c) {
            Some(n) => author_names(cs).push(n),
            None => author_names(cs),
        },
{
    assert(cs.push(c).drop_last() =~= cs);
}

/// Only authors are named: every name among the authors is the display
/// name of a creator whose role is exactly `author`.
pub proof fn lemma_author_names_only_authors(cs: Seq<ItemCreator>)
    ensures
        forall|k: int| #![trigger author_names(cs)[k]] 0 <= k < author_names(cs).len() ==> exists|j: int|
            0 <= j < cs.len() && opt_chars(#[trigger] cs[j].creator_type) == Some("author"@)
                && display_name(cs[j]) == Some(author_names(cs)[k]),
    decreases cs.len(),
{
    if cs.len() > 0 {
        let init = cs.drop_last();
        let c = cs.last();
        lemma_author_names_only_authors(init);
        assert(init.push(c) =~= cs);
        lemma_author_names_step(init, c);
        assert forall|k: int| #![trigger author_names(cs)[k]] 0 <= k < author_names(cs).len() implies exists|j: int|
            0 <= j < cs.len() && opt_chars(#[trigger] cs[j].creator_type) == Some("author"@)
                && display_name(cs[j]) == Some(author_names(cs)[k]) by {
            if k < author_names(init).len() {
                assert(author_names(cs)[k] == author_names(init)[k]);
                let j = choose|j: int| 0 <= j < init.len() && opt_chars(#[trigger] init[j].creator_type) == Some("author"@)
                    && display_name(init[j]) == Some(author_names(init)[k]);
                assert(cs[j] == init[j]);
            } else {
                assert(cs[cs.len() - 1] == c);
            }
        }
    }
}

fn string_field(data: &JsonValue, field: &str) -> (r: Option<String>)
    ensures
        opt_chars(r) == json_str_member(*data, field@),
{
    match data.get(field) {
        Some(v) => match v.as_str() {
            Some(s) => Some(s.to_owned()),
            None => None,
        },
        None => None,
    }
}

fn creators_from_data(data: &JsonValue) -> (r: Vec<ItemCreator>)
    ensures
        r@.len() == creator_entries(*data).len(),
        forall|i: int| 0 <= i < r@.len() ==> creator_read_from(#[trigger] r@[i], creator_entries(*data)[i]),
{
    match data.get("creators") {
        Some(JsonValue::Array(items)) => {
            let mut out: Vec<ItemCreator> = Vec::new();
            let mut i: usize = 0;
            while i < items.len()
                invariant
                    i <= items.len(),
                    creator_entries(*data) == items@,
                    out@.len() == i,
                    forall|k: int| 0 <= k < i ==> creator_read_from(#[trigger] out@[k], items@[k]),
                decreases items.len() - i,
            {
                let e = &items[i];
                out.push(ItemCreator {
                    creator_type: string_field(e, "creatorType"),
                    first_name: string_field(e, "firstName"),
                    last_name: string_field(e, "lastName"),
                    name: string_field(e, "name"),
                });
                i = i + 1;
            }
            out
        },
        _ => Vec::new(),
    }
}

/// The name shown for a creator: a non-empty `name`; else first and last
/// name joined by a space, or whichever of them is present.
pub fn creator_display_name(creator: &ItemCreator) -> (r: Option<String>)
    ensures
        opt_chars(r) == display_name(*creator),
{
    if let Some(name) = &creator.name {
        if name.as_str().unicode_len() > 0 {
            return Some(name.clone());
        }
    }
    match (&creator.first_name, &creator.last_name) {
        (Some(first), Some(last)) => {
            let mut s = first.clone();
            s.append(" ");
            s.append(last.as_str());
            Some(s)
        },
        (Some(first), None) => Some(first.clone()),
        (None, Some(last)) => Some(last.clone()),
        (None, None) => None,
    }
}

fn authors_of(creators: &Vec<ItemCreator>) -> (r: Vec<String>)
    ensures
        r@.len() == author_names(creators@).len(),
        forall|i: int| 0 <= i < r@.len() ==> (#[trigger] r@[i])@ == author_names(creators@)[i],
{
    let mut out: Vec<String> = Vec::new();
    let mut i: usize = 0;
    assert(creators@.take(0) =~= Seq::<ItemCreator>::empty());
    while i < creators.len()
        invariant
            i <= creators.len(),
            out@.len() == author_names(creators@.take(i as int)).len(),
            forall|k: int| 0 <= k < out@.len() ==> (#[trigger] out@[k])@ == author_names(creators@.take(i as int))[k],
        decreases creators.len() - i,
    {
        let c = &creators[i];
        assert(creators@.take(i as int + 1).drop_last() =~= creators@.take(i as int));
        assert(creators@.take(i as int + 1).last() == *c);
        let is_author_role = match &c.creator_type {
            Some(t) => {
                let tc = chars_of(t.as_str());
                let author = chars_of("author");
                chars_eq(&tc, &author)
            },
            None => false,
        };
        if is_author_role {
            match creator_display_name(c) {
                Some(n) => out.push(n),
                None => {},
            }
        }
        i = i + 1;
    }
    assert(creators@.take(creators.len() as int) =~= creators@);
    out
}

/// Whether `m` is the structured metadata of `item`.
pub open spec fn metadata_of(m: ItemMetadata, item: ZoteroObject) -> bool {
    &&& m.key@ == item.key@
    &&& m.version == item.version
    &&& opt_chars(m.item_type) == json_str_member(item.data, "itemType"@)
    &&& opt_chars(m.title) == json_str_member(item.data, "title"@)
    &&& opt_chars(m.url) == json_str_member(item.data, "url"@)
    &&& opt_chars(m.abstract_note) == json_str_member(item.data, "abstractNote"@)
    &&& m.creators@.len() == creator_entries(item.data).len()
    &&& forall|i: int| 0 <= i < m.creators@.len() ==> creator_read_from(#[trigger] m.creators@[i], creator_entries(item.data)[i])
    &&& m.authors@.len() == author_names(m.creators@).len()
    &&& forall|i: int| 0 <= i < m.authors@.len() ==> (#[trigger] m.authors@[i])@ == author_names(m.creators@)[i]
    &&& json_model(m.raw_data) == json_model(item.data)
}

impl ZoteroObject {
    /// Converts the generic item payload into a structured metadata object:
    /// the common string fields of `data`, its creators, the display names
    /// of its authors, and the whole payload.
    pub fn to_item_metadata(&self) -> (m: ItemMetadata)
        ensures
            metadata_of(m, *self),
    {
        let creators = creators_from_data(&self.data);
        let authors = authors_of(&creators);
        ItemMetadata {
            key: self.key.clone(),
            version: self.version,
            item_type: string_field(&self.data, "itemType"),
            title: string_field(&self.data, "title"),
            url: string_field(&self.data, "url"),
            abstract_note: string_field(&self.data, "abstractNote"),
            creators,
            authors,
            raw_data: json_clone(&self.data),
        }
    }
}

} // verus!
