use zotero_rs::items::{creator_display_name, ItemCreator, JsonValue, ZoteroObject};

fn s(text: &str) -> JsonValue {
    JsonValue::String(text.to_owned())
}

fn obj(members: Vec<(&str, JsonValue)>) -> JsonValue {
    JsonValue::Object(members.into_iter().map(|(k, v)| (k.to_owned(), v)).collect())
}

fn creator(t: Option<&str>, first: Option<&str>, last: Option<&str>, name: Option<&str>) -> ItemCreator {
    ItemCreator {
        creator_type: t.map(str::to_owned),
        first_name: first.map(str::to_owned),
        last_name: last.map(str::to_owned),
        name: name.map(str::to_owned),
    }
}

#[test]
fn extracts_structured_fields_from_item_data() {
    let object = ZoteroObject {
        key: "ABCD1234".to_owned(),
        version: 42,
        data: obj(vec![
            ("itemType", s("journalArticle")),
            ("title", s("Typed metadata for Zotero")),
            ("url", s("https://example.com/paper")),
            ("abstractNote", s("A short abstract.")),
            (
                "creators",
                JsonValue::Array(vec![
                    obj(vec![
                        ("creatorType", s("author")),
                        ("firstName", s("Ada")),
                        ("lastName", s("Lovelace")),
                    ]),
                    obj(vec![("creatorType", s("author")), ("name", s("Grace Hopper"))]),
                    obj(vec![
                        ("creatorType", s("editor")),
                        ("firstName", s("Ed")),
                        ("lastName", s("Itor")),
                    ]),
                ]),
            ),
            ("DOI", s("10.0000/example")),
        ]),
    };

    let metadata = object.to_item_metadata();
    assert_eq!(metadata.key, "ABCD1234");
    assert_eq!(metadata.version, 42);
    assert_eq!(metadata.item_type.as_deref(), Some("journalArticle"));
    assert_eq!(metadata.title.as_deref(), Some("Typed metadata for Zotero"));
    assert_eq!(metadata.url.as_deref(), Some("https://example.com/paper"));
    assert_eq!(metadata.abstract_note.as_deref(), Some("A short abstract."));
    assert_eq!(metadata.authors, vec!["Ada Lovelace", "Grace Hopper"]);
    assert_eq!(metadata.creators.len(), 3);
    assert_eq!(
        metadata.raw_data.get("DOI").and_then(|v| v.as_str()),
        Some("10.0000/example")
    );
}

#[test]
fn handles_missing_fields_without_failing() {
    let object = ZoteroObject {
        key: "NOFIELDS".to_owned(),
        version: 1,
        data: obj(vec![]),
    };

    let metadata = object.to_item_metadata();
    assert_eq!(metadata.item_type, None);
    assert_eq!(metadata.title, None);
    assert_eq!(metadata.url, None);
    assert_eq!(metadata.abstract_note, None);
    assert!(metadata.authors.is_empty());
    assert!(metadata.creators.is_empty());
}

#[test]
fn non_string_fields_read_as_absent() {
    let object = ZoteroObject {
        key: "K".to_owned(),
        version: 7,
        data: obj(vec![
            ("title", JsonValue::Number("3".to_owned())),
            ("url", JsonValue::Null),
            ("creators", s("not an array")),
        ]),
    };
    let metadata = object.to_item_metadata();
    assert_eq!(metadata.title, None);
    assert_eq!(metadata.url, None);
    assert!(metadata.creators.is_empty());
}

#[test]
fn creators_keep_every_string_member() {
    let object = ZoteroObject {
        key: "K".to_owned(),
        version: 1,
        data: obj(vec![(
            "creators",
            JsonValue::Array(vec![
                obj(vec![("creatorType", s("author")), ("lastName", s("Solo"))]),
                JsonValue::Bool(true),
            ]),
        )]),
    };
    let metadata = object.to_item_metadata();
    assert_eq!(
        metadata.creators,
        vec![
            creator(Some("author"), None, Some("Solo"), None),
            creator(None, None, None, None),
        ]
    );
    assert_eq!(metadata.authors, vec!["Solo"]);
}

#[test]
fn display_name_prefers_non_empty_name() {
    assert_eq!(
        creator_display_name(&creator(None, Some("A"), Some("B"), Some("Full"))).as_deref(),
        Some("Full")
    );
    assert_eq!(
        creator_display_name(&creator(None, Some("A"), Some("B"), Some(""))).as_deref(),
        Some("A B")
    );
    assert_eq!(creator_display_name(&creator(None, Some("A"), None, None)).as_deref(), Some("A"));
    assert_eq!(creator_display_name(&creator(None, None, Some("B"), None)).as_deref(), Some("B"));
    assert_eq!(creator_display_name(&creator(None, None, None, Some(""))), None);
}

#[test]
fn authors_without_any_name_are_skipped() {
    let object = ZoteroObject {
        key: "K".to_owned(),
        version: 1,
        data: obj(vec![(
            "creators",
            JsonValue::Array(vec![
                obj(vec![("creatorType", s("author"))]),
                obj(vec![("creatorType", s("Author")), ("name", s("Case"))]),
                obj(vec![("creatorType", s("author")), ("name", s("Kept"))]),
            ]),
        )]),
    };
    assert_eq!(object.to_item_metadata().authors, vec!["Kept"]);
}

#[test]
fn get_finds_object_members_only() {
    let v = obj(vec![("a", s("1")), ("b", JsonValue::Null)]);
    assert_eq!(v.get("a").and_then(|x| x.as_str()), Some("1"));
    assert!(matches!(v.get("b"), Some(JsonValue::Null)));
    assert!(v.get("c").is_none());
    assert!(s("a").get("a").is_none());
    assert_eq!(s("x").as_str(), Some("x"));
    assert_eq!(JsonValue::Bool(false).as_str(), None);
}

#[test]
fn metadata_compares_by_value() {
    let object = ZoteroObject {
        key: "K".to_owned(),
        version: 3,
        data: obj(vec![("title", s("T"))]),
    };
    assert_eq!(object.to_item_metadata(), object.to_item_metadata());
    assert_eq!(object.to_item_metadata().raw_data, obj(vec![("title", s("T"))]));
}
