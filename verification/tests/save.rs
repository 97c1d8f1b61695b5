use profileit::save::{plan_merge, ArrayEdit, InlineEdit, JsonShape, TableEdit, TomlShape};

fn s(x: &str) -> String {
    x.to_string()
}

fn obj(entries: Vec<(&str, JsonShape)>) -> JsonShape {
    JsonShape::Object(entries.into_iter().map(|(k, v)| (s(k), v)).collect())
}

fn table(entries: Vec<(&str, TomlShape)>) -> Vec<(String, TomlShape)> {
    entries.into_iter().map(|(k, v)| (s(k), v)).collect()
}

fn inline(entries: Vec<(&str, TomlShape)>) -> TomlShape {
    TomlShape::Inline(table(entries))
}

/// `[site]` with `title` and `stale`; the new config keeps only `title`.
#[test]
fn plan_removes_keys_that_are_gone() {
    let existing = table(vec![(
        "site",
        TomlShape::Table(table(vec![("title", TomlShape::Scalar), ("stale", TomlShape::Scalar)])),
    )]);
    let config = obj(vec![("site", obj(vec![("title", JsonShape::Scalar)]))]);
    let edits = plan_merge(&existing, &config).expect("an object merges");
    assert_eq!(edits.len(), 1);
    match &edits[0] {
        TableEdit::Table { key, fresh, edits } => {
            assert_eq!(key, "site");
            assert!(!fresh);
            assert_eq!(edits.len(), 2);
            assert!(matches!(&edits[0], TableEdit::Remove(k) if k == "stale"));
            assert!(matches!(&edits[1], TableEdit::Assign(k) if k == "title"));
        }
        _ => panic!("the existing [site] table is merged into"),
    }
}

/// A `null` value removes its key rather than writing an empty string.
#[test]
fn plan_turns_null_into_removal() {
    let existing = table(vec![("title", TomlShape::Scalar), ("avatar", TomlShape::Scalar)]);
    let config = obj(vec![
        ("title", JsonShape::Scalar),
        ("avatar", JsonShape::Null),
        ("og_image", JsonShape::Null),
    ]);
    let edits = plan_merge(&existing, &config).unwrap();
    assert_eq!(edits.len(), 3);
    assert!(matches!(&edits[0], TableEdit::Assign(k) if k == "title"));
    assert!(matches!(&edits[1], TableEdit::Remove(k) if k == "avatar"));
    assert!(matches!(&edits[2], TableEdit::Remove(k) if k == "og_image"));
}

/// `name = { ko = "박", en = "Park" }` gets `{ en, ko }`: both values are
/// replaced where they stand, nothing is removed or appended.
#[test]
fn plan_keeps_inline_tables_in_place() {
    let existing = table(vec![("name", inline(vec![("ko", TomlShape::Scalar), ("en", TomlShape::Scalar)]))]);
    let config = obj(vec![("name", obj(vec![("en", JsonShape::Scalar), ("ko", JsonShape::Scalar)]))]);
    let edits = plan_merge(&existing, &config).unwrap();
    assert_eq!(edits.len(), 1);
    match &edits[0] {
        TableEdit::Inline { key, edits } => {
            assert_eq!(key, "name");
            assert_eq!(edits.len(), 2);
            assert!(matches!(&edits[0], InlineEdit::Replace(k) if k == "en"));
            assert!(matches!(&edits[1], InlineEdit::Replace(k) if k == "ko"));
        }
        _ => panic!("an inline table stays inline"),
    }
}

/// A new language goes at the end of the inline table; a `null` one is dropped.
#[test]
fn plan_appends_new_translations() {
    let existing = table(vec![("name", inline(vec![("ko", TomlShape::Scalar), ("en", TomlShape::Scalar)]))]);
    let config = obj(vec![(
        "name",
        obj(vec![("en", JsonShape::Null), ("ja", JsonShape::Scalar), ("ko", JsonShape::Scalar)]),
    )]);
    let edits = plan_merge(&existing, &config).unwrap();
    match &edits[0] {
        TableEdit::Inline { edits, .. } => {
            assert_eq!(edits.len(), 3);
            assert!(matches!(&edits[0], InlineEdit::Remove(k) if k == "en"));
            assert!(matches!(&edits[1], InlineEdit::Append(k) if k == "ja"));
            assert!(matches!(&edits[2], InlineEdit::Replace(k) if k == "ko"));
        }
        _ => panic!("an inline table stays inline"),
    }
}

/// `items = [ "Rust", { ko, en } ]` is updated element by element.
#[test]
fn plan_updates_arrays_element_by_element() {
    let existing = table(vec![(
        "items",
        TomlShape::Array(vec![TomlShape::Scalar, inline(vec![("ko", TomlShape::Scalar), ("en", TomlShape::Scalar)])]),
    )]);
    let config = obj(vec![(
        "items",
        JsonShape::Array(vec![
            JsonShape::Scalar,
            obj(vec![("en", JsonShape::Scalar), ("ko", JsonShape::Scalar)]),
            JsonShape::Scalar,
        ]),
    )]);
    let edits = plan_merge(&existing, &config).unwrap();
    match &edits[0] {
        TableEdit::Array { key, edits } => {
            assert_eq!(key, "items");
            assert_eq!(edits.len(), 3);
            assert!(matches!(&edits[0], ArrayEdit::Replace(0)));
            assert!(matches!(&edits[1], ArrayEdit::Inline(1, e) if e.len() == 2));
            assert!(matches!(&edits[2], ArrayEdit::Push(2)));
        }
        _ => panic!("an inline array is updated in place"),
    }
}

/// A shorter array is cut first.
#[test]
fn plan_cuts_shorter_arrays() {
    let existing = table(vec![("langs", TomlShape::Array(vec![TomlShape::Scalar, TomlShape::Scalar]))]);
    let config = obj(vec![("langs", JsonShape::Array(vec![JsonShape::Scalar]))]);
    let edits = plan_merge(&existing, &config).unwrap();
    match &edits[0] {
        TableEdit::Array { edits, .. } => {
            assert_eq!(edits.len(), 2);
            assert!(matches!(&edits[0], ArrayEdit::Truncate(1)));
            assert!(matches!(&edits[1], ArrayEdit::Replace(0)));
        }
        _ => panic!("an inline array is updated in place"),
    }
}

/// Two `[[sections]]` tables; the new config has three objects.
#[test]
fn plan_grows_arrays_of_tables() {
    let existing = table(vec![(
        "sections",
        TomlShape::Tables(vec![table(vec![("type", TomlShape::Scalar)]), table(vec![("type", TomlShape::Scalar)])]),
    )]);
    let section = || obj(vec![("type", JsonShape::Scalar)]);
    let config = obj(vec![("sections", JsonShape::Array(vec![section(), section(), section()]))]);
    let edits = plan_merge(&existing, &config).unwrap();
    match &edits[0] {
        TableEdit::Tables { key, fresh, items } => {
            assert_eq!(key, "sections");
            assert!(!fresh);
            assert_eq!(items.len(), 3);
            for plan in items {
                assert_eq!(plan.len(), 1);
                assert!(matches!(&plan[0], TableEdit::Assign(k) if k == "type"));
            }
        }
        _ => panic!("objects in an array become [[tables]]"),
    }
}

/// An array of objects where nothing was before starts a fresh `[[key]]`.
#[test]
fn plan_starts_fresh_tables() {
    let existing = table(vec![]);
    let config = obj(vec![("sections", JsonShape::Array(vec![obj(vec![("type", JsonShape::Scalar)])]))]);
    let edits = plan_merge(&existing, &config).unwrap();
    assert!(matches!(&edits[0], TableEdit::Tables { fresh: true, items, .. } if items.len() == 1));
}

/// A table where the file holds a scalar is written afresh; a new one too.
#[test]
fn plan_writes_fresh_tables_over_other_values() {
    let existing = table(vec![("theme", TomlShape::Scalar)]);
    let config = obj(vec![
        ("theme", obj(vec![("accent", JsonShape::Scalar)])),
        ("deploy", obj(vec![("branch", JsonShape::Scalar)])),
    ]);
    let edits = plan_merge(&existing, &config).unwrap();
    assert_eq!(edits.len(), 2);
    assert!(matches!(&edits[0], TableEdit::Table { key, fresh: true, edits } if key == "theme" && edits.len() == 1));
    assert!(matches!(&edits[1], TableEdit::Table { key, fresh: true, edits } if key == "deploy" && edits.len() == 1));
}

/// Only a table can be merged at the top.
#[test]
fn plan_refuses_a_config_that_is_not_a_table() {
    let existing = table(vec![("title", TomlShape::Scalar)]);
    assert!(plan_merge(&existing, &JsonShape::Scalar).is_none());
    assert!(plan_merge(&existing, &JsonShape::Array(vec![])).is_none());
    assert!(plan_merge(&existing, &JsonShape::Null).is_none());
}
