use reliquary_codegen::document::{Document, Member};
use reliquary_codegen::table::{
    build_table, IdentifierEntry, IdentifierTable, MalformedIdentifierTable,
};

fn member(key: &str, text: Option<&str>) -> Member {
    Member { key: key.to_string(), text: text.map(|s| s.to_string()) }
}

fn entry(id: u16, name: &str) -> IdentifierEntry {
    IdentifierEntry { id, name: name.to_string() }
}

#[test]
fn build_table_gives_one_entry_for_each_member_in_order() {
    let document = Document::Object(vec![
        member("3", Some("C")),
        member("1", Some("A")),
        member("2", Some("B")),
    ]);
    assert_eq!(
        build_table(&document),
        Ok(IdentifierTable { entries: vec![entry(3, "C"), entry(1, "A"), entry(2, "B")] })
    );
}

#[test]
fn build_table_of_the_empty_object_is_empty() {
    assert_eq!(build_table(&Document::Object(vec![])), Ok(IdentifierTable { entries: vec![] }));
}

#[test]
fn build_table_covers_the_whole_range_of_identifiers() {
    let document = Document::Object(vec![member("0", Some("Zero")), member("65535", Some("Max"))]);
    assert_eq!(
        build_table(&document),
        Ok(IdentifierTable { entries: vec![entry(0, "Zero"), entry(65535, "Max")] })
    );
}

#[test]
fn build_table_keeps_entries_that_share_an_identifier() {
    let document = Document::Object(vec![
        member("1", Some("A")),
        member("01", Some("B")),
        member("+1", Some("C")),
    ]);
    assert_eq!(
        build_table(&document),
        Ok(IdentifierTable { entries: vec![entry(1, "A"), entry(1, "B"), entry(1, "C")] })
    );
}

#[test]
fn build_table_keeps_names_as_they_are() {
    let document = Document::Object(vec![member("1", Some("")), member("2", Some("not an ident"))]);
    assert_eq!(
        build_table(&document),
        Ok(IdentifierTable { entries: vec![entry(1, ""), entry(2, "not an ident")] })
    );
}

#[test]
fn build_table_rejects_a_root_that_is_no_object() {
    assert_eq!(build_table(&Document::Other), Err(MalformedIdentifierTable::RootNotObject));
}

#[test]
fn build_table_rejects_a_key_that_is_no_identifier() {
    let document = Document::Object(vec![member("1", Some("A")), member("abc", Some("B"))]);
    assert_eq!(
        build_table(&document),
        Err(MalformedIdentifierTable::UnparseableKey { index: 1 })
    );
    let document = Document::Object(vec![member("65536", Some("A"))]);
    assert_eq!(
        build_table(&document),
        Err(MalformedIdentifierTable::UnparseableKey { index: 0 })
    );
}

#[test]
fn build_table_rejects_a_value_that_is_no_string() {
    let document = Document::Object(vec![
        member("1", Some("A")),
        member("2", Some("B")),
        member("3", None),
    ]);
    assert_eq!(
        build_table(&document),
        Err(MalformedIdentifierTable::NonStringValue { index: 2 })
    );
}

#[test]
fn build_table_reports_the_first_defect() {
    let document = Document::Object(vec![
        member("1", Some("A")),
        member("2", None),
        member("x", Some("B")),
    ]);
    assert_eq!(
        build_table(&document),
        Err(MalformedIdentifierTable::NonStringValue { index: 1 })
    );
    let document = Document::Object(vec![
        member("x", Some("A")),
        member("2", None),
    ]);
    assert_eq!(
        build_table(&document),
        Err(MalformedIdentifierTable::UnparseableKey { index: 0 })
    );
}

#[test]
fn build_table_judges_the_key_before_the_value() {
    let document = Document::Object(vec![member("x", None)]);
    assert_eq!(
        build_table(&document),
        Err(MalformedIdentifierTable::UnparseableKey { index: 0 })
    );
}
