use reliquary_codegen::locate::{locate, Filter};
use reliquary_codegen::pipeline::{schema_filter, SCHEMA_SUFFIX, TABLE_FILE};

fn names(list: &[&str]) -> Vec<String> {
    list.iter().map(|name| name.to_string()).collect()
}

#[test]
fn suffix_filter_keeps_names_with_the_ending() {
    let filter = Filter::Suffix(".proto".to_string());
    assert!(filter.accepts("a.proto"));
    assert!(filter.accepts(".proto"));
    assert!(filter.accepts("dir.proto.proto"));
    assert!(!filter.accepts("a.proto.bak"));
    assert!(!filter.accepts("a.prot"));
    assert!(!filter.accepts("proto"));
    assert!(!filter.accepts("a.PROTO"));
    assert!(!filter.accepts(""));
}

#[test]
fn name_filter_keeps_the_one_name() {
    let filter = Filter::Name("packetIds.json".to_string());
    assert!(filter.accepts("packetIds.json"));
    assert!(!filter.accepts("packetids.json"));
    assert!(!filter.accepts("xpacketIds.json"));
    assert!(!filter.accepts("packetIds.json5"));
    assert!(!filter.accepts("Ids.json"));
    assert!(!filter.accepts(""));
}

#[test]
fn empty_suffix_keeps_every_name() {
    let filter = Filter::Suffix(String::new());
    assert!(filter.accepts(""));
    assert!(filter.accepts("anything"));
}

#[test]
fn locate_keeps_the_listing_order() {
    let listing = names(&["z.proto", "readme.md", "a.proto", "m.proto", "a.proto.orig"]);
    assert_eq!(
        locate(&listing, &Filter::Suffix(".proto".to_string())),
        names(&["z.proto", "a.proto", "m.proto"])
    );
}

#[test]
fn locate_keeps_a_name_as_often_as_it_is_listed() {
    let listing = names(&["a.proto", "b.txt", "a.proto"]);
    assert_eq!(
        locate(&listing, &Filter::Suffix(".proto".to_string())),
        names(&["a.proto", "a.proto"])
    );
}

#[test]
fn locate_in_an_empty_listing_finds_nothing() {
    assert_eq!(locate(&names(&[]), &Filter::Suffix(".proto".to_string())), names(&[]));
}

#[test]
fn locate_finds_nothing_where_nothing_matches() {
    let listing = names(&["a.txt", "b.json"]);
    assert_eq!(locate(&listing, &Filter::Suffix(".proto".to_string())), names(&[]));
}

#[test]
fn locate_finds_the_table_file_by_name() {
    let listing = names(&["proto", "packetIds.json", "packetIds.json.bak"]);
    assert_eq!(
        locate(&listing, &Filter::Name(TABLE_FILE.to_string())),
        names(&["packetIds.json"])
    );
}

#[test]
fn schema_filter_keeps_schema_files() {
    assert_eq!(SCHEMA_SUFFIX, ".proto");
    assert_eq!(schema_filter(), Filter::Suffix(".proto".to_string()));
    assert!(schema_filter().accepts("Packet.proto"));
    assert!(!schema_filter().accepts("Packet.rs"));
}
