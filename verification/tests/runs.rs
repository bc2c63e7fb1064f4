use reliquary_codegen::pipeline::{
    advance, begin, refusal_of, Action, Event, Failure, Stage, Step, BINDINGS_DIRECTORY,
    SCHEMA_DIRECTORY, SOURCE_FILE, TABLE_FILE,
};
use reliquary_codegen::table::MalformedIdentifierTable;

fn names(list: &[&str]) -> Vec<String> {
    list.iter().map(|name| name.to_string()).collect()
}

fn reading_table() -> Stage {
    let (stage, _) = advance(begin(), Event::Invoked { arguments: 2 });
    let (stage, _) = advance(stage, Event::Listed(names(&["a.proto"])));
    let (stage, action) = advance(stage, Event::Compiled);
    assert_eq!(action, Action::ReadTable);
    stage
}

#[test]
fn layout_of_inputs_and_outputs() {
    assert_eq!(SCHEMA_DIRECTORY, "proto");
    assert_eq!(TABLE_FILE, "packetIds.json");
    assert_eq!(BINDINGS_DIRECTORY, "src/network/command/proto");
    assert_eq!(SOURCE_FILE, "src/network/command/command_id.rs");
}

#[test]
fn a_run_begins_by_waiting_for_its_invocation() {
    assert_eq!(begin(), Stage::Waiting(Step::Invocation));
}

#[test]
fn a_full_run_takes_each_step_once() {
    let (stage, action) = advance(begin(), Event::Invoked { arguments: 2 });
    assert_eq!((stage, action), (Stage::Waiting(Step::SchemaListing), Action::ListSchemas));

    let listing = names(&["b.proto", "notes.txt", "a.proto"]);
    let (stage, action) = advance(stage, Event::Listed(listing));
    assert_eq!(stage, Stage::Waiting(Step::SchemaCompilation));
    assert_eq!(action, Action::CompileSchemas(names(&["b.proto", "a.proto"])));

    let (stage, action) = advance(stage, Event::Compiled);
    assert_eq!((stage, action), (Stage::Waiting(Step::TableReading), Action::ReadTable));

    let (stage, action) = advance(stage, Event::TableRead(b"{\"1\":\"A\"}".to_vec()));
    assert_eq!(stage, Stage::Waiting(Step::SourceWriting));
    assert_eq!(
        action,
        Action::WriteSource(
            "// @generated\npub const A: u16 = 1u16;\n\npub fn command_id_to_str(id: u16) -> Option<&'static str> {\n    match id {\n        1u16 => Some(\"A\"),\n        _ => None,\n    }\n}\n"
                .to_string()
        )
    );

    let (stage, action) = advance(stage, Event::Written);
    assert_eq!((stage, action), (Stage::Waiting(Step::SourceFormatting), Action::FormatSource));

    let (stage, action) = advance(stage, Event::Formatted);
    assert_eq!((stage, action), (Stage::Succeeded, Action::Succeed));
}

#[test]
fn more_than_two_arguments_are_accepted() {
    let (stage, action) = advance(begin(), Event::Invoked { arguments: 5 });
    assert_eq!((stage, action), (Stage::Waiting(Step::SchemaListing), Action::ListSchemas));
}

#[test]
fn fewer_than_two_arguments_are_a_usage_failure() {
    for arguments in [0usize, 1] {
        let (stage, action) = advance(begin(), Event::Invoked { arguments });
        assert_eq!(stage, Stage::Failed(Failure::Usage));
        assert_eq!(action, Action::Fail(Failure::Usage));
    }
}

#[test]
fn an_empty_schema_set_is_compiled_without_failure() {
    let (stage, _) = advance(begin(), Event::Invoked { arguments: 2 });
    let (stage, action) = advance(stage, Event::Listed(names(&["readme.md"])));
    assert_eq!(stage, Stage::Waiting(Step::SchemaCompilation));
    assert_eq!(action, Action::CompileSchemas(names(&[])));
    let (stage, action) = advance(stage, Event::Compiled);
    assert_eq!((stage, action), (Stage::Waiting(Step::TableReading), Action::ReadTable));
}

#[test]
fn an_unreadable_schema_directory_ends_the_run() {
    let (stage, _) = advance(begin(), Event::Invoked { arguments: 2 });
    let (stage, action) = advance(stage, Event::Refused);
    assert_eq!(stage, Stage::Failed(Failure::DirectoryUnreadable));
    assert_eq!(action, Action::Fail(Failure::DirectoryUnreadable));
}

#[test]
fn a_failed_compilation_ends_the_run() {
    let (stage, _) = advance(begin(), Event::Invoked { arguments: 2 });
    let (stage, _) = advance(stage, Event::Listed(names(&["a.proto"])));
    let (stage, action) = advance(stage, Event::Refused);
    assert_eq!(stage, Stage::Failed(Failure::SchemaCompilation));
    assert_eq!(action, Action::Fail(Failure::SchemaCompilation));
}

#[test]
fn a_missing_table_file_ends_the_run() {
    let (stage, action) = advance(reading_table(), Event::Refused);
    assert_eq!(stage, Stage::Failed(Failure::DirectoryUnreadable));
    assert_eq!(action, Action::Fail(Failure::DirectoryUnreadable));
}

#[test]
fn a_malformed_table_ends_the_run_with_nothing_to_write() {
    let cases: [(&[u8], MalformedIdentifierTable); 4] = [
        (b"[]", MalformedIdentifierTable::RootNotObject),
        (b"{\"abc\":\"A\"}", MalformedIdentifierTable::UnparseableKey { index: 0 }),
        (b"{\"1\":2}", MalformedIdentifierTable::NonStringValue { index: 0 }),
        (b"{", MalformedIdentifierTable::NotJson),
    ];
    for (bytes, error) in cases {
        let (stage, action) = advance(reading_table(), Event::TableRead(bytes.to_vec()));
        assert_eq!(stage, Stage::Failed(Failure::MalformedIdentifierTable(error)));
        assert_eq!(action, Action::Fail(Failure::MalformedIdentifierTable(error)));
        let (stage, action) = advance(stage, Event::Written);
        assert_eq!(stage, Stage::Failed(Failure::MalformedIdentifierTable(error)));
        assert_eq!(action, Action::Fail(Failure::MalformedIdentifierTable(error)));
    }
}

#[test]
fn a_failed_write_ends_the_run() {
    let (stage, _) = advance(reading_table(), Event::TableRead(b"{}".to_vec()));
    let (stage, action) = advance(stage, Event::Refused);
    assert_eq!(stage, Stage::Failed(Failure::Write));
    assert_eq!(action, Action::Fail(Failure::Write));
}

#[test]
fn a_failed_formatter_fails_the_run_and_asks_for_no_undoing() {
    let (stage, _) = advance(reading_table(), Event::TableRead(b"{}".to_vec()));
    let (stage, _) = advance(stage, Event::Written);
    let (stage, action) = advance(stage, Event::Refused);
    assert_eq!(stage, Stage::Failed(Failure::Formatter));
    assert_eq!(action, Action::Fail(Failure::Formatter));
}

#[test]
fn an_event_that_answers_another_step_counts_as_a_refusal() {
    let (stage, action) = advance(begin(), Event::Compiled);
    assert_eq!((stage, action), (Stage::Failed(Failure::Usage), Action::Fail(Failure::Usage)));

    let (stage, _) = advance(begin(), Event::Invoked { arguments: 2 });
    let (stage, action) = advance(stage, Event::Written);
    assert_eq!(stage, Stage::Failed(Failure::DirectoryUnreadable));
    assert_eq!(action, Action::Fail(Failure::DirectoryUnreadable));

    let (stage, action) = advance(reading_table(), Event::Listed(names(&["a.proto"])));
    assert_eq!(stage, Stage::Failed(Failure::DirectoryUnreadable));
    assert_eq!(action, Action::Fail(Failure::DirectoryUnreadable));
}

#[test]
fn an_ended_run_stays_as_it_ended() {
    let events = [
        Event::Invoked { arguments: 2 },
        Event::Listed(names(&["a.proto"])),
        Event::Compiled,
        Event::TableRead(b"{}".to_vec()),
        Event::Written,
        Event::Formatted,
        Event::Refused,
    ];
    for event in events {
        assert_eq!(advance(Stage::Succeeded, event.clone()), (Stage::Succeeded, Action::Succeed));
        assert_eq!(
            advance(Stage::Failed(Failure::Write), event),
            (Stage::Failed(Failure::Write), Action::Fail(Failure::Write))
        );
    }
}

#[test]
fn each_step_has_its_failure() {
    assert_eq!(refusal_of(Step::Invocation), Failure::Usage);
    assert_eq!(refusal_of(Step::SchemaListing), Failure::DirectoryUnreadable);
    assert_eq!(refusal_of(Step::SchemaCompilation), Failure::SchemaCompilation);
    assert_eq!(refusal_of(Step::TableReading), Failure::DirectoryUnreadable);
    assert_eq!(refusal_of(Step::SourceWriting), Failure::Write);
    assert_eq!(refusal_of(Step::SourceFormatting), Failure::Formatter);
}
