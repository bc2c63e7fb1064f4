//! From the bytes of a JSON document to the generated source unit.

use vstd::prelude::*;
use crate::document::{json_reading, read_json, Document, DocumentSpec};
use crate::emit::{generate_source, source_text};
use crate::table::{build_table, conforms, entries_of, rejects, MalformedIdentifierTable};

verus! {

/// Whether `error` says why `reading`, what was read from some bytes, is not
/// an identifier table: `NotJson` where nothing was read, else what rejects
/// the document.
pub open spec fn refuses(reading: Option<DocumentSpec>, error: MalformedIdentifierTable) -> bool {
    match reading {
        Some(document) => rejects(document, error),
        None => error == MalformedIdentifierTable::NotJson,
    }
}

/// Reads `bytes` as a JSON document. Bytes that are not one JSON value are
/// rejected as `NotJson`.
pub fn read_document(bytes: &[u8]) -> (outcome: Result<Document, MalformedIdentifierTable>)
    ensures
        match outcome {
            Ok(document) => json_reading(bytes@) == Some(document@),
            Err(error) => json_reading(bytes@) is None && error
                == MalformedIdentifierTable::NotJson,
        },
{
    match read_json(bytes) {
        Ok(document) => Ok(document),
        Err(_) => Err(MalformedIdentifierTable::NotJson),
    }
}

/// Generates the source unit of the identifier table that `document` holds,
/// or says why it holds none.
pub fn document_source(document: &Document) -> (outcome: Result<String, MalformedIdentifierTable>)
    ensures
        outcome is Ok <==> conforms(document@),
        outcome matches Ok(source) ==> source@ == source_text(entries_of(document@.members())),
        forall|error: MalformedIdentifierTable|
            outcome.err() == Some(error) <==> #[trigger] rejects(document@, error),
{
    match build_table(document) {
        Ok(table) => Ok(generate_source(&table)),
        Err(error) => Err(error),
    }
}

/// Generates the source unit for the identifier table in `json_document`: the
/// marker of generated code, one constant for each member of the root object,
/// and the lookup function with one case for each member, all in the order
/// of the document. Anything but a conforming table is rejected, and nothing
/// is generated for it.
pub fn generate_identifier_source(json_document: &[u8]) -> (outcome: Result<
    String,
    MalformedIdentifierTable,
>)
    ensures
        outcome is Ok <==> (json_reading(json_document@) matches Some(document) && conforms(
            document,
        )),
        outcome matches Ok(source) ==> (json_reading(json_document@) matches Some(document)
            && source@ == source_text(entries_of(document.members()))),
        forall|error: MalformedIdentifierTable|
            outcome.err() == Some(error) <==> #[trigger] refuses(
                json_reading(json_document@),
                error,
            ),
{
    match read_document(json_document) {
        Ok(document) => document_source(&document),
        Err(error) => Err(error),
    }
}

} // verus!
