//! The generated source unit: one constant for each entry of an identifier
//! table, then the function that finds the name of an identifier.

use vstd::prelude::*;
use crate::table::{EntrySpec, IdentifierEntry, IdentifierTable};
use crate::text::{decimal_text, push_decimal, string_views};

verus! {

broadcast use vstd::seq::Seq::lemma_flatten_push;

/// The Rust string literal that `quote` writes for `text`: `text` between
/// double quotes, with the characters escaped that a literal cannot hold as
/// they are.
pub uninterp spec fn string_literal(text: Seq<char>) -> Seq<char>;

/// The declaration of the constant for `entry`, on a line of its own.
pub open spec fn constant_text(entry: EntrySpec) -> Seq<char> {
    "pub const "@ + entry.name + ": u16 = "@ + decimal_text(entry.id as nat) + "u16;\n"@
}

/// The case of the lookup function that answers `id` with the string that
/// `literal` denotes, on a line of its own.
pub open spec fn arm_text(id: u16, literal: Seq<char>) -> Seq<char> {
    "        "@ + decimal_text(id as nat) + "u16 => Some("@ + literal + "),\n"@
}

/// The declarations for `entries`, one each, in order.
pub open spec fn constant_lines(entries: Seq<EntrySpec>) -> Seq<Seq<char>> {
    Seq::new(entries.len(), |i: int| constant_text(entries[i]))
}

/// The cases for `entries`, one each, in order.
pub open spec fn arm_lines(entries: Seq<EntrySpec>) -> Seq<Seq<char>> {
    Seq::new(entries.len(), |i: int| arm_text(entries[i].id, string_literal(entries[i].name)))
}

/// The source unit with the declarations `constants` and the cases `arms`:
/// the marker of generated code, the declarations, then the lookup function
/// with the cases in order and the default case after them.
pub open spec fn unit_text(constants: Seq<Seq<char>>, arms: Seq<Seq<char>>) -> Seq<char> {
    "// @generated\n"@ + constants.flatten()
        + "\npub fn command_id_to_str(id: u16) -> Option<&'static str> {\n    match id {\n"@
        + arms.flatten() + "        _ => None,\n    }\n}\n"@
}

/// The source unit generated for `entries`.
pub open spec fn source_text(entries: Seq<EntrySpec>) -> Seq<char> {
    unit_text(constant_lines(entries), arm_lines(entries))
}

/// Writes `text` as a Rust string literal: `quote::ToTokens::to_token_stream`
/// on the `str` gives a token stream of that one literal, and its `Display`
/// gives the text.
///
/// Trusted, not proved: the result is the literal that `quote` writes for
/// `text`, which depends on `text` alone.
#[verifier::external_body]
pub(crate) fn quote_string(text: &str) -> (literal: String)
    ensures
        literal@ == string_literal(text@),
{
    quote::ToTokens::to_token_stream(text).to_string()
}

/// The declaration of the constant for `entry`.
pub fn constant_declaration(entry: &IdentifierEntry) -> (line: String)
    ensures
        line@ == constant_text(entry@),
{
    let mut line = String::new();
    line.append("pub const ");
    line.append(entry.name.as_str());
    line.append(": u16 = ");
    push_decimal(&mut line, entry.id);
    line.append("u16;\n");
    line
}

/// The case of the lookup function that answers `id` with `literal`, a
/// string literal already written out.
pub fn lookup_arm_line(id: u16, literal: &str) -> (line: String)
    ensures
        line@ == arm_text(id, literal@),
{
    let mut line = String::new();
    line.append("        ");
    push_decimal(&mut line, id);
    line.append("u16 => Some(");
    line.append(literal);
    line.append("),\n");
    line
}

/// The case of the lookup function for `entry`: its identifier answered
/// with its name as a string literal.
pub fn lookup_arm(entry: &IdentifierEntry) -> (line: String)
    ensures
        line@ == arm_text(entry.id, string_literal(entry.name@)),
{
    let literal = quote_string(entry.name.as_str());
    lookup_arm_line(entry.id, literal.as_str())
}

/// Appends `lines` to `out`, in order.
fn push_lines(out: &mut String, lines: &Vec<String>)
    ensures
        final(out)@ == old(out)@ + string_views(lines@).flatten(),
{
    let ghost texts = string_views(lines@);
    let mut i: usize = 0;
    while i < lines.len()
        invariant
            i <= lines.len(),
            texts == string_views(lines@),
            out@ == old(out)@ + texts.take(i as int).flatten(),
        decreases lines.len() - i,
    {
        out.append(lines[i].as_str());
        assert(texts.take(i + 1) =~= texts.take(i as int).push(texts[i as int]));
        i += 1;
    }
    assert(texts.take(i as int) =~= texts);
}

/// Puts a source unit together from the declarations `constants` and the
/// cases `arms`, each a line already written out.
pub fn assemble_source(constants: &Vec<String>, arms: &Vec<String>) -> (source: String)
    ensures
        source@ == unit_text(string_views(constants@), string_views(arms@)),
{
    let mut source = String::new();
    source.append("// @generated\n");
    push_lines(&mut source, constants);
    source.append(
        "\npub fn command_id_to_str(id: u16) -> Option<&'static str> {\n    match id {\n",
    );
    push_lines(&mut source, arms);
    source.append("        _ => None,\n    }\n}\n");
    source
}

/// Generates the source unit for `table`: a constant for each entry, then the
/// lookup function with a case for each entry, both in the table's order.
pub fn generate_source(table: &IdentifierTable) -> (source: String)
    ensures
        source@ == source_text(table@),
{
    let mut constants: Vec<String> = Vec::new();
    let mut arms: Vec<String> = Vec::new();
    let mut i: usize = 0;
    while i < table.entries.len()
        invariant
            i <= table.entries.len(),
            constants@.len() == i,
            arms@.len() == i,
            forall|j: int| 0 <= j < i ==> (#[trigger] constants@[j])@ == constant_text(table@[j]),
            forall|j: int|
                0 <= j < i ==> (#[trigger] arms@[j])@ == arm_text(
                    table@[j].id,
                    string_literal(table@[j].name),
                ),
        decreases table.entries.len() - i,
    {
        let entry = &table.entries[i];
        constants.push(constant_declaration(entry));
        arms.push(lookup_arm(entry));
        i += 1;
    }
    assert(string_views(constants@) =~= constant_lines(table@));
    assert(string_views(arms@) =~= arm_lines(table@));
    assemble_source(&constants, &arms)
}

} // verus!
