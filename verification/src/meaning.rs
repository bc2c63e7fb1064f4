//! What a generated source unit means, read as the table it was written
//! from: which case the lookup function takes, which constant a name finds,
//! and the laws that tie both to the lines of the unit.

use vstd::prelude::*;
use crate::emit::{
    arm_lines, arm_text, constant_lines, constant_text, source_text, string_literal, unit_text,
};
use crate::table::EntrySpec;
use crate::text::{all_digits, decimal_text, decimal_value, lemma_decimal_text_value};

verus! {

/// Whether no two of `entries` share an identifier.
pub open spec fn distinct_ids(entries: Seq<EntrySpec>) -> bool {
    forall|i: int, j: int|
        0 <= i < j < entries.len() ==> (#[trigger] entries[i]).id != (#[trigger] entries[j]).id
}

/// Whether no two of `entries` share a name.
pub open spec fn distinct_names(entries: Seq<EntrySpec>) -> bool {
    forall|i: int, j: int|
        0 <= i < j < entries.len() ==> (#[trigger] entries[i]).name != (
        #[trigger] entries[j]).name
}

/// Whether the case at `index` is the one that the lookup function takes for
/// `id`: the cases are tried in order, so it is the first whose pattern is
/// `id`.
pub open spec fn takes_case(entries: Seq<EntrySpec>, id: u16, index: int) -> bool {
    &&& 0 <= index < entries.len()
    &&& entries[index].id == id
    &&& forall|j: int| 0 <= j < index ==> (#[trigger] entries[j]).id != id
}

/// What the lookup function generated for `entries` answers for `id`: the
/// name of the case it takes, or nothing where only the default case is left.
pub open spec fn lookup_result(entries: Seq<EntrySpec>, id: u16) -> Option<Seq<char>> {
    if exists|index: int| takes_case(entries, id, index) {
        Some(entries[choose|index: int| takes_case(entries, id, index)].name)
    } else {
        None
    }
}

/// Whether the constant declared at `index` is the only one named `name`.
pub open spec fn declares(entries: Seq<EntrySpec>, name: Seq<char>, index: int) -> bool {
    &&& 0 <= index < entries.len()
    &&& entries[index].name == name
    &&& forall|j: int|
        0 <= j < entries.len() && j != index ==> (#[trigger] entries[j]).name != name
}

/// The value of the constant that the unit generated for `entries` declares
/// under `name`, where it declares exactly one.
pub open spec fn constant_value(entries: Seq<EntrySpec>, name: Seq<char>) -> Option<u16> {
    if exists|index: int| declares(entries, name, index) {
        Some(entries[choose|index: int| declares(entries, name, index)].id)
    } else {
        None
    }
}

/// The unit generated for a table of N entries holds exactly N constant
/// declarations and, in its lookup function, exactly N cases before the one
/// default case: the line at each place is the one written for the entry at
/// that place.
pub proof fn lemma_one_line_per_entry(entries: Seq<EntrySpec>)
    ensures
        source_text(entries) == unit_text(constant_lines(entries), arm_lines(entries)),
        constant_lines(entries).len() == entries.len(),
        arm_lines(entries).len() == entries.len(),
        forall|i: int|
            0 <= i < entries.len() ==> #[trigger] constant_lines(entries)[i] == constant_text(
                entries[i],
            ),
        forall|i: int|
            0 <= i < entries.len() ==> #[trigger] arm_lines(entries)[i] == arm_text(
                entries[i].id,
                string_literal(entries[i].name),
            ),
{
}

/// The numeral written for an identifier, in a declaration and in a case,
/// denotes that identifier.
pub proof fn lemma_numeral_denotes_id(id: u16)
    ensures
        all_digits(decimal_text(id as nat)),
        decimal_value(decimal_text(id as nat)) == id,
{
    lemma_decimal_text_value(id as nat);
}

/// The lookup function answers an identifier with the name of the first
/// entry that has it, whatever entries follow: of two entries with one
/// identifier the earlier wins.
pub proof fn lemma_first_case_wins(entries: Seq<EntrySpec>, id: u16, index: int)
    requires
        takes_case(entries, id, index),
    ensures
        lookup_result(entries, id) == Some(entries[index].name),
{
}

/// Round trip through the lookup function: where no two entries share an
/// identifier, the function answers the identifier of each entry with that
/// entry's name. The case it takes is the one written for the entry, whose
/// pattern is the numeral of the identifier and whose answer is the literal
/// of the name.
pub proof fn lemma_lookup_round_trip(entries: Seq<EntrySpec>, index: int)
    requires
        distinct_ids(entries),
        0 <= index < entries.len(),
    ensures
        takes_case(entries, entries[index].id, index),
        lookup_result(entries, entries[index].id) == Some(entries[index].name),
        arm_lines(entries)[index] == arm_text(
            entries[index].id,
            string_literal(entries[index].name),
        ),
        decimal_value(decimal_text(entries[index].id as nat)) == entries[index].id,
{
    lemma_first_case_wins(entries, entries[index].id, index);
    lemma_numeral_denotes_id(entries[index].id);
}

/// Round trip through the constants: where no two entries share a name, the
/// constant named after each entry has that entry's identifier for its
/// value. Its declaration is the one written for the entry, whose numeral
/// denotes the identifier.
pub proof fn lemma_constant_round_trip(entries: Seq<EntrySpec>, index: int)
    requires
        distinct_names(entries),
        0 <= index < entries.len(),
    ensures
        declares(entries, entries[index].name, index),
        constant_value(entries, entries[index].name) == Some(entries[index].id),
        constant_lines(entries)[index] == constant_text(entries[index]),
        decimal_value(decimal_text(entries[index].id as nat)) == entries[index].id,
{
    lemma_numeral_denotes_id(entries[index].id);
}

/// The lookup function answers nothing exactly for the identifiers that no
/// entry has.
pub proof fn lemma_absent_id(entries: Seq<EntrySpec>, id: u16)
    ensures
        lookup_result(entries, id) is None <==> forall|i: int|
            0 <= i < entries.len() ==> (#[trigger] entries[i]).id != id,
{
    if exists|i: int| 0 <= i < entries.len() && (#[trigger] entries[i]).id == id {
        let i = choose|i: int| 0 <= i < entries.len() && (#[trigger] entries[i]).id == id;
        lemma_some_case_is_taken(entries, id, i);
    }
}

/// Where some entry up to `bound` has `id`, the lookup function takes a case
/// for `id`.
proof fn lemma_some_case_is_taken(entries: Seq<EntrySpec>, id: u16, bound: int)
    requires
        0 <= bound < entries.len(),
        entries[bound].id == id,
    ensures
        exists|index: int| takes_case(entries, id, index),
    decreases bound,
{
    if exists|j: int| 0 <= j < bound && (#[trigger] entries[j]).id == id {
        let j = choose|j: int| 0 <= j < bound && (#[trigger] entries[j]).id == id;
        lemma_some_case_is_taken(entries, id, j);
    } else {
        assert(takes_case(entries, id, bound));
    }
}

} // verus!
