//! The identifier table: command identifiers with their symbolic names, read
//! from the members of a JSON object.

use vstd::prelude::*;
use crate::document::{member_views, Document, DocumentSpec, MemberSpec};
use crate::text::{all_digits, characters, decimal_value, lemma_decimal_value_grows};

verus! {

/// One command identifier with its symbolic name.
#[derive(Debug, Clone, PartialEq, Eq)]
pub struct IdentifierEntry {
    pub id: u16,
    pub name: String,
}

/// Mathematical model of an [`IdentifierEntry`].
pub struct EntrySpec {
    pub id: u16,
    pub name: Seq<char>,
}

impl View for IdentifierEntry {
    type V = EntrySpec;

    open spec fn view(&self) -> EntrySpec {
        EntrySpec { id: self.id, name: self.name@ }
    }
}

/// The entries read from one document, in the document's order. Two entries
/// may share an identifier or a name.
#[derive(Debug, Clone, PartialEq, Eq)]
pub struct IdentifierTable {
    pub entries: Vec<IdentifierEntry>,
}

impl View for IdentifierTable {
    type V = Seq<EntrySpec>;

    open spec fn view(&self) -> Seq<EntrySpec> {
        Seq::new(self.entries@.len(), |i: int| self.entries@[i]@)
    }
}

/// Why a document is not an identifier table.
#[derive(Debug, Clone, Copy, PartialEq, Eq, Structural)]
pub enum MalformedIdentifierTable {
    /// The text is not one JSON value.
    NotJson,
    /// The document's root is not an object.
    RootNotObject,
    /// The key of the member at `index` is not a 16-bit unsigned decimal.
    UnparseableKey { index: usize },
    /// The value of the member at `index` is not a string.
    NonStringValue { index: usize },
}

/// The numeral of a key: the key without one leading plus sign.
pub open spec fn key_numeral(key: Seq<char>) -> Seq<char> {
    if key.len() > 0 && key[0] == '+' {
        key.drop_first()
    } else {
        key
    }
}

/// The identifier that `key` denotes: its numeral read as a decimal, where
/// that is one or more digits and at most 65535.
pub open spec fn key_id(key: Seq<char>) -> Option<u16> {
    let numeral = key_numeral(key);
    if numeral.len() > 0 && all_digits(numeral) && decimal_value(numeral) <= u16::MAX {
        Some(decimal_value(numeral) as u16)
    } else {
        None
    }
}

/// Whether `member` gives an entry: its key denotes an identifier and its
/// value is a string.
pub open spec fn well_formed(member: MemberSpec) -> bool {
    key_id(member.key) is Some && member.text is Some
}

/// The entry that a well-formed `member` gives.
pub open spec fn entry_of(member: MemberSpec) -> EntrySpec
    recommends
        well_formed(member),
{
    EntrySpec { id: key_id(member.key)->0, name: member.text->0 }
}

/// The entries that `members` give, one each, in order.
pub open spec fn entries_of(members: Seq<MemberSpec>) -> Seq<EntrySpec> {
    Seq::new(members.len(), |i: int| entry_of(members[i]))
}

/// Whether `document` is an identifier table: an object all of whose members
/// are well formed.
pub open spec fn conforms(document: DocumentSpec) -> bool {
    &&& document is Object
    &&& forall|i: int|
        0 <= i < document.members().len() ==> well_formed(#[trigger] document.members()[i])
}

/// Whether the member at `index` is the first of `members` that is not well
/// formed.
pub open spec fn first_defect(members: Seq<MemberSpec>, index: int) -> bool {
    &&& 0 <= index < members.len()
    &&& !well_formed(members[index])
    &&& forall|j: int| 0 <= j < index ==> well_formed(#[trigger] members[j])
}

/// Whether `error` says what is wrong with `document`. The members are
/// judged in order and the key before the value, so a document has at most
/// one such error, and none where it conforms.
pub open spec fn rejects(document: DocumentSpec, error: MalformedIdentifierTable) -> bool {
    match error {
        MalformedIdentifierTable::NotJson => false,
        MalformedIdentifierTable::RootNotObject => document is Other,
        MalformedIdentifierTable::UnparseableKey { index } => {
            &&& document is Object
            &&& first_defect(document.members(), index as int)
            &&& key_id(document.members()[index as int].key) is None
        },
        MalformedIdentifierTable::NonStringValue { index } => {
            &&& document is Object
            &&& first_defect(document.members(), index as int)
            &&& key_id(document.members()[index as int].key) is Some
        },
    }
}

/// Reads `key` as an identifier: an optional plus sign, then decimal digits,
/// nothing else, the number at most 65535.
pub fn parse_key(key: &str) -> (id: Option<u16>)
    ensures
        id == key_id(key@),
{
    let chars = characters(key);
    let start: usize = if chars.len() > 0 && chars[0] == '+' { 1 } else { 0 };
    let ghost numeral = key_numeral(key@);
    if start == chars.len() {
        return None;
    }
    let mut value: u32 = 0;
    let mut i: usize = start;
    while i < chars.len()
        invariant
            start <= i <= chars.len(),
            numeral == key_numeral(key@),
            numeral == chars@.subrange(start as int, chars.len() as int),
            all_digits(numeral.take(i - start)),
            value == decimal_value(numeral.take(i - start)),
            value <= u16::MAX,
        decreases chars.len() - i,
    {
        let c = chars[i];
        assert(numeral[i - start] == c);
        if c < '0' || c > '9' {
            return None;
        }
        let digit: u32 = c as u32 - '0' as u32;
        let ghost read = numeral.take(i - start + 1);
        assert(read.drop_last() == numeral.take(i - start));
        value = value * 10 + digit;
        if value > 65535 {
            proof {
                if all_digits(numeral) {
                    lemma_decimal_value_grows(numeral, i - start + 1);
                }
            }
            return None;
        }
        i += 1;
    }
    assert(numeral.take(i - start) == numeral);
    Some(value as u16)
}

/// Builds the identifier table of `document`: one entry for each member, in
/// the document's order, none skipped and none defaulted. A document that
/// does not conform is rejected with its first defect.
pub fn build_table(document: &Document) -> (outcome: Result<
    IdentifierTable,
    MalformedIdentifierTable,
>)
    ensures
        outcome is Ok <==> conforms(document@),
        outcome matches Ok(table) ==> table@ == entries_of(document@.members()),
        forall|error: MalformedIdentifierTable|
            outcome.err() == Some(error) <==> #[trigger] rejects(document@, error),
{
    let members = match document {
        Document::Object(members) => members,
        Document::Other => {
            return Err(MalformedIdentifierTable::RootNotObject);
        },
    };
    let ghost models = member_views(members@);
    let mut entries: Vec<IdentifierEntry> = Vec::new();
    let mut i: usize = 0;
    while i < members.len()
        invariant
            i <= members.len(),
            models == member_views(members@),
            document@ is Object,
            document@.members() == models,
            entries@.len() == i,
            forall|j: int| 0 <= j < i ==> well_formed(#[trigger] models[j]),
            forall|j: int| 0 <= j < i ==> (#[trigger] entries@[j])@ == entry_of(models[j]),
        decreases members.len() - i,
    {
        let member = &members[i];
        assert(models[i as int] == member@);
        let id = match parse_key(member.key.as_str()) {
            Some(id) => id,
            None => {
                return Err(MalformedIdentifierTable::UnparseableKey { index: i });
            },
        };
        let name = match &member.text {
            Some(text) => text.clone(),
            None => {
                return Err(MalformedIdentifierTable::NonStringValue { index: i });
            },
        };
        entries.push(IdentifierEntry { id, name });
        i += 1;
    }
    let table = IdentifierTable { entries };
    Ok(table)
}

/// A conforming document gives one entry for each member, in the members'
/// order: none is skipped, and each entry holds what its member's key
/// denotes and what its member's value says.
pub proof fn lemma_one_entry_per_member(document: DocumentSpec)
    requires
        conforms(document),
    ensures
        entries_of(document.members()).len() == document.members().len(),
        forall|i: int|
            0 <= i < document.members().len() ==> {
                let member = document.members()[i];
                let entry = #[trigger] entries_of(document.members())[i];
                key_id(member.key) == Some(entry.id) && member.text == Some(entry.name)
            },
{
}

/// Among members of which one is not well formed up to `bound`, one is the
/// first such.
proof fn lemma_first_defect_exists(members: Seq<MemberSpec>, bound: int)
    requires
        0 <= bound < members.len(),
        !well_formed(members[bound]),
    ensures
        exists|index: int| 0 <= index <= bound && first_defect(members, index),
    decreases bound,
{
    if exists|j: int| 0 <= j < bound && !well_formed(#[trigger] members[j]) {
        let j = choose|j: int| 0 <= j < bound && !well_formed(#[trigger] members[j]);
        lemma_first_defect_exists(members, j);
    } else {
        assert(first_defect(members, bound));
    }
}

/// Every document is answered in exactly one way: either it conforms and no
/// error rejects it, or it does not and exactly one error rejects it. So the
/// same document is always answered alike. (An error counts members in
/// `usize`, so one exists for a document whose members can be counted so.)
pub proof fn lemma_one_answer(document: DocumentSpec)
    ensures
        conforms(document) ==> forall|error: MalformedIdentifierTable|
            !#[trigger] rejects(document, error),
        !conforms(document) && document.members().len() <= usize::MAX ==> exists|
            error: MalformedIdentifierTable,
        | #[trigger] rejects(document, error),
        forall|a: MalformedIdentifierTable, b: MalformedIdentifierTable|
            #[trigger] rejects(document, a) && #[trigger] rejects(document, b) ==> a == b,
{
    let members = document.members();
    if document is Other {
        assert(rejects(document, MalformedIdentifierTable::RootNotObject));
    } else if !conforms(document) && members.len() <= usize::MAX {
        let bad = choose|i: int| 0 <= i < members.len() && !well_formed(#[trigger] members[i]);
        lemma_first_defect_exists(members, bad);
        let first = choose|index: int| 0 <= index <= bad && first_defect(members, index);
        let index = first as usize;
        if key_id(members[first].key) is None {
            assert(rejects(document, MalformedIdentifierTable::UnparseableKey { index }));
        } else {
            assert(rejects(document, MalformedIdentifierTable::NonStringValue { index }));
        }
    }
}

} // verus!
