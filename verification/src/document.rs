//! The JSON document behind an identifier table, reduced to what the table
//! reads of it: whether the root is an object, its keys, and which of its
//! values are strings.

use vstd::prelude::*;

verus! {

/// The error type of `serde_json`, carried through without being read.
#[verifier::external_type_specification]
#[verifier::external_body]
pub struct ExJsonError(serde_json::Error);

/// One member of a JSON object: its key, and its value if that is a string.
#[derive(Debug, Clone, PartialEq, Eq)]
pub struct Member {
    pub key: String,
    /// `Some` with the string's content where the value is a JSON string,
    /// `None` for a value of any other kind.
    pub text: Option<String>,
}

/// Mathematical model of a [`Member`].
pub struct MemberSpec {
    pub key: Seq<char>,
    pub text: Option<Seq<char>>,
}

impl View for Member {
    type V = MemberSpec;

    open spec fn view(&self) -> MemberSpec {
        MemberSpec {
            key: self.key@,
            text: match self.text {
                Some(s) => Some(s@),
                None => None,
            },
        }
    }
}

/// A JSON document: an object with its members in the order in which they
/// were read, or a value of any other kind.
#[derive(Debug, Clone, PartialEq, Eq)]
pub enum Document {
    /// An object, with its members.
    Object(Vec<Member>),
    /// An array, a string, a number, a boolean or null.
    Other,
}

/// Mathematical model of a [`Document`].
pub enum DocumentSpec {
    Object(Seq<MemberSpec>),
    Other,
}

impl DocumentSpec {
    /// The members of an object, in order; none for any other document.
    pub open spec fn members(self) -> Seq<MemberSpec> {
        match self {
            DocumentSpec::Object(members) => members,
            DocumentSpec::Other => Seq::empty(),
        }
    }
}

/// The models of `members`, in order.
pub open spec fn member_views(members: Seq<Member>) -> Seq<MemberSpec> {
    Seq::new(members.len(), |i: int| members[i]@)
}

impl View for Document {
    type V = DocumentSpec;

    open spec fn view(&self) -> DocumentSpec {
        match self {
            Document::Object(members) => DocumentSpec::Object(member_views(members@)),
            Document::Other => DocumentSpec::Other,
        }
    }
}

/// What `serde_json` reads from `bytes`: `None` where they are not one JSON
/// value, else the document, an object's members in the order in which
/// `serde_json`'s map hands them out. The map is built to keep the order of
/// the text; of two members with one key it keeps the place of the first
/// and the value of the last.
pub uninterp spec fn json_reading(bytes: Seq<u8>) -> Option<DocumentSpec>;

/// Parses `bytes` with `serde_json::from_slice` into a `serde_json::Value` and
/// moves what it holds into a [`Document`]: the members of an object as the
/// map's iterator hands them out, the content of each value that is a
/// string, and the error as it is.
///
/// Trusted, not proved: the result is `serde_json`'s reading of `bytes`,
/// which depends on `bytes` alone, and an error comes back exactly where
/// `serde_json` reports one.
#[verifier::external_body]
pub(crate) fn read_json(bytes: &[u8]) -> (reading: Result<Document, serde_json::Error>)
    ensures
        match reading {
            Ok(document) => json_reading(bytes@) == Some(document@),
            Err(_) => json_reading(bytes@) is None,
        },
{
    match serde_json::from_slice::<serde_json::Value>(bytes) {
        Ok(serde_json::Value::Object(map)) => Ok(Document::Object(
            map.into_iter().map(|(key, value)| Member {
                key,
                text: match value {
                    serde_json::Value::String(s) => Some(s),
                    _ => None,
                },
            }).collect(),
        )),
        Ok(_) => Ok(Document::Other),
        Err(e) => Err(e),
    }
}

} // verus!
