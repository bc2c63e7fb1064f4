//! Picking input files out of a directory listing.

use vstd::prelude::*;
use crate::text::{characters, ends_with, has_suffix, string_views};

verus! {

/// Which file names an input locator keeps.
#[derive(Debug, Clone, PartialEq, Eq)]
pub enum Filter {
    /// Names that end with this suffix, such as `.proto`.
    Suffix(String),
    /// The one file of this name, such as `packetIds.json`.
    Name(String),
}

/// Mathematical model of a [`Filter`].
pub enum FilterSpec {
    Suffix(Seq<char>),
    Name(Seq<char>),
}

impl FilterSpec {
    /// Whether the filter keeps the file called `name`.
    pub open spec fn accepts(self, name: Seq<char>) -> bool {
        match self {
            FilterSpec::Suffix(suffix) => has_suffix(name, suffix),
            FilterSpec::Name(expected) => name == expected,
        }
    }

    /// The filter as a predicate on names.
    pub open spec fn predicate(self) -> spec_fn(Seq<char>) -> bool {
        |name: Seq<char>| self.accepts(name)
    }
}

impl View for Filter {
    type V = FilterSpec;

    open spec fn view(&self) -> FilterSpec {
        match self {
            Filter::Suffix(suffix) => FilterSpec::Suffix(suffix@),
            Filter::Name(expected) => FilterSpec::Name(expected@),
        }
    }
}

impl Filter {
    /// Whether the filter keeps the file called `name`.
    pub fn accepts(&self, name: &str) -> (kept: bool)
        ensures
            kept == self@.accepts(name@),
    {
        let chars = characters(name);
        match self {
            Filter::Suffix(suffix) => {
                let wanted = characters(suffix.as_str());
                ends_with(&chars, &wanted)
            },
            Filter::Name(expected) => {
                let wanted = characters(expected.as_str());
                let same = chars.len() == wanted.len() && ends_with(&chars, &wanted);
                assert(same == (name@ == expected@)) by {
                    if chars.len() == wanted.len() {
                        assert(chars@.subrange(0, chars@.len() as int) == chars@);
                    }
                }
                same
            },
        }
    }
}

/// The names of `listing` that `filter` keeps, each as often as the listing
/// holds it and in the listing's order.
pub fn locate(listing: &Vec<String>, filter: &Filter) -> (found: Vec<String>)
    ensures
        string_views(found@) == string_views(listing@).filter(filter@.predicate()),
{
    let ghost names = string_views(listing@);
    let mut found: Vec<String> = Vec::new();
    let mut i: usize = 0;
    while i < listing.len()
        invariant
            i <= listing.len(),
            names == string_views(listing@),
            string_views(found@) == names.take(i as int).filter(filter@.predicate()),
        decreases listing.len() - i,
    {
        let name = &listing[i];
        proof {
            reveal(Seq::filter);
            assert(names.take(i + 1).drop_last() =~= names.take(i as int));
        }
        if filter.accepts(name.as_str()) {
            found.push(name.clone());
        }
        i += 1;
    }
    assert(names.take(i as int) =~= names);
    found
}

} // verus!
