//! The primitive value types: a search term and a field name.

use crate::order::{compare_texts, text_order};
use crate::text::{is_blank_text, text_is_blank};
use core::cmp::Ordering;
use vstd::prelude::*;
use vstd::std_specs::cmp::{PartialEqSpecImpl, PartialOrdSpecImpl};

verus! {

/// A normalized term token.
///
/// Construction accepts any text; normalization and tokenization are the caller's policy.
#[derive(Debug, Eq, Hash, Ord)]
pub struct Term(pub String);

impl PartialEq for Term {
    /// Two terms are equal when their texts are.
    fn eq(&self, other: &Self) -> (r: bool) {
        self.0 == other.0
    }
}

impl PartialEqSpecImpl for Term {
    open spec fn obeys_eq_spec() -> bool {
        true
    }

    open spec fn eq_spec(&self, other: &Self) -> bool {
        self@ == other@
    }
}

impl PartialOrd for Term {
    /// Terms are ordered by their texts.
    fn partial_cmp(&self, other: &Self) -> (r: Option<Ordering>) {
        Some(compare_texts(self.0.as_str(), other.0.as_str()))
    }
}

impl PartialOrdSpecImpl for Term {
    open spec fn obeys_partial_cmp_spec() -> bool {
        true
    }

    open spec fn partial_cmp_spec(&self, other: &Self) -> Option<Ordering> {
        Some(text_order(self@, other@))
    }
}

impl View for Term {
    type V = Seq<char>;

    open spec fn view(&self) -> Seq<char> {
        self.0@
    }
}

impl Clone for Term {
    /// A copy with the same text.
    fn clone(&self) -> (r: Self)
        ensures
            r == *self,
    {
        Term(self.0.clone())
    }
}

impl Term {
    /// Create a term from anything that converts into a `String`. The term
    /// holds what the conversion gives, unchanged: nothing is trimmed, folded
    /// or rejected.
    pub fn new(s: impl Into<String>) -> (r: Self)
        ensures
            call_ensures(Into::<String>::into, (s,), r.0),
    {
        Term(s.into())
    }

    /// Blankness of the term, for use in contracts.
    pub open spec fn spec_is_blank(&self) -> bool {
        is_blank_text(self@)
    }

    /// Returns true if the term is empty or white space only.
    #[verifier::when_used_as_spec(spec_is_blank)]
    pub fn is_blank(&self) -> (r: bool)
        ensures
            r == is_blank_text(self@),
    {
        text_is_blank(self.0.as_str())
    }
}

/// A field name: the identifier of an index field, not search content.
#[derive(Debug, Eq, Hash, Ord)]
pub struct FieldName(pub String);

impl PartialEq for FieldName {
    /// Two field names are equal when their texts are.
    fn eq(&self, other: &Self) -> (r: bool) {
        self.0 == other.0
    }
}

impl PartialEqSpecImpl for FieldName {
    open spec fn obeys_eq_spec() -> bool {
        true
    }

    open spec fn eq_spec(&self, other: &Self) -> bool {
        self@ == other@
    }
}

impl PartialOrd for FieldName {
    /// Field names are ordered by their texts.
    fn partial_cmp(&self, other: &Self) -> (r: Option<Ordering>) {
        Some(compare_texts(self.0.as_str(), other.0.as_str()))
    }
}

impl PartialOrdSpecImpl for FieldName {
    open spec fn obeys_partial_cmp_spec() -> bool {
        true
    }

    open spec fn partial_cmp_spec(&self, other: &Self) -> Option<Ordering> {
        Some(text_order(self@, other@))
    }
}

impl View for FieldName {
    type V = Seq<char>;

    open spec fn view(&self) -> Seq<char> {
        self.0@
    }
}

impl Clone for FieldName {
    /// A copy with the same text.
    fn clone(&self) -> (r: Self)
        ensures
            r == *self,
    {
        FieldName(self.0.clone())
    }
}

impl FieldName {
    /// Create a field name from anything that converts into a `String`. The
    /// name holds what the conversion gives, unchanged.
    pub fn new(s: impl Into<String>) -> (r: Self)
        ensures
            call_ensures(Into::<String>::into, (s,), r.0),
    {
        FieldName(s.into())
    }

    /// Blankness of the field name, for use in contracts.
    pub open spec fn spec_is_blank(&self) -> bool {
        is_blank_text(self@)
    }

    /// Returns true if the field name is empty or white space only.
    #[verifier::when_used_as_spec(spec_is_blank)]
    pub fn is_blank(&self) -> (r: bool)
        ensures
            r == is_blank_text(self@),
    {
        text_is_blank(self.0.as_str())
    }
}

} // verus!
