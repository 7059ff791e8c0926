//! The composite constraints: a phrase and a proximity constraint.

use crate::term::Term;
use crate::text::is_blank_text;
use vstd::prelude::*;
use vstd::std_specs::cmp::PartialEqSpecImpl;

verus! {

/// The texts of a sequence of terms, in order.
pub open spec fn texts(terms: Seq<Term>) -> Seq<Seq<char>> {
    Seq::new(terms.len(), |i: int| terms[i]@)
}

/// Every text of the sequence is blank. This holds of the empty sequence.
pub open spec fn all_blank(terms: Seq<Seq<char>>) -> bool {
    forall|i: int| 0 <= i < terms.len() ==> is_blank_text(#[trigger] terms[i])
}

/// A phrase is blank when it has no term, or none that is not blank.
pub open spec fn phrase_is_blank(terms: Seq<Seq<char>>) -> bool {
    terms.len() == 0 || all_blank(terms)
}

/// Whether every term of `terms` is blank. Stops at the first one that is not.
fn all_terms_blank(terms: &Vec<Term>) -> (r: bool)
    ensures
        r == all_blank(texts(terms@)),
{
    let mut i: usize = 0;
    while i < terms.len()
        invariant
            i <= terms.len(),
            forall|j: int| 0 <= j < i ==> is_blank_text(#[trigger] texts(terms@)[j]),
        decreases terms.len() - i,
    {
        if !terms[i].is_blank() {
            assert(!is_blank_text(texts(terms@)[i as int]));
            return false;
        }
        i += 1;
    }
    true
}

/// Whether `a` and `b` hold the same texts in the same order.
fn same_terms(a: &Vec<Term>, b: &Vec<Term>) -> (r: bool)
    ensures
        r == (texts(a@) == texts(b@)),
{
    if a.len() != b.len() {
        assert(texts(a@).len() != texts(b@).len());
        return false;
    }
    let mut i: usize = 0;
    while i < a.len()
        invariant
            i <= a.len(),
            a.len() == b.len(),
            forall|j: int| 0 <= j < i ==> texts(a@)[j] == texts(b@)[j],
        decreases a.len() - i,
    {
        if a[i] != b[i] {
            assert(texts(a@)[i as int] != texts(b@)[i as int]);
            return false;
        }
        i += 1;
    }
    assert(texts(a@) =~= texts(b@));
    true
}

/// A phrase of ordered terms.
#[derive(Debug, Eq, Hash)]
pub struct Phrase {
    /// Ordered terms.
    pub terms: Vec<Term>,
}

impl View for Phrase {
    type V = Seq<Seq<char>>;

    open spec fn view(&self) -> Seq<Seq<char>> {
        texts(self.terms@)
    }
}

impl PartialEq for Phrase {
    /// Two phrases are equal when they hold the same texts in the same order.
    fn eq(&self, other: &Self) -> (r: bool) {
        same_terms(&self.terms, &other.terms)
    }
}

impl PartialEqSpecImpl for Phrase {
    open spec fn obeys_eq_spec() -> bool {
        true
    }

    open spec fn eq_spec(&self, other: &Self) -> bool {
        self@ == other@
    }
}

impl Clone for Phrase {
    /// A copy with the same terms in the same order.
    fn clone(&self) -> (r: Self)
        ensures
            r@ == self@,
    {
        Phrase { terms: self.terms.clone() }
    }
}

impl Phrase {
    /// The phrase that `new` builds.
    pub open spec fn spec_new(terms: Vec<Term>) -> Self {
        Phrase { terms }
    }

    /// Create a phrase. Any sequence of terms is accepted and kept as it is.
    #[verifier::when_used_as_spec(spec_new)]
    pub fn new(terms: Vec<Term>) -> (r: Self)
        ensures
            r == (Phrase { terms }),
    {
        Phrase { terms }
    }

    /// Blankness of the phrase, for use in contracts.
    pub open spec fn spec_is_blank(&self) -> bool {
        phrase_is_blank(self@)
    }

    /// Returns true if the phrase has no terms, or all its terms are blank.
    #[verifier::when_used_as_spec(spec_is_blank)]
    pub fn is_blank(&self) -> (r: bool)
        ensures
            r == phrase_is_blank(self@),
    {
        self.terms.is_empty() || all_terms_blank(&self.terms)
    }
}

/// What a proximity constraint says: the texts of its terms, the window and the
/// order flag.
pub struct NearView {
    /// The texts of the terms, in order.
    pub terms: Seq<Seq<char>>,
    /// The window, in tokens.
    pub window: nat,
    /// Whether the order of the terms is to be kept.
    pub ordered: bool,
}

impl NearView {
    /// A proximity constraint is blank when it has fewer than two terms, none
    /// that is not blank, or a window of zero.
    pub open spec fn is_blank(self) -> bool {
        self.terms.len() < 2 || all_blank(self.terms) || self.window == 0
    }
}

/// A proximity constraint: the terms must occur within `window` tokens of each
/// other, in the order given if `ordered` is set.
#[derive(Debug, Eq, Hash)]
pub struct Near {
    /// Terms taking part in the constraint.
    pub terms: Vec<Term>,
    /// Window size in tokens: the greatest distance between the first and the
    /// last position of an occurrence.
    pub window: u32,
    /// Whether the positions must follow the order of `terms`.
    pub ordered: bool,
}

impl View for Near {
    type V = NearView;

    open spec fn view(&self) -> NearView {
        NearView { terms: texts(self.terms@), window: self.window as nat, ordered: self.ordered }
    }
}

impl PartialEq for Near {
    /// Two constraints are equal when their texts, windows and order flags are.
    fn eq(&self, other: &Self) -> (r: bool) {
        same_terms(&self.terms, &other.terms) && self.window == other.window && self.ordered
            == other.ordered
    }
}

impl PartialEqSpecImpl for Near {
    open spec fn obeys_eq_spec() -> bool {
        true
    }

    open spec fn eq_spec(&self, other: &Self) -> bool {
        self@ == other@
    }
}

impl Clone for Near {
    /// A copy with the same terms, window and order flag.
    fn clone(&self) -> (r: Self)
        ensures
            r@ == self@,
    {
        Near { terms: self.terms.clone(), window: self.window, ordered: self.ordered }
    }
}

impl Near {
    /// The constraint that `new` builds.
    pub open spec fn spec_new(terms: Vec<Term>, window: u32, ordered: bool) -> Self {
        Near { terms, window, ordered }
    }

    /// Create a proximity constraint. Any values are accepted and kept as they are.
    #[verifier::when_used_as_spec(spec_new)]
    pub fn new(terms: Vec<Term>, window: u32, ordered: bool) -> (r: Self)
        ensures
            r == (Near { terms, window, ordered }),
    {
        Near { terms, window, ordered }
    }

    /// Blankness of the constraint, for use in contracts.
    pub open spec fn spec_is_blank(&self) -> bool {
        self@.is_blank()
    }

    /// Returns true if the constraint is structurally blank.
    #[verifier::when_used_as_spec(spec_is_blank)]
    pub fn is_blank(&self) -> (r: bool)
        ensures
            r == self@.is_blank(),
    {
        self.terms.len() < 2 || all_terms_blank(&self.terms) || self.window == 0
    }
}

} // verus!
