//! What holds of the library as a whole, stated over the spec functions and
//! views that its contracts use.

use crate::constraint::{all_blank, texts, Near, Phrase};
use crate::expr::{QExpr, QExprView};
use crate::term::Term;
use crate::text::is_blank_text;
use crate::validation::{
    lemma_first_failure_is_leftmost, lemma_no_failure_iff_all_ok, outcome, validate,
    ValidateError,
};
use vstd::prelude::*;

verus! {

/// A proximity constraint over at least two terms, not all of them blank, and
/// with a window above zero is not blank, whatever its order flag.
pub proof fn lemma_near_with_content_is_not_blank(terms: Vec<Term>, window: u32, ordered: bool)
    requires
        terms@.len() >= 2,
        !all_blank(texts(terms@)),
        window > 0,
    ensures
        !Near::new(terms, window, ordered).is_blank(),
{
}

/// A proximity constraint over fewer than two terms is blank, whatever its
/// window and order flag.
pub proof fn lemma_near_needs_two_terms(terms: Vec<Term>, window: u32, ordered: bool)
    requires
        terms@.len() < 2,
    ensures
        Near::new(terms, window, ordered).is_blank(),
{
}

/// A proximity constraint with a window of zero is blank, whatever its terms
/// and order flag.
pub proof fn lemma_near_needs_window(terms: Vec<Term>, ordered: bool)
    ensures
        Near::new(terms, 0, ordered).is_blank(),
{
}

/// A phrase is not blank exactly when one of its terms is not blank.
pub proof fn lemma_phrase_not_blank_iff_some_term(terms: Vec<Term>)
    ensures
        !Phrase::new(terms).is_blank() <==> exists|i: int|
            0 <= i < terms@.len() && !(#[trigger] terms@[i]).is_blank(),
{
    let p = Phrase::new(terms);
    if !p.is_blank() {
        let i = choose|i: int| 0 <= i < p@.len() && !is_blank_text(#[trigger] p@[i]);
        assert(!terms@[i].is_blank());
    }
    if exists|i: int| 0 <= i < terms@.len() && !(#[trigger] terms@[i]).is_blank() {
        let i = choose|i: int| 0 <= i < terms@.len() && !(#[trigger] terms@[i]).is_blank();
        assert(!is_blank_text(p@[i]));
    }
}

/// A junction without children fails as an empty junction.
pub proof fn lemma_empty_junction_fails()
    ensures
        outcome(QExprView::And(Seq::empty())) == Err::<(), ValidateError>(
            ValidateError::EmptyJunction,
        ),
        outcome(QExprView::Or(Seq::empty())) == Err::<(), ValidateError>(
            ValidateError::EmptyJunction,
        ),
{
}

/// The first failing child wins: where child `k` of a junction fails and no
/// child left of it does, the junction fails as that child does.
pub proof fn lemma_junction_fails_as_leftmost_failing_child(xs: Seq<QExprView>, k: int)
    requires
        0 <= k < xs.len(),
        outcome(xs[k]) is Err,
        forall|j: int| 0 <= j < k ==> outcome(#[trigger] xs[j]) is Ok,
    ensures
        outcome(QExprView::And(xs)) == outcome(xs[k]),
        outcome(QExprView::Or(xs)) == outcome(xs[k]),
{
    lemma_first_failure_is_leftmost(xs, k);
}

/// A junction with children succeeds exactly when all of them do.
pub proof fn lemma_junction_ok_iff_children_ok(xs: Seq<QExprView>)
    requires
        xs.len() > 0,
    ensures
        outcome(QExprView::And(xs)) is Ok <==> forall|j: int|
            0 <= j < xs.len() ==> outcome(#[trigger] xs[j]) is Ok,
        outcome(QExprView::Or(xs)) is Ok <==> forall|j: int|
            0 <= j < xs.len() ==> outcome(#[trigger] xs[j]) is Ok,
{
    lemma_no_failure_iff_all_ok(xs);
}

/// Conjunction and disjunction are judged alike: over the same children they
/// have the same outcome.
pub proof fn lemma_and_or_are_judged_alike(xs: Seq<QExprView>)
    ensures
        outcome(QExprView::And(xs)) == outcome(QExprView::Or(xs)),
{
}

/// A negation is judged by its child alone.
pub proof fn lemma_not_is_judged_by_child(x: QExprView)
    ensures
        outcome(QExprView::Not(Box::new(x))) == outcome(x),
{
}

/// The field name is checked before the child: under a blank name the node
/// fails as a blank field name whatever the child is, and under any other
/// name it is judged by its child.
pub proof fn lemma_field_name_is_checked_first(name: Seq<char>, x: QExprView)
    ensures
        is_blank_text(name) ==> outcome(QExprView::Field(name, Box::new(x))) == Err::<
            (),
            ValidateError,
        >(ValidateError::BlankFieldName),
        !is_blank_text(name) ==> outcome(QExprView::Field(name, Box::new(x))) == outcome(x),
{
}

/// Validation is repeatable: whatever `validate` returns for two expressions
/// of the same view, in particular for one expression twice, is the same.
pub proof fn lemma_validate_is_repeatable(
    a: &QExpr,
    b: &QExpr,
    ra: Result<(), ValidateError>,
    rb: Result<(), ValidateError>,
)
    requires
        a@ == b@,
        call_ensures(validate, (a,), ra),
        call_ensures(validate, (b,), rb),
    ensures
        ra == rb,
{
}

} // verus!
