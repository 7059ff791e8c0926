//! Structural validation of an expression.
//!
//! `validate` walks an expression depth first and from left to right and
//! returns the first violation it meets. What that result is, for every tree,
//! is said by `outcome`; on which trees it is `Ok` is said by `well_formed`.

use crate::constraint::phrase_is_blank;
use crate::expr::{lemma_trees, QExpr, QExprView};
use crate::text::is_blank_text;
use vstd::prelude::*;

verus! {

/// The structural rule that an expression breaks. No position in the tree is
/// recorded: the error says that a violation exists, not where.
#[derive(Debug, PartialEq, Eq, Structural)]
pub enum ValidateError {
    /// A `Term` node holds a blank term.
    BlankTerm,
    /// A `Phrase` node holds no usable term.
    BlankPhrase,
    /// A `Near` node holds fewer than two terms, no usable term, or a window of zero.
    BlankNear,
    /// An `And` or `Or` node has no children.
    EmptyJunction,
    /// A `Field` node has a blank field name.
    BlankFieldName,
}

impl Clone for ValidateError {
    /// The same error.
    fn clone(&self) -> (r: Self)
        ensures
            r == *self,
    {
        match self {
            ValidateError::BlankTerm => ValidateError::BlankTerm,
            ValidateError::BlankPhrase => ValidateError::BlankPhrase,
            ValidateError::BlankNear => ValidateError::BlankNear,
            ValidateError::EmptyJunction => ValidateError::EmptyJunction,
            ValidateError::BlankFieldName => ValidateError::BlankFieldName,
        }
    }
}

/// An expression is well formed when every node of it keeps its own rule: no
/// term, phrase, proximity constraint or field name is blank, and no junction
/// is without children.
pub open spec fn well_formed(e: QExprView) -> bool
    decreases e,
{
    match e {
        QExprView::Term(t) => !is_blank_text(t),
        QExprView::Phrase(p) => !phrase_is_blank(p),
        QExprView::Near(n) => !n.is_blank(),
        QExprView::And(xs) => xs.len() > 0 && forall|i: int|
            0 <= i < xs.len() ==> well_formed(#[trigger] xs[i]),
        QExprView::Or(xs) => xs.len() > 0 && forall|i: int|
            0 <= i < xs.len() ==> well_formed(#[trigger] xs[i]),
        QExprView::Not(x) => well_formed(*x),
        QExprView::Field(name, x) => !is_blank_text(name) && well_formed(*x),
    }
}

/// The result of validating an expression: the first violation that a walk
/// meets which goes depth first and from left to right, or `Ok` if there is
/// none. Conjunction and disjunction are judged alike.
pub open spec fn outcome(e: QExprView) -> Result<(), ValidateError>
    decreases e,
{
    match e {
        QExprView::Term(t) => if is_blank_text(t) {
            Err(ValidateError::BlankTerm)
        } else {
            Ok(())
        },
        QExprView::Phrase(p) => if phrase_is_blank(p) {
            Err(ValidateError::BlankPhrase)
        } else {
            Ok(())
        },
        QExprView::Near(n) => if n.is_blank() {
            Err(ValidateError::BlankNear)
        } else {
            Ok(())
        },
        QExprView::And(xs) => if xs.len() == 0 {
            Err(ValidateError::EmptyJunction)
        } else {
            first_failure(xs)
        },
        QExprView::Or(xs) => if xs.len() == 0 {
            Err(ValidateError::EmptyJunction)
        } else {
            first_failure(xs)
        },
        QExprView::Not(x) => outcome(*x),
        QExprView::Field(name, x) => if is_blank_text(name) {
            Err(ValidateError::BlankFieldName)
        } else {
            outcome(*x)
        },
    }
}

/// The outcome of the leftmost expression of `xs` that fails, or `Ok` if none fails.
pub open spec fn first_failure(xs: Seq<QExprView>) -> Result<(), ValidateError>
    decreases xs,
{
    if xs.len() == 0 {
        Ok(())
    } else if outcome(xs[0]) is Err {
        outcome(xs[0])
    } else {
        first_failure(xs.drop_first())
    }
}

/// The leftmost failure decides: where `xs[k]` fails and nothing before it
/// does, the first failure of `xs` is that of `xs[k]`.
pub proof fn lemma_first_failure_is_leftmost(xs: Seq<QExprView>, k: int)
    requires
        0 <= k < xs.len(),
        outcome(xs[k]) is Err,
        forall|j: int| 0 <= j < k ==> outcome(#[trigger] xs[j]) is Ok,
    ensures
        first_failure(xs) == outcome(xs[k]),
    decreases k,
{
    if k > 0 {
        let rest = xs.drop_first();
        assert(outcome(xs[0]) is Ok);
        assert(rest[k - 1] == xs[k]);
        assert forall|j: int| 0 <= j < k - 1 implies outcome(#[trigger] rest[j]) is Ok by {
            assert(rest[j] == xs[j + 1]);
        }
        lemma_first_failure_is_leftmost(rest, k - 1);
    }
}

/// There is no first failure exactly when no expression of `xs` fails.
pub proof fn lemma_no_failure_iff_all_ok(xs: Seq<QExprView>)
    ensures
        first_failure(xs) is Ok <==> forall|j: int|
            0 <= j < xs.len() ==> outcome(#[trigger] xs[j]) is Ok,
    decreases xs.len(),
{
    if xs.len() > 0 {
        let rest = xs.drop_first();
        lemma_no_failure_iff_all_ok(rest);
        if first_failure(xs) is Ok {
            assert forall|j: int| 0 <= j < xs.len() implies outcome(#[trigger] xs[j]) is Ok by {
                if j > 0 {
                    assert(rest[j - 1] == xs[j]);
                }
            }
        }
        if forall|j: int| 0 <= j < xs.len() ==> outcome(#[trigger] xs[j]) is Ok {
            assert forall|j: int| 0 <= j < rest.len() implies outcome(#[trigger] rest[j]) is Ok by {
                assert(rest[j] == xs[j + 1]);
            }
        }
    }
}

/// Validation succeeds exactly on the well-formed expressions.
pub proof fn lemma_ok_iff_well_formed(e: QExprView)
    ensures
        outcome(e) is Ok <==> well_formed(e),
    decreases e,
{
    match e {
        QExprView::And(xs) => {
            lemma_no_failure_iff_all_well_formed(xs);
        },
        QExprView::Or(xs) => {
            lemma_no_failure_iff_all_well_formed(xs);
        },
        QExprView::Not(x) => {
            lemma_ok_iff_well_formed(*x);
        },
        QExprView::Field(_, x) => {
            lemma_ok_iff_well_formed(*x);
        },
        _ => {},
    }
}

/// There is no first failure exactly when every expression of `xs` is well formed.
proof fn lemma_no_failure_iff_all_well_formed(xs: Seq<QExprView>)
    ensures
        first_failure(xs) is Ok <==> forall|i: int|
            0 <= i < xs.len() ==> well_formed(#[trigger] xs[i]),
    decreases xs,
{
    lemma_no_failure_iff_all_ok(xs);
    assert forall|i: int| 0 <= i < xs.len() implies (outcome(#[trigger] xs[i]) is Ok
        <==> well_formed(xs[i])) by {
        lemma_ok_iff_well_formed(xs[i]);
    }
}

/// Validate a query expression for its structural invariants.
///
/// The walk goes depth first and from left to right and stops at the first
/// violation: a blank term, phrase, proximity constraint or field name, or a
/// junction without children. A field's name is checked before its child.
/// Nothing is checked against an index or a schema.
pub fn validate(expr: &QExpr) -> (r: Result<(), ValidateError>)
    ensures
        r == outcome(expr@),
        r is Ok <==> well_formed(expr@),
    decreases expr,
{
    proof {
        lemma_ok_iff_well_formed(expr@);
    }
    match expr {
        QExpr::Term(t) => {
            if t.is_blank() {
                Err(ValidateError::BlankTerm)
            } else {
                Ok(())
            }
        },
        QExpr::Phrase(p) => {
            if p.is_blank() {
                Err(ValidateError::BlankPhrase)
            } else {
                Ok(())
            }
        },
        QExpr::Near(n) => {
            if n.is_blank() {
                Err(ValidateError::BlankNear)
            } else {
                Ok(())
            }
        },
        QExpr::And(xs) | QExpr::Or(xs) => {
            proof {
                lemma_trees(xs@);
            }
            if xs.is_empty() {
                return Err(ValidateError::EmptyJunction);
            }
            validate_children(xs)
        },
        QExpr::Not(x) => validate(x),
        QExpr::Field(name, inner) => {
            if name.is_blank() {
                return Err(ValidateError::BlankFieldName);
            }
            validate(inner)
        },
    }
}

/// Validate the children of a junction in order, up to the first that fails.
fn validate_children(xs: &Vec<QExpr>) -> (r: Result<(), ValidateError>)
    ensures
        r == first_failure(QExpr::trees(xs@)),
    decreases xs,
{
    let ghost children = QExpr::trees(xs@);
    proof {
        lemma_trees(xs@);
    }
    let mut i: usize = 0;
    while i < xs.len()
        invariant
            i <= xs.len(),
            children == QExpr::trees(xs@),
            children.len() == xs.len(),
            forall|j: int| 0 <= j < xs.len() ==> (#[trigger] children[j]) == xs@[j]@,
            forall|j: int| 0 <= j < i ==> outcome(#[trigger] children[j]) is Ok,
        decreases xs.len() - i,
    {
        let r = validate(&xs[i]);
        if r.is_err() {
            proof {
                lemma_first_failure_is_leftmost(children, i as int);
            }
            return r;
        }
        i += 1;
    }
    proof {
        lemma_no_failure_iff_all_ok(children);
        assert(first_failure(children)->Ok_0 == ());
    }
    Ok(())
}

} // verus!
