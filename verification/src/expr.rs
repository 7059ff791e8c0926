//! The expression tree and its mathematical view.

use crate::constraint::{Near, NearView, Phrase};
use crate::term::{FieldName, Term};
use vstd::prelude::*;
use vstd::std_specs::cmp::PartialEqSpecImpl;

verus! {

/// A query expression for retrieval: a strict tree, each node owning its children.
#[derive(Debug, Eq, Hash)]
pub enum QExpr {
    /// A single term.
    Term(Term),
    /// A phrase: the terms in this order.
    Phrase(Phrase),
    /// A proximity constraint: the terms within a window.
    Near(Near),
    /// Conjunction: all children must match.
    And(Vec<QExpr>),
    /// Disjunction: any child may match.
    Or(Vec<QExpr>),
    /// Negation: exclude the matches of the inner expression.
    Not(Box<QExpr>),
    /// Field scoping: the inner expression is evaluated within the named field.
    Field(FieldName, Box<QExpr>),
}

/// What an expression says: the same tree over texts and sequences.
pub enum QExprView {
    /// A term, by its text.
    Term(Seq<char>),
    /// A phrase, by the texts of its terms.
    Phrase(Seq<Seq<char>>),
    /// A proximity constraint.
    Near(NearView),
    /// A conjunction, by its children from the left.
    And(Seq<QExprView>),
    /// A disjunction, by its children from the left.
    Or(Seq<QExprView>),
    /// A negation, by its child.
    Not(Box<QExprView>),
    /// A field scope, by the text of the name and the child.
    Field(Seq<char>, Box<QExprView>),
}

impl QExpr {
    /// The views of a sequence of expressions, in order.
    pub open spec fn trees(xs: Seq<QExpr>) -> Seq<QExprView>
        decreases xs,
    {
        Seq::new(
            xs.len(),
            |i: int|
                if 0 <= i < xs.len() {
                    xs[i].tree()
                } else {
                    arbitrary()
                },
        )
    }

    /// The view of this expression, by recursion on the tree. `view` is this
    /// function; the recursion stands here because a trait's method cannot
    /// call itself through the trait.
    pub open spec fn tree(self) -> QExprView
        decreases self,
    {
        match self {
            QExpr::Term(t) => QExprView::Term(t@),
            QExpr::Phrase(p) => QExprView::Phrase(p@),
            QExpr::Near(n) => QExprView::Near(n@),
            QExpr::And(xs) => QExprView::And(Self::trees(xs@)),
            QExpr::Or(xs) => QExprView::Or(Self::trees(xs@)),
            QExpr::Not(x) => QExprView::Not(Box::new(x.tree())),
            QExpr::Field(name, x) => QExprView::Field(name@, Box::new(x.tree())),
        }
    }
}

impl View for QExpr {
    type V = QExprView;

    open spec fn view(&self) -> QExprView {
        self.tree()
    }
}

/// The views of a sequence of expressions are as many as the expressions, and
/// each is the view of the expression at its place.
pub proof fn lemma_trees(xs: Seq<QExpr>)
    ensures
        QExpr::trees(xs).len() == xs.len(),
        forall|i: int| 0 <= i < xs.len() ==> (#[trigger] QExpr::trees(xs)[i]) == xs[i]@,
{
}

impl QExpr {
    /// Whether `self` and `other` are the same tree over the same texts.
    fn same_tree(&self, other: &QExpr) -> (r: bool)
        ensures
            r == (self@ == other@),
        decreases self,
    {
        match self {
            QExpr::Term(a) => match other {
                QExpr::Term(b) => *a == *b,
                _ => false,
            },
            QExpr::Phrase(a) => match other {
                QExpr::Phrase(b) => *a == *b,
                _ => false,
            },
            QExpr::Near(a) => match other {
                QExpr::Near(b) => *a == *b,
                _ => false,
            },
            QExpr::And(a) => match other {
                QExpr::And(b) => same_children(a, b),
                _ => false,
            },
            QExpr::Or(a) => match other {
                QExpr::Or(b) => same_children(a, b),
                _ => false,
            },
            QExpr::Not(a) => match other {
                QExpr::Not(b) => (&**a).same_tree(&**b),
                _ => false,
            },
            QExpr::Field(n, a) => match other {
                QExpr::Field(m, b) => *n == *m && (&**a).same_tree(&**b),
                _ => false,
            },
        }
    }
}

/// Whether `a` and `b` hold the same trees in the same order.
fn same_children(a: &Vec<QExpr>, b: &Vec<QExpr>) -> (r: bool)
    ensures
        r == (QExpr::trees(a@) == QExpr::trees(b@)),
    decreases a,
{
    proof {
        lemma_trees(a@);
        lemma_trees(b@);
    }
    if a.len() != b.len() {
        return false;
    }
    let mut i: usize = 0;
    while i < a.len()
        invariant
            i <= a.len(),
            a.len() == b.len(),
            QExpr::trees(a@).len() == a.len(),
            QExpr::trees(b@).len() == b.len(),
            forall|j: int| 0 <= j < a.len() ==> (#[trigger] QExpr::trees(a@)[j]) == a@[j]@,
            forall|j: int| 0 <= j < b.len() ==> (#[trigger] QExpr::trees(b@)[j]) == b@[j]@,
            forall|j: int| 0 <= j < i ==> a@[j]@ == b@[j]@,
        decreases a.len() - i,
    {
        if !a[i].same_tree(&b[i]) {
            assert(QExpr::trees(a@)[i as int] != QExpr::trees(b@)[i as int]);
            return false;
        }
        i += 1;
    }
    assert(QExpr::trees(a@) =~= QExpr::trees(b@));
    true
}

impl PartialEq for QExpr {
    /// Two expressions are equal when they are the same tree over the same texts.
    fn eq(&self, other: &Self) -> (r: bool) {
        self.same_tree(other)
    }
}

impl PartialEqSpecImpl for QExpr {
    open spec fn obeys_eq_spec() -> bool {
        true
    }

    open spec fn eq_spec(&self, other: &Self) -> bool {
        self@ == other@
    }
}

impl Clone for QExpr {
    /// A copy of the whole tree.
    fn clone(&self) -> (r: Self)
        ensures
            r@ == self@,
        decreases self,
    {
        match self {
            QExpr::Term(t) => QExpr::Term(t.clone()),
            QExpr::Phrase(p) => QExpr::Phrase(p.clone()),
            QExpr::Near(n) => QExpr::Near(n.clone()),
            QExpr::And(xs) => QExpr::And(clone_children(xs)),
            QExpr::Or(xs) => QExpr::Or(clone_children(xs)),
            QExpr::Not(x) => QExpr::Not(Box::new((&**x).clone())),
            QExpr::Field(name, x) => QExpr::Field(name.clone(), Box::new((&**x).clone())),
        }
    }
}

/// Copies of the expressions of `xs`, in order.
fn clone_children(xs: &Vec<QExpr>) -> (r: Vec<QExpr>)
    ensures
        QExpr::trees(r@) == QExpr::trees(xs@),
    decreases xs,
{
    let mut out: Vec<QExpr> = Vec::new();
    let mut i: usize = 0;
    while i < xs.len()
        invariant
            i <= xs.len(),
            out.len() == i,
            forall|j: int| 0 <= j < i ==> (#[trigger] out@[j])@ == xs@[j]@,
        decreases xs.len() - i,
    {
        out.push(xs[i].clone());
        i += 1;
    }
    proof {
        lemma_trees(out@);
        lemma_trees(xs@);
        assert(QExpr::trees(out@) =~= QExpr::trees(xs@));
    }
    out
}

} // verus!
