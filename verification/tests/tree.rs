use qexpr::{FieldName, Near, Phrase, QExpr, Term};
use std::collections::HashSet;

fn term(text: &str) -> QExpr {
    QExpr::Term(Term::new(text))
}

fn terms(texts: &[&str]) -> Vec<Term> {
    texts.iter().map(|t| Term::new(*t)).collect()
}

fn sample() -> QExpr {
    QExpr::And(vec![
        QExpr::Field(
            FieldName::new("title"),
            Box::new(QExpr::Phrase(Phrase::new(terms(&["query", "algebra"])))),
        ),
        QExpr::Or(vec![term("retrieval"), term("")]),
        QExpr::Not(Box::new(QExpr::Near(Near::new(terms(&["a", "b"]), 3, true)))),
    ])
}

#[test]
fn equal_trees_are_equal() {
    assert_eq!(sample(), sample());
    assert_eq!(term("a"), term("a"));
    assert_eq!(QExpr::And(vec![]), QExpr::And(vec![]));
}

#[test]
fn variants_are_told_apart() {
    assert_ne!(QExpr::And(vec![]), QExpr::Or(vec![]));
    assert_ne!(QExpr::And(vec![term("a")]), QExpr::Or(vec![term("a")]));
    assert_ne!(term("a"), QExpr::Phrase(Phrase::new(terms(&["a"]))));
    assert_ne!(term("a"), QExpr::Not(Box::new(term("a"))));
    assert_ne!(
        QExpr::Phrase(Phrase::new(terms(&["a", "b"]))),
        QExpr::Near(Near::new(terms(&["a", "b"]), 1, false))
    );
    assert_ne!(
        QExpr::Not(Box::new(term("a"))),
        QExpr::Field(FieldName::new("a"), Box::new(term("a")))
    );
}

#[test]
fn trees_differ_where_a_part_differs() {
    assert_ne!(term("a"), term("b"));
    assert_ne!(QExpr::And(vec![term("a")]), QExpr::And(vec![term("a"), term("a")]));
    assert_ne!(QExpr::And(vec![term("a"), term("b")]), QExpr::And(vec![term("b"), term("a")]));
    assert_ne!(QExpr::Not(Box::new(term("a"))), QExpr::Not(Box::new(term("b"))));
    assert_ne!(
        QExpr::Field(FieldName::new("title"), Box::new(term("a"))),
        QExpr::Field(FieldName::new("body"), Box::new(term("a")))
    );
    assert_ne!(
        QExpr::Field(FieldName::new("title"), Box::new(term("a"))),
        QExpr::Field(FieldName::new("title"), Box::new(term("b")))
    );
    let mut other = sample();
    if let QExpr::And(children) = &mut other {
        children[1] = QExpr::Or(vec![term("retrieval"), term(" ")]);
    }
    assert_ne!(other, sample());
}

#[test]
fn a_cloned_tree_is_equal() {
    let e = sample();
    let c = e.clone();
    assert_eq!(c, e);
    assert_eq!(c, sample());
    match c {
        QExpr::And(children) => {
            assert_eq!(children.len(), 3);
            assert_eq!(children[1], QExpr::Or(vec![term("retrieval"), term("")]));
        }
        _ => panic!("the clone is no conjunction"),
    }
}

#[test]
fn a_clone_owns_its_parts() {
    let e = sample();
    let mut c = e.clone();
    if let QExpr::And(children) = &mut c {
        children.clear();
    }
    assert_eq!(c, QExpr::And(vec![]));
    assert_eq!(e, sample());
}

#[test]
fn trees_hash_as_they_compare() {
    let mut seen: HashSet<QExpr> = HashSet::new();
    assert!(seen.insert(sample()));
    assert!(!seen.insert(sample().clone()));
    assert!(seen.insert(term("a")));
    assert!(seen.insert(QExpr::And(vec![])));
    assert!(seen.insert(QExpr::Or(vec![])));
    assert_eq!(seen.len(), 4);
}

#[test]
fn trees_print_for_debugging() {
    let shown = format!("{:?}", QExpr::Not(Box::new(term("a"))));
    assert!(shown.contains("Not"));
    assert!(shown.contains("Term"));
    assert!(shown.contains('a'));
}
