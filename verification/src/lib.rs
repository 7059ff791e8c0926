//! Typed query expressions: a small algebra of terms, phrases, proximity
//! constraints, boolean combinators and field scoping, together with a
//! structural validation of the tree.
//!
//! The crate fixes what a query means, not how it is written or run: there is
//! no parser here, no planner and no scoring. Every type can hold any value;
//! whether a tree is well formed is decided by `validate` alone.

pub mod constraint;
pub mod expr;
pub mod laws;
pub mod order;
pub mod term;
pub mod text;
pub mod validation;

pub use constraint::{Near, Phrase};
pub use expr::QExpr;
pub use term::{FieldName, Term};
pub use validation::{validate, ValidateError};
