//! Composable filter predicates that compile a sparse filter input into one
//! optional boolean expression over an entity's columns.
//!
//! Leaves compare one column with an optional value; combinators join nodes
//! with AND, OR and NOT; a hook sees every leaf and may rewrite or drop it.
//! An absent value, or a subtree left with nothing, imposes no constraint.
pub mod expr;
pub mod transform;
pub mod input;
pub mod filter;
pub mod schema;
pub mod episode;
pub mod entities;
