//! Checks SQL migrations for statements that are dangerous on a live Postgres database.

pub mod adapters;
pub mod ast;
pub mod checks;
pub mod cli;
pub mod config;
pub mod error;
pub mod formatters;
pub mod lsp;
pub mod models;
pub mod paint;
pub mod parser;
pub mod pattern;
pub mod safety_checker;
pub mod text;
pub mod violation;

use vstd::prelude::*;

verus! {

/// A list of `(line_number, violation)` pairs produced by a single SQL file.
///
/// The line number is 1-indexed and points to the first token of the statement
/// that triggered the violation.
pub type ViolationList = Vec<(usize, violation::Violation)>;

} // verus!
