//! Query construction and result assembly for a table of basketball
//! box scores: typed filter parameters, composable sort expressions,
//! and a builder that emits fully parameterized SQL statements in
//! which no caller-supplied value ever appears in the statement text.
//!
//! - [`fields`]: the closed set of statistical columns.
//! - [`fixed`]: exact decimals in thousandths, in place of floats.
//! - [`sort`]: the sort expression type and its compiler.
//! - [`params`]: the optional filter, pagination and sort parameters.
//! - [`parse`]: decoding of the wire shapes (untagged sort
//!   expressions, boolean-like direction strings).
//! - [`stmt`]: statements and their bound values.
//! - [`builder`]: the shared predicate pass that yields the count
//!   statement and the data statement.
//! - [`matching`]: the meaning of the filter predicate over rows,
//!   with a runnable reference filter and pager.
//! - [`models`]: box scores and the paginated response envelope.
//! - [`coltype`]: the result-column dispatch table of the raw
//!   statement front end.
//! - [`errors`]: the validation and storage error taxonomy.

pub mod builder;
pub mod coltype;
pub mod errors;
pub mod fields;
pub mod fixed;
pub mod matching;
pub mod models;
pub mod params;
pub mod parse;
pub mod sort;
pub mod stmt;
pub mod text;
