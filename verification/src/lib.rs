//! The semantic front end of a pattern and query language: it turns a parse
//! tree into a validated tree of queries, patterns, variables and constraints.
//!
//! - `parser` holds the walk: the tree that it reads (`parser::tree`), the
//!   decoders of single tokens (`parser::literal`), the assembly of references
//!   to types, of thing variables and of type variables, and, at its root, of
//!   patterns and queries. `parser::laws` proves what holds of every walk.
//! - `pattern` and `query` hold what a walk returns.
//! - `error` holds the ways in which a walk fails.
//! - `temporal` holds dates and date-times, and the calls that read them.
//! - `text` and `list` hold helpers on characters and on lists.

pub mod error;
pub mod list;
pub mod parser;
pub mod pattern;
pub mod query;
pub mod temporal;
pub mod text;
