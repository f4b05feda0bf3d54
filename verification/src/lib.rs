//! Command-line surface of a single-page web archiving tool.
//!
//! The crate declares every accepted flag, option and the one required
//! positional argument (`schema`), and resolves the raw values produced by a
//! generic argument parser, together with environment signals, into one
//! immutable, fully typed `Options` record (`opts`). Numeric coercion of the
//! `--timeout` value lives in `num`.
//!
//! Everything downstream of the resolved record (fetching, rewriting,
//! writing) is an external collaborator and out of scope here.

pub mod num;
pub mod opts;
pub mod schema;
