//! Configuration model, validator and schema descriptor for `a_cli_tool`.
//!
//! The library owns the shape of the configuration document: a name, a
//! semantic version (held first as raw text, then normalized), an optional
//! description, and an application-data block (a data source, a target path
//! and an ordered list of action tokens). It decodes an untyped document
//! tree into that model, reports typed errors with field paths, normalizes
//! the version text in a second phase, and derives a machine-readable
//! schema descriptor of the model itself.

pub mod actions;
pub mod cli;
pub mod doc;
pub mod error;
pub mod laws;
pub mod model;
pub mod schema;
pub mod validate;
pub mod version;
