//! A minimal line-search library: given a query string and a sequence of
//! lines, it returns every line containing the query, optionally
//! case-insensitively, in input order. A configuration builder turns a raw
//! argument list into a validated configuration or a descriptive error.

pub mod config;
pub mod laws;
pub mod matcher;
pub mod text;

pub use crate::config::{usage, BuildError, Built, Config, InputSource};
pub use crate::matcher::{run, search, search_case_insensitive};
