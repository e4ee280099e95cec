//! Compiled regular-expression matchers with verified result shaping.
//!
//! The pattern engine is the `regex` crate. What it reports is named in
//! [`engine`]; the matcher facade, the capture normaliser and the pattern-set
//! index logic are verified against those names.
pub mod engine;
pub mod model;
pub mod captures;
pub mod matcher;
pub mod set;
pub mod laws;

pub use matcher::{MatchError, PyRegex};
pub use set::PyRegexSet;
