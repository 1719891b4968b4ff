//! Typed builders for search queries, and the JSON documents they stand for.
//!
//! A clause is built by calls, turned into one of the two unions and handed to
//! the envelope, which writes the whole as a tree of JSON values.

pub mod fields;
pub mod full_text;
pub mod json;
pub mod options;
pub mod query;
pub mod term_level;
pub mod text;
pub mod value;

pub use query::{envelope, FullTextQuery, Query, TermLevelQuery};
