//! The options that full-text clauses share with the rest of the crate.

pub use crate::options::{Fuzziness, Operator};
