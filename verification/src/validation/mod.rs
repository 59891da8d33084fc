//! Semantic validation of parsed constructs.
pub mod ops;
