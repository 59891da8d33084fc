//! The recursive-descent parsers of the DSL grammar.
pub mod cache;
pub mod dims;
pub mod node;
pub mod op;
pub mod range;
pub mod sections;
pub mod var;
