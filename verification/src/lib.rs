//! A verified front end for a compact graph-construction DSL.
//!
//! The library turns a token stream describing memory declarations, blocks,
//! operation nodes, loops and cache accesses into a validated, ordered
//! graph-construction program, or a single terminal diagnostic.
//!
//! - `token` is the DSL's token alphabet; `ast` the syntax tree, each type
//!   with a ghost mirror reached through `deep_view`.
//! - `parsers` and `attributes` hold the recursive-descent grammar; every
//!   parser is proved equal to a spec-level description of its production,
//!   on success and on failure, diagnostic included.
//! - `validation` and `codegen` resolve dtypes, check init values against
//!   each encoding's exact range, build per-operation attribute records,
//!   and assemble the instruction list; `codegen::compile` is the whole
//!   pipeline.
//! - `laws` states the properties that span several functions: the
//!   serialization round-trips, the exactness of the init bounds, and the
//!   structural fidelity of nested loop assembly.

pub mod ast;
pub mod attributes;
pub mod codegen;
pub mod error;
pub mod laws;
pub mod num;
pub mod parsers;
pub mod token;
pub mod validation;
