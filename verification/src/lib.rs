//! Turns GraphQL query text into a small, typed tree of nodes.
//!
//! The grammar itself is the work of the `graphql_parser` crate. This library
//! reads the tree that the parser returns, rejects every construct that lies
//! outside the supported subset of the query language, and builds the node
//! tree for what remains: one operation made of plain, optionally aliased,
//! field selections.

pub mod error;
pub mod node;
pub mod source;
pub mod convert;
pub mod parsed;
pub mod text;
pub mod parser;

pub use crate::convert::convert;
pub use crate::parser::parse;
