//! Semantic analysis: name resolution and type checking.

pub mod types;
pub mod resolver;
pub mod type_checker;
