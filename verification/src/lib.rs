//! RustScript: a language for writing syntax-tree transformation plugins
//! that target both Babel and SWC.

use vstd::prelude::*;

pub mod strings;
pub mod text;
pub mod lexer;
pub mod ast;
pub mod grammar;
pub mod parser;
pub mod type_context;
pub mod nodes;
pub mod semantic;
pub mod metadata;
pub mod transform;
pub mod debug_text;
pub mod translate;
pub mod condition;
pub mod codegen;
pub mod crate_files;
pub mod plugin_lib;
pub mod inline;
pub mod js;
pub mod js_source;
pub mod analyzer;
pub mod component;
pub mod templates_json;
pub mod minimact;
pub mod hook_extractors;

verus! {
} // verus!
