//! Plugin metadata: what a plugin declares about itself, its helper structs
//! and functions, and how Babel expressions translate to SWC.
//!
//! Each keyed table is a list of `(key, value)` entries in which no key occurs
//! twice; a lookup gives the value stored under the key.

use vstd::prelude::*;
use crate::strings::str_eq;

verus! {

/// The plugin's name and description.
#[derive(Debug, Clone)]
pub struct PluginInfo {
    pub name: String,
    pub description: String,
}

/// A helper struct: an optional description and its fields by name.
#[derive(Debug, Clone)]
pub struct StructDef {
    pub description: Option<String>,
    pub fields: Vec<(String, FieldDef)>,
}

/// One field of a helper struct.
#[derive(Debug, Clone)]
pub struct FieldDef {
    pub field_type: String,
    pub required: Option<bool>,
    pub default: Option<String>,
}

/// A helper function's signature and how it is carried over to SWC.
#[derive(Debug, Clone)]
pub struct FunctionDef {
    pub description: Option<String>,
    pub params: Vec<ParamDef>,
    pub returns: String,
    pub uses_string_builder: Option<bool>,
    pub babel_specific: Option<bool>,
    pub swc_implementation: Option<String>,
}

/// One parameter of a helper function.
#[derive(Debug, Clone)]
pub struct ParamDef {
    pub name: String,
    pub param_type: String,
}

/// What the generated visitor needs to know about its parents.
#[derive(Debug, Clone)]
pub struct VisitorContext {
    pub needs_parent_tracking: bool,
    pub parent_types: Vec<String>,
}

/// Hints for code generation: the helpers whose generation is skipped.
#[derive(Debug, Clone)]
pub struct CodeGenerationHints {
    pub skip_helper_generation: Vec<String>,
}

/// Everything a plugin's metadata file declares.
#[derive(Debug, Clone)]
pub struct PluginMetadata {
    pub version: String,
    pub plugin: PluginInfo,
    pub structs: Vec<(String, StructDef)>,
    pub functions: Vec<(String, FunctionDef)>,
    pub babel_to_swc_mappings: Vec<(String, String)>,
    pub visitor_context: Option<VisitorContext>,
    pub code_generation_hints: Option<CodeGenerationHints>,
}

/// No key occurs twice among the entries.
pub open spec fn distinct_keys<T>(entries: Seq<(String, T)>) -> bool {
    forall|i: int, j: int|
        0 <= i < j < entries.len() ==> #[trigger] entries[i].0@ != #[trigger] entries[j].0@
}

/// The value stored under `key`: that of the first entry with the key.
pub open spec fn value_for<T>(entries: Seq<(String, T)>, key: Seq<char>) -> Option<T>
    decreases entries.len(),
{
    if entries.len() == 0 {
        None
    } else if entries[0].0@ == key {
        Some(entries[0].1)
    } else {
        value_for(entries.subrange(1, entries.len() as int), key)
    }
}

/// The value under `key` is that of the first entry from `i` on with the key,
/// when no earlier entry has it.
proof fn lemma_value_for_from<T>(entries: Seq<(String, T)>, key: Seq<char>, i: int)
    requires
        0 <= i <= entries.len(),
        forall|j: int| 0 <= j < i ==> #[trigger] entries[j].0@ != key,
    ensures
        value_for(entries, key) == value_for(entries.subrange(i, entries.len() as int), key),
    decreases i,
{
    if i > 0 {
        let rest = entries.subrange(1, entries.len() as int);
        assert forall|j: int| 0 <= j < i - 1 implies #[trigger] rest[j].0@ != key by {
            assert(rest[j] == entries[j + 1]);
        }
        lemma_value_for_from(rest, key, i - 1);
        assert(rest.subrange(i - 1, rest.len() as int) =~= entries.subrange(i, entries.len() as int));
    } else {
        assert(entries.subrange(0, entries.len() as int) =~= entries);
    }
}

/// In a table without repeated keys, a lookup by an entry's key gives that
/// entry's value.
pub proof fn law_lookup_finds_entry<T>(entries: Seq<(String, T)>, i: int)
    requires
        distinct_keys(entries),
        0 <= i < entries.len(),
    ensures
        value_for(entries, entries[i].0@) == Some(entries[i].1),
{
    let key = entries[i].0@;
    assert forall|j: int| 0 <= j < i implies #[trigger] entries[j].0@ != key by {
        assert(entries[j].0@ != entries[i].0@);
    }
    lemma_value_for_from(entries, key, i);
    let rest = entries.subrange(i, entries.len() as int);
    assert(rest[0] == entries[i]);
}

/// A lookup by a key that no entry has finds nothing.
pub proof fn law_lookup_missing_key<T>(entries: Seq<(String, T)>, key: Seq<char>)
    requires
        forall|j: int| 0 <= j < entries.len() ==> #[trigger] entries[j].0@ != key,
    ensures
        value_for(entries, key) is None,
{
    lemma_value_for_from(entries, key, entries.len() as int);
    assert(entries.subrange(entries.len() as int, entries.len() as int).len() == 0);
}

/// The value stored under `key` in a keyed table.
fn lookup<'a, T>(entries: &'a Vec<(String, T)>, key: &str) -> (r: Option<&'a T>)
    ensures
        match r {
            Some(v) => value_for(entries@, key@) == Some(*v),
            None => value_for(entries@, key@) is None,
        },
{
    let mut i: usize = 0;
    while i < entries.len()
        invariant
            i <= entries@.len(),
            forall|j: int| 0 <= j < i ==> #[trigger] entries@[j].0@ != key@,
        decreases entries@.len() - i,
    {
        if str_eq(entries[i].0.as_str(), key) {
            proof {
                lemma_value_for_from(entries@, key@, i as int);
                let rest = entries@.subrange(i as int, entries@.len() as int);
                assert(rest[0] == entries@[i as int]);
            }
            return Some(&entries[i].1);
        }
        i = i + 1;
    }
    proof {
        law_lookup_missing_key(entries@, key@);
    }
    None
}

impl PluginMetadata {
    /// No table of the metadata repeats a key.
    pub open spec fn wf(&self) -> bool {
        &&& distinct_keys(self.structs@)
        &&& distinct_keys(self.functions@)
        &&& distinct_keys(self.babel_to_swc_mappings@)
    }

    /// The declared helper function of the given name.
    pub fn get_function_signature(&self, func_name: &str) -> (r: Option<&FunctionDef>)
        ensures
            match r {
                Some(f) => value_for(self.functions@, func_name@) == Some(*f),
                None => value_for(self.functions@, func_name@) is None,
            },
    {
        lookup(&self.functions, func_name)
    }

    /// The return type declared for the helper function of the given name.
    pub fn get_return_type(&self, func_name: &str) -> (r: Option<&str>)
        ensures
            match r {
                Some(t) => value_for(self.functions@, func_name@) matches Some(f) && t@ == f.returns@,
                None => value_for(self.functions@, func_name@) is None,
            },
    {
        match lookup(&self.functions, func_name) {
            Some(f) => Some(f.returns.as_str()),
            None => None,
        }
    }

    /// The SWC expression that a Babel expression translates to, if the
    /// metadata maps it.
    pub fn translate_babel_pattern(&self, pattern: &str) -> (r: Option<&str>)
        ensures
            match r {
                Some(t) => value_for(self.babel_to_swc_mappings@, pattern@) matches Some(s) && t@ == s@,
                None => value_for(self.babel_to_swc_mappings@, pattern@) is None,
            },
    {
        match lookup(&self.babel_to_swc_mappings, pattern) {
            Some(s) => Some(s.as_str()),
            None => None,
        }
    }

    /// The declared helper struct of the given name.
    pub fn get_struct(&self, struct_name: &str) -> (r: Option<&StructDef>)
        ensures
            match r {
                Some(s) => value_for(self.structs@, struct_name@) == Some(*s),
                None => value_for(self.structs@, struct_name@) is None,
            },
    {
        lookup(&self.structs, struct_name)
    }
}

} // verus!
