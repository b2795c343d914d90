//! Parsing JavaScript and TypeScript source text into `swc`'s syntax tree,
//! for the analyses that walk it, and the bookkeeping of the modules a
//! plugin requires: which of them are still to be analysed, each file once.

use vstd::prelude::*;
use crate::strings::{str_eq, owned};

verus! {

/// `swc`'s syntax tree of a module, carried through as it is.
#[verifier::external_type_specification]
#[verifier::external_body]
pub struct ExSwcModule(swc_ecma_ast::Module);

/// Whether `swc_ecma_parser` parses the text, read as TypeScript with JSX
/// under the given file name, as a module.
pub uninterp spec fn swc_module_parses(path: Seq<char>, code: Seq<char>) -> bool;

/// `swc_ecma_parser::Parser::parse_module` on the text, read as TypeScript
/// with JSX under the given file name; `None` where the text does not parse.
/// Which texts parse is named; nothing is stated of the tree, which is only
/// handed on.
#[verifier::external_body]
fn swc_parse_module(path: &str, code: &str) -> (r: Option<swc_ecma_ast::Module>)
    ensures
        r is Some <==> swc_module_parses(path@, code@),
{
    let cm: swc_common::sync::Lrc<swc_common::SourceMap> = Default::default();
    let name = swc_common::sync::Lrc::new(swc_common::FileName::Custom(path.into()));
    let fm = cm.new_source_file(name, code.to_string());
    let syntax = swc_ecma_parser::Syntax::Typescript(swc_ecma_parser::TsSyntax { tsx: true, ..Default::default() });
    let lexer = swc_ecma_parser::lexer::Lexer::new(syntax, Default::default(), (&*fm).into(), None);
    let mut parser = swc_ecma_parser::Parser::new_from(lexer);
    parser.parse_module().ok()
}

/// Parse a plugin or module file's text, read as TypeScript with JSX; `None`
/// exactly when the text does not parse.
pub fn parse_source(path: &str, code: &str) -> (r: Option<swc_ecma_ast::Module>)
    ensures
        r is Some <==> swc_module_parses(path@, code@),
{
    swc_parse_module(path, code)
}


/// A module that a plugin file `require`s: the path as written, the names it
/// takes, and the file it resolves to.
pub struct RequiredModule {
    pub written_path: String,
    pub imported_names: Vec<String>,
    pub resolved_path: String,
}

/// Whether a file is among those already analysed.
pub open spec fn is_processed(processed: Seq<String>, path: Seq<char>) -> bool {
    exists|i: int| 0 <= i < processed.len() && #[trigger] processed[i]@ == path
}

/// The files of the required modules that are not analysed yet, in the
/// order the modules were found.
pub open spec fn unprocessed(required: Seq<RequiredModule>, processed: Seq<String>) -> Seq<Seq<char>>
    decreases required.len(),
{
    if required.len() == 0 {
        Seq::empty()
    } else {
        let r = unprocessed(required.drop_last(), processed);
        if is_processed(processed, required.last().resolved_path@) {
            r
        } else {
            r.push(required.last().resolved_path@)
        }
    }
}

/// Whether a file is among those already analysed.
pub fn processed_contains(processed: &Vec<String>, path: &str) -> (r: bool)
    ensures
        r == is_processed(processed@, path@),
{
    let mut i: usize = 0;
    while i < processed.len()
        invariant
            i <= processed@.len(),
            forall|j: int| 0 <= j < i ==> #[trigger] processed@[j]@ != path@,
        decreases processed@.len() - i,
    {
        if str_eq(processed[i].as_str(), path) {
            return true;
        }
        i = i + 1;
    }
    false
}

/// The files of the required modules that are still to be analysed, in the
/// order the modules were found.
pub fn modules_to_process(required: &Vec<RequiredModule>, processed: &Vec<String>) -> (r: Vec<String>)
    ensures
        r@.map_values(|p: String| p@) == unprocessed(required@, processed@),
{
    let mut out: Vec<String> = Vec::new();
    let mut i: usize = 0;
    while i < required.len()
        invariant
            i <= required@.len(),
            out@.map_values(|p: String| p@) == unprocessed(required@.subrange(0, i as int), processed@),
        decreases required@.len() - i,
    {
        let path = required[i].resolved_path.as_str();
        assert(required@.subrange(0, i + 1).drop_last() =~= required@.subrange(0, i as int));
        if !processed_contains(processed, path) {
            let ghost before = out@;
            out.push(owned(path));
            assert(out@.map_values(|p: String| p@) =~= before.map_values(|p: String| p@).push(path@));
        }
        i = i + 1;
    }
    assert(required@.subrange(0, i as int) =~= required@);
    out
}

/// Record a file as analysed; a file already recorded is not added again.
pub fn mark_processed(processed: &mut Vec<String>, path: &str)
    ensures
        is_processed(old(processed)@, path@) ==> final(processed)@ == old(processed)@,
        !is_processed(old(processed)@, path@) ==> final(processed)@.len() == old(processed)@.len() + 1
            && final(processed)@.drop_last() == old(processed)@ && final(processed)@.last()@ == path@,
{
    if !processed_contains(processed, path) {
        processed.push(owned(path));
    }
}

/// No file is recorded twice.
pub open spec fn no_repeats(processed: Seq<String>) -> bool {
    forall|i: int, j: int| 0 <= i < j < processed.len() ==> #[trigger] processed[i]@ != #[trigger] processed[j]@
}

/// Recording files keeps the record free of repeats, and afterwards the file
/// counts as analysed, so it is never handed out again.
pub proof fn law_processed_files_form_a_set(before: Seq<String>, after: Seq<String>, path: Seq<char>, required: Seq<RequiredModule>)
    requires
        no_repeats(before),
        is_processed(before, path) ==> after == before,
        !is_processed(before, path) ==> after.len() == before.len() + 1 && after.drop_last() == before && after.last()@ == path,
    ensures
        no_repeats(after),
        is_processed(after, path),
        forall|i: int| 0 <= i < unprocessed(required, after).len() ==> #[trigger] unprocessed(required, after)[i] != path,
{
    if !is_processed(before, path) {
        assert forall|i: int, j: int| 0 <= i < j < after.len() implies #[trigger] after[i]@ != #[trigger] after[j]@ by {
            if j == after.len() - 1 {
                assert(after[i] == before[i]);
            } else {
                assert(after[i] == before[i] && after[j] == before[j]);
            }
        }
        assert(after[after.len() - 1]@ == path);
    }
    lemma_unprocessed_excludes(required, after, path);
}

proof fn lemma_unprocessed_excludes(required: Seq<RequiredModule>, processed: Seq<String>, path: Seq<char>)
    requires
        is_processed(processed, path),
    ensures
        forall|i: int| 0 <= i < unprocessed(required, processed).len() ==> #[trigger] unprocessed(required, processed)[i] != path,
    decreases required.len(),
{
    if required.len() > 0 {
        lemma_unprocessed_excludes(required.drop_last(), processed, path);
        let r = unprocessed(required.drop_last(), processed);
        let last = required.last().resolved_path@;
        if !is_processed(processed, last) {
            assert(last != path);
            assert forall|i: int| 0 <= i < r.push(last).len() implies #[trigger] r.push(last)[i] != path by {
                if i < r.len() {
                    assert(r.push(last)[i] == r[i]);
                }
            }
        }
    }
}

} // verus!
