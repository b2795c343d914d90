//! Translation of JavaScript names, expressions and type checks found in a
//! Babel plugin into their Rust and SWC counterparts, and the small pieces of
//! generated code built from them.

use vstd::prelude::*;
use crate::strings::{str_eq, owned, joined, joined3, starts_with};
use crate::text::{
    char_is_uppercase, char_lowercase, char_is_alphanumeric, contains_seq, contains_str, is_uppercase,
    lowercase_first, char_string, join_seq, join_strs, replaced, split_seq, find_first, trim_ws, split_str,
    occurs_at, find_from, lemma_find_from, trim_start_ws, trim_end_ws,
};
use crate::metadata::{PluginMetadata, value_for};
use crate::transform::{Transform, HelperFunction};

verus! {

// ===================== names =====================

/// The characters of `s` in snake case: a `_` before each uppercase character
/// but the first, and every character lowered.
pub open spec fn snake_chars(s: Seq<char>) -> Seq<char>
    decreases s.len(),
{
    if s.len() == 0 {
        Seq::empty()
    } else {
        let c = s.last();
        snake_chars(s.drop_last()) + (if char_is_uppercase(c) && s.len() > 1 {
            seq!['_']
        } else {
            Seq::empty()
        }) + seq![char_lowercase(c)]
    }
}

/// Whether `s` is one of the Rust keywords that a translated name must avoid.
pub open spec fn is_rust_keyword(s: Seq<char>) -> bool {
    ||| s == "type"@ ||| s == "ref"@ ||| s == "match"@ ||| s == "const"@ ||| s == "static"@
    ||| s == "mut"@ ||| s == "impl"@ ||| s == "trait"@ ||| s == "fn"@ ||| s == "let"@
    ||| s == "if"@ ||| s == "else"@ ||| s == "while"@ ||| s == "for"@ ||| s == "loop"@
    ||| s == "return"@ ||| s == "break"@ ||| s == "continue"@ ||| s == "as"@ ||| s == "use"@
    ||| s == "mod"@ ||| s == "pub"@ ||| s == "crate"@ ||| s == "self"@ ||| s == "super"@
    ||| s == "in"@
}

/// A keyword with `_` appended; any other name unchanged.
pub open spec fn escaped(s: Seq<char>) -> Seq<char> {
    if is_rust_keyword(s) {
        s + "_"@
    } else {
        s
    }
}

/// A JavaScript name in Rust's snake case, keywords escaped.
pub open spec fn snake_case(s: Seq<char>) -> Seq<char> {
    escaped(snake_chars(s))
}

/// Escape Rust keywords by appending an underscore.
pub fn escape_rust_keyword(s: &str) -> (r: String)
    ensures
        r@ == escaped(s@),
{
    let kw = str_eq(s, "type") || str_eq(s, "ref") || str_eq(s, "match") || str_eq(s, "const")
        || str_eq(s, "static") || str_eq(s, "mut") || str_eq(s, "impl") || str_eq(s, "trait")
        || str_eq(s, "fn") || str_eq(s, "let") || str_eq(s, "if") || str_eq(s, "else")
        || str_eq(s, "while") || str_eq(s, "for") || str_eq(s, "loop") || str_eq(s, "return")
        || str_eq(s, "break") || str_eq(s, "continue") || str_eq(s, "as") || str_eq(s, "use")
        || str_eq(s, "mod") || str_eq(s, "pub") || str_eq(s, "crate") || str_eq(s, "self")
        || str_eq(s, "super") || str_eq(s, "in");
    if kw {
        joined(s, "_")
    } else {
        owned(s)
    }
}

/// Convert a camelCase or PascalCase name to snake_case, keywords escaped.
pub fn to_snake_case(s: &str) -> (r: String)
    ensures
        r@ == snake_case(s@),
{
    let n = s.unicode_len();
    let mut out = String::new();
    let mut i: usize = 0;
    while i < n
        invariant
            n == s@.len(),
            i <= n,
            out@ == snake_chars(s@.subrange(0, i as int)),
        decreases n - i,
    {
        let c = s.get_char(i);
        proof {
            assert(s@.subrange(0, i + 1).drop_last() =~= s@.subrange(0, i as int));
            assert(s@.subrange(0, i + 1).last() == c);
        }
        let ghost before = out@;
        proof {
            reveal_strlit("_");
        }
        let upper = is_uppercase(c);
        if upper && i > 0 {
            out = joined(out.as_str(), "_");
        }
        let lower = char_string(lowercase_first(c));
        out = joined(out.as_str(), lower.as_str());
        assert(out@ =~= before + (if char_is_uppercase(c) && i + 1 > 1 {
            seq!['_']
        } else {
            Seq::<char>::empty()
        }) + seq![char_lowercase(c)]);
        i = i + 1;
    }
    assert(s@.subrange(0, n as int) =~= s@);
    escape_rust_keyword(out.as_str())
}

/// The mapping that the metadata gives for `k`, if there is metadata and it
/// maps `k`.
pub open spec fn mapping_for(m: Option<&PluginMetadata>, k: Seq<char>) -> Option<Seq<char>> {
    match m {
        Some(meta) => match value_for(meta.babel_to_swc_mappings@, k) {
            Some(v) => Some(v@),
            None => None,
        },
        None => None,
    }
}

/// The mapping that the metadata gives for `k`.
pub fn mapped<'a>(m: Option<&'a PluginMetadata>, k: &str) -> (r: Option<&'a str>)
    ensures
        match r {
            Some(v) => mapping_for(m, k@) == Some(v@),
            None => mapping_for(m, k@) is None,
        },
{
    match m {
        Some(meta) => meta.translate_babel_pattern(k),
        None => None,
    }
}

/// A name as the metadata maps it, else in snake case.
pub open spec fn converted_identifier(m: Option<&PluginMetadata>, name: Seq<char>) -> Seq<char> {
    match mapping_for(m, name) {
        Some(v) => v,
        None => snake_case(name),
    }
}

/// Convert an identifier to Rust, checking the metadata mappings first.
pub fn convert_identifier(name: &str, metadata: Option<&PluginMetadata>) -> (r: String)
    ensures
        r@ == converted_identifier(metadata, name@),
{
    match mapped(metadata, name) {
        Some(v) => owned(v),
        None => to_snake_case(name),
    }
}

// ===================== visitors =====================

/// The SWC visitor method for a Babel visitor name.
pub open spec fn swc_method(visitor: Seq<char>) -> Seq<char> {
    if visitor == "Program"@ {
        "visit_module"@
    } else if visitor == "FunctionDeclaration"@ {
        "visit_fn_decl"@
    } else if visitor == "ArrowFunctionExpression"@ {
        "visit_arrow_expr"@
    } else if visitor == "CallExpression"@ {
        "visit_call_expr"@
    } else if visitor == "JSXElement"@ {
        "visit_jsx_element"@
    } else if visitor == "VariableDeclarator"@ {
        "visit_var_declarator"@
    } else {
        "visit_unknown"@
    }
}

/// The SWC visitor method for a Babel visitor name.
pub fn babel_to_swc_method(visitor_name: &str) -> (r: &'static str)
    ensures
        r@ == swc_method(visitor_name@),
{
    if str_eq(visitor_name, "Program") {
        "visit_module"
    } else if str_eq(visitor_name, "FunctionDeclaration") {
        "visit_fn_decl"
    } else if str_eq(visitor_name, "ArrowFunctionExpression") {
        "visit_arrow_expr"
    } else if str_eq(visitor_name, "CallExpression") {
        "visit_call_expr"
    } else if str_eq(visitor_name, "JSXElement") {
        "visit_jsx_element"
    } else if str_eq(visitor_name, "VariableDeclarator") {
        "visit_var_declarator"
    } else {
        "visit_unknown"
    }
}

/// The parameter name and SWC node type of the visitor for a Babel visitor name.
pub open spec fn node_param(visitor: Seq<char>) -> (Seq<char>, Seq<char>) {
    if visitor == "Program"@ {
        ("module"@, "Module"@)
    } else if visitor == "FunctionDeclaration"@ {
        ("node"@, "FnDecl"@)
    } else if visitor == "ArrowFunctionExpression"@ {
        ("node"@, "ArrowExpr"@)
    } else if visitor == "CallExpression"@ {
        ("node"@, "CallExpr"@)
    } else if visitor == "JSXElement"@ {
        ("node"@, "JSXElement"@)
    } else if visitor == "VariableDeclarator"@ {
        ("node"@, "VarDeclarator"@)
    } else {
        ("node"@, "Node"@)
    }
}

/// The parameter name and SWC node type of the visitor for a Babel visitor name.
pub fn get_node_param(visitor_name: &str) -> (r: (&'static str, &'static str))
    ensures
        (r.0@, r.1@) == node_param(visitor_name@),
{
    if str_eq(visitor_name, "Program") {
        ("module", "Module")
    } else if str_eq(visitor_name, "FunctionDeclaration") {
        ("node", "FnDecl")
    } else if str_eq(visitor_name, "ArrowFunctionExpression") {
        ("node", "ArrowExpr")
    } else if str_eq(visitor_name, "CallExpression") {
        ("node", "CallExpr")
    } else if str_eq(visitor_name, "JSXElement") {
        ("node", "JSXElement")
    } else if str_eq(visitor_name, "VariableDeclarator") {
        ("node", "VarDeclarator")
    } else {
        ("node", "Node")
    }
}

/// The head of the `if let` that a Babel type check becomes, before the
/// target; `None` for a check that has no translation.
pub open spec fn type_check_head(check: Seq<char>) -> Option<Seq<char>> {
    if check == "isFunctionDeclaration"@ {
        Some("if let Decl::Fn(fn_decl) = "@)
    } else if check == "isIdentifier"@ {
        Some("if let Expr::Ident(ident) = "@)
    } else if check == "isCallExpression"@ {
        Some("if let Expr::Call(call) = "@)
    } else if check == "isArrowFunctionExpression"@ {
        Some("if let Expr::Arrow(arrow) = "@)
    } else if check == "isMemberExpression"@ {
        Some("if let Expr::Member(member) = "@)
    } else if check == "isObjectPattern"@ {
        Some("if let Pat::Object(obj_pat) = "@)
    } else if check == "isArrayPattern"@ {
        Some("if let Pat::Array(array_pat) = "@)
    } else if check == "isObjectProperty"@ {
        Some("if let PropOrSpread::Prop(prop) = "@)
    } else if check == "isJSXElement"@ {
        Some("if let Expr::JSXElement(jsx) = "@)
    } else if check == "isVariableDeclarator"@ {
        Some("if let VarDeclarator { .. } = "@)
    } else if check == "isBlockStatement"@ {
        Some("if let Stmt::Block(block) = "@)
    } else if check == "isReturnStatement"@ {
        Some("if let Stmt::Return(ret) = "@)
    } else if check == "isStringLiteral"@ {
        Some("if let Lit::Str(s) = "@)
    } else if check == "isNumericLiteral"@ {
        Some("if let Lit::Num(n) = "@)
    } else if check == "isBooleanLiteral"@ {
        Some("if let Lit::Bool(b) = "@)
    } else {
        None
    }
}

/// What a Babel type check on `target` becomes in Rust.
pub open spec fn type_check_code(check: Seq<char>, target: Seq<char>) -> Seq<char> {
    match type_check_head(check) {
        Some(head) => head + target,
        None => "// TODO: Translate "@ + check,
    }
}

/// The head of the `if let` for a type check.
fn type_check_head_exec(check: &str) -> (r: Option<&'static str>)
    ensures
        match r {
            Some(h) => type_check_head(check@) == Some(h@),
            None => type_check_head(check@) is None,
        },
{
    if str_eq(check, "isFunctionDeclaration") {
        Some("if let Decl::Fn(fn_decl) = ")
    } else if str_eq(check, "isIdentifier") {
        Some("if let Expr::Ident(ident) = ")
    } else if str_eq(check, "isCallExpression") {
        Some("if let Expr::Call(call) = ")
    } else if str_eq(check, "isArrowFunctionExpression") {
        Some("if let Expr::Arrow(arrow) = ")
    } else if str_eq(check, "isMemberExpression") {
        Some("if let Expr::Member(member) = ")
    } else if str_eq(check, "isObjectPattern") {
        Some("if let Pat::Object(obj_pat) = ")
    } else if str_eq(check, "isArrayPattern") {
        Some("if let Pat::Array(array_pat) = ")
    } else if str_eq(check, "isObjectProperty") {
        Some("if let PropOrSpread::Prop(prop) = ")
    } else if str_eq(check, "isJSXElement") {
        Some("if let Expr::JSXElement(jsx) = ")
    } else if str_eq(check, "isVariableDeclarator") {
        Some("if let VarDeclarator { .. } = ")
    } else if str_eq(check, "isBlockStatement") {
        Some("if let Stmt::Block(block) = ")
    } else if str_eq(check, "isReturnStatement") {
        Some("if let Stmt::Return(ret) = ")
    } else if str_eq(check, "isStringLiteral") {
        Some("if let Lit::Str(s) = ")
    } else if str_eq(check, "isNumericLiteral") {
        Some("if let Lit::Num(n) = ")
    } else if str_eq(check, "isBooleanLiteral") {
        Some("if let Lit::Bool(b) = ")
    } else {
        None
    }
}

/// Translate a Babel type check such as `isIdentifier` on `target` into an
/// `if let` head.
pub fn translate_type_check(check_type: &str, target: &str) -> (r: String)
    ensures
        r@ == type_check_code(check_type@, target@),
{
    match type_check_head_exec(check_type) {
        Some(head) => joined(head, target),
        None => joined("// TODO: Translate ", check_type),
    }
}

// ===================== helper signatures =====================

/// The return type guessed for a helper without metadata.
pub open spec fn inferred_return_type(name: Seq<char>, has_map_filter: bool, has_string_building: bool) -> Seq<char> {
    if has_map_filter {
        "Vec<_>"@
    } else if "infer"@.is_prefix_of(name) {
        "&'static str"@
    } else if "convert"@.is_prefix_of(name) || has_string_building {
        "String"@
    } else if contains_seq(name, "escape"@) || contains_seq(name, "Escape"@) {
        "String"@
    } else {
        "&'static str"@
    }
}

/// Guess a helper's return type from its name and body.
pub fn infer_return_type(helper: &HelperFunction, has_map_filter: bool, has_string_building: bool) -> (r: String)
    ensures
        r@ == inferred_return_type(helper.name@, has_map_filter, has_string_building),
{
    let name = helper.name.as_str();
    if has_map_filter {
        owned("Vec<_>")
    } else if starts_with(name, "infer") {
        owned("&'static str")
    } else if starts_with(name, "convert") || has_string_building {
        owned("String")
    } else if contains_str(name, "escape") || contains_str(name, "Escape") {
        owned("String")
    } else {
        owned("&'static str")
    }
}

/// The text a transform shows of how a name is used: a condition, an
/// initial value or a returned value.
pub open spec fn usage_text(t: Transform) -> Option<Seq<char>> {
    match t {
        Transform::Conditional { condition, .. } => Some(condition@),
        Transform::VariableDeclaration { value, .. } => Some(value@),
        Transform::ReturnStmt { value } => Some(value@),
        _ => None,
    }
}

/// The type that one use of `p` in `code` shows, if it shows one.
pub open spec fn type_from_use(p: Seq<char>, code: Seq<char>) -> Option<Seq<char>> {
    if !contains_seq(code, p) {
        None
    } else if contains_seq(code, "matches!("@ + p + ", Expr::"@) {
        Some("&Expr"@)
    } else if contains_seq(code, "matches!("@ + p + ", TsType::"@) {
        Some("&TsType"@)
    } else if contains_seq(code, "matches!("@ + p + ", JSXAttrValue::"@) || contains_seq(
        code,
        "matches!("@ + p + ", Lit::"@,
    ) {
        Some("&JSXAttrValue"@)
    } else if (contains_seq(code, p + ".len()"@) || contains_seq(code, "&"@ + p)) && ("s"@.is_suffix_of(p)
        || p == "components"@) {
        Some("&[Component]"@)
    } else {
        None
    }
}

/// The type guessed for `p` from its name alone.
pub open spec fn type_from_name(p: Seq<char>) -> Seq<char> {
    if contains_seq(p, "component"@) && !"s"@.is_suffix_of(p) {
        "&Component"@
    } else if "s"@.is_suffix_of(p) || p == "components"@ {
        "&[Component]"@
    } else {
        "&str"@
    }
}

/// The type guessed for parameter `p` from the transforms, the first
/// telling use deciding; failing that, from its name.
pub open spec fn param_type_from(p: Seq<char>, ts: Seq<Transform>) -> Seq<char>
    decreases ts.len(),
{
    if ts.len() == 0 {
        type_from_name(p)
    } else {
        match usage_text(ts[0]) {
            Some(code) => match type_from_use(p, code) {
                Some(t) => t,
                None => param_type_from(p, ts.subrange(1, ts.len() as int)),
            },
            None => param_type_from(p, ts.subrange(1, ts.len() as int)),
        }
    }
}

/// The type that one use of `p` in `code` shows.
fn type_from_use_exec(p: &str, code: &str) -> (r: Option<&'static str>)
    ensures
        match r {
            Some(t) => type_from_use(p@, code@) == Some(t@),
            None => type_from_use(p@, code@) is None,
        },
{
    if !contains_str(code, p) {
        return None;
    }
    let expr_pat = joined3("matches!(", p, ", Expr::");
    let ts_pat = joined3("matches!(", p, ", TsType::");
    let attr_pat = joined3("matches!(", p, ", JSXAttrValue::");
    let lit_pat = joined3("matches!(", p, ", Lit::");
    let len_pat = joined(p, ".len()");
    let ref_pat = joined("&", p);
    if contains_str(code, expr_pat.as_str()) {
        Some("&Expr")
    } else if contains_str(code, ts_pat.as_str()) {
        Some("&TsType")
    } else if contains_str(code, attr_pat.as_str()) || contains_str(code, lit_pat.as_str()) {
        Some("&JSXAttrValue")
    } else if (contains_str(code, len_pat.as_str()) || contains_str(code, ref_pat.as_str())) && (
    crate::text::ends_with(p, "s") || str_eq(p, "components")) {
        Some("&[Component]")
    } else {
        None
    }
}

/// Guess a parameter's type from how the transforms use it, else from its name.
pub fn infer_param_type_from_usage(param_name: &str, transforms: &Vec<Transform>) -> (r: &'static str)
    ensures
        r@ == param_type_from(param_name@, transforms@),
{
    let mut i: usize = 0;
    assert(transforms@.subrange(0, transforms@.len() as int) =~= transforms@);
    while i < transforms.len()
        invariant
            i <= transforms@.len(),
            param_type_from(param_name@, transforms@) == param_type_from(
                param_name@,
                transforms@.subrange(i as int, transforms@.len() as int),
            ),
        decreases transforms@.len() - i,
    {
        let ghost rest = transforms@.subrange(i as int, transforms@.len() as int);
        proof {
            assert(rest[0] == transforms@[i as int]);
            assert(rest.subrange(1, rest.len() as int) =~= transforms@.subrange(i + 1, transforms@.len() as int));
        }
        let usage: Option<&str> = match &transforms[i] {
            Transform::Conditional { condition, .. } => Some(condition.as_str()),
            Transform::VariableDeclaration { value, .. } => Some(value.as_str()),
            Transform::ReturnStmt { value } => Some(value.as_str()),
            _ => None,
        };
        if let Some(code) = usage {
            if let Some(t) = type_from_use_exec(param_name, code) {
                return t;
            }
        }
        i = i + 1;
    }
    proof {
        assert(transforms@.subrange(i as int, transforms@.len() as int).len() == 0);
    }
    if contains_str(param_name, "component") && !crate::text::ends_with(param_name, "s") {
        "&Component"
    } else if crate::text::ends_with(param_name, "s") || str_eq(param_name, "components") {
        "&[Component]"
    } else {
        "&str"
    }
}

/// A parameter declaration `name: Type` for a helper parameter without metadata.
pub open spec fn inferred_param(p: Seq<char>, ts: Seq<Transform>) -> Seq<char> {
    snake_case(p) + ": "@ + param_type_from(snake_case(p), ts)
}

/// The parameter list of a helper without metadata: each parameter in snake
/// case with its guessed type, separated by `, `.
pub open spec fn inferred_params(params: Seq<String>, ts: Seq<Transform>) -> Seq<char> {
    join_seq(Seq::new(params.len(), |i: int| inferred_param(params[i]@, ts)), ", "@)
}

/// The parameter list of a helper without metadata.
pub fn generate_inferred_params(helper: &HelperFunction) -> (r: String)
    ensures
        r@ == inferred_params(helper.params@, helper.transforms@),
{
    let ghost want = Seq::new(
        helper.params@.len(),
        |i: int| inferred_param(helper.params@[i]@, helper.transforms@),
    );
    let mut pieces: Vec<String> = Vec::new();
    let mut i: usize = 0;
    while i < helper.params.len()
        invariant
            i <= helper.params@.len(),
            want.len() == helper.params@.len(),
            want == Seq::new(
                helper.params@.len(),
                |i: int| inferred_param(helper.params@[i]@, helper.transforms@),
            ),
            pieces@.map_values(|x: String| x@) == want.subrange(0, i as int),
        decreases helper.params@.len() - i,
    {
        let name = to_snake_case(helper.params[i].as_str());
        let ty = infer_param_type_from_usage(name.as_str(), &helper.transforms);
        let piece = joined3(name.as_str(), ": ", ty);
        let ghost before = pieces@;
        pieces.push(piece);
        proof {
            assert(pieces@.map_values(|x: String| x@) =~= before.map_values(|x: String| x@).push(piece@));
            assert(want.subrange(0, i + 1) =~= want.subrange(0, i as int).push(want[i as int]));
        }
        i = i + 1;
    }
    proof {
        assert(want.subrange(0, i as int) =~= want);
    }
    join_strs(&pieces, ", ")
}

// ===================== module files =====================

/// The `mod.rs` that declares each module in turn.
pub open spec fn mod_rs(names: Seq<String>) -> Seq<char>
    decreases names.len(),
{
    if names.len() == 0 {
        "// Auto-generated module declarations\n\n"@
    } else {
        mod_rs(names.drop_last()) + "pub mod "@ + names.last()@ + ";\n"@
    }
}

/// Generate a `mod.rs` that declares all the modules.
pub fn generate_mod_rs(module_names: &Vec<String>) -> (r: String)
    ensures
        r@ == mod_rs(module_names@),
{
    let mut code = owned("// Auto-generated module declarations\n\n");
    let mut i: usize = 0;
    while i < module_names.len()
        invariant
            i <= module_names@.len(),
            code@ == mod_rs(module_names@.subrange(0, i as int)),
        decreases module_names@.len() - i,
    {
        proof {
            assert(module_names@.subrange(0, i + 1).drop_last() =~= module_names@.subrange(0, i as int));
        }
        let line = joined3("pub mod ", module_names[i].as_str(), ";\n");
        let ghost before = code@;
        code = joined(code.as_str(), line.as_str());
        assert(code@ =~= before + "pub mod "@ + module_names@[i as int]@ + ";\n"@);
        i = i + 1;
    }
    assert(module_names@.subrange(0, i as int) =~= module_names@);
    code
}

// ===================== expressions =====================

/// The number of bytes of a character in UTF-8.
pub open spec fn utf8_width(c: char) -> int {
    if (c as u32) < 0x80 {
        1
    } else if (c as u32) < 0x800 {
        2
    } else if (c as u32) < 0x10000 {
        3
    } else {
        4
    }
}

/// The number of bytes of a text in UTF-8.
pub open spec fn byte_len(s: Seq<char>) -> int
    decreases s.len(),
{
    if s.len() == 0 {
        0
    } else {
        byte_len(s.drop_last()) + utf8_width(s.last())
    }
}

/// The regular-expression `replace` chains of an escaping helper, turned into
/// plain character replacements.
pub open spec fn regex_replaces(e: Seq<char>) -> Seq<char> {
    let r1 = replaced(e, ".replace(REGEX(\\\\), \"\\\\\\\\\")"@, ".replace('\\\\', \"\\\\\\\\\")"@);
    let r2 = replaced(r1, ".replace(REGEX(\"), \"\\\\\\\"\")"@, ".replace('\"', \"\\\\\\\"\")"@);
    let r3 = replaced(r2, ".replace(REGEX(\\n), \"\\\\n\")"@, ".replace('\\n', \"\\\\n\")"@);
    let r4 = replaced(r3, ".replace(REGEX(\\r), \"\\\\r\")"@, ".replace('\\r', \"\\\\r\")"@);
    replaced(r4, ".replace(REGEX(\\t), \"\\\\t\")"@, ".replace('\\t', \"\\\\t\")"@)
}

/// Whether the text starts with an uppercase character.
pub open spec fn starts_upper(e: Seq<char>) -> bool {
    e.len() > 0 && char_is_uppercase(e[0])
}

/// Whether every character is alphanumeric or `_`.
pub open spec fn ident_chars(e: Seq<char>) -> bool {
    forall|i: int| 0 <= i < e.len() ==> char_is_alphanumeric(#[trigger] e[i]) || e[i] == '_'
}

/// Whether one of the translations tried before that of a call applies.
pub open spec fn before_call(e: Seq<char>) -> bool {
    ||| e == "path"@
    ||| e == "state"@
    ||| "\""@.is_prefix_of(e) && "\""@.is_suffix_of(e)
    ||| "'"@.is_prefix_of(e) && "'"@.is_suffix_of(e)
    ||| contains_seq(e, " {"@) && starts_upper(e)
    ||| trim_ws(e) == "vec![]"@
    ||| contains_seq(e, ".map(expr)"@) && contains_seq(e, ".filter(Boolean)"@)
    ||| ".filter(Boolean)"@.is_suffix_of(e)
    ||| contains_seq(e, ".replace(REGEX("@) || contains_seq(e, ".replace(&REGEX("@) || contains_seq(
        e,
        ".replace(&r_e_g_e_x("@,
    )
    ||| contains_seq(e, "path.node.id.name"@)
    ||| contains_seq(e, "path.node.id"@)
    ||| contains_seq(e, "path.node"@)
    ||| contains_seq(e, "path.parent.type"@)
    ||| contains_seq(e, "path.parent.id.name"@)
    ||| contains_seq(e, ".startsWith("@)
    ||| contains_seq(e, ".endsWith("@)
    ||| contains_seq(e, ".test("@)
}

/// Whether a text has the shape of a call: it holds both parentheses.
pub open spec fn is_call(e: Seq<char>) -> bool {
    contains_seq(e, "("@) && contains_seq(e, ")"@)
}

/// The pieces between the commas of the arguments of a call whose `(` is at `p`.
pub open spec fn arg_pieces(e: Seq<char>, p: int) -> Seq<Seq<char>> {
    split_seq(e.subrange(p + 1, e.len() - 1), ","@)
}

/// Whether translating `e` (without metadata) stays within the text: a call
/// with arguments must end in an ASCII character, as must each argument.
pub open spec fn js_plain_ok(e: Seq<char>) -> bool
    decreases e.len(),
{
    if before_call(e) || !is_call(e) {
        true
    } else {
        match find_first(e, "("@) {
            Some(p) => p + 1 >= e.len() || ((e.last() as u32) < 128 && forall|k: int|
                0 <= k < arg_pieces(e, p).len() ==> trim_ws(#[trigger] arg_pieces(e, p)[k]).len() < e.len()
                    && js_plain_ok(trim_ws(arg_pieces(e, p)[k]))),
            None => true,
        }
    }
}

/// A JavaScript expression in Rust, without metadata: a chain of textual
/// rules tried in turn.
pub open spec fn js_plain(e: Seq<char>) -> Seq<char>
    decreases e.len(), 1nat, 0nat,
{
    if e == "path"@ {
        "n"@
    } else if e == "state"@ {
        "self"@
    } else if "\""@.is_prefix_of(e) && "\""@.is_suffix_of(e) {
        e
    } else if "'"@.is_prefix_of(e) && "'"@.is_suffix_of(e) {
        e
    } else if contains_seq(e, " {"@) && starts_upper(e) {
        e
    } else if trim_ws(e) == "vec![]"@ {
        e
    } else if contains_seq(e, ".map(expr)"@) && contains_seq(e, ".filter(Boolean)"@) {
        match find_first(e, ".map("@) {
            Some(p) => e.subrange(0, p) + ".iter().filter_map(|item| /* map logic here */).collect::<Vec<_>>()"@,
            None => "vec![]"@,
        }
    } else if ".filter(Boolean)"@.is_suffix_of(e) {
        e.subrange(0, e.len() - ".filter(Boolean)"@.len()) + ".into_iter().flatten().collect::<Vec<_>>()"@
    } else if contains_seq(e, ".replace(REGEX("@) || contains_seq(e, ".replace(&REGEX("@) || contains_seq(
        e,
        ".replace(&r_e_g_e_x("@,
    ) {
        regex_replaces(e)
    } else if contains_seq(e, "path.node.id.name"@) {
        "node.ident.sym.to_string()"@
    } else if contains_seq(e, "path.node.id"@) {
        "path.node.id"@
    } else if contains_seq(e, "path.node"@) {
        replaced(e, "path.node"@, "node"@)
    } else if contains_seq(e, "path.parent.type"@) {
        "parent_type"@
    } else if contains_seq(e, "path.parent.id.name"@) {
        "path.parent.id.name"@
    } else if contains_seq(e, ".startsWith("@) {
        replaced(e, ".startsWith("@, ".starts_with("@)
    } else if contains_seq(e, ".endsWith("@) {
        replaced(e, ".endsWith("@, ".ends_with("@)
    } else if contains_seq(e, ".test("@) {
        "/* TODO: translate regex test */true"@
    } else if is_call(e) {
        match find_first(e, "("@) {
            Some(p) => if p + 1 >= e.len() {
                e
            } else {
                let f = snake_case(e.subrange(0, p));
                if e.subrange(p + 1, e.len() - 1).len() == 0 {
                    f + "()"@
                } else {
                    f + "("@ + join_seq(args_list(e, arg_pieces(e, p), 0), ", "@) + ")"@
                }
            },
            None => e,
        }
    } else if contains_seq(e, ".["@) {
        let r = replaced(e, ".["@, "["@);
        match find_first(r, "["@) {
            Some(p) => {
                let b = byte_len(r.subrange(0, p));
                if b + 1 < r.len() {
                    if '0' <= r[b + 1] && r[b + 1] <= '9' {
                        r
                    } else {
                        replaced(r, "["@, "[&"@)
                    }
                } else {
                    r
                }
            },
            None => r,
        }
    } else if ".length"@.is_suffix_of(e) {
        e.subrange(0, e.len() - ".length"@.len()) + ".len()"@
    } else if contains_seq(e, ".type"@) {
        replaced(e, ".type"@, ".hook_type"@)
    } else if contains_seq(e, ".stateName"@) {
        replaced(e, ".stateName"@, ".state_name"@)
    } else if contains_seq(e, ".setterName"@) {
        replaced(e, ".setterName"@, ".setter_name"@)
    } else if contains_seq(e, ".initialValue"@) {
        replaced(e, ".initialValue"@, ".initial_value"@)
    } else if contains_seq(e, ".jsxElements"@) {
        replaced(e, ".jsxElements"@, ".jsx_elements"@)
    } else if e == "csharpType"@ {
        "csharp_type"@
    } else if e == "csharpValue"@ {
        "csharp_value"@
    } else if e == "jsValue"@ {
        "js_value"@
    } else if e == "initialValue"@ {
        "initial_value"@
    } else if ident_chars(e) {
        snake_case(e)
    } else {
        e
    }
}

/// The call arguments from the `i`-th on, each translated and borrowed.
pub open spec fn args_list(e: Seq<char>, pieces: Seq<Seq<char>>, i: int) -> Seq<Seq<char>>
    decreases e.len(), 0nat, pieces.len() - i,
{
    if i < 0 || i >= pieces.len() {
        Seq::empty()
    } else {
        let t = trim_ws(pieces[i]);
        seq![
            "&"@ + (if t.len() < e.len() {
                js_plain(t)
            } else {
                Seq::empty()
            }),
        ] + args_list(e, pieces, i + 1)
    }
}

/// The mapping for the longest of the first `i` leading runs of parts that
/// the metadata maps, followed by the rest of `e`.
pub open spec fn prefix_mapping(
    e: Seq<char>,
    m: Option<&PluginMetadata>,
    parts: Seq<Seq<char>>,
    i: int,
) -> Option<Seq<char>>
    decreases i,
{
    if i < 1 {
        None
    } else {
        let prefix = join_seq(parts.take(i), "."@);
        match mapping_for(m, prefix) {
            Some(v) => Some(v + e.subrange(prefix.len() as int, e.len() as int)),
            None => prefix_mapping(e, m, parts, i - 1),
        }
    }
}

/// The mapping found for a leading run of the `.`-separated parts of `e`,
/// longest first, when there is metadata and `e` holds a `.`.
pub open spec fn mapped_prefix(e: Seq<char>, m: Option<&PluginMetadata>) -> Option<Seq<char>> {
    if m is Some && contains_seq(e, "."@) {
        prefix_mapping(e, m, split_seq(e, "."@), split_seq(e, "."@).len() as int)
    } else {
        None
    }
}

/// A JavaScript expression in Rust: the metadata's mapping of the whole
/// expression, else of its longest mapped leading run of parts, else the
/// textual rules.
pub open spec fn js_to_rust(e: Seq<char>, m: Option<&PluginMetadata>) -> Seq<char> {
    match mapping_for(m, e) {
        Some(v) => v,
        None => match mapped_prefix(e, m) {
            Some(v) => v,
            None => js_plain(e),
        },
    }
}

/// Whether translating `e` with metadata `m` stays within the text.
pub open spec fn js_ok(e: Seq<char>, m: Option<&PluginMetadata>) -> bool {
    mapping_for(m, e) is Some || mapped_prefix(e, m) is Some || js_plain_ok(e)
}

/// The first `p` characters of `s` measured in UTF-8 bytes, or `cap` if that
/// is less.
pub(crate) fn byte_offset_capped(s: &str, p: usize, cap: usize) -> (r: usize)
    requires
        p <= s@.len(),
    ensures
        r <= cap,
        r < cap ==> r == byte_len(s@.subrange(0, p as int)),
        r == cap ==> byte_len(s@.subrange(0, p as int)) >= cap,
{
    let mut b: usize = 0;
    let mut j: usize = 0;
    while j < p
        invariant
            p <= s@.len(),
            j <= p,
            b <= cap,
            b < cap ==> b == byte_len(s@.subrange(0, j as int)),
            b == cap ==> byte_len(s@.subrange(0, j as int)) >= cap,
        decreases p - j,
    {
        let c = s.get_char(j);
        proof {
            assert(s@.subrange(0, j + 1).drop_last() =~= s@.subrange(0, j as int));
            assert(s@.subrange(0, j + 1).last() == c);
        }
        let code: u32 = c as u32;
        let w: usize = if code < 0x80 {
            1
        } else if code < 0x800 {
            2
        } else if code < 0x10000 {
            3
        } else {
            4
        };
        if b < cap {
            if w >= cap - b {
                b = cap;
            } else {
                b = b + w;
            }
        }
        j = j + 1;
    }
    b
}

/// `s` with every occurrence of a literal `f` replaced by `t`.
fn replace_lit(s: &str, f: &str, t: &str) -> (r: String)
    requires
        f@.len() > 0,
    ensures
        r@ == replaced(s@, f@, t@),
{
    crate::text::replace_str(s, f, t)
}

/// A JavaScript expression in Rust, by the textual rules alone.
#[verifier::spinoff_prover]
#[verifier::rlimit(50)]
fn js_plain_exec(e: &str) -> (r: String)
    requires
        js_plain_ok(e@),
    ensures
        r@ == js_plain(e@),
    decreases e@.len(),
{
    let n = e.unicode_len();
    if str_eq(e, "path") {
        return owned("n");
    }
    if str_eq(e, "state") {
        return owned("self");
    }
    if starts_with(e, "\"") && crate::text::ends_with(e, "\"") {
        return owned(e);
    }
    if starts_with(e, "'") && crate::text::ends_with(e, "'") {
        return owned(e);
    }
    if contains_str(e, " {") && n > 0 && is_uppercase(e.get_char(0)) {
        return owned(e);
    }
    if str_eq(crate::text::trim(e), "vec![]") {
        return owned(e);
    }
    if contains_str(e, ".map(expr)") && contains_str(e, ".filter(Boolean)") {
        return match crate::text::find_str(e, ".map(") {
            Some(p) => {
                proof {
                    crate::text::lemma_find_from(e@, ".map("@, 0);
                }
                joined(e.substring_char(0, p), ".iter().filter_map(|item| /* map logic here */).collect::<Vec<_>>()")
            },
            None => owned("vec![]"),
        };
    }
    if crate::text::ends_with(e, ".filter(Boolean)") {
        let m = ".filter(Boolean)".unicode_len();
        return joined(e.substring_char(0, n - m), ".into_iter().flatten().collect::<Vec<_>>()");
    }
    if contains_str(e, ".replace(REGEX(") || contains_str(e, ".replace(&REGEX(") || contains_str(
        e,
        ".replace(&r_e_g_e_x(",
    ) {
        proof {
            reveal_strlit(".replace(REGEX(\\\\), \"\\\\\\\\\")");
            reveal_strlit(".replace(REGEX(\"), \"\\\\\\\"\")");
            reveal_strlit(".replace(REGEX(\\n), \"\\\\n\")");
            reveal_strlit(".replace(REGEX(\\r), \"\\\\r\")");
            reveal_strlit(".replace(REGEX(\\t), \"\\\\t\")");
        }
        let r1 = replace_lit(e, ".replace(REGEX(\\\\), \"\\\\\\\\\")", ".replace('\\\\', \"\\\\\\\\\")");
        let r2 = replace_lit(r1.as_str(), ".replace(REGEX(\"), \"\\\\\\\"\")", ".replace('\"', \"\\\\\\\"\")");
        let r3 = replace_lit(r2.as_str(), ".replace(REGEX(\\n), \"\\\\n\")", ".replace('\\n', \"\\\\n\")");
        let r4 = replace_lit(r3.as_str(), ".replace(REGEX(\\r), \"\\\\r\")", ".replace('\\r', \"\\\\r\")");
        return replace_lit(r4.as_str(), ".replace(REGEX(\\t), \"\\\\t\")", ".replace('\\t', \"\\\\t\")");
    }
    if contains_str(e, "path.node.id.name") {
        return owned("node.ident.sym.to_string()");
    }
    if contains_str(e, "path.node.id") {
        return owned("path.node.id");
    }
    if contains_str(e, "path.node") {
        proof {
            reveal_strlit("path.node");
        }
        return replace_lit(e, "path.node", "node");
    }
    if contains_str(e, "path.parent.type") {
        return owned("parent_type");
    }
    if contains_str(e, "path.parent.id.name") {
        return owned("path.parent.id.name");
    }
    if contains_str(e, ".startsWith(") {
        proof {
            reveal_strlit(".startsWith(");
        }
        return replace_lit(e, ".startsWith(", ".starts_with(");
    }
    if contains_str(e, ".endsWith(") {
        proof {
            reveal_strlit(".endsWith(");
        }
        return replace_lit(e, ".endsWith(", ".ends_with(");
    }
    if contains_str(e, ".test(") {
        return owned("/* TODO: translate regex test */true");
    }
    assert(!before_call(e@));
    if contains_str(e, "(") && contains_str(e, ")") {
        return js_call_exec(e);
    }
    if contains_str(e, ".[") {
        proof {
            reveal_strlit(".[");
            reveal_strlit("[");
        }
        let r = replace_lit(e, ".[", "[");
        return match crate::text::find_str(r.as_str(), "[") {
            Some(p) => {
                proof {
                    crate::text::lemma_find_from(r@, "["@, 0);
                }
                let rn = r.unicode_len();
                let b = byte_offset_capped(r.as_str(), p, rn);
                if b < rn && rn - b > 1 {
                    let c = r.as_str().get_char(b + 1);
                    if '0' <= c && c <= '9' {
                        r
                    } else {
                        replace_lit(r.as_str(), "[", "[&")
                    }
                } else {
                    r
                }
            },
            None => r,
        };
    }
    if crate::text::ends_with(e, ".length") {
        let m = ".length".unicode_len();
        return joined(e.substring_char(0, n - m), ".len()");
    }
    if contains_str(e, ".type") {
        proof {
            reveal_strlit(".type");
        }
        return replace_lit(e, ".type", ".hook_type");
    }
    if contains_str(e, ".stateName") {
        proof {
            reveal_strlit(".stateName");
        }
        return replace_lit(e, ".stateName", ".state_name");
    }
    if contains_str(e, ".setterName") {
        proof {
            reveal_strlit(".setterName");
        }
        return replace_lit(e, ".setterName", ".setter_name");
    }
    if contains_str(e, ".initialValue") {
        proof {
            reveal_strlit(".initialValue");
        }
        return replace_lit(e, ".initialValue", ".initial_value");
    }
    if contains_str(e, ".jsxElements") {
        proof {
            reveal_strlit(".jsxElements");
        }
        return replace_lit(e, ".jsxElements", ".jsx_elements");
    }
    if str_eq(e, "csharpType") {
        return owned("csharp_type");
    }
    if str_eq(e, "csharpValue") {
        return owned("csharp_value");
    }
    if str_eq(e, "jsValue") {
        return owned("js_value");
    }
    if str_eq(e, "initialValue") {
        return owned("initial_value");
    }
    if all_ident_chars(e) {
        to_snake_case(e)
    } else {
        owned(e)
    }
}

/// Whether every character is alphanumeric or `_`.
fn all_ident_chars(e: &str) -> (r: bool)
    ensures
        r == ident_chars(e@),
{
    let n = e.unicode_len();
    let mut i: usize = 0;
    while i < n
        invariant
            n == e@.len(),
            i <= n,
            forall|j: int| 0 <= j < i ==> char_is_alphanumeric(#[trigger] e@[j]) || e@[j] == '_',
        decreases n - i,
    {
        let c = e.get_char(i);
        if !(crate::text::is_alphanumeric(c) || c == '_') {
            return false;
        }
        i = i + 1;
    }
    true
}

/// A JavaScript call in Rust: the callee in snake case and each argument
/// translated and borrowed.
#[verifier::spinoff_prover]
fn js_call_exec(e: &str) -> (r: String)
    requires
        js_plain_ok(e@),
        !before_call(e@),
        is_call(e@),
    ensures
        r@ == js_plain(e@),
    decreases e@.len(), 0nat,
{
    let n = e.unicode_len();
    match crate::text::find_str(e, "(") {
        None => owned(e),
        Some(p) => {
            proof {
                crate::text::lemma_find_from(e@, "("@, 0);
                reveal_strlit("(");
            }
            if p + 1 >= n {
                return owned(e);
            }
            proof {
                assert(!(before_call(e@) || !is_call(e@)));
                assert(js_plain_ok(e@) == (match find_first(e@, "("@) {
                    Some(p) => p + 1 >= e@.len() || ((e@.last() as u32) < 128 && forall|k: int|
                        0 <= k < arg_pieces(e@, p).len() ==> trim_ws(#[trigger] arg_pieces(e@, p)[k]).len() < e@.len()
                            && js_plain_ok(trim_ws(arg_pieces(e@, p)[k]))),
                    None => true,
                }));
            }
            let f = to_snake_case(e.substring_char(0, p));
            let args = e.substring_char(p + 1, n - 1);
            if args.unicode_len() == 0 {
                return joined(f.as_str(), "()");
            }
            proof {
                reveal_strlit(",");
            }
            let pieces = crate::text::split_str(args, ",");
            let ghost views = pieces@.map_values(|x: String| x@);
            proof {
                crate::text::lemma_split_pieces(args@, ","@);
                assert(views == arg_pieces(e@, p as int));
            }
            proof {
                let pieces_spec = arg_pieces(e@, p as int);
                assert(forall|j: int|
                    0 <= j < pieces_spec.len() ==> trim_ws(#[trigger] pieces_spec[j]).len() < e@.len()
                        && js_plain_ok(trim_ws(pieces_spec[j])));
            }
            let mut out: Vec<String> = Vec::new();
            let mut k: usize = 0;
            assert(out@.map_values(|x: String| x@) + args_list(e@, views, 0) =~= args_list(e@, views, 0));
            while k < pieces.len()
                invariant
                    views == pieces@.map_values(|x: String| x@),
                    views == arg_pieces(e@, p as int),
                    forall|j: int|
                        0 <= j < views.len() ==> trim_ws(#[trigger] views[j]).len() < e@.len() && js_plain_ok(
                            trim_ws(views[j]),
                        ),
                    k <= views.len(),
                    out@.map_values(|x: String| x@) + args_list(e@, views, k as int) == args_list(e@, views, 0),
                decreases views.len() - k,
            {
                let t = crate::text::trim(pieces[k].as_str());
                proof {
                    assert(pieces@[k as int]@ == views[k as int]);
                }
                let x = js_plain_exec(t);
                let piece = joined("&", x.as_str());
                let ghost before = out@;
                out.push(piece);
                proof {
                    assert(out@.map_values(|x: String| x@) =~= before.map_values(|x: String| x@).push(piece@));
                    assert(args_list(e@, views, k as int) == seq![piece@] + args_list(e@, views, k + 1));
                    assert(out@.map_values(|x: String| x@) + args_list(e@, views, k + 1) =~= before.map_values(
                        |x: String| x@,
                    ) + args_list(e@, views, k as int));
                }
                k = k + 1;
            }
            proof {
                assert(args_list(e@, views, k as int) =~= Seq::<Seq<char>>::empty());
                assert(out@.map_values(|x: String| x@) =~= args_list(e@, views, 0));
            }
            let joined_args = join_strs(&out, ", ");
            let head = joined3(f.as_str(), "(", joined_args.as_str());
            let r = joined(head.as_str(), ")");
            proof {
                assert(joined_args@ == join_seq(args_list(e@, views, 0), ", "@));
                assert(!before_call(e@) && is_call(e@));
            }
            r
        },
    }
}

/// Translate a JavaScript expression into Rust, without metadata.
pub fn translate_js_to_rust(js_expr: &str) -> (r: String)
    requires
        js_plain_ok(js_expr@),
    ensures
        r@ == js_to_rust(js_expr@, None),
{
    js_plain_exec(js_expr)
}

/// The first `i` strings joined, with `sep` between each two.
fn join_first(parts: &Vec<String>, i: usize, sep: &str) -> (r: String)
    requires
        i <= parts@.len(),
    ensures
        r@ == join_seq(parts@.map_values(|x: String| x@).take(i as int), sep@),
{
    let ghost views = parts@.map_values(|x: String| x@);
    let mut out = String::new();
    let mut j: usize = 0;
    while j < i
        invariant
            i <= parts@.len(),
            j <= i,
            views == parts@.map_values(|x: String| x@),
            out@ == join_seq(views.subrange(0, j as int), sep@),
        decreases i - j,
    {
        proof {
            assert(views.subrange(0, j + 1).drop_last() =~= views.subrange(0, j as int));
        }
        if j == 0 {
            out = owned(parts[j].as_str());
        } else {
            let with_sep = joined(out.as_str(), sep);
            out = joined(with_sep.as_str(), parts[j].as_str());
        }
        j = j + 1;
    }
    assert(views.subrange(0, i as int) =~= views.take(i as int));
    out
}

/// Translate a JavaScript expression into Rust: the metadata's mapping of
/// the whole expression comes first, then that of its longest mapped leading
/// run of `.`-separated parts (the rest kept), then the textual rules.
pub fn translate_js_to_rust_with_metadata(js_expr: &str, metadata: Option<&PluginMetadata>) -> (r: String)
    requires
        js_ok(js_expr@, metadata),
    ensures
        r@ == js_to_rust(js_expr@, metadata),
{
    if let Some(v) = mapped(metadata, js_expr) {
        return owned(v);
    }
    if let Some(v) = mapped_prefix_exec(js_expr, metadata) {
        return v;
    }
    js_plain_exec(js_expr)
}

/// The mapping found for a leading run of the `.`-separated parts of `e`.
fn mapped_prefix_exec(js_expr: &str, metadata: Option<&PluginMetadata>) -> (r: Option<String>)
    ensures
        match r {
            Some(v) => mapped_prefix(js_expr@, metadata) == Some(v@),
            None => mapped_prefix(js_expr@, metadata) is None,
        },
{
    if metadata.is_some() && contains_str(js_expr, ".") {
        proof {
            reveal_strlit(".");
        }
        let n = js_expr.unicode_len();
        let parts = split_str(js_expr, ".");
        let ghost views = parts@.map_values(|x: String| x@);
        proof {
            crate::text::lemma_split_pieces(js_expr@, "."@);
        }
        let mut i: usize = parts.len();
        while i >= 1
            invariant
                views == parts@.map_values(|x: String| x@),
                views == split_seq(js_expr@, "."@),
                "."@.len() == 1,
                n == js_expr@.len(),
                i <= views.len(),
                metadata is Some,
                contains_seq(js_expr@, "."@),
                mapped_prefix(js_expr@, metadata) == prefix_mapping(js_expr@, metadata, views, i as int),
            decreases i,
        {
            let prefix = join_first(&parts, i, ".");
            if let Some(mp) = mapped(metadata, prefix.as_str()) {
                proof {
                    crate::text::lemma_split_join_prefix(js_expr@, "."@, i as int);
                }
                let plen = prefix.unicode_len();
                return Some(joined(mp, js_expr.substring_char(plen, n)));
            }
            i = i - 1;
        }
        None
    } else {
        None
    }
}

/// Whether one of the translations tried before that of a call applies.
fn before_call_exec(e: &str) -> (r: bool)
    ensures
        r == before_call(e@),
{
    let n = e.unicode_len();
    str_eq(e, "path") || str_eq(e, "state") || starts_with(e, "\"") && crate::text::ends_with(e, "\"")
        || starts_with(e, "'") && crate::text::ends_with(e, "'") || contains_str(e, " {") && n > 0
        && is_uppercase(e.get_char(0)) || str_eq(crate::text::trim(e), "vec![]") || contains_str(
        e,
        ".map(expr)",
    ) && contains_str(e, ".filter(Boolean)") || crate::text::ends_with(e, ".filter(Boolean)") || contains_str(
        e,
        ".replace(REGEX(",
    ) || contains_str(e, ".replace(&REGEX(") || contains_str(e, ".replace(&r_e_g_e_x(") || contains_str(
        e,
        "path.node.id.name",
    ) || contains_str(e, "path.node.id") || contains_str(e, "path.node") || contains_str(e, "path.parent.type")
        || contains_str(e, "path.parent.id.name") || contains_str(e, ".startsWith(") || contains_str(
        e,
        ".endsWith(",
    ) || contains_str(e, ".test(")
}

/// Whether translating `e` without metadata stays within the text.
pub fn js_translatable(e: &str) -> (r: bool)
    ensures
        r == js_plain_ok(e@),
    decreases e@.len(),
{
    if before_call_exec(e) || !(contains_str(e, "(") && contains_str(e, ")")) {
        return true;
    }
    let n = e.unicode_len();
    match crate::text::find_str(e, "(") {
        None => true,
        Some(p) => {
            proof {
                crate::text::lemma_find_from(e@, "("@, 0);
                reveal_strlit("(");
                reveal_strlit(",");
            }
            if p + 1 >= n {
                return true;
            }
            proof {
                assert(!(before_call(e@) || !is_call(e@)));
                assert(js_plain_ok(e@) == ((e@.last() as u32) < 128 && forall|k: int|
                    0 <= k < arg_pieces(e@, p as int).len() ==> trim_ws(#[trigger] arg_pieces(e@, p as int)[k]).len()
                        < e@.len() && js_plain_ok(trim_ws(arg_pieces(e@, p as int)[k]))));
            }
            let last = e.get_char(n - 1);
            if !((last as u32) < 128) {
                return false;
            }
            let args = e.substring_char(p + 1, n - 1);
            let pieces = crate::text::split_str(args, ",");
            let ghost views = pieces@.map_values(|x: String| x@);
            proof {
                crate::text::lemma_split_pieces(args@, ","@);
                assert(views == arg_pieces(e@, p as int));
            }
            let mut k: usize = 0;
            while k < pieces.len()
                invariant
                    views == pieces@.map_values(|x: String| x@),
                    views == arg_pieces(e@, p as int),
                    args@ == e@.subrange(p + 1, n - 1),
                    n == e@.len(),
                    p + 1 < n,
                    (e@.last() as u32) < 128,
                    js_plain_ok(e@) == ((e@.last() as u32) < 128 && forall|k: int|
                        0 <= k < arg_pieces(e@, p as int).len() ==> trim_ws(#[trigger] arg_pieces(e@, p as int)[k]).len()
                            < e@.len() && js_plain_ok(trim_ws(arg_pieces(e@, p as int)[k]))),
                    k <= views.len(),
                    forall|j: int| 0 <= j < k ==> trim_ws(#[trigger] views[j]).len() < e@.len() && js_plain_ok(
                        trim_ws(views[j]),
                    ),
                decreases views.len() - k,
            {
                let t = crate::text::trim(pieces[k].as_str());
                proof {
                    assert(pieces@[k as int]@ == views[k as int]);
                    crate::text::lemma_trim_len(views[k as int]);
                    crate::text::lemma_split_pieces(args@, ","@);
                    assert(split_seq(args@, ","@)[k as int].len() <= args@.len());
                    assert(trim_ws(views[k as int]).len() < e@.len());
                }
                if !js_translatable(t) {
                    assert(!(trim_ws(views[k as int]).len() < e@.len() && js_plain_ok(trim_ws(views[k as int]))));
                    return false;
                }
                k = k + 1;
            }
            true
        },
    }
}

/// Whether translating `e` with metadata `m` stays within the text.
pub fn js_translatable_with_metadata(e: &str, m: Option<&PluginMetadata>) -> (r: bool)
    ensures
        r == js_ok(e@, m),
{
    if mapped(m, e).is_some() {
        return true;
    }
    if mapped_prefix_exec(e, m).is_some() {
        return true;
    }
    js_translatable(e)
}


/// Whether a text is made of ASCII letters only.
pub open spec fn ascii_letters(s: Seq<char>) -> bool {
    forall|i: int| 0 <= i < s.len() ==> ('a' <= #[trigger] s[i] <= 'z' || 'A' <= s[i] <= 'Z')
}

/// A text with no `c` in it contains no text that has a `c` at some position.
proof fn lemma_absent_char(e: Seq<char>, p: Seq<char>, j: int)
    requires
        0 <= j < p.len(),
        forall|i: int| 0 <= i < e.len() ==> #[trigger] e[i] != p[j],
    ensures
        !contains_seq(e, p),
{
    lemma_find_from(e, p, 0);
    if contains_seq(e, p) {
        let i = find_first(e, p).unwrap();
        assert(e.subrange(i, i + p.len())[j] == e[i + j]);
    }
}

/// A text whose only `.` is at `k`, followed by `e`, contains no text with a
/// `.` that is followed by another character.
proof fn lemma_dot_then(e: Seq<char>, k: int, p: Seq<char>, j: int)
    requires
        0 <= j && j + 1 < p.len(),
        p[j] == '.',
        p[j + 1] != 'e',
        0 <= k && k + 1 < e.len(),
        e[k + 1] == 'e',
        forall|i: int| 0 <= i < e.len() && #[trigger] e[i] == '.' ==> i == k,
    ensures
        !contains_seq(e, p),
{
    lemma_find_from(e, p, 0);
    if contains_seq(e, p) {
        let i = find_first(e, p).unwrap();
        assert(e.subrange(i, i + p.len())[j] == e[i + j]);
        assert(e.subrange(i, i + p.len())[j + 1] == e[i + j + 1]);
    }
}

/// Trimming white space leaves a contiguous part of the text.
proof fn lemma_trim_is_part(s: Seq<char>)
    ensures
        exists|i: int, j: int| 0 <= i <= j <= s.len() && trim_ws(s) == s.subrange(i, j),
{
    lemma_trim_start_is_suffix(s);
    let i = choose|i: int| 0 <= i <= s.len() && trim_start_ws(s) == s.subrange(i, s.len() as int);
    let u = trim_start_ws(s);
    lemma_trim_end_is_prefix(u);
    let j = choose|j: int| 0 <= j <= u.len() && trim_end_ws(u) == u.subrange(0, j);
    assert(trim_ws(s) == s.subrange(i, i + j));
}

proof fn lemma_trim_start_is_suffix(s: Seq<char>)
    ensures
        exists|i: int| 0 <= i <= s.len() && trim_start_ws(s) == s.subrange(i, s.len() as int),
    decreases s.len(),
{
    if s.len() > 0 && crate::text::char_is_whitespace(s[0]) {
        let rest = s.subrange(1, s.len() as int);
        lemma_trim_start_is_suffix(rest);
        let i = choose|i: int| 0 <= i <= rest.len() && trim_start_ws(rest) == rest.subrange(i, rest.len() as int);
        assert(rest.subrange(i, rest.len() as int) =~= s.subrange(i + 1, s.len() as int));
    } else {
        assert(s.subrange(0, s.len() as int) =~= s);
    }
}

proof fn lemma_trim_end_is_prefix(s: Seq<char>)
    ensures
        exists|j: int| 0 <= j <= s.len() && trim_end_ws(s) == s.subrange(0, j),
    decreases s.len(),
{
    if s.len() > 0 && crate::text::char_is_whitespace(s.last()) {
        lemma_trim_end_is_prefix(s.drop_last());
        let j = choose|j: int| 0 <= j <= s.drop_last().len() && trim_end_ws(s.drop_last()) == s.drop_last().subrange(0, j);
        assert(s.drop_last().subrange(0, j) =~= s.subrange(0, j));
    } else {
        assert(s.subrange(0, s.len() as int) =~= s);
    }
}

/// Replacing a text that starts with `.` leaves a text without `.` as it is.
proof fn lemma_replace_no_dot(s: Seq<char>, f: Seq<char>, t: Seq<char>)
    requires
        f.len() > 0,
        f[0] == '.',
        forall|i: int| 0 <= i < s.len() ==> #[trigger] s[i] != '.',
    ensures
        replaced(s, f, t) == s,
    decreases s.len(),
{
    if s.len() >= f.len() {
        assert(s.subrange(0, f.len() as int)[0] == s[0]);
        let rest = s.subrange(1, s.len() as int);
        assert forall|i: int| 0 <= i < rest.len() implies #[trigger] rest[i] != '.' by {
            assert(rest[i] == s[i + 1]);
        }
        lemma_replace_no_dot(rest, f, t);
        assert(seq![s[0]] + rest =~= s);
    }
}

/// Replacing a text that starts with `.` passes over a first part without `.`.
proof fn lemma_replace_skips(x: Seq<char>, y: Seq<char>, f: Seq<char>, t: Seq<char>)
    requires
        f.len() > 0,
        f[0] == '.',
        forall|i: int| 0 <= i < x.len() ==> #[trigger] x[i] != '.',
        y.len() >= f.len(),
    ensures
        replaced(x + y, f, t) == x + replaced(y, f, t),
    decreases x.len(),
{
    if x.len() > 0 {
        let s = x + y;
        assert(s.subrange(0, f.len() as int)[0] == x[0]);
        let xr = x.subrange(1, x.len() as int);
        assert forall|i: int| 0 <= i < xr.len() implies #[trigger] xr[i] != '.' by {
            assert(xr[i] == x[i + 1]);
        }
        lemma_replace_skips(xr, y, f, t);
        assert(s.subrange(1, s.len() as int) =~= xr + y);
        assert(seq![x[0]] + (xr + replaced(y, f, t)) =~= x + replaced(y, f, t));
    } else {
        assert(x + y =~= y);
        assert(x + replaced(y, f, t) =~= replaced(y, f, t));
    }
}

/// A JavaScript `.endsWith(` test becomes Rust's suffix test `.ends_with(`:
/// for a receiver and an argument that are plain names, the translation is
/// the same call with the method renamed, never a prefix test.
pub proof fn law_ends_with_is_a_suffix_test(a: Seq<char>, b: Seq<char>)
    requires
        a.len() > 0,
        ascii_letters(a),
        ascii_letters(b),
    ensures
        js_plain(a + ".endsWith("@ + b + ")"@) == a + ".ends_with("@ + b + ")"@,
        js_to_rust(a + ".endsWith("@ + b + ")"@, None) == a + ".ends_with("@ + b + ")"@,
{
    let f = ".endsWith("@;
    let t = ".ends_with("@;
    reveal_strlit(".endsWith(");
    reveal_strlit(".ends_with(");
    reveal_strlit(")");
    let e = a + f + b + ")"@;
    let k = a.len() as int;
    assert(e[k] == '.');
    assert(e[k + 1] == 'e');
    assert forall|i: int| 0 <= i < e.len() && #[trigger] e[i] == '.' implies i == k by {
        if i < k {
            assert(e[i] == a[i]);
        } else if k < i < k + 10 {
            assert(e[i] == f[i - k]);
        } else if k + 10 <= i < k + 10 + b.len() {
            assert(e[i] == b[i - k - 10]);
        } else if i > k {
            assert(e[i] == ')');
        }
    }
    assert forall|i: int| 0 <= i < e.len() implies ('a' <= #[trigger] e[i] <= 'z' || 'A' <= e[i] <= 'Z' || e[i] == '.'
        || e[i] == '(' || e[i] == ')') by {
        if i < k {
            assert(e[i] == a[i]);
        } else if k <= i < k + 10 {
            assert(e[i] == f[i - k]);
        } else if k + 10 <= i < k + 10 + b.len() {
            assert(e[i] == b[i - k - 10]);
        } else {
            assert(e[i] == ')');
        }
    }
    // The guards before the `.endsWith(` rule do not hold
    reveal_strlit("path");
    reveal_strlit("state");
    reveal_strlit("\"");
    reveal_strlit("'");
    reveal_strlit(" {");
    reveal_strlit("vec![]");
    reveal_strlit(".map(expr)");
    reveal_strlit(".filter(Boolean)");
    reveal_strlit(".replace(REGEX(");
    reveal_strlit(".replace(&REGEX(");
    reveal_strlit(".replace(&r_e_g_e_x(");
    reveal_strlit("path.node.id.name");
    reveal_strlit("path.node.id");
    reveal_strlit("path.node");
    reveal_strlit("path.parent.type");
    reveal_strlit("path.parent.id.name");
    reveal_strlit(".startsWith(");
    assert(e.len() > 5);
    assert(e != "path"@ && e != "state"@);
    assert(e[0] == a[0]);
    assert(!("\""@.is_prefix_of(e))) by {
        if "\""@.is_prefix_of(e) {
            assert(e.subrange(0, 1)[0] == e[0]);
        }
    }
    assert(!("'"@.is_prefix_of(e))) by {
        if "'"@.is_prefix_of(e) {
            assert(e.subrange(0, 1)[0] == e[0]);
        }
    }
    lemma_absent_char(e, " {"@, 0);
    assert(trim_ws(e) != "vec![]"@) by {
        lemma_trim_is_part(e);
        let (i, j) = choose|i: int, j: int| 0 <= i <= j <= e.len() && trim_ws(e) == e.subrange(i, j);
        if trim_ws(e) == "vec![]"@ {
            assert(e.subrange(i, j).len() == 6);
            assert(i + 3 < e.len());
            assert(e.subrange(i, j)[3] == e[i + 3]);
            assert("vec![]"@[3] == '!');
            assert('a' <= e[i + 3] <= 'z' || 'A' <= e[i + 3] <= 'Z' || e[i + 3] == '.' || e[i + 3] == '('
                || e[i + 3] == ')');
        }
    }
    lemma_dot_then(e, k, ".map(expr)"@, 0);
    assert(!(".filter(Boolean)"@.is_suffix_of(e))) by {
        if ".filter(Boolean)"@.is_suffix_of(e) {
            let n = e.len() as int;
            assert(e.subrange(n - 16, n)[0] == e[n - 16]);
            assert(e.subrange(n - 16, n)[1] == e[n - 15]);
        }
    }
    lemma_dot_then(e, k, ".replace(REGEX("@, 0);
    lemma_dot_then(e, k, ".replace(&REGEX("@, 0);
    lemma_dot_then(e, k, ".replace(&r_e_g_e_x("@, 0);
    lemma_dot_then(e, k, "path.node.id.name"@, 4);
    lemma_dot_then(e, k, "path.node.id"@, 4);
    lemma_dot_then(e, k, "path.node"@, 4);
    lemma_dot_then(e, k, "path.parent.type"@, 4);
    lemma_dot_then(e, k, "path.parent.id.name"@, 4);
    lemma_dot_then(e, k, ".startsWith("@, 0);
    // The `.endsWith(` rule applies
    assert(e.subrange(k, k + 10) =~= f);
    assert(occurs_at(e, f, k));
    lemma_find_from(e, f, 0);
    assert(contains_seq(e, f));
    // and renames the one call
    assert forall|i: int| 0 <= i < a.len() implies #[trigger] a[i] != '.' by {}
    let y = f + b + ")"@;
    assert(e =~= a + y);
    lemma_replace_skips(a, y, f, t);
    assert(y.subrange(0, 10) =~= f);
    let z = b + ")"@;
    assert(y.subrange(10, y.len() as int) =~= z);
    assert forall|i: int| 0 <= i < z.len() implies #[trigger] z[i] != '.' by {
        if i < b.len() {
            assert(z[i] == b[i]);
        }
    }
    lemma_replace_no_dot(z, f, t);
    assert(replaced(y, f, t) == t + z);
    assert(a + (t + z) =~= a + t + b + ")"@);
}

} // verus!
