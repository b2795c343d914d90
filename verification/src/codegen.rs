//! Rust code generated from the transforms found in a Babel plugin: each
//! transform becomes a few lines of Rust at a given indentation.

use vstd::prelude::*;
use crate::debug_text::{transform_text, debug_transform};
use crate::strings::{str_eq, owned, joined, joined3, starts_with};
use crate::text::{
    contains_seq, contains_str, ends_with, find_first, find_last, find_str, rfind_str, join_seq, join_strs,
    replaced, replace_str, lemma_find_from, lemma_find_last_from, trim, trim_ws, strip_suffixes, trim_end_str,
};
use crate::translate::{
    mapping_for, mapped, snake_case, to_snake_case, js_plain, js_plain_ok, js_to_rust, js_ok,
    translate_js_to_rust, translate_js_to_rust_with_metadata,
};
use crate::condition::{condition_code, condition_ok, translate_condition};
use crate::metadata::{PluginMetadata, FunctionDef, ParamDef, value_for};
use crate::transform::{Transform, HelperFunction};
use crate::translate::{inferred_params, inferred_return_type, generate_inferred_params, infer_return_type};

verus! {

// ===================== small pieces =====================

/// `n` spaces.
pub open spec fn spaces(n: int) -> Seq<char> {
    Seq::new(n as nat, |i: int| ' ')
}

/// The indentation for a level: four spaces a level.
pub open spec fn indent_of(level: int) -> Seq<char> {
    spaces(level * 4)
}

/// The deepest level whose indentation fits in memory's address range.
pub open spec fn max_level() -> int {
    (usize::MAX / 4) as int
}

/// The indentation for a level.
pub fn indent_string(level: usize) -> (r: String)
    requires
        level <= max_level(),
    ensures
        r@ == indent_of(level as int),
{
    indent_str(level)
}

/// The indentation for a level.
fn indent_str(level: usize) -> (r: String)
    requires
        level <= max_level(),
    ensures
        r@ == indent_of(level as int),
{
    let n = level * 4;
    let mut out = String::new();
    let mut i: usize = 0;
    proof {
        reveal_strlit(" ");
    }
    while i < n
        invariant
            i <= n,
            out@ == spaces(i as int),
            " "@ == seq![' '],
        decreases n - i,
    {
        out = joined(out.as_str(), " ");
        assert(out@ =~= spaces(i + 1));
        i = i + 1;
    }
    out
}

/// The decimal digit for `d`.
pub open spec fn digit_char(d: int) -> char {
    if d == 0 {
        '0'
    } else if d == 1 {
        '1'
    } else if d == 2 {
        '2'
    } else if d == 3 {
        '3'
    } else if d == 4 {
        '4'
    } else if d == 5 {
        '5'
    } else if d == 6 {
        '6'
    } else if d == 7 {
        '7'
    } else if d == 8 {
        '8'
    } else {
        '9'
    }
}

/// A number written in decimal.
pub open spec fn decimal(n: nat) -> Seq<char>
    decreases n,
{
    if n < 10 {
        seq![digit_char(n as int)]
    } else {
        decimal(n / 10) + seq![digit_char((n % 10) as int)]
    }
}

/// A number written in decimal.
pub fn decimal_string(n: usize) -> (r: String)
    ensures
        r@ == decimal(n as nat),
    decreases n,
{
    let d = n % 10;
    let c = if d == 0 {
        '0'
    } else if d == 1 {
        '1'
    } else if d == 2 {
        '2'
    } else if d == 3 {
        '3'
    } else if d == 4 {
        '4'
    } else if d == 5 {
        '5'
    } else if d == 6 {
        '6'
    } else if d == 7 {
        '7'
    } else if d == 8 {
        '8'
    } else {
        '9'
    };
    let last = crate::text::char_string(c);
    if n < 10 {
        last
    } else {
        let front = decimal_string(n / 10);
        joined(front.as_str(), last.as_str())
    }
}

/// Each text translated to Rust without metadata.
pub open spec fn js_all(xs: Seq<String>) -> Seq<Seq<char>>
    decreases xs.len(),
{
    if xs.len() == 0 {
        Seq::empty()
    } else {
        js_all(xs.drop_last()).push(js_plain(xs.last()@))
    }
}

/// Whether each text can be translated.
pub open spec fn js_all_ok(xs: Seq<String>) -> bool {
    forall|i: int| 0 <= i < xs.len() ==> js_plain_ok(#[trigger] xs[i]@)
}

/// Each text translated to Rust without metadata, joined with `, `.
fn js_args_exec(xs: &Vec<String>) -> (r: String)
    requires
        js_all_ok(xs@),
    ensures
        r@ == join_seq(js_all(xs@), ", "@),
{
    let mut out: Vec<String> = Vec::new();
    let mut i: usize = 0;
    while i < xs.len()
        invariant
            i <= xs@.len(),
            js_all_ok(xs@),
            out@.map_values(|x: String| x@) == js_all(xs@.subrange(0, i as int)),
        decreases xs@.len() - i,
    {
        proof {
            assert(xs@.subrange(0, i + 1).drop_last() =~= xs@.subrange(0, i as int));
        }
        let t = translate_js_to_rust(xs[i].as_str());
        let ghost before = out@;
        out.push(t);
        proof {
            assert(out@.map_values(|x: String| x@) =~= before.map_values(|x: String| x@).push(t@));
        }
        i = i + 1;
    }
    assert(xs@.subrange(0, i as int) =~= xs@);
    join_strs(&out, ", ")
}

// ===================== template literals =====================

/// A template part escaped for a `format!` string.
pub open spec fn escape_part(p: Seq<char>) -> Seq<char> {
    let a = replaced(p, "\\"@, "\\\\"@);
    let b = replaced(a, "\""@, "\\\""@);
    let c = replaced(b, "{"@, "{{{{"@);
    replaced(c, "}"@, "}}}}"@)
}

/// The `format!` string of a template: each part escaped, with a `{}` after
/// each part that an expression follows.
pub open spec fn template_format(parts: Seq<String>, n_exprs: int) -> Seq<char>
    decreases parts.len(),
{
    if parts.len() == 0 {
        Seq::empty()
    } else {
        let i = parts.len() - 1;
        template_format(parts.drop_last(), n_exprs) + escape_part(parts.last()@) + (if i < n_exprs {
            "{}"@
        } else {
            Seq::empty()
        })
    }
}

/// A template expression in Rust; an atom's text is read as UTF-8.
pub open spec fn template_expr(e: Seq<char>, m: Option<&PluginMetadata>) -> Seq<char> {
    let t = js_to_rust(e, m);
    if contains_seq(t, "str_lit.value"@) || contains_seq(t, "ident.sym"@) {
        "String::from_utf8_lossy("@ + t + ".as_bytes())"@
    } else {
        t
    }
}

/// The template expressions in Rust.
pub open spec fn template_exprs(es: Seq<String>, m: Option<&PluginMetadata>) -> Seq<Seq<char>>
    decreases es.len(),
{
    if es.len() == 0 {
        Seq::empty()
    } else {
        template_exprs(es.drop_last(), m).push(template_expr(es.last()@, m))
    }
}

/// The code returning a template literal.
pub open spec fn template_code(parts: Seq<String>, exprs: Seq<String>, m: Option<&PluginMetadata>) -> Seq<char> {
    let fs = template_format(parts, exprs.len() as int);
    if exprs.len() == 0 {
        "return \""@ + fs + "\";\n"@
    } else {
        "return format!(\""@ + fs + "\", "@ + join_seq(template_exprs(exprs, m), ", "@) + ");\n"@
    }
}

/// A template part escaped for a `format!` string.
fn escape_part_exec(p: &str) -> (r: String)
    ensures
        r@ == escape_part(p@),
{
    proof {
        reveal_strlit("\\");
        reveal_strlit("\"");
        reveal_strlit("{");
        reveal_strlit("}");
    }
    let a = replace_str(p, "\\", "\\\\");
    let b = replace_str(a.as_str(), "\"", "\\\"");
    let c = replace_str(b.as_str(), "{", "{{{{");
    replace_str(c.as_str(), "}", "}}}}")
}

/// The code returning a template literal.
fn template_code_exec(parts: &Vec<String>, exprs: &Vec<String>, m: Option<&PluginMetadata>) -> (r: String)
    requires
        forall|k: int| 0 <= k < exprs@.len() ==> js_ok(#[trigger] exprs@[k]@, m),
    ensures
        r@ == template_code(parts@, exprs@, m),
{
    let mut fs = String::new();
    let mut i: usize = 0;
    while i < parts.len()
        invariant
            i <= parts@.len(),
            fs@ == template_format(parts@.subrange(0, i as int), exprs@.len() as int),
        decreases parts@.len() - i,
    {
        proof {
            assert(parts@.subrange(0, i + 1).drop_last() =~= parts@.subrange(0, i as int));
            reveal_strlit("{}");
        }
        let escaped = escape_part_exec(parts[i].as_str());
        let ghost before = fs@;
        fs = joined(fs.as_str(), escaped.as_str());
        if i < exprs.len() {
            fs = joined(fs.as_str(), "{}");
        }
        assert(fs@ =~= before + escaped@ + (if i < exprs@.len() {
            "{}"@
        } else {
            Seq::<char>::empty()
        }));
        i = i + 1;
    }
    assert(parts@.subrange(0, i as int) =~= parts@);
    if exprs.len() == 0 {
        return joined3("return \"", fs.as_str(), "\";\n");
    }
    let mut out: Vec<String> = Vec::new();
    let mut k: usize = 0;
    while k < exprs.len()
        invariant
            k <= exprs@.len(),
            forall|k: int| 0 <= k < exprs@.len() ==> js_ok(#[trigger] exprs@[k]@, m),
            out@.map_values(|x: String| x@) == template_exprs(exprs@.subrange(0, k as int), m),
        decreases exprs@.len() - k,
    {
        proof {
            assert(exprs@.subrange(0, k + 1).drop_last() =~= exprs@.subrange(0, k as int));
        }
        let t = translate_js_to_rust_with_metadata(exprs[k].as_str(), m);
        let x = if contains_str(t.as_str(), "str_lit.value") || contains_str(t.as_str(), "ident.sym") {
            joined3("String::from_utf8_lossy(", t.as_str(), ".as_bytes())")
        } else {
            t
        };
        let ghost before = out@;
        out.push(x);
        proof {
            assert(out@.map_values(|x: String| x@) =~= before.map_values(|x: String| x@).push(x@));
        }
        k = k + 1;
    }
    assert(exprs@.subrange(0, k as int) =~= exprs@);
    let args = join_strs(&out, ", ");
    let head = joined3("return format!(\"", fs.as_str(), "\", ");
    joined3(head.as_str(), args.as_str(), ");\n")
}

// ===================== string building =====================

/// `s` without leading and trailing quotes of either kind.
pub open spec fn trim_quotes(s: Seq<char>) -> Seq<char>
    decreases s.len(),
{
    if s.len() > 0 && (s[0] == '"' || s[0] == '\'') {
        trim_quotes(s.subrange(1, s.len() as int))
    } else if s.len() > 0 && (s.last() == '"' || s.last() == '\'') {
        trim_quotes(s.drop_last())
    } else {
        s
    }
}

/// `s` without leading and trailing backticks.
pub open spec fn trim_backticks(s: Seq<char>) -> Seq<char>
    decreases s.len(),
{
    if s.len() > 0 && s[0] == '`' {
        trim_backticks(s.subrange(1, s.len() as int))
    } else if s.len() > 0 && s.last() == '`' {
        trim_backticks(s.drop_last())
    } else {
        s
    }
}

/// A template's `${name}` holes turned into `{}`, from the left: the format
/// string and the names in order.
pub open spec fn template_vars(fs: Seq<char>) -> (Seq<char>, Seq<Seq<char>>)
    decreases fs.len(),
{
    match find_first(fs, "${"@) {
        Some(start) => match find_first(fs.subrange(start, fs.len() as int), "}"@) {
            Some(end) => if 2 <= end && 0 <= start && start + end + 1 <= fs.len() {
                let var = fs.subrange(start + 2, start + end);
                let next = fs.subrange(0, start) + "{}"@ + fs.subrange(start + end + 1, fs.len() as int);
                if next.len() < fs.len() {
                    let rest = template_vars(next);
                    (rest.0, seq![var] + rest.1)
                } else {
                    (fs, Seq::empty())
                }
            } else {
                (fs, Seq::empty())
            },
            None => (fs, Seq::empty()),
        },
        None => (fs, Seq::empty()),
    }
}

/// Each name translated to Rust without metadata.
pub open spec fn js_seqs(xs: Seq<Seq<char>>) -> Seq<Seq<char>>
    decreases xs.len(),
{
    if xs.len() == 0 {
        Seq::empty()
    } else {
        js_seqs(xs.drop_last()).push(js_plain(xs.last()))
    }
}

/// The statement that adds a pushed value to the `code` string.
pub open spec fn push_code(value: Seq<char>) -> Seq<char> {
    if "\""@.is_prefix_of(value) || "'"@.is_prefix_of(value) {
        let content = trim_quotes(value);
        "code.push_str(\""@ + replaced(replaced(content, "\\"@, "\\\\"@), "\""@, "\\\""@) + "\\n\");\n"@
    } else if "`"@.is_prefix_of(value) {
        let template = trim_backticks(value);
        if contains_seq(template, "${"@) {
            let (fs, vars) = template_vars(template);
            if vars.len() == 0 {
                "code.push_str(\""@ + template + "\\n\");\n"@
            } else {
                "code.push_str(&format!(\""@ + fs + "\\n\", "@ + join_seq(js_seqs(vars), ", "@) + "));\n"@
            }
        } else {
            "code.push_str(\""@ + template + "\\n\");\n"@
        }
    } else {
        "code.push_str(&"@ + value + ");\n"@
    }
}

/// Whether the names in a pushed template can be translated.
pub open spec fn push_ok(value: Seq<char>) -> bool {
    !"\""@.is_prefix_of(value) && !"'"@.is_prefix_of(value) && "`"@.is_prefix_of(value) ==> forall|k: int|
        0 <= k < template_vars(trim_backticks(value)).1.len() ==> js_plain_ok(
            #[trigger] template_vars(trim_backticks(value)).1[k],
        )
}

/// `s` without leading and trailing quotes of either kind.
fn trim_quotes_exec(s: &str) -> (r: &str)
    ensures
        r@ == trim_quotes(s@),
{
    let mut rest: &str = s;
    loop
        invariant
            trim_quotes(rest@) == trim_quotes(s@),
        ensures
            trim_quotes(s@) == rest@,
        decreases rest@.len(),
    {
        let n = rest.unicode_len();
        if n > 0 && (rest.get_char(0) == '"' || rest.get_char(0) == '\'') {
            rest = rest.substring_char(1, n);
        } else if n > 0 && (rest.get_char(n - 1) == '"' || rest.get_char(n - 1) == '\'') {
            let shorter = rest.substring_char(0, n - 1);
            assert(shorter@ =~= rest@.drop_last());
            rest = shorter;
        } else {
            break;
        }
    }
    rest
}

/// `s` without leading and trailing backticks.
fn trim_backticks_exec(s: &str) -> (r: &str)
    ensures
        r@ == trim_backticks(s@),
{
    let mut rest: &str = s;
    loop
        invariant
            trim_backticks(rest@) == trim_backticks(s@),
        ensures
            trim_backticks(s@) == rest@,
        decreases rest@.len(),
    {
        let n = rest.unicode_len();
        if n > 0 && rest.get_char(0) == '`' {
            rest = rest.substring_char(1, n);
        } else if n > 0 && rest.get_char(n - 1) == '`' {
            let shorter = rest.substring_char(0, n - 1);
            assert(shorter@ =~= rest@.drop_last());
            rest = shorter;
        } else {
            break;
        }
    }
    rest
}

/// A template's holes turned into `{}`: the format string and the names.
fn template_vars_exec(template: &str) -> (r: (String, Vec<String>))
    ensures
        r.0@ == template_vars(template@).0,
        r.1@.map_values(|x: String| x@) == template_vars(template@).1,
{
    let mut fs = owned(template);
    let mut vars: Vec<String> = Vec::new();
    loop
        invariant
            template_vars(template@).0 == template_vars(fs@).0,
            template_vars(template@).1 == vars@.map_values(|x: String| x@) + template_vars(fs@).1,
        decreases fs@.len(),
    {
        proof {
            reveal_strlit("${");
            reveal_strlit("}");
            reveal_strlit("{}");
        }
        let n = fs.unicode_len();
        match find_str(fs.as_str(), "${") {
            None => {
                proof {
                    assert(vars@.map_values(|x: String| x@) + Seq::<Seq<char>>::empty() =~= vars@.map_values(
                        |x: String| x@,
                    ));
                }
                return (fs, vars);
            },
            Some(start) => {
                proof {
                    lemma_find_from(fs@, "${"@, 0);
                }
                let tail = fs.as_str().substring_char(start, n);
                match find_str(tail, "}") {
                    None => {
                        proof {
                            assert(vars@.map_values(|x: String| x@) + Seq::<Seq<char>>::empty()
                                =~= vars@.map_values(|x: String| x@));
                        }
                        return (fs, vars);
                    },
                    Some(end) => {
                        proof {
                            lemma_find_from(tail@, "}"@, 0);
                            assert(tail@.subrange(0, 2) =~= fs@.subrange(start as int, start + 2));
                            if end < 2 {
                                assert(tail@[end as int] == fs@.subrange(start as int, start + 2)[end as int]);
                                assert(tail@.subrange(end as int, end + 1)[0] == tail@[end as int]);
                                assert(false);
                            }
                        }
                        let var = owned(fs.as_str().substring_char(start + 2, start + end));
                        let front = joined(fs.as_str().substring_char(0, start), "{}");
                        let next = joined(front.as_str(), fs.as_str().substring_char(start + end + 1, n));
                        let ghost old_vars = vars@;
                        vars.push(var);
                        proof {
                            assert(vars@.map_values(|x: String| x@) =~= old_vars.map_values(|x: String| x@).push(
                                var@,
                            ));
                            assert(vars@.map_values(|x: String| x@) + template_vars(next@).1 =~= old_vars.map_values(
                                |x: String| x@,
                            ) + (seq![var@] + template_vars(next@).1));
                        }
                        fs = next;
                    },
                }
            },
        }
    }
}

/// The statement that adds a pushed value to the `code` string.
fn push_code_exec(value: &str) -> (r: String)
    requires
        push_ok(value@),
    ensures
        r@ == push_code(value@),
{
    proof {
        reveal_strlit("\\");
        reveal_strlit("\"");
    }
    if starts_with(value, "\"") || starts_with(value, "'") {
        let content = trim_quotes_exec(value);
        let a = replace_str(content, "\\", "\\\\");
        let b = replace_str(a.as_str(), "\"", "\\\"");
        joined3("code.push_str(\"", b.as_str(), "\\n\");\n")
    } else if starts_with(value, "`") {
        let template = trim_backticks_exec(value);
        if contains_str(template, "${") {
            let (fs, vars) = template_vars_exec(template);
            if vars.len() == 0 {
                joined3("code.push_str(\"", template, "\\n\");\n")
            } else {
                let ghost names = vars@.map_values(|x: String| x@);
                let mut out: Vec<String> = Vec::new();
                let mut i: usize = 0;
                while i < vars.len()
                    invariant
                        i <= vars@.len(),
                        names == vars@.map_values(|x: String| x@),
                        forall|k: int| 0 <= k < names.len() ==> js_plain_ok(#[trigger] names[k]),
                        out@.map_values(|x: String| x@) == js_seqs(names.subrange(0, i as int)),
                    decreases vars@.len() - i,
                {
                    proof {
                        assert(names.subrange(0, i + 1).drop_last() =~= names.subrange(0, i as int));
                        assert(vars@[i as int]@ == names[i as int]);
                    }
                    let t = translate_js_to_rust(vars[i].as_str());
                    let ghost before = out@;
                    out.push(t);
                    proof {
                        assert(out@.map_values(|x: String| x@) =~= before.map_values(|x: String| x@).push(t@));
                    }
                    i = i + 1;
                }
                assert(names.subrange(0, i as int) =~= names);
                let args = join_strs(&out, ", ");
                let head = joined3("code.push_str(&format!(\"", fs.as_str(), "\\n\", ");
                joined3(head.as_str(), args.as_str(), "));\n")
            }
        } else {
            joined3("code.push_str(\"", template, "\\n\");\n")
        }
    } else {
        joined3("code.push_str(&", value, ");\n")
    }
}

// ===================== transforms =====================

/// The Rust lines for one transform at an indentation level.
pub open spec fn transform_code(t: Transform, level: int, m: Option<&PluginMetadata>) -> Seq<char>
    decreases t, 0int,
{
    let ind = indent_of(level);
    match t {
        Transform::VariableDeclaration { name, value, is_destructured } => {
            let rust_name = match mapping_for(m, name@) {
                Some(v) => v,
                None => snake_case(name@),
            };
            let rust_value = js_to_rust(value@, m);
            if is_destructured {
                ind + "// Destructured: let "@ + rust_name + " = "@ + rust_value + ";\n"@
            } else {
                ind + "let "@ + rust_name + " = "@ + rust_value + ";\n"@
            }
        },
        Transform::FunctionCall { name, args } => {
            let rust_name = snake_case(name@);
            let rust_args = join_seq(js_all(args@), ", "@);
            if rust_name == "get_component_name"@ {
                ind + "self.get_component_name_from_context(n.ident.is_some(), n.ident.as_ref().map(|i| i.sym.as_ref()));\n"@
            } else if rust_name == "escape_c_sharp_string"@ {
                ind + "self.escape_c_sharp_string("@ + rust_args + ");\n"@
            } else {
                ind + rust_name + "("@ + rust_args + ");\n"@
            }
        },
        Transform::MetadataAssignment { key, value_expr } => ind + "self.metadata.insert(\""@ + key@ + "\", "@
            + value_expr@ + ");\n"@,
        Transform::Conditional { condition, then_transforms, else_transforms } => {
            let head = ind + "if "@ + condition_code(condition@, m) + " {\n"@ + transforms_code(
                then_transforms@,
                0,
                level + 1,
                m,
            ) + ind + "}"@;
            let tail = match else_transforms {
                Some(e) => " else {\n"@ + transforms_code(e@, 0, level + 1, m) + ind + "}"@,
                None => Seq::empty(),
            };
            head + tail + "\n"@
        },
        Transform::PropertyAccess { js_path, rust_equiv } => ind + "// Access: "@ + js_path@ + " -> "@
            + rust_equiv@ + "\n"@,
        Transform::ArrayAccess { object, index } => ind + "// Array access: "@ + js_plain(object@) + "["@
            + index@ + "]\n"@,
        Transform::JSXExtract { tag_name, property_path } => ind + "// JSX extract: <"@ + tag_name@
            + "> property: "@ + property_path@ + "\n"@,
        Transform::HookCapture { hook_type, state_name, setter_name, args } => {
            let rust_hook = snake_case(hook_type@);
            let args_str = join_seq(js_all(args@), ", "@);
            match setter_name {
                Some(setter) => ind + "let ("@ + state_name@ + ", "@ + setter@ + ") = "@ + rust_hook + "("@
                    + args_str + ");\n"@,
                None => ind + "let "@ + state_name@ + " = "@ + rust_hook + "("@ + args_str + ");\n"@,
            }
        },
        Transform::LogicalChain { operator, left, right } => {
            let op = if contains_seq(operator@, "And"@) {
                "&&"@
            } else {
                "||"@
            };
            ind + "// Logical chain: "@ + transform_text(*left) + " "@ + op + " "@ + transform_text(*right)
                + "\n"@
        },
        Transform::TernaryExpr { condition, then_expr, else_expr } => ind + "let result = if "@
            + condition_code(condition@, m) + " { "@ + js_plain(then_expr@) + " } else { "@ + js_plain(
            else_expr@,
        ) + " };\n"@,
        Transform::TemplateStore { id, template_expr } => ind + "self.templates.insert(\""@ + id@ + "\", "@
            + template_expr@ + ");\n"@,
        Transform::TemplateLiteral { parts, exprs } => ind + template_code(parts@, exprs@, m),
        Transform::ReturnStmt { value } => if contains_seq(value@, ".join("@) || value@ == "lines"@ || value@
            == "code"@ {
            Seq::empty()
        } else {
            let rv = js_plain(value@);
            let rv2 = if !"()"@.is_suffix_of(rv) {
                rv + ".to_string()"@
            } else {
                rv
            };
            ind + "return "@ + rv2 + ";\n"@
        },
        Transform::TypeCheck { check_type, rust_pattern, .. } => ind + "// Type check: "@ + check_type@ + " -> "@
            + rust_pattern@ + "\n"@,
        Transform::TraverseCall { visitors } => ind + "// path.traverse() with "@ + decimal(visitors@.len())
            + " visitors\n"@,
        Transform::ArrayPush { value, .. } => ind + push_code(value@),
        Transform::ArrayPushSpread { source_array, .. } => ind + "code.push_str(&"@ + js_plain(source_array@)
            + ");\n"@,
        Transform::ArrayJoin { array_name, separator } => ind + "// "@ + array_name@
            + " already a String (joined with \""@ + replaced(separator@, "\n"@, "\\n"@) + "\")\n"@,
        Transform::ForOfLoop { iterator, iterable, body_transforms } => {
            let iterable_ref = if contains_seq(iterable@, "."@) {
                "&"@ + iterable@
            } else {
                iterable@
            };
            ind + "for "@ + iterator@ + " in "@ + iterable_ref + " {\n"@ + transforms_code(
                body_transforms@,
                0,
                level + 1,
                m,
            ) + ind + "}\n"@
        },
        Transform::RawJs { code, reason } => ind + "// TODO: "@ + reason@ + " - "@ + code@ + "\n"@,
    }
}

/// The Rust lines for the transforms from the `i`-th on, one after another.
pub open spec fn transforms_code(ts: Seq<Transform>, i: int, level: int, m: Option<&PluginMetadata>) -> Seq<char>
    decreases ts, ts.len() - i,
{
    if 0 <= i < ts.len() {
        transform_code(ts[i], level, m) + transforms_code(ts, i + 1, level, m)
    } else {
        Seq::empty()
    }
}

/// Whether generating code for a transform stays within the text and within
/// the indentation that memory can hold.
pub open spec fn transform_ok(t: Transform, level: int, m: Option<&PluginMetadata>) -> bool
    decreases t, 0int,
{
    &&& 0 <= level <= max_level()
    &&& match t {
        Transform::VariableDeclaration { value, .. } => js_ok(value@, m),
        Transform::FunctionCall { args, .. } => js_all_ok(args@),
        Transform::Conditional { condition, then_transforms, else_transforms } => condition_ok(condition@, m)
            && transforms_ok(then_transforms@, 0, level + 1, m) && match else_transforms {
            Some(e) => transforms_ok(e@, 0, level + 1, m),
            None => true,
        },
        Transform::ArrayAccess { object, .. } => js_plain_ok(object@),
        Transform::HookCapture { args, .. } => js_all_ok(args@),
        Transform::TernaryExpr { condition, then_expr, else_expr } => condition_ok(condition@, m) && js_plain_ok(
            then_expr@,
        ) && js_plain_ok(else_expr@),
        Transform::TemplateLiteral { exprs, .. } => forall|k: int|
            0 <= k < exprs@.len() ==> js_ok(#[trigger] exprs@[k]@, m),
        Transform::ReturnStmt { value } => contains_seq(value@, ".join("@) || value@ == "lines"@ || value@
            == "code"@ || js_plain_ok(value@),
        Transform::ArrayPush { value, .. } => push_ok(value@),
        Transform::ArrayPushSpread { source_array, .. } => js_plain_ok(source_array@),
        Transform::ForOfLoop { body_transforms, .. } => transforms_ok(body_transforms@, 0, level + 1, m),
        _ => true,
    }
}

/// Whether generating code for each transform from the `i`-th on is possible.
pub open spec fn transforms_ok(ts: Seq<Transform>, i: int, level: int, m: Option<&PluginMetadata>) -> bool
    decreases ts, ts.len() - i,
{
    0 <= i < ts.len() ==> transform_ok(ts[i], level, m) && transforms_ok(ts, i + 1, level, m)
}

/// The Rust lines for the transforms, one after another.
fn generate_transforms(ts: &Vec<Transform>, level: usize, m: Option<&PluginMetadata>) -> (r: String)
    requires
        transforms_ok(ts@, 0, level as int, m),
    ensures
        r@ == transforms_code(ts@, 0, level as int, m),
    decreases ts, 0nat,
{
    let mut out = String::new();
    let mut i: usize = 0;
    while i < ts.len()
        invariant
            i <= ts@.len(),
            transforms_ok(ts@, i as int, level as int, m),
            out@ + transforms_code(ts@, i as int, level as int, m) == transforms_code(ts@, 0, level as int, m),
        decreases ts@.len() - i,
    {
        let piece = generate_transform_code(&ts[i], level, m);
        let ghost before = out@;
        out = joined(out.as_str(), piece.as_str());
        assert(out@ + transforms_code(ts@, i + 1, level as int, m) =~= before + transforms_code(
            ts@,
            i as int,
            level as int,
            m,
        ));
        i = i + 1;
    }
    assert(out@ + Seq::<char>::empty() =~= out@);
    out
}

/// Generate the Rust lines for one transform at an indentation level.
#[verifier::spinoff_prover]
#[verifier::rlimit(50)]
pub fn generate_transform_code(transform: &Transform, indent: usize, metadata: Option<&PluginMetadata>) -> (r: String)
    requires
        transform_ok(*transform, indent as int, metadata),
    ensures
        r@ == transform_code(*transform, indent as int, metadata),
    decreases transform, 0nat,
{
    let ind = indent_str(indent);
    let i = ind.as_str();
    match transform {
        Transform::VariableDeclaration { name, value, is_destructured } => {
            let rust_name = match mapped(metadata, name.as_str()) {
                Some(v) => owned(v),
                None => to_snake_case(name.as_str()),
            };
            let rust_value = translate_js_to_rust_with_metadata(value.as_str(), metadata);
            let head = if *is_destructured {
                joined3(i, "// Destructured: let ", rust_name.as_str())
            } else {
                joined3(i, "let ", rust_name.as_str())
            };
            joined3(head.as_str(), " = ", joined(rust_value.as_str(), ";\n").as_str())
        },
        Transform::FunctionCall { name, args } => {
            let rust_name = to_snake_case(name.as_str());
            let rust_args = js_args_exec(args);
            if str_eq(rust_name.as_str(), "get_component_name") {
                joined(
                    i,
                    "self.get_component_name_from_context(n.ident.is_some(), n.ident.as_ref().map(|i| i.sym.as_ref()));\n",
                )
            } else if str_eq(rust_name.as_str(), "escape_c_sharp_string") {
                joined3(i, "self.escape_c_sharp_string(", joined(rust_args.as_str(), ");\n").as_str())
            } else {
                let head = joined3(i, rust_name.as_str(), "(");
                joined3(head.as_str(), rust_args.as_str(), ");\n")
            }
        },
        Transform::MetadataAssignment { key, value_expr } => {
            let head = joined3(i, "self.metadata.insert(\"", key.as_str());
            joined3(head.as_str(), "\", ", joined(value_expr.as_str(), ");\n").as_str())
        },
        Transform::Conditional { condition, then_transforms, else_transforms } => {
            let cond = translate_condition(condition.as_str(), metadata);
            let then_code = generate_transforms(then_transforms, indent + 1, metadata);
            let head = joined3(i, "if ", joined(cond.as_str(), " {\n").as_str());
            let head = joined3(head.as_str(), then_code.as_str(), joined(i, "}").as_str());
            let tail = match else_transforms {
                Some(e) => {
                    let else_code = generate_transforms(e, indent + 1, metadata);
                    joined3(" else {\n", else_code.as_str(), joined(i, "}").as_str())
                },
                None => String::new(),
            };
            joined3(head.as_str(), tail.as_str(), "\n")
        },
        Transform::PropertyAccess { js_path, rust_equiv } => {
            let head = joined3(i, "// Access: ", js_path.as_str());
            joined3(head.as_str(), " -> ", joined(rust_equiv.as_str(), "\n").as_str())
        },
        Transform::ArrayAccess { object, index } => {
            let obj = translate_js_to_rust(object.as_str());
            let head = joined3(i, "// Array access: ", obj.as_str());
            joined3(head.as_str(), "[", joined(index.as_str(), "]\n").as_str())
        },
        Transform::JSXExtract { tag_name, property_path } => {
            let head = joined3(i, "// JSX extract: <", tag_name.as_str());
            joined3(head.as_str(), "> property: ", joined(property_path.as_str(), "\n").as_str())
        },
        Transform::HookCapture { hook_type, state_name, setter_name, args } => {
            let rust_hook = to_snake_case(hook_type.as_str());
            let args_str = js_args_exec(args);
            let call = joined3(rust_hook.as_str(), "(", joined(args_str.as_str(), ");\n").as_str());
            match setter_name {
                Some(setter) => {
                    let head = joined3(i, "let (", state_name.as_str());
                    let head = joined3(head.as_str(), ", ", setter.as_str());
                    joined3(head.as_str(), ") = ", call.as_str())
                },
                None => {
                    let head = joined3(i, "let ", state_name.as_str());
                    joined3(head.as_str(), " = ", call.as_str())
                },
            }
        },
        Transform::LogicalChain { operator, left, right } => {
            let op = if contains_str(operator.as_str(), "And") {
                "&&"
            } else {
                "||"
            };
            let l = debug_transform(&**left);
            let r = debug_transform(&**right);
            let head = joined3(i, "// Logical chain: ", l.as_str());
            let head = joined3(head.as_str(), " ", op);
            joined3(head.as_str(), " ", joined(r.as_str(), "\n").as_str())
        },
        Transform::TernaryExpr { condition, then_expr, else_expr } => {
            let cond = translate_condition(condition.as_str(), metadata);
            let t = translate_js_to_rust(then_expr.as_str());
            let e = translate_js_to_rust(else_expr.as_str());
            let head = joined3(i, "let result = if ", cond.as_str());
            let head = joined3(head.as_str(), " { ", t.as_str());
            joined3(head.as_str(), " } else { ", joined(e.as_str(), " };\n").as_str())
        },
        Transform::TemplateStore { id, template_expr } => {
            let head = joined3(i, "self.templates.insert(\"", id.as_str());
            joined3(head.as_str(), "\", ", joined(template_expr.as_str(), ");\n").as_str())
        },
        Transform::TemplateLiteral { parts, exprs } => {
            let code = template_code_exec(parts, exprs, metadata);
            joined(i, code.as_str())
        },
        Transform::ReturnStmt { value } => {
            let v = value.as_str();
            if contains_str(v, ".join(") || str_eq(v, "lines") || str_eq(v, "code") {
                String::new()
            } else {
                let rv = translate_js_to_rust(v);
                let rv2 = if !ends_with(rv.as_str(), "()") {
                    joined(rv.as_str(), ".to_string()")
                } else {
                    rv
                };
                joined3(i, "return ", joined(rv2.as_str(), ";\n").as_str())
            }
        },
        Transform::TypeCheck { check_type, rust_pattern, .. } => {
            let head = joined3(i, "// Type check: ", check_type.as_str());
            joined3(head.as_str(), " -> ", joined(rust_pattern.as_str(), "\n").as_str())
        },
        Transform::TraverseCall { visitors } => {
            let count = decimal_string(visitors.len());
            joined3(i, "// path.traverse() with ", joined(count.as_str(), " visitors\n").as_str())
        },
        Transform::ArrayPush { value, .. } => {
            let code = push_code_exec(value.as_str());
            joined(i, code.as_str())
        },
        Transform::ArrayPushSpread { source_array, .. } => {
            let src = translate_js_to_rust(source_array.as_str());
            joined3(i, "code.push_str(&", joined(src.as_str(), ");\n").as_str())
        },
        Transform::ArrayJoin { array_name, separator } => {
            proof {
                reveal_strlit("\n");
            }
            let sep = replace_str(separator.as_str(), "\n", "\\n");
            let head = joined3(i, "// ", array_name.as_str());
            joined3(head.as_str(), " already a String (joined with \"", joined(sep.as_str(), "\")\n").as_str())
        },
        Transform::ForOfLoop { iterator, iterable, body_transforms } => {
            let iterable_ref = if contains_str(iterable.as_str(), ".") {
                joined("&", iterable.as_str())
            } else {
                owned(iterable.as_str())
            };
            let body = generate_transforms(body_transforms, indent + 1, metadata);
            let head = joined3(i, "for ", iterator.as_str());
            let head = joined3(head.as_str(), " in ", iterable_ref.as_str());
            let head = joined3(head.as_str(), " {\n", body.as_str());
            joined3(head.as_str(), i, "}\n")
        },
        Transform::RawJs { code, reason } => {
            let head = joined3(i, "// TODO: ", reason.as_str());
            joined3(head.as_str(), " - ", joined(code.as_str(), "\n").as_str())
        },
    }
}

// ===================== generation with types in view =====================

/// The returned value adjusted to the helper's return type.
pub open spec fn return_value(rv: Seq<char>, return_type: Seq<char>) -> Seq<char> {
    if return_type == "Option<_>"@ {
        if rv == "expr"@ {
            "None"@
        } else {
            "Some("@ + rv + ")"@
        }
    } else if return_type == "String"@ {
        if "\""@.is_prefix_of(rv) && !contains_seq(rv, "format!"@) {
            rv + ".to_string()"@
        } else if !"()"@.is_suffix_of(rv) {
            rv + ".to_string()"@
        } else {
            rv
        }
    } else {
        rv
    }
}

/// The `matches!` pattern with its wildcards bound by reference.
pub open spec fn enhanced_pattern(p: Seq<char>) -> Seq<char> {
    let a = replaced(p, "Lit::Str(_)"@, "Lit::Str(ref str_lit)"@);
    let b = replaced(a, "Lit::Num(_)"@, "Lit::Num(ref num_lit)"@);
    let c = replaced(b, "Lit::Bool(_)"@, "Lit::Bool(ref bool_lit)"@);
    let d = replaced(c, "Lit::Null(_)"@, "Lit::Null(_)"@);
    let e = replaced(d, "Expr::Ident(_)"@, "Expr::Ident(ref ident)"@);
    let f = replaced(e, "Expr::Member(_)"@, "Expr::Member(ref member_expr)"@);
    let g = replaced(f, "Expr::Call(_)"@, "Expr::Call(ref call_expr)"@);
    let h = replaced(g, "Expr::Array(_)"@, "Expr::Array(ref array_expr)"@);
    let i = replaced(h, "Expr::Object(_)"@, "Expr::Object(ref obj_expr)"@);
    let j = replaced(
        i,
        "JSXAttrValue::JSXExprContainer(_)"@,
        "JSXAttrValue::JSXExprContainer(ref jsx_expr_container)"@,
    );
    replaced(j, "(_)"@, "(ref lit)"@)
}

/// The pattern and the value of a `matches!(value, pattern)` condition.
pub open spec fn if_let_parts(cond: Seq<char>) -> Option<(Seq<char>, Seq<char>)> {
    match find_first(cond, "("@) {
        Some(start) => match find_first(cond.subrange(start, cond.len() as int), ","@) {
            Some(comma) => {
                let var = trim_ws(cond.subrange(start + 1, start + comma));
                let ps = start + comma + 1;
                match find_last(cond.subrange(ps, cond.len() as int), ")"@) {
                    Some(end) => Some((enhanced_pattern(trim_ws(cond.subrange(ps, ps + end))), var)),
                    None => None,
                }
            },
            None => None,
        },
        None => None,
    }
}

/// The name bound by the last `ref` of a pattern, if any.
pub open spec fn inner_var(pattern: Seq<char>) -> Seq<char> {
    match find_last(pattern, "ref "@) {
        Some(rp) => {
            let after = pattern.subrange(rp + 4, pattern.len() as int);
            match find_first(after, ")"@) {
                Some(pp) => trim_ws(after.subrange(0, pp)),
                None => Seq::empty(),
            }
        },
        None => Seq::empty(),
    }
}

/// The code of a branch body rewritten to read the value bound by an `if let`.
pub open spec fn rebind(code: Seq<char>, var: Seq<char>, inner: Seq<char>) -> Seq<char> {
    if inner.len() == 0 {
        code
    } else {
        let a = replaced(code, var + ".value"@, inner + ".value"@);
        let b = replaced(a, var + ".elements"@, inner + ".elems"@);
        let c = replaced(b, var + ".properties"@, inner + ".props"@);
        let d = if inner == "str_lit"@ {
            replaced(c, "num_lit.value"@, "String::from_utf8_lossy("@ + inner + ".value.as_bytes())"@)
        } else {
            replaced(c, "num_lit.value"@, inner + ".value"@)
        };
        let e = replaced(d, "str_lit.value"@, "String::from_utf8_lossy("@ + inner + ".value.as_bytes())"@);
        let f = replaced(e, "bool_lit.value"@, inner + ".value"@);
        let g = replaced(f, "ident.sym"@, "String::from_utf8_lossy("@ + inner + ".sym.as_bytes())"@);
        let h = replaced(g, "array_expr.elems"@, inner + ".elems"@);
        let i = replaced(h, "obj_expr.props"@, inner + ".props"@);
        replaced(i, ".toString()"@, ".to_string()"@)
    }
}

/// The Rust lines for one transform in a helper with the given return type.
pub open spec fn smart_code(t: Transform, level: int, rt: Seq<char>, m: Option<&PluginMetadata>) -> Seq<char>
    decreases t, 0int,
{
    let ind = indent_of(level);
    match t {
        Transform::ReturnStmt { value } => if contains_seq(value@, ".join("@) || value@ == "lines"@ || value@
            == "code"@ || value@ == "expr"@ {
            Seq::empty()
        } else {
            ind + "return "@ + return_value(js_to_rust(value@, m), rt) + ";\n"@
        },
        Transform::Conditional { condition, then_transforms, else_transforms } => {
            let cond = condition_code(condition@, m);
            if cond == "false"@ {
                Seq::empty()
            } else {
                let parts = if "matches!("@.is_prefix_of(cond) {
                    if_let_parts(cond)
                } else {
                    None
                };
                let none_var = if ".is_none()"@.is_suffix_of(cond) {
                    trim_ws(strip_suffixes(cond, ".is_none()"@))
                } else {
                    Seq::empty()
                };
                let else_part = match else_transforms {
                    Some(e) => " else {\n"@ + smart_list(e@, 0, level + 1, rt, m) + ind + "}"@,
                    None => Seq::empty(),
                };
                if ".is_none()"@.is_suffix_of(cond) && none_var.len() > 0 {
                    ind + "if "@ + none_var + ".is_none() {\n"@ + smart_list(then_transforms@, 0, level + 1, rt, m)
                        + ind + "}\n"@ + ind + "let "@ + none_var + " = "@ + none_var + ".unwrap();\n"@
                } else {
                    match parts {
                        Some((pattern, var)) => ind + "if let "@ + pattern + " = "@ + var + " {\n"@ + rebound_list(
                            then_transforms@,
                            0,
                            level + 1,
                            rt,
                            m,
                            var,
                            inner_var(pattern),
                        ) + ind + "}"@ + else_part + "\n"@,
                        None => ind + "if "@ + cond + " {\n"@ + smart_list(then_transforms@, 0, level + 1, rt, m)
                            + ind + "}"@ + else_part + "\n"@,
                    }
                }
            }
        },
        Transform::ForOfLoop { iterator, iterable, body_transforms } => {
            let mapped_iterable = js_to_rust(iterable@, m);
            let iterable_ref = if contains_seq(mapped_iterable, "."@) {
                "&"@ + mapped_iterable
            } else {
                mapped_iterable
            };
            ind + "for "@ + iterator@ + " in "@ + iterable_ref + " {\n"@ + smart_list(
                body_transforms@,
                0,
                level + 1,
                rt,
                m,
            ) + ind + "}\n"@
        },
        _ => transform_code(t, level, m),
    }
}

/// The Rust lines for the transforms from the `i`-th on, in a helper.
pub open spec fn smart_list(ts: Seq<Transform>, i: int, level: int, rt: Seq<char>, m: Option<&PluginMetadata>) -> Seq<
    char,
>
    decreases ts, ts.len() - i,
{
    if 0 <= i < ts.len() {
        smart_code(ts[i], level, rt, m) + smart_list(ts, i + 1, level, rt, m)
    } else {
        Seq::empty()
    }
}

/// The Rust lines for the transforms from the `i`-th on, inside an `if let`
/// that binds `inner`.
pub open spec fn rebound_list(
    ts: Seq<Transform>,
    i: int,
    level: int,
    rt: Seq<char>,
    m: Option<&PluginMetadata>,
    var: Seq<char>,
    inner: Seq<char>,
) -> Seq<char>
    decreases ts, ts.len() - i,
{
    if 0 <= i < ts.len() {
        rebind(smart_code(ts[i], level, rt, m), var, inner) + rebound_list(ts, i + 1, level, rt, m, var, inner)
    } else {
        Seq::empty()
    }
}

/// Whether generating code for a transform in a helper is possible.
pub open spec fn smart_ok(t: Transform, level: int, rt: Seq<char>, m: Option<&PluginMetadata>) -> bool
    decreases t, 0int,
{
    &&& 0 <= level <= max_level()
    &&& match t {
        Transform::ReturnStmt { value } => contains_seq(value@, ".join("@) || value@ == "lines"@ || value@
            == "code"@ || value@ == "expr"@ || js_ok(value@, m),
        Transform::Conditional { condition, then_transforms, else_transforms } => condition_ok(condition@, m)
            && smart_list_ok(then_transforms@, 0, level + 1, rt, m) && match else_transforms {
            Some(e) => smart_list_ok(e@, 0, level + 1, rt, m),
            None => true,
        },
        Transform::ForOfLoop { iterable, body_transforms, .. } => js_ok(iterable@, m) && smart_list_ok(
            body_transforms@,
            0,
            level + 1,
            rt,
            m,
        ),
        _ => transform_ok(t, level, m),
    }
}

/// Whether generating code for each transform from the `i`-th on is possible.
pub open spec fn smart_list_ok(ts: Seq<Transform>, i: int, level: int, rt: Seq<char>, m: Option<&PluginMetadata>) -> bool
    decreases ts, ts.len() - i,
{
    0 <= i < ts.len() ==> smart_ok(ts[i], level, rt, m) && smart_list_ok(ts, i + 1, level, rt, m)
}

/// The returned value adjusted to the helper's return type.
fn return_value_exec(rv: String, return_type: &str) -> (r: String)
    ensures
        r@ == return_value(rv@, return_type@),
{
    if str_eq(return_type, "Option<_>") {
        if str_eq(rv.as_str(), "expr") {
            owned("None")
        } else {
            joined3("Some(", rv.as_str(), ")")
        }
    } else if str_eq(return_type, "String") {
        if starts_with(rv.as_str(), "\"") && !contains_str(rv.as_str(), "format!") {
            joined(rv.as_str(), ".to_string()")
        } else if !ends_with(rv.as_str(), "()") {
            joined(rv.as_str(), ".to_string()")
        } else {
            rv
        }
    } else {
        rv
    }
}

/// `s` with every occurrence of a literal `f` replaced by `t`.
fn replace_lit(s: &str, f: &str, t: &str) -> (r: String)
    requires
        f@.len() > 0,
    ensures
        r@ == replaced(s@, f@, t@),
{
    replace_str(s, f, t)
}

/// The `matches!` pattern with its wildcards bound by reference.
fn enhanced_pattern_exec(p: &str) -> (r: String)
    ensures
        r@ == enhanced_pattern(p@),
{
    proof {
        reveal_strlit("Lit::Str(_)");
        reveal_strlit("Lit::Num(_)");
        reveal_strlit("Lit::Bool(_)");
        reveal_strlit("Lit::Null(_)");
        reveal_strlit("Expr::Ident(_)");
        reveal_strlit("Expr::Member(_)");
        reveal_strlit("Expr::Call(_)");
        reveal_strlit("Expr::Array(_)");
        reveal_strlit("Expr::Object(_)");
        reveal_strlit("JSXAttrValue::JSXExprContainer(_)");
        reveal_strlit("(_)");
    }
    let a = replace_lit(p, "Lit::Str(_)", "Lit::Str(ref str_lit)");
    let b = replace_lit(a.as_str(), "Lit::Num(_)", "Lit::Num(ref num_lit)");
    let c = replace_lit(b.as_str(), "Lit::Bool(_)", "Lit::Bool(ref bool_lit)");
    let d = replace_lit(c.as_str(), "Lit::Null(_)", "Lit::Null(_)");
    let e = replace_lit(d.as_str(), "Expr::Ident(_)", "Expr::Ident(ref ident)");
    let f = replace_lit(e.as_str(), "Expr::Member(_)", "Expr::Member(ref member_expr)");
    let g = replace_lit(f.as_str(), "Expr::Call(_)", "Expr::Call(ref call_expr)");
    let h = replace_lit(g.as_str(), "Expr::Array(_)", "Expr::Array(ref array_expr)");
    let i = replace_lit(h.as_str(), "Expr::Object(_)", "Expr::Object(ref obj_expr)");
    let j = replace_lit(
        i.as_str(),
        "JSXAttrValue::JSXExprContainer(_)",
        "JSXAttrValue::JSXExprContainer(ref jsx_expr_container)",
    );
    replace_lit(j.as_str(), "(_)", "(ref lit)")
}

/// The pattern and the value of a `matches!(value, pattern)` condition.
fn if_let_parts_exec(cond: &str) -> (r: Option<(String, String)>)
    ensures
        match r {
            Some((p, v)) => if_let_parts(cond@) == Some((p@, v@)),
            None => if_let_parts(cond@) is None,
        },
{
    proof {
        reveal_strlit("(");
        reveal_strlit(",");
        reveal_strlit(")");
    }
    let n = cond.unicode_len();
    match find_str(cond, "(") {
        None => None,
        Some(start) => {
            proof {
                lemma_find_from(cond@, "("@, 0);
            }
            let from_start = cond.substring_char(start, n);
            match find_str(from_start, ",") {
                None => None,
                Some(comma) => {
                    proof {
                        lemma_find_from(from_start@, ","@, 0);
                        assert(from_start@[0] == cond@[start as int]);
                        assert(cond@.subrange(start as int, start + 1)[0] == cond@[start as int]);
                        assert(from_start@.subrange(comma as int, comma + 1)[0] == from_start@[comma as int]);
                        if comma == 0 {
                            assert(false);
                        }
                    }
                    let var = trim(cond.substring_char(start + 1, start + comma));
                    let ps = start + comma + 1;
                    let rest = cond.substring_char(ps, n);
                    match rfind_str(rest, ")") {
                        None => None,
                        Some(end) => {
                            proof {
                                lemma_find_last_from(rest@, ")"@, rest@.len() - 1);
                            }
                            let pattern = enhanced_pattern_exec(trim(cond.substring_char(ps, ps + end)));
                            Some((pattern, owned(var)))
                        },
                    }
                },
            }
        },
    }
}

/// The name bound by the last `ref` of a pattern, if any.
fn inner_var_exec(pattern: &str) -> (r: String)
    ensures
        r@ == inner_var(pattern@),
{
    proof {
        reveal_strlit("ref ");
        reveal_strlit(")");
        reveal_strlit("");
    }
    let n = pattern.unicode_len();
    match rfind_str(pattern, "ref ") {
        None => owned(""),
        Some(rp) => {
            proof {
                lemma_find_last_from(pattern@, "ref "@, pattern@.len() - 4);
            }
            let after = pattern.substring_char(rp + 4, n);
            match find_str(after, ")") {
                Some(pp) => {
                    proof {
                        lemma_find_from(after@, ")"@, 0);
                    }
                    owned(trim(after.substring_char(0, pp)))
                },
                None => owned(""),
            }
        },
    }
}

/// The code of a branch body rewritten to read the value bound by an `if let`.
fn rebind_exec(code: String, var: &str, inner: &str) -> (r: String)
    ensures
        r@ == rebind(code@, var@, inner@),
{
    if inner.unicode_len() == 0 {
        return code;
    }
    proof {
        reveal_strlit(".value");
        reveal_strlit(".elements");
        reveal_strlit(".properties");
        reveal_strlit("num_lit.value");
        reveal_strlit("str_lit.value");
        reveal_strlit("bool_lit.value");
        reveal_strlit("ident.sym");
        reveal_strlit("array_expr.elems");
        reveal_strlit("obj_expr.props");
        reveal_strlit(".toString()");
    }
    let var_value = joined(var, ".value");
    let var_elements = joined(var, ".elements");
    let var_properties = joined(var, ".properties");
    let inner_value = joined(inner, ".value");
    let inner_elems = joined(inner, ".elems");
    let inner_props = joined(inner, ".props");
    let lossy_value = joined3("String::from_utf8_lossy(", inner, ".value.as_bytes())");
    let lossy_sym = joined3("String::from_utf8_lossy(", inner, ".sym.as_bytes())");
    let a = replace_lit(code.as_str(), var_value.as_str(), inner_value.as_str());
    let b = replace_lit(a.as_str(), var_elements.as_str(), inner_elems.as_str());
    let c = replace_lit(b.as_str(), var_properties.as_str(), inner_props.as_str());
    let d = if str_eq(inner, "str_lit") {
        replace_lit(c.as_str(), "num_lit.value", lossy_value.as_str())
    } else {
        replace_lit(c.as_str(), "num_lit.value", inner_value.as_str())
    };
    let e = replace_lit(d.as_str(), "str_lit.value", lossy_value.as_str());
    let f = replace_lit(e.as_str(), "bool_lit.value", inner_value.as_str());
    let g = replace_lit(f.as_str(), "ident.sym", lossy_sym.as_str());
    let h = replace_lit(g.as_str(), "array_expr.elems", inner_elems.as_str());
    let i = replace_lit(h.as_str(), "obj_expr.props", inner_props.as_str());
    replace_lit(i.as_str(), ".toString()", ".to_string()")
}

/// The Rust lines for the transforms in a helper, one after another.
fn generate_smart_list(ts: &Vec<Transform>, level: usize, rt: &str, m: Option<&PluginMetadata>) -> (r: String)
    requires
        smart_list_ok(ts@, 0, level as int, rt@, m),
    ensures
        r@ == smart_list(ts@, 0, level as int, rt@, m),
    decreases ts, 0nat,
{
    let mut out = String::new();
    let mut i: usize = 0;
    while i < ts.len()
        invariant
            i <= ts@.len(),
            smart_list_ok(ts@, i as int, level as int, rt@, m),
            out@ + smart_list(ts@, i as int, level as int, rt@, m) == smart_list(ts@, 0, level as int, rt@, m),
        decreases ts@.len() - i,
    {
        let piece = generate_transform_code_smart(&ts[i], level, rt, m);
        let ghost before = out@;
        out = joined(out.as_str(), piece.as_str());
        assert(out@ + smart_list(ts@, i + 1, level as int, rt@, m) =~= before + smart_list(
            ts@,
            i as int,
            level as int,
            rt@,
            m,
        ));
        i = i + 1;
    }
    assert(out@ + Seq::<char>::empty() =~= out@);
    out
}

/// The Rust lines for the transforms inside an `if let` that binds `inner`.
fn generate_rebound_list(
    ts: &Vec<Transform>,
    level: usize,
    rt: &str,
    m: Option<&PluginMetadata>,
    var: &str,
    inner: &str,
) -> (r: String)
    requires
        smart_list_ok(ts@, 0, level as int, rt@, m),
    ensures
        r@ == rebound_list(ts@, 0, level as int, rt@, m, var@, inner@),
    decreases ts, 0nat,
{
    let mut out = String::new();
    let mut i: usize = 0;
    while i < ts.len()
        invariant
            i <= ts@.len(),
            smart_list_ok(ts@, i as int, level as int, rt@, m),
            out@ + rebound_list(ts@, i as int, level as int, rt@, m, var@, inner@) == rebound_list(
                ts@,
                0,
                level as int,
                rt@,
                m,
                var@,
                inner@,
            ),
        decreases ts@.len() - i,
    {
        let piece = generate_transform_code_smart(&ts[i], level, rt, m);
        let piece = rebind_exec(piece, var, inner);
        let ghost before = out@;
        out = joined(out.as_str(), piece.as_str());
        assert(out@ + rebound_list(ts@, i + 1, level as int, rt@, m, var@, inner@) =~= before + rebound_list(
            ts@,
            i as int,
            level as int,
            rt@,
            m,
            var@,
            inner@,
        ));
        i = i + 1;
    }
    assert(out@ + Seq::<char>::empty() =~= out@);
    out
}

/// Generate the Rust lines for one transform in a helper whose return type
/// is `return_type`: returns fit that type, `matches!` conditions become
/// `if let`, `is_none()` checks return early, and loops use mapped iterables;
/// any other transform as [`generate_transform_code`] gives it.
#[verifier::spinoff_prover]
#[verifier::rlimit(50)]
pub fn generate_transform_code_smart(
    transform: &Transform,
    indent: usize,
    return_type: &str,
    metadata: Option<&PluginMetadata>,
) -> (r: String)
    requires
        smart_ok(*transform, indent as int, return_type@, metadata),
    ensures
        r@ == smart_code(*transform, indent as int, return_type@, metadata),
    decreases transform, 1nat,
{
    match transform {
        Transform::ReturnStmt { value } => {
            let v = value.as_str();
            if contains_str(v, ".join(") || str_eq(v, "lines") || str_eq(v, "code") || str_eq(v, "expr") {
                String::new()
            } else {
                let ind = indent_str(indent);
                let rv = translate_js_to_rust_with_metadata(v, metadata);
                let fv = return_value_exec(rv, return_type);
                joined3(ind.as_str(), "return ", joined(fv.as_str(), ";\n").as_str())
            }
        },
        Transform::Conditional { condition, then_transforms, else_transforms } => {
            let cond = translate_condition(condition.as_str(), metadata);
            if str_eq(cond.as_str(), "false") {
                return String::new();
            }
            let ind = indent_str(indent);
            let i = ind.as_str();
            let parts = if starts_with(cond.as_str(), "matches!(") {
                if_let_parts_exec(cond.as_str())
            } else {
                None
            };
            let is_none_check = ends_with(cond.as_str(), ".is_none()");
            let none_var: String = if is_none_check {
                owned(trim(trim_end_str(cond.as_str(), ".is_none()")))
            } else {
                String::new()
            };
            if is_none_check && none_var.unicode_len() > 0 {
                let body = generate_smart_list(then_transforms, indent + 1, return_type, metadata);
                let head = joined3(i, "if ", none_var.as_str());
                let head = joined3(head.as_str(), ".is_none() {\n", body.as_str());
                let head = joined3(head.as_str(), i, "}\n");
                let head = joined3(head.as_str(), i, "let ");
                let head = joined3(head.as_str(), none_var.as_str(), " = ");
                return joined3(head.as_str(), none_var.as_str(), ".unwrap();\n");
            }
            let else_part = match else_transforms {
                Some(e) => {
                    let body = generate_smart_list(e, indent + 1, return_type, metadata);
                    joined3(" else {\n", body.as_str(), joined(i, "}").as_str())
                },
                None => String::new(),
            };
            match parts {
                Some((pattern, var)) => {
                    let inner = inner_var_exec(pattern.as_str());
                    let body = generate_rebound_list(
                        then_transforms,
                        indent + 1,
                        return_type,
                        metadata,
                        var.as_str(),
                        inner.as_str(),
                    );
                    let head = joined3(i, "if let ", pattern.as_str());
                    let head = joined3(head.as_str(), " = ", var.as_str());
                    let head = joined3(head.as_str(), " {\n", body.as_str());
                    let head = joined3(head.as_str(), i, "}");
                    joined3(head.as_str(), else_part.as_str(), "\n")
                },
                None => {
                    let body = generate_smart_list(then_transforms, indent + 1, return_type, metadata);
                    let head = joined3(i, "if ", cond.as_str());
                    let head = joined3(head.as_str(), " {\n", body.as_str());
                    let head = joined3(head.as_str(), i, "}");
                    joined3(head.as_str(), else_part.as_str(), "\n")
                },
            }
        },
        Transform::ForOfLoop { iterator, iterable, body_transforms } => {
            let ind = indent_str(indent);
            let i = ind.as_str();
            let mapped_iterable = translate_js_to_rust_with_metadata(iterable.as_str(), metadata);
            let iterable_ref = if contains_str(mapped_iterable.as_str(), ".") {
                joined("&", mapped_iterable.as_str())
            } else {
                mapped_iterable
            };
            let body = generate_smart_list(body_transforms, indent + 1, return_type, metadata);
            let head = joined3(i, "for ", iterator.as_str());
            let head = joined3(head.as_str(), " in ", iterable_ref.as_str());
            let head = joined3(head.as_str(), " {\n", body.as_str());
            joined3(head.as_str(), i, "}\n")
        },
        _ => generate_transform_code(transform, indent, metadata),
    }
}

// ===================== helper functions =====================

/// The declared signature of a helper, if the metadata has one.
pub open spec fn declared_fn(m: Option<&PluginMetadata>, name: Seq<char>) -> Option<FunctionDef> {
    match m {
        Some(meta) => value_for(meta.functions@, name),
        None => None,
    }
}

/// Declared parameters as `name: Type`, names in snake case.
pub open spec fn declared_params(ps: Seq<ParamDef>) -> Seq<Seq<char>>
    decreases ps.len(),
{
    if ps.len() == 0 {
        Seq::empty()
    } else {
        declared_params(ps.drop_last()).push(snake_case(ps.last().name@) + ": "@ + ps.last().param_type@)
    }
}

/// The parameter list of a helper: from its declared signature, else guessed.
pub open spec fn helper_params(h: HelperFunction, m: Option<&PluginMetadata>) -> Seq<char> {
    match declared_fn(m, h.name@) {
        Some(fd) => join_seq(declared_params(fd.params@), ", "@),
        None => inferred_params(h.params@, h.transforms@),
    }
}

/// Whether a transform adds to a string being built.
pub open spec fn builds_string(t: Transform) -> bool {
    t is ArrayPush || t is ArrayPushSpread || t is ArrayJoin
}

/// Whether any of the transforms builds a string.
pub open spec fn has_string_building(ts: Seq<Transform>) -> bool {
    exists|k: int| 0 <= k < ts.len() && builds_string(#[trigger] ts[k])
}

/// Whether the helper's body starts by returning a mapped and filtered list.
pub open spec fn has_map_filter(ts: Seq<Transform>) -> bool {
    ts.len() > 0 && match ts[0] {
        Transform::ReturnStmt { value } => contains_seq(value@, ".map(expr)"@) && contains_seq(
            value@,
            ".filter(Boolean)"@,
        ),
        _ => false,
    }
}

/// The return type of a helper: the declared one, else guessed.
pub open spec fn helper_return_type(h: HelperFunction, m: Option<&PluginMetadata>) -> Seq<char> {
    match declared_fn(m, h.name@) {
        Some(fd) => fd.returns@,
        None => inferred_return_type(h.name@, has_map_filter(h.transforms@), has_string_building(h.transforms@)),
    }
}

/// The renamings of a helper's parameters: each parameter that the metadata
/// does not map and whose snake-case name differs, once.
pub open spec fn param_bindings(ps: Seq<String>, m: Option<&PluginMetadata>) -> Seq<(Seq<char>, Seq<char>)>
    decreases ps.len(),
{
    if ps.len() == 0 {
        Seq::empty()
    } else {
        let b = param_bindings(ps.drop_last(), m);
        let p = ps.last()@;
        if mapping_for(m, p) is None && p != snake_case(p) && !(exists|k: int| 0 <= k < b.len() && #[trigger] b[k].0 == p) {
            b.push((p, snake_case(p)))
        } else {
            b
        }
    }
}

/// Each renaming applied in turn.
pub open spec fn substitute_all(code: Seq<char>, bs: Seq<(Seq<char>, Seq<char>)>) -> Seq<char>
    decreases bs.len(),
{
    if bs.len() == 0 {
        code
    } else {
        replaced(substitute_all(code, bs.drop_last()), bs.last().0, bs.last().1)
    }
}

/// Whether a transform of a helper body is left out: a `lines` or `code`
/// builder set to a placeholder, or a return of the built string.
pub open spec fn skipped_in_helper(t: Transform) -> bool {
    match t {
        Transform::VariableDeclaration { name, value, .. } => (name@ == "lines"@ || name@ == "code"@) && value@
            == "value"@,
        Transform::ReturnStmt { value } => contains_seq(value@, ".join("@) || value@ == "lines"@ || value@
            == "code"@,
        _ => false,
    }
}

/// The helper body from the `i`-th transform on, parameters renamed.
pub open spec fn helper_body_list(
    ts: Seq<Transform>,
    i: int,
    rt: Seq<char>,
    m: Option<&PluginMetadata>,
    bs: Seq<(Seq<char>, Seq<char>)>,
) -> Seq<char>
    decreases ts.len() - i,
{
    if 0 <= i < ts.len() {
        (if skipped_in_helper(ts[i]) {
            Seq::empty()
        } else {
            substitute_all(smart_code(ts[i], 1, rt, m), bs)
        }) + helper_body_list(ts, i + 1, rt, m, bs)
    } else {
        Seq::empty()
    }
}

/// The body of a helper function.
pub open spec fn helper_body(h: HelperFunction, m: Option<&PluginMetadata>) -> Seq<char> {
    let ts = h.transforms@;
    if has_map_filter(ts) {
        match ts[0] {
            Transform::ReturnStmt { value } => match find_first(value@, ".map("@) {
                Some(p) => "    "@ + value@.subrange(0, p) + ".iter().filter_map(|item| {\n"@ + smart_list(
                    ts,
                    1,
                    2,
                    "Option<_>"@,
                    m,
                ) + "    }).collect()\n"@,
                None => Seq::empty(),
            },
            _ => Seq::empty(),
        }
    } else {
        helper_body_list(ts, 0, helper_return_type(h, m), m, param_bindings(h.params@, m))
    }
}

/// The Rust helper function generated from a Babel helper.
pub open spec fn helper_code(h: HelperFunction, m: Option<&PluginMetadata>) -> Seq<char> {
    let sb = has_string_building(h.transforms@);
    "pub fn "@ + snake_case(h.name@) + "("@ + helper_params(h, m) + ") -> "@ + helper_return_type(h, m) + " {\n"@
        + (if sb {
        "    let mut code = String::new();\n\n"@
    } else {
        Seq::empty()
    }) + helper_body(h, m) + (if sb {
        "\n    code\n"@
    } else {
        Seq::empty()
    }) + "}\n"@
}

/// Whether generating a helper function is possible.
pub open spec fn helper_ok(h: HelperFunction, m: Option<&PluginMetadata>) -> bool {
    let ts = h.transforms@;
    if has_map_filter(ts) {
        smart_list_ok(ts, 1, 2, "Option<_>"@, m)
    } else {
        forall|k: int|
            0 <= k < ts.len() ==> skipped_in_helper(#[trigger] ts[k]) || smart_ok(
                ts[k],
                1,
                helper_return_type(h, m),
                m,
            )
    }
}

/// Declared parameters as `name: Type`, joined with `, `.
fn declared_params_exec(ps: &Vec<ParamDef>) -> (r: String)
    ensures
        r@ == join_seq(declared_params(ps@), ", "@),
{
    let mut out: Vec<String> = Vec::new();
    let mut i: usize = 0;
    while i < ps.len()
        invariant
            i <= ps@.len(),
            out@.map_values(|x: String| x@) == declared_params(ps@.subrange(0, i as int)),
        decreases ps@.len() - i,
    {
        proof {
            assert(ps@.subrange(0, i + 1).drop_last() =~= ps@.subrange(0, i as int));
        }
        let name = to_snake_case(ps[i].name.as_str());
        let piece = joined3(name.as_str(), ": ", ps[i].param_type.as_str());
        let ghost before = out@;
        out.push(piece);
        proof {
            assert(out@.map_values(|x: String| x@) =~= before.map_values(|x: String| x@).push(piece@));
        }
        i = i + 1;
    }
    assert(ps@.subrange(0, i as int) =~= ps@);
    join_strs(&out, ", ")
}

/// Whether any of the transforms builds a string.
fn has_string_building_exec(ts: &Vec<Transform>) -> (r: bool)
    ensures
        r == has_string_building(ts@),
{
    let mut i: usize = 0;
    while i < ts.len()
        invariant
            i <= ts@.len(),
            forall|k: int| 0 <= k < i ==> !builds_string(#[trigger] ts@[k]),
        decreases ts@.len() - i,
    {
        match &ts[i] {
            Transform::ArrayPush { .. } | Transform::ArrayPushSpread { .. } | Transform::ArrayJoin { .. } => {
                return true;
            },
            _ => {},
        }
        i = i + 1;
    }
    false
}

/// Whether the helper's body starts by returning a mapped and filtered list.
fn has_map_filter_exec(ts: &Vec<Transform>) -> (r: bool)
    ensures
        r == has_map_filter(ts@),
{
    if ts.len() == 0 {
        return false;
    }
    match &ts[0] {
        Transform::ReturnStmt { value } => contains_str(value.as_str(), ".map(expr)") && contains_str(
            value.as_str(),
            ".filter(Boolean)",
        ),
        _ => false,
    }
}

/// The renamings of a helper's parameters.
fn param_bindings_exec(ps: &Vec<String>, m: Option<&PluginMetadata>) -> (r: Vec<(String, String)>)
    ensures
        r@.map_values(|b: (String, String)| (b.0@, b.1@)) == param_bindings(ps@, m),
{
    let mut out: Vec<(String, String)> = Vec::new();
    let mut i: usize = 0;
    while i < ps.len()
        invariant
            i <= ps@.len(),
            out@.map_values(|b: (String, String)| (b.0@, b.1@)) == param_bindings(ps@.subrange(0, i as int), m),
        decreases ps@.len() - i,
    {
        proof {
            assert(ps@.subrange(0, i + 1).drop_last() =~= ps@.subrange(0, i as int));
        }
        let ghost views = out@.map_values(|b: (String, String)| (b.0@, b.1@));
        let p = ps[i].as_str();
        let mut seen = false;
        let mut k: usize = 0;
        while k < out.len()
            invariant
                k <= out@.len(),
                views == out@.map_values(|b: (String, String)| (b.0@, b.1@)),
                seen <==> exists|j: int| 0 <= j < k && #[trigger] views[j].0 == p@,
            decreases out@.len() - k,
        {
            let same = str_eq(out[k].0.as_str(), p);
            proof {
                assert(views[k as int] == (out@[k as int].0@, out@[k as int].1@));
            }
            if same {
                seen = true;
            }
            proof {
                if same {
                    assert(views[k as int].0 == p@);
                } else {
                    assert(views[k as int].0 != p@);
                }
            }
            k = k + 1;
        }
        if mapped(m, p).is_none() && !seen {
            let s = to_snake_case(p);
            if !str_eq(p, s.as_str()) {
                let ghost before = out@;
                out.push((owned(p), s));
                proof {
                    assert(out@.map_values(|b: (String, String)| (b.0@, b.1@)) =~= before.map_values(
                        |b: (String, String)| (b.0@, b.1@),
                    ).push((p@, snake_case(p@))));
                }
            }
        }
        i = i + 1;
    }
    assert(ps@.subrange(0, i as int) =~= ps@);
    out
}

/// Each renaming applied in turn.
fn substitute_all_exec(code: String, bs: &Vec<(String, String)>) -> (r: String)
    requires
        forall|k: int| 0 <= k < bs@.len() ==> (#[trigger] bs@[k]).0@.len() > 0,
    ensures
        r@ == substitute_all(code@, bs@.map_values(|b: (String, String)| (b.0@, b.1@))),
{
    let ghost views = bs@.map_values(|b: (String, String)| (b.0@, b.1@));
    let mut out = code;
    let mut i: usize = 0;
    while i < bs.len()
        invariant
            i <= bs@.len(),
            views == bs@.map_values(|b: (String, String)| (b.0@, b.1@)),
            forall|k: int| 0 <= k < bs@.len() ==> (#[trigger] bs@[k]).0@.len() > 0,
            out@ == substitute_all(code@, views.subrange(0, i as int)),
        decreases bs@.len() - i,
    {
        proof {
            assert(views.subrange(0, i + 1).drop_last() =~= views.subrange(0, i as int));
            assert(bs@[i as int].0@.len() > 0);
        }
        out = replace_str(out.as_str(), bs[i].0.as_str(), bs[i].1.as_str());
        i = i + 1;
    }
    assert(views.subrange(0, i as int) =~= views);
    out
}

/// The empty name stays empty in snake case.
proof fn lemma_snake_empty()
    ensures
        snake_case(Seq::<char>::empty()) == Seq::<char>::empty(),
{
    reveal_strlit("type");
    reveal_strlit("ref");
    reveal_strlit("match");
    reveal_strlit("const");
    reveal_strlit("static");
    reveal_strlit("mut");
    reveal_strlit("impl");
    reveal_strlit("trait");
    reveal_strlit("fn");
    reveal_strlit("let");
    reveal_strlit("if");
    reveal_strlit("else");
    reveal_strlit("while");
    reveal_strlit("for");
    reveal_strlit("loop");
    reveal_strlit("return");
    reveal_strlit("break");
    reveal_strlit("continue");
    reveal_strlit("as");
    reveal_strlit("use");
    reveal_strlit("mod");
    reveal_strlit("pub");
    reveal_strlit("crate");
    reveal_strlit("self");
    reveal_strlit("super");
    reveal_strlit("in");
    assert(crate::translate::snake_chars(Seq::<char>::empty()) == Seq::<char>::empty());
}

/// Every renamed parameter differs from its snake-case name, so is not empty.
proof fn lemma_binding_keys(ps: Seq<String>, m: Option<&PluginMetadata>)
    ensures
        forall|k: int| 0 <= k < param_bindings(ps, m).len() ==> (#[trigger] param_bindings(ps, m)[k]).0.len() > 0,
    decreases ps.len(),
{
    lemma_snake_empty();
    if ps.len() > 0 {
        lemma_binding_keys(ps.drop_last(), m);
        let b = param_bindings(ps.drop_last(), m);
        let p = ps.last()@;
        let all = param_bindings(ps, m);
        assert forall|k: int| 0 <= k < all.len() implies (#[trigger] all[k]).0.len() > 0 by {
            if k < b.len() {
                assert(all[k] == b[k]);
            } else {
                assert(all[k] == (p, snake_case(p)));
                if p.len() == 0 {
                    assert(p =~= Seq::<char>::empty());
                }
            }
        }
    }
}

/// Generate a Rust helper function from a Babel helper's transforms: the
/// declared signature when the metadata has one, else a guessed one; a
/// leading mapped-and-filtered return becomes a `filter_map`; otherwise each
/// transform in turn with parameters renamed to snake case.
#[verifier::spinoff_prover]
#[verifier::rlimit(50)]
pub fn generate_helper_function(helper: &HelperFunction, metadata: Option<&PluginMetadata>) -> (r: String)
    requires
        helper_ok(*helper, metadata),
    ensures
        r@ == helper_code(*helper, metadata),
{
    let func_name = to_snake_case(helper.name.as_str());
    let sb = has_string_building_exec(&helper.transforms);
    let mf = has_map_filter_exec(&helper.transforms);
    let declared: Option<&FunctionDef> = match metadata {
        Some(meta) => meta.get_function_signature(helper.name.as_str()),
        None => None,
    };
    let rust_params = match declared {
        Some(fd) => declared_params_exec(&fd.params),
        None => generate_inferred_params(helper),
    };
    let return_type = match declared {
        Some(fd) => owned(fd.returns.as_str()),
        None => infer_return_type(helper, mf, sb),
    };
    let head = joined3("pub fn ", func_name.as_str(), "(");
    let head = joined3(head.as_str(), rust_params.as_str(), ") -> ");
    let mut code = joined3(head.as_str(), return_type.as_str(), " {\n");
    if sb {
        code = joined(code.as_str(), "    let mut code = String::new();\n\n");
    }
    let ghost ts = helper.transforms@;
    let body: String = if mf {
        match &helper.transforms[0] {
            Transform::ReturnStmt { value } => match find_str(value.as_str(), ".map(") {
                Some(p) => {
                    proof {
                        lemma_find_from(value@, ".map("@, 0);
                    }
                    let array_name = value.as_str().substring_char(0, p);
                    let mut b = joined3("    ", array_name, ".iter().filter_map(|item| {\n");
                    let mut k: usize = 1;
                    while k < helper.transforms.len()
                        invariant
                            1 <= k <= ts.len(),
                            ts == helper.transforms@,
                            smart_list_ok(ts, k as int, 2, "Option<_>"@, metadata),
                            b@ + smart_list(ts, k as int, 2, "Option<_>"@, metadata) == "    "@ + value@.subrange(
                                0,
                                p as int,
                            ) + ".iter().filter_map(|item| {\n"@ + smart_list(ts, 1, 2, "Option<_>"@, metadata),
                        decreases ts.len() - k,
                    {
                        let piece = generate_transform_code_smart(&helper.transforms[k], 2, "Option<_>", metadata);
                        let ghost before = b@;
                        b = joined(b.as_str(), piece.as_str());
                        assert(b@ + smart_list(ts, k + 1, 2, "Option<_>"@, metadata) =~= before + smart_list(
                            ts,
                            k as int,
                            2,
                            "Option<_>"@,
                            metadata,
                        ));
                        k = k + 1;
                    }
                    assert(b@ + Seq::<char>::empty() =~= b@);
                    joined(b.as_str(), "    }).collect()\n")
                },
                None => String::new(),
            },
            _ => String::new(),
        }
    } else {
        let bindings = param_bindings_exec(&helper.params, metadata);
        proof {
            lemma_binding_keys(helper.params@, metadata);
            assert forall|k: int| 0 <= k < bindings@.len() implies (#[trigger] bindings@[k]).0@.len() > 0 by {
                assert(bindings@.map_values(|b: (String, String)| (b.0@, b.1@))[k] == (
                bindings@[k].0@,
                bindings@[k].1@,
                ));
            }
        }
        let ghost bs = bindings@.map_values(|b: (String, String)| (b.0@, b.1@));
        let mut b = String::new();
        let mut k: usize = 0;
        while k < helper.transforms.len()
            invariant
                k <= ts.len(),
                ts == helper.transforms@,
                bs == bindings@.map_values(|b: (String, String)| (b.0@, b.1@)),
                bs == param_bindings(helper.params@, metadata),
                forall|j: int| 0 <= j < bindings@.len() ==> (#[trigger] bindings@[j]).0@.len() > 0,
                return_type@ == helper_return_type(*helper, metadata),
                !has_map_filter(ts),
                helper_ok(*helper, metadata),
                b@ + helper_body_list(ts, k as int, return_type@, metadata, bs) == helper_body_list(
                    ts,
                    0,
                    return_type@,
                    metadata,
                    bs,
                ),
            decreases ts.len() - k,
        {
            let t = &helper.transforms[k];
            let skip = match t {
                Transform::VariableDeclaration { name, value, .. } => (str_eq(name.as_str(), "lines") || str_eq(
                    name.as_str(),
                    "code",
                )) && str_eq(value.as_str(), "value"),
                Transform::ReturnStmt { value } => contains_str(value.as_str(), ".join(") || str_eq(
                    value.as_str(),
                    "lines",
                ) || str_eq(value.as_str(), "code"),
                _ => false,
            };
            let ghost before = b@;
            if !skip {
                assert(smart_ok(ts[k as int], 1, helper_return_type(*helper, metadata), metadata));
                let piece = generate_transform_code_smart(t, 1, return_type.as_str(), metadata);
                let piece = substitute_all_exec(piece, &bindings);
                b = joined(b.as_str(), piece.as_str());
            }
            assert(b@ + helper_body_list(ts, k + 1, return_type@, metadata, bs) =~= before + helper_body_list(
                ts,
                k as int,
                return_type@,
                metadata,
                bs,
            ));
            k = k + 1;
        }
        assert(b@ + Seq::<char>::empty() =~= b@);
        b
    };
    code = joined(code.as_str(), body.as_str());
    if sb {
        code = joined(code.as_str(), "\n    code\n");
    }
    joined(code.as_str(), "}\n")
}

/// The Rust lines for the transforms, one after another.
pub fn generate_transforms_pub(ts: &Vec<Transform>, level: usize, m: Option<&PluginMetadata>) -> (r: String)
    requires
        transforms_ok(ts@, 0, level as int, m),
    ensures
        r@ == transforms_code(ts@, 0, level as int, m),
{
    generate_transforms(ts, level, m)
}

// ===================== whether code can be generated =====================

/// Whether the names in a pushed template can be translated.
fn push_ok_exec(value: &str) -> (r: bool)
    ensures
        r == push_ok(value@),
{
    if !(!starts_with(value, "\"") && !starts_with(value, "'") && starts_with(value, "`")) {
        return true;
    }
    let template = trim_backticks_exec(value);
    let (_fs, vars) = template_vars_exec(template);
    let ghost names = vars@.map_values(|x: String| x@);
    let mut k: usize = 0;
    while k < vars.len()
        invariant
            k <= vars@.len(),
            names == vars@.map_values(|x: String| x@),
            names == template_vars(trim_backticks(value@)).1,
            !"\""@.is_prefix_of(value@) && !"'"@.is_prefix_of(value@) && "`"@.is_prefix_of(value@),
            forall|j: int| 0 <= j < k ==> js_plain_ok(#[trigger] names[j]),
        decreases vars@.len() - k,
    {
        proof {
            assert(vars@[k as int]@ == names[k as int]);
        }
        if !crate::translate::js_translatable(vars[k].as_str()) {
            assert(!js_plain_ok(template_vars(trim_backticks(value@)).1[k as int]));
            return false;
        }
        k = k + 1;
    }
    true
}

/// Whether each text can be translated.
fn js_all_ok_exec(xs: &Vec<String>) -> (r: bool)
    ensures
        r == js_all_ok(xs@),
{
    let mut k: usize = 0;
    while k < xs.len()
        invariant
            k <= xs@.len(),
            forall|j: int| 0 <= j < k ==> js_plain_ok(#[trigger] xs@[j]@),
        decreases xs@.len() - k,
    {
        if !crate::translate::js_translatable(xs[k].as_str()) {
            return false;
        }
        k = k + 1;
    }
    true
}

/// Whether code can be generated for each of the transforms.
fn transforms_ok_exec(ts: &Vec<Transform>, level: usize, m: Option<&PluginMetadata>) -> (r: bool)
    ensures
        r == transforms_ok(ts@, 0, level as int, m),
    decreases ts, 0nat,
{
    proof {
        lemma_transforms_ok_all(ts@, 0, level as int, m);
    }
    let mut k: usize = 0;
    while k < ts.len()
        invariant
            k <= ts@.len(),
            transforms_ok(ts@, 0, level as int, m) == forall|j: int|
                0 <= j < ts@.len() ==> transform_ok(#[trigger] ts@[j], level as int, m),
            forall|j: int| 0 <= j < k ==> transform_ok(#[trigger] ts@[j], level as int, m),
        decreases ts@.len() - k,
    {
        if !transform_ok_exec(&ts[k], level, m) {
            return false;
        }
        k = k + 1;
    }
    true
}

/// The transforms from `i` on can be generated exactly when each of them can.
proof fn lemma_transforms_ok_all(ts: Seq<Transform>, i: int, level: int, m: Option<&PluginMetadata>)
    requires
        0 <= i,
    ensures
        transforms_ok(ts, i, level, m) == forall|j: int| i <= j < ts.len() ==> transform_ok(#[trigger] ts[j], level, m),
    decreases ts.len() - i,
{
    if i < ts.len() {
        lemma_transforms_ok_all(ts, i + 1, level, m);
    }
}

/// Whether code can be generated for a transform.
pub fn transform_ok_exec(t: &Transform, level: usize, m: Option<&PluginMetadata>) -> (r: bool)
    ensures
        r == transform_ok(*t, level as int, m),
    decreases t, 0nat,
{
    if level > usize::MAX / 4 {
        return false;
    }
    match t {
        Transform::VariableDeclaration { value, .. } => crate::translate::js_translatable_with_metadata(value.as_str(), m),
        Transform::FunctionCall { args, .. } => js_all_ok_exec(args),
        Transform::Conditional { condition, then_transforms, else_transforms } => {
            crate::condition::condition_translatable(condition.as_str(), m) && transforms_ok_exec(
                then_transforms,
                level + 1,
                m,
            ) && match else_transforms {
                Some(e) => transforms_ok_exec(e, level + 1, m),
                None => true,
            }
        },
        Transform::ArrayAccess { object, .. } => crate::translate::js_translatable(object.as_str()),
        Transform::HookCapture { args, .. } => js_all_ok_exec(args),
        Transform::TernaryExpr { condition, then_expr, else_expr } => crate::condition::condition_translatable(
            condition.as_str(),
            m,
        ) && crate::translate::js_translatable(then_expr.as_str()) && crate::translate::js_translatable(
            else_expr.as_str(),
        ),
        Transform::TemplateLiteral { exprs, .. } => {
            assert(transform_ok(*t, level as int, m) == forall|j: int|
                0 <= j < exprs@.len() ==> js_ok(#[trigger] exprs@[j]@, m));
            let mut k: usize = 0;
            while k < exprs.len()
                invariant
                    k <= exprs@.len(),
                    transform_ok(*t, level as int, m) == forall|j: int|
                        0 <= j < exprs@.len() ==> js_ok(#[trigger] exprs@[j]@, m),
                    forall|j: int| 0 <= j < k ==> js_ok(#[trigger] exprs@[j]@, m),
                decreases exprs@.len() - k,
            {
                if !crate::translate::js_translatable_with_metadata(exprs[k].as_str(), m) {
                    assert(!js_ok(exprs@[k as int]@, m));
                    return false;
                }
                k = k + 1;
            }
            true
        },
        Transform::ReturnStmt { value } => contains_str(value.as_str(), ".join(") || str_eq(value.as_str(), "lines")
            || str_eq(value.as_str(), "code") || crate::translate::js_translatable(value.as_str()),
        Transform::ArrayPush { value, .. } => push_ok_exec(value.as_str()),
        Transform::ArrayPushSpread { source_array, .. } => crate::translate::js_translatable(source_array.as_str()),
        Transform::ForOfLoop { body_transforms, .. } => transforms_ok_exec(body_transforms, level + 1, m),
        _ => true,
    }
}

/// Whether code can be generated for each of the transforms in a helper.
fn smart_list_ok_exec(ts: &Vec<Transform>, from: usize, level: usize, rt: &str, m: Option<&PluginMetadata>) -> (r: bool)
    requires
        from <= ts@.len(),
    ensures
        r == smart_list_ok(ts@, from as int, level as int, rt@, m),
    decreases ts, 0nat,
{
    proof {
        lemma_smart_list_ok_all(ts@, from as int, level as int, rt@, m);
    }
    let mut k: usize = from;
    while k < ts.len()
        invariant
            from <= k <= ts@.len(),
            smart_list_ok(ts@, from as int, level as int, rt@, m) == forall|j: int|
                from <= j < ts@.len() ==> smart_ok(#[trigger] ts@[j], level as int, rt@, m),
            forall|j: int| from <= j < k ==> smart_ok(#[trigger] ts@[j], level as int, rt@, m),
        decreases ts@.len() - k,
    {
        if !smart_ok_exec(&ts[k], level, rt, m) {
            return false;
        }
        k = k + 1;
    }
    true
}

/// The transforms from `i` on can be generated in a helper exactly when
/// each of them can.
proof fn lemma_smart_list_ok_all(ts: Seq<Transform>, i: int, level: int, rt: Seq<char>, m: Option<&PluginMetadata>)
    requires
        0 <= i,
    ensures
        smart_list_ok(ts, i, level, rt, m) == forall|j: int| i <= j < ts.len() ==> smart_ok(#[trigger] ts[j], level, rt, m),
    decreases ts.len() - i,
{
    if i < ts.len() {
        lemma_smart_list_ok_all(ts, i + 1, level, rt, m);
    }
}

/// Whether code can be generated for a transform in a helper.
pub fn smart_ok_exec(t: &Transform, level: usize, rt: &str, m: Option<&PluginMetadata>) -> (r: bool)
    ensures
        r == smart_ok(*t, level as int, rt@, m),
    decreases t, 1nat,
{
    if level > usize::MAX / 4 {
        return false;
    }
    match t {
        Transform::ReturnStmt { value } => {
            let v = value.as_str();
            contains_str(v, ".join(") || str_eq(v, "lines") || str_eq(v, "code") || str_eq(v, "expr")
                || crate::translate::js_translatable_with_metadata(v, m)
        },
        Transform::Conditional { condition, then_transforms, else_transforms } => {
            crate::condition::condition_translatable(condition.as_str(), m) && smart_list_ok_exec(
                then_transforms,
                0,
                level + 1,
                rt,
                m,
            ) && match else_transforms {
                Some(e) => smart_list_ok_exec(e, 0, level + 1, rt, m),
                None => true,
            }
        },
        Transform::ForOfLoop { iterable, body_transforms, .. } => crate::translate::js_translatable_with_metadata(
            iterable.as_str(),
            m,
        ) && smart_list_ok_exec(body_transforms, 0, level + 1, rt, m),
        _ => transform_ok_exec(t, level, m),
    }
}

/// Whether a helper function can be generated.
pub fn helper_generatable(helper: &HelperFunction, metadata: Option<&PluginMetadata>) -> (r: bool)
    ensures
        r == helper_ok(*helper, metadata),
{
    let sb = has_string_building_exec(&helper.transforms);
    let mf = has_map_filter_exec(&helper.transforms);
    if mf {
        return smart_list_ok_exec(&helper.transforms, 1, 2, "Option<_>", metadata);
    }
    let declared: Option<&FunctionDef> = match metadata {
        Some(meta) => meta.get_function_signature(helper.name.as_str()),
        None => None,
    };
    let return_type = match declared {
        Some(fd) => owned(fd.returns.as_str()),
        None => infer_return_type(helper, mf, sb),
    };
    let ghost ts = helper.transforms@;
    let mut k: usize = 0;
    while k < helper.transforms.len()
        invariant
            k <= ts.len(),
            ts == helper.transforms@,
            !has_map_filter(ts),
            return_type@ == helper_return_type(*helper, metadata),
            forall|j: int|
                0 <= j < k ==> skipped_in_helper(#[trigger] ts[j]) || smart_ok(ts[j], 1, helper_return_type(*helper, metadata), metadata),
        decreases ts.len() - k,
    {
        let t = &helper.transforms[k];
        let skip = match t {
            Transform::VariableDeclaration { name, value, .. } => (str_eq(name.as_str(), "lines") || str_eq(
                name.as_str(),
                "code",
            )) && str_eq(value.as_str(), "value"),
            Transform::ReturnStmt { value } => contains_str(value.as_str(), ".join(") || str_eq(value.as_str(), "lines")
                || str_eq(value.as_str(), "code"),
            _ => false,
        };
        assert(skip == skipped_in_helper(ts[k as int]));
        if !skip && !smart_ok_exec(t, 1, return_type.as_str(), metadata) {
            assert(!(skipped_in_helper(ts[k as int]) || smart_ok(ts[k as int], 1, helper_return_type(*helper, metadata), metadata)));
            return false;
        }
        k = k + 1;
    }
    true
}


/// The code for a ternary `c ? a : b` is an `if` whose then-branch holds the
/// translation of `a` and whose else-branch holds the translation of `b`,
/// bound to `result`.
pub proof fn law_ternary_branches_in_order(c: String, a: String, b: String, level: int, m: Option<&PluginMetadata>)
    ensures
        transform_code(Transform::TernaryExpr { condition: c, then_expr: a, else_expr: b }, level, m) == indent_of(level)
            + "let result = if "@ + condition_code(c@, m) + " { "@ + js_plain(a@) + " } else { "@ + js_plain(b@)
            + " };\n"@,
{
}

} // verus!
