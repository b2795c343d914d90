//! Translation of JavaScript conditions into Rust: Babel `t.isX(node)` type
//! checks become `matches!` patterns on SWC nodes, and other conditions are
//! rewritten piece by piece.

use vstd::prelude::*;
use crate::strings::{str_eq, owned, joined, joined3, starts_with};
use crate::text::{
    char_is_uppercase, contains_seq, contains_str, ends_with, find_first, find_last, find_str, rfind_str,
    join_seq, join_strs, replaced, replace_str, split_seq, split_str, trim, trim_ws, count_occurrences,
    count_str, lemma_find_from, lemma_split_pieces, is_uppercase,
};
use crate::translate::{mapping_for, mapped, byte_len, snake_case, to_snake_case};
use crate::metadata::PluginMetadata;

verus! {

// ===================== type checks =====================

/// What follows the checked variable in the `matches!` pattern of a Babel
/// type check, for the checks that have one.
pub open spec fn pattern_tail(check: Seq<char>) -> Option<Seq<char>> {
    if check == "isJSXAttribute"@ {
        Some(", JSXAttrOrSpread::JSXAttr(_))"@)
    } else if check == "isJSXSpreadAttribute"@ {
        Some(", JSXAttrOrSpread::SpreadElement(_))"@)
    } else if check == "isJSXExpressionContainer"@ {
        Some(", JSXAttrValue::JSXExprContainer(_))"@)
    } else if check == "isStringLiteral"@ {
        Some(", Lit::Str(_))"@)
    } else if check == "isIdentifier"@ {
        Some(", Expr::Ident(_))"@)
    } else if check == "isMemberExpression"@ {
        Some(", Expr::Member(_))"@)
    } else if check == "isCallExpression"@ {
        Some(", Expr::Call(_))"@)
    } else if check == "isTSArrayType"@ {
        Some(", TsType::TsArrayType(_))"@)
    } else if check == "isTSStringKeyword"@ {
        Some(", TsType::TsKeywordType(TsKeywordType { kind: TsKeywordTypeKind::TsStringKeyword, .. }))"@)
    } else if check == "isTSNumberKeyword"@ {
        Some(", TsType::TsKeywordType(TsKeywordType { kind: TsKeywordTypeKind::TsNumberKeyword, .. }))"@)
    } else if check == "isTSBooleanKeyword"@ {
        Some(", TsType::TsKeywordType(TsKeywordType { kind: TsKeywordTypeKind::TsBooleanKeyword, .. }))"@)
    } else if check == "isTSAnyKeyword"@ {
        Some(", TsType::TsKeywordType(TsKeywordType { kind: TsKeywordTypeKind::TsAnyKeyword, .. }))"@)
    } else if check == "isTSTypeLiteral"@ {
        Some(", TsType::TsTypeLit(_))"@)
    } else if check == "isTSTypeReference"@ {
        Some(", TsType::TsTypeRef(_))"@)
    } else if check == "isNumericLiteral"@ {
        Some(", Lit::Num(_))"@)
    } else if check == "isBooleanLiteral"@ {
        Some(", Lit::Bool(_))"@)
    } else if check == "isNullLiteral"@ {
        Some(", Lit::Null(_))"@)
    } else if check == "isArrayExpression"@ {
        Some(", Expr::Array(_))"@)
    } else if check == "isObjectExpression"@ {
        Some(", Expr::Object(_))"@)
    } else {
        None
    }
}

/// The `matches!` pattern for a Babel type check on `var`; an identifier
/// check with a required name compares the symbol too.
pub open spec fn check_pattern(check: Seq<char>, var: Seq<char>, name: Option<Seq<char>>) -> Seq<char> {
    if check == "isIdentifier"@ && name is Some {
        "matches!("@ + var + ", Expr::Ident(ident) if ident.sym == \""@ + name->0 + "\")"@
    } else {
        match pattern_tail(check) {
            Some(tail) => "matches!("@ + var + tail,
            None => "/* TODO: translate "@ + check + " */ true"@,
        }
    }
}

/// The tail of the `matches!` pattern for a type check.
fn pattern_tail_exec(check: &str) -> (r: Option<&'static str>)
    ensures
        match r {
            Some(t) => pattern_tail(check@) == Some(t@),
            None => pattern_tail(check@) is None,
        },
{
    if str_eq(check, "isJSXAttribute") {
        Some(", JSXAttrOrSpread::JSXAttr(_))")
    } else if str_eq(check, "isJSXSpreadAttribute") {
        Some(", JSXAttrOrSpread::SpreadElement(_))")
    } else if str_eq(check, "isJSXExpressionContainer") {
        Some(", JSXAttrValue::JSXExprContainer(_))")
    } else if str_eq(check, "isStringLiteral") {
        Some(", Lit::Str(_))")
    } else if str_eq(check, "isIdentifier") {
        Some(", Expr::Ident(_))")
    } else if str_eq(check, "isMemberExpression") {
        Some(", Expr::Member(_))")
    } else if str_eq(check, "isCallExpression") {
        Some(", Expr::Call(_))")
    } else if str_eq(check, "isTSArrayType") {
        Some(", TsType::TsArrayType(_))")
    } else if str_eq(check, "isTSStringKeyword") {
        Some(", TsType::TsKeywordType(TsKeywordType { kind: TsKeywordTypeKind::TsStringKeyword, .. }))")
    } else if str_eq(check, "isTSNumberKeyword") {
        Some(", TsType::TsKeywordType(TsKeywordType { kind: TsKeywordTypeKind::TsNumberKeyword, .. }))")
    } else if str_eq(check, "isTSBooleanKeyword") {
        Some(", TsType::TsKeywordType(TsKeywordType { kind: TsKeywordTypeKind::TsBooleanKeyword, .. }))")
    } else if str_eq(check, "isTSAnyKeyword") {
        Some(", TsType::TsKeywordType(TsKeywordType { kind: TsKeywordTypeKind::TsAnyKeyword, .. }))")
    } else if str_eq(check, "isTSTypeLiteral") {
        Some(", TsType::TsTypeLit(_))")
    } else if str_eq(check, "isTSTypeReference") {
        Some(", TsType::TsTypeRef(_))")
    } else if str_eq(check, "isNumericLiteral") {
        Some(", Lit::Num(_))")
    } else if str_eq(check, "isBooleanLiteral") {
        Some(", Lit::Bool(_))")
    } else if str_eq(check, "isNullLiteral") {
        Some(", Lit::Null(_))")
    } else if str_eq(check, "isArrayExpression") {
        Some(", Expr::Array(_))")
    } else if str_eq(check, "isObjectExpression") {
        Some(", Expr::Object(_))")
    } else {
        None
    }
}

/// The first position from `i` on holding a quote, single or double.
pub open spec fn first_quote_from(s: Seq<char>, i: int) -> Option<int>
    decreases s.len() - i,
{
    if i < 0 || i >= s.len() {
        None
    } else if s[i] == '\'' || s[i] == '"' {
        Some(i)
    } else {
        first_quote_from(s, i + 1)
    }
}

/// The text after `name:` in a constraint argument, trimmed.
pub open spec fn after_name_colon(a: Seq<char>) -> Option<Seq<char>> {
    match find_first(a, "name:"@) {
        Some(np) => Some(trim_ws(a.subrange(np + 5, a.len() as int))),
        None => None,
    }
}

/// The quoted name of a `{ name: '...' }` constraint. The quote that ends the
/// name is the character found at the byte offset of the opening quote.
pub open spec fn constraint_name(a: Seq<char>) -> Option<Seq<char>> {
    match after_name_colon(a) {
        Some(ac) => match first_quote_from(ac, 0) {
            Some(qi) => {
                let qc = ac[byte_len(ac.subrange(0, qi))];
                let rest = ac.subrange(qi + 1, ac.len() as int);
                match find_first(rest, seq![qc]) {
                    Some(k) => Some(rest.subrange(0, k)),
                    None => None,
                }
            },
            None => None,
        },
        None => None,
    }
}

/// Whether reading a constraint's name stays within the text: the byte
/// offset of the opening quote must be a character position.
pub open spec fn constraint_ok(a: Seq<char>) -> bool {
    match after_name_colon(a) {
        Some(ac) => match first_quote_from(ac, 0) {
            Some(qi) => byte_len(ac.subrange(0, qi)) < ac.len(),
            None => true,
        },
        None => true,
    }
}

/// Where the arguments of a type check end: at the last `)`, else at the end.
pub open spec fn args_end(js: Seq<char>) -> int {
    match find_last(js, ")"@) {
        Some(r) => r,
        None => js.len() as int,
    }
}

/// The arguments of a type check whose `(` is at `p`, split at commas.
pub open spec fn check_args(js: Seq<char>, p: int) -> Seq<Seq<char>> {
    split_seq(js.subrange(p + 1, args_end(js)), ","@)
}

/// The checked variable: the first argument, trimmed, with its first
/// `.`-separated part mapped by the metadata.
pub open spec fn checked_var(m: Option<&PluginMetadata>, var_text: Seq<char>) -> Seq<char> {
    let base = split_seq(var_text, "."@)[0];
    let suffix = if contains_seq(var_text, "."@) {
        var_text.subrange(base.len() as int, var_text.len() as int)
    } else {
        Seq::empty()
    };
    let mapped_base = match mapping_for(m, base) {
        Some(v) => v,
        None => base,
    };
    mapped_base + suffix
}

/// The name that a second `{ name: ... }` argument requires, if any.
pub open spec fn required_name(args: Seq<Seq<char>>) -> Option<Seq<char>> {
    if args.len() > 1 && contains_seq(trim_ws(args[1]), "name:"@) {
        constraint_name(trim_ws(args[1]))
    } else {
        None
    }
}

/// A Babel `t.isX(node, ...)` condition as a `matches!` pattern.
pub open spec fn type_check_condition(js: Seq<char>, m: Option<&PluginMetadata>) -> Seq<char> {
    match find_first(js, "("@) {
        Some(p) => {
            let args = check_args(js, p);
            check_pattern(js.subrange(2, p), checked_var(m, trim_ws(args[0])), required_name(args))
        },
        None => "true"@,
    }
}

/// Whether translating a type check stays within the text: its last `)` does
/// not come before its first `(`, and a name constraint is readable.
pub open spec fn type_check_ok(js: Seq<char>) -> bool {
    match find_first(js, "("@) {
        Some(p) => p + 1 <= args_end(js) && (check_args(js, p).len() > 1 && contains_seq(
            trim_ws(check_args(js, p)[1]),
            "name:"@,
        ) ==> constraint_ok(trim_ws(check_args(js, p)[1]))),
        None => true,
    }
}

/// A quote found from `i` on stands within the text.
proof fn lemma_first_quote(s: Seq<char>, i: int)
    ensures
        match first_quote_from(s, i) {
            Some(j) => i <= j < s.len(),
            None => true,
        },
    decreases s.len() - i,
{
    if 0 <= i < s.len() && !(s[i] == '\'' || s[i] == '"') {
        lemma_first_quote(s, i + 1);
    }
}

/// A longer leading part of a text has at least as many bytes.
proof fn lemma_byte_len_grows(s: Seq<char>, a: int, b: int)
    requires
        0 <= a <= b <= s.len(),
    ensures
        byte_len(s.subrange(0, a)) <= byte_len(s.subrange(0, b)),
    decreases b - a,
{
    if a < b {
        lemma_byte_len_grows(s, a, b - 1);
        assert(s.subrange(0, b).drop_last() =~= s.subrange(0, b - 1));
    }
}

/// The first position of a quote.
fn first_quote_exec(s: &str) -> (r: Option<usize>)
    ensures
        match r {
            Some(i) => first_quote_from(s@, 0) == Some(i as int),
            None => first_quote_from(s@, 0) is None,
        },
{
    let n = s.unicode_len();
    let mut i: usize = 0;
    while i < n
        invariant
            n == s@.len(),
            i <= n,
            first_quote_from(s@, 0) == first_quote_from(s@, i as int),
        decreases n - i,
    {
        let c = s.get_char(i);
        if c == '\'' || c == '"' {
            return Some(i);
        }
        i = i + 1;
    }
    None
}

/// The byte length of the first `p` characters of `s`, known to be below `cap`.
fn byte_offset_below(s: &str, p: usize, cap: usize) -> (r: Option<usize>)
    requires
        p <= s@.len(),
    ensures
        match r {
            Some(b) => b == byte_len(s@.subrange(0, p as int)) && b < cap,
            None => byte_len(s@.subrange(0, p as int)) >= cap,
        },
{
    if cap == 0 {
        proof {
            lemma_byte_len_grows(s@, 0, p as int);
            assert(s@.subrange(0, 0).len() == 0);
        }
        return None;
    }
    let mut b: usize = 0;
    let mut j: usize = 0;
    assert(s@.subrange(0, 0).len() == 0);
    while j < p
        invariant
            p <= s@.len(),
            j <= p,
            b < cap,
            b == byte_len(s@.subrange(0, j as int)),
        decreases p - j,
    {
        let c = s.get_char(j);
        proof {
            assert(s@.subrange(0, j + 1).drop_last() =~= s@.subrange(0, j as int));
            assert(s@.subrange(0, j + 1).last() == c);
        }
        let code: u32 = c as u32;
        let w: usize = if code < 0x80 {
            1
        } else if code < 0x800 {
            2
        } else if code < 0x10000 {
            3
        } else {
            4
        };
        if w >= cap - b {
            proof {
                lemma_byte_len_grows(s@, j + 1, p as int);
            }
            return None;
        }
        b = b + w;
        j = j + 1;
    }
    Some(b)
}

/// The quoted name of a `{ name: '...' }` constraint.
fn constraint_name_exec(a: &str) -> (r: Option<String>)
    requires
        constraint_ok(a@),
    ensures
        match r {
            Some(x) => constraint_name(a@) == Some(x@),
            None => constraint_name(a@) is None,
        },
{
    proof {
        reveal_strlit("name:");
    }
    match find_str(a, "name:") {
        None => None,
        Some(np) => {
            proof {
                lemma_find_from(a@, "name:"@, 0);
            }
            let n = a.unicode_len();
            let ac = trim(a.substring_char(np + 5, n));
            match first_quote_exec(ac) {
                None => None,
                Some(qi) => {
                    proof {
                        lemma_first_quote(ac@, 0);
                    }
                    let acn = ac.unicode_len();
                    match byte_offset_below(ac, qi, acn) {
                        None => None,
                        Some(qb) => {
                            let qc = ac.get_char(qb);
                            let rest = ac.substring_char(qi + 1, acn);
                            let qs = crate::text::char_string(qc);
                            match find_str(rest, qs.as_str()) {
                                Some(k) => {
                                    proof {
                                        lemma_find_from(rest@, seq![qc], 0);
                                    }
                                    Some(owned(rest.substring_char(0, k)))
                                },
                                None => None,
                            }
                        },
                    }
                },
            }
        },
    }
}

/// The checked variable of a type check.
fn checked_var_exec(m: Option<&PluginMetadata>, var_text: &str) -> (r: String)
    ensures
        r@ == checked_var(m, var_text@),
{
    proof {
        reveal_strlit(".");
    }
    let parts = split_str(var_text, ".");
    proof {
        lemma_split_pieces(var_text@, "."@);
        assert(parts@[0]@ == split_seq(var_text@, "."@)[0]);
    }
    let base = parts[0].as_str();
    let suffix: &str = if contains_str(var_text, ".") {
        var_text.substring_char(base.unicode_len(), var_text.unicode_len())
    } else {
        ""
    };
    proof {
        reveal_strlit("");
    }
    let mapped_base: &str = match mapped(m, base) {
        Some(v) => v,
        None => base,
    };
    joined(mapped_base, suffix)
}

/// A Babel `t.isX(node, ...)` condition as a `matches!` pattern.
fn type_check_condition_exec(js: &str, m: Option<&PluginMetadata>) -> (r: String)
    requires
        "t.is"@.is_prefix_of(js@),
        type_check_ok(js@),
    ensures
        r@ == type_check_condition(js@, m),
{
    proof {
        reveal_strlit("(");
        reveal_strlit(")");
        reveal_strlit("t.is");
        reveal_strlit(",");
    }
    let n = js.unicode_len();
    match find_str(js, "(") {
        None => owned("true"),
        Some(p) => {
            proof {
                lemma_find_from(js@, "("@, 0);
                assert(js@.subrange(p as int, p + 1)[0] == js@[p as int]);
                assert(js@.subrange(0, 4)[0] == js@[0]);
                assert(js@.subrange(0, 4)[1] == js@[1]);
                assert(js@[p as int] == '(');
                assert(js@[0] == 't' && js@[1] == '.');
            }
            let end: usize = match rfind_str(js, ")") {
                Some(r) => r,
                None => n,
            };
            proof {
                crate::text::lemma_find_last_from(js@, ")"@, js@.len() - 1);
            }
            let check = js.substring_char(2, p);
            let args_str = js.substring_char(p + 1, end);
            let args = split_str(args_str, ",");
            let ghost views = args@.map_values(|x: String| x@);
            proof {
                lemma_split_pieces(args_str@, ","@);
                assert(views == check_args(js@, p as int));
                assert(args@[0]@ == views[0]);
            }
            let var_text = trim(args[0].as_str());
            let var = checked_var_exec(m, var_text);
            let name: Option<String> = if args.len() > 1 && contains_str(trim(args[1].as_str()), "name:") {
                proof {
                    assert(args@[1]@ == views[1]);
                }
                constraint_name_exec(trim(args[1].as_str()))
            } else {
                None
            };
            proof {
                if args.len() > 1 {
                    assert(args@[1]@ == views[1]);
                }
            }
            if str_eq(check, "isIdentifier") && name.is_some() {
                let nm = name.unwrap();
                let head = joined3("matches!(", var.as_str(), ", Expr::Ident(ident) if ident.sym == \"");
                joined3(head.as_str(), nm.as_str(), "\")")
            } else {
                match pattern_tail_exec(check) {
                    Some(tail) => joined3("matches!(", var.as_str(), tail),
                    None => joined3("/* TODO: translate ", check, " */ true"),
                }
            }
        },
    }
}

// ===================== other conditions =====================

/// A part of a `&&` chain: a bare plural or list-like reference becomes a
/// non-emptiness test.
pub open spec fn truthy(t: Seq<char>) -> Seq<char> {
    if !contains_seq(t, "=="@) && !contains_seq(t, "!="@) && !contains_seq(t, ">"@) && !contains_seq(t, "<"@)
        && !contains_seq(t, "("@) && !contains_seq(t, ")"@) && (contains_seq(t, ".hooks"@) || contains_seq(
        t,
        ".props"@,
    ) || contains_seq(t, ".jsx_elements"@) || "s"@.is_suffix_of(t)) {
        "!"@ + t + ".is_empty()"@
    } else {
        t
    }
}

/// Each part trimmed and put through [`truthy`].
pub open spec fn truthy_parts(ps: Seq<Seq<char>>) -> Seq<Seq<char>>
    decreases ps.len(),
{
    if ps.len() == 0 {
        Seq::empty()
    } else {
        truthy_parts(ps.drop_last()).push(truthy(trim_ws(ps.last())))
    }
}

/// A `&&` chain with each part made a test.
pub open spec fn and_chain(r: Seq<char>) -> Seq<char> {
    if contains_seq(r, " && "@) {
        join_seq(truthy_parts(split_seq(r, " && "@)), " && "@)
    } else {
        r
    }
}

/// The first `]` turned into `)`.
pub open spec fn close_first_bracket(r: Seq<char>) -> Seq<char> {
    match find_first(r, "]"@) {
        Some(pos) => r.subrange(0, pos) + ")"@ + r.subrange(pos + 1, r.len() as int),
        None => r,
    }
}

/// The first `]` turned into `)`, `n` times over.
pub open spec fn close_brackets(r: Seq<char>, n: nat) -> Seq<char>
    decreases n,
{
    if n == 0 {
        r
    } else {
        close_brackets(close_first_bracket(r), (n - 1) as nat)
    }
}

/// Bracket access `obj.[key]` as `obj.get(&key)`.
pub open spec fn bracket_access(r: Seq<char>) -> Seq<char> {
    close_brackets(replaced(r, ".["@, ".get(&"@), count_occurrences(r, ".["@))
}

/// JavaScript member and method names as their Rust counterparts.
pub open spec fn member_renames(r: Seq<char>) -> Seq<char> {
    let r1 = replaced(r, ".length"@, ".len()"@);
    let r2 = replaced(r1, ".type"@, ".hook_type"@);
    let r3 = replaced(r2, ".stateName"@, ".state_name"@);
    let r4 = replaced(r3, ".setterName"@, ".setter_name"@);
    let r5 = replaced(r4, ".initialValue"@, ".initial_value"@);
    let r6 = replaced(r5, ".jsxElements"@, ".jsx_elements"@);
    let r7 = replaced(r6, "path.parent.type"@, "parent_type"@);
    let r8 = replaced(r7, ".startsWith("@, ".starts_with("@);
    replaced(r8, ".endsWith("@, ".ends_with("@)
}

/// The Rust test for a regular-expression pattern tested on `var`.
pub open spec fn regex_check(pattern: Seq<char>, var: Seq<char>) -> Seq<char> {
    if pattern == r"^\d+$"@ {
        var + ".chars().all(|c| c.is_numeric())"@
    } else if pattern == r"^\d+\.\d+$"@ || pattern == r"^\d+\\\\.\\d+$"@ {
        var + ".contains('.') && "@ + var + ".parse::<f64>().is_ok()"@
    } else {
        "/* TODO: translate regex /"@ + pattern + "/  */ true"@
    }
}

/// A `REGEX(pattern).test(var)` condition as a Rust test.
pub open spec fn regex_test(r: Seq<char>) -> Seq<char> {
    if contains_seq(r, "REGEX("@) && contains_seq(r, ").test("@) {
        match (find_first(r, "REGEX("@), find_first(r, ").test("@)) {
            (Some(rs), Some(re)) => match find_first(r, ".test("@) {
                Some(ts) => match find_first(r.subrange(ts, r.len() as int), ")"@) {
                    Some(te) => regex_check(r.subrange(rs + 6, re), r.subrange(ts + 6, ts + te)),
                    None => r,
                },
                None => r,
            },
            _ => r,
        }
    } else {
        r
    }
}

/// Whether reading a `REGEX(...)` test stays within the text: its `).test(`
/// does not come before the pattern starts.
pub open spec fn regex_test_ok(r: Seq<char>) -> bool {
    contains_seq(r, "REGEX("@) && contains_seq(r, ").test("@) ==> match (
        find_first(r, "REGEX("@),
        find_first(r, ").test("@),
    ) {
        (Some(rs), Some(re)) => rs + 6 <= re,
        _ => true,
    }
}

/// The first position from `i` on of a space, `|` or `&`.
pub open spec fn first_stop_from(s: Seq<char>, i: int) -> Option<int>
    decreases s.len() - i,
{
    if i < 0 || i >= s.len() {
        None
    } else if s[i] == ' ' || s[i] == '|' || s[i] == '&' {
        Some(i)
    } else {
        first_stop_from(s, i + 1)
    }
}

/// A leading `!name` as `name.is_empty()`.
pub open spec fn negation(r: Seq<char>) -> Seq<char> {
    if "!"@.is_prefix_of(r) && !contains_seq(r, "!("@) && !contains_seq(r, ".is_empty()"@) {
        let ve = match first_stop_from(r.subrange(1, r.len() as int), 0) {
            Some(pos) => pos + 1,
            None => r.len() as int,
        };
        r.subrange(1, ve) + ".is_empty()"@ + r.subrange(ve, r.len() as int)
    } else {
        r
    }
}

/// Variable names and comparison operators as in Rust.
pub open spec fn final_renames(r: Seq<char>) -> Seq<char> {
    let r1 = replaced(r, "csharpType"@, "csharp_type"@);
    let r2 = replaced(r1, "csharpValue"@, "csharp_value"@);
    let r3 = replaced(r2, "jsValue"@, "js_value"@);
    let r4 = replaced(r3, "initialValue"@, "initial_value"@);
    let r5 = replaced(r4, "==="@, "=="@);
    replaced(r5, "!=="@, "!="@)
}

/// Whether `regex::Regex::new` accepts a pattern.
pub uninterp spec fn regex_accepts(pattern: Seq<char>) -> bool;

/// What `regex::Regex::replace_all` gives for a pattern and a text when each
/// match is replaced by its first group put through [`snake_word`].
pub uninterp spec fn regex_replace_words(pattern: Seq<char>, text: Seq<char>) -> Seq<char>;

/// The pattern of a lowercase-initial word.
pub open spec fn word_pattern() -> Seq<char> {
    r"\b([a-z][a-zA-Z0-9]*)\b"@
}

/// Every lowercase-initial camelCase word in snake case.
pub open spec fn snake_words(r: Seq<char>) -> Seq<char> {
    regex_replace_words(word_pattern(), r)
}

/// A condition that is not a type check, rewritten for Rust.
pub open spec fn condition_rewrite(js: Seq<char>) -> Seq<char> {
    if js == "path.node.id"@ {
        "path.node.id.is_some()"@
    } else if js == "path.parent.id"@ {
        "path.parent.id.is_some()"@
    } else {
        snake_words(final_renames(negation(regex_test(member_renames(bracket_access(and_chain(js)))))))
    }
}

/// A JavaScript condition in Rust: the metadata's mapping first, then a
/// type check as a `matches!` pattern, else the rewritten condition.
pub open spec fn condition_code(js: Seq<char>, m: Option<&PluginMetadata>) -> Seq<char> {
    match mapping_for(m, js) {
        Some(v) => v,
        None => if "t.is"@.is_prefix_of(js) {
            type_check_condition(js, m)
        } else {
            condition_rewrite(js)
        },
    }
}

/// Whether translating a condition stays within the text.
pub open spec fn condition_ok(js: Seq<char>, m: Option<&PluginMetadata>) -> bool {
    ||| mapping_for(m, js) is Some
    ||| "t.is"@.is_prefix_of(js) && type_check_ok(js)
    ||| !"t.is"@.is_prefix_of(js) && regex_test_ok(member_renames(bracket_access(and_chain(js))))
}

/// Whether a text holds an uppercase character.
pub open spec fn has_upper(w: Seq<char>) -> bool {
    exists|i: int| 0 <= i < w.len() && char_is_uppercase(#[trigger] w[i])
}

/// A matched word: in snake case if it holds an uppercase character.
pub fn snake_word(w: &str) -> (r: String)
    ensures
        r@ == (if has_upper(w@) {
            snake_case(w@)
        } else {
            w@
        }),
{
    let n = w.unicode_len();
    let mut i: usize = 0;
    while i < n
        invariant
            n == w@.len(),
            i <= n,
            forall|j: int| 0 <= j < i ==> !char_is_uppercase(#[trigger] w@[j]),
        decreases n - i,
    {
        if is_uppercase(w.get_char(i)) {
            return to_snake_case(w);
        }
        i = i + 1;
    }
    owned(w)
}

/// `regex::Regex::new(pattern)`, then `replace_all` on `text` with each match
/// replaced by its first group put through [`snake_word`]; `None` when the
/// pattern is refused. The word pattern `\b([a-z][a-zA-Z0-9]*)\b` is a valid
/// pattern, so it is accepted. What the replacement gives is named, not stated.
#[verifier::external_body]
fn regex_snake_words(pattern: &str, text: &str) -> (r: Option<String>)
    ensures
        r is Some <==> regex_accepts(pattern@),
        pattern@ == word_pattern() ==> r is Some,
        match r {
            Some(x) => x@ == regex_replace_words(pattern@, text@),
            None => true,
        },
{
    match regex::Regex::new(pattern) {
        Ok(re) => Some(
            re.replace_all(text, |caps: &regex::Captures| snake_word(caps.get(1).map_or("", |m| m.as_str())))
                .to_string(),
        ),
        Err(_) => None,
    }
}

/// A part of a `&&` chain made a test.
fn truthy_exec(t: &str) -> (r: String)
    ensures
        r@ == truthy(t@),
{
    if !contains_str(t, "==") && !contains_str(t, "!=") && !contains_str(t, ">") && !contains_str(t, "<")
        && !contains_str(t, "(") && !contains_str(t, ")") && (contains_str(t, ".hooks") || contains_str(
        t,
        ".props",
    ) || contains_str(t, ".jsx_elements") || ends_with(t, "s")) {
        joined3("!", t, ".is_empty()")
    } else {
        owned(t)
    }
}

/// A `&&` chain with each part made a test.
fn and_chain_exec(r: &str) -> (out: String)
    ensures
        out@ == and_chain(r@),
{
    if !contains_str(r, " && ") {
        return owned(r);
    }
    proof {
        reveal_strlit(" && ");
    }
    let parts = split_str(r, " && ");
    let ghost views = parts@.map_values(|x: String| x@);
    let mut done: Vec<String> = Vec::new();
    let mut i: usize = 0;
    while i < parts.len()
        invariant
            i <= parts@.len(),
            views == parts@.map_values(|x: String| x@),
            done@.map_values(|x: String| x@) == truthy_parts(views.subrange(0, i as int)),
        decreases parts@.len() - i,
    {
        proof {
            assert(views.subrange(0, i + 1).drop_last() =~= views.subrange(0, i as int));
            assert(parts@[i as int]@ == views[i as int]);
        }
        let t = truthy_exec(trim(parts[i].as_str()));
        let ghost before = done@;
        done.push(t);
        proof {
            assert(done@.map_values(|x: String| x@) =~= before.map_values(|x: String| x@).push(t@));
        }
        i = i + 1;
    }
    assert(views.subrange(0, i as int) =~= views);
    join_strs(&done, " && ")
}

/// Bracket access `obj.[key]` as `obj.get(&key)`.
fn bracket_access_exec(r: &str) -> (out: String)
    ensures
        out@ == bracket_access(r@),
{
    proof {
        reveal_strlit(".[");
        reveal_strlit("]");
    }
    let count = count_str(r, ".[");
    let mut result = replace_str(r, ".[", ".get(&");
    let mut k: usize = 0;
    while k < count
        invariant
            k <= count,
            close_brackets(result@, (count - k) as nat) == bracket_access(r@),
        decreases count - k,
    {
        let ghost before = result@;
        match find_str(result.as_str(), "]") {
            Some(pos) => {
                proof {
                    lemma_find_from(result@, "]"@, 0);
                    reveal_strlit("]");
                }
                let n = result.unicode_len();
                let head = joined(result.as_str().substring_char(0, pos), ")");
                result = joined(head.as_str(), result.as_str().substring_char(pos + 1, n));
            },
            None => {},
        }
        assert(result@ =~= close_first_bracket(before));
        k = k + 1;
    }
    result
}

/// `s` with every occurrence of a literal `f` replaced by `t`.
fn replace_lit(s: &str, f: &str, t: &str) -> (r: String)
    requires
        f@.len() > 0,
    ensures
        r@ == replaced(s@, f@, t@),
{
    replace_str(s, f, t)
}

/// JavaScript member and method names as their Rust counterparts.
fn member_renames_exec(r: &str) -> (out: String)
    ensures
        out@ == member_renames(r@),
{
    proof {
        reveal_strlit(".length");
        reveal_strlit(".type");
        reveal_strlit(".stateName");
        reveal_strlit(".setterName");
        reveal_strlit(".initialValue");
        reveal_strlit(".jsxElements");
        reveal_strlit("path.parent.type");
        reveal_strlit(".startsWith(");
        reveal_strlit(".endsWith(");
    }
    let r1 = replace_lit(r, ".length", ".len()");
    let r2 = replace_lit(r1.as_str(), ".type", ".hook_type");
    let r3 = replace_lit(r2.as_str(), ".stateName", ".state_name");
    let r4 = replace_lit(r3.as_str(), ".setterName", ".setter_name");
    let r5 = replace_lit(r4.as_str(), ".initialValue", ".initial_value");
    let r6 = replace_lit(r5.as_str(), ".jsxElements", ".jsx_elements");
    let r7 = replace_lit(r6.as_str(), "path.parent.type", "parent_type");
    let r8 = replace_lit(r7.as_str(), ".startsWith(", ".starts_with(");
    replace_lit(r8.as_str(), ".endsWith(", ".ends_with(")
}

/// The Rust test for a regular-expression pattern tested on `var`.
fn regex_check_exec(pattern: &str, var: &str) -> (r: String)
    ensures
        r@ == regex_check(pattern@, var@),
{
    if str_eq(pattern, r"^\d+$") {
        joined(var, ".chars().all(|c| c.is_numeric())")
    } else if str_eq(pattern, r"^\d+\.\d+$") || str_eq(pattern, r"^\d+\\\\.\\d+$") {
        let head = joined3(var, ".contains('.') && ", var);
        joined(head.as_str(), ".parse::<f64>().is_ok()")
    } else {
        joined3("/* TODO: translate regex /", pattern, "/  */ true")
    }
}

/// A `REGEX(pattern).test(var)` condition as a Rust test.
fn regex_test_exec(r: &str) -> (out: String)
    requires
        regex_test_ok(r@),
    ensures
        out@ == regex_test(r@),
{
    proof {
        reveal_strlit("REGEX(");
        reveal_strlit(").test(");
        reveal_strlit(".test(");
        reveal_strlit(")");
    }
    if !(contains_str(r, "REGEX(") && contains_str(r, ").test(")) {
        return owned(r);
    }
    let n = r.unicode_len();
    match (find_str(r, "REGEX("), find_str(r, ").test(")) {
        (Some(rs), Some(re)) => {
            proof {
                lemma_find_from(r@, "REGEX("@, 0);
                lemma_find_from(r@, ").test("@, 0);
            }
            match find_str(r, ".test(") {
                Some(ts) => {
                    proof {
                        lemma_find_from(r@, ".test("@, 0);
                    }
                    let tail = r.substring_char(ts, n);
                    match find_str(tail, ")") {
                        Some(te) => {
                            proof {
                                lemma_find_from(tail@, ")"@, 0);
                                assert(tail@.subrange(0, 6) =~= r@.subrange(ts as int, ts + 6));
                                if te < 6 {
                                    assert(tail@[te as int] == r@.subrange(ts as int, ts + 6)[te as int]);
                                    assert(tail@.subrange(te as int, te + 1)[0] == tail@[te as int]);
                                    assert(false);
                                }
                            }
                            let pattern = r.substring_char(rs + 6, re);
                            let var = r.substring_char(ts + 6, ts + te);
                            regex_check_exec(pattern, var)
                        },
                        None => owned(r),
                    }
                },
                None => owned(r),
            }
        },
        _ => owned(r),
    }
}

/// The first position of a space, `|` or `&`.
fn first_stop_exec(s: &str) -> (r: Option<usize>)
    ensures
        match r {
            Some(i) => first_stop_from(s@, 0) == Some(i as int) && i < s@.len(),
            None => first_stop_from(s@, 0) is None,
        },
{
    let n = s.unicode_len();
    let mut i: usize = 0;
    while i < n
        invariant
            n == s@.len(),
            i <= n,
            first_stop_from(s@, 0) == first_stop_from(s@, i as int),
        decreases n - i,
    {
        let c = s.get_char(i);
        if c == ' ' || c == '|' || c == '&' {
            return Some(i);
        }
        i = i + 1;
    }
    None
}

/// A leading `!name` as `name.is_empty()`.
fn negation_exec(r: &str) -> (out: String)
    ensures
        out@ == negation(r@),
{
    if starts_with(r, "!") && !contains_str(r, "!(") && !contains_str(r, ".is_empty()") {
        proof {
            reveal_strlit("!");
        }
        let n = r.unicode_len();
        let tail = r.substring_char(1, n);
        let ve: usize = match first_stop_exec(tail) {
            Some(pos) => pos + 1,
            None => n,
        };
        let head = joined(r.substring_char(1, ve), ".is_empty()");
        joined(head.as_str(), r.substring_char(ve, n))
    } else {
        owned(r)
    }
}

/// Variable names and comparison operators as in Rust.
fn final_renames_exec(r: &str) -> (out: String)
    ensures
        out@ == final_renames(r@),
{
    proof {
        reveal_strlit("csharpType");
        reveal_strlit("csharpValue");
        reveal_strlit("jsValue");
        reveal_strlit("initialValue");
        reveal_strlit("===");
        reveal_strlit("!==");
    }
    let r1 = replace_lit(r, "csharpType", "csharp_type");
    let r2 = replace_lit(r1.as_str(), "csharpValue", "csharp_value");
    let r3 = replace_lit(r2.as_str(), "jsValue", "js_value");
    let r4 = replace_lit(r3.as_str(), "initialValue", "initial_value");
    let r5 = replace_lit(r4.as_str(), "===", "==");
    replace_lit(r5.as_str(), "!==", "!=")
}

/// Translate a JavaScript condition into Rust: the metadata's mapping of the
/// whole condition first; a Babel `t.isX(node)` check becomes a `matches!`
/// pattern; any other condition is rewritten piece by piece.
pub fn translate_condition(js_condition: &str, metadata: Option<&PluginMetadata>) -> (r: String)
    requires
        condition_ok(js_condition@, metadata),
    ensures
        r@ == condition_code(js_condition@, metadata),
{
    if let Some(v) = mapped(metadata, js_condition) {
        return owned(v);
    }
    if starts_with(js_condition, "t.is") {
        return type_check_condition_exec(js_condition, metadata);
    }
    if str_eq(js_condition, "path.node.id") {
        return owned("path.node.id.is_some()");
    }
    if str_eq(js_condition, "path.parent.id") {
        return owned("path.parent.id.is_some()");
    }
    let r0 = and_chain_exec(js_condition);
    let r1 = bracket_access_exec(r0.as_str());
    let r2 = member_renames_exec(r1.as_str());
    let r3 = regex_test_exec(r2.as_str());
    let r4 = negation_exec(r3.as_str());
    let r5 = final_renames_exec(r4.as_str());
    match regex_snake_words(r"\b([a-z][a-zA-Z0-9]*)\b", r5.as_str()) {
        Some(x) => x,
        None => {
            // The word pattern is always accepted
            proof {
                assert(false);
            }
            r5
        },
    }
}

// ===================== whether a condition can be translated =====================

/// Whether a constraint's name can be read.
fn constraint_ok_exec(a: &str) -> (r: bool)
    ensures
        r == constraint_ok(a@),
{
    proof {
        reveal_strlit("name:");
    }
    match find_str(a, "name:") {
        None => true,
        Some(np) => {
            proof {
                lemma_find_from(a@, "name:"@, 0);
            }
            let n = a.unicode_len();
            let ac = trim(a.substring_char(np + 5, n));
            match first_quote_exec(ac) {
                None => true,
                Some(qi) => {
                    proof {
                        lemma_first_quote(ac@, 0);
                    }
                    let acn = ac.unicode_len();
                    byte_offset_below(ac, qi, acn).is_some()
                },
            }
        },
    }
}

/// Whether translating a type check stays within the text.
fn type_check_ok_exec(js: &str) -> (r: bool)
    ensures
        r == type_check_ok(js@),
{
    proof {
        reveal_strlit("(");
        reveal_strlit(")");
        reveal_strlit(",");
        reveal_strlit("name:");
    }
    let n = js.unicode_len();
    match find_str(js, "(") {
        None => true,
        Some(p) => {
            proof {
                lemma_find_from(js@, "("@, 0);
                crate::text::lemma_find_last_from(js@, ")"@, js@.len() - 1);
            }
            let end: usize = match rfind_str(js, ")") {
                Some(r) => r,
                None => n,
            };
            if p + 1 > end {
                return false;
            }
            let args_str = js.substring_char(p + 1, end);
            let args = split_str(args_str, ",");
            let ghost views = args@.map_values(|x: String| x@);
            proof {
                lemma_split_pieces(args_str@, ","@);
                assert(views == check_args(js@, p as int));
            }
            if args.len() > 1 && contains_str(trim(args[1].as_str()), "name:") {
                proof {
                    assert(args@[1]@ == views[1]);
                }
                constraint_ok_exec(trim(args[1].as_str()))
            } else {
                proof {
                    if args.len() > 1 {
                        assert(args@[1]@ == views[1]);
                    }
                }
                true
            }
        },
    }
}

/// Whether a `REGEX(...)` test can be read.
fn regex_test_ok_exec(r: &str) -> (out: bool)
    ensures
        out == regex_test_ok(r@),
{
    if !(contains_str(r, "REGEX(") && contains_str(r, ").test(")) {
        return true;
    }
    match (find_str(r, "REGEX("), find_str(r, ").test(")) {
        (Some(rs), Some(re)) => rs <= re && re - rs >= 6,
        _ => true,
    }
}

/// Whether translating a condition stays within the text.
pub fn condition_translatable(js_condition: &str, metadata: Option<&PluginMetadata>) -> (r: bool)
    ensures
        r == condition_ok(js_condition@, metadata),
{
    if mapped(metadata, js_condition).is_some() {
        return true;
    }
    if starts_with(js_condition, "t.is") {
        return type_check_ok_exec(js_condition);
    }
    let r0 = and_chain_exec(js_condition);
    let r1 = bracket_access_exec(r0.as_str());
    let r2 = member_renames_exec(r1.as_str());
    regex_test_ok_exec(r2.as_str())
}

} // verus!
