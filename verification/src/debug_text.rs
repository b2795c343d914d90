//! The text that `{:?}` shows for a transform: each variant by name with its
//! fields in braces, text quoted and escaped as Rust shows a string, lists in
//! square brackets and optional values as `Some(..)` or `None`.

use vstd::prelude::*;
use crate::strings::{owned, joined, joined3};
use crate::text::{char_string, escape_debug_string, char_escape_debug};
use crate::transform::Transform;

verus! {

/// A lowercase hexadecimal digit.
pub open spec fn lower_hex_digit(d: nat) -> char {
    "0123456789abcdef"@[d as int]
}

/// How a character is shown inside a quoted string: quotes, backslashes and
/// the common control characters by their escapes, other control characters
/// as `\u{..}` in lowercase hexadecimal, other ASCII characters as they are,
/// and any other character as `char::escape_debug` shows it.
pub open spec fn debug_char(c: char) -> Seq<char> {
    if c == '"' {
        "\\\""@
    } else if c == '\\' {
        "\\\\"@
    } else if c == '\n' {
        "\\n"@
    } else if c == '\r' {
        "\\r"@
    } else if c == '\t' {
        "\\t"@
    } else if c == '\0' {
        "\\0"@
    } else if (c as u32) < 16 {
        "\\u{"@ + seq![lower_hex_digit(c as u32 as nat)] + "}"@
    } else if (c as u32) < 32 || (c as u32) == 127 {
        "\\u{"@ + seq![lower_hex_digit((c as u32 / 16) as nat), lower_hex_digit((c as u32 % 16) as nat)] + "}"@
    } else if (c as u32) < 128 {
        seq![c]
    } else {
        char_escape_debug(c)
    }
}

/// The characters of a text, each as it is shown inside quotes.
pub open spec fn debug_chars(s: Seq<char>) -> Seq<char>
    decreases s.len(),
{
    if s.len() == 0 {
        Seq::empty()
    } else {
        debug_chars(s.drop_last()) + debug_char(s.last())
    }
}

/// A text as `{:?}` shows it: quoted, its characters escaped.
pub open spec fn debug_str(s: Seq<char>) -> Seq<char> {
    "\""@ + debug_chars(s) + "\""@
}

/// The texts from the `i`-th on, each quoted, separated by `, `.
pub open spec fn debug_str_items(ss: Seq<String>, i: int) -> Seq<char>
    decreases ss.len() - i,
{
    if 0 <= i < ss.len() {
        (if i == 0 { Seq::empty() } else { ", "@ }) + debug_str(ss[i]@) + debug_str_items(ss, i + 1)
    } else {
        Seq::empty()
    }
}

/// A list of texts as `{:?}` shows it.
pub open spec fn debug_strs(ss: Seq<String>) -> Seq<char> {
    "["@ + debug_str_items(ss, 0) + "]"@
}

/// An optional text as `{:?}` shows it.
pub open spec fn debug_opt_str(o: Option<String>) -> Seq<char> {
    match o {
        Some(s) => "Some("@ + debug_str(s@) + ")"@,
        None => "None"@,
    }
}

/// A flag as `{:?}` shows it.
pub open spec fn debug_bool(b: bool) -> Seq<char> {
    if b { "true"@ } else { "false"@ }
}

/// A transform as `{:?}` shows it.
pub open spec fn transform_text(t: Transform) -> Seq<char>
    decreases t, 0int,
{
    match t {
        Transform::PropertyAccess { js_path, rust_equiv } => "PropertyAccess { js_path: "@ + (debug_str(js_path@)) + ", rust_equiv: "@ + (debug_str(rust_equiv@)) + " }"@,
        Transform::MetadataAssignment { key, value_expr } => "MetadataAssignment { key: "@ + (debug_str(key@)) + ", value_expr: "@ + (debug_str(value_expr@)) + " }"@,
        Transform::FunctionCall { name, args } => "FunctionCall { name: "@ + (debug_str(name@)) + ", args: "@ + (debug_strs(args@)) + " }"@,
        Transform::Conditional { condition, then_transforms, else_transforms } => "Conditional { condition: "@ + (debug_str(condition@)) + ", then_transforms: "@ + ("["@ + transform_items(then_transforms@, 0) + "]"@) + ", else_transforms: "@ + (match else_transforms { Some(v) => "Some("@ + ("["@ + transform_items(v@, 0) + "]"@) + ")"@, None => "None"@ }) + " }"@,
        Transform::VariableDeclaration { name, value, is_destructured } => "VariableDeclaration { name: "@ + (debug_str(name@)) + ", value: "@ + (debug_str(value@)) + ", is_destructured: "@ + (debug_bool(is_destructured)) + " }"@,
        Transform::ArrayAccess { object, index } => "ArrayAccess { object: "@ + (debug_str(object@)) + ", index: "@ + (debug_str(index@)) + " }"@,
        Transform::JSXExtract { tag_name, property_path } => "JSXExtract { tag_name: "@ + (debug_str(tag_name@)) + ", property_path: "@ + (debug_str(property_path@)) + " }"@,
        Transform::HookCapture { hook_type, state_name, setter_name, args } => "HookCapture { hook_type: "@ + (debug_str(hook_type@)) + ", state_name: "@ + (debug_str(state_name@)) + ", setter_name: "@ + (debug_opt_str(setter_name)) + ", args: "@ + (debug_strs(args@)) + " }"@,
        Transform::LogicalChain { operator, left, right } => "LogicalChain { operator: "@ + (debug_str(operator@)) + ", left: "@ + (transform_text(*left)) + ", right: "@ + (transform_text(*right)) + " }"@,
        Transform::TernaryExpr { condition, then_expr, else_expr } => "TernaryExpr { condition: "@ + (debug_str(condition@)) + ", then_expr: "@ + (debug_str(then_expr@)) + ", else_expr: "@ + (debug_str(else_expr@)) + " }"@,
        Transform::TemplateStore { id, template_expr } => "TemplateStore { id: "@ + (debug_str(id@)) + ", template_expr: "@ + (debug_str(template_expr@)) + " }"@,
        Transform::TemplateLiteral { parts, exprs } => "TemplateLiteral { parts: "@ + (debug_strs(parts@)) + ", exprs: "@ + (debug_strs(exprs@)) + " }"@,
        Transform::ReturnStmt { value } => "ReturnStmt { value: "@ + (debug_str(value@)) + " }"@,
        Transform::TypeCheck { check_type, target, rust_pattern } => "TypeCheck { check_type: "@ + (debug_str(check_type@)) + ", target: "@ + (debug_str(target@)) + ", rust_pattern: "@ + (debug_str(rust_pattern@)) + " }"@,
        Transform::TraverseCall { visitors } => "TraverseCall { visitors: "@ + (debug_strs(visitors@)) + " }"@,
        Transform::ArrayPush { array_name, value } => "ArrayPush { array_name: "@ + (debug_str(array_name@)) + ", value: "@ + (debug_str(value@)) + " }"@,
        Transform::ArrayPushSpread { array_name, source_array } => "ArrayPushSpread { array_name: "@ + (debug_str(array_name@)) + ", source_array: "@ + (debug_str(source_array@)) + " }"@,
        Transform::ArrayJoin { array_name, separator } => "ArrayJoin { array_name: "@ + (debug_str(array_name@)) + ", separator: "@ + (debug_str(separator@)) + " }"@,
        Transform::ForOfLoop { iterator, iterable, body_transforms } => "ForOfLoop { iterator: "@ + (debug_str(iterator@)) + ", iterable: "@ + (debug_str(iterable@)) + ", body_transforms: "@ + ("["@ + transform_items(body_transforms@, 0) + "]"@) + " }"@,
        Transform::RawJs { code, reason } => "RawJs { code: "@ + (debug_str(code@)) + ", reason: "@ + (debug_str(reason@)) + " }"@,
    }
}

/// The transforms from the `i`-th on, each shown, separated by `, `.
pub open spec fn transform_items(ts: Seq<Transform>, i: int) -> Seq<char>
    decreases ts, ts.len() - i,
{
    if 0 <= i < ts.len() {
        (if i == 0 { Seq::empty() } else { ", "@ }) + transform_text(ts[i]) + transform_items(ts, i + 1)
    } else {
        Seq::empty()
    }
}

/// How a character is shown inside a quoted string.
fn debug_char_text(c: char) -> (r: String)
    ensures
        r@ == debug_char(c),
{
    if c == '"' {
        owned("\\\"")
    } else if c == '\\' {
        owned("\\\\")
    } else if c == '\n' {
        owned("\\n")
    } else if c == '\r' {
        owned("\\r")
    } else if c == '\t' {
        owned("\\t")
    } else if c == '\0' {
        owned("\\0")
    } else if (c as u32) < 16 {
        let digits = "0123456789abcdef";
        proof {
            reveal_strlit("0123456789abcdef");
        }
        let d = char_string(digits.get_char(c as u32 as usize));
        joined3("\\u{", d.as_str(), "}")
    } else if (c as u32) < 32 || (c as u32) == 127 {
        let digits = "0123456789abcdef";
        proof {
            reveal_strlit("0123456789abcdef");
        }
        let hi = char_string(digits.get_char((c as u32 / 16) as usize));
        let lo = char_string(digits.get_char((c as u32 % 16) as usize));
        let both = joined(hi.as_str(), lo.as_str());
        joined3("\\u{", both.as_str(), "}")
    } else if (c as u32) < 128 {
        char_string(c)
    } else {
        escape_debug_string(c)
    }
}

/// A text as `{:?}` shows it: quoted, its characters escaped.
pub fn debug_string(s: &str) -> (r: String)
    ensures
        r@ == debug_str(s@),
{
    let n = s.unicode_len();
    let mut out = String::new();
    let mut i: usize = 0;
    while i < n
        invariant
            n == s@.len(),
            i <= n,
            out@ == debug_chars(s@.subrange(0, i as int)),
        decreases n - i,
    {
        let piece = debug_char_text(s.get_char(i));
        out = joined(out.as_str(), piece.as_str());
        assert(s@.subrange(0, i + 1).drop_last() =~= s@.subrange(0, i as int));
        i = i + 1;
    }
    assert(s@.subrange(0, n as int) =~= s@);
    joined3("\"", out.as_str(), "\"")
}

/// A list of texts as `{:?}` shows it.
fn debug_string_list(ss: &Vec<String>) -> (r: String)
    ensures
        r@ == debug_strs(ss@),
{
    let mut out = String::new();
    let mut i: usize = 0;
    while i < ss.len()
        invariant
            i <= ss@.len(),
            out@ + debug_str_items(ss@, i as int) == debug_str_items(ss@, 0),
        decreases ss@.len() - i,
    {
        let q = debug_string(ss[i].as_str());
        let ghost before = out@;
        if i == 0 {
            out = joined(out.as_str(), q.as_str());
        } else {
            out = joined3(out.as_str(), ", ", q.as_str());
        }
        assert(out@ + debug_str_items(ss@, i + 1) =~= before + debug_str_items(ss@, i as int));
        i = i + 1;
    }
    assert(out@ + Seq::<char>::empty() =~= out@);
    joined3("[", out.as_str(), "]")
}

/// An optional text as `{:?}` shows it.
fn debug_opt_string(o: &Option<String>) -> (r: String)
    ensures
        r@ == debug_opt_str(*o),
{
    match o {
        Some(s) => {
            let q = debug_string(s.as_str());
            joined3("Some(", q.as_str(), ")")
        },
        None => owned("None"),
    }
}

/// A flag as `{:?}` shows it.
fn debug_bool_text(b: bool) -> (r: String)
    ensures
        r@ == debug_bool(b),
{
    if b { owned("true") } else { owned("false") }
}

/// A list of transforms as `{:?}` shows it.
fn debug_transform_list(ts: &Vec<Transform>) -> (r: String)
    ensures
        r@ == "["@ + transform_items(ts@, 0) + "]"@,
    decreases ts, 0nat,
{
    let mut out = String::new();
    let mut i: usize = 0;
    while i < ts.len()
        invariant
            i <= ts@.len(),
            out@ + transform_items(ts@, i as int) == transform_items(ts@, 0),
        decreases ts@.len() - i,
    {
        let q = debug_transform(&ts[i]);
        let ghost before = out@;
        if i == 0 {
            out = joined(out.as_str(), q.as_str());
        } else {
            out = joined3(out.as_str(), ", ", q.as_str());
        }
        assert(out@ + transform_items(ts@, i + 1) =~= before + transform_items(ts@, i as int));
        i = i + 1;
    }
    assert(out@ + Seq::<char>::empty() =~= out@);
    joined3("[", out.as_str(), "]")
}

/// A transform as `{:?}` shows it: the variant's name and its fields in braces.
pub fn debug_transform(t: &Transform) -> (r: String)
    ensures
        r@ == transform_text(*t),
    decreases t, 0nat,
{
    match t {
        Transform::PropertyAccess { js_path, rust_equiv } => {
            let v0 = debug_string(js_path.as_str());
            let mut out = joined("PropertyAccess { js_path: ", v0.as_str());
            let v1 = debug_string(rust_equiv.as_str());
            out = joined3(out.as_str(), ", rust_equiv: ", v1.as_str());
            joined(out.as_str(), " }")
        },
        Transform::MetadataAssignment { key, value_expr } => {
            let v0 = debug_string(key.as_str());
            let mut out = joined("MetadataAssignment { key: ", v0.as_str());
            let v1 = debug_string(value_expr.as_str());
            out = joined3(out.as_str(), ", value_expr: ", v1.as_str());
            joined(out.as_str(), " }")
        },
        Transform::FunctionCall { name, args } => {
            let v0 = debug_string(name.as_str());
            let mut out = joined("FunctionCall { name: ", v0.as_str());
            let v1 = debug_string_list(args);
            out = joined3(out.as_str(), ", args: ", v1.as_str());
            joined(out.as_str(), " }")
        },
        Transform::Conditional { condition, then_transforms, else_transforms } => {
            let v0 = debug_string(condition.as_str());
            let mut out = joined("Conditional { condition: ", v0.as_str());
            let v1 = debug_transform_list(then_transforms);
            out = joined3(out.as_str(), ", then_transforms: ", v1.as_str());
            let v2 = match else_transforms {
                Some(v) => {
                    let l = debug_transform_list(v);
                    joined3("Some(", l.as_str(), ")")
                },
                None => owned("None"),
            };
            out = joined3(out.as_str(), ", else_transforms: ", v2.as_str());
            joined(out.as_str(), " }")
        },
        Transform::VariableDeclaration { name, value, is_destructured } => {
            let v0 = debug_string(name.as_str());
            let mut out = joined("VariableDeclaration { name: ", v0.as_str());
            let v1 = debug_string(value.as_str());
            out = joined3(out.as_str(), ", value: ", v1.as_str());
            let v2 = debug_bool_text(*is_destructured);
            out = joined3(out.as_str(), ", is_destructured: ", v2.as_str());
            joined(out.as_str(), " }")
        },
        Transform::ArrayAccess { object, index } => {
            let v0 = debug_string(object.as_str());
            let mut out = joined("ArrayAccess { object: ", v0.as_str());
            let v1 = debug_string(index.as_str());
            out = joined3(out.as_str(), ", index: ", v1.as_str());
            joined(out.as_str(), " }")
        },
        Transform::JSXExtract { tag_name, property_path } => {
            let v0 = debug_string(tag_name.as_str());
            let mut out = joined("JSXExtract { tag_name: ", v0.as_str());
            let v1 = debug_string(property_path.as_str());
            out = joined3(out.as_str(), ", property_path: ", v1.as_str());
            joined(out.as_str(), " }")
        },
        Transform::HookCapture { hook_type, state_name, setter_name, args } => {
            let v0 = debug_string(hook_type.as_str());
            let mut out = joined("HookCapture { hook_type: ", v0.as_str());
            let v1 = debug_string(state_name.as_str());
            out = joined3(out.as_str(), ", state_name: ", v1.as_str());
            let v2 = debug_opt_string(setter_name);
            out = joined3(out.as_str(), ", setter_name: ", v2.as_str());
            let v3 = debug_string_list(args);
            out = joined3(out.as_str(), ", args: ", v3.as_str());
            joined(out.as_str(), " }")
        },
        Transform::LogicalChain { operator, left, right } => {
            let v0 = debug_string(operator.as_str());
            let mut out = joined("LogicalChain { operator: ", v0.as_str());
            let v1 = debug_transform(&**left);
            out = joined3(out.as_str(), ", left: ", v1.as_str());
            let v2 = debug_transform(&**right);
            out = joined3(out.as_str(), ", right: ", v2.as_str());
            joined(out.as_str(), " }")
        },
        Transform::TernaryExpr { condition, then_expr, else_expr } => {
            let v0 = debug_string(condition.as_str());
            let mut out = joined("TernaryExpr { condition: ", v0.as_str());
            let v1 = debug_string(then_expr.as_str());
            out = joined3(out.as_str(), ", then_expr: ", v1.as_str());
            let v2 = debug_string(else_expr.as_str());
            out = joined3(out.as_str(), ", else_expr: ", v2.as_str());
            joined(out.as_str(), " }")
        },
        Transform::TemplateStore { id, template_expr } => {
            let v0 = debug_string(id.as_str());
            let mut out = joined("TemplateStore { id: ", v0.as_str());
            let v1 = debug_string(template_expr.as_str());
            out = joined3(out.as_str(), ", template_expr: ", v1.as_str());
            joined(out.as_str(), " }")
        },
        Transform::TemplateLiteral { parts, exprs } => {
            let v0 = debug_string_list(parts);
            let mut out = joined("TemplateLiteral { parts: ", v0.as_str());
            let v1 = debug_string_list(exprs);
            out = joined3(out.as_str(), ", exprs: ", v1.as_str());
            joined(out.as_str(), " }")
        },
        Transform::ReturnStmt { value } => {
            let v0 = debug_string(value.as_str());
            let mut out = joined("ReturnStmt { value: ", v0.as_str());
            joined(out.as_str(), " }")
        },
        Transform::TypeCheck { check_type, target, rust_pattern } => {
            let v0 = debug_string(check_type.as_str());
            let mut out = joined("TypeCheck { check_type: ", v0.as_str());
            let v1 = debug_string(target.as_str());
            out = joined3(out.as_str(), ", target: ", v1.as_str());
            let v2 = debug_string(rust_pattern.as_str());
            out = joined3(out.as_str(), ", rust_pattern: ", v2.as_str());
            joined(out.as_str(), " }")
        },
        Transform::TraverseCall { visitors } => {
            let v0 = debug_string_list(visitors);
            let mut out = joined("TraverseCall { visitors: ", v0.as_str());
            joined(out.as_str(), " }")
        },
        Transform::ArrayPush { array_name, value } => {
            let v0 = debug_string(array_name.as_str());
            let mut out = joined("ArrayPush { array_name: ", v0.as_str());
            let v1 = debug_string(value.as_str());
            out = joined3(out.as_str(), ", value: ", v1.as_str());
            joined(out.as_str(), " }")
        },
        Transform::ArrayPushSpread { array_name, source_array } => {
            let v0 = debug_string(array_name.as_str());
            let mut out = joined("ArrayPushSpread { array_name: ", v0.as_str());
            let v1 = debug_string(source_array.as_str());
            out = joined3(out.as_str(), ", source_array: ", v1.as_str());
            joined(out.as_str(), " }")
        },
        Transform::ArrayJoin { array_name, separator } => {
            let v0 = debug_string(array_name.as_str());
            let mut out = joined("ArrayJoin { array_name: ", v0.as_str());
            let v1 = debug_string(separator.as_str());
            out = joined3(out.as_str(), ", separator: ", v1.as_str());
            joined(out.as_str(), " }")
        },
        Transform::ForOfLoop { iterator, iterable, body_transforms } => {
            let v0 = debug_string(iterator.as_str());
            let mut out = joined("ForOfLoop { iterator: ", v0.as_str());
            let v1 = debug_string(iterable.as_str());
            out = joined3(out.as_str(), ", iterable: ", v1.as_str());
            let v2 = debug_transform_list(body_transforms);
            out = joined3(out.as_str(), ", body_transforms: ", v2.as_str());
            joined(out.as_str(), " }")
        },
        Transform::RawJs { code, reason } => {
            let v0 = debug_string(code.as_str());
            let mut out = joined("RawJs { code: ", v0.as_str());
            let v1 = debug_string(reason.as_str());
            out = joined3(out.as_str(), ", reason: ", v1.as_str());
            joined(out.as_str(), " }")
        },
    }
}

} // verus!
