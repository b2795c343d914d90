//! The Minimact transformation of React components: which functions are
//! components and hooks, what each hook call records, the props, local
//! variables and helpers of a component, the templates of its rendered
//! tree, and the C# class generated for it.

use vstd::prelude::*;
use crate::js::{
    JsLit, JsBinaryOp, JsUnaryOp, JsMemberProp, JsMember, JsArg, JsCall, JsCond, JsExpr, JsPat, JsObjectPatProp,
    JsPropName, JsVarDeclarator, JsArrow, JsArrowBody, JsxElement, JsxAttrOrSpread, JsxAttr, JsxAttrName,
    JsxAttrValue, JsxChild, TsKeyword, TsLitKind, TsType, TsTypeElement, JsParam, JsFnDecl, JsVarDecl,
    JsImportDecl,
};
use crate::component::{
    Component, Prop, UseStateInfo, UseEffectInfo, UseRefInfo, UseMarkdownInfo, CustomHookInstance, LocalVariable,
    HelperFunction, FunctionParam, Template, LoopTemplate, StructuralTemplate, ExpressionTemplate, EventHandler,
};
use crate::strings::{owned, joined, joined3, starts_with, str_eq};
use crate::text::{
    replaced_text, replace_text, is_uppercase, char_is_uppercase, char_string, join_seq, join_strs, ends_with,
    split_seq, split_str, lemma_split_pieces,
};
use crate::codegen::{decimal, decimal_string};
use crate::transform::strings_view;
use crate::analyzer::lemma_strings_view_push;

verus! {

// ===================== paths of elements =====================

/// The lowercase hexadecimal digit for `d`.
pub open spec fn hex_digit(d: int) -> char {
    seq!['0', '1', '2', '3', '4', '5', '6', '7', '8', '9', 'a', 'b', 'c', 'd', 'e', 'f'][d]
}

/// A number in lowercase hexadecimal, without a prefix.
pub open spec fn hex(n: nat) -> Seq<char>
    decreases n,
{
    if n < 16 {
        seq![hex_digit(n as int)]
    } else {
        hex(n / 16) + seq![hex_digit((n % 16) as int)]
    }
}

fn hex_char(d: u32) -> (r: char)
    requires
        d < 16,
    ensures
        r == hex_digit(d as int),
{
    if d == 0 {
        '0'
    } else if d == 1 {
        '1'
    } else if d == 2 {
        '2'
    } else if d == 3 {
        '3'
    } else if d == 4 {
        '4'
    } else if d == 5 {
        '5'
    } else if d == 6 {
        '6'
    } else if d == 7 {
        '7'
    } else if d == 8 {
        '8'
    } else if d == 9 {
        '9'
    } else if d == 10 {
        'a'
    } else if d == 11 {
        'b'
    } else if d == 12 {
        'c'
    } else if d == 13 {
        'd'
    } else if d == 14 {
        'e'
    } else {
        'f'
    }
}

/// A number in lowercase hexadecimal.
pub fn hex_string(n: u32) -> (r: String)
    ensures
        r@ == hex(n as nat),
    decreases n,
{
    let last = char_string(hex_char(n % 16));
    if n < 16 {
        last
    } else {
        let front = hex_string(n / 16);
        joined(front.as_str(), last.as_str())
    }
}

/// Hands out the keys of JSX elements: 0, 1, 2, .. in hexadecimal.
pub struct HexPathGenerator {
    counter: u32,
}

impl HexPathGenerator {
    /// How many keys have been handed out.
    pub closed spec fn issued(&self) -> nat {
        self.counter as nat
    }

    /// A generator that has handed out no key.
    pub fn new() -> (r: Self)
        ensures
            r.issued() == 0,
    {
        HexPathGenerator { counter: 0 }
    }

    /// The next key: the number of keys handed out so far, in hexadecimal.
    pub fn next(&mut self) -> (r: String)
        requires
            old(self).issued() < u32::MAX,
        ensures
            r@ == hex(old(self).issued()),
            final(self).issued() == old(self).issued() + 1,
    {
        let path = hex_string(self.counter);
        self.counter = self.counter + 1;
        path
    }
}

/// Hexadecimal numbers of different values are different.
pub proof fn law_hex_paths_distinct(a: nat, b: nat)
    requires
        a != b,
    ensures
        hex(a) != hex(b),
    decreases a + b,
{
    if a < 16 && b < 16 {
        assert(hex(a)[0] != hex(b)[0]);
    } else if a < 16 {
        lemma_hex_long(b);
    } else if b < 16 {
        lemma_hex_long(a);
    } else if a % 16 != b % 16 {
        assert(hex(a).last() == hex_digit((a % 16) as int));
        assert(hex(b).last() == hex_digit((b % 16) as int));
    } else {
        law_hex_paths_distinct(a / 16, b / 16);
        if hex(a) == hex(b) {
            assert(hex(a).drop_last() =~= hex(a / 16));
            assert(hex(b).drop_last() =~= hex(b / 16));
        }
    }
}

/// A number from 16 on takes more than one hexadecimal digit.
proof fn lemma_hex_long(n: nat)
    requires
        n >= 16,
    ensures
        hex(n).len() > 1,
    decreases n,
{
    assert(hex(n) == hex(n / 16) + seq![hex_digit((n % 16) as int)]);
    if n / 16 >= 16 {
        lemma_hex_long(n / 16);
    } else {
        assert(hex(n / 16).len() == 1);
    }
}

// ===================== components and hooks =====================

/// Whether a function's name makes it a component: it starts with an
/// upper-case letter.
pub open spec fn component_name(name: Seq<char>) -> bool {
    name.len() > 0 && char_is_uppercase(name[0])
}

/// Whether a name is that of a custom hook: `use` followed by an upper-case
/// letter.
pub open spec fn custom_hook_name(name: Seq<char>) -> bool {
    "use"@.is_prefix_of(name) && name.len() > 3 && char_is_uppercase(name[3])
}

/// Whether a name is that of a custom hook.
pub fn is_custom_hook_name(name: &str) -> (r: bool)
    ensures
        r == custom_hook_name(name@),
{
    starts_with(name, "use") && name.unicode_len() > 3 && is_uppercase(name.get_char(3))
}

/// Whether a function's name makes it a component.
pub fn is_component_name(name: &str) -> (r: bool)
    ensures
        r == component_name(name@),
{
    name.unicode_len() > 0 && is_uppercase(name.get_char(0))
}

/// The C# class for a hook: `useCounter` becomes `CounterHook`.
pub open spec fn hook_class_name(hook: Seq<char>) -> Seq<char> {
    if "use"@.is_prefix_of(hook) {
        hook.subrange(3, hook.len() as int) + "Hook"@
    } else {
        hook + "Hook"@
    }
}

/// The C# class for a hook.
pub fn hook_name_to_class_name(hook_name: &str) -> (r: String)
    ensures
        r@ == hook_class_name(hook_name@),
{
    if starts_with(hook_name, "use") {
        proof {
            reveal_strlit("use");
        }
        joined(hook_name.substring_char(3, hook_name.unicode_len()), "Hook")
    } else {
        joined(hook_name, "Hook")
    }
}

// ===================== C# values =====================

/// A string escaped for a C# string literal: backslashes, double quotes,
/// line feeds, carriage returns and tabs.
pub open spec fn csharp_escaped(s: Seq<char>) -> Seq<char> {
    replaced_text(
        replaced_text(
            replaced_text(replaced_text(replaced_text(s, "\\"@, "\\\\"@), "\""@, "\\\""@), "\n"@, "\\n"@),
            "\r"@,
            "\\r"@,
        ),
        "\t"@,
        "\\t"@,
    )
}

/// A string escaped for a C# string literal.
pub fn escape_csharp_string(s: &str) -> (r: String)
    ensures
        r@ == csharp_escaped(s@),
{
    let a = replace_text(s, "\\", "\\\\");
    let b = replace_text(a.as_str(), "\"", "\\\"");
    let c = replace_text(b.as_str(), "\n", "\\n");
    let d = replace_text(c.as_str(), "\r", "\\r");
    replace_text(d.as_str(), "\t", "\\t")
}

/// The default value of a C# type: a new list, `0`, `false`, the empty
/// string, or `null`.
pub open spec fn default_value_of(t: Seq<char>) -> Seq<char> {
    if "List<"@.is_prefix_of(t) {
        "new "@ + t + "()"@
    } else if t == "int"@ {
        "0"@
    } else if t == "bool"@ {
        "false"@
    } else if t == "string"@ {
        "\"\""@
    } else {
        "null"@
    }
}

/// The default value of a C# type.
pub fn get_default_value(csharp_type: &str) -> (r: String)
    ensures
        r@ == default_value_of(csharp_type@),
{
    if starts_with(csharp_type, "List<") {
        return joined3("new ", csharp_type, "()");
    }
    if str_eq(csharp_type, "int") {
        owned("0")
    } else if str_eq(csharp_type, "bool") {
        owned("false")
    } else if str_eq(csharp_type, "string") {
        owned("\"\"")
    } else {
        owned("null")
    }
}

/// The C# type of a JavaScript value: strings, numbers and booleans by their
/// literal, arrays as lists, objects as dictionaries, anything else
/// `dynamic`.
pub open spec fn csharp_type_of(e: JsExpr) -> Seq<char> {
    match e {
        JsExpr::Lit(JsLit::Str(_)) => "string"@,
        JsExpr::Lit(JsLit::Num(_)) => "int"@,
        JsExpr::Lit(JsLit::Bool(_)) => "bool"@,
        JsExpr::Array(_) => "List<dynamic>"@,
        JsExpr::Object(_) => "Dictionary<string, dynamic>"@,
        _ => "dynamic"@,
    }
}

/// The C# type of a JavaScript value.
pub fn infer_csharp_type(value: &JsExpr) -> (r: String)
    ensures
        r@ == csharp_type_of(*value),
{
    match value {
        JsExpr::Lit(JsLit::Str(_)) => owned("string"),
        JsExpr::Lit(JsLit::Num(_)) => owned("int"),
        JsExpr::Lit(JsLit::Bool(_)) => owned("bool"),
        JsExpr::Array(_) => owned("List<dynamic>"),
        JsExpr::Object(_) => owned("Dictionary<string, dynamic>"),
        _ => owned("dynamic"),
    }
}

/// The C# for a JavaScript value: a string literal quoted, a number as
/// written, a boolean, `null`, a name as it is, an empty list or dictionary
/// for an array or object literal; anything else `null`.
pub open spec fn csharp_text(e: JsExpr) -> Seq<char> {
    match e {
        JsExpr::Lit(JsLit::Str(v)) => "\""@ + v@ + "\""@,
        JsExpr::Lit(JsLit::Num(t)) => t@,
        JsExpr::Lit(JsLit::Bool(b)) => if b {
            "true"@
        } else {
            "false"@
        },
        JsExpr::Ident(s) => s@,
        JsExpr::Array(_) => "new List<dynamic>()"@,
        JsExpr::Object(_) => "new Dictionary<string, dynamic>()"@,
        _ => "null"@,
    }
}

/// The C# for a JavaScript value.
pub fn expr_to_csharp(expr: &JsExpr) -> (r: String)
    ensures
        r@ == csharp_text(*expr),
{
    match expr {
        JsExpr::Lit(JsLit::Str(v)) => joined3("\"", v.as_str(), "\""),
        JsExpr::Lit(JsLit::Num(t)) => owned(t.as_str()),
        JsExpr::Lit(JsLit::Bool(b)) => if *b {
            owned("true")
        } else {
            owned("false")
        },
        JsExpr::Ident(s) => owned(s.as_str()),
        JsExpr::Array(_) => owned("new List<dynamic>()"),
        JsExpr::Object(_) => owned("new Dictionary<string, dynamic>()"),
        _ => owned("null"),
    }
}

/// The C# for an optional JavaScript value; none is `null`.
pub fn generate_csharp_expression(expr: Option<&JsExpr>) -> (r: String)
    ensures
        r@ == match expr {
            Some(e) => csharp_text(*e),
            None => "null"@,
        },
{
    match expr {
        Some(e) => expr_to_csharp(e),
        None => owned("null"),
    }
}

/// The C# type for a TypeScript type.
pub open spec fn ts_csharp(t: TsType) -> Seq<char>
    decreases t,
{
    match t {
        TsType::Keyword(k) => match k {
            TsKeyword::String => "string"@,
            TsKeyword::Number => "int"@,
            TsKeyword::Boolean => "bool"@,
            TsKeyword::Void => "void"@,
            TsKeyword::Null | TsKeyword::Undefined => "object"@,
            _ => "dynamic"@,
        },
        TsType::Array(elem) => "List<"@ + ts_csharp(*elem) + ">"@,
        TsType::TypeRef { name, type_params } => match name {
            Some(n) => if n@ == "Array"@ {
                match type_params {
                    Some(ps) => if ps@.len() > 0 {
                        "List<"@ + ts_csharp(ps@[0]) + ">"@
                    } else {
                        "List<dynamic>"@
                    },
                    None => "List<dynamic>"@,
                }
            } else if n@ == "Record"@ || n@ == "object"@ {
                "Dictionary<string, dynamic>"@
            } else if n@ == "Function"@ {
                "Action"@
            } else {
                n@
            },
            None => "dynamic"@,
        },
        TsType::FnOrConstructor => "Action"@,
        TsType::Lit(k) => match k {
            TsLitKind::Str => "string"@,
            TsLitKind::Number => "int"@,
            TsLitKind::Bool => "bool"@,
            TsLitKind::Other => "dynamic"@,
        },
        _ => "dynamic"@,
    }
}

/// The C# type for a TypeScript type.
pub fn ts_type_to_csharp(ts_type: &TsType) -> (r: String)
    ensures
        r@ == ts_csharp(*ts_type),
    decreases ts_type,
{
    match ts_type {
        TsType::Keyword(k) => match k {
            TsKeyword::String => owned("string"),
            TsKeyword::Number => owned("int"),
            TsKeyword::Boolean => owned("bool"),
            TsKeyword::Void => owned("void"),
            TsKeyword::Null | TsKeyword::Undefined => owned("object"),
            _ => owned("dynamic"),
        },
        TsType::Array(elem) => {
            let e = ts_type_to_csharp(elem);
            joined3("List<", e.as_str(), ">")
        },
        TsType::TypeRef { name, type_params } => match name {
            Some(n) => if str_eq(n.as_str(), "Array") {
                match type_params {
                    Some(ps) => if ps.len() > 0 {
                        let e = ts_type_to_csharp(&ps[0]);
                        joined3("List<", e.as_str(), ">")
                    } else {
                        owned("List<dynamic>")
                    },
                    None => owned("List<dynamic>"),
                }
            } else if str_eq(n.as_str(), "Record") || str_eq(n.as_str(), "object") {
                owned("Dictionary<string, dynamic>")
            } else if str_eq(n.as_str(), "Function") {
                owned("Action")
            } else {
                owned(n.as_str())
            },
            None => owned("dynamic"),
        },
        TsType::FnOrConstructor => owned("Action"),
        TsType::Lit(k) => match k {
            TsLitKind::Str => owned("string"),
            TsLitKind::Number => owned("int"),
            TsLitKind::Bool => owned("bool"),
            TsLitKind::Other => owned("dynamic"),
        },
        _ => owned("dynamic"),
    }
}

// ===================== what a component collects =====================

/// The parts of a component that the collection steps fill.
pub enum Part {
    Props,
    UseState,
    UseClientState,
    UseEffect,
    UseRef,
    UseMarkdown,
    CustomHooks,
    LocalVariables,
    HelperFunctions,
    Templates,
    LoopTemplates,
    StructuralTemplates,
    ExpressionTemplates,
}

/// The two components agree on everything but the given part.
pub open spec fn same_except(a: Component, b: Component, p: Part) -> bool {
    &&& a.name == b.name
    &&& (p is Props || a.props == b.props)
    &&& (p is UseState || a.use_state == b.use_state)
    &&& (p is UseClientState || a.use_client_state == b.use_client_state)
    &&& a.use_protected_state == b.use_protected_state
    &&& a.use_state_x == b.use_state_x
    &&& (p is UseEffect || a.use_effect == b.use_effect)
    &&& (p is UseRef || a.use_ref == b.use_ref)
    &&& (p is UseMarkdown || a.use_markdown == b.use_markdown)
    &&& a.use_razor_markdown == b.use_razor_markdown
    &&& a.use_template == b.use_template
    &&& a.use_validation == b.use_validation
    &&& a.use_modal == b.use_modal
    &&& a.use_toggle == b.use_toggle
    &&& a.use_dropdown == b.use_dropdown
    &&& a.use_pub == b.use_pub
    &&& a.use_sub == b.use_sub
    &&& a.use_micro_task == b.use_micro_task
    &&& a.use_macro_task == b.use_macro_task
    &&& a.use_signalr == b.use_signalr
    &&& a.use_server_task == b.use_server_task
    &&& a.paginated_tasks == b.paginated_tasks
    &&& a.use_mvc_state == b.use_mvc_state
    &&& a.use_mvc_view_model == b.use_mvc_view_model
    &&& a.use_predict_hint == b.use_predict_hint
    &&& (p is CustomHooks || a.custom_hooks == b.custom_hooks)
    &&& a.imported_hook_metadata == b.imported_hook_metadata
    &&& a.event_handlers == b.event_handlers
    &&& a.client_handlers == b.client_handlers
    &&& a.client_effects == b.client_effects
    &&& (p is LocalVariables || a.local_variables == b.local_variables)
    &&& (p is HelperFunctions || a.helper_functions == b.helper_functions)
    &&& a.render_body == b.render_body
    &&& a.plugin_usages == b.plugin_usages
    &&& a.state_types == b.state_types
    &&& a.dependencies == b.dependencies
    &&& a.external_imports == b.external_imports
    &&& a.client_computed_vars == b.client_computed_vars
    &&& (p is Templates || a.templates == b.templates)
    &&& (p is LoopTemplates || a.loop_templates == b.loop_templates)
    &&& (p is StructuralTemplates || a.structural_templates == b.structural_templates)
    &&& (p is ExpressionTemplates || a.expression_templates == b.expression_templates)
}

/// The view of an optional string.
pub open spec fn opt_str(o: Option<String>) -> Option<Seq<char>> {
    match o {
        Some(s) => Some(s@),
        None => None,
    }
}

/// The name of the `i`-th element of an array pattern when it is a plain
/// name, else the empty text.
pub open spec fn elem_name(elems: Seq<Option<JsPat>>, i: int) -> Seq<char> {
    if 0 <= i < elems.len() {
        match elems[i] {
            Some(JsPat::Ident(id)) => id@,
            _ => Seq::empty(),
        }
    } else {
        Seq::empty()
    }
}

/// The C# for a hook's first argument, `null` without one.
pub open spec fn first_arg_csharp(args: Seq<JsArg>) -> Seq<char> {
    if args.len() > 0 {
        csharp_text(args[0].expr)
    } else {
        "null"@
    }
}

/// The names an effect depends on: the plain names in an array literal.
pub open spec fn dependency_names(e: JsExpr) -> Seq<Seq<char>> {
    match e {
        JsExpr::Array(elems) => dep_names(elems@),
        _ => Seq::empty(),
    }
}

/// The plain names among array elements, holes and other values left out.
pub open spec fn dep_names(elems: Seq<Option<JsArg>>) -> Seq<Seq<char>>
    decreases elems.len(),
{
    if elems.len() == 0 {
        Seq::empty()
    } else {
        let rest = dep_names(elems.drop_last());
        match elems.last() {
            Some(a) => match a.expr {
                JsExpr::Ident(id) => rest.push(id@),
                _ => rest,
            },
            None => rest,
        }
    }
}

/// `b` is `a` with one more state hook, in the client list or the other:
/// for an array pattern `[value, setValue]`, the two names (empty where
/// not plain names), the first argument in C#, and the type `dynamic`.
pub open spec fn state_recorded(a: Component, b: Component, call: JsCall, binding: JsPat, client: bool) -> bool {
    match binding {
        JsPat::Array(elems) => {
            let before = if client {
                a.use_client_state@
            } else {
                a.use_state@
            };
            let after = if client {
                b.use_client_state@
            } else {
                b.use_state@
            };
            &&& same_except(
                a,
                b,
                if client {
                    Part::UseClientState
                } else {
                    Part::UseState
                },
            )
            &&& after.len() == before.len() + 1
            &&& after.drop_last() == before
            &&& after.last().var_name@ == elem_name(elems@, 0)
            &&& opt_str(after.last().setter_name) == Some(elem_name(elems@, 1))
            &&& after.last().initial_value@ == first_arg_csharp(call.args@)
            &&& after.last().state_type@ == "dynamic"@
            &&& after.last().is_client_state == client
        },
        _ => b == a,
    }
}

/// `b` is `a` with one more effect, depending on the names in the second
/// argument.
pub open spec fn effect_recorded(a: Component, b: Component, call: JsCall) -> bool {
    &&& same_except(a, b, Part::UseEffect)
    &&& b.use_effect@.len() == a.use_effect@.len() + 1
    &&& b.use_effect@.drop_last() == a.use_effect@
    &&& strings_view(b.use_effect@.last().dependencies@) == if call.args@.len() > 1 {
        dependency_names(call.args@[1].expr)
    } else {
        Seq::empty()
    }
    &&& !b.use_effect@.last().is_client_side
}

/// `b` is `a` with one more ref for a plain-name binding, with the first
/// argument in C#; for another binding `b` is `a`.
pub open spec fn ref_recorded(a: Component, b: Component, call: JsCall, binding: JsPat) -> bool {
    match binding {
        JsPat::Ident(name) => {
            &&& same_except(a, b, Part::UseRef)
            &&& b.use_ref@.len() == a.use_ref@.len() + 1
            &&& b.use_ref@.drop_last() == a.use_ref@
            &&& b.use_ref@.last().name@ == name@
            &&& b.use_ref@.last().initial_value@ == first_arg_csharp(call.args@)
        },
        _ => b == a,
    }
}

/// `b` is `a` with one more markdown hook for an array pattern: its two
/// names and the first argument in C#; for another binding `b` is `a`.
pub open spec fn markdown_recorded(a: Component, b: Component, call: JsCall, binding: JsPat) -> bool {
    match binding {
        JsPat::Array(elems) => {
            &&& same_except(a, b, Part::UseMarkdown)
            &&& b.use_markdown@.len() == a.use_markdown@.len() + 1
            &&& b.use_markdown@.drop_last() == a.use_markdown@
            &&& b.use_markdown@.last().name@ == elem_name(elems@, 0)
            &&& b.use_markdown@.last().setter@ == elem_name(elems@, 1)
            &&& b.use_markdown@.last().initial_value@ == first_arg_csharp(call.args@)
        },
        _ => b == a,
    }
}

/// `b` is `a` with one more custom hook instance for a plain-name binding,
/// with the hook's C# class and no return values yet.
pub open spec fn custom_hook_recorded(a: Component, b: Component, binding: JsPat, hook: Seq<char>) -> bool {
    match binding {
        JsPat::Ident(name) => {
            &&& same_except(a, b, Part::CustomHooks)
            &&& b.custom_hooks@.len() == a.custom_hooks@.len() + 1
            &&& b.custom_hooks@.drop_last() == a.custom_hooks@
            &&& b.custom_hooks@.last().hook_name@ == hook
            &&& b.custom_hooks@.last().instance_name@ == name@
            &&& b.custom_hooks@.last().class_name@ == hook_class_name(hook)
            &&& b.custom_hooks@.last().return_values@.len() == 0
        },
        _ => b == a,
    }
}

fn elem_name_string(elems: &Vec<Option<JsPat>>, i: usize) -> (r: String)
    ensures
        r@ == elem_name(elems@, i as int),
{
    if i < elems.len() {
        match &elems[i] {
            Some(JsPat::Ident(id)) => owned(id.as_str()),
            _ => String::new(),
        }
    } else {
        String::new()
    }
}

fn first_arg_string(args: &Vec<JsArg>) -> (r: String)
    ensures
        r@ == first_arg_csharp(args@),
{
    if args.len() > 0 {
        expr_to_csharp(&args[0].expr)
    } else {
        owned("null")
    }
}

/// The plain names in an array literal.
pub fn extract_dependency_array(expr: &JsExpr) -> (r: Vec<String>)
    ensures
        strings_view(r@) == dependency_names(*expr),
{
    let mut deps: Vec<String> = Vec::new();
    if let JsExpr::Array(elems) = expr {
        let mut i: usize = 0;
        while i < elems.len()
            invariant
                i <= elems@.len(),
                strings_view(deps@) == dep_names(elems@.subrange(0, i as int)),
            decreases elems@.len() - i,
        {
            proof {
                assert(elems@.subrange(0, i + 1).drop_last() =~= elems@.subrange(0, i as int));
            }
            if let Some(a) = &elems[i] {
                if let JsExpr::Ident(id) = &a.expr {
                    let n = owned(id.as_str());
                    proof {
                        lemma_strings_view_push(deps@, n);
                    }
                    deps.push(n);
                }
            }
            i = i + 1;
        }
        assert(elems@.subrange(0, i as int) =~= elems@);
    } else {
        assert(strings_view(deps@) =~= Seq::<Seq<char>>::empty());
    }
    deps
}

/// Record a state hook `const [value, setValue] = useState(initial)`, on the
/// client or not.
fn extract_state(call: &JsCall, binding: &JsPat, component: &mut Component, client: bool)
    ensures
        state_recorded(*old(component), *final(component), *call, *binding, client),
{
    if let JsPat::Array(elems) = binding {
        let info = UseStateInfo {
            var_name: elem_name_string(elems, 0),
            setter_name: Some(elem_name_string(elems, 1)),
            initial_value: first_arg_string(&call.args),
            state_type: owned("dynamic"),
            is_client_state: client,
        };
        if client {
            component.use_client_state.push(info);
            assert(component.use_client_state@.drop_last() =~= old(component).use_client_state@);
        } else {
            component.use_state.push(info);
            assert(component.use_state@.drop_last() =~= old(component).use_state@);
        }
    }
}

/// The name of the `i`-th element of an array pattern, when it is a plain
/// name.
pub open spec fn elem_ident(elems: Seq<Option<JsPat>>, i: int) -> Option<Seq<char>> {
    if 0 <= i < elems.len() {
        match elems[i] {
            Some(JsPat::Ident(id)) => Some(id@),
            _ => None,
        }
    } else {
        None
    }
}

/// `b` is `a` with one more state hook of the given kind when the array
/// pattern's first element is a plain name: the setter if a plain name, the
/// first argument in C# (`null` without one) and its C# type (`dynamic`
/// without one); client state for `useClientState`. Otherwise `b` is `a`.
pub open spec fn typed_state_recorded(a: Component, b: Component, call: JsCall, binding: JsPat, hook_type: Seq<char>) -> bool {
    let client = hook_type == "useClientState"@;
    match binding {
        JsPat::Array(elems) => match elem_ident(elems@, 0) {
            Some(name) => {
                let before = if client {
                    a.use_client_state@
                } else {
                    a.use_state@
                };
                let after = if client {
                    b.use_client_state@
                } else {
                    b.use_state@
                };
                &&& same_except(
                    a,
                    b,
                    if client {
                        Part::UseClientState
                    } else {
                        Part::UseState
                    },
                )
                &&& after.len() == before.len() + 1
                &&& after.drop_last() == before
                &&& after.last().var_name@ == name
                &&& opt_str(after.last().setter_name) == elem_ident(elems@, 1)
                &&& after.last().initial_value@ == first_arg_csharp(call.args@)
                &&& after.last().state_type@ == (if call.args@.len() > 0 {
                    csharp_type_of(call.args@[0].expr)
                } else {
                    "dynamic"@
                })
                &&& after.last().is_client_state == client
            },
            None => b == a,
        },
        _ => b == a,
    }
}

fn elem_ident_string(elems: &Vec<Option<JsPat>>, i: usize) -> (r: Option<String>)
    ensures
        opt_str(r) == elem_ident(elems@, i as int),
{
    if i < elems.len() {
        match &elems[i] {
            Some(JsPat::Ident(id)) => Some(owned(id.as_str())),
            _ => None,
        }
    } else {
        None
    }
}

/// Record a `useState` or `useClientState` call with the C# type of its
/// initial value.
pub fn extract_use_state(call: &JsCall, var_name: &JsPat, component: &mut Component, hook_type: &str)
    ensures
        typed_state_recorded(*old(component), *final(component), *call, *var_name, hook_type@),
{
    if let JsPat::Array(elems) = var_name {
        let state_var = elem_ident_string(elems, 0);
        let setter_var = elem_ident_string(elems, 1);
        if let Some(name) = state_var {
            let initial_value = if call.args.len() > 0 {
                generate_csharp_expression(Some(&call.args[0].expr))
            } else {
                owned("null")
            };
            let state_type = if call.args.len() > 0 {
                infer_csharp_type(&call.args[0].expr)
            } else {
                owned("dynamic")
            };
            let client = str_eq(hook_type, "useClientState");
            let info = UseStateInfo {
                var_name: name,
                setter_name: setter_var,
                initial_value,
                state_type,
                is_client_state: client,
            };
            if client {
                component.use_client_state.push(info);
                assert(component.use_client_state@.drop_last() =~= old(component).use_client_state@);
            } else {
                component.use_state.push(info);
                assert(component.use_state@.drop_last() =~= old(component).use_state@);
            }
        }
    }
}

/// Record a `useEffect` call with the names it depends on.
pub fn extract_use_effect(call: &JsCall, component: &mut Component)
    ensures
        effect_recorded(*old(component), *final(component), *call),
{
    let dependencies = if call.args.len() > 1 {
        extract_dependency_array(&call.args[1].expr)
    } else {
        let d: Vec<String> = Vec::new();
        assert(strings_view(d@) =~= Seq::<Seq<char>>::empty());
        d
    };
    component.use_effect.push(UseEffectInfo { dependencies, is_client_side: false });
    assert(component.use_effect@.drop_last() =~= old(component).use_effect@);
}

/// Record a `useRef` call bound to a name.
pub fn extract_use_ref(call: &JsCall, binding: &JsPat, component: &mut Component)
    ensures
        ref_recorded(*old(component), *final(component), *call, *binding),
{
    if let JsPat::Ident(name) = binding {
        let initial_value = first_arg_string(&call.args);
        component.use_ref.push(UseRefInfo { name: owned(name.as_str()), initial_value });
        assert(component.use_ref@.drop_last() =~= old(component).use_ref@);
    }
}

/// Record a `useMarkdown` call.
pub fn extract_use_markdown(call: &JsCall, binding: &JsPat, component: &mut Component)
    ensures
        markdown_recorded(*old(component), *final(component), *call, *binding),
{
    if let JsPat::Array(elems) = binding {
        let info = UseMarkdownInfo {
            name: elem_name_string(elems, 0),
            setter: elem_name_string(elems, 1),
            initial_value: first_arg_string(&call.args),
        };
        component.use_markdown.push(info);
        assert(component.use_markdown@.drop_last() =~= old(component).use_markdown@);
    }
}

/// Record a use of a custom hook bound to a name.
pub fn extract_custom_hook(call: &JsCall, binding: &JsPat, hook_name: &str, component: &mut Component)
    ensures
        custom_hook_recorded(*old(component), *final(component), *binding, hook_name@),
{
    if let JsPat::Ident(name) = binding {
        let class_name = hook_name_to_class_name(hook_name);
        component.custom_hooks.push(
            CustomHookInstance {
                hook_name: owned(hook_name),
                instance_name: owned(name.as_str()),
                class_name,
                return_values: Vec::new(),
            },
        );
        assert(component.custom_hooks@.drop_last() =~= old(component).custom_hooks@);
    }
}

// ===================== hooks in a component body =====================

/// Where the walk over a component stands, as Babel's `path.parent` would
/// tell.
#[derive(Debug)]
pub enum ParentContext {
    Program,
    VarDeclarator(String),
    ExportNamed(Option<String>),
    CallExpression,
    MemberExpression,
    BlockStatement,
    ReturnStatement,
    FunctionDeclaration(String),
    ArrowFunction,
}

/// The name an expression calls, with the call, when it calls a plain name.
pub open spec fn named_call(e: JsExpr) -> Option<(Seq<char>, JsCall)> {
    match e {
        JsExpr::Call(call) => match call.callee {
            Some(c) => match *c {
                JsExpr::Ident(name) => Some((name@, call)),
                _ => None,
            },
            None => None,
        },
        _ => None,
    }
}

/// The hook a declarator's value calls: the called name and the call.
pub open spec fn declarator_hook_call(var: JsVarDeclarator) -> Option<(Seq<char>, JsCall)> {
    match var.init {
        Some(e) => named_call(*e),
        None => None,
    }
}

/// What a declarator that calls a hook records in the component: states,
/// client states, effects, refs and markdown hooks; other hooks record
/// nothing.
pub open spec fn hook_recorded(a: Component, b: Component, var: JsVarDeclarator) -> bool {
    match declarator_hook_call(var) {
        Some((name, call)) => if name == "useState"@ {
            state_recorded(a, b, call, var.name, false)
        } else if name == "useClientState"@ {
            state_recorded(a, b, call, var.name, true)
        } else if name == "useEffect"@ {
            effect_recorded(a, b, call)
        } else if name == "useRef"@ {
            ref_recorded(a, b, call, var.name)
        } else if name == "useMarkdown"@ {
            markdown_recorded(a, b, call, var.name)
        } else {
            b == a
        },
        None => b == a,
    }
}

/// Record the hook a declarator of a component body calls. The walk's
/// parent stack is as before.
pub fn visit_hook_var_declarator(
    component: &mut Component,
    parent_stack: &mut Vec<ParentContext>,
    var: &JsVarDeclarator,
)
    ensures
        hook_recorded(*old(component), *final(component), *var),
        final(parent_stack)@ == old(parent_stack)@,
{
    let init = match &var.init {
        Some(e) => e,
        None => return,
    };
    let call = match &**init {
        JsExpr::Call(call) => call,
        _ => return,
    };
    let callee = match &call.callee {
        Some(c) => c,
        None => return,
    };
    let callee_name = match &**callee {
        JsExpr::Ident(name) => name,
        _ => return,
    };
    let pushed = match &var.name {
        JsPat::Ident(id) => {
            parent_stack.push(ParentContext::VarDeclarator(owned(id.as_str())));
            true
        },
        _ => false,
    };
    let n = callee_name.as_str();
    if str_eq(n, "useState") {
        extract_state(call, &var.name, component, false);
    } else if str_eq(n, "useClientState") {
        extract_state(call, &var.name, component, true);
    } else if str_eq(n, "useEffect") {
        extract_use_effect(call, component);
    } else if str_eq(n, "useRef") {
        extract_use_ref(call, &var.name, component);
    } else if str_eq(n, "useMarkdown") {
        extract_use_markdown(call, &var.name, component);
    }
    if pushed {
        parent_stack.pop();
    }
}

/// Record an effect that an expression statement `useEffect(..)` declares.
pub fn visit_hook_expr_stmt(component: &mut Component, expr: &JsExpr)
    ensures
        match named_call(*expr) {
            Some((name, call)) => if name == "useEffect"@ {
                effect_recorded(*old(component), *final(component), call)
            } else {
                *final(component) == *old(component)
            },
            None => *final(component) == *old(component),
        },
{
    if let JsExpr::Call(call) = expr {
        if let Some(c) = &call.callee {
            if let JsExpr::Ident(name) = &**c {
                if str_eq(name.as_str(), "useEffect") {
                    extract_use_effect(call, component);
                }
            }
        }
    }
}

// ===================== local variables and helpers =====================

/// Whether a declarator's value calls a custom hook.
pub open spec fn calls_custom_hook(init: Option<Box<JsExpr>>) -> bool {
    match init {
        Some(e) => match *e {
            JsExpr::Call(call) => match call.callee {
                Some(c) => match *c {
                    JsExpr::Ident(n) => custom_hook_name(n@),
                    _ => false,
                },
                None => false,
            },
            _ => false,
        },
        None => false,
    }
}

/// The local variables a declaration adds to a component: each declarator
/// bound to a plain name and not calling a custom hook, typed `dynamic`,
/// with its value in C# (`null` without one).
pub open spec fn locals_of(ds: Seq<JsVarDeclarator>, is_const: bool) -> Seq<(Seq<char>, Seq<char>, Seq<char>, bool)>
    decreases ds.len(),
{
    if ds.len() == 0 {
        Seq::empty()
    } else {
        let rest = locals_of(ds.drop_last(), is_const);
        let d = ds.last();
        if calls_custom_hook(d.init) {
            rest
        } else {
            match d.name {
                JsPat::Ident(n) => rest.push(
                    (
                        n@,
                        "dynamic"@,
                        match d.init {
                            Some(e) => csharp_text(*e),
                            None => "null"@,
                        },
                        is_const,
                    ),
                ),
                _ => rest,
            }
        }
    }
}

/// The view of a local variable.
pub open spec fn local_view(l: LocalVariable) -> (Seq<char>, Seq<char>, Seq<char>, bool) {
    (l.name@, l.var_type@, l.initial_value@, l.is_const)
}

/// The views of local variables.
pub open spec fn locals_view(s: Seq<LocalVariable>) -> Seq<(Seq<char>, Seq<char>, Seq<char>, bool)> {
    s.map_values(|l: LocalVariable| local_view(l))
}

/// Whether the value calls a custom hook.
fn init_calls_custom_hook(init: &Option<Box<JsExpr>>) -> (r: bool)
    ensures
        r == calls_custom_hook(*init),
{
    match init {
        Some(e) => match &**e {
            JsExpr::Call(call) => match &call.callee {
                Some(c) => match &**c {
                    JsExpr::Ident(n) => is_custom_hook_name(n.as_str()),
                    _ => false,
                },
                None => false,
            },
            _ => false,
        },
        None => false,
    }
}

/// Record the local variables a declaration in a component body declares.
pub fn visit_local_var_decl(component: &mut Component, var_decl: &JsVarDecl)
    ensures
        same_except(*old(component), *final(component), Part::LocalVariables),
        locals_view(final(component).local_variables@) == locals_view(old(component).local_variables@)
            + locals_of(var_decl.decls@, var_decl.is_const),
{
    let ghost start = component.local_variables@;
    let decls = &var_decl.decls;
    let mut i: usize = 0;
    while i < decls.len()
        invariant
            i <= decls@.len(),
            same_except(*old(component), *component, Part::LocalVariables),
            locals_view(component.local_variables@) == locals_view(start) + locals_of(
                decls@.subrange(0, i as int),
                var_decl.is_const,
            ),
            start == old(component).local_variables@,
        decreases decls@.len() - i,
    {
        proof {
            assert(decls@.subrange(0, i + 1).drop_last() =~= decls@.subrange(0, i as int));
        }
        let d = &decls[i];
        let ghost mid = component.local_variables@;
        if !init_calls_custom_hook(&d.init) {
            if let JsPat::Ident(n) = &d.name {
                let initial_value = match &d.init {
                    Some(e) => expr_to_csharp(e),
                    None => owned("null"),
                };
                let l = LocalVariable {
                    name: owned(n.as_str()),
                    var_type: owned("dynamic"),
                    initial_value,
                    is_const: var_decl.is_const,
                };
                component.local_variables.push(l);
                assert(locals_view(component.local_variables@) =~= locals_view(mid).push(local_view(l)));
            }
        }
        assert(locals_view(component.local_variables@) =~= locals_view(start) + locals_of(
            decls@.subrange(0, i + 1),
            var_decl.is_const,
        ));
        i = i + 1;
    }
    assert(decls@.subrange(0, i as int) =~= decls@);
}

/// The parameters of a helper: plain names as they are, others `param`, all
/// typed `dynamic`.
pub open spec fn helper_params(ps: Seq<JsParam>) -> Seq<(Seq<char>, Seq<char>)> {
    ps.map_values(
        |p: JsParam|
            (
                match p.pat {
                    JsPat::Ident(n) => n@,
                    _ => "param"@,
                },
                "dynamic"@,
            ),
    )
}

/// The views of helper parameters.
pub open spec fn fn_params_view(s: Seq<FunctionParam>) -> Seq<(Seq<char>, Seq<char>)> {
    s.map_values(|p: FunctionParam| (p.name@, p.param_type@))
}

/// Record a function declared in a component body as a helper returning
/// `void`, unless it is a custom hook.
pub fn visit_helper_fn_decl(component: &mut Component, fn_decl: &JsFnDecl)
    ensures
        custom_hook_name(fn_decl.name@) ==> *final(component) == *old(component),
        !custom_hook_name(fn_decl.name@) ==> {
            &&& same_except(*old(component), *final(component), Part::HelperFunctions)
            &&& final(component).helper_functions@.len() == old(component).helper_functions@.len() + 1
            &&& final(component).helper_functions@.drop_last() == old(component).helper_functions@
            &&& final(component).helper_functions@.last().name@ == fn_decl.name@
            &&& fn_params_view(final(component).helper_functions@.last().params@) == helper_params(fn_decl.params@)
            &&& final(component).helper_functions@.last().return_type@ == "void"@
            &&& final(component).helper_functions@.last().is_async == fn_decl.is_async
        },
{
    if is_custom_hook_name(fn_decl.name.as_str()) {
        return;
    }
    let mut params: Vec<FunctionParam> = Vec::new();
    let mut i: usize = 0;
    while i < fn_decl.params.len()
        invariant
            i <= fn_decl.params@.len(),
            fn_params_view(params@) == helper_params(fn_decl.params@).subrange(0, i as int),
        decreases fn_decl.params@.len() - i,
    {
        let name = match &fn_decl.params[i].pat {
            JsPat::Ident(n) => owned(n.as_str()),
            _ => owned("param"),
        };
        let p = FunctionParam { name, param_type: owned("dynamic") };
        assert(helper_params(fn_decl.params@)[i as int] == (p.name@, p.param_type@));
        let ghost before = params@;
        params.push(p);
        assert(fn_params_view(params@) =~= fn_params_view(before).push((p.name@, p.param_type@)));
        i = i + 1;
        assert(fn_params_view(params@) =~= helper_params(fn_decl.params@).subrange(0, i as int));
    }
    assert(helper_params(fn_decl.params@).subrange(0, i as int) =~= helper_params(fn_decl.params@));
    component.helper_functions.push(
        HelperFunction { name: owned(fn_decl.name.as_str()), params, return_type: owned("void"), is_async: fn_decl.is_async },
    );
    assert(component.helper_functions@.drop_last() =~= old(component).helper_functions@);
}

// ===================== props =====================

/// The C# types that a type literal declares for its plainly named members,
/// `dynamic` where a member has no type.
pub open spec fn member_types(ms: Seq<TsTypeElement>) -> Seq<(Seq<char>, Seq<char>)>
    decreases ms.len(),
{
    if ms.len() == 0 {
        Seq::empty()
    } else {
        let rest = member_types(ms.drop_last());
        match ms.last() {
            TsTypeElement::PropertySignature { key: Some(k), type_ann } => rest.push(
                (
                    k@,
                    match type_ann {
                        Some(t) => ts_csharp(t),
                        None => "dynamic"@,
                    },
                ),
            ),
            _ => rest,
        }
    }
}

/// The C# types that a props annotation declares: those of a type literal.
pub open spec fn declared_types(t: Option<TsType>) -> Seq<(Seq<char>, Seq<char>)> {
    match t {
        Some(TsType::TypeLit(ms)) => member_types(ms@),
        _ => Seq::empty(),
    }
}

/// The type declared last for a name, `dynamic` when none is.
pub open spec fn type_for(entries: Seq<(Seq<char>, Seq<char>)>, name: Seq<char>) -> Seq<char>
    decreases entries.len(),
{
    if entries.len() == 0 {
        "dynamic"@
    } else if entries.last().0 == name {
        entries.last().1
    } else {
        type_for(entries.drop_last(), name)
    }
}

/// The props an object pattern destructures, with the declared types.
pub open spec fn pattern_props(props: Seq<JsObjectPatProp>, types: Seq<(Seq<char>, Seq<char>)>) -> Seq<
    (Seq<char>, Seq<char>),
>
    decreases props.len(),
{
    if props.len() == 0 {
        Seq::empty()
    } else {
        let rest = pattern_props(props.drop_last(), types);
        match props.last() {
            JsObjectPatProp::KeyValue(JsPropName::Ident(k), _) => rest.push((k@, type_for(types, k@))),
            JsObjectPatProp::Assign(k) => rest.push((k@, type_for(types, k@))),
            _ => rest,
        }
    }
}

/// The props of a function component: those its first parameter
/// destructures, typed by its annotation, or that parameter itself,
/// `dynamic`.
pub open spec fn params_props(params: Seq<JsParam>) -> Seq<(Seq<char>, Seq<char>)> {
    if params.len() == 0 {
        Seq::empty()
    } else {
        match params[0].pat {
            JsPat::Object(props) => pattern_props(props@, declared_types(params[0].type_ann)),
            JsPat::Ident(n) => seq![(n@, "dynamic"@)],
            _ => Seq::empty(),
        }
    }
}

/// The props of an arrow function component, all `dynamic`.
pub open spec fn arrow_props(params: Seq<JsPat>) -> Seq<(Seq<char>, Seq<char>)> {
    if params.len() == 0 {
        Seq::empty()
    } else {
        match params[0] {
            JsPat::Object(props) => pattern_props(props@, Seq::empty()),
            JsPat::Ident(n) => seq![(n@, "dynamic"@)],
            _ => Seq::empty(),
        }
    }
}

/// The views of props.
pub open spec fn props_view(s: Seq<Prop>) -> Seq<(Seq<char>, Seq<char>)> {
    s.map_values(|p: Prop| (p.name@, p.prop_type@))
}

/// The declared types of a props annotation.
fn declared_type_list(t: &Option<TsType>) -> (r: Vec<(String, String)>)
    ensures
        r@.map_values(|p: (String, String)| (p.0@, p.1@)) == declared_types(*t),
{
    let mut out: Vec<(String, String)> = Vec::new();
    if let Some(TsType::TypeLit(ms)) = t {
        let mut i: usize = 0;
        while i < ms.len()
            invariant
                i <= ms@.len(),
                out@.map_values(|p: (String, String)| (p.0@, p.1@)) == member_types(ms@.subrange(0, i as int)),
            decreases ms@.len() - i,
        {
            proof {
                assert(ms@.subrange(0, i + 1).drop_last() =~= ms@.subrange(0, i as int));
            }
            let ghost mid = out@;
            if let TsTypeElement::PropertySignature { key: Some(k), type_ann } = &ms[i] {
                let ty = match type_ann {
                    Some(t) => ts_type_to_csharp(t),
                    None => owned("dynamic"),
                };
                let entry = (owned(k.as_str()), ty);
                out.push(entry);
                assert(out@.map_values(|p: (String, String)| (p.0@, p.1@)) =~= mid.map_values(
                    |p: (String, String)| (p.0@, p.1@),
                ).push((entry.0@, entry.1@)));
            }
            i = i + 1;
        }
        assert(ms@.subrange(0, i as int) =~= ms@);
    } else {
        assert(out@.map_values(|p: (String, String)| (p.0@, p.1@)) =~= Seq::<(Seq<char>, Seq<char>)>::empty());
    }
    out
}

/// The type declared last for a name.
fn type_for_name(entries: &Vec<(String, String)>, name: &str) -> (r: String)
    ensures
        r@ == type_for(entries@.map_values(|p: (String, String)| (p.0@, p.1@)), name@),
{
    let ghost views = entries@.map_values(|p: (String, String)| (p.0@, p.1@));
    let mut i: usize = entries.len();
    assert(views.subrange(0, i as int) =~= views);
    while i > 0
        invariant
            i <= entries@.len(),
            views == entries@.map_values(|p: (String, String)| (p.0@, p.1@)),
            type_for(views, name@) == type_for(views.subrange(0, i as int), name@),
        decreases i,
    {
        assert(views.subrange(0, i as int).drop_last() =~= views.subrange(0, i - 1));
        if str_eq(entries[i - 1].0.as_str(), name) {
            return owned(entries[i - 1].1.as_str());
        }
        i = i - 1;
    }
    owned("dynamic")
}

/// Append the props an object pattern destructures.
fn push_pattern_props(
    props: &Vec<JsObjectPatProp>,
    types: &Vec<(String, String)>,
    component: &mut Component,
)
    ensures
        same_except(*old(component), *final(component), Part::Props),
        props_view(final(component).props@) == props_view(old(component).props@) + pattern_props(
            props@,
            types@.map_values(|p: (String, String)| (p.0@, p.1@)),
        ),
{
    let ghost tv = types@.map_values(|p: (String, String)| (p.0@, p.1@));
    let ghost start = component.props@;
    let mut i: usize = 0;
    while i < props.len()
        invariant
            i <= props@.len(),
            tv == types@.map_values(|p: (String, String)| (p.0@, p.1@)),
            start == old(component).props@,
            same_except(*old(component), *component, Part::Props),
            props_view(component.props@) == props_view(start) + pattern_props(props@.subrange(0, i as int), tv),
        decreases props@.len() - i,
    {
        proof {
            assert(props@.subrange(0, i + 1).drop_last() =~= props@.subrange(0, i as int));
        }
        let ghost mid = component.props@;
        match &props[i] {
            JsObjectPatProp::KeyValue(JsPropName::Ident(k), _) => {
                let p = Prop { name: owned(k.as_str()), prop_type: type_for_name(types, k.as_str()) };
                component.props.push(p);
                assert(props_view(component.props@) =~= props_view(mid).push((p.name@, p.prop_type@)));
            },
            JsObjectPatProp::Assign(k) => {
                let p = Prop { name: owned(k.as_str()), prop_type: type_for_name(types, k.as_str()) };
                component.props.push(p);
                assert(props_view(component.props@) =~= props_view(mid).push((p.name@, p.prop_type@)));
            },
            _ => {},
        }
        assert(props_view(component.props@) =~= props_view(start) + pattern_props(props@.subrange(0, i + 1), tv));
        i = i + 1;
    }
    assert(props@.subrange(0, i as int) =~= props@);
}

/// A component function found in a module, other than a component.
#[derive(Debug)]
pub struct TopLevelFunction {
    pub name: String,
    pub node: JsFnDecl,
}

/// The Minimact transformation of one file: the walk's parent stack, the
/// components found, the top-level helper functions, the names imported
/// from outside packages, and the input file's path.
pub struct MinimactTransformer {
    pub parent_stack: Vec<ParentContext>,
    pub components: Vec<Component>,
    pub top_level_functions: Vec<TopLevelFunction>,
    pub external_imports: Vec<String>,
    pub input_file_path: String,
}

/// Whether an import is the project's own: from Minimact, a relative or
/// absolute path, or a stylesheet.
pub open spec fn internal_import(src: Seq<char>) -> bool {
    "minimact"@.is_prefix_of(src) || "."@.is_prefix_of(src) || "/"@.is_prefix_of(src) || ".css"@.is_suffix_of(src)
}

/// A set of names kept as a list: `x` added unless already there.
pub open spec fn with_inserted(s: Seq<Seq<char>>, x: Seq<char>) -> Seq<Seq<char>> {
    if s.contains(x) {
        s
    } else {
        s.push(x)
    }
}

/// The names added one after another.
pub open spec fn with_all_inserted(s: Seq<Seq<char>>, xs: Seq<Seq<char>>) -> Seq<Seq<char>>
    decreases xs.len(),
{
    if xs.len() == 0 {
        s
    } else {
        with_inserted(with_all_inserted(s, xs.drop_last()), xs.last())
    }
}

/// No name occurs twice.
pub open spec fn no_duplicates(s: Seq<Seq<char>>) -> bool {
    forall|i: int, j: int| 0 <= i < j < s.len() ==> s[i] != s[j]
}

/// The names an import adds to the external imports: none for the project's
/// own imports, else its local names.
pub open spec fn imports_after(s: Seq<Seq<char>>, import: JsImportDecl) -> Seq<Seq<char>> {
    if internal_import(import.src@) {
        s
    } else {
        with_all_inserted(s, strings_view(import.locals@))
    }
}

/// Adding names to a set of names keeps it free of duplicates, and the
/// result holds exactly the old names and the added ones.
pub proof fn law_imports_form_a_set(s: Seq<Seq<char>>, xs: Seq<Seq<char>>)
    requires
        no_duplicates(s),
    ensures
        no_duplicates(with_all_inserted(s, xs)),
        forall|x: Seq<char>| #[trigger] with_all_inserted(s, xs).contains(x) <==> (s.contains(x) || xs.contains(x)),
    decreases xs.len(),
{
    if xs.len() > 0 {
        law_imports_form_a_set(s, xs.drop_last());
        let mid = with_all_inserted(s, xs.drop_last());
        let x = xs.last();
        if !mid.contains(x) {
            assert forall|i: int, j: int| 0 <= i < j < mid.push(x).len() implies mid.push(x)[i] != mid.push(x)[j] by {
                if j == mid.len() {
                    assert(mid.push(x)[i] == mid[i]);
                }
            }
        }
        assert forall|y: Seq<char>| #[trigger] with_all_inserted(s, xs).contains(y) <==> (s.contains(y) || xs.contains(
            y,
        )) by {
            if xs.contains(y) && !xs.drop_last().contains(y) {
                let k = choose|k: int| 0 <= k < xs.len() && xs[k] == y;
                if k < xs.len() - 1 {
                    assert(xs.drop_last()[k] == y);
                }
            }
            if xs.drop_last().contains(y) {
                let k = choose|k: int| 0 <= k < xs.drop_last().len() && xs.drop_last()[k] == y;
                assert(xs[k] == y);
            }
            if mid.push(x).contains(y) && !mid.contains(y) {
                let k = choose|k: int| 0 <= k < mid.push(x).len() && mid.push(x)[k] == y;
                assert(k == mid.len());
            }
            if mid.contains(y) {
                let k = choose|k: int| 0 <= k < mid.len() && mid[k] == y;
                assert(mid.push(x)[k] == y);
            }
            if y == x {
                assert(mid.push(x)[mid.len() as int] == y);
            }
        }
    }
}

/// Add a name unless already there.
fn insert_name(set: &mut Vec<String>, x: &str)
    ensures
        strings_view(final(set)@) == with_inserted(strings_view(old(set)@), x@),
{
    let mut i: usize = 0;
    while i < set.len()
        invariant
            i <= set@.len(),
            set@ == old(set)@,
            forall|j: int| 0 <= j < i ==> set@[j]@ != x@,
        decreases set@.len() - i,
    {
        if str_eq(set[i].as_str(), x) {
            assert(strings_view(set@)[i as int] == x@);
            return;
        }
        i = i + 1;
    }
    assert(!strings_view(set@).contains(x@)) by {
        if strings_view(set@).contains(x@) {
            let j = choose|j: int| 0 <= j < strings_view(set@).len() && strings_view(set@)[j] == x@;
            assert(set@[j]@ == x@);
        }
    }
    let n = owned(x);
    proof {
        lemma_strings_view_push(set@, n);
    }
    set.push(n);
}

/// Record the names an import brings in from an outside package.
pub fn visit_import_decl(external_imports: &mut Vec<String>, import: &JsImportDecl)
    ensures
        strings_view(final(external_imports)@) == imports_after(strings_view(old(external_imports)@), *import),
{
    let src = import.src.as_str();
    if starts_with(src, "minimact") || starts_with(src, ".") || starts_with(src, "/") || ends_with(src, ".css") {
        return;
    }
    let ghost start = strings_view(external_imports@);
    let mut i: usize = 0;
    while i < import.locals.len()
        invariant
            i <= import.locals@.len(),
            start == strings_view(old(external_imports)@),
            strings_view(external_imports@) == with_all_inserted(start, strings_view(import.locals@).subrange(0, i as int)),
        decreases import.locals@.len() - i,
    {
        proof {
            assert(strings_view(import.locals@).subrange(0, i + 1).drop_last() =~= strings_view(import.locals@).subrange(
                0,
                i as int,
            ));
        }
        insert_name(external_imports, import.locals[i].as_str());
        i = i + 1;
    }
    assert(strings_view(import.locals@).subrange(0, i as int) =~= strings_view(import.locals@));
}

impl MinimactTransformer {
    /// A transformation of the given file, at the program's top and with
    /// nothing found yet.
    pub fn new(input_file_path: String) -> (r: Self)
        ensures
            r.parent_stack@.len() == 1,
            r.parent_stack@[0] is Program,
            r.components@.len() == 0,
            r.top_level_functions@.len() == 0,
            r.external_imports@.len() == 0,
            r.input_file_path@ == input_file_path@,
    {
        MinimactTransformer {
            parent_stack: vec![ParentContext::Program],
            components: Vec::new(),
            top_level_functions: Vec::new(),
            external_imports: Vec::new(),
            input_file_path,
        }
    }

    /// Whether a function's name makes it a component.
    pub fn is_component_name(name: &str) -> (r: bool)
        ensures
            r == component_name(name@),
    {
        is_component_name(name)
    }

    /// Whether a function's name makes it a custom hook.
    pub fn is_custom_hook(name: &str) -> (r: bool)
        ensures
            r == custom_hook_name(name@),
    {
        is_custom_hook_name(name)
    }

    /// The innermost context of the walk.
    pub fn get_parent(&self) -> (r: Option<&ParentContext>)
        ensures
            self.parent_stack@.len() == 0 ==> r is None,
            self.parent_stack@.len() > 0 ==> r == Some(&self.parent_stack@.last()),
    {
        if self.parent_stack.len() == 0 {
            None
        } else {
            Some(&self.parent_stack[self.parent_stack.len() - 1])
        }
    }

    /// Enter a context.
    pub fn push_parent(&mut self, ctx: ParentContext)
        ensures
            final(self).parent_stack@ == old(self).parent_stack@.push(ctx),
            final(self).components == old(self).components,
            final(self).external_imports == old(self).external_imports,
    {
        self.parent_stack.push(ctx);
    }

    /// Leave the innermost context.
    pub fn pop_parent(&mut self)
        ensures
            old(self).parent_stack@.len() > 0 ==> final(self).parent_stack@ == old(self).parent_stack@.drop_last(),
            old(self).parent_stack@.len() == 0 ==> final(self).parent_stack@.len() == 0,
            final(self).components == old(self).components,
            final(self).external_imports == old(self).external_imports,
    {
        self.parent_stack.pop();
    }

    /// Record the names an import brings in from an outside package.
    pub fn process_import(&mut self, import: &JsImportDecl)
        ensures
            strings_view(final(self).external_imports@) == imports_after(
                strings_view(old(self).external_imports@),
                *import,
            ),
            final(self).components == old(self).components,
            final(self).parent_stack == old(self).parent_stack,
    {
        visit_import_decl(&mut self.external_imports, import);
    }

    /// The C# type for a TypeScript type.
    pub fn ts_type_to_csharp(ts_type: &TsType) -> (r: String)
        ensures
            r@ == ts_csharp(*ts_type),
    {
        ts_type_to_csharp(ts_type)
    }

    /// Record the props of a function component from its parameters.
    pub fn extract_props(&mut self, params: &Vec<JsParam>, component: &mut Component)
        ensures
            same_except(*old(component), *final(component), Part::Props),
            props_view(final(component).props@) == props_view(old(component).props@) + params_props(params@),
    {
        if params.len() == 0 {
            assert(props_view(component.props@) + params_props(params@) =~= props_view(component.props@));
            return;
        }
        let types = declared_type_list(&params[0].type_ann);
        match &params[0].pat {
            JsPat::Object(props) => {
                push_pattern_props(props, &types, component);
            },
            JsPat::Ident(n) => {
                let p = Prop { name: owned(n.as_str()), prop_type: owned("dynamic") };
                component.props.push(p);
                assert(props_view(component.props@) =~= props_view(old(component).props@) + params_props(params@));
            },
            _ => {
                assert(props_view(component.props@) + params_props(params@) =~= props_view(component.props@));
            },
        }
    }

    /// Record the props of an arrow function component, all `dynamic`.
    pub fn extract_arrow_props(&mut self, params: &Vec<JsPat>, component: &mut Component)
        ensures
            same_except(*old(component), *final(component), Part::Props),
            props_view(final(component).props@) == props_view(old(component).props@) + arrow_props(params@),
    {
        if params.len() == 0 {
            assert(props_view(component.props@) + arrow_props(params@) =~= props_view(component.props@));
            return;
        }
        match &params[0] {
            JsPat::Object(props) => {
                let types: Vec<(String, String)> = Vec::new();
                assert(types@.map_values(|p: (String, String)| (p.0@, p.1@)) =~= Seq::<
                    (Seq<char>, Seq<char>),
                >::empty());
                push_pattern_props(props, &types, component);
            },
            JsPat::Ident(n) => {
                let p = Prop { name: owned(n.as_str()), prop_type: owned("dynamic") };
                component.props.push(p);
                assert(props_view(component.props@) =~= props_view(old(component).props@) + arrow_props(params@));
            },
            _ => {
                assert(props_view(component.props@) + arrow_props(params@) =~= props_view(component.props@));
            },
        }
    }
}

// ===================== bindings of expressions =====================

/// A binary operator as JavaScript writes it.
pub open spec fn js_bin_op(op: JsBinaryOp) -> Seq<char> {
    match op {
        JsBinaryOp::EqEq => "=="@,
        JsBinaryOp::NotEq => "!="@,
        JsBinaryOp::EqEqEq => "==="@,
        JsBinaryOp::NotEqEq => "!=="@,
        JsBinaryOp::Lt => "<"@,
        JsBinaryOp::LtEq => "<="@,
        JsBinaryOp::Gt => ">"@,
        JsBinaryOp::GtEq => ">="@,
        JsBinaryOp::LShift => "<<"@,
        JsBinaryOp::RShift => ">>"@,
        JsBinaryOp::ZeroFillRShift => ">>>"@,
        JsBinaryOp::Add => "+"@,
        JsBinaryOp::Sub => "-"@,
        JsBinaryOp::Mul => "*"@,
        JsBinaryOp::Div => "/"@,
        JsBinaryOp::Mod => "%"@,
        JsBinaryOp::BitOr => "|"@,
        JsBinaryOp::BitXor => "^"@,
        JsBinaryOp::BitAnd => "&"@,
        JsBinaryOp::LogicalOr => "||"@,
        JsBinaryOp::LogicalAnd => "&&"@,
        JsBinaryOp::In => "in"@,
        JsBinaryOp::InstanceOf => "instanceof"@,
        JsBinaryOp::Exp => "**"@,
        JsBinaryOp::NullishCoalescing => "??"@,
    }
}

/// A unary operator as JavaScript writes it.
pub open spec fn js_unary_op(op: JsUnaryOp) -> Seq<char> {
    match op {
        JsUnaryOp::Minus => "-"@,
        JsUnaryOp::Plus => "+"@,
        JsUnaryOp::Bang => "!"@,
        JsUnaryOp::Tilde => "~"@,
        JsUnaryOp::TypeOf => "typeof"@,
        JsUnaryOp::Void => "void"@,
        JsUnaryOp::Delete => "delete"@,
    }
}

fn js_bin_op_str(op: JsBinaryOp) -> (r: &'static str)
    ensures
        r@ == js_bin_op(op),
{
    match op {
        JsBinaryOp::EqEq => "==",
        JsBinaryOp::NotEq => "!=",
        JsBinaryOp::EqEqEq => "===",
        JsBinaryOp::NotEqEq => "!==",
        JsBinaryOp::Lt => "<",
        JsBinaryOp::LtEq => "<=",
        JsBinaryOp::Gt => ">",
        JsBinaryOp::GtEq => ">=",
        JsBinaryOp::LShift => "<<",
        JsBinaryOp::RShift => ">>",
        JsBinaryOp::ZeroFillRShift => ">>>",
        JsBinaryOp::Add => "+",
        JsBinaryOp::Sub => "-",
        JsBinaryOp::Mul => "*",
        JsBinaryOp::Div => "/",
        JsBinaryOp::Mod => "%",
        JsBinaryOp::BitOr => "|",
        JsBinaryOp::BitXor => "^",
        JsBinaryOp::BitAnd => "&",
        JsBinaryOp::LogicalOr => "||",
        JsBinaryOp::LogicalAnd => "&&",
        JsBinaryOp::In => "in",
        JsBinaryOp::InstanceOf => "instanceof",
        JsBinaryOp::Exp => "**",
        JsBinaryOp::NullishCoalescing => "??",
    }
}

fn js_unary_op_str(op: JsUnaryOp) -> (r: &'static str)
    ensures
        r@ == js_unary_op(op),
{
    match op {
        JsUnaryOp::Minus => "-",
        JsUnaryOp::Plus => "+",
        JsUnaryOp::Bang => "!",
        JsUnaryOp::Tilde => "~",
        JsUnaryOp::TypeOf => "typeof",
        JsUnaryOp::Void => "void",
        JsUnaryOp::Delete => "delete",
    }
}

/// The name a member property adds to a binding: its name, when it has one.
pub open spec fn prop_name_part(p: JsMemberProp) -> Seq<Seq<char>> {
    match p {
        JsMemberProp::Ident(s) => seq![s@],
        _ => Seq::empty(),
    }
}

/// The names along a chain of member accesses, root first; computed and
/// private properties add none.
pub open spec fn binding_parts(e: JsExpr) -> Seq<Seq<char>>
    decreases e,
{
    match e {
        JsExpr::Ident(s) => seq![s@],
        JsExpr::Member(m) => binding_parts(*m.obj) + prop_name_part(m.prop),
        _ => Seq::empty(),
    }
}

/// The dotted binding of a member expression, such as `user.name`.
pub open spec fn member_binding(m: JsMember) -> Seq<char> {
    join_seq(binding_parts(*m.obj) + prop_name_part(m.prop), "."@)
}

/// The binding an expression reads directly: a name or a member path.
pub open spec fn binding_of(e: JsExpr) -> Option<Seq<char>> {
    match e {
        JsExpr::Ident(s) => Some(s@),
        JsExpr::Member(m) => Some(member_binding(m)),
        _ => None,
    }
}

/// Every binding an expression reads, left to right: names and member paths
/// inside operators, conditionals and callees.
pub open spec fn all_bindings(e: JsExpr) -> Seq<Seq<char>>
    decreases e,
{
    match e {
        JsExpr::Ident(s) => seq![s@],
        JsExpr::Member(m) => seq![member_binding(m)],
        JsExpr::Bin { left, right, .. } => all_bindings(*left) + all_bindings(*right),
        JsExpr::Unary { arg, .. } => all_bindings(*arg),
        JsExpr::Cond(c) => all_bindings(*c.test) + all_bindings(*c.cons) + all_bindings(*c.alt),
        JsExpr::Call(call) => match call.callee {
            Some(c) => all_bindings(*c),
            None => Seq::empty(),
        },
        _ => Seq::empty(),
    }
}

/// The template text of an expression: bindings as `${{binding}}`, binary
/// operations with their operator, anything else `?`.
pub open spec fn template_string(e: JsExpr) -> Seq<char>
    decreases e,
{
    match e {
        JsExpr::Ident(s) => "${{"@ + s@ + "}}"@,
        JsExpr::Member(m) => "${{"@ + member_binding(m) + "}}"@,
        JsExpr::Bin { op, left, right } => template_string(*left) + " "@ + js_bin_op(op) + " "@ + template_string(
            *right,
        ),
        _ => "?"@,
    }
}

/// The text of an expression: bindings, unary and binary operations as
/// JavaScript writes them, anything else `?`.
pub open spec fn js_expr_string(e: JsExpr) -> Seq<char>
    decreases e,
{
    match e {
        JsExpr::Ident(s) => s@,
        JsExpr::Member(m) => member_binding(m),
        JsExpr::Unary { op, arg } => js_unary_op(op) + js_expr_string(*arg),
        JsExpr::Bin { op, left, right } => js_expr_string(*left) + " "@ + js_bin_op(op) + " "@ + js_expr_string(
            *right,
        ),
        _ => "?"@,
    }
}

fn push_binding_parts(e: &JsExpr, out: &mut Vec<String>)
    ensures
        strings_view(final(out)@) == strings_view(old(out)@) + binding_parts(*e),
    decreases e,
{
    let ghost before = out@;
    match e {
        JsExpr::Ident(s) => {
            let n = owned(s.as_str());
            proof {
                lemma_strings_view_push(before, n);
            }
            out.push(n);
        },
        JsExpr::Member(m) => {
            push_binding_parts(&m.obj, out);
            let ghost mid = out@;
            if let JsMemberProp::Ident(p) = &m.prop {
                let n = owned(p.as_str());
                proof {
                    lemma_strings_view_push(mid, n);
                }
                out.push(n);
            }
        },
        _ => {},
    }
    assert(strings_view(out@) =~= strings_view(before) + binding_parts(*e));
}

/// The dotted binding of a member expression.
pub fn build_member_path(member: &JsMember) -> (r: String)
    ensures
        r@ == member_binding(*member),
{
    let mut parts: Vec<String> = Vec::new();
    push_binding_parts(&member.obj, &mut parts);
    let ghost mid = parts@;
    if let JsMemberProp::Ident(p) = &member.prop {
        let n = owned(p.as_str());
        proof {
            lemma_strings_view_push(mid, n);
        }
        parts.push(n);
    }
    assert(strings_view(parts@) =~= binding_parts(*member.obj) + prop_name_part(member.prop));
    join_strs(&parts, ".")
}

/// The binding an expression reads directly, if any.
pub fn extract_binding_from_expr(expr: &JsExpr) -> (r: Option<String>)
    ensures
        opt_str(r) == binding_of(*expr),
{
    match expr {
        JsExpr::Ident(s) => Some(owned(s.as_str())),
        JsExpr::Member(m) => Some(build_member_path(m)),
        _ => None,
    }
}

fn push_all_bindings(e: &JsExpr, out: &mut Vec<String>)
    ensures
        strings_view(final(out)@) == strings_view(old(out)@) + all_bindings(*e),
    decreases e,
{
    let ghost before = out@;
    match e {
        JsExpr::Ident(s) => {
            let n = owned(s.as_str());
            proof {
                lemma_strings_view_push(before, n);
            }
            out.push(n);
        },
        JsExpr::Member(m) => {
            let n = build_member_path(m);
            proof {
                lemma_strings_view_push(before, n);
            }
            out.push(n);
        },
        JsExpr::Bin { left, right, .. } => {
            push_all_bindings(left, out);
            push_all_bindings(right, out);
        },
        JsExpr::Unary { arg, .. } => {
            push_all_bindings(arg, out);
        },
        JsExpr::Cond(c) => {
            push_all_bindings(&c.test, out);
            push_all_bindings(&c.cons, out);
            push_all_bindings(&c.alt, out);
        },
        JsExpr::Call(call) => {
            if let Some(c) = &call.callee {
                push_all_bindings(c, out);
            }
        },
        _ => {},
    }
    assert(strings_view(out@) =~= strings_view(before) + all_bindings(*e));
}

/// Every binding an expression reads.
pub fn extract_bindings_from_expr(expr: &JsExpr) -> (r: Vec<String>)
    ensures
        strings_view(r@) == all_bindings(*expr),
{
    let mut out: Vec<String> = Vec::new();
    push_all_bindings(expr, &mut out);
    assert(strings_view(out@) =~= all_bindings(*expr));
    out
}

/// Every binding an expression reads.
pub fn extract_all_bindings(expr: &JsExpr) -> (r: Vec<String>)
    ensures
        strings_view(r@) == all_bindings(*expr),
{
    extract_bindings_from_expr(expr)
}

/// The template text of an expression.
pub fn generate_template_string(expr: &JsExpr) -> (r: String)
    ensures
        r@ == template_string(*expr),
    decreases expr,
{
    match expr {
        JsExpr::Ident(s) => joined3("${{", s.as_str(), "}}"),
        JsExpr::Member(m) => {
            let b = build_member_path(m);
            joined3("${{", b.as_str(), "}}")
        },
        JsExpr::Bin { op, left, right } => {
            let l = generate_template_string(left);
            let r = generate_template_string(right);
            let head = joined3(l.as_str(), " ", js_bin_op_str(*op));
            joined3(head.as_str(), " ", r.as_str())
        },
        _ => owned("?"),
    }
}

/// The text of an expression.
pub fn generate_expr_string(expr: &JsExpr) -> (r: String)
    ensures
        r@ == js_expr_string(*expr),
    decreases expr,
{
    match expr {
        JsExpr::Ident(s) => owned(s.as_str()),
        JsExpr::Member(m) => build_member_path(m),
        JsExpr::Unary { op, arg } => {
            let a = generate_expr_string(arg);
            joined(js_unary_op_str(*op), a.as_str())
        },
        JsExpr::Bin { op, left, right } => {
            let l = generate_expr_string(left);
            let r = generate_expr_string(right);
            let head = joined3(l.as_str(), " ", js_bin_op_str(*op));
            joined3(head.as_str(), " ", r.as_str())
        },
        _ => owned("?"),
    }
}

/// Whether an expression is a JSX element or fragment.
pub fn is_jsx_expr(expr: &JsExpr) -> (r: bool)
    ensures
        r == (expr is JsxElement || expr is JsxFragment),
{
    match expr {
        JsExpr::JsxElement(_) | JsExpr::JsxFragment(_) => true,
        _ => false,
    }
}

/// The key of the first `key={..}` attribute from the `i`-th on.
pub open spec fn key_in_attrs(attrs: Seq<JsxAttrOrSpread>, i: int) -> Option<Seq<char>>
    decreases attrs.len() - i,
{
    if 0 <= i < attrs.len() {
        match attrs[i] {
            JsxAttrOrSpread::Attr(a) => match a.name {
                JsxAttrName::Ident(n) => match a.value {
                    Some(JsxAttrValue::ExprContainer(Some(x))) => if n@ == "key"@ {
                        Some(js_expr_string(*x))
                    } else {
                        key_in_attrs(attrs, i + 1)
                    },
                    _ => key_in_attrs(attrs, i + 1),
                },
                _ => key_in_attrs(attrs, i + 1),
            },
            _ => key_in_attrs(attrs, i + 1),
        }
    } else {
        None
    }
}

/// The key expression of the JSX element an arrow function returns
/// directly.
pub open spec fn jsx_key(body: JsArrowBody) -> Option<Seq<char>> {
    match body {
        JsArrowBody::Expr(e) => match *e {
            JsExpr::JsxElement(jsx) => key_in_attrs(jsx.attrs@, 0),
            _ => None,
        },
        JsArrowBody::Block => None,
    }
}

/// The key expression of the JSX element an arrow function returns
/// directly, if it has a `key={..}` attribute.
pub fn extract_key_from_jsx(body: &JsArrowBody) -> (r: Option<String>)
    ensures
        opt_str(r) == jsx_key(*body),
{
    if let JsArrowBody::Expr(e) = body {
        if let JsExpr::JsxElement(jsx) = &**e {
            let attrs = &jsx.attrs;
            let mut i: usize = 0;
            while i < attrs.len()
                invariant
                    i <= attrs@.len(),
                    jsx_key(*body) == key_in_attrs(attrs@, i as int),
                decreases attrs@.len() - i,
            {
                if let JsxAttrOrSpread::Attr(a) = &attrs[i] {
                    if let JsxAttrName::Ident(n) = &a.name {
                        if let Some(JsxAttrValue::ExprContainer(Some(x))) = &a.value {
                            if str_eq(n.as_str(), "key") {
                                return Some(generate_expr_string(x));
                            }
                        }
                    }
                }
                i = i + 1;
            }
        }
    }
    None
}

/// Whether a method or property is one the runtime can apply to state.
pub open spec fn supported_transform(name: Seq<char>) -> bool {
    name == "toFixed"@ || name == "toPrecision"@ || name == "toExponential"@ || name == "toUpperCase"@ || name
        == "toLowerCase"@ || name == "trim"@ || name == "substring"@ || name == "substr"@ || name == "slice"@
        || name == "length"@ || name == "join"@
}

/// Whether a method or property is one the runtime can apply to state.
pub fn is_supported_transform(name: &str) -> (r: bool)
    ensures
        r == supported_transform(name@),
{
    str_eq(name, "toFixed") || str_eq(name, "toPrecision") || str_eq(name, "toExponential") || str_eq(
        name,
        "toUpperCase",
    ) || str_eq(name, "toLowerCase") || str_eq(name, "trim") || str_eq(name, "substring") || str_eq(name, "substr")
        || str_eq(name, "slice") || str_eq(name, "length") || str_eq(name, "join")
}

/// The value of a string, number or boolean literal.
pub open spec fn literal_string(e: JsExpr) -> Option<Seq<char>> {
    match e {
        JsExpr::Lit(JsLit::Str(v)) => Some(v@),
        JsExpr::Lit(JsLit::Num(t)) => Some(t@),
        JsExpr::Lit(JsLit::Bool(b)) => Some(
            if b {
                "true"@
            } else {
                "false"@
            },
        ),
        _ => None,
    }
}

/// The value of a string, number or boolean literal.
pub fn literal_to_string(expr: &JsExpr) -> (r: Option<String>)
    ensures
        opt_str(r) == literal_string(*expr),
{
    match expr {
        JsExpr::Lit(JsLit::Str(v)) => Some(owned(v.as_str())),
        JsExpr::Lit(JsLit::Num(t)) => Some(owned(t.as_str())),
        JsExpr::Lit(JsLit::Bool(b)) => Some(
            if *b {
                owned("true")
            } else {
                owned("false")
            },
        ),
        _ => None,
    }
}

// ===================== templates of the rendered tree =====================

/// The view of a template: its path, its text and its bindings.
pub open spec fn template_view(t: Template) -> (Seq<char>, Seq<char>, Seq<Seq<char>>) {
    (t.path@, t.template@, strings_view(t.bindings@))
}

/// The views of keyed templates.
pub open spec fn templates_view(s: Seq<(String, Template)>) -> Seq<(Seq<char>, (Seq<char>, Seq<char>, Seq<Seq<char>>))> {
    s.map_values(|p: (String, Template)| (p.0@, template_view(p.1)))
}

/// The position of the first entry with the key.
pub open spec fn key_index<V>(s: Seq<(Seq<char>, V)>, k: Seq<char>, i: int) -> Option<int>
    decreases s.len() - i,
{
    if 0 <= i < s.len() {
        if s[i].0 == k {
            Some(i)
        } else {
            key_index(s, k, i + 1)
        }
    } else {
        None
    }
}

/// A map kept as a list of entries with `k` set to `v`: an entry with the
/// key gets the new value in its place, else the entry is added at the end.
pub open spec fn map_put<V>(s: Seq<(Seq<char>, V)>, k: Seq<char>, v: V) -> Seq<(Seq<char>, V)> {
    match key_index(s, k, 0) {
        Some(i) => s.update(i, (k, v)),
        None => s.push((k, v)),
    }
}

/// Putting a key makes it present with the new value, leaves every other key
/// with its value, and keeps keys distinct.
pub proof fn law_map_put<V>(s: Seq<(Seq<char>, V)>, k: Seq<char>, v: V, j: int)
    requires
        0 <= j < map_put(s, k, v).len(),
    ensures
        key_index(map_put(s, k, v), k, 0) is Some,
        map_put(s, k, v)[key_index(map_put(s, k, v), k, 0)->0].1 == v,
        map_put(s, k, v)[j].0 != k ==> (j < s.len() && map_put(s, k, v)[j] == s[j]),
{
    lemma_key_index(s, k, 0);
    let r = map_put(s, k, v);
    match key_index(s, k, 0) {
        Some(i) => {
            lemma_key_index_same_prefix(s, r, k, 0, i);
        },
        None => {
            lemma_key_index_same_prefix(s, r, k, 0, s.len() as int);
        },
    }
}

/// What the first-key search finds.
proof fn lemma_key_index<V>(s: Seq<(Seq<char>, V)>, k: Seq<char>, i: int)
    requires
        0 <= i,
    ensures
        match key_index(s, k, i) {
            Some(x) => i <= x < s.len() && s[x].0 == k && forall|y: int| i <= y < x ==> s[y].0 != k,
            None => forall|y: int| i <= y < s.len() ==> s[y].0 != k,
        },
    decreases s.len() - i,
{
    if i < s.len() && s[i].0 != k {
        lemma_key_index(s, k, i + 1);
    }
}

/// Two lists that agree up to a position where the second has the key find
/// it there.
proof fn lemma_key_index_same_prefix<V>(s: Seq<(Seq<char>, V)>, r: Seq<(Seq<char>, V)>, k: Seq<char>, i: int, x: int)
    requires
        0 <= i <= x < r.len(),
        r[x].0 == k,
        x <= s.len(),
        forall|y: int| 0 <= y < x ==> r[y] == s[y] && s[y].0 != k,
    ensures
        key_index(r, k, i) == Some(x),
    decreases x - i,
{
    if i < x {
        lemma_key_index_same_prefix(s, r, k, i + 1, x);
    }
}

/// Set a keyed template.
fn put_template(templates: &mut Vec<(String, Template)>, key: String, t: Template)
    ensures
        templates_view(final(templates)@) == map_put(templates_view(old(templates)@), key@, template_view(t)),
{
    let ghost v = templates_view(templates@);
    let mut i: usize = 0;
    while i < templates.len()
        invariant
            i <= templates@.len(),
            templates@ == old(templates)@,
            v == templates_view(templates@),
            key_index(v, key@, 0) == key_index(v, key@, i as int),
        decreases templates@.len() - i,
    {
        if str_eq(templates[i].0.as_str(), key.as_str()) {
            let ghost kv = key@;
            let ghost tv = template_view(t);
            templates.set(i, (key, t));
            assert(templates_view(templates@) =~= v.update(i as int, (kv, tv)));
            return;
        }
        i = i + 1;
    }
    let ghost kv = key@;
    let ghost tv = template_view(t);
    templates.push((key, t));
    assert(templates_view(templates@) =~= v.push((kv, tv)));
}

/// The text of a path of child positions: the positions in decimal, joined
/// with dots.
pub open spec fn path_text(path: Seq<usize>) -> Seq<char> {
    join_seq(path.map_values(|i: usize| decimal(i as nat)), "."@)
}

/// The text of a path of child positions.
fn path_string(path: &Vec<usize>) -> (r: String)
    ensures
        r@ == path_text(path@),
{
    let mut parts: Vec<String> = Vec::new();
    let mut i: usize = 0;
    while i < path.len()
        invariant
            i <= path@.len(),
            strings_view(parts@) == path@.subrange(0, i as int).map_values(|i: usize| decimal(i as nat)),
        decreases path@.len() - i,
    {
        let d = decimal_string(path[i]);
        proof {
            lemma_strings_view_push(parts@, d);
        }
        parts.push(d);
        i = i + 1;
        assert(strings_view(parts@) =~= path@.subrange(0, i as int).map_values(|i: usize| decimal(i as nat)));
    }
    assert(path@.subrange(0, i as int) =~= path@);
    join_strs(&parts, ".")
}

/// The name of a JSX attribute, `ns:name` for a namespaced one.
pub open spec fn attr_name_text(n: JsxAttrName) -> Seq<char> {
    match n {
        JsxAttrName::Ident(s) => s@,
        JsxAttrName::Namespaced(ns, name) => ns@ + ":"@ + name@,
    }
}

/// The templates after one attribute of the element at `path`: an attribute
/// whose value is an expression reading bindings gets a template under
/// `path@name`.
pub open spec fn attr_step(
    ts: Seq<(Seq<char>, (Seq<char>, Seq<char>, Seq<Seq<char>>))>,
    path: Seq<usize>,
    attr: JsxAttrOrSpread,
) -> Seq<(Seq<char>, (Seq<char>, Seq<char>, Seq<Seq<char>>))> {
    match attr {
        JsxAttrOrSpread::Attr(a) => match a.value {
            Some(JsxAttrValue::ExprContainer(Some(x))) => if all_bindings(*x).len() > 0 {
                map_put(
                    ts,
                    path_text(path) + "@"@ + attr_name_text(a.name),
                    (path_text(path), template_string(*x), all_bindings(*x)),
                )
            } else {
                ts
            },
            _ => ts,
        },
        JsxAttrOrSpread::Spread => ts,
    }
}

/// The templates after the attributes, one after another.
pub open spec fn attrs_templates(
    ts: Seq<(Seq<char>, (Seq<char>, Seq<char>, Seq<Seq<char>>))>,
    path: Seq<usize>,
    attrs: Seq<JsxAttrOrSpread>,
) -> Seq<(Seq<char>, (Seq<char>, Seq<char>, Seq<Seq<char>>))>
    decreases attrs.len(),
{
    if attrs.len() == 0 {
        ts
    } else {
        attr_step(attrs_templates(ts, path, attrs.drop_last()), path, attrs.last())
    }
}

/// The templates after an element at `path`: its attributes, then its
/// children at `path` extended by their positions.
pub open spec fn element_templates(
    ts: Seq<(Seq<char>, (Seq<char>, Seq<char>, Seq<Seq<char>>))>,
    path: Seq<usize>,
    jsx: JsxElement,
) -> Seq<(Seq<char>, (Seq<char>, Seq<char>, Seq<Seq<char>>))>
    decreases jsx, 2int,
{
    children_templates(attrs_templates(ts, path, jsx.attrs@), path, jsx.children@)
}

/// The templates after the children, one after another, each at its
/// position.
pub open spec fn children_templates(
    ts: Seq<(Seq<char>, (Seq<char>, Seq<char>, Seq<Seq<char>>))>,
    path: Seq<usize>,
    cs: Seq<JsxChild>,
) -> Seq<(Seq<char>, (Seq<char>, Seq<char>, Seq<Seq<char>>))>
    decreases cs, 1int,
{
    if cs.len() == 0 {
        ts
    } else {
        child_step(children_templates(ts, path, cs.drop_last()), path.push((cs.len() - 1) as usize), cs.last())
    }
}

/// The templates after a child at `path`: an expression reading bindings
/// gets a template under the path; an element adds its own.
pub open spec fn child_step(
    ts: Seq<(Seq<char>, (Seq<char>, Seq<char>, Seq<Seq<char>>))>,
    path: Seq<usize>,
    child: JsxChild,
) -> Seq<(Seq<char>, (Seq<char>, Seq<char>, Seq<Seq<char>>))>
    decreases child, 0int,
{
    match child {
        JsxChild::ExprContainer(Some(x)) => if all_bindings(*x).len() > 0 {
            map_put(ts, path_text(path), (path_text(path), template_string(*x), all_bindings(*x)))
        } else {
            ts
        },
        JsxChild::Element(e) => element_templates(ts, path, *e),
        _ => ts,
    }
}

/// Record the text and attribute templates of a JSX element at the current
/// path, and those of its child elements. The path is as before afterwards.
pub fn visit_jsx_templates(component: &mut Component, current_path: &mut Vec<usize>, jsx: &JsxElement)
    ensures
        same_except(*old(component), *final(component), Part::Templates),
        templates_view(final(component).templates@) == element_templates(
            templates_view(old(component).templates@),
            old(current_path)@,
            *jsx,
        ),
        final(current_path)@ == old(current_path)@,
    decreases jsx, 2nat,
{
    let path = path_string(current_path);
    let ghost p0 = current_path@;
    let ghost t0 = templates_view(component.templates@);
    let attrs = &jsx.attrs;
    let mut i: usize = 0;
    while i < attrs.len()
        invariant
            i <= attrs@.len(),
            path@ == path_text(p0),
            same_except(*old(component), *component, Part::Templates),
            t0 == templates_view(old(component).templates@),
            templates_view(component.templates@) == attrs_templates(t0, p0, attrs@.subrange(0, i as int)),
        decreases attrs@.len() - i,
    {
        proof {
            assert(attrs@.subrange(0, i + 1).drop_last() =~= attrs@.subrange(0, i as int));
        }
        if let JsxAttrOrSpread::Attr(a) = &attrs[i] {
            if let Some(JsxAttrValue::ExprContainer(Some(x))) = &a.value {
                let bindings = extract_bindings_from_expr(x);
                if bindings.len() > 0 {
                    let attr_name = match &a.name {
                        JsxAttrName::Ident(n) => owned(n.as_str()),
                        JsxAttrName::Namespaced(ns, n) => joined3(ns.as_str(), ":", n.as_str()),
                    };
                    let key = joined3(path.as_str(), "@", attr_name.as_str());
                    let t = Template {
                        path: owned(path.as_str()),
                        template: generate_template_string(x),
                        bindings,
                    };
                    put_template(&mut component.templates, key, t);
                }
            }
        }
        i = i + 1;
    }
    assert(attrs@.subrange(0, i as int) =~= attrs@);
    let ghost t1 = templates_view(component.templates@);
    let children = &jsx.children;
    let mut j: usize = 0;
    while j < children.len()
        invariant
            j <= children@.len(),
            children@ == jsx.children@,
            current_path@ == p0,
            same_except(*old(component), *component, Part::Templates),
            t1 == attrs_templates(t0, p0, attrs@),
            templates_view(component.templates@) == children_templates(t1, p0, children@.subrange(0, j as int)),
        decreases children@.len() - j,
    {
        proof {
            assert(children@.subrange(0, j + 1).drop_last() =~= children@.subrange(0, j as int));
            assert(children_templates(t1, p0, children@.subrange(0, j + 1)) == child_step(
                children_templates(t1, p0, children@.subrange(0, j as int)),
                p0.push(j),
                children@[j as int],
            ));
        }
        current_path.push(j);
        match &children[j] {
            JsxChild::ExprContainer(Some(x)) => {
                let bindings = extract_bindings_from_expr(x);
                if bindings.len() > 0 {
                    let child_path = path_string(current_path);
                    let t = Template {
                        path: owned(child_path.as_str()),
                        template: generate_template_string(x),
                        bindings,
                    };
                    put_template(&mut component.templates, child_path, t);
                }
            },
            JsxChild::Element(child) => {
                visit_jsx_templates(component, current_path, child);
            },
            _ => {},
        }
        current_path.pop();
        assert(current_path@ =~= p0);
        j = j + 1;
    }
    assert(children@.subrange(0, j as int) =~= children@);
}

/// The loop template of a `.map` over a state binding with an arrow
/// function: the binding, the item variable (`item` when not a plain name),
/// the index variable if a plain name, and the key of the element returned
/// (empty without one).
pub open spec fn loop_template_of(call: JsCall) -> Option<(Seq<char>, Seq<char>, Option<Seq<char>>, Seq<char>)> {
    match call.callee {
        Some(c) => match *c {
            JsExpr::Member(m) => match m.prop {
                JsMemberProp::Ident(p) => if p@ == "map"@ {
                    match binding_of(*m.obj) {
                        Some(state_key) => if call.args@.len() > 0 {
                            match call.args@[0].expr {
                                JsExpr::Arrow(a) => Some(
                                    (
                                        state_key,
                                        match param_ident(a.params@, 0) {
                                            Some(n) => n,
                                            None => "item"@,
                                        },
                                        param_ident(a.params@, 1),
                                        match jsx_key(a.body) {
                                            Some(k) => k,
                                            None => Seq::empty(),
                                        },
                                    ),
                                ),
                                _ => None,
                            }
                        } else {
                            None
                        },
                        None => None,
                    }
                } else {
                    None
                },
                _ => None,
            },
            _ => None,
        },
        None => None,
    }
}

/// The name of the `i`-th parameter when it is a plain name.
pub open spec fn param_ident(ps: Seq<JsPat>, i: int) -> Option<Seq<char>> {
    if 0 <= i < ps.len() {
        match ps[i] {
            JsPat::Ident(n) => Some(n@),
            _ => None,
        }
    } else {
        None
    }
}

/// The view of a loop template.
pub open spec fn loop_view(t: LoopTemplate) -> (Seq<char>, Seq<char>, Option<Seq<char>>, Seq<char>) {
    (t.state_key@, t.item_var@, opt_str(t.index_var), t.key_expression@)
}

fn param_ident_string(ps: &Vec<JsPat>, i: usize) -> (r: Option<String>)
    ensures
        opt_str(r) == param_ident(ps@, i as int),
{
    if i < ps.len() {
        match &ps[i] {
            JsPat::Ident(n) => Some(owned(n.as_str())),
            _ => None,
        }
    } else {
        None
    }
}

/// Record the loop template of a `.map` call over state.
pub fn visit_loop_call_expr(component: &mut Component, call: &JsCall)
    ensures
        match loop_template_of(*call) {
            Some(v) => {
                &&& same_except(*old(component), *final(component), Part::LoopTemplates)
                &&& final(component).loop_templates@.len() == old(component).loop_templates@.len() + 1
                &&& final(component).loop_templates@.drop_last() == old(component).loop_templates@
                &&& loop_view(final(component).loop_templates@.last()) == v
            },
            None => *final(component) == *old(component),
        },
{
    let callee = match &call.callee {
        Some(c) => c,
        None => return,
    };
    let member = match &**callee {
        JsExpr::Member(m) => m,
        _ => return,
    };
    let prop = match &member.prop {
        JsMemberProp::Ident(p) => p,
        _ => return,
    };
    if !str_eq(prop.as_str(), "map") {
        return;
    }
    let state_key = match extract_binding_from_expr(&member.obj) {
        Some(k) => k,
        None => return,
    };
    if call.args.len() == 0 {
        return;
    }
    let arrow = match &call.args[0].expr {
        JsExpr::Arrow(a) => a,
        _ => return,
    };
    let item_var = match param_ident_string(&arrow.params, 0) {
        Some(n) => n,
        None => owned("item"),
    };
    let index_var = param_ident_string(&arrow.params, 1);
    let key_expression = match extract_key_from_jsx(&arrow.body) {
        Some(k) => k,
        None => String::new(),
    };
    component.loop_templates.push(LoopTemplate { state_key, item_var, index_var, key_expression });
    assert(component.loop_templates@.drop_last() =~= old(component).loop_templates@);
}

/// The binding a structural condition tests: its binding, else its text.
pub open spec fn condition_binding(e: JsExpr) -> Seq<char> {
    match binding_of(e) {
        Some(b) => b,
        None => js_expr_string(e),
    }
}

fn condition_binding_string(e: &JsExpr) -> (r: String)
    ensures
        r@ == condition_binding(*e),
{
    match extract_binding_from_expr(e) {
        Some(b) => b,
        None => generate_expr_string(e),
    }
}

/// `b` is `a` with one more structural template of the kind and binding.
pub open spec fn structural_added(a: Component, b: Component, kind: Seq<char>, binding: Seq<char>) -> bool {
    &&& same_except(a, b, Part::StructuralTemplates)
    &&& b.structural_templates@.len() == a.structural_templates@.len() + 1
    &&& b.structural_templates@.drop_last() == a.structural_templates@
    &&& b.structural_templates@.last().template_type@ == kind
    &&& b.structural_templates@.last().condition_binding@ == binding
}

/// Record a ternary that chooses JSX as a `conditional` structural template.
pub fn visit_structural_cond_expr(component: &mut Component, cond: &JsCond)
    ensures
        (*cond.cons is JsxElement || *cond.cons is JsxFragment || *cond.alt is JsxElement || *cond.alt is JsxFragment)
            ==> structural_added(*old(component), *final(component), "conditional"@, condition_binding(*cond.test)),
        !(*cond.cons is JsxElement || *cond.cons is JsxFragment || *cond.alt is JsxElement || *cond.alt is JsxFragment)
            ==> *final(component) == *old(component),
{
    if is_jsx_expr(&cond.cons) || is_jsx_expr(&cond.alt) {
        let condition_binding = condition_binding_string(&cond.test);
        component.structural_templates.push(
            StructuralTemplate { template_type: owned("conditional"), condition_binding },
        );
        assert(component.structural_templates@.drop_last() =~= old(component).structural_templates@);
    }
}

/// Record `condition && <jsx>` as a `logical` structural template.
pub fn visit_structural_bin_expr(component: &mut Component, op: JsBinaryOp, left: &JsExpr, right: &JsExpr)
    ensures
        (op == JsBinaryOp::LogicalAnd && (*right is JsxElement || *right is JsxFragment)) ==> structural_added(
            *old(component),
            *final(component),
            "logical"@,
            condition_binding(*left),
        ),
        !(op == JsBinaryOp::LogicalAnd && (*right is JsxElement || *right is JsxFragment)) ==> *final(component)
            == *old(component),
{
    if op == JsBinaryOp::LogicalAnd && is_jsx_expr(right) {
        let condition_binding = condition_binding_string(left);
        component.structural_templates.push(StructuralTemplate { template_type: owned("logical"), condition_binding });
        assert(component.structural_templates@.drop_last() =~= old(component).structural_templates@);
    }
}

/// The first dot-separated piece of a binding: the state it reads.
pub open spec fn state_key_of(binding: Seq<char>) -> Seq<char> {
    split_seq(binding, "."@)[0]
}

/// The values of the literal arguments, others left out.
pub open spec fn literal_args(args: Seq<JsArg>) -> Seq<Seq<char>>
    decreases args.len(),
{
    if args.len() == 0 {
        Seq::empty()
    } else {
        let rest = literal_args(args.drop_last());
        match literal_string(args.last().expr) {
            Some(v) => rest.push(v),
            None => rest,
        }
    }
}

/// The view of an expression template.
pub open spec fn expression_view(t: ExpressionTemplate) -> (Seq<char>, Seq<char>, Seq<char>, Option<Seq<char>>, Seq<Seq<char>>) {
    (t.template_type@, t.state_key@, t.binding@, opt_str(t.method), strings_view(t.args@))
}

/// The expression template a JSX expression stands for: a supported method
/// call on state, a binary operation reading state, a unary operation on a
/// binding, or a supported property of state.
pub open spec fn expression_template_of(e: JsExpr) -> Option<(Seq<char>, Seq<char>, Seq<char>, Option<Seq<char>>, Seq<Seq<char>>)> {
    match e {
        JsExpr::Call(call) => match call.callee {
            Some(c) => match *c {
                JsExpr::Member(m) => match m.prop {
                    JsMemberProp::Ident(method) => if supported_transform(method@) {
                        let b = match binding_of(*m.obj) {
                            Some(b) => b,
                            None => Seq::empty(),
                        };
                        Some(("methodCall"@, state_key_of(b), b, Some(method@), literal_args(call.args@)))
                    } else {
                        None
                    },
                    _ => None,
                },
                _ => None,
            },
            None => None,
        },
        JsExpr::Bin { .. } => {
            let bs = all_bindings(e);
            if bs.len() > 0 {
                Some(("binaryExpression"@, state_key_of(bs[0]), join_seq(bs, ", "@), None, Seq::empty()))
            } else {
                None
            }
        },
        JsExpr::Unary { op, arg } => match binding_of(*arg) {
            Some(b) => Some(("unaryExpression"@, state_key_of(b), b, None, seq![js_unary_op(op)])),
            None => None,
        },
        JsExpr::Member(m) => match m.prop {
            JsMemberProp::Ident(p) => if supported_transform(p@) {
                let b = member_binding(m);
                Some(("memberExpression"@, state_key_of(b), b, Some(p@), Seq::empty()))
            } else {
                None
            },
            _ => None,
        },
        _ => None,
    }
}

fn state_key_string(binding: &str) -> (r: String)
    ensures
        r@ == state_key_of(binding@),
{
    proof {
        reveal_strlit(".");
        lemma_split_pieces(binding@, "."@);
    }
    let pieces = split_str(binding, ".");
    assert(pieces@.map_values(|x: String| x@)[0] == pieces@[0]@);
    owned(pieces[0].as_str())
}

fn literal_arg_list(args: &Vec<JsArg>) -> (r: Vec<String>)
    ensures
        strings_view(r@) == literal_args(args@),
{
    let mut out: Vec<String> = Vec::new();
    let mut i: usize = 0;
    while i < args.len()
        invariant
            i <= args@.len(),
            strings_view(out@) == literal_args(args@.subrange(0, i as int)),
        decreases args@.len() - i,
    {
        proof {
            assert(args@.subrange(0, i + 1).drop_last() =~= args@.subrange(0, i as int));
        }
        let ghost mid = out@;
        if let Some(v) = literal_to_string(&args[i].expr) {
            proof {
                lemma_strings_view_push(mid, v);
            }
            out.push(v);
        }
        i = i + 1;
    }
    assert(args@.subrange(0, i as int) =~= args@);
    out
}

/// Record the expression template that a JSX expression container holds.
pub fn visit_expression_container(component: &mut Component, expr: &Option<Box<JsExpr>>)
    ensures
        match expr {
            Some(e) => match expression_template_of(**e) {
                Some(v) => {
                    &&& same_except(*old(component), *final(component), Part::ExpressionTemplates)
                    &&& final(component).expression_templates@.len() == old(component).expression_templates@.len() + 1
                    &&& final(component).expression_templates@.drop_last() == old(component).expression_templates@
                    &&& expression_view(final(component).expression_templates@.last()) == v
                },
                None => *final(component) == *old(component),
            },
            None => *final(component) == *old(component),
        },
{
    let e = match expr {
        Some(e) => e,
        None => return,
    };
    let t = match &**e {
        JsExpr::Call(call) => {
            let c = match &call.callee {
                Some(c) => c,
                None => return,
            };
            let m = match &**c {
                JsExpr::Member(m) => m,
                _ => return,
            };
            let method = match &m.prop {
                JsMemberProp::Ident(method) => method,
                _ => return,
            };
            if !is_supported_transform(method.as_str()) {
                return;
            }
            let binding = match extract_binding_from_expr(&m.obj) {
                Some(b) => b,
                None => String::new(),
            };
            let state_key = state_key_string(binding.as_str());
            let args = literal_arg_list(&call.args);
            ExpressionTemplate {
                template_type: owned("methodCall"),
                state_key,
                binding,
                method: Some(owned(method.as_str())),
                args,
            }
        },
        JsExpr::Bin { .. } => {
            let bindings = extract_all_bindings(e);
            if bindings.len() == 0 {
                return;
            }
            assert(strings_view(bindings@)[0] == bindings@[0]@);
            let state_key = state_key_string(bindings[0].as_str());
            let binding = join_strs(&bindings, ", ");
            let empty: Vec<String> = Vec::new();
            assert(strings_view(empty@) =~= Seq::<Seq<char>>::empty());
            ExpressionTemplate {
                template_type: owned("binaryExpression"),
                state_key,
                binding,
                method: None,
                args: empty,
            }
        },
        JsExpr::Unary { op, arg } => {
            let binding = match extract_binding_from_expr(arg) {
                Some(b) => b,
                None => return,
            };
            let state_key = state_key_string(binding.as_str());
            let op_text = owned(js_unary_op_str(*op));
            let args = vec![op_text];
            assert(strings_view(args@) =~= seq![js_unary_op(*op)]);
            ExpressionTemplate { template_type: owned("unaryExpression"), state_key, binding, method: None, args }
        },
        JsExpr::Member(m) => {
            let p = match &m.prop {
                JsMemberProp::Ident(p) => p,
                _ => return,
            };
            if !is_supported_transform(p.as_str()) {
                return;
            }
            let binding = build_member_path(m);
            let state_key = state_key_string(binding.as_str());
            let empty: Vec<String> = Vec::new();
            assert(strings_view(empty@) =~= Seq::<Seq<char>>::empty());
            ExpressionTemplate {
                template_type: owned("memberExpression"),
                state_key,
                binding,
                method: Some(owned(p.as_str())),
                args: empty,
            }
        },
        _ => return,
    };
    component.expression_templates.push(t);
    assert(component.expression_templates@.drop_last() =~= old(component).expression_templates@);
}

// ===================== the C# class =====================

/// The C# properties for the props.
pub open spec fn props_code(ps: Seq<Prop>) -> Seq<char>
    decreases ps.len(),
{
    if ps.len() == 0 {
        Seq::empty()
    } else {
        props_code(ps.drop_last()) + "    public "@ + ps.last().prop_type@ + " "@ + ps.last().name@
            + " { get; set; }\n"@
    }
}

/// The C# backing field and property for each state, the setter telling
/// the component its state changed.
pub open spec fn states_code(ss: Seq<UseStateInfo>) -> Seq<char>
    decreases ss.len(),
{
    if ss.len() == 0 {
        Seq::empty()
    } else {
        let t = ss.last().state_type@;
        let v = ss.last().var_name@;
        states_code(ss.drop_last()) + "    private "@ + t + " _"@ + v + ";\n"@ + "    public "@ + t + " "@ + v
            + " { get => _"@ + v + "; set { _"@ + v + " = value; StateHasChanged(); } }\n\n"@
    }
}

/// The C# property for each ref, with its initial value.
pub open spec fn refs_code(rs: Seq<UseRefInfo>) -> Seq<char>
    decreases rs.len(),
{
    if rs.len() == 0 {
        Seq::empty()
    } else {
        refs_code(rs.drop_last()) + "    public dynamic "@ + rs.last().name@ + " { get; set; } = "@
            + rs.last().initial_value@ + ";\n"@
    }
}

/// The constructor's assignment of each state's initial value.
pub open spec fn init_code(ss: Seq<UseStateInfo>) -> Seq<char>
    decreases ss.len(),
{
    if ss.len() == 0 {
        Seq::empty()
    } else {
        init_code(ss.drop_last()) + "        _"@ + ss.last().var_name@ + " = "@ + ss.last().initial_value@ + ";\n"@
    }
}

/// A helper's parameters in C#: type and name, joined with commas.
pub open spec fn params_code(ps: Seq<FunctionParam>) -> Seq<char> {
    join_seq(ps.map_values(|p: FunctionParam| p.param_type@ + " "@ + p.name@), ", "@)
}

/// A C# method stub for each helper: `async` when it is, its return type
/// directly followed by its name, and its parameters.
pub open spec fn helpers_code(hs: Seq<HelperFunction>) -> Seq<char>
    decreases hs.len(),
{
    if hs.len() == 0 {
        Seq::empty()
    } else {
        let h = hs.last();
        helpers_code(hs.drop_last()) + "\n    public "@ + (if h.is_async {
            "async "@
        } else {
            Seq::empty()
        }) + h.return_type@ + h.name@ + "("@ + params_code(h.params@) + ")\n    {\n        // TODO: Implement\n    }\n"@
    }
}

/// The C# class for a component: its usings, the class deriving from
/// `MinimactComponent`, its props, states and refs, a constructor setting
/// the states, its helpers, and a `Render` left to the runtime.
pub open spec fn csharp_code(c: Component) -> Seq<char> {
    "using System;\n"@ + "using System.Collections.Generic;\n"@ + "using Minimact;\n\n"@ + "public class "@ + c.name@
        + " : MinimactComponent\n{\n"@ + props_code(c.props@) + states_code(c.use_state@) + refs_code(c.use_ref@)
        + "\n    public "@ + c.name@ + "()\n    {\n"@ + init_code(c.use_state@) + "    }\n"@ + helpers_code(
        c.helper_functions@,
    ) + "\n    public override void Render()\n    {\n"@ + "        // JSX rendering handled by runtime\n"@
        + "    }\n"@ + "}\n"@
}

fn append(out: &mut String, s: &str)
    ensures
        final(out)@ == old(out)@ + s@,
{
    out.append(s);
}

fn helper_params_string(ps: &Vec<FunctionParam>) -> (r: String)
    ensures
        r@ == params_code(ps@),
{
    let mut parts: Vec<String> = Vec::new();
    let mut i: usize = 0;
    while i < ps.len()
        invariant
            i <= ps@.len(),
            strings_view(parts@) == ps@.subrange(0, i as int).map_values(
                |p: FunctionParam| p.param_type@ + " "@ + p.name@,
            ),
        decreases ps@.len() - i,
    {
        let piece = joined3(ps[i].param_type.as_str(), " ", ps[i].name.as_str());
        proof {
            lemma_strings_view_push(parts@, piece);
        }
        parts.push(piece);
        i = i + 1;
        assert(strings_view(parts@) =~= ps@.subrange(0, i as int).map_values(
            |p: FunctionParam| p.param_type@ + " "@ + p.name@,
        ));
    }
    assert(ps@.subrange(0, i as int) =~= ps@);
    join_strs(&parts, ", ")
}

impl MinimactTransformer {
    /// The C# class for a component.
    #[verifier::spinoff_prover]
    #[verifier::rlimit(50)]
    pub fn generate_csharp_code(&self, component: &Component) -> (r: String)
        ensures
            r@ == csharp_code(*component),
    {
        let mut code = String::new();
        append(&mut code, "using System;\n");
        append(&mut code, "using System.Collections.Generic;\n");
        append(&mut code, "using Minimact;\n\n");
        append(&mut code, "public class ");
        append(&mut code, component.name.as_str());
        append(&mut code, " : MinimactComponent\n{\n");
        let ghost head = code@;
        let props = &component.props;
        let mut i: usize = 0;
        while i < props.len()
            invariant
                i <= props@.len(),
                code@ == head + props_code(props@.subrange(0, i as int)),
            decreases props@.len() - i,
        {
            proof {
                assert(props@.subrange(0, i + 1).drop_last() =~= props@.subrange(0, i as int));
            }
            append(&mut code, "    public ");
            append(&mut code, props[i].prop_type.as_str());
            append(&mut code, " ");
            append(&mut code, props[i].name.as_str());
            append(&mut code, " { get; set; }\n");
            i = i + 1;
            assert(code@ =~= head + props_code(props@.subrange(0, i as int)));
        }
        assert(props@.subrange(0, i as int) =~= props@);
        let ghost h2 = code@;
        let states = &component.use_state;
        let mut j: usize = 0;
        while j < states.len()
            invariant
                j <= states@.len(),
                code@ == h2 + states_code(states@.subrange(0, j as int)),
            decreases states@.len() - j,
        {
            proof {
                assert(states@.subrange(0, j + 1).drop_last() =~= states@.subrange(0, j as int));
            }
            let t = states[j].state_type.as_str();
            let v = states[j].var_name.as_str();
            append(&mut code, "    private ");
            append(&mut code, t);
            append(&mut code, " _");
            append(&mut code, v);
            append(&mut code, ";\n");
            append(&mut code, "    public ");
            append(&mut code, t);
            append(&mut code, " ");
            append(&mut code, v);
            append(&mut code, " { get => _");
            append(&mut code, v);
            append(&mut code, "; set { _");
            append(&mut code, v);
            append(&mut code, " = value; StateHasChanged(); } }\n\n");
            j = j + 1;
            assert(code@ =~= h2 + states_code(states@.subrange(0, j as int)));
        }
        assert(states@.subrange(0, j as int) =~= states@);
        let ghost h3 = code@;
        let refs = &component.use_ref;
        let mut k: usize = 0;
        while k < refs.len()
            invariant
                k <= refs@.len(),
                code@ == h3 + refs_code(refs@.subrange(0, k as int)),
            decreases refs@.len() - k,
        {
            proof {
                assert(refs@.subrange(0, k + 1).drop_last() =~= refs@.subrange(0, k as int));
            }
            append(&mut code, "    public dynamic ");
            append(&mut code, refs[k].name.as_str());
            append(&mut code, " { get; set; } = ");
            append(&mut code, refs[k].initial_value.as_str());
            append(&mut code, ";\n");
            k = k + 1;
            assert(code@ =~= h3 + refs_code(refs@.subrange(0, k as int)));
        }
        assert(refs@.subrange(0, k as int) =~= refs@);
        append(&mut code, "\n    public ");
        append(&mut code, component.name.as_str());
        append(&mut code, "()\n    {\n");
        let ghost h4 = code@;
        let mut m: usize = 0;
        while m < states.len()
            invariant
                m <= states@.len(),
                code@ == h4 + init_code(states@.subrange(0, m as int)),
            decreases states@.len() - m,
        {
            proof {
                assert(states@.subrange(0, m + 1).drop_last() =~= states@.subrange(0, m as int));
            }
            append(&mut code, "        _");
            append(&mut code, states[m].var_name.as_str());
            append(&mut code, " = ");
            append(&mut code, states[m].initial_value.as_str());
            append(&mut code, ";\n");
            m = m + 1;
            assert(code@ =~= h4 + init_code(states@.subrange(0, m as int)));
        }
        assert(states@.subrange(0, m as int) =~= states@);
        append(&mut code, "    }\n");
        let ghost h5 = code@;
        let helpers = &component.helper_functions;
        let mut n: usize = 0;
        while n < helpers.len()
            invariant
                n <= helpers@.len(),
                code@ == h5 + helpers_code(helpers@.subrange(0, n as int)),
            decreases helpers@.len() - n,
        {
            proof {
                assert(helpers@.subrange(0, n + 1).drop_last() =~= helpers@.subrange(0, n as int));
            }
            let params = helper_params_string(&helpers[n].params);
            append(&mut code, "\n    public ");
            if helpers[n].is_async {
                append(&mut code, "async ");
            }
            append(&mut code, helpers[n].return_type.as_str());
            append(&mut code, helpers[n].name.as_str());
            append(&mut code, "(");
            append(&mut code, params.as_str());
            append(&mut code, ")\n    {\n        // TODO: Implement\n    }\n");
            n = n + 1;
            assert(code@ =~= h5 + helpers_code(helpers@.subrange(0, n as int)));
        }
        assert(helpers@.subrange(0, n as int) =~= helpers@);
        append(&mut code, "\n    public override void Render()\n    {\n");
        append(&mut code, "        // JSX rendering handled by runtime\n");
        append(&mut code, "    }\n");
        append(&mut code, "}\n");
        assert(code@ =~= csharp_code(*component));
        code
    }
}

// ===================== timelines =====================

/// The timeline of an animated component: its length, its keyframes, and the
/// state it binds.
#[derive(Debug)]
pub struct Timeline {
    pub duration: u32,
    pub keyframes: Vec<Keyframe>,
    pub state_bindings: Vec<String>,
}

/// A keyframe: the time, the state, and the value it takes.
#[derive(Debug)]
pub struct Keyframe {
    pub time: u32,
    pub state: String,
    pub value: String,
}

// ===================== hook classes =====================

/// What the analysis of a custom hook finds: its C# class, its states,
/// methods and event handlers, the values it returns, and the JSX it renders.
#[derive(Debug)]
pub struct HookAnalysis {
    pub class_name: String,
    pub states: Vec<UseStateInfo>,
    pub methods: Vec<HelperFunction>,
    pub event_handlers: Vec<EventHandler>,
    pub return_values: Vec<String>,
    pub jsx_elements: Option<Box<JsExpr>>,
}

/// The C# class generated for a custom hook: its name and code.
#[derive(Debug)]
pub struct GeneratedHookClass {
    pub name: String,
    pub code: String,
}

/// The C# class for a custom hook: named after the analysis, with no code
/// yet.
pub fn generate_hook_class(analysis: &HookAnalysis, context: &Component) -> (r: GeneratedHookClass)
    ensures
        r.name@ == analysis.class_name@,
        r.code@.len() == 0,
{
    GeneratedHookClass { name: owned(analysis.class_name.as_str()), code: String::new() }
}

/// The C# type of a TypeScript type as the hook analysis takes it: always
/// `dynamic`.
pub fn ts_type_to_csharp_type(ts_type: &TsType) -> (r: String)
    ensures
        r@ == "dynamic"@,
{
    owned("dynamic")
}

// ===================== keys of JSX elements =====================

/// Whether an attribute list has an attribute named `key`.
pub open spec fn has_key_attr(attrs: Seq<JsxAttrOrSpread>) -> bool {
    exists|i: int|
        0 <= i < attrs.len() && match #[trigger] attrs[i] {
            JsxAttrOrSpread::Attr(a) => match a.name {
                JsxAttrName::Ident(n) => n@ == "key"@,
                _ => false,
            },
            _ => false,
        }
}

/// How many elements the key assignment numbers in an expression: each
/// element, through the children of elements and fragments, the branches
/// of conditionals and parentheses.
pub open spec fn hex_count(e: JsExpr) -> nat
    decreases e, 3int,
{
    match e {
        JsExpr::JsxElement(j) => element_count(*j),
        JsExpr::JsxFragment(cs) => children_count(cs@),
        JsExpr::Cond(c) => hex_count(*c.cons) + hex_count(*c.alt),
        JsExpr::Paren(x) => hex_count(*x),
        _ => 0,
    }
}

/// How many elements the key assignment numbers in an element: itself and
/// those in its children.
pub open spec fn element_count(j: JsxElement) -> nat
    decreases j, 2int,
{
    1 + children_count(j.children@)
}

/// How many elements the key assignment numbers in children.
pub open spec fn children_count(cs: Seq<JsxChild>) -> nat
    decreases cs, 1int,
{
    if cs.len() == 0 {
        0
    } else {
        children_count(cs.drop_last()) + child_count(cs.last())
    }
}

/// How many elements the key assignment numbers in a child: an element and
/// those inside it, or those in an expression.
pub open spec fn child_count(c: JsxChild) -> nat
    decreases c, 0int,
{
    match c {
        JsxChild::Element(j) => element_count(*j),
        JsxChild::ExprContainer(Some(x)) => hex_count(*x),
        _ => 0,
    }
}

/// `b` is the attribute list `a` after the element got key number `n`: an
/// element without a `key` attribute gets one more attribute,
/// `data-minimact-key`, valued by the key.
pub open spec fn keyed_attrs(a: Seq<JsxAttrOrSpread>, b: Seq<JsxAttrOrSpread>, n: nat) -> bool {
    if has_key_attr(a) {
        b == a
    } else {
        &&& b.len() == a.len() + 1
        &&& b.drop_last() == a
        &&& match b.last() {
            JsxAttrOrSpread::Attr(x) => match (x.name, x.value) {
                (JsxAttrName::Ident(k), Some(JsxAttrValue::Str(v))) => k@ == "data-minimact-key"@ && v@ == hex(n),
                _ => false,
            },
            _ => false,
        }
    }
}

/// `b` is the expression `a` after keys numbered from `n` on: an element gets
/// its key and its children theirs; a fragment's children, both branches of
/// a conditional and a parenthesised expression get theirs in order; any
/// other expression stays as it is.
pub open spec fn hex_rel(a: JsExpr, b: JsExpr, n: nat) -> bool
    decreases a, 3int,
{
    match a {
        JsExpr::JsxElement(ja) => match b {
            JsExpr::JsxElement(jb) => element_rel(*ja, *jb, n),
            _ => false,
        },
        JsExpr::JsxFragment(ca) => match b {
            JsExpr::JsxFragment(cb) => children_rel(ca@, cb@, n),
            _ => false,
        },
        JsExpr::Cond(c) => match b {
            JsExpr::Cond(d) => d.test == c.test && hex_rel(*c.cons, *d.cons, n) && hex_rel(
                *c.alt,
                *d.alt,
                n + hex_count(*c.cons),
            ),
            _ => false,
        },
        JsExpr::Paren(x) => match b {
            JsExpr::Paren(y) => hex_rel(*x, *y, n),
            _ => false,
        },
        _ => b == a,
    }
}

/// `b` is the element `a` after it got key `n` and its children keys from
/// `n + 1` on.
pub open spec fn element_rel(a: JsxElement, b: JsxElement, n: nat) -> bool
    decreases a, 2int,
{
    keyed_attrs(a.attrs@, b.attrs@, n) && children_rel(a.children@, b.children@, n + 1)
}

/// `cb` is the children `ca` after keys from `n` on, in order: child elements
/// and the elements inside expressions get their keys.
pub open spec fn children_rel(ca: Seq<JsxChild>, cb: Seq<JsxChild>, n: nat) -> bool
    decreases ca, 1int,
{
    ca.len() == cb.len() && (ca.len() == 0 || (children_rel(ca.drop_last(), cb.drop_last(), n) && child_rel(
        ca.last(),
        cb.last(),
        n + children_count(ca.drop_last()),
    )))
}

/// `b` is the child `a` after keys from `n` on.
pub open spec fn child_rel(a: JsxChild, b: JsxChild, n: nat) -> bool
    decreases a, 0int,
{
    match a {
        JsxChild::Element(ja) => match b {
            JsxChild::Element(jb) => element_rel(*ja, *jb, n),
            _ => false,
        },
        JsxChild::ExprContainer(Some(x)) => match b {
            JsxChild::ExprContainer(Some(y)) => hex_rel(*x, *y, n),
            _ => false,
        },
        _ => b == a,
    }
}

/// Whether some attribute is named `key`.
fn has_key(attrs: &Vec<JsxAttrOrSpread>) -> (r: bool)
    ensures
        r == has_key_attr(attrs@),
{
    let mut i: usize = 0;
    while i < attrs.len()
        invariant
            i <= attrs@.len(),
            forall|j: int|
                0 <= j < i ==> !match #[trigger] attrs@[j] {
                    JsxAttrOrSpread::Attr(a) => match a.name {
                        JsxAttrName::Ident(n) => n@ == "key"@,
                        _ => false,
                    },
                    _ => false,
                },
        decreases attrs@.len() - i,
    {
        if let JsxAttrOrSpread::Attr(a) = &attrs[i] {
            if let JsxAttrName::Ident(n) = &a.name {
                if str_eq(n.as_str(), "key") {
                    return true;
                }
            }
        }
        i = i + 1;
    }
    false
}

/// The children after keys are given out in order.
fn keyed_children(cs: Vec<JsxChild>, path_gen: &mut HexPathGenerator) -> (r: Vec<JsxChild>)
    requires
        old(path_gen).issued() + children_count(cs@) <= u32::MAX,
    ensures
        children_rel(cs@, r@, old(path_gen).issued()),
        final(path_gen).issued() == old(path_gen).issued() + children_count(cs@),
    decreases cs@, 1nat,
{
    let ghost orig = cs@;
    let mut front = cs;
    match front.pop() {
        Some(last) => {
            assert(front@ == orig.drop_last());
            assert(last == orig.last());
            let mut keyed = keyed_children(front, path_gen);
            let last2 = keyed_child(last, path_gen);
            let ghost before = keyed@;
            keyed.push(last2);
            assert(keyed@.drop_last() =~= before);
            keyed
        },
        None => {
            assert(orig.len() == 0);
            Vec::new()
        },
    }
}

/// A child after keys are given out: an element and the elements inside an
/// expression get their keys.
fn keyed_child(c: JsxChild, path_gen: &mut HexPathGenerator) -> (r: JsxChild)
    requires
        old(path_gen).issued() + child_count(c) <= u32::MAX,
    ensures
        child_rel(c, r, old(path_gen).issued()),
        final(path_gen).issued() == old(path_gen).issued() + child_count(c),
    decreases c, 0nat,
{
    match c {
        JsxChild::Element(j) => {
            let k = keyed_element(*j, path_gen);
            JsxChild::Element(Box::new(k))
        },
        JsxChild::ExprContainer(Some(x)) => {
            let y = keyed_expr(*x, path_gen);
            JsxChild::ExprContainer(Some(Box::new(y)))
        },
        other => other,
    }
}

/// An element after it got the next key and its children theirs.
fn keyed_element(j: JsxElement, path_gen: &mut HexPathGenerator) -> (r: JsxElement)
    requires
        old(path_gen).issued() + element_count(j) <= u32::MAX,
    ensures
        element_rel(j, r, old(path_gen).issued()),
        final(path_gen).issued() == old(path_gen).issued() + element_count(j),
    decreases j, 2nat,
{
    let ghost j0 = j;
    let JsxElement { attrs, children } = j;
    let ghost n = path_gen.issued();
    let hex_key = path_gen.next();
    let mut attrs = attrs;
    let ghost a0 = attrs@;
    if !has_key(&attrs) {
        attrs.push(
            JsxAttrOrSpread::Attr(
                JsxAttr {
                    name: JsxAttrName::Ident(owned("data-minimact-key")),
                    value: Some(JsxAttrValue::Str(hex_key)),
                },
            ),
        );
        assert(attrs@.drop_last() =~= a0);
        proof {
            reveal_strlit("data-minimact-key");
        }
    }
    let children = keyed_children(children, path_gen);
    JsxElement { attrs, children }
}

/// An expression after keys are given out to its elements in order.
fn keyed_expr(e: JsExpr, path_gen: &mut HexPathGenerator) -> (r: JsExpr)
    requires
        old(path_gen).issued() + hex_count(e) <= u32::MAX,
    ensures
        hex_rel(e, r, old(path_gen).issued()),
        final(path_gen).issued() == old(path_gen).issued() + hex_count(e),
    decreases e, 3nat,
{
    match e {
        JsExpr::JsxElement(j) => {
            let k = keyed_element(*j, path_gen);
            JsExpr::JsxElement(Box::new(k))
        },
        JsExpr::JsxFragment(cs) => {
            let cs2 = keyed_children(cs, path_gen);
            JsExpr::JsxFragment(cs2)
        },
        JsExpr::Cond(c) => {
            let JsCond { test, cons, alt } = c;
            let cons2 = keyed_expr(*cons, path_gen);
            let alt2 = keyed_expr(*alt, path_gen);
            JsExpr::Cond(JsCond { test, cons: Box::new(cons2), alt: Box::new(alt2) })
        },
        JsExpr::Paren(x) => {
            let y = keyed_expr(*x, path_gen);
            JsExpr::Paren(Box::new(y))
        },
        other => other,
    }
}

impl MinimactTransformer {
    /// Assign hex paths to all JSX elements in the tree, in pre-order: each
    /// element without a `key` attribute gets a `data-minimact-key` attribute
    /// valued by its path; its children, the elements inside expression
    /// containers, both branches of a conditional and a parenthesised
    /// expression get theirs in turn.
    pub fn assign_hex_paths_to_jsx(expr: &mut JsExpr, path_gen: &mut HexPathGenerator)
        requires
            old(path_gen).issued() + hex_count(*old(expr)) <= u32::MAX,
        ensures
            hex_rel(*old(expr), *final(expr), old(path_gen).issued()),
            final(path_gen).issued() == old(path_gen).issued() + hex_count(*old(expr)),
    {
        let mut taken = JsExpr::Other;
        std::mem::swap(&mut taken, expr);
        let keyed = keyed_expr(taken, path_gen);
        *expr = keyed;
    }
}

} // verus!
