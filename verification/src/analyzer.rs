//! What the analysis of a Babel plugin reads off single JavaScript nodes: the
//! text of expressions, member paths and arguments, and the transform that a
//! statement or expression stands for.

use vstd::prelude::*;
use crate::js::{
    JsLit, JsBinaryOp, JsUnaryOp, JsMemberProp, JsMember, JsArg, JsCall, JsCond, JsAssign, JsTpl, JsPropName,
    JsProp, JsExpr, JsPat, JsObjectPatProp, JsVarDeclarator, JsForHead,
};
use crate::metadata::{PluginMetadata, StructDef, FieldDef};
use crate::strings::{owned, joined, joined3, starts_with, str_eq};
use crate::text::{
    join_seq, join_strs, replaced_text, replace_text, contains_seq, contains_str, split_seq, split_str,
    lemma_split_pieces, trim, trim_ws, to_lowercase, str_lowercase, uppercase_string, char_uppercase,
};
use crate::translate::{
    snake_case, to_snake_case, converted_identifier, convert_identifier, type_check_code, translate_type_check,
};
use crate::metadata::value_for;
use crate::transform::{Transform, TransformV, VisitorMethod, HelperFunction, strings_view, transforms_view};

verus! {

/// What a Babel plugin body analysis collects: the transforms found so far,
/// and the plugin's metadata when there is any.
pub struct VisitorBodyAnalyzer<'a> {
    pub transforms: Vec<Transform>,
    pub metadata: Option<&'a PluginMetadata>,
}

impl<'a> Default for VisitorBodyAnalyzer<'a> {
    /// An analyzer with no transforms yet and no metadata.
    fn default() -> (r: Self)
        ensures
            r.transforms@.len() == 0,
            r.metadata is None,
    {
        VisitorBodyAnalyzer { transforms: Vec::new(), metadata: None }
    }
}

/// The views of a list of strings, after one more string.
pub proof fn lemma_strings_view_push(s: Seq<String>, x: String)
    ensures
        strings_view(s.push(x)) == strings_view(s).push(x@),
{
    assert(strings_view(s.push(x)) =~= strings_view(s).push(x@));
}

// ===================== member paths =====================

/// The text of a computed member index: a number or a name as written,
/// anything else `idx`.
pub open spec fn index_text(e: JsExpr) -> Seq<char> {
    match e {
        JsExpr::Lit(JsLit::Num(t)) => t@,
        JsExpr::Ident(s) => s@,
        _ => "idx"@,
    }
}

/// The path pieces a member property adds: its name, or its index in square
/// brackets; a private name adds none.
pub open spec fn prop_parts(p: JsMemberProp) -> Seq<Seq<char>> {
    match p {
        JsMemberProp::Ident(s) => seq![s@],
        JsMemberProp::Computed(e) => seq!["["@ + index_text(*e) + "]"@],
        JsMemberProp::Private => Seq::empty(),
    }
}

/// The path pieces of a chain of member accesses, root name first; the chain
/// ends at the first expression that is neither a name nor a member access.
pub open spec fn chain_parts(e: JsExpr) -> Seq<Seq<char>>
    decreases e,
{
    match e {
        JsExpr::Ident(s) => seq![s@],
        JsExpr::Member(m) => chain_parts(*m.obj) + prop_parts(m.prop),
        _ => Seq::empty(),
    }
}

/// The dotted path of a member expression, such as `path.node.id.name` or
/// `body.body.[0]`.
pub open spec fn member_path(m: JsMember) -> Seq<char> {
    join_seq(chain_parts(*m.obj) + prop_parts(m.prop), "."@)
}

fn index_string(e: &JsExpr) -> (r: String)
    ensures
        r@ == index_text(*e),
{
    match e {
        JsExpr::Lit(JsLit::Num(t)) => owned(t.as_str()),
        JsExpr::Ident(s) => owned(s.as_str()),
        _ => owned("idx"),
    }
}

fn push_prop_parts(p: &JsMemberProp, out: &mut Vec<String>)
    ensures
        strings_view(final(out)@) == strings_view(old(out)@) + prop_parts(*p),
{
    let ghost before = out@;
    match p {
        JsMemberProp::Ident(s) => {
            let piece = owned(s.as_str());
            proof {
                lemma_strings_view_push(before, piece);
            }
            out.push(piece);
        },
        JsMemberProp::Computed(e) => {
            let index = index_string(e);
            let piece = joined3("[", index.as_str(), "]");
            proof {
                lemma_strings_view_push(before, piece);
            }
            out.push(piece);
        },
        JsMemberProp::Private => {},
    }
    assert(strings_view(out@) =~= strings_view(before) + prop_parts(*p));
}

fn push_chain_parts(e: &JsExpr, out: &mut Vec<String>)
    ensures
        strings_view(final(out)@) == strings_view(old(out)@) + chain_parts(*e),
    decreases e,
{
    let ghost before = out@;
    match e {
        JsExpr::Ident(s) => {
            let piece = owned(s.as_str());
            proof {
                lemma_strings_view_push(before, piece);
            }
            out.push(piece);
            assert(strings_view(out@) =~= strings_view(before) + chain_parts(*e));
        },
        JsExpr::Member(m) => {
            push_chain_parts(&m.obj, out);
            push_prop_parts(&m.prop, out);
            assert(strings_view(out@) =~= strings_view(before) + chain_parts(*e));
        },
        _ => {
            assert(strings_view(out@) =~= strings_view(before) + chain_parts(*e));
        },
    }
}

/// The dotted path of a member expression.
pub fn member_path_string(member: &JsMember) -> (r: String)
    ensures
        r@ == member_path(*member),
{
    let mut parts: Vec<String> = Vec::new();
    push_chain_parts(&member.obj, &mut parts);
    push_prop_parts(&member.prop, &mut parts);
    assert(strings_view(parts@) =~= chain_parts(*member.obj) + prop_parts(member.prop));
    join_strs(&parts, ".")
}

// ===================== expression text =====================

/// A string literal as the analysis writes it: its value in double quotes,
/// as the parser's string atoms print themselves.
pub open spec fn quoted(v: Seq<char>) -> Seq<char> {
    "\""@ + v + "\""@
}

/// `true` or `false`.
pub open spec fn bool_text(b: bool) -> Seq<char> {
    if b {
        "true"@
    } else {
        "false"@
    }
}

fn bool_string(b: bool) -> (r: String)
    ensures
        r@ == bool_text(b),
{
    if b {
        owned("true")
    } else {
        owned("false")
    }
}

/// The Rust operator for a JavaScript binary operator; `?` for those without
/// one.
pub open spec fn bin_op_text(op: JsBinaryOp) -> Seq<char> {
    match op {
        JsBinaryOp::EqEq | JsBinaryOp::EqEqEq => "=="@,
        JsBinaryOp::NotEq | JsBinaryOp::NotEqEq => "!="@,
        JsBinaryOp::Lt => "<"@,
        JsBinaryOp::LtEq => "<="@,
        JsBinaryOp::Gt => ">"@,
        JsBinaryOp::GtEq => ">="@,
        JsBinaryOp::LogicalAnd => "&&"@,
        JsBinaryOp::LogicalOr => "||"@,
        JsBinaryOp::Add => "+"@,
        JsBinaryOp::Sub => "-"@,
        JsBinaryOp::Mul => "*"@,
        JsBinaryOp::Div => "/"@,
        _ => "?"@,
    }
}

/// The operator of a condition: comparisons and logic as in Rust,
/// arithmetic and anything else `?`.
pub open spec fn cond_op_text(op: JsBinaryOp) -> Seq<char> {
    match op {
        JsBinaryOp::Add | JsBinaryOp::Sub | JsBinaryOp::Mul | JsBinaryOp::Div => "?"@,
        _ => bin_op_text(op),
    }
}

/// The Rust text of a unary operator; `?` for those without one.
pub open spec fn unary_op_text(op: JsUnaryOp) -> Seq<char> {
    match op {
        JsUnaryOp::Bang => "!"@,
        JsUnaryOp::Minus => "-"@,
        JsUnaryOp::Plus => "+"@,
        _ => "?"@,
    }
}

fn bin_op_string(op: JsBinaryOp) -> (r: &'static str)
    ensures
        r@ == bin_op_text(op),
{
    match op {
        JsBinaryOp::EqEq | JsBinaryOp::EqEqEq => "==",
        JsBinaryOp::NotEq | JsBinaryOp::NotEqEq => "!=",
        JsBinaryOp::Lt => "<",
        JsBinaryOp::LtEq => "<=",
        JsBinaryOp::Gt => ">",
        JsBinaryOp::GtEq => ">=",
        JsBinaryOp::LogicalAnd => "&&",
        JsBinaryOp::LogicalOr => "||",
        JsBinaryOp::Add => "+",
        JsBinaryOp::Sub => "-",
        JsBinaryOp::Mul => "*",
        JsBinaryOp::Div => "/",
        _ => "?",
    }
}

fn cond_op_string(op: JsBinaryOp) -> (r: &'static str)
    ensures
        r@ == cond_op_text(op),
{
    match op {
        JsBinaryOp::Add | JsBinaryOp::Sub | JsBinaryOp::Mul | JsBinaryOp::Div => "?",
        _ => bin_op_string(op),
    }
}

fn unary_op_string(op: JsUnaryOp) -> (r: &'static str)
    ensures
        r@ == unary_op_text(op),
{
    match op {
        JsUnaryOp::Bang => "!",
        JsUnaryOp::Minus => "-",
        JsUnaryOp::Plus => "+",
        _ => "?",
    }
}

/// A string literal's value quoted, with backslashes and double quotes
/// escaped.
pub open spec fn quoted_escaped(v: Seq<char>) -> Seq<char> {
    "\""@ + replaced_text(replaced_text(v, "\\"@, "\\\\"@), "\""@, "\\\""@) + "\""@
}

/// The text of an expression as the analysis writes it down: names and
/// member paths as they are, literals as values, operators in their Rust
/// form, calls with their arguments; anything else `expr`.
pub open spec fn expr_text(e: JsExpr) -> Seq<char>
    decreases e, 2int,
{
    match e {
        JsExpr::Ident(s) => s@,
        JsExpr::Member(m) => member_path(m),
        JsExpr::Lit(JsLit::Str(v)) => quoted(v@),
        JsExpr::Lit(JsLit::Num(t)) => t@,
        JsExpr::Lit(JsLit::Bool(b)) => bool_text(b),
        JsExpr::Lit(JsLit::Regex(x)) => "REGEX("@ + x@ + ")"@,
        JsExpr::Bin { op, left, right } => expr_text(*left) + " "@ + bin_op_text(op) + " "@ + expr_text(*right),
        JsExpr::Call(call) => {
            let a = join_seq(call_arg_texts(call.args@), ", "@);
            match call.callee {
                Some(c) => match *c {
                    JsExpr::Ident(f) => f@ + "("@ + a + ")"@,
                    JsExpr::Member(m) => match m.prop {
                        JsMemberProp::Ident(method) => expr_text(*m.obj) + "."@ + method@ + "("@ + a + ")"@,
                        _ => "call()"@,
                    },
                    _ => "call()"@,
                },
                None => "call()"@,
            }
        },
        JsExpr::Unary { op, arg } => unary_op_text(op) + expr_text(*arg),
        _ => "expr"@,
    }
}

/// The text of each call argument.
pub open spec fn call_arg_texts(args: Seq<JsArg>) -> Seq<Seq<char>>
    decreases args, 1int,
{
    if args.len() == 0 {
        Seq::empty()
    } else {
        call_arg_texts(args.drop_last()).push(call_arg_text(args.last()))
    }
}

/// The text of a call argument: a string literal quoted and escaped, a number
/// or name as written, anything else as [`expr_text`] writes it.
pub open spec fn call_arg_text(a: JsArg) -> Seq<char>
    decreases a, 0int,
{
    match a.expr {
        JsExpr::Lit(JsLit::Str(v)) => quoted_escaped(v@),
        JsExpr::Lit(JsLit::Num(t)) => t@,
        JsExpr::Ident(id) => id@,
        _ => expr_text(a.expr),
    }
}

/// The text of an `if` or ternary test: calls, member paths, names and
/// negations as [`expr_text`] writes them, a comparison with its Rust
/// operator; anything else `condition`.
pub open spec fn condition_text(e: JsExpr) -> Seq<char> {
    match e {
        JsExpr::Call(_) => expr_text(e),
        JsExpr::Bin { op, left, right } => expr_text(*left) + " "@ + cond_op_text(op) + " "@ + expr_text(*right),
        JsExpr::Member(m) => member_path(m),
        JsExpr::Ident(s) => s@,
        JsExpr::Unary { op, arg } => unary_op_text(op) + expr_text(*arg),
        _ => "condition"@,
    }
}

/// The name an argument stands for: a name, a member path, or `expr`.
pub open spec fn arg_name_text(e: JsExpr) -> Seq<char> {
    match e {
        JsExpr::Ident(s) => s@,
        JsExpr::Member(m) => member_path(m),
        _ => "expr"@,
    }
}

/// The names of a list of expressions, each as [`arg_name_text`] gives it.
pub open spec fn arg_names(args: Seq<JsArg>) -> Seq<Seq<char>> {
    args.map_values(|a: JsArg| arg_name_text(a.expr))
}

/// The template text of a template literal from the `i`-th piece on: each raw
/// piece followed, while there is one, by the name of its expression in
/// `${..}`.
pub open spec fn tpl_text(quasis: Seq<String>, exprs: Seq<JsExpr>, i: int) -> Seq<char>
    decreases quasis.len() - i,
{
    if 0 <= i < quasis.len() {
        let tail = if i < exprs.len() {
            "${"@ + arg_name_text(exprs[i]) + "}"@
        } else {
            Seq::empty()
        };
        quasis[i]@ + tail + tpl_text(quasis, exprs, i + 1)
    } else {
        Seq::empty()
    }
}

/// The value an argument is written as: a string literal in double quotes, a
/// template literal in backquotes with its expressions by name, a name as it
/// is, a call of a named function with its arguments by name; another call
/// `call()`, anything else `value`.
pub open spec fn arg_value_text(e: JsExpr) -> Seq<char> {
    match e {
        JsExpr::Lit(JsLit::Str(v)) => "\""@ + v@ + "\""@,
        JsExpr::Tpl(t) => "`"@ + tpl_text(t.quasis@, t.exprs@, 0) + "`"@,
        JsExpr::Ident(s) => s@,
        JsExpr::Call(call) => match call.callee {
            Some(c) => match *c {
                JsExpr::Ident(f) => f@ + "("@ + join_seq(arg_names(call.args@), ", "@) + ")"@,
                _ => "call()"@,
            },
            None => "call()"@,
        },
        _ => "value"@,
    }
}

/// A string literal's value; anything else `,`.
pub open spec fn string_literal_text(e: JsExpr) -> Seq<char> {
    match e {
        JsExpr::Lit(JsLit::Str(v)) => v@,
        _ => ","@,
    }
}

impl<'a> VisitorBodyAnalyzer<'a> {
    /// The dotted path of a member expression.
    pub fn extract_member_path(&self, member: &JsMember) -> (r: String)
        ensures
            r@ == member_path(*member),
    {
        member_path_string(member)
    }

    /// The text of an expression.
    pub fn extract_expr_string(&self, expr: &JsExpr) -> (r: String)
        ensures
            r@ == expr_text(*expr),
        decreases expr, 2nat,
    {
        match expr {
            JsExpr::Ident(s) => owned(s.as_str()),
            JsExpr::Member(m) => member_path_string(m),
            JsExpr::Lit(JsLit::Str(v)) => joined3("\"", v.as_str(), "\""),
            JsExpr::Lit(JsLit::Num(t)) => owned(t.as_str()),
            JsExpr::Lit(JsLit::Bool(b)) => bool_string(*b),
            JsExpr::Lit(JsLit::Regex(x)) => joined3("REGEX(", x.as_str(), ")"),
            JsExpr::Bin { op, left, right } => {
                let l = self.extract_expr_string(left);
                let r = self.extract_expr_string(right);
                let head = joined3(l.as_str(), " ", bin_op_string(*op));
                joined3(head.as_str(), " ", r.as_str())
            },
            JsExpr::Call(call) => {
                let a = self.call_args_string(&call.args);
                match &call.callee {
                    Some(c) => match &**c {
                        JsExpr::Ident(f) => {
                            let head = joined3(f.as_str(), "(", a.as_str());
                            joined(head.as_str(), ")")
                        },
                        JsExpr::Member(m) => match &m.prop {
                            JsMemberProp::Ident(method) => {
                                let obj = self.extract_expr_string(&m.obj);
                                let head = joined3(obj.as_str(), ".", method.as_str());
                                let head2 = joined3(head.as_str(), "(", a.as_str());
                                joined(head2.as_str(), ")")
                            },
                            _ => owned("call()"),
                        },
                        _ => owned("call()"),
                    },
                    None => owned("call()"),
                }
            },
            JsExpr::Unary { op, arg } => {
                let a = self.extract_expr_string(arg);
                joined(unary_op_string(*op), a.as_str())
            },
            _ => owned("expr"),
        }
    }

    /// The texts of call arguments, joined with `, `.
    fn call_args_string(&self, args: &Vec<JsArg>) -> (r: String)
        ensures
            r@ == join_seq(call_arg_texts(args@), ", "@),
        decreases args, 1nat,
    {
        let mut texts: Vec<String> = Vec::new();
        let mut i: usize = 0;
        while i < args.len()
            invariant
                i <= args@.len(),
                strings_view(texts@) == call_arg_texts(args@.subrange(0, i as int)),
            decreases args@.len() - i,
        {
            let t = self.call_arg_string(&args[i]);
            proof {
                lemma_strings_view_push(texts@, t);
                assert(args@.subrange(0, i + 1).drop_last() =~= args@.subrange(0, i as int));
            }
            texts.push(t);
            i = i + 1;
        }
        assert(args@.subrange(0, i as int) =~= args@);
        join_strs(&texts, ", ")
    }

    /// The text of one call argument.
    fn call_arg_string(&self, arg: &JsArg) -> (r: String)
        ensures
            r@ == call_arg_text(*arg),
        decreases arg, 0nat,
    {
        match &arg.expr {
            JsExpr::Lit(JsLit::Str(v)) => {
                let a = replace_text(v.as_str(), "\\", "\\\\");
                let b = replace_text(a.as_str(), "\"", "\\\"");
                joined3("\"", b.as_str(), "\"")
            },
            JsExpr::Lit(JsLit::Num(t)) => owned(t.as_str()),
            JsExpr::Ident(id) => owned(id.as_str()),
            _ => self.extract_expr_string(&arg.expr),
        }
    }

    /// The text of an `if` or ternary test.
    pub fn extract_condition_expr(&self, expr: &JsExpr) -> (r: String)
        ensures
            r@ == condition_text(*expr),
    {
        match expr {
            JsExpr::Call(_) => self.extract_expr_string(expr),
            JsExpr::Bin { op, left, right } => {
                let l = self.extract_expr_string(left);
                let r = self.extract_expr_string(right);
                let head = joined3(l.as_str(), " ", cond_op_string(*op));
                joined3(head.as_str(), " ", r.as_str())
            },
            JsExpr::Member(m) => member_path_string(m),
            JsExpr::Ident(s) => owned(s.as_str()),
            JsExpr::Unary { op, arg } => {
                let a = self.extract_expr_string(arg);
                joined(unary_op_string(*op), a.as_str())
            },
            _ => owned("condition"),
        }
    }

    /// The name an argument stands for.
    pub fn extract_arg_name(&self, expr: &JsExpr) -> (r: String)
        ensures
            r@ == arg_name_text(*expr),
    {
        match expr {
            JsExpr::Ident(s) => owned(s.as_str()),
            JsExpr::Member(m) => member_path_string(m),
            _ => owned("expr"),
        }
    }

    /// The names of call arguments, joined with `, `.
    fn arg_names_string(&self, args: &Vec<JsArg>) -> (r: String)
        ensures
            r@ == join_seq(arg_names(args@), ", "@),
    {
        let names = self.arg_name_list(args);
        join_strs(&names, ", ")
    }

    /// The names of call arguments.
    fn arg_name_list(&self, args: &Vec<JsArg>) -> (r: Vec<String>)
        ensures
            strings_view(r@) == arg_names(args@),
    {
        let mut names: Vec<String> = Vec::new();
        let mut i: usize = 0;
        while i < args.len()
            invariant
                i <= args@.len(),
                strings_view(names@) == arg_names(args@.subrange(0, i as int)),
            decreases args@.len() - i,
        {
            let t = self.extract_arg_name(&args[i].expr);
            proof {
                lemma_strings_view_push(names@, t);
            }
            names.push(t);
            i = i + 1;
            assert(strings_view(names@) =~= arg_names(args@.subrange(0, i as int)));
        }
        assert(args@.subrange(0, i as int) =~= args@);
        names
    }

    /// The value an argument is written as.
    pub fn extract_arg_value(&self, expr: &JsExpr) -> (r: String)
        ensures
            r@ == arg_value_text(*expr),
    {
        match expr {
            JsExpr::Lit(JsLit::Str(v)) => joined3("\"", v.as_str(), "\""),
            JsExpr::Tpl(tpl) => {
                let quasis = &tpl.quasis;
                let exprs = &tpl.exprs;
                let mut result = owned("`");
                let mut i: usize = 0;
                while i < quasis.len()
                    invariant
                        i <= quasis@.len(),
                        result@ + tpl_text(quasis@, exprs@, i as int) == "`"@ + tpl_text(quasis@, exprs@, 0),
                    decreases quasis@.len() - i,
                {
                    let ghost before = result@;
                    result = joined(result.as_str(), quasis[i].as_str());
                    if i < exprs.len() {
                        let name = self.extract_arg_name(&exprs[i]);
                        result = joined(result.as_str(), joined3("${", name.as_str(), "}").as_str());
                    }
                    assert(result@ + tpl_text(quasis@, exprs@, i + 1) =~= before + tpl_text(
                        quasis@,
                        exprs@,
                        i as int,
                    ));
                    i = i + 1;
                }
                assert(result@ =~= result@ + tpl_text(quasis@, exprs@, i as int));
                joined(result.as_str(), "`")
            },
            JsExpr::Ident(s) => owned(s.as_str()),
            JsExpr::Call(call) => match &call.callee {
                Some(c) => match &**c {
                    JsExpr::Ident(f) => {
                        let names = self.arg_names_string(&call.args);
                        let head = joined3(f.as_str(), "(", names.as_str());
                        joined(head.as_str(), ")")
                    },
                    _ => owned("call()"),
                },
                None => owned("call()"),
            },
            _ => owned("value"),
        }
    }

    /// A string literal's value, or `,`.
    pub fn extract_string_literal(&self, expr: &JsExpr) -> (r: String)
        ensures
            r@ == string_literal_text(*expr),
    {
        match expr {
            JsExpr::Lit(JsLit::Str(v)) => owned(v.as_str()),
            _ => owned(","),
        }
    }
}

// ===================== transforms of single nodes =====================

/// The views of an optional transform.
pub open spec fn opt_transform_view(o: Option<Transform>) -> Option<TransformV> {
    match o {
        Some(t) => Some(t@),
        None => None,
    }
}

/// The array a method is called on: its name, or `array`.
pub open spec fn array_name_text(obj: JsExpr) -> Seq<char> {
    match obj {
        JsExpr::Ident(a) => a@,
        _ => "array"@,
    }
}

/// The transform a call stands for: `a.push(x)` an array push (of a spread
/// source when the argument is spread), `a.join(s)` an array join, `f(..)` a
/// function call with its arguments by name; any other call none.
pub open spec fn call_transform(call: JsCall) -> Option<TransformV> {
    match call.callee {
        Some(c) => match *c {
            JsExpr::Member(m) => match m.prop {
                JsMemberProp::Ident(method) => if method@ == "push"@ {
                    if call.args@.len() > 0 {
                        let a = call.args@[0];
                        if a.spread {
                            Some(
                                TransformV::ArrayPushSpread {
                                    array_name: array_name_text(*m.obj),
                                    source_array: arg_value_text(a.expr),
                                },
                            )
                        } else {
                            Some(TransformV::ArrayPush { array_name: array_name_text(*m.obj), value: arg_value_text(a.expr) })
                        }
                    } else {
                        None
                    }
                } else if method@ == "join"@ {
                    Some(
                        TransformV::ArrayJoin {
                            array_name: array_name_text(*m.obj),
                            separator: if call.args@.len() > 0 {
                                string_literal_text(call.args@[0].expr)
                            } else {
                                ","@
                            },
                        },
                    )
                } else {
                    None
                },
                _ => None,
            },
            JsExpr::Ident(f) => Some(TransformV::FunctionCall { name: f@, args: arg_names(call.args@) }),
            _ => None,
        },
        None => None,
    }
}

/// The last dot-separated piece of a path.
pub open spec fn last_piece(path: Seq<char>) -> Seq<char> {
    split_seq(path, "."@).last()
}

/// The transform an assignment stands for: one to a member path that
/// mentions `metadata` records the path's last piece as a metadata key.
pub open spec fn assignment_transform(a: JsAssign) -> Option<TransformV> {
    match a.target {
        Some(m) => if contains_seq(member_path(m), "metadata"@) {
            Some(TransformV::MetadataAssignment { key: last_piece(member_path(m)), value_expr: "value"@ })
        } else {
            None
        },
        None => None,
    }
}

/// The transform an expression of a logical chain stands for: a recognised
/// call, or the expression kept as raw JavaScript.
pub open spec fn chain_transform(e: JsExpr) -> TransformV {
    match e {
        JsExpr::Call(call) => match call_transform(call) {
            Some(t) => t,
            None => TransformV::RawJs { code: "call()"@, reason: "Unknown call expression"@ },
        },
        _ => TransformV::RawJs { code: expr_text(e), reason: "Unsupported expression in logical chain"@ },
    }
}

/// The name of a hook that a call invokes: a called name that starts with
/// `use`.
pub open spec fn hook_name(call: JsCall) -> Option<Seq<char>> {
    match call.callee {
        Some(c) => match *c {
            JsExpr::Ident(name) => if "use"@.is_prefix_of(name@) {
                Some(name@)
            } else {
                None
            },
            _ => None,
        },
        None => None,
    }
}

/// The Rust for a Babel path: the node's name, its parameters and the
/// parent's type have fixed translations; otherwise `path.node` becomes
/// `node`.
pub open spec fn rust_path(p: Seq<char>) -> Seq<char> {
    if contains_seq(p, "path.node.id.name"@) {
        "node.ident.sym"@
    } else if contains_seq(p, "path.node.params"@) {
        "node.params"@
    } else if contains_seq(p, "path.parent.type"@) {
        "parent_type"@
    } else {
        replaced_text(p, "path.node"@, "node"@)
    }
}

impl<'a> VisitorBodyAnalyzer<'a> {
    /// The transform a call stands for, if it is recognised.
    pub fn detect_function_call(&self, call: &JsCall) -> (r: Option<Transform>)
        ensures
            opt_transform_view(r) == call_transform(*call),
    {
        match &call.callee {
            Some(c) => match &**c {
                JsExpr::Member(m) => match &m.prop {
                    JsMemberProp::Ident(method) => {
                        let array_name = match &*m.obj {
                            JsExpr::Ident(a) => owned(a.as_str()),
                            _ => owned("array"),
                        };
                        if str_eq(method.as_str(), "push") {
                            if call.args.len() > 0 {
                                let a = &call.args[0];
                                let value = self.extract_arg_value(&a.expr);
                                if a.spread {
                                    Some(Transform::ArrayPushSpread { array_name, source_array: value })
                                } else {
                                    Some(Transform::ArrayPush { array_name, value })
                                }
                            } else {
                                None
                            }
                        } else if str_eq(method.as_str(), "join") {
                            let separator = if call.args.len() > 0 {
                                self.extract_string_literal(&call.args[0].expr)
                            } else {
                                owned(",")
                            };
                            Some(Transform::ArrayJoin { array_name, separator })
                        } else {
                            None
                        }
                    },
                    _ => None,
                },
                JsExpr::Ident(f) => {
                    let args = self.arg_name_list(&call.args);
                    Some(Transform::FunctionCall { name: owned(f.as_str()), args })
                },
                _ => None,
            },
            None => None,
        }
    }

    /// The transform an assignment stands for, if it sets plugin metadata.
    pub fn detect_assignment(&self, assign: &JsAssign) -> (r: Option<Transform>)
        ensures
            opt_transform_view(r) == assignment_transform(*assign),
    {
        match &assign.target {
            Some(member) => {
                let path = member_path_string(member);
                if contains_str(path.as_str(), "metadata") {
                    proof {
                        reveal_strlit(".");
                        lemma_split_pieces(path@, "."@);
                    }
                    let pieces = split_str(path.as_str(), ".");
                    let key = owned(pieces[pieces.len() - 1].as_str());
                    assert(key@ == pieces@.map_values(|x: String| x@).last());
                    Some(Transform::MetadataAssignment { key, value_expr: owned("value") })
                } else {
                    None
                }
            },
            None => None,
        }
    }

    /// The transform an expression of a logical chain stands for.
    pub fn expr_to_transform(&self, expr: &JsExpr) -> (r: Transform)
        ensures
            r@ == chain_transform(*expr),
    {
        match expr {
            JsExpr::Call(call) => match self.detect_function_call(call) {
                Some(t) => t,
                None => Transform::RawJs { code: owned("call()"), reason: owned("Unknown call expression") },
            },
            _ => Transform::RawJs {
                code: self.extract_expr_string(expr),
                reason: owned("Unsupported expression in logical chain"),
            },
        }
    }

    /// The hook a call invokes, if its callee is a name starting with `use`.
    pub fn extract_hook_name(&self, call: &JsCall) -> (r: Option<String>)
        ensures
            match r {
                Some(n) => hook_name(*call) == Some(n@),
                None => hook_name(*call) is None,
            },
    {
        match &call.callee {
            Some(c) => match &**c {
                JsExpr::Ident(name) => if starts_with(name.as_str(), "use") {
                    Some(owned(name.as_str()))
                } else {
                    None
                },
                _ => None,
            },
            None => None,
        }
    }

    /// The Rust for a Babel path.
    pub fn translate_path_to_rust(&self, js_path: &str) -> (r: String)
        ensures
            r@ == rust_path(js_path@),
    {
        if contains_str(js_path, "path.node.id.name") {
            owned("node.ident.sym")
        } else if contains_str(js_path, "path.node.params") {
            owned("node.params")
        } else if contains_str(js_path, "path.parent.type") {
            owned("parent_type")
        } else {
            replace_text(js_path, "path.node", "node")
        }
    }
}

// ===================== struct names =====================

/// The name part of a `name: value` field: what comes before the first colon,
/// trimmed.
pub open spec fn field_name(f: Seq<char>) -> Seq<char> {
    trim_ws(split_seq(f, ":"@)[0])
}

/// The name parts of a list of fields.
pub open spec fn field_names(fields: Seq<Seq<char>>) -> Seq<Seq<char>> {
    fields.map_values(|f: Seq<char>| field_name(f))
}

/// The snake-case names of a metadata struct's fields.
pub open spec fn struct_field_names(d: StructDef) -> Seq<Seq<char>> {
    d.fields@.map_values(|p: (String, FieldDef)| snake_case(p.0@))
}

/// How many of the names occur among the known ones.
pub open spec fn match_score(names: Seq<Seq<char>>, known: Seq<Seq<char>>) -> nat
    decreases names.len(),
{
    if names.len() == 0 {
        0
    } else {
        match_score(names.drop_last(), known) + if known.contains(names.last()) {
            1nat
        } else {
            0nat
        }
    }
}

/// Among the structs, the first with the highest positive score and that
/// score; no struct and 0 when none scores.
pub open spec fn best_struct(ss: Seq<(String, StructDef)>, names: Seq<Seq<char>>) -> (Option<Seq<char>>, nat)
    decreases ss.len(),
{
    if ss.len() == 0 {
        (None, 0)
    } else {
        let (b, sc) = best_struct(ss.drop_last(), names);
        let here = match_score(names, struct_field_names(ss.last().1));
        if here > sc {
            (Some(ss.last().0@), here)
        } else {
            (b, sc)
        }
    }
}

/// The metadata struct whose fields best match the given fields, if one
/// matches at all.
pub open spec fn metadata_struct(fields: Seq<Seq<char>>, m: Option<&PluginMetadata>) -> Option<Seq<char>> {
    match m {
        Some(meta) => best_struct(meta.structs@, field_names(fields)).0,
        None => None,
    }
}

/// A variable name lowercased, without underscores.
pub open spec fn normalized_name(v: Seq<char>) -> Seq<char> {
    replaced_text(str_lowercase(v), "_"@, ""@)
}

/// The struct that a conventional variable name stands for.
pub open spec fn known_struct(n: Seq<char>) -> Option<Seq<char>> {
    if n == "component"@ || n == "comp"@ {
        Some("Component"@)
    } else if n == "hook"@ || n == "hookinfo"@ {
        Some("Hook"@)
    } else if n == "prop"@ || n == "propdata"@ {
        Some("Prop"@)
    } else if n == "variable"@ || n == "varinfo"@ || n == "localvariable"@ {
        Some("Variable"@)
    } else if n == "helper"@ || n == "helperfunc"@ || n == "helperfunction"@ {
        Some("HelperFunc"@)
    } else if n == "element"@ || n == "jsxelement"@ || n == "jsx"@ {
        Some("JsxElement"@)
    } else {
        None
    }
}

/// Whether some field starts with `p`.
pub open spec fn some_field_starts(fields: Seq<Seq<char>>, p: Seq<char>) -> bool {
    exists|i: int| 0 <= i < fields.len() && p.is_prefix_of(#[trigger] fields[i])
}

/// The struct that telltale fields stand for.
pub open spec fn fields_struct(fields: Seq<Seq<char>>) -> Option<Seq<char>> {
    if some_field_starts(fields, "hook_type:"@) {
        Some("Hook"@)
    } else if some_field_starts(fields, "props:"@) || some_field_starts(fields, "hooks:"@) {
        Some("Component"@)
    } else if some_field_starts(fields, "has_initializer:"@) {
        Some("Variable"@)
    } else {
        None
    }
}

/// Whether neither the metadata, the variable's name nor its fields tell the
/// struct, so that the name itself, capitalised, is taken.
pub open spec fn struct_fallback(var_name: Seq<char>, fields: Seq<Seq<char>>, m: Option<&PluginMetadata>) -> bool {
    &&& metadata_struct(fields, m) is None
    &&& known_struct(normalized_name(var_name)) is None
    &&& fields_struct(fields) is None
}

/// Whether a name starts with a one-byte (ASCII) character.
pub open spec fn ascii_start(v: Seq<char>) -> bool {
    v.len() > 0 && (v[0] as u32) < 128
}

/// The struct a variable initialised with an object literal holds: the best
/// matching metadata struct; else one its name or its fields stand for; else
/// the name with its first letter in upper case.
pub open spec fn inferred_struct(var_name: Seq<char>, fields: Seq<Seq<char>>, m: Option<&PluginMetadata>) -> Seq<char> {
    match metadata_struct(fields, m) {
        Some(n) => n,
        None => match known_struct(normalized_name(var_name)) {
            Some(n) => n,
            None => match fields_struct(fields) {
                Some(n) => n,
                None => char_uppercase(var_name[0]) + var_name.subrange(1, var_name.len() as int),
            },
        },
    }
}

/// The name parts of the fields.
fn field_name_list(fields: &Vec<String>) -> (r: Vec<String>)
    ensures
        strings_view(r@) == field_names(strings_view(fields@)),
{
    let mut names: Vec<String> = Vec::new();
    let mut i: usize = 0;
    proof {
        reveal_strlit(":");
    }
    while i < fields.len()
        invariant
            i <= fields@.len(),
            ":"@.len() == 1,
            strings_view(names@) == field_names(strings_view(fields@.subrange(0, i as int))),
        decreases fields@.len() - i,
    {
        let pieces = split_str(fields[i].as_str(), ":");
        proof {
            lemma_split_pieces(fields@[i as int]@, ":"@);
        }
        let name = owned(trim(pieces[0].as_str()));
        assert(pieces@.map_values(|x: String| x@)[0] == pieces@[0]@);
        proof {
            lemma_strings_view_push(names@, name);
        }
        names.push(name);
        i = i + 1;
        assert(strings_view(names@) =~= field_names(strings_view(fields@.subrange(0, i as int))));
    }
    assert(fields@.subrange(0, i as int) =~= fields@);
    names
}

/// The snake-case names of a metadata struct's fields.
fn struct_field_name_list(d: &StructDef) -> (r: Vec<String>)
    ensures
        strings_view(r@) == struct_field_names(*d),
{
    let mut names: Vec<String> = Vec::new();
    let mut i: usize = 0;
    while i < d.fields.len()
        invariant
            i <= d.fields@.len(),
            strings_view(names@) == struct_field_names(*d).subrange(0, i as int),
        decreases d.fields@.len() - i,
    {
        let name = to_snake_case(d.fields[i].0.as_str());
        proof {
            lemma_strings_view_push(names@, name);
        }
        names.push(name);
        i = i + 1;
        assert(strings_view(names@) =~= struct_field_names(*d).subrange(0, i as int));
    }
    assert(struct_field_names(*d).subrange(0, i as int) =~= struct_field_names(*d));
    names
}

/// Whether `x` is among the strings.
fn contains_string(xs: &Vec<String>, x: &str) -> (r: bool)
    ensures
        r == strings_view(xs@).contains(x@),
{
    let mut i: usize = 0;
    while i < xs.len()
        invariant
            i <= xs@.len(),
            forall|j: int| 0 <= j < i ==> xs@[j]@ != x@,
        decreases xs@.len() - i,
    {
        if str_eq(xs[i].as_str(), x) {
            assert(strings_view(xs@)[i as int] == x@);
            return true;
        }
        i = i + 1;
    }
    assert(!strings_view(xs@).contains(x@)) by {
        if strings_view(xs@).contains(x@) {
            let j = choose|j: int| 0 <= j < strings_view(xs@).len() && strings_view(xs@)[j] == x@;
            assert(xs@[j]@ == x@);
        }
    }
    false
}

/// How many of the names occur among the known ones.
fn score(names: &Vec<String>, known: &Vec<String>) -> (r: usize)
    ensures
        r == match_score(strings_view(names@), strings_view(known@)),
{
    let mut n: usize = 0;
    let mut i: usize = 0;
    while i < names.len()
        invariant
            i <= names@.len(),
            n <= i,
            n == match_score(strings_view(names@).subrange(0, i as int), strings_view(known@)),
        decreases names@.len() - i,
    {
        assert(strings_view(names@).subrange(0, i + 1).drop_last() =~= strings_view(names@).subrange(0, i as int));
        if contains_string(known, names[i].as_str()) {
            n = n + 1;
        }
        i = i + 1;
    }
    assert(strings_view(names@).subrange(0, i as int) =~= strings_view(names@));
    n
}

/// Whether some field starts with `p`.
fn some_starts(fields: &Vec<String>, p: &str) -> (r: bool)
    ensures
        r == some_field_starts(strings_view(fields@), p@),
{
    let mut i: usize = 0;
    while i < fields.len()
        invariant
            i <= fields@.len(),
            forall|j: int| 0 <= j < i ==> !p@.is_prefix_of(#[trigger] strings_view(fields@)[j]),
        decreases fields@.len() - i,
    {
        if starts_with(fields[i].as_str(), p) {
            assert(p@.is_prefix_of(strings_view(fields@)[i as int]));
            return true;
        }
        i = i + 1;
    }
    false
}

impl<'a> VisitorBodyAnalyzer<'a> {
    /// The metadata struct whose fields best match the given fields, if one
    /// matches at all.
    fn metadata_struct_name(&self, fields: &Vec<String>) -> (r: Option<String>)
        ensures
            opt_string_view(r) == metadata_struct(strings_view(fields@), self.metadata),
    {
        if let Some(meta) = self.metadata {
            let names = field_name_list(fields);
            let mut best: Option<usize> = None;
            let mut best_score: usize = 0;
            let mut i: usize = 0;
            while i < meta.structs.len()
                invariant
                    i <= meta.structs@.len(),
                    strings_view(names@) == field_names(strings_view(fields@)),
                    best_score == best_struct(meta.structs@.subrange(0, i as int), strings_view(names@)).1,
                    match best {
                        Some(k) => k < i && best_struct(meta.structs@.subrange(0, i as int), strings_view(names@)).0
                            == Some(meta.structs@[k as int].0@),
                        None => best_struct(meta.structs@.subrange(0, i as int), strings_view(names@)).0 is None,
                    },
                decreases meta.structs@.len() - i,
            {
                assert(meta.structs@.subrange(0, i + 1).drop_last() =~= meta.structs@.subrange(0, i as int));
                let known = struct_field_name_list(&meta.structs[i].1);
                let here = score(&names, &known);
                if here > best_score {
                    best_score = here;
                    best = Some(i);
                }
                i = i + 1;
            }
            assert(meta.structs@.subrange(0, i as int) =~= meta.structs@);
            match best {
                Some(k) => Some(owned(meta.structs[k].0.as_str())),
                None => None,
            }
        } else {
            None
        }
    }

    /// Whether neither the metadata, the variable's name nor its fields tell
    /// the struct.
    fn needs_fallback(&self, var_name: &str, fields: &Vec<String>) -> (r: bool)
        ensures
            r == struct_fallback(var_name@, strings_view(fields@), self.metadata),
    {
        if self.metadata_struct_name(fields).is_some() {
            return false;
        }
        let lower = to_lowercase(var_name);
        let normalized = replace_text(lower.as_str(), "_", "");
        let n = normalized.as_str();
        let known = str_eq(n, "component") || str_eq(n, "comp") || str_eq(n, "hook") || str_eq(n, "hookinfo")
            || str_eq(n, "prop") || str_eq(n, "propdata") || str_eq(n, "variable") || str_eq(n, "varinfo")
            || str_eq(n, "localvariable") || str_eq(n, "helper") || str_eq(n, "helperfunc") || str_eq(
            n,
            "helperfunction",
        ) || str_eq(n, "element") || str_eq(n, "jsxelement") || str_eq(n, "jsx");
        if known {
            return false;
        }
        !(some_starts(fields, "hook_type:") || some_starts(fields, "props:") || some_starts(fields, "hooks:")
            || some_starts(fields, "has_initializer:"))
    }

    /// Whether an initial value can be translated in the context `var_name`.
    fn init_translatable(&self, e: &JsExpr, var_name: &str) -> (r: bool)
        ensures
            r == init_ok(*e, var_name@, self.metadata),
        decreases e, 3nat,
    {
        match e {
            JsExpr::Object(props) => {
                if !self.props_translatable(props) {
                    return false;
                }
                let fields = self.object_field_list(props);
                if fields.len() > 0 && self.needs_fallback(var_name, &fields) {
                    var_name.unicode_len() > 0 && (var_name.get_char(0) as u32) < 128
                } else {
                    true
                }
            },
            JsExpr::Array(elems) => self.elems_translatable(elems),
            _ => true,
        }
    }

    /// Whether each key-value property's value can be translated.
    fn props_translatable(&self, props: &Vec<JsProp>) -> (r: bool)
        ensures
            r == props_ok(props@, self.metadata),
        decreases props, 2nat,
    {
        let mut i: usize = 0;
        while i < props.len()
            invariant
                i <= props@.len(),
                props_ok(props@.subrange(0, i as int), self.metadata),
            decreases props@.len() - i,
        {
            proof {
                assert(props@.subrange(0, i + 1).drop_last() =~= props@.subrange(0, i as int));
            }
            if let JsProp::KeyValue(k, v) = &props[i] {
                let key = self.field_key_string(k);
                if !self.init_translatable(v, key.as_str()) {
                    proof {
                        lemma_props_ok_prefix_back(props@, i as int + 1, self.metadata);
                    }
                    return false;
                }
            }
            i = i + 1;
        }
        assert(props@.subrange(0, i as int) =~= props@);
        true
    }

    /// Whether each element of an array literal can be translated.
    fn elems_translatable(&self, elems: &Vec<Option<JsArg>>) -> (r: bool)
        ensures
            r == elems_ok(elems@, self.metadata),
        decreases elems, 2nat,
    {
        let mut i: usize = 0;
        while i < elems.len()
            invariant
                i <= elems@.len(),
                elems_ok(elems@.subrange(0, i as int), self.metadata),
            decreases elems@.len() - i,
        {
            proof {
                assert(elems@.subrange(0, i + 1).drop_last() =~= elems@.subrange(0, i as int));
            }
            if let Some(a) = &elems[i] {
                if !self.init_translatable(&a.expr, "value") {
                    proof {
                        lemma_elems_ok_prefix_back(elems@, i as int + 1, self.metadata);
                    }
                    return false;
                }
            }
            i = i + 1;
        }
        assert(elems@.subrange(0, i as int) =~= elems@);
        true
    }

    /// Whether a declarator's initial value can be translated in the context
    /// its pattern gives, as recording its transforms asks.
    pub fn declarator_translatable(&self, decl: &JsVarDeclarator) -> (r: bool)
        ensures
            r == declarator_ok(*decl, self.metadata),
    {
        let var_name = match &decl.name {
            JsPat::Ident(v) => v.as_str(),
            JsPat::Object(_) => "value",
            _ => return true,
        };
        match &decl.init {
            Some(e) => self.init_translatable(e, var_name),
            None => true,
        }
    }
}

/// The view of an optional string.
pub open spec fn opt_string_view(o: Option<String>) -> Option<Seq<char>> {
    match o {
        Some(s) => Some(s@),
        None => None,
    }
}

/// When the `n`-th property cannot be translated, neither can all of them.
proof fn lemma_props_ok_prefix_back(props: Seq<JsProp>, n: int, m: Option<&PluginMetadata>)
    requires
        1 <= n <= props.len(),
        !match props[n - 1] {
            JsProp::KeyValue(k, v) => init_ok(v, field_key(k, m), m),
            _ => true,
        },
    ensures
        !props_ok(props, m),
{
    if props_ok(props, m) {
        lemma_props_ok_prefix(props, n, m);
    }
}

/// When the `n`-th element cannot be translated, neither can all of them.
proof fn lemma_elems_ok_prefix_back(elems: Seq<Option<JsArg>>, n: int, m: Option<&PluginMetadata>)
    requires
        1 <= n <= elems.len(),
        !match elems[n - 1] {
            Some(a) => init_ok(a.expr, "value"@, m),
            None => true,
        },
    ensures
        !elems_ok(elems, m),
{
    if elems_ok(elems, m) {
        lemma_elems_ok_prefix(elems, n, m);
    }
}

impl<'a> VisitorBodyAnalyzer<'a> {
    /// The struct a variable initialised with an object literal holds, from
    /// its fields written `name: value`.
    pub fn infer_struct_name(&self, var_name: &str, fields: &Vec<String>) -> (r: String)
        requires
            struct_fallback(var_name@, strings_view(fields@), self.metadata) ==> ascii_start(var_name@),
        ensures
            r@ == inferred_struct(var_name@, strings_view(fields@), self.metadata),
    {
        if let Some(name) = self.metadata_struct_name(fields) {
            return name;
        }
        let lower = to_lowercase(var_name);
        let normalized = replace_text(lower.as_str(), "_", "");
        let n = normalized.as_str();
        if str_eq(n, "component") || str_eq(n, "comp") {
            owned("Component")
        } else if str_eq(n, "hook") || str_eq(n, "hookinfo") {
            owned("Hook")
        } else if str_eq(n, "prop") || str_eq(n, "propdata") {
            owned("Prop")
        } else if str_eq(n, "variable") || str_eq(n, "varinfo") || str_eq(n, "localvariable") {
            owned("Variable")
        } else if str_eq(n, "helper") || str_eq(n, "helperfunc") || str_eq(n, "helperfunction") {
            owned("HelperFunc")
        } else if str_eq(n, "element") || str_eq(n, "jsxelement") || str_eq(n, "jsx") {
            owned("JsxElement")
        } else if some_starts(fields, "hook_type:") {
            owned("Hook")
        } else if some_starts(fields, "props:") || some_starts(fields, "hooks:") {
            owned("Component")
        } else if some_starts(fields, "has_initializer:") {
            owned("Variable")
        } else {
            let first = uppercase_string(var_name.get_char(0));
            let rest = var_name.substring_char(1, var_name.unicode_len());
            joined(first.as_str(), rest)
        }
    }
}

// ===================== initial values =====================

/// The text for an expression that the translation does not handle.
pub open spec fn unsupported_text() -> Seq<char> {
    "/* TODO: unsupported expr type swc_ecma_ast::expr::Expr */Default::default()"@
}

/// The Rust name of an object key: a name or string converted as an
/// identifier, anything else `unknown`.
pub open spec fn key_text(k: JsPropName, m: Option<&PluginMetadata>) -> Seq<char> {
    match k {
        JsPropName::Ident(id) => converted_identifier(m, id@),
        JsPropName::Str(v) => converted_identifier(m, v@),
        JsPropName::Other => "unknown"@,
    }
}

/// The Rust field for an object key; `type` becomes `hook_type`.
pub open spec fn field_key(k: JsPropName, m: Option<&PluginMetadata>) -> Seq<char> {
    if key_text(k, m) == "type"@ {
        "hook_type"@
    } else {
        key_text(k, m)
    }
}

/// The Rust call for a recognised function call: the converted name, with
/// each argument converted and borrowed.
pub open spec fn call_init_text(name: Seq<char>, args: Seq<Seq<char>>, m: Option<&PluginMetadata>) -> Seq<char> {
    let rust_name = converted_identifier(m, name);
    if args.len() == 0 {
        rust_name + "()"@
    } else {
        rust_name + "("@ + join_seq(args.map_values(|a: Seq<char>| "&"@ + converted_identifier(m, a)), ", "@) + ")"@
    }
}

/// The fields among `fields` whose names are among `known`.
pub open spec fn kept_fields(fields: Seq<Seq<char>>, known: Seq<Seq<char>>) -> Seq<Seq<char>>
    decreases fields.len(),
{
    if fields.len() == 0 {
        Seq::empty()
    } else {
        let rest = kept_fields(fields.drop_last(), known);
        if known.contains(field_name(fields.last())) {
            rest.push(fields.last())
        } else {
            rest
        }
    }
}

/// The fields that the chosen struct declares in the metadata; all of them
/// when there is no metadata or it does not declare the struct.
pub open spec fn filtered_fields(fields: Seq<Seq<char>>, struct_name: Seq<char>, m: Option<&PluginMetadata>) -> Seq<
    Seq<char>,
> {
    match m {
        Some(meta) => match value_for(meta.structs@, struct_name) {
            Some(d) => kept_fields(fields, struct_field_names(d)),
            None => fields,
        },
        None => fields,
    }
}

/// The Rust for the initial value of a variable named `var_name`: member
/// paths as paths, recognised calls as Rust calls, literals as values, names
/// converted, object literals as struct literals of the inferred struct,
/// array literals as `vec![..]`; operators and anything else as placeholders.
pub open spec fn init_text(e: JsExpr, var_name: Seq<char>, m: Option<&PluginMetadata>) -> Seq<char>
    decreases e, 3int,
{
    match e {
        JsExpr::Member(mm) => member_path(mm),
        JsExpr::Call(call) => match call_transform(call) {
            Some(TransformV::FunctionCall { name, args }) => call_init_text(name, args, m),
            _ => "call()"@,
        },
        JsExpr::Lit(JsLit::Str(v)) => quoted(v@),
        JsExpr::Lit(JsLit::Num(t)) => t@,
        JsExpr::Lit(JsLit::Bool(b)) => bool_text(b),
        JsExpr::Ident(id) => converted_identifier(m, id@),
        JsExpr::Object(props) => {
            let fields = object_fields(props@, m);
            if fields.len() == 0 {
                "Default::default()"@
            } else {
                let struct_name = inferred_struct(var_name, fields, m);
                let kept = filtered_fields(fields, struct_name, m);
                if kept.len() == 0 {
                    struct_name + "::default()"@
                } else {
                    struct_name + " { "@ + join_seq(kept, ", "@) + " }"@
                }
            }
        },
        JsExpr::Array(elems) => if elems@.len() == 0 {
            "vec![]"@
        } else {
            "vec!["@ + join_seq(elem_texts(elems@, m), ", "@) + "]"@
        },
        JsExpr::Bin { .. } => "/* TODO: binary expression */false"@,
        JsExpr::Unary { .. } => "/* TODO: unary expression */false"@,
        JsExpr::Cond(_) => "/* TODO: conditional expression */Default::default()"@,
        _ => unsupported_text(),
    }
}

/// The `key: value` fields of an object literal's key-value properties.
pub open spec fn object_fields(props: Seq<JsProp>, m: Option<&PluginMetadata>) -> Seq<Seq<char>>
    decreases props, 2int,
{
    if props.len() == 0 {
        Seq::empty()
    } else {
        let rest = object_fields(props.drop_last(), m);
        match props.last() {
            JsProp::KeyValue(k, v) => rest.push(field_key(k, m) + ": "@ + init_text(v, field_key(k, m), m)),
            _ => rest,
        }
    }
}

/// The values of an array literal's elements, holes left out.
pub open spec fn elem_texts(elems: Seq<Option<JsArg>>, m: Option<&PluginMetadata>) -> Seq<Seq<char>>
    decreases elems, 2int,
{
    if elems.len() == 0 {
        Seq::empty()
    } else {
        let rest = elem_texts(elems.drop_last(), m);
        match elems.last() {
            Some(a) => rest.push(init_text(a.expr, "value"@, m)),
            None => rest,
        }
    }
}

/// Whether translating an initial value stays clear of a name whose first
/// character is more than one byte where it would be capitalised.
pub open spec fn init_ok(e: JsExpr, var_name: Seq<char>, m: Option<&PluginMetadata>) -> bool
    decreases e, 3int,
{
    match e {
        JsExpr::Object(props) => props_ok(props@, m) && (object_fields(props@, m).len() > 0 && struct_fallback(
            var_name,
            object_fields(props@, m),
            m,
        ) ==> ascii_start(var_name)),
        JsExpr::Array(elems) => elems_ok(elems@, m),
        _ => true,
    }
}

/// Whether each key-value property's value can be translated.
pub open spec fn props_ok(props: Seq<JsProp>, m: Option<&PluginMetadata>) -> bool
    decreases props, 2int,
{
    props.len() == 0 || (props_ok(props.drop_last(), m) && match props.last() {
        JsProp::KeyValue(k, v) => init_ok(v, field_key(k, m), m),
        _ => true,
    })
}

/// Whether each element of an array literal can be translated.
pub open spec fn elems_ok(elems: Seq<Option<JsArg>>, m: Option<&PluginMetadata>) -> bool
    decreases elems, 2int,
{
    elems.len() == 0 || (elems_ok(elems.drop_last(), m) && match elems.last() {
        Some(a) => init_ok(a.expr, "value"@, m),
        None => true,
    })
}

/// The Rust for an optional initial value; none is `undefined`.
pub open spec fn opt_init_text(init: Option<Box<JsExpr>>, var_name: Seq<char>, m: Option<&PluginMetadata>) -> Seq<char> {
    match init {
        Some(e) => init_text(*e, var_name, m),
        None => "undefined"@,
    }
}

/// Whether an optional initial value can be translated.
pub open spec fn opt_init_ok(init: Option<Box<JsExpr>>, var_name: Seq<char>, m: Option<&PluginMetadata>) -> bool {
    match init {
        Some(e) => init_ok(*e, var_name, m),
        None => true,
    }
}

impl<'a> VisitorBodyAnalyzer<'a> {
    /// The Rust for an initial value in the default context `value`.
    pub fn extract_init_value(&self, init: &Option<Box<JsExpr>>) -> (r: String)
        requires
            opt_init_ok(*init, "value"@, self.metadata),
        ensures
            r@ == opt_init_text(*init, "value"@, self.metadata),
    {
        self.extract_init_value_with_context(init, "value")
    }

    /// The Rust for the initial value of the variable `var_name`.
    pub fn extract_init_value_with_context(&self, init: &Option<Box<JsExpr>>, var_name: &str) -> (r: String)
        requires
            opt_init_ok(*init, var_name@, self.metadata),
        ensures
            r@ == opt_init_text(*init, var_name@, self.metadata),
    {
        match init {
            Some(e) => self.init_value_string(e, var_name),
            None => owned("undefined"),
        }
    }

    fn call_init_string(&self, name: &str, args: &Vec<String>) -> (r: String)
        ensures
            r@ == call_init_text(name@, strings_view(args@), self.metadata),
    {
        let rust_name = convert_identifier(name, self.metadata);
        if args.len() == 0 {
            joined(rust_name.as_str(), "()")
        } else {
            let ghost m = self.metadata;
            let mut rust_args: Vec<String> = Vec::new();
            let mut i: usize = 0;
            while i < args.len()
                invariant
                    m == self.metadata,
                    i <= args@.len(),
                    strings_view(rust_args@) == strings_view(args@).subrange(0, i as int).map_values(
                        |a: Seq<char>| "&"@ + converted_identifier(m, a),
                    ),
                decreases args@.len() - i,
            {
                let translated = convert_identifier(args[i].as_str(), self.metadata);
                let borrowed = joined("&", translated.as_str());
                proof {
                    lemma_strings_view_push(rust_args@, borrowed);
                }
                rust_args.push(borrowed);
                i = i + 1;
                assert(strings_view(rust_args@) =~= strings_view(args@).subrange(0, i as int).map_values(
                    |a: Seq<char>| "&"@ + converted_identifier(m, a),
                ));
            }
            assert(strings_view(args@).subrange(0, i as int) =~= strings_view(args@));
            let joined_args = join_strs(&rust_args, ", ");
            let head = joined3(rust_name.as_str(), "(", joined_args.as_str());
            joined(head.as_str(), ")")
        }
    }

    fn init_value_string(&self, e: &JsExpr, var_name: &str) -> (r: String)
        requires
            init_ok(*e, var_name@, self.metadata),
        ensures
            r@ == init_text(*e, var_name@, self.metadata),
        decreases e, 3nat,
    {
        match e {
            JsExpr::Member(mm) => member_path_string(mm),
            JsExpr::Call(call) => match self.detect_function_call(call) {
                Some(Transform::FunctionCall { name, args }) => self.call_init_string(name.as_str(), &args),
                _ => owned("call()"),
            },
            JsExpr::Lit(JsLit::Str(v)) => joined3("\"", v.as_str(), "\""),
            JsExpr::Lit(JsLit::Num(t)) => owned(t.as_str()),
            JsExpr::Lit(JsLit::Bool(b)) => bool_string(*b),
            JsExpr::Ident(id) => convert_identifier(id.as_str(), self.metadata),
            JsExpr::Object(props) => {
                let fields = self.object_field_list(props);
                if fields.len() == 0 {
                    owned("Default::default()")
                } else {
                    let struct_name = self.infer_struct_name(var_name, &fields);
                    let kept = self.filter_fields(fields, struct_name.as_str());
                    if kept.len() == 0 {
                        joined(struct_name.as_str(), "::default()")
                    } else {
                        let body = join_strs(&kept, ", ");
                        let head = joined3(struct_name.as_str(), " { ", body.as_str());
                        joined(head.as_str(), " }")
                    }
                }
            },
            JsExpr::Array(elems) => if elems.len() == 0 {
                owned("vec![]")
            } else {
                let texts = self.elem_list(elems);
                let body = join_strs(&texts, ", ");
                joined3("vec![", body.as_str(), "]")
            },
            JsExpr::Bin { .. } => owned("/* TODO: binary expression */false"),
            JsExpr::Unary { .. } => owned("/* TODO: unary expression */false"),
            JsExpr::Cond(_) => owned("/* TODO: conditional expression */Default::default()"),
            _ => owned("/* TODO: unsupported expr type swc_ecma_ast::expr::Expr */Default::default()"),
        }
    }

    /// The `key: value` fields of an object literal.
    fn object_field_list(&self, props: &Vec<JsProp>) -> (r: Vec<String>)
        requires
            props_ok(props@, self.metadata),
        ensures
            strings_view(r@) == object_fields(props@, self.metadata),
        decreases props, 2nat,
    {
        let mut fields: Vec<String> = Vec::new();
        let mut i: usize = 0;
        while i < props.len()
            invariant
                i <= props@.len(),
                props_ok(props@, self.metadata),
                strings_view(fields@) == object_fields(props@.subrange(0, i as int), self.metadata),
            decreases props@.len() - i,
        {
            proof {
                assert(props@.subrange(0, i + 1).drop_last() =~= props@.subrange(0, i as int));
                lemma_props_ok_prefix(props@, i as int + 1, self.metadata);
            }
            match &props[i] {
                JsProp::KeyValue(k, v) => {
                    let key = self.field_key_string(k);
                    let value = self.init_value_string(v, key.as_str());
                    let field = joined3(key.as_str(), ": ", value.as_str());
                    proof {
                        lemma_strings_view_push(fields@, field);
                    }
                    fields.push(field);
                },
                _ => {},
            }
            i = i + 1;
        }
        assert(props@.subrange(0, i as int) =~= props@);
        fields
    }

    /// The Rust field name for an object key.
    fn field_key_string(&self, k: &JsPropName) -> (r: String)
        ensures
            r@ == field_key(*k, self.metadata),
    {
        let key = match k {
            JsPropName::Ident(id) => convert_identifier(id.as_str(), self.metadata),
            JsPropName::Str(v) => convert_identifier(v.as_str(), self.metadata),
            JsPropName::Other => owned("unknown"),
        };
        if str_eq(key.as_str(), "type") {
            owned("hook_type")
        } else {
            key
        }
    }

    /// The values of an array literal's elements.
    fn elem_list(&self, elems: &Vec<Option<JsArg>>) -> (r: Vec<String>)
        requires
            elems_ok(elems@, self.metadata),
        ensures
            strings_view(r@) == elem_texts(elems@, self.metadata),
        decreases elems, 2nat,
    {
        let mut texts: Vec<String> = Vec::new();
        let mut i: usize = 0;
        while i < elems.len()
            invariant
                i <= elems@.len(),
                elems_ok(elems@, self.metadata),
                strings_view(texts@) == elem_texts(elems@.subrange(0, i as int), self.metadata),
            decreases elems@.len() - i,
        {
            proof {
                assert(elems@.subrange(0, i + 1).drop_last() =~= elems@.subrange(0, i as int));
                lemma_elems_ok_prefix(elems@, i as int + 1, self.metadata);
            }
            match &elems[i] {
                Some(a) => {
                    let t = self.init_value_string(&a.expr, "value");
                    proof {
                        lemma_strings_view_push(texts@, t);
                    }
                    texts.push(t);
                },
                None => {},
            }
            i = i + 1;
        }
        assert(elems@.subrange(0, i as int) =~= elems@);
        texts
    }

    /// The fields that the chosen struct declares in the metadata.
    fn filter_fields(&self, fields: Vec<String>, struct_name: &str) -> (r: Vec<String>)
        ensures
            strings_view(r@) == filtered_fields(strings_view(fields@), struct_name@, self.metadata),
    {
        match self.metadata {
            Some(meta) => match meta.get_struct(struct_name) {
                Some(d) => {
                    let known = struct_field_name_list(d);
                    let names = field_name_list(&fields);
                    assert(strings_view(names@).len() == names@.len());
                    assert(field_names(strings_view(fields@)).len() == fields@.len());
                    let mut kept: Vec<String> = Vec::new();
                    let mut i: usize = 0;
                    while i < fields.len()
                        invariant
                            i <= fields@.len(),
                            names@.len() == fields@.len(),
                            strings_view(names@) == field_names(strings_view(fields@)),
                            strings_view(kept@) == kept_fields(
                                strings_view(fields@).subrange(0, i as int),
                                strings_view(known@),
                            ),
                        decreases fields@.len() - i,
                    {
                        proof {
                            assert(strings_view(fields@).subrange(0, i + 1).drop_last() =~= strings_view(
                                fields@,
                            ).subrange(0, i as int));
                            assert(strings_view(names@)[i as int] == field_name(strings_view(fields@)[i as int]));
                        }
                        if contains_string(&known, names[i].as_str()) {
                            let f = owned(fields[i].as_str());
                            proof {
                                lemma_strings_view_push(kept@, f);
                            }
                            kept.push(f);
                        }
                        i = i + 1;
                    }
                    assert(strings_view(fields@).subrange(0, i as int) =~= strings_view(fields@));
                    kept
                },
                None => fields,
            },
            None => fields,
        }
    }
}

/// Translating the first `n` properties is possible when translating all is.
pub proof fn lemma_props_ok_prefix(props: Seq<JsProp>, n: int, m: Option<&PluginMetadata>)
    requires
        props_ok(props, m),
        0 <= n <= props.len(),
    ensures
        props_ok(props.subrange(0, n), m),
        n > 0 ==> match props[n - 1] {
            JsProp::KeyValue(k, v) => init_ok(v, field_key(k, m), m),
            _ => true,
        },
    decreases props.len() - n,
{
    if n < props.len() {
        assert(props.drop_last() =~= props.subrange(0, props.len() - 1));
        lemma_props_ok_prefix(props.drop_last(), n, m);
        assert(props.drop_last().subrange(0, n) =~= props.subrange(0, n));
    } else {
        assert(props.subrange(0, n) =~= props);
    }
}

/// Translating the first `n` elements is possible when translating all is.
pub proof fn lemma_elems_ok_prefix(elems: Seq<Option<JsArg>>, n: int, m: Option<&PluginMetadata>)
    requires
        elems_ok(elems, m),
        0 <= n <= elems.len(),
    ensures
        elems_ok(elems.subrange(0, n), m),
        n > 0 ==> match elems[n - 1] {
            Some(a) => init_ok(a.expr, "value"@, m),
            None => true,
        },
    decreases elems.len() - n,
{
    if n < elems.len() {
        lemma_elems_ok_prefix(elems.drop_last(), n, m);
        assert(elems.drop_last().subrange(0, n) =~= elems.subrange(0, n));
    } else {
        assert(elems.subrange(0, n) =~= elems);
    }
}

// ===================== the transforms of statements =====================

/// The views of a list of transforms, after one more transform.
pub proof fn lemma_transforms_view_push(s: Seq<Transform>, t: Transform)
    ensures
        transforms_view(s.push(t)) == transforms_view(s).push(t@),
{
    assert(s.push(t).drop_last() =~= s);
}

/// The name of the `i`-th element of an array pattern, when it is a plain
/// name.
pub open spec fn pat_ident_at(elems: Seq<Option<JsPat>>, i: int) -> Option<Seq<char>> {
    if 0 <= i < elems.len() {
        match elems[i] {
            Some(JsPat::Ident(id)) => Some(id@),
            _ => None,
        }
    } else {
        None
    }
}

/// The variables an object pattern destructures out of `source`: `key: name`
/// and shorthand properties bind a name to `source.key`; others bind none.
pub open spec fn object_pat_transforms(props: Seq<JsObjectPatProp>, source: Seq<char>) -> Seq<TransformV>
    decreases props.len(),
{
    if props.len() == 0 {
        Seq::empty()
    } else {
        let rest = object_pat_transforms(props.drop_last(), source);
        match props.last() {
            JsObjectPatProp::KeyValue(JsPropName::Ident(k), v) => match *v {
                JsPat::Ident(name) => rest.push(
                    TransformV::VariableDeclaration { name: name@, value: source + "."@ + k@, is_destructured: true },
                ),
                _ => rest,
            },
            JsObjectPatProp::Assign(k) => rest.push(
                TransformV::VariableDeclaration { name: k@, value: source + "."@ + k@, is_destructured: true },
            ),
            _ => rest,
        }
    }
}

/// The transforms one declarator stands for: a named variable with its
/// value; the variables an object pattern destructures; a hook's state and
/// setter out of an array pattern bound to a hook call; for another
/// pattern, raw JavaScript.
pub open spec fn declarator_transforms(d: JsVarDeclarator, m: Option<&PluginMetadata>) -> Seq<TransformV> {
    match d.name {
        JsPat::Ident(v) => seq![
            TransformV::VariableDeclaration {
                name: v@,
                value: opt_init_text(d.init, v@, m),
                is_destructured: false,
            },
        ],
        JsPat::Object(props) => object_pat_transforms(props@, opt_init_text(d.init, "value"@, m)),
        JsPat::Array(elems) => match d.init {
            Some(e) => match *e {
                JsExpr::Call(call) => match hook_name(call) {
                    Some(h) => seq![
                        TransformV::HookCapture {
                            hook_type: h,
                            state_name: match pat_ident_at(elems@, 0) {
                                Some(n) => n,
                                None => "state"@,
                            },
                            setter_name: pat_ident_at(elems@, 1),
                            args: arg_names(call.args@),
                        },
                    ],
                    None => Seq::empty(),
                },
                _ => Seq::empty(),
            },
            None => Seq::empty(),
        },
        JsPat::Other => seq![
            TransformV::RawJs { code: "let unknown = value;"@, reason: "Unknown destructuring pattern"@ },
        ],
    }
}

/// The transforms of a variable declaration, declarator by declarator.
pub open spec fn declaration_transforms(ds: Seq<JsVarDeclarator>, m: Option<&PluginMetadata>) -> Seq<TransformV>
    decreases ds.len(),
{
    if ds.len() == 0 {
        Seq::empty()
    } else {
        declaration_transforms(ds.drop_last(), m) + declarator_transforms(ds.last(), m)
    }
}

/// Whether a declarator's initial value can be translated in the context
/// its pattern gives.
pub open spec fn declarator_ok(d: JsVarDeclarator, m: Option<&PluginMetadata>) -> bool {
    match d.name {
        JsPat::Ident(v) => opt_init_ok(d.init, v@, m),
        JsPat::Object(_) => opt_init_ok(d.init, "value"@, m),
        _ => true,
    }
}

/// The transform an expression statement stands for: a metadata assignment
/// or a recognised call.
pub open spec fn expr_stmt_transform(e: JsExpr) -> Option<TransformV> {
    match e {
        JsExpr::Assign(a) => assignment_transform(a),
        JsExpr::Call(call) => call_transform(call),
        _ => None,
    }
}

/// The loop variable of a `for (.. of ..)` head: a declared or bound name,
/// else `item`.
pub open spec fn iterator_text(left: JsForHead) -> Seq<char> {
    match left {
        JsForHead::VarDecl(ds) => if ds@.len() > 0 {
            match ds@[0].name {
                JsPat::Ident(id) => id@,
                _ => "item"@,
            }
        } else {
            "item"@
        },
        JsForHead::Pat(p) => match *p {
            JsPat::Ident(id) => id@,
            _ => "item"@,
        },
        JsForHead::Other => "item"@,
    }
}

/// What a `for (.. of ..)` loop iterates over: a name or member path, else
/// `iterable`.
pub open spec fn iterable_text(right: JsExpr) -> Seq<char> {
    match right {
        JsExpr::Ident(id) => id@,
        JsExpr::Member(m) => member_path(m),
        _ => "iterable"@,
    }
}

/// The type check a call `t.isX(node)` stands for, with its Rust pattern.
pub open spec fn type_check_transform(call: JsCall) -> Option<TransformV> {
    match call.callee {
        Some(c) => match *c {
            JsExpr::Member(mm) => match (*mm.obj, mm.prop) {
                (JsExpr::Ident(obj), JsMemberProp::Ident(method)) => if obj@ == "t"@ && "is"@.is_prefix_of(method@) {
                    let target = if call.args@.len() > 0 {
                        arg_name_text(call.args@[0].expr)
                    } else {
                        "node"@
                    };
                    Some(
                        TransformV::TypeCheck {
                            check_type: method@,
                            target,
                            rust_pattern: type_check_code(method@, target),
                        },
                    )
                } else {
                    None
                },
                _ => None,
            },
            _ => None,
        },
        None => None,
    }
}

/// The texts of the expressions, each as [`expr_text`] writes it.
pub open spec fn expr_texts(es: Seq<JsExpr>) -> Seq<Seq<char>> {
    es.map_values(|e: JsExpr| expr_text(e))
}

impl<'a> VisitorBodyAnalyzer<'a> {
    /// Record what an expression statement stands for. (Walking into the
    /// statement's parts is the walker's.)
    pub fn visit_expr_stmt(&mut self, expr: &JsExpr)
        ensures
            final(self).metadata == old(self).metadata,
            transforms_view(final(self).transforms@) == transforms_view(old(self).transforms@) + match expr_stmt_transform(*expr) {
                Some(t) => seq![t],
                None => Seq::empty(),
            },
    {
        let found = match expr {
            JsExpr::Assign(assign) => self.detect_assignment(assign),
            JsExpr::Call(call) => self.detect_function_call(call),
            _ => None,
        };
        let ghost before = self.transforms@;
        match found {
            Some(t) => {
                proof {
                    lemma_transforms_view_push(before, t);
                }
                self.transforms.push(t);
            },
            None => {
                assert(transforms_view(before) + Seq::empty() =~= transforms_view(before));
            },
        }
    }

    /// Record the transforms a variable declaration stands for, declarator by
    /// declarator.
    pub fn visit_var_decl(&mut self, decls: &Vec<JsVarDeclarator>)
        requires
            forall|i: int| 0 <= i < decls@.len() ==> declarator_ok(#[trigger] decls@[i], old(self).metadata),
        ensures
            final(self).metadata == old(self).metadata,
            transforms_view(final(self).transforms@) == transforms_view(old(self).transforms@)
                + declaration_transforms(decls@, old(self).metadata),
    {
        let ghost before = self.transforms@;
        let mut i: usize = 0;
        while i < decls.len()
            invariant
                i <= decls@.len(),
                self.metadata == old(self).metadata,
                before == old(self).transforms@,
                forall|j: int| 0 <= j < decls@.len() ==> declarator_ok(#[trigger] decls@[j], self.metadata),
                transforms_view(self.transforms@) == transforms_view(before) + declaration_transforms(
                    decls@.subrange(0, i as int),
                    self.metadata,
                ),
            decreases decls@.len() - i,
        {
            proof {
                assert(decls@.subrange(0, i + 1).drop_last() =~= decls@.subrange(0, i as int));
            }
            let ghost mid = self.transforms@;
            self.visit_declarator(&decls[i]);
            assert(transforms_view(self.transforms@) =~= transforms_view(before) + declaration_transforms(
                decls@.subrange(0, i + 1),
                self.metadata,
            ));
            i = i + 1;
        }
        assert(decls@.subrange(0, i as int) =~= decls@);
    }

    /// Record the transforms one declarator stands for.
    fn visit_declarator(&mut self, decl: &JsVarDeclarator)
        requires
            declarator_ok(*decl, old(self).metadata),
        ensures
            final(self).metadata == old(self).metadata,
            transforms_view(final(self).transforms@) == transforms_view(old(self).transforms@)
                + declarator_transforms(*decl, old(self).metadata),
    {
        let ghost before = self.transforms@;
        match &decl.name {
            JsPat::Ident(v) => {
                let value = self.extract_init_value_with_context(&decl.init, v.as_str());
                let t = Transform::VariableDeclaration { name: owned(v.as_str()), value, is_destructured: false };
                proof {
                    lemma_transforms_view_push(before, t);
                }
                self.transforms.push(t);
                assert(transforms_view(self.transforms@) =~= transforms_view(before) + declarator_transforms(
                    *decl,
                    self.metadata,
                ));
            },
            JsPat::Object(props) => {
                let source = self.extract_init_value(&decl.init);
                let mut i: usize = 0;
                while i < props.len()
                    invariant
                        i <= props@.len(),
                        self.metadata == old(self).metadata,
                        source@ == opt_init_text(decl.init, "value"@, self.metadata),
                        transforms_view(self.transforms@) == transforms_view(before) + object_pat_transforms(
                            props@.subrange(0, i as int),
                            source@,
                        ),
                    decreases props@.len() - i,
                {
                    proof {
                        assert(props@.subrange(0, i + 1).drop_last() =~= props@.subrange(0, i as int));
                    }
                    let ghost mid = self.transforms@;
                    match &props[i] {
                        JsObjectPatProp::KeyValue(JsPropName::Ident(k), v) => match &**v {
                            JsPat::Ident(name) => {
                                let value = joined3(source.as_str(), ".", k.as_str());
                                let t = Transform::VariableDeclaration {
                                    name: owned(name.as_str()),
                                    value,
                                    is_destructured: true,
                                };
                                proof {
                                    lemma_transforms_view_push(mid, t);
                                }
                                self.transforms.push(t);
                            },
                            _ => {},
                        },
                        JsObjectPatProp::Assign(k) => {
                            let value = joined3(source.as_str(), ".", k.as_str());
                            let t = Transform::VariableDeclaration {
                                name: owned(k.as_str()),
                                value,
                                is_destructured: true,
                            };
                            proof {
                                lemma_transforms_view_push(mid, t);
                            }
                            self.transforms.push(t);
                        },
                        _ => {},
                    }
                    assert(transforms_view(self.transforms@) =~= transforms_view(before) + object_pat_transforms(
                        props@.subrange(0, i + 1),
                        source@,
                    ));
                    i = i + 1;
                }
                assert(props@.subrange(0, i as int) =~= props@);
            },
            JsPat::Array(elems) => {
                if let Some(init) = &decl.init {
                    if let JsExpr::Call(call) = &**init {
                        if let Some(hook_type) = self.extract_hook_name(call) {
                            let mut state_name: Option<String> = None;
                            let mut setter_name: Option<String> = None;
                            if elems.len() >= 1 {
                                if let Some(JsPat::Ident(id)) = &elems[0] {
                                    state_name = Some(owned(id.as_str()));
                                }
                            }
                            if elems.len() >= 2 {
                                if let Some(JsPat::Ident(id)) = &elems[1] {
                                    setter_name = Some(owned(id.as_str()));
                                }
                            }
                            let args = self.arg_name_list(&call.args);
                            let state = match state_name {
                                Some(n) => n,
                                None => owned("state"),
                            };
                            let t = Transform::HookCapture { hook_type, state_name: state, setter_name, args };
                            proof {
                                lemma_transforms_view_push(before, t);
                            }
                            self.transforms.push(t);
                        }
                    }
                }
                assert(transforms_view(self.transforms@) =~= transforms_view(before) + declarator_transforms(
                    *decl,
                    self.metadata,
                ));
            },
            JsPat::Other => {
                let t = Transform::RawJs {
                    code: owned("let unknown = value;"),
                    reason: owned("Unknown destructuring pattern"),
                };
                proof {
                    lemma_transforms_view_push(before, t);
                }
                self.transforms.push(t);
                assert(transforms_view(self.transforms@) =~= transforms_view(before) + declarator_transforms(
                    *decl,
                    self.metadata,
                ));
            },
        }
    }

    /// Record a `for (left of right)` loop whose body stands for
    /// `body_transforms`.
    pub fn visit_for_of_stmt(&mut self, left: &JsForHead, right: &JsExpr, body_transforms: Vec<Transform>)
        ensures
            final(self).metadata == old(self).metadata,
            transforms_view(final(self).transforms@) == transforms_view(old(self).transforms@).push(
                TransformV::ForOfLoop {
                    iterator: iterator_text(*left),
                    iterable: iterable_text(*right),
                    body_transforms: transforms_view(body_transforms@),
                },
            ),
    {
        let iterator = match left {
            JsForHead::VarDecl(ds) => if ds.len() > 0 {
                match &ds[0].name {
                    JsPat::Ident(id) => owned(id.as_str()),
                    _ => owned("item"),
                }
            } else {
                owned("item")
            },
            JsForHead::Pat(p) => match &**p {
                JsPat::Ident(id) => owned(id.as_str()),
                _ => owned("item"),
            },
            JsForHead::Other => owned("item"),
        };
        let iterable = match right {
            JsExpr::Ident(id) => owned(id.as_str()),
            JsExpr::Member(m) => member_path_string(m),
            _ => owned("iterable"),
        };
        let t = Transform::ForOfLoop { iterator, iterable, body_transforms };
        proof {
            lemma_transforms_view_push(self.transforms@, t);
        }
        self.transforms.push(t);
    }

    /// Record an `if` statement whose branches stand for the given
    /// transforms.
    pub fn visit_if_stmt(
        &mut self,
        test: &JsExpr,
        then_transforms: Vec<Transform>,
        else_transforms: Option<Vec<Transform>>,
    )
        ensures
            final(self).metadata == old(self).metadata,
            transforms_view(final(self).transforms@) == transforms_view(old(self).transforms@).push(
                TransformV::Conditional {
                    condition: condition_text(*test),
                    then_transforms: transforms_view(then_transforms@),
                    else_transforms: match else_transforms {
                        Some(e) => Some(transforms_view(e@)),
                        None => None,
                    },
                },
            ),
    {
        let condition = self.extract_condition_expr(test);
        let t = Transform::Conditional { condition, then_transforms, else_transforms };
        proof {
            lemma_transforms_view_push(self.transforms@, t);
        }
        self.transforms.push(t);
    }

    /// Record a ternary expression.
    pub fn visit_cond_expr(&mut self, cond: &JsCond)
        ensures
            final(self).metadata == old(self).metadata,
            transforms_view(final(self).transforms@) == transforms_view(old(self).transforms@).push(
                TransformV::TernaryExpr {
                    condition: condition_text(*cond.test),
                    then_expr: expr_text(*cond.cons),
                    else_expr: expr_text(*cond.alt),
                },
            ),
    {
        let condition = self.extract_condition_expr(&cond.test);
        let then_expr = self.extract_expr_string(&cond.cons);
        let else_expr = self.extract_expr_string(&cond.alt);
        let t = Transform::TernaryExpr { condition, then_expr, else_expr };
        proof {
            lemma_transforms_view_push(self.transforms@, t);
        }
        self.transforms.push(t);
    }

    /// Record a type check `t.isX(node)`.
    pub fn visit_call_expr(&mut self, call: &JsCall)
        ensures
            final(self).metadata == old(self).metadata,
            transforms_view(final(self).transforms@) == transforms_view(old(self).transforms@) + match type_check_transform(*call) {
                Some(t) => seq![t],
                None => Seq::empty(),
            },
    {
        let ghost before = self.transforms@;
        if let Some(c) = &call.callee {
            if let JsExpr::Member(mm) = &**c {
                if let (JsExpr::Ident(obj), JsMemberProp::Ident(method)) = (&*mm.obj, &mm.prop) {
                    if str_eq(obj.as_str(), "t") && starts_with(method.as_str(), "is") {
                        let check_type = owned(method.as_str());
                        let target = if call.args.len() > 0 {
                            self.extract_arg_name(&call.args[0].expr)
                        } else {
                            owned("node")
                        };
                        let rust_pattern = translate_type_check(check_type.as_str(), target.as_str());
                        let t = Transform::TypeCheck { check_type, target, rust_pattern };
                        proof {
                            lemma_transforms_view_push(before, t);
                        }
                        self.transforms.push(t);
                        return;
                    }
                }
            }
        }
        assert(transforms_view(before) + Seq::empty() =~= transforms_view(before));
    }

    /// Record a `return` of a value.
    pub fn visit_return_stmt(&mut self, arg: &Option<Box<JsExpr>>)
        ensures
            final(self).metadata == old(self).metadata,
            transforms_view(final(self).transforms@) == transforms_view(old(self).transforms@) + match arg {
                Some(e) => seq![TransformV::ReturnStmt { value: expr_text(**e) }],
                None => Seq::empty(),
            },
    {
        let ghost before = self.transforms@;
        match arg {
            Some(e) => {
                let value = self.extract_expr_string(e);
                let t = Transform::ReturnStmt { value };
                proof {
                    lemma_transforms_view_push(before, t);
                }
                self.transforms.push(t);
                assert(transforms_view(self.transforms@) =~= transforms_view(before) + seq![
                    TransformV::ReturnStmt { value: expr_text(**e) },
                ]);
            },
            None => {
                assert(transforms_view(before) + Seq::empty() =~= transforms_view(before));
            },
        }
    }

    /// Record a template literal: its raw pieces and the text of each
    /// expression.
    pub fn visit_tpl(&mut self, tpl: &JsTpl)
        ensures
            final(self).metadata == old(self).metadata,
            transforms_view(final(self).transforms@) == transforms_view(old(self).transforms@).push(
                TransformV::TemplateLiteral { parts: strings_view(tpl.quasis@), exprs: expr_texts(tpl.exprs@) },
            ),
    {
        let mut parts: Vec<String> = Vec::new();
        let mut i: usize = 0;
        while i < tpl.quasis.len()
            invariant
                i <= tpl.quasis@.len(),
                strings_view(parts@) == strings_view(tpl.quasis@).subrange(0, i as int),
            decreases tpl.quasis@.len() - i,
        {
            let p = owned(tpl.quasis[i].as_str());
            proof {
                lemma_strings_view_push(parts@, p);
            }
            parts.push(p);
            i = i + 1;
            assert(strings_view(parts@) =~= strings_view(tpl.quasis@).subrange(0, i as int));
        }
        assert(strings_view(tpl.quasis@).subrange(0, i as int) =~= strings_view(tpl.quasis@));
        let mut exprs: Vec<String> = Vec::new();
        let mut j: usize = 0;
        while j < tpl.exprs.len()
            invariant
                j <= tpl.exprs@.len(),
                strings_view(exprs@) == expr_texts(tpl.exprs@).subrange(0, j as int),
            decreases tpl.exprs@.len() - j,
        {
            let e = self.extract_expr_string(&tpl.exprs[j]);
            proof {
                lemma_strings_view_push(exprs@, e);
            }
            exprs.push(e);
            j = j + 1;
            assert(strings_view(exprs@) =~= expr_texts(tpl.exprs@).subrange(0, j as int));
        }
        assert(expr_texts(tpl.exprs@).subrange(0, j as int) =~= expr_texts(tpl.exprs@));
        let t = Transform::TemplateLiteral { parts, exprs };
        proof {
            lemma_transforms_view_push(self.transforms@, t);
        }
        self.transforms.push(t);
    }
}

// ===================== plugin files =====================

/// What the detection in a Babel plugin file collects: its visitor methods
/// and its helper functions, each with the transforms of its body.
pub struct BabelVisitorDetector<'a> {
    pub visitor_methods: Vec<VisitorMethod>,
    pub helper_functions: Vec<HelperFunction>,
    pub current_file_path: String,
    pub metadata: Option<&'a PluginMetadata>,
}

/// The names that a `require` destructures: the keys of `key: ..` with a
/// plain name as key, and shorthand properties.
pub open spec fn required_names(props: Seq<JsObjectPatProp>) -> Seq<Seq<char>>
    decreases props.len(),
{
    if props.len() == 0 {
        Seq::empty()
    } else {
        let rest = required_names(props.drop_last());
        match props.last() {
            JsObjectPatProp::KeyValue(JsPropName::Ident(k), _) => rest.push(k@),
            JsObjectPatProp::Assign(k) => rest.push(k@),
            _ => rest,
        }
    }
}

/// The module a declarator `require`s, and the names it takes from it: for
/// `.. = require('path')`, the path, with the names an object pattern
/// destructures (none for another pattern).
pub open spec fn required_module(d: JsVarDeclarator) -> Option<(Seq<char>, Seq<Seq<char>>)> {
    match d.init {
        Some(e) => match *e {
            JsExpr::Call(call) => match call.callee {
                Some(c) => match *c {
                    JsExpr::Ident(f) => if f@ == "require"@ && call.args@.len() > 0 {
                        match call.args@[0].expr {
                            JsExpr::Lit(JsLit::Str(path)) => Some(
                                (
                                    path@,
                                    match d.name {
                                        JsPat::Object(props) => required_names(props@),
                                        _ => Seq::empty(),
                                    },
                                ),
                            ),
                            _ => None,
                        }
                    } else {
                        None
                    },
                    _ => None,
                },
                None => None,
            },
            _ => None,
        },
        None => None,
    }
}

/// The names of the plain-name parameters, in order.
pub open spec fn param_names(params: Seq<JsPat>) -> Seq<Seq<char>>
    decreases params.len(),
{
    if params.len() == 0 {
        Seq::empty()
    } else {
        let rest = param_names(params.drop_last());
        match params.last() {
            JsPat::Ident(id) => rest.push(id@),
            _ => rest,
        }
    }
}

/// The names of an object's methods: keys of `key: value` properties and of
/// method properties, when the key is a plain name.
pub open spec fn method_names(props: Seq<JsProp>) -> Seq<Seq<char>>
    decreases props.len(),
{
    if props.len() == 0 {
        Seq::empty()
    } else {
        let rest = method_names(props.drop_last());
        match props.last() {
            JsProp::KeyValue(JsPropName::Ident(k), _) => rest.push(k@),
            JsProp::Method(JsPropName::Ident(k)) => rest.push(k@),
            _ => rest,
        }
    }
}

/// The visitor methods an object literal declares: the methods of each
/// `visitor: { .. }` property, in order.
pub open spec fn visitor_names(props: Seq<JsProp>) -> Seq<Seq<char>>
    decreases props.len(),
{
    if props.len() == 0 {
        Seq::empty()
    } else {
        visitor_names(props.drop_last()) + match props.last() {
            JsProp::KeyValue(JsPropName::Ident(k), JsExpr::Object(inner)) => if k@ == "visitor"@ {
                method_names(inner@)
            } else {
                Seq::empty()
            },
            _ => Seq::empty(),
        }
    }
}

/// The method names of an object's properties.
fn method_name_list(props: &Vec<JsProp>, out: &mut Vec<String>)
    ensures
        strings_view(final(out)@) == strings_view(old(out)@) + method_names(props@),
{
    let ghost before = out@;
    let mut i: usize = 0;
    while i < props.len()
        invariant
            i <= props@.len(),
            strings_view(out@) == strings_view(before) + method_names(props@.subrange(0, i as int)),
        decreases props@.len() - i,
    {
        proof {
            assert(props@.subrange(0, i + 1).drop_last() =~= props@.subrange(0, i as int));
        }
        let ghost mid = out@;
        match &props[i] {
            JsProp::KeyValue(JsPropName::Ident(k), _) => {
                let n = owned(k.as_str());
                proof {
                    lemma_strings_view_push(mid, n);
                }
                out.push(n);
            },
            JsProp::Method(JsPropName::Ident(k)) => {
                let n = owned(k.as_str());
                proof {
                    lemma_strings_view_push(mid, n);
                }
                out.push(n);
            },
            _ => {},
        }
        assert(strings_view(out@) =~= strings_view(before) + method_names(props@.subrange(0, i + 1)));
        i = i + 1;
    }
    assert(props@.subrange(0, i as int) =~= props@);
}

/// The names of the visitor methods an object literal declares.
pub fn visitor_method_names(props: &Vec<JsProp>) -> (r: Vec<String>)
    ensures
        strings_view(r@) == visitor_names(props@),
{
    let mut out: Vec<String> = Vec::new();
    let mut i: usize = 0;
    while i < props.len()
        invariant
            i <= props@.len(),
            strings_view(out@) == visitor_names(props@.subrange(0, i as int)),
        decreases props@.len() - i,
    {
        proof {
            assert(props@.subrange(0, i + 1).drop_last() =~= props@.subrange(0, i as int));
        }
        let ghost mid = out@;
        match &props[i] {
            JsProp::KeyValue(JsPropName::Ident(k), JsExpr::Object(inner)) => {
                if str_eq(k.as_str(), "visitor") {
                    method_name_list(inner, &mut out);
                }
            },
            _ => {},
        }
        assert(strings_view(out@) =~= visitor_names(props@.subrange(0, i + 1)));
        i = i + 1;
    }
    assert(props@.subrange(0, i as int) =~= props@);
    out
}

impl<'a> BabelVisitorDetector<'a> {
    /// The module a declarator `require`s and the names it takes from it.
    pub fn required_module(&self, decl: &JsVarDeclarator) -> (r: Option<(String, Vec<String>)>)
        ensures
            match r {
                Some((path, names)) => required_module(*decl) == Some((path@, strings_view(names@))),
                None => required_module(*decl) is None,
            },
    {
        let init = match &decl.init {
            Some(e) => e,
            None => return None,
        };
        let call = match &**init {
            JsExpr::Call(call) => call,
            _ => return None,
        };
        let callee = match &call.callee {
            Some(c) => c,
            None => return None,
        };
        match &**callee {
            JsExpr::Ident(f) => {
                if !str_eq(f.as_str(), "require") || call.args.len() == 0 {
                    return None;
                }
            },
            _ => return None,
        }
        let path = match &call.args[0].expr {
            JsExpr::Lit(JsLit::Str(p)) => owned(p.as_str()),
            _ => return None,
        };
        let mut names: Vec<String> = Vec::new();
        if let JsPat::Object(props) = &decl.name {
            let mut i: usize = 0;
            while i < props.len()
                invariant
                    i <= props@.len(),
                    strings_view(names@) == required_names(props@.subrange(0, i as int)),
                decreases props@.len() - i,
            {
                proof {
                    assert(props@.subrange(0, i + 1).drop_last() =~= props@.subrange(0, i as int));
                }
                let ghost mid = names@;
                match &props[i] {
                    JsObjectPatProp::KeyValue(JsPropName::Ident(k), _) => {
                        let n = owned(k.as_str());
                        proof {
                            lemma_strings_view_push(mid, n);
                        }
                        names.push(n);
                    },
                    JsObjectPatProp::Assign(k) => {
                        let n = owned(k.as_str());
                        proof {
                            lemma_strings_view_push(mid, n);
                        }
                        names.push(n);
                    },
                    _ => {},
                }
                i = i + 1;
            }
            assert(props@.subrange(0, i as int) =~= props@);
        } else {
            assert(strings_view(names@) =~= Seq::<Seq<char>>::empty());
        }
        Some((path, names))
    }

    /// Record a top-level function other than `exports` as a helper: its
    /// name, its plain-name parameters, the transforms of its body and the
    /// file it comes from.
    pub fn visit_fn_decl(&mut self, name: &str, params: &Vec<JsPat>, body_transforms: Vec<Transform>)
        ensures
            final(self).visitor_methods == old(self).visitor_methods,
            final(self).current_file_path == old(self).current_file_path,
            final(self).metadata == old(self).metadata,
            name@ == "exports"@ ==> final(self).helper_functions == old(self).helper_functions,
            name@ != "exports"@ ==> {
                &&& final(self).helper_functions@.len() == old(self).helper_functions@.len() + 1
                &&& final(self).helper_functions@.drop_last() == old(self).helper_functions@
                &&& final(self).helper_functions@.last().name@ == name@
                &&& strings_view(final(self).helper_functions@.last().params@) == param_names(params@)
                &&& final(self).helper_functions@.last().transforms@ == body_transforms@
                &&& final(self).helper_functions@.last().source_module@ == old(self).current_file_path@
            },
    {
        if str_eq(name, "exports") {
            return;
        }
        let mut names: Vec<String> = Vec::new();
        let mut i: usize = 0;
        while i < params.len()
            invariant
                i <= params@.len(),
                strings_view(names@) == param_names(params@.subrange(0, i as int)),
            decreases params@.len() - i,
        {
            proof {
                assert(params@.subrange(0, i + 1).drop_last() =~= params@.subrange(0, i as int));
            }
            let ghost mid = names@;
            match &params[i] {
                JsPat::Ident(id) => {
                    let n = owned(id.as_str());
                    proof {
                        lemma_strings_view_push(mid, n);
                    }
                    names.push(n);
                },
                _ => {},
            }
            i = i + 1;
        }
        assert(params@.subrange(0, i as int) =~= params@);
        let h = HelperFunction {
            name: owned(name),
            params: names,
            transforms: body_transforms,
            source_module: owned(self.current_file_path.as_str()),
        };
        self.helper_functions.push(h);
    }

    /// Record the visitor methods that an object literal declares, the `k`-th
    /// of them with the transforms `bodies[k]`.
    pub fn visit_object_lit(&mut self, props: &Vec<JsProp>, bodies: Vec<Vec<Transform>>)
        requires
            bodies@.len() == visitor_names(props@).len(),
        ensures
            final(self).helper_functions == old(self).helper_functions,
            final(self).current_file_path == old(self).current_file_path,
            final(self).metadata == old(self).metadata,
            final(self).visitor_methods@.len() == old(self).visitor_methods@.len() + bodies@.len(),
            final(self).visitor_methods@.subrange(0, old(self).visitor_methods@.len() as int)
                == old(self).visitor_methods@,
            forall|k: int|
                0 <= k < bodies@.len() ==> {
                    &&& (#[trigger] final(self).visitor_methods@[old(self).visitor_methods@.len() + k]).name@
                        == visitor_names(props@)[k]
                    &&& final(self).visitor_methods@[old(self).visitor_methods@.len() + k].transforms@
                        == bodies@[k]@
                },
    {
        let names = visitor_method_names(props);
        let n0 = self.visitor_methods.len();
        let mut bodies = bodies;
        let mut k: usize = 0;
        let ghost all_bodies = bodies@;
        while k < names.len()
            invariant
                names@.len() == all_bodies.len(),
                strings_view(names@) == visitor_names(props@),
                k + bodies@.len() == all_bodies.len(),
                bodies@ == all_bodies.subrange(k as int, all_bodies.len() as int),
                n0 == old(self).visitor_methods@.len(),
                self.helper_functions == old(self).helper_functions,
                self.current_file_path == old(self).current_file_path,
                self.metadata == old(self).metadata,
                self.visitor_methods@.len() == n0 + k,
                self.visitor_methods@.subrange(0, n0 as int) == old(self).visitor_methods@,
                forall|j: int|
                    0 <= j < k ==> {
                        &&& (#[trigger] self.visitor_methods@[n0 + j]).name@ == visitor_names(props@)[j]
                        &&& self.visitor_methods@[n0 + j].transforms@ == all_bodies[j]@
                    },
            decreases bodies@.len(),
        {
            let transforms = bodies.remove(0);
            assert(strings_view(names@)[k as int] == names@[k as int]@);
            let m = VisitorMethod { name: owned(names[k].as_str()), transforms };
            self.visitor_methods.push(m);
            k = k + 1;
            assert(bodies@ =~= all_bodies.subrange(k as int, all_bodies.len() as int));
            assert(self.visitor_methods@.subrange(0, n0 as int) =~= old(self).visitor_methods@);
        }
    }
}

} // verus!
