//! Type checking pass for RustScript.
//!
//! The pass infers a type for every expression, using the type the context
//! expects where there is one, and reports conditions that are not `bool`,
//! initializers, fields and returned values that do not fit their declared
//! types. Each checking function is proved to compute the function of the same
//! role below, which states the pass over the program's syntax tree.

use vstd::prelude::*;
use crate::lexer::Span;
use crate::ast::{
    Program, TopLevelDecl, PluginItem, FnDecl, Param, Block, Stmt, LetStmt, ConstStmt, IfStmt, MatchStmt, ForStmt, WhileStmt, ReturnStmt, TraverseStmt,
    TraverseKind,
    Pattern, Expr, MatchArm, Literal, BinaryOp, UnaryOp, Type, BinaryExpr, UnaryExpr, CallExpr, IndexExpr,
    StructInitExpr, VecInitExpr, IfExpr, MatchExpr, ClosureExpr, RangeExpr,
};
use crate::strings::{str_eq, owned, joined, joined3};
use crate::semantic::types::{
    TypeInfo, TypeInfoV, TypeEnv, TypeEnvV, SemanticError, SemanticErrorV, sem_err, v_errors, v_ti, v_tis,
    v_fields, ast_ti, te_push, te_pop, te_define, te_lookup, te_struct_fields, te_fresh, last_binding,
    assignable, display, deref_of, ast_type_to_type_info, lemma_v_tis_push, lemma_v_tis_index,
    lemma_v_tis_len, lemma_v_fields_index, lemma_v_fields_len, copy_fields, find_last, ti_vec, ti_option, ti_ref, ti_function,
};
use crate::semantic::resolver::{ret_ti, param_tis};

verus! {

/// What the checker has built so far: the environment, the errors found, and
/// the result type of the function being checked.
pub struct CState {
    pub env: TypeEnvV,
    pub errors: Seq<SemanticErrorV>,
    pub ret: Option<TypeInfoV>,
}

/// The state with another environment.
pub open spec fn c_env(st: CState, env: TypeEnvV) -> CState {
    CState { env, ..st }
}

/// The state with one more error.
pub open spec fn c_err(st: CState, code: Seq<char>, msg: Seq<char>, span: Span) -> CState {
    CState { errors: st.errors.push(sem_err(code, msg, span)), ..st }
}

/// Enter a scope.
pub open spec fn c_push(st: CState) -> CState {
    c_env(st, te_push(st.env))
}

/// Leave a scope.
pub open spec fn c_pop(st: CState) -> CState {
    c_env(st, te_pop(st.env))
}

/// Bind a name to a type in the innermost scope.
pub open spec fn c_define(st: CState, k: Seq<char>, t: TypeInfoV) -> CState {
    c_env(st, te_define(st.env, k, t))
}

/// Bind a name to a fresh type variable in the innermost scope.
pub open spec fn c_bind_fresh(st: CState, k: Seq<char>) -> CState {
    c_env(st, te_define(te_fresh(st.env).1, k, te_fresh(st.env).0))
}

/// `prefix`, the expected type, `, found ` and the type found.
pub open spec fn mismatch(prefix: Seq<char>, expected: TypeInfoV, found: TypeInfoV) -> Seq<char> {
    prefix + display(expected) + ", found "@ + display(found)
}

/// Report, at `span`, a value of type `found` where `expected` is declared, unless it fits.
pub open spec fn check_fits(st: CState, found: TypeInfoV, expected: TypeInfoV, span: Span) -> CState {
    if !assignable(found, expected) {
        c_err(st, "RS003"@, mismatch("Type mismatch: expected "@, expected, found), span)
    } else {
        st
    }
}

/// Report, at `span`, a condition whose type is neither `bool` nor unknown.
pub open spec fn check_cond(st: CState, t: TypeInfoV, span: Span) -> CState {
    if !(t is Bool || t is Unknown) {
        c_err(st, "RS003"@, "Condition must be bool, found "@ + display(t), span)
    } else {
        st
    }
}

/// The type of a literal.
pub open spec fn literal_ti(l: Literal) -> TypeInfoV {
    match l {
        Literal::String(_) => TypeInfoV::Str,
        Literal::Int(_) => TypeInfoV::I32,
        Literal::Float(_) => TypeInfoV::F64,
        Literal::Bool(_) => TypeInfoV::Bool,
        Literal::Null => TypeInfoV::Null,
        Literal::Unit => TypeInfoV::Unit,
    }
}

/// The type of a binary operation on operands of the given types:
/// comparisons and logic give `bool`; arithmetic gives `f64` if either side
/// is `f64`, `Str` if the left side is `Str`, and `i32` otherwise.
pub open spec fn binary_ti(op: BinaryOp, l: TypeInfoV, r: TypeInfoV) -> TypeInfoV {
    match op {
        BinaryOp::Add | BinaryOp::Sub | BinaryOp::Mul | BinaryOp::Div | BinaryOp::Mod => if l is F64
            || r is F64 {
            TypeInfoV::F64
        } else if l is Str {
            TypeInfoV::Str
        } else {
            TypeInfoV::I32
        },
        _ => TypeInfoV::Bool,
    }
}

/// The type of a unary operation on an operand of the given type.
pub open spec fn unary_ti(op: UnaryOp, t: TypeInfoV) -> TypeInfoV {
    match op {
        UnaryOp::Not => TypeInfoV::Bool,
        UnaryOp::Neg => t,
        UnaryOp::Deref => match deref_of(t) {
            Some(i) => i,
            None => TypeInfoV::Unknown,
        },
        UnaryOp::Ref => TypeInfoV::Ref { mutable: false, inner: Box::new(t) },
        UnaryOp::RefMut => TypeInfoV::Ref { mutable: true, inner: Box::new(t) },
    }
}

/// The type of an indexing into a value of the given type.
pub open spec fn index_ti(t: TypeInfoV) -> TypeInfoV {
    match t {
        TypeInfoV::Vec(inner) => *inner,
        TypeInfoV::HashMap(_, v) => TypeInfoV::Option(v),
        _ => TypeInfoV::Unknown,
    }
}

/// The type of the elements a `for` loop takes from a value of the given type.
pub open spec fn elem_ti(t: TypeInfoV) -> TypeInfoV {
    match t {
        TypeInfoV::Vec(inner) => *inner,
        TypeInfoV::Ref { inner, .. } => match *inner {
            TypeInfoV::Vec(e) => TypeInfoV::Ref { mutable: false, inner: e },
            _ => TypeInfoV::Unknown,
        },
        _ => TypeInfoV::Unknown,
    }
}

/// The type of a field of a value of the given type: a struct's declared field,
/// through references, and the common fields of syntax-tree nodes.
pub open spec fn field_ti(t: TypeInfoV, field: Seq<char>) -> TypeInfoV
    decreases t,
{
    match t {
        TypeInfoV::Struct { fields, .. } => match last_binding(fields, field) {
            Some(f) => f,
            None => TypeInfoV::Unknown,
        },
        TypeInfoV::Ref { inner, .. } => field_ti(*inner, field),
        TypeInfoV::AstNode(_) => if field == "name"@ || field == "value"@ || field == "operator"@ || field
            == "kind"@ {
            TypeInfoV::Str
        } else if field == "body"@ || field == "params"@ || field == "arguments"@ || field == "elements"@
            || field == "properties"@ {
            TypeInfoV::Vec(Box::new(TypeInfoV::Unknown))
        } else {
            TypeInfoV::Unknown
        },
        _ => TypeInfoV::Unknown,
    }
}

/// An optional type wrapped in a reference.
pub open spec fn opt_ref(inner: Box<TypeInfoV>) -> TypeInfoV {
    TypeInfoV::Option(Box::new(TypeInfoV::Ref { mutable: false, inner }))
}

/// The result type of calling a method on a value of the given type, for the
/// methods of strings, vectors, options, maps and syntax-tree nodes; through
/// references; unknown otherwise.
pub open spec fn method_ti(t: TypeInfoV, m: Seq<char>) -> TypeInfoV
    decreases t,
{
    match t {
        TypeInfoV::Str => if m == "clone"@ {
            TypeInfoV::Str
        } else if m == "len"@ {
            TypeInfoV::I32
        } else if m == "is_empty"@ {
            TypeInfoV::Bool
        } else if m == "starts_with"@ || m == "ends_with"@ || m == "contains"@ {
            TypeInfoV::Bool
        } else if m == "to_uppercase"@ || m == "to_lowercase"@ {
            TypeInfoV::Str
        } else if m == "chars"@ {
            TypeInfoV::Vec(Box::new(TypeInfoV::Str))
        } else {
            TypeInfoV::Unknown
        },
        TypeInfoV::Vec(inner) => if m == "clone"@ {
            TypeInfoV::Vec(inner)
        } else if m == "len"@ {
            TypeInfoV::I32
        } else if m == "is_empty"@ {
            TypeInfoV::Bool
        } else if m == "push"@ {
            TypeInfoV::Unit
        } else if m == "pop"@ {
            TypeInfoV::Option(inner)
        } else if m == "get"@ {
            opt_ref(inner)
        } else if m == "iter"@ {
            TypeInfoV::Vec(inner)
        } else if m == "collect"@ {
            TypeInfoV::Vec(Box::new(TypeInfoV::Unknown))
        } else {
            TypeInfoV::Unknown
        },
        TypeInfoV::Option(inner) => if m == "unwrap"@ || m == "unwrap_or"@ || m == "unwrap_or_else"@ {
            *inner
        } else if m == "is_some"@ || m == "is_none"@ {
            TypeInfoV::Bool
        } else if m == "map"@ || m == "and_then"@ {
            TypeInfoV::Option(inner)
        } else {
            TypeInfoV::Unknown
        },
        TypeInfoV::HashMap(_, v) => if m == "get"@ {
            opt_ref(v)
        } else if m == "insert"@ {
            TypeInfoV::Unit
        } else if m == "contains_key"@ {
            TypeInfoV::Bool
        } else if m == "len"@ {
            TypeInfoV::I32
        } else {
            TypeInfoV::Unknown
        },
        TypeInfoV::Ref { inner, .. } => method_ti(*inner, m),
        TypeInfoV::AstNode(n) => if m == "clone"@ {
            TypeInfoV::AstNode(n)
        } else if m == "visit_children"@ {
            TypeInfoV::Unit
        } else {
            TypeInfoV::Unknown
        },
        _ => TypeInfoV::Unknown,
    }
}

// ===================== patterns =====================

/// Bind the names of a pattern to the parts of a type: a name takes the whole
/// type; a tuple pattern takes the element types of a tuple type, or unknown
/// ones; an or-pattern binds as its first alternative; other patterns bind nothing.
pub open spec fn def_pattern(st: CState, p: Pattern, t: TypeInfoV) -> CState
    decreases p, 0int,
{
    match p {
        Pattern::Ident(name) => c_define(st, name@, t),
        Pattern::Tuple(ps) => match t {
            TypeInfoV::Tuple(ts) => def_patterns(st, ps@, Some(ts), 0),
            _ => def_patterns(st, ps@, None, 0),
        },
        Pattern::Or(ps) => if ps@.len() > 0 {
            def_pattern(st, ps@[0], t)
        } else {
            st
        },
        _ => st,
    }
}

/// Bind the tuple element patterns from index `i` on, each to the element type
/// at its index, or to an unknown type where there is none.
pub open spec fn def_patterns(st: CState, ps: Seq<Pattern>, ts: Option<Seq<TypeInfoV>>, i: int) -> CState
    decreases ps, ps.len() - i,
{
    if 0 <= i < ps.len() {
        let t = match ts {
            Some(s) => if i < s.len() {
                s[i]
            } else {
                TypeInfoV::Unknown
            },
            None => TypeInfoV::Unknown,
        };
        def_patterns(def_pattern(st, ps[i], t), ps, ts, i + 1)
    } else {
        st
    }
}

// ===================== expressions =====================

/// The type of an expression and the state after checking it; `expected` is
/// the type the context expects, if it expects one.
pub open spec fn ck_expr(st: CState, e: Expr, expected: Option<TypeInfoV>) -> (TypeInfoV, CState)
    decreases e, 1int,
{
    match e {
        Expr::Literal(l) => (literal_ti(l), st),
        Expr::Ident(id) => (
            match te_lookup(st.env, id.name@) {
                Some(t) => t,
                None => TypeInfoV::Unknown,
            },
            st,
        ),
        Expr::Binary(b) => ck_binary(st, b),
        Expr::Unary(u) => ck_unary(st, u),
        Expr::Call(c) => ck_call(st, c),
        Expr::Member(m) => {
            let (ot, s1) = ck_expr(st, *m.object, None);
            (field_ti(ot, m.property@), s1)
        },
        Expr::Index(x) => ck_index(st, x),
        Expr::StructInit(s) => ck_struct_init(st, s),
        Expr::VecInit(v) => ck_vec_init(st, v, expected),
        Expr::If(ie) => ck_if_expr(st, ie),
        Expr::Match(me) => ck_match_expr(st, me, expected),
        Expr::Closure(c) => ck_closure(st, c),
        Expr::Ref(r) => {
            let (it, s1) = ck_expr(st, *r.expr, None);
            (TypeInfoV::Ref { mutable: r.mutable, inner: Box::new(it) }, s1)
        },
        Expr::Deref(d) => {
            let (it, s1) = ck_expr(st, *d.expr, None);
            (
                match deref_of(it) {
                    Some(i) => i,
                    None => TypeInfoV::Unknown,
                },
                s1,
            )
        },
        Expr::Assign(a) => {
            let (_, s1) = ck_expr(st, *a.target, None);
            let (_, s2) = ck_expr(s1, *a.value, None);
            (TypeInfoV::Unit, s2)
        },
        Expr::CompoundAssign(a) => {
            let (_, s1) = ck_expr(st, *a.target, None);
            let (_, s2) = ck_expr(s1, *a.value, None);
            (TypeInfoV::Unit, s2)
        },
        Expr::Range(r) => ck_range(st, r),
        Expr::Paren(inner) => ck_expr(st, *inner, None),
        Expr::Block(b) => {
            let (t, s1) = ck_block_value(c_push(st), b.stmts@, 0, TypeInfoV::Unit);
            (t, c_pop(s1))
        },
        Expr::Try(inner) => ck_expr(st, *inner, None),
    }
}

/// The type of a binary operation and the state after checking its operands.
pub open spec fn ck_binary(st: CState, b: BinaryExpr) -> (TypeInfoV, CState)
    decreases b, 0int,
{
    let (lt, s1) = ck_expr(st, *b.left, None);
    let (rt, s2) = ck_expr(s1, *b.right, None);
    (binary_ti(b.op, lt, rt), s2)
}

/// The type of a unary operation and the state after checking its operand.
pub open spec fn ck_unary(st: CState, u: UnaryExpr) -> (TypeInfoV, CState)
    decreases u, 0int,
{
    let (ot, s1) = ck_expr(st, *u.operand, None);
    (unary_ti(u.op, ot), s1)
}

/// The type of a call: a function's result, its arguments checked against its
/// parameters; a method's result on its receiver's type, arguments unchecked;
/// unknown otherwise, the arguments checked with no expected type.
pub open spec fn ck_call(st: CState, c: CallExpr) -> (TypeInfoV, CState)
    decreases c, 0int,
{
    let (ct, s1) = ck_expr(st, *c.callee, None);
    match ct {
        TypeInfoV::Function { params, ret } => (*ret, ck_args(s1, c.args@, Some(params), 0)),
        _ => match *c.callee {
            Expr::Member(m) => {
                let (ot, s2) = ck_expr(s1, *m.object, None);
                (method_ti(ot, m.property@), s2)
            },
            _ => (TypeInfoV::Unknown, ck_args(s1, c.args@, None, 0)),
        },
    }
}

/// The type of an indexing and the state after checking its parts.
pub open spec fn ck_index(st: CState, x: IndexExpr) -> (TypeInfoV, CState)
    decreases x, 0int,
{
    let (ot, s1) = ck_expr(st, *x.object, None);
    let (_, s2) = ck_expr(s1, *x.index, None);
    (index_ti(ot), s2)
}

/// The type of a struct literal: a declared struct with its fields, whose
/// values are checked against them, or else a syntax-tree node type.
pub open spec fn ck_struct_init(st: CState, s: StructInitExpr) -> (TypeInfoV, CState)
    decreases s, 0int,
{
    match te_struct_fields(st.env, s.name@) {
        Some(fields) => (
            TypeInfoV::Struct { name: s.name@, fields },
            ck_init_fields(st, s.fields@, Some(fields), 0, s.span),
        ),
        None => (TypeInfoV::AstNode(s.name@), ck_init_fields(st, s.fields@, None, 0, s.span)),
    }
}

/// The type of a vector literal: from its first element, or from the expected
/// vector type if it is empty.
pub open spec fn ck_vec_init(st: CState, v: VecInitExpr, expected: Option<TypeInfoV>) -> (TypeInfoV, CState)
    decreases v, 0int,
{
    if v.elements@.len() == 0 {
        (
            match expected {
                Some(TypeInfoV::Vec(inner)) => TypeInfoV::Vec(inner),
                _ => TypeInfoV::Vec(Box::new(TypeInfoV::Unknown)),
            },
            st,
        )
    } else {
        let (et, s1) = ck_expr(st, v.elements@[0], None);
        (TypeInfoV::Vec(Box::new(et)), s1)
    }
}

/// An `if` used as an expression has the unit type.
pub open spec fn ck_if_expr(st: CState, ie: IfExpr) -> (TypeInfoV, CState)
    decreases ie, 0int,
{
    let (_, s1) = ck_expr(st, *ie.condition, None);
    let s2 = c_pop(ck_block(c_push(s1), ie.then_branch));
    (
        TypeInfoV::Unit,
        match ie.else_branch {
            Some(b) => c_pop(ck_block(c_push(s2), b)),
            None => s2,
        },
    )
}

/// The type of a `match` expression: that of its first arm, which sets the
/// expected type of the others unless it is unknown.
pub open spec fn ck_match_expr(st: CState, me: MatchExpr, expected: Option<TypeInfoV>) -> (TypeInfoV, CState)
    decreases me, 0int,
{
    let (_, s1) = ck_expr(st, *me.scrutinee, None);
    if me.arms@.len() == 0 {
        (TypeInfoV::Unknown, ck_arm_bodies(s1, me.arms@, 1, expected))
    } else {
        let (first, s2) = ck_expr(c_push(s1), me.arms@[0].body, expected);
        let arm_expected = if first is Unknown {
            expected
        } else {
            Some(first)
        };
        (first, ck_arm_bodies(c_pop(s2), me.arms@, 1, arm_expected))
    }
}

/// The type of a closure: a function of unknown parameters returning the type
/// of its body, which is checked with the parameters bound to fresh variables.
pub open spec fn ck_closure(st: CState, c: ClosureExpr) -> (TypeInfoV, CState)
    decreases c, 0int,
{
    let s1 = bind_closure_params(c_push(st), c.params@, 0);
    let (bt, s2) = ck_expr(s1, *c.body, None);
    (
        TypeInfoV::Function {
            params: Seq::new(c.params@.len(), |i: int| TypeInfoV::Unknown),
            ret: Box::new(bt),
        },
        c_pop(s2),
    )
}

/// A range has an unknown type; its bounds are checked.
pub open spec fn ck_range(st: CState, r: RangeExpr) -> (TypeInfoV, CState)
    decreases r, 0int,
{
    let s1 = match r.start {
        Some(x) => ck_expr(st, *x, None).1,
        None => st,
    };
    (
        TypeInfoV::Unknown,
        match r.end {
            Some(x) => ck_expr(s1, *x, None).1,
            None => s1,
        },
    )
}

/// Check call arguments from index `i` on, each with the parameter type at its
/// index as the expected type, where the callee's parameters are known.
pub open spec fn ck_args(st: CState, args: Seq<Expr>, params: Option<Seq<TypeInfoV>>, i: int) -> CState
    decreases args, args.len() - i,
{
    if 0 <= i < args.len() {
        let expected = match params {
            Some(ps) => if i < ps.len() {
                Some(ps[i])
            } else {
                None
            },
            None => None,
        };
        ck_args(ck_expr(st, args[i], expected).1, args, params, i + 1)
    } else {
        st
    }
}

/// Check the values of struct literal fields from index `i` on; where the
/// struct's fields are known, each value is checked against its field's type.
pub open spec fn ck_init_fields(
    st: CState,
    fs: Seq<(String, Expr)>,
    fields: Option<Seq<(Seq<char>, TypeInfoV)>>,
    i: int,
    span: Span,
) -> CState
    decreases fs, fs.len() - i,
{
    if 0 <= i < fs.len() {
        let st1 = match fields {
            Some(ds) => {
                let expected = last_binding(ds, fs[i].0@);
                let (vt, s1) = ck_expr(st, fs[i].1, expected);
                match expected {
                    Some(et) => if !assignable(vt, et) {
                        c_err(
                            s1,
                            "RS003"@,
                            mismatch("Field '"@ + fs[i].0@ + "' type mismatch: expected "@, et, vt),
                            span,
                        )
                    } else {
                        s1
                    },
                    None => s1,
                }
            },
            None => ck_expr(st, fs[i].1, None).1,
        };
        ck_init_fields(st1, fs, fields, i + 1, span)
    } else {
        st
    }
}

/// Check match arm bodies from index `i` on, each in its own scope.
pub open spec fn ck_arm_bodies(st: CState, arms: Seq<MatchArm>, i: int, expected: Option<TypeInfoV>) -> CState
    decreases arms, arms.len() - i,
{
    if 0 <= i < arms.len() {
        ck_arm_bodies(c_pop(ck_expr(c_push(st), arms[i].body, expected).1), arms, i + 1, expected)
    } else {
        st
    }
}

/// Bind closure parameters from index `i` on to fresh type variables.
pub open spec fn bind_closure_params(st: CState, ps: Seq<String>, i: int) -> CState
    decreases ps.len() - i,
{
    if 0 <= i < ps.len() {
        bind_closure_params(c_bind_fresh(st, ps[i]@), ps, i + 1)
    } else {
        st
    }
}

/// The type of a block used as a value: the type of its last expression
/// statement, `t` if it has none; other statements are checked as statements.
pub open spec fn ck_block_value(st: CState, ss: Seq<Stmt>, i: int, t: TypeInfoV) -> (TypeInfoV, CState)
    decreases ss, ss.len() - i,
{
    if 0 <= i < ss.len() {
        match ss[i] {
            Stmt::Expr(x) => {
                let (t2, s1) = ck_expr(st, x.expr, None);
                ck_block_value(s1, ss, i + 1, t2)
            },
            s => ck_block_value(ck_stmt(st, s), ss, i + 1, t),
        }
    } else {
        (t, st)
    }
}

// ===================== statements and functions =====================

/// Check the statements of a block.
pub open spec fn ck_block(st: CState, b: Block) -> CState
    decreases b, 0int,
{
    ck_stmts(st, b.stmts@, 0)
}

/// Check statements from index `i` on.
pub open spec fn ck_stmts(st: CState, ss: Seq<Stmt>, i: int) -> CState
    decreases ss, ss.len() - i,
{
    if 0 <= i < ss.len() {
        ck_stmts(ck_stmt(st, ss[i]), ss, i + 1)
    } else {
        st
    }
}

/// Check a binding: infer its initializer with the written type as the
/// expected one, report a mismatch, and bind the pattern to the written type,
/// or to the inferred one where no type is written.
pub open spec fn ck_binding(st: CState, l: LetStmt, expected_from_type: bool) -> CState
    decreases l, 1int,
{
    let expected = match l.ty {
        Some(t) => if expected_from_type {
            Some(ast_ti(t))
        } else {
            None
        },
        None => None,
    };
    let (it, s1) = ck_expr(st, l.init, expected);
    match l.ty {
        Some(t) => def_pattern(check_fits(s1, it, ast_ti(t), l.span), l.pattern, ast_ti(t)),
        None => def_pattern(s1, l.pattern, it),
    }
}

/// Check a statement.
pub open spec fn ck_stmt(st: CState, s: Stmt) -> CState
    decreases s, 0int,
{
    match s {
        Stmt::Let(l) => ck_binding(st, l, true),
        Stmt::Const(c) => ck_const(st, c),
        Stmt::Expr(x) => ck_expr(st, x.expr, None).1,
        Stmt::If(i) => ck_if(st, i),
        Stmt::Match(m) => ck_match(st, m),
        Stmt::For(f) => ck_for(st, f),
        Stmt::While(w) => ck_while(st, w),
        Stmt::Loop(l) => c_pop(ck_block(c_push(st), l.body)),
        Stmt::Return(r) => ck_return(st, r),
        Stmt::Break(_) => st,
        Stmt::Continue(_) => st,
        Stmt::Traverse(t) => ck_traverse(st, t),
    }
}

/// Check a `const` statement.
pub open spec fn ck_const(st: CState, c: ConstStmt) -> CState
    decreases c, 0int,
{
    let (it, s1) = ck_expr(st, c.init, None);
    match c.ty {
        Some(t) => c_define(check_fits(s1, it, ast_ti(t), c.span), c.name@, ast_ti(t)),
        None => c_define(s1, c.name@, it),
    }
}

/// Check a `match` statement: its scrutinee, then each arm body in its own scope.
pub open spec fn ck_match(st: CState, m: MatchStmt) -> CState
    decreases m, 0int,
{
    ck_arm_bodies(ck_expr(st, m.scrutinee, None).1, m.arms@, 0, None)
}

/// Check a `for` loop: the pattern binds the element type of the iterated value.
pub open spec fn ck_for(st: CState, f: ForStmt) -> CState
    decreases f, 0int,
{
    let (it, s1) = ck_expr(st, f.iter, None);
    c_pop(ck_block(def_pattern(c_push(s1), f.pattern, elem_ti(it)), f.body))
}

/// Check a `while` loop.
pub open spec fn ck_while(st: CState, w: WhileStmt) -> CState
    decreases w, 0int,
{
    let (ct, s1) = ck_expr(st, w.condition, None);
    c_pop(ck_block(c_push(check_cond(s1, ct, w.span)), w.body))
}

/// Check a `traverse` statement: its target, then an inline visitor's state
/// and methods in a scope of their own.
pub open spec fn ck_traverse(st: CState, t: TraverseStmt) -> CState
    decreases t, 0int,
{
    let s1 = ck_expr(st, t.target, None).1;
    match t.kind {
        TraverseKind::Inline(iv) => c_pop(ck_methods(ck_state(c_push(s1), iv.state@, 0), iv.methods@, 0)),
        TraverseKind::Delegated(_) => s1,
    }
}

/// Check an `if` statement.
pub open spec fn ck_if(st: CState, i: IfStmt) -> CState
    decreases i, 0int,
{
    let (ct, s1) = ck_expr(st, i.condition, None);
    // The condition of an `if let` is a pattern match, not a boolean
    let s2 = if i.pattern is None {
        check_cond(s1, ct, i.span)
    } else {
        s1
    };
    let s3 = c_pop(ck_block(c_push(s2), i.then_branch));
    let s4 = ck_else_ifs(s3, i.else_if_branches@, 0, i.span);
    match i.else_branch {
        Some(b) => c_pop(ck_block(c_push(s4), b)),
        None => s4,
    }
}

/// Check a `return` statement against the current result type.
pub open spec fn ck_return(st: CState, r: ReturnStmt) -> CState
    decreases r, 0int,
{
    match r.value {
        Some(v) => {
            let (vt, s1) = ck_expr(st, v, st.ret);
            match st.ret {
                Some(e) => if !assignable(vt, e) {
                    c_err(s1, "RS003"@, mismatch("Return type mismatch: expected "@, e, vt), r.span)
                } else {
                    s1
                },
                None => s1,
            }
        },
        None => match st.ret {
            Some(e) => if !(e is Unit || e is Unknown) {
                c_err(st, "RS003"@, "Return type mismatch: expected "@ + display(e) + ", found ()"@, r.span)
            } else {
                st
            },
            None => st,
        },
    }
}

/// Check `else if` branches from index `i` on; a condition that is not `bool`
/// is reported at the span of the whole `if`.
pub open spec fn ck_else_ifs(st: CState, bs: Seq<(Expr, Block)>, i: int, span: Span) -> CState
    decreases bs, bs.len() - i,
{
    if 0 <= i < bs.len() {
        let (ct, s1) = ck_expr(st, bs[i].0, None);
        ck_else_ifs(c_pop(ck_block(c_push(check_cond(s1, ct, span)), bs[i].1)), bs, i + 1, span)
    } else {
        st
    }
}

/// Check the state bindings of an inline visitor from index `i` on; their
/// initializers are inferred with no expected type.
pub open spec fn ck_state(st: CState, ls: Seq<LetStmt>, i: int) -> CState
    decreases ls, ls.len() - i,
{
    if 0 <= i < ls.len() {
        ck_state(ck_binding(st, ls[i], false), ls, i + 1)
    } else {
        st
    }
}

/// Check the methods of an inline visitor from index `i` on.
pub open spec fn ck_methods(st: CState, fs: Seq<FnDecl>, i: int) -> CState
    decreases fs, fs.len() - i,
{
    if 0 <= i < fs.len() {
        ck_methods(ck_function(st, fs[i]), fs, i + 1)
    } else {
        st
    }
}

/// Check a function: its result type is the one returned values are checked
/// against, its parameters are bound in a scope of its own, and afterwards the
/// result type current before it (that of an enclosing function) is current again.
pub open spec fn ck_function(st: CState, f: FnDecl) -> CState
    decreases f, 0int,
{
    let s1 = c_push(CState { ret: Some(ret_ti(f.return_type)), ..st });
    let s2 = c_pop(ck_block(bind_params(s1, f.params@, 0), f.body));
    CState { ret: st.ret, ..s2 }
}

/// Bind parameters from index `i` on to their written types.
pub open spec fn bind_params(st: CState, ps: Seq<Param>, i: int) -> CState
    decreases ps.len() - i,
{
    if 0 <= i < ps.len() {
        bind_params(c_define(st, ps[i].name@, ast_ti(ps[i].ty)), ps, i + 1)
    } else {
        st
    }
}

/// Check the functions among the items from index `i` on.
pub open spec fn ck_items(st: CState, items: Seq<PluginItem>, i: int) -> CState
    decreases items.len() - i,
{
    if 0 <= i < items.len() {
        let st1 = match items[i] {
            PluginItem::Function(f) => ck_function(st, f),
            _ => st,
        };
        ck_items(st1, items, i + 1)
    } else {
        st
    }
}

/// Check a program: the functions of a plugin, writer or module, in a scope of
/// their own; an interface needs nothing.
pub open spec fn ck_program(st: CState, p: Program) -> CState {
    match p.decl {
        TopLevelDecl::Plugin(pl) => c_pop(ck_items(c_push(st), pl.body@, 0)),
        TopLevelDecl::Writer(w) => c_pop(ck_items(c_push(st), w.body@, 0)),
        TopLevelDecl::Interface(_) => st,
        TopLevelDecl::Module(m) => c_pop(ck_items(c_push(st), m.items@, 0)),
    }
}

// ===================== the checker =====================

/// The value of an optional type.
pub open spec fn opt_ti(o: Option<TypeInfo>) -> Option<TypeInfoV> {
    match o {
        Some(t) => Some(t@),
        None => None,
    }
}

/// The value of an optional borrowed type.
pub open spec fn opt_ref_ti(o: Option<&TypeInfo>) -> Option<TypeInfoV> {
    match o {
        Some(t) => Some(t@),
        None => None,
    }
}

/// Type checker - validates types throughout the AST
pub struct TypeChecker {
    env: TypeEnv,
    errors: Vec<SemanticError>,
    /// Current function's return type (for return statement checking)
    current_return_type: Option<TypeInfo>,
}

/// `prefix`, the expected type, `, found ` and the type found.
fn mismatch_message(prefix: &str, expected: &TypeInfo, found: &TypeInfo) -> (r: String)
    ensures
        r@ == mismatch(prefix@, expected@, found@),
{
    let e = expected.display_name();
    let f = found.display_name();
    let head = joined3(prefix, e.as_str(), ", found ");
    joined(head.as_str(), f.as_str())
}

/// The type of the elements a `for` loop takes from a value of the given type.
fn element_type(iter_type: &TypeInfo) -> (r: TypeInfo)
    ensures
        r@ == elem_ti(iter_type@),
{
    match iter_type {
        TypeInfo::Vec(inner) => inner.copy(),
        TypeInfo::Ref { mutable, inner } => {
            proof {
                assert(iter_type@ == (TypeInfoV::Ref { mutable: *mutable, inner: Box::new((**inner)@) }));
            }
            if let TypeInfo::Vec(elem) = &**inner {
                proof {
                    assert((**inner)@ == TypeInfoV::Vec(Box::new((**elem)@)));
                }
                ti_ref(false, elem.copy())
            } else {
                TypeInfo::Unknown
            }
        },
        _ => TypeInfo::Unknown,
    }
}

/// The type of an indexing into a value of the given type.
fn index_type(t: &TypeInfo) -> (r: TypeInfo)
    ensures
        r@ == index_ti(t@),
{
    match t {
        TypeInfo::Vec(inner) => {
            proof {
                assert(t@ == TypeInfoV::Vec(Box::new((**inner)@)));
            }
            inner.copy()
        },
        TypeInfo::HashMap(k, v) => {
            proof {
                assert(t@ == TypeInfoV::HashMap(Box::new((**k)@), Box::new((**v)@)));
            }
            ti_option(v.copy())
        },
        _ => TypeInfo::Unknown,
    }
}

/// The type of a literal.
fn literal_type(lit: &Literal) -> (r: TypeInfo)
    ensures
        r@ == literal_ti(*lit),
{
    match lit {
        Literal::String(_) => TypeInfo::Str,
        Literal::Int(_) => TypeInfo::I32,
        Literal::Float(_) => TypeInfo::F64,
        Literal::Bool(_) => TypeInfo::Bool,
        Literal::Null => TypeInfo::Null,
        Literal::Unit => TypeInfo::Unit,
    }
}

impl TypeChecker {
    /// The environment, the errors and the current result type, as values.
    pub closed spec fn state(&self) -> CState {
        CState { env: self.env@, errors: v_errors(self.errors@), ret: opt_ti(self.current_return_type) }
    }

    /// A checker starting from a copy of the given environment.
    pub fn new(env: &TypeEnv) -> (r: Self)
        ensures
            r.state() == (CState { env: env@, errors: Seq::empty(), ret: None }),
    {
        let r = Self { env: env.clone(), errors: Vec::new(), current_return_type: None };
        assert(r.state().errors =~= Seq::<SemanticErrorV>::empty());
        r
    }

    /// Run type checking
    pub fn check(&mut self, program: &Program) -> (r: Result<(), Vec<SemanticError>>)
        ensures
            final(self).state().env == ck_program(old(self).state(), *program).env,
            final(self).state().ret == ck_program(old(self).state(), *program).ret,
            final(self).state().errors == Seq::<SemanticErrorV>::empty(),
            match r {
                Ok(()) => ck_program(old(self).state(), *program).errors.len() == 0,
                Err(es) => v_errors(es@) == ck_program(old(self).state(), *program).errors
                    && es@.len() > 0,
            },
    {
        match &program.decl {
            TopLevelDecl::Plugin(plugin) => self.check_items(&plugin.body),
            TopLevelDecl::Writer(writer) => self.check_items(&writer.body),
            TopLevelDecl::Interface(_) => {},  // Interfaces are type declarations, not code
            TopLevelDecl::Module(module) => self.check_items(&module.items),
        }
        if self.errors.len() == 0 {
            Ok(())
        } else {
            let mut errors: Vec<SemanticError> = Vec::new();
            std::mem::swap(&mut errors, &mut self.errors);
            assert(self.state().errors =~= Seq::<SemanticErrorV>::empty());
            Err(errors)
        }
    }

    /// Get the type environment
    pub fn into_env(self) -> (r: TypeEnv)
        ensures
            r@ == self.state().env,
    {
        self.env
    }

    /// Record an error.
    fn report(&mut self, code: &str, message: String, span: Span)
        ensures
            final(self).state() == c_err(old(self).state(), code@, message@, span),
    {
        let e = SemanticError::new(code, message, span);
        self.errors.push(e);
        assert(self.state().errors =~= old(self).state().errors.push(e@));
    }

    /// Report a value of type `found` where `expected` is declared, unless it fits.
    fn check_fits(&mut self, found: &TypeInfo, expected: &TypeInfo, span: Span)
        ensures
            final(self).state() == check_fits(old(self).state(), found@, expected@, span),
    {
        if !found.is_assignable_to(expected) {
            let message = mismatch_message("Type mismatch: expected ", expected, found);
            self.report("RS003", message, span);
        }
    }

    /// Report a condition whose type is neither `bool` nor unknown.
    fn check_cond(&mut self, cond_type: &TypeInfo, span: Span)
        ensures
            final(self).state() == check_cond(old(self).state(), cond_type@, span),
    {
        match cond_type {
            TypeInfo::Bool | TypeInfo::Unknown => {},
            _ => {
                let message = joined("Condition must be bool, found ", cond_type.display_name().as_str());
                self.report("RS003", message, span);
            },
        }
    }

    /// Check the functions of a plugin, writer or module body in a scope of their own.
    fn check_items(&mut self, items: &Vec<PluginItem>)
        ensures
            final(self).state() == c_pop(ck_items(c_push(old(self).state()), items@, 0)),
    {
        self.env.push_scope();
        let ghost st1 = self.state();
        let mut i: usize = 0;
        while i < items.len()
            invariant
                i <= items@.len(),
                ck_items(self.state(), items@, i as int) == ck_items(st1, items@, 0),
            decreases items@.len() - i,
        {
            if let PluginItem::Function(f) = &items[i] {
                self.check_function(f);
            }
            i = i + 1;
        }
        self.env.pop_scope();
    }

    fn check_function(&mut self, f: &FnDecl)
        ensures
            final(self).state() == ck_function(old(self).state(), *f),
        decreases f, 0nat,
    {
        let return_type = match &f.return_type {
            Some(t) => ast_type_to_type_info(t),
            None => TypeInfo::Unit,
        };
        // The enclosing function's result type is kept and put back afterwards
        let mut saved: Option<TypeInfo> = Some(return_type);
        std::mem::swap(&mut saved, &mut self.current_return_type);
        self.env.push_scope();
        // Define parameters
        let ghost st1 = self.state();
        let mut i: usize = 0;
        while i < f.params.len()
            invariant
                i <= f.params@.len(),
                bind_params(self.state(), f.params@, i as int) == bind_params(st1, f.params@, 0),
            decreases f.params@.len() - i,
        {
            let param = &f.params[i];
            let ty = ast_type_to_type_info(&param.ty);
            self.env.define(param.name.clone(), ty);
            i = i + 1;
        }
        // Check body
        self.check_block(&f.body);
        self.env.pop_scope();
        self.current_return_type = saved;
    }

    fn check_block(&mut self, block: &Block)
        ensures
            final(self).state() == ck_block(old(self).state(), *block),
        decreases block, 0nat,
    {
        let mut i: usize = 0;
        while i < block.stmts.len()
            invariant
                i <= block.stmts@.len(),
                ck_stmts(self.state(), block.stmts@, i as int) == ck_block(old(self).state(), *block),
            decreases block.stmts@.len() - i,
        {
            self.check_stmt(&block.stmts[i]);
            i = i + 1;
        }
    }

    /// Check a block in a scope of its own.
    fn check_scoped_block(&mut self, block: &Block)
        ensures
            final(self).state() == c_pop(ck_block(c_push(old(self).state()), *block)),
        decreases block, 1nat,
    {
        self.env.push_scope();
        self.check_block(block);
        self.env.pop_scope();
    }
}

impl TypeChecker {
    fn check_stmt(&mut self, stmt: &Stmt)
        ensures
            final(self).state() == ck_stmt(old(self).state(), *stmt),
        decreases stmt, 0nat,
    {
        match stmt {
            Stmt::Let(let_stmt) => {
                // The type annotation, if any, is the expected type for bidirectional inference
                self.check_binding(let_stmt, true);
            },
            Stmt::Const(const_stmt) => self.check_const_stmt(const_stmt),
            Stmt::Expr(expr_stmt) => {
                self.infer_expr(&expr_stmt.expr);
            },
            Stmt::If(if_stmt) => self.check_if_stmt(if_stmt),
            Stmt::Match(match_stmt) => self.check_match_stmt(match_stmt),
            Stmt::For(for_stmt) => self.check_for_stmt(for_stmt),
            Stmt::While(while_stmt) => self.check_while_stmt(while_stmt),
            Stmt::Loop(loop_stmt) => {
                self.check_scoped_block(&loop_stmt.body);
            },
            Stmt::Return(return_stmt) => self.check_return_stmt(return_stmt),
            Stmt::Break(_) | Stmt::Continue(_) => {},
            Stmt::Traverse(traverse_stmt) => self.check_traverse_stmt(traverse_stmt),
        }
    }

    /// Check a binding and bind its pattern; the written type is the expected
    /// type of the initializer where `expected_from_type` holds.
    fn check_binding(&mut self, let_stmt: &LetStmt, expected_from_type: bool)
        ensures
            final(self).state() == ck_binding(old(self).state(), *let_stmt, expected_from_type),
        decreases let_stmt, 1nat,
    {
        let declared: Option<TypeInfo> = match &let_stmt.ty {
            Some(t) => Some(ast_type_to_type_info(t)),
            None => None,
        };
        let init_type = if expected_from_type {
            let expected = match &declared {
                Some(t) => Some(t),
                None => None,
            };
            self.infer_expr_with_expected(&let_stmt.init, expected)
        } else {
            self.infer_expr(&let_stmt.init)
        };
        match declared {
            Some(declared_type) => {
                self.check_fits(&init_type, &declared_type, let_stmt.span);
                self.define_pattern_in_env(&let_stmt.pattern, declared_type);
            },
            None => {
                self.define_pattern_in_env(&let_stmt.pattern, init_type);
            },
        }
    }

    /// Check `else if` branches; a condition that is not `bool` is reported at `span`.
    fn check_else_ifs(&mut self, branches: &Vec<(Expr, Block)>, span: Span)
        ensures
            final(self).state() == ck_else_ifs(old(self).state(), branches@, 0, span),
        decreases branches, 0nat,
    {
        let mut i: usize = 0;
        while i < branches.len()
            invariant
                i <= branches@.len(),
                ck_else_ifs(self.state(), branches@, i as int, span) == ck_else_ifs(old(self).state(), branches@, 0, span),
            decreases branches@.len() - i,
        {
            let (cond, block) = &branches[i];
            let cond_type = self.infer_expr(cond);
            self.check_cond(&cond_type, span);
            self.check_scoped_block(block);
            i = i + 1;
        }
    }

    /// Check match arm bodies from index `start` on, each in its own scope.
    fn check_arm_bodies(&mut self, arms: &Vec<MatchArm>, start: usize, expected: Option<&TypeInfo>)
        ensures
            final(self).state() == ck_arm_bodies(old(self).state(), arms@, start as int, opt_ref_ti(expected)),
        decreases arms, 0nat,
    {
        let mut i: usize = start;
        while i < arms.len()
            invariant
                start <= i,
                ck_arm_bodies(self.state(), arms@, i as int, opt_ref_ti(expected)) == ck_arm_bodies(
                    old(self).state(),
                    arms@,
                    start as int,
                    opt_ref_ti(expected),
                ),
            decreases arms@.len() - i,
        {
            self.env.push_scope();
            self.infer_expr_with_expected(&arms[i].body, expected);
            self.env.pop_scope();
            i = i + 1;
        }
    }

    /// Check the state bindings of an inline visitor.
    fn check_state(&mut self, state: &Vec<LetStmt>)
        ensures
            final(self).state() == ck_state(old(self).state(), state@, 0),
        decreases state, 0nat,
    {
        let mut i: usize = 0;
        while i < state.len()
            invariant
                i <= state@.len(),
                ck_state(self.state(), state@, i as int) == ck_state(old(self).state(), state@, 0),
            decreases state@.len() - i,
        {
            self.check_binding(&state[i], false);
            i = i + 1;
        }
    }

    /// Check the methods of an inline visitor.
    fn check_methods(&mut self, methods: &Vec<FnDecl>)
        ensures
            final(self).state() == ck_methods(old(self).state(), methods@, 0),
        decreases methods, 0nat,
    {
        let mut i: usize = 0;
        while i < methods.len()
            invariant
                i <= methods@.len(),
                ck_methods(self.state(), methods@, i as int) == ck_methods(old(self).state(), methods@, 0),
            decreases methods@.len() - i,
        {
            self.check_function(&methods[i]);
            i = i + 1;
        }
    }

    /// Define variables from a pattern in the current environment
    fn define_pattern_in_env(&mut self, pattern: &Pattern, type_info: TypeInfo)
        ensures
            final(self).state() == def_pattern(old(self).state(), *pattern, type_info@),
        decreases pattern, 0nat,
    {
        match pattern {
            Pattern::Ident(name) => {
                self.env.define(name.clone(), type_info);
            },
            Pattern::Tuple(patterns) => {
                // Extract tuple element types if available
                match &type_info {
                    // Match each pattern with its corresponding type
                    TypeInfo::Tuple(elem_types) => self.define_patterns_in_env(patterns, Some(elem_types)),
                    // If not a tuple type, give all elements Unknown type
                    _ => self.define_patterns_in_env(patterns, None),
                }
            },
            Pattern::Or(patterns) => {
                // For OR patterns, all branches must bind the same variables with same types
                // For now, just define variables from the first pattern
                if patterns.len() > 0 {
                    self.define_pattern_in_env(&patterns[0], type_info);
                }
            },
            // Array, object, rest, struct and variant destructuring bind nothing yet;
            // literals and wildcards have no variables to define
            _ => {},
        }
    }

    /// Define the variables of tuple element patterns, each with the element
    /// type at its index where the tuple's types are known, unknown otherwise.
    fn define_patterns_in_env(&mut self, patterns: &Vec<Pattern>, elem_types: Option<&Vec<TypeInfo>>)
        ensures
            final(self).state() == def_patterns(
                old(self).state(),
                patterns@,
                match elem_types {
                    Some(ts) => Some(v_tis(ts@)),
                    None => None,
                },
                0,
            ),
        decreases patterns, 0nat,
    {
        let ghost ts = match elem_types {
            Some(ts) => Some(v_tis(ts@)),
            None => None,
        };
        let mut i: usize = 0;
        while i < patterns.len()
            invariant
                i <= patterns@.len(),
                ts == match elem_types {
                    Some(ts) => Some(v_tis(ts@)),
                    None => None::<Seq<TypeInfoV>>,
                },
                def_patterns(self.state(), patterns@, ts, i as int) == def_patterns(old(self).state(), patterns@, ts, 0),
            decreases patterns@.len() - i,
        {
            let elem_type = match elem_types {
                Some(types) => {
                    proof {
                        lemma_v_tis_len(types@);
                    }
                    if i < types.len() {
                        proof {
                            lemma_v_tis_index(types@, i as int);
                        }
                        types[i].copy()
                    } else {
                        TypeInfo::Unknown
                    }
                },
                None => TypeInfo::Unknown,
            };
            self.define_pattern_in_env(&patterns[i], elem_type);
            i = i + 1;
        }
    }
}

impl TypeChecker {
    /// Infer the type of an expression
    fn infer_expr(&mut self, expr: &Expr) -> (r: TypeInfo)
        ensures
            (r@, final(self).state()) == ck_expr(old(self).state(), *expr, None),
        decreases expr, 2nat,
    {
        self.infer_expr_with_expected(expr, None)
    }

    /// Infer expression type with an expected type hint for bidirectional inference
    fn infer_expr_with_expected(&mut self, expr: &Expr, expected: Option<&TypeInfo>) -> (r: TypeInfo)
        ensures
            (r@, final(self).state()) == ck_expr(old(self).state(), *expr, opt_ref_ti(expected)),
        decreases expr, 1nat,
    {
        match expr {
            Expr::Literal(lit) => literal_type(lit),
            Expr::Ident(ident) => match self.env.lookup(ident.name.as_str()) {
                Some(t) => t.copy(),
                None => TypeInfo::Unknown,
            },
            Expr::Binary(binary) => self.infer_binary(binary),
            Expr::Unary(unary) => self.infer_unary(unary),
            Expr::Call(call) => self.infer_call(call),
            Expr::Member(member) => {
                let obj_type = self.infer_expr(&member.object);
                self.get_field_type(&obj_type, member.property.as_str())
            },
            Expr::Index(index) => self.infer_index(index),
            Expr::StructInit(init) => self.infer_struct_init(init),
            Expr::VecInit(vec_init) => self.infer_vec_init(vec_init, expected),
            Expr::If(if_expr) => self.infer_if_expr(if_expr),
            Expr::Match(match_expr) => self.infer_match_expr(match_expr, expected),
            Expr::Closure(closure) => self.infer_closure(closure),
            Expr::Ref(ref_expr) => {
                let inner = self.infer_expr(&ref_expr.expr);
                ti_ref(ref_expr.mutable, inner)
            },
            Expr::Deref(deref_expr) => {
                let inner = self.infer_expr(&deref_expr.expr);
                match inner.deref() {
                    Some(t) => t.copy(),
                    None => TypeInfo::Unknown,
                }
            },
            Expr::Assign(assign) => {
                self.infer_expr(&assign.target);
                self.infer_expr(&assign.value);
                TypeInfo::Unit
            },
            Expr::CompoundAssign(compound) => {
                self.infer_expr(&compound.target);
                self.infer_expr(&compound.value);
                TypeInfo::Unit
            },
            Expr::Range(range) => self.infer_range(range),
            Expr::Paren(inner) => self.infer_expr(inner),
            Expr::Block(block) => {
                // Type of a block is the type of its last expression (if any)
                self.env.push_scope();
                let result_type = self.block_value(&block.stmts);
                self.env.pop_scope();
                result_type
            },
            Expr::Try(inner) => {
                // Type of expr? is the Ok variant of Result<T, E>
                // For now, just return the inner type (simplified)
                self.infer_expr(inner)
            },
        }
    }

    /// Check call arguments, each with the parameter type at its index as the
    /// expected type where the callee's parameters are known.
    fn check_args(&mut self, args: &Vec<Expr>, params: Option<&Vec<TypeInfo>>)
        ensures
            final(self).state() == ck_args(
                old(self).state(),
                args@,
                match params {
                    Some(ps) => Some(v_tis(ps@)),
                    None => None,
                },
                0,
            ),
        decreases args, 0nat,
    {
        let ghost ps = match params {
            Some(ps) => Some(v_tis(ps@)),
            None => None,
        };
        let mut i: usize = 0;
        while i < args.len()
            invariant
                i <= args@.len(),
                ps == match params {
                    Some(ps) => Some(v_tis(ps@)),
                    None => None::<Seq<TypeInfoV>>,
                },
                ck_args(self.state(), args@, ps, i as int) == ck_args(old(self).state(), args@, ps, 0),
            decreases args@.len() - i,
        {
            let expected_param = match params {
                Some(ps) => {
                    proof {
                        lemma_v_tis_len(ps@);
                    }
                    if i < ps.len() {
                        proof {
                            lemma_v_tis_index(ps@, i as int);
                        }
                        Some(&ps[i])
                    } else {
                        None
                    }
                },
                None => None,
            };
            self.infer_expr_with_expected(&args[i], expected_param);
            i = i + 1;
        }
    }

    /// Check the values of struct literal fields; where the struct's fields are
    /// known, each value is checked against its field's type.
    fn check_init_fields(
        &mut self,
        values: &Vec<(String, Expr)>,
        fields: Option<&Vec<(String, TypeInfo)>>,
        span: Span,
    )
        ensures
            final(self).state() == ck_init_fields(
                old(self).state(),
                values@,
                match fields {
                    Some(fs) => Some(v_fields(fs@)),
                    None => None,
                },
                0,
                span,
            ),
        decreases values, 0nat,
    {
        let ghost ds = match fields {
            Some(fs) => Some(v_fields(fs@)),
            None => None,
        };
        let mut i: usize = 0;
        while i < values.len()
            invariant
                i <= values@.len(),
                ds == match fields {
                    Some(fs) => Some(v_fields(fs@)),
                    None => None::<Seq<(Seq<char>, TypeInfoV)>>,
                },
                ck_init_fields(self.state(), values@, ds, i as int, span) == ck_init_fields(
                    old(self).state(),
                    values@,
                    ds,
                    0,
                    span,
                ),
            decreases values@.len() - i,
        {
            let (field_name, value) = &values[i];
            match fields {
                Some(fs) => {
                    // Pass expected field type for bidirectional inference
                    let field_expected = find_last(fs, field_name.as_str());
                    let value_type = self.infer_expr_with_expected(value, field_expected);
                    if let Some(expected_type) = field_expected {
                        if !value_type.is_assignable_to(expected_type) {
                            let prefix = joined3("Field '", field_name.as_str(), "' type mismatch: expected ");
                            let message = mismatch_message(prefix.as_str(), expected_type, &value_type);
                            self.report("RS003", message, span);
                        }
                    }
                },
                None => {
                    self.infer_expr(value);
                },
            }
            i = i + 1;
        }
    }

    /// Bind closure parameters to fresh type variables.
    fn bind_closure_params(&mut self, params: &Vec<String>)
        ensures
            final(self).state() == bind_closure_params(old(self).state(), params@, 0),
    {
        let mut i: usize = 0;
        while i < params.len()
            invariant
                i <= params@.len(),
                bind_closure_params(self.state(), params@, i as int) == bind_closure_params(old(self).state(), params@, 0),
            decreases params@.len() - i,
        {
            let var_type = self.env.fresh_var();
            self.env.define(params[i].clone(), var_type);
            i = i + 1;
        }
    }

    /// The type of a block's statements used as a value: that of its last
    /// expression statement, `()` if it has none.
    fn block_value(&mut self, stmts: &Vec<Stmt>) -> (r: TypeInfo)
        ensures
            (r@, final(self).state()) == ck_block_value(old(self).state(), stmts@, 0, TypeInfoV::Unit),
        decreases stmts, 0nat,
    {
        let mut result_type = TypeInfo::Unit;
        let mut i: usize = 0;
        while i < stmts.len()
            invariant
                i <= stmts@.len(),
                ck_block_value(self.state(), stmts@, i as int, result_type@) == ck_block_value(
                    old(self).state(),
                    stmts@,
                    0,
                    TypeInfoV::Unit,
                ),
            decreases stmts@.len() - i,
        {
            match &stmts[i] {
                Stmt::Expr(expr_stmt) => {
                    // Last expression statement determines block type
                    result_type = self.infer_expr(&expr_stmt.expr);
                },
                stmt => {
                    self.check_stmt(stmt);
                },
            }
            i = i + 1;
        }
        result_type
    }

    /// Get the type of a field access
    fn get_field_type(&self, obj_type: &TypeInfo, field: &str) -> (r: TypeInfo)
        ensures
            r@ == field_ti(obj_type@, field@),
        decreases obj_type,
    {
        match obj_type {
            TypeInfo::Struct { fields, .. } => match find_last(fields, field) {
                Some(t) => t.copy(),
                None => TypeInfo::Unknown,
            },
            TypeInfo::Ref { inner, .. } => self.get_field_type(inner, field),
            TypeInfo::AstNode(_) => {
                // AST nodes have various fields
                if str_eq(field, "name") || str_eq(field, "value") || str_eq(field, "operator") || str_eq(
                    field,
                    "kind",
                ) {
                    TypeInfo::Str
                } else if str_eq(field, "body") || str_eq(field, "params") || str_eq(field, "arguments")
                    || str_eq(field, "elements") || str_eq(field, "properties") {
                    ti_vec(TypeInfo::Unknown)
                } else {
                    TypeInfo::Unknown
                }
            },
            _ => TypeInfo::Unknown,
        }
    }

    /// Infer return type of a method call
    fn infer_method_call(&self, obj_type: &TypeInfo, method: &str, _args: &[Expr]) -> (r: TypeInfo)
        ensures
            r@ == method_ti(obj_type@, method@),
        decreases obj_type,
    {
        let m = method;
        match obj_type {
            // String methods
            TypeInfo::Str => {
                if str_eq(m, "clone") {
                    TypeInfo::Str
                } else if str_eq(m, "len") {
                    TypeInfo::I32
                } else if str_eq(m, "is_empty") {
                    TypeInfo::Bool
                } else if str_eq(m, "starts_with") || str_eq(m, "ends_with") || str_eq(m, "contains") {
                    TypeInfo::Bool
                } else if str_eq(m, "to_uppercase") || str_eq(m, "to_lowercase") {
                    TypeInfo::Str
                } else if str_eq(m, "chars") {
                    ti_vec(TypeInfo::Str)
                } else {
                    TypeInfo::Unknown
                }
            },
            // Vec methods
            TypeInfo::Vec(inner) => {
                if str_eq(m, "clone") {
                    ti_vec(inner.copy())
                } else if str_eq(m, "len") {
                    TypeInfo::I32
                } else if str_eq(m, "is_empty") {
                    TypeInfo::Bool
                } else if str_eq(m, "push") {
                    TypeInfo::Unit
                } else if str_eq(m, "pop") {
                    ti_option(inner.copy())
                } else if str_eq(m, "get") {
                    ti_option(ti_ref(false, inner.copy()))
                } else if str_eq(m, "iter") {
                    ti_vec(inner.copy())
                } else if str_eq(m, "collect") {
                    ti_vec(TypeInfo::Unknown)
                } else {
                    TypeInfo::Unknown
                }
            },
            // Option methods
            TypeInfo::Option(inner) => {
                if str_eq(m, "unwrap") || str_eq(m, "unwrap_or") || str_eq(m, "unwrap_or_else") {
                    inner.copy()
                } else if str_eq(m, "is_some") || str_eq(m, "is_none") {
                    TypeInfo::Bool
                } else if str_eq(m, "map") || str_eq(m, "and_then") {
                    ti_option(inner.copy())
                } else {
                    TypeInfo::Unknown
                }
            },
            // HashMap methods
            TypeInfo::HashMap(_, v) => {
                if str_eq(m, "get") {
                    ti_option(ti_ref(false, v.copy()))
                } else if str_eq(m, "insert") {
                    TypeInfo::Unit
                } else if str_eq(m, "contains_key") {
                    TypeInfo::Bool
                } else if str_eq(m, "len") {
                    TypeInfo::I32
                } else {
                    TypeInfo::Unknown
                }
            },
            // Reference dereferencing for method calls
            TypeInfo::Ref { inner, .. } => self.infer_method_call(inner, method, _args),
            // AST node methods
            TypeInfo::AstNode(n) => {
                if str_eq(m, "clone") {
                    TypeInfo::AstNode(n.clone())
                } else if str_eq(m, "visit_children") {
                    TypeInfo::Unit
                } else {
                    TypeInfo::Unknown
                }
            },
            _ => TypeInfo::Unknown,
        }
    }
}

impl TypeChecker {
    /// Check an `if` statement.
    fn check_if_stmt(&mut self, if_stmt: &IfStmt)
        ensures
            final(self).state() == ck_if(old(self).state(), *if_stmt),
        decreases if_stmt, 0nat,
    {
        let cond_type = self.infer_expr(&if_stmt.condition);
        // For if-let, the condition is a pattern match expression, not a boolean
        // Only check for bool if there's no pattern
        if if_stmt.pattern.is_none() {
            self.check_cond(&cond_type, if_stmt.span);
        }
        self.check_scoped_block(&if_stmt.then_branch);
        self.check_else_ifs(&if_stmt.else_if_branches, if_stmt.span);
        if let Some(else_block) = &if_stmt.else_branch {
            self.check_scoped_block(else_block);
        }
    }

    /// Check a `return` statement.
    fn check_return_stmt(&mut self, return_stmt: &ReturnStmt)
        ensures
            final(self).state() == ck_return(old(self).state(), *return_stmt),
        decreases return_stmt, 0nat,
    {
        if let Some(value) = &return_stmt.value {
            // Copy the expected type: checking the value may change the current one
            let expected_return = match &self.current_return_type {
                Some(t) => Some(t.copy()),
                None => None,
            };
            // Pass expected return type for bidirectional inference
            let expected_ref = match &expected_return {
                Some(t) => Some(t),
                None => None,
            };
            let value_type = self.infer_expr_with_expected(value, expected_ref);
            if let Some(expected) = &expected_return {
                if !value_type.is_assignable_to(expected) {
                    let message = mismatch_message("Return type mismatch: expected ", expected, &value_type);
                    self.report("RS003", message, return_stmt.span);
                }
            }
        } else {
            let message = match &self.current_return_type {
                Some(expected) => match expected {
                    TypeInfo::Unit | TypeInfo::Unknown => None,
                    _ => Some(
                        joined3("Return type mismatch: expected ", expected.display_name().as_str(), ", found ()"),
                    ),
                },
                None => None,
            };
            if let Some(message) = message {
                self.report("RS003", message, return_stmt.span);
            }
        }
    }
}

impl TypeChecker {
    /// Check a `const` statement.
    fn check_const_stmt(&mut self, const_stmt: &ConstStmt)
        ensures
            final(self).state() == ck_const(old(self).state(), *const_stmt),
        decreases const_stmt, 0nat,
    {
        let init_type = self.infer_expr(&const_stmt.init);
        match &const_stmt.ty {
            Some(type_ann) => {
                let declared_type = ast_type_to_type_info(type_ann);
                self.check_fits(&init_type, &declared_type, const_stmt.span);
                self.env.define(const_stmt.name.clone(), declared_type);
            },
            None => {
                self.env.define(const_stmt.name.clone(), init_type);
            },
        }
    }

    /// Check a `match` statement.
    fn check_match_stmt(&mut self, match_stmt: &MatchStmt)
        ensures
            final(self).state() == ck_match(old(self).state(), *match_stmt),
        decreases match_stmt, 0nat,
    {
        let _scrutinee_type = self.infer_expr(&match_stmt.scrutinee);
        self.check_arm_bodies(&match_stmt.arms, 0, None);
    }

    /// Check a `for` loop.
    fn check_for_stmt(&mut self, for_stmt: &ForStmt)
        ensures
            final(self).state() == ck_for(old(self).state(), *for_stmt),
        decreases for_stmt, 0nat,
    {
        let iter_type = self.infer_expr(&for_stmt.iter);
        // Determine element type
        let elem_type = element_type(&iter_type);
        self.env.push_scope();
        // Define variables from pattern
        self.define_pattern_in_env(&for_stmt.pattern, elem_type);
        self.check_block(&for_stmt.body);
        self.env.pop_scope();
    }

    /// Check a `while` loop.
    fn check_while_stmt(&mut self, while_stmt: &WhileStmt)
        ensures
            final(self).state() == ck_while(old(self).state(), *while_stmt),
        decreases while_stmt, 0nat,
    {
        let cond_type = self.infer_expr(&while_stmt.condition);
        self.check_cond(&cond_type, while_stmt.span);
        self.check_scoped_block(&while_stmt.body);
    }

    /// Check a `traverse` statement.
    fn check_traverse_stmt(&mut self, traverse_stmt: &TraverseStmt)
        ensures
            final(self).state() == ck_traverse(old(self).state(), *traverse_stmt),
        decreases traverse_stmt, 0nat,
    {
        // Check the target expression
        self.infer_expr(&traverse_stmt.target);
        // Check the traverse kind
        match &traverse_stmt.kind {
            TraverseKind::Inline(inline) => {
                self.env.push_scope();
                // Check state variables
                self.check_state(&inline.state);
                // Check methods
                self.check_methods(&inline.methods);
                self.env.pop_scope();
            },
            TraverseKind::Delegated(_visitor_name) => {
                // Visitor name validation would happen here
            },
        }
    }
}

impl TypeChecker {
    /// The type of a binary operation.
    fn infer_binary(&mut self, binary: &BinaryExpr) -> (r: TypeInfo)
        ensures
            (r@, final(self).state()) == ck_binary(old(self).state(), *binary),
        decreases binary, 0nat,
    {
        let left_type = self.infer_expr(&binary.left);
        let right_type = self.infer_expr(&binary.right);
        match binary.op {
            // Arithmetic operators
            BinaryOp::Add | BinaryOp::Sub | BinaryOp::Mul | BinaryOp::Div | BinaryOp::Mod => {
                // If either is f64, result is f64
                if matches!(left_type, TypeInfo::F64) || matches!(right_type, TypeInfo::F64) {
                    TypeInfo::F64
                } else if matches!(left_type, TypeInfo::Str) {
                    // String concatenation
                    TypeInfo::Str
                } else {
                    TypeInfo::I32
                }
            },
            // Comparison and logical operators return bool
            _ => TypeInfo::Bool,
        }
    }

    /// The type of a unary operation.
    fn infer_unary(&mut self, unary: &UnaryExpr) -> (r: TypeInfo)
        ensures
            (r@, final(self).state()) == ck_unary(old(self).state(), *unary),
        decreases unary, 0nat,
    {
        let operand_type = self.infer_expr(&unary.operand);
        match unary.op {
            UnaryOp::Not => TypeInfo::Bool,
            UnaryOp::Neg => operand_type,
            UnaryOp::Deref => match operand_type.deref() {
                Some(t) => t.copy(),
                None => TypeInfo::Unknown,
            },
            UnaryOp::Ref => ti_ref(false, operand_type),
            UnaryOp::RefMut => ti_ref(true, operand_type),
        }
    }

    /// The type of a call.
    fn infer_call(&mut self, call: &CallExpr) -> (r: TypeInfo)
        ensures
            (r@, final(self).state()) == ck_call(old(self).state(), *call),
        decreases call, 0nat,
    {
        let callee_type = self.infer_expr(&call.callee);
        // Check arguments with expected parameter types for bidirectional inference
        match &callee_type {
            TypeInfo::Function { params, ret } => {
                proof {
                    assert(callee_type@ == (TypeInfoV::Function { params: v_tis(params@), ret: Box::new((**ret)@) }));
                }
                self.check_args(&call.args, Some(params));
                ret.copy()
            },
            _ => {
                // Method calls on known types
                if let Expr::Member(member) = &*call.callee {
                    let obj_type = self.infer_expr(&member.object);
                    return self.infer_method_call(&obj_type, member.property.as_str(), call.args.as_slice());
                }
                // Unknown callee - just check arguments without expected types
                self.check_args(&call.args, None);
                TypeInfo::Unknown
            },
        }
    }

    /// The type of an indexing.
    fn infer_index(&mut self, index: &IndexExpr) -> (r: TypeInfo)
        ensures
            (r@, final(self).state()) == ck_index(old(self).state(), *index),
        decreases index, 0nat,
    {
        let obj_type = self.infer_expr(&index.object);
        self.infer_expr(&index.index);
        index_type(&obj_type)
    }

    /// The type of a struct literal.
    fn infer_struct_init(&mut self, init: &StructInitExpr) -> (r: TypeInfo)
        ensures
            (r@, final(self).state()) == ck_struct_init(old(self).state(), *init),
        decreases init, 0nat,
    {
        // Check field types
        let fields = match self.env.get_struct_fields(init.name.as_str()) {
            Some(fields) => Some(copy_fields(fields)),
            None => None,
        };
        match fields {
            Some(fields) => {
                self.check_init_fields(&init.fields, Some(&fields), init.span);
                TypeInfo::Struct { name: init.name.clone(), fields }
            },
            None => {
                // AST node type
                self.check_init_fields(&init.fields, None, init.span);
                TypeInfo::AstNode(init.name.clone())
            },
        }
    }

    /// The type of a vector literal.
    fn infer_vec_init(&mut self, vec_init: &VecInitExpr, expected: Option<&TypeInfo>) -> (r: TypeInfo)
        ensures
            (r@, final(self).state()) == ck_vec_init(old(self).state(), *vec_init, opt_ref_ti(expected)),
        decreases vec_init, 0nat,
    {
        if vec_init.elements.len() == 0 {
            // Use expected type if available (e.g., from struct field or variable annotation)
            match expected {
                Some(TypeInfo::Vec(inner)) => {
                proof {
                    assert(opt_ref_ti(expected) == Some(TypeInfoV::Vec(Box::new((**inner)@))));
                }
                ti_vec(inner.copy())
            },
                _ => ti_vec(TypeInfo::Unknown),
            }
        } else {
            // Infer from first element
            let elem_type = self.infer_expr(&vec_init.elements[0]);
            ti_vec(elem_type)
        }
    }

    /// The type of an `if` expression.
    fn infer_if_expr(&mut self, if_expr: &IfExpr) -> (r: TypeInfo)
        ensures
            (r@, final(self).state()) == ck_if_expr(old(self).state(), *if_expr),
        decreases if_expr, 0nat,
    {
        self.infer_expr(&if_expr.condition);
        self.check_scoped_block(&if_expr.then_branch);
        if let Some(else_block) = &if_expr.else_branch {
            self.check_scoped_block(else_block);
        }
        TypeInfo::Unit
    }

    /// The type of a `match` expression.
    fn infer_match_expr(&mut self, match_expr: &MatchExpr, expected: Option<&TypeInfo>) -> (r: TypeInfo)
        ensures
            (r@, final(self).state()) == ck_match_expr(old(self).state(), *match_expr, opt_ref_ti(expected)),
        decreases match_expr, 0nat,
    {
        self.infer_expr(&match_expr.scrutinee);
        // Infer first arm to establish expected type for other arms
        let first_arm_type = if match_expr.arms.len() > 0 {
            self.env.push_scope();
            let t = self.infer_expr_with_expected(&match_expr.arms[0].body, expected);
            self.env.pop_scope();
            t
        } else {
            TypeInfo::Unknown
        };
        let arm_expected_owned: Option<TypeInfo> = if matches!(first_arm_type, TypeInfo::Unknown) {
            match expected {
                Some(t) => Some(t.copy()),
                None => None,
            }
        } else {
            Some(first_arm_type.copy())
        };
        let arm_expected = match &arm_expected_owned {
            Some(t) => Some(t),
            None => None,
        };
        self.check_arm_bodies(&match_expr.arms, 1, arm_expected);
        first_arm_type
    }

    /// The type of a closure.
    fn infer_closure(&mut self, closure: &ClosureExpr) -> (r: TypeInfo)
        ensures
            (r@, final(self).state()) == ck_closure(old(self).state(), *closure),
        decreases closure, 0nat,
    {
        self.env.push_scope();
        self.bind_closure_params(&closure.params);
        let body_type = self.infer_expr(&closure.body);
        self.env.pop_scope();
        let mut params: Vec<TypeInfo> = Vec::new();
        let mut i: usize = 0;
        while i < closure.params.len()
            invariant
                i <= closure.params@.len(),
                v_tis(params@) == Seq::new(i as nat, |k: int| TypeInfoV::Unknown),
            decreases closure.params@.len() - i,
        {
            let ghost before = params@;
            params.push(TypeInfo::Unknown);
            proof {
                lemma_v_tis_push(before, TypeInfo::Unknown);
                assert(v_tis(params@) =~= Seq::new((i + 1) as nat, |k: int| TypeInfoV::Unknown));
            }
            i = i + 1;
        }
        ti_function(params, body_type)
    }

    /// The type of a range.
    fn infer_range(&mut self, range: &RangeExpr) -> (r: TypeInfo)
        ensures
            (r@, final(self).state()) == ck_range(old(self).state(), *range),
        decreases range, 0nat,
    {
        if let Some(start) = &range.start {
            self.infer_expr(start);
        }
        if let Some(end) = &range.end {
            self.infer_expr(end);
        }
        TypeInfo::Unknown  // Range type
    }
}

// ===================== what checking keeps =====================

/// The second state has as many scopes as the first, all but the innermost
/// of them unchanged, the same current result type, and the errors of the
/// first come first in it, in the same order.
pub open spec fn c_keeps(a: CState, b: CState) -> bool {
    &&& b.env.scopes.len() == a.env.scopes.len()
    &&& b.env.scopes.drop_last() == a.env.scopes.drop_last()
    &&& b.ret == a.ret
    &&& a.errors.len() <= b.errors.len()
    &&& forall|i: int| 0 <= i < a.errors.len() ==> #[trigger] b.errors[i] == a.errors[i]
}

proof fn lemma_c_trans(a: CState, b: CState, c: CState)
    requires
        c_keeps(a, b),
        c_keeps(b, c),
    ensures
        c_keeps(a, c),
{
    assert forall|i: int| 0 <= i < a.errors.len() implies #[trigger] c.errors[i] == a.errors[i] by {
        assert(b.errors[i] == a.errors[i]);
    }
}

/// Entering a scope, keeping what checking keeps inside it, and leaving it
/// again keeps the number of scopes and the earlier errors.
proof fn lemma_c_scoped(st: CState, inner: CState)
    requires
        st.env.scopes.len() >= 1,
        c_keeps(c_push(st), inner),
    ensures
        c_keeps(st, c_pop(inner)),
        c_pop(inner).env.scopes == st.env.scopes,
{
    assert(c_push(st).env.scopes.drop_last() =~= st.env.scopes);
}

proof fn lemma_c_define_keeps(st: CState, k: Seq<char>, t: TypeInfoV)
    requires
        st.env.scopes.len() >= 1,
    ensures
        c_keeps(st, c_define(st, k, t)),
{
    assert(c_define(st, k, t).env.scopes.drop_last() =~= st.env.scopes.drop_last());
}

proof fn lemma_c_bind_fresh_keeps(st: CState, k: Seq<char>)
    requires
        st.env.scopes.len() >= 1,
    ensures
        c_keeps(st, c_bind_fresh(st, k)),
{
    assert(c_bind_fresh(st, k).env.scopes.drop_last() =~= st.env.scopes.drop_last());
}

proof fn lemma_def_pattern_keeps(st: CState, p: Pattern, t: TypeInfoV)
    requires
        st.env.scopes.len() >= 1,
    ensures
        c_keeps(st, def_pattern(st, p, t)),
    decreases p, 0int,
{
    match p {
        Pattern::Ident(name) => lemma_c_define_keeps(st, name@, t),
        Pattern::Tuple(ps) => match t {
            TypeInfoV::Tuple(ts) => lemma_def_patterns_keeps(st, ps@, Some(ts), 0),
            _ => lemma_def_patterns_keeps(st, ps@, None, 0),
        },
        Pattern::Or(ps) => if ps@.len() > 0 {
            lemma_def_pattern_keeps(st, ps@[0], t);
        },
        _ => {},
    }
}

proof fn lemma_def_patterns_keeps(st: CState, ps: Seq<Pattern>, ts: Option<Seq<TypeInfoV>>, i: int)
    requires
        st.env.scopes.len() >= 1,
    ensures
        c_keeps(st, def_patterns(st, ps, ts, i)),
    decreases ps, ps.len() - i,
{
    if 0 <= i < ps.len() {
        let t = match ts {
            Some(s) => if i < s.len() {
                s[i]
            } else {
                TypeInfoV::Unknown
            },
            None => TypeInfoV::Unknown,
        };
        let st1 = def_pattern(st, ps[i], t);
        lemma_def_pattern_keeps(st, ps[i], t);
        lemma_def_patterns_keeps(st1, ps, ts, i + 1);
        lemma_c_trans(st, st1, def_patterns(st1, ps, ts, i + 1));
    }
}

proof fn lemma_ck_expr_keeps(st: CState, e: Expr, expected: Option<TypeInfoV>)
    requires
        st.env.scopes.len() >= 1,
    ensures
        c_keeps(st, ck_expr(st, e, expected).1),
        ck_expr(st, e, expected).1.env.scopes == st.env.scopes,
    decreases e, 1int,
{
    match e {
        Expr::Literal(_) => {},
        Expr::Ident(_) => {},
        Expr::Binary(b) => lemma_ck_binary_keeps(st, b),
        Expr::Unary(u) => lemma_ck_unary_keeps(st, u),
        Expr::Call(c) => lemma_ck_call_keeps(st, c),
        Expr::Member(m) => lemma_ck_expr_keeps(st, *m.object, None),
        Expr::Index(x) => lemma_ck_index_keeps(st, x),
        Expr::StructInit(s) => lemma_ck_struct_init_keeps(st, s),
        Expr::VecInit(v) => lemma_ck_vec_init_keeps(st, v, expected),
        Expr::If(ie) => lemma_ck_if_expr_keeps(st, ie),
        Expr::Match(me) => lemma_ck_match_expr_keeps(st, me, expected),
        Expr::Closure(c) => lemma_ck_closure_keeps(st, c),
        Expr::Ref(r) => lemma_ck_expr_keeps(st, *r.expr, None),
        Expr::Deref(d) => lemma_ck_expr_keeps(st, *d.expr, None),
        Expr::Assign(a) => {
            let s1 = ck_expr(st, *a.target, None).1;
            lemma_ck_expr_keeps(st, *a.target, None);
            lemma_ck_expr_keeps(s1, *a.value, None);
            lemma_c_trans(st, s1, ck_expr(s1, *a.value, None).1);
        },
        Expr::CompoundAssign(a) => {
            let s1 = ck_expr(st, *a.target, None).1;
            lemma_ck_expr_keeps(st, *a.target, None);
            lemma_ck_expr_keeps(s1, *a.value, None);
            lemma_c_trans(st, s1, ck_expr(s1, *a.value, None).1);
        },
        Expr::Range(r) => lemma_ck_range_keeps(st, r),
        Expr::Paren(inner) => lemma_ck_expr_keeps(st, *inner, None),
        Expr::Block(b) => {
            lemma_ck_block_value_keeps(c_push(st), b.stmts@, 0, TypeInfoV::Unit);
            lemma_c_scoped(st, ck_block_value(c_push(st), b.stmts@, 0, TypeInfoV::Unit).1);
        },
        Expr::Try(inner) => lemma_ck_expr_keeps(st, *inner, None),
    }
}

proof fn lemma_ck_binary_keeps(st: CState, b: BinaryExpr)
    requires
        st.env.scopes.len() >= 1,
    ensures
        c_keeps(st, ck_binary(st, b).1),
        ck_binary(st, b).1.env.scopes == st.env.scopes,
    decreases b, 0int,
{
    let s1 = ck_expr(st, *b.left, None).1;
    lemma_ck_expr_keeps(st, *b.left, None);
    lemma_ck_expr_keeps(s1, *b.right, None);
    lemma_c_trans(st, s1, ck_expr(s1, *b.right, None).1);
}

proof fn lemma_ck_unary_keeps(st: CState, u: UnaryExpr)
    requires
        st.env.scopes.len() >= 1,
    ensures
        c_keeps(st, ck_unary(st, u).1),
        ck_unary(st, u).1.env.scopes == st.env.scopes,
    decreases u, 0int,
{
    lemma_ck_expr_keeps(st, *u.operand, None);
}

proof fn lemma_ck_call_keeps(st: CState, c: CallExpr)
    requires
        st.env.scopes.len() >= 1,
    ensures
        c_keeps(st, ck_call(st, c).1),
        ck_call(st, c).1.env.scopes == st.env.scopes,
    decreases c, 0int,
{
    let (ct, s1) = ck_expr(st, *c.callee, None);
    lemma_ck_expr_keeps(st, *c.callee, None);
    match ct {
        TypeInfoV::Function { params, ret } => {
            lemma_ck_args_keeps(s1, c.args@, Some(params), 0);
            lemma_c_trans(st, s1, ck_args(s1, c.args@, Some(params), 0));
        },
        _ => match *c.callee {
            Expr::Member(m) => {
                lemma_ck_expr_keeps(s1, *m.object, None);
                lemma_c_trans(st, s1, ck_expr(s1, *m.object, None).1);
            },
            _ => {
                lemma_ck_args_keeps(s1, c.args@, None, 0);
                lemma_c_trans(st, s1, ck_args(s1, c.args@, None, 0));
            },
        },
    }
}

proof fn lemma_ck_index_keeps(st: CState, x: IndexExpr)
    requires
        st.env.scopes.len() >= 1,
    ensures
        c_keeps(st, ck_index(st, x).1),
        ck_index(st, x).1.env.scopes == st.env.scopes,
    decreases x, 0int,
{
    let s1 = ck_expr(st, *x.object, None).1;
    lemma_ck_expr_keeps(st, *x.object, None);
    lemma_ck_expr_keeps(s1, *x.index, None);
    lemma_c_trans(st, s1, ck_expr(s1, *x.index, None).1);
}

proof fn lemma_ck_struct_init_keeps(st: CState, s: StructInitExpr)
    requires
        st.env.scopes.len() >= 1,
    ensures
        c_keeps(st, ck_struct_init(st, s).1),
        ck_struct_init(st, s).1.env.scopes == st.env.scopes,
    decreases s, 0int,
{
    match te_struct_fields(st.env, s.name@) {
        Some(fields) => lemma_ck_init_fields_keeps(st, s.fields@, Some(fields), 0, s.span),
        None => lemma_ck_init_fields_keeps(st, s.fields@, None, 0, s.span),
    }
}

proof fn lemma_ck_vec_init_keeps(st: CState, v: VecInitExpr, expected: Option<TypeInfoV>)
    requires
        st.env.scopes.len() >= 1,
    ensures
        c_keeps(st, ck_vec_init(st, v, expected).1),
        ck_vec_init(st, v, expected).1.env.scopes == st.env.scopes,
    decreases v, 0int,
{
    if v.elements@.len() != 0 {
        lemma_ck_expr_keeps(st, v.elements@[0], None);
    }
}

proof fn lemma_ck_if_expr_keeps(st: CState, ie: IfExpr)
    requires
        st.env.scopes.len() >= 1,
    ensures
        c_keeps(st, ck_if_expr(st, ie).1),
        ck_if_expr(st, ie).1.env.scopes == st.env.scopes,
    decreases ie, 0int,
{
    let s1 = ck_expr(st, *ie.condition, None).1;
    lemma_ck_expr_keeps(st, *ie.condition, None);
    lemma_ck_block_keeps(c_push(s1), ie.then_branch);
    lemma_c_scoped(s1, ck_block(c_push(s1), ie.then_branch));
    let s2 = c_pop(ck_block(c_push(s1), ie.then_branch));
    lemma_c_trans(st, s1, s2);
    match ie.else_branch {
        Some(b) => {
            lemma_ck_block_keeps(c_push(s2), b);
            lemma_c_scoped(s2, ck_block(c_push(s2), b));
            lemma_c_trans(st, s2, c_pop(ck_block(c_push(s2), b)));
        },
        None => {},
    }
}

proof fn lemma_ck_match_expr_keeps(st: CState, me: MatchExpr, expected: Option<TypeInfoV>)
    requires
        st.env.scopes.len() >= 1,
    ensures
        c_keeps(st, ck_match_expr(st, me, expected).1),
        ck_match_expr(st, me, expected).1.env.scopes == st.env.scopes,
    decreases me, 0int,
{
    let s1 = ck_expr(st, *me.scrutinee, None).1;
    lemma_ck_expr_keeps(st, *me.scrutinee, None);
    if me.arms@.len() == 0 {
        lemma_ck_arm_bodies_keeps(s1, me.arms@, 1, expected);
        lemma_c_trans(st, s1, ck_arm_bodies(s1, me.arms@, 1, expected));
    } else {
        let (first, s2) = ck_expr(c_push(s1), me.arms@[0].body, expected);
        lemma_ck_expr_keeps(c_push(s1), me.arms@[0].body, expected);
        lemma_c_scoped(s1, s2);
        lemma_c_trans(st, s1, c_pop(s2));
        let arm_expected = if first is Unknown {
            expected
        } else {
            Some(first)
        };
        lemma_ck_arm_bodies_keeps(c_pop(s2), me.arms@, 1, arm_expected);
        lemma_c_trans(st, c_pop(s2), ck_arm_bodies(c_pop(s2), me.arms@, 1, arm_expected));
    }
}

proof fn lemma_ck_closure_keeps(st: CState, c: ClosureExpr)
    requires
        st.env.scopes.len() >= 1,
    ensures
        c_keeps(st, ck_closure(st, c).1),
        ck_closure(st, c).1.env.scopes == st.env.scopes,
    decreases c, 0int,
{
    let s1 = bind_closure_params(c_push(st), c.params@, 0);
    lemma_bind_closure_params_keeps(c_push(st), c.params@, 0);
    lemma_ck_expr_keeps(s1, *c.body, None);
    lemma_c_trans(c_push(st), s1, ck_expr(s1, *c.body, None).1);
    lemma_c_scoped(st, ck_expr(s1, *c.body, None).1);
}

proof fn lemma_ck_range_keeps(st: CState, r: RangeExpr)
    requires
        st.env.scopes.len() >= 1,
    ensures
        c_keeps(st, ck_range(st, r).1),
        ck_range(st, r).1.env.scopes == st.env.scopes,
    decreases r, 0int,
{
    let s1 = match r.start {
        Some(x) => ck_expr(st, *x, None).1,
        None => st,
    };
    match r.start {
        Some(x) => lemma_ck_expr_keeps(st, *x, None),
        None => {},
    }
    match r.end {
        Some(x) => {
            lemma_ck_expr_keeps(s1, *x, None);
            lemma_c_trans(st, s1, ck_expr(s1, *x, None).1);
        },
        None => {},
    }
}

proof fn lemma_ck_args_keeps(st: CState, args: Seq<Expr>, params: Option<Seq<TypeInfoV>>, i: int)
    requires
        st.env.scopes.len() >= 1,
    ensures
        c_keeps(st, ck_args(st, args, params, i)),
        ck_args(st, args, params, i).env.scopes == st.env.scopes,
    decreases args, args.len() - i,
{
    if 0 <= i < args.len() {
        let expected = match params {
            Some(ps) => if i < ps.len() {
                Some(ps[i])
            } else {
                None
            },
            None => None,
        };
        let st1 = ck_expr(st, args[i], expected).1;
        lemma_ck_expr_keeps(st, args[i], expected);
        lemma_ck_args_keeps(st1, args, params, i + 1);
        lemma_c_trans(st, st1, ck_args(st1, args, params, i + 1));
    }
}

proof fn lemma_ck_init_fields_keeps(
    st: CState,
    fs: Seq<(String, Expr)>,
    fields: Option<Seq<(Seq<char>, TypeInfoV)>>,
    i: int,
    span: Span,
)
    requires
        st.env.scopes.len() >= 1,
    ensures
        c_keeps(st, ck_init_fields(st, fs, fields, i, span)),
        ck_init_fields(st, fs, fields, i, span).env.scopes == st.env.scopes,
    decreases fs, fs.len() - i,
{
    if 0 <= i < fs.len() {
        let st1 = match fields {
            Some(ds) => {
                let expected = last_binding(ds, fs[i].0@);
                let (vt, s1) = ck_expr(st, fs[i].1, expected);
                match expected {
                    Some(et) => if !assignable(vt, et) {
                        c_err(
                            s1,
                            "RS003"@,
                            mismatch("Field '"@ + fs[i].0@ + "' type mismatch: expected "@, et, vt),
                            span,
                        )
                    } else {
                        s1
                    },
                    None => s1,
                }
            },
            None => ck_expr(st, fs[i].1, None).1,
        };
        match fields {
            Some(ds) => {
                let expected = last_binding(ds, fs[i].0@);
                let s1 = ck_expr(st, fs[i].1, expected).1;
                lemma_ck_expr_keeps(st, fs[i].1, expected);
                lemma_c_trans(st, s1, st1);
            },
            None => lemma_ck_expr_keeps(st, fs[i].1, None),
        }
        lemma_ck_init_fields_keeps(st1, fs, fields, i + 1, span);
        lemma_c_trans(st, st1, ck_init_fields(st1, fs, fields, i + 1, span));
    }
}

proof fn lemma_ck_arm_bodies_keeps(st: CState, arms: Seq<MatchArm>, i: int, expected: Option<TypeInfoV>)
    requires
        st.env.scopes.len() >= 1,
    ensures
        c_keeps(st, ck_arm_bodies(st, arms, i, expected)),
        ck_arm_bodies(st, arms, i, expected).env.scopes == st.env.scopes,
    decreases arms, arms.len() - i,
{
    if 0 <= i < arms.len() {
        let s2 = ck_expr(c_push(st), arms[i].body, expected).1;
        lemma_ck_expr_keeps(c_push(st), arms[i].body, expected);
        lemma_c_scoped(st, s2);
        lemma_ck_arm_bodies_keeps(c_pop(s2), arms, i + 1, expected);
        lemma_c_trans(st, c_pop(s2), ck_arm_bodies(c_pop(s2), arms, i + 1, expected));
    }
}

proof fn lemma_bind_closure_params_keeps(st: CState, ps: Seq<String>, i: int)
    requires
        st.env.scopes.len() >= 1,
    ensures
        c_keeps(st, bind_closure_params(st, ps, i)),
    decreases ps.len() - i,
{
    if 0 <= i < ps.len() {
        let st1 = c_bind_fresh(st, ps[i]@);
        lemma_c_bind_fresh_keeps(st, ps[i]@);
        lemma_bind_closure_params_keeps(st1, ps, i + 1);
        lemma_c_trans(st, st1, bind_closure_params(st1, ps, i + 1));
    }
}

proof fn lemma_ck_block_value_keeps(st: CState, ss: Seq<Stmt>, i: int, t: TypeInfoV)
    requires
        st.env.scopes.len() >= 1,
    ensures
        c_keeps(st, ck_block_value(st, ss, i, t).1),
    decreases ss, ss.len() - i,
{
    if 0 <= i < ss.len() {
        match ss[i] {
            Stmt::Expr(x) => {
                let (t2, s1) = ck_expr(st, x.expr, None);
                lemma_ck_expr_keeps(st, x.expr, None);
                lemma_ck_block_value_keeps(s1, ss, i + 1, t2);
                lemma_c_trans(st, s1, ck_block_value(s1, ss, i + 1, t2).1);
            },
            s => {
                let s1 = ck_stmt(st, s);
                lemma_ck_stmt_keeps(st, s);
                lemma_ck_block_value_keeps(s1, ss, i + 1, t);
                lemma_c_trans(st, s1, ck_block_value(s1, ss, i + 1, t).1);
            },
        }
    }
}

proof fn lemma_ck_block_keeps(st: CState, b: Block)
    requires
        st.env.scopes.len() >= 1,
    ensures
        c_keeps(st, ck_block(st, b)),
    decreases b, 0int,
{
    lemma_ck_stmts_keeps(st, b.stmts@, 0);
}

proof fn lemma_ck_stmts_keeps(st: CState, ss: Seq<Stmt>, i: int)
    requires
        st.env.scopes.len() >= 1,
    ensures
        c_keeps(st, ck_stmts(st, ss, i)),
    decreases ss, ss.len() - i,
{
    if 0 <= i < ss.len() {
        let st1 = ck_stmt(st, ss[i]);
        lemma_ck_stmt_keeps(st, ss[i]);
        lemma_ck_stmts_keeps(st1, ss, i + 1);
        lemma_c_trans(st, st1, ck_stmts(st1, ss, i + 1));
    }
}

proof fn lemma_ck_binding_keeps(st: CState, l: LetStmt, expected_from_type: bool)
    requires
        st.env.scopes.len() >= 1,
    ensures
        c_keeps(st, ck_binding(st, l, expected_from_type)),
    decreases l, 1int,
{
    let expected = match l.ty {
        Some(t) => if expected_from_type {
            Some(ast_ti(t))
        } else {
            None
        },
        None => None,
    };
    let (it, s1) = ck_expr(st, l.init, expected);
    lemma_ck_expr_keeps(st, l.init, expected);
    match l.ty {
        Some(t) => {
            let s2 = check_fits(s1, it, ast_ti(t), l.span);
            lemma_c_trans(st, s1, s2);
            lemma_def_pattern_keeps(s2, l.pattern, ast_ti(t));
            lemma_c_trans(st, s2, def_pattern(s2, l.pattern, ast_ti(t)));
        },
        None => {
            lemma_def_pattern_keeps(s1, l.pattern, it);
            lemma_c_trans(st, s1, def_pattern(s1, l.pattern, it));
        },
    }
}

proof fn lemma_ck_stmt_keeps(st: CState, s: Stmt)
    requires
        st.env.scopes.len() >= 1,
    ensures
        c_keeps(st, ck_stmt(st, s)),
    decreases s, 0int,
{
    match s {
        Stmt::Let(l) => lemma_ck_binding_keeps(st, l, true),
        Stmt::Const(c) => lemma_ck_const_keeps(st, c),
        Stmt::Expr(x) => lemma_ck_expr_keeps(st, x.expr, None),
        Stmt::If(i) => lemma_ck_if_keeps(st, i),
        Stmt::Match(m) => lemma_ck_match_keeps(st, m),
        Stmt::For(f) => lemma_ck_for_keeps(st, f),
        Stmt::While(w) => lemma_ck_while_keeps(st, w),
        Stmt::Loop(l) => {
            lemma_ck_block_keeps(c_push(st), l.body);
            lemma_c_scoped(st, ck_block(c_push(st), l.body));
        },
        Stmt::Return(r) => lemma_ck_return_keeps(st, r),
        Stmt::Break(_) => {},
        Stmt::Continue(_) => {},
        Stmt::Traverse(t) => lemma_ck_traverse_keeps(st, t),
    }
}

proof fn lemma_ck_const_keeps(st: CState, c: ConstStmt)
    requires
        st.env.scopes.len() >= 1,
    ensures
        c_keeps(st, ck_const(st, c)),
    decreases c, 0int,
{
    let (it, s1) = ck_expr(st, c.init, None);
    lemma_ck_expr_keeps(st, c.init, None);
    match c.ty {
        Some(t) => {
            let s2 = check_fits(s1, it, ast_ti(t), c.span);
            lemma_c_trans(st, s1, s2);
            lemma_c_define_keeps(s2, c.name@, ast_ti(t));
            lemma_c_trans(st, s2, c_define(s2, c.name@, ast_ti(t)));
        },
        None => {
            lemma_c_define_keeps(s1, c.name@, it);
            lemma_c_trans(st, s1, c_define(s1, c.name@, it));
        },
    }
}

proof fn lemma_ck_match_keeps(st: CState, m: MatchStmt)
    requires
        st.env.scopes.len() >= 1,
    ensures
        c_keeps(st, ck_match(st, m)),
    decreases m, 0int,
{
    let s1 = ck_expr(st, m.scrutinee, None).1;
    lemma_ck_expr_keeps(st, m.scrutinee, None);
    lemma_ck_arm_bodies_keeps(s1, m.arms@, 0, None);
    lemma_c_trans(st, s1, ck_arm_bodies(s1, m.arms@, 0, None));
}

proof fn lemma_ck_for_keeps(st: CState, f: ForStmt)
    requires
        st.env.scopes.len() >= 1,
    ensures
        c_keeps(st, ck_for(st, f)),
    decreases f, 0int,
{
    let (it, s1) = ck_expr(st, f.iter, None);
    lemma_ck_expr_keeps(st, f.iter, None);
    let sp = def_pattern(c_push(s1), f.pattern, elem_ti(it));
    lemma_def_pattern_keeps(c_push(s1), f.pattern, elem_ti(it));
    lemma_ck_block_keeps(sp, f.body);
    lemma_c_trans(c_push(s1), sp, ck_block(sp, f.body));
    lemma_c_scoped(s1, ck_block(sp, f.body));
    lemma_c_trans(st, s1, c_pop(ck_block(sp, f.body)));
}

proof fn lemma_ck_while_keeps(st: CState, w: WhileStmt)
    requires
        st.env.scopes.len() >= 1,
    ensures
        c_keeps(st, ck_while(st, w)),
    decreases w, 0int,
{
    let (ct, s1) = ck_expr(st, w.condition, None);
    lemma_ck_expr_keeps(st, w.condition, None);
    let s2 = check_cond(s1, ct, w.span);
    lemma_c_trans(st, s1, s2);
    lemma_ck_block_keeps(c_push(s2), w.body);
    lemma_c_scoped(s2, ck_block(c_push(s2), w.body));
    lemma_c_trans(st, s2, c_pop(ck_block(c_push(s2), w.body)));
}

proof fn lemma_ck_traverse_keeps(st: CState, t: TraverseStmt)
    requires
        st.env.scopes.len() >= 1,
    ensures
        c_keeps(st, ck_traverse(st, t)),
    decreases t, 0int,
{
    let s1 = ck_expr(st, t.target, None).1;
    lemma_ck_expr_keeps(st, t.target, None);
    match t.kind {
        TraverseKind::Inline(iv) => {
            let ss = ck_state(c_push(s1), iv.state@, 0);
            lemma_ck_state_keeps(c_push(s1), iv.state@, 0);
            lemma_ck_methods_keeps(ss, iv.methods@, 0);
            lemma_c_trans(c_push(s1), ss, ck_methods(ss, iv.methods@, 0));
            lemma_c_scoped(s1, ck_methods(ss, iv.methods@, 0));
            lemma_c_trans(st, s1, c_pop(ck_methods(ss, iv.methods@, 0)));
        },
        TraverseKind::Delegated(_) => {},
    }
}

proof fn lemma_ck_if_keeps(st: CState, i: IfStmt)
    requires
        st.env.scopes.len() >= 1,
    ensures
        c_keeps(st, ck_if(st, i)),
    decreases i, 0int,
{
    let (ct, s1) = ck_expr(st, i.condition, None);
    lemma_ck_expr_keeps(st, i.condition, None);
    let s2 = if i.pattern is None {
        check_cond(s1, ct, i.span)
    } else {
        s1
    };
    lemma_c_trans(st, s1, s2);
    lemma_ck_block_keeps(c_push(s2), i.then_branch);
    lemma_c_scoped(s2, ck_block(c_push(s2), i.then_branch));
    let s3 = c_pop(ck_block(c_push(s2), i.then_branch));
    lemma_c_trans(st, s2, s3);
    lemma_ck_else_ifs_keeps(s3, i.else_if_branches@, 0, i.span);
    let s4 = ck_else_ifs(s3, i.else_if_branches@, 0, i.span);
    lemma_c_trans(st, s3, s4);
    match i.else_branch {
        Some(b) => {
            lemma_ck_block_keeps(c_push(s4), b);
            lemma_c_scoped(s4, ck_block(c_push(s4), b));
            lemma_c_trans(st, s4, c_pop(ck_block(c_push(s4), b)));
        },
        None => {},
    }
}

proof fn lemma_ck_return_keeps(st: CState, r: ReturnStmt)
    requires
        st.env.scopes.len() >= 1,
    ensures
        c_keeps(st, ck_return(st, r)),
    decreases r, 0int,
{
    match r.value {
        Some(v) => {
            let (vt, s1) = ck_expr(st, v, st.ret);
            lemma_ck_expr_keeps(st, v, st.ret);
            match st.ret {
                Some(e) => if !assignable(vt, e) {
                    lemma_c_trans(
                        st,
                        s1,
                        c_err(s1, "RS003"@, mismatch("Return type mismatch: expected "@, e, vt), r.span),
                    );
                },
                None => {},
            }
        },
        None => {},
    }
}

proof fn lemma_ck_else_ifs_keeps(st: CState, bs: Seq<(Expr, Block)>, i: int, span: Span)
    requires
        st.env.scopes.len() >= 1,
    ensures
        c_keeps(st, ck_else_ifs(st, bs, i, span)),
    decreases bs, bs.len() - i,
{
    if 0 <= i < bs.len() {
        let (ct, s1) = ck_expr(st, bs[i].0, None);
        lemma_ck_expr_keeps(st, bs[i].0, None);
        let s2 = check_cond(s1, ct, span);
        lemma_c_trans(st, s1, s2);
        lemma_ck_block_keeps(c_push(s2), bs[i].1);
        lemma_c_scoped(s2, ck_block(c_push(s2), bs[i].1));
        let s3 = c_pop(ck_block(c_push(s2), bs[i].1));
        lemma_c_trans(st, s2, s3);
        lemma_ck_else_ifs_keeps(s3, bs, i + 1, span);
        lemma_c_trans(st, s3, ck_else_ifs(s3, bs, i + 1, span));
    }
}

proof fn lemma_ck_state_keeps(st: CState, ls: Seq<LetStmt>, i: int)
    requires
        st.env.scopes.len() >= 1,
    ensures
        c_keeps(st, ck_state(st, ls, i)),
    decreases ls, ls.len() - i,
{
    if 0 <= i < ls.len() {
        let st1 = ck_binding(st, ls[i], false);
        lemma_ck_binding_keeps(st, ls[i], false);
        lemma_ck_state_keeps(st1, ls, i + 1);
        lemma_c_trans(st, st1, ck_state(st1, ls, i + 1));
    }
}

proof fn lemma_ck_methods_keeps(st: CState, fs: Seq<FnDecl>, i: int)
    requires
        st.env.scopes.len() >= 1,
    ensures
        c_keeps(st, ck_methods(st, fs, i)),
    decreases fs, fs.len() - i,
{
    if 0 <= i < fs.len() {
        let st1 = ck_function(st, fs[i]);
        lemma_ck_function_keeps(st, fs[i]);
        lemma_ck_methods_keeps(st1, fs, i + 1);
        lemma_c_trans(st, st1, ck_methods(st1, fs, i + 1));
    }
}

proof fn lemma_ck_function_keeps(st: CState, f: FnDecl)
    requires
        st.env.scopes.len() >= 1,
    ensures
        c_keeps(st, ck_function(st, f)),
    decreases f, 0int,
{
    let s0 = CState { ret: Some(ret_ti(f.return_type)), ..st };
    let s1 = c_push(s0);
    let sp = bind_params(s1, f.params@, 0);
    lemma_bind_params_keeps(s1, f.params@, 0);
    lemma_ck_block_keeps(sp, f.body);
    lemma_c_trans(s1, sp, ck_block(sp, f.body));
    lemma_c_scoped(s0, ck_block(sp, f.body));
    let s2 = c_pop(ck_block(sp, f.body));
    let r = CState { ret: st.ret, ..s2 };
    assert forall|i: int| 0 <= i < st.errors.len() implies #[trigger] r.errors[i] == st.errors[i] by {
        assert(s0.errors[i] == st.errors[i]);
    }
}

proof fn lemma_bind_params_keeps(st: CState, ps: Seq<Param>, i: int)
    requires
        st.env.scopes.len() >= 1,
    ensures
        c_keeps(st, bind_params(st, ps, i)),
    decreases ps.len() - i,
{
    if 0 <= i < ps.len() {
        let st1 = c_define(st, ps[i].name@, ast_ti(ps[i].ty));
        lemma_c_define_keeps(st, ps[i].name@, ast_ti(ps[i].ty));
        lemma_bind_params_keeps(st1, ps, i + 1);
        lemma_c_trans(st, st1, bind_params(st1, ps, i + 1));
    }
}

proof fn lemma_ck_items_keeps(st: CState, items: Seq<PluginItem>, i: int)
    requires
        st.env.scopes.len() >= 1,
    ensures
        c_keeps(st, ck_items(st, items, i)),
    decreases items.len() - i,
{
    if 0 <= i < items.len() {
        let st1 = match items[i] {
            PluginItem::Function(f) => ck_function(st, f),
            _ => st,
        };
        match items[i] {
            PluginItem::Function(f) => lemma_ck_function_keeps(st, f),
            _ => {},
        }
        lemma_ck_items_keeps(st1, items, i + 1);
        lemma_c_trans(st, st1, ck_items(st1, items, i + 1));
    }
}

/// Checking a program leaves the environment with as many scopes as it had,
/// and never drops or reorders an error found before: the errors found so far
/// come first in the result, in the same order.
pub proof fn law_checking_keeps_scopes_and_errors(st: CState, p: Program)
    requires
        st.env.scopes.len() >= 1,
    ensures
        ck_program(st, p).env.scopes.len() == st.env.scopes.len(),
        st.errors.len() <= ck_program(st, p).errors.len(),
        forall|i: int| 0 <= i < st.errors.len() ==> #[trigger] ck_program(st, p).errors[i] == st.errors[i],
{
    match p.decl {
        TopLevelDecl::Plugin(pl) => {
            lemma_ck_items_keeps(c_push(st), pl.body@, 0);
            lemma_c_scoped(st, ck_items(c_push(st), pl.body@, 0));
        },
        TopLevelDecl::Writer(w) => {
            lemma_ck_items_keeps(c_push(st), w.body@, 0);
            lemma_c_scoped(st, ck_items(c_push(st), w.body@, 0));
        },
        TopLevelDecl::Interface(_) => {},
        TopLevelDecl::Module(m) => {
            lemma_ck_items_keeps(c_push(st), m.items@, 0);
            lemma_c_scoped(st, ck_items(c_push(st), m.items@, 0));
        },
    }
}


/// Inferring an expression's type leaves every scope as it was, so every name
/// is found as before: the scopes a block, a branch, a match arm or a closure
/// enters are left again. Errors are only added after the ones found before.
pub proof fn law_inference_keeps_the_environment(st: CState, e: Expr, expected: Option<TypeInfoV>, n: Seq<char>)
    requires
        st.env.scopes.len() >= 1,
    ensures
        ck_expr(st, e, expected).1.env.scopes == st.env.scopes,
        te_lookup(ck_expr(st, e, expected).1.env, n) == te_lookup(st.env, n),
        st.errors.len() <= ck_expr(st, e, expected).1.errors.len(),
        forall|i: int| 0 <= i < st.errors.len() ==> #[trigger] ck_expr(st, e, expected).1.errors[i] == st.errors[i],
{
    lemma_ck_expr_keeps(st, e, expected);
}


/// Checking any statement leaves the current result type as it was: the
/// methods of an inline visitor put back the result type of the function
/// around them, so a later `return` is still checked against it.
pub proof fn law_statement_keeps_result_type(st: CState, s: Stmt)
    requires
        st.env.scopes.len() >= 1,
    ensures
        ck_stmt(st, s).ret == st.ret,
{
    lemma_ck_stmt_keeps(st, s);
}


/// Whether an operator is arithmetic (`+ - * / %`).
pub open spec fn is_arithmetic(op: BinaryOp) -> bool {
    op is Add || op is Sub || op is Mul || op is Div || op is Mod
}

/// The type of a binary expression: an arithmetic operation is `f64` exactly
/// when either operand is `f64`, whichever side it is on, so the result does
/// not change when the operand types are swapped around an `f64`; any other
/// operation (comparison or logic) is `bool`.
pub proof fn law_binary_expression_type(st: CState, b: BinaryExpr)
    ensures
        ({
            let (lt, s1) = ck_expr(st, *b.left, None);
            let rt = ck_expr(s1, *b.right, None).0;
            &&& is_arithmetic(b.op) ==> ((ck_binary(st, b).0 is F64) <==> (lt is F64 || rt is F64))
            &&& is_arithmetic(b.op) && !(lt is F64 || rt is F64) ==> (ck_binary(st, b).0 is I32 || ck_binary(
                st,
                b,
            ).0 is Str)
            &&& !is_arithmetic(b.op) ==> ck_binary(st, b).0 is Bool
        }),
        forall|op: BinaryOp, t: TypeInfoV|
            is_arithmetic(op) ==> #[trigger] binary_ti(op, t, TypeInfoV::F64) == TypeInfoV::F64 && binary_ti(
                op,
                TypeInfoV::F64,
                t,
            ) == TypeInfoV::F64,
        forall|op: BinaryOp, t: TypeInfoV|
            is_arithmetic(op) ==> #[trigger] binary_ti(op, TypeInfoV::I32, t) == binary_ti(op, t, TypeInfoV::I32) || !(
            t is F64 || t is I32),
{
}

} // verus!
