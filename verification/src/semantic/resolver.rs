//! Name resolution pass for RustScript.
//!
//! The pass walks a program, binds every name it introduces in the scope that
//! holds it, and reports names and struct literals it cannot resolve. Each
//! walking function is proved to compute the function of the same role below,
//! which states the pass over the program's syntax tree.

use vstd::prelude::*;
use crate::lexer::Span;
use crate::ast::{
    Program, TopLevelDecl, PluginItem, StructDecl, StructField, EnumDecl, EnumVariant, FnDecl, Param,
    Block, Stmt, LetStmt, TraverseKind, Pattern, Expr, MatchArm, Type, ForStmt, ExprStmt, Literal,
};
use crate::strings::{str_eq, joined, joined3};
use crate::nodes::{find_by_name, node_table, get_node_mapping};
use crate::semantic::types::{
    TypeInfo, TypeInfoV, TypeEnv, TypeEnvV, SemanticError, SemanticErrorV, VariantsV, sem_err, v_errors,
    v_tis, v_fields, ast_ti, ast_tis, te_new, te_push, te_pop, te_define, te_lookup, te_defined_here,
    te_struct_fields, te_fresh, fn_ti, v_variants, ast_type_to_type_info, lemma_v_tis_push,
    lemma_v_fields_push, ast_types_to_type_infos,
};

verus! {

/// What the resolver has built so far: the environment and the errors found.
pub struct RState {
    pub env: TypeEnvV,
    pub errors: Seq<SemanticErrorV>,
}

/// The state with another environment.
pub open spec fn r_env(st: RState, env: TypeEnvV) -> RState {
    RState { env, errors: st.errors }
}

/// The state with one more error.
pub open spec fn r_err(st: RState, code: Seq<char>, msg: Seq<char>, span: Span) -> RState {
    RState { env: st.env, errors: st.errors.push(sem_err(code, msg, span)) }
}

/// Enter a scope.
pub open spec fn r_push(st: RState) -> RState {
    r_env(st, te_push(st.env))
}

/// Leave a scope.
pub open spec fn r_pop(st: RState) -> RState {
    r_env(st, te_pop(st.env))
}

/// Bind a name to a type in the innermost scope.
pub open spec fn r_define(st: RState, k: Seq<char>, t: TypeInfoV) -> RState {
    r_env(st, te_define(st.env, k, t))
}

/// Bind a name to a fresh type variable in the innermost scope.
pub open spec fn r_bind_fresh(st: RState, k: Seq<char>) -> RState {
    r_env(st, te_define(te_fresh(st.env).1, k, te_fresh(st.env).0))
}

/// Names that are never reported as undefined.
pub open spec fn is_special_name(n: Seq<char>) -> bool {
    n == "self"@ || n == "Self"@ || n == "matches!"@ || n == "format!"@ || n == "vec!"@ || n == "Some"@
        || n == "None"@ || n == "Ok"@ || n == "Err"@
}

// ===================== patterns =====================

/// Bind the names of a pattern to fresh type variables.
pub open spec fn res_pattern(st: RState, p: Pattern) -> RState
    decreases p, 0int,
{
    match p {
        Pattern::Ident(name) => r_bind_fresh(st, name@),
        Pattern::Struct { fields, .. } => res_pattern_fields(st, fields@, 0),
        Pattern::Or(ps) => res_patterns(st, ps@, 0),
        Pattern::Variant { inner, .. } => match inner {
            Some(q) => res_pattern(st, *q),
            None => st,
        },
        Pattern::Tuple(ps) => res_patterns(st, ps@, 0),
        Pattern::Array(ps) => res_patterns(st, ps@, 0),
        Pattern::Object(fields) => res_pattern_fields(st, fields@, 0),
        Pattern::Rest(name) => r_bind_fresh(st, name@),
        Pattern::Literal(_) => st,
        Pattern::Wildcard => st,
    }
}

/// Bind the names of the patterns from index `i` on.
pub open spec fn res_patterns(st: RState, ps: Seq<Pattern>, i: int) -> RState
    decreases ps, ps.len() - i,
{
    if 0 <= i < ps.len() {
        res_patterns(res_pattern(st, ps[i]), ps, i + 1)
    } else {
        st
    }
}

/// Bind the names of the field patterns from index `i` on.
pub open spec fn res_pattern_fields(st: RState, fs: Seq<(String, Pattern)>, i: int) -> RState
    decreases fs, fs.len() - i,
{
    if 0 <= i < fs.len() {
        res_pattern_fields(res_pattern(st, fs[i].1), fs, i + 1)
    } else {
        st
    }
}

// ===================== expressions, statements, functions =====================

/// Resolve an expression: report undefined names and unknown structs, and
/// bind the names that closures and match arms introduce in their own scopes.
pub open spec fn res_expr(st: RState, e: Expr) -> RState
    decreases e, 0int,
{
    match e {
        Expr::Ident(id) => if te_lookup(st.env, id.name@) is None && !is_special_name(id.name@) && find_by_name(
            node_table(),
            id.name@,
        ) is None {
            r_err(st, "RS006"@, "Undefined variable: "@ + id.name@, id.span)
        } else {
            st
        },
        Expr::Binary(b) => res_expr(res_expr(st, *b.left), *b.right),
        Expr::Unary(u) => res_expr(st, *u.operand),
        Expr::Call(c) => res_exprs(res_expr(st, *c.callee), c.args@, 0),
        Expr::Member(m) => res_expr(st, *m.object),
        Expr::Index(x) => res_expr(res_expr(st, *x.object), *x.index),
        Expr::StructInit(s) => {
            let st1 = if te_struct_fields(st.env, s.name@) is None && te_lookup(st.env, s.name@) is None {
                r_err(st, "RS007"@, "Unknown struct: "@ + s.name@, s.span)
            } else {
                st
            };
            res_field_values(st1, s.fields@, 0)
        },
        Expr::VecInit(v) => res_exprs(st, v.elements@, 0),
        Expr::If(ie) => {
            let st1 = r_pop(res_block(r_push(res_expr(st, *ie.condition)), ie.then_branch));
            match ie.else_branch {
                Some(b) => r_pop(res_block(r_push(st1), b)),
                None => st1,
            }
        },
        Expr::Match(me) => res_arms(res_expr(st, *me.scrutinee), me.arms@, 0),
        Expr::Closure(c) => r_pop(res_expr(res_closure_params(r_push(st), c.params@, 0), *c.body)),
        Expr::Ref(r) => res_expr(st, *r.expr),
        Expr::Deref(d) => res_expr(st, *d.expr),
        Expr::Assign(a) => res_expr(res_expr(st, *a.target), *a.value),
        Expr::CompoundAssign(a) => res_expr(res_expr(st, *a.target), *a.value),
        Expr::Range(r) => {
            let st1 = match r.start {
                Some(x) => res_expr(st, *x),
                None => st,
            };
            match r.end {
                Some(x) => res_expr(st1, *x),
                None => st1,
            }
        },
        Expr::Paren(inner) => res_expr(st, *inner),
        Expr::Block(b) => r_pop(res_block(r_push(st), b)),
        Expr::Try(inner) => res_expr(st, *inner),
        Expr::Literal(_) => st,
    }
}

/// Resolve the expressions from index `i` on.
pub open spec fn res_exprs(st: RState, es: Seq<Expr>, i: int) -> RState
    decreases es, es.len() - i,
{
    if 0 <= i < es.len() {
        res_exprs(res_expr(st, es[i]), es, i + 1)
    } else {
        st
    }
}

/// Resolve the values of struct literal fields from index `i` on.
pub open spec fn res_field_values(st: RState, fs: Seq<(String, Expr)>, i: int) -> RState
    decreases fs, fs.len() - i,
{
    if 0 <= i < fs.len() {
        res_field_values(res_expr(st, fs[i].1), fs, i + 1)
    } else {
        st
    }
}

/// Resolve match arms from index `i` on, each in its own scope with its pattern's names.
pub open spec fn res_arms(st: RState, arms: Seq<MatchArm>, i: int) -> RState
    decreases arms, arms.len() - i,
{
    if 0 <= i < arms.len() {
        res_arms(r_pop(res_expr(res_pattern(r_push(st), arms[i].pattern), arms[i].body)), arms, i + 1)
    } else {
        st
    }
}

/// Bind closure parameters from index `i` on to fresh type variables.
pub open spec fn res_closure_params(st: RState, ps: Seq<String>, i: int) -> RState
    decreases ps.len() - i,
{
    if 0 <= i < ps.len() {
        res_closure_params(r_bind_fresh(st, ps[i]@), ps, i + 1)
    } else {
        st
    }
}

/// Resolve the statements of a block.
pub open spec fn res_block(st: RState, b: Block) -> RState
    decreases b, 0int,
{
    res_stmts(st, b.stmts@, 0)
}

/// Resolve statements from index `i` on.
pub open spec fn res_stmts(st: RState, ss: Seq<Stmt>, i: int) -> RState
    decreases ss, ss.len() - i,
{
    if 0 <= i < ss.len() {
        res_stmts(res_stmt(st, ss[i]), ss, i + 1)
    } else {
        st
    }
}

/// Bind the name of a `let` after its initializer is resolved: a plain name is
/// reported if the scope already binds it and gets its written type or a fresh
/// variable; any other pattern binds its names to fresh variables.
pub open spec fn bind_let(st: RState, l: LetStmt) -> RState {
    match l.pattern {
        Pattern::Ident(name) => {
            let st1 = if te_defined_here(st.env, name@) {
                r_err(st, "RS005"@, "Variable '"@ + name@ + "' already defined in this scope"@, l.span)
            } else {
                st
            };
            match l.ty {
                Some(t) => r_define(st1, name@, ast_ti(t)),
                None => r_bind_fresh(st1, name@),
            }
        },
        p => res_pattern(st, p),
    }
}

/// Bind the name of a state binding of an inline visitor: a plain name gets its
/// written type or a fresh variable; any other pattern binds its names.
pub open spec fn bind_state(st: RState, l: LetStmt) -> RState {
    match l.pattern {
        Pattern::Ident(name) => match l.ty {
            Some(t) => r_define(st, name@, ast_ti(t)),
            None => r_bind_fresh(st, name@),
        },
        p => res_pattern(st, p),
    }
}

/// Bind the names of an `if let` pattern, if there is one.
pub open spec fn bind_if_pattern(st: RState, p: Option<Pattern>) -> RState {
    match p {
        Some(q) => res_pattern(st, q),
        None => st,
    }
}

/// Resolve a statement.
pub open spec fn res_stmt(st: RState, s: Stmt) -> RState
    decreases s, 0int,
{
    match s {
        Stmt::Let(l) => bind_let(res_expr(st, l.init), l),
        Stmt::Const(c) => {
            let st1 = res_expr(st, c.init);
            let st2 = if te_defined_here(st1.env, c.name@) {
                r_err(st1, "RS005"@, "Constant '"@ + c.name@ + "' already defined in this scope"@, c.span)
            } else {
                st1
            };
            match c.ty {
                Some(t) => r_define(st2, c.name@, ast_ti(t)),
                None => r_bind_fresh(st2, c.name@),
            }
        },
        Stmt::Expr(x) => res_expr(st, x.expr),
        Stmt::If(i) => {
            let st1 = res_expr(st, i.condition);
            let st2 = r_pop(res_block(bind_if_pattern(r_push(st1), i.pattern), i.then_branch));
            let st3 = res_else_ifs(st2, i.else_if_branches@, 0);
            match i.else_branch {
                Some(b) => r_pop(res_block(r_push(st3), b)),
                None => st3,
            }
        },
        Stmt::Match(m) => res_arms(res_expr(st, m.scrutinee), m.arms@, 0),
        Stmt::For(f) => r_pop(res_block(res_pattern(r_push(res_expr(st, f.iter)), f.pattern), f.body)),
        Stmt::While(w) => r_pop(res_block(r_push(res_expr(st, w.condition)), w.body)),
        Stmt::Loop(l) => r_pop(res_block(r_push(st), l.body)),
        Stmt::Return(r) => match r.value {
            Some(v) => res_expr(st, v),
            None => st,
        },
        Stmt::Break(_) => st,
        Stmt::Continue(_) => st,
        Stmt::Traverse(t) => {
            let st1 = res_expr(st, t.target);
            match t.kind {
                TraverseKind::Inline(iv) => r_pop(
                    res_methods(res_state(r_push(st1), iv.state@, 0), iv.methods@, 0),
                ),
                TraverseKind::Delegated(_) => st1,
            }
        },
    }
}

/// Resolve `else if` branches from index `i` on.
pub open spec fn res_else_ifs(st: RState, bs: Seq<(Expr, Block)>, i: int) -> RState
    decreases bs, bs.len() - i,
{
    if 0 <= i < bs.len() {
        res_else_ifs(r_pop(res_block(r_push(res_expr(st, bs[i].0)), bs[i].1)), bs, i + 1)
    } else {
        st
    }
}

/// Resolve the state bindings of an inline visitor from index `i` on.
pub open spec fn res_state(st: RState, ls: Seq<LetStmt>, i: int) -> RState
    decreases ls, ls.len() - i,
{
    if 0 <= i < ls.len() {
        res_state(bind_state(res_expr(st, ls[i].init), ls[i]), ls, i + 1)
    } else {
        st
    }
}

/// Resolve the methods of an inline visitor from index `i` on.
pub open spec fn res_methods(st: RState, fs: Seq<FnDecl>, i: int) -> RState
    decreases fs, fs.len() - i,
{
    if 0 <= i < fs.len() {
        res_methods(res_function(st, fs[i]), fs, i + 1)
    } else {
        st
    }
}

/// Resolve a function in a scope of its own holding its parameters.
pub open spec fn res_function(st: RState, f: FnDecl) -> RState
    decreases f, 0int,
{
    r_pop(res_block(res_params(r_push(st), f.params@, 0), f.body))
}

/// Bind parameters from index `i` on, reporting a name the scope already binds.
pub open spec fn res_params(st: RState, ps: Seq<Param>, i: int) -> RState
    decreases ps.len() - i,
{
    if 0 <= i < ps.len() {
        let p = ps[i];
        let st1 = if te_defined_here(st.env, p.name@) {
            r_err(st, "RS004"@, "Duplicate parameter name: "@ + p.name@, p.span)
        } else {
            r_define(st, p.name@, ast_ti(p.ty))
        };
        res_params(st1, ps, i + 1)
    } else {
        st
    }
}

// ===================== declarations and the program =====================

/// The fields of a struct declaration with the types they are written with.
pub open spec fn struct_fields(fs: Seq<StructField>) -> Seq<(Seq<char>, TypeInfoV)> {
    fs.map_values(|f: StructField| (f.name@, ast_ti(f.ty)))
}

/// The variants of an enum declaration with the types of their fields.
pub open spec fn enum_variants(vs: Seq<EnumVariant>) -> VariantsV {
    vs.map_values(
        |v: EnumVariant|
            (
                v.name@,
                match v.fields {
                    Some(ts) => Some(ast_tis(ts@)),
                    None => None,
                },
            ),
    )
}

/// The values of optional field types.
pub open spec fn opt_tis(o: Option<Vec<TypeInfo>>) -> Option<Seq<TypeInfoV>> {
    match o {
        Some(ts) => Some(v_tis(ts@)),
        None => None,
    }
}

/// The types optional written field types stand for.
pub open spec fn opt_ast_tis(o: Option<Vec<Type>>) -> Option<Seq<TypeInfoV>> {
    match o {
        Some(ts) => Some(ast_tis(ts@)),
        None => None,
    }
}

/// The parameter types of a function.
pub open spec fn param_tis(ps: Seq<Param>) -> Seq<TypeInfoV> {
    ps.map_values(|p: Param| ast_ti(p.ty))
}

/// The result type of a function: the written one, or `()`.
pub open spec fn ret_ti(t: Option<Type>) -> TypeInfoV {
    match t {
        Some(x) => ast_ti(x),
        None => TypeInfoV::Unit,
    }
}

/// Declare the structs and enums among the items from index `i` on.
pub open spec fn declare_types(st: RState, items: Seq<PluginItem>, i: int) -> RState
    decreases items.len() - i,
{
    if 0 <= i < items.len() {
        let st1 = match items[i] {
            PluginItem::Struct(s) => r_env(
                st,
                TypeEnvV { structs: st.env.structs.push((s.name@, struct_fields(s.fields@))), ..st.env },
            ),
            PluginItem::Enum(e) => r_env(
                st,
                TypeEnvV { enums: st.env.enums.push((e.name@, enum_variants(e.variants@))), ..st.env },
            ),
            _ => st,
        };
        declare_types(st1, items, i + 1)
    } else {
        st
    }
}

/// Bind the names of the functions among the items from index `i` on to their types.
pub open spec fn declare_functions(st: RState, items: Seq<PluginItem>, i: int) -> RState
    decreases items.len() - i,
{
    if 0 <= i < items.len() {
        let st1 = match items[i] {
            PluginItem::Function(f) => r_define(st, f.name@, fn_ti(param_tis(f.params@), ret_ti(f.return_type))),
            _ => st,
        };
        declare_functions(st1, items, i + 1)
    } else {
        st
    }
}

/// Resolve the bodies of the functions among the items from index `i` on.
pub open spec fn resolve_functions(st: RState, items: Seq<PluginItem>, i: int) -> RState
    decreases items.len() - i,
{
    if 0 <= i < items.len() {
        let st1 = match items[i] {
            PluginItem::Function(f) => res_function(st, f),
            _ => st,
        };
        resolve_functions(st1, items, i + 1)
    } else {
        st
    }
}

/// Resolve a body of items in a scope of its own: first the structs and enums,
/// then the function signatures, then the function bodies.
pub open spec fn res_body(st: RState, items: Seq<PluginItem>) -> RState {
    r_pop(resolve_functions(declare_functions(declare_types(r_push(st), items, 0), items, 0), items, 0))
}

/// The struct type known only by its name.
pub open spec fn struct_named(n: Seq<char>) -> TypeInfoV {
    TypeInfoV::Struct { name: n, fields: Seq::empty() }
}

/// Resolve a program: a plugin or writer is bound under its name and its body
/// resolved; a module's items are resolved the same way, with no name bound;
/// an interface needs nothing.
pub open spec fn res_program(st: RState, p: Program) -> RState {
    match p.decl {
        TopLevelDecl::Plugin(pl) => res_body(r_define(st, pl.name@, struct_named(pl.name@)), pl.body@),
        TopLevelDecl::Writer(w) => res_body(r_define(st, w.name@, struct_named(w.name@)), w.body@),
        TopLevelDecl::Interface(_) => st,
        TopLevelDecl::Module(m) => res_body(st, m.items@),
    }
}

// ===================== the resolver =====================

/// Name resolver - resolves all identifiers and builds the type environment
pub struct Resolver {
    env: TypeEnv,
    errors: Vec<SemanticError>,
}

impl Resolver {
    /// The environment and the errors, as values.
    pub closed spec fn state(&self) -> RState {
        RState { env: self.env@, errors: v_errors(self.errors@) }
    }

    /// A resolver with a fresh environment and no errors.
    pub fn new() -> (r: Self)
        ensures
            r.state() == (RState { env: te_new(), errors: Seq::empty() }),
    {
        let r = Self { env: TypeEnv::new(), errors: Vec::new() };
        assert(r.state().errors =~= Seq::<SemanticErrorV>::empty());
        r
    }

    /// Run name resolution
    pub fn resolve(&mut self, program: &Program) -> (r: Result<(), Vec<SemanticError>>)
        ensures
            final(self).state().env == res_program(old(self).state(), *program).env,
            final(self).state().errors == Seq::<SemanticErrorV>::empty(),
            match r {
                Ok(()) => res_program(old(self).state(), *program).errors.len() == 0,
                Err(es) => v_errors(es@) == res_program(old(self).state(), *program).errors
                    && es@.len() > 0,
            },
    {
        match &program.decl {
            TopLevelDecl::Plugin(plugin) => self.resolve_plugin(plugin.name.clone(), &plugin.body),
            TopLevelDecl::Writer(writer) => self.resolve_plugin(writer.name.clone(), &writer.body),
            TopLevelDecl::Interface(_) => {},  // Interfaces don't need resolution
            TopLevelDecl::Module(module) => self.resolve_body(&module.items),
        }
        if self.errors.len() == 0 {
            Ok(())
        } else {
            let mut errors: Vec<SemanticError> = Vec::new();
            std::mem::swap(&mut errors, &mut self.errors);
            assert(self.state().errors =~= Seq::<SemanticErrorV>::empty());
            Err(errors)
        }
    }

    /// Get the type environment
    pub fn get_env(&self) -> (r: &TypeEnv)
        ensures
            r@ == self.state().env,
    {
        &self.env
    }

    /// Take ownership of the type environment
    pub fn into_env(self) -> (r: TypeEnv)
        ensures
            r@ == self.state().env,
    {
        self.env
    }

    /// Record an error.
    fn report(&mut self, code: &str, message: String, span: Span)
        ensures
            final(self).state() == r_err(old(self).state(), code@, message@, span),
    {
        let e = SemanticError::new(code, message, span);
        self.errors.push(e);
        assert(self.state().errors =~= old(self).state().errors.push(e@));
    }

    /// Bind a name to a fresh type variable.
    fn bind_fresh(&mut self, name: String)
        ensures
            final(self).state() == r_bind_fresh(old(self).state(), name@),
    {
        let var_type = self.env.fresh_var();
        self.env.define(name, var_type);
    }

    /// Resolve a plugin or writer: define it by name, then resolve its body.
    fn resolve_plugin(&mut self, name: String, body: &Vec<PluginItem>)
        ensures
            final(self).state() == res_body(r_define(old(self).state(), name@, struct_named(name@)), body@),
    {
        let ghost n = name@;
        let fields: Vec<(String, TypeInfo)> = Vec::new();
        proof {
            assert(v_fields(fields@) =~= Seq::<(Seq<char>, TypeInfoV)>::empty());
        }
        // Define the plugin in scope
        let ty = TypeInfo::Struct { name: name.clone(), fields };
        self.env.define(name, ty);
        self.resolve_body(body);
    }

    /// Resolve a body of items in its own scope.
    fn resolve_body(&mut self, body: &Vec<PluginItem>)
        ensures
            final(self).state() == res_body(old(self).state(), body@),
    {
        // Enter plugin scope
        self.env.push_scope();
        // First pass: collect all struct and enum definitions
        let mut i: usize = 0;
        while i < body.len()
            invariant
                i <= body@.len(),
                declare_types(self.state(), body@, i as int) == declare_types(r_push(old(self).state()), body@, 0),
            decreases body@.len() - i,
        {
            match &body[i] {
                PluginItem::Struct(s) => self.declare_struct(s),
                PluginItem::Enum(e) => self.declare_enum(e),
                _ => {},
            }
            i = i + 1;
        }
        // Second pass: collect function signatures
        let ghost st2 = self.state();
        let mut i: usize = 0;
        while i < body.len()
            invariant
                i <= body@.len(),
                declare_functions(self.state(), body@, i as int) == declare_functions(st2, body@, 0),
            decreases body@.len() - i,
        {
            if let PluginItem::Function(f) = &body[i] {
                self.declare_function(f);
            }
            i = i + 1;
        }
        // Third pass: resolve function bodies
        let ghost st3 = self.state();
        let mut i: usize = 0;
        while i < body.len()
            invariant
                i <= body@.len(),
                resolve_functions(self.state(), body@, i as int) == resolve_functions(st3, body@, 0),
            decreases body@.len() - i,
        {
            if let PluginItem::Function(f) = &body[i] {
                self.resolve_function(f);
            }
            i = i + 1;
        }
        self.env.pop_scope();
    }

    fn declare_struct(&mut self, s: &StructDecl)
        ensures
            final(self).state() == r_env(
                old(self).state(),
                TypeEnvV { structs: old(self).state().env.structs.push((s.name@, struct_fields(s.fields@))), ..old(self).state().env },
            ),
    {
        let mut fields: Vec<(String, TypeInfo)> = Vec::new();
        let mut i: usize = 0;
        while i < s.fields.len()
            invariant
                i <= s.fields@.len(),
                v_fields(fields@) == struct_fields(s.fields@).subrange(0, i as int),
            decreases s.fields@.len() - i,
        {
            let field = &s.fields[i];
            let ty = ast_type_to_type_info(&field.ty);
            let ghost before = fields@;
            fields.push((field.name.clone(), ty));
            proof {
                lemma_v_fields_push(before, fields@.last());
                assert(struct_fields(s.fields@).subrange(0, i as int).push(struct_fields(s.fields@)[i as int])
                    =~= struct_fields(s.fields@).subrange(0, i + 1));
            }
            i = i + 1;
        }
        assert(struct_fields(s.fields@).subrange(0, i as int) =~= struct_fields(s.fields@));
        self.env.define_struct(s.name.clone(), fields);
    }

    fn declare_enum(&mut self, e: &EnumDecl)
        ensures
            final(self).state() == r_env(
                old(self).state(),
                TypeEnvV { enums: old(self).state().env.enums.push((e.name@, enum_variants(e.variants@))), ..old(self).state().env },
            ),
    {
        let mut variants: Vec<(String, Option<Vec<TypeInfo>>)> = Vec::new();
        let mut i: usize = 0;
        while i < e.variants.len()
            invariant
                i <= e.variants@.len(),
                variants@.len() == i,
                v_variants(variants@) == enum_variants(e.variants@).subrange(0, i as int),
            decreases e.variants@.len() - i,
        {
            let variant = &e.variants[i];
            let fields = match &variant.fields {
                Some(types) => Some(ast_types_to_type_infos(types)),
                None => None,
            };
            let ghost vf = opt_tis(fields);
            let ghost ef = opt_ast_tis(variant.fields);
            assert(vf == ef);
            let ghost before = variants@;
            variants.push((variant.name.clone(), fields));
            proof {
                assert(v_variants(variants@)[i as int] == (variant.name@, vf));
                assert(enum_variants(e.variants@)[i as int] == (variant.name@, ef));
                assert(v_variants(variants@) =~= v_variants(before).push((variant.name@, vf)));
                assert(enum_variants(e.variants@).subrange(0, i + 1) =~= enum_variants(e.variants@).subrange(
                    0,
                    i as int,
                ).push((variant.name@, ef)));
            }
            i = i + 1;
        }
        assert(enum_variants(e.variants@).subrange(0, i as int) =~= enum_variants(e.variants@));
        self.env.define_enum(e.name.clone(), variants);
    }

    fn declare_function(&mut self, f: &FnDecl)
        ensures
            final(self).state() == r_define(old(self).state(), f.name@, fn_ti(param_tis(f.params@), ret_ti(f.return_type))),
    {
        let mut params: Vec<TypeInfo> = Vec::new();
        let mut i: usize = 0;
        while i < f.params.len()
            invariant
                i <= f.params@.len(),
                v_tis(params@) == param_tis(f.params@).subrange(0, i as int),
            decreases f.params@.len() - i,
        {
            let ty = ast_type_to_type_info(&f.params[i].ty);
            let ghost before = params@;
            params.push(ty);
            proof {
                lemma_v_tis_push(before, ty);
                assert(param_tis(f.params@).subrange(0, i as int).push(param_tis(f.params@)[i as int])
                    =~= param_tis(f.params@).subrange(0, i + 1));
            }
            i = i + 1;
        }
        assert(param_tis(f.params@).subrange(0, i as int) =~= param_tis(f.params@));
        let ret = match &f.return_type {
            Some(t) => ast_type_to_type_info(t),
            None => TypeInfo::Unit,
        };
        self.env.define_function(f.name.clone(), params, ret);
    }
}

impl Resolver {
    fn resolve_function(&mut self, f: &FnDecl)
        ensures
            final(self).state() == res_function(old(self).state(), *f),
        decreases f, 0nat,
    {
        self.env.push_scope();
        // Define parameters
        let ghost st1 = self.state();
        let mut i: usize = 0;
        while i < f.params.len()
            invariant
                i <= f.params@.len(),
                res_params(self.state(), f.params@, i as int) == res_params(st1, f.params@, 0),
            decreases f.params@.len() - i,
        {
            let param = &f.params[i];
            let ty = ast_type_to_type_info(&param.ty);
            if self.env.is_defined_in_current_scope(param.name.as_str()) {
                let message = joined("Duplicate parameter name: ", param.name.as_str());
                self.report("RS004", message, param.span);
            } else {
                self.env.define(param.name.clone(), ty);
            }
            i = i + 1;
        }
        // Resolve body
        self.resolve_block(&f.body);
        self.env.pop_scope();
    }

    fn resolve_block(&mut self, block: &Block)
        ensures
            final(self).state() == res_block(old(self).state(), *block),
        decreases block, 0nat,
    {
        let mut i: usize = 0;
        while i < block.stmts.len()
            invariant
                i <= block.stmts@.len(),
                res_stmts(self.state(), block.stmts@, i as int) == res_block(old(self).state(), *block),
            decreases block.stmts@.len() - i,
        {
            self.resolve_stmt(&block.stmts[i]);
            i = i + 1;
        }
    }

    /// Resolve a block in a scope of its own.
    fn resolve_scoped_block(&mut self, block: &Block)
        ensures
            final(self).state() == r_pop(res_block(r_push(old(self).state()), *block)),
        decreases block, 1nat,
    {
        self.env.push_scope();
        self.resolve_block(block);
        self.env.pop_scope();
    }
}

impl Resolver {
    fn resolve_stmt(&mut self, stmt: &Stmt)
        ensures
            final(self).state() == res_stmt(old(self).state(), *stmt),
        decreases stmt, 0nat,
    {
        match stmt {
            Stmt::Let(let_stmt) => {
                // Resolve initializer first
                self.resolve_expr(&let_stmt.init);
                self.bind_let(let_stmt);
            },
            Stmt::Const(const_stmt) => {
                self.resolve_expr(&const_stmt.init);
                if self.env.is_defined_in_current_scope(const_stmt.name.as_str()) {
                    let message = joined3("Constant '", const_stmt.name.as_str(), "' already defined in this scope");
                    self.report("RS005", message, const_stmt.span);
                }
                match &const_stmt.ty {
                    Some(type_ann) => {
                        let ty = ast_type_to_type_info(type_ann);
                        self.env.define(const_stmt.name.clone(), ty);
                    },
                    None => self.bind_fresh(const_stmt.name.clone()),
                }
            },
            Stmt::Expr(expr_stmt) => {
                self.resolve_expr(&expr_stmt.expr);
            },
            Stmt::If(if_stmt) => {
                self.resolve_expr(&if_stmt.condition);
                self.env.push_scope();
                // The names an `if let` pattern binds are visible in the then-branch
                if let Some(pattern) = &if_stmt.pattern {
                    self.resolve_pattern(pattern);
                }
                self.resolve_block(&if_stmt.then_branch);
                self.env.pop_scope();
                self.resolve_else_ifs(&if_stmt.else_if_branches);
                if let Some(else_block) = &if_stmt.else_branch {
                    self.resolve_scoped_block(else_block);
                }
            },
            Stmt::Match(match_stmt) => {
                self.resolve_expr(&match_stmt.scrutinee);
                self.resolve_arms(&match_stmt.arms);
            },
            Stmt::For(for_stmt) => {
                self.resolve_expr(&for_stmt.iter);
                self.env.push_scope();
                // Define the loop variables
                self.resolve_pattern(&for_stmt.pattern);
                self.resolve_block(&for_stmt.body);
                self.env.pop_scope();
            },
            Stmt::While(while_stmt) => {
                self.resolve_expr(&while_stmt.condition);
                self.resolve_scoped_block(&while_stmt.body);
            },
            Stmt::Loop(loop_stmt) => {
                self.resolve_scoped_block(&loop_stmt.body);
            },
            Stmt::Return(return_stmt) => {
                if let Some(value) = &return_stmt.value {
                    self.resolve_expr(value);
                }
            },
            Stmt::Break(_) | Stmt::Continue(_) => {},
            Stmt::Traverse(traverse_stmt) => {
                // Resolve the target expression
                self.resolve_expr(&traverse_stmt.target);
                // Handle the traverse kind
                match &traverse_stmt.kind {
                    TraverseKind::Inline(inline) => {
                        // Create a new scope for the inline visitor
                        self.env.push_scope();
                        // Resolve state variables
                        self.resolve_state(&inline.state);
                        // Resolve methods
                        self.resolve_methods(&inline.methods);
                        self.env.pop_scope();
                    },
                    TraverseKind::Delegated(_visitor_name) => {
                        // The visitor is checked where plugin definitions are known
                    },
                }
            },
        }
    }

    /// Bind the name of a `let` once its initializer is resolved.
    fn bind_let(&mut self, let_stmt: &LetStmt)
        ensures
            final(self).state() == bind_let(old(self).state(), *let_stmt),
    {
        match &let_stmt.pattern {
            Pattern::Ident(name) => {
                // Check for redefinition in same scope
                if self.env.is_defined_in_current_scope(name.as_str()) {
                    let message = joined3("Variable '", name.as_str(), "' already defined in this scope");
                    self.report("RS005", message, let_stmt.span);
                }
                // Determine type
                match &let_stmt.ty {
                    Some(type_ann) => {
                        let ty = ast_type_to_type_info(type_ann);
                        self.env.define(name.clone(), ty);
                    },
                    // Type will be inferred during type checking
                    None => self.bind_fresh(name.clone()),
                }
            },
            pattern => self.resolve_pattern(pattern),
        }
    }

    /// Bind the name of an inline visitor's state binding.
    fn bind_state(&mut self, let_stmt: &LetStmt)
        ensures
            final(self).state() == bind_state(old(self).state(), *let_stmt),
    {
        match &let_stmt.pattern {
            Pattern::Ident(name) => match &let_stmt.ty {
                Some(type_ann) => {
                    let ty = ast_type_to_type_info(type_ann);
                    self.env.define(name.clone(), ty);
                },
                None => self.bind_fresh(name.clone()),
            },
            pattern => self.resolve_pattern(pattern),
        }
    }

    /// Resolve match arms, each in its own scope with its pattern's names.
    fn resolve_arms(&mut self, arms: &Vec<MatchArm>)
        ensures
            final(self).state() == res_arms(old(self).state(), arms@, 0),
        decreases arms, 0nat,
    {
        let mut i: usize = 0;
        while i < arms.len()
            invariant
                i <= arms@.len(),
                res_arms(self.state(), arms@, i as int) == res_arms(old(self).state(), arms@, 0),
            decreases arms@.len() - i,
        {
            let arm = &arms[i];
            self.env.push_scope();
            self.resolve_pattern(&arm.pattern);
            self.resolve_expr(&arm.body);
            self.env.pop_scope();
            i = i + 1;
        }
    }

    fn resolve_pattern(&mut self, pattern: &Pattern)
        ensures
            final(self).state() == res_pattern(old(self).state(), *pattern),
        decreases pattern, 0nat,
    {
        match pattern {
            Pattern::Ident(name) => {
                // Bind the pattern variable
                self.bind_fresh(name.clone());
            },
            Pattern::Struct { fields, .. } | Pattern::Object(fields) => {
                self.resolve_pattern_fields(fields);
            },
            Pattern::Or(patterns) | Pattern::Tuple(patterns) | Pattern::Array(patterns) => {
                self.resolve_patterns(patterns);
            },
            Pattern::Variant { inner, .. } => {
                // Resolve inner pattern if present (e.g., Some(x) -> resolve x)
                if let Some(inner_pat) = inner {
                    self.resolve_pattern(inner_pat);
                }
            },
            Pattern::Rest(name) => {
                self.bind_fresh(name.clone());
            },
            Pattern::Literal(_) | Pattern::Wildcard => {},
        }
    }

    fn resolve_expr(&mut self, expr: &Expr)
        ensures
            final(self).state() == res_expr(old(self).state(), *expr),
        decreases expr, 0nat,
    {
        match expr {
            Expr::Ident(ident) => {
                let name = ident.name.as_str();
                if self.env.lookup(name).is_none() {
                    // Check for special names and built-in macros
                    let is_special = str_eq(name, "self") || str_eq(name, "Self") || str_eq(name, "matches!")
                        || str_eq(name, "format!") || str_eq(name, "vec!") || str_eq(name, "Some") || str_eq(
                        name,
                        "None",
                    ) || str_eq(name, "Ok") || str_eq(name, "Err");
                    // Check if it's a known AST node type (used in matches!)
                    let is_ast_type = get_node_mapping(name).is_some();
                    if !is_special && !is_ast_type {
                        let message = joined("Undefined variable: ", name);
                        self.report("RS006", message, ident.span);
                    }
                }
            },
            Expr::Binary(binary) => {
                self.resolve_expr(&binary.left);
                self.resolve_expr(&binary.right);
            },
            Expr::Unary(unary) => {
                self.resolve_expr(&unary.operand);
            },
            Expr::Call(call) => {
                self.resolve_expr(&call.callee);
                self.resolve_exprs(&call.args);
            },
            Expr::Member(member) => {
                self.resolve_expr(&member.object);
                // Property name doesn't need resolution
            },
            Expr::Index(index) => {
                self.resolve_expr(&index.object);
                self.resolve_expr(&index.index);
            },
            Expr::StructInit(init) => {
                // Check struct exists
                let name = init.name.as_str();
                if self.env.get_struct_fields(name).is_none() && self.env.lookup(name).is_none() {
                    let message = joined("Unknown struct: ", name);
                    self.report("RS007", message, init.span);
                }
                self.resolve_field_values(&init.fields);
            },
            Expr::VecInit(vec_init) => {
                self.resolve_exprs(&vec_init.elements);
            },
            Expr::If(if_expr) => {
                self.resolve_expr(&if_expr.condition);
                self.resolve_scoped_block(&if_expr.then_branch);
                if let Some(else_block) = &if_expr.else_branch {
                    self.resolve_scoped_block(else_block);
                }
            },
            Expr::Match(match_expr) => {
                self.resolve_expr(&match_expr.scrutinee);
                self.resolve_arms(&match_expr.arms);
            },
            Expr::Closure(closure) => {
                self.env.push_scope();
                let ghost st1 = self.state();
                let mut i: usize = 0;
                while i < closure.params.len()
                    invariant
                        i <= closure.params@.len(),
                        res_closure_params(self.state(), closure.params@, i as int) == res_closure_params(
                            st1,
                            closure.params@,
                            0,
                        ),
                    decreases closure.params@.len() - i,
                {
                    self.bind_fresh(closure.params[i].clone());
                    i = i + 1;
                }
                self.resolve_expr(&closure.body);
                self.env.pop_scope();
            },
            Expr::Ref(ref_expr) => {
                self.resolve_expr(&ref_expr.expr);
            },
            Expr::Deref(deref_expr) => {
                self.resolve_expr(&deref_expr.expr);
            },
            Expr::Assign(assign) => {
                self.resolve_expr(&assign.target);
                self.resolve_expr(&assign.value);
            },
            Expr::CompoundAssign(compound) => {
                self.resolve_expr(&compound.target);
                self.resolve_expr(&compound.value);
            },
            Expr::Range(range) => {
                if let Some(start) = &range.start {
                    self.resolve_expr(start);
                }
                if let Some(end) = &range.end {
                    self.resolve_expr(end);
                }
            },
            Expr::Paren(inner) => {
                self.resolve_expr(inner);
            },
            Expr::Block(block) => {
                self.resolve_scoped_block(block);
            },
            Expr::Try(inner) => {
                self.resolve_expr(inner);
            },
            Expr::Literal(_) => {},
        }
    }

    /// Resolve a list of expressions in order.
    fn resolve_exprs(&mut self, exprs: &Vec<Expr>)
        ensures
            final(self).state() == res_exprs(old(self).state(), exprs@, 0),
        decreases exprs, 0nat,
    {
        let mut i: usize = 0;
        while i < exprs.len()
            invariant
                i <= exprs@.len(),
                res_exprs(self.state(), exprs@, i as int) == res_exprs(old(self).state(), exprs@, 0),
            decreases exprs@.len() - i,
        {
            self.resolve_expr(&exprs[i]);
            i = i + 1;
        }
    }
}

impl Resolver {
    /// Bind the names of a list of patterns.
    fn resolve_patterns(&mut self, patterns: &Vec<Pattern>)
        ensures
            final(self).state() == res_patterns(old(self).state(), patterns@, 0),
        decreases patterns, 0nat,
    {
        let mut i: usize = 0;
        while i < patterns.len()
            invariant
                i <= patterns@.len(),
                res_patterns(self.state(), patterns@, i as int) == res_patterns(old(self).state(), patterns@, 0),
            decreases patterns@.len() - i,
        {
            self.resolve_pattern(&patterns[i]);
            i = i + 1;
        }
    }

    /// Bind the names of a list of field patterns.
    fn resolve_pattern_fields(&mut self, fields: &Vec<(String, Pattern)>)
        ensures
            final(self).state() == res_pattern_fields(old(self).state(), fields@, 0),
        decreases fields, 0nat,
    {
        let mut i: usize = 0;
        while i < fields.len()
            invariant
                i <= fields@.len(),
                res_pattern_fields(self.state(), fields@, i as int) == res_pattern_fields(old(self).state(), fields@, 0),
            decreases fields@.len() - i,
        {
            self.resolve_pattern(&fields[i].1);
            i = i + 1;
        }
    }

    /// Resolve the values of struct literal fields.
    fn resolve_field_values(&mut self, fields: &Vec<(String, Expr)>)
        ensures
            final(self).state() == res_field_values(old(self).state(), fields@, 0),
        decreases fields, 0nat,
    {
        let mut i: usize = 0;
        while i < fields.len()
            invariant
                i <= fields@.len(),
                res_field_values(self.state(), fields@, i as int) == res_field_values(old(self).state(), fields@, 0),
            decreases fields@.len() - i,
        {
            self.resolve_expr(&fields[i].1);
            i = i + 1;
        }
    }

    /// Resolve `else if` branches, each block in a scope of its own.
    fn resolve_else_ifs(&mut self, branches: &Vec<(Expr, Block)>)
        ensures
            final(self).state() == res_else_ifs(old(self).state(), branches@, 0),
        decreases branches, 0nat,
    {
        let mut i: usize = 0;
        while i < branches.len()
            invariant
                i <= branches@.len(),
                res_else_ifs(self.state(), branches@, i as int) == res_else_ifs(old(self).state(), branches@, 0),
            decreases branches@.len() - i,
        {
            let (cond, block) = &branches[i];
            self.resolve_expr(cond);
            self.resolve_scoped_block(block);
            i = i + 1;
        }
    }

    /// Resolve the state bindings of an inline visitor.
    fn resolve_state(&mut self, state: &Vec<LetStmt>)
        ensures
            final(self).state() == res_state(old(self).state(), state@, 0),
        decreases state, 0nat,
    {
        let mut i: usize = 0;
        while i < state.len()
            invariant
                i <= state@.len(),
                res_state(self.state(), state@, i as int) == res_state(old(self).state(), state@, 0),
            decreases state@.len() - i,
        {
            let let_stmt = &state[i];
            self.resolve_expr(&let_stmt.init);
            self.bind_state(let_stmt);
            i = i + 1;
        }
    }

    /// Resolve the methods of an inline visitor.
    fn resolve_methods(&mut self, methods: &Vec<FnDecl>)
        ensures
            final(self).state() == res_methods(old(self).state(), methods@, 0),
        decreases methods, 0nat,
    {
        let mut i: usize = 0;
        while i < methods.len()
            invariant
                i <= methods@.len(),
                res_methods(self.state(), methods@, i as int) == res_methods(old(self).state(), methods@, 0),
            decreases methods@.len() - i,
        {
            self.resolve_function(&methods[i]);
            i = i + 1;
        }
    }
}

// ===================== what resolution keeps =====================

/// The second state has as many scopes as the first, and the errors of the
/// first come first in it, in the same order.
pub open spec fn r_keeps(a: RState, b: RState) -> bool {
    &&& b.env.scopes.len() == a.env.scopes.len()
    &&& a.errors.len() <= b.errors.len()
    &&& forall|i: int| 0 <= i < a.errors.len() ==> #[trigger] b.errors[i] == a.errors[i]
}

proof fn lemma_keeps_trans(a: RState, b: RState, c: RState)
    requires
        r_keeps(a, b),
        r_keeps(b, c),
    ensures
        r_keeps(a, c),
{
    assert forall|i: int| 0 <= i < a.errors.len() implies #[trigger] c.errors[i] == a.errors[i] by {
        assert(b.errors[i] == a.errors[i]);
    }
}

/// Entering a scope, keeping what resolution keeps inside it, and leaving it
/// again keeps the number of scopes and the earlier errors.
proof fn lemma_scoped_keeps(st: RState, inner: RState)
    requires
        st.env.scopes.len() >= 1,
        r_keeps(r_push(st), inner),
    ensures
        r_keeps(st, r_pop(inner)),
{
}

proof fn lemma_bind_fresh_keeps(st: RState, k: Seq<char>)
    requires
        st.env.scopes.len() >= 1,
    ensures
        r_keeps(st, r_bind_fresh(st, k)),
{
}

proof fn lemma_res_pattern_keeps(st: RState, p: Pattern)
    requires
        st.env.scopes.len() >= 1,
    ensures
        r_keeps(st, res_pattern(st, p)),
    decreases p, 0int,
{
    match p {
        Pattern::Ident(name) => lemma_bind_fresh_keeps(st, name@),
        Pattern::Struct { fields, .. } => lemma_res_pattern_fields_keeps(st, fields@, 0),
        Pattern::Or(ps) => lemma_res_patterns_keeps(st, ps@, 0),
        Pattern::Variant { inner, .. } => match inner {
            Some(q) => lemma_res_pattern_keeps(st, *q),
            None => {},
        },
        Pattern::Tuple(ps) => lemma_res_patterns_keeps(st, ps@, 0),
        Pattern::Array(ps) => lemma_res_patterns_keeps(st, ps@, 0),
        Pattern::Object(fields) => lemma_res_pattern_fields_keeps(st, fields@, 0),
        Pattern::Rest(name) => lemma_bind_fresh_keeps(st, name@),
        Pattern::Literal(_) => {},
        Pattern::Wildcard => {},
    }
}

proof fn lemma_res_patterns_keeps(st: RState, ps: Seq<Pattern>, i: int)
    requires
        st.env.scopes.len() >= 1,
    ensures
        r_keeps(st, res_patterns(st, ps, i)),
    decreases ps, ps.len() - i,
{
    if 0 <= i < ps.len() {
        let st1 = res_pattern(st, ps[i]);
        lemma_res_pattern_keeps(st, ps[i]);
        lemma_res_patterns_keeps(st1, ps, i + 1);
        lemma_keeps_trans(st, st1, res_patterns(st1, ps, i + 1));
    }
}

proof fn lemma_res_pattern_fields_keeps(st: RState, fs: Seq<(String, Pattern)>, i: int)
    requires
        st.env.scopes.len() >= 1,
    ensures
        r_keeps(st, res_pattern_fields(st, fs, i)),
    decreases fs, fs.len() - i,
{
    if 0 <= i < fs.len() {
        let st1 = res_pattern(st, fs[i].1);
        lemma_res_pattern_keeps(st, fs[i].1);
        lemma_res_pattern_fields_keeps(st1, fs, i + 1);
        lemma_keeps_trans(st, st1, res_pattern_fields(st1, fs, i + 1));
    }
}

proof fn lemma_res_expr_keeps(st: RState, e: Expr)
    requires
        st.env.scopes.len() >= 1,
    ensures
        r_keeps(st, res_expr(st, e)),
    decreases e, 0int,
{
    match e {
        Expr::Ident(_) => {},
        Expr::Binary(b) => {
            let st1 = res_expr(st, *b.left);
            lemma_res_expr_keeps(st, *b.left);
            lemma_res_expr_keeps(st1, *b.right);
            lemma_keeps_trans(st, st1, res_expr(st1, *b.right));
        },
        Expr::Unary(u) => lemma_res_expr_keeps(st, *u.operand),
        Expr::Call(c) => {
            let st1 = res_expr(st, *c.callee);
            lemma_res_expr_keeps(st, *c.callee);
            lemma_res_exprs_keeps(st1, c.args@, 0);
            lemma_keeps_trans(st, st1, res_exprs(st1, c.args@, 0));
        },
        Expr::Member(m) => lemma_res_expr_keeps(st, *m.object),
        Expr::Index(x) => {
            let st1 = res_expr(st, *x.object);
            lemma_res_expr_keeps(st, *x.object);
            lemma_res_expr_keeps(st1, *x.index);
            lemma_keeps_trans(st, st1, res_expr(st1, *x.index));
        },
        Expr::StructInit(s) => {
            let st1 = if te_struct_fields(st.env, s.name@) is None && te_lookup(st.env, s.name@) is None {
                r_err(st, "RS007"@, "Unknown struct: "@ + s.name@, s.span)
            } else {
                st
            };
            lemma_res_field_values_keeps(st1, s.fields@, 0);
            lemma_keeps_trans(st, st1, res_field_values(st1, s.fields@, 0));
        },
        Expr::VecInit(v) => lemma_res_exprs_keeps(st, v.elements@, 0),
        Expr::If(ie) => {
            let st0 = res_expr(st, *ie.condition);
            lemma_res_expr_keeps(st, *ie.condition);
            lemma_res_block_keeps(r_push(st0), ie.then_branch);
            lemma_scoped_keeps(st0, res_block(r_push(st0), ie.then_branch));
            let st1 = r_pop(res_block(r_push(st0), ie.then_branch));
            lemma_keeps_trans(st, st0, st1);
            match ie.else_branch {
                Some(b) => {
                    lemma_res_block_keeps(r_push(st1), b);
                    lemma_scoped_keeps(st1, res_block(r_push(st1), b));
                    lemma_keeps_trans(st, st1, r_pop(res_block(r_push(st1), b)));
                },
                None => {},
            }
        },
        Expr::Match(me) => {
            let st1 = res_expr(st, *me.scrutinee);
            lemma_res_expr_keeps(st, *me.scrutinee);
            lemma_res_arms_keeps(st1, me.arms@, 0);
            lemma_keeps_trans(st, st1, res_arms(st1, me.arms@, 0));
        },
        Expr::Closure(c) => {
            let st1 = res_closure_params(r_push(st), c.params@, 0);
            lemma_res_closure_params_keeps(r_push(st), c.params@, 0);
            lemma_res_expr_keeps(st1, *c.body);
            lemma_keeps_trans(r_push(st), st1, res_expr(st1, *c.body));
            lemma_scoped_keeps(st, res_expr(st1, *c.body));
        },
        Expr::Ref(r) => lemma_res_expr_keeps(st, *r.expr),
        Expr::Deref(d) => lemma_res_expr_keeps(st, *d.expr),
        Expr::Assign(a) => {
            let st1 = res_expr(st, *a.target);
            lemma_res_expr_keeps(st, *a.target);
            lemma_res_expr_keeps(st1, *a.value);
            lemma_keeps_trans(st, st1, res_expr(st1, *a.value));
        },
        Expr::CompoundAssign(a) => {
            let st1 = res_expr(st, *a.target);
            lemma_res_expr_keeps(st, *a.target);
            lemma_res_expr_keeps(st1, *a.value);
            lemma_keeps_trans(st, st1, res_expr(st1, *a.value));
        },
        Expr::Range(r) => {
            let st1 = match r.start {
                Some(x) => res_expr(st, *x),
                None => st,
            };
            match r.start {
                Some(x) => lemma_res_expr_keeps(st, *x),
                None => {},
            }
            match r.end {
                Some(x) => {
                    lemma_res_expr_keeps(st1, *x);
                    lemma_keeps_trans(st, st1, res_expr(st1, *x));
                },
                None => {},
            }
        },
        Expr::Paren(inner) => lemma_res_expr_keeps(st, *inner),
        Expr::Block(b) => {
            lemma_res_block_keeps(r_push(st), b);
            lemma_scoped_keeps(st, res_block(r_push(st), b));
        },
        Expr::Try(inner) => lemma_res_expr_keeps(st, *inner),
        Expr::Literal(_) => {},
    }
}

proof fn lemma_res_exprs_keeps(st: RState, es: Seq<Expr>, i: int)
    requires
        st.env.scopes.len() >= 1,
    ensures
        r_keeps(st, res_exprs(st, es, i)),
    decreases es, es.len() - i,
{
    if 0 <= i < es.len() {
        let st1 = res_expr(st, es[i]);
        lemma_res_expr_keeps(st, es[i]);
        lemma_res_exprs_keeps(st1, es, i + 1);
        lemma_keeps_trans(st, st1, res_exprs(st1, es, i + 1));
    }
}

proof fn lemma_res_field_values_keeps(st: RState, fs: Seq<(String, Expr)>, i: int)
    requires
        st.env.scopes.len() >= 1,
    ensures
        r_keeps(st, res_field_values(st, fs, i)),
    decreases fs, fs.len() - i,
{
    if 0 <= i < fs.len() {
        let st1 = res_expr(st, fs[i].1);
        lemma_res_expr_keeps(st, fs[i].1);
        lemma_res_field_values_keeps(st1, fs, i + 1);
        lemma_keeps_trans(st, st1, res_field_values(st1, fs, i + 1));
    }
}

proof fn lemma_res_arms_keeps(st: RState, arms: Seq<MatchArm>, i: int)
    requires
        st.env.scopes.len() >= 1,
    ensures
        r_keeps(st, res_arms(st, arms, i)),
    decreases arms, arms.len() - i,
{
    if 0 <= i < arms.len() {
        let sp = res_pattern(r_push(st), arms[i].pattern);
        lemma_res_pattern_keeps(r_push(st), arms[i].pattern);
        lemma_res_expr_keeps(sp, arms[i].body);
        lemma_keeps_trans(r_push(st), sp, res_expr(sp, arms[i].body));
        lemma_scoped_keeps(st, res_expr(sp, arms[i].body));
        let st1 = r_pop(res_expr(sp, arms[i].body));
        lemma_res_arms_keeps(st1, arms, i + 1);
        lemma_keeps_trans(st, st1, res_arms(st1, arms, i + 1));
    }
}

proof fn lemma_res_closure_params_keeps(st: RState, ps: Seq<String>, i: int)
    requires
        st.env.scopes.len() >= 1,
    ensures
        r_keeps(st, res_closure_params(st, ps, i)),
    decreases ps.len() - i,
{
    if 0 <= i < ps.len() {
        let st1 = r_bind_fresh(st, ps[i]@);
        lemma_res_closure_params_keeps(st1, ps, i + 1);
        lemma_keeps_trans(st, st1, res_closure_params(st1, ps, i + 1));
    }
}

proof fn lemma_res_block_keeps(st: RState, b: Block)
    requires
        st.env.scopes.len() >= 1,
    ensures
        r_keeps(st, res_block(st, b)),
    decreases b, 0int,
{
    lemma_res_stmts_keeps(st, b.stmts@, 0);
}

proof fn lemma_res_stmts_keeps(st: RState, ss: Seq<Stmt>, i: int)
    requires
        st.env.scopes.len() >= 1,
    ensures
        r_keeps(st, res_stmts(st, ss, i)),
    decreases ss, ss.len() - i,
{
    if 0 <= i < ss.len() {
        let st1 = res_stmt(st, ss[i]);
        lemma_res_stmt_keeps(st, ss[i]);
        lemma_res_stmts_keeps(st1, ss, i + 1);
        lemma_keeps_trans(st, st1, res_stmts(st1, ss, i + 1));
    }
}

proof fn lemma_bind_let_keeps(st: RState, l: LetStmt)
    requires
        st.env.scopes.len() >= 1,
    ensures
        r_keeps(st, bind_let(st, l)),
{
    match l.pattern {
        Pattern::Ident(name) => {},
        p => lemma_res_pattern_keeps(st, p),
    }
}

proof fn lemma_bind_state_keeps(st: RState, l: LetStmt)
    requires
        st.env.scopes.len() >= 1,
    ensures
        r_keeps(st, bind_state(st, l)),
{
    match l.pattern {
        Pattern::Ident(name) => {},
        p => lemma_res_pattern_keeps(st, p),
    }
}

proof fn lemma_res_stmt_keeps(st: RState, s: Stmt)
    requires
        st.env.scopes.len() >= 1,
    ensures
        r_keeps(st, res_stmt(st, s)),
    decreases s, 0int,
{
    match s {
        Stmt::Let(l) => {
            let st1 = res_expr(st, l.init);
            lemma_res_expr_keeps(st, l.init);
            lemma_bind_let_keeps(st1, l);
            lemma_keeps_trans(st, st1, bind_let(st1, l));
        },
        Stmt::Const(c) => {
            lemma_res_expr_keeps(st, c.init);
        },
        Stmt::Expr(x) => lemma_res_expr_keeps(st, x.expr),
        Stmt::If(i) => {
            let st1 = res_expr(st, i.condition);
            lemma_res_expr_keeps(st, i.condition);
            let sp = bind_if_pattern(r_push(st1), i.pattern);
            match i.pattern {
                Some(q) => lemma_res_pattern_keeps(r_push(st1), q),
                None => {},
            }
            lemma_res_block_keeps(sp, i.then_branch);
            lemma_keeps_trans(r_push(st1), sp, res_block(sp, i.then_branch));
            lemma_scoped_keeps(st1, res_block(sp, i.then_branch));
            let st2 = r_pop(res_block(sp, i.then_branch));
            lemma_keeps_trans(st, st1, st2);
            lemma_res_else_ifs_keeps(st2, i.else_if_branches@, 0);
            let st3 = res_else_ifs(st2, i.else_if_branches@, 0);
            lemma_keeps_trans(st, st2, st3);
            match i.else_branch {
                Some(b) => {
                    lemma_res_block_keeps(r_push(st3), b);
                    lemma_scoped_keeps(st3, res_block(r_push(st3), b));
                    lemma_keeps_trans(st, st3, r_pop(res_block(r_push(st3), b)));
                },
                None => {},
            }
        },
        Stmt::Match(m) => {
            let st1 = res_expr(st, m.scrutinee);
            lemma_res_expr_keeps(st, m.scrutinee);
            lemma_res_arms_keeps(st1, m.arms@, 0);
            lemma_keeps_trans(st, st1, res_arms(st1, m.arms@, 0));
        },
        Stmt::For(f) => {
            let st1 = res_expr(st, f.iter);
            lemma_res_expr_keeps(st, f.iter);
            let sp = res_pattern(r_push(st1), f.pattern);
            lemma_res_pattern_keeps(r_push(st1), f.pattern);
            lemma_res_block_keeps(sp, f.body);
            lemma_keeps_trans(r_push(st1), sp, res_block(sp, f.body));
            lemma_scoped_keeps(st1, res_block(sp, f.body));
            lemma_keeps_trans(st, st1, r_pop(res_block(sp, f.body)));
        },
        Stmt::While(w) => {
            let st1 = res_expr(st, w.condition);
            lemma_res_expr_keeps(st, w.condition);
            lemma_res_block_keeps(r_push(st1), w.body);
            lemma_scoped_keeps(st1, res_block(r_push(st1), w.body));
            lemma_keeps_trans(st, st1, r_pop(res_block(r_push(st1), w.body)));
        },
        Stmt::Loop(l) => {
            lemma_res_block_keeps(r_push(st), l.body);
            lemma_scoped_keeps(st, res_block(r_push(st), l.body));
        },
        Stmt::Return(r) => match r.value {
            Some(v) => lemma_res_expr_keeps(st, v),
            None => {},
        },
        Stmt::Break(_) => {},
        Stmt::Continue(_) => {},
        Stmt::Traverse(t) => {
            let st1 = res_expr(st, t.target);
            lemma_res_expr_keeps(st, t.target);
            match t.kind {
                TraverseKind::Inline(iv) => {
                    let ss = res_state(r_push(st1), iv.state@, 0);
                    lemma_res_state_keeps(r_push(st1), iv.state@, 0);
                    lemma_res_methods_keeps(ss, iv.methods@, 0);
                    lemma_keeps_trans(r_push(st1), ss, res_methods(ss, iv.methods@, 0));
                    lemma_scoped_keeps(st1, res_methods(ss, iv.methods@, 0));
                    lemma_keeps_trans(st, st1, r_pop(res_methods(ss, iv.methods@, 0)));
                },
                TraverseKind::Delegated(_) => {},
            }
        },
    }
}

proof fn lemma_res_else_ifs_keeps(st: RState, bs: Seq<(Expr, Block)>, i: int)
    requires
        st.env.scopes.len() >= 1,
    ensures
        r_keeps(st, res_else_ifs(st, bs, i)),
    decreases bs, bs.len() - i,
{
    if 0 <= i < bs.len() {
        let st0 = res_expr(st, bs[i].0);
        lemma_res_expr_keeps(st, bs[i].0);
        lemma_res_block_keeps(r_push(st0), bs[i].1);
        lemma_scoped_keeps(st0, res_block(r_push(st0), bs[i].1));
        let st1 = r_pop(res_block(r_push(st0), bs[i].1));
        lemma_keeps_trans(st, st0, st1);
        lemma_res_else_ifs_keeps(st1, bs, i + 1);
        lemma_keeps_trans(st, st1, res_else_ifs(st1, bs, i + 1));
    }
}

proof fn lemma_res_state_keeps(st: RState, ls: Seq<LetStmt>, i: int)
    requires
        st.env.scopes.len() >= 1,
    ensures
        r_keeps(st, res_state(st, ls, i)),
    decreases ls, ls.len() - i,
{
    if 0 <= i < ls.len() {
        let st0 = res_expr(st, ls[i].init);
        lemma_res_expr_keeps(st, ls[i].init);
        lemma_bind_state_keeps(st0, ls[i]);
        let st1 = bind_state(st0, ls[i]);
        lemma_keeps_trans(st, st0, st1);
        lemma_res_state_keeps(st1, ls, i + 1);
        lemma_keeps_trans(st, st1, res_state(st1, ls, i + 1));
    }
}

proof fn lemma_res_methods_keeps(st: RState, fs: Seq<FnDecl>, i: int)
    requires
        st.env.scopes.len() >= 1,
    ensures
        r_keeps(st, res_methods(st, fs, i)),
    decreases fs, fs.len() - i,
{
    if 0 <= i < fs.len() {
        let st1 = res_function(st, fs[i]);
        lemma_res_function_keeps(st, fs[i]);
        lemma_res_methods_keeps(st1, fs, i + 1);
        lemma_keeps_trans(st, st1, res_methods(st1, fs, i + 1));
    }
}

proof fn lemma_res_function_keeps(st: RState, f: FnDecl)
    requires
        st.env.scopes.len() >= 1,
    ensures
        r_keeps(st, res_function(st, f)),
    decreases f, 0int,
{
    let sp = res_params(r_push(st), f.params@, 0);
    lemma_res_params_keeps(r_push(st), f.params@, 0);
    lemma_res_block_keeps(sp, f.body);
    lemma_keeps_trans(r_push(st), sp, res_block(sp, f.body));
    lemma_scoped_keeps(st, res_block(sp, f.body));
}

proof fn lemma_res_params_keeps(st: RState, ps: Seq<Param>, i: int)
    requires
        st.env.scopes.len() >= 1,
    ensures
        r_keeps(st, res_params(st, ps, i)),
    decreases ps.len() - i,
{
    if 0 <= i < ps.len() {
        let p = ps[i];
        let st1 = if te_defined_here(st.env, p.name@) {
            r_err(st, "RS004"@, "Duplicate parameter name: "@ + p.name@, p.span)
        } else {
            r_define(st, p.name@, ast_ti(p.ty))
        };
        lemma_res_params_keeps(st1, ps, i + 1);
        lemma_keeps_trans(st, st1, res_params(st1, ps, i + 1));
    }
}

proof fn lemma_declare_types_keeps(st: RState, items: Seq<PluginItem>, i: int)
    requires
        st.env.scopes.len() >= 1,
    ensures
        r_keeps(st, declare_types(st, items, i)),
    decreases items.len() - i,
{
    if 0 <= i < items.len() {
        let st1 = match items[i] {
            PluginItem::Struct(s) => r_env(
                st,
                TypeEnvV { structs: st.env.structs.push((s.name@, struct_fields(s.fields@))), ..st.env },
            ),
            PluginItem::Enum(e) => r_env(
                st,
                TypeEnvV { enums: st.env.enums.push((e.name@, enum_variants(e.variants@))), ..st.env },
            ),
            _ => st,
        };
        lemma_declare_types_keeps(st1, items, i + 1);
        lemma_keeps_trans(st, st1, declare_types(st1, items, i + 1));
    }
}

proof fn lemma_declare_functions_keeps(st: RState, items: Seq<PluginItem>, i: int)
    requires
        st.env.scopes.len() >= 1,
    ensures
        r_keeps(st, declare_functions(st, items, i)),
    decreases items.len() - i,
{
    if 0 <= i < items.len() {
        let st1 = match items[i] {
            PluginItem::Function(f) => r_define(st, f.name@, fn_ti(param_tis(f.params@), ret_ti(f.return_type))),
            _ => st,
        };
        lemma_declare_functions_keeps(st1, items, i + 1);
        lemma_keeps_trans(st, st1, declare_functions(st1, items, i + 1));
    }
}

proof fn lemma_resolve_functions_keeps(st: RState, items: Seq<PluginItem>, i: int)
    requires
        st.env.scopes.len() >= 1,
    ensures
        r_keeps(st, resolve_functions(st, items, i)),
    decreases items.len() - i,
{
    if 0 <= i < items.len() {
        let st1 = match items[i] {
            PluginItem::Function(f) => res_function(st, f),
            _ => st,
        };
        match items[i] {
            PluginItem::Function(f) => lemma_res_function_keeps(st, f),
            _ => {},
        }
        lemma_resolve_functions_keeps(st1, items, i + 1);
        lemma_keeps_trans(st, st1, resolve_functions(st1, items, i + 1));
    }
}

proof fn lemma_res_body_keeps(st: RState, items: Seq<PluginItem>)
    requires
        st.env.scopes.len() >= 1,
    ensures
        r_keeps(st, res_body(st, items)),
{
    let s1 = declare_types(r_push(st), items, 0);
    lemma_declare_types_keeps(r_push(st), items, 0);
    let s2 = declare_functions(s1, items, 0);
    lemma_declare_functions_keeps(s1, items, 0);
    lemma_keeps_trans(r_push(st), s1, s2);
    let s3 = resolve_functions(s2, items, 0);
    lemma_resolve_functions_keeps(s2, items, 0);
    lemma_keeps_trans(r_push(st), s2, s3);
    lemma_scoped_keeps(st, s3);
}

/// Resolving a program leaves the environment with as many scopes as it had,
/// and never drops or reorders an error found before: the errors found so far
/// come first in the result, in the same order.
pub proof fn law_resolution_keeps_scopes_and_errors(st: RState, p: Program)
    requires
        st.env.scopes.len() >= 1,
    ensures
        res_program(st, p).env.scopes.len() == st.env.scopes.len(),
        st.errors.len() <= res_program(st, p).errors.len(),
        forall|i: int| 0 <= i < st.errors.len() ==> #[trigger] res_program(st, p).errors[i] == st.errors[i],
{
    match p.decl {
        TopLevelDecl::Plugin(pl) => lemma_res_body_keeps(r_define(st, pl.name@, struct_named(pl.name@)), pl.body@),
        TopLevelDecl::Writer(w) => lemma_res_body_keeps(r_define(st, w.name@, struct_named(w.name@)), w.body@),
        TopLevelDecl::Interface(_) => {},
        TopLevelDecl::Module(m) => lemma_res_body_keeps(st, m.items@),
    }
}


/// Statements after a first one resolve as they would on their own, from the
/// state the first one leaves.
proof fn lemma_stmts_after_first(st: RState, s: Stmt, ss: Seq<Stmt>, all: Seq<Stmt>, i: int)
    requires
        all == seq![s] + ss,
        0 <= i <= ss.len(),
    ensures
        res_stmts(st, all, i + 1) == res_stmts(st, ss, i),
    decreases ss.len() - i,
{
    if i < ss.len() {
        assert(all[i + 1] == ss[i]);
        lemma_stmts_after_first(res_stmt(st, ss[i]), s, ss, all, i + 1);
    }
}

/// A `for` loop binds the names of its pattern in the scope its body is
/// resolved in: resolving `for p in e { body }` is resolving `e;` and then
/// the block `{ let p = (); body }`, in which every name bound by `p` is
/// defined before `body` is resolved. Leaving the pattern out of the loop's
/// scope would make the two differ wherever `body` uses one of its names.
pub proof fn law_for_binds_its_pattern(st: RState, f: ForStmt, x: ExprStmt, y: ExprStmt, b: Block, l: LetStmt)
    requires
        x.expr == f.iter,
        l.pattern == f.pattern,
        l.ty is None,
        l.init == Expr::Literal(Literal::Unit),
        b.stmts@ == seq![Stmt::Let(l)] + f.body.stmts@,
        y.expr == Expr::Block(b),
    ensures
        res_stmt(st, Stmt::For(f)) == res_stmt(res_stmt(st, Stmt::Expr(x)), Stmt::Expr(y)),
{
    let s1 = res_expr(st, f.iter);
    let sp = r_push(s1);
    assert(res_expr(sp, Expr::Literal(Literal::Unit)) == sp);
    match l.pattern {
        Pattern::Ident(name) => {
            assert(sp.env.scopes.last() == Seq::<(Seq<char>, TypeInfoV)>::empty());
            assert(!te_defined_here(sp.env, name@));
        },
        _ => {},
    }
    assert(res_stmt(sp, Stmt::Let(l)) == res_pattern(sp, f.pattern));
    assert(b.stmts@[0] == Stmt::Let(l));
    lemma_stmts_after_first(res_stmt(sp, Stmt::Let(l)), Stmt::Let(l), f.body.stmts@, b.stmts@, 0);
    assert(res_block(sp, b) == res_stmts(res_pattern(sp, f.pattern), f.body.stmts@, 0));
}

} // verus!
