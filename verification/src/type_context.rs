//! Type context for type-aware SWC code generation.
//!
//! This module implements flow-sensitive typing to handle the architectural
//! divergence between Babel's uniform Node hierarchy and SWC's strict
//! Enum/Struct hierarchy.

use vstd::prelude::*;
use crate::strings::{str_eq, owned, starts_with, trim_start_matches, trim_end_matches, strip_prefixes, strip_trailing};
use crate::nodes::{node_table, find_by_name, law_node_names_unique, law_lookup_finds_its_name, law_every_row_is_found};

verus! {

/// Classification of SWC types
#[derive(Debug)]
pub enum SwcTypeKind {
    /// Top-level enums that require pattern matching (Expr, Stmt, Decl, Pat)
    Enum,
    /// Direct structs with accessible fields (MemberExpr, Ident, CallExpr)
    Struct,
    /// Wrapper enums that wrap other types (MemberProp, PropName)
    WrapperEnum,
    /// Interned strings (JsWord, Atom)
    Atom,
    /// Primitive types (String, bool, i32)
    Primitive,
    /// Box<T> wrapper - treat as T but needs dereference
    Boxed(Box<SwcTypeKind>),
    /// Option<T> wrapper
    Optional(Box<SwcTypeKind>),
    /// Unknown type
    Unknown,
}

/// A copy of a classification.
fn copy_kind(k: &SwcTypeKind) -> (r: SwcTypeKind)
    ensures
        r == *k,
    decreases k,
{
    match k {
        SwcTypeKind::Enum => SwcTypeKind::Enum,
        SwcTypeKind::Struct => SwcTypeKind::Struct,
        SwcTypeKind::WrapperEnum => SwcTypeKind::WrapperEnum,
        SwcTypeKind::Atom => SwcTypeKind::Atom,
        SwcTypeKind::Primitive => SwcTypeKind::Primitive,
        SwcTypeKind::Boxed(inner) => SwcTypeKind::Boxed(Box::new(copy_kind(inner))),
        SwcTypeKind::Optional(inner) => SwcTypeKind::Optional(Box::new(copy_kind(inner))),
        SwcTypeKind::Unknown => SwcTypeKind::Unknown,
    }
}

impl Clone for SwcTypeKind {
    fn clone(&self) -> (r: Self)
        ensures
            r == *self,
    {
        copy_kind(self)
    }
}

/// The view of an optional string.
pub open spec fn opt_view(o: Option<String>) -> Option<Seq<char>> {
    match o {
        Some(s) => Some(s@),
        None => None,
    }
}

/// A copy of an optional string.
fn copy_opt(o: &Option<String>) -> (r: Option<String>)
    ensures
        opt_view(r) == opt_view(*o),
{
    match o {
        Some(s) => Some(s.clone()),
        None => None,
    }
}

/// Type context for an expression or variable
#[derive(Clone, Debug)]
pub struct TypeContext {
    /// RustScript type name (e.g., "MemberExpression", "Identifier")
    pub rustscript_type: String,
    /// SWC type name (e.g., "MemberExpr", "Ident")
    pub swc_type: String,
    /// Classification of the SWC type
    pub kind: SwcTypeKind,
    /// For Enums: which variant are we known to be?
    /// e.g., if swc_type is "Expr" but known_variant is "Member",
    /// we can safely access MemberExpr fields
    pub known_variant: Option<String>,
    /// Whether this value needs Box dereference to access
    pub needs_deref: bool,
}

/// The mathematical value of a [`TypeContext`].
pub struct TypeContextV {
    pub rustscript_type: Seq<char>,
    pub swc_type: Seq<char>,
    pub kind: SwcTypeKind,
    pub known_variant: Option<Seq<char>>,
    pub needs_deref: bool,
}

impl View for TypeContext {
    type V = TypeContextV;

    open spec fn view(&self) -> TypeContextV {
        TypeContextV {
            rustscript_type: self.rustscript_type@,
            swc_type: self.swc_type@,
            kind: self.kind,
            known_variant: opt_view(self.known_variant),
            needs_deref: self.needs_deref,
        }
    }
}

/// The context of a value of unknown type.
pub open spec fn unknown_context() -> TypeContextV {
    TypeContextV {
        rustscript_type: "Unknown"@,
        swc_type: "Unknown"@,
        kind: SwcTypeKind::Unknown,
        known_variant: None,
        needs_deref: false,
    }
}

/// The context of a value known only by its RustScript type name.
pub open spec fn rustscript_context(rs: Seq<char>) -> TypeContextV {
    TypeContextV {
        rustscript_type: rs,
        swc_type: swc_mapping(rs).0,
        kind: swc_mapping(rs).1,
        known_variant: None,
        needs_deref: false,
    }
}

/// The context of a value narrowed to a concrete SWC struct.
pub open spec fn narrowed_context(rs: Seq<char>, swc: Seq<char>) -> TypeContextV {
    TypeContextV {
        rustscript_type: rs,
        swc_type: swc,
        kind: SwcTypeKind::Struct,
        known_variant: None,
        needs_deref: false,
    }
}

/// The context seen through one `Box`: the boxed kind, the type name with its
/// leading `Box<` and trailing `>` removed, and marked as needing a dereference.
/// A context that is not boxed stays as it is.
pub open spec fn unboxed_context(c: TypeContextV) -> TypeContextV {
    match c.kind {
        SwcTypeKind::Boxed(inner) => TypeContextV {
            rustscript_type: c.rustscript_type,
            swc_type: strip_trailing(strip_prefixes(c.swc_type, "Box<"@), '>'),
            kind: *inner,
            known_variant: c.known_variant,
            needs_deref: true,
        },
        _ => c,
    }
}

impl TypeContext {
    /// A copy of this context.
    fn duplicate(&self) -> (r: Self)
        ensures
            r@ == self@,
    {
        Self {
            rustscript_type: self.rustscript_type.clone(),
            swc_type: self.swc_type.clone(),
            kind: copy_kind(&self.kind),
            known_variant: copy_opt(&self.known_variant),
            needs_deref: self.needs_deref,
        }
    }

    /// Create an unknown type context
    pub fn unknown() -> (r: Self)
        ensures
            r@ == unknown_context(),
    {
        Self {
            rustscript_type: owned("Unknown"),
            swc_type: owned("Unknown"),
            kind: SwcTypeKind::Unknown,
            known_variant: None,
            needs_deref: false,
        }
    }

    /// Create a type context for a known RustScript type
    pub fn from_rustscript(rs_type: &str) -> (r: Self)
        ensures
            r@ == rustscript_context(rs_type@),
    {
        let (swc_type, kind) = map_rustscript_to_swc(rs_type);
        Self { rustscript_type: owned(rs_type), swc_type, kind, known_variant: None, needs_deref: false }
    }

    /// Create a narrowed type context (after pattern matching)
    pub fn narrowed(rs_type: &str, swc_struct: &str) -> (r: Self)
        ensures
            r@ == narrowed_context(rs_type@, swc_struct@),
    {
        Self {
            rustscript_type: owned(rs_type),
            swc_type: owned(swc_struct),
            kind: SwcTypeKind::Struct,
            known_variant: None,
            needs_deref: false,
        }
    }

    /// Check if this type is boxed
    pub fn is_boxed(&self) -> (r: bool)
        ensures
            r == (self.kind is Boxed || self.needs_deref),
    {
        match self.kind {
            SwcTypeKind::Boxed(_) => true,
            _ => self.needs_deref,
        }
    }

    /// Check if this type requires enum unwrapping
    pub fn needs_unwrap(&self) -> (r: bool)
        ensures
            r == ((self.kind is Enum || self.kind is WrapperEnum) && self.known_variant is None),
    {
        let enum_like = match self.kind {
            SwcTypeKind::Enum | SwcTypeKind::WrapperEnum => true,
            _ => false,
        };
        enum_like && self.known_variant.is_none()
    }

    /// Get the inner type if boxed
    pub fn unboxed(&self) -> (r: Self)
        ensures
            r@ == unboxed_context(self@),
    {
        if let SwcTypeKind::Boxed(inner) = &self.kind {
            let without_box = trim_start_matches(self.swc_type.as_str(), "Box<");
            Self {
                rustscript_type: self.rustscript_type.clone(),
                swc_type: trim_end_matches(without_box.as_str(), '>'),
                kind: copy_kind(inner),
                known_variant: copy_opt(&self.known_variant),
                needs_deref: true,
            }
        } else {
            self.duplicate()
        }
    }
}

// ===================== scopes =====================

/// The bindings of one scope, as a map from names to contexts; a later
/// binding of a name replaces an earlier one.
pub open spec fn scope_map(s: Seq<(String, TypeContext)>) -> Map<Seq<char>, TypeContextV>
    decreases s.len(),
{
    if s.len() == 0 {
        Map::empty()
    } else {
        scope_map(s.drop_last()).insert(s.last().0@, s.last().1@)
    }
}

/// The last binding of a name in a scope.
pub open spec fn scope_get(s: Seq<(String, TypeContext)>, k: Seq<char>) -> Option<TypeContext>
    decreases s.len(),
{
    if s.len() == 0 {
        None
    } else if s.last().0@ == k {
        Some(s.last().1)
    } else {
        scope_get(s.drop_last(), k)
    }
}

/// The last binding of a name in a scope is what the scope's map gives.
proof fn lemma_scope_get(s: Seq<(String, TypeContext)>, k: Seq<char>)
    ensures
        scope_map(s).contains_key(k) == scope_get(s, k) is Some,
        scope_get(s, k) is Some ==> scope_map(s)[k] == scope_get(s, k)->0@,
    decreases s.len(),
{
    if s.len() > 0 {
        lemma_scope_get(s.drop_last(), k);
    }
}

/// Define `k` as `v` in the innermost scope; with no scope nothing changes.
pub open spec fn env_define(
    s: Seq<Map<Seq<char>, TypeContextV>>,
    k: Seq<char>,
    v: TypeContextV,
) -> Seq<Map<Seq<char>, TypeContextV>> {
    if s.len() > 0 {
        s.update(s.len() - 1, s.last().insert(k, v))
    } else {
        s
    }
}

/// Enter a new, empty scope.
pub open spec fn env_push(s: Seq<Map<Seq<char>, TypeContextV>>) -> Seq<Map<Seq<char>, TypeContextV>> {
    s.push(Map::empty())
}

/// Leave the innermost scope; the outermost scope is never left.
pub open spec fn env_pop(s: Seq<Map<Seq<char>, TypeContextV>>) -> Seq<Map<Seq<char>, TypeContextV>> {
    if s.len() > 1 {
        s.drop_last()
    } else {
        s
    }
}

/// The context of `k` in the innermost scope that binds it.
pub open spec fn env_lookup(s: Seq<Map<Seq<char>, TypeContextV>>, k: Seq<char>) -> Option<TypeContextV>
    decreases s.len(),
{
    if s.len() == 0 {
        None
    } else if s.last().contains_key(k) {
        Some(s.last()[k])
    } else {
        env_lookup(s.drop_last(), k)
    }
}

/// Whether the innermost scope binds `k`.
pub open spec fn env_defined_here(s: Seq<Map<Seq<char>, TypeContextV>>, k: Seq<char>) -> bool {
    s.len() > 0 && s.last().contains_key(k)
}

/// Type environment for tracking variable types through scopes
pub struct TypeEnvironment {
    /// Stack of scopes, each holding its variable bindings
    scopes: Vec<Vec<(String, TypeContext)>>,
}

impl View for TypeEnvironment {
    type V = Seq<Map<Seq<char>, TypeContextV>>;

    /// The scopes from outermost to innermost, each as a map from names to contexts.
    closed spec fn view(&self) -> Seq<Map<Seq<char>, TypeContextV>> {
        Seq::new(self.scopes@.len(), |i: int| scope_map(self.scopes@[i]@))
    }
}

impl TypeEnvironment {
    /// An environment always has its global scope.
    #[verifier::type_invariant]
    spec fn has_global_scope(self) -> bool {
        self.scopes@.len() >= 1
    }

    /// The environment has at least its global scope.
    pub fn scope_count(&self) -> (r: usize)
        ensures
            r == self@.len(),
            r >= 1,
    {
        proof {
            use_type_invariant(self);
        }
        self.scopes.len()
    }

    /// Create a new type environment with global scope
    pub fn new() -> (r: Self)
        ensures
            r@ == seq![Map::<Seq<char>, TypeContextV>::empty()],
    {
        let mut scopes: Vec<Vec<(String, TypeContext)>> = Vec::new();
        scopes.push(Vec::new());
        let r = Self { scopes };
        assert(r@ =~= seq![Map::<Seq<char>, TypeContextV>::empty()]);
        r
    }

    /// Push a new scope (for entering blocks, if/while let, etc.)
    pub fn push_scope(&mut self)
        ensures
            final(self)@ == env_push(old(self)@),
            old(self)@.len() >= 1,
    {
        proof {
            use_type_invariant(&*self);
        }
        let mut scopes = self.take_scopes();
        scopes.push(Vec::new());
        self.scopes = scopes;
        assert(self@ =~= env_push(old(self)@));
    }

    /// Take the scopes out, leaving a single empty global scope in their place.
    fn take_scopes(&mut self) -> (r: Vec<Vec<(String, TypeContext)>>)
        ensures
            r@ == old(self).scopes@,
            r@.len() >= 1,
    {
        proof {
            use_type_invariant(&*self);
        }
        let mut scopes: Vec<Vec<(String, TypeContext)>> = Vec::new();
        scopes.push(Vec::new());
        std::mem::swap(&mut scopes, &mut self.scopes);
        scopes
    }

    /// Pop the current scope
    pub fn pop_scope(&mut self)
        ensures
            final(self)@ == env_pop(old(self)@),
            final(self)@.len() >= 1,
            old(self)@.len() > 1 ==> final(self)@ == old(self)@.drop_last(),
            old(self)@.len() == 1 ==> final(self)@ == old(self)@,
    {
        proof {
            use_type_invariant(&*self);
        }
        if self.scopes.len() > 1 {
            let mut scopes = self.take_scopes();
            scopes.pop();
            self.scopes = scopes;
            assert(self@ =~= env_pop(old(self)@));
        }
    }

    /// Define a variable in the current scope
    /// This implements variable shadowing - defining a variable with the same
    /// name in an inner scope shadows the outer definition
    pub fn define(&mut self, name: &str, ctx: TypeContext)
        ensures
            final(self)@ == env_define(old(self)@, name@, ctx@),
            final(self)@.len() == old(self)@.len(),
            env_lookup(final(self)@, name@) == Some(ctx@),
            env_defined_here(final(self)@, name@),
            forall|m: Seq<char>| m != name@ ==> #[trigger] env_lookup(final(self)@, m) == env_lookup(old(self)@, m),
    {
        proof {
            use_type_invariant(&*self);
            lemma_define_keeps_others(old(self)@, name@, ctx@);
        }
        if self.scopes.len() > 0 {
            let mut scopes = self.take_scopes();
            let mut scope = scopes.pop().unwrap();
            let ghost before = scope@;
            scope.push((owned(name), ctx));
            assert(scope@.drop_last() =~= before);
            scopes.push(scope);
            self.scopes = scopes;
            assert(self@ =~= env_define(old(self)@, name@, ctx@));
        }
    }

    /// Look up a variable's type, searching from innermost to outermost scope
    pub fn lookup(&self, name: &str) -> (r: Option<&TypeContext>)
        ensures
            match r {
                Some(c) => env_lookup(self@, name@) == Some(c@),
                None => env_lookup(self@, name@) is None,
            },
    {
        let mut i = self.scopes.len();
        assert(self@.subrange(0, i as int) =~= self@);
        while i > 0
            invariant
                i <= self.scopes@.len(),
                env_lookup(self@, name@) == env_lookup(self@.subrange(0, i as int), name@),
            decreases i,
        {
            let scope = &self.scopes[i - 1];
            let mut j = scope.len();
            assert(scope@.subrange(0, j as int) =~= scope@);
            assert(self@.subrange(0, i as int).last() == scope_map(scope@));
            while j > 0
                invariant
                    j <= scope@.len(),
                    scope_get(scope@, name@) == scope_get(scope@.subrange(0, j as int), name@),
                    0 < i <= self.scopes@.len(),
                    env_lookup(self@, name@) == env_lookup(self@.subrange(0, i as int), name@),
                    self@.subrange(0, i as int).last() == scope_map(scope@),
                decreases j,
            {
                if str_eq(scope[j - 1].0.as_str(), name) {
                    proof {
                        assert(scope@.subrange(0, j as int).last() == scope@[j - 1]);
                        lemma_scope_get(scope@, name@);
                    }
                    return Some(&scope[j - 1].1);
                }
                assert(scope@.subrange(0, j as int).drop_last() =~= scope@.subrange(0, j - 1));
                j = j - 1;
            }
            proof {
                lemma_scope_get(scope@, name@);
                assert(self@.subrange(0, i as int).drop_last() =~= self@.subrange(0, i - 1));
            }
            i = i - 1;
        }
        None
    }

    /// Check if a variable is defined in the current (innermost) scope
    pub fn is_defined_in_current_scope(&self, name: &str) -> (r: bool)
        ensures
            r == env_defined_here(self@, name@),
    {
        let n = self.scopes.len();
        if n == 0 {
            return false;
        }
        let scope = &self.scopes[n - 1];
        let mut j = scope.len();
        assert(scope@.subrange(0, j as int) =~= scope@);
        assert(self@.last() == scope_map(scope@));
        while j > 0
            invariant
                j <= scope@.len(),
                scope_get(scope@, name@) == scope_get(scope@.subrange(0, j as int), name@),
                self@.len() > 0,
                self@.last() == scope_map(scope@),
            decreases j,
        {
            if str_eq(scope[j - 1].0.as_str(), name) {
                proof {
                    assert(scope@.subrange(0, j as int).last() == scope@[j - 1]);
                    lemma_scope_get(scope@, name@);
                }
                return true;
            }
            assert(scope@.subrange(0, j as int).drop_last() =~= scope@.subrange(0, j - 1));
            j = j - 1;
        }
        proof {
            lemma_scope_get(scope@, name@);
        }
        false
    }
}

impl Default for TypeEnvironment {
    fn default() -> (r: Self)
        ensures
            r@ == seq![Map::<Seq<char>, TypeContextV>::empty()],
    {
        Self::new()
    }
}

/// Shadowing: a name defined in a new scope hides the outer binding, other
/// names are still found in the outer scopes, and leaving the scope brings the
/// environment back to what it was, outer binding included.
pub proof fn law_scope_shadowing(
    s: Seq<Map<Seq<char>, TypeContextV>>,
    k: Seq<char>,
    v: TypeContextV,
    other: Seq<char>,
)
    requires
        s.len() >= 1,
        other != k,
    ensures
        env_lookup(env_define(env_push(s), k, v), k) == Some(v),
        env_lookup(env_define(env_push(s), k, v), other) == env_lookup(s, other),
        env_pop(env_define(env_push(s), k, v)) == s,
        env_lookup(env_pop(env_define(env_push(s), k, v)), k) == env_lookup(s, k),
{
    let inner = env_define(env_push(s), k, v);
    assert(inner.drop_last() =~= s);
}

/// A definition is found at once by a lookup of the same name and counts as
/// defined in the current scope, as long as there is a scope to hold it.
pub proof fn law_define_then_lookup(s: Seq<Map<Seq<char>, TypeContextV>>, k: Seq<char>, v: TypeContextV)
    requires
        s.len() >= 1,
    ensures
        env_lookup(env_define(s, k, v), k) == Some(v),
        env_defined_here(env_define(s, k, v), k),
{
}

/// Leaving a scope never leaves the global scope.
pub proof fn law_pop_keeps_global_scope(s: Seq<Map<Seq<char>, TypeContextV>>)
    requires
        s.len() >= 1,
    ensures
        env_pop(s).len() >= 1,
        env_pop(env_push(s)) == s,
{
    assert(env_push(s).drop_last() =~= s);
}

/// Defining a name leaves every other name's lookup as it was.
proof fn lemma_define_keeps_others(s: Seq<Map<Seq<char>, TypeContextV>>, k: Seq<char>, v: TypeContextV)
    requires
        s.len() >= 1,
    ensures
        forall|m: Seq<char>| m != k ==> #[trigger] env_lookup(env_define(s, k, v), m) == env_lookup(s, m),
{
    let d = env_define(s, k, v);
    assert(d.drop_last() =~= s.drop_last());
}

/// The environment after defining each of the bindings in turn.
pub open spec fn env_define_all(
    s: Seq<Map<Seq<char>, TypeContextV>>,
    ds: Seq<(Seq<char>, TypeContextV)>,
) -> Seq<Map<Seq<char>, TypeContextV>>
    decreases ds.len(),
{
    if ds.len() == 0 {
        s
    } else {
        env_define(env_define_all(s, ds.drop_last()), ds.last().0, ds.last().1)
    }
}

/// Entering a scope, defining any names in it and leaving it gives back the
/// environment as it was: every lookup and every definedness in the current
/// scope are as before.
pub proof fn law_push_defines_pop(s: Seq<Map<Seq<char>, TypeContextV>>, ds: Seq<(Seq<char>, TypeContextV)>)
    requires
        s.len() >= 1,
    ensures
        env_pop(env_define_all(env_push(s), ds)) == s,
    decreases ds.len(),
{
    lemma_define_all_inner(s, ds);
}

proof fn lemma_define_all_inner(s: Seq<Map<Seq<char>, TypeContextV>>, ds: Seq<(Seq<char>, TypeContextV)>)
    requires
        s.len() >= 1,
    ensures
        env_define_all(env_push(s), ds).len() == s.len() + 1,
        env_define_all(env_push(s), ds).drop_last() == s,
    decreases ds.len(),
{
    if ds.len() == 0 {
        assert(env_push(s).drop_last() =~= s);
    } else {
        lemma_define_all_inner(s, ds.drop_last());
        let e = env_define_all(env_push(s), ds.drop_last());
        assert(env_define(e, ds.last().0, ds.last().1).drop_last() =~= e.drop_last());
    }
}

// ===================== name tables =====================

/// The SWC type name and classification for a RustScript type name; a name
/// not in the table maps to itself, unclassified.
pub open spec fn swc_mapping(rs: Seq<char>) -> (Seq<char>, SwcTypeKind) {
    if rs == "Expr"@ || rs == "Expression"@ {
        ("Expr"@, SwcTypeKind::Enum)
    } else if rs == "Stmt"@ || rs == "Statement"@ {
        ("Stmt"@, SwcTypeKind::Enum)
    } else if rs == "Decl"@ || rs == "Declaration"@ {
        ("Decl"@, SwcTypeKind::Enum)
    } else if rs == "Pat"@ || rs == "Pattern"@ {
        ("Pat"@, SwcTypeKind::Enum)
    } else if rs == "Lit"@ || rs == "Literal"@ {
        ("Lit"@, SwcTypeKind::Enum)
    } else if rs == "MemberExpression"@ {
        ("MemberExpr"@, SwcTypeKind::Struct)
    } else if rs == "CallExpression"@ {
        ("CallExpr"@, SwcTypeKind::Struct)
    } else if rs == "Identifier"@ {
        ("Ident"@, SwcTypeKind::Struct)
    } else if rs == "BinaryExpression"@ {
        ("BinExpr"@, SwcTypeKind::Struct)
    } else if rs == "UnaryExpression"@ {
        ("UnaryExpr"@, SwcTypeKind::Struct)
    } else if rs == "AssignmentExpression"@ {
        ("AssignExpr"@, SwcTypeKind::Struct)
    } else if rs == "ArrayExpression"@ {
        ("ArrayLit"@, SwcTypeKind::Struct)
    } else if rs == "ObjectExpression"@ {
        ("ObjectLit"@, SwcTypeKind::Struct)
    } else if rs == "FunctionExpression"@ {
        ("FnExpr"@, SwcTypeKind::Struct)
    } else if rs == "ArrowFunctionExpression"@ {
        ("ArrowExpr"@, SwcTypeKind::Struct)
    } else if rs == "BlockStatement"@ {
        ("BlockStmt"@, SwcTypeKind::Struct)
    } else if rs == "ReturnStatement"@ {
        ("ReturnStmt"@, SwcTypeKind::Struct)
    } else if rs == "IfStatement"@ {
        ("IfStmt"@, SwcTypeKind::Struct)
    } else if rs == "WhileStatement"@ {
        ("WhileStmt"@, SwcTypeKind::Struct)
    } else if rs == "ForStatement"@ {
        ("ForStmt"@, SwcTypeKind::Struct)
    } else if rs == "ExpressionStatement"@ {
        ("ExprStmt"@, SwcTypeKind::Struct)
    } else if rs == "FunctionDeclaration"@ {
        ("FnDecl"@, SwcTypeKind::Struct)
    } else if rs == "VariableDeclaration"@ {
        ("VarDecl"@, SwcTypeKind::Struct)
    } else if rs == "ClassDeclaration"@ {
        ("ClassDecl"@, SwcTypeKind::Struct)
    } else if rs == "StringLiteral"@ {
        ("Str"@, SwcTypeKind::Struct)
    } else if rs == "NumericLiteral"@ {
        ("Number"@, SwcTypeKind::Struct)
    } else if rs == "BooleanLiteral"@ {
        ("Bool"@, SwcTypeKind::Struct)
    } else if rs == "NullLiteral"@ {
        ("Null"@, SwcTypeKind::Struct)
    } else if rs == "JSXElement"@ {
        ("JSXElement"@, SwcTypeKind::Struct)
    } else if rs == "JSXAttribute"@ {
        ("JSXAttr"@, SwcTypeKind::Struct)
    } else if rs == "JSXExpressionContainer"@ {
        ("JSXExprContainer"@, SwcTypeKind::Struct)
    } else if rs == "JSXText"@ {
        ("JSXText"@, SwcTypeKind::Struct)
    } else if rs == "TSInterfaceDeclaration"@ {
        ("TsInterfaceDecl"@, SwcTypeKind::Struct)
    } else if rs == "TSPropertySignature"@ {
        ("TsPropertySignature"@, SwcTypeKind::Struct)
    } else if rs == "TSMethodSignature"@ {
        ("TsMethodSignature"@, SwcTypeKind::Struct)
    } else if rs == "TSTypeReference"@ {
        ("TsTypeRef"@, SwcTypeKind::Struct)
    } else if rs == "TSTypeAnnotation"@ {
        ("TsTypeAnn"@, SwcTypeKind::Struct)
    } else if rs == "TSTypeAliasDeclaration"@ {
        ("TsTypeAliasDecl"@, SwcTypeKind::Struct)
    } else if rs == "MemberProp"@ {
        ("MemberProp"@, SwcTypeKind::WrapperEnum)
    } else if rs == "PropName"@ {
        ("PropName"@, SwcTypeKind::WrapperEnum)
    } else if rs == "Callee"@ {
        ("Callee"@, SwcTypeKind::WrapperEnum)
    } else if rs == "JsWord"@ {
        ("JsWord"@, SwcTypeKind::Atom)
    } else if rs == "Atom"@ {
        ("Atom"@, SwcTypeKind::Atom)
    } else if rs == "Str"@ {
        ("String"@, SwcTypeKind::Primitive)
    } else if rs == "bool"@ {
        ("bool"@, SwcTypeKind::Primitive)
    } else if rs == "i32"@ {
        ("i32"@, SwcTypeKind::Primitive)
    } else if rs == "u32"@ {
        ("u32"@, SwcTypeKind::Primitive)
    } else if rs == "f64"@ {
        ("f64"@, SwcTypeKind::Primitive)
    } else if rs == "String"@ {
        ("String"@, SwcTypeKind::Primitive)
    } else {
        (rs, SwcTypeKind::Unknown)
    }
}

/// Map RustScript type name to SWC type name and kind
pub fn map_rustscript_to_swc(rs_type: &str) -> (r: (String, SwcTypeKind))
    ensures
        r.0@ == swc_mapping(rs_type@).0,
        r.1 == swc_mapping(rs_type@).1,
{
    let s = rs_type;
    let (name, kind) = if str_eq(s, "Expr") || str_eq(s, "Expression") {
        // Expressions (Enum)
        ("Expr", SwcTypeKind::Enum)
    } else if str_eq(s, "Stmt") || str_eq(s, "Statement") {
        // Statements (Enum)
        ("Stmt", SwcTypeKind::Enum)
    } else if str_eq(s, "Decl") || str_eq(s, "Declaration") {
        // Declarations (Enum)
        ("Decl", SwcTypeKind::Enum)
    } else if str_eq(s, "Pat") || str_eq(s, "Pattern") {
        // Patterns (Enum)
        ("Pat", SwcTypeKind::Enum)
    } else if str_eq(s, "Lit") || str_eq(s, "Literal") {
        // Literals (Enum)
        ("Lit", SwcTypeKind::Enum)
    } else if str_eq(s, "MemberExpression") {
        // Specific expression types (Struct after unwrapping)
        ("MemberExpr", SwcTypeKind::Struct)
    } else if str_eq(s, "CallExpression") {
        ("CallExpr", SwcTypeKind::Struct)
    } else if str_eq(s, "Identifier") {
        ("Ident", SwcTypeKind::Struct)
    } else if str_eq(s, "BinaryExpression") {
        ("BinExpr", SwcTypeKind::Struct)
    } else if str_eq(s, "UnaryExpression") {
        ("UnaryExpr", SwcTypeKind::Struct)
    } else if str_eq(s, "AssignmentExpression") {
        ("AssignExpr", SwcTypeKind::Struct)
    } else if str_eq(s, "ArrayExpression") {
        ("ArrayLit", SwcTypeKind::Struct)
    } else if str_eq(s, "ObjectExpression") {
        ("ObjectLit", SwcTypeKind::Struct)
    } else if str_eq(s, "FunctionExpression") {
        ("FnExpr", SwcTypeKind::Struct)
    } else if str_eq(s, "ArrowFunctionExpression") {
        ("ArrowExpr", SwcTypeKind::Struct)
    } else if str_eq(s, "BlockStatement") {
        // Specific statement types (Struct after unwrapping)
        ("BlockStmt", SwcTypeKind::Struct)
    } else if str_eq(s, "ReturnStatement") {
        ("ReturnStmt", SwcTypeKind::Struct)
    } else if str_eq(s, "IfStatement") {
        ("IfStmt", SwcTypeKind::Struct)
    } else if str_eq(s, "WhileStatement") {
        ("WhileStmt", SwcTypeKind::Struct)
    } else if str_eq(s, "ForStatement") {
        ("ForStmt", SwcTypeKind::Struct)
    } else if str_eq(s, "ExpressionStatement") {
        ("ExprStmt", SwcTypeKind::Struct)
    } else if str_eq(s, "FunctionDeclaration") {
        // Specific declaration types (Struct after unwrapping)
        ("FnDecl", SwcTypeKind::Struct)
    } else if str_eq(s, "VariableDeclaration") {
        ("VarDecl", SwcTypeKind::Struct)
    } else if str_eq(s, "ClassDeclaration") {
        ("ClassDecl", SwcTypeKind::Struct)
    } else if str_eq(s, "StringLiteral") {
        // Literal, JSX and TypeScript node types (Struct after unwrapping)
        ("Str", SwcTypeKind::Struct)
    } else if str_eq(s, "NumericLiteral") {
        ("Number", SwcTypeKind::Struct)
    } else if str_eq(s, "BooleanLiteral") {
        ("Bool", SwcTypeKind::Struct)
    } else if str_eq(s, "NullLiteral") {
        ("Null", SwcTypeKind::Struct)
    } else if str_eq(s, "JSXElement") {
        ("JSXElement", SwcTypeKind::Struct)
    } else if str_eq(s, "JSXAttribute") {
        ("JSXAttr", SwcTypeKind::Struct)
    } else if str_eq(s, "JSXExpressionContainer") {
        ("JSXExprContainer", SwcTypeKind::Struct)
    } else if str_eq(s, "JSXText") {
        ("JSXText", SwcTypeKind::Struct)
    } else if str_eq(s, "TSInterfaceDeclaration") {
        ("TsInterfaceDecl", SwcTypeKind::Struct)
    } else if str_eq(s, "TSPropertySignature") {
        ("TsPropertySignature", SwcTypeKind::Struct)
    } else if str_eq(s, "TSMethodSignature") {
        ("TsMethodSignature", SwcTypeKind::Struct)
    } else if str_eq(s, "TSTypeReference") {
        ("TsTypeRef", SwcTypeKind::Struct)
    } else if str_eq(s, "TSTypeAnnotation") {
        ("TsTypeAnn", SwcTypeKind::Struct)
    } else if str_eq(s, "TSTypeAliasDeclaration") {
        ("TsTypeAliasDecl", SwcTypeKind::Struct)
    } else if str_eq(s, "MemberProp") {
        // Wrapper enums (special handling needed)
        ("MemberProp", SwcTypeKind::WrapperEnum)
    } else if str_eq(s, "PropName") {
        ("PropName", SwcTypeKind::WrapperEnum)
    } else if str_eq(s, "Callee") {
        ("Callee", SwcTypeKind::WrapperEnum)
    } else if str_eq(s, "JsWord") {
        // Atom types
        ("JsWord", SwcTypeKind::Atom)
    } else if str_eq(s, "Atom") {
        ("Atom", SwcTypeKind::Atom)
    } else if str_eq(s, "Str") {
        ("String", SwcTypeKind::Primitive)
    } else if str_eq(s, "bool") {
        // Primitives
        ("bool", SwcTypeKind::Primitive)
    } else if str_eq(s, "i32") {
        ("i32", SwcTypeKind::Primitive)
    } else if str_eq(s, "u32") {
        ("u32", SwcTypeKind::Primitive)
    } else if str_eq(s, "f64") {
        ("f64", SwcTypeKind::Primitive)
    } else if str_eq(s, "String") {
        ("String", SwcTypeKind::Primitive)
    } else {
        // Unknown
        (s, SwcTypeKind::Unknown)
    };
    (owned(name), kind)
}

/// Whether the last character of a non-empty name is a single byte in UTF-8.
pub open spec fn ends_in_ascii(s: Seq<char>) -> bool {
    s.len() > 0 && (s.last() as u32) < 128
}

/// The names that [`classify_swc_type`] accepts: a `Box<` or `Option<` name
/// must have an inner name and end in a one-byte character, and so must every
/// name nested inside it.
pub open spec fn classifiable(s: Seq<char>) -> bool
    decreases s.len(),
{
    if is_named_swc_type(s) {
        true
    } else if "Box<"@.is_prefix_of(s) {
        s.len() >= 5 && ends_in_ascii(s) && classifiable(s.subrange(4, s.len() - 1))
    } else if "Option<"@.is_prefix_of(s) {
        s.len() >= 8 && ends_in_ascii(s) && classifiable(s.subrange(7, s.len() - 1))
    } else {
        true
    }
}

/// Whether a name is one of the enum, wrapper, struct or atom names that are
/// classified before any `Box<` or `Option<` form.
pub open spec fn is_named_swc_type(s: Seq<char>) -> bool {
    classify_named(s) is Some
}

/// The classification of a name from the fixed lists of enums, wrapper enums,
/// structs and atoms.
pub open spec fn classify_named(s: Seq<char>) -> Option<SwcTypeKind> {
    if s == "Expr"@ || s == "Stmt"@ || s == "Decl"@ || s == "Pat"@ || s == "Lit"@ || s
        == "ModuleItem"@ {
        Some(SwcTypeKind::Enum)
    } else if s == "MemberProp"@ || s == "PropName"@ || s == "JSXObject"@ || s == "Callee"@ {
        Some(SwcTypeKind::WrapperEnum)
    } else if s == "Ident"@ || s == "MemberExpr"@ || s == "CallExpr"@ || s == "FnDecl"@ || s
        == "BinExpr"@ || s == "BlockStmt"@ || s == "ReturnStmt"@ || s == "IfStmt"@ || s
        == "WhileStmt"@ || s == "ForStmt"@ || s == "VarDecl"@ || s == "ClassDecl"@ || s
        == "FnExpr"@ || s == "ArrowExpr"@ || s == "AssignExpr"@ || s == "ArrayLit"@ || s
        == "ObjectLit"@ || s == "ExprStmt"@ || s == "UnaryExpr"@ {
        Some(SwcTypeKind::Struct)
    } else if s == "JsWord"@ || s == "Atom"@ {
        Some(SwcTypeKind::Atom)
    } else {
        None
    }
}

/// The classification of an SWC type name: the fixed lists first, then
/// `Box<T>` and `Option<T>` around the classification of `T`, then primitives.
pub open spec fn classify(s: Seq<char>) -> SwcTypeKind
    decreases s.len(),
{
    match classify_named(s) {
        Some(k) => k,
        None => if "Box<"@.is_prefix_of(s) && s.len() >= 5 {
            SwcTypeKind::Boxed(Box::new(classify(s.subrange(4, s.len() - 1))))
        } else if "Option<"@.is_prefix_of(s) && s.len() >= 8 {
            SwcTypeKind::Optional(Box::new(classify(s.subrange(7, s.len() - 1))))
        } else if s == "i32"@ || s == "f64"@ || s == "bool"@ || s == "String"@ || s == "usize"@ {
            SwcTypeKind::Primitive
        } else {
            SwcTypeKind::Unknown
        },
    }
}

/// Classify an SWC type name
pub fn classify_swc_type(swc_name: &str) -> (r: SwcTypeKind)
    requires
        classifiable(swc_name@),
    ensures
        r == classify(swc_name@),
    decreases swc_name@.len(),
{
    let s = swc_name;
    // Top-level enums
    if str_eq(s, "Expr") || str_eq(s, "Stmt") || str_eq(s, "Decl") || str_eq(s, "Pat") || str_eq(
        s,
        "Lit",
    ) || str_eq(s, "ModuleItem") {
        return SwcTypeKind::Enum;
    }
    // Wrapper enums
    if str_eq(s, "MemberProp") || str_eq(s, "PropName") || str_eq(s, "JSXObject") || str_eq(
        s,
        "Callee",
    ) {
        return SwcTypeKind::WrapperEnum;
    }
    // Structs
    if str_eq(s, "Ident") || str_eq(s, "MemberExpr") || str_eq(s, "CallExpr") || str_eq(s, "FnDecl")
        || str_eq(s, "BinExpr") || str_eq(s, "BlockStmt") || str_eq(s, "ReturnStmt") || str_eq(
        s,
        "IfStmt",
    ) || str_eq(s, "WhileStmt") || str_eq(s, "ForStmt") || str_eq(s, "VarDecl") || str_eq(
        s,
        "ClassDecl",
    ) || str_eq(s, "FnExpr") || str_eq(s, "ArrowExpr") || str_eq(s, "AssignExpr") || str_eq(
        s,
        "ArrayLit",
    ) || str_eq(s, "ObjectLit") || str_eq(s, "ExprStmt") || str_eq(s, "UnaryExpr") {
        return SwcTypeKind::Struct;
    }
    // Atoms
    if str_eq(s, "JsWord") || str_eq(s, "Atom") {
        return SwcTypeKind::Atom;
    }
    proof {
        reveal_strlit("Box<");
        reveal_strlit("Option<");
    }
    // Box<T>
    if starts_with(s, "Box<") {
        let n = s.unicode_len();
        let inner = s.substring_char(4, n - 1);
        return SwcTypeKind::Boxed(Box::new(classify_swc_type(inner)));
    }
    // Option<T>
    if starts_with(s, "Option<") {
        let n = s.unicode_len();
        let inner = s.substring_char(7, n - 1);
        return SwcTypeKind::Optional(Box::new(classify_swc_type(inner)));
    }
    // Primitives
    if str_eq(s, "i32") || str_eq(s, "f64") || str_eq(s, "bool") || str_eq(s, "String") || str_eq(
        s,
        "usize",
    ) {
        return SwcTypeKind::Primitive;
    }
    SwcTypeKind::Unknown
}

/// The SWC enum, variant and struct names for a RustScript type name; a name
/// not in the table gives `Unknown` with the name itself as variant and struct.
pub open spec fn swc_variant(rs: Seq<char>) -> (Seq<char>, Seq<char>, Seq<char>) {
    if rs == "MemberExpression"@ {
        ("Expr"@, "Member"@, "MemberExpr"@)
    } else if rs == "CallExpression"@ {
        ("Expr"@, "Call"@, "CallExpr"@)
    } else if rs == "Identifier"@ {
        ("Expr"@, "Ident"@, "Ident"@)
    } else if rs == "BinaryExpression"@ {
        ("Expr"@, "Bin"@, "BinExpr"@)
    } else if rs == "UnaryExpression"@ {
        ("Expr"@, "Unary"@, "UnaryExpr"@)
    } else if rs == "AssignmentExpression"@ {
        ("Expr"@, "Assign"@, "AssignExpr"@)
    } else if rs == "ArrayExpression"@ {
        ("Expr"@, "Array"@, "ArrayLit"@)
    } else if rs == "ObjectExpression"@ {
        ("Expr"@, "Object"@, "ObjectLit"@)
    } else if rs == "FunctionExpression"@ {
        ("Expr"@, "Fn"@, "FnExpr"@)
    } else if rs == "ArrowFunctionExpression"@ {
        ("Expr"@, "Arrow"@, "ArrowExpr"@)
    } else if rs == "StringLiteral"@ {
        ("Lit"@, "Str"@, "Str"@)
    } else if rs == "NumericLiteral"@ {
        ("Lit"@, "Num"@, "Number"@)
    } else if rs == "BooleanLiteral"@ {
        ("Lit"@, "Bool"@, "Bool"@)
    } else if rs == "BlockStatement"@ {
        ("Stmt"@, "Block"@, "BlockStmt"@)
    } else if rs == "ReturnStatement"@ {
        ("Stmt"@, "Return"@, "ReturnStmt"@)
    } else if rs == "IfStatement"@ {
        ("Stmt"@, "If"@, "IfStmt"@)
    } else if rs == "WhileStatement"@ {
        ("Stmt"@, "While"@, "WhileStmt"@)
    } else if rs == "ForStatement"@ {
        ("Stmt"@, "For"@, "ForStmt"@)
    } else if rs == "ExpressionStatement"@ {
        ("Stmt"@, "Expr"@, "ExprStmt"@)
    } else if rs == "FunctionDeclaration"@ {
        ("Decl"@, "Fn"@, "FnDecl"@)
    } else if rs == "VariableDeclaration"@ {
        ("Decl"@, "Var"@, "VarDecl"@)
    } else if rs == "ClassDeclaration"@ {
        ("Decl"@, "Class"@, "ClassDecl"@)
    } else {
        ("Unknown"@, rs, rs)
    }
}

/// Get the SWC enum and variant for a RustScript type
/// Returns (enum_name, variant_name, struct_name)
pub fn get_swc_variant(rs_type: &str) -> (r: (String, String, String))
    ensures
        (r.0@, r.1@, r.2@) == swc_variant(rs_type@),
{
    let s = rs_type;
    let (e, v, st) = if str_eq(s, "MemberExpression") {
        // Expressions
        ("Expr", "Member", "MemberExpr")
    } else if str_eq(s, "CallExpression") {
        ("Expr", "Call", "CallExpr")
    } else if str_eq(s, "Identifier") {
        ("Expr", "Ident", "Ident")
    } else if str_eq(s, "BinaryExpression") {
        ("Expr", "Bin", "BinExpr")
    } else if str_eq(s, "UnaryExpression") {
        ("Expr", "Unary", "UnaryExpr")
    } else if str_eq(s, "AssignmentExpression") {
        ("Expr", "Assign", "AssignExpr")
    } else if str_eq(s, "ArrayExpression") {
        ("Expr", "Array", "ArrayLit")
    } else if str_eq(s, "ObjectExpression") {
        ("Expr", "Object", "ObjectLit")
    } else if str_eq(s, "FunctionExpression") {
        ("Expr", "Fn", "FnExpr")
    } else if str_eq(s, "ArrowFunctionExpression") {
        ("Expr", "Arrow", "ArrowExpr")
    } else if str_eq(s, "StringLiteral") {
        ("Lit", "Str", "Str")
    } else if str_eq(s, "NumericLiteral") {
        ("Lit", "Num", "Number")
    } else if str_eq(s, "BooleanLiteral") {
        ("Lit", "Bool", "Bool")
    } else if str_eq(s, "BlockStatement") {
        // Statements
        ("Stmt", "Block", "BlockStmt")
    } else if str_eq(s, "ReturnStatement") {
        ("Stmt", "Return", "ReturnStmt")
    } else if str_eq(s, "IfStatement") {
        ("Stmt", "If", "IfStmt")
    } else if str_eq(s, "WhileStatement") {
        ("Stmt", "While", "WhileStmt")
    } else if str_eq(s, "ForStatement") {
        ("Stmt", "For", "ForStmt")
    } else if str_eq(s, "ExpressionStatement") {
        ("Stmt", "Expr", "ExprStmt")
    } else if str_eq(s, "FunctionDeclaration") {
        // Declarations
        ("Decl", "Fn", "FnDecl")
    } else if str_eq(s, "VariableDeclaration") {
        ("Decl", "Var", "VarDecl")
    } else if str_eq(s, "ClassDeclaration") {
        ("Decl", "Class", "ClassDecl")
    } else {
        ("Unknown", s, s)
    };
    (owned(e), owned(v), owned(st))
}

/// Field mapping with type information
#[derive(Clone, Debug)]
pub struct TypedFieldMapping {
    pub rustscript_field: &'static str,
    pub swc_field: &'static str,
    pub needs_deref: bool,
    pub result_type_rs: &'static str,
    pub result_type_swc: &'static str,
    pub read_conversion: &'static str,  // e.g., ".to_string()"
    pub write_conversion: &'static str,  // e.g., ".into()"
}

/// The mathematical value of a [`TypedFieldMapping`].
pub struct TypedFieldMappingV {
    pub rustscript_field: Seq<char>,
    pub swc_field: Seq<char>,
    pub needs_deref: bool,
    pub result_type_rs: Seq<char>,
    pub result_type_swc: Seq<char>,
    pub read_conversion: Seq<char>,
    pub write_conversion: Seq<char>,
}

impl View for TypedFieldMapping {
    type V = TypedFieldMappingV;

    open spec fn view(&self) -> TypedFieldMappingV {
        TypedFieldMappingV {
            rustscript_field: self.rustscript_field@,
            swc_field: self.swc_field@,
            needs_deref: self.needs_deref,
            result_type_rs: self.result_type_rs@,
            result_type_swc: self.result_type_swc@,
            read_conversion: self.read_conversion@,
            write_conversion: self.write_conversion@,
        }
    }
}

/// A field mapping from its parts.
pub open spec fn fm(
    rustscript_field: Seq<char>,
    swc_field: Seq<char>,
    needs_deref: bool,
    result_type_rs: Seq<char>,
    result_type_swc: Seq<char>,
    read_conversion: Seq<char>,
    write_conversion: Seq<char>,
) -> TypedFieldMappingV {
    TypedFieldMappingV {
        rustscript_field,
        swc_field,
        needs_deref,
        result_type_rs,
        result_type_swc,
        read_conversion,
        write_conversion,
    }
}

/// The typed mapping of a field of an SWC struct, for the fields the generator knows.
pub open spec fn field_mapping(parent: Seq<char>, field: Seq<char>) -> Option<TypedFieldMappingV> {
    if parent == "MemberExpr"@ && field == "object"@ {
        Some(fm("object"@, "obj"@, true, "Expr"@, "Expr"@, ""@, ""@))
    } else if parent == "MemberExpr"@ && field == "property"@ {
        Some(fm("property"@, "prop"@, false, "MemberProp"@, "MemberProp"@, ""@, ""@))
    } else if parent == "CallExpr"@ && field == "callee"@ {
        Some(fm("callee"@, "callee"@, false, "Callee"@, "Callee"@, ""@, ""@))
    } else if parent == "CallExpr"@ && field == "arguments"@ {
        Some(fm("arguments"@, "args"@, false, "Vec<ExprOrSpread>"@, "Vec<ExprOrSpread>"@, ""@, ""@))
    } else if parent == "Ident"@ && field == "name"@ {
        Some(fm("name"@, "sym"@, false, "Str"@, "JsWord"@, ".to_string()"@, ".into()"@))
    } else if parent == "BlockStmt"@ && (field == "body"@ || field == "stmts"@) {
        Some(fm("body"@, "stmts"@, false, "Vec<Stmt>"@, "Vec<Stmt>"@, ""@, ""@))
    } else if parent == "ReturnStmt"@ && field == "argument"@ {
        Some(fm("argument"@, "arg"@, false, "Option<Expr>"@, "Option<Box<Expr>>"@, ""@, ""@))
    } else if parent == "FnDecl"@ && field == "id"@ {
        Some(fm("id"@, "ident"@, false, "Identifier"@, "Ident"@, ""@, ""@))
    } else if parent == "FnDecl"@ && field == "params"@ {
        Some(fm("params"@, "function.params"@, false, "Vec<Pat>"@, "Vec<Param>"@, ""@, ""@))
    } else {
        None
    }
}

/// The mapping for a field, where the parent and field names are known.
fn mapping(
    rustscript_field: &'static str,
    swc_field: &'static str,
    needs_deref: bool,
    result_type_rs: &'static str,
    result_type_swc: &'static str,
    read_conversion: &'static str,
    write_conversion: &'static str,
) -> (r: Option<TypedFieldMapping>)
    ensures
        r is Some,
        r->0@ == fm(
            rustscript_field@,
            swc_field@,
            needs_deref,
            result_type_rs@,
            result_type_swc@,
            read_conversion@,
            write_conversion@,
        ),
{
    Some(
        TypedFieldMapping {
            rustscript_field,
            swc_field,
            needs_deref,
            result_type_rs,
            result_type_swc,
            read_conversion,
            write_conversion,
        },
    )
}

/// Get field mapping for a parent type and field name
pub fn get_typed_field_mapping(parent_swc_type: &str, field: &str) -> (r: Option<TypedFieldMapping>)
    ensures
        match r {
            Some(m) => field_mapping(parent_swc_type@, field@) == Some(m@),
            None => field_mapping(parent_swc_type@, field@) is None,
        },
{
    let p = parent_swc_type;
    let f = field;
    if str_eq(p, "MemberExpr") && str_eq(f, "object") {
        // MemberExpr fields
        mapping("object", "obj", true, "Expr", "Expr", "", "")  // Box<Expr>
    } else if str_eq(p, "MemberExpr") && str_eq(f, "property") {
        mapping("property", "prop", false, "MemberProp", "MemberProp", "", "")  // WrapperEnum!
    } else if str_eq(p, "CallExpr") && str_eq(f, "callee") {
        // CallExpr fields
        mapping("callee", "callee", false, "Callee", "Callee", "", "")
    } else if str_eq(p, "CallExpr") && str_eq(f, "arguments") {
        mapping("arguments", "args", false, "Vec<ExprOrSpread>", "Vec<ExprOrSpread>", "", "")
    } else if str_eq(p, "Ident") && str_eq(f, "name") {
        // Ident fields
        mapping("name", "sym", false, "Str", "JsWord", ".to_string()", ".into()")
    } else if str_eq(p, "BlockStmt") && (str_eq(f, "body") || str_eq(f, "stmts")) {
        // BlockStmt fields
        mapping("body", "stmts", false, "Vec<Stmt>", "Vec<Stmt>", "", "")
    } else if str_eq(p, "ReturnStmt") && str_eq(f, "argument") {
        // ReturnStmt fields
        mapping("argument", "arg", false, "Option<Expr>", "Option<Box<Expr>>", "", "")
    } else if str_eq(p, "FnDecl") && str_eq(f, "id") {
        // FnDecl fields
        mapping("id", "ident", false, "Identifier", "Ident", "", "")
    } else if str_eq(p, "FnDecl") && str_eq(f, "params") {
        mapping("params", "function.params", false, "Vec<Pat>", "Vec<Param>", "", "")
    } else {
        None
    }
}

/// The variant table agrees with the node table: a name the variant table
/// knows is a row of the node table whose `swc` enum path is the enum and
/// variant joined by `::`, and whose `swc` type is the struct name.
#[verifier::rlimit(100)]
pub proof fn law_variant_table_agrees(rs: Seq<char>)
    requires
        swc_variant(rs).0 != "Unknown"@,
    ensures
        match find_by_name(node_table(), rs) {
            Some(m) => m.swc_enum == Some(swc_variant(rs).0 + "::"@ + swc_variant(rs).1) && m.swc == swc_variant(rs).2,
            None => false,
        },
{
    law_node_names_unique();
    law_lookup_finds_its_name(node_table(), rs);
    let t = node_table();
    if rs == "MemberExpression"@ {
        assert(t[16].rustscript == rs && t[16].swc_enum == Some("Expr::Member"@) && t[16].swc == "MemberExpr"@);
        law_every_row_is_found(rs, 16);
        reveal_strlit("Expr::Member");
        reveal_strlit("Expr");
        reveal_strlit("Member");
        reveal_strlit("::");
        assert("Expr::Member"@ =~= "Expr"@ + "::"@ + "Member"@);
    } else if rs == "CallExpression"@ {
        assert(t[15].rustscript == rs && t[15].swc_enum == Some("Expr::Call"@) && t[15].swc == "CallExpr"@);
        law_every_row_is_found(rs, 15);
        reveal_strlit("Expr::Call");
        reveal_strlit("Expr");
        reveal_strlit("Call");
        reveal_strlit("::");
        assert("Expr::Call"@ =~= "Expr"@ + "::"@ + "Call"@);
    } else if rs == "Identifier"@ {
        assert(t[14].rustscript == rs && t[14].swc_enum == Some("Expr::Ident"@) && t[14].swc == "Ident"@);
        law_every_row_is_found(rs, 14);
        reveal_strlit("Expr::Ident");
        reveal_strlit("Expr");
        reveal_strlit("Ident");
        reveal_strlit("::");
        assert("Expr::Ident"@ =~= "Expr"@ + "::"@ + "Ident"@);
    } else if rs == "BinaryExpression"@ {
        assert(t[17].rustscript == rs && t[17].swc_enum == Some("Expr::Bin"@) && t[17].swc == "BinExpr"@);
        law_every_row_is_found(rs, 17);
        reveal_strlit("Expr::Bin");
        reveal_strlit("Expr");
        reveal_strlit("Bin");
        reveal_strlit("::");
        assert("Expr::Bin"@ =~= "Expr"@ + "::"@ + "Bin"@);
    } else if rs == "UnaryExpression"@ {
        assert(t[18].rustscript == rs && t[18].swc_enum == Some("Expr::Unary"@) && t[18].swc == "UnaryExpr"@);
        law_every_row_is_found(rs, 18);
        reveal_strlit("Expr::Unary");
        reveal_strlit("Expr");
        reveal_strlit("Unary");
        reveal_strlit("::");
        assert("Expr::Unary"@ =~= "Expr"@ + "::"@ + "Unary"@);
    } else if rs == "AssignmentExpression"@ {
        assert(t[19].rustscript == rs && t[19].swc_enum == Some("Expr::Assign"@) && t[19].swc == "AssignExpr"@);
        law_every_row_is_found(rs, 19);
        reveal_strlit("Expr::Assign");
        reveal_strlit("Expr");
        reveal_strlit("Assign");
        reveal_strlit("::");
        assert("Expr::Assign"@ =~= "Expr"@ + "::"@ + "Assign"@);
    } else if rs == "ArrayExpression"@ {
        assert(t[22].rustscript == rs && t[22].swc_enum == Some("Expr::Array"@) && t[22].swc == "ArrayLit"@);
        law_every_row_is_found(rs, 22);
        reveal_strlit("Expr::Array");
        reveal_strlit("Expr");
        reveal_strlit("Array");
        reveal_strlit("::");
        assert("Expr::Array"@ =~= "Expr"@ + "::"@ + "Array"@);
    } else if rs == "ObjectExpression"@ {
        assert(t[23].rustscript == rs && t[23].swc_enum == Some("Expr::Object"@) && t[23].swc == "ObjectLit"@);
        law_every_row_is_found(rs, 23);
        reveal_strlit("Expr::Object");
        reveal_strlit("Expr");
        reveal_strlit("Object");
        reveal_strlit("::");
        assert("Expr::Object"@ =~= "Expr"@ + "::"@ + "Object"@);
    } else if rs == "FunctionExpression"@ {
        assert(t[25].rustscript == rs && t[25].swc_enum == Some("Expr::Fn"@) && t[25].swc == "FnExpr"@);
        law_every_row_is_found(rs, 25);
        reveal_strlit("Expr::Fn");
        reveal_strlit("Expr");
        reveal_strlit("Fn");
        reveal_strlit("::");
        assert("Expr::Fn"@ =~= "Expr"@ + "::"@ + "Fn"@);
    } else if rs == "ArrowFunctionExpression"@ {
        assert(t[24].rustscript == rs && t[24].swc_enum == Some("Expr::Arrow"@) && t[24].swc == "ArrowExpr"@);
        law_every_row_is_found(rs, 24);
        reveal_strlit("Expr::Arrow");
        reveal_strlit("Expr");
        reveal_strlit("Arrow");
        reveal_strlit("::");
        assert("Expr::Arrow"@ =~= "Expr"@ + "::"@ + "Arrow"@);
    } else if rs == "StringLiteral"@ {
        assert(t[31].rustscript == rs && t[31].swc_enum == Some("Lit::Str"@) && t[31].swc == "Str"@);
        law_every_row_is_found(rs, 31);
        reveal_strlit("Lit::Str");
        reveal_strlit("Lit");
        reveal_strlit("Str");
        reveal_strlit("::");
        assert("Lit::Str"@ =~= "Lit"@ + "::"@ + "Str"@);
    } else if rs == "NumericLiteral"@ {
        assert(t[32].rustscript == rs && t[32].swc_enum == Some("Lit::Num"@) && t[32].swc == "Number"@);
        law_every_row_is_found(rs, 32);
        reveal_strlit("Lit::Num");
        reveal_strlit("Lit");
        reveal_strlit("Num");
        reveal_strlit("::");
        assert("Lit::Num"@ =~= "Lit"@ + "::"@ + "Num"@);
    } else if rs == "BooleanLiteral"@ {
        assert(t[33].rustscript == rs && t[33].swc_enum == Some("Lit::Bool"@) && t[33].swc == "Bool"@);
        law_every_row_is_found(rs, 33);
        reveal_strlit("Lit::Bool");
        reveal_strlit("Lit");
        reveal_strlit("Bool");
        reveal_strlit("::");
        assert("Lit::Bool"@ =~= "Lit"@ + "::"@ + "Bool"@);
    } else if rs == "BlockStatement"@ {
        assert(t[4].rustscript == rs && t[4].swc_enum == Some("Stmt::Block"@) && t[4].swc == "BlockStmt"@);
        law_every_row_is_found(rs, 4);
        reveal_strlit("Stmt::Block");
        reveal_strlit("Stmt");
        reveal_strlit("Block");
        reveal_strlit("::");
        assert("Stmt::Block"@ =~= "Stmt"@ + "::"@ + "Block"@);
    } else if rs == "ReturnStatement"@ {
        assert(t[5].rustscript == rs && t[5].swc_enum == Some("Stmt::Return"@) && t[5].swc == "ReturnStmt"@);
        law_every_row_is_found(rs, 5);
        reveal_strlit("Stmt::Return");
        reveal_strlit("Stmt");
        reveal_strlit("Return");
        reveal_strlit("::");
        assert("Stmt::Return"@ =~= "Stmt"@ + "::"@ + "Return"@);
    } else if rs == "IfStatement"@ {
        assert(t[6].rustscript == rs && t[6].swc_enum == Some("Stmt::If"@) && t[6].swc == "IfStmt"@);
        law_every_row_is_found(rs, 6);
        reveal_strlit("Stmt::If");
        reveal_strlit("Stmt");
        reveal_strlit("If");
        reveal_strlit("::");
        assert("Stmt::If"@ =~= "Stmt"@ + "::"@ + "If"@);
    } else if rs == "WhileStatement"@ {
        assert(t[10].rustscript == rs && t[10].swc_enum == Some("Stmt::While"@) && t[10].swc == "WhileStmt"@);
        law_every_row_is_found(rs, 10);
        reveal_strlit("Stmt::While");
        reveal_strlit("Stmt");
        reveal_strlit("While");
        reveal_strlit("::");
        assert("Stmt::While"@ =~= "Stmt"@ + "::"@ + "While"@);
    } else if rs == "ForStatement"@ {
        assert(t[7].rustscript == rs && t[7].swc_enum == Some("Stmt::For"@) && t[7].swc == "ForStmt"@);
        law_every_row_is_found(rs, 7);
        reveal_strlit("Stmt::For");
        reveal_strlit("Stmt");
        reveal_strlit("For");
        reveal_strlit("::");
        assert("Stmt::For"@ =~= "Stmt"@ + "::"@ + "For"@);
    } else if rs == "ExpressionStatement"@ {
        assert(t[3].rustscript == rs && t[3].swc_enum == Some("Stmt::Expr"@) && t[3].swc == "ExprStmt"@);
        law_every_row_is_found(rs, 3);
        reveal_strlit("Stmt::Expr");
        reveal_strlit("Stmt");
        reveal_strlit("Expr");
        reveal_strlit("::");
        assert("Stmt::Expr"@ =~= "Stmt"@ + "::"@ + "Expr"@);
    } else if rs == "FunctionDeclaration"@ {
        assert(t[0].rustscript == rs && t[0].swc_enum == Some("Decl::Fn"@) && t[0].swc == "FnDecl"@);
        law_every_row_is_found(rs, 0);
        reveal_strlit("Decl::Fn");
        reveal_strlit("Decl");
        reveal_strlit("Fn");
        reveal_strlit("::");
        assert("Decl::Fn"@ =~= "Decl"@ + "::"@ + "Fn"@);
    } else if rs == "VariableDeclaration"@ {
        assert(t[1].rustscript == rs && t[1].swc_enum == Some("Decl::Var"@) && t[1].swc == "VarDecl"@);
        law_every_row_is_found(rs, 1);
        reveal_strlit("Decl::Var");
        reveal_strlit("Decl");
        reveal_strlit("Var");
        reveal_strlit("::");
        assert("Decl::Var"@ =~= "Decl"@ + "::"@ + "Var"@);
    } else if rs == "ClassDeclaration"@ {
        assert(t[2].rustscript == rs && t[2].swc_enum == Some("Decl::Class"@) && t[2].swc == "ClassDecl"@);
        law_every_row_is_found(rs, 2);
        reveal_strlit("Decl::Class");
        reveal_strlit("Decl");
        reveal_strlit("Class");
        reveal_strlit("::");
        assert("Decl::Class"@ =~= "Decl"@ + "::"@ + "Class"@);
    }
}


proof fn lemma_type_row_0()
    ensures
        swc_mapping("Identifier"@).0 == "Ident"@,
{
    reveal_strlit("Identifier");
    reveal_strlit("Ident");
    reveal_strlit("Expr");
    assert("Identifier"@.len() != "Expr"@.len());
    reveal_strlit("Expression");
    assert("Identifier"@[0] != "Expression"@[0]);
    reveal_strlit("Stmt");
    assert("Identifier"@.len() != "Stmt"@.len());
    reveal_strlit("Statement");
    assert("Identifier"@.len() != "Statement"@.len());
    reveal_strlit("Decl");
    assert("Identifier"@.len() != "Decl"@.len());
    reveal_strlit("Declaration");
    assert("Identifier"@.len() != "Declaration"@.len());
    reveal_strlit("Pat");
    assert("Identifier"@.len() != "Pat"@.len());
    reveal_strlit("Pattern");
    assert("Identifier"@.len() != "Pattern"@.len());
    reveal_strlit("Lit");
    assert("Identifier"@.len() != "Lit"@.len());
    reveal_strlit("Literal");
    assert("Identifier"@.len() != "Literal"@.len());
    reveal_strlit("MemberExpression");
    assert("Identifier"@.len() != "MemberExpression"@.len());
    reveal_strlit("CallExpression");
    assert("Identifier"@.len() != "CallExpression"@.len());
}

proof fn lemma_type_row_1()
    ensures
        swc_mapping("CallExpression"@).0 == "CallExpr"@,
{
    reveal_strlit("CallExpression");
    reveal_strlit("CallExpr");
    reveal_strlit("Expr");
    assert("CallExpression"@.len() != "Expr"@.len());
    reveal_strlit("Expression");
    assert("CallExpression"@.len() != "Expression"@.len());
    reveal_strlit("Stmt");
    assert("CallExpression"@.len() != "Stmt"@.len());
    reveal_strlit("Statement");
    assert("CallExpression"@.len() != "Statement"@.len());
    reveal_strlit("Decl");
    assert("CallExpression"@.len() != "Decl"@.len());
    reveal_strlit("Declaration");
    assert("CallExpression"@.len() != "Declaration"@.len());
    reveal_strlit("Pat");
    assert("CallExpression"@.len() != "Pat"@.len());
    reveal_strlit("Pattern");
    assert("CallExpression"@.len() != "Pattern"@.len());
    reveal_strlit("Lit");
    assert("CallExpression"@.len() != "Lit"@.len());
    reveal_strlit("Literal");
    assert("CallExpression"@.len() != "Literal"@.len());
    reveal_strlit("MemberExpression");
    assert("CallExpression"@.len() != "MemberExpression"@.len());
}

proof fn lemma_type_row_2()
    ensures
        swc_mapping("MemberExpression"@).0 == "MemberExpr"@,
{
    reveal_strlit("MemberExpression");
    reveal_strlit("MemberExpr");
    reveal_strlit("Expr");
    assert("MemberExpression"@.len() != "Expr"@.len());
    reveal_strlit("Expression");
    assert("MemberExpression"@.len() != "Expression"@.len());
    reveal_strlit("Stmt");
    assert("MemberExpression"@.len() != "Stmt"@.len());
    reveal_strlit("Statement");
    assert("MemberExpression"@.len() != "Statement"@.len());
    reveal_strlit("Decl");
    assert("MemberExpression"@.len() != "Decl"@.len());
    reveal_strlit("Declaration");
    assert("MemberExpression"@.len() != "Declaration"@.len());
    reveal_strlit("Pat");
    assert("MemberExpression"@.len() != "Pat"@.len());
    reveal_strlit("Pattern");
    assert("MemberExpression"@.len() != "Pattern"@.len());
    reveal_strlit("Lit");
    assert("MemberExpression"@.len() != "Lit"@.len());
    reveal_strlit("Literal");
    assert("MemberExpression"@.len() != "Literal"@.len());
}

proof fn lemma_type_row_3()
    ensures
        swc_mapping("BinaryExpression"@).0 == "BinExpr"@,
{
    reveal_strlit("BinaryExpression");
    reveal_strlit("BinExpr");
    reveal_strlit("Expr");
    assert("BinaryExpression"@.len() != "Expr"@.len());
    reveal_strlit("Expression");
    assert("BinaryExpression"@.len() != "Expression"@.len());
    reveal_strlit("Stmt");
    assert("BinaryExpression"@.len() != "Stmt"@.len());
    reveal_strlit("Statement");
    assert("BinaryExpression"@.len() != "Statement"@.len());
    reveal_strlit("Decl");
    assert("BinaryExpression"@.len() != "Decl"@.len());
    reveal_strlit("Declaration");
    assert("BinaryExpression"@.len() != "Declaration"@.len());
    reveal_strlit("Pat");
    assert("BinaryExpression"@.len() != "Pat"@.len());
    reveal_strlit("Pattern");
    assert("BinaryExpression"@.len() != "Pattern"@.len());
    reveal_strlit("Lit");
    assert("BinaryExpression"@.len() != "Lit"@.len());
    reveal_strlit("Literal");
    assert("BinaryExpression"@.len() != "Literal"@.len());
    reveal_strlit("MemberExpression");
    assert("BinaryExpression"@[0] != "MemberExpression"@[0]);
    reveal_strlit("CallExpression");
    assert("BinaryExpression"@.len() != "CallExpression"@.len());
    reveal_strlit("Identifier");
    assert("BinaryExpression"@.len() != "Identifier"@.len());
}

proof fn lemma_type_row_4()
    ensures
        swc_mapping("UnaryExpression"@).0 == "UnaryExpr"@,
{
    reveal_strlit("UnaryExpression");
    reveal_strlit("UnaryExpr");
    reveal_strlit("Expr");
    assert("UnaryExpression"@.len() != "Expr"@.len());
    reveal_strlit("Expression");
    assert("UnaryExpression"@.len() != "Expression"@.len());
    reveal_strlit("Stmt");
    assert("UnaryExpression"@.len() != "Stmt"@.len());
    reveal_strlit("Statement");
    assert("UnaryExpression"@.len() != "Statement"@.len());
    reveal_strlit("Decl");
    assert("UnaryExpression"@.len() != "Decl"@.len());
    reveal_strlit("Declaration");
    assert("UnaryExpression"@.len() != "Declaration"@.len());
    reveal_strlit("Pat");
    assert("UnaryExpression"@.len() != "Pat"@.len());
    reveal_strlit("Pattern");
    assert("UnaryExpression"@.len() != "Pattern"@.len());
    reveal_strlit("Lit");
    assert("UnaryExpression"@.len() != "Lit"@.len());
    reveal_strlit("Literal");
    assert("UnaryExpression"@.len() != "Literal"@.len());
    reveal_strlit("MemberExpression");
    assert("UnaryExpression"@.len() != "MemberExpression"@.len());
    reveal_strlit("CallExpression");
    assert("UnaryExpression"@.len() != "CallExpression"@.len());
    reveal_strlit("Identifier");
    assert("UnaryExpression"@.len() != "Identifier"@.len());
    reveal_strlit("BinaryExpression");
    assert("UnaryExpression"@.len() != "BinaryExpression"@.len());
}

proof fn lemma_type_row_5()
    ensures
        swc_mapping("StringLiteral"@).0 == "Str"@,
{
    reveal_strlit("StringLiteral");
    reveal_strlit("Str");
    reveal_strlit("Expr");
    assert("StringLiteral"@.len() != "Expr"@.len());
    reveal_strlit("Expression");
    assert("StringLiteral"@.len() != "Expression"@.len());
    reveal_strlit("Stmt");
    assert("StringLiteral"@.len() != "Stmt"@.len());
    reveal_strlit("Statement");
    assert("StringLiteral"@.len() != "Statement"@.len());
    reveal_strlit("Decl");
    assert("StringLiteral"@.len() != "Decl"@.len());
    reveal_strlit("Declaration");
    assert("StringLiteral"@.len() != "Declaration"@.len());
    reveal_strlit("Pat");
    assert("StringLiteral"@.len() != "Pat"@.len());
    reveal_strlit("Pattern");
    assert("StringLiteral"@.len() != "Pattern"@.len());
    reveal_strlit("Lit");
    assert("StringLiteral"@.len() != "Lit"@.len());
    reveal_strlit("Literal");
    assert("StringLiteral"@.len() != "Literal"@.len());
    reveal_strlit("MemberExpression");
    assert("StringLiteral"@.len() != "MemberExpression"@.len());
    reveal_strlit("CallExpression");
    assert("StringLiteral"@.len() != "CallExpression"@.len());
    reveal_strlit("Identifier");
    assert("StringLiteral"@.len() != "Identifier"@.len());
    reveal_strlit("BinaryExpression");
    assert("StringLiteral"@.len() != "BinaryExpression"@.len());
    reveal_strlit("UnaryExpression");
    assert("StringLiteral"@.len() != "UnaryExpression"@.len());
    reveal_strlit("AssignmentExpression");
    assert("StringLiteral"@.len() != "AssignmentExpression"@.len());
    reveal_strlit("ArrayExpression");
    assert("StringLiteral"@.len() != "ArrayExpression"@.len());
    reveal_strlit("ObjectExpression");
    assert("StringLiteral"@.len() != "ObjectExpression"@.len());
    reveal_strlit("FunctionExpression");
    assert("StringLiteral"@.len() != "FunctionExpression"@.len());
    reveal_strlit("ArrowFunctionExpression");
    assert("StringLiteral"@.len() != "ArrowFunctionExpression"@.len());
    reveal_strlit("BlockStatement");
    assert("StringLiteral"@.len() != "BlockStatement"@.len());
    reveal_strlit("ReturnStatement");
    assert("StringLiteral"@.len() != "ReturnStatement"@.len());
    reveal_strlit("IfStatement");
    assert("StringLiteral"@.len() != "IfStatement"@.len());
    reveal_strlit("WhileStatement");
    assert("StringLiteral"@.len() != "WhileStatement"@.len());
    reveal_strlit("ForStatement");
    assert("StringLiteral"@.len() != "ForStatement"@.len());
    reveal_strlit("ExpressionStatement");
    assert("StringLiteral"@.len() != "ExpressionStatement"@.len());
    reveal_strlit("FunctionDeclaration");
    assert("StringLiteral"@.len() != "FunctionDeclaration"@.len());
    reveal_strlit("VariableDeclaration");
    assert("StringLiteral"@.len() != "VariableDeclaration"@.len());
    reveal_strlit("ClassDeclaration");
    assert("StringLiteral"@.len() != "ClassDeclaration"@.len());
}

proof fn lemma_type_row_6()
    ensures
        swc_mapping("NumericLiteral"@).0 == "Number"@,
{
    reveal_strlit("NumericLiteral");
    reveal_strlit("Number");
    reveal_strlit("Expr");
    assert("NumericLiteral"@.len() != "Expr"@.len());
    reveal_strlit("Expression");
    assert("NumericLiteral"@.len() != "Expression"@.len());
    reveal_strlit("Stmt");
    assert("NumericLiteral"@.len() != "Stmt"@.len());
    reveal_strlit("Statement");
    assert("NumericLiteral"@.len() != "Statement"@.len());
    reveal_strlit("Decl");
    assert("NumericLiteral"@.len() != "Decl"@.len());
    reveal_strlit("Declaration");
    assert("NumericLiteral"@.len() != "Declaration"@.len());
    reveal_strlit("Pat");
    assert("NumericLiteral"@.len() != "Pat"@.len());
    reveal_strlit("Pattern");
    assert("NumericLiteral"@.len() != "Pattern"@.len());
    reveal_strlit("Lit");
    assert("NumericLiteral"@.len() != "Lit"@.len());
    reveal_strlit("Literal");
    assert("NumericLiteral"@.len() != "Literal"@.len());
    reveal_strlit("MemberExpression");
    assert("NumericLiteral"@.len() != "MemberExpression"@.len());
    reveal_strlit("CallExpression");
    assert("NumericLiteral"@[0] != "CallExpression"@[0]);
    reveal_strlit("Identifier");
    assert("NumericLiteral"@.len() != "Identifier"@.len());
    reveal_strlit("BinaryExpression");
    assert("NumericLiteral"@.len() != "BinaryExpression"@.len());
    reveal_strlit("UnaryExpression");
    assert("NumericLiteral"@.len() != "UnaryExpression"@.len());
    reveal_strlit("AssignmentExpression");
    assert("NumericLiteral"@.len() != "AssignmentExpression"@.len());
    reveal_strlit("ArrayExpression");
    assert("NumericLiteral"@.len() != "ArrayExpression"@.len());
    reveal_strlit("ObjectExpression");
    assert("NumericLiteral"@.len() != "ObjectExpression"@.len());
    reveal_strlit("FunctionExpression");
    assert("NumericLiteral"@.len() != "FunctionExpression"@.len());
    reveal_strlit("ArrowFunctionExpression");
    assert("NumericLiteral"@.len() != "ArrowFunctionExpression"@.len());
    reveal_strlit("BlockStatement");
    assert("NumericLiteral"@[0] != "BlockStatement"@[0]);
    reveal_strlit("ReturnStatement");
    assert("NumericLiteral"@.len() != "ReturnStatement"@.len());
    reveal_strlit("IfStatement");
    assert("NumericLiteral"@.len() != "IfStatement"@.len());
    reveal_strlit("WhileStatement");
    assert("NumericLiteral"@[0] != "WhileStatement"@[0]);
    reveal_strlit("ForStatement");
    assert("NumericLiteral"@.len() != "ForStatement"@.len());
    reveal_strlit("ExpressionStatement");
    assert("NumericLiteral"@.len() != "ExpressionStatement"@.len());
    reveal_strlit("FunctionDeclaration");
    assert("NumericLiteral"@.len() != "FunctionDeclaration"@.len());
    reveal_strlit("VariableDeclaration");
    assert("NumericLiteral"@.len() != "VariableDeclaration"@.len());
    reveal_strlit("ClassDeclaration");
    assert("NumericLiteral"@.len() != "ClassDeclaration"@.len());
    reveal_strlit("StringLiteral");
    assert("NumericLiteral"@.len() != "StringLiteral"@.len());
}

proof fn lemma_type_row_7()
    ensures
        swc_mapping("BooleanLiteral"@).0 == "Bool"@,
{
    reveal_strlit("BooleanLiteral");
    reveal_strlit("Bool");
    reveal_strlit("Expr");
    assert("BooleanLiteral"@.len() != "Expr"@.len());
    reveal_strlit("Expression");
    assert("BooleanLiteral"@.len() != "Expression"@.len());
    reveal_strlit("Stmt");
    assert("BooleanLiteral"@.len() != "Stmt"@.len());
    reveal_strlit("Statement");
    assert("BooleanLiteral"@.len() != "Statement"@.len());
    reveal_strlit("Decl");
    assert("BooleanLiteral"@.len() != "Decl"@.len());
    reveal_strlit("Declaration");
    assert("BooleanLiteral"@.len() != "Declaration"@.len());
    reveal_strlit("Pat");
    assert("BooleanLiteral"@.len() != "Pat"@.len());
    reveal_strlit("Pattern");
    assert("BooleanLiteral"@.len() != "Pattern"@.len());
    reveal_strlit("Lit");
    assert("BooleanLiteral"@.len() != "Lit"@.len());
    reveal_strlit("Literal");
    assert("BooleanLiteral"@.len() != "Literal"@.len());
    reveal_strlit("MemberExpression");
    assert("BooleanLiteral"@.len() != "MemberExpression"@.len());
    reveal_strlit("CallExpression");
    assert("BooleanLiteral"@[0] != "CallExpression"@[0]);
    reveal_strlit("Identifier");
    assert("BooleanLiteral"@.len() != "Identifier"@.len());
    reveal_strlit("BinaryExpression");
    assert("BooleanLiteral"@.len() != "BinaryExpression"@.len());
    reveal_strlit("UnaryExpression");
    assert("BooleanLiteral"@.len() != "UnaryExpression"@.len());
    reveal_strlit("AssignmentExpression");
    assert("BooleanLiteral"@.len() != "AssignmentExpression"@.len());
    reveal_strlit("ArrayExpression");
    assert("BooleanLiteral"@.len() != "ArrayExpression"@.len());
    reveal_strlit("ObjectExpression");
    assert("BooleanLiteral"@.len() != "ObjectExpression"@.len());
    reveal_strlit("FunctionExpression");
    assert("BooleanLiteral"@.len() != "FunctionExpression"@.len());
    reveal_strlit("ArrowFunctionExpression");
    assert("BooleanLiteral"@.len() != "ArrowFunctionExpression"@.len());
    reveal_strlit("BlockStatement");
    assert("BooleanLiteral"@[1] != "BlockStatement"@[1]);
    reveal_strlit("ReturnStatement");
    assert("BooleanLiteral"@.len() != "ReturnStatement"@.len());
    reveal_strlit("IfStatement");
    assert("BooleanLiteral"@.len() != "IfStatement"@.len());
    reveal_strlit("WhileStatement");
    assert("BooleanLiteral"@[0] != "WhileStatement"@[0]);
    reveal_strlit("ForStatement");
    assert("BooleanLiteral"@.len() != "ForStatement"@.len());
    reveal_strlit("ExpressionStatement");
    assert("BooleanLiteral"@.len() != "ExpressionStatement"@.len());
    reveal_strlit("FunctionDeclaration");
    assert("BooleanLiteral"@.len() != "FunctionDeclaration"@.len());
    reveal_strlit("VariableDeclaration");
    assert("BooleanLiteral"@.len() != "VariableDeclaration"@.len());
    reveal_strlit("ClassDeclaration");
    assert("BooleanLiteral"@.len() != "ClassDeclaration"@.len());
    reveal_strlit("StringLiteral");
    assert("BooleanLiteral"@.len() != "StringLiteral"@.len());
    reveal_strlit("NumericLiteral");
    assert("BooleanLiteral"@[0] != "NumericLiteral"@[0]);
}

proof fn lemma_type_row_8()
    ensures
        swc_mapping("NullLiteral"@).0 == "Null"@,
{
    reveal_strlit("NullLiteral");
    reveal_strlit("Null");
    reveal_strlit("Expr");
    assert("NullLiteral"@.len() != "Expr"@.len());
    reveal_strlit("Expression");
    assert("NullLiteral"@.len() != "Expression"@.len());
    reveal_strlit("Stmt");
    assert("NullLiteral"@.len() != "Stmt"@.len());
    reveal_strlit("Statement");
    assert("NullLiteral"@.len() != "Statement"@.len());
    reveal_strlit("Decl");
    assert("NullLiteral"@.len() != "Decl"@.len());
    reveal_strlit("Declaration");
    assert("NullLiteral"@[0] != "Declaration"@[0]);
    reveal_strlit("Pat");
    assert("NullLiteral"@.len() != "Pat"@.len());
    reveal_strlit("Pattern");
    assert("NullLiteral"@.len() != "Pattern"@.len());
    reveal_strlit("Lit");
    assert("NullLiteral"@.len() != "Lit"@.len());
    reveal_strlit("Literal");
    assert("NullLiteral"@.len() != "Literal"@.len());
    reveal_strlit("MemberExpression");
    assert("NullLiteral"@.len() != "MemberExpression"@.len());
    reveal_strlit("CallExpression");
    assert("NullLiteral"@.len() != "CallExpression"@.len());
    reveal_strlit("Identifier");
    assert("NullLiteral"@.len() != "Identifier"@.len());
    reveal_strlit("BinaryExpression");
    assert("NullLiteral"@.len() != "BinaryExpression"@.len());
    reveal_strlit("UnaryExpression");
    assert("NullLiteral"@.len() != "UnaryExpression"@.len());
    reveal_strlit("AssignmentExpression");
    assert("NullLiteral"@.len() != "AssignmentExpression"@.len());
    reveal_strlit("ArrayExpression");
    assert("NullLiteral"@.len() != "ArrayExpression"@.len());
    reveal_strlit("ObjectExpression");
    assert("NullLiteral"@.len() != "ObjectExpression"@.len());
    reveal_strlit("FunctionExpression");
    assert("NullLiteral"@.len() != "FunctionExpression"@.len());
    reveal_strlit("ArrowFunctionExpression");
    assert("NullLiteral"@.len() != "ArrowFunctionExpression"@.len());
    reveal_strlit("BlockStatement");
    assert("NullLiteral"@.len() != "BlockStatement"@.len());
    reveal_strlit("ReturnStatement");
    assert("NullLiteral"@.len() != "ReturnStatement"@.len());
    reveal_strlit("IfStatement");
    assert("NullLiteral"@[0] != "IfStatement"@[0]);
    reveal_strlit("WhileStatement");
    assert("NullLiteral"@.len() != "WhileStatement"@.len());
    reveal_strlit("ForStatement");
    assert("NullLiteral"@.len() != "ForStatement"@.len());
    reveal_strlit("ExpressionStatement");
    assert("NullLiteral"@.len() != "ExpressionStatement"@.len());
    reveal_strlit("FunctionDeclaration");
    assert("NullLiteral"@.len() != "FunctionDeclaration"@.len());
    reveal_strlit("VariableDeclaration");
    assert("NullLiteral"@.len() != "VariableDeclaration"@.len());
    reveal_strlit("ClassDeclaration");
    assert("NullLiteral"@.len() != "ClassDeclaration"@.len());
    reveal_strlit("StringLiteral");
    assert("NullLiteral"@.len() != "StringLiteral"@.len());
    reveal_strlit("NumericLiteral");
    assert("NullLiteral"@.len() != "NumericLiteral"@.len());
    reveal_strlit("BooleanLiteral");
    assert("NullLiteral"@.len() != "BooleanLiteral"@.len());
}

proof fn lemma_type_row_9()
    ensures
        swc_mapping("ArrayExpression"@).0 == "ArrayLit"@,
{
    reveal_strlit("ArrayExpression");
    reveal_strlit("ArrayLit");
    reveal_strlit("Expr");
    assert("ArrayExpression"@.len() != "Expr"@.len());
    reveal_strlit("Expression");
    assert("ArrayExpression"@.len() != "Expression"@.len());
    reveal_strlit("Stmt");
    assert("ArrayExpression"@.len() != "Stmt"@.len());
    reveal_strlit("Statement");
    assert("ArrayExpression"@.len() != "Statement"@.len());
    reveal_strlit("Decl");
    assert("ArrayExpression"@.len() != "Decl"@.len());
    reveal_strlit("Declaration");
    assert("ArrayExpression"@.len() != "Declaration"@.len());
    reveal_strlit("Pat");
    assert("ArrayExpression"@.len() != "Pat"@.len());
    reveal_strlit("Pattern");
    assert("ArrayExpression"@.len() != "Pattern"@.len());
    reveal_strlit("Lit");
    assert("ArrayExpression"@.len() != "Lit"@.len());
    reveal_strlit("Literal");
    assert("ArrayExpression"@.len() != "Literal"@.len());
    reveal_strlit("MemberExpression");
    assert("ArrayExpression"@.len() != "MemberExpression"@.len());
    reveal_strlit("CallExpression");
    assert("ArrayExpression"@.len() != "CallExpression"@.len());
    reveal_strlit("Identifier");
    assert("ArrayExpression"@.len() != "Identifier"@.len());
    reveal_strlit("BinaryExpression");
    assert("ArrayExpression"@.len() != "BinaryExpression"@.len());
    reveal_strlit("UnaryExpression");
    assert("ArrayExpression"@[0] != "UnaryExpression"@[0]);
    reveal_strlit("AssignmentExpression");
    assert("ArrayExpression"@.len() != "AssignmentExpression"@.len());
}

proof fn lemma_type_row_10()
    ensures
        swc_mapping("ObjectExpression"@).0 == "ObjectLit"@,
{
    reveal_strlit("ObjectExpression");
    reveal_strlit("ObjectLit");
    reveal_strlit("Expr");
    assert("ObjectExpression"@.len() != "Expr"@.len());
    reveal_strlit("Expression");
    assert("ObjectExpression"@.len() != "Expression"@.len());
    reveal_strlit("Stmt");
    assert("ObjectExpression"@.len() != "Stmt"@.len());
    reveal_strlit("Statement");
    assert("ObjectExpression"@.len() != "Statement"@.len());
    reveal_strlit("Decl");
    assert("ObjectExpression"@.len() != "Decl"@.len());
    reveal_strlit("Declaration");
    assert("ObjectExpression"@.len() != "Declaration"@.len());
    reveal_strlit("Pat");
    assert("ObjectExpression"@.len() != "Pat"@.len());
    reveal_strlit("Pattern");
    assert("ObjectExpression"@.len() != "Pattern"@.len());
    reveal_strlit("Lit");
    assert("ObjectExpression"@.len() != "Lit"@.len());
    reveal_strlit("Literal");
    assert("ObjectExpression"@.len() != "Literal"@.len());
    reveal_strlit("MemberExpression");
    assert("ObjectExpression"@[0] != "MemberExpression"@[0]);
    reveal_strlit("CallExpression");
    assert("ObjectExpression"@.len() != "CallExpression"@.len());
    reveal_strlit("Identifier");
    assert("ObjectExpression"@.len() != "Identifier"@.len());
    reveal_strlit("BinaryExpression");
    assert("ObjectExpression"@[0] != "BinaryExpression"@[0]);
    reveal_strlit("UnaryExpression");
    assert("ObjectExpression"@.len() != "UnaryExpression"@.len());
    reveal_strlit("AssignmentExpression");
    assert("ObjectExpression"@.len() != "AssignmentExpression"@.len());
    reveal_strlit("ArrayExpression");
    assert("ObjectExpression"@.len() != "ArrayExpression"@.len());
}

proof fn lemma_type_row_11()
    ensures
        swc_mapping("ArrowFunctionExpression"@).0 == "ArrowExpr"@,
{
    reveal_strlit("ArrowFunctionExpression");
    reveal_strlit("ArrowExpr");
    reveal_strlit("Expr");
    assert("ArrowFunctionExpression"@.len() != "Expr"@.len());
    reveal_strlit("Expression");
    assert("ArrowFunctionExpression"@.len() != "Expression"@.len());
    reveal_strlit("Stmt");
    assert("ArrowFunctionExpression"@.len() != "Stmt"@.len());
    reveal_strlit("Statement");
    assert("ArrowFunctionExpression"@.len() != "Statement"@.len());
    reveal_strlit("Decl");
    assert("ArrowFunctionExpression"@.len() != "Decl"@.len());
    reveal_strlit("Declaration");
    assert("ArrowFunctionExpression"@.len() != "Declaration"@.len());
    reveal_strlit("Pat");
    assert("ArrowFunctionExpression"@.len() != "Pat"@.len());
    reveal_strlit("Pattern");
    assert("ArrowFunctionExpression"@.len() != "Pattern"@.len());
    reveal_strlit("Lit");
    assert("ArrowFunctionExpression"@.len() != "Lit"@.len());
    reveal_strlit("Literal");
    assert("ArrowFunctionExpression"@.len() != "Literal"@.len());
    reveal_strlit("MemberExpression");
    assert("ArrowFunctionExpression"@.len() != "MemberExpression"@.len());
    reveal_strlit("CallExpression");
    assert("ArrowFunctionExpression"@.len() != "CallExpression"@.len());
    reveal_strlit("Identifier");
    assert("ArrowFunctionExpression"@.len() != "Identifier"@.len());
    reveal_strlit("BinaryExpression");
    assert("ArrowFunctionExpression"@.len() != "BinaryExpression"@.len());
    reveal_strlit("UnaryExpression");
    assert("ArrowFunctionExpression"@.len() != "UnaryExpression"@.len());
    reveal_strlit("AssignmentExpression");
    assert("ArrowFunctionExpression"@.len() != "AssignmentExpression"@.len());
    reveal_strlit("ArrayExpression");
    assert("ArrowFunctionExpression"@.len() != "ArrayExpression"@.len());
    reveal_strlit("ObjectExpression");
    assert("ArrowFunctionExpression"@.len() != "ObjectExpression"@.len());
    reveal_strlit("FunctionExpression");
    assert("ArrowFunctionExpression"@.len() != "FunctionExpression"@.len());
}

proof fn lemma_type_row_12()
    ensures
        swc_mapping("FunctionDeclaration"@).0 == "FnDecl"@,
{
    reveal_strlit("FunctionDeclaration");
    reveal_strlit("FnDecl");
    reveal_strlit("Expr");
    assert("FunctionDeclaration"@.len() != "Expr"@.len());
    reveal_strlit("Expression");
    assert("FunctionDeclaration"@.len() != "Expression"@.len());
    reveal_strlit("Stmt");
    assert("FunctionDeclaration"@.len() != "Stmt"@.len());
    reveal_strlit("Statement");
    assert("FunctionDeclaration"@.len() != "Statement"@.len());
    reveal_strlit("Decl");
    assert("FunctionDeclaration"@.len() != "Decl"@.len());
    reveal_strlit("Declaration");
    assert("FunctionDeclaration"@.len() != "Declaration"@.len());
    reveal_strlit("Pat");
    assert("FunctionDeclaration"@.len() != "Pat"@.len());
    reveal_strlit("Pattern");
    assert("FunctionDeclaration"@.len() != "Pattern"@.len());
    reveal_strlit("Lit");
    assert("FunctionDeclaration"@.len() != "Lit"@.len());
    reveal_strlit("Literal");
    assert("FunctionDeclaration"@.len() != "Literal"@.len());
    reveal_strlit("MemberExpression");
    assert("FunctionDeclaration"@.len() != "MemberExpression"@.len());
    reveal_strlit("CallExpression");
    assert("FunctionDeclaration"@.len() != "CallExpression"@.len());
    reveal_strlit("Identifier");
    assert("FunctionDeclaration"@.len() != "Identifier"@.len());
    reveal_strlit("BinaryExpression");
    assert("FunctionDeclaration"@.len() != "BinaryExpression"@.len());
    reveal_strlit("UnaryExpression");
    assert("FunctionDeclaration"@.len() != "UnaryExpression"@.len());
    reveal_strlit("AssignmentExpression");
    assert("FunctionDeclaration"@.len() != "AssignmentExpression"@.len());
    reveal_strlit("ArrayExpression");
    assert("FunctionDeclaration"@.len() != "ArrayExpression"@.len());
    reveal_strlit("ObjectExpression");
    assert("FunctionDeclaration"@.len() != "ObjectExpression"@.len());
    reveal_strlit("FunctionExpression");
    assert("FunctionDeclaration"@.len() != "FunctionExpression"@.len());
    reveal_strlit("ArrowFunctionExpression");
    assert("FunctionDeclaration"@.len() != "ArrowFunctionExpression"@.len());
    reveal_strlit("BlockStatement");
    assert("FunctionDeclaration"@.len() != "BlockStatement"@.len());
    reveal_strlit("ReturnStatement");
    assert("FunctionDeclaration"@.len() != "ReturnStatement"@.len());
    reveal_strlit("IfStatement");
    assert("FunctionDeclaration"@.len() != "IfStatement"@.len());
    reveal_strlit("WhileStatement");
    assert("FunctionDeclaration"@.len() != "WhileStatement"@.len());
    reveal_strlit("ForStatement");
    assert("FunctionDeclaration"@.len() != "ForStatement"@.len());
    reveal_strlit("ExpressionStatement");
    assert("FunctionDeclaration"@[0] != "ExpressionStatement"@[0]);
}

proof fn lemma_type_row_13()
    ensures
        swc_mapping("VariableDeclaration"@).0 == "VarDecl"@,
{
    reveal_strlit("VariableDeclaration");
    reveal_strlit("VarDecl");
    reveal_strlit("Expr");
    assert("VariableDeclaration"@.len() != "Expr"@.len());
    reveal_strlit("Expression");
    assert("VariableDeclaration"@.len() != "Expression"@.len());
    reveal_strlit("Stmt");
    assert("VariableDeclaration"@.len() != "Stmt"@.len());
    reveal_strlit("Statement");
    assert("VariableDeclaration"@.len() != "Statement"@.len());
    reveal_strlit("Decl");
    assert("VariableDeclaration"@.len() != "Decl"@.len());
    reveal_strlit("Declaration");
    assert("VariableDeclaration"@.len() != "Declaration"@.len());
    reveal_strlit("Pat");
    assert("VariableDeclaration"@.len() != "Pat"@.len());
    reveal_strlit("Pattern");
    assert("VariableDeclaration"@.len() != "Pattern"@.len());
    reveal_strlit("Lit");
    assert("VariableDeclaration"@.len() != "Lit"@.len());
    reveal_strlit("Literal");
    assert("VariableDeclaration"@.len() != "Literal"@.len());
    reveal_strlit("MemberExpression");
    assert("VariableDeclaration"@.len() != "MemberExpression"@.len());
    reveal_strlit("CallExpression");
    assert("VariableDeclaration"@.len() != "CallExpression"@.len());
    reveal_strlit("Identifier");
    assert("VariableDeclaration"@.len() != "Identifier"@.len());
    reveal_strlit("BinaryExpression");
    assert("VariableDeclaration"@.len() != "BinaryExpression"@.len());
    reveal_strlit("UnaryExpression");
    assert("VariableDeclaration"@.len() != "UnaryExpression"@.len());
    reveal_strlit("AssignmentExpression");
    assert("VariableDeclaration"@.len() != "AssignmentExpression"@.len());
    reveal_strlit("ArrayExpression");
    assert("VariableDeclaration"@.len() != "ArrayExpression"@.len());
    reveal_strlit("ObjectExpression");
    assert("VariableDeclaration"@.len() != "ObjectExpression"@.len());
    reveal_strlit("FunctionExpression");
    assert("VariableDeclaration"@.len() != "FunctionExpression"@.len());
    reveal_strlit("ArrowFunctionExpression");
    assert("VariableDeclaration"@.len() != "ArrowFunctionExpression"@.len());
    reveal_strlit("BlockStatement");
    assert("VariableDeclaration"@.len() != "BlockStatement"@.len());
    reveal_strlit("ReturnStatement");
    assert("VariableDeclaration"@.len() != "ReturnStatement"@.len());
    reveal_strlit("IfStatement");
    assert("VariableDeclaration"@.len() != "IfStatement"@.len());
    reveal_strlit("WhileStatement");
    assert("VariableDeclaration"@.len() != "WhileStatement"@.len());
    reveal_strlit("ForStatement");
    assert("VariableDeclaration"@.len() != "ForStatement"@.len());
    reveal_strlit("ExpressionStatement");
    assert("VariableDeclaration"@[0] != "ExpressionStatement"@[0]);
    reveal_strlit("FunctionDeclaration");
    assert("VariableDeclaration"@[0] != "FunctionDeclaration"@[0]);
}

proof fn lemma_type_row_14()
    ensures
        swc_mapping("IfStatement"@).0 == "IfStmt"@,
{
    reveal_strlit("IfStatement");
    reveal_strlit("IfStmt");
    reveal_strlit("Expr");
    assert("IfStatement"@.len() != "Expr"@.len());
    reveal_strlit("Expression");
    assert("IfStatement"@.len() != "Expression"@.len());
    reveal_strlit("Stmt");
    assert("IfStatement"@.len() != "Stmt"@.len());
    reveal_strlit("Statement");
    assert("IfStatement"@.len() != "Statement"@.len());
    reveal_strlit("Decl");
    assert("IfStatement"@.len() != "Decl"@.len());
    reveal_strlit("Declaration");
    assert("IfStatement"@[0] != "Declaration"@[0]);
    reveal_strlit("Pat");
    assert("IfStatement"@.len() != "Pat"@.len());
    reveal_strlit("Pattern");
    assert("IfStatement"@.len() != "Pattern"@.len());
    reveal_strlit("Lit");
    assert("IfStatement"@.len() != "Lit"@.len());
    reveal_strlit("Literal");
    assert("IfStatement"@.len() != "Literal"@.len());
    reveal_strlit("MemberExpression");
    assert("IfStatement"@.len() != "MemberExpression"@.len());
    reveal_strlit("CallExpression");
    assert("IfStatement"@.len() != "CallExpression"@.len());
    reveal_strlit("Identifier");
    assert("IfStatement"@.len() != "Identifier"@.len());
    reveal_strlit("BinaryExpression");
    assert("IfStatement"@.len() != "BinaryExpression"@.len());
    reveal_strlit("UnaryExpression");
    assert("IfStatement"@.len() != "UnaryExpression"@.len());
    reveal_strlit("AssignmentExpression");
    assert("IfStatement"@.len() != "AssignmentExpression"@.len());
    reveal_strlit("ArrayExpression");
    assert("IfStatement"@.len() != "ArrayExpression"@.len());
    reveal_strlit("ObjectExpression");
    assert("IfStatement"@.len() != "ObjectExpression"@.len());
    reveal_strlit("FunctionExpression");
    assert("IfStatement"@.len() != "FunctionExpression"@.len());
    reveal_strlit("ArrowFunctionExpression");
    assert("IfStatement"@.len() != "ArrowFunctionExpression"@.len());
    reveal_strlit("BlockStatement");
    assert("IfStatement"@.len() != "BlockStatement"@.len());
    reveal_strlit("ReturnStatement");
    assert("IfStatement"@.len() != "ReturnStatement"@.len());
}

proof fn lemma_type_row_15()
    ensures
        swc_mapping("ReturnStatement"@).0 == "ReturnStmt"@,
{
    reveal_strlit("ReturnStatement");
    reveal_strlit("ReturnStmt");
    reveal_strlit("Expr");
    assert("ReturnStatement"@.len() != "Expr"@.len());
    reveal_strlit("Expression");
    assert("ReturnStatement"@.len() != "Expression"@.len());
    reveal_strlit("Stmt");
    assert("ReturnStatement"@.len() != "Stmt"@.len());
    reveal_strlit("Statement");
    assert("ReturnStatement"@.len() != "Statement"@.len());
    reveal_strlit("Decl");
    assert("ReturnStatement"@.len() != "Decl"@.len());
    reveal_strlit("Declaration");
    assert("ReturnStatement"@.len() != "Declaration"@.len());
    reveal_strlit("Pat");
    assert("ReturnStatement"@.len() != "Pat"@.len());
    reveal_strlit("Pattern");
    assert("ReturnStatement"@.len() != "Pattern"@.len());
    reveal_strlit("Lit");
    assert("ReturnStatement"@.len() != "Lit"@.len());
    reveal_strlit("Literal");
    assert("ReturnStatement"@.len() != "Literal"@.len());
    reveal_strlit("MemberExpression");
    assert("ReturnStatement"@.len() != "MemberExpression"@.len());
    reveal_strlit("CallExpression");
    assert("ReturnStatement"@.len() != "CallExpression"@.len());
    reveal_strlit("Identifier");
    assert("ReturnStatement"@.len() != "Identifier"@.len());
    reveal_strlit("BinaryExpression");
    assert("ReturnStatement"@.len() != "BinaryExpression"@.len());
    reveal_strlit("UnaryExpression");
    assert("ReturnStatement"@[0] != "UnaryExpression"@[0]);
    reveal_strlit("AssignmentExpression");
    assert("ReturnStatement"@.len() != "AssignmentExpression"@.len());
    reveal_strlit("ArrayExpression");
    assert("ReturnStatement"@[0] != "ArrayExpression"@[0]);
    reveal_strlit("ObjectExpression");
    assert("ReturnStatement"@.len() != "ObjectExpression"@.len());
    reveal_strlit("FunctionExpression");
    assert("ReturnStatement"@.len() != "FunctionExpression"@.len());
    reveal_strlit("ArrowFunctionExpression");
    assert("ReturnStatement"@.len() != "ArrowFunctionExpression"@.len());
    reveal_strlit("BlockStatement");
    assert("ReturnStatement"@.len() != "BlockStatement"@.len());
}

proof fn lemma_type_row_16()
    ensures
        swc_mapping("BlockStatement"@).0 == "BlockStmt"@,
{
    reveal_strlit("BlockStatement");
    reveal_strlit("BlockStmt");
    reveal_strlit("Expr");
    assert("BlockStatement"@.len() != "Expr"@.len());
    reveal_strlit("Expression");
    assert("BlockStatement"@.len() != "Expression"@.len());
    reveal_strlit("Stmt");
    assert("BlockStatement"@.len() != "Stmt"@.len());
    reveal_strlit("Statement");
    assert("BlockStatement"@.len() != "Statement"@.len());
    reveal_strlit("Decl");
    assert("BlockStatement"@.len() != "Decl"@.len());
    reveal_strlit("Declaration");
    assert("BlockStatement"@.len() != "Declaration"@.len());
    reveal_strlit("Pat");
    assert("BlockStatement"@.len() != "Pat"@.len());
    reveal_strlit("Pattern");
    assert("BlockStatement"@.len() != "Pattern"@.len());
    reveal_strlit("Lit");
    assert("BlockStatement"@.len() != "Lit"@.len());
    reveal_strlit("Literal");
    assert("BlockStatement"@.len() != "Literal"@.len());
    reveal_strlit("MemberExpression");
    assert("BlockStatement"@.len() != "MemberExpression"@.len());
    reveal_strlit("CallExpression");
    assert("BlockStatement"@[0] != "CallExpression"@[0]);
    reveal_strlit("Identifier");
    assert("BlockStatement"@.len() != "Identifier"@.len());
    reveal_strlit("BinaryExpression");
    assert("BlockStatement"@.len() != "BinaryExpression"@.len());
    reveal_strlit("UnaryExpression");
    assert("BlockStatement"@.len() != "UnaryExpression"@.len());
    reveal_strlit("AssignmentExpression");
    assert("BlockStatement"@.len() != "AssignmentExpression"@.len());
    reveal_strlit("ArrayExpression");
    assert("BlockStatement"@.len() != "ArrayExpression"@.len());
    reveal_strlit("ObjectExpression");
    assert("BlockStatement"@.len() != "ObjectExpression"@.len());
    reveal_strlit("FunctionExpression");
    assert("BlockStatement"@.len() != "FunctionExpression"@.len());
    reveal_strlit("ArrowFunctionExpression");
    assert("BlockStatement"@.len() != "ArrowFunctionExpression"@.len());
}

proof fn lemma_type_row_17()
    ensures
        swc_mapping("ExpressionStatement"@).0 == "ExprStmt"@,
{
    reveal_strlit("ExpressionStatement");
    reveal_strlit("ExprStmt");
    reveal_strlit("Expr");
    assert("ExpressionStatement"@.len() != "Expr"@.len());
    reveal_strlit("Expression");
    assert("ExpressionStatement"@.len() != "Expression"@.len());
    reveal_strlit("Stmt");
    assert("ExpressionStatement"@.len() != "Stmt"@.len());
    reveal_strlit("Statement");
    assert("ExpressionStatement"@.len() != "Statement"@.len());
    reveal_strlit("Decl");
    assert("ExpressionStatement"@.len() != "Decl"@.len());
    reveal_strlit("Declaration");
    assert("ExpressionStatement"@.len() != "Declaration"@.len());
    reveal_strlit("Pat");
    assert("ExpressionStatement"@.len() != "Pat"@.len());
    reveal_strlit("Pattern");
    assert("ExpressionStatement"@.len() != "Pattern"@.len());
    reveal_strlit("Lit");
    assert("ExpressionStatement"@.len() != "Lit"@.len());
    reveal_strlit("Literal");
    assert("ExpressionStatement"@.len() != "Literal"@.len());
    reveal_strlit("MemberExpression");
    assert("ExpressionStatement"@.len() != "MemberExpression"@.len());
    reveal_strlit("CallExpression");
    assert("ExpressionStatement"@.len() != "CallExpression"@.len());
    reveal_strlit("Identifier");
    assert("ExpressionStatement"@.len() != "Identifier"@.len());
    reveal_strlit("BinaryExpression");
    assert("ExpressionStatement"@.len() != "BinaryExpression"@.len());
    reveal_strlit("UnaryExpression");
    assert("ExpressionStatement"@.len() != "UnaryExpression"@.len());
    reveal_strlit("AssignmentExpression");
    assert("ExpressionStatement"@.len() != "AssignmentExpression"@.len());
    reveal_strlit("ArrayExpression");
    assert("ExpressionStatement"@.len() != "ArrayExpression"@.len());
    reveal_strlit("ObjectExpression");
    assert("ExpressionStatement"@.len() != "ObjectExpression"@.len());
    reveal_strlit("FunctionExpression");
    assert("ExpressionStatement"@.len() != "FunctionExpression"@.len());
    reveal_strlit("ArrowFunctionExpression");
    assert("ExpressionStatement"@.len() != "ArrowFunctionExpression"@.len());
    reveal_strlit("BlockStatement");
    assert("ExpressionStatement"@.len() != "BlockStatement"@.len());
    reveal_strlit("ReturnStatement");
    assert("ExpressionStatement"@.len() != "ReturnStatement"@.len());
    reveal_strlit("IfStatement");
    assert("ExpressionStatement"@.len() != "IfStatement"@.len());
    reveal_strlit("WhileStatement");
    assert("ExpressionStatement"@.len() != "WhileStatement"@.len());
    reveal_strlit("ForStatement");
    assert("ExpressionStatement"@.len() != "ForStatement"@.len());
}

proof fn lemma_type_row_18()
    ensures
        swc_mapping("JSXElement"@).0 == "JSXElement"@,
{
    reveal_strlit("JSXElement");
    reveal_strlit("JSXElement");
    reveal_strlit("Expr");
    assert("JSXElement"@.len() != "Expr"@.len());
    reveal_strlit("Expression");
    assert("JSXElement"@[0] != "Expression"@[0]);
    reveal_strlit("Stmt");
    assert("JSXElement"@.len() != "Stmt"@.len());
    reveal_strlit("Statement");
    assert("JSXElement"@.len() != "Statement"@.len());
    reveal_strlit("Decl");
    assert("JSXElement"@.len() != "Decl"@.len());
    reveal_strlit("Declaration");
    assert("JSXElement"@.len() != "Declaration"@.len());
    reveal_strlit("Pat");
    assert("JSXElement"@.len() != "Pat"@.len());
    reveal_strlit("Pattern");
    assert("JSXElement"@.len() != "Pattern"@.len());
    reveal_strlit("Lit");
    assert("JSXElement"@.len() != "Lit"@.len());
    reveal_strlit("Literal");
    assert("JSXElement"@.len() != "Literal"@.len());
    reveal_strlit("MemberExpression");
    assert("JSXElement"@.len() != "MemberExpression"@.len());
    reveal_strlit("CallExpression");
    assert("JSXElement"@.len() != "CallExpression"@.len());
    reveal_strlit("Identifier");
    assert("JSXElement"@[0] != "Identifier"@[0]);
    reveal_strlit("BinaryExpression");
    assert("JSXElement"@.len() != "BinaryExpression"@.len());
    reveal_strlit("UnaryExpression");
    assert("JSXElement"@.len() != "UnaryExpression"@.len());
    reveal_strlit("AssignmentExpression");
    assert("JSXElement"@.len() != "AssignmentExpression"@.len());
    reveal_strlit("ArrayExpression");
    assert("JSXElement"@.len() != "ArrayExpression"@.len());
    reveal_strlit("ObjectExpression");
    assert("JSXElement"@.len() != "ObjectExpression"@.len());
    reveal_strlit("FunctionExpression");
    assert("JSXElement"@.len() != "FunctionExpression"@.len());
    reveal_strlit("ArrowFunctionExpression");
    assert("JSXElement"@.len() != "ArrowFunctionExpression"@.len());
    reveal_strlit("BlockStatement");
    assert("JSXElement"@.len() != "BlockStatement"@.len());
    reveal_strlit("ReturnStatement");
    assert("JSXElement"@.len() != "ReturnStatement"@.len());
    reveal_strlit("IfStatement");
    assert("JSXElement"@.len() != "IfStatement"@.len());
    reveal_strlit("WhileStatement");
    assert("JSXElement"@.len() != "WhileStatement"@.len());
    reveal_strlit("ForStatement");
    assert("JSXElement"@.len() != "ForStatement"@.len());
    reveal_strlit("ExpressionStatement");
    assert("JSXElement"@.len() != "ExpressionStatement"@.len());
    reveal_strlit("FunctionDeclaration");
    assert("JSXElement"@.len() != "FunctionDeclaration"@.len());
    reveal_strlit("VariableDeclaration");
    assert("JSXElement"@.len() != "VariableDeclaration"@.len());
    reveal_strlit("ClassDeclaration");
    assert("JSXElement"@.len() != "ClassDeclaration"@.len());
    reveal_strlit("StringLiteral");
    assert("JSXElement"@.len() != "StringLiteral"@.len());
    reveal_strlit("NumericLiteral");
    assert("JSXElement"@.len() != "NumericLiteral"@.len());
    reveal_strlit("BooleanLiteral");
    assert("JSXElement"@.len() != "BooleanLiteral"@.len());
    reveal_strlit("NullLiteral");
    assert("JSXElement"@.len() != "NullLiteral"@.len());
}

proof fn lemma_type_row_19()
    ensures
        swc_mapping("JSXAttribute"@).0 == "JSXAttr"@,
{
    reveal_strlit("JSXAttribute");
    reveal_strlit("JSXAttr");
    reveal_strlit("Expr");
    assert("JSXAttribute"@.len() != "Expr"@.len());
    reveal_strlit("Expression");
    assert("JSXAttribute"@.len() != "Expression"@.len());
    reveal_strlit("Stmt");
    assert("JSXAttribute"@.len() != "Stmt"@.len());
    reveal_strlit("Statement");
    assert("JSXAttribute"@.len() != "Statement"@.len());
    reveal_strlit("Decl");
    assert("JSXAttribute"@.len() != "Decl"@.len());
    reveal_strlit("Declaration");
    assert("JSXAttribute"@.len() != "Declaration"@.len());
    reveal_strlit("Pat");
    assert("JSXAttribute"@.len() != "Pat"@.len());
    reveal_strlit("Pattern");
    assert("JSXAttribute"@.len() != "Pattern"@.len());
    reveal_strlit("Lit");
    assert("JSXAttribute"@.len() != "Lit"@.len());
    reveal_strlit("Literal");
    assert("JSXAttribute"@.len() != "Literal"@.len());
    reveal_strlit("MemberExpression");
    assert("JSXAttribute"@.len() != "MemberExpression"@.len());
    reveal_strlit("CallExpression");
    assert("JSXAttribute"@.len() != "CallExpression"@.len());
    reveal_strlit("Identifier");
    assert("JSXAttribute"@.len() != "Identifier"@.len());
    reveal_strlit("BinaryExpression");
    assert("JSXAttribute"@.len() != "BinaryExpression"@.len());
    reveal_strlit("UnaryExpression");
    assert("JSXAttribute"@.len() != "UnaryExpression"@.len());
    reveal_strlit("AssignmentExpression");
    assert("JSXAttribute"@.len() != "AssignmentExpression"@.len());
    reveal_strlit("ArrayExpression");
    assert("JSXAttribute"@.len() != "ArrayExpression"@.len());
    reveal_strlit("ObjectExpression");
    assert("JSXAttribute"@.len() != "ObjectExpression"@.len());
    reveal_strlit("FunctionExpression");
    assert("JSXAttribute"@.len() != "FunctionExpression"@.len());
    reveal_strlit("ArrowFunctionExpression");
    assert("JSXAttribute"@.len() != "ArrowFunctionExpression"@.len());
    reveal_strlit("BlockStatement");
    assert("JSXAttribute"@.len() != "BlockStatement"@.len());
    reveal_strlit("ReturnStatement");
    assert("JSXAttribute"@.len() != "ReturnStatement"@.len());
    reveal_strlit("IfStatement");
    assert("JSXAttribute"@.len() != "IfStatement"@.len());
    reveal_strlit("WhileStatement");
    assert("JSXAttribute"@.len() != "WhileStatement"@.len());
    reveal_strlit("ForStatement");
    assert("JSXAttribute"@[0] != "ForStatement"@[0]);
    reveal_strlit("ExpressionStatement");
    assert("JSXAttribute"@.len() != "ExpressionStatement"@.len());
    reveal_strlit("FunctionDeclaration");
    assert("JSXAttribute"@.len() != "FunctionDeclaration"@.len());
    reveal_strlit("VariableDeclaration");
    assert("JSXAttribute"@.len() != "VariableDeclaration"@.len());
    reveal_strlit("ClassDeclaration");
    assert("JSXAttribute"@.len() != "ClassDeclaration"@.len());
    reveal_strlit("StringLiteral");
    assert("JSXAttribute"@.len() != "StringLiteral"@.len());
    reveal_strlit("NumericLiteral");
    assert("JSXAttribute"@.len() != "NumericLiteral"@.len());
    reveal_strlit("BooleanLiteral");
    assert("JSXAttribute"@.len() != "BooleanLiteral"@.len());
    reveal_strlit("NullLiteral");
    assert("JSXAttribute"@.len() != "NullLiteral"@.len());
    reveal_strlit("JSXElement");
    assert("JSXAttribute"@.len() != "JSXElement"@.len());
}

proof fn lemma_type_row_20()
    ensures
        swc_mapping("JSXExpressionContainer"@).0 == "JSXExprContainer"@,
{
    reveal_strlit("JSXExpressionContainer");
    reveal_strlit("JSXExprContainer");
    reveal_strlit("Expr");
    assert("JSXExpressionContainer"@.len() != "Expr"@.len());
    reveal_strlit("Expression");
    assert("JSXExpressionContainer"@.len() != "Expression"@.len());
    reveal_strlit("Stmt");
    assert("JSXExpressionContainer"@.len() != "Stmt"@.len());
    reveal_strlit("Statement");
    assert("JSXExpressionContainer"@.len() != "Statement"@.len());
    reveal_strlit("Decl");
    assert("JSXExpressionContainer"@.len() != "Decl"@.len());
    reveal_strlit("Declaration");
    assert("JSXExpressionContainer"@.len() != "Declaration"@.len());
    reveal_strlit("Pat");
    assert("JSXExpressionContainer"@.len() != "Pat"@.len());
    reveal_strlit("Pattern");
    assert("JSXExpressionContainer"@.len() != "Pattern"@.len());
    reveal_strlit("Lit");
    assert("JSXExpressionContainer"@.len() != "Lit"@.len());
    reveal_strlit("Literal");
    assert("JSXExpressionContainer"@.len() != "Literal"@.len());
    reveal_strlit("MemberExpression");
    assert("JSXExpressionContainer"@.len() != "MemberExpression"@.len());
    reveal_strlit("CallExpression");
    assert("JSXExpressionContainer"@.len() != "CallExpression"@.len());
    reveal_strlit("Identifier");
    assert("JSXExpressionContainer"@.len() != "Identifier"@.len());
    reveal_strlit("BinaryExpression");
    assert("JSXExpressionContainer"@.len() != "BinaryExpression"@.len());
    reveal_strlit("UnaryExpression");
    assert("JSXExpressionContainer"@.len() != "UnaryExpression"@.len());
    reveal_strlit("AssignmentExpression");
    assert("JSXExpressionContainer"@.len() != "AssignmentExpression"@.len());
    reveal_strlit("ArrayExpression");
    assert("JSXExpressionContainer"@.len() != "ArrayExpression"@.len());
    reveal_strlit("ObjectExpression");
    assert("JSXExpressionContainer"@.len() != "ObjectExpression"@.len());
    reveal_strlit("FunctionExpression");
    assert("JSXExpressionContainer"@.len() != "FunctionExpression"@.len());
    reveal_strlit("ArrowFunctionExpression");
    assert("JSXExpressionContainer"@.len() != "ArrowFunctionExpression"@.len());
    reveal_strlit("BlockStatement");
    assert("JSXExpressionContainer"@.len() != "BlockStatement"@.len());
    reveal_strlit("ReturnStatement");
    assert("JSXExpressionContainer"@.len() != "ReturnStatement"@.len());
    reveal_strlit("IfStatement");
    assert("JSXExpressionContainer"@.len() != "IfStatement"@.len());
    reveal_strlit("WhileStatement");
    assert("JSXExpressionContainer"@.len() != "WhileStatement"@.len());
    reveal_strlit("ForStatement");
    assert("JSXExpressionContainer"@.len() != "ForStatement"@.len());
    reveal_strlit("ExpressionStatement");
    assert("JSXExpressionContainer"@.len() != "ExpressionStatement"@.len());
    reveal_strlit("FunctionDeclaration");
    assert("JSXExpressionContainer"@.len() != "FunctionDeclaration"@.len());
    reveal_strlit("VariableDeclaration");
    assert("JSXExpressionContainer"@.len() != "VariableDeclaration"@.len());
    reveal_strlit("ClassDeclaration");
    assert("JSXExpressionContainer"@.len() != "ClassDeclaration"@.len());
    reveal_strlit("StringLiteral");
    assert("JSXExpressionContainer"@.len() != "StringLiteral"@.len());
    reveal_strlit("NumericLiteral");
    assert("JSXExpressionContainer"@.len() != "NumericLiteral"@.len());
    reveal_strlit("BooleanLiteral");
    assert("JSXExpressionContainer"@.len() != "BooleanLiteral"@.len());
    reveal_strlit("NullLiteral");
    assert("JSXExpressionContainer"@.len() != "NullLiteral"@.len());
    reveal_strlit("JSXElement");
    assert("JSXExpressionContainer"@.len() != "JSXElement"@.len());
    reveal_strlit("JSXAttribute");
    assert("JSXExpressionContainer"@.len() != "JSXAttribute"@.len());
}

proof fn lemma_type_row_21()
    ensures
        swc_mapping("JSXText"@).0 == "JSXText"@,
{
    reveal_strlit("JSXText");
    reveal_strlit("JSXText");
    reveal_strlit("Expr");
    assert("JSXText"@.len() != "Expr"@.len());
    reveal_strlit("Expression");
    assert("JSXText"@.len() != "Expression"@.len());
    reveal_strlit("Stmt");
    assert("JSXText"@.len() != "Stmt"@.len());
    reveal_strlit("Statement");
    assert("JSXText"@.len() != "Statement"@.len());
    reveal_strlit("Decl");
    assert("JSXText"@.len() != "Decl"@.len());
    reveal_strlit("Declaration");
    assert("JSXText"@.len() != "Declaration"@.len());
    reveal_strlit("Pat");
    assert("JSXText"@.len() != "Pat"@.len());
    reveal_strlit("Pattern");
    assert("JSXText"@[0] != "Pattern"@[0]);
    reveal_strlit("Lit");
    assert("JSXText"@.len() != "Lit"@.len());
    reveal_strlit("Literal");
    assert("JSXText"@[0] != "Literal"@[0]);
    reveal_strlit("MemberExpression");
    assert("JSXText"@.len() != "MemberExpression"@.len());
    reveal_strlit("CallExpression");
    assert("JSXText"@.len() != "CallExpression"@.len());
    reveal_strlit("Identifier");
    assert("JSXText"@.len() != "Identifier"@.len());
    reveal_strlit("BinaryExpression");
    assert("JSXText"@.len() != "BinaryExpression"@.len());
    reveal_strlit("UnaryExpression");
    assert("JSXText"@.len() != "UnaryExpression"@.len());
    reveal_strlit("AssignmentExpression");
    assert("JSXText"@.len() != "AssignmentExpression"@.len());
    reveal_strlit("ArrayExpression");
    assert("JSXText"@.len() != "ArrayExpression"@.len());
    reveal_strlit("ObjectExpression");
    assert("JSXText"@.len() != "ObjectExpression"@.len());
    reveal_strlit("FunctionExpression");
    assert("JSXText"@.len() != "FunctionExpression"@.len());
    reveal_strlit("ArrowFunctionExpression");
    assert("JSXText"@.len() != "ArrowFunctionExpression"@.len());
    reveal_strlit("BlockStatement");
    assert("JSXText"@.len() != "BlockStatement"@.len());
    reveal_strlit("ReturnStatement");
    assert("JSXText"@.len() != "ReturnStatement"@.len());
    reveal_strlit("IfStatement");
    assert("JSXText"@.len() != "IfStatement"@.len());
    reveal_strlit("WhileStatement");
    assert("JSXText"@.len() != "WhileStatement"@.len());
    reveal_strlit("ForStatement");
    assert("JSXText"@.len() != "ForStatement"@.len());
    reveal_strlit("ExpressionStatement");
    assert("JSXText"@.len() != "ExpressionStatement"@.len());
    reveal_strlit("FunctionDeclaration");
    assert("JSXText"@.len() != "FunctionDeclaration"@.len());
    reveal_strlit("VariableDeclaration");
    assert("JSXText"@.len() != "VariableDeclaration"@.len());
    reveal_strlit("ClassDeclaration");
    assert("JSXText"@.len() != "ClassDeclaration"@.len());
    reveal_strlit("StringLiteral");
    assert("JSXText"@.len() != "StringLiteral"@.len());
    reveal_strlit("NumericLiteral");
    assert("JSXText"@.len() != "NumericLiteral"@.len());
    reveal_strlit("BooleanLiteral");
    assert("JSXText"@.len() != "BooleanLiteral"@.len());
    reveal_strlit("NullLiteral");
    assert("JSXText"@.len() != "NullLiteral"@.len());
    reveal_strlit("JSXElement");
    assert("JSXText"@.len() != "JSXElement"@.len());
    reveal_strlit("JSXAttribute");
    assert("JSXText"@.len() != "JSXAttribute"@.len());
    reveal_strlit("JSXExpressionContainer");
    assert("JSXText"@.len() != "JSXExpressionContainer"@.len());
}

proof fn lemma_type_row_22()
    ensures
        swc_mapping("TSInterfaceDeclaration"@).0 == "TsInterfaceDecl"@,
{
    reveal_strlit("TSInterfaceDeclaration");
    reveal_strlit("TsInterfaceDecl");
    reveal_strlit("Expr");
    assert("TSInterfaceDeclaration"@.len() != "Expr"@.len());
    reveal_strlit("Expression");
    assert("TSInterfaceDeclaration"@.len() != "Expression"@.len());
    reveal_strlit("Stmt");
    assert("TSInterfaceDeclaration"@.len() != "Stmt"@.len());
    reveal_strlit("Statement");
    assert("TSInterfaceDeclaration"@.len() != "Statement"@.len());
    reveal_strlit("Decl");
    assert("TSInterfaceDeclaration"@.len() != "Decl"@.len());
    reveal_strlit("Declaration");
    assert("TSInterfaceDeclaration"@.len() != "Declaration"@.len());
    reveal_strlit("Pat");
    assert("TSInterfaceDeclaration"@.len() != "Pat"@.len());
    reveal_strlit("Pattern");
    assert("TSInterfaceDeclaration"@.len() != "Pattern"@.len());
    reveal_strlit("Lit");
    assert("TSInterfaceDeclaration"@.len() != "Lit"@.len());
    reveal_strlit("Literal");
    assert("TSInterfaceDeclaration"@.len() != "Literal"@.len());
    reveal_strlit("MemberExpression");
    assert("TSInterfaceDeclaration"@.len() != "MemberExpression"@.len());
    reveal_strlit("CallExpression");
    assert("TSInterfaceDeclaration"@.len() != "CallExpression"@.len());
    reveal_strlit("Identifier");
    assert("TSInterfaceDeclaration"@.len() != "Identifier"@.len());
    reveal_strlit("BinaryExpression");
    assert("TSInterfaceDeclaration"@.len() != "BinaryExpression"@.len());
    reveal_strlit("UnaryExpression");
    assert("TSInterfaceDeclaration"@.len() != "UnaryExpression"@.len());
    reveal_strlit("AssignmentExpression");
    assert("TSInterfaceDeclaration"@.len() != "AssignmentExpression"@.len());
    reveal_strlit("ArrayExpression");
    assert("TSInterfaceDeclaration"@.len() != "ArrayExpression"@.len());
    reveal_strlit("ObjectExpression");
    assert("TSInterfaceDeclaration"@.len() != "ObjectExpression"@.len());
    reveal_strlit("FunctionExpression");
    assert("TSInterfaceDeclaration"@.len() != "FunctionExpression"@.len());
    reveal_strlit("ArrowFunctionExpression");
    assert("TSInterfaceDeclaration"@.len() != "ArrowFunctionExpression"@.len());
    reveal_strlit("BlockStatement");
    assert("TSInterfaceDeclaration"@.len() != "BlockStatement"@.len());
    reveal_strlit("ReturnStatement");
    assert("TSInterfaceDeclaration"@.len() != "ReturnStatement"@.len());
    reveal_strlit("IfStatement");
    assert("TSInterfaceDeclaration"@.len() != "IfStatement"@.len());
    reveal_strlit("WhileStatement");
    assert("TSInterfaceDeclaration"@.len() != "WhileStatement"@.len());
    reveal_strlit("ForStatement");
    assert("TSInterfaceDeclaration"@.len() != "ForStatement"@.len());
    reveal_strlit("ExpressionStatement");
    assert("TSInterfaceDeclaration"@.len() != "ExpressionStatement"@.len());
    reveal_strlit("FunctionDeclaration");
    assert("TSInterfaceDeclaration"@.len() != "FunctionDeclaration"@.len());
    reveal_strlit("VariableDeclaration");
    assert("TSInterfaceDeclaration"@.len() != "VariableDeclaration"@.len());
    reveal_strlit("ClassDeclaration");
    assert("TSInterfaceDeclaration"@.len() != "ClassDeclaration"@.len());
    reveal_strlit("StringLiteral");
    assert("TSInterfaceDeclaration"@.len() != "StringLiteral"@.len());
    reveal_strlit("NumericLiteral");
    assert("TSInterfaceDeclaration"@.len() != "NumericLiteral"@.len());
    reveal_strlit("BooleanLiteral");
    assert("TSInterfaceDeclaration"@.len() != "BooleanLiteral"@.len());
    reveal_strlit("NullLiteral");
    assert("TSInterfaceDeclaration"@.len() != "NullLiteral"@.len());
    reveal_strlit("JSXElement");
    assert("TSInterfaceDeclaration"@.len() != "JSXElement"@.len());
    reveal_strlit("JSXAttribute");
    assert("TSInterfaceDeclaration"@.len() != "JSXAttribute"@.len());
    reveal_strlit("JSXExpressionContainer");
    assert("TSInterfaceDeclaration"@[0] != "JSXExpressionContainer"@[0]);
    reveal_strlit("JSXText");
    assert("TSInterfaceDeclaration"@.len() != "JSXText"@.len());
}

proof fn lemma_type_row_23()
    ensures
        swc_mapping("TSPropertySignature"@).0 == "TsPropertySignature"@,
{
    reveal_strlit("TSPropertySignature");
    reveal_strlit("TsPropertySignature");
    reveal_strlit("Expr");
    assert("TSPropertySignature"@.len() != "Expr"@.len());
    reveal_strlit("Expression");
    assert("TSPropertySignature"@.len() != "Expression"@.len());
    reveal_strlit("Stmt");
    assert("TSPropertySignature"@.len() != "Stmt"@.len());
    reveal_strlit("Statement");
    assert("TSPropertySignature"@.len() != "Statement"@.len());
    reveal_strlit("Decl");
    assert("TSPropertySignature"@.len() != "Decl"@.len());
    reveal_strlit("Declaration");
    assert("TSPropertySignature"@.len() != "Declaration"@.len());
    reveal_strlit("Pat");
    assert("TSPropertySignature"@.len() != "Pat"@.len());
    reveal_strlit("Pattern");
    assert("TSPropertySignature"@.len() != "Pattern"@.len());
    reveal_strlit("Lit");
    assert("TSPropertySignature"@.len() != "Lit"@.len());
    reveal_strlit("Literal");
    assert("TSPropertySignature"@.len() != "Literal"@.len());
    reveal_strlit("MemberExpression");
    assert("TSPropertySignature"@.len() != "MemberExpression"@.len());
    reveal_strlit("CallExpression");
    assert("TSPropertySignature"@.len() != "CallExpression"@.len());
    reveal_strlit("Identifier");
    assert("TSPropertySignature"@.len() != "Identifier"@.len());
    reveal_strlit("BinaryExpression");
    assert("TSPropertySignature"@.len() != "BinaryExpression"@.len());
    reveal_strlit("UnaryExpression");
    assert("TSPropertySignature"@.len() != "UnaryExpression"@.len());
    reveal_strlit("AssignmentExpression");
    assert("TSPropertySignature"@.len() != "AssignmentExpression"@.len());
    reveal_strlit("ArrayExpression");
    assert("TSPropertySignature"@.len() != "ArrayExpression"@.len());
    reveal_strlit("ObjectExpression");
    assert("TSPropertySignature"@.len() != "ObjectExpression"@.len());
    reveal_strlit("FunctionExpression");
    assert("TSPropertySignature"@.len() != "FunctionExpression"@.len());
    reveal_strlit("ArrowFunctionExpression");
    assert("TSPropertySignature"@.len() != "ArrowFunctionExpression"@.len());
    reveal_strlit("BlockStatement");
    assert("TSPropertySignature"@.len() != "BlockStatement"@.len());
    reveal_strlit("ReturnStatement");
    assert("TSPropertySignature"@.len() != "ReturnStatement"@.len());
    reveal_strlit("IfStatement");
    assert("TSPropertySignature"@.len() != "IfStatement"@.len());
    reveal_strlit("WhileStatement");
    assert("TSPropertySignature"@.len() != "WhileStatement"@.len());
    reveal_strlit("ForStatement");
    assert("TSPropertySignature"@.len() != "ForStatement"@.len());
    reveal_strlit("ExpressionStatement");
    assert("TSPropertySignature"@[0] != "ExpressionStatement"@[0]);
    reveal_strlit("FunctionDeclaration");
    assert("TSPropertySignature"@[0] != "FunctionDeclaration"@[0]);
    reveal_strlit("VariableDeclaration");
    assert("TSPropertySignature"@[0] != "VariableDeclaration"@[0]);
    reveal_strlit("ClassDeclaration");
    assert("TSPropertySignature"@.len() != "ClassDeclaration"@.len());
    reveal_strlit("StringLiteral");
    assert("TSPropertySignature"@.len() != "StringLiteral"@.len());
    reveal_strlit("NumericLiteral");
    assert("TSPropertySignature"@.len() != "NumericLiteral"@.len());
    reveal_strlit("BooleanLiteral");
    assert("TSPropertySignature"@.len() != "BooleanLiteral"@.len());
    reveal_strlit("NullLiteral");
    assert("TSPropertySignature"@.len() != "NullLiteral"@.len());
    reveal_strlit("JSXElement");
    assert("TSPropertySignature"@.len() != "JSXElement"@.len());
    reveal_strlit("JSXAttribute");
    assert("TSPropertySignature"@.len() != "JSXAttribute"@.len());
    reveal_strlit("JSXExpressionContainer");
    assert("TSPropertySignature"@.len() != "JSXExpressionContainer"@.len());
    reveal_strlit("JSXText");
    assert("TSPropertySignature"@.len() != "JSXText"@.len());
    reveal_strlit("TSInterfaceDeclaration");
    assert("TSPropertySignature"@.len() != "TSInterfaceDeclaration"@.len());
}

proof fn lemma_type_row_24()
    ensures
        swc_mapping("TSMethodSignature"@).0 == "TsMethodSignature"@,
{
    reveal_strlit("TSMethodSignature");
    reveal_strlit("TsMethodSignature");
    reveal_strlit("Expr");
    assert("TSMethodSignature"@.len() != "Expr"@.len());
    reveal_strlit("Expression");
    assert("TSMethodSignature"@.len() != "Expression"@.len());
    reveal_strlit("Stmt");
    assert("TSMethodSignature"@.len() != "Stmt"@.len());
    reveal_strlit("Statement");
    assert("TSMethodSignature"@.len() != "Statement"@.len());
    reveal_strlit("Decl");
    assert("TSMethodSignature"@.len() != "Decl"@.len());
    reveal_strlit("Declaration");
    assert("TSMethodSignature"@.len() != "Declaration"@.len());
    reveal_strlit("Pat");
    assert("TSMethodSignature"@.len() != "Pat"@.len());
    reveal_strlit("Pattern");
    assert("TSMethodSignature"@.len() != "Pattern"@.len());
    reveal_strlit("Lit");
    assert("TSMethodSignature"@.len() != "Lit"@.len());
    reveal_strlit("Literal");
    assert("TSMethodSignature"@.len() != "Literal"@.len());
    reveal_strlit("MemberExpression");
    assert("TSMethodSignature"@.len() != "MemberExpression"@.len());
    reveal_strlit("CallExpression");
    assert("TSMethodSignature"@.len() != "CallExpression"@.len());
    reveal_strlit("Identifier");
    assert("TSMethodSignature"@.len() != "Identifier"@.len());
    reveal_strlit("BinaryExpression");
    assert("TSMethodSignature"@.len() != "BinaryExpression"@.len());
    reveal_strlit("UnaryExpression");
    assert("TSMethodSignature"@.len() != "UnaryExpression"@.len());
    reveal_strlit("AssignmentExpression");
    assert("TSMethodSignature"@.len() != "AssignmentExpression"@.len());
    reveal_strlit("ArrayExpression");
    assert("TSMethodSignature"@.len() != "ArrayExpression"@.len());
    reveal_strlit("ObjectExpression");
    assert("TSMethodSignature"@.len() != "ObjectExpression"@.len());
    reveal_strlit("FunctionExpression");
    assert("TSMethodSignature"@.len() != "FunctionExpression"@.len());
    reveal_strlit("ArrowFunctionExpression");
    assert("TSMethodSignature"@.len() != "ArrowFunctionExpression"@.len());
    reveal_strlit("BlockStatement");
    assert("TSMethodSignature"@.len() != "BlockStatement"@.len());
    reveal_strlit("ReturnStatement");
    assert("TSMethodSignature"@.len() != "ReturnStatement"@.len());
    reveal_strlit("IfStatement");
    assert("TSMethodSignature"@.len() != "IfStatement"@.len());
    reveal_strlit("WhileStatement");
    assert("TSMethodSignature"@.len() != "WhileStatement"@.len());
    reveal_strlit("ForStatement");
    assert("TSMethodSignature"@.len() != "ForStatement"@.len());
    reveal_strlit("ExpressionStatement");
    assert("TSMethodSignature"@.len() != "ExpressionStatement"@.len());
    reveal_strlit("FunctionDeclaration");
    assert("TSMethodSignature"@.len() != "FunctionDeclaration"@.len());
    reveal_strlit("VariableDeclaration");
    assert("TSMethodSignature"@.len() != "VariableDeclaration"@.len());
    reveal_strlit("ClassDeclaration");
    assert("TSMethodSignature"@.len() != "ClassDeclaration"@.len());
    reveal_strlit("StringLiteral");
    assert("TSMethodSignature"@.len() != "StringLiteral"@.len());
    reveal_strlit("NumericLiteral");
    assert("TSMethodSignature"@.len() != "NumericLiteral"@.len());
    reveal_strlit("BooleanLiteral");
    assert("TSMethodSignature"@.len() != "BooleanLiteral"@.len());
    reveal_strlit("NullLiteral");
    assert("TSMethodSignature"@.len() != "NullLiteral"@.len());
    reveal_strlit("JSXElement");
    assert("TSMethodSignature"@.len() != "JSXElement"@.len());
    reveal_strlit("JSXAttribute");
    assert("TSMethodSignature"@.len() != "JSXAttribute"@.len());
    reveal_strlit("JSXExpressionContainer");
    assert("TSMethodSignature"@.len() != "JSXExpressionContainer"@.len());
    reveal_strlit("JSXText");
    assert("TSMethodSignature"@.len() != "JSXText"@.len());
    reveal_strlit("TSInterfaceDeclaration");
    assert("TSMethodSignature"@.len() != "TSInterfaceDeclaration"@.len());
    reveal_strlit("TSPropertySignature");
    assert("TSMethodSignature"@.len() != "TSPropertySignature"@.len());
}

proof fn lemma_type_row_25()
    ensures
        swc_mapping("TSTypeReference"@).0 == "TsTypeRef"@,
{
    reveal_strlit("TSTypeReference");
    reveal_strlit("TsTypeRef");
    reveal_strlit("Expr");
    assert("TSTypeReference"@.len() != "Expr"@.len());
    reveal_strlit("Expression");
    assert("TSTypeReference"@.len() != "Expression"@.len());
    reveal_strlit("Stmt");
    assert("TSTypeReference"@.len() != "Stmt"@.len());
    reveal_strlit("Statement");
    assert("TSTypeReference"@.len() != "Statement"@.len());
    reveal_strlit("Decl");
    assert("TSTypeReference"@.len() != "Decl"@.len());
    reveal_strlit("Declaration");
    assert("TSTypeReference"@.len() != "Declaration"@.len());
    reveal_strlit("Pat");
    assert("TSTypeReference"@.len() != "Pat"@.len());
    reveal_strlit("Pattern");
    assert("TSTypeReference"@.len() != "Pattern"@.len());
    reveal_strlit("Lit");
    assert("TSTypeReference"@.len() != "Lit"@.len());
    reveal_strlit("Literal");
    assert("TSTypeReference"@.len() != "Literal"@.len());
    reveal_strlit("MemberExpression");
    assert("TSTypeReference"@.len() != "MemberExpression"@.len());
    reveal_strlit("CallExpression");
    assert("TSTypeReference"@.len() != "CallExpression"@.len());
    reveal_strlit("Identifier");
    assert("TSTypeReference"@.len() != "Identifier"@.len());
    reveal_strlit("BinaryExpression");
    assert("TSTypeReference"@.len() != "BinaryExpression"@.len());
    reveal_strlit("UnaryExpression");
    assert("TSTypeReference"@[0] != "UnaryExpression"@[0]);
    reveal_strlit("AssignmentExpression");
    assert("TSTypeReference"@.len() != "AssignmentExpression"@.len());
    reveal_strlit("ArrayExpression");
    assert("TSTypeReference"@[0] != "ArrayExpression"@[0]);
    reveal_strlit("ObjectExpression");
    assert("TSTypeReference"@.len() != "ObjectExpression"@.len());
    reveal_strlit("FunctionExpression");
    assert("TSTypeReference"@.len() != "FunctionExpression"@.len());
    reveal_strlit("ArrowFunctionExpression");
    assert("TSTypeReference"@.len() != "ArrowFunctionExpression"@.len());
    reveal_strlit("BlockStatement");
    assert("TSTypeReference"@.len() != "BlockStatement"@.len());
    reveal_strlit("ReturnStatement");
    assert("TSTypeReference"@[0] != "ReturnStatement"@[0]);
    reveal_strlit("IfStatement");
    assert("TSTypeReference"@.len() != "IfStatement"@.len());
    reveal_strlit("WhileStatement");
    assert("TSTypeReference"@.len() != "WhileStatement"@.len());
    reveal_strlit("ForStatement");
    assert("TSTypeReference"@.len() != "ForStatement"@.len());
    reveal_strlit("ExpressionStatement");
    assert("TSTypeReference"@.len() != "ExpressionStatement"@.len());
    reveal_strlit("FunctionDeclaration");
    assert("TSTypeReference"@.len() != "FunctionDeclaration"@.len());
    reveal_strlit("VariableDeclaration");
    assert("TSTypeReference"@.len() != "VariableDeclaration"@.len());
    reveal_strlit("ClassDeclaration");
    assert("TSTypeReference"@.len() != "ClassDeclaration"@.len());
    reveal_strlit("StringLiteral");
    assert("TSTypeReference"@.len() != "StringLiteral"@.len());
    reveal_strlit("NumericLiteral");
    assert("TSTypeReference"@.len() != "NumericLiteral"@.len());
    reveal_strlit("BooleanLiteral");
    assert("TSTypeReference"@.len() != "BooleanLiteral"@.len());
    reveal_strlit("NullLiteral");
    assert("TSTypeReference"@.len() != "NullLiteral"@.len());
    reveal_strlit("JSXElement");
    assert("TSTypeReference"@.len() != "JSXElement"@.len());
    reveal_strlit("JSXAttribute");
    assert("TSTypeReference"@.len() != "JSXAttribute"@.len());
    reveal_strlit("JSXExpressionContainer");
    assert("TSTypeReference"@.len() != "JSXExpressionContainer"@.len());
    reveal_strlit("JSXText");
    assert("TSTypeReference"@.len() != "JSXText"@.len());
    reveal_strlit("TSInterfaceDeclaration");
    assert("TSTypeReference"@.len() != "TSInterfaceDeclaration"@.len());
    reveal_strlit("TSPropertySignature");
    assert("TSTypeReference"@.len() != "TSPropertySignature"@.len());
    reveal_strlit("TSMethodSignature");
    assert("TSTypeReference"@.len() != "TSMethodSignature"@.len());
}

proof fn lemma_type_row_26()
    ensures
        swc_mapping("TSTypeAnnotation"@).0 == "TsTypeAnn"@,
{
    reveal_strlit("TSTypeAnnotation");
    reveal_strlit("TsTypeAnn");
    reveal_strlit("Expr");
    assert("TSTypeAnnotation"@.len() != "Expr"@.len());
    reveal_strlit("Expression");
    assert("TSTypeAnnotation"@.len() != "Expression"@.len());
    reveal_strlit("Stmt");
    assert("TSTypeAnnotation"@.len() != "Stmt"@.len());
    reveal_strlit("Statement");
    assert("TSTypeAnnotation"@.len() != "Statement"@.len());
    reveal_strlit("Decl");
    assert("TSTypeAnnotation"@.len() != "Decl"@.len());
    reveal_strlit("Declaration");
    assert("TSTypeAnnotation"@.len() != "Declaration"@.len());
    reveal_strlit("Pat");
    assert("TSTypeAnnotation"@.len() != "Pat"@.len());
    reveal_strlit("Pattern");
    assert("TSTypeAnnotation"@.len() != "Pattern"@.len());
    reveal_strlit("Lit");
    assert("TSTypeAnnotation"@.len() != "Lit"@.len());
    reveal_strlit("Literal");
    assert("TSTypeAnnotation"@.len() != "Literal"@.len());
    reveal_strlit("MemberExpression");
    assert("TSTypeAnnotation"@[0] != "MemberExpression"@[0]);
    reveal_strlit("CallExpression");
    assert("TSTypeAnnotation"@.len() != "CallExpression"@.len());
    reveal_strlit("Identifier");
    assert("TSTypeAnnotation"@.len() != "Identifier"@.len());
    reveal_strlit("BinaryExpression");
    assert("TSTypeAnnotation"@[0] != "BinaryExpression"@[0]);
    reveal_strlit("UnaryExpression");
    assert("TSTypeAnnotation"@.len() != "UnaryExpression"@.len());
    reveal_strlit("AssignmentExpression");
    assert("TSTypeAnnotation"@.len() != "AssignmentExpression"@.len());
    reveal_strlit("ArrayExpression");
    assert("TSTypeAnnotation"@.len() != "ArrayExpression"@.len());
    reveal_strlit("ObjectExpression");
    assert("TSTypeAnnotation"@[0] != "ObjectExpression"@[0]);
    reveal_strlit("FunctionExpression");
    assert("TSTypeAnnotation"@.len() != "FunctionExpression"@.len());
    reveal_strlit("ArrowFunctionExpression");
    assert("TSTypeAnnotation"@.len() != "ArrowFunctionExpression"@.len());
    reveal_strlit("BlockStatement");
    assert("TSTypeAnnotation"@.len() != "BlockStatement"@.len());
    reveal_strlit("ReturnStatement");
    assert("TSTypeAnnotation"@.len() != "ReturnStatement"@.len());
    reveal_strlit("IfStatement");
    assert("TSTypeAnnotation"@.len() != "IfStatement"@.len());
    reveal_strlit("WhileStatement");
    assert("TSTypeAnnotation"@.len() != "WhileStatement"@.len());
    reveal_strlit("ForStatement");
    assert("TSTypeAnnotation"@.len() != "ForStatement"@.len());
    reveal_strlit("ExpressionStatement");
    assert("TSTypeAnnotation"@.len() != "ExpressionStatement"@.len());
    reveal_strlit("FunctionDeclaration");
    assert("TSTypeAnnotation"@.len() != "FunctionDeclaration"@.len());
    reveal_strlit("VariableDeclaration");
    assert("TSTypeAnnotation"@.len() != "VariableDeclaration"@.len());
    reveal_strlit("ClassDeclaration");
    assert("TSTypeAnnotation"@[0] != "ClassDeclaration"@[0]);
    reveal_strlit("StringLiteral");
    assert("TSTypeAnnotation"@.len() != "StringLiteral"@.len());
    reveal_strlit("NumericLiteral");
    assert("TSTypeAnnotation"@.len() != "NumericLiteral"@.len());
    reveal_strlit("BooleanLiteral");
    assert("TSTypeAnnotation"@.len() != "BooleanLiteral"@.len());
    reveal_strlit("NullLiteral");
    assert("TSTypeAnnotation"@.len() != "NullLiteral"@.len());
    reveal_strlit("JSXElement");
    assert("TSTypeAnnotation"@.len() != "JSXElement"@.len());
    reveal_strlit("JSXAttribute");
    assert("TSTypeAnnotation"@.len() != "JSXAttribute"@.len());
    reveal_strlit("JSXExpressionContainer");
    assert("TSTypeAnnotation"@.len() != "JSXExpressionContainer"@.len());
    reveal_strlit("JSXText");
    assert("TSTypeAnnotation"@.len() != "JSXText"@.len());
    reveal_strlit("TSInterfaceDeclaration");
    assert("TSTypeAnnotation"@.len() != "TSInterfaceDeclaration"@.len());
    reveal_strlit("TSPropertySignature");
    assert("TSTypeAnnotation"@.len() != "TSPropertySignature"@.len());
    reveal_strlit("TSMethodSignature");
    assert("TSTypeAnnotation"@.len() != "TSMethodSignature"@.len());
    reveal_strlit("TSTypeReference");
    assert("TSTypeAnnotation"@.len() != "TSTypeReference"@.len());
}

proof fn lemma_type_row_27()
    ensures
        swc_mapping("TSTypeAliasDeclaration"@).0 == "TsTypeAliasDecl"@,
{
    reveal_strlit("TSTypeAliasDeclaration");
    reveal_strlit("TsTypeAliasDecl");
    reveal_strlit("Expr");
    assert("TSTypeAliasDeclaration"@.len() != "Expr"@.len());
    reveal_strlit("Expression");
    assert("TSTypeAliasDeclaration"@.len() != "Expression"@.len());
    reveal_strlit("Stmt");
    assert("TSTypeAliasDeclaration"@.len() != "Stmt"@.len());
    reveal_strlit("Statement");
    assert("TSTypeAliasDeclaration"@.len() != "Statement"@.len());
    reveal_strlit("Decl");
    assert("TSTypeAliasDeclaration"@.len() != "Decl"@.len());
    reveal_strlit("Declaration");
    assert("TSTypeAliasDeclaration"@.len() != "Declaration"@.len());
    reveal_strlit("Pat");
    assert("TSTypeAliasDeclaration"@.len() != "Pat"@.len());
    reveal_strlit("Pattern");
    assert("TSTypeAliasDeclaration"@.len() != "Pattern"@.len());
    reveal_strlit("Lit");
    assert("TSTypeAliasDeclaration"@.len() != "Lit"@.len());
    reveal_strlit("Literal");
    assert("TSTypeAliasDeclaration"@.len() != "Literal"@.len());
    reveal_strlit("MemberExpression");
    assert("TSTypeAliasDeclaration"@.len() != "MemberExpression"@.len());
    reveal_strlit("CallExpression");
    assert("TSTypeAliasDeclaration"@.len() != "CallExpression"@.len());
    reveal_strlit("Identifier");
    assert("TSTypeAliasDeclaration"@.len() != "Identifier"@.len());
    reveal_strlit("BinaryExpression");
    assert("TSTypeAliasDeclaration"@.len() != "BinaryExpression"@.len());
    reveal_strlit("UnaryExpression");
    assert("TSTypeAliasDeclaration"@.len() != "UnaryExpression"@.len());
    reveal_strlit("AssignmentExpression");
    assert("TSTypeAliasDeclaration"@.len() != "AssignmentExpression"@.len());
    reveal_strlit("ArrayExpression");
    assert("TSTypeAliasDeclaration"@.len() != "ArrayExpression"@.len());
    reveal_strlit("ObjectExpression");
    assert("TSTypeAliasDeclaration"@.len() != "ObjectExpression"@.len());
    reveal_strlit("FunctionExpression");
    assert("TSTypeAliasDeclaration"@.len() != "FunctionExpression"@.len());
    reveal_strlit("ArrowFunctionExpression");
    assert("TSTypeAliasDeclaration"@.len() != "ArrowFunctionExpression"@.len());
    reveal_strlit("BlockStatement");
    assert("TSTypeAliasDeclaration"@.len() != "BlockStatement"@.len());
    reveal_strlit("ReturnStatement");
    assert("TSTypeAliasDeclaration"@.len() != "ReturnStatement"@.len());
    reveal_strlit("IfStatement");
    assert("TSTypeAliasDeclaration"@.len() != "IfStatement"@.len());
    reveal_strlit("WhileStatement");
    assert("TSTypeAliasDeclaration"@.len() != "WhileStatement"@.len());
    reveal_strlit("ForStatement");
    assert("TSTypeAliasDeclaration"@.len() != "ForStatement"@.len());
    reveal_strlit("ExpressionStatement");
    assert("TSTypeAliasDeclaration"@.len() != "ExpressionStatement"@.len());
    reveal_strlit("FunctionDeclaration");
    assert("TSTypeAliasDeclaration"@.len() != "FunctionDeclaration"@.len());
    reveal_strlit("VariableDeclaration");
    assert("TSTypeAliasDeclaration"@.len() != "VariableDeclaration"@.len());
    reveal_strlit("ClassDeclaration");
    assert("TSTypeAliasDeclaration"@.len() != "ClassDeclaration"@.len());
    reveal_strlit("StringLiteral");
    assert("TSTypeAliasDeclaration"@.len() != "StringLiteral"@.len());
    reveal_strlit("NumericLiteral");
    assert("TSTypeAliasDeclaration"@.len() != "NumericLiteral"@.len());
    reveal_strlit("BooleanLiteral");
    assert("TSTypeAliasDeclaration"@.len() != "BooleanLiteral"@.len());
    reveal_strlit("NullLiteral");
    assert("TSTypeAliasDeclaration"@.len() != "NullLiteral"@.len());
    reveal_strlit("JSXElement");
    assert("TSTypeAliasDeclaration"@.len() != "JSXElement"@.len());
    reveal_strlit("JSXAttribute");
    assert("TSTypeAliasDeclaration"@.len() != "JSXAttribute"@.len());
    reveal_strlit("JSXExpressionContainer");
    assert("TSTypeAliasDeclaration"@[0] != "JSXExpressionContainer"@[0]);
    reveal_strlit("JSXText");
    assert("TSTypeAliasDeclaration"@.len() != "JSXText"@.len());
    reveal_strlit("TSInterfaceDeclaration");
    assert("TSTypeAliasDeclaration"@[2] != "TSInterfaceDeclaration"@[2]);
    reveal_strlit("TSPropertySignature");
    assert("TSTypeAliasDeclaration"@.len() != "TSPropertySignature"@.len());
    reveal_strlit("TSMethodSignature");
    assert("TSTypeAliasDeclaration"@.len() != "TSMethodSignature"@.len());
    reveal_strlit("TSTypeReference");
    assert("TSTypeAliasDeclaration"@.len() != "TSTypeReference"@.len());
    reveal_strlit("TSTypeAnnotation");
    assert("TSTypeAliasDeclaration"@.len() != "TSTypeAnnotation"@.len());
}

/// The type mapping gives the SWC type of each row of the specification's
/// node mapping tables (JavaScript and TypeScript nodes).
pub proof fn law_type_mapping_follows_the_node_tables()
    ensures
        swc_mapping("Identifier"@).0 == "Ident"@,
        swc_mapping("CallExpression"@).0 == "CallExpr"@,
        swc_mapping("MemberExpression"@).0 == "MemberExpr"@,
        swc_mapping("BinaryExpression"@).0 == "BinExpr"@,
        swc_mapping("UnaryExpression"@).0 == "UnaryExpr"@,
        swc_mapping("StringLiteral"@).0 == "Str"@,
        swc_mapping("NumericLiteral"@).0 == "Number"@,
        swc_mapping("BooleanLiteral"@).0 == "Bool"@,
        swc_mapping("NullLiteral"@).0 == "Null"@,
        swc_mapping("ArrayExpression"@).0 == "ArrayLit"@,
        swc_mapping("ObjectExpression"@).0 == "ObjectLit"@,
        swc_mapping("ArrowFunctionExpression"@).0 == "ArrowExpr"@,
        swc_mapping("FunctionDeclaration"@).0 == "FnDecl"@,
        swc_mapping("VariableDeclaration"@).0 == "VarDecl"@,
        swc_mapping("IfStatement"@).0 == "IfStmt"@,
        swc_mapping("ReturnStatement"@).0 == "ReturnStmt"@,
        swc_mapping("BlockStatement"@).0 == "BlockStmt"@,
        swc_mapping("ExpressionStatement"@).0 == "ExprStmt"@,
        swc_mapping("JSXElement"@).0 == "JSXElement"@,
        swc_mapping("JSXAttribute"@).0 == "JSXAttr"@,
        swc_mapping("JSXExpressionContainer"@).0 == "JSXExprContainer"@,
        swc_mapping("JSXText"@).0 == "JSXText"@,
        swc_mapping("TSInterfaceDeclaration"@).0 == "TsInterfaceDecl"@,
        swc_mapping("TSPropertySignature"@).0 == "TsPropertySignature"@,
        swc_mapping("TSMethodSignature"@).0 == "TsMethodSignature"@,
        swc_mapping("TSTypeReference"@).0 == "TsTypeRef"@,
        swc_mapping("TSTypeAnnotation"@).0 == "TsTypeAnn"@,
        swc_mapping("TSTypeAliasDeclaration"@).0 == "TsTypeAliasDecl"@,
{
    lemma_type_row_0();
    lemma_type_row_1();
    lemma_type_row_2();
    lemma_type_row_3();
    lemma_type_row_4();
    lemma_type_row_5();
    lemma_type_row_6();
    lemma_type_row_7();
    lemma_type_row_8();
    lemma_type_row_9();
    lemma_type_row_10();
    lemma_type_row_11();
    lemma_type_row_12();
    lemma_type_row_13();
    lemma_type_row_14();
    lemma_type_row_15();
    lemma_type_row_16();
    lemma_type_row_17();
    lemma_type_row_18();
    lemma_type_row_19();
    lemma_type_row_20();
    lemma_type_row_21();
    lemma_type_row_22();
    lemma_type_row_23();
    lemma_type_row_24();
    lemma_type_row_25();
    lemma_type_row_26();
    lemma_type_row_27();
}

/// A name the variant table does not know maps to the unknown enum, with
/// the name itself as its variant and struct.
pub proof fn law_variant_unknown_falls_back(rs: Seq<char>)
    ensures
        swc_variant(rs).0 == "Unknown"@ ==> swc_variant(rs) == ("Unknown"@, rs, rs),
{
    reveal_strlit("Unknown");
    reveal_strlit("Expr");
    reveal_strlit("Lit");
    reveal_strlit("Stmt");
    reveal_strlit("Decl");
    assert("Unknown"@.len() != "Expr"@.len());
    assert("Unknown"@.len() != "Lit"@.len());
    assert("Unknown"@.len() != "Stmt"@.len());
    assert("Unknown"@.len() != "Decl"@.len());
}

} // verus!
