//! Semantic types, the type environment and semantic errors.

use vstd::prelude::*;
use crate::lexer::Span;
use crate::ast::Type;
use crate::strings::{str_eq, owned, joined};
use crate::nodes::{find_by_name, node_table, get_node_mapping};

verus! {

/// The type of a RustScript value as the semantic passes see it.
#[derive(Debug)]
pub enum TypeInfo {
    Str,
    I32,
    F64,
    Bool,
    Null,
    Unit,
    /// A type that could not be determined; compatible with every type.
    Unknown,
    Vec(Box<TypeInfo>),
    Option(Box<TypeInfo>),
    HashMap(Box<TypeInfo>, Box<TypeInfo>),
    HashSet(Box<TypeInfo>),
    Ref { mutable: bool, inner: Box<TypeInfo> },
    Tuple(Vec<TypeInfo>),
    /// A struct with its fields; a later field of the same name replaces an earlier one.
    Struct { name: String, fields: Vec<(String, TypeInfo)> },
    Function { params: Vec<TypeInfo>, ret: Box<TypeInfo> },
    /// A syntax-tree node type such as `Identifier`.
    AstNode(String),
    CodeBuilder,
    /// A type variable, to be inferred; compatible with every type.
    Var(u64),
}

/// The mathematical value of a [`TypeInfo`].
pub enum TypeInfoV {
    Str,
    I32,
    F64,
    Bool,
    Null,
    Unit,
    Unknown,
    Vec(Box<TypeInfoV>),
    Option(Box<TypeInfoV>),
    HashMap(Box<TypeInfoV>, Box<TypeInfoV>),
    HashSet(Box<TypeInfoV>),
    Ref { mutable: bool, inner: Box<TypeInfoV> },
    Tuple(Seq<TypeInfoV>),
    Struct { name: Seq<char>, fields: Seq<(Seq<char>, TypeInfoV)> },
    Function { params: Seq<TypeInfoV>, ret: Box<TypeInfoV> },
    AstNode(Seq<char>),
    CodeBuilder,
    Var(u64),
}

/// The value of a type.
pub open spec fn v_ti(x: TypeInfo) -> TypeInfoV
    decreases x,
{
    match x {
        TypeInfo::Str => TypeInfoV::Str,
        TypeInfo::I32 => TypeInfoV::I32,
        TypeInfo::F64 => TypeInfoV::F64,
        TypeInfo::Bool => TypeInfoV::Bool,
        TypeInfo::Null => TypeInfoV::Null,
        TypeInfo::Unit => TypeInfoV::Unit,
        TypeInfo::Unknown => TypeInfoV::Unknown,
        TypeInfo::Vec(t) => TypeInfoV::Vec(Box::new(v_ti(*t))),
        TypeInfo::Option(t) => TypeInfoV::Option(Box::new(v_ti(*t))),
        TypeInfo::HashMap(k, v) => TypeInfoV::HashMap(Box::new(v_ti(*k)), Box::new(v_ti(*v))),
        TypeInfo::HashSet(t) => TypeInfoV::HashSet(Box::new(v_ti(*t))),
        TypeInfo::Ref { mutable, inner } => TypeInfoV::Ref { mutable, inner: Box::new(v_ti(*inner)) },
        TypeInfo::Tuple(ts) => TypeInfoV::Tuple(v_tis(ts@)),
        TypeInfo::Struct { name, fields } => TypeInfoV::Struct { name: name@, fields: v_fields(fields@) },
        TypeInfo::Function { params, ret } => TypeInfoV::Function {
            params: v_tis(params@),
            ret: Box::new(v_ti(*ret)),
        },
        TypeInfo::AstNode(n) => TypeInfoV::AstNode(n@),
        TypeInfo::CodeBuilder => TypeInfoV::CodeBuilder,
        TypeInfo::Var(n) => TypeInfoV::Var(n),
    }
}

/// The values of a list of types.
pub open spec fn v_tis(s: Seq<TypeInfo>) -> Seq<TypeInfoV>
    decreases s,
{
    if s.len() == 0 {
        Seq::empty()
    } else {
        v_tis(s.drop_last()).push(v_ti(s.last()))
    }
}

/// The values of a list of named fields.
pub open spec fn v_fields(s: Seq<(String, TypeInfo)>) -> Seq<(Seq<char>, TypeInfoV)>
    decreases s,
{
    if s.len() == 0 {
        Seq::empty()
    } else {
        v_fields(s.drop_last()).push((s.last().0@, v_ti(s.last().1)))
    }
}

impl View for TypeInfo {
    type V = TypeInfoV;

    open spec fn view(&self) -> TypeInfoV {
        v_ti(*self)
    }
}

/// Viewing a list of types after a push views the old list and the new type.
pub proof fn lemma_v_tis_push(s: Seq<TypeInfo>, x: TypeInfo)
    ensures
        v_tis(s.push(x)) == v_tis(s).push(v_ti(x)),
        v_tis(s).len() == s.len(),
    decreases s.len(),
{
    assert(s.push(x).drop_last() =~= s);
    if s.len() > 0 {
        lemma_v_tis_push(s.drop_last(), s.last());
        assert(s.drop_last().push(s.last()) =~= s);
    }
}

/// Each type of a list views as the type at the same index of the list's view.
pub proof fn lemma_v_tis_index(s: Seq<TypeInfo>, i: int)
    requires
        0 <= i < s.len(),
    ensures
        v_tis(s).len() == s.len(),
        v_tis(s)[i] == v_ti(s[i]),
    decreases s.len(),
{
    if i < s.len() - 1 {
        lemma_v_tis_index(s.drop_last(), i);
    }
    lemma_v_tis_push(s.drop_last(), s.last());
    assert(s.drop_last().push(s.last()) =~= s);
}

/// Viewing a field list after a push views the old list and the new field.
pub proof fn lemma_v_fields_push(s: Seq<(String, TypeInfo)>, x: (String, TypeInfo))
    ensures
        v_fields(s.push(x)) == v_fields(s).push((x.0@, v_ti(x.1))),
        v_fields(s).len() == s.len(),
    decreases s.len(),
{
    assert(s.push(x).drop_last() =~= s);
    if s.len() > 0 {
        lemma_v_fields_push(s.drop_last(), s.last());
        assert(s.drop_last().push(s.last()) =~= s);
    }
}

/// Each field of a list views as the field at the same index of the list's view.
pub proof fn lemma_v_fields_index(s: Seq<(String, TypeInfo)>, i: int)
    requires
        0 <= i < s.len(),
    ensures
        v_fields(s).len() == s.len(),
        v_fields(s)[i] == (s[i].0@, v_ti(s[i].1)),
    decreases s.len(),
{
    if i < s.len() - 1 {
        lemma_v_fields_index(s.drop_last(), i);
    }
    lemma_v_fields_push(s.drop_last(), s.last());
    assert(s.drop_last().push(s.last()) =~= s);
}

impl TypeInfo {
    /// A copy of this type.
    pub fn copy(&self) -> (r: Self)
        ensures
            r@ == self@,
        decreases self,
    {
        match self {
            TypeInfo::Str => TypeInfo::Str,
            TypeInfo::I32 => TypeInfo::I32,
            TypeInfo::F64 => TypeInfo::F64,
            TypeInfo::Bool => TypeInfo::Bool,
            TypeInfo::Null => TypeInfo::Null,
            TypeInfo::Unit => TypeInfo::Unit,
            TypeInfo::Unknown => TypeInfo::Unknown,
            TypeInfo::Vec(t) => TypeInfo::Vec(Box::new(t.copy())),
            TypeInfo::Option(t) => TypeInfo::Option(Box::new(t.copy())),
            TypeInfo::HashMap(k, v) => TypeInfo::HashMap(Box::new(k.copy()), Box::new(v.copy())),
            TypeInfo::HashSet(t) => TypeInfo::HashSet(Box::new(t.copy())),
            TypeInfo::Ref { mutable, inner } => TypeInfo::Ref { mutable: *mutable, inner: Box::new(inner.copy()) },
            TypeInfo::Tuple(ts) => TypeInfo::Tuple(copy_list(ts)),
            TypeInfo::Struct { name, fields } => TypeInfo::Struct { name: name.clone(), fields: copy_fields(fields) },
            TypeInfo::Function { params, ret } => TypeInfo::Function {
                params: copy_list(params),
                ret: Box::new(ret.copy()),
            },
            TypeInfo::AstNode(n) => TypeInfo::AstNode(n.clone()),
            TypeInfo::CodeBuilder => TypeInfo::CodeBuilder,
            TypeInfo::Var(n) => TypeInfo::Var(*n),
        }
    }
}

/// The type `Vec<t>`.
pub fn ti_vec(t: TypeInfo) -> (r: TypeInfo)
    ensures
        r@ == TypeInfoV::Vec(Box::new(t@)),
{
    TypeInfo::Vec(Box::new(t))
}

/// The type `Option<t>`.
pub fn ti_option(t: TypeInfo) -> (r: TypeInfo)
    ensures
        r@ == TypeInfoV::Option(Box::new(t@)),
{
    TypeInfo::Option(Box::new(t))
}

/// The type `&t` or `&mut t`.
pub fn ti_ref(mutable: bool, t: TypeInfo) -> (r: TypeInfo)
    ensures
        r@ == (TypeInfoV::Ref { mutable, inner: Box::new(t@) }),
{
    TypeInfo::Ref { mutable, inner: Box::new(t) }
}

/// The type of a function with the given parameter and result types.
pub fn ti_function(params: Vec<TypeInfo>, ret: TypeInfo) -> (r: TypeInfo)
    ensures
        r@ == (TypeInfoV::Function { params: v_tis(params@), ret: Box::new(ret@) }),
{
    TypeInfo::Function { params, ret: Box::new(ret) }
}

/// A copy of a list of types.
pub fn copy_list(ts: &Vec<TypeInfo>) -> (r: Vec<TypeInfo>)
    ensures
        v_tis(r@) == v_tis(ts@),
    decreases ts,
{
    let mut r: Vec<TypeInfo> = Vec::new();
    let mut i: usize = 0;
    while i < ts.len()
        invariant
            i <= ts@.len(),
            v_tis(r@) == v_tis(ts@.subrange(0, i as int)),
        decreases ts@.len() - i,
    {
        proof {
            lemma_v_tis_push(r@, ts@[i as int]);
            lemma_v_tis_push(ts@.subrange(0, i as int), ts@[i as int]);
            assert(ts@.subrange(0, i as int).push(ts@[i as int]) =~= ts@.subrange(0, i + 1));
        }
        let ghost before = r@;
        let t = ts[i].copy();
        r.push(t);
        proof {
            lemma_v_tis_push(before, t);
        }
        i = i + 1;
    }
    assert(ts@.subrange(0, i as int) =~= ts@);
    r
}

/// A copy of a list of named fields.
pub fn copy_fields(fs: &Vec<(String, TypeInfo)>) -> (r: Vec<(String, TypeInfo)>)
    ensures
        v_fields(r@) == v_fields(fs@),
    decreases fs,
{
    let mut r: Vec<(String, TypeInfo)> = Vec::new();
    let mut i: usize = 0;
    while i < fs.len()
        invariant
            i <= fs@.len(),
            v_fields(r@) == v_fields(fs@.subrange(0, i as int)),
        decreases fs@.len() - i,
    {
        proof {
            lemma_v_fields_push(fs@.subrange(0, i as int), fs@[i as int]);
            assert(fs@.subrange(0, i as int).push(fs@[i as int]) =~= fs@.subrange(0, i + 1));
        }
        let ghost before = r@;
        let f = (fs[i].0.clone(), fs[i].1.copy());
        r.push(f);
        proof {
            lemma_v_fields_push(before, f);
        }
        i = i + 1;
    }
    assert(fs@.subrange(0, i as int) =~= fs@);
    r
}

impl Clone for TypeInfo {
    fn clone(&self) -> (r: Self)
        ensures
            r@ == self@,
    {
        self.copy()
    }
}

/// Whether a value of type `a` may be used where `b` is expected. An unknown
/// type or a type variable on either side is compatible with everything;
/// `null` fits any `Option`; containers and tuples compare their parts;
/// a `&mut` reference fits where a `&` one is expected; structs and node
/// types compare by name; functions compare parameters and result.
pub open spec fn assignable(a: TypeInfoV, b: TypeInfoV) -> bool
    decreases a,
{
    if a is Unknown || b is Unknown || a is Var || b is Var {
        true
    } else {
        match a {
            TypeInfoV::Str => b is Str,
            TypeInfoV::I32 => b is I32,
            TypeInfoV::F64 => b is F64,
            TypeInfoV::Bool => b is Bool,
            TypeInfoV::Null => b is Null || b is Option,
            TypeInfoV::Unit => b is Unit,
            TypeInfoV::CodeBuilder => b is CodeBuilder,
            TypeInfoV::Vec(x) => match b {
                TypeInfoV::Vec(y) => assignable(*x, *y),
                _ => false,
            },
            TypeInfoV::Option(x) => match b {
                TypeInfoV::Option(y) => assignable(*x, *y),
                _ => false,
            },
            TypeInfoV::HashSet(x) => match b {
                TypeInfoV::HashSet(y) => assignable(*x, *y),
                _ => false,
            },
            TypeInfoV::HashMap(k1, v1) => match b {
                TypeInfoV::HashMap(k2, v2) => assignable(*k1, *k2) && assignable(*v1, *v2),
                _ => false,
            },
            TypeInfoV::Ref { mutable: m1, inner: i1 } => match b {
                TypeInfoV::Ref { mutable: m2, inner: i2 } => (m1 || !m2) && assignable(*i1, *i2),
                _ => false,
            },
            TypeInfoV::Tuple(xs) => match b {
                TypeInfoV::Tuple(ys) => assignable_all(xs, ys),
                _ => false,
            },
            TypeInfoV::Struct { name: n1, .. } => match b {
                TypeInfoV::Struct { name: n2, .. } => n1 == n2,
                _ => false,
            },
            TypeInfoV::AstNode(n1) => match b {
                TypeInfoV::AstNode(n2) => n1 == n2,
                _ => false,
            },
            TypeInfoV::Function { params: p1, ret: r1 } => match b {
                TypeInfoV::Function { params: p2, ret: r2 } => assignable_all(p1, p2) && assignable(*r1, *r2),
                _ => false,
            },
            _ => true,
        }
    }
}

/// Two lists of the same length whose types are pairwise assignable.
pub open spec fn assignable_all(xs: Seq<TypeInfoV>, ys: Seq<TypeInfoV>) -> bool
    decreases xs,
{
    if xs.len() == 0 {
        ys.len() == 0
    } else {
        ys.len() > 0 && assignable(xs[0], ys[0]) && assignable_all(
            xs.subrange(1, xs.len() as int),
            ys.subrange(1, ys.len() as int),
        )
    }
}

/// The type a reference points to.
pub open spec fn deref_of(t: TypeInfoV) -> Option<TypeInfoV> {
    match t {
        TypeInfoV::Ref { inner, .. } => Some(*inner),
        _ => None,
    }
}

/// How a type is written in messages.
pub open spec fn display(t: TypeInfoV) -> Seq<char>
    decreases t,
{
    match t {
        TypeInfoV::Str => "Str"@,
        TypeInfoV::I32 => "i32"@,
        TypeInfoV::F64 => "f64"@,
        TypeInfoV::Bool => "bool"@,
        TypeInfoV::Null => "null"@,
        TypeInfoV::Unit => "()"@,
        TypeInfoV::Unknown => "unknown"@,
        TypeInfoV::Vec(x) => "Vec<"@ + display(*x) + ">"@,
        TypeInfoV::Option(x) => "Option<"@ + display(*x) + ">"@,
        TypeInfoV::HashMap(k, v) => "HashMap<"@ + display(*k) + ", "@ + display(*v) + ">"@,
        TypeInfoV::HashSet(x) => "HashSet<"@ + display(*x) + ">"@,
        TypeInfoV::Ref { mutable, inner } => (if mutable {
            "&mut "@
        } else {
            "&"@
        }) + display(*inner),
        TypeInfoV::Tuple(xs) => "("@ + display_list(xs) + ")"@,
        TypeInfoV::Struct { name, .. } => name,
        TypeInfoV::Function { params, ret } => "fn("@ + display_list(params) + ") -> "@ + display(*ret),
        TypeInfoV::AstNode(n) => n,
        TypeInfoV::CodeBuilder => "CodeBuilder"@,
        TypeInfoV::Var(_) => "_"@,
    }
}

/// Types written one after another, separated by `, `.
pub open spec fn display_list(xs: Seq<TypeInfoV>) -> Seq<char>
    decreases xs,
{
    if xs.len() == 0 {
        Seq::empty()
    } else if xs.len() == 1 {
        display(xs[0])
    } else {
        display(xs[0]) + ", "@ + display_list(xs.subrange(1, xs.len() as int))
    }
}

impl TypeInfo {
    /// The type this reference points to, if it is a reference.
    pub fn deref(&self) -> (r: Option<&TypeInfo>)
        ensures
            match r {
                Some(i) => deref_of(self@) == Some(i@),
                None => deref_of(self@) is None,
            },
    {
        match self {
            TypeInfo::Ref { inner, .. } => Some(&**inner),
            _ => None,
        }
    }

    /// Whether a value of this type may be used where `other` is expected.
    pub fn is_assignable_to(&self, other: &TypeInfo) -> (r: bool)
        ensures
            r == assignable(self@, other@),
        decreases self,
    {
        match (self, other) {
            (TypeInfo::Unknown, _) | (_, TypeInfo::Unknown) | (TypeInfo::Var(_), _) | (_, TypeInfo::Var(_)) => true,
            (TypeInfo::Str, TypeInfo::Str) => true,
            (TypeInfo::I32, TypeInfo::I32) => true,
            (TypeInfo::F64, TypeInfo::F64) => true,
            (TypeInfo::Bool, TypeInfo::Bool) => true,
            (TypeInfo::Null, TypeInfo::Null) => true,
            (TypeInfo::Null, TypeInfo::Option(_)) => true,
            (TypeInfo::Unit, TypeInfo::Unit) => true,
            (TypeInfo::CodeBuilder, TypeInfo::CodeBuilder) => true,
            (TypeInfo::Vec(x), TypeInfo::Vec(y)) => x.is_assignable_to(y),
            (TypeInfo::Option(x), TypeInfo::Option(y)) => x.is_assignable_to(y),
            (TypeInfo::HashSet(x), TypeInfo::HashSet(y)) => x.is_assignable_to(y),
            (TypeInfo::HashMap(k1, v1), TypeInfo::HashMap(k2, v2)) => k1.is_assignable_to(k2) && v1.is_assignable_to(v2),
            (TypeInfo::Ref { mutable: m1, inner: i1 }, TypeInfo::Ref { mutable: m2, inner: i2 }) => (*m1 || !*m2)
                && i1.is_assignable_to(i2),
            (TypeInfo::Tuple(xs), TypeInfo::Tuple(ys)) => all_assignable(xs, ys),
            (TypeInfo::Struct { name: n1, .. }, TypeInfo::Struct { name: n2, .. }) => str_eq(n1.as_str(), n2.as_str()),
            (TypeInfo::AstNode(n1), TypeInfo::AstNode(n2)) => str_eq(n1.as_str(), n2.as_str()),
            (TypeInfo::Function { params: p1, ret: r1 }, TypeInfo::Function { params: p2, ret: r2 }) => all_assignable(p1, p2)
                && r1.is_assignable_to(r2),
            _ => false,
        }
    }

    /// How this type is written in messages.
    pub fn display_name(&self) -> (r: String)
        ensures
            r@ == display(self@),
        decreases self,
    {
        match self {
            TypeInfo::Str => owned("Str"),
            TypeInfo::I32 => owned("i32"),
            TypeInfo::F64 => owned("f64"),
            TypeInfo::Bool => owned("bool"),
            TypeInfo::Null => owned("null"),
            TypeInfo::Unit => owned("()"),
            TypeInfo::Unknown => owned("unknown"),
            TypeInfo::Vec(x) => wrap("Vec<", x.display_name(), ">"),
            TypeInfo::Option(x) => wrap("Option<", x.display_name(), ">"),
            TypeInfo::HashMap(k, v) => {
                let key = wrap("HashMap<", k.display_name(), ", ");
                let value = v.display_name();
                wrap(key.as_str(), value, ">")
            },
            TypeInfo::HashSet(x) => wrap("HashSet<", x.display_name(), ">"),
            TypeInfo::Ref { mutable, inner } => {
                let prefix = if *mutable {
                    "&mut "
                } else {
                    "&"
                };
                joined(prefix, inner.display_name().as_str())
            },
            TypeInfo::Tuple(xs) => wrap("(", display_names(xs), ")"),
            TypeInfo::Struct { name, .. } => name.clone(),
            TypeInfo::Function { params, ret } => {
                let head = wrap("fn(", display_names(params), ") -> ");
                joined(head.as_str(), ret.display_name().as_str())
            },
            TypeInfo::AstNode(n) => n.clone(),
            TypeInfo::CodeBuilder => owned("CodeBuilder"),
            TypeInfo::Var(_) => owned("_"),
        }
    }
}

/// `a`, then `s`, then `b`.
fn wrap(a: &str, s: String, b: &str) -> (r: String)
    ensures
        r@ == a@ + s@ + b@,
{
    let front = joined(a, s.as_str());
    joined(front.as_str(), b)
}

/// Whether two lists have the same length and pairwise assignable types.
fn all_assignable(xs: &Vec<TypeInfo>, ys: &Vec<TypeInfo>) -> (r: bool)
    ensures
        r == assignable_all(v_tis(xs@), v_tis(ys@)),
    decreases xs,
{
    proof {
        lemma_v_tis_len(xs@);
        lemma_v_tis_len(ys@);
    }
    if xs.len() != ys.len() {
        proof {
            lemma_assignable_all_len(v_tis(xs@), v_tis(ys@));
        }
        return false;
    }
    let mut i: usize = 0;
    assert(v_tis(xs@).subrange(0, xs@.len() as int) =~= v_tis(xs@));
    assert(v_tis(ys@).subrange(0, ys@.len() as int) =~= v_tis(ys@));
    while i < xs.len()
        invariant
            i <= xs@.len(),
            xs@.len() == ys@.len(),
            v_tis(xs@).len() == xs@.len(),
            v_tis(ys@).len() == ys@.len(),
            assignable_all(v_tis(xs@), v_tis(ys@)) == assignable_all(
                v_tis(xs@).subrange(i as int, xs@.len() as int),
                v_tis(ys@).subrange(i as int, ys@.len() as int),
            ),
        decreases xs@.len() - i,
    {
        let ghost vx = v_tis(xs@).subrange(i as int, xs@.len() as int);
        let ghost vy = v_tis(ys@).subrange(i as int, ys@.len() as int);
        proof {
            lemma_v_tis_index(xs@, i as int);
            lemma_v_tis_index(ys@, i as int);
            assert(vx.subrange(1, vx.len() as int) =~= v_tis(xs@).subrange(i + 1, xs@.len() as int));
            assert(vy.subrange(1, vy.len() as int) =~= v_tis(ys@).subrange(i + 1, ys@.len() as int));
        }
        if !xs[i].is_assignable_to(&ys[i]) {
            return false;
        }
        i = i + 1;
    }
    true
}

/// A list and its view have the same length.
pub proof fn lemma_v_tis_len(s: Seq<TypeInfo>)
    ensures
        v_tis(s).len() == s.len(),
    decreases s.len(),
{
    if s.len() > 0 {
        lemma_v_tis_len(s.drop_last());
    }
}

/// Lists of different lengths are never pairwise assignable.
proof fn lemma_assignable_all_len(xs: Seq<TypeInfoV>, ys: Seq<TypeInfoV>)
    ensures
        assignable_all(xs, ys) ==> xs.len() == ys.len(),
    decreases xs.len(),
{
    if xs.len() > 0 && ys.len() > 0 {
        lemma_assignable_all_len(xs.subrange(1, xs.len() as int), ys.subrange(1, ys.len() as int));
    }
}

/// Types written one after another, separated by `, `.
fn display_names(xs: &Vec<TypeInfo>) -> (r: String)
    ensures
        r@ == display_list(v_tis(xs@)),
    decreases xs,
{
    proof {
        lemma_v_tis_len(xs@);
    }
    let n = xs.len();
    if n == 0 {
        return String::new();
    }
    // Build from the back so that each step matches the list's definition.
    let mut i: usize = n - 1;
    let mut r = xs[i].display_name();
    proof {
        lemma_v_tis_index(xs@, i as int);
        assert(v_tis(xs@).subrange(i as int, n as int) =~= seq![v_tis(xs@)[i as int]]);
    }
    while i > 0
        invariant
            0 <= i < n,
            n == xs@.len(),
            v_tis(xs@).len() == n,
            r@ == display_list(v_tis(xs@).subrange(i as int, n as int)),
        decreases i,
    {
        i = i - 1;
        let ghost rest = v_tis(xs@).subrange(i + 1, n as int);
        let ghost all = v_tis(xs@).subrange(i as int, n as int);
        proof {
            lemma_v_tis_index(xs@, i as int);
            assert(all.subrange(1, all.len() as int) =~= rest);
        }
        let d = xs[i].display_name();
        let head = joined(d.as_str(), ", ");
        r = joined(head.as_str(), r.as_str());
    }
    assert(v_tis(xs@).subrange(0, n as int) =~= v_tis(xs@));
    r
}

// ===================== errors =====================

/// An error found by a semantic pass: a code such as `RS003`, a message and
/// the span it points at.
#[derive(Debug, Clone)]
pub struct SemanticError {
    pub code: String,
    pub message: String,
    pub span: Span,
}

/// The mathematical value of a [`SemanticError`].
pub struct SemanticErrorV {
    pub code: Seq<char>,
    pub message: Seq<char>,
    pub span: Span,
}

impl View for SemanticError {
    type V = SemanticErrorV;

    open spec fn view(&self) -> SemanticErrorV {
        SemanticErrorV { code: self.code@, message: self.message@, span: self.span }
    }
}

/// The value of an error from its parts.
pub open spec fn sem_err(code: Seq<char>, message: Seq<char>, span: Span) -> SemanticErrorV {
    SemanticErrorV { code, message, span }
}

/// The values of a list of errors.
pub open spec fn v_errors(s: Seq<SemanticError>) -> Seq<SemanticErrorV> {
    s.map_values(|e: SemanticError| e@)
}

impl SemanticError {
    /// An error with the given code, message and span.
    pub fn new(code: &str, message: String, span: Span) -> (r: Self)
        ensures
            r@ == sem_err(code@, message@, span),
    {
        Self { code: owned(code), message, span }
    }
}

// ===================== written types =====================

/// The type a written type stands for. `Str`, `i32`, `u32`, `f64` and `bool`
/// are primitives (`u32` counts as an integer like `i32`); `CodeBuilder` is the
/// builder type; a name from the node table is a node type, any other name a
/// struct known by name; `Vec`, `Option`, `HashSet` with one argument and
/// `HashMap` with two are containers; anything else is unknown.
pub open spec fn ast_ti(t: Type) -> TypeInfoV
    decreases t,
{
    match t {
        Type::Primitive(n) => primitive_ti(n@),
        Type::Named(n) => named_ti(n@),
        Type::Container { name, type_args } => {
            let args = ast_tis(type_args@);
            if name@ == "Vec"@ && args.len() == 1 {
                TypeInfoV::Vec(Box::new(args[0]))
            } else if name@ == "Option"@ && args.len() == 1 {
                TypeInfoV::Option(Box::new(args[0]))
            } else if name@ == "HashSet"@ && args.len() == 1 {
                TypeInfoV::HashSet(Box::new(args[0]))
            } else if name@ == "HashMap"@ && args.len() == 2 {
                TypeInfoV::HashMap(Box::new(args[0]), Box::new(args[1]))
            } else {
                TypeInfoV::Unknown
            }
        },
        Type::Reference { mutable, inner } => TypeInfoV::Ref { mutable, inner: Box::new(ast_ti(*inner)) },
        Type::Tuple(ts) => TypeInfoV::Tuple(ast_tis(ts@)),
        Type::Unit => TypeInfoV::Unit,
    }
}

/// The types a list of written types stand for.
pub open spec fn ast_tis(s: Seq<Type>) -> Seq<TypeInfoV>
    decreases s,
{
    if s.len() == 0 {
        Seq::empty()
    } else {
        ast_tis(s.drop_last()).push(ast_ti(s.last()))
    }
}

/// The type a primitive type name stands for.
pub open spec fn primitive_ti(n: Seq<char>) -> TypeInfoV {
    if n == "Str"@ {
        TypeInfoV::Str
    } else if n == "i32"@ || n == "u32"@ {
        TypeInfoV::I32
    } else if n == "f64"@ {
        TypeInfoV::F64
    } else if n == "bool"@ {
        TypeInfoV::Bool
    } else {
        TypeInfoV::Unknown
    }
}

/// The type a named type stands for.
pub open spec fn named_ti(n: Seq<char>) -> TypeInfoV {
    if n == "CodeBuilder"@ {
        TypeInfoV::CodeBuilder
    } else if find_by_name(node_table(), n) is Some {
        TypeInfoV::AstNode(n)
    } else {
        TypeInfoV::Struct { name: n, fields: Seq::empty() }
    }
}

/// A list of written types, converted.
pub proof fn lemma_ast_tis_push(s: Seq<Type>, x: Type)
    ensures
        ast_tis(s.push(x)) == ast_tis(s).push(ast_ti(x)),
{
    assert(s.push(x).drop_last() =~= s);
}

/// A converted list has the length of the list.
pub proof fn lemma_ast_tis_len(s: Seq<Type>)
    ensures
        ast_tis(s).len() == s.len(),
    decreases s.len(),
{
    if s.len() > 0 {
        lemma_ast_tis_len(s.drop_last());
    }
}

/// Convert a list of written types.
pub fn ast_types_to_type_infos(ts: &Vec<Type>) -> (r: Vec<TypeInfo>)
    ensures
        v_tis(r@) == ast_tis(ts@),
    decreases ts,
{
    let mut r: Vec<TypeInfo> = Vec::new();
    let mut i: usize = 0;
    while i < ts.len()
        invariant
            i <= ts@.len(),
            v_tis(r@) == ast_tis(ts@.subrange(0, i as int)),
        decreases ts@.len() - i,
    {
        proof {
            lemma_ast_tis_push(ts@.subrange(0, i as int), ts@[i as int]);
            assert(ts@.subrange(0, i as int).push(ts@[i as int]) =~= ts@.subrange(0, i + 1));
        }
        let ghost before = r@;
        let t = ast_type_to_type_info(&ts[i]);
        r.push(t);
        proof {
            lemma_v_tis_push(before, t);
        }
        i = i + 1;
    }
    assert(ts@.subrange(0, i as int) =~= ts@);
    r
}

/// The type a written type stands for.
pub fn ast_type_to_type_info(t: &Type) -> (r: TypeInfo)
    ensures
        r@ == ast_ti(*t),
    decreases t,
{
    match t {
        Type::Primitive(n) => {
            let s = n.as_str();
            if str_eq(s, "Str") {
                TypeInfo::Str
            } else if str_eq(s, "i32") || str_eq(s, "u32") {
                TypeInfo::I32
            } else if str_eq(s, "f64") {
                TypeInfo::F64
            } else if str_eq(s, "bool") {
                TypeInfo::Bool
            } else {
                TypeInfo::Unknown
            }
        },
        Type::Named(n) => {
            if str_eq(n.as_str(), "CodeBuilder") {
                TypeInfo::CodeBuilder
            } else if get_node_mapping(n.as_str()).is_some() {
                TypeInfo::AstNode(n.clone())
            } else {
                let fields: Vec<(String, TypeInfo)> = Vec::new();
                proof {
                    assert(v_fields(fields@) =~= Seq::<(Seq<char>, TypeInfoV)>::empty());
                }
                TypeInfo::Struct { name: n.clone(), fields }
            }
        },
        Type::Container { name, type_args } => {
            let mut args = ast_types_to_type_infos(type_args);
            proof {
                lemma_ast_tis_len(type_args@);
                lemma_v_tis_len(args@);
            }
            let s = name.as_str();
            if str_eq(s, "Vec") && args.len() == 1 {
                proof {
                    lemma_v_tis_index(args@, 0);
                }
                TypeInfo::Vec(Box::new(args.remove(0)))
            } else if str_eq(s, "Option") && args.len() == 1 {
                proof {
                    lemma_v_tis_index(args@, 0);
                }
                TypeInfo::Option(Box::new(args.remove(0)))
            } else if str_eq(s, "HashSet") && args.len() == 1 {
                proof {
                    lemma_v_tis_index(args@, 0);
                }
                TypeInfo::HashSet(Box::new(args.remove(0)))
            } else if str_eq(s, "HashMap") && args.len() == 2 {
                proof {
                    lemma_v_tis_index(args@, 0);
                    lemma_v_tis_index(args@, 1);
                }
                let value = args.remove(1);
                let key = args.remove(0);
                TypeInfo::HashMap(Box::new(key), Box::new(value))
            } else {
                TypeInfo::Unknown
            }
        },
        Type::Reference { mutable, inner } => TypeInfo::Ref {
            mutable: *mutable,
            inner: Box::new(ast_type_to_type_info(inner)),
        },
        Type::Tuple(ts) => TypeInfo::Tuple(ast_types_to_type_infos(ts)),
        Type::Unit => TypeInfo::Unit,
    }
}

// ===================== the environment =====================

/// The last binding of `k` in an association list.
pub open spec fn last_binding<V>(s: Seq<(Seq<char>, V)>, k: Seq<char>) -> Option<V>
    decreases s.len(),
{
    if s.len() == 0 {
        None
    } else if s.last().0 == k {
        Some(s.last().1)
    } else {
        last_binding(s.drop_last(), k)
    }
}

/// The type of `k` in the innermost scope that binds it.
pub open spec fn env_find(scopes: Seq<Seq<(Seq<char>, TypeInfoV)>>, k: Seq<char>) -> Option<TypeInfoV>
    decreases scopes.len(),
{
    if scopes.len() == 0 {
        None
    } else {
        match last_binding(scopes.last(), k) {
            Some(t) => Some(t),
            None => env_find(scopes.drop_last(), k),
        }
    }
}

/// The variants of an enum declaration: each name with its optional field types.
pub type VariantsV = Seq<(Seq<char>, Option<Seq<TypeInfoV>>)>;

/// The mathematical value of a [`TypeEnv`].
pub struct TypeEnvV {
    /// The scopes from outermost to innermost; in each, a later binding of a
    /// name replaces an earlier one.
    pub scopes: Seq<Seq<(Seq<char>, TypeInfoV)>>,
    /// The declared structs with their fields.
    pub structs: Seq<(Seq<char>, Seq<(Seq<char>, TypeInfoV)>)>,
    /// The declared enums with their variants.
    pub enums: Seq<(Seq<char>, VariantsV)>,
    /// The number of the next type variable.
    pub next_var: u64,
}

/// The environment with one empty scope and nothing declared.
pub open spec fn te_new() -> TypeEnvV {
    TypeEnvV { scopes: seq![Seq::empty()], structs: Seq::empty(), enums: Seq::empty(), next_var: 0 }
}

/// Enter a new, empty scope.
pub open spec fn te_push(e: TypeEnvV) -> TypeEnvV {
    TypeEnvV { scopes: e.scopes.push(Seq::empty()), ..e }
}

/// Leave the innermost scope; the outermost scope is never left.
pub open spec fn te_pop(e: TypeEnvV) -> TypeEnvV {
    if e.scopes.len() > 1 {
        TypeEnvV { scopes: e.scopes.drop_last(), ..e }
    } else {
        e
    }
}

/// Bind `k` to `t` in the innermost scope.
pub open spec fn te_define(e: TypeEnvV, k: Seq<char>, t: TypeInfoV) -> TypeEnvV {
    if e.scopes.len() > 0 {
        TypeEnvV { scopes: e.scopes.update(e.scopes.len() - 1, e.scopes.last().push((k, t))), ..e }
    } else {
        e
    }
}

/// The type of `k` in the innermost scope that binds it.
pub open spec fn te_lookup(e: TypeEnvV, k: Seq<char>) -> Option<TypeInfoV> {
    env_find(e.scopes, k)
}

/// Whether the innermost scope binds `k`.
pub open spec fn te_defined_here(e: TypeEnvV, k: Seq<char>) -> bool {
    e.scopes.len() > 0 && last_binding(e.scopes.last(), k) is Some
}

/// The fields of the struct last declared as `k`.
pub open spec fn te_struct_fields(e: TypeEnvV, k: Seq<char>) -> Option<Seq<(Seq<char>, TypeInfoV)>> {
    last_binding(e.structs, k)
}

/// The type of a function with the given parameters and result.
pub open spec fn fn_ti(params: Seq<TypeInfoV>, ret: TypeInfoV) -> TypeInfoV {
    TypeInfoV::Function { params, ret: Box::new(ret) }
}

/// A fresh type variable: the next number is taken, and the counter moves on
/// (wrapping around after the largest number).
pub open spec fn te_fresh(e: TypeEnvV) -> (TypeInfoV, TypeEnvV) {
    (TypeInfoV::Var(e.next_var), TypeEnvV { next_var: (if e.next_var == u64::MAX { 0 } else { (e.next_var + 1) as u64 }), ..e })
}

/// The value of an enum's variant list.
pub open spec fn v_variants(s: Seq<(String, Option<Vec<TypeInfo>>)>) -> VariantsV {
    s.map_values(
        |v: (String, Option<Vec<TypeInfo>>)|
            (
                v.0@,
                match v.1 {
                    Some(ts) => Some(v_tis(ts@)),
                    None => None,
                },
            ),
    )
}

/// The type environment: nested scopes of variable types, and the declared
/// structs and enums.
pub struct TypeEnv {
    scopes: Vec<Vec<(String, TypeInfo)>>,
    structs: Vec<(String, Vec<(String, TypeInfo)>)>,
    enums: Vec<(String, Vec<(String, Option<Vec<TypeInfo>>)>)>,
    next_var: u64,
}

impl View for TypeEnv {
    type V = TypeEnvV;

    closed spec fn view(&self) -> TypeEnvV {
        TypeEnvV {
            scopes: Seq::new(self.scopes@.len(), |i: int| v_fields(self.scopes@[i]@)),
            structs: Seq::new(
                self.structs@.len(),
                |i: int| (self.structs@[i].0@, v_fields(self.structs@[i].1@)),
            ),
            enums: Seq::new(self.enums@.len(), |i: int| (self.enums@[i].0@, v_variants(self.enums@[i].1@))),
            next_var: self.next_var,
        }
    }
}

/// The last binding of a name in a field list, found from the back.
pub fn find_last<'a>(s: &'a Vec<(String, TypeInfo)>, k: &str) -> (r: Option<&'a TypeInfo>)
    ensures
        match r {
            Some(t) => last_binding(v_fields(s@), k@) == Some(t@),
            None => last_binding(v_fields(s@), k@) is None,
        },
{
    let mut j = s.len();
    proof {
        lemma_v_fields_len(s@);
        assert(v_fields(s@).subrange(0, j as int) =~= v_fields(s@));
    }
    while j > 0
        invariant
            j <= s@.len(),
            v_fields(s@).len() == s@.len(),
            last_binding(v_fields(s@), k@) == last_binding(v_fields(s@).subrange(0, j as int), k@),
        decreases j,
    {
        proof {
            lemma_v_fields_index(s@, j - 1);
            assert(v_fields(s@).subrange(0, j as int).drop_last() =~= v_fields(s@).subrange(0, j - 1));
        }
        if str_eq(s[j - 1].0.as_str(), k) {
            return Some(&s[j - 1].1);
        }
        j = j - 1;
    }
    None
}

/// A field list and its view have the same length.
pub proof fn lemma_v_fields_len(s: Seq<(String, TypeInfo)>)
    ensures
        v_fields(s).len() == s.len(),
    decreases s.len(),
{
    if s.len() > 0 {
        lemma_v_fields_len(s.drop_last());
    }
}

impl TypeEnv {
    /// An environment with one empty scope and nothing declared.
    pub fn new() -> (r: Self)
        ensures
            r@ == te_new(),
    {
        let mut scopes: Vec<Vec<(String, TypeInfo)>> = Vec::new();
        scopes.push(Vec::new());
        let r = Self { scopes, structs: Vec::new(), enums: Vec::new(), next_var: 0 };
        proof {
            assert(v_fields(r.scopes@[0]@) =~= Seq::<(Seq<char>, TypeInfoV)>::empty());
            assert(r@.scopes =~= te_new().scopes);
            assert(r@.structs =~= te_new().structs);
            assert(r@.enums =~= te_new().enums);
        }
        r
    }

    /// Enter a new scope.
    pub fn push_scope(&mut self)
        ensures
            final(self)@ == te_push(old(self)@),
    {
        self.scopes.push(Vec::new());
        proof {
            assert(v_fields(self.scopes@.last()@) =~= Seq::<(Seq<char>, TypeInfoV)>::empty());
            assert(self@.scopes =~= te_push(old(self)@).scopes);
        }
    }

    /// Leave the innermost scope, unless it is the outermost one.
    pub fn pop_scope(&mut self)
        ensures
            final(self)@ == te_pop(old(self)@),
    {
        if self.scopes.len() > 1 {
            self.scopes.pop();
            assert(self@.scopes =~= te_pop(old(self)@).scopes);
        }
    }

    /// Bind a variable in the innermost scope.
    pub fn define(&mut self, name: String, ty: TypeInfo)
        ensures
            final(self)@ == te_define(old(self)@, name@, ty@),
    {
        if self.scopes.len() > 0 {
            let mut scope = self.scopes.pop().unwrap();
            let ghost before = scope@;
            let ghost nv = name@;
            let ghost tv = ty@;
            scope.push((name, ty));
            proof {
                lemma_v_fields_push(before, scope@.last());
                assert(scope@.drop_last() =~= before);
            }
            self.scopes.push(scope);
            assert(self@.scopes =~= te_define(old(self)@, nv, tv).scopes);
        }
    }

    /// The type of a variable, from the innermost scope that binds it.
    pub fn lookup(&self, name: &str) -> (r: Option<&TypeInfo>)
        ensures
            match r {
                Some(t) => te_lookup(self@, name@) == Some(t@),
                None => te_lookup(self@, name@) is None,
            },
    {
        let mut i = self.scopes.len();
        assert(self@.scopes.subrange(0, i as int) =~= self@.scopes);
        while i > 0
            invariant
                i <= self.scopes@.len(),
                te_lookup(self@, name@) == env_find(self@.scopes.subrange(0, i as int), name@),
            decreases i,
        {
            proof {
                assert(self@.scopes.subrange(0, i as int).drop_last() =~= self@.scopes.subrange(0, i - 1));
                assert(self@.scopes.subrange(0, i as int).last() == v_fields(self.scopes@[i - 1]@));
            }
            match find_last(&self.scopes[i - 1], name) {
                Some(t) => {
                    return Some(t);
                },
                None => {},
            }
            i = i - 1;
        }
        None
    }

    /// Whether the innermost scope binds a variable.
    pub fn is_defined_in_current_scope(&self, name: &str) -> (r: bool)
        ensures
            r == te_defined_here(self@, name@),
    {
        let n = self.scopes.len();
        if n == 0 {
            return false;
        }
        find_last(&self.scopes[n - 1], name).is_some()
    }

    /// Declare a struct with its fields.
    pub fn define_struct(&mut self, name: String, fields: Vec<(String, TypeInfo)>)
        ensures
            final(self)@ == (TypeEnvV { structs: old(self)@.structs.push((name@, v_fields(fields@))), ..old(self)@ }),
    {
        let ghost entry = (name@, v_fields(fields@));
        self.structs.push((name, fields));
        assert(self@.structs =~= old(self)@.structs.push(entry));
    }

    /// Declare an enum with its variants.
    pub fn define_enum(&mut self, name: String, variants: Vec<(String, Option<Vec<TypeInfo>>)>)
        ensures
            final(self)@ == (TypeEnvV { enums: old(self)@.enums.push((name@, v_variants(variants@))), ..old(self)@ }),
    {
        let ghost entry = (name@, v_variants(variants@));
        self.enums.push((name, variants));
        assert(self@.enums =~= old(self)@.enums.push(entry));
    }

    /// Declare a function: its name is bound, in the innermost scope, to its type.
    pub fn define_function(&mut self, name: String, params: Vec<TypeInfo>, ret: TypeInfo)
        ensures
            final(self)@ == te_define(old(self)@, name@, fn_ti(v_tis(params@), ret@)),
    {
        self.define(name, TypeInfo::Function { params, ret: Box::new(ret) });
    }

    /// The fields of the struct last declared under a name.
    pub fn get_struct_fields(&self, name: &str) -> (r: Option<&Vec<(String, TypeInfo)>>)
        ensures
            match r {
                Some(f) => te_struct_fields(self@, name@) == Some(v_fields(f@)),
                None => te_struct_fields(self@, name@) is None,
            },
    {
        let mut j = self.structs.len();
        assert(self@.structs.subrange(0, j as int) =~= self@.structs);
        while j > 0
            invariant
                j <= self.structs@.len(),
                te_struct_fields(self@, name@) == last_binding(self@.structs.subrange(0, j as int), name@),
            decreases j,
        {
            proof {
                assert(self@.structs.subrange(0, j as int).drop_last() =~= self@.structs.subrange(0, j - 1));
            }
            if str_eq(self.structs[j - 1].0.as_str(), name) {
                return Some(&self.structs[j - 1].1);
            }
            j = j - 1;
        }
        None
    }

    /// A fresh type variable.
    pub fn fresh_var(&mut self) -> (r: TypeInfo)
        ensures
            (r@, final(self)@) == te_fresh(old(self)@),
    {
        let n = self.next_var;
        self.next_var = n.wrapping_add(1);
        assert(self@ == te_fresh(old(self)@).1);
        TypeInfo::Var(n)
    }
}

/// A copy of an enum's variant list.
fn copy_variants(vs: &Vec<(String, Option<Vec<TypeInfo>>)>) -> (r: Vec<(String, Option<Vec<TypeInfo>>)>)
    ensures
        v_variants(r@) == v_variants(vs@),
{
    let mut r: Vec<(String, Option<Vec<TypeInfo>>)> = Vec::new();
    let mut i: usize = 0;
    while i < vs.len()
        invariant
            i <= vs@.len(),
            r@.len() == i,
            forall|k: int| 0 <= k < i ==> v_variants(r@)[k] == v_variants(vs@)[k],
        decreases vs@.len() - i,
    {
        let fields = match &vs[i].1 {
            Some(ts) => Some(copy_list(ts)),
            None => None,
        };
        r.push((vs[i].0.clone(), fields));
        i = i + 1;
    }
    assert(v_variants(r@) =~= v_variants(vs@));
    r
}

impl TypeEnv {
    /// A copy of this environment.
    pub fn copy(&self) -> (r: Self)
        ensures
            r@ == self@,
    {
        let mut scopes: Vec<Vec<(String, TypeInfo)>> = Vec::new();
        let mut i: usize = 0;
        while i < self.scopes.len()
            invariant
                i <= self.scopes@.len(),
                scopes@.len() == i,
                forall|k: int| 0 <= k < i ==> v_fields(#[trigger] scopes@[k]@) == v_fields(self.scopes@[k]@),
            decreases self.scopes@.len() - i,
        {
            scopes.push(copy_fields(&self.scopes[i]));
            i = i + 1;
        }
        let mut structs: Vec<(String, Vec<(String, TypeInfo)>)> = Vec::new();
        let mut i: usize = 0;
        while i < self.structs.len()
            invariant
                i <= self.structs@.len(),
                structs@.len() == i,
                forall|k: int|
                    0 <= k < i ==> (#[trigger] structs@[k]).0@ == self.structs@[k].0@ && v_fields(structs@[k].1@)
                        == v_fields(self.structs@[k].1@),
            decreases self.structs@.len() - i,
        {
            structs.push((self.structs[i].0.clone(), copy_fields(&self.structs[i].1)));
            i = i + 1;
        }
        let mut enums: Vec<(String, Vec<(String, Option<Vec<TypeInfo>>)>)> = Vec::new();
        let mut i: usize = 0;
        while i < self.enums.len()
            invariant
                i <= self.enums@.len(),
                enums@.len() == i,
                forall|k: int|
                    0 <= k < i ==> (#[trigger] enums@[k]).0@ == self.enums@[k].0@ && v_variants(enums@[k].1@)
                        == v_variants(self.enums@[k].1@),
            decreases self.enums@.len() - i,
        {
            enums.push((self.enums[i].0.clone(), copy_variants(&self.enums[i].1)));
            i = i + 1;
        }
        let r = Self { scopes, structs, enums, next_var: self.next_var };
        proof {
            assert(r@.scopes =~= self@.scopes);
            assert(r@.structs =~= self@.structs);
            assert(r@.enums =~= self@.enums);
        }
        r
    }
}

impl Clone for TypeEnv {
    fn clone(&self) -> (r: Self)
        ensures
            r@ == self@,
    {
        self.copy()
    }
}


// ===================== laws of the environment =====================

/// A name just bound in the innermost scope is found with the type it was
/// bound to, and counts as defined in that scope.
pub proof fn law_env_define_then_lookup(e: TypeEnvV, k: Seq<char>, t: TypeInfoV)
    requires
        e.scopes.len() > 0,
    ensures
        te_lookup(te_define(e, k, t), k) == Some(t),
        te_defined_here(te_define(e, k, t), k),
{
    let e2 = te_define(e, k, t);
    assert(e2.scopes.last() == e.scopes.last().push((k, t)));
    assert(e2.scopes.last().last() == (k, t));
}

/// Entering a scope hides nothing: every name is found as before, and none is
/// defined in the new scope.
pub proof fn law_env_push_keeps_lookups(e: TypeEnvV, k: Seq<char>)
    ensures
        te_lookup(te_push(e), k) == te_lookup(e, k),
        !te_defined_here(te_push(e), k),
{
    let e2 = te_push(e);
    assert(e2.scopes.drop_last() =~= e.scopes);
    assert(e2.scopes.last() =~= Seq::<(Seq<char>, TypeInfoV)>::empty());
}

/// Leaving a scope just entered gives back the environment, whatever was bound
/// in it: a binding in an inner scope shadows an outer one only until the
/// inner scope is left.
pub proof fn law_env_scope_shadowing(e: TypeEnvV, k: Seq<char>, t: TypeInfoV)
    requires
        e.scopes.len() > 0,
    ensures
        te_pop(te_push(e)) == e,
        te_lookup(te_define(te_push(e), k, t), k) == Some(t),
        te_pop(te_define(te_push(e), k, t)) == e,
{
    let e1 = te_push(e);
    assert(e1.scopes.drop_last() =~= e.scopes);
    law_env_define_then_lookup(e1, k, t);
    let e2 = te_define(e1, k, t);
    assert(e2.scopes.drop_last() =~= e.scopes);
}

/// The outermost scope is never left.
pub proof fn law_env_pop_keeps_global_scope(e: TypeEnvV)
    requires
        e.scopes.len() == 1,
    ensures
        te_pop(e) == e,
{
}

/// Two type variables drawn one after the other are different.
pub proof fn law_env_fresh_vars_differ(e: TypeEnvV)
    ensures
        te_fresh(e).0 != te_fresh(te_fresh(e).1).0,
{
}

} // verus!
