//! The part of a JavaScript syntax tree that the Babel plugin analysis reads.
//!
//! A parser of JavaScript builds these values; everything the analysis decides
//! depends only on what they hold.

use vstd::prelude::*;

verus! {

/// A literal.
#[derive(Debug)]
pub enum JsLit {
    /// A string literal, by its value.
    Str(String),
    /// A numeric literal, by the text its value prints as.
    Num(String),
    Bool(bool),
    Null,
    /// A regular expression literal, by its pattern.
    Regex(String),
    /// Any other literal.
    Other,
}

/// A binary operator.
#[derive(Debug, Clone, Copy, PartialEq, Eq, Structural)]
pub enum JsBinaryOp {
    EqEq,
    NotEq,
    EqEqEq,
    NotEqEq,
    Lt,
    LtEq,
    Gt,
    GtEq,
    LShift,
    RShift,
    ZeroFillRShift,
    Add,
    Sub,
    Mul,
    Div,
    Mod,
    BitOr,
    BitXor,
    BitAnd,
    LogicalOr,
    LogicalAnd,
    In,
    InstanceOf,
    Exp,
    NullishCoalescing,
}

/// A unary operator.
#[derive(Debug, Clone, Copy, PartialEq, Eq, Structural)]
pub enum JsUnaryOp {
    Minus,
    Plus,
    Bang,
    Tilde,
    TypeOf,
    Void,
    Delete,
}

/// The property of a member expression.
#[derive(Debug)]
pub enum JsMemberProp {
    /// `obj.name`
    Ident(String),
    /// `obj[expr]`
    Computed(Box<JsExpr>),
    /// `obj.#name`
    Private,
}

/// A member expression `obj.prop`.
#[derive(Debug)]
pub struct JsMember {
    pub obj: Box<JsExpr>,
    pub prop: JsMemberProp,
}

/// An argument of a call, possibly spread.
#[derive(Debug)]
pub struct JsArg {
    pub spread: bool,
    pub expr: JsExpr,
}

/// The key of an object property.
#[derive(Debug)]
pub enum JsPropName {
    Ident(String),
    Str(String),
    /// A numeric, computed or other key.
    Other,
}

/// A property of an object literal.
#[derive(Debug)]
pub enum JsProp {
    /// `key: value`
    KeyValue(JsPropName, JsExpr),
    /// A method `key(..) { .. }`, by its key.
    Method(JsPropName),
    /// A shorthand, getter, setter or spread.
    Other,
}

/// A call; the callee is absent for `super(..)` and `import(..)`.
#[derive(Debug)]
pub struct JsCall {
    pub callee: Option<Box<JsExpr>>,
    pub args: Vec<JsArg>,
}

/// A conditional expression `test ? cons : alt`.
#[derive(Debug)]
pub struct JsCond {
    pub test: Box<JsExpr>,
    pub cons: Box<JsExpr>,
    pub alt: Box<JsExpr>,
}

/// An assignment; its target is kept when it is a member expression.
#[derive(Debug)]
pub struct JsAssign {
    pub target: Option<JsMember>,
}

/// A template literal: its raw text pieces and the expressions between them.
#[derive(Debug)]
pub struct JsTpl {
    pub quasis: Vec<String>,
    pub exprs: Vec<JsExpr>,
}

/// An expression.
#[derive(Debug)]
pub enum JsExpr {
    Ident(String),
    Lit(JsLit),
    Member(JsMember),
    Bin { op: JsBinaryOp, left: Box<JsExpr>, right: Box<JsExpr> },
    Unary { op: JsUnaryOp, arg: Box<JsExpr> },
    Cond(JsCond),
    Call(JsCall),
    Assign(JsAssign),
    Object(Vec<JsProp>),
    /// An array literal; holes are absent elements.
    Array(Vec<Option<JsArg>>),
    Tpl(JsTpl),
    Arrow(JsArrow),
    Paren(Box<JsExpr>),
    JsxElement(Box<JsxElement>),
    JsxFragment(Vec<JsxChild>),
    /// Any other expression.
    Other,
}

/// An arrow function: its parameters and its body.
#[derive(Debug)]
pub struct JsArrow {
    pub params: Vec<JsPat>,
    pub body: JsArrowBody,
}

/// The body of an arrow function.
#[derive(Debug)]
pub enum JsArrowBody {
    /// A block of statements.
    Block,
    /// A single expression.
    Expr(Box<JsExpr>),
}

/// A JSX element: its attributes and its children.
#[derive(Debug)]
pub struct JsxElement {
    pub attrs: Vec<JsxAttrOrSpread>,
    pub children: Vec<JsxChild>,
}

/// An attribute of a JSX element, or a spread of attributes.
#[derive(Debug)]
pub enum JsxAttrOrSpread {
    Attr(JsxAttr),
    Spread,
}

/// A JSX attribute: its name and its value, if any.
#[derive(Debug)]
pub struct JsxAttr {
    pub name: JsxAttrName,
    pub value: Option<JsxAttrValue>,
}

/// The name of a JSX attribute.
#[derive(Debug)]
pub enum JsxAttrName {
    Ident(String),
    /// `ns:name`
    Namespaced(String, String),
}

/// The value of a JSX attribute.
#[derive(Debug)]
pub enum JsxAttrValue {
    Str(String),
    /// `{expr}`; the expression is absent for `{}`.
    ExprContainer(Option<Box<JsExpr>>),
    /// An element or fragment.
    Other,
}

/// A child of a JSX element or fragment.
#[derive(Debug)]
pub enum JsxChild {
    Text(String),
    /// `{expr}`; the expression is absent for `{}`.
    ExprContainer(Option<Box<JsExpr>>),
    Element(Box<JsxElement>),
    /// A spread child or a fragment.
    Other,
}

/// A binding pattern.
#[derive(Debug)]
pub enum JsPat {
    Ident(String),
    Object(Vec<JsObjectPatProp>),
    /// An array pattern; holes are absent elements.
    Array(Vec<Option<JsPat>>),
    /// Any other pattern.
    Other,
}

/// A property of an object pattern.
#[derive(Debug)]
pub enum JsObjectPatProp {
    /// `key: pattern`
    KeyValue(JsPropName, Box<JsPat>),
    /// `key` or `key = default`
    Assign(String),
    /// `...rest`
    Rest,
}

/// One declarator of a variable declaration.
#[derive(Debug)]
pub struct JsVarDeclarator {
    pub name: JsPat,
    pub init: Option<Box<JsExpr>>,
}

/// The left side of a `for (.. of ..)` loop.
#[derive(Debug)]
pub enum JsForHead {
    VarDecl(Vec<JsVarDeclarator>),
    Pat(Box<JsPat>),
    /// A `using` declaration.
    Other,
}

/// A keyword type of TypeScript.
#[derive(Debug, Clone, Copy, PartialEq, Eq, Structural)]
pub enum TsKeyword {
    String,
    Number,
    Boolean,
    Void,
    Null,
    Undefined,
    Any,
    Other,
}

/// The kind of a TypeScript literal type.
#[derive(Debug, Clone, Copy, PartialEq, Eq, Structural)]
pub enum TsLitKind {
    Str,
    Number,
    Bool,
    Other,
}

/// A TypeScript type.
#[derive(Debug)]
pub enum TsType {
    Keyword(TsKeyword),
    Array(Box<TsType>),
    /// A named type; the name is absent when it is qualified.
    TypeRef { name: Option<String>, type_params: Option<Vec<TsType>> },
    FnOrConstructor,
    UnionOrIntersection,
    Lit(TsLitKind),
    TypeLit(Vec<TsTypeElement>),
    Other,
}

/// A member of a TypeScript type literal.
#[derive(Debug)]
pub enum TsTypeElement {
    /// `key: type`; the key is absent when it is not a plain name.
    PropertySignature { key: Option<String>, type_ann: Option<TsType> },
    Other,
}

/// A function parameter: its pattern, and the type annotation of a plain
/// name or object pattern.
#[derive(Debug)]
pub struct JsParam {
    pub pat: JsPat,
    pub type_ann: Option<TsType>,
}

/// A function declaration: its name, its parameters, and whether it is
/// `async`.
#[derive(Debug)]
pub struct JsFnDecl {
    pub name: String,
    pub params: Vec<JsParam>,
    pub is_async: bool,
}

/// A variable declaration: whether it is `const`, and its declarators.
#[derive(Debug)]
pub struct JsVarDecl {
    pub is_const: bool,
    pub decls: Vec<JsVarDeclarator>,
}

/// An import declaration: the module it imports from and the local names
/// it binds.
#[derive(Debug)]
pub struct JsImportDecl {
    pub src: String,
    pub locals: Vec<String>,
}

} // verus!
