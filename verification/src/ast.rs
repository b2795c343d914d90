//! The syntax tree that the parser builds, and its mathematical value.
//!
//! Every node type has a twin with the suffix `V` in which text is a `Seq<char>`
//! and lists are `Seq`s; the `view` of a node (written `@`) is that twin.

use vstd::prelude::*;
use crate::lexer::Span;

verus! {

/// A binary operator.
#[derive(Clone, Copy, Debug, PartialEq, Eq, Structural)]
pub enum BinaryOp {
    Add,
    Sub,
    Mul,
    Div,
    Mod,
    Eq,
    NotEq,
    Lt,
    Gt,
    LtEq,
    GtEq,
    And,
    Or,
}

/// A unary operator.
#[derive(Clone, Copy, Debug, PartialEq, Eq, Structural)]
pub enum UnaryOp {
    Not,
    Neg,
    Deref,
    Ref,
    RefMut,
}

/// A compound assignment operator.
#[derive(Clone, Copy, Debug, PartialEq, Eq, Structural)]
pub enum CompoundAssignOp {
    AddAssign,
    SubAssign,
    MulAssign,
    DivAssign,
}

/// A whole RustScript source file.
#[derive(Debug)]
pub struct Program {
    pub uses: Vec<UseStmt>,
    pub decl: TopLevelDecl,
    pub span: Span,
}

/// A `use` statement naming a module, with an optional alias and import list.
#[derive(Debug)]
pub struct UseStmt {
    pub path: String,
    pub alias: Option<String>,
    pub imports: Vec<String>,
    pub span: Span,
}

/// The single top-level declaration of a file.
#[derive(Debug)]
pub enum TopLevelDecl {
    Plugin(PluginDecl),
    Writer(WriterDecl),
    Interface(InterfaceDecl),
    Module(ModuleDecl),
}

/// A `plugin Name { ... }` declaration.
#[derive(Debug)]
pub struct PluginDecl {
    pub name: String,
    pub body: Vec<PluginItem>,
    pub span: Span,
}

/// A `writer Name { ... }` declaration.
#[derive(Debug)]
pub struct WriterDecl {
    pub name: String,
    pub body: Vec<PluginItem>,
    pub span: Span,
}

/// A file without a `plugin` or `writer` keyword: a plain list of items.
#[derive(Debug)]
pub struct ModuleDecl {
    pub items: Vec<PluginItem>,
    pub span: Span,
}

/// An interface declaration (type-level only; the parser does not produce it).
#[derive(Debug)]
pub struct InterfaceDecl {
    pub name: String,
    pub span: Span,
}

/// An item in a plugin, writer or module body.
#[derive(Debug)]
pub enum PluginItem {
    Struct(StructDecl),
    Enum(EnumDecl),
    Function(FnDecl),
    Impl(ImplBlock),
}

/// A struct declaration.
#[derive(Debug)]
pub struct StructDecl {
    pub name: String,
    pub fields: Vec<StructField>,
    pub span: Span,
}

/// One field of a struct declaration.
#[derive(Debug)]
pub struct StructField {
    pub name: String,
    pub ty: Type,
    pub span: Span,
}

/// An enum declaration.
#[derive(Debug)]
pub struct EnumDecl {
    pub name: String,
    pub variants: Vec<EnumVariant>,
    pub span: Span,
}

/// One variant of an enum declaration, with optional tuple fields.
#[derive(Debug)]
pub struct EnumVariant {
    pub name: String,
    pub fields: Option<Vec<Type>>,
    pub span: Span,
}

/// A function declaration.
#[derive(Debug)]
pub struct FnDecl {
    pub is_pub: bool,
    pub name: String,
    pub params: Vec<Param>,
    pub return_type: Option<Type>,
    pub body: Block,
    pub span: Span,
}

/// A function parameter.
#[derive(Debug)]
pub struct Param {
    pub name: String,
    pub ty: Type,
    pub span: Span,
}

/// An `impl Target { ... }` block.
#[derive(Debug)]
pub struct ImplBlock {
    pub target: String,
    pub items: Vec<FnDecl>,
    pub span: Span,
}

/// A written type.
#[derive(Debug)]
pub enum Type {
    Primitive(String),
    Named(String),
    Container { name: String, type_args: Vec<Type> },
    Reference { mutable: bool, inner: Box<Type> },
    Tuple(Vec<Type>),
    Unit,
}

/// A braced block of statements.
#[derive(Debug)]
pub struct Block {
    pub stmts: Vec<Stmt>,
    pub span: Span,
}

/// A statement.
#[derive(Debug)]
pub enum Stmt {
    Let(LetStmt),
    Const(ConstStmt),
    Expr(ExprStmt),
    If(IfStmt),
    Match(MatchStmt),
    For(ForStmt),
    While(WhileStmt),
    Loop(LoopStmt),
    Return(ReturnStmt),
    Break(BreakStmt),
    Continue(ContinueStmt),
    Traverse(TraverseStmt),
}

/// A `let` binding.
#[derive(Debug)]
pub struct LetStmt {
    pub mutable: bool,
    pub pattern: Pattern,
    pub ty: Option<Type>,
    pub init: Expr,
    pub span: Span,
}

/// A `const` binding.
#[derive(Debug)]
pub struct ConstStmt {
    pub name: String,
    pub ty: Option<Type>,
    pub init: Expr,
    pub span: Span,
}

/// An expression used as a statement.
#[derive(Debug)]
pub struct ExprStmt {
    pub expr: Expr,
    pub span: Span,
}

/// An `if` (or `if let`) statement with its `else if` and `else` branches.
#[derive(Debug)]
pub struct IfStmt {
    pub condition: Expr,
    pub pattern: Option<Pattern>,
    pub then_branch: Block,
    pub else_if_branches: Vec<(Expr, Block)>,
    pub else_branch: Option<Block>,
    pub span: Span,
}

/// A `match` statement.
#[derive(Debug)]
pub struct MatchStmt {
    pub scrutinee: Expr,
    pub arms: Vec<MatchArm>,
    pub span: Span,
}

/// One arm of a match.
#[derive(Debug)]
pub struct MatchArm {
    pub pattern: Pattern,
    pub body: Expr,
    pub span: Span,
}

/// A pattern.
#[derive(Debug)]
pub enum Pattern {
    Ident(String),
    Literal(Literal),
    Tuple(Vec<Pattern>),
    Struct { name: String, fields: Vec<(String, Pattern)> },
    Variant { name: String, inner: Option<Box<Pattern>> },
    Or(Vec<Pattern>),
    Wildcard,
    Array(Vec<Pattern>),
    Object(Vec<(String, Pattern)>),
    Rest(String),
}

/// A `for pattern in iter { ... }` loop.
#[derive(Debug)]
pub struct ForStmt {
    pub pattern: Pattern,
    pub iter: Expr,
    pub body: Block,
    pub span: Span,
}

/// A `while` loop.
#[derive(Debug)]
pub struct WhileStmt {
    pub condition: Expr,
    pub body: Block,
    pub span: Span,
}

/// A `loop` statement.
#[derive(Debug)]
pub struct LoopStmt {
    pub body: Block,
    pub span: Span,
}

/// A `return` statement.
#[derive(Debug)]
pub struct ReturnStmt {
    pub value: Option<Expr>,
    pub span: Span,
}

/// A `break` statement.
#[derive(Debug)]
pub struct BreakStmt {
    pub span: Span,
}

/// A `continue` statement.
#[derive(Debug)]
pub struct ContinueStmt {
    pub span: Span,
}

/// A scoped `traverse(target) ...` statement.
#[derive(Debug)]
pub struct TraverseStmt {
    pub target: Expr,
    pub captures: Vec<Capture>,
    pub kind: TraverseKind,
    pub span: Span,
}

/// How a traverse statement visits its target.
#[derive(Debug)]
pub enum TraverseKind {
    Inline(InlineVisitor),
    Delegated(String),
}

/// The body of an inline traverse: state bindings and visitor methods.
#[derive(Debug)]
pub struct InlineVisitor {
    pub state: Vec<LetStmt>,
    pub methods: Vec<FnDecl>,
    pub span: Span,
}

/// One entry of a `capturing [...]` list.
#[derive(Debug)]
pub struct Capture {
    pub name: String,
    pub mutable: bool,
    pub span: Span,
}

/// An expression.
#[derive(Debug)]
pub enum Expr {
    Literal(Literal),
    Ident(IdentExpr),
    Binary(BinaryExpr),
    Unary(UnaryExpr),
    Call(CallExpr),
    Member(MemberExpr),
    Index(IndexExpr),
    StructInit(StructInitExpr),
    VecInit(VecInitExpr),
    If(IfExpr),
    Match(MatchExpr),
    Closure(ClosureExpr),
    Ref(RefExpr),
    Deref(DerefExpr),
    Assign(AssignExpr),
    CompoundAssign(CompoundAssignExpr),
    Range(RangeExpr),
    Paren(Box<Expr>),
    Block(Block),
    Try(Box<Expr>),
}

/// A literal; a float literal keeps its source text.
#[derive(Debug)]
pub enum Literal {
    String(String),
    Int(i64),
    Float(String),
    Bool(bool),
    Null,
    Unit,
}

/// A name used as an expression.
#[derive(Debug)]
pub struct IdentExpr {
    pub name: String,
    pub span: Span,
}

/// A binary operation.
#[derive(Debug)]
pub struct BinaryExpr {
    pub op: BinaryOp,
    pub left: Box<Expr>,
    pub right: Box<Expr>,
    pub span: Span,
}

/// A unary operation.
#[derive(Debug)]
pub struct UnaryExpr {
    pub op: UnaryOp,
    pub operand: Box<Expr>,
    pub span: Span,
}

/// A call.
#[derive(Debug)]
pub struct CallExpr {
    pub callee: Box<Expr>,
    pub args: Vec<Expr>,
    pub type_args: Vec<Type>,
    pub optional: bool,
    pub span: Span,
}

/// A member access (`a.b`, `a?.b`) or path (`A::b`).
#[derive(Debug)]
pub struct MemberExpr {
    pub object: Box<Expr>,
    pub property: String,
    pub optional: bool,
    pub computed: bool,
    pub is_path: bool,
    pub span: Span,
}

/// An index expression `a[i]`.
#[derive(Debug)]
pub struct IndexExpr {
    pub object: Box<Expr>,
    pub index: Box<Expr>,
    pub span: Span,
}

/// A struct literal `Name { field: value, ... }`.
#[derive(Debug)]
pub struct StructInitExpr {
    pub name: String,
    pub fields: Vec<(String, Expr)>,
    pub span: Span,
}

/// A `vec![...]` literal.
#[derive(Debug)]
pub struct VecInitExpr {
    pub elements: Vec<Expr>,
    pub span: Span,
}

/// An `if` used as an expression.
#[derive(Debug)]
pub struct IfExpr {
    pub condition: Box<Expr>,
    pub then_branch: Block,
    pub else_branch: Option<Block>,
    pub span: Span,
}

/// A `match` used as an expression.
#[derive(Debug)]
pub struct MatchExpr {
    pub scrutinee: Box<Expr>,
    pub arms: Vec<MatchArm>,
    pub span: Span,
}

/// A closure `|a, b| body`.
#[derive(Debug)]
pub struct ClosureExpr {
    pub params: Vec<String>,
    pub body: Box<Expr>,
    pub span: Span,
}

/// A borrow `&e` or `&mut e`.
#[derive(Debug)]
pub struct RefExpr {
    pub mutable: bool,
    pub expr: Box<Expr>,
    pub span: Span,
}

/// A dereference `*e`.
#[derive(Debug)]
pub struct DerefExpr {
    pub expr: Box<Expr>,
    pub span: Span,
}

/// An assignment `target = value`.
#[derive(Debug)]
pub struct AssignExpr {
    pub target: Box<Expr>,
    pub value: Box<Expr>,
    pub span: Span,
}

/// A compound assignment such as `a += b`.
#[derive(Debug)]
pub struct CompoundAssignExpr {
    pub op: CompoundAssignOp,
    pub target: Box<Expr>,
    pub value: Box<Expr>,
    pub span: Span,
}

/// A range `a..b`.
#[derive(Debug)]
pub struct RangeExpr {
    pub start: Option<Box<Expr>>,
    pub end: Option<Box<Expr>>,
    pub inclusive: bool,
    pub span: Span,
}

/// The mathematical value of [`Program`].
pub struct ProgramV {
    pub uses: Seq<UseStmtV>,
    pub decl: TopLevelDeclV,
    pub span: Span,
}

/// The mathematical value of [`UseStmt`].
pub struct UseStmtV {
    pub path: Seq<char>,
    pub alias: Option<Seq<char>>,
    pub imports: Seq<Seq<char>>,
    pub span: Span,
}

/// The mathematical value of [`TopLevelDecl`].
pub enum TopLevelDeclV {
    Plugin(PluginDeclV),
    Writer(WriterDeclV),
    Interface(InterfaceDeclV),
    Module(ModuleDeclV),
}

/// The mathematical value of [`PluginDecl`].
pub struct PluginDeclV {
    pub name: Seq<char>,
    pub body: Seq<PluginItemV>,
    pub span: Span,
}

/// The mathematical value of [`WriterDecl`].
pub struct WriterDeclV {
    pub name: Seq<char>,
    pub body: Seq<PluginItemV>,
    pub span: Span,
}

/// The mathematical value of [`ModuleDecl`].
pub struct ModuleDeclV {
    pub items: Seq<PluginItemV>,
    pub span: Span,
}

/// The mathematical value of [`InterfaceDecl`].
pub struct InterfaceDeclV {
    pub name: Seq<char>,
    pub span: Span,
}

/// The mathematical value of [`PluginItem`].
pub enum PluginItemV {
    Struct(StructDeclV),
    Enum(EnumDeclV),
    Function(FnDeclV),
    Impl(ImplBlockV),
}

/// The mathematical value of [`StructDecl`].
pub struct StructDeclV {
    pub name: Seq<char>,
    pub fields: Seq<StructFieldV>,
    pub span: Span,
}

/// The mathematical value of [`StructField`].
pub struct StructFieldV {
    pub name: Seq<char>,
    pub ty: TypeV,
    pub span: Span,
}

/// The mathematical value of [`EnumDecl`].
pub struct EnumDeclV {
    pub name: Seq<char>,
    pub variants: Seq<EnumVariantV>,
    pub span: Span,
}

/// The mathematical value of [`EnumVariant`].
pub struct EnumVariantV {
    pub name: Seq<char>,
    pub fields: Option<Seq<TypeV>>,
    pub span: Span,
}

/// The mathematical value of [`FnDecl`].
pub struct FnDeclV {
    pub is_pub: bool,
    pub name: Seq<char>,
    pub params: Seq<ParamV>,
    pub return_type: Option<TypeV>,
    pub body: BlockV,
    pub span: Span,
}

/// The mathematical value of [`Param`].
pub struct ParamV {
    pub name: Seq<char>,
    pub ty: TypeV,
    pub span: Span,
}

/// The mathematical value of [`ImplBlock`].
pub struct ImplBlockV {
    pub target: Seq<char>,
    pub items: Seq<FnDeclV>,
    pub span: Span,
}

/// The mathematical value of [`Type`].
pub enum TypeV {
    Primitive(Seq<char>),
    Named(Seq<char>),
    Container { name: Seq<char>, type_args: Seq<TypeV> },
    Reference { mutable: bool, inner: Box<TypeV> },
    Tuple(Seq<TypeV>),
    Unit,
}

/// The mathematical value of [`Block`].
pub struct BlockV {
    pub stmts: Seq<StmtV>,
    pub span: Span,
}

/// The mathematical value of [`Stmt`].
pub enum StmtV {
    Let(LetStmtV),
    Const(ConstStmtV),
    Expr(ExprStmtV),
    If(IfStmtV),
    Match(MatchStmtV),
    For(ForStmtV),
    While(WhileStmtV),
    Loop(LoopStmtV),
    Return(ReturnStmtV),
    Break(BreakStmtV),
    Continue(ContinueStmtV),
    Traverse(TraverseStmtV),
}

/// The mathematical value of [`LetStmt`].
pub struct LetStmtV {
    pub mutable: bool,
    pub pattern: PatternV,
    pub ty: Option<TypeV>,
    pub init: ExprV,
    pub span: Span,
}

/// The mathematical value of [`ConstStmt`].
pub struct ConstStmtV {
    pub name: Seq<char>,
    pub ty: Option<TypeV>,
    pub init: ExprV,
    pub span: Span,
}

/// The mathematical value of [`ExprStmt`].
pub struct ExprStmtV {
    pub expr: ExprV,
    pub span: Span,
}

/// The mathematical value of [`IfStmt`].
pub struct IfStmtV {
    pub condition: ExprV,
    pub pattern: Option<PatternV>,
    pub then_branch: BlockV,
    pub else_if_branches: Seq<(ExprV, BlockV)>,
    pub else_branch: Option<BlockV>,
    pub span: Span,
}

/// The mathematical value of [`MatchStmt`].
pub struct MatchStmtV {
    pub scrutinee: ExprV,
    pub arms: Seq<MatchArmV>,
    pub span: Span,
}

/// The mathematical value of [`MatchArm`].
pub struct MatchArmV {
    pub pattern: PatternV,
    pub body: ExprV,
    pub span: Span,
}

/// The mathematical value of [`Pattern`].
pub enum PatternV {
    Ident(Seq<char>),
    Literal(LiteralV),
    Tuple(Seq<PatternV>),
    Struct { name: Seq<char>, fields: Seq<(Seq<char>, PatternV)> },
    Variant { name: Seq<char>, inner: Option<Box<PatternV>> },
    Or(Seq<PatternV>),
    Wildcard,
    Array(Seq<PatternV>),
    Object(Seq<(Seq<char>, PatternV)>),
    Rest(Seq<char>),
}

/// The mathematical value of [`ForStmt`].
pub struct ForStmtV {
    pub pattern: PatternV,
    pub iter: ExprV,
    pub body: BlockV,
    pub span: Span,
}

/// The mathematical value of [`WhileStmt`].
pub struct WhileStmtV {
    pub condition: ExprV,
    pub body: BlockV,
    pub span: Span,
}

/// The mathematical value of [`LoopStmt`].
pub struct LoopStmtV {
    pub body: BlockV,
    pub span: Span,
}

/// The mathematical value of [`ReturnStmt`].
pub struct ReturnStmtV {
    pub value: Option<ExprV>,
    pub span: Span,
}

/// The mathematical value of [`BreakStmt`].
pub struct BreakStmtV {
    pub span: Span,
}

/// The mathematical value of [`ContinueStmt`].
pub struct ContinueStmtV {
    pub span: Span,
}

/// The mathematical value of [`TraverseStmt`].
pub struct TraverseStmtV {
    pub target: ExprV,
    pub captures: Seq<CaptureV>,
    pub kind: TraverseKindV,
    pub span: Span,
}

/// The mathematical value of [`TraverseKind`].
pub enum TraverseKindV {
    Inline(InlineVisitorV),
    Delegated(Seq<char>),
}

/// The mathematical value of [`InlineVisitor`].
pub struct InlineVisitorV {
    pub state: Seq<LetStmtV>,
    pub methods: Seq<FnDeclV>,
    pub span: Span,
}

/// The mathematical value of [`Capture`].
pub struct CaptureV {
    pub name: Seq<char>,
    pub mutable: bool,
    pub span: Span,
}

/// The mathematical value of [`Expr`].
pub enum ExprV {
    Literal(LiteralV),
    Ident(IdentExprV),
    Binary(BinaryExprV),
    Unary(UnaryExprV),
    Call(CallExprV),
    Member(MemberExprV),
    Index(IndexExprV),
    StructInit(StructInitExprV),
    VecInit(VecInitExprV),
    If(IfExprV),
    Match(MatchExprV),
    Closure(ClosureExprV),
    Ref(RefExprV),
    Deref(DerefExprV),
    Assign(AssignExprV),
    CompoundAssign(CompoundAssignExprV),
    Range(RangeExprV),
    Paren(Box<ExprV>),
    Block(BlockV),
    Try(Box<ExprV>),
}

/// The mathematical value of [`Literal`].
pub enum LiteralV {
    String(Seq<char>),
    Int(i64),
    Float(Seq<char>),
    Bool(bool),
    Null,
    Unit,
}

/// The mathematical value of [`IdentExpr`].
pub struct IdentExprV {
    pub name: Seq<char>,
    pub span: Span,
}

/// The mathematical value of [`BinaryExpr`].
pub struct BinaryExprV {
    pub op: BinaryOp,
    pub left: Box<ExprV>,
    pub right: Box<ExprV>,
    pub span: Span,
}

/// The mathematical value of [`UnaryExpr`].
pub struct UnaryExprV {
    pub op: UnaryOp,
    pub operand: Box<ExprV>,
    pub span: Span,
}

/// The mathematical value of [`CallExpr`].
pub struct CallExprV {
    pub callee: Box<ExprV>,
    pub args: Seq<ExprV>,
    pub type_args: Seq<TypeV>,
    pub optional: bool,
    pub span: Span,
}

/// The mathematical value of [`MemberExpr`].
pub struct MemberExprV {
    pub object: Box<ExprV>,
    pub property: Seq<char>,
    pub optional: bool,
    pub computed: bool,
    pub is_path: bool,
    pub span: Span,
}

/// The mathematical value of [`IndexExpr`].
pub struct IndexExprV {
    pub object: Box<ExprV>,
    pub index: Box<ExprV>,
    pub span: Span,
}

/// The mathematical value of [`StructInitExpr`].
pub struct StructInitExprV {
    pub name: Seq<char>,
    pub fields: Seq<(Seq<char>, ExprV)>,
    pub span: Span,
}

/// The mathematical value of [`VecInitExpr`].
pub struct VecInitExprV {
    pub elements: Seq<ExprV>,
    pub span: Span,
}

/// The mathematical value of [`IfExpr`].
pub struct IfExprV {
    pub condition: Box<ExprV>,
    pub then_branch: BlockV,
    pub else_branch: Option<BlockV>,
    pub span: Span,
}

/// The mathematical value of [`MatchExpr`].
pub struct MatchExprV {
    pub scrutinee: Box<ExprV>,
    pub arms: Seq<MatchArmV>,
    pub span: Span,
}

/// The mathematical value of [`ClosureExpr`].
pub struct ClosureExprV {
    pub params: Seq<Seq<char>>,
    pub body: Box<ExprV>,
    pub span: Span,
}

/// The mathematical value of [`RefExpr`].
pub struct RefExprV {
    pub mutable: bool,
    pub expr: Box<ExprV>,
    pub span: Span,
}

/// The mathematical value of [`DerefExpr`].
pub struct DerefExprV {
    pub expr: Box<ExprV>,
    pub span: Span,
}

/// The mathematical value of [`AssignExpr`].
pub struct AssignExprV {
    pub target: Box<ExprV>,
    pub value: Box<ExprV>,
    pub span: Span,
}

/// The mathematical value of [`CompoundAssignExpr`].
pub struct CompoundAssignExprV {
    pub op: CompoundAssignOp,
    pub target: Box<ExprV>,
    pub value: Box<ExprV>,
    pub span: Span,
}

/// The mathematical value of [`RangeExpr`].
pub struct RangeExprV {
    pub start: Option<Box<ExprV>>,
    pub end: Option<Box<ExprV>>,
    pub inclusive: bool,
    pub span: Span,
}

pub open spec fn v_program(x: Program) -> ProgramV
{
    ProgramV {
        uses: v_list_usestmt(x.uses@),
        decl: v_top_level_decl(x.decl),
        span: x.span,
    }
}

impl View for Program {
    type V = ProgramV;

    open spec fn view(&self) -> ProgramV {
        v_program(*self)
    }
}

pub open spec fn v_use_stmt(x: UseStmt) -> UseStmtV
{
    UseStmtV {
        path: x.path@,
        alias: v_opt_string(x.alias),
        imports: v_list_string(x.imports@),
        span: x.span,
    }
}

impl View for UseStmt {
    type V = UseStmtV;

    open spec fn view(&self) -> UseStmtV {
        v_use_stmt(*self)
    }
}

pub open spec fn v_top_level_decl(x: TopLevelDecl) -> TopLevelDeclV
{
    match x {
        TopLevelDecl::Plugin(y) => TopLevelDeclV::Plugin(v_plugin_decl(y)),
        TopLevelDecl::Writer(y) => TopLevelDeclV::Writer(v_writer_decl(y)),
        TopLevelDecl::Interface(y) => TopLevelDeclV::Interface(v_interface_decl(y)),
        TopLevelDecl::Module(y) => TopLevelDeclV::Module(v_module_decl(y)),
    }
}

impl View for TopLevelDecl {
    type V = TopLevelDeclV;

    open spec fn view(&self) -> TopLevelDeclV {
        v_top_level_decl(*self)
    }
}

pub open spec fn v_plugin_decl(x: PluginDecl) -> PluginDeclV
{
    PluginDeclV {
        name: x.name@,
        body: v_list_pluginitem(x.body@),
        span: x.span,
    }
}

impl View for PluginDecl {
    type V = PluginDeclV;

    open spec fn view(&self) -> PluginDeclV {
        v_plugin_decl(*self)
    }
}

pub open spec fn v_writer_decl(x: WriterDecl) -> WriterDeclV
{
    WriterDeclV {
        name: x.name@,
        body: v_list_pluginitem(x.body@),
        span: x.span,
    }
}

impl View for WriterDecl {
    type V = WriterDeclV;

    open spec fn view(&self) -> WriterDeclV {
        v_writer_decl(*self)
    }
}

pub open spec fn v_module_decl(x: ModuleDecl) -> ModuleDeclV
{
    ModuleDeclV {
        items: v_list_pluginitem(x.items@),
        span: x.span,
    }
}

impl View for ModuleDecl {
    type V = ModuleDeclV;

    open spec fn view(&self) -> ModuleDeclV {
        v_module_decl(*self)
    }
}

pub open spec fn v_interface_decl(x: InterfaceDecl) -> InterfaceDeclV
{
    InterfaceDeclV {
        name: x.name@,
        span: x.span,
    }
}

impl View for InterfaceDecl {
    type V = InterfaceDeclV;

    open spec fn view(&self) -> InterfaceDeclV {
        v_interface_decl(*self)
    }
}

pub open spec fn v_plugin_item(x: PluginItem) -> PluginItemV
{
    match x {
        PluginItem::Struct(y) => PluginItemV::Struct(v_struct_decl(y)),
        PluginItem::Enum(y) => PluginItemV::Enum(v_enum_decl(y)),
        PluginItem::Function(y) => PluginItemV::Function(v_fn_decl(y)),
        PluginItem::Impl(y) => PluginItemV::Impl(v_impl_block(y)),
    }
}

impl View for PluginItem {
    type V = PluginItemV;

    open spec fn view(&self) -> PluginItemV {
        v_plugin_item(*self)
    }
}

pub open spec fn v_struct_decl(x: StructDecl) -> StructDeclV
{
    StructDeclV {
        name: x.name@,
        fields: v_list_structfield(x.fields@),
        span: x.span,
    }
}

impl View for StructDecl {
    type V = StructDeclV;

    open spec fn view(&self) -> StructDeclV {
        v_struct_decl(*self)
    }
}

pub open spec fn v_struct_field(x: StructField) -> StructFieldV
{
    StructFieldV {
        name: x.name@,
        ty: v_type(x.ty),
        span: x.span,
    }
}

impl View for StructField {
    type V = StructFieldV;

    open spec fn view(&self) -> StructFieldV {
        v_struct_field(*self)
    }
}

pub open spec fn v_enum_decl(x: EnumDecl) -> EnumDeclV
{
    EnumDeclV {
        name: x.name@,
        variants: v_list_enumvariant(x.variants@),
        span: x.span,
    }
}

impl View for EnumDecl {
    type V = EnumDeclV;

    open spec fn view(&self) -> EnumDeclV {
        v_enum_decl(*self)
    }
}

pub open spec fn v_enum_variant(x: EnumVariant) -> EnumVariantV
{
    EnumVariantV {
        name: x.name@,
        fields: v_opt_vec_type(x.fields),
        span: x.span,
    }
}

impl View for EnumVariant {
    type V = EnumVariantV;

    open spec fn view(&self) -> EnumVariantV {
        v_enum_variant(*self)
    }
}

pub open spec fn v_fn_decl(x: FnDecl) -> FnDeclV
    decreases x,
{
    FnDeclV {
        is_pub: x.is_pub,
        name: x.name@,
        params: v_list_param(x.params@),
        return_type: v_opt_type(x.return_type),
        body: v_block(x.body),
        span: x.span,
    }
}

impl View for FnDecl {
    type V = FnDeclV;

    open spec fn view(&self) -> FnDeclV {
        v_fn_decl(*self)
    }
}

pub open spec fn v_param(x: Param) -> ParamV
{
    ParamV {
        name: x.name@,
        ty: v_type(x.ty),
        span: x.span,
    }
}

impl View for Param {
    type V = ParamV;

    open spec fn view(&self) -> ParamV {
        v_param(*self)
    }
}

pub open spec fn v_impl_block(x: ImplBlock) -> ImplBlockV
{
    ImplBlockV {
        target: x.target@,
        items: v_list_fndecl(x.items@),
        span: x.span,
    }
}

impl View for ImplBlock {
    type V = ImplBlockV;

    open spec fn view(&self) -> ImplBlockV {
        v_impl_block(*self)
    }
}

pub open spec fn v_type(x: Type) -> TypeV
    decreases x,
{
    match x {
        Type::Primitive(y) => TypeV::Primitive(y@),
        Type::Named(y) => TypeV::Named(y@),
        Type::Container { name, type_args } => TypeV::Container { name: name@, type_args: v_list_type(type_args@) },
        Type::Reference { mutable, inner } => TypeV::Reference { mutable: mutable, inner: Box::new(v_type(*inner)) },
        Type::Tuple(y) => TypeV::Tuple(v_list_type(y@)),
        Type::Unit => TypeV::Unit,
    }
}

impl View for Type {
    type V = TypeV;

    open spec fn view(&self) -> TypeV {
        v_type(*self)
    }
}

pub open spec fn v_block(x: Block) -> BlockV
    decreases x,
{
    BlockV {
        stmts: v_list_stmt(x.stmts@),
        span: x.span,
    }
}

impl View for Block {
    type V = BlockV;

    open spec fn view(&self) -> BlockV {
        v_block(*self)
    }
}

pub open spec fn v_stmt(x: Stmt) -> StmtV
    decreases x,
{
    match x {
        Stmt::Let(y) => StmtV::Let(v_let_stmt(y)),
        Stmt::Const(y) => StmtV::Const(v_const_stmt(y)),
        Stmt::Expr(y) => StmtV::Expr(v_expr_stmt(y)),
        Stmt::If(y) => StmtV::If(v_if_stmt(y)),
        Stmt::Match(y) => StmtV::Match(v_match_stmt(y)),
        Stmt::For(y) => StmtV::For(v_for_stmt(y)),
        Stmt::While(y) => StmtV::While(v_while_stmt(y)),
        Stmt::Loop(y) => StmtV::Loop(v_loop_stmt(y)),
        Stmt::Return(y) => StmtV::Return(v_return_stmt(y)),
        Stmt::Break(y) => StmtV::Break(v_break_stmt(y)),
        Stmt::Continue(y) => StmtV::Continue(v_continue_stmt(y)),
        Stmt::Traverse(y) => StmtV::Traverse(v_traverse_stmt(y)),
    }
}

impl View for Stmt {
    type V = StmtV;

    open spec fn view(&self) -> StmtV {
        v_stmt(*self)
    }
}

pub open spec fn v_let_stmt(x: LetStmt) -> LetStmtV
    decreases x,
{
    LetStmtV {
        mutable: x.mutable,
        pattern: v_pattern(x.pattern),
        ty: v_opt_type(x.ty),
        init: v_expr(x.init),
        span: x.span,
    }
}

impl View for LetStmt {
    type V = LetStmtV;

    open spec fn view(&self) -> LetStmtV {
        v_let_stmt(*self)
    }
}

pub open spec fn v_const_stmt(x: ConstStmt) -> ConstStmtV
    decreases x,
{
    ConstStmtV {
        name: x.name@,
        ty: v_opt_type(x.ty),
        init: v_expr(x.init),
        span: x.span,
    }
}

impl View for ConstStmt {
    type V = ConstStmtV;

    open spec fn view(&self) -> ConstStmtV {
        v_const_stmt(*self)
    }
}

pub open spec fn v_expr_stmt(x: ExprStmt) -> ExprStmtV
    decreases x,
{
    ExprStmtV {
        expr: v_expr(x.expr),
        span: x.span,
    }
}

impl View for ExprStmt {
    type V = ExprStmtV;

    open spec fn view(&self) -> ExprStmtV {
        v_expr_stmt(*self)
    }
}

pub open spec fn v_if_stmt(x: IfStmt) -> IfStmtV
    decreases x,
{
    IfStmtV {
        condition: v_expr(x.condition),
        pattern: v_opt_pattern(x.pattern),
        then_branch: v_block(x.then_branch),
        else_if_branches: v_list_expr_block(x.else_if_branches@),
        else_branch: v_opt_block(x.else_branch),
        span: x.span,
    }
}

impl View for IfStmt {
    type V = IfStmtV;

    open spec fn view(&self) -> IfStmtV {
        v_if_stmt(*self)
    }
}

pub open spec fn v_match_stmt(x: MatchStmt) -> MatchStmtV
    decreases x,
{
    MatchStmtV {
        scrutinee: v_expr(x.scrutinee),
        arms: v_list_matcharm(x.arms@),
        span: x.span,
    }
}

impl View for MatchStmt {
    type V = MatchStmtV;

    open spec fn view(&self) -> MatchStmtV {
        v_match_stmt(*self)
    }
}

pub open spec fn v_match_arm(x: MatchArm) -> MatchArmV
    decreases x,
{
    MatchArmV {
        pattern: v_pattern(x.pattern),
        body: v_expr(x.body),
        span: x.span,
    }
}

impl View for MatchArm {
    type V = MatchArmV;

    open spec fn view(&self) -> MatchArmV {
        v_match_arm(*self)
    }
}

pub open spec fn v_pattern(x: Pattern) -> PatternV
    decreases x,
{
    match x {
        Pattern::Ident(y) => PatternV::Ident(y@),
        Pattern::Literal(y) => PatternV::Literal(v_literal(y)),
        Pattern::Tuple(y) => PatternV::Tuple(v_list_pattern(y@)),
        Pattern::Struct { name, fields } => PatternV::Struct { name: name@, fields: v_list_string_pattern(fields@) },
        Pattern::Variant { name, inner } => PatternV::Variant { name: name@, inner: v_opt_box_pattern(inner) },
        Pattern::Or(y) => PatternV::Or(v_list_pattern(y@)),
        Pattern::Wildcard => PatternV::Wildcard,
        Pattern::Array(y) => PatternV::Array(v_list_pattern(y@)),
        Pattern::Object(y) => PatternV::Object(v_list_string_pattern(y@)),
        Pattern::Rest(y) => PatternV::Rest(y@),
    }
}

impl View for Pattern {
    type V = PatternV;

    open spec fn view(&self) -> PatternV {
        v_pattern(*self)
    }
}

pub open spec fn v_for_stmt(x: ForStmt) -> ForStmtV
    decreases x,
{
    ForStmtV {
        pattern: v_pattern(x.pattern),
        iter: v_expr(x.iter),
        body: v_block(x.body),
        span: x.span,
    }
}

impl View for ForStmt {
    type V = ForStmtV;

    open spec fn view(&self) -> ForStmtV {
        v_for_stmt(*self)
    }
}

pub open spec fn v_while_stmt(x: WhileStmt) -> WhileStmtV
    decreases x,
{
    WhileStmtV {
        condition: v_expr(x.condition),
        body: v_block(x.body),
        span: x.span,
    }
}

impl View for WhileStmt {
    type V = WhileStmtV;

    open spec fn view(&self) -> WhileStmtV {
        v_while_stmt(*self)
    }
}

pub open spec fn v_loop_stmt(x: LoopStmt) -> LoopStmtV
    decreases x,
{
    LoopStmtV {
        body: v_block(x.body),
        span: x.span,
    }
}

impl View for LoopStmt {
    type V = LoopStmtV;

    open spec fn view(&self) -> LoopStmtV {
        v_loop_stmt(*self)
    }
}

pub open spec fn v_return_stmt(x: ReturnStmt) -> ReturnStmtV
    decreases x,
{
    ReturnStmtV {
        value: v_opt_expr(x.value),
        span: x.span,
    }
}

impl View for ReturnStmt {
    type V = ReturnStmtV;

    open spec fn view(&self) -> ReturnStmtV {
        v_return_stmt(*self)
    }
}

pub open spec fn v_break_stmt(x: BreakStmt) -> BreakStmtV
{
    BreakStmtV {
        span: x.span,
    }
}

impl View for BreakStmt {
    type V = BreakStmtV;

    open spec fn view(&self) -> BreakStmtV {
        v_break_stmt(*self)
    }
}

pub open spec fn v_continue_stmt(x: ContinueStmt) -> ContinueStmtV
{
    ContinueStmtV {
        span: x.span,
    }
}

impl View for ContinueStmt {
    type V = ContinueStmtV;

    open spec fn view(&self) -> ContinueStmtV {
        v_continue_stmt(*self)
    }
}

pub open spec fn v_traverse_stmt(x: TraverseStmt) -> TraverseStmtV
    decreases x,
{
    TraverseStmtV {
        target: v_expr(x.target),
        captures: v_list_capture(x.captures@),
        kind: v_traverse_kind(x.kind),
        span: x.span,
    }
}

impl View for TraverseStmt {
    type V = TraverseStmtV;

    open spec fn view(&self) -> TraverseStmtV {
        v_traverse_stmt(*self)
    }
}

pub open spec fn v_traverse_kind(x: TraverseKind) -> TraverseKindV
    decreases x,
{
    match x {
        TraverseKind::Inline(y) => TraverseKindV::Inline(v_inline_visitor(y)),
        TraverseKind::Delegated(y) => TraverseKindV::Delegated(y@),
    }
}

impl View for TraverseKind {
    type V = TraverseKindV;

    open spec fn view(&self) -> TraverseKindV {
        v_traverse_kind(*self)
    }
}

pub open spec fn v_inline_visitor(x: InlineVisitor) -> InlineVisitorV
    decreases x,
{
    InlineVisitorV {
        state: v_list_letstmt(x.state@),
        methods: v_list_fndecl(x.methods@),
        span: x.span,
    }
}

impl View for InlineVisitor {
    type V = InlineVisitorV;

    open spec fn view(&self) -> InlineVisitorV {
        v_inline_visitor(*self)
    }
}

pub open spec fn v_capture(x: Capture) -> CaptureV
{
    CaptureV {
        name: x.name@,
        mutable: x.mutable,
        span: x.span,
    }
}

impl View for Capture {
    type V = CaptureV;

    open spec fn view(&self) -> CaptureV {
        v_capture(*self)
    }
}

pub open spec fn v_expr(x: Expr) -> ExprV
    decreases x,
{
    match x {
        Expr::Literal(y) => ExprV::Literal(v_literal(y)),
        Expr::Ident(y) => ExprV::Ident(IdentExprV { name: y.name@, span: y.span }),
        Expr::Binary(y) => ExprV::Binary(BinaryExprV { op: y.op, left: Box::new(v_expr(*y.left)), right: Box::new(v_expr(*y.right)), span: y.span }),
        Expr::Unary(y) => ExprV::Unary(UnaryExprV { op: y.op, operand: Box::new(v_expr(*y.operand)), span: y.span }),
        Expr::Call(y) => ExprV::Call(CallExprV { callee: Box::new(v_expr(*y.callee)), args: v_list_expr(y.args@), type_args: v_list_type(y.type_args@), optional: y.optional, span: y.span }),
        Expr::Member(y) => ExprV::Member(MemberExprV { object: Box::new(v_expr(*y.object)), property: y.property@, optional: y.optional, computed: y.computed, is_path: y.is_path, span: y.span }),
        Expr::Index(y) => ExprV::Index(IndexExprV { object: Box::new(v_expr(*y.object)), index: Box::new(v_expr(*y.index)), span: y.span }),
        Expr::StructInit(y) => ExprV::StructInit(StructInitExprV { name: y.name@, fields: v_list_string_expr(y.fields@), span: y.span }),
        Expr::VecInit(y) => ExprV::VecInit(VecInitExprV { elements: v_list_expr(y.elements@), span: y.span }),
        Expr::If(y) => ExprV::If(IfExprV { condition: Box::new(v_expr(*y.condition)), then_branch: v_block(y.then_branch), else_branch: v_opt_block(y.else_branch), span: y.span }),
        Expr::Match(y) => ExprV::Match(MatchExprV { scrutinee: Box::new(v_expr(*y.scrutinee)), arms: v_list_matcharm(y.arms@), span: y.span }),
        Expr::Closure(y) => ExprV::Closure(ClosureExprV { params: v_list_string(y.params@), body: Box::new(v_expr(*y.body)), span: y.span }),
        Expr::Ref(y) => ExprV::Ref(RefExprV { mutable: y.mutable, expr: Box::new(v_expr(*y.expr)), span: y.span }),
        Expr::Deref(y) => ExprV::Deref(DerefExprV { expr: Box::new(v_expr(*y.expr)), span: y.span }),
        Expr::Assign(y) => ExprV::Assign(AssignExprV { target: Box::new(v_expr(*y.target)), value: Box::new(v_expr(*y.value)), span: y.span }),
        Expr::CompoundAssign(y) => ExprV::CompoundAssign(CompoundAssignExprV { op: y.op, target: Box::new(v_expr(*y.target)), value: Box::new(v_expr(*y.value)), span: y.span }),
        Expr::Range(y) => ExprV::Range(RangeExprV { start: v_opt_box_expr(y.start), end: v_opt_box_expr(y.end), inclusive: y.inclusive, span: y.span }),
        Expr::Paren(y) => ExprV::Paren(Box::new(v_expr(*y))),
        Expr::Block(y) => ExprV::Block(BlockV { stmts: v_list_stmt(y.stmts@), span: y.span }),
        Expr::Try(y) => ExprV::Try(Box::new(v_expr(*y))),
    }
}

impl View for Expr {
    type V = ExprV;

    open spec fn view(&self) -> ExprV {
        v_expr(*self)
    }
}

pub open spec fn v_literal(x: Literal) -> LiteralV
{
    match x {
        Literal::String(y) => LiteralV::String(y@),
        Literal::Int(y) => LiteralV::Int(y),
        Literal::Float(y) => LiteralV::Float(y@),
        Literal::Bool(y) => LiteralV::Bool(y),
        Literal::Null => LiteralV::Null,
        Literal::Unit => LiteralV::Unit,
    }
}

impl View for Literal {
    type V = LiteralV;

    open spec fn view(&self) -> LiteralV {
        v_literal(*self)
    }
}

pub open spec fn v_ident_expr(x: IdentExpr) -> IdentExprV
{
    IdentExprV {
        name: x.name@,
        span: x.span,
    }
}

impl View for IdentExpr {
    type V = IdentExprV;

    open spec fn view(&self) -> IdentExprV {
        v_ident_expr(*self)
    }
}

pub open spec fn v_binary_expr(x: BinaryExpr) -> BinaryExprV
    decreases x,
{
    BinaryExprV {
        op: x.op,
        left: Box::new(v_expr(*x.left)),
        right: Box::new(v_expr(*x.right)),
        span: x.span,
    }
}

impl View for BinaryExpr {
    type V = BinaryExprV;

    open spec fn view(&self) -> BinaryExprV {
        v_binary_expr(*self)
    }
}

pub open spec fn v_unary_expr(x: UnaryExpr) -> UnaryExprV
    decreases x,
{
    UnaryExprV {
        op: x.op,
        operand: Box::new(v_expr(*x.operand)),
        span: x.span,
    }
}

impl View for UnaryExpr {
    type V = UnaryExprV;

    open spec fn view(&self) -> UnaryExprV {
        v_unary_expr(*self)
    }
}

pub open spec fn v_call_expr(x: CallExpr) -> CallExprV
    decreases x,
{
    CallExprV {
        callee: Box::new(v_expr(*x.callee)),
        args: v_list_expr(x.args@),
        type_args: v_list_type(x.type_args@),
        optional: x.optional,
        span: x.span,
    }
}

impl View for CallExpr {
    type V = CallExprV;

    open spec fn view(&self) -> CallExprV {
        v_call_expr(*self)
    }
}

pub open spec fn v_member_expr(x: MemberExpr) -> MemberExprV
    decreases x,
{
    MemberExprV {
        object: Box::new(v_expr(*x.object)),
        property: x.property@,
        optional: x.optional,
        computed: x.computed,
        is_path: x.is_path,
        span: x.span,
    }
}

impl View for MemberExpr {
    type V = MemberExprV;

    open spec fn view(&self) -> MemberExprV {
        v_member_expr(*self)
    }
}

pub open spec fn v_index_expr(x: IndexExpr) -> IndexExprV
    decreases x,
{
    IndexExprV {
        object: Box::new(v_expr(*x.object)),
        index: Box::new(v_expr(*x.index)),
        span: x.span,
    }
}

impl View for IndexExpr {
    type V = IndexExprV;

    open spec fn view(&self) -> IndexExprV {
        v_index_expr(*self)
    }
}

pub open spec fn v_struct_init_expr(x: StructInitExpr) -> StructInitExprV
    decreases x,
{
    StructInitExprV {
        name: x.name@,
        fields: v_list_string_expr(x.fields@),
        span: x.span,
    }
}

impl View for StructInitExpr {
    type V = StructInitExprV;

    open spec fn view(&self) -> StructInitExprV {
        v_struct_init_expr(*self)
    }
}

pub open spec fn v_vec_init_expr(x: VecInitExpr) -> VecInitExprV
    decreases x,
{
    VecInitExprV {
        elements: v_list_expr(x.elements@),
        span: x.span,
    }
}

impl View for VecInitExpr {
    type V = VecInitExprV;

    open spec fn view(&self) -> VecInitExprV {
        v_vec_init_expr(*self)
    }
}

pub open spec fn v_if_expr(x: IfExpr) -> IfExprV
    decreases x,
{
    IfExprV {
        condition: Box::new(v_expr(*x.condition)),
        then_branch: v_block(x.then_branch),
        else_branch: v_opt_block(x.else_branch),
        span: x.span,
    }
}

impl View for IfExpr {
    type V = IfExprV;

    open spec fn view(&self) -> IfExprV {
        v_if_expr(*self)
    }
}

pub open spec fn v_match_expr(x: MatchExpr) -> MatchExprV
    decreases x,
{
    MatchExprV {
        scrutinee: Box::new(v_expr(*x.scrutinee)),
        arms: v_list_matcharm(x.arms@),
        span: x.span,
    }
}

impl View for MatchExpr {
    type V = MatchExprV;

    open spec fn view(&self) -> MatchExprV {
        v_match_expr(*self)
    }
}

pub open spec fn v_closure_expr(x: ClosureExpr) -> ClosureExprV
    decreases x,
{
    ClosureExprV {
        params: v_list_string(x.params@),
        body: Box::new(v_expr(*x.body)),
        span: x.span,
    }
}

impl View for ClosureExpr {
    type V = ClosureExprV;

    open spec fn view(&self) -> ClosureExprV {
        v_closure_expr(*self)
    }
}

pub open spec fn v_ref_expr(x: RefExpr) -> RefExprV
    decreases x,
{
    RefExprV {
        mutable: x.mutable,
        expr: Box::new(v_expr(*x.expr)),
        span: x.span,
    }
}

impl View for RefExpr {
    type V = RefExprV;

    open spec fn view(&self) -> RefExprV {
        v_ref_expr(*self)
    }
}

pub open spec fn v_deref_expr(x: DerefExpr) -> DerefExprV
    decreases x,
{
    DerefExprV {
        expr: Box::new(v_expr(*x.expr)),
        span: x.span,
    }
}

impl View for DerefExpr {
    type V = DerefExprV;

    open spec fn view(&self) -> DerefExprV {
        v_deref_expr(*self)
    }
}

pub open spec fn v_assign_expr(x: AssignExpr) -> AssignExprV
    decreases x,
{
    AssignExprV {
        target: Box::new(v_expr(*x.target)),
        value: Box::new(v_expr(*x.value)),
        span: x.span,
    }
}

impl View for AssignExpr {
    type V = AssignExprV;

    open spec fn view(&self) -> AssignExprV {
        v_assign_expr(*self)
    }
}

pub open spec fn v_compound_assign_expr(x: CompoundAssignExpr) -> CompoundAssignExprV
    decreases x,
{
    CompoundAssignExprV {
        op: x.op,
        target: Box::new(v_expr(*x.target)),
        value: Box::new(v_expr(*x.value)),
        span: x.span,
    }
}

impl View for CompoundAssignExpr {
    type V = CompoundAssignExprV;

    open spec fn view(&self) -> CompoundAssignExprV {
        v_compound_assign_expr(*self)
    }
}

pub open spec fn v_range_expr(x: RangeExpr) -> RangeExprV
    decreases x,
{
    RangeExprV {
        start: v_opt_box_expr(x.start),
        end: v_opt_box_expr(x.end),
        inclusive: x.inclusive,
        span: x.span,
    }
}

impl View for RangeExpr {
    type V = RangeExprV;

    open spec fn view(&self) -> RangeExprV {
        v_range_expr(*self)
    }
}

pub open spec fn v_list_usestmt(s: Seq<UseStmt>) -> Seq<UseStmtV> {
    s.map_values(|x: UseStmt| v_use_stmt(x))
}

pub open spec fn v_opt_string(o: Option<String>) -> Option<Seq<char>>

{
    match o {
        Some(x) => Some(x@),
        None => None,
    }
}

pub open spec fn v_list_string(s: Seq<String>) -> Seq<Seq<char>> {
    s.map_values(|x: String| x@)
}

pub open spec fn v_list_pluginitem(s: Seq<PluginItem>) -> Seq<PluginItemV> {
    s.map_values(|x: PluginItem| v_plugin_item(x))
}

pub open spec fn v_list_structfield(s: Seq<StructField>) -> Seq<StructFieldV> {
    s.map_values(|x: StructField| v_struct_field(x))
}

pub open spec fn v_list_enumvariant(s: Seq<EnumVariant>) -> Seq<EnumVariantV> {
    s.map_values(|x: EnumVariant| v_enum_variant(x))
}

pub open spec fn v_opt_vec_type(o: Option<Vec<Type>>) -> Option<Seq<TypeV>>
    decreases o,
{
    match o {
        Some(x) => Some(v_list_type(x@)),
        None => None,
    }
}

pub open spec fn v_list_type(s: Seq<Type>) -> Seq<TypeV>
    decreases s,
{
    if s.len() == 0 {
        Seq::empty()
    } else {
        v_list_type(s.drop_last()).push(v_type(s.last()))
    }
}

pub open spec fn v_list_param(s: Seq<Param>) -> Seq<ParamV> {
    s.map_values(|x: Param| v_param(x))
}

pub open spec fn v_opt_type(o: Option<Type>) -> Option<TypeV>
    decreases o,
{
    match o {
        Some(x) => Some(v_type(x)),
        None => None,
    }
}

pub open spec fn v_list_fndecl(s: Seq<FnDecl>) -> Seq<FnDeclV>
    decreases s,
{
    if s.len() == 0 {
        Seq::empty()
    } else {
        v_list_fndecl(s.drop_last()).push(v_fn_decl(s.last()))
    }
}

pub open spec fn v_list_stmt(s: Seq<Stmt>) -> Seq<StmtV>
    decreases s,
{
    if s.len() == 0 {
        Seq::empty()
    } else {
        v_list_stmt(s.drop_last()).push(v_stmt(s.last()))
    }
}

pub open spec fn v_opt_pattern(o: Option<Pattern>) -> Option<PatternV>
    decreases o,
{
    match o {
        Some(x) => Some(v_pattern(x)),
        None => None,
    }
}

pub open spec fn v_list_expr_block(s: Seq<(Expr, Block)>) -> Seq<(ExprV, BlockV)>
    decreases s,
{
    if s.len() == 0 {
        Seq::empty()
    } else {
        v_list_expr_block(s.drop_last()).push((v_expr(s.last().0), v_block(s.last().1)))
    }
}

pub open spec fn v_opt_block(o: Option<Block>) -> Option<BlockV>
    decreases o,
{
    match o {
        Some(x) => Some(v_block(x)),
        None => None,
    }
}

pub open spec fn v_list_matcharm(s: Seq<MatchArm>) -> Seq<MatchArmV>
    decreases s,
{
    if s.len() == 0 {
        Seq::empty()
    } else {
        v_list_matcharm(s.drop_last()).push(v_match_arm(s.last()))
    }
}

pub open spec fn v_list_pattern(s: Seq<Pattern>) -> Seq<PatternV>
    decreases s,
{
    if s.len() == 0 {
        Seq::empty()
    } else {
        v_list_pattern(s.drop_last()).push(v_pattern(s.last()))
    }
}

pub open spec fn v_list_string_pattern(s: Seq<(String, Pattern)>) -> Seq<(Seq<char>, PatternV)>
    decreases s,
{
    if s.len() == 0 {
        Seq::empty()
    } else {
        v_list_string_pattern(s.drop_last()).push((s.last().0@, v_pattern(s.last().1)))
    }
}

pub open spec fn v_opt_box_pattern(o: Option<Box<Pattern>>) -> Option<Box<PatternV>>
    decreases o,
{
    match o {
        Some(x) => Some(Box::new(v_pattern(*x))),
        None => None,
    }
}

pub open spec fn v_opt_expr(o: Option<Expr>) -> Option<ExprV>
    decreases o,
{
    match o {
        Some(x) => Some(v_expr(x)),
        None => None,
    }
}

pub open spec fn v_list_capture(s: Seq<Capture>) -> Seq<CaptureV> {
    s.map_values(|x: Capture| v_capture(x))
}

pub open spec fn v_list_letstmt(s: Seq<LetStmt>) -> Seq<LetStmtV>
    decreases s,
{
    if s.len() == 0 {
        Seq::empty()
    } else {
        v_list_letstmt(s.drop_last()).push(v_let_stmt(s.last()))
    }
}

pub open spec fn v_list_expr(s: Seq<Expr>) -> Seq<ExprV>
    decreases s,
{
    if s.len() == 0 {
        Seq::empty()
    } else {
        v_list_expr(s.drop_last()).push(v_expr(s.last()))
    }
}

pub open spec fn v_list_string_expr(s: Seq<(String, Expr)>) -> Seq<(Seq<char>, ExprV)>
    decreases s,
{
    if s.len() == 0 {
        Seq::empty()
    } else {
        v_list_string_expr(s.drop_last()).push((s.last().0@, v_expr(s.last().1)))
    }
}

pub open spec fn v_opt_box_expr(o: Option<Box<Expr>>) -> Option<Box<ExprV>>
    decreases o,
{
    match o {
        Some(x) => Some(Box::new(v_expr(*x))),
        None => None,
    }
}

/// Viewing a list after a push views the old list and the new element.
pub proof fn lemma_v_list_usestmt_push(s: Seq<UseStmt>, x: UseStmt)
    ensures
        v_list_usestmt(s.push(x)) == v_list_usestmt(s).push(v_use_stmt(x)),
        v_list_usestmt(s).len() == s.len(),
    decreases s.len(),
{
    assert(s.push(x).map_values(|y: UseStmt| v_use_stmt(y)) =~= s.map_values(|y: UseStmt| v_use_stmt(y)).push(v_use_stmt(x)));
}

/// The empty list views as the empty list.
pub proof fn lemma_v_list_usestmt_empty(s: Seq<UseStmt>)
    requires
        s.len() == 0,
    ensures
        v_list_usestmt(s) == Seq::<UseStmtV>::empty(),
{
    assert(s.map_values(|y: UseStmt| v_use_stmt(y)) =~= Seq::<UseStmtV>::empty());
}

/// Viewing a list after a push views the old list and the new element.
pub proof fn lemma_v_list_string_push(s: Seq<String>, x: String)
    ensures
        v_list_string(s.push(x)) == v_list_string(s).push(x@),
        v_list_string(s).len() == s.len(),
    decreases s.len(),
{
    assert(s.push(x).map_values(|y: String| y@) =~= s.map_values(|y: String| y@).push(x@));
}

/// The empty list views as the empty list.
pub proof fn lemma_v_list_string_empty(s: Seq<String>)
    requires
        s.len() == 0,
    ensures
        v_list_string(s) == Seq::<Seq<char>>::empty(),
{
    assert(s.map_values(|y: String| y@) =~= Seq::<Seq<char>>::empty());
}

/// Viewing a list after a push views the old list and the new element.
pub proof fn lemma_v_list_pluginitem_push(s: Seq<PluginItem>, x: PluginItem)
    ensures
        v_list_pluginitem(s.push(x)) == v_list_pluginitem(s).push(v_plugin_item(x)),
        v_list_pluginitem(s).len() == s.len(),
    decreases s.len(),
{
    assert(s.push(x).map_values(|y: PluginItem| v_plugin_item(y)) =~= s.map_values(|y: PluginItem| v_plugin_item(y)).push(v_plugin_item(x)));
}

/// The empty list views as the empty list.
pub proof fn lemma_v_list_pluginitem_empty(s: Seq<PluginItem>)
    requires
        s.len() == 0,
    ensures
        v_list_pluginitem(s) == Seq::<PluginItemV>::empty(),
{
    assert(s.map_values(|y: PluginItem| v_plugin_item(y)) =~= Seq::<PluginItemV>::empty());
}

/// Viewing a list after a push views the old list and the new element.
pub proof fn lemma_v_list_structfield_push(s: Seq<StructField>, x: StructField)
    ensures
        v_list_structfield(s.push(x)) == v_list_structfield(s).push(v_struct_field(x)),
        v_list_structfield(s).len() == s.len(),
    decreases s.len(),
{
    assert(s.push(x).map_values(|y: StructField| v_struct_field(y)) =~= s.map_values(|y: StructField| v_struct_field(y)).push(v_struct_field(x)));
}

/// The empty list views as the empty list.
pub proof fn lemma_v_list_structfield_empty(s: Seq<StructField>)
    requires
        s.len() == 0,
    ensures
        v_list_structfield(s) == Seq::<StructFieldV>::empty(),
{
    assert(s.map_values(|y: StructField| v_struct_field(y)) =~= Seq::<StructFieldV>::empty());
}

/// Viewing a list after a push views the old list and the new element.
pub proof fn lemma_v_list_enumvariant_push(s: Seq<EnumVariant>, x: EnumVariant)
    ensures
        v_list_enumvariant(s.push(x)) == v_list_enumvariant(s).push(v_enum_variant(x)),
        v_list_enumvariant(s).len() == s.len(),
    decreases s.len(),
{
    assert(s.push(x).map_values(|y: EnumVariant| v_enum_variant(y)) =~= s.map_values(|y: EnumVariant| v_enum_variant(y)).push(v_enum_variant(x)));
}

/// The empty list views as the empty list.
pub proof fn lemma_v_list_enumvariant_empty(s: Seq<EnumVariant>)
    requires
        s.len() == 0,
    ensures
        v_list_enumvariant(s) == Seq::<EnumVariantV>::empty(),
{
    assert(s.map_values(|y: EnumVariant| v_enum_variant(y)) =~= Seq::<EnumVariantV>::empty());
}

/// Viewing a list after a push views the old list and the new element.
pub proof fn lemma_v_list_type_push(s: Seq<Type>, x: Type)
    ensures
        v_list_type(s.push(x)) == v_list_type(s).push(v_type(x)),
        v_list_type(s).len() == s.len(),
    decreases s.len(),
{
    assert(s.push(x).drop_last() =~= s);
    if s.len() > 0 { lemma_v_list_type_push(s.drop_last(), s.last()); assert(s.drop_last().push(s.last()) =~= s); }
}

/// Each element of a list views as the element at the same index of the list's view.
pub proof fn lemma_v_list_type_index(s: Seq<Type>, i: int)
    requires
        0 <= i < s.len(),
    ensures
        v_list_type(s).len() == s.len(),
        v_list_type(s)[i] == v_type(s[i]),
    decreases s.len(),
{
    if i < s.len() - 1 { lemma_v_list_type_index(s.drop_last(), i); } lemma_v_list_type_push(s.drop_last(), s.last()); assert(s.drop_last().push(s.last()) =~= s);
}

/// A list and its view have the same length.
pub proof fn lemma_v_list_type_len(s: Seq<Type>)
    ensures
        v_list_type(s).len() == s.len(),
    decreases s.len(),
{
    if s.len() > 0 { lemma_v_list_type_len(s.drop_last()); }
}

/// The empty list views as the empty list.
pub proof fn lemma_v_list_type_empty(s: Seq<Type>)
    requires
        s.len() == 0,
    ensures
        v_list_type(s) == Seq::<TypeV>::empty(),
{
}

/// Viewing a list after a push views the old list and the new element.
pub proof fn lemma_v_list_param_push(s: Seq<Param>, x: Param)
    ensures
        v_list_param(s.push(x)) == v_list_param(s).push(v_param(x)),
        v_list_param(s).len() == s.len(),
    decreases s.len(),
{
    assert(s.push(x).map_values(|y: Param| v_param(y)) =~= s.map_values(|y: Param| v_param(y)).push(v_param(x)));
}

/// The empty list views as the empty list.
pub proof fn lemma_v_list_param_empty(s: Seq<Param>)
    requires
        s.len() == 0,
    ensures
        v_list_param(s) == Seq::<ParamV>::empty(),
{
    assert(s.map_values(|y: Param| v_param(y)) =~= Seq::<ParamV>::empty());
}

/// Viewing a list after a push views the old list and the new element.
pub proof fn lemma_v_list_fndecl_push(s: Seq<FnDecl>, x: FnDecl)
    ensures
        v_list_fndecl(s.push(x)) == v_list_fndecl(s).push(v_fn_decl(x)),
        v_list_fndecl(s).len() == s.len(),
    decreases s.len(),
{
    assert(s.push(x).drop_last() =~= s);
    if s.len() > 0 { lemma_v_list_fndecl_push(s.drop_last(), s.last()); assert(s.drop_last().push(s.last()) =~= s); }
}

/// Each element of a list views as the element at the same index of the list's view.
pub proof fn lemma_v_list_fndecl_index(s: Seq<FnDecl>, i: int)
    requires
        0 <= i < s.len(),
    ensures
        v_list_fndecl(s).len() == s.len(),
        v_list_fndecl(s)[i] == v_fn_decl(s[i]),
    decreases s.len(),
{
    if i < s.len() - 1 { lemma_v_list_fndecl_index(s.drop_last(), i); } lemma_v_list_fndecl_push(s.drop_last(), s.last()); assert(s.drop_last().push(s.last()) =~= s);
}

/// A list and its view have the same length.
pub proof fn lemma_v_list_fndecl_len(s: Seq<FnDecl>)
    ensures
        v_list_fndecl(s).len() == s.len(),
    decreases s.len(),
{
    if s.len() > 0 { lemma_v_list_fndecl_len(s.drop_last()); }
}

/// The empty list views as the empty list.
pub proof fn lemma_v_list_fndecl_empty(s: Seq<FnDecl>)
    requires
        s.len() == 0,
    ensures
        v_list_fndecl(s) == Seq::<FnDeclV>::empty(),
{
}

/// Viewing a list after a push views the old list and the new element.
pub proof fn lemma_v_list_stmt_push(s: Seq<Stmt>, x: Stmt)
    ensures
        v_list_stmt(s.push(x)) == v_list_stmt(s).push(v_stmt(x)),
        v_list_stmt(s).len() == s.len(),
    decreases s.len(),
{
    assert(s.push(x).drop_last() =~= s);
    if s.len() > 0 { lemma_v_list_stmt_push(s.drop_last(), s.last()); assert(s.drop_last().push(s.last()) =~= s); }
}

/// Each element of a list views as the element at the same index of the list's view.
pub proof fn lemma_v_list_stmt_index(s: Seq<Stmt>, i: int)
    requires
        0 <= i < s.len(),
    ensures
        v_list_stmt(s).len() == s.len(),
        v_list_stmt(s)[i] == v_stmt(s[i]),
    decreases s.len(),
{
    if i < s.len() - 1 { lemma_v_list_stmt_index(s.drop_last(), i); } lemma_v_list_stmt_push(s.drop_last(), s.last()); assert(s.drop_last().push(s.last()) =~= s);
}

/// A list and its view have the same length.
pub proof fn lemma_v_list_stmt_len(s: Seq<Stmt>)
    ensures
        v_list_stmt(s).len() == s.len(),
    decreases s.len(),
{
    if s.len() > 0 { lemma_v_list_stmt_len(s.drop_last()); }
}

/// The empty list views as the empty list.
pub proof fn lemma_v_list_stmt_empty(s: Seq<Stmt>)
    requires
        s.len() == 0,
    ensures
        v_list_stmt(s) == Seq::<StmtV>::empty(),
{
}

/// Viewing a list after a push views the old list and the new element.
pub proof fn lemma_v_list_expr_block_push(s: Seq<(Expr, Block)>, x: (Expr, Block))
    ensures
        v_list_expr_block(s.push(x)) == v_list_expr_block(s).push((v_expr(x.0), v_block(x.1))),
        v_list_expr_block(s).len() == s.len(),
    decreases s.len(),
{
    assert(s.push(x).drop_last() =~= s);
    if s.len() > 0 { lemma_v_list_expr_block_push(s.drop_last(), s.last()); assert(s.drop_last().push(s.last()) =~= s); }
}

/// Each element of a list views as the element at the same index of the list's view.
pub proof fn lemma_v_list_expr_block_index(s: Seq<(Expr, Block)>, i: int)
    requires
        0 <= i < s.len(),
    ensures
        v_list_expr_block(s).len() == s.len(),
        v_list_expr_block(s)[i] == (v_expr(s[i].0), v_block(s[i].1)),
    decreases s.len(),
{
    if i < s.len() - 1 { lemma_v_list_expr_block_index(s.drop_last(), i); } lemma_v_list_expr_block_push(s.drop_last(), s.last()); assert(s.drop_last().push(s.last()) =~= s);
}

/// A list and its view have the same length.
pub proof fn lemma_v_list_expr_block_len(s: Seq<(Expr, Block)>)
    ensures
        v_list_expr_block(s).len() == s.len(),
    decreases s.len(),
{
    if s.len() > 0 { lemma_v_list_expr_block_len(s.drop_last()); }
}

/// The empty list views as the empty list.
pub proof fn lemma_v_list_expr_block_empty(s: Seq<(Expr, Block)>)
    requires
        s.len() == 0,
    ensures
        v_list_expr_block(s) == Seq::<(ExprV, BlockV)>::empty(),
{
}

/// Viewing a list after a push views the old list and the new element.
pub proof fn lemma_v_list_matcharm_push(s: Seq<MatchArm>, x: MatchArm)
    ensures
        v_list_matcharm(s.push(x)) == v_list_matcharm(s).push(v_match_arm(x)),
        v_list_matcharm(s).len() == s.len(),
    decreases s.len(),
{
    assert(s.push(x).drop_last() =~= s);
    if s.len() > 0 { lemma_v_list_matcharm_push(s.drop_last(), s.last()); assert(s.drop_last().push(s.last()) =~= s); }
}

/// Each element of a list views as the element at the same index of the list's view.
pub proof fn lemma_v_list_matcharm_index(s: Seq<MatchArm>, i: int)
    requires
        0 <= i < s.len(),
    ensures
        v_list_matcharm(s).len() == s.len(),
        v_list_matcharm(s)[i] == v_match_arm(s[i]),
    decreases s.len(),
{
    if i < s.len() - 1 { lemma_v_list_matcharm_index(s.drop_last(), i); } lemma_v_list_matcharm_push(s.drop_last(), s.last()); assert(s.drop_last().push(s.last()) =~= s);
}

/// A list and its view have the same length.
pub proof fn lemma_v_list_matcharm_len(s: Seq<MatchArm>)
    ensures
        v_list_matcharm(s).len() == s.len(),
    decreases s.len(),
{
    if s.len() > 0 { lemma_v_list_matcharm_len(s.drop_last()); }
}

/// The empty list views as the empty list.
pub proof fn lemma_v_list_matcharm_empty(s: Seq<MatchArm>)
    requires
        s.len() == 0,
    ensures
        v_list_matcharm(s) == Seq::<MatchArmV>::empty(),
{
}

/// Viewing a list after a push views the old list and the new element.
pub proof fn lemma_v_list_pattern_push(s: Seq<Pattern>, x: Pattern)
    ensures
        v_list_pattern(s.push(x)) == v_list_pattern(s).push(v_pattern(x)),
        v_list_pattern(s).len() == s.len(),
    decreases s.len(),
{
    assert(s.push(x).drop_last() =~= s);
    if s.len() > 0 { lemma_v_list_pattern_push(s.drop_last(), s.last()); assert(s.drop_last().push(s.last()) =~= s); }
}

/// Each element of a list views as the element at the same index of the list's view.
pub proof fn lemma_v_list_pattern_index(s: Seq<Pattern>, i: int)
    requires
        0 <= i < s.len(),
    ensures
        v_list_pattern(s).len() == s.len(),
        v_list_pattern(s)[i] == v_pattern(s[i]),
    decreases s.len(),
{
    if i < s.len() - 1 { lemma_v_list_pattern_index(s.drop_last(), i); } lemma_v_list_pattern_push(s.drop_last(), s.last()); assert(s.drop_last().push(s.last()) =~= s);
}

/// A list and its view have the same length.
pub proof fn lemma_v_list_pattern_len(s: Seq<Pattern>)
    ensures
        v_list_pattern(s).len() == s.len(),
    decreases s.len(),
{
    if s.len() > 0 { lemma_v_list_pattern_len(s.drop_last()); }
}

/// The empty list views as the empty list.
pub proof fn lemma_v_list_pattern_empty(s: Seq<Pattern>)
    requires
        s.len() == 0,
    ensures
        v_list_pattern(s) == Seq::<PatternV>::empty(),
{
}

/// Viewing a list after a push views the old list and the new element.
pub proof fn lemma_v_list_string_pattern_push(s: Seq<(String, Pattern)>, x: (String, Pattern))
    ensures
        v_list_string_pattern(s.push(x)) == v_list_string_pattern(s).push((x.0@, v_pattern(x.1))),
        v_list_string_pattern(s).len() == s.len(),
    decreases s.len(),
{
    assert(s.push(x).drop_last() =~= s);
    if s.len() > 0 { lemma_v_list_string_pattern_push(s.drop_last(), s.last()); assert(s.drop_last().push(s.last()) =~= s); }
}

/// Each element of a list views as the element at the same index of the list's view.
pub proof fn lemma_v_list_string_pattern_index(s: Seq<(String, Pattern)>, i: int)
    requires
        0 <= i < s.len(),
    ensures
        v_list_string_pattern(s).len() == s.len(),
        v_list_string_pattern(s)[i] == (s[i].0@, v_pattern(s[i].1)),
    decreases s.len(),
{
    if i < s.len() - 1 { lemma_v_list_string_pattern_index(s.drop_last(), i); } lemma_v_list_string_pattern_push(s.drop_last(), s.last()); assert(s.drop_last().push(s.last()) =~= s);
}

/// A list and its view have the same length.
pub proof fn lemma_v_list_string_pattern_len(s: Seq<(String, Pattern)>)
    ensures
        v_list_string_pattern(s).len() == s.len(),
    decreases s.len(),
{
    if s.len() > 0 { lemma_v_list_string_pattern_len(s.drop_last()); }
}

/// The empty list views as the empty list.
pub proof fn lemma_v_list_string_pattern_empty(s: Seq<(String, Pattern)>)
    requires
        s.len() == 0,
    ensures
        v_list_string_pattern(s) == Seq::<(Seq<char>, PatternV)>::empty(),
{
}

/// Viewing a list after a push views the old list and the new element.
pub proof fn lemma_v_list_capture_push(s: Seq<Capture>, x: Capture)
    ensures
        v_list_capture(s.push(x)) == v_list_capture(s).push(v_capture(x)),
        v_list_capture(s).len() == s.len(),
    decreases s.len(),
{
    assert(s.push(x).map_values(|y: Capture| v_capture(y)) =~= s.map_values(|y: Capture| v_capture(y)).push(v_capture(x)));
}

/// The empty list views as the empty list.
pub proof fn lemma_v_list_capture_empty(s: Seq<Capture>)
    requires
        s.len() == 0,
    ensures
        v_list_capture(s) == Seq::<CaptureV>::empty(),
{
    assert(s.map_values(|y: Capture| v_capture(y)) =~= Seq::<CaptureV>::empty());
}

/// Viewing a list after a push views the old list and the new element.
pub proof fn lemma_v_list_letstmt_push(s: Seq<LetStmt>, x: LetStmt)
    ensures
        v_list_letstmt(s.push(x)) == v_list_letstmt(s).push(v_let_stmt(x)),
        v_list_letstmt(s).len() == s.len(),
    decreases s.len(),
{
    assert(s.push(x).drop_last() =~= s);
    if s.len() > 0 { lemma_v_list_letstmt_push(s.drop_last(), s.last()); assert(s.drop_last().push(s.last()) =~= s); }
}

/// Each element of a list views as the element at the same index of the list's view.
pub proof fn lemma_v_list_letstmt_index(s: Seq<LetStmt>, i: int)
    requires
        0 <= i < s.len(),
    ensures
        v_list_letstmt(s).len() == s.len(),
        v_list_letstmt(s)[i] == v_let_stmt(s[i]),
    decreases s.len(),
{
    if i < s.len() - 1 { lemma_v_list_letstmt_index(s.drop_last(), i); } lemma_v_list_letstmt_push(s.drop_last(), s.last()); assert(s.drop_last().push(s.last()) =~= s);
}

/// A list and its view have the same length.
pub proof fn lemma_v_list_letstmt_len(s: Seq<LetStmt>)
    ensures
        v_list_letstmt(s).len() == s.len(),
    decreases s.len(),
{
    if s.len() > 0 { lemma_v_list_letstmt_len(s.drop_last()); }
}

/// The empty list views as the empty list.
pub proof fn lemma_v_list_letstmt_empty(s: Seq<LetStmt>)
    requires
        s.len() == 0,
    ensures
        v_list_letstmt(s) == Seq::<LetStmtV>::empty(),
{
}

/// Viewing a list after a push views the old list and the new element.
pub proof fn lemma_v_list_expr_push(s: Seq<Expr>, x: Expr)
    ensures
        v_list_expr(s.push(x)) == v_list_expr(s).push(v_expr(x)),
        v_list_expr(s).len() == s.len(),
    decreases s.len(),
{
    assert(s.push(x).drop_last() =~= s);
    if s.len() > 0 { lemma_v_list_expr_push(s.drop_last(), s.last()); assert(s.drop_last().push(s.last()) =~= s); }
}

/// Each element of a list views as the element at the same index of the list's view.
pub proof fn lemma_v_list_expr_index(s: Seq<Expr>, i: int)
    requires
        0 <= i < s.len(),
    ensures
        v_list_expr(s).len() == s.len(),
        v_list_expr(s)[i] == v_expr(s[i]),
    decreases s.len(),
{
    if i < s.len() - 1 { lemma_v_list_expr_index(s.drop_last(), i); } lemma_v_list_expr_push(s.drop_last(), s.last()); assert(s.drop_last().push(s.last()) =~= s);
}

/// A list and its view have the same length.
pub proof fn lemma_v_list_expr_len(s: Seq<Expr>)
    ensures
        v_list_expr(s).len() == s.len(),
    decreases s.len(),
{
    if s.len() > 0 { lemma_v_list_expr_len(s.drop_last()); }
}

/// The empty list views as the empty list.
pub proof fn lemma_v_list_expr_empty(s: Seq<Expr>)
    requires
        s.len() == 0,
    ensures
        v_list_expr(s) == Seq::<ExprV>::empty(),
{
}

/// Viewing a list after a push views the old list and the new element.
pub proof fn lemma_v_list_string_expr_push(s: Seq<(String, Expr)>, x: (String, Expr))
    ensures
        v_list_string_expr(s.push(x)) == v_list_string_expr(s).push((x.0@, v_expr(x.1))),
        v_list_string_expr(s).len() == s.len(),
    decreases s.len(),
{
    assert(s.push(x).drop_last() =~= s);
    if s.len() > 0 { lemma_v_list_string_expr_push(s.drop_last(), s.last()); assert(s.drop_last().push(s.last()) =~= s); }
}

/// Each element of a list views as the element at the same index of the list's view.
pub proof fn lemma_v_list_string_expr_index(s: Seq<(String, Expr)>, i: int)
    requires
        0 <= i < s.len(),
    ensures
        v_list_string_expr(s).len() == s.len(),
        v_list_string_expr(s)[i] == (s[i].0@, v_expr(s[i].1)),
    decreases s.len(),
{
    if i < s.len() - 1 { lemma_v_list_string_expr_index(s.drop_last(), i); } lemma_v_list_string_expr_push(s.drop_last(), s.last()); assert(s.drop_last().push(s.last()) =~= s);
}

/// A list and its view have the same length.
pub proof fn lemma_v_list_string_expr_len(s: Seq<(String, Expr)>)
    ensures
        v_list_string_expr(s).len() == s.len(),
    decreases s.len(),
{
    if s.len() > 0 { lemma_v_list_string_expr_len(s.drop_last()); }
}

/// The empty list views as the empty list.
pub proof fn lemma_v_list_string_expr_empty(s: Seq<(String, Expr)>)
    requires
        s.len() == 0,
    ensures
        v_list_string_expr(s) == Seq::<(Seq<char>, ExprV)>::empty(),
{
}

} // verus!
