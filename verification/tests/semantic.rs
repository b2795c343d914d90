use rustscript::ast::{Program, Type};
use rustscript::lexer::{Span, Token, TokenKind};
use rustscript::lexer::TokenKind::{
    Arrow, As, Bool, Colon, Comma, Else, FatArrow, Fn, I32, If, IntLit, LBrace, LParen, Let, Match, Newline,
    Plugin, Plus, RBrace, RParen, Return, Semicolon, Star, Str, StringLit, Struct, True, Use, Writer,
};
use rustscript::parser::Parser;
use rustscript::semantic::resolver::Resolver;
use rustscript::semantic::type_checker::TypeChecker;
use rustscript::semantic::types::{ast_type_to_type_info, SemanticError, TypeEnv, TypeInfo};

fn tokens(kinds: Vec<TokenKind>) -> Vec<Token> {
    let mut out = Vec::new();
    let mut i = 0usize;
    for kind in kinds {
        out.push(Token { kind, span: Span::new(i, i + 1, 1, i + 1) });
        i += 1;
    }
    out.push(Token { kind: TokenKind::Eof, span: Span::new(i, i, 1, i + 1) });
    out
}

fn id(s: &str) -> TokenKind {
    TokenKind::Ident(s.to_string())
}

fn program(kinds: Vec<TokenKind>) -> Program {
    Parser::new(tokens(kinds)).parse().unwrap()
}

/// `fn f(<params>) { <body> }` as a module.
fn function(params: Vec<TokenKind>, body: Vec<TokenKind>) -> Program {
    let mut kinds = vec![Fn, id("f"), LParen];
    kinds.extend(params);
    kinds.extend(vec![RParen, LBrace]);
    kinds.extend(body);
    kinds.push(RBrace);
    program(kinds)
}

fn resolve(p: &Program) -> Result<(), Vec<SemanticError>> {
    Resolver::new().resolve(p)
}

fn check(p: &Program) -> Result<(), Vec<SemanticError>> {
    let mut resolver = Resolver::new();
    let _ = resolver.resolve(p);
    let env = resolver.into_env();
    TypeChecker::new(&env).check(p)
}

#[test]
fn well_formed_function_passes_both_passes() {
    let p = function(
        vec![id("x"), Colon, I32],
        vec![Let, id("y"), Colon, I32, TokenKind::Eq, id("x"), Plus, IntLit(1), Semicolon, Return, Semicolon],
    );
    assert!(resolve(&p).is_ok());
    assert!(check(&p).is_ok());
}

#[test]
fn undefined_variable_is_reported() {
    // fn f() { return y; }
    let p = function(vec![], vec![Return, id("y"), Semicolon]);
    let errors = resolve(&p).unwrap_err();
    assert_eq!(errors.len(), 1);
    assert_eq!(errors[0].code, "RS006");
    assert_eq!(errors[0].message, "Undefined variable: y");
    assert_eq!(errors[0].span, Span::new(6, 7, 1, 7));
}

#[test]
fn special_names_are_not_undefined() {
    // fn f() { return None; }  and a node type name
    let p = function(vec![], vec![Return, id("None"), Semicolon]);
    assert!(resolve(&p).is_ok());
    let p = function(vec![], vec![Return, id("Identifier"), Semicolon]);
    assert!(resolve(&p).is_ok());
}

#[test]
fn duplicate_parameter_is_reported() {
    let p = function(vec![id("x"), Colon, I32, Comma, id("x"), Colon, Str], vec![]);
    let errors = resolve(&p).unwrap_err();
    assert_eq!(errors.len(), 1);
    assert_eq!(errors[0].code, "RS004");
    assert_eq!(errors[0].message, "Duplicate parameter name: x");
    assert_eq!(errors[0].span, Span::new(7, 8, 1, 8));
}

#[test]
fn redefinition_in_same_scope_is_reported() {
    let p = function(
        vec![],
        vec![Let, id("a"), TokenKind::Eq, IntLit(1), Semicolon, Let, id("a"), TokenKind::Eq, IntLit(2), Semicolon],
    );
    let errors = resolve(&p).unwrap_err();
    assert_eq!(errors.len(), 1);
    assert_eq!(errors[0].code, "RS005");
    assert_eq!(errors[0].message, "Variable 'a' already defined in this scope");
    assert_eq!(errors[0].span, Span::new(10, 11, 1, 11));
}

#[test]
fn shadowing_in_inner_scope_is_allowed() {
    // fn f(a: bool) { if a { let a = 1; } }
    let p = function(
        vec![id("a"), Colon, Bool],
        vec![If, id("a"), LBrace, Let, id("a"), TokenKind::Eq, IntLit(1), Semicolon, RBrace],
    );
    assert!(resolve(&p).is_ok());
}

#[test]
fn unknown_struct_is_reported() {
    // fn f() { let a = Foo { x: 1 }; }
    let p = function(
        vec![],
        vec![Let, id("a"), TokenKind::Eq, id("Foo"), LBrace, id("x"), Colon, IntLit(1), RBrace, Semicolon],
    );
    let errors = resolve(&p).unwrap_err();
    assert_eq!(errors.len(), 1);
    assert_eq!(errors[0].code, "RS007");
    assert_eq!(errors[0].message, "Unknown struct: Foo");
}

#[test]
fn declared_struct_is_known() {
    // struct Foo { x: i32 }  fn f() { let a = Foo { x: 1 }; }
    let p = program(vec![
        Struct, id("Foo"), LBrace, id("x"), Colon, I32, RBrace,
        Fn, id("f"), LParen, RParen, LBrace,
        Let, id("a"), TokenKind::Eq, id("Foo"), LBrace, id("x"), Colon, IntLit(1), RBrace, Semicolon,
        RBrace,
    ]);
    assert!(resolve(&p).is_ok());
    assert!(check(&p).is_ok());
}

#[test]
fn let_type_mismatch_is_reported() {
    // fn f() { let a: Str = 1; }
    let p = function(vec![], vec![Let, id("a"), Colon, Str, TokenKind::Eq, IntLit(1), Semicolon]);
    assert!(resolve(&p).is_ok());
    let errors = check(&p).unwrap_err();
    assert_eq!(errors.len(), 1);
    assert_eq!(errors[0].code, "RS003");
    assert_eq!(errors[0].message, "Type mismatch: expected Str, found i32");
    assert_eq!(errors[0].span, Span::new(5, 6, 1, 6));
}

#[test]
fn condition_must_be_bool() {
    // fn f() { if 1 { } }
    let p = function(vec![], vec![If, IntLit(1), LBrace, RBrace]);
    let errors = check(&p).unwrap_err();
    assert_eq!(errors.len(), 1);
    assert_eq!(errors[0].code, "RS003");
    assert_eq!(errors[0].message, "Condition must be bool, found i32");
}

#[test]
fn return_type_mismatch_is_reported() {
    // fn f() -> bool { return "s"; }
    let p = program(vec![
        Fn, id("f"), LParen, RParen, Arrow, Bool, LBrace,
        Return, StringLit("s".to_string()), Semicolon,
        RBrace,
    ]);
    let errors = check(&p).unwrap_err();
    assert_eq!(errors.len(), 1);
    assert_eq!(errors[0].code, "RS003");
    assert_eq!(errors[0].message, "Return type mismatch: expected bool, found Str");
}

#[test]
fn display_names() {
    let t = TypeInfo::Vec(Box::new(TypeInfo::Option(Box::new(TypeInfo::I32))));
    assert_eq!(t.display_name(), "Vec<Option<i32>>");
    let t = TypeInfo::HashMap(Box::new(TypeInfo::Str), Box::new(TypeInfo::Bool));
    assert_eq!(t.display_name(), "HashMap<Str, bool>");
    let t = TypeInfo::Ref { mutable: true, inner: Box::new(TypeInfo::F64) };
    assert_eq!(t.display_name(), "&mut f64");
    let t = TypeInfo::Tuple(vec![TypeInfo::I32, TypeInfo::Str]);
    assert_eq!(t.display_name(), "(i32, Str)");
    let t = TypeInfo::Function { params: vec![TypeInfo::I32], ret: Box::new(TypeInfo::Unit) };
    assert_eq!(t.display_name(), "fn(i32) -> ()");
}

#[test]
fn assignability() {
    let opt = TypeInfo::Option(Box::new(TypeInfo::Str));
    assert!(TypeInfo::Null.is_assignable_to(&opt));
    assert!(!opt.is_assignable_to(&TypeInfo::Null));
    assert!(TypeInfo::Unknown.is_assignable_to(&TypeInfo::Str));
    assert!(TypeInfo::I32.is_assignable_to(&TypeInfo::Var(3)));
    assert!(!TypeInfo::I32.is_assignable_to(&TypeInfo::Str));
    let m = TypeInfo::Ref { mutable: true, inner: Box::new(TypeInfo::I32) };
    let s = TypeInfo::Ref { mutable: false, inner: Box::new(TypeInfo::I32) };
    assert!(m.is_assignable_to(&s));
    assert!(!s.is_assignable_to(&m));
    let t1 = TypeInfo::Tuple(vec![TypeInfo::I32]);
    let t2 = TypeInfo::Tuple(vec![TypeInfo::I32, TypeInfo::I32]);
    assert!(!t1.is_assignable_to(&t2));
}

#[test]
fn written_types_convert() {
    assert!(matches!(ast_type_to_type_info(&Type::Primitive("u32".to_string())), TypeInfo::I32));
    assert!(matches!(ast_type_to_type_info(&Type::Named("CodeBuilder".to_string())), TypeInfo::CodeBuilder));
    assert!(matches!(ast_type_to_type_info(&Type::Named("Identifier".to_string())), TypeInfo::AstNode(n) if n == "Identifier"));
    assert!(matches!(ast_type_to_type_info(&Type::Named("Foo".to_string())), TypeInfo::Struct { name, .. } if name == "Foo"));
    let v = Type::Container { name: "Vec".to_string(), type_args: vec![Type::Primitive("bool".to_string())] };
    assert!(matches!(ast_type_to_type_info(&v), TypeInfo::Vec(inner) if matches!(*inner, TypeInfo::Bool)));
    let bad = Type::Container { name: "Vec".to_string(), type_args: vec![] };
    assert!(matches!(ast_type_to_type_info(&bad), TypeInfo::Unknown));
}

#[test]
fn type_env_scopes() {
    let mut env = TypeEnv::new();
    env.define("x".to_string(), TypeInfo::I32);
    env.push_scope();
    assert!(!env.is_defined_in_current_scope("x"));
    env.define("x".to_string(), TypeInfo::Str);
    assert!(matches!(env.lookup("x"), Some(TypeInfo::Str)));
    env.pop_scope();
    assert!(matches!(env.lookup("x"), Some(TypeInfo::I32)));
    assert!(env.is_defined_in_current_scope("x"));
    assert!(env.lookup("y").is_none());
    env.pop_scope();
    assert!(matches!(env.lookup("x"), Some(TypeInfo::I32)));
}

#[test]
fn type_env_structs_and_fresh_vars() {
    let mut env = TypeEnv::new();
    env.define_struct("P".to_string(), vec![("a".to_string(), TypeInfo::Bool)]);
    let fields = env.get_struct_fields("P").unwrap();
    assert_eq!(fields.len(), 1);
    assert_eq!(fields[0].0, "a");
    assert!(env.get_struct_fields("Q").is_none());
    let a = env.fresh_var();
    let b = env.fresh_var();
    match (a, b) {
        (TypeInfo::Var(x), TypeInfo::Var(y)) => assert_ne!(x, y),
        _ => panic!("fresh_var gives type variables"),
    }
    env.define_function("g".to_string(), vec![TypeInfo::I32], TypeInfo::Bool);
    assert!(matches!(env.lookup("g"), Some(TypeInfo::Function { .. })));
}

#[test]
fn passes_leave_only_the_global_scope() {
    // plugin P { fn f(a: i32) { let b = a; } }
    let p = program(vec![
        Plugin, id("P"), LBrace, Fn, id("f"), LParen, id("a"), Colon, I32, RParen, LBrace, Let, id("b"),
        TokenKind::Eq, id("a"), Semicolon, RBrace, RBrace,
    ]);
    let mut resolver = Resolver::new();
    assert!(resolver.resolve(&p).is_ok());
    let env = resolver.into_env();
    // The plugin is bound in the global scope, which is current again; the
    // names of its body went with the scope that held them.
    assert!(env.is_defined_in_current_scope("P"));
    assert!(env.lookup("f").is_none());
    assert!(env.lookup("b").is_none());
    let mut checker = TypeChecker::new(&env);
    assert!(checker.check(&p).is_ok());
    let env2 = checker.into_env();
    assert!(env2.is_defined_in_current_scope("P"));
    assert!(env2.lookup("a").is_none());
}

#[test]
fn errors_come_in_the_order_they_are_found() {
    // fn f() { return x; return y; }
    let p = function(vec![], vec![Return, id("x"), Semicolon, Return, id("y"), Semicolon]);
    let errors = resolve(&p).unwrap_err();
    assert_eq!(errors.len(), 2);
    assert_eq!(errors[0].message, "Undefined variable: x");
    assert_eq!(errors[1].message, "Undefined variable: y");
}

#[test]
fn result_type_is_kept_after_an_inline_traverse() {
    // fn f(n: i32) -> i32 { traverse(n) { fn visit_identifier() { } } return "s"; }
    let p = program(vec![
        Fn, id("f"), LParen, id("n"), Colon, I32, RParen, Arrow, I32, LBrace,
        TokenKind::Traverse, LParen, id("n"), RParen, LBrace, Fn, id("visit_identifier"), LParen, RParen,
        LBrace, RBrace, RBrace,
        Return, StringLit("s".to_string()), Semicolon, RBrace,
    ]);
    let errors = check(&p).unwrap_err();
    assert_eq!(errors.len(), 1);
    assert_eq!(errors[0].code, "RS003");
    assert_eq!(errors[0].message, "Return type mismatch: expected i32, found Str");
}
