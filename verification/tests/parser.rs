use rustscript::ast::{BinaryOp, Expr, Literal, Pattern, PluginItem, Stmt, TopLevelDecl, Type};
use rustscript::lexer::{Span, Token, TokenKind};
use rustscript::lexer::TokenKind::{
    Arrow, As, Bool, Colon, Comma, Else, FatArrow, Fn, I32, If, IntLit, LBrace, LParen, Let, Match, Newline,
    Plugin, Plus, RBrace, RParen, Return, Semicolon, Star, Str, StringLit, Struct, True, Use, Writer,
};
use rustscript::parser::{ParseError, Parser};

/// Tokens with one column each on line 1, ended by `Eof`.
fn tokens(kinds: Vec<TokenKind>) -> Vec<Token> {
    let mut out = Vec::new();
    let mut i = 0usize;
    for kind in kinds {
        out.push(Token { kind, span: Span::new(i, i + 1, 1, i + 1) });
        i += 1;
    }
    out.push(Token { kind: TokenKind::Eof, span: Span::new(i, i, 1, i + 1) });
    out
}

fn id(s: &str) -> TokenKind {
    TokenKind::Ident(s.to_string())
}

fn parse(kinds: Vec<TokenKind>) -> Result<rustscript::ast::Program, ParseError> {
    let mut p = Parser::new(tokens(kinds));
    p.parse()
}

/// `plugin P { fn f(x: i32) -> i32 { return x; } }`
fn simple_plugin() -> Vec<TokenKind> {
    vec![
        Plugin, id("P"), LBrace,
        Fn, id("f"), LParen, id("x"), Colon, I32, RParen, Arrow, I32, LBrace,
        Return, id("x"), Semicolon,
        RBrace,
        RBrace,
    ]
}

#[test]
fn parses_plugin_with_function() {
    let program = parse(simple_plugin()).unwrap();
    assert!(program.uses.is_empty());
    match program.decl {
        TopLevelDecl::Plugin(p) => {
            assert_eq!(p.name, "P");
            assert_eq!(p.body.len(), 1);
            match &p.body[0] {
                PluginItem::Function(f) => {
                    assert_eq!(f.name, "f");
                    assert!(!f.is_pub);
                    assert_eq!(f.params.len(), 1);
                    assert_eq!(f.params[0].name, "x");
                    assert!(matches!(&f.params[0].ty, Type::Primitive(n) if n == "i32"));
                    assert!(matches!(&f.return_type, Some(Type::Primitive(n)) if n == "i32"));
                    assert_eq!(f.body.stmts.len(), 1);
                    match &f.body.stmts[0] {
                        Stmt::Return(r) => {
                            assert!(matches!(&r.value, Some(Expr::Ident(i)) if i.name == "x"));
                        }
                        other => panic!("unexpected statement {:?}", other),
                    }
                }
                other => panic!("unexpected item {:?}", other),
            }
        }
        other => panic!("unexpected declaration {:?}", other),
    }
}

#[test]
fn program_span_is_first_token() {
    let program = parse(simple_plugin()).unwrap();
    assert_eq!(program.span, Span::new(0, 1, 1, 1));
}

#[test]
fn leading_newlines_are_skipped() {
    let mut kinds = vec![TokenKind::Newline, TokenKind::Newline];
    kinds.extend(simple_plugin());
    let program = parse(kinds).unwrap();
    assert_eq!(program.span, Span::new(2, 3, 1, 3));
    assert!(matches!(program.decl, TopLevelDecl::Plugin(_)));
}

#[test]
fn writer_and_module_declarations() {
    let program = parse(vec![Writer, id("W"), LBrace, RBrace]).unwrap();
    assert!(matches!(&program.decl, TopLevelDecl::Writer(w) if w.name == "W" && w.body.is_empty()));

    let program = parse(vec![Struct, id("S"), LBrace, id("a"), Colon, Str, RBrace]).unwrap();
    match program.decl {
        TopLevelDecl::Module(m) => {
            assert_eq!(m.items.len(), 1);
            match &m.items[0] {
                PluginItem::Struct(s) => {
                    assert_eq!(s.name, "S");
                    assert_eq!(s.fields.len(), 1);
                    assert_eq!(s.fields[0].name, "a");
                    assert!(matches!(&s.fields[0].ty, Type::Primitive(n) if n == "Str"));
                }
                other => panic!("unexpected item {:?}", other),
            }
        }
        other => panic!("unexpected declaration {:?}", other),
    }
}

#[test]
fn use_statements_are_collected() {
    let mut kinds = vec![
        Use, TokenKind::StringLit("./helpers.rsc".to_string()), As, id("h"), Semicolon, Newline,
        Use, id("fs"), Semicolon,
    ];
    kinds.extend(simple_plugin());
    let program = parse(kinds).unwrap();
    assert_eq!(program.uses.len(), 2);
    assert_eq!(program.uses[0].path, "./helpers.rsc");
    assert_eq!(program.uses[0].alias.as_deref(), Some("h"));
    assert_eq!(program.uses[1].path, "fs");
    assert_eq!(program.uses[1].alias, None);
}

#[test]
fn binary_precedence() {
    // fn f() { let y = 1 + 2 * 3; }
    let program = parse(vec![
        Fn, id("f"), LParen, RParen, LBrace,
        Let, id("y"), TokenKind::Eq, IntLit(1), Plus, IntLit(2), Star, IntLit(3), Semicolon,
        RBrace,
    ])
    .unwrap();
    let TopLevelDecl::Module(m) = program.decl else { panic!("expected a module") };
    let PluginItem::Function(f) = &m.items[0] else { panic!("expected a function") };
    let Stmt::Let(l) = &f.body.stmts[0] else { panic!("expected let") };
    assert!(!l.mutable);
    assert!(matches!(&l.pattern, Pattern::Ident(n) if n == "y"));
    match &l.init {
        Expr::Binary(b) => {
            assert_eq!(b.op, BinaryOp::Add);
            assert!(matches!(&*b.left, Expr::Literal(Literal::Int(1))));
            match &*b.right {
                Expr::Binary(inner) => {
                    assert_eq!(inner.op, BinaryOp::Mul);
                    assert!(matches!(&*inner.left, Expr::Literal(Literal::Int(2))));
                    assert!(matches!(&*inner.right, Expr::Literal(Literal::Int(3))));
                }
                other => panic!("unexpected {:?}", other),
            }
        }
        other => panic!("unexpected {:?}", other),
    }
}

#[test]
fn missing_semicolon_is_reported() {
    // fn f() { return 1 }
    let err = parse(vec![Fn, id("f"), LParen, RParen, LBrace, Return, IntLit(1), RBrace]).unwrap_err();
    assert_eq!(err.message, "Expected Semicolon");
    assert_eq!(err.span, Span::new(7, 8, 1, 8));
}

#[test]
fn missing_identifier_is_reported() {
    let err = parse(vec![Plugin, LBrace, RBrace]).unwrap_err();
    assert_eq!(err.message, "Expected identifier");
    assert_eq!(err.span, Span::new(1, 2, 1, 2));
}

#[test]
fn bad_plugin_item_is_reported() {
    let err = parse(vec![Plugin, id("P"), LBrace, Let, RBrace]).unwrap_err();
    assert_eq!(err.message, "Expected struct, enum, fn, or impl");
    assert_eq!(err.span, Span::new(3, 4, 1, 4));
}

#[test]
fn missing_expression_is_reported() {
    let err = parse(vec![Fn, id("f"), LParen, RParen, LBrace, Let, id("y"), TokenKind::Eq, Semicolon, RBrace]).unwrap_err();
    assert_eq!(err.message, "Expected expression");
    assert_eq!(err.span, Span::new(8, 9, 1, 9));
}

#[test]
fn parse_error_new_keeps_fields() {
    let e = ParseError::new("boom".to_string(), Span::new(1, 2, 3, 4));
    assert_eq!(e.message, "boom");
    assert_eq!(e.span, Span::new(1, 2, 3, 4));
}

#[test]
fn if_else_and_match() {
    // fn f(a: bool) { if a { return; } else { return; } match a { true => 1, _ => 2 } }
    let program = parse(vec![
        Fn, id("f"), LParen, id("a"), Colon, Bool, RParen, LBrace,
        If, id("a"), LBrace, Return, Semicolon, RBrace, Else, LBrace, Return, Semicolon, RBrace,
        Match, id("a"), LBrace, True, FatArrow, IntLit(1), Comma, id("_"), FatArrow, IntLit(2), RBrace,
        RBrace,
    ])
    .unwrap();
    let TopLevelDecl::Module(m) = program.decl else { panic!("expected a module") };
    let PluginItem::Function(f) = &m.items[0] else { panic!("expected a function") };
    assert_eq!(f.body.stmts.len(), 2);
    match &f.body.stmts[0] {
        Stmt::If(i) => {
            assert!(i.pattern.is_none());
            assert_eq!(i.then_branch.stmts.len(), 1);
            assert!(i.else_if_branches.is_empty());
            assert!(i.else_branch.is_some());
        }
        other => panic!("unexpected {:?}", other),
    }
    match &f.body.stmts[1] {
        Stmt::Match(ms) => {
            assert_eq!(ms.arms.len(), 2);
            assert!(matches!(&ms.arms[0].pattern, Pattern::Literal(Literal::Bool(true))));
            assert!(matches!(&ms.arms[1].pattern, Pattern::Wildcard));
        }
        other => panic!("unexpected {:?}", other),
    }
}

/// The type of the first parameter of `fn f(x: <ty>) { }` in a plugin.
fn param_type(ty: Vec<TokenKind>) -> Type {
    let mut kinds = vec![Plugin, id("P"), LBrace, Fn, id("f"), LParen, id("x"), Colon];
    kinds.extend(ty);
    kinds.extend(vec![RParen, LBrace, RBrace, RBrace]);
    let program = parse(kinds).unwrap();
    match program.decl {
        TopLevelDecl::Plugin(p) => match p.body.into_iter().next() {
            Some(PluginItem::Function(f)) => f.params.into_iter().next().unwrap().ty,
            _ => panic!("function expected"),
        },
        _ => panic!("plugin expected"),
    }
}

#[test]
fn one_element_tuple_type_needs_its_trailing_comma() {
    match param_type(vec![LParen, I32, Comma, RParen]) {
        Type::Tuple(ts) => {
            assert_eq!(ts.len(), 1);
            assert!(matches!(&ts[0], Type::Primitive(n) if n == "i32"));
        },
        _ => panic!("one-element tuple expected"),
    }
    assert!(matches!(param_type(vec![LParen, I32, RParen]), Type::Primitive(n) if n == "i32"));
    match param_type(vec![LParen, I32, Comma, Bool, Comma, RParen]) {
        Type::Tuple(ts) => assert_eq!(ts.len(), 2),
        _ => panic!("tuple expected"),
    }
}
