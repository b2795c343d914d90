//! The grammar of RustScript as a mathematical parser over a token sequence.
//!
//! Each function takes the tokens and a position and gives either the value
//! parsed there with the position after it, or the error that stops parsing.
//! The executable parser in `parser` is proved to compute exactly these.

use vstd::prelude::*;
use crate::lexer::{Span, Token, TokenKind, spec_tag_name};
use crate::ast::{BinaryOp, UnaryOp, CompoundAssignOp, Program, Type, Block, Expr, Literal, ProgramV, UseStmtV, TopLevelDeclV, PluginDeclV, WriterDeclV, ModuleDeclV, PluginItemV, StructDeclV, StructFieldV, EnumDeclV, EnumVariantV, FnDeclV, ParamV, ImplBlockV, TypeV, BlockV, StmtV, LetStmtV, ConstStmtV, ExprStmtV, IfStmtV, MatchStmtV, MatchArmV, PatternV, ForStmtV, WhileStmtV, LoopStmtV, ReturnStmtV, BreakStmtV, ContinueStmtV, TraverseStmtV, TraverseKindV, InlineVisitorV, CaptureV, ExprV, LiteralV, IdentExprV, BinaryExprV, UnaryExprV, CallExprV, MemberExprV, IndexExprV, StructInitExprV, VecInitExprV, ClosureExprV, RefExprV, DerefExprV, AssignExprV, CompoundAssignExprV};

verus! {

/// The mathematical value of a parse error: its message and where it points.
pub struct ParseErrorV {
    pub message: Seq<char>,
    pub span: Span,
}

/// The result of parsing from a position: a value and the next position, or an error.
pub type SR<A> = Result<(A, int), ParseErrorV>;

/// How many tokens remain from a position.
pub open spec fn rem(t: Seq<Token>, p: int) -> nat {
    if 0 <= p < t.len() {
        (t.len() - p) as nat
    } else {
        0
    }
}

/// The token at a position, if there is one.
pub open spec fn tok(t: Seq<Token>, p: int) -> Option<Token> {
    if 0 <= p < t.len() {
        Some(t[p])
    } else {
        None
    }
}

/// Whether the position is at the end: past the tokens or at an end-of-file token.
pub open spec fn at_end(t: Seq<Token>, p: int) -> bool {
    match tok(t, p) {
        Some(x) => x.kind is Eof,
        None => true,
    }
}

/// Whether the token at the position has the variant with the given number.
pub open spec fn chk_tag(t: Seq<Token>, p: int, tag: u8) -> bool {
    match tok(t, p) {
        Some(x) => x.kind.spec_tag() == tag,
        None => false,
    }
}

/// Whether the token at the position has the same variant as `k`.
pub open spec fn chk(t: Seq<Token>, p: int, k: TokenKind) -> bool {
    chk_tag(t, p, k.spec_tag())
}

/// Whether the token at the position is the identifier `name`.
pub open spec fn chk_ident(t: Seq<Token>, p: int, name: Seq<char>) -> bool {
    match tok(t, p) {
        Some(x) => match x.kind {
            TokenKind::Ident(n) => n@ == name,
            _ => false,
        },
        None => false,
    }
}

/// The position after moving past one token; the end stays where it is.
pub open spec fn adv(t: Seq<Token>, p: int) -> int {
    if at_end(t, p) {
        p
    } else {
        p + 1
    }
}

/// The position after optionally consuming a token of kind `k`.
pub open spec fn mt(t: Seq<Token>, p: int, k: TokenKind) -> int {
    if chk(t, p, k) {
        adv(t, p)
    } else {
        p
    }
}

/// The span of the token at the position, or the empty span past the end.
pub open spec fn span_at(t: Seq<Token>, p: int) -> Span {
    match tok(t, p) {
        Some(x) => x.span,
        None => Span { start: 0, end: 0, line: 0, column: 0 },
    }
}

/// An error with the given message at the position.
pub open spec fn err_at(t: Seq<Token>, p: int, m: Seq<char>) -> ParseErrorV {
    ParseErrorV { message: m, span: span_at(t, p) }
}

/// The error for a position from which parsing would make no progress.
pub open spec fn stuck(t: Seq<Token>, p: int) -> ParseErrorV {
    err_at(t, p, "no progress"@)
}

/// The message for a missing token of the variant with the given number.
pub open spec fn expected_msg(tag: u8) -> Seq<char> {
    "Expected "@ + spec_tag_name(tag)@
}

/// Consume a token of kind `k`, or fail saying which kind was expected.
pub open spec fn expect(t: Seq<Token>, p: int, k: TokenKind) -> Result<int, ParseErrorV> {
    if chk(t, p, k) {
        Ok(adv(t, p))
    } else {
        Err(err_at(t, p, expected_msg(k.spec_tag())))
    }
}

/// If the inner result is an error, the outer result is that same error.
pub open spec fn err_passes<A, B>(inner: SR<A>, outer: SR<B>) -> bool {
    match inner {
        Err(e) => outer == Err::<(B, int), ParseErrorV>(e),
        Ok(_) => true,
    }
}

/// Whether a token is skipped between statements and items.
pub open spec fn is_trivia(k: TokenKind) -> bool {
    k is Newline || k is Comment || k is DocComment
}

/// The position after skipping newlines and comments.
pub open spec fn skip_nl(t: Seq<Token>, p: int) -> int
    decreases rem(t, p),
{
    if 0 <= p < t.len() && is_trivia(t[p].kind) {
        skip_nl(t, p + 1)
    } else {
        p
    }
}

/// An identifier's text, or the error `Expected identifier`.
pub open spec fn expect_ident(t: Seq<Token>, p: int) -> SR<Seq<char>> {
    match tok(t, p) {
        Some(x) => match x.kind {
            TokenKind::Ident(n) => Ok((n@, adv(t, p))),
            _ => Err(err_at(t, p, "Expected identifier"@)),
        },
        None => Err(err_at(t, p, "Expected identifier"@)),
    }
}

/// An identifier, or a type keyword accepted in expression position.
pub open spec fn try_ident(t: Seq<Token>, p: int) -> Option<(Seq<char>, int)> {
    match tok(t, p) {
        Some(x) => match x.kind {
            TokenKind::Ident(n) => Some((n@, adv(t, p))),
            TokenKind::HashMap => Some(("HashMap"@, adv(t, p))),
            TokenKind::HashSet => Some(("HashSet"@, adv(t, p))),
            TokenKind::CodeBuilder => Some(("CodeBuilder"@, adv(t, p))),
            TokenKind::Vec => Some(("Vec"@, adv(t, p))),
            TokenKind::Option => Some(("Option"@, adv(t, p))),
            TokenKind::Result => Some(("Result"@, adv(t, p))),
            _ => None,
        },
        None => None,
    }
}

/// The name of a syntax-tree node type keyword, if the token is one.
pub open spec fn ast_type_name(k: TokenKind) -> Option<Seq<char>> {
    match k {
        TokenKind::Program => Some("Program"@),
        TokenKind::FunctionDeclaration => Some("FunctionDeclaration"@),
        TokenKind::VariableDeclaration => Some("VariableDeclaration"@),
        TokenKind::ExpressionStatement => Some("ExpressionStatement"@),
        TokenKind::ReturnStatement => Some("ReturnStatement"@),
        TokenKind::IfStatement => Some("IfStatement"@),
        TokenKind::ForStatement => Some("ForStatement"@),
        TokenKind::WhileStatement => Some("WhileStatement"@),
        TokenKind::BlockStatement => Some("BlockStatement"@),
        TokenKind::Identifier => Some("Identifier"@),
        TokenKind::Literal => Some("Literal"@),
        TokenKind::BinaryExpression => Some("BinaryExpression"@),
        TokenKind::UnaryExpression => Some("UnaryExpression"@),
        TokenKind::CallExpression => Some("CallExpression"@),
        TokenKind::MemberExpression => Some("MemberExpression"@),
        TokenKind::ArrayExpression => Some("ArrayExpression"@),
        TokenKind::ObjectExpression => Some("ObjectExpression"@),
        TokenKind::JSXElement => Some("JSXElement"@),
        TokenKind::JSXFragment => Some("JSXFragment"@),
        TokenKind::JSXAttribute => Some("JSXAttribute"@),
        TokenKind::JSXText => Some("JSXText"@),
        TokenKind::JSXExpressionContainer => Some("JSXExpressionContainer"@),
        _ => None,
    }
}

/// A syntax-tree node type keyword, consumed.
pub open spec fn try_ast_type(t: Seq<Token>, p: int) -> Option<(Seq<char>, int)> {
    match tok(t, p) {
        Some(x) => match ast_type_name(x.kind) {
            Some(n) => Some((n, adv(t, p))),
            None => None,
        },
        None => None,
    }
}

/// The name a type keyword stands for, if the token is one.
pub open spec fn type_keyword_name(k: TokenKind) -> Option<Seq<char>> {
    match k {
        TokenKind::Str => Some("Str"@),
        TokenKind::Bool => Some("bool"@),
        TokenKind::I32 => Some("i32"@),
        TokenKind::U32 => Some("u32"@),
        TokenKind::F64 => Some("f64"@),
        TokenKind::Vec => Some("Vec"@),
        TokenKind::Option => Some("Option"@),
        TokenKind::Result => Some("Result"@),
        TokenKind::HashMap => Some("HashMap"@),
        TokenKind::HashSet => Some("HashSet"@),
        TokenKind::CodeBuilder => Some("CodeBuilder"@),
        TokenKind::SelfType => Some("Self"@),
        _ => None,
    }
}

/// A type name: a node type keyword, a type keyword or an identifier.
pub open spec fn expect_type_name(t: Seq<Token>, p: int) -> SR<Seq<char>> {
    match try_ast_type(t, p) {
        Some((n, q)) => Ok((n, q)),
        None => match tok(t, p) {
            Some(x) => match type_keyword_name(x.kind) {
                Some(n) => Ok((n, adv(t, p))),
                None => match x.kind {
                    TokenKind::Ident(n) => Ok((n@, adv(t, p))),
                    _ => Err(err_at(t, p, "Expected type name"@)),
                },
            },
            None => Err(err_at(t, p, "Expected type name"@)),
        },
    }
}

/// A literal token, consumed.
pub open spec fn try_literal(t: Seq<Token>, p: int) -> Option<(LiteralV, int)> {
    match tok(t, p) {
        Some(x) => match x.kind {
            TokenKind::StringLit(s) => Some((LiteralV::String(s@), adv(t, p))),
            TokenKind::IntLit(n) => Some((LiteralV::Int(n), adv(t, p))),
            TokenKind::FloatLit(s) => Some((LiteralV::Float(s@), adv(t, p))),
            TokenKind::True => Some((LiteralV::Bool(true), adv(t, p))),
            TokenKind::False => Some((LiteralV::Bool(false), adv(t, p))),
            TokenKind::Null => Some((LiteralV::Null, adv(t, p))),
            _ => None,
        },
        None => None,
    }
}

// ===================== types =====================

/// A type.
pub open spec fn g_type(t: Seq<Token>, p: int) -> SR<TypeV>
    decreases rem(t, p), 1nat,
{
    if chk(t, p, TokenKind::Ampersand) {
        let p1 = adv(t, p);
        let mutable = chk(t, p1, TokenKind::Mut);
        let p2 = mt(t, p1, TokenKind::Mut);
        if rem(t, p2) < rem(t, p) {
            match g_type(t, p2) {
                Ok((inner, q)) => Ok((TypeV::Reference { mutable, inner: Box::new(inner) }, q)),
                Err(e) => Err(e),
            }
        } else {
            Err(stuck(t, p))
        }
    } else if chk(t, p, TokenKind::LParen) {
        g_tuple_type(t, p)
    } else {
        match expect_type_name(t, p) {
            Err(e) => Err(e),
            Ok((name, p1)) => if chk(t, p1, TokenKind::Lt) {
                let p2 = adv(t, p1);
                if rem(t, p2) < rem(t, p) {
                    match g_type(t, p2) {
                        Err(e) => Err(e),
                        Ok((first, p3)) => if rem(t, p3) < rem(t, p) {
                            match g_type_args(t, p3, seq![first]) {
                                Err(e) => Err(e),
                                Ok((args, p4)) => match expect(t, p4, TokenKind::Gt) {
                                    Err(e) => Err(e),
                                    Ok(p5) => Ok((TypeV::Container { name, type_args: args }, p5)),
                                },
                            }
                        } else {
                            Err(stuck(t, p))
                        },
                    }
                } else {
                    Err(stuck(t, p))
                }
            } else if name == "Str"@ || name == "i32"@ || name == "u32"@ || name == "f64"@ || name
                == "bool"@ {
                Ok((TypeV::Primitive(name), p1))
            } else {
                Ok((TypeV::Named(name), p1))
            },
        }
    }
}

/// The rest of a type argument list: further types after commas.
pub open spec fn g_type_args(t: Seq<Token>, p: int, acc: Seq<TypeV>) -> SR<Seq<TypeV>>
    decreases rem(t, p), 2nat,
{
    if chk(t, p, TokenKind::Comma) {
        let p1 = adv(t, p);
        if rem(t, p1) < rem(t, p) {
            match g_type(t, p1) {
                Err(e) => Err(e),
                Ok((ty, q)) => if rem(t, q) < rem(t, p) {
                    g_type_args(t, q, acc.push(ty))
                } else {
                    Err(stuck(t, q))
                },
            }
        } else {
            Err(stuck(t, p))
        }
    } else {
        Ok((acc, p))
    }
}

/// A parenthesized type: the unit type, one type in parentheses (a single
/// element with no trailing comma), or a tuple (a one-element tuple where a
/// trailing comma follows the single element).
pub open spec fn g_tuple_type(t: Seq<Token>, p: int) -> SR<TypeV>
    decreases rem(t, p), 0nat,
{
    match expect(t, p, TokenKind::LParen) {
        Err(e) => Err(e),
        Ok(p1) => if chk(t, p1, TokenKind::RParen) {
            Ok((TypeV::Unit, adv(t, p1)))
        } else if rem(t, p1) < rem(t, p) {
            match g_tuple_elems(t, p1, seq![]) {
                Err(e) => Err(e),
                Ok((types, p2)) => match expect(t, p2, TokenKind::RParen) {
                    Err(e) => Err(e),
                    Ok(p3) => {
                        let trailing = match g_type(t, p1) {
                            Ok((_, q)) => chk(t, q, TokenKind::Comma),
                            Err(_) => false,
                        };
                        if types.len() == 1 && !trailing {
                            Ok((types[0], p3))
                        } else {
                            Ok((TypeV::Tuple(types), p3))
                        }
                    },
                },
            }
        } else {
            Err(stuck(t, p))
        },
    }
}

/// Tuple element types, separated by commas, with an optional trailing comma.
pub open spec fn g_tuple_elems(t: Seq<Token>, p: int, acc: Seq<TypeV>) -> SR<Seq<TypeV>>
    decreases rem(t, p), 3nat,
{
    match g_type(t, p) {
        Err(e) => Err(e),
        Ok((ty, q)) => {
            let acc2 = acc.push(ty);
            if !chk(t, q, TokenKind::Comma) {
                Ok((acc2, q))
            } else {
                let q1 = adv(t, q);
                if chk(t, q1, TokenKind::RParen) {
                    Ok((acc2, q1))
                } else if rem(t, q1) < rem(t, p) {
                    g_tuple_elems(t, q1, acc2)
                } else {
                    Err(stuck(t, q1))
                }
            }
        },
    }
}

// ===================== patterns =====================

/// A pattern.
pub open spec fn g_pattern(t: Seq<Token>, p: int) -> SR<PatternV>
    decreases rem(t, p), 1nat,
{
    if chk_ident(t, p, "_"@) {
        Ok((PatternV::Wildcard, adv(t, p)))
    } else if try_literal(t, p) is Some {
        let (lit, q) = try_literal(t, p)->0;
        Ok((PatternV::Literal(lit), q))
    } else if chk(t, p, TokenKind::LParen) {
        let p1 = adv(t, p);
        if chk(t, p1, TokenKind::RParen) {
            Ok((PatternV::Tuple(seq![]), adv(t, p1)))
        } else if rem(t, p1) < rem(t, p) {
            match g_pattern_elems(t, p1, seq![]) {
                Err(e) => Err(e),
                Ok((elems, p2)) => match expect(t, p2, TokenKind::RParen) {
                    Err(e) => Err(e),
                    Ok(p3) => if elems.len() == 1 {
                        Ok((elems[0], p3))
                    } else {
                        Ok((PatternV::Tuple(elems), p3))
                    },
                },
            }
        } else {
            Err(stuck(t, p))
        }
    } else {
        match expect_ident(t, p) {
            Err(e) => Err(e),
            Ok((name, p1)) => if rem(t, p1) < rem(t, p) {
                if chk(t, p1, TokenKind::LBrace) {
                    let p2 = adv(t, p1);
                    match g_pattern_fields(t, p2, seq![]) {
                        Err(e) => Err(e),
                        Ok((fields, p3)) => match expect(t, p3, TokenKind::RBrace) {
                            Err(e) => Err(e),
                            Ok(p4) => Ok((PatternV::Struct { name, fields }, p4)),
                        },
                    }
                } else if chk(t, p1, TokenKind::LParen) {
                    let p2 = adv(t, p1);
                    if chk(t, p2, TokenKind::RParen) {
                        Ok((PatternV::Variant { name, inner: None }, adv(t, p2)))
                    } else {
                        match g_pattern(t, p2) {
                            Err(e) => Err(e),
                            Ok((inner, p3)) => match expect(t, p3, TokenKind::RParen) {
                                Err(e) => Err(e),
                                Ok(p4) => Ok(
                                    (PatternV::Variant { name, inner: Some(Box::new(inner)) }, p4),
                                ),
                            },
                        }
                    }
                } else if chk(t, p1, TokenKind::Pipe) {
                    match g_pattern_alts(t, adv(t, p1), seq![PatternV::Ident(name)]) {
                        Err(e) => Err(e),
                        Ok((alts, p2)) => Ok((PatternV::Or(alts), p2)),
                    }
                } else if name == "None"@ || name == "true"@ || name == "false"@ {
                    Ok((PatternV::Variant { name, inner: None }, p1))
                } else {
                    Ok((PatternV::Ident(name), p1))
                }
            } else {
                Err(stuck(t, p))
            },
        }
    }
}

/// Tuple pattern elements, separated by commas, with an optional trailing comma.
pub open spec fn g_pattern_elems(t: Seq<Token>, p: int, acc: Seq<PatternV>) -> SR<Seq<PatternV>>
    decreases rem(t, p), 2nat,
{
    match g_pattern(t, p) {
        Err(e) => Err(e),
        Ok((pat, q)) => {
            let acc2 = acc.push(pat);
            if !chk(t, q, TokenKind::Comma) {
                Ok((acc2, q))
            } else {
                let q1 = adv(t, q);
                if chk(t, q1, TokenKind::RParen) {
                    Ok((acc2, q1))
                } else if rem(t, q1) < rem(t, p) {
                    g_pattern_elems(t, q1, acc2)
                } else {
                    Err(stuck(t, q1))
                }
            }
        },
    }
}

/// Struct pattern fields `name: pattern`, separated by commas.
pub open spec fn g_pattern_fields(t: Seq<Token>, p: int, acc: Seq<(Seq<char>, PatternV)>) -> SR<
    Seq<(Seq<char>, PatternV)>,
>
    decreases rem(t, p), 2nat,
{
    let p1 = skip_nl(t, p);
    if chk(t, p1, TokenKind::RBrace) {
        Ok((acc, p1))
    } else {
        match expect_ident(t, p1) {
            Err(e) => Err(e),
            Ok((fname, p2)) => match expect(t, p2, TokenKind::Colon) {
                Err(e) => Err(e),
                Ok(p3) => if rem(t, p3) < rem(t, p) {
                    match g_pattern(t, p3) {
                        Err(e) => Err(e),
                        Ok((fpat, p4)) => {
                            let acc2 = acc.push((fname, fpat));
                            if !chk(t, p4, TokenKind::Comma) {
                                Ok((acc2, p4))
                            } else {
                                let p5 = adv(t, p4);
                                if rem(t, p5) < rem(t, p) {
                                    g_pattern_fields(t, p5, acc2)
                                } else {
                                    Err(stuck(t, p5))
                                }
                            }
                        },
                    }
                } else {
                    Err(stuck(t, p))
                },
            },
        }
    }
}

/// The alternatives of an or-pattern after its first `|`.
pub open spec fn g_pattern_alts(t: Seq<Token>, p: int, acc: Seq<PatternV>) -> SR<Seq<PatternV>>
    decreases rem(t, p), 2nat,
{
    match g_pattern(t, p) {
        Err(e) => Err(e),
        Ok((pat, q)) => {
            let acc2 = acc.push(pat);
            if !chk(t, q, TokenKind::Pipe) {
                Ok((acc2, q))
            } else {
                let q1 = adv(t, q);
                if rem(t, q1) < rem(t, p) {
                    g_pattern_alts(t, q1, acc2)
                } else {
                    Err(stuck(t, q1))
                }
            }
        },
    }
}

// ===================== expressions =====================

/// The binary operator that a token stands for at a precedence level
/// (0: `||`, 1: `&&`, 2: equality, 3: comparison, 4: `+ -`, 5: `* / %`).
pub open spec fn level_op(k: TokenKind, level: nat) -> Option<BinaryOp> {
    if level == 0 {
        match k {
            TokenKind::Or => Some(BinaryOp::Or),
            _ => None,
        }
    } else if level == 1 {
        match k {
            TokenKind::And => Some(BinaryOp::And),
            _ => None,
        }
    } else if level == 2 {
        match k {
            TokenKind::EqEq => Some(BinaryOp::Eq),
            TokenKind::NotEq => Some(BinaryOp::NotEq),
            _ => None,
        }
    } else if level == 3 {
        match k {
            TokenKind::Lt => Some(BinaryOp::Lt),
            TokenKind::Gt => Some(BinaryOp::Gt),
            TokenKind::LtEq => Some(BinaryOp::LtEq),
            TokenKind::GtEq => Some(BinaryOp::GtEq),
            _ => None,
        }
    } else if level == 4 {
        match k {
            TokenKind::Plus => Some(BinaryOp::Add),
            TokenKind::Minus => Some(BinaryOp::Sub),
            _ => None,
        }
    } else if level == 5 {
        match k {
            TokenKind::Star => Some(BinaryOp::Mul),
            TokenKind::Slash => Some(BinaryOp::Div),
            TokenKind::Percent => Some(BinaryOp::Mod),
            _ => None,
        }
    } else {
        None
    }
}

/// The operator of the token at a position at a precedence level, if any.
pub open spec fn op_at(t: Seq<Token>, p: int, level: nat) -> Option<BinaryOp> {
    match tok(t, p) {
        Some(x) => level_op(x.kind, level),
        None => None,
    }
}

/// An expression.
#[verifier::opaque]
pub open spec fn g_expr(t: Seq<Token>, p: int) -> SR<ExprV>
    decreases rem(t, p), 38nat,
{
    g_assignment(t, p)
}

/// An expression in which a `{` after a name starts a block, not a struct literal.
#[verifier::opaque]
pub open spec fn g_expr_ns(t: Seq<Token>, p: int) -> SR<ExprV>
    decreases rem(t, p), 36nat,
{
    g_binary(t, p, 0, true)
}

/// An assignment, a compound assignment, or a logical-or expression.
#[verifier::opaque]
pub open spec fn g_assignment(t: Seq<Token>, p: int) -> SR<ExprV>
    decreases rem(t, p), 37nat,
{
    match g_binary(t, p, 0, false) {
        Err(e) => Err(e),
        Ok((target, p1)) => if chk(t, p1, TokenKind::Eq) {
            let p2 = adv(t, p1);
            if rem(t, p2) < rem(t, p) {
                match g_assignment(t, p2) {
                    Err(e) => Err(e),
                    Ok((value, p3)) => Ok(
                        (
                            ExprV::Assign(
                                AssignExprV {
                                    target: Box::new(target),
                                    value: Box::new(value),
                                    span: span_at(t, p3),
                                },
                            ),
                            p3,
                        ),
                    ),
                }
            } else {
                Err(stuck(t, p))
            }
        } else if compound_op_at(t, p1) is Some {
            let op = compound_op_at(t, p1).unwrap();
            let p2 = adv(t, p1);
            if rem(t, p2) < rem(t, p) {
                match g_assignment(t, p2) {
                    Err(e) => Err(e),
                    Ok((value, p3)) => Ok(
                        (
                            ExprV::CompoundAssign(
                                CompoundAssignExprV {
                                    op,
                                    target: Box::new(target),
                                    value: Box::new(value),
                                    span: span_at(t, p3),
                                },
                            ),
                            p3,
                        ),
                    ),
                }
            } else {
                Err(stuck(t, p))
            }
        } else {
            Ok((target, p1))
        },
    }
}

/// The compound assignment operator of the token at a position, if any.
pub open spec fn compound_op_at(t: Seq<Token>, p: int) -> Option<CompoundAssignOp> {
    match tok(t, p) {
        Some(x) => match x.kind {
            TokenKind::PlusEq => Some(CompoundAssignOp::AddAssign),
            TokenKind::MinusEq => Some(CompoundAssignOp::SubAssign),
            TokenKind::StarEq => Some(CompoundAssignOp::MulAssign),
            TokenKind::SlashEq => Some(CompoundAssignOp::DivAssign),
            _ => None,
        },
        None => None,
    }
}

/// The operand of a precedence level: the next level, or a unary expression below the last.
#[verifier::opaque]
pub open spec fn g_operand(t: Seq<Token>, p: int, level: nat, ns: bool) -> SR<ExprV>
    decreases rem(t, p), (34 - 2 * level) as nat,
{
    if level < 5 {
        g_binary(t, p, level + 1, ns)
    } else if level == 5 && ns {
        g_unary_ns(t, p)
    } else if level == 5 {
        g_unary(t, p)
    } else {
        Err(stuck(t, p))
    }
}

/// A left-associative chain of binary operations at a precedence level.
#[verifier::opaque]
pub open spec fn g_binary(t: Seq<Token>, p: int, level: nat, ns: bool) -> SR<ExprV>
    decreases rem(t, p), (35 - 2 * level) as nat,
{
    if level <= 5 {
        match g_operand(t, p, level, ns) {
            Err(e) => Err(e),
            Ok((left, q)) => if rem(t, q) <= rem(t, p) {
                g_binary_loop(t, q, level, ns, left)
            } else {
                Err(stuck(t, q))
            },
        }
    } else {
        Err(stuck(t, p))
    }
}

/// The rest of a binary chain after its left part.
#[verifier::opaque]
pub open spec fn g_binary_loop(t: Seq<Token>, p: int, level: nat, ns: bool, left: ExprV) -> SR<
    ExprV,
>
    decreases rem(t, p), 0nat,
{
    if level <= 5 && op_at(t, p, level) is Some {
        let op = op_at(t, p, level).unwrap();
        let p1 = adv(t, p);
        if rem(t, p1) < rem(t, p) {
            match g_operand(t, p1, level, ns) {
                Err(e) => Err(e),
                Ok((right, q)) => {
                    let e = ExprV::Binary(
                        BinaryExprV {
                            op,
                            left: Box::new(left),
                            right: Box::new(right),
                            span: span_at(t, q),
                        },
                    );
                    if rem(t, q) < rem(t, p) {
                        g_binary_loop(t, q, level, ns, e)
                    } else {
                        Err(stuck(t, q))
                    }
                },
            }
        } else {
            Err(stuck(t, p))
        }
    } else {
        Ok((left, p))
    }
}

/// A unary expression: `!`, `-`, `*` or `&` applied to a unary expression, or a call chain.
#[verifier::opaque]
pub open spec fn g_unary(t: Seq<Token>, p: int) -> SR<ExprV>
    decreases rem(t, p), 23nat,
{
    let span = span_at(t, p);
    if chk(t, p, TokenKind::Not) || chk(t, p, TokenKind::Minus) {
        let p1 = adv(t, p);
        if rem(t, p1) < rem(t, p) {
            match g_unary(t, p1) {
                Err(e) => Err(e),
                Ok((operand, q)) => Ok(
                    (
                        ExprV::Unary(
                            UnaryExprV {
                                op: if chk(t, p, TokenKind::Not) {
                                    UnaryOp::Not
                                } else {
                                    UnaryOp::Neg
                                },
                                operand: Box::new(operand),
                                span,
                            },
                        ),
                        q,
                    ),
                ),
            }
        } else {
            Err(stuck(t, p))
        }
    } else if chk(t, p, TokenKind::Star) {
        let p1 = adv(t, p);
        if rem(t, p1) < rem(t, p) {
            match g_unary(t, p1) {
                Err(e) => Err(e),
                Ok((operand, q)) => Ok(
                    (ExprV::Deref(DerefExprV { expr: Box::new(operand), span }), q),
                ),
            }
        } else {
            Err(stuck(t, p))
        }
    } else if chk(t, p, TokenKind::Ampersand) {
        let p1 = adv(t, p);
        let mutable = chk(t, p1, TokenKind::Mut);
        let p2 = mt(t, p1, TokenKind::Mut);
        if rem(t, p2) < rem(t, p) {
            match g_unary(t, p2) {
                Err(e) => Err(e),
                Ok((operand, q)) => Ok(
                    (ExprV::Ref(RefExprV { mutable, expr: Box::new(operand), span }), q),
                ),
            }
        } else {
            Err(stuck(t, p))
        }
    } else {
        g_call(t, p)
    }
}

/// A unary expression in a context where `{` starts a block.
#[verifier::opaque]
pub open spec fn g_unary_ns(t: Seq<Token>, p: int) -> SR<ExprV>
    decreases rem(t, p), 23nat,
{
    let span = span_at(t, p);
    if chk(t, p, TokenKind::Not) || chk(t, p, TokenKind::Minus) || chk(t, p, TokenKind::Star) {
        let op = if chk(t, p, TokenKind::Not) {
            UnaryOp::Not
        } else if chk(t, p, TokenKind::Minus) {
            UnaryOp::Neg
        } else {
            UnaryOp::Deref
        };
        let p1 = adv(t, p);
        if rem(t, p1) < rem(t, p) {
            match g_unary_ns(t, p1) {
                Err(e) => Err(e),
                Ok((operand, q)) => Ok(
                    (ExprV::Unary(UnaryExprV { op, operand: Box::new(operand), span }), q),
                ),
            }
        } else {
            Err(stuck(t, p))
        }
    } else if chk(t, p, TokenKind::Ampersand) {
        let p1 = adv(t, p);
        let op = if chk(t, p1, TokenKind::Mut) {
            UnaryOp::RefMut
        } else {
            UnaryOp::Ref
        };
        let p2 = mt(t, p1, TokenKind::Mut);
        if rem(t, p2) < rem(t, p) {
            match g_unary_ns(t, p2) {
                Err(e) => Err(e),
                Ok((operand, q)) => Ok(
                    (ExprV::Unary(UnaryExprV { op, operand: Box::new(operand), span }), q),
                ),
            }
        } else {
            Err(stuck(t, p))
        }
    } else {
        g_primary_ns(t, p)
    }
}

/// A primary expression followed by calls, member accesses, indexing, paths and `?`.
#[verifier::opaque]
pub open spec fn g_call(t: Seq<Token>, p: int) -> SR<ExprV>
    decreases rem(t, p), 22nat,
{
    match g_primary(t, p) {
        Err(e) => Err(e),
        Ok((e, q)) => if rem(t, q) <= rem(t, p) {
            g_call_loop(t, q, e)
        } else {
            Err(stuck(t, q))
        },
    }
}

/// A member expression built from its parts, with the given flags.
pub open spec fn member(object: ExprV, property: Seq<char>, optional: bool, is_path: bool, span: Span) -> ExprV {
    ExprV::Member(
        MemberExprV {
            object: Box::new(object),
            property,
            optional,
            computed: false,
            is_path,
            span,
        },
    )
}

/// A call expression without type arguments.
pub open spec fn call(callee: ExprV, args: Seq<ExprV>, span: Span) -> ExprV {
    ExprV::Call(
        CallExprV { callee: Box::new(callee), args, type_args: seq![], optional: false, span },
    )
}

/// An identifier expression.
pub open spec fn ident(name: Seq<char>, span: Span) -> ExprV {
    ExprV::Ident(IdentExprV { name, span })
}

/// One postfix operation on `e` at `p`: a call, a member access, an index, a path
/// segment or `?`; `None` where no postfix operation starts there.
#[verifier::opaque]
pub open spec fn g_postfix(t: Seq<Token>, p: int, e: ExprV) -> Option<SR<ExprV>>
    decreases rem(t, p), 0nat,
{
    if chk(t, p, TokenKind::LParen) {
        let p2 = adv(t, p);
        if rem(t, p2) < rem(t, p) {
            Some(
                match g_args(t, p2) {
                    Err(err) => Err(err),
                    Ok((args, p3)) => match expect(t, p3, TokenKind::RParen) {
                        Err(err) => Err(err),
                        Ok(p4) => Ok((call(e, args, span_at(t, p4)), p4)),
                    },
                },
            )
        } else {
            Some(Err(stuck(t, p)))
        }
    } else if chk(t, p, TokenKind::Dot) || chk(t, p, TokenKind::QuestionDot) {
        let optional = chk(t, p, TokenKind::QuestionDot);
        Some(
            match expect_ident(t, adv(t, p)) {
                Err(err) => Err(err),
                Ok((prop, p3)) => Ok((member(e, prop, optional, false, span_at(t, p3)), p3)),
            },
        )
    } else if chk(t, p, TokenKind::LBracket) {
        let p2 = adv(t, p);
        if rem(t, p2) < rem(t, p) {
            Some(
                match g_expr(t, p2) {
                    Err(err) => Err(err),
                    Ok((index, p3)) => match expect(t, p3, TokenKind::RBracket) {
                        Err(err) => Err(err),
                        Ok(p4) => Ok(
                            (
                                ExprV::Index(
                                    IndexExprV {
                                        object: Box::new(e),
                                        index: Box::new(index),
                                        span: span_at(t, p4),
                                    },
                                ),
                                p4,
                            ),
                        ),
                    },
                },
            )
        } else {
            Some(Err(stuck(t, p)))
        }
    } else if chk(t, p, TokenKind::ColonColon) {
        let p2 = adv(t, p);
        let r: SR<Seq<char>> = match try_ast_type(t, p2) {
            Some((n, q)) => Ok((n, q)),
            None => expect_ident(t, p2),
        };
        Some(
            match r {
                Err(err) => Err(err),
                Ok((method, p3)) => Ok((member(e, method, false, true, span_at(t, p3)), p3)),
            },
        )
    } else if chk(t, p, TokenKind::Question) {
        Some(Ok((ExprV::Try(Box::new(e)), adv(t, p))))
    } else {
        None
    }
}

/// The postfix operations after a primary expression, each after optional newlines.
#[verifier::opaque]
pub open spec fn g_call_loop(t: Seq<Token>, p: int, e: ExprV) -> SR<ExprV>
    decreases rem(t, p), 1nat,
{
    let p1 = skip_nl(t, p);
    if !(rem(t, p1) <= rem(t, p)) {
        Err(stuck(t, p1))
    } else {
        match g_postfix(t, p1, e) {
            None => Ok((e, p1)),
            Some(Err(err)) => Err(err),
            Some(Ok((e2, q))) => if rem(t, q) < rem(t, p) {
                g_call_loop(t, q, e2)
            } else {
                Err(stuck(t, q))
            },
        }
    }
}

/// A possibly empty, comma-separated argument list (without its parentheses).
#[verifier::opaque]
pub open spec fn g_args(t: Seq<Token>, p: int) -> SR<Seq<ExprV>>
    decreases rem(t, p), 42nat,
{
    let p1 = skip_nl(t, p);
    if !(rem(t, p1) <= rem(t, p)) {
        Err(stuck(t, p1))
    } else if chk(t, p1, TokenKind::RParen) {
        Ok((seq![], p1))
    } else {
        g_args_loop(t, p1, seq![])
    }
}

/// Arguments separated by commas, each possibly preceded and followed by newlines.
#[verifier::opaque]
pub open spec fn g_args_loop(t: Seq<Token>, p: int, acc: Seq<ExprV>) -> SR<Seq<ExprV>>
    decreases rem(t, p), 41nat,
{
    let p1 = skip_nl(t, p);
    if !(rem(t, p1) <= rem(t, p)) {
        Err(stuck(t, p1))
    } else {
        match g_expr(t, p1) {
            Err(e) => Err(e),
            Ok((a, p2)) => {
                let p3 = skip_nl(t, p2);
                let acc2 = acc.push(a);
                if chk(t, p3, TokenKind::Comma) {
                    let p4 = adv(t, p3);
                    if rem(t, p4) < rem(t, p) {
                        g_args_loop(t, p4, acc2)
                    } else {
                        Err(stuck(t, p4))
                    }
                } else {
                    Ok((acc2, p3))
                }
            },
        }
    }
}

/// A struct literal with a single `_wildcard` field: the form `Name(_)`.
pub open spec fn wildcard_init(name: Seq<char>, span: Span) -> ExprV {
    ExprV::StructInit(
        StructInitExprV { name, fields: seq![("_wildcard"@, ident("_"@, span))], span },
    )
}

/// What a type keyword stands for in expression position.
pub open spec fn expr_keyword_name(k: TokenKind) -> Option<Seq<char>> {
    match k {
        TokenKind::HashMap => Some("HashMap"@),
        TokenKind::HashSet => Some("HashSet"@),
        TokenKind::Vec => Some("Vec"@),
        TokenKind::Option => Some("Option"@),
        TokenKind::Result => Some("Result"@),
        TokenKind::Str => Some("String"@),
        _ => None,
    }
}

/// After a name (at `p`): a struct literal, a `Name(_)` wildcard or a call, or the name alone.
#[verifier::opaque]
pub open spec fn g_after_name(t: Seq<Token>, p: int, name: Seq<char>, span: Span) -> SR<ExprV>
    decreases rem(t, p), 2nat,
{
    if chk(t, p, TokenKind::LBrace) {
        g_struct_init(t, p, name, span)
    } else if chk(t, p, TokenKind::LParen) {
        let p1 = adv(t, p);
        if chk_ident(t, p1, "_"@) {
            match expect(t, adv(t, p1), TokenKind::RParen) {
                Err(e) => Err(e),
                Ok(p2) => Ok((wildcard_init(name, span), p2)),
            }
        } else if rem(t, p1) < rem(t, p) {
            let r: SR<Seq<ExprV>> = if chk(t, p1, TokenKind::RParen) {
                Ok((seq![], p1))
            } else {
                g_args(t, p1)
            };
            match r {
                Err(e) => Err(e),
                Ok((args, p2)) => match expect(t, p2, TokenKind::RParen) {
                    Err(e) => Err(e),
                    Ok(p3) => Ok((call(ident(name, span), args, span), p3)),
                },
            }
        } else {
            Err(stuck(t, p))
        }
    } else {
        Ok((ident(name, span), p))
    }
}

/// A primary expression.
#[verifier::opaque]
pub open spec fn g_primary(t: Seq<Token>, p: int) -> SR<ExprV>
    decreases rem(t, p), 20nat,
{
    let span = span_at(t, p);
    if chk(t, p, TokenKind::LBrace) {
        match g_block(t, p) {
            Err(e) => Err(e),
            Ok((b, q)) => Ok((ExprV::Block(b), q)),
        }
    } else if chk(t, p, TokenKind::LParen) {
        let p1 = adv(t, p);
        if chk(t, p1, TokenKind::RParen) {
            Ok((ExprV::Literal(LiteralV::Unit), adv(t, p1)))
        } else if rem(t, p1) < rem(t, p) {
            if chk(t, p1, TokenKind::Pipe) {
                g_closure(t, p1, span)
            } else {
                match g_expr(t, p1) {
                    Err(e) => Err(e),
                    Ok((e, p2)) => match expect(t, p2, TokenKind::RParen) {
                        Err(err) => Err(err),
                        Ok(p3) => Ok((ExprV::Paren(Box::new(e)), p3)),
                    },
                }
            }
        } else {
            Err(stuck(t, p))
        }
    } else if chk(t, p, TokenKind::Pipe) {
        g_closure(t, p, span)
    } else if try_literal(t, p) is Some {
        let (lit, q) = try_literal(t, p).unwrap();
        Ok((ExprV::Literal(lit), q))
    } else if chk_ident(t, p, "vec"@) {
        let p1 = adv(t, p);
        if chk(t, p1, TokenKind::Not) {
            match expect(t, adv(t, p1), TokenKind::LBracket) {
                Err(e) => Err(e),
                Ok(p2) => {
                    let p3 = skip_nl(t, p2);
                    if !(rem(t, p3) < rem(t, p)) {
                        Err(stuck(t, p3))
                    } else {
                        let r: SR<Seq<ExprV>> = if chk(t, p3, TokenKind::RBracket) {
                            Ok((seq![], p3))
                        } else {
                            g_vec_elems(t, p3, seq![])
                        };
                        match r {
                            Err(e) => Err(e),
                            Ok((elements, p4)) => match expect(t, p4, TokenKind::RBracket) {
                                Err(e) => Err(e),
                                Ok(p5) => Ok((ExprV::VecInit(VecInitExprV { elements, span }), p5)),
                            },
                        }
                    }
                },
            }
        } else {
            Ok((ident("vec"@, span), p1))
        }
    } else if chk_ident(t, p, "format"@) {
        let p1 = adv(t, p);
        if chk(t, p1, TokenKind::Not) {
            match expect(t, adv(t, p1), TokenKind::LParen) {
                Err(e) => Err(e),
                Ok(p2) => if rem(t, p2) < rem(t, p) {
                    match g_args(t, p2) {
                        Err(e) => Err(e),
                        Ok((args, p3)) => match expect(t, p3, TokenKind::RParen) {
                            Err(e) => Err(e),
                            Ok(p4) => Ok((call(ident("format"@, span), args, span), p4)),
                        },
                    }
                } else {
                    Err(stuck(t, p))
                },
            }
        } else {
            Ok((ident("format"@, span), p1))
        }
    } else if chk(t, p, TokenKind::Matches) {
        match expect(t, adv(t, p), TokenKind::LParen) {
            Err(e) => Err(e),
            Ok(p2) => if rem(t, p2) < rem(t, p) {
                match g_args(t, p2) {
                    Err(e) => Err(e),
                    Ok((args, p3)) => match expect(t, p3, TokenKind::RParen) {
                        Err(e) => Err(e),
                        Ok(p4) => Ok((call(ident("matches!"@, span), args, span), p4)),
                    },
                }
            } else {
                Err(stuck(t, p))
            },
        }
    } else if chk(t, p, TokenKind::Self_) {
        Ok((ident("self"@, span), adv(t, p)))
    } else if chk(t, p, TokenKind::SelfType) {
        let p1 = adv(t, p);
        if chk(t, p1, TokenKind::LBrace) && rem(t, p1) < rem(t, p) {
            g_struct_init(t, p1, "Self"@, span)
        } else if chk(t, p1, TokenKind::LBrace) {
            Err(stuck(t, p))
        } else {
            Ok((ident("Self"@, span), p1))
        }
    } else if try_ident(t, p) is Some {
        let (name, p1) = try_ident(t, p).unwrap();
        if rem(t, p1) < rem(t, p) {
            g_after_name(t, p1, name, span)
        } else {
            Err(stuck(t, p))
        }
    } else if try_ast_type(t, p) is Some {
        let (name, p1) = try_ast_type(t, p).unwrap();
        if !(rem(t, p1) < rem(t, p)) {
            Err(stuck(t, p))
        } else if chk(t, p1, TokenKind::LBrace) {
            g_struct_init(t, p1, name, span)
        } else if chk(t, p1, TokenKind::LParen) {
            let p2 = adv(t, p1);
            if chk_ident(t, p2, "_"@) {
                match expect(t, adv(t, p2), TokenKind::RParen) {
                    Err(e) => Err(e),
                    Ok(p3) => Ok((wildcard_init(name, span), p3)),
                }
            } else {
                Err(
                    err_at(
                        t,
                        p2,
                        "AST type must be followed by { } for struct pattern or (_) for wildcard"@,
                    ),
                )
            }
        } else {
            Ok((ident(name, span), p1))
        }
    } else if tok(t, p) is Some && expr_keyword_name(tok(t, p).unwrap().kind) is Some {
        let name = expr_keyword_name(tok(t, p).unwrap().kind).unwrap();
        let p1 = adv(t, p);
        if chk(t, p1, TokenKind::LBrace) && rem(t, p1) < rem(t, p) {
            g_struct_init(t, p1, name, span)
        } else if chk(t, p1, TokenKind::LBrace) {
            Err(stuck(t, p))
        } else {
            Ok((ident(name, span), p1))
        }
    } else {
        Err(err_at(t, p, "Expected expression"@))
    }
}

/// Whether an expression can start at `p`: a block, a parenthesis, a
/// closure, a literal, a `vec!`, `format!` or `matches!` form, `self`,
/// `Self`, a name, a syntax-tree type or a type keyword used as a path.
pub open spec fn starts_expression(t: Seq<Token>, p: int) -> bool {
    ||| chk(t, p, TokenKind::LBrace)
    ||| chk(t, p, TokenKind::LParen)
    ||| chk(t, p, TokenKind::Pipe)
    ||| try_literal(t, p) is Some
    ||| chk_ident(t, p, "vec"@)
    ||| chk_ident(t, p, "format"@)
    ||| chk(t, p, TokenKind::Matches)
    ||| chk(t, p, TokenKind::Self_)
    ||| chk(t, p, TokenKind::SelfType)
    ||| try_ident(t, p) is Some
    ||| try_ast_type(t, p) is Some
    ||| (tok(t, p) is Some && expr_keyword_name(tok(t, p).unwrap().kind) is Some)
}

/// The elements of a `vec![...]` literal, with an optional trailing comma.
#[verifier::opaque]
pub open spec fn g_vec_elems(t: Seq<Token>, p: int, acc: Seq<ExprV>) -> SR<Seq<ExprV>>
    decreases rem(t, p), 41nat,
{
    match g_expr(t, p) {
        Err(e) => Err(e),
        Ok((x, p1)) => {
            let acc2 = acc.push(x);
            let p2 = skip_nl(t, p1);
            if !chk(t, p2, TokenKind::Comma) {
                Ok((acc2, p2))
            } else {
                let p3 = skip_nl(t, adv(t, p2));
                if chk(t, p3, TokenKind::RBracket) {
                    Ok((acc2, p3))
                } else if rem(t, p3) < rem(t, p) {
                    g_vec_elems(t, p3, acc2)
                } else {
                    Err(stuck(t, p3))
                }
            }
        },
    }
}

/// Closure parameter names separated by commas.
pub open spec fn g_closure_params(t: Seq<Token>, p: int, acc: Seq<Seq<char>>) -> SR<Seq<Seq<char>>>
    decreases rem(t, p),
{
    match expect_ident(t, p) {
        Err(e) => Err(e),
        Ok((name, p1)) => {
            let acc2 = acc.push(name);
            if chk(t, p1, TokenKind::Comma) {
                let p2 = adv(t, p1);
                if rem(t, p2) < rem(t, p) {
                    g_closure_params(t, p2, acc2)
                } else {
                    Err(stuck(t, p2))
                }
            } else {
                Ok((acc2, p1))
            }
        },
    }
}

/// A closure `|params| body`, whose body is a block or an expression.
#[verifier::opaque]
pub open spec fn g_closure(t: Seq<Token>, p: int, span: Span) -> SR<ExprV>
    decreases rem(t, p), 18nat,
{
    match expect(t, p, TokenKind::Pipe) {
        Err(e) => Err(e),
        Ok(p1) => {
            let r: SR<Seq<Seq<char>>> = if chk(t, p1, TokenKind::Pipe) {
                Ok((seq![], p1))
            } else {
                g_closure_params(t, p1, seq![])
            };
            match r {
                Err(e) => Err(e),
                Ok((params, p2)) => match expect(t, p2, TokenKind::Pipe) {
                    Err(e) => Err(e),
                    Ok(p3) => if !(rem(t, p3) < rem(t, p)) {
                        Err(stuck(t, p3))
                    } else {
                        let b: SR<ExprV> = if chk(t, p3, TokenKind::LBrace) {
                            match g_block(t, p3) {
                                Err(e) => Err(e),
                                Ok((blk, q)) => Ok((ExprV::Block(blk), q)),
                            }
                        } else {
                            g_expr(t, p3)
                        };
                        match b {
                            Err(e) => Err(e),
                            Ok((body, q)) => Ok(
                                (ExprV::Closure(ClosureExprV { params, body: Box::new(body), span }), q),
                            ),
                        }
                    },
                },
            }
        },
    }
}

/// A struct literal `{ field: value, ... }` for the given name.
#[verifier::opaque]
pub open spec fn g_struct_init(t: Seq<Token>, p: int, name: Seq<char>, span: Span) -> SR<ExprV>
    decreases rem(t, p), 1nat,
{
    match expect(t, p, TokenKind::LBrace) {
        Err(e) => Err(e),
        Ok(p1) => if rem(t, p1) < rem(t, p) {
            match g_init_fields(t, p1, seq![]) {
                Err(e) => Err(e),
                Ok((fields, p2)) => match expect(t, p2, TokenKind::RBrace) {
                    Err(e) => Err(e),
                    Ok(p3) => Ok((ExprV::StructInit(StructInitExprV { name, fields, span }), p3)),
                },
            }
        } else {
            Err(stuck(t, p))
        },
    }
}

/// The fields of a struct literal.
#[verifier::opaque]
pub open spec fn g_init_fields(t: Seq<Token>, p: int, acc: Seq<(Seq<char>, ExprV)>) -> SR<
    Seq<(Seq<char>, ExprV)>,
>
    decreases rem(t, p), 0nat,
{
    let p1 = skip_nl(t, p);
    if chk(t, p1, TokenKind::RBrace) {
        Ok((acc, p1))
    } else {
        match expect_ident(t, p1) {
            Err(e) => Err(e),
            Ok((fname, p2)) => match expect(t, p2, TokenKind::Colon) {
                Err(e) => Err(e),
                Ok(p3) => if rem(t, p3) < rem(t, p) {
                    match g_expr(t, p3) {
                        Err(e) => Err(e),
                        Ok((value, p4)) => {
                            let acc2 = acc.push((fname, value));
                            let p5 = skip_nl(t, p4);
                            if chk(t, p5, TokenKind::Comma) {
                                let p6 = adv(t, p5);
                                if rem(t, p6) < rem(t, p) {
                                    g_init_fields(t, p6, acc2)
                                } else {
                                    Err(stuck(t, p6))
                                }
                            } else {
                                Ok((acc2, p5))
                            }
                        },
                    }
                } else {
                    Err(stuck(t, p))
                },
            },
        }
    }
}

/// A primary expression in a context where `{` starts a block.
#[verifier::opaque]
pub open spec fn g_primary_ns(t: Seq<Token>, p: int) -> SR<ExprV>
    decreases rem(t, p), 21nat,
{
    let span = span_at(t, p);
    if chk(t, p, TokenKind::Self_) {
        let p1 = adv(t, p);
        if rem(t, p1) < rem(t, p) {
            g_self_members(t, p1, ident("self"@, span))
        } else {
            Err(stuck(t, p))
        }
    } else if try_ident(t, p) is Some {
        let (name, p1) = try_ident(t, p).unwrap();
        if rem(t, p1) < rem(t, p) {
            g_name_postfix(t, p1, ident(name, span))
        } else {
            Err(stuck(t, p))
        }
    } else {
        g_primary(t, p)
    }
}

/// Member accesses after `self` in a context where `{` starts a block.
#[verifier::opaque]
pub open spec fn g_self_members(t: Seq<Token>, p: int, e: ExprV) -> SR<ExprV>
    decreases rem(t, p), 0nat,
{
    if chk(t, p, TokenKind::Dot) {
        match expect_ident(t, adv(t, p)) {
            Err(err) => Err(err),
            Ok((prop, p1)) => if rem(t, p1) < rem(t, p) {
                g_self_members(t, p1, member(e, prop, false, false, span_at(t, p1)))
            } else {
                Err(stuck(t, p1))
            },
        }
    } else {
        Ok((e, p))
    }
}

/// Member accesses, calls, indexing and paths after a name, without struct literals.
#[verifier::opaque]
pub open spec fn g_name_postfix(t: Seq<Token>, p: int, e: ExprV) -> SR<ExprV>
    decreases rem(t, p), 0nat,
{
    if chk(t, p, TokenKind::Dot) {
        match expect_ident(t, adv(t, p)) {
            Err(err) => Err(err),
            Ok((prop, p1)) => if rem(t, p1) < rem(t, p) {
                g_name_postfix(t, p1, member(e, prop, false, false, span_at(t, p1)))
            } else {
                Err(stuck(t, p1))
            },
        }
    } else if chk(t, p, TokenKind::LParen) {
        let p1 = adv(t, p);
        if rem(t, p1) < rem(t, p) {
            match g_args(t, p1) {
                Err(err) => Err(err),
                Ok((args, p2)) => match expect(t, p2, TokenKind::RParen) {
                    Err(err) => Err(err),
                    Ok(p3) => if rem(t, p3) < rem(t, p) {
                        g_name_postfix(t, p3, call(e, args, span_at(t, p3)))
                    } else {
                        Err(stuck(t, p3))
                    },
                },
            }
        } else {
            Err(stuck(t, p))
        }
    } else if chk(t, p, TokenKind::LBracket) {
        let p1 = adv(t, p);
        if rem(t, p1) < rem(t, p) {
            match g_expr(t, p1) {
                Err(err) => Err(err),
                Ok((index, p2)) => match expect(t, p2, TokenKind::RBracket) {
                    Err(err) => Err(err),
                    Ok(p3) => if rem(t, p3) < rem(t, p) {
                        g_name_postfix(
                            t,
                            p3,
                            ExprV::Index(
                                IndexExprV {
                                    object: Box::new(e),
                                    index: Box::new(index),
                                    span: span_at(t, p3),
                                },
                            ),
                        )
                    } else {
                        Err(stuck(t, p3))
                    },
                },
            }
        } else {
            Err(stuck(t, p))
        }
    } else if chk(t, p, TokenKind::ColonColon) {
        match expect_ident(t, adv(t, p)) {
            Err(err) => Err(err),
            Ok((method, p1)) => if rem(t, p1) < rem(t, p) {
                g_name_postfix(t, p1, member(e, method, false, true, span_at(t, p1)))
            } else {
                Err(stuck(t, p1))
            },
        }
    } else {
        Ok((e, p))
    }
}

// ===================== blocks and statements =====================

/// A braced block of statements.
#[verifier::opaque]
pub open spec fn g_block(t: Seq<Token>, p: int) -> SR<BlockV>
    decreases rem(t, p), 19nat,
{
    let span = span_at(t, p);
    match expect(t, p, TokenKind::LBrace) {
        Err(e) => Err(e),
        Ok(p1) => if rem(t, p1) < rem(t, p) {
            match g_block_stmts(t, p1, seq![]) {
                Err(e) => Err(e),
                Ok((stmts, p2)) => match expect(t, p2, TokenKind::RBrace) {
                    Err(e) => Err(e),
                    Ok(p3) => Ok((BlockV { stmts, span }, p3)),
                },
            }
        } else {
            Err(stuck(t, p))
        },
    }
}

/// The statements of a block, up to its `}` or the end.
#[verifier::opaque]
pub open spec fn g_block_stmts(t: Seq<Token>, p: int, acc: Seq<StmtV>) -> SR<Seq<StmtV>>
    decreases rem(t, p), 41nat,
{
    let p1 = skip_nl(t, p);
    if !(rem(t, p1) <= rem(t, p)) {
        Err(stuck(t, p1))
    } else if chk(t, p1, TokenKind::RBrace) || at_end(t, p1) {
        Ok((acc, p1))
    } else {
        match g_statement(t, p1) {
            Err(e) => Err(e),
            Ok((s, p2)) => if rem(t, p2) < rem(t, p) {
                g_block_stmts(t, p2, acc.push(s))
            } else {
                Err(stuck(t, p2))
            },
        }
    }
}

/// A statement, after any newlines and comments.
#[verifier::opaque]
pub open spec fn g_statement(t: Seq<Token>, p0: int) -> SR<StmtV>
    decreases rem(t, p0), 40nat,
{
    let p = skip_nl(t, p0);
    if !(rem(t, p) <= rem(t, p0)) {
        Err(stuck(t, p))
    } else if chk(t, p, TokenKind::Let) {
        g_let(t, p)
    } else if chk(t, p, TokenKind::Const) {
        g_const(t, p)
    } else if chk(t, p, TokenKind::If) {
        g_if(t, p)
    } else if chk(t, p, TokenKind::Match) {
        g_match_stmt(t, p)
    } else if chk(t, p, TokenKind::For) {
        g_for(t, p)
    } else if chk(t, p, TokenKind::While) {
        g_while(t, p)
    } else if chk(t, p, TokenKind::Loop) {
        g_loop(t, p)
    } else if chk(t, p, TokenKind::Return) {
        g_return(t, p)
    } else if chk(t, p, TokenKind::Break) {
        g_break(t, p)
    } else if chk(t, p, TokenKind::Continue) {
        g_continue(t, p)
    } else if chk(t, p, TokenKind::Traverse) {
        g_traverse(t, p)
    } else {
        g_expr_stmt(t, p)
    }
}

/// A `break;` statement.
pub open spec fn g_break(t: Seq<Token>, p: int) -> SR<StmtV> {
    match expect(t, p, TokenKind::Break) {
        Err(e) => Err(e),
        Ok(p1) => match expect(t, p1, TokenKind::Semicolon) {
            Err(e) => Err(e),
            Ok(p2) => Ok((StmtV::Break(BreakStmtV { span: span_at(t, p) }), p2)),
        },
    }
}

/// A `continue;` statement.
pub open spec fn g_continue(t: Seq<Token>, p: int) -> SR<StmtV> {
    match expect(t, p, TokenKind::Continue) {
        Err(e) => Err(e),
        Ok(p1) => match expect(t, p1, TokenKind::Semicolon) {
            Err(e) => Err(e),
            Ok(p2) => Ok((StmtV::Continue(ContinueStmtV { span: span_at(t, p) }), p2)),
        },
    }
}

/// An optional `: Type` annotation.
pub open spec fn g_opt_annot(t: Seq<Token>, p: int) -> SR<Option<TypeV>> {
    if chk(t, p, TokenKind::Colon) {
        match g_type(t, adv(t, p)) {
            Err(e) => Err(e),
            Ok((ty, q)) => Ok((Some(ty), q)),
        }
    } else {
        Ok((None, p))
    }
}

/// `= init ;` at the end of a binding.
#[verifier::opaque]
pub open spec fn g_init(t: Seq<Token>, p: int) -> SR<ExprV>
    decreases rem(t, p), 0nat,
{
    match expect(t, p, TokenKind::Eq) {
        Err(e) => Err(e),
        Ok(p1) => if rem(t, p1) < rem(t, p) {
            match g_expr(t, p1) {
                Err(e) => Err(e),
                Ok((init, p2)) => match expect(t, p2, TokenKind::Semicolon) {
                    Err(e) => Err(e),
                    Ok(p3) => Ok((init, p3)),
                },
            }
        } else {
            Err(stuck(t, p1))
        },
    }
}

/// A `let` statement.
#[verifier::opaque]
pub open spec fn g_let(t: Seq<Token>, p: int) -> SR<StmtV>
    decreases rem(t, p), 39nat,
{
    let span = span_at(t, p);
    match expect(t, p, TokenKind::Let) {
        Err(e) => Err(e),
        Ok(p1) => {
            let mutable = chk(t, p1, TokenKind::Mut);
            match g_pattern(t, mt(t, p1, TokenKind::Mut)) {
                Err(e) => Err(e),
                Ok((pattern, p2)) => match g_opt_annot(t, p2) {
                    Err(e) => Err(e),
                    Ok((ty, p3)) => if rem(t, p3) < rem(t, p) {
                        match g_init(t, p3) {
                            Err(e) => Err(e),
                            Ok((init, p4)) => Ok(
                                (StmtV::Let(LetStmtV { mutable, pattern, ty, init, span }), p4),
                            ),
                        }
                    } else {
                        Err(stuck(t, p3))
                    },
                },
            }
        },
    }
}

/// A `const` statement.
#[verifier::opaque]
pub open spec fn g_const(t: Seq<Token>, p: int) -> SR<StmtV>
    decreases rem(t, p), 39nat,
{
    let span = span_at(t, p);
    match expect(t, p, TokenKind::Const) {
        Err(e) => Err(e),
        Ok(p1) => match expect_ident(t, p1) {
            Err(e) => Err(e),
            Ok((name, p2)) => match g_opt_annot(t, p2) {
                Err(e) => Err(e),
                Ok((ty, p3)) => if rem(t, p3) < rem(t, p) {
                    match g_init(t, p3) {
                        Err(e) => Err(e),
                        Ok((init, p4)) => Ok((StmtV::Const(ConstStmtV { name, ty, init, span }), p4)),
                    }
                } else {
                    Err(stuck(t, p3))
                },
            },
        },
    }
}

/// An `if` statement.
#[verifier::opaque]
pub open spec fn g_if(t: Seq<Token>, p: int) -> SR<StmtV>
    decreases rem(t, p), 39nat,
{
    let span = span_at(t, p);
    match expect(t, p, TokenKind::If) {
        Err(e) => Err(e),
        Ok(p1) => {
            let head: SR<(Option<PatternV>, ExprV)> = if chk(t, p1, TokenKind::Let) {
                match g_pattern(t, adv(t, p1)) {
                    Err(e) => Err(e),
                    Ok((pat, p2)) => match expect(t, p2, TokenKind::Eq) {
                        Err(e) => Err(e),
                        Ok(p3) => if rem(t, p3) < rem(t, p) {
                            match g_expr_ns(t, p3) {
                                Err(e) => Err(e),
                                Ok((c, p4)) => Ok(((Some(pat), c), p4)),
                            }
                        } else {
                            Err(stuck(t, p3))
                        },
                    },
                }
            } else if rem(t, p1) < rem(t, p) {
                match g_expr_ns(t, p1) {
                    Err(e) => Err(e),
                    Ok((c, p4)) => Ok(((None, c), p4)),
                }
            } else {
                Err(stuck(t, p1))
            };
            match head {
                Err(e) => Err(e),
                Ok(((pattern, condition), p5)) => if rem(t, p5) < rem(t, p) {
                    match g_block(t, p5) {
                        Err(e) => Err(e),
                        Ok((then_branch, p6)) => if rem(t, p6) < rem(t, p) {
                            match g_else_chain(t, p6, seq![]) {
                                Err(e) => Err(e),
                                Ok(((else_if_branches, else_branch), p7)) => Ok(
                                    (
                                        StmtV::If(
                                            IfStmtV {
                                                condition,
                                                pattern,
                                                then_branch,
                                                else_if_branches,
                                                else_branch,
                                                span,
                                            },
                                        ),
                                        p7,
                                    ),
                                ),
                            }
                        } else {
                            Err(stuck(t, p6))
                        },
                    }
                } else {
                    Err(stuck(t, p5))
                },
            }
        },
    }
}

/// The `else if` branches and the final `else` of an if statement.
#[verifier::opaque]
pub open spec fn g_else_chain(t: Seq<Token>, p: int, acc: Seq<(ExprV, BlockV)>) -> SR<
    (Seq<(ExprV, BlockV)>, Option<BlockV>),
>
    decreases rem(t, p), 0nat,
{
    if !chk(t, p, TokenKind::Else) {
        Ok(((acc, None), p))
    } else {
        let p1 = adv(t, p);
        if !(rem(t, p1) < rem(t, p)) {
            Err(stuck(t, p1))
        } else if chk(t, p1, TokenKind::If) {
            match g_expr_ns(t, adv(t, p1)) {
                Err(e) => Err(e),
                Ok((cond, p2)) => if rem(t, p2) < rem(t, p) {
                    match g_block(t, p2) {
                        Err(e) => Err(e),
                        Ok((blk, p3)) => if rem(t, p3) < rem(t, p) {
                            g_else_chain(t, p3, acc.push((cond, blk)))
                        } else {
                            Err(stuck(t, p3))
                        },
                    }
                } else {
                    Err(stuck(t, p2))
                },
            }
        } else {
            match g_block(t, p1) {
                Err(e) => Err(e),
                Ok((blk, p2)) => Ok(((acc, Some(blk)), p2)),
            }
        }
    }
}

/// A `match` statement.
#[verifier::opaque]
pub open spec fn g_match_stmt(t: Seq<Token>, p: int) -> SR<StmtV>
    decreases rem(t, p), 39nat,
{
    let span = span_at(t, p);
    match expect(t, p, TokenKind::Match) {
        Err(e) => Err(e),
        Ok(p1) => if rem(t, p1) < rem(t, p) {
            match g_binary(t, p1, 0, true) {
                Err(e) => Err(e),
                Ok((scrutinee, p2)) => match expect(t, p2, TokenKind::LBrace) {
                    Err(e) => Err(e),
                    Ok(p3) => if rem(t, p3) < rem(t, p) {
                        match g_match_arms(t, p3, seq![]) {
                            Err(e) => Err(e),
                            Ok((arms, p4)) => match expect(t, p4, TokenKind::RBrace) {
                                Err(e) => Err(e),
                                Ok(p5) => Ok((StmtV::Match(MatchStmtV { scrutinee, arms, span }), p5)),
                            },
                        }
                    } else {
                        Err(stuck(t, p3))
                    },
                },
            }
        } else {
            Err(stuck(t, p1))
        },
    }
}

/// The arms of a match, up to its `}`.
#[verifier::opaque]
pub open spec fn g_match_arms(t: Seq<Token>, p: int, acc: Seq<MatchArmV>) -> SR<Seq<MatchArmV>>
    decreases rem(t, p), 1nat,
{
    let p1 = skip_nl(t, p);
    if !(rem(t, p1) <= rem(t, p)) {
        Err(stuck(t, p1))
    } else if chk(t, p1, TokenKind::RBrace) {
        Ok((acc, p1))
    } else {
        match g_match_arm(t, p1) {
            Err(e) => Err(e),
            Ok((arm, p2)) => if rem(t, p2) < rem(t, p) {
                g_match_arms(t, p2, acc.push(arm))
            } else {
                Err(stuck(t, p2))
            },
        }
    }
}

/// One match arm `pattern => expr`, with an optional comma.
#[verifier::opaque]
pub open spec fn g_match_arm(t: Seq<Token>, p: int) -> SR<MatchArmV>
    decreases rem(t, p), 0nat,
{
    let span = span_at(t, p);
    match g_pattern(t, p) {
        Err(e) => Err(e),
        Ok((pattern, p1)) => match expect(t, p1, TokenKind::FatArrow) {
            Err(e) => Err(e),
            Ok(p2) => if rem(t, p2) < rem(t, p) {
                match g_expr(t, p2) {
                    Err(e) => Err(e),
                    Ok((body, p3)) => Ok(
                        (MatchArmV { pattern, body, span }, skip_nl(t, mt(t, p3, TokenKind::Comma))),
                    ),
                }
            } else {
                Err(stuck(t, p2))
            },
        },
    }
}

/// A `for` loop.
#[verifier::opaque]
pub open spec fn g_for(t: Seq<Token>, p: int) -> SR<StmtV>
    decreases rem(t, p), 39nat,
{
    let span = span_at(t, p);
    match expect(t, p, TokenKind::For) {
        Err(e) => Err(e),
        Ok(p1) => match g_pattern(t, p1) {
            Err(e) => Err(e),
            Ok((pattern, p2)) => match expect(t, p2, TokenKind::In) {
                Err(e) => Err(e),
                Ok(p3) => if rem(t, p3) < rem(t, p) {
                    match g_expr_ns(t, p3) {
                        Err(e) => Err(e),
                        Ok((iter, p4)) => if rem(t, p4) < rem(t, p) {
                            match g_block(t, p4) {
                                Err(e) => Err(e),
                                Ok((body, p5)) => Ok(
                                    (StmtV::For(ForStmtV { pattern, iter, body, span }), p5),
                                ),
                            }
                        } else {
                            Err(stuck(t, p4))
                        },
                    }
                } else {
                    Err(stuck(t, p3))
                },
            },
        },
    }
}

/// A `while` loop.
#[verifier::opaque]
pub open spec fn g_while(t: Seq<Token>, p: int) -> SR<StmtV>
    decreases rem(t, p), 39nat,
{
    let span = span_at(t, p);
    match expect(t, p, TokenKind::While) {
        Err(e) => Err(e),
        Ok(p1) => if rem(t, p1) < rem(t, p) {
            match g_expr_ns(t, p1) {
                Err(e) => Err(e),
                Ok((condition, p2)) => if rem(t, p2) < rem(t, p) {
                    match g_block(t, p2) {
                        Err(e) => Err(e),
                        Ok((body, p3)) => Ok((StmtV::While(WhileStmtV { condition, body, span }), p3)),
                    }
                } else {
                    Err(stuck(t, p2))
                },
            }
        } else {
            Err(stuck(t, p1))
        },
    }
}

/// A `loop` statement.
#[verifier::opaque]
pub open spec fn g_loop(t: Seq<Token>, p: int) -> SR<StmtV>
    decreases rem(t, p), 39nat,
{
    let span = span_at(t, p);
    match expect(t, p, TokenKind::Loop) {
        Err(e) => Err(e),
        Ok(p1) => if rem(t, p1) < rem(t, p) {
            match g_block(t, p1) {
                Err(e) => Err(e),
                Ok((body, p2)) => Ok((StmtV::Loop(LoopStmtV { body, span }), p2)),
            }
        } else {
            Err(stuck(t, p1))
        },
    }
}

/// A `return` statement with an optional value.
#[verifier::opaque]
pub open spec fn g_return(t: Seq<Token>, p: int) -> SR<StmtV>
    decreases rem(t, p), 39nat,
{
    let span = span_at(t, p);
    match expect(t, p, TokenKind::Return) {
        Err(e) => Err(e),
        Ok(p1) => if !(rem(t, p1) < rem(t, p)) {
            Err(stuck(t, p1))
        } else {
            let v: SR<Option<ExprV>> = if !chk(t, p1, TokenKind::Semicolon) && !chk(
                t,
                p1,
                TokenKind::Newline,
            ) {
                match g_expr(t, p1) {
                    Err(e) => Err(e),
                    Ok((x, q)) => Ok((Some(x), q)),
                }
            } else {
                Ok((None, p1))
            };
            match v {
                Err(e) => Err(e),
                Ok((value, p2)) => match expect(t, p2, TokenKind::Semicolon) {
                    Err(e) => Err(e),
                    Ok(p3) => Ok((StmtV::Return(ReturnStmtV { value, span }), p3)),
                },
            }
        },
    }
}

/// The entries of a capture list.
pub open spec fn g_captures(t: Seq<Token>, p: int, acc: Seq<CaptureV>) -> SR<Seq<CaptureV>>
    decreases rem(t, p),
{
    let p1 = skip_nl(t, p);
    if chk(t, p1, TokenKind::RBracket) {
        Ok((acc, p1))
    } else {
        let span = span_at(t, p1);
        match expect(t, p1, TokenKind::Ampersand) {
            Err(e) => Err(e),
            Ok(p2) => {
                let mutable = chk(t, p2, TokenKind::Mut);
                match expect_ident(t, mt(t, p2, TokenKind::Mut)) {
                    Err(e) => Err(e),
                    Ok((name, p3)) => {
                        let acc2 = acc.push(CaptureV { name, mutable, span });
                        if chk(t, p3, TokenKind::Comma) {
                            let p4 = adv(t, p3);
                            if rem(t, p4) < rem(t, p) {
                                g_captures(t, p4, acc2)
                            } else {
                                Err(stuck(t, p4))
                            }
                        } else {
                            Ok((acc2, p3))
                        }
                    },
                }
            },
        }
    }
}

/// A capture list `[&mut x, &y]`.
pub open spec fn g_capture_list(t: Seq<Token>, p: int) -> SR<Seq<CaptureV>> {
    match expect(t, p, TokenKind::LBracket) {
        Err(e) => Err(e),
        Ok(p1) => match g_captures(t, p1, seq![]) {
            Err(e) => Err(e),
            Ok((caps, p2)) => match expect(t, p2, TokenKind::RBracket) {
                Err(e) => Err(e),
                Ok(p3) => Ok((caps, p3)),
            },
        },
    }
}

/// A `traverse(target) ...` statement.
#[verifier::opaque]
pub open spec fn g_traverse(t: Seq<Token>, p: int) -> SR<StmtV>
    decreases rem(t, p), 39nat,
{
    let span = span_at(t, p);
    match expect(t, p, TokenKind::Traverse) {
        Err(e) => Err(e),
        Ok(p1) => match expect(t, p1, TokenKind::LParen) {
            Err(e) => Err(e),
            Ok(p2) => if rem(t, p2) < rem(t, p) {
                match g_expr(t, p2) {
                    Err(e) => Err(e),
                    Ok((target, p3)) => match expect(t, p3, TokenKind::RParen) {
                        Err(e) => Err(e),
                        Ok(p4) => {
                            let c: SR<Seq<CaptureV>> = if chk(t, p4, TokenKind::Capturing) {
                                g_capture_list(t, adv(t, p4))
                            } else {
                                Ok((seq![], p4))
                            };
                            match c {
                                Err(e) => Err(e),
                                Ok((captures, p5)) => if rem(t, p5) < rem(t, p) {
                                    match g_traverse_kind(t, p5) {
                                        Err(e) => Err(e),
                                        Ok((kind, p6)) => Ok(
                                            (
                                                StmtV::Traverse(
                                                    TraverseStmtV { target, captures, kind, span },
                                                ),
                                                p6,
                                            ),
                                        ),
                                    }
                                } else {
                                    Err(stuck(t, p5))
                                },
                            }
                        },
                    },
                }
            } else {
                Err(stuck(t, p2))
            },
        },
    }
}

/// `using Visitor;` or an inline visitor block.
#[verifier::opaque]
pub open spec fn g_traverse_kind(t: Seq<Token>, p: int) -> SR<TraverseKindV>
    decreases rem(t, p), 3nat,
{
    if chk(t, p, TokenKind::Using) {
        match expect_ident(t, adv(t, p)) {
            Err(e) => Err(e),
            Ok((name, p1)) => match expect(t, p1, TokenKind::Semicolon) {
                Err(e) => Err(e),
                Ok(p2) => Ok((TraverseKindV::Delegated(name), p2)),
            },
        }
    } else {
        let span = span_at(t, p);
        match expect(t, p, TokenKind::LBrace) {
            Err(e) => Err(e),
            Ok(p1) => if rem(t, p1) < rem(t, p) {
                match g_inline_items(t, p1, seq![], seq![]) {
                    Err(e) => Err(e),
                    Ok(((state, methods), p2)) => match expect(t, p2, TokenKind::RBrace) {
                        Err(e) => Err(e),
                        Ok(p3) => Ok(
                            (TraverseKindV::Inline(InlineVisitorV { state, methods, span }), p3),
                        ),
                    },
                }
            } else {
                Err(stuck(t, p1))
            },
        }
    }
}

/// The state bindings and methods of an inline visitor, up to its `}`.
#[verifier::opaque]
pub open spec fn g_inline_items(
    t: Seq<Token>,
    p: int,
    state: Seq<LetStmtV>,
    methods: Seq<FnDeclV>,
) -> SR<(Seq<LetStmtV>, Seq<FnDeclV>)>
    decreases rem(t, p), 2nat,
{
    let p1 = skip_nl(t, p);
    if !(rem(t, p1) <= rem(t, p)) {
        Err(stuck(t, p1))
    } else if chk(t, p1, TokenKind::RBrace) {
        Ok(((state, methods), p1))
    } else if chk(t, p1, TokenKind::Let) {
        let span = span_at(t, p1);
        let p2 = adv(t, p1);
        let mutable = chk(t, p2, TokenKind::Mut);
        match expect_ident(t, mt(t, p2, TokenKind::Mut)) {
            Err(e) => Err(e),
            Ok((name, p3)) => match g_opt_annot(t, p3) {
                Err(e) => Err(e),
                Ok((ty, p4)) => if rem(t, p4) < rem(t, p) {
                    match g_init(t, p4) {
                        Err(e) => Err(e),
                        Ok((init, p5)) => if rem(t, p5) < rem(t, p) {
                            g_inline_items(
                                t,
                                p5,
                                state.push(
                                    LetStmtV {
                                        mutable,
                                        pattern: PatternV::Ident(name),
                                        ty,
                                        init,
                                        span,
                                    },
                                ),
                                methods,
                            )
                        } else {
                            Err(stuck(t, p5))
                        },
                    }
                } else {
                    Err(stuck(t, p4))
                },
            },
        }
    } else if chk(t, p1, TokenKind::Fn) || chk(t, p1, TokenKind::Pub) {
        match g_function(t, p1) {
            Err(e) => Err(e),
            Ok((f, p2)) => if rem(t, p2) < rem(t, p) {
                g_inline_items(t, p2, state, methods.push(f))
            } else {
                Err(stuck(t, p2))
            },
        }
    } else {
        Err(err_at(t, p1, "Expected 'let' or 'fn' in traverse block"@))
    }
}

/// An expression statement; its `;` may be left out before a `}`.
#[verifier::opaque]
pub open spec fn g_expr_stmt(t: Seq<Token>, p: int) -> SR<StmtV>
    decreases rem(t, p), 39nat,
{
    let span = span_at(t, p);
    match g_expr(t, p) {
        Err(e) => Err(e),
        Ok((expr, p1)) => {
            let p2 = skip_nl(t, p1);
            let r: Result<int, ParseErrorV> = if !chk(t, p2, TokenKind::RBrace) {
                expect(t, p2, TokenKind::Semicolon)
            } else {
                Ok(mt(t, p2, TokenKind::Semicolon))
            };
            match r {
                Err(e) => Err(e),
                Ok(p3) => Ok((StmtV::Expr(ExprStmtV { expr, span }), p3)),
            }
        },
    }
}

// ===================== items =====================

/// A function declaration.
#[verifier::opaque]
pub open spec fn g_function(t: Seq<Token>, p: int) -> SR<FnDeclV>
    decreases rem(t, p), 1nat,
{
    let span = span_at(t, p);
    let is_pub = chk(t, p, TokenKind::Pub);
    match expect(t, mt(t, p, TokenKind::Pub), TokenKind::Fn) {
        Err(e) => Err(e),
        Ok(p1) => match expect_ident(t, p1) {
            Err(e) => Err(e),
            Ok((name, p2)) => match expect(t, p2, TokenKind::LParen) {
                Err(e) => Err(e),
                Ok(p3) => match g_params(t, p3) {
                    Err(e) => Err(e),
                    Ok((params, p4)) => match expect(t, p4, TokenKind::RParen) {
                        Err(e) => Err(e),
                        Ok(p5) => {
                            let rt: SR<Option<TypeV>> = if chk(t, p5, TokenKind::Arrow) {
                                match g_type(t, adv(t, p5)) {
                                    Err(e) => Err(e),
                                    Ok((ty, q)) => Ok((Some(ty), q)),
                                }
                            } else {
                                Ok((None, p5))
                            };
                            match rt {
                                Err(e) => Err(e),
                                Ok((return_type, p6)) => if rem(t, p6) < rem(t, p) {
                                    match g_block(t, p6) {
                                        Err(e) => Err(e),
                                        Ok((body, p7)) => Ok(
                                            (
                                                FnDeclV {
                                                    is_pub,
                                                    name,
                                                    params,
                                                    return_type,
                                                    body,
                                                    span,
                                                },
                                                p7,
                                            ),
                                        ),
                                    }
                                } else {
                                    Err(stuck(t, p6))
                                },
                            }
                        },
                    },
                },
            },
        },
    }
}

/// The type `Self`.
pub open spec fn self_type() -> TypeV {
    TypeV::Named("Self"@)
}

/// A function's parameter list (without its parentheses).
pub open spec fn g_params(t: Seq<Token>, p: int) -> SR<Seq<ParamV>> {
    if chk(t, p, TokenKind::RParen) {
        Ok((seq![], p))
    } else {
        g_params_loop(t, p, seq![])
    }
}

/// Whether the tokens at a position are `mut self`.
pub open spec fn at_mut_self(t: Seq<Token>, p: int) -> bool {
    chk(t, p, TokenKind::Mut) && 0 <= p + 1 < t.len() && t[p + 1].kind is Self_
}

/// One parameter: `self`, `mut self`, `&self`, `&mut self` or `name: Type`.
pub open spec fn g_param(t: Seq<Token>, p: int) -> SR<ParamV> {
    let span = span_at(t, p);
    if at_mut_self(t, p) {
        Ok((ParamV { name: "self"@, ty: self_type(), span }, adv(t, adv(t, p))))
    } else if chk(t, p, TokenKind::Self_) {
        Ok((ParamV { name: "self"@, ty: self_type(), span }, adv(t, p)))
    } else if chk(t, p, TokenKind::Ampersand) {
        let p1 = adv(t, p);
        let is_mut = chk(t, p1, TokenKind::Mut);
        let p2 = mt(t, p1, TokenKind::Mut);
        if chk(t, p2, TokenKind::Self_) {
            Ok(
                (
                    ParamV {
                        name: "self"@,
                        ty: TypeV::Reference { mutable: is_mut, inner: Box::new(self_type()) },
                        span,
                    },
                    adv(t, p2),
                ),
            )
        } else {
            Err(err_at(t, p2, "Unexpected '&' - use 'param: &Type' syntax instead"@))
        }
    } else {
        match expect_ident(t, p) {
            Err(e) => Err(e),
            Ok((name, p1)) => match expect(t, p1, TokenKind::Colon) {
                Err(e) => Err(e),
                Ok(p2) => match g_type(t, p2) {
                    Err(e) => Err(e),
                    Ok((ty, p3)) => Ok((ParamV { name, ty, span }, p3)),
                },
            },
        }
    }
}

/// Parameters separated by commas.
pub open spec fn g_params_loop(t: Seq<Token>, p: int, acc: Seq<ParamV>) -> SR<Seq<ParamV>>
    decreases rem(t, p),
{
    match g_param(t, p) {
        Err(e) => Err(e),
        Ok((param, q)) => {
            let acc2 = acc.push(param);
            if chk(t, q, TokenKind::Comma) {
                let q1 = adv(t, q);
                if rem(t, q1) < rem(t, p) {
                    g_params_loop(t, q1, acc2)
                } else {
                    Err(stuck(t, q1))
                }
            } else {
                Ok((acc2, q))
            }
        },
    }
}

/// The fields of a struct declaration.
pub open spec fn g_struct_fields(t: Seq<Token>, p: int, acc: Seq<StructFieldV>) -> SR<Seq<StructFieldV>>
    decreases rem(t, p),
{
    let p1 = skip_nl(t, p);
    if chk(t, p1, TokenKind::RBrace) {
        Ok((acc, p1))
    } else {
        let span = span_at(t, p1);
        match expect_ident(t, p1) {
            Err(e) => Err(e),
            Ok((name, p2)) => match expect(t, p2, TokenKind::Colon) {
                Err(e) => Err(e),
                Ok(p3) => match g_type(t, p3) {
                    Err(e) => Err(e),
                    Ok((ty, p4)) => {
                        let acc2 = acc.push(StructFieldV { name, ty, span });
                        let p5 = skip_nl(t, p4);
                        let r: Result<int, ParseErrorV> = if !chk(t, p5, TokenKind::RBrace) {
                            expect(t, p5, TokenKind::Comma)
                        } else {
                            Ok(p5)
                        };
                        match r {
                            Err(e) => Err(e),
                            Ok(p6) => if rem(t, p6) < rem(t, p) {
                                g_struct_fields(t, p6, acc2)
                            } else {
                                Err(stuck(t, p6))
                            },
                        }
                    },
                },
            },
        }
    }
}

/// A struct declaration.
pub open spec fn g_struct(t: Seq<Token>, p: int) -> SR<StructDeclV> {
    let span = span_at(t, p);
    match expect(t, p, TokenKind::Struct) {
        Err(e) => Err(e),
        Ok(p1) => match expect_ident(t, p1) {
            Err(e) => Err(e),
            Ok((name, p2)) => match expect(t, p2, TokenKind::LBrace) {
                Err(e) => Err(e),
                Ok(p3) => match g_struct_fields(t, p3, seq![]) {
                    Err(e) => Err(e),
                    Ok((fields, p4)) => match expect(t, p4, TokenKind::RBrace) {
                        Err(e) => Err(e),
                        Ok(p5) => Ok((StructDeclV { name, fields, span }, p5)),
                    },
                },
            },
        },
    }
}

/// Further variant field types after commas.
pub open spec fn g_more_types(t: Seq<Token>, p: int, acc: Seq<TypeV>) -> SR<Seq<TypeV>>
    decreases rem(t, p),
{
    if chk(t, p, TokenKind::Comma) {
        match g_type(t, adv(t, p)) {
            Err(e) => Err(e),
            Ok((ty, q)) => if rem(t, q) < rem(t, p) {
                g_more_types(t, q, acc.push(ty))
            } else {
                Err(stuck(t, q))
            },
        }
    } else {
        Ok((acc, p))
    }
}

/// The optional tuple fields of an enum variant.
pub open spec fn g_variant_fields(t: Seq<Token>, p: int) -> SR<Option<Seq<TypeV>>> {
    if chk(t, p, TokenKind::LParen) {
        let p1 = adv(t, p);
        let r: SR<Seq<TypeV>> = if chk(t, p1, TokenKind::RParen) {
            Ok((seq![], p1))
        } else {
            match g_type(t, p1) {
                Err(e) => Err(e),
                Ok((ty, q)) => g_more_types(t, q, seq![ty]),
            }
        };
        match r {
            Err(e) => Err(e),
            Ok((types, p2)) => match expect(t, p2, TokenKind::RParen) {
                Err(e) => Err(e),
                Ok(p3) => Ok((Some(types), p3)),
            },
        }
    } else {
        Ok((None, p))
    }
}

/// The variants of an enum declaration.
pub open spec fn g_enum_variants(t: Seq<Token>, p: int, acc: Seq<EnumVariantV>) -> SR<Seq<EnumVariantV>>
    decreases rem(t, p),
{
    let p1 = skip_nl(t, p);
    if chk(t, p1, TokenKind::RBrace) {
        Ok((acc, p1))
    } else {
        let span = span_at(t, p1);
        match expect_ident(t, p1) {
            Err(e) => Err(e),
            Ok((name, p2)) => match g_variant_fields(t, p2) {
                Err(e) => Err(e),
                Ok((fields, p3)) => {
                    let acc2 = acc.push(EnumVariantV { name, fields, span });
                    let p4 = skip_nl(t, p3);
                    let r: Result<int, ParseErrorV> = if !chk(t, p4, TokenKind::RBrace) {
                        expect(t, p4, TokenKind::Comma)
                    } else {
                        Ok(p4)
                    };
                    match r {
                        Err(e) => Err(e),
                        Ok(p5) => if rem(t, p5) < rem(t, p) {
                            g_enum_variants(t, p5, acc2)
                        } else {
                            Err(stuck(t, p5))
                        },
                    }
                },
            },
        }
    }
}

/// An enum declaration.
pub open spec fn g_enum(t: Seq<Token>, p: int) -> SR<EnumDeclV> {
    let span = span_at(t, p);
    match expect(t, p, TokenKind::Enum) {
        Err(e) => Err(e),
        Ok(p1) => match expect_ident(t, p1) {
            Err(e) => Err(e),
            Ok((name, p2)) => match expect(t, p2, TokenKind::LBrace) {
                Err(e) => Err(e),
                Ok(p3) => match g_enum_variants(t, p3, seq![]) {
                    Err(e) => Err(e),
                    Ok((variants, p4)) => match expect(t, p4, TokenKind::RBrace) {
                        Err(e) => Err(e),
                        Ok(p5) => Ok((EnumDeclV { name, variants, span }, p5)),
                    },
                },
            },
        },
    }
}

/// The functions of an impl block.
pub open spec fn g_impl_items(t: Seq<Token>, p: int, acc: Seq<FnDeclV>) -> SR<Seq<FnDeclV>>
    decreases rem(t, p),
{
    let p1 = skip_nl(t, p);
    if chk(t, p1, TokenKind::RBrace) {
        Ok((acc, p1))
    } else {
        match g_function(t, p1) {
            Err(e) => Err(e),
            Ok((f, p2)) => if rem(t, p2) < rem(t, p) {
                g_impl_items(t, p2, acc.push(f))
            } else {
                Err(stuck(t, p2))
            },
        }
    }
}

/// An impl block.
pub open spec fn g_impl(t: Seq<Token>, p: int) -> SR<ImplBlockV> {
    let span = span_at(t, p);
    match expect(t, p, TokenKind::Impl) {
        Err(e) => Err(e),
        Ok(p1) => match expect_ident(t, p1) {
            Err(e) => Err(e),
            Ok((target, p2)) => match expect(t, p2, TokenKind::LBrace) {
                Err(e) => Err(e),
                Ok(p3) => match g_impl_items(t, p3, seq![]) {
                    Err(e) => Err(e),
                    Ok((items, p4)) => match expect(t, p4, TokenKind::RBrace) {
                        Err(e) => Err(e),
                        Ok(p5) => Ok((ImplBlockV { target, items, span }, p5)),
                    },
                },
            },
        },
    }
}

/// One item of a plugin, writer or module body.
pub open spec fn g_item(t: Seq<Token>, p: int) -> SR<PluginItemV> {
    if chk(t, p, TokenKind::Struct) {
        match g_struct(t, p) {
            Err(e) => Err(e),
            Ok((s, q)) => Ok((PluginItemV::Struct(s), q)),
        }
    } else if chk(t, p, TokenKind::Enum) {
        match g_enum(t, p) {
            Err(e) => Err(e),
            Ok((x, q)) => Ok((PluginItemV::Enum(x), q)),
        }
    } else if chk(t, p, TokenKind::Fn) || chk(t, p, TokenKind::Pub) {
        match g_function(t, p) {
            Err(e) => Err(e),
            Ok((f, q)) => Ok((PluginItemV::Function(f), q)),
        }
    } else if chk(t, p, TokenKind::Impl) {
        match g_impl(t, p) {
            Err(e) => Err(e),
            Ok((i, q)) => Ok((PluginItemV::Impl(i), q)),
        }
    } else {
        Err(err_at(t, p, "Expected struct, enum, fn, or impl"@))
    }
}

/// The items of a body, up to a `}` or the end.
pub open spec fn g_plugin_body(t: Seq<Token>, p: int, acc: Seq<PluginItemV>) -> SR<Seq<PluginItemV>>
    decreases rem(t, p),
{
    let p1 = skip_nl(t, p);
    if chk(t, p1, TokenKind::RBrace) || at_end(t, p1) {
        Ok((acc, p1))
    } else {
        match g_item(t, p1) {
            Err(e) => Err(e),
            Ok((item, p2)) => if rem(t, p2) < rem(t, p) {
                g_plugin_body(t, p2, acc.push(item))
            } else {
                Err(stuck(t, p2))
            },
        }
    }
}

/// A `plugin` or `writer` header and body: keyword, name, and braced items.
pub open spec fn g_named_body(t: Seq<Token>, p: int, kw: TokenKind) -> SR<(Seq<char>, Seq<PluginItemV>)> {
    match expect(t, p, kw) {
        Err(e) => Err(e),
        Ok(p1) => match expect_ident(t, p1) {
            Err(e) => Err(e),
            Ok((name, p2)) => match expect(t, p2, TokenKind::LBrace) {
                Err(e) => Err(e),
                Ok(p3) => match g_plugin_body(t, p3, seq![]) {
                    Err(e) => Err(e),
                    Ok((body, p4)) => match expect(t, p4, TokenKind::RBrace) {
                        Err(e) => Err(e),
                        Ok(p5) => Ok(((name, body), p5)),
                    },
                },
            },
        },
    }
}

/// A plugin declaration.
pub open spec fn g_plugin(t: Seq<Token>, p: int) -> SR<PluginDeclV> {
    match g_named_body(t, p, TokenKind::Plugin) {
        Err(e) => Err(e),
        Ok(((name, body), q)) => Ok((PluginDeclV { name, body, span: span_at(t, p) }, q)),
    }
}

/// A writer declaration.
pub open spec fn g_writer(t: Seq<Token>, p: int) -> SR<WriterDeclV> {
    match g_named_body(t, p, TokenKind::Writer) {
        Err(e) => Err(e),
        Ok(((name, body), q)) => Ok((WriterDeclV { name, body, span: span_at(t, p) }, q)),
    }
}

/// A module: the items of a file without `plugin` or `writer`.
pub open spec fn g_module(t: Seq<Token>, p: int) -> SR<ModuleDeclV> {
    match g_plugin_body(t, p, seq![]) {
        Err(e) => Err(e),
        Ok((items, q)) => Ok((ModuleDeclV { items, span: span_at(t, p) }, q)),
    }
}

/// The names of an import list, with newlines allowed and an optional trailing comma.
pub open spec fn g_import_items(t: Seq<Token>, p: int, acc: Seq<Seq<char>>) -> SR<Seq<Seq<char>>>
    decreases rem(t, p),
{
    if chk(t, p, TokenKind::RBrace) {
        Ok((acc, p))
    } else {
        match expect_ident(t, p) {
            Err(e) => Err(e),
            Ok((name, p1)) => {
                let acc2 = acc.push(name);
                let p2 = skip_nl(t, p1);
                if !chk(t, p2, TokenKind::Comma) {
                    Ok((acc2, p2))
                } else {
                    let p3 = skip_nl(t, adv(t, p2));
                    if rem(t, p3) < rem(t, p) {
                        g_import_items(t, p3, acc2)
                    } else {
                        Err(stuck(t, p3))
                    }
                }
            },
        }
    }
}

/// An import list `{ a, b, c }`.
pub open spec fn g_import_list(t: Seq<Token>, p: int) -> SR<Seq<Seq<char>>> {
    match expect(t, p, TokenKind::LBrace) {
        Err(e) => Err(e),
        Ok(p1) => match g_import_items(t, skip_nl(t, p1), seq![]) {
            Err(e) => Err(e),
            Ok((imports, p2)) => match expect(t, p2, TokenKind::RBrace) {
                Err(e) => Err(e),
                Ok(p3) => Ok((imports, p3)),
            },
        },
    }
}

/// A `use` statement.
pub open spec fn g_use_stmt(t: Seq<Token>, p: int) -> SR<UseStmtV> {
    let span = span_at(t, p);
    match expect(t, p, TokenKind::Use) {
        Err(e) => Err(e),
        Ok(p1) => {
            let path: SR<Seq<char>> = match tok(t, p1) {
                Some(x) => match x.kind {
                    TokenKind::StringLit(s) => Ok((s@, adv(t, p1))),
                    _ => expect_ident(t, p1),
                },
                None => expect_ident(t, p1),
            };
            match path {
                Err(e) => Err(e),
                Ok((path, p2)) => {
                    let a: SR<Option<Seq<char>>> = if chk(t, p2, TokenKind::As) {
                        match expect_ident(t, adv(t, p2)) {
                            Err(e) => Err(e),
                            Ok((n, q)) => Ok((Some(n), q)),
                        }
                    } else {
                        Ok((None, p2))
                    };
                    match a {
                        Err(e) => Err(e),
                        Ok((alias, p3)) => {
                            let i: SR<Seq<Seq<char>>> = if chk(t, p3, TokenKind::LBrace) {
                                g_import_list(t, p3)
                            } else {
                                Ok((seq![], p3))
                            };
                            match i {
                                Err(e) => Err(e),
                                Ok((imports, p4)) => match expect(t, p4, TokenKind::Semicolon) {
                                    Err(e) => Err(e),
                                    Ok(p5) => Ok((UseStmtV { path, alias, imports, span }, p5)),
                                },
                            }
                        },
                    }
                },
            }
        },
    }
}

/// The `use` statements at the start of a file, each followed by newlines.
pub open spec fn g_uses(t: Seq<Token>, p: int, acc: Seq<UseStmtV>) -> SR<Seq<UseStmtV>>
    decreases rem(t, p),
{
    if chk(t, p, TokenKind::Use) {
        match g_use_stmt(t, p) {
            Err(e) => Err(e),
            Ok((u, p1)) => {
                let p2 = skip_nl(t, p1);
                if rem(t, p2) < rem(t, p) {
                    g_uses(t, p2, acc.push(u))
                } else {
                    Err(stuck(t, p2))
                }
            },
        }
    } else {
        Ok((acc, p))
    }
}

/// A whole program: `use` statements, then a plugin, a writer or a module.
pub open spec fn g_program(t: Seq<Token>, p0: int) -> SR<ProgramV> {
    let p = skip_nl(t, p0);
    let span = span_at(t, p);
    match g_uses(t, p, seq![]) {
        Err(e) => Err(e),
        Ok((uses, p1)) => {
            let d: SR<TopLevelDeclV> = if chk(t, p1, TokenKind::Plugin) {
                match g_plugin(t, p1) {
                    Err(e) => Err(e),
                    Ok((x, q)) => Ok((TopLevelDeclV::Plugin(x), q)),
                }
            } else if chk(t, p1, TokenKind::Writer) {
                match g_writer(t, p1) {
                    Err(e) => Err(e),
                    Ok((x, q)) => Ok((TopLevelDeclV::Writer(x), q)),
                }
            } else {
                match g_module(t, p1) {
                    Err(e) => Err(e),
                    Ok((x, q)) => Ok((TopLevelDeclV::Module(x), q)),
                }
            };
            match d {
                Err(e) => Err(e),
                Ok((decl, q)) => Ok((ProgramV { uses, decl, span }, q)),
            }
        },
    }
}


/// How a binary operator is written in RustScript source.
pub open spec fn binary_op_symbol(op: BinaryOp) -> Seq<char> {
    match op {
        BinaryOp::Add => "+"@,
        BinaryOp::Sub => "-"@,
        BinaryOp::Mul => "*"@,
        BinaryOp::Div => "/"@,
        BinaryOp::Mod => "%"@,
        BinaryOp::Eq => "=="@,
        BinaryOp::NotEq => "!="@,
        BinaryOp::Lt => "<"@,
        BinaryOp::Gt => ">"@,
        BinaryOp::LtEq => "<="@,
        BinaryOp::GtEq => ">="@,
        BinaryOp::And => "&&"@,
        BinaryOp::Or => "||"@,
    }
}

/// The source text of an operator token, for the tokens that are operators.
pub open spec fn operator_token_symbol(k: TokenKind) -> Option<Seq<char>> {
    match k {
        TokenKind::Plus => Some("+"@),
        TokenKind::Minus => Some("-"@),
        TokenKind::Star => Some("*"@),
        TokenKind::Slash => Some("/"@),
        TokenKind::Percent => Some("%"@),
        TokenKind::EqEq => Some("=="@),
        TokenKind::NotEq => Some("!="@),
        TokenKind::Lt => Some("<"@),
        TokenKind::Gt => Some(">"@),
        TokenKind::LtEq => Some("<="@),
        TokenKind::GtEq => Some(">="@),
        TokenKind::And => Some("&&"@),
        TokenKind::Or => Some("||"@),
        _ => None,
    }
}

/// The operator written as a given text, if any.
pub open spec fn op_of_symbol(s: Seq<char>) -> Option<BinaryOp> {
    if s == "+"@ {
        Some(BinaryOp::Add)
    } else if s == "-"@ {
        Some(BinaryOp::Sub)
    } else if s == "*"@ {
        Some(BinaryOp::Mul)
    } else if s == "/"@ {
        Some(BinaryOp::Div)
    } else if s == "%"@ {
        Some(BinaryOp::Mod)
    } else if s == "=="@ {
        Some(BinaryOp::Eq)
    } else if s == "!="@ {
        Some(BinaryOp::NotEq)
    } else if s == "<"@ {
        Some(BinaryOp::Lt)
    } else if s == ">"@ {
        Some(BinaryOp::Gt)
    } else if s == "<="@ {
        Some(BinaryOp::LtEq)
    } else if s == ">="@ {
        Some(BinaryOp::GtEq)
    } else if s == "&&"@ {
        Some(BinaryOp::And)
    } else if s == "||"@ {
        Some(BinaryOp::Or)
    } else {
        None
    }
}

/// A binary operator read from a token is the operator written there: the
/// operator, printed back, is the token's own text. Different operators are
/// written differently, and every operator token is read at some level.
pub proof fn law_operator_tokens_read_as_written(t: Seq<Token>, p: int, level: nat)
    ensures
        op_at(t, p, level) matches Some(op) ==> tok(t, p) is Some && operator_token_symbol(tok(t, p).unwrap().kind)
            == Some(binary_op_symbol(op)),
        forall|a: BinaryOp, b: BinaryOp| #[trigger] binary_op_symbol(a) == #[trigger] binary_op_symbol(b) ==> a == b,
        forall|k: TokenKind|
            #[trigger] operator_token_symbol(k) is Some ==> exists|l: nat| l <= 5 && #[trigger] level_op(k, l) is Some,
{
    reveal_strlit("+");
    reveal_strlit("-");
    reveal_strlit("*");
    reveal_strlit("/");
    reveal_strlit("%");
    reveal_strlit("==");
    reveal_strlit("!=");
    reveal_strlit("<");
    reveal_strlit(">");
    reveal_strlit("<=");
    reveal_strlit(">=");
    reveal_strlit("&&");
    reveal_strlit("||");
    assert forall|a: BinaryOp| #[trigger] op_of_symbol(binary_op_symbol(a)) == Some(a) by {
        match a {
            BinaryOp::Add => {
            },
            BinaryOp::Sub => {
                assert("-"@[0] != "+"@[0]);
            },
            BinaryOp::Mul => {
                assert("*"@[0] != "+"@[0]);
                assert("*"@[0] != "-"@[0]);
            },
            BinaryOp::Div => {
                assert("/"@[0] != "+"@[0]);
                assert("/"@[0] != "-"@[0]);
                assert("/"@[0] != "*"@[0]);
            },
            BinaryOp::Mod => {
                assert("%"@[0] != "+"@[0]);
                assert("%"@[0] != "-"@[0]);
                assert("%"@[0] != "*"@[0]);
                assert("%"@[0] != "/"@[0]);
            },
            BinaryOp::Eq => {
                assert("=="@.len() != "+"@.len());
                assert("=="@.len() != "-"@.len());
                assert("=="@.len() != "*"@.len());
                assert("=="@.len() != "/"@.len());
                assert("=="@.len() != "%"@.len());
            },
            BinaryOp::NotEq => {
                assert("!="@.len() != "+"@.len());
                assert("!="@.len() != "-"@.len());
                assert("!="@.len() != "*"@.len());
                assert("!="@.len() != "/"@.len());
                assert("!="@.len() != "%"@.len());
                assert("!="@[0] != "=="@[0]);
            },
            BinaryOp::Lt => {
                assert("<"@[0] != "+"@[0]);
                assert("<"@[0] != "-"@[0]);
                assert("<"@[0] != "*"@[0]);
                assert("<"@[0] != "/"@[0]);
                assert("<"@[0] != "%"@[0]);
                assert("<"@.len() != "=="@.len());
                assert("<"@.len() != "!="@.len());
            },
            BinaryOp::Gt => {
                assert(">"@[0] != "+"@[0]);
                assert(">"@[0] != "-"@[0]);
                assert(">"@[0] != "*"@[0]);
                assert(">"@[0] != "/"@[0]);
                assert(">"@[0] != "%"@[0]);
                assert(">"@.len() != "=="@.len());
                assert(">"@.len() != "!="@.len());
                assert(">"@[0] != "<"@[0]);
            },
            BinaryOp::LtEq => {
                assert("<="@.len() != "+"@.len());
                assert("<="@.len() != "-"@.len());
                assert("<="@.len() != "*"@.len());
                assert("<="@.len() != "/"@.len());
                assert("<="@.len() != "%"@.len());
                assert("<="@[0] != "=="@[0]);
                assert("<="@[0] != "!="@[0]);
                assert("<="@.len() != "<"@.len());
                assert("<="@.len() != ">"@.len());
            },
            BinaryOp::GtEq => {
                assert(">="@.len() != "+"@.len());
                assert(">="@.len() != "-"@.len());
                assert(">="@.len() != "*"@.len());
                assert(">="@.len() != "/"@.len());
                assert(">="@.len() != "%"@.len());
                assert(">="@[0] != "=="@[0]);
                assert(">="@[0] != "!="@[0]);
                assert(">="@.len() != "<"@.len());
                assert(">="@.len() != ">"@.len());
                assert(">="@[0] != "<="@[0]);
            },
            BinaryOp::And => {
                assert("&&"@.len() != "+"@.len());
                assert("&&"@.len() != "-"@.len());
                assert("&&"@.len() != "*"@.len());
                assert("&&"@.len() != "/"@.len());
                assert("&&"@.len() != "%"@.len());
                assert("&&"@[0] != "=="@[0]);
                assert("&&"@[0] != "!="@[0]);
                assert("&&"@.len() != "<"@.len());
                assert("&&"@.len() != ">"@.len());
                assert("&&"@[0] != "<="@[0]);
                assert("&&"@[0] != ">="@[0]);
            },
            BinaryOp::Or => {
                assert("||"@.len() != "+"@.len());
                assert("||"@.len() != "-"@.len());
                assert("||"@.len() != "*"@.len());
                assert("||"@.len() != "/"@.len());
                assert("||"@.len() != "%"@.len());
                assert("||"@[0] != "=="@[0]);
                assert("||"@[0] != "!="@[0]);
                assert("||"@.len() != "<"@.len());
                assert("||"@.len() != ">"@.len());
                assert("||"@[0] != "<="@[0]);
                assert("||"@[0] != ">="@[0]);
                assert("||"@[0] != "&&"@[0]);
            },
        }
    }
    assert forall|a: BinaryOp, b: BinaryOp| #[trigger] binary_op_symbol(a) == #[trigger] binary_op_symbol(b) implies a == b by {
        assert(op_of_symbol(binary_op_symbol(a)) == Some(a));
        assert(op_of_symbol(binary_op_symbol(b)) == Some(b));
    }
    assert forall|k: TokenKind| #[trigger] operator_token_symbol(k) is Some implies exists|l: nat| l <= 5 && #[trigger] level_op(k, l) is Some by {
        match k {
            TokenKind::Or => assert(level_op(k, 0) is Some),
            TokenKind::And => assert(level_op(k, 1) is Some),
            TokenKind::EqEq | TokenKind::NotEq => assert(level_op(k, 2) is Some),
            TokenKind::Lt | TokenKind::Gt | TokenKind::LtEq | TokenKind::GtEq => assert(level_op(k, 3) is Some),
            TokenKind::Plus | TokenKind::Minus => assert(level_op(k, 4) is Some),
            _ => assert(level_op(k, 5) is Some),
        }
    }
}

} // verus!
