//! The recursive-descent parser for RustScript.
//!
//! Every parsing function is proved to compute what the function of the same
//! role in `grammar` gives for the same tokens and position.

use vstd::prelude::*;
use crate::lexer::{Span, Token, TokenKind, tag_name, spec_tag_name};
use crate::strings::{str_eq, owned, joined};
use crate::grammar::{ParseErrorV, SR, rem, tok, at_end, chk, chk_ident, adv, mt, span_at, err_at, expect, err_passes, is_trivia, skip_nl, expect_ident, try_ident, try_ast_type, expect_type_name, try_literal, g_type, g_type_args, g_tuple_type, g_tuple_elems, g_pattern, g_pattern_elems, g_pattern_fields, g_pattern_alts, op_at, g_expr, g_expr_ns, g_assignment, g_operand, g_binary, g_binary_loop, g_unary, g_unary_ns, g_call, member, call, ident, g_postfix, g_call_loop, g_args, g_args_loop, wildcard_init, g_after_name, g_primary, starts_expression, g_vec_elems, g_closure_params, g_closure, g_struct_init, g_init_fields, g_primary_ns, g_self_members, g_name_postfix, g_block, g_block_stmts, g_statement, g_break, g_continue, g_init, g_let, g_const, g_if, g_else_chain, g_match_stmt, g_match_arms, g_match_arm, g_for, g_while, g_loop, g_return, g_captures, g_capture_list, g_traverse, g_traverse_kind, g_inline_items, g_expr_stmt, g_function, self_type, g_params, g_param, g_params_loop, g_struct_fields, g_struct, g_more_types, g_variant_fields, g_enum_variants, g_enum, g_impl_items, g_impl, g_plugin_body, g_plugin, g_writer, g_module, g_import_items, g_import_list, g_use_stmt, g_uses, g_program};
use crate::ast::{BinaryOp, UnaryOp, CompoundAssignOp, Program, UseStmt, TopLevelDecl, PluginDecl, WriterDecl, ModuleDecl, PluginItem, StructDecl, StructField, EnumDecl, EnumVariant, FnDecl, Param, ImplBlock, Type, Block, Stmt, LetStmt, ConstStmt, ExprStmt, IfStmt, MatchStmt, MatchArm, Pattern, ForStmt, WhileStmt, LoopStmt, ReturnStmt, BreakStmt, ContinueStmt, TraverseStmt, TraverseKind, InlineVisitor, Capture, Expr, Literal, IdentExpr, BinaryExpr, UnaryExpr, CallExpr, MemberExpr, IndexExpr, StructInitExpr, VecInitExpr, ClosureExpr, RefExpr, DerefExpr, AssignExpr, CompoundAssignExpr, PluginItemV, StructFieldV, EnumVariantV, FnDeclV, ParamV, TypeV, BlockV, StmtV, LetStmtV, MatchArmV, PatternV, CaptureV, ExprV, v_list_usestmt, v_list_string, v_list_pluginitem, v_list_structfield, v_list_enumvariant, v_list_param, v_list_fndecl, v_opt_vec_type, v_list_type, v_list_stmt, v_list_expr_block, v_opt_block, v_list_matcharm, v_list_capture, v_list_pattern, v_list_string_pattern, v_list_letstmt, v_list_expr, v_list_string_expr, lemma_v_list_usestmt_push, lemma_v_list_usestmt_empty, lemma_v_list_string_push, lemma_v_list_string_empty, lemma_v_list_pluginitem_push, lemma_v_list_pluginitem_empty, lemma_v_list_structfield_push, lemma_v_list_structfield_empty, lemma_v_list_enumvariant_push, lemma_v_list_enumvariant_empty, lemma_v_list_param_push, lemma_v_list_param_empty, lemma_v_list_fndecl_push, lemma_v_list_fndecl_empty, lemma_v_list_type_push, lemma_v_list_type_index, lemma_v_list_type_len, lemma_v_list_type_empty, lemma_v_list_stmt_push, lemma_v_list_stmt_empty, lemma_v_list_expr_block_push, lemma_v_list_expr_block_empty, lemma_v_list_matcharm_push, lemma_v_list_matcharm_empty, lemma_v_list_capture_push, lemma_v_list_capture_empty, lemma_v_list_pattern_push, lemma_v_list_pattern_index, lemma_v_list_pattern_len, lemma_v_list_pattern_empty, lemma_v_list_string_pattern_push, lemma_v_list_string_pattern_empty, lemma_v_list_letstmt_push, lemma_v_list_letstmt_empty, lemma_v_list_expr_push, lemma_v_list_expr_empty, lemma_v_list_string_expr_push, lemma_v_list_string_expr_empty};

verus! {

/// Parser for RustScript: a token sequence and the position reached in it.
pub struct Parser {
    tokens: Vec<Token>,
    pos: usize,
}

/// Parse error: a message and the span of the token where parsing stopped.
#[derive(Debug, Clone)]
pub struct ParseError {
    pub message: String,
    pub span: Span,
}

impl View for ParseError {
    type V = ParseErrorV;

    open spec fn view(&self) -> ParseErrorV {
        ParseErrorV { message: self.message@, span: self.span }
    }
}

impl ParseError {
    /// A parse error with the given message and span.
    pub fn new(message: String, span: Span) -> (r: Self)
        ensures
            r.message == message,
            r.span == span,
    {
        Self { message, span }
    }
}

/// The result of a parsing function.
pub type ParseResult<T> = Result<T, ParseError>;

/// Whether an executable parse result is the one the grammar gives,
/// the parser having stopped at `q`; values are compared by `f`.
pub open spec fn agrees<T, V>(r: ParseResult<T>, q: int, s: SR<V>, f: spec_fn(T) -> V) -> bool {
    match s {
        Ok((v, p)) => match r {
            Ok(x) => f(x) == v && q == p,
            Err(_) => false,
        },
        Err(e) => match r {
            Ok(_) => false,
            Err(x) => x@ == e,
        },
    }
}

/// The view of a string, as a function.
pub open spec fn sv(s: String) -> Seq<char> {
    s@
}

impl Parser {
    /// The tokens being parsed.
    pub closed spec fn tokens_view(&self) -> Seq<Token> {
        self.tokens@
    }

    /// The position reached in the tokens.
    pub closed spec fn position(&self) -> int {
        self.pos as int
    }

    /// The position lies within the tokens or just after them.
    pub closed spec fn wf(&self) -> bool {
        self.pos <= self.tokens@.len()
    }

    /// From `a` to `b` the tokens are the same and the position has not moved back.
    pub closed spec fn steps(a: Parser, b: Parser) -> bool {
        &&& b.tokens@ == a.tokens@
        &&& b.pos <= b.tokens@.len()
        &&& a.pos <= b.pos
    }

    /// From `a` to `b` the parser has moved forward by at least one token.
    pub closed spec fn consumed(a: Parser, b: Parser) -> bool {
        a.pos < b.pos
    }

    /// A parser at the start of the given tokens.
    pub fn new(tokens: Vec<Token>) -> (r: Self)
        ensures
            r.tokens_view() == tokens@,
            r.position() == 0,
            r.wf(),
    {
        Self { tokens, pos: 0 }
    }

    // === Helper methods ===

    fn peek(&self) -> (r: Option<&Token>)
        ensures
            r is Some == ((self.pos as int) < self.tokens@.len()),
            r is Some ==> *r.unwrap() == self.tokens@[self.pos as int],
            r is Some ==> tok(self.tokens@, self.pos as int) == Some(*r.unwrap()),
            r is None ==> tok(self.tokens@, self.pos as int) is None,
    {
        if self.pos < self.tokens.len() {
            Some(&self.tokens[self.pos])
        } else {
            None
        }
    }

    fn advance(&mut self)
        requires
            old(self).wf(),
        ensures
            Self::steps(*old(self), *final(self)),
            final(self).pos == adv(old(self).tokens@, old(self).pos as int),
    {
        let n = self.tokens.len();
        if !self.is_at_end() {
            assert(self.pos < n);
            self.pos = self.pos + 1;
        }
    }

    fn is_at_end(&self) -> (r: bool)
        ensures
            r == at_end(self.tokens@, self.pos as int),
    {
        match self.peek() {
            Some(t) => match t.kind {
                TokenKind::Eof => true,
                _ => false,
            },
            None => true,
        }
    }

    fn check(&self, kind: TokenKind) -> (r: bool)
        ensures
            r == chk(self.tokens@, self.pos as int, kind),
    {
        match self.peek() {
            Some(t) => t.kind.tag() == kind.tag(),
            None => false,
        }
    }

    fn check_ident(&self, name: &str) -> (r: bool)
        ensures
            r == chk_ident(self.tokens@, self.pos as int, name@),
    {
        match self.peek() {
            Some(t) => match &t.kind {
                TokenKind::Ident(n) => str_eq(n.as_str(), name),
                _ => false,
            },
            None => false,
        }
    }

    fn match_token(&mut self, kind: TokenKind) -> (r: bool)
        requires
            old(self).wf(),
        ensures
            Self::steps(*old(self), *final(self)),
            r == chk(old(self).tokens@, old(self).pos as int, kind),
            final(self).pos == mt(old(self).tokens@, old(self).pos as int, kind),
    {
        if self.check(kind) {
            self.advance();
            true
        } else {
            false
        }
    }

    fn expect(&mut self, kind: TokenKind) -> (r: ParseResult<()>)
        requires
            old(self).wf(),
        ensures
            Self::steps(*old(self), *final(self)),
            match expect(old(self).tokens@, old(self).pos as int, kind) {
                Ok(q) => r is Ok && final(self).pos == q,
                Err(e) => r is Err && r->Err_0@ == e,
            },
    {
        let tag = kind.tag();
        if self.check(kind) {
            self.advance();
            Ok(())
        } else {
            let message = joined("Expected ", tag_name(tag));
            Err(ParseError::new(message, self.current_span()))
        }
    }

    fn expect_ident(&mut self) -> (r: ParseResult<String>)
        requires
            old(self).wf(),
        ensures
            Self::steps(*old(self), *final(self)),
            agrees(r, final(self).pos as int, expect_ident(old(self).tokens@, old(self).pos as int), |s: String| s@),
    {
        match self.peek() {
            Some(Token { kind: TokenKind::Ident(name), .. }) => {
                let name = name.clone();
                self.advance();
                Ok(name)
            },
            _ => Err(self.error("Expected identifier")),
        }
    }

    fn try_expect_ident(&mut self) -> (r: Option<String>)
        requires
            old(self).wf(),
        ensures
            Self::steps(*old(self), *final(self)),
            match try_ident(old(self).tokens@, old(self).pos as int) {
                Some((n, q)) => r is Some && r->0@ == n && final(self).pos == q,
                None => r is None && final(self).pos == old(self).pos,
            },
    {
        match self.peek() {
            Some(Token { kind: TokenKind::Ident(name), .. }) => {
                let name = name.clone();
                self.advance();
                Some(name)
            },
            Some(Token { kind: TokenKind::HashMap, .. }) => {
                self.advance();
                Some(owned("HashMap"))
            },
            Some(Token { kind: TokenKind::HashSet, .. }) => {
                self.advance();
                Some(owned("HashSet"))
            },
            Some(Token { kind: TokenKind::CodeBuilder, .. }) => {
                self.advance();
                Some(owned("CodeBuilder"))
            },
            Some(Token { kind: TokenKind::Vec, .. }) => {
                self.advance();
                Some(owned("Vec"))
            },
            Some(Token { kind: TokenKind::Option, .. }) => {
                self.advance();
                Some(owned("Option"))
            },
            Some(Token { kind: TokenKind::Result, .. }) => {
                self.advance();
                Some(owned("Result"))
            },
            _ => None,
        }
    }

    fn try_expect_ast_type(&mut self) -> (r: Option<String>)
        requires
            old(self).wf(),
        ensures
            Self::steps(*old(self), *final(self)),
            match try_ast_type(old(self).tokens@, old(self).pos as int) {
                Some((n, q)) => r is Some && r->0@ == n && final(self).pos == q,
                None => r is None && final(self).pos == old(self).pos,
            },
    {
        let name = match self.peek() {
            Some(t) => match t.kind {
                TokenKind::Program => "Program",
                TokenKind::FunctionDeclaration => "FunctionDeclaration",
                TokenKind::VariableDeclaration => "VariableDeclaration",
                TokenKind::ExpressionStatement => "ExpressionStatement",
                TokenKind::ReturnStatement => "ReturnStatement",
                TokenKind::IfStatement => "IfStatement",
                TokenKind::ForStatement => "ForStatement",
                TokenKind::WhileStatement => "WhileStatement",
                TokenKind::BlockStatement => "BlockStatement",
                TokenKind::Identifier => "Identifier",
                TokenKind::Literal => "Literal",
                TokenKind::BinaryExpression => "BinaryExpression",
                TokenKind::UnaryExpression => "UnaryExpression",
                TokenKind::CallExpression => "CallExpression",
                TokenKind::MemberExpression => "MemberExpression",
                TokenKind::ArrayExpression => "ArrayExpression",
                TokenKind::ObjectExpression => "ObjectExpression",
                TokenKind::JSXElement => "JSXElement",
                TokenKind::JSXFragment => "JSXFragment",
                TokenKind::JSXAttribute => "JSXAttribute",
                TokenKind::JSXText => "JSXText",
                TokenKind::JSXExpressionContainer => "JSXExpressionContainer",
                _ => return None,
            },
            None => return None,
        };
        self.advance();
        Some(owned(name))
    }

    fn expect_type_name(&mut self) -> (r: ParseResult<String>)
        requires
            old(self).wf(),
        ensures
            Self::steps(*old(self), *final(self)),
            agrees(r, final(self).pos as int, expect_type_name(old(self).tokens@, old(self).pos as int), |s: String| s@),
    {
        // First try AST types
        if let Some(name) = self.try_expect_ast_type() {
            return Ok(name);
        }
        // Try primitive types
        let name = match self.peek() {
            Some(Token { kind: TokenKind::Str, .. }) => "Str",
            Some(Token { kind: TokenKind::Bool, .. }) => "bool",
            Some(Token { kind: TokenKind::I32, .. }) => "i32",
            Some(Token { kind: TokenKind::U32, .. }) => "u32",
            Some(Token { kind: TokenKind::F64, .. }) => "f64",
            Some(Token { kind: TokenKind::Vec, .. }) => "Vec",
            Some(Token { kind: TokenKind::Option, .. }) => "Option",
            Some(Token { kind: TokenKind::Result, .. }) => "Result",
            Some(Token { kind: TokenKind::HashMap, .. }) => "HashMap",
            Some(Token { kind: TokenKind::HashSet, .. }) => "HashSet",
            Some(Token { kind: TokenKind::CodeBuilder, .. }) => "CodeBuilder",
            Some(Token { kind: TokenKind::SelfType, .. }) => "Self",
            Some(Token { kind: TokenKind::Ident(n), .. }) => {
                let name = n.clone();
                self.advance();
                return Ok(name);
            },
            _ => return Err(self.error("Expected type name")),
        };
        self.advance();
        Ok(owned(name))
    }

    fn skip_newlines(&mut self)
        requires
            old(self).wf(),
        ensures
            Self::steps(*old(self), *final(self)),
            final(self).pos == skip_nl(old(self).tokens@, old(self).pos as int),
    {
        let ghost t = self.tokens@;
        let ghost p = self.pos as int;
        while self.at_trivia()
            invariant
                self.wf(),
                t == old(self).tokens@,
                p == old(self).pos as int,
                self.tokens@ == t,
                p <= self.pos,
                skip_nl(t, self.pos as int) == skip_nl(t, p),
            decreases rem(t, self.pos as int),
        {
            self.advance();
        }
    }

    fn at_trivia(&self) -> (r: bool)
        ensures
            r == ((self.pos as int) < self.tokens@.len() && is_trivia(self.tokens@[self.pos as int].kind)),
    {
        match self.peek() {
            Some(Token { kind: TokenKind::Newline, .. }) => true,
            Some(Token { kind: TokenKind::Comment(_), .. }) => true,
            Some(Token { kind: TokenKind::DocComment(_), .. }) => true,
            _ => false,
        }
    }

    fn current_span(&self) -> (r: Span)
        ensures
            r == span_at(self.tokens@, self.pos as int),
    {
        match self.peek() {
            Some(t) => t.span,
            None => Span::new(0, 0, 0, 0),
        }
    }

    fn error(&self, message: &str) -> (r: ParseError)
        ensures
            r@ == err_at(self.tokens@, self.pos as int, message@),
    {
        ParseError::new(owned(message), self.current_span())
    }

    /// Try to parse a literal
    fn try_parse_literal(&mut self) -> (r: Option<Literal>)
        requires
            old(self).wf(),
        ensures
            Self::steps(*old(self), *final(self)),
            match try_literal(old(self).tokens@, old(self).pos as int) {
                Some((l, q)) => r is Some && r->0@ == l && final(self).pos == q,
                None => r is None && final(self).pos == old(self).pos,
            },
    {
        match self.peek() {
            Some(Token { kind: TokenKind::StringLit(s), .. }) => {
                let s = s.clone();
                self.advance();
                Some(Literal::String(s))
            },
            Some(Token { kind: TokenKind::IntLit(n), .. }) => {
                let n = *n;
                self.advance();
                Some(Literal::Int(n))
            },
            Some(Token { kind: TokenKind::FloatLit(n), .. }) => {
                let n = n.clone();
                self.advance();
                Some(Literal::Float(n))
            },
            Some(Token { kind: TokenKind::True, .. }) => {
                self.advance();
                Some(Literal::Bool(true))
            },
            Some(Token { kind: TokenKind::False, .. }) => {
                self.advance();
                Some(Literal::Bool(false))
            },
            Some(Token { kind: TokenKind::Null, .. }) => {
                self.advance();
                Some(Literal::Null)
            },
            _ => None,
        }
    }
}


impl Parser {
    /// Parse a type
    fn parse_type(&mut self) -> (r: ParseResult<Type>)
        requires
            old(self).wf(),
        ensures
            Self::steps(*old(self), *final(self)),
            agrees(r, final(self).pos as int, g_type(old(self).tokens@, old(self).pos as int), |x: Type| x@),
        decreases rem(old(self).tokens@, old(self).pos as int), 1nat,
    {
        let ghost t = self.tokens@;
        let ghost p = self.pos as int;
        // Check for reference
        if self.match_token(TokenKind::Ampersand) {
            let mutable = self.match_token(TokenKind::Mut);
            let inner = self.parse_type()?;
            return Ok(Type::Reference { mutable, inner: Box::new(inner) });
        }
        // Check for tuple type: (T1, T2, ...)
        if self.check(TokenKind::LParen) {
            return self.parse_tuple_type();
        }
        // Get the type name
        let name = self.expect_type_name()?;
        // Check for type arguments
        if self.match_token(TokenKind::Lt) {
            let ghost p3 = self.pos as int;
            let mut type_args: Vec<Type> = Vec::new();
            let first = self.parse_type()?;
            proof {
                lemma_v_list_type_empty(type_args@);
                lemma_v_list_type_push(type_args@, first);
            }
            type_args.push(first);
            let ghost target = g_type_args(t, self.pos as int, v_list_type(type_args@));
            while self.match_token(TokenKind::Comma)
                invariant
                    self.wf(),
                    t == old(self).tokens@,
                    err_passes(target, g_type(t, p)),
                    p == old(self).pos as int,
                    self.tokens@ == t,
                    p < self.pos,
                    g_type_args(t, self.pos as int, v_list_type(type_args@)) == target,
                decreases rem(t, self.pos as int),
            {
                let ghost acc = type_args@;
                let ty = self.parse_type()?;
                proof {
                    lemma_v_list_type_push(acc, ty);
                }
                type_args.push(ty);
            }
            self.expect(TokenKind::Gt)?;
            Ok(Type::Container { name, type_args })
        } else {
            // Determine if it's a primitive or named type
            let s = name.as_str();
            if str_eq(s, "Str") || str_eq(s, "i32") || str_eq(s, "u32") || str_eq(s, "f64") || str_eq(s, "bool") {
                Ok(Type::Primitive(name))
            } else {
                Ok(Type::Named(name))
            }
        }
    }

    /// Parse tuple type: (T1, T2, ...)
    fn parse_tuple_type(&mut self) -> (r: ParseResult<Type>)
        requires
            old(self).wf(),
        ensures
            Self::steps(*old(self), *final(self)),
            agrees(r, final(self).pos as int, g_tuple_type(old(self).tokens@, old(self).pos as int), |x: Type| x@),
        decreases rem(old(self).tokens@, old(self).pos as int), 0nat,
    {
        let ghost t = self.tokens@;
        let ghost p = self.pos as int;
        self.expect(TokenKind::LParen)?;
        // Empty tuple () is the unit type
        if self.check(TokenKind::RParen) {
            self.advance();
            return Ok(Type::Unit);
        }
        let ghost p1 = self.pos as int;
        // Parse tuple element types
        let mut types: Vec<Type> = Vec::new();
        proof {
            lemma_v_list_type_empty(types@);
        }
        let ghost target = g_tuple_elems(t, p1, seq![]);
        let ghost q1: int = match g_type(t, p1) {
            Ok((_, q)) => q,
            Err(_) => 0,
        };
        // Whether a comma followed the first element
        let mut first_comma = false;
        loop
            invariant_except_break
                g_tuple_elems(t, self.pos as int, v_list_type(types@)) == target,
                types@.len() == 0 ==> self.pos == p1,
            invariant
                q1 == match g_type(t, p1) {
                    Ok((_, q)) => q,
                    Err(_) => 0,
                },
                types@.len() >= 1 ==> g_type(t, p1) is Ok && first_comma == chk(t, q1, TokenKind::Comma),
                self.wf(),
                t == old(self).tokens@,
                err_passes(target, g_tuple_type(t, p)),
                p == old(self).pos as int,
                self.tokens@ == t,
                p < self.pos,
            ensures
                target == Ok::<(Seq<TypeV>, int), ParseErrorV>((v_list_type(types@), self.pos as int)),
            decreases rem(t, self.pos as int),
        {
            let ghost acc = types@;
            let was_empty = types.len() == 0;
            let ghost before = self.pos as int;
            let ty = self.parse_type()?;
            let ghost after = self.pos as int;
            proof {
                lemma_v_list_type_push(acc, ty);
                if was_empty {
                    assert(before == p1);
                    assert(g_type(t, p1) is Ok);
                    assert(q1 == after);
                }
            }
            types.push(ty);
            let comma = self.match_token(TokenKind::Comma);
            if was_empty {
                first_comma = comma;
            }
            if !comma {
                break;
            }
            // Allow trailing comma
            if self.check(TokenKind::RParen) {
                break;
            }
        }
        self.expect(TokenKind::RParen)?;
        // Single element with no trailing comma is just a parenthesized type, not a tuple
        proof {
            lemma_v_list_type_len(types@);
        }
        if types.len() == 1 && !first_comma {
            proof {
                lemma_v_list_type_index(types@, 0);
            }
            let only = types.remove(0);
            return Ok(only);
        }
        Ok(Type::Tuple(types))
    }

    /// Parse pattern
    fn parse_pattern(&mut self) -> (r: ParseResult<Pattern>)
        requires
            old(self).wf(),
        ensures
            Self::steps(*old(self), *final(self)),
            agrees(r, final(self).pos as int, g_pattern(old(self).tokens@, old(self).pos as int), |x: Pattern| x@),
        decreases rem(old(self).tokens@, old(self).pos as int), 1nat,
    {
        let ghost t = self.tokens@;
        let ghost p = self.pos as int;
        // Check for wildcard
        if self.check_ident("_") {
            self.advance();
            return Ok(Pattern::Wildcard);
        }
        // Check for literal
        if let Some(lit) = self.try_parse_literal() {
            return Ok(Pattern::Literal(lit));
        }
        // Check for tuple pattern: (a, b, c)
        if self.check(TokenKind::LParen) {
            self.advance();
            let mut elements: Vec<Pattern> = Vec::new();
            proof {
                lemma_v_list_pattern_empty(elements@);
            }
            // Empty tuple ()
            if self.check(TokenKind::RParen) {
                self.advance();
                return Ok(Pattern::Tuple(elements));
            }
            let ghost target = g_pattern_elems(t, self.pos as int, seq![]);
            // Parse tuple elements
            loop
                invariant_except_break
                    g_pattern_elems(t, self.pos as int, v_list_pattern(elements@)) == target,
                invariant
                    self.wf(),
                    t == old(self).tokens@,
                    err_passes(target, g_pattern(t, p)),
                    p == old(self).pos as int,
                    self.tokens@ == t,
                    p < self.pos,
                ensures
                    target == Ok::<(Seq<PatternV>, int), ParseErrorV>((v_list_pattern(elements@), self.pos as int)),
                decreases rem(t, self.pos as int),
            {
                let ghost acc = elements@;
                let pat = self.parse_pattern()?;
                proof {
                    lemma_v_list_pattern_push(acc, pat);
                }
                elements.push(pat);
                if !self.match_token(TokenKind::Comma) {
                    break;
                }
                // Allow trailing comma
                if self.check(TokenKind::RParen) {
                    break;
                }
            }
            self.expect(TokenKind::RParen)?;
            // Single element is not a tuple, just a parenthesized pattern
            proof {
                lemma_v_list_pattern_len(elements@);
            }
            if elements.len() == 1 {
                proof {
                    lemma_v_list_pattern_index(elements@, 0);
                }
                let only = elements.remove(0);
                return Ok(only);
            }
            return Ok(Pattern::Tuple(elements));
        }
        // Identifier, struct pattern, or variant pattern
        let name = self.expect_ident()?;
        if self.check(TokenKind::LBrace) {
            // Struct pattern: Name { field: pattern, ... }
            self.advance();
            let mut fields: Vec<(String, Pattern)> = Vec::new();
            proof {
                lemma_v_list_string_pattern_empty(fields@);
            }
            let ghost target = g_pattern_fields(t, self.pos as int, seq![]);
            loop
                invariant_except_break
                    g_pattern_fields(t, self.pos as int, v_list_string_pattern(fields@)) == target,
                invariant
                    self.wf(),
                    t == old(self).tokens@,
                    err_passes(target, g_pattern(t, p)),
                    p == old(self).pos as int,
                    self.tokens@ == t,
                    p < self.pos,
                ensures
                    target == Ok::<(Seq<(Seq<char>, PatternV)>, int), ParseErrorV>(
                        (v_list_string_pattern(fields@), self.pos as int),
                    ),
                decreases rem(t, self.pos as int),
            {
                let ghost acc = fields@;
                self.skip_newlines();
                if self.check(TokenKind::RBrace) {
                    break;
                }
                let field_name = self.expect_ident()?;
                self.expect(TokenKind::Colon)?;
                let field_pattern = self.parse_pattern()?;
                proof {
                    lemma_v_list_string_pattern_push(acc, (field_name, field_pattern));
                }
                fields.push((field_name, field_pattern));
                if !self.match_token(TokenKind::Comma) {
                    break;
                }
            }
            self.expect(TokenKind::RBrace)?;
            Ok(Pattern::Struct { name, fields })
        } else if self.check(TokenKind::LParen) {
            // Variant pattern: Some(x), Ok(value), Err(e)
            self.advance();
            let inner = if self.check(TokenKind::RParen) {
                None
            } else {
                Some(Box::new(self.parse_pattern()?))
            };
            self.expect(TokenKind::RParen)?;
            Ok(Pattern::Variant { name, inner })
        } else if self.match_token(TokenKind::Pipe) {
            // Or pattern
            let mut patterns: Vec<Pattern> = Vec::new();
            proof {
                lemma_v_list_pattern_empty(patterns@);
                lemma_v_list_pattern_push(patterns@, Pattern::Ident(name));
            }
            patterns.push(Pattern::Ident(name));
            let ghost target = g_pattern_alts(t, self.pos as int, v_list_pattern(patterns@));
            loop
                invariant_except_break
                    g_pattern_alts(t, self.pos as int, v_list_pattern(patterns@)) == target,
                invariant
                    self.wf(),
                    t == old(self).tokens@,
                    err_passes(target, g_pattern(t, p)),
                    p == old(self).pos as int,
                    self.tokens@ == t,
                    p < self.pos,
                ensures
                    target == Ok::<(Seq<PatternV>, int), ParseErrorV>((v_list_pattern(patterns@), self.pos as int)),
                decreases rem(t, self.pos as int),
            {
                let ghost acc = patterns@;
                let pat = self.parse_pattern()?;
                proof {
                    lemma_v_list_pattern_push(acc, pat);
                }
                patterns.push(pat);
                if !self.match_token(TokenKind::Pipe) {
                    break;
                }
            }
            Ok(Pattern::Or(patterns))
        } else {
            // Check if this is a unit variant like None
            let s = name.as_str();
            if str_eq(s, "None") || str_eq(s, "true") || str_eq(s, "false") {
                Ok(Pattern::Variant { name, inner: None })
            } else {
                Ok(Pattern::Ident(name))
            }
        }
    }
}


/// A call expression without type arguments.
fn mk_call(callee: Expr, args: Vec<Expr>, span: Span) -> (r: Expr)
    ensures
        r@ == call(callee@, v_list_expr(args@), span),
{
    let type_args: Vec<Type> = Vec::new();
    proof {
        lemma_v_list_type_empty(type_args@);
    }
    Expr::Call(CallExpr { callee: Box::new(callee), args, type_args, optional: false, span })
}

/// A member expression.
fn mk_member(object: Expr, property: String, optional: bool, is_path: bool, span: Span) -> (r: Expr)
    ensures
        r@ == member(object@, property@, optional, is_path, span),
{
    Expr::Member(
        MemberExpr { object: Box::new(object), property, optional, computed: false, is_path, span },
    )
}

/// An identifier expression.
fn mk_ident(name: String, span: Span) -> (r: Expr)
    ensures
        r@ == ident(name@, span),
{
    Expr::Ident(IdentExpr { name, span })
}

/// The `Name(_)` wildcard form.
fn mk_wildcard(name: String, span: Span) -> (r: Expr)
    ensures
        r@ == wildcard_init(name@, span),
{
    let mut fields: Vec<(String, Expr)> = Vec::new();
    let x = (owned("_wildcard"), mk_ident(owned("_"), span));
    proof {
        lemma_v_list_string_expr_empty(fields@);
        lemma_v_list_string_expr_push(fields@, x);
    }
    fields.push(x);
    Expr::StructInit(StructInitExpr { name, fields, span })
}

impl Parser {
    /// Parse expression (entry point for expression parsing)
    #[verifier::spinoff_prover]
    fn parse_expr(&mut self) -> (r: ParseResult<Expr>)
        requires
            old(self).wf(),
        ensures
            Self::steps(*old(self), *final(self)),
            r is Ok ==> Self::consumed(*old(self), *final(self)),
            agrees(r, final(self).pos as int, g_expr(old(self).tokens@, old(self).pos as int), |x: Expr| x@),
        decreases rem(old(self).tokens@, old(self).pos as int), 38nat,
    {
        proof {
            reveal(g_assignment);
            reveal(g_expr);
        }
        self.parse_assignment()
    }

    /// Parse expression without allowing struct initialization
    /// This is used in contexts where `{` starts a block, not a struct
    #[verifier::spinoff_prover]
    fn parse_expr_no_struct(&mut self) -> (r: ParseResult<Expr>)
        requires
            old(self).wf(),
        ensures
            Self::steps(*old(self), *final(self)),
            r is Ok ==> Self::consumed(*old(self), *final(self)),
            agrees(r, final(self).pos as int, g_expr_ns(old(self).tokens@, old(self).pos as int), |x: Expr| x@),
        decreases rem(old(self).tokens@, old(self).pos as int), 37nat,
    {
        proof {
            reveal(g_binary);
            reveal(g_expr_ns);
        }
        self.parse_or_no_struct()
    }

    /// Parse match scrutinee (expression that doesn't consume {)
    #[verifier::spinoff_prover]
    fn parse_match_scrutinee(&mut self) -> (r: ParseResult<Expr>)
        requires
            old(self).wf(),
        ensures
            Self::steps(*old(self), *final(self)),
            r is Ok ==> Self::consumed(*old(self), *final(self)),
            agrees(r, final(self).pos as int, g_binary(old(self).tokens@, old(self).pos as int, 0, true), |x: Expr| x@),
        decreases rem(old(self).tokens@, old(self).pos as int), 37nat,
    {
        proof {
            reveal(g_binary);
            reveal(g_binary_loop);
            reveal(g_operand);
        }
        // Use parse_or_no_struct to avoid consuming { as struct init
        self.parse_or_no_struct()
    }

    /// Parse assignment expression
    #[verifier::spinoff_prover]
    fn parse_assignment(&mut self) -> (r: ParseResult<Expr>)
        requires
            old(self).wf(),
        ensures
            Self::steps(*old(self), *final(self)),
            r is Ok ==> Self::consumed(*old(self), *final(self)),
            agrees(r, final(self).pos as int, g_assignment(old(self).tokens@, old(self).pos as int), |x: Expr| x@),
        decreases rem(old(self).tokens@, old(self).pos as int), 37nat,
    {
        proof {
            reveal(g_assignment);
            reveal(g_binary);
        }
        let expr = self.parse_or()?;
        if self.match_token(TokenKind::Eq) {
            let value = self.parse_assignment()?;
            let span = self.current_span();
            return Ok(Expr::Assign(AssignExpr { target: Box::new(expr), value: Box::new(value), span }));
        }
        // Compound assignment
        let op = if self.match_token(TokenKind::PlusEq) {
            Some(CompoundAssignOp::AddAssign)
        } else if self.match_token(TokenKind::MinusEq) {
            Some(CompoundAssignOp::SubAssign)
        } else if self.match_token(TokenKind::StarEq) {
            Some(CompoundAssignOp::MulAssign)
        } else if self.match_token(TokenKind::SlashEq) {
            Some(CompoundAssignOp::DivAssign)
        } else {
            None
        };
        if let Some(op) = op {
            let value = self.parse_assignment()?;
            let span = self.current_span();
            return Ok(
                Expr::CompoundAssign(
                    CompoundAssignExpr { op, target: Box::new(expr), value: Box::new(value), span },
                ),
            );
        }
        Ok(expr)
    }

    /// Parse logical OR
    #[verifier::spinoff_prover]
    fn parse_or(&mut self) -> (r: ParseResult<Expr>)
        requires
            old(self).wf(),
        ensures
            Self::steps(*old(self), *final(self)),
            r is Ok ==> Self::consumed(*old(self), *final(self)),
            agrees(r, final(self).pos as int, g_binary(old(self).tokens@, old(self).pos as int, 0, false), |x: Expr| x@),
        decreases rem(old(self).tokens@, old(self).pos as int), 36nat,
    {
        proof {
            reveal(g_binary);
            reveal(g_binary_loop);
            reveal(g_operand);
        }
        self.parse_binary(0, false)
    }

    /// Parse logical AND
    #[verifier::spinoff_prover]
    fn parse_and(&mut self) -> (r: ParseResult<Expr>)
        requires
            old(self).wf(),
        ensures
            Self::steps(*old(self), *final(self)),
            agrees(r, final(self).pos as int, g_binary(old(self).tokens@, old(self).pos as int, 1, false), |x: Expr| x@),
    {
        proof {
            reveal(g_binary);
            reveal(g_binary_loop);
            reveal(g_operand);
        }
        self.parse_binary(1, false)
    }

    /// Parse equality
    #[verifier::spinoff_prover]
    fn parse_equality(&mut self) -> (r: ParseResult<Expr>)
        requires
            old(self).wf(),
        ensures
            Self::steps(*old(self), *final(self)),
            agrees(r, final(self).pos as int, g_binary(old(self).tokens@, old(self).pos as int, 2, false), |x: Expr| x@),
    {
        proof {
            reveal(g_binary);
            reveal(g_binary_loop);
            reveal(g_operand);
        }
        self.parse_binary(2, false)
    }

    /// Parse comparison
    #[verifier::spinoff_prover]
    fn parse_comparison(&mut self) -> (r: ParseResult<Expr>)
        requires
            old(self).wf(),
        ensures
            Self::steps(*old(self), *final(self)),
            agrees(r, final(self).pos as int, g_binary(old(self).tokens@, old(self).pos as int, 3, false), |x: Expr| x@),
    {
        proof {
            reveal(g_binary);
            reveal(g_binary_loop);
            reveal(g_operand);
        }
        self.parse_binary(3, false)
    }

    /// Parse term (addition/subtraction)
    #[verifier::spinoff_prover]
    fn parse_term(&mut self) -> (r: ParseResult<Expr>)
        requires
            old(self).wf(),
        ensures
            Self::steps(*old(self), *final(self)),
            agrees(r, final(self).pos as int, g_binary(old(self).tokens@, old(self).pos as int, 4, false), |x: Expr| x@),
    {
        proof {
            reveal(g_binary);
            reveal(g_binary_loop);
            reveal(g_operand);
        }
        self.parse_binary(4, false)
    }

    /// Parse factor (multiplication/division)
    #[verifier::spinoff_prover]
    fn parse_factor(&mut self) -> (r: ParseResult<Expr>)
        requires
            old(self).wf(),
        ensures
            Self::steps(*old(self), *final(self)),
            agrees(r, final(self).pos as int, g_binary(old(self).tokens@, old(self).pos as int, 5, false), |x: Expr| x@),
    {
        proof {
            reveal(g_binary);
            reveal(g_binary_loop);
            reveal(g_operand);
        }
        self.parse_binary(5, false)
    }

    #[verifier::spinoff_prover]
    fn parse_or_no_struct(&mut self) -> (r: ParseResult<Expr>)
        requires
            old(self).wf(),
        ensures
            Self::steps(*old(self), *final(self)),
            r is Ok ==> Self::consumed(*old(self), *final(self)),
            agrees(r, final(self).pos as int, g_binary(old(self).tokens@, old(self).pos as int, 0, true), |x: Expr| x@),
        decreases rem(old(self).tokens@, old(self).pos as int), 36nat,
    {
        proof {
            reveal(g_binary);
            reveal(g_binary_loop);
            reveal(g_operand);
        }
        self.parse_binary(0, true)
    }

    #[verifier::spinoff_prover]
    fn parse_and_no_struct(&mut self) -> (r: ParseResult<Expr>)
        requires
            old(self).wf(),
        ensures
            Self::steps(*old(self), *final(self)),
            agrees(r, final(self).pos as int, g_binary(old(self).tokens@, old(self).pos as int, 1, true), |x: Expr| x@),
    {
        proof {
            reveal(g_binary);
            reveal(g_binary_loop);
            reveal(g_operand);
        }
        self.parse_binary(1, true)
    }

    #[verifier::spinoff_prover]
    fn parse_equality_no_struct(&mut self) -> (r: ParseResult<Expr>)
        requires
            old(self).wf(),
        ensures
            Self::steps(*old(self), *final(self)),
            agrees(r, final(self).pos as int, g_binary(old(self).tokens@, old(self).pos as int, 2, true), |x: Expr| x@),
    {
        proof {
            reveal(g_binary);
            reveal(g_binary_loop);
            reveal(g_operand);
        }
        self.parse_binary(2, true)
    }

    #[verifier::spinoff_prover]
    fn parse_comparison_no_struct(&mut self) -> (r: ParseResult<Expr>)
        requires
            old(self).wf(),
        ensures
            Self::steps(*old(self), *final(self)),
            agrees(r, final(self).pos as int, g_binary(old(self).tokens@, old(self).pos as int, 3, true), |x: Expr| x@),
    {
        proof {
            reveal(g_binary);
            reveal(g_binary_loop);
            reveal(g_operand);
        }
        self.parse_binary(3, true)
    }

    #[verifier::spinoff_prover]
    fn parse_term_no_struct(&mut self) -> (r: ParseResult<Expr>)
        requires
            old(self).wf(),
        ensures
            Self::steps(*old(self), *final(self)),
            agrees(r, final(self).pos as int, g_binary(old(self).tokens@, old(self).pos as int, 4, true), |x: Expr| x@),
    {
        proof {
            reveal(g_binary);
            reveal(g_binary_loop);
            reveal(g_operand);
        }
        self.parse_binary(4, true)
    }

    #[verifier::spinoff_prover]
    fn parse_factor_no_struct(&mut self) -> (r: ParseResult<Expr>)
        requires
            old(self).wf(),
        ensures
            Self::steps(*old(self), *final(self)),
            agrees(r, final(self).pos as int, g_binary(old(self).tokens@, old(self).pos as int, 5, true), |x: Expr| x@),
    {
        proof {
            reveal(g_binary);
            reveal(g_binary_loop);
            reveal(g_operand);
        }
        self.parse_binary(5, true)
    }

    /// The operator at the current token for a precedence level, if any.
    fn binary_op_here(&self, level: u8) -> (r: Option<BinaryOp>)
        ensures
            r == op_at(self.tokens@, self.pos as int, level as nat),
    {
        match self.peek() {
            Some(t) => {
                if level == 0 {
                    match t.kind {
                        TokenKind::Or => Some(BinaryOp::Or),
                        _ => None,
                    }
                } else if level == 1 {
                    match t.kind {
                        TokenKind::And => Some(BinaryOp::And),
                        _ => None,
                    }
                } else if level == 2 {
                    match t.kind {
                        TokenKind::EqEq => Some(BinaryOp::Eq),
                        TokenKind::NotEq => Some(BinaryOp::NotEq),
                        _ => None,
                    }
                } else if level == 3 {
                    match t.kind {
                        TokenKind::Lt => Some(BinaryOp::Lt),
                        TokenKind::Gt => Some(BinaryOp::Gt),
                        TokenKind::LtEq => Some(BinaryOp::LtEq),
                        TokenKind::GtEq => Some(BinaryOp::GtEq),
                        _ => None,
                    }
                } else if level == 4 {
                    match t.kind {
                        TokenKind::Plus => Some(BinaryOp::Add),
                        TokenKind::Minus => Some(BinaryOp::Sub),
                        _ => None,
                    }
                } else if level == 5 {
                    match t.kind {
                        TokenKind::Star => Some(BinaryOp::Mul),
                        TokenKind::Slash => Some(BinaryOp::Div),
                        TokenKind::Percent => Some(BinaryOp::Mod),
                        _ => None,
                    }
                } else {
                    None
                }
            },
            None => None,
        }
    }

    /// The operand of a precedence level.
    #[verifier::spinoff_prover]
    fn parse_operand(&mut self, level: u8, no_struct: bool) -> (r: ParseResult<Expr>)
        requires
            old(self).wf(),
            level <= 5,
        ensures
            Self::steps(*old(self), *final(self)),
            r is Ok ==> Self::consumed(*old(self), *final(self)),
            agrees(r, final(self).pos as int, g_operand(old(self).tokens@, old(self).pos as int, level as nat, no_struct), |x: Expr| x@),
        decreases rem(old(self).tokens@, old(self).pos as int), (34 - 2 * level) as nat,
    {
        proof {
            reveal(g_binary);
            reveal(g_operand);
            reveal(g_unary);
            reveal(g_unary_ns);
        }
        if level < 5 {
            self.parse_binary(level + 1, no_struct)
        } else if no_struct {
            self.parse_unary_no_struct()
        } else {
            self.parse_unary()
        }
    }

    /// A left-associative chain of binary operators at one precedence level.
    #[verifier::spinoff_prover]
    fn parse_binary(&mut self, level: u8, no_struct: bool) -> (r: ParseResult<Expr>)
        requires
            old(self).wf(),
            level <= 5,
        ensures
            Self::steps(*old(self), *final(self)),
            r is Ok ==> Self::consumed(*old(self), *final(self)),
            agrees(r, final(self).pos as int, g_binary(old(self).tokens@, old(self).pos as int, level as nat, no_struct), |x: Expr| x@),
        decreases rem(old(self).tokens@, old(self).pos as int), (35 - 2 * level) as nat,
    {
        proof {
            reveal(g_binary);
            reveal(g_binary_loop);
            reveal(g_operand);
        }
        let ghost t = self.tokens@;
        let ghost p = self.pos as int;
        let mut expr = self.parse_operand(level, no_struct)?;
        let ghost target = g_binary_loop(t, self.pos as int, level as nat, no_struct, expr@);
        loop
            invariant_except_break
                g_binary_loop(t, self.pos as int, level as nat, no_struct, expr@) == target,
            invariant
                self.wf(),
                t == old(self).tokens@,
                p == old(self).pos as int,
                err_passes(target, g_binary(t, p, level as nat, no_struct)),
                self.tokens@ == t,
                p < self.pos,
                level <= 5,
            ensures
                target == Ok::<(ExprV, int), ParseErrorV>((expr@, self.pos as int)),
            decreases rem(t, self.pos as int),
        {
            proof {
                reveal(g_binary_loop);
                reveal(g_operand);
            }
            let op = match self.binary_op_here(level) {
                Some(op) => op,
                None => break,
            };
            self.advance();
            let right = self.parse_operand(level, no_struct)?;
            let span = self.current_span();
            expr = Expr::Binary(BinaryExpr { op, left: Box::new(expr), right: Box::new(right), span });
        }
        Ok(expr)
    }

    /// Parse unary expression
    #[verifier::spinoff_prover]
    fn parse_unary(&mut self) -> (r: ParseResult<Expr>)
        requires
            old(self).wf(),
        ensures
            Self::steps(*old(self), *final(self)),
            r is Ok ==> Self::consumed(*old(self), *final(self)),
            agrees(r, final(self).pos as int, g_unary(old(self).tokens@, old(self).pos as int), |x: Expr| x@),
        decreases rem(old(self).tokens@, old(self).pos as int), 23nat,
    {
        proof {
            reveal(g_call);
            reveal(g_unary);
        }
        let span = self.current_span();
        if self.match_token(TokenKind::Not) {
            let operand = self.parse_unary()?;
            return Ok(Expr::Unary(UnaryExpr { op: UnaryOp::Not, operand: Box::new(operand), span }));
        }
        if self.match_token(TokenKind::Minus) {
            let operand = self.parse_unary()?;
            return Ok(Expr::Unary(UnaryExpr { op: UnaryOp::Neg, operand: Box::new(operand), span }));
        }
        if self.match_token(TokenKind::Star) {
            let operand = self.parse_unary()?;
            return Ok(Expr::Deref(DerefExpr { expr: Box::new(operand), span }));
        }
        if self.match_token(TokenKind::Ampersand) {
            let mutable = self.match_token(TokenKind::Mut);
            let operand = self.parse_unary()?;
            return Ok(Expr::Ref(RefExpr { mutable, expr: Box::new(operand), span }));
        }
        self.parse_call()
    }

    #[verifier::spinoff_prover]
    fn parse_unary_no_struct(&mut self) -> (r: ParseResult<Expr>)
        requires
            old(self).wf(),
        ensures
            Self::steps(*old(self), *final(self)),
            r is Ok ==> Self::consumed(*old(self), *final(self)),
            agrees(r, final(self).pos as int, g_unary_ns(old(self).tokens@, old(self).pos as int), |x: Expr| x@),
        decreases rem(old(self).tokens@, old(self).pos as int), 23nat,
    {
        proof {
            reveal(g_primary_ns);
            reveal(g_unary_ns);
        }
        let span = self.current_span();
        // Handle unary operators
        if self.match_token(TokenKind::Not) {
            let operand = self.parse_unary_no_struct()?;
            return Ok(Expr::Unary(UnaryExpr { op: UnaryOp::Not, operand: Box::new(operand), span }));
        }
        if self.match_token(TokenKind::Minus) {
            let operand = self.parse_unary_no_struct()?;
            return Ok(Expr::Unary(UnaryExpr { op: UnaryOp::Neg, operand: Box::new(operand), span }));
        }
        if self.match_token(TokenKind::Star) {
            let operand = self.parse_unary_no_struct()?;
            return Ok(Expr::Unary(UnaryExpr { op: UnaryOp::Deref, operand: Box::new(operand), span }));
        }
        if self.match_token(TokenKind::Ampersand) {
            let is_mut = self.match_token(TokenKind::Mut);
            let operand = self.parse_unary_no_struct()?;
            return Ok(
                Expr::Unary(
                    UnaryExpr {
                        op: if is_mut {
                            UnaryOp::RefMut
                        } else {
                            UnaryOp::Ref
                        },
                        operand: Box::new(operand),
                        span,
                    },
                ),
            );
        }
        self.parse_primary_no_struct()
    }

    /// Parse call/member/index expression
    #[verifier::spinoff_prover]
    fn parse_call(&mut self) -> (r: ParseResult<Expr>)
        requires
            old(self).wf(),
        ensures
            Self::steps(*old(self), *final(self)),
            r is Ok ==> Self::consumed(*old(self), *final(self)),
            agrees(r, final(self).pos as int, g_call(old(self).tokens@, old(self).pos as int), |x: Expr| x@),
        decreases rem(old(self).tokens@, old(self).pos as int), 22nat,
    {
        proof {
            reveal(g_call);
            reveal(g_call_loop);
            reveal(g_primary);
        }
        let ghost t = self.tokens@;
        let ghost p = self.pos as int;
        let mut expr = self.parse_primary()?;
        let ghost target = g_call_loop(t, self.pos as int, expr@);
        loop
            invariant_except_break
                g_call_loop(t, self.pos as int, expr@) == target,
            invariant
                self.wf(),
                t == old(self).tokens@,
                p == old(self).pos as int,
                err_passes(target, g_call(t, p)),
                self.tokens@ == t,
                p < self.pos,
            ensures
                target == Ok::<(ExprV, int), ParseErrorV>((expr@, self.pos as int)),
            decreases rem(t, self.pos as int),
        {
            proof {
                reveal(g_call_loop);
                reveal(g_postfix);
            }
            // Skip newlines to allow method chaining across lines
            self.skip_newlines();
            let (next, applied) = self.parse_postfix(expr)?;
            expr = next;
            if !applied {
                break;
            }
        }
        Ok(expr)
    }

    /// Apply one postfix operation to `expr`: a call, a member access, an index,
    /// a path segment or `?`. The flag is false, and `expr` comes back unchanged,
    /// where none starts at the current token.
    #[verifier::spinoff_prover]
    fn parse_postfix(&mut self, expr: Expr) -> (r: ParseResult<(Expr, bool)>)
        requires
            old(self).wf(),
        ensures
            Self::steps(*old(self), *final(self)),
            r is Ok && r->Ok_0.1 ==> Self::consumed(*old(self), *final(self)),
            match g_postfix(old(self).tokens@, old(self).pos as int, expr@) {
                None => r is Ok && !r->Ok_0.1 && r->Ok_0.0@ == expr@ && final(self).pos == old(self).pos,
                Some(Ok((e2, q))) => r is Ok && r->Ok_0.1 && r->Ok_0.0@ == e2 && final(self).pos == q,
                Some(Err(x)) => r is Err && r->Err_0@ == x,
            },
        decreases rem(old(self).tokens@, old(self).pos as int), 0nat,
    {
        proof {
            reveal(g_args);
            reveal(g_expr);
            reveal(g_postfix);
        }
        let expr = if self.match_token(TokenKind::LParen) {
            // Function call
            let args = self.parse_args()?;
            self.expect(TokenKind::RParen)?;
            let span = self.current_span();
            mk_call(expr, args, span)
        } else if self.match_token(TokenKind::Dot) {
            // Member access
            let property = self.expect_ident()?;
            let span = self.current_span();
            mk_member(expr, property, false, false, span)
        } else if self.match_token(TokenKind::QuestionDot) {
            // Optional member access ?.
            let property = self.expect_ident()?;
            let span = self.current_span();
            mk_member(expr, property, true, false, span)
        } else if self.match_token(TokenKind::LBracket) {
            // Index access
            let index = self.parse_expr()?;
            self.expect(TokenKind::RBracket)?;
            let span = self.current_span();
            Expr::Index(IndexExpr { object: Box::new(expr), index: Box::new(index), span })
        } else if self.match_token(TokenKind::ColonColon) {
            // Static method call like HashMap::new or Expr::CallExpression
            let method = if let Some(ast_type) = self.try_expect_ast_type() {
                ast_type
            } else {
                self.expect_ident()?
            };
            let span = self.current_span();
            mk_member(expr, method, false, true, span)
        } else if self.match_token(TokenKind::Question) {
            // Try operator: expr?
            Expr::Try(Box::new(expr))
        } else {
            return Ok((expr, false));
        };
        Ok((expr, true))
    }

    /// Parse function call arguments
    #[verifier::spinoff_prover]
    fn parse_args(&mut self) -> (r: ParseResult<Vec<Expr>>)
        requires
            old(self).wf(),
        ensures
            Self::steps(*old(self), *final(self)),
            agrees(r, final(self).pos as int, g_args(old(self).tokens@, old(self).pos as int), |x: Vec<Expr>| v_list_expr(x@)),
        decreases rem(old(self).tokens@, old(self).pos as int), 42nat,
    {
        proof {
            reveal(g_args);
            reveal(g_args_loop);
        }
        let ghost t = self.tokens@;
        let ghost p = self.pos as int;
        let mut args: Vec<Expr> = Vec::new();
        proof {
            lemma_v_list_expr_empty(args@);
        }
        self.skip_newlines();
        if self.check(TokenKind::RParen) {
            return Ok(args);
        }
        let ghost target = g_args_loop(t, self.pos as int, seq![]);
        loop
            invariant_except_break
                g_args_loop(t, self.pos as int, v_list_expr(args@)) == target,
            invariant
                self.wf(),
                t == old(self).tokens@,
                p == old(self).pos as int,
                err_passes(target, g_args(t, p)),
                self.tokens@ == t,
                p <= self.pos,
            ensures
                target == Ok::<(Seq<ExprV>, int), ParseErrorV>((v_list_expr(args@), self.pos as int)),
            decreases rem(t, self.pos as int),
        {
            proof {
                reveal(g_args_loop);
                reveal(g_expr);
            }
            let ghost acc = args@;
            self.skip_newlines();
            let a = self.parse_expr()?;
            proof {
                lemma_v_list_expr_push(acc, a);
            }
            args.push(a);
            self.skip_newlines();
            if !self.match_token(TokenKind::Comma) {
                break;
            }
        }
        Ok(args)
    }
}



impl Parser {
    /// Parse primary expression
    #[verifier::spinoff_prover]
    fn parse_primary(&mut self) -> (r: ParseResult<Expr>)
        requires
            old(self).wf(),
        ensures
            Self::steps(*old(self), *final(self)),
            r is Ok ==> Self::consumed(*old(self), *final(self)),
            agrees(r, final(self).pos as int, g_primary(old(self).tokens@, old(self).pos as int), |x: Expr| x@),
            !starts_expression(old(self).tokens@, old(self).pos as int) ==> r is Err && final(self).pos == old(self).pos
                && r->Err_0@ == err_at(old(self).tokens@, old(self).pos as int, "Expected expression"@),
        decreases rem(old(self).tokens@, old(self).pos as int), 20nat,
    {
        proof {
            reveal(g_after_name);
            reveal(g_args);
            reveal(g_block);
            reveal(g_closure);
            reveal(g_expr);
            reveal(g_primary);
            reveal(g_struct_init);
            reveal(g_vec_elems);
        }
        let ghost t = self.tokens@;
        let ghost p = self.pos as int;
        let span = self.current_span();
        // Block expression
        if self.check(TokenKind::LBrace) {
            let block = self.parse_block()?;
            return Ok(Expr::Block(block));
        }
        // Parenthesized expression or unit literal ()
        if self.match_token(TokenKind::LParen) {
            // Check for unit literal ()
            if self.check(TokenKind::RParen) {
                self.advance();
                return Ok(Expr::Literal(Literal::Unit));
            }
            // Check for closure: |params| expr
            if self.check(TokenKind::Pipe) {
                return self.parse_closure(span);
            }
            let expr = self.parse_expr()?;
            self.expect(TokenKind::RParen)?;
            return Ok(Expr::Paren(Box::new(expr)));
        }
        // Closure
        if self.check(TokenKind::Pipe) {
            return self.parse_closure(span);
        }
        // Literal
        if let Some(lit) = self.try_parse_literal() {
            return Ok(Expr::Literal(lit));
        }
        // Vec initialization: vec![...]
        if self.check_ident("vec") {
            self.advance();
            if self.match_token(TokenKind::Not) {
                self.expect(TokenKind::LBracket)?;
                self.skip_newlines();
                let ghost p3 = self.pos as int;
                let mut elements: Vec<Expr> = Vec::new();
                proof {
                    lemma_v_list_expr_empty(elements@);
                }
                if !self.check(TokenKind::RBracket) {
                    let ghost target = g_vec_elems(t, p3, seq![]);
                    assert(err_passes(target, g_primary(t, p)));
                    loop
                        invariant_except_break
                            g_vec_elems(t, self.pos as int, v_list_expr(elements@)) == target,
                        invariant
                            self.wf(),
                            t == old(self).tokens@,
                            p == old(self).pos as int,
                            err_passes(target, g_primary(t, p)),
                            starts_expression(t, p),
                            self.tokens@ == t,
                            p < self.pos,
                        ensures
                            target == Ok::<(Seq<ExprV>, int), ParseErrorV>((v_list_expr(elements@), self.pos as int)),
                        decreases rem(t, self.pos as int),
                    {
                        proof {
                            reveal(g_expr);
                            reveal(g_vec_elems);
                        }
                        let ghost acc = elements@;
                        let x = self.parse_expr()?;
                        proof {
                            lemma_v_list_expr_push(acc, x);
                        }
                        elements.push(x);
                        self.skip_newlines();
                        if !self.match_token(TokenKind::Comma) {
                            break;
                        }
                        self.skip_newlines();
                        // Allow trailing comma
                        if self.check(TokenKind::RBracket) {
                            break;
                        }
                    }
                }
                self.expect(TokenKind::RBracket)?;
                return Ok(Expr::VecInit(VecInitExpr { elements, span }));
            } else {
                // Just identifier "vec"
                return Ok(mk_ident(owned("vec"), span));
            }
        }
        // format! macro (treat as function call)
        if self.check_ident("format") {
            self.advance();
            if self.match_token(TokenKind::Not) {
                self.expect(TokenKind::LParen)?;
                let args = self.parse_args()?;
                self.expect(TokenKind::RParen)?;
                return Ok(mk_call(mk_ident(owned("format"), span), args, span));
            } else {
                return Ok(mk_ident(owned("format"), span));
            }
        }
        // matches! macro
        if self.match_token(TokenKind::Matches) {
            self.expect(TokenKind::LParen)?;
            let args = self.parse_args()?;
            self.expect(TokenKind::RParen)?;
            return Ok(mk_call(mk_ident(owned("matches!"), span), args, span));
        }
        // Self
        if self.match_token(TokenKind::Self_) {
            return Ok(mk_ident(owned("self"), span));
        }
        if self.match_token(TokenKind::SelfType) {
            let name = owned("Self");
            if self.check(TokenKind::LBrace) {
                return self.parse_struct_init(name, span);
            }
            return Ok(mk_ident(name, span));
        }
        // Identifier or struct init
        if let Some(name) = self.try_expect_ident() {
            return self.parse_after_name(name, span);
        }
        // AST node type as identifier
        if let Some(name) = self.try_expect_ast_type() {
            // Check for struct initialization
            if self.check(TokenKind::LBrace) {
                return self.parse_struct_init(name, span);
            }
            // Check for wildcard pattern: TypeName(_)
            if self.check(TokenKind::LParen) {
                self.advance();
                // consume (
                // Check if next token is underscore (as identifier)
                if self.check_ident("_") {
                    self.advance();
                    // consume _
                    self.expect(TokenKind::RParen)?;
                    // Return a struct init with a special marker for wildcard
                    return Ok(mk_wildcard(name, span));
                }
                // Not a wildcard - this is invalid syntax for AST types
                // AST types can only be used with {} or (_), not regular calls
                return Err(
                    ParseError::new(
                        owned(
                            "AST type must be followed by { } for struct pattern or (_) for wildcard",
                        ),
                        self.current_span(),
                    ),
                );
            }
            return Ok(mk_ident(name, span));
        }
        // Type keywords that can be used as path expressions (HashMap::new(), etc.)
        let keyword_path = match self.peek() {
            Some(Token { kind: TokenKind::HashMap, .. }) => Some("HashMap"),
            Some(Token { kind: TokenKind::HashSet, .. }) => Some("HashSet"),
            Some(Token { kind: TokenKind::Vec, .. }) => Some("Vec"),
            Some(Token { kind: TokenKind::Option, .. }) => Some("Option"),
            Some(Token { kind: TokenKind::Result, .. }) => Some("Result"),
            Some(Token { kind: TokenKind::Str, .. }) => Some("String"),
            _ => None,
        };
        if let Some(name) = keyword_path {
            self.advance();
            let name = owned(name);
            if self.check(TokenKind::LBrace) {
                return self.parse_struct_init(name, span);
            }
            return Ok(mk_ident(name, span));
        }
        Err(self.error("Expected expression"))
    }

    /// After a name: a struct literal, a `Name(_)` wildcard, a call, or the name itself.
    #[verifier::spinoff_prover]
    fn parse_after_name(&mut self, name: String, span: Span) -> (r: ParseResult<Expr>)
        requires
            old(self).wf(),
        ensures
            Self::steps(*old(self), *final(self)),
            agrees(r, final(self).pos as int, g_after_name(old(self).tokens@, old(self).pos as int, name@, span), |x: Expr| x@),
        decreases rem(old(self).tokens@, old(self).pos as int), 2nat,
    {
        proof {
            reveal(g_after_name);
            reveal(g_args);
            reveal(g_struct_init);
        }
        // Check for struct initialization or wildcard pattern TypeName(_)
        if self.check(TokenKind::LBrace) {
            return self.parse_struct_init(name, span);
        }
        // Check for wildcard pattern: TypeName(_)
        if self.check(TokenKind::LParen) {
            self.advance();
            // consume (
            // Check if next token is underscore (as identifier)
            if self.check_ident("_") {
                self.advance();
                // consume _
                self.expect(TokenKind::RParen)?;
                // Return a struct init with a special marker for wildcard
                return Ok(mk_wildcard(name, span));
            }
            // Not a wildcard pattern, parse as call
            let mut args: Vec<Expr> = Vec::new();
            proof {
                lemma_v_list_expr_empty(args@);
            }
            if !self.check(TokenKind::RParen) {
                args = self.parse_args()?;
            }
            self.expect(TokenKind::RParen)?;
            return Ok(mk_call(mk_ident(name, span), args, span));
        }
        Ok(mk_ident(name, span))
    }

    /// Parse closure expression
    #[verifier::spinoff_prover]
    #[verifier::rlimit(100)]
    fn parse_closure(&mut self, span: Span) -> (r: ParseResult<Expr>)
        requires
            old(self).wf(),
        ensures
            Self::steps(*old(self), *final(self)),
            r is Ok ==> Self::consumed(*old(self), *final(self)),
            agrees(r, final(self).pos as int, g_closure(old(self).tokens@, old(self).pos as int, span), |x: Expr| x@),
        decreases rem(old(self).tokens@, old(self).pos as int), 18nat,
    {
        proof {
            reveal(g_block);
            reveal(g_closure);
            reveal(g_expr);
        }
        let ghost t = self.tokens@;
        let ghost p = self.pos as int;
        self.expect(TokenKind::Pipe)?;
        let mut params: Vec<String> = Vec::new();
        proof {
            lemma_v_list_string_empty(params@);
        }
        if !self.check(TokenKind::Pipe) {
            let ghost target = g_closure_params(t, self.pos as int, seq![]);
            loop
                invariant_except_break
                    g_closure_params(t, self.pos as int, v_list_string(params@)) == target,
                invariant
                    self.wf(),
                    t == old(self).tokens@,
                    p == old(self).pos as int,
                    err_passes(target, g_closure(t, p, span)),
                    self.tokens@ == t,
                    p < self.pos,
                ensures
                    target == Ok::<(Seq<Seq<char>>, int), ParseErrorV>((v_list_string(params@), self.pos as int)),
                decreases rem(t, self.pos as int),
            {
                let ghost acc = params@;
                let name = self.expect_ident()?;
                proof {
                    lemma_v_list_string_push(acc, name);
                }
                params.push(name);
                if !self.match_token(TokenKind::Comma) {
                    break;
                }
            }
        }
        self.expect(TokenKind::Pipe)?;
        // Closure body can be either an expression or a block
        let body = if self.check(TokenKind::LBrace) {
            let block = self.parse_block()?;
            let body = Expr::Block(block);
            proof {
                assert(body@ == ExprV::Block(block@));
            }
            body
        } else {
            self.parse_expr()?
        };
        Ok(Expr::Closure(ClosureExpr { params, body: Box::new(body), span }))
    }

    /// Parse struct initialization
    #[verifier::spinoff_prover]
    fn parse_struct_init(&mut self, name: String, span: Span) -> (r: ParseResult<Expr>)
        requires
            old(self).wf(),
        ensures
            Self::steps(*old(self), *final(self)),
            r is Ok ==> Self::consumed(*old(self), *final(self)),
            agrees(r, final(self).pos as int, g_struct_init(old(self).tokens@, old(self).pos as int, name@, span), |x: Expr| x@),
        decreases rem(old(self).tokens@, old(self).pos as int), 1nat,
    {
        proof {
            reveal(g_init_fields);
            reveal(g_struct_init);
        }
        let ghost t = self.tokens@;
        let ghost p = self.pos as int;
        self.expect(TokenKind::LBrace)?;
        let mut fields: Vec<(String, Expr)> = Vec::new();
        proof {
            lemma_v_list_string_expr_empty(fields@);
        }
        let ghost target = g_init_fields(t, self.pos as int, seq![]);
        loop
            invariant_except_break
                g_init_fields(t, self.pos as int, v_list_string_expr(fields@)) == target,
            invariant
                self.wf(),
                t == old(self).tokens@,
                p == old(self).pos as int,
                err_passes(target, g_struct_init(t, p, name@, span)),
                self.tokens@ == t,
                p < self.pos,
            ensures
                target == Ok::<(Seq<(Seq<char>, ExprV)>, int), ParseErrorV>(
                    (v_list_string_expr(fields@), self.pos as int),
                ),
            decreases rem(t, self.pos as int),
        {
            proof {
                reveal(g_expr);
                reveal(g_init_fields);
            }
            let ghost acc = fields@;
            self.skip_newlines();
            if self.check(TokenKind::RBrace) {
                break;
            }
            let field_name = self.expect_ident()?;
            self.expect(TokenKind::Colon)?;
            let value = self.parse_expr()?;
            proof {
                lemma_v_list_string_expr_push(acc, (field_name, value));
            }
            fields.push((field_name, value));
            self.skip_newlines();
            if !self.match_token(TokenKind::Comma) {
                break;
            }
        }
        self.expect(TokenKind::RBrace)?;
        Ok(Expr::StructInit(StructInitExpr { name, fields, span }))
    }

    #[verifier::spinoff_prover]
    fn parse_primary_no_struct(&mut self) -> (r: ParseResult<Expr>)
        requires
            old(self).wf(),
        ensures
            Self::steps(*old(self), *final(self)),
            r is Ok ==> Self::consumed(*old(self), *final(self)),
            agrees(r, final(self).pos as int, g_primary_ns(old(self).tokens@, old(self).pos as int), |x: Expr| x@),
        decreases rem(old(self).tokens@, old(self).pos as int), 21nat,
    {
        proof {
            reveal(g_name_postfix);
            reveal(g_primary);
            reveal(g_primary_ns);
            reveal(g_self_members);
        }
        let ghost t = self.tokens@;
        let ghost p = self.pos as int;
        let span = self.current_span();
        // Handle 'self' keyword
        if self.match_token(TokenKind::Self_) {
            let mut expr = mk_ident(owned("self"), span);
            let ghost target = g_self_members(t, self.pos as int, expr@);
            // Handle member access on self
            loop
                invariant_except_break
                    g_self_members(t, self.pos as int, expr@) == target,
                invariant
                    self.wf(),
                    t == old(self).tokens@,
                    p == old(self).pos as int,
                    err_passes(target, g_primary_ns(t, p)),
                    self.tokens@ == t,
                    p < self.pos,
                ensures
                    target == Ok::<(ExprV, int), ParseErrorV>((expr@, self.pos as int)),
                decreases rem(t, self.pos as int),
            {
                proof {
                    reveal(g_self_members);
                }
                if self.match_token(TokenKind::Dot) {
                    let property = self.expect_ident()?;
                    let span = self.current_span();
                    expr = mk_member(expr, property, false, false, span);
                } else {
                    break;
                }
            }
            return Ok(expr);
        }
        // Identifier (no struct init)
        if let Some(name) = self.try_expect_ident() {
            // Don't check for LBrace here - just return the identifier
            let mut expr = mk_ident(name, span);
            let ghost target = g_name_postfix(t, self.pos as int, expr@);
            // Handle postfix operators (member access, calls, etc.) but not struct init
            loop
                invariant_except_break
                    g_name_postfix(t, self.pos as int, expr@) == target,
                invariant
                    self.wf(),
                    t == old(self).tokens@,
                    p == old(self).pos as int,
                    err_passes(target, g_primary_ns(t, p)),
                    self.tokens@ == t,
                    p < self.pos,
                ensures
                    target == Ok::<(ExprV, int), ParseErrorV>((expr@, self.pos as int)),
                decreases rem(t, self.pos as int),
            {
                proof {
                    reveal(g_args);
                    reveal(g_expr);
                    reveal(g_name_postfix);
                }
                if self.match_token(TokenKind::Dot) {
                    let property = self.expect_ident()?;
                    let span = self.current_span();
                    expr = mk_member(expr, property, false, false, span);
                } else if self.match_token(TokenKind::LParen) {
                    let args = self.parse_args()?;
                    self.expect(TokenKind::RParen)?;
                    let span = self.current_span();
                    expr = mk_call(expr, args, span);
                } else if self.match_token(TokenKind::LBracket) {
                    let index = self.parse_expr()?;
                    self.expect(TokenKind::RBracket)?;
                    let span = self.current_span();
                    expr = Expr::Index(IndexExpr { object: Box::new(expr), index: Box::new(index), span });
                } else if self.match_token(TokenKind::ColonColon) {
                    // Path expression like fs::write or HashMap::new
                    let method = self.expect_ident()?;
                    let span = self.current_span();
                    expr = mk_member(expr, method, false, true, span);
                } else {
                    // Don't handle LBrace here - that would be struct init
                    break;
                }
            }
            return Ok(expr);
        }
        // For other cases, delegate to normal parse_primary
        self.parse_primary()
    }
}



impl Parser {
    /// Parse a block
    #[verifier::spinoff_prover]
    fn parse_block(&mut self) -> (r: ParseResult<Block>)
        requires
            old(self).wf(),
        ensures
            Self::steps(*old(self), *final(self)),
            r is Ok ==> Self::consumed(*old(self), *final(self)),
            agrees(r, final(self).pos as int, g_block(old(self).tokens@, old(self).pos as int), |x: Block| x@),
        decreases rem(old(self).tokens@, old(self).pos as int), 19nat,
    {
        proof {
            reveal(g_block);
            reveal(g_block_stmts);
        }
        let ghost t = self.tokens@;
        let ghost p = self.pos as int;
        let start_span = self.current_span();
        self.expect(TokenKind::LBrace)?;
        let mut stmts: Vec<Stmt> = Vec::new();
        proof {
            lemma_v_list_stmt_empty(stmts@);
        }
        let ghost target = g_block_stmts(t, self.pos as int, seq![]);
        loop
            invariant_except_break
                g_block_stmts(t, self.pos as int, v_list_stmt(stmts@)) == target,
            invariant
                self.wf(),
                t == old(self).tokens@,
                p == old(self).pos as int,
                err_passes(target, g_block(t, p)),
                self.tokens@ == t,
                p < self.pos,
            ensures
                target == Ok::<(Seq<StmtV>, int), ParseErrorV>((v_list_stmt(stmts@), self.pos as int)),
            decreases rem(t, self.pos as int),
        {
            proof {
                reveal(g_block_stmts);
                reveal(g_statement);
            }
            let ghost acc = stmts@;
            self.skip_newlines();
            if self.check(TokenKind::RBrace) || self.is_at_end() {
                break;
            }
            let s = self.parse_statement()?;
            proof {
                lemma_v_list_stmt_push(acc, s);
            }
            stmts.push(s);
        }
        self.expect(TokenKind::RBrace)?;
        Ok(Block { stmts, span: start_span })
    }

    /// Parse a statement
    #[verifier::spinoff_prover]
    fn parse_statement(&mut self) -> (r: ParseResult<Stmt>)
        requires
            old(self).wf(),
        ensures
            Self::steps(*old(self), *final(self)),
            r is Ok ==> Self::consumed(*old(self), *final(self)),
            agrees(r, final(self).pos as int, g_statement(old(self).tokens@, old(self).pos as int), |x: Stmt| x@),
        decreases rem(old(self).tokens@, old(self).pos as int), 40nat,
    {
        proof {
            reveal(g_const);
            reveal(g_expr_stmt);
            reveal(g_for);
            reveal(g_if);
            reveal(g_let);
            reveal(g_loop);
            reveal(g_match_stmt);
            reveal(g_return);
            reveal(g_statement);
            reveal(g_traverse);
            reveal(g_while);
        }
        self.skip_newlines();
        if self.check(TokenKind::Let) {
            self.parse_let_stmt()
        } else if self.check(TokenKind::Const) {
            self.parse_const_stmt()
        } else if self.check(TokenKind::If) {
            self.parse_if_stmt()
        } else if self.check(TokenKind::Match) {
            self.parse_match_stmt()
        } else if self.check(TokenKind::For) {
            self.parse_for_stmt()
        } else if self.check(TokenKind::While) {
            self.parse_while_stmt()
        } else if self.check(TokenKind::Loop) {
            self.parse_loop_stmt()
        } else if self.check(TokenKind::Return) {
            self.parse_return_stmt()
        } else if self.check(TokenKind::Break) {
            self.parse_break_stmt()
        } else if self.check(TokenKind::Continue) {
            self.parse_continue_stmt()
        } else if self.check(TokenKind::Traverse) {
            self.parse_traverse_stmt()
        } else {
            self.parse_expr_stmt()
        }
    }

    /// Parse let statement
    #[verifier::spinoff_prover]
    fn parse_let_stmt(&mut self) -> (r: ParseResult<Stmt>)
        requires
            old(self).wf(),
        ensures
            Self::steps(*old(self), *final(self)),
            r is Ok ==> Self::consumed(*old(self), *final(self)),
            agrees(r, final(self).pos as int, g_let(old(self).tokens@, old(self).pos as int), |x: Stmt| x@),
        decreases rem(old(self).tokens@, old(self).pos as int), 39nat,
    {
        proof {
            reveal(g_init);
            reveal(g_let);
        }
        let start_span = self.current_span();
        self.expect(TokenKind::Let)?;
        let mutable = self.match_token(TokenKind::Mut);
        // Parse pattern (supports simple identifiers and tuple destructuring)
        let pattern = self.parse_pattern()?;
        let ty = if self.match_token(TokenKind::Colon) {
            Some(self.parse_type()?)
        } else {
            None
        };
        let init = self.parse_init()?;
        Ok(Stmt::Let(LetStmt { mutable, pattern, ty, init, span: start_span }))
    }

    /// Parse const statement
    #[verifier::spinoff_prover]
    fn parse_const_stmt(&mut self) -> (r: ParseResult<Stmt>)
        requires
            old(self).wf(),
        ensures
            Self::steps(*old(self), *final(self)),
            r is Ok ==> Self::consumed(*old(self), *final(self)),
            agrees(r, final(self).pos as int, g_const(old(self).tokens@, old(self).pos as int), |x: Stmt| x@),
        decreases rem(old(self).tokens@, old(self).pos as int), 39nat,
    {
        proof {
            reveal(g_const);
            reveal(g_init);
        }
        let start_span = self.current_span();
        self.expect(TokenKind::Const)?;
        let name = self.expect_ident()?;
        let ty = if self.match_token(TokenKind::Colon) {
            Some(self.parse_type()?)
        } else {
            None
        };
        let init = self.parse_init()?;
        Ok(Stmt::Const(ConstStmt { name, ty, init, span: start_span }))
    }

    /// Parse if statement
    #[verifier::spinoff_prover]
    fn parse_if_stmt(&mut self) -> (r: ParseResult<Stmt>)
        requires
            old(self).wf(),
        ensures
            Self::steps(*old(self), *final(self)),
            r is Ok ==> Self::consumed(*old(self), *final(self)),
            agrees(r, final(self).pos as int, g_if(old(self).tokens@, old(self).pos as int), |x: Stmt| x@),
        decreases rem(old(self).tokens@, old(self).pos as int), 39nat,
    {
        proof {
            reveal(g_block);
            reveal(g_else_chain);
            reveal(g_expr_ns);
            reveal(g_if);
        }
        let ghost t = self.tokens@;
        let ghost p = self.pos as int;
        let start_span = self.current_span();
        self.expect(TokenKind::If)?;
        // Check for if-let pattern: `if let Pattern = expr`
        let (pattern, condition) = if self.match_token(TokenKind::Let) {
            let pat = self.parse_pattern()?;
            self.expect(TokenKind::Eq)?;
            let expr = self.parse_expr_no_struct()?;
            (Some(pat), expr)
        } else {
            // Use parse_expr_no_struct to avoid ambiguity with block
            (None, self.parse_expr_no_struct()?)
        };
        let then_branch = self.parse_block()?;
        let mut else_if_branches: Vec<(Expr, Block)> = Vec::new();
        let mut else_branch: Option<Block> = None;
        proof {
            lemma_v_list_expr_block_empty(else_if_branches@);
        }
        let ghost target = g_else_chain(t, self.pos as int, seq![]);
        loop
            invariant_except_break
                g_else_chain(t, self.pos as int, v_list_expr_block(else_if_branches@)) == target,
                else_branch is None,
            invariant
                self.wf(),
                t == old(self).tokens@,
                p == old(self).pos as int,
                err_passes(target, g_if(t, p)),
                self.tokens@ == t,
                p < self.pos,
            ensures
                target == Ok::<((Seq<(ExprV, BlockV)>, Option<BlockV>), int), ParseErrorV>(
                    ((v_list_expr_block(else_if_branches@), v_opt_block(else_branch)), self.pos as int),
                ),
            decreases rem(t, self.pos as int),
        {
            proof {
                reveal(g_block);
                reveal(g_else_chain);
                reveal(g_expr_ns);
            }
            if !self.match_token(TokenKind::Else) {
                break;
            }
            if self.match_token(TokenKind::If) {
                // Note: else-if with let not supported yet, just regular condition
                let ghost acc = else_if_branches@;
                let cond = self.parse_expr_no_struct()?;
                let block = self.parse_block()?;
                proof {
                    lemma_v_list_expr_block_push(acc, (cond, block));
                }
                else_if_branches.push((cond, block));
            } else {
                else_branch = Some(self.parse_block()?);
                break;
            }
        }
        Ok(
            Stmt::If(
                IfStmt {
                    condition,
                    pattern,
                    then_branch,
                    else_if_branches,
                    else_branch,
                    span: start_span,
                },
            ),
        )
    }

    /// Parse match statement
    #[verifier::spinoff_prover]
    fn parse_match_stmt(&mut self) -> (r: ParseResult<Stmt>)
        requires
            old(self).wf(),
        ensures
            Self::steps(*old(self), *final(self)),
            r is Ok ==> Self::consumed(*old(self), *final(self)),
            agrees(r, final(self).pos as int, g_match_stmt(old(self).tokens@, old(self).pos as int), |x: Stmt| x@),
        decreases rem(old(self).tokens@, old(self).pos as int), 39nat,
    {
        proof {
            reveal(g_binary);
            reveal(g_match_arms);
            reveal(g_match_stmt);
        }
        let ghost t = self.tokens@;
        let ghost p = self.pos as int;
        let start_span = self.current_span();
        self.expect(TokenKind::Match)?;
        // Parse scrutinee - must not consume the { that starts match arms
        let scrutinee = self.parse_match_scrutinee()?;
        self.expect(TokenKind::LBrace)?;
        let mut arms: Vec<MatchArm> = Vec::new();
        proof {
            lemma_v_list_matcharm_empty(arms@);
        }
        let ghost target = g_match_arms(t, self.pos as int, seq![]);
        loop
            invariant_except_break
                g_match_arms(t, self.pos as int, v_list_matcharm(arms@)) == target,
            invariant
                self.wf(),
                t == old(self).tokens@,
                p == old(self).pos as int,
                err_passes(target, g_match_stmt(t, p)),
                self.tokens@ == t,
                p < self.pos,
            ensures
                target == Ok::<(Seq<MatchArmV>, int), ParseErrorV>((v_list_matcharm(arms@), self.pos as int)),
            decreases rem(t, self.pos as int),
        {
            proof {
                reveal(g_match_arm);
                reveal(g_match_arms);
            }
            let ghost acc = arms@;
            self.skip_newlines();
            if self.check(TokenKind::RBrace) {
                break;
            }
            let arm = self.parse_match_arm()?;
            proof {
                lemma_v_list_matcharm_push(acc, arm);
            }
            arms.push(arm);
        }
        self.expect(TokenKind::RBrace)?;
        Ok(Stmt::Match(MatchStmt { scrutinee, arms, span: start_span }))
    }

    /// Parse match arm
    #[verifier::spinoff_prover]
    fn parse_match_arm(&mut self) -> (r: ParseResult<MatchArm>)
        requires
            old(self).wf(),
        ensures
            Self::steps(*old(self), *final(self)),
            r is Ok ==> Self::consumed(*old(self), *final(self)),
            agrees(r, final(self).pos as int, g_match_arm(old(self).tokens@, old(self).pos as int), |x: MatchArm| x@),
        decreases rem(old(self).tokens@, old(self).pos as int), 0nat,
    {
        proof {
            reveal(g_expr);
            reveal(g_match_arm);
        }
        let start_span = self.current_span();
        let pattern = self.parse_pattern()?;
        self.expect(TokenKind::FatArrow)?;
        let body = self.parse_expr()?;
        // Optional comma
        self.match_token(TokenKind::Comma);
        self.skip_newlines();
        Ok(MatchArm { pattern, body, span: start_span })
    }

    /// Parse for statement
    #[verifier::spinoff_prover]
    fn parse_for_stmt(&mut self) -> (r: ParseResult<Stmt>)
        requires
            old(self).wf(),
        ensures
            Self::steps(*old(self), *final(self)),
            r is Ok ==> Self::consumed(*old(self), *final(self)),
            agrees(r, final(self).pos as int, g_for(old(self).tokens@, old(self).pos as int), |x: Stmt| x@),
        decreases rem(old(self).tokens@, old(self).pos as int), 39nat,
    {
        proof {
            reveal(g_block);
            reveal(g_expr_ns);
            reveal(g_for);
        }
        let start_span = self.current_span();
        self.expect(TokenKind::For)?;
        // Parse pattern (identifier or tuple destructuring)
        let pattern = self.parse_pattern()?;
        self.expect(TokenKind::In)?;
        // Use parse_expr_no_struct to avoid ambiguity with block
        let iter = self.parse_expr_no_struct()?;
        let body = self.parse_block()?;
        Ok(Stmt::For(ForStmt { pattern, iter, body, span: start_span }))
    }

    /// Parse while statement
    #[verifier::spinoff_prover]
    fn parse_while_stmt(&mut self) -> (r: ParseResult<Stmt>)
        requires
            old(self).wf(),
        ensures
            Self::steps(*old(self), *final(self)),
            r is Ok ==> Self::consumed(*old(self), *final(self)),
            agrees(r, final(self).pos as int, g_while(old(self).tokens@, old(self).pos as int), |x: Stmt| x@),
        decreases rem(old(self).tokens@, old(self).pos as int), 39nat,
    {
        proof {
            reveal(g_block);
            reveal(g_expr_ns);
            reveal(g_while);
        }
        let start_span = self.current_span();
        self.expect(TokenKind::While)?;
        // Use parse_expr_no_struct to avoid ambiguity with block
        let condition = self.parse_expr_no_struct()?;
        let body = self.parse_block()?;
        Ok(Stmt::While(WhileStmt { condition, body, span: start_span }))
    }

    /// Parse loop statement
    #[verifier::spinoff_prover]
    fn parse_loop_stmt(&mut self) -> (r: ParseResult<Stmt>)
        requires
            old(self).wf(),
        ensures
            Self::steps(*old(self), *final(self)),
            r is Ok ==> Self::consumed(*old(self), *final(self)),
            agrees(r, final(self).pos as int, g_loop(old(self).tokens@, old(self).pos as int), |x: Stmt| x@),
        decreases rem(old(self).tokens@, old(self).pos as int), 39nat,
    {
        proof {
            reveal(g_block);
            reveal(g_loop);
        }
        let start_span = self.current_span();
        self.expect(TokenKind::Loop)?;
        let body = self.parse_block()?;
        Ok(Stmt::Loop(LoopStmt { body, span: start_span }))
    }

    /// Parse return statement
    #[verifier::spinoff_prover]
    fn parse_return_stmt(&mut self) -> (r: ParseResult<Stmt>)
        requires
            old(self).wf(),
        ensures
            Self::steps(*old(self), *final(self)),
            r is Ok ==> Self::consumed(*old(self), *final(self)),
            agrees(r, final(self).pos as int, g_return(old(self).tokens@, old(self).pos as int), |x: Stmt| x@),
        decreases rem(old(self).tokens@, old(self).pos as int), 39nat,
    {
        proof {
            reveal(g_expr);
            reveal(g_return);
        }
        let start_span = self.current_span();
        self.expect(TokenKind::Return)?;
        let value = if !self.check(TokenKind::Semicolon) && !self.check(TokenKind::Newline) {
            Some(self.parse_expr()?)
        } else {
            None
        };
        self.expect(TokenKind::Semicolon)?;
        Ok(Stmt::Return(ReturnStmt { value, span: start_span }))
    }

    /// Parse break statement
    #[verifier::spinoff_prover]
    fn parse_break_stmt(&mut self) -> (r: ParseResult<Stmt>)
        requires
            old(self).wf(),
        ensures
            Self::steps(*old(self), *final(self)),
            r is Ok ==> Self::consumed(*old(self), *final(self)),
            agrees(r, final(self).pos as int, g_break(old(self).tokens@, old(self).pos as int), |x: Stmt| x@),
    {
        let start_span = self.current_span();
        self.expect(TokenKind::Break)?;
        self.expect(TokenKind::Semicolon)?;
        Ok(Stmt::Break(BreakStmt { span: start_span }))
    }

    /// Parse continue statement
    #[verifier::spinoff_prover]
    fn parse_continue_stmt(&mut self) -> (r: ParseResult<Stmt>)
        requires
            old(self).wf(),
        ensures
            Self::steps(*old(self), *final(self)),
            r is Ok ==> Self::consumed(*old(self), *final(self)),
            agrees(r, final(self).pos as int, g_continue(old(self).tokens@, old(self).pos as int), |x: Stmt| x@),
    {
        let start_span = self.current_span();
        self.expect(TokenKind::Continue)?;
        self.expect(TokenKind::Semicolon)?;
        Ok(Stmt::Continue(ContinueStmt { span: start_span }))
    }

    /// Parse traverse statement
    /// `traverse(node) { ... }` or `traverse(node) capturing [...] { ... }` or `traverse(node) using Visitor;`
    #[verifier::spinoff_prover]
    fn parse_traverse_stmt(&mut self) -> (r: ParseResult<Stmt>)
        requires
            old(self).wf(),
        ensures
            Self::steps(*old(self), *final(self)),
            r is Ok ==> Self::consumed(*old(self), *final(self)),
            agrees(r, final(self).pos as int, g_traverse(old(self).tokens@, old(self).pos as int), |x: Stmt| x@),
        decreases rem(old(self).tokens@, old(self).pos as int), 39nat,
    {
        proof {
            reveal(g_expr);
            reveal(g_traverse);
            reveal(g_traverse_kind);
        }
        let start_span = self.current_span();
        self.expect(TokenKind::Traverse)?;
        self.expect(TokenKind::LParen)?;
        let target = self.parse_expr()?;
        self.expect(TokenKind::RParen)?;
        // Parse optional capturing clause
        let captures = if self.match_token(TokenKind::Capturing) {
            self.parse_capture_list()?
        } else {
            let v: Vec<Capture> = Vec::new();
            proof {
                lemma_v_list_capture_empty(v@);
            }
            v
        };
        let kind = self.parse_traverse_kind()?;
        Ok(Stmt::Traverse(TraverseStmt { target, captures, kind, span: start_span }))
    }

    /// `using Visitor;` or an inline visitor block `{ let ...; fn ... }`.
    #[verifier::spinoff_prover]
    fn parse_traverse_kind(&mut self) -> (r: ParseResult<TraverseKind>)
        requires
            old(self).wf(),
        ensures
            Self::steps(*old(self), *final(self)),
            r is Ok ==> Self::consumed(*old(self), *final(self)),
            agrees(r, final(self).pos as int, g_traverse_kind(old(self).tokens@, old(self).pos as int), |x: TraverseKind| x@),
        decreases rem(old(self).tokens@, old(self).pos as int), 3nat,
    {
        proof {
            reveal(g_inline_items);
            reveal(g_traverse_kind);
        }
        let ghost t = self.tokens@;
        let ghost p = self.pos as int;
        if self.match_token(TokenKind::Using) {
            // Delegated traversal: `traverse(node) using OtherVisitor;`
            let visitor_name = self.expect_ident()?;
            self.expect(TokenKind::Semicolon)?;
            return Ok(TraverseKind::Delegated(visitor_name));
        }
        // Inline traversal: `traverse(node) { ... }`
        let inline_span = self.current_span();
        self.expect(TokenKind::LBrace)?;
        let mut state: Vec<LetStmt> = Vec::new();
        let mut methods: Vec<FnDecl> = Vec::new();
        proof {
            lemma_v_list_letstmt_empty(state@);
            lemma_v_list_fndecl_empty(methods@);
        }
        let ghost target = g_inline_items(t, self.pos as int, seq![], seq![]);
        loop
            invariant_except_break
                g_inline_items(t, self.pos as int, v_list_letstmt(state@), v_list_fndecl(methods@)) == target,
            invariant
                self.wf(),
                t == old(self).tokens@,
                p == old(self).pos as int,
                err_passes(target, g_traverse_kind(t, p)),
                self.tokens@ == t,
                p < self.pos,
            ensures
                target == Ok::<((Seq<LetStmtV>, Seq<FnDeclV>), int), ParseErrorV>(
                    ((v_list_letstmt(state@), v_list_fndecl(methods@)), self.pos as int),
                ),
            decreases rem(t, self.pos as int),
        {
            proof {
                reveal(g_function);
                reveal(g_init);
                reveal(g_inline_items);
            }
            let ghost acc_s = state@;
            let ghost acc_m = methods@;
            self.skip_newlines();
            if self.check(TokenKind::RBrace) {
                break;
            }
            // Parse either let statements (state) or fn declarations (methods)
            if self.check(TokenKind::Let) {
                // Parse let statement for state
                let let_span = self.current_span();
                self.expect(TokenKind::Let)?;
                let mutable = self.match_token(TokenKind::Mut);
                let name = self.expect_ident()?;
                let ty = if self.match_token(TokenKind::Colon) {
                    Some(self.parse_type()?)
                } else {
                    None
                };
                let init = self.parse_init()?;
                let l = LetStmt { mutable, pattern: Pattern::Ident(name), ty, init, span: let_span };
                proof {
                    lemma_v_list_letstmt_push(acc_s, l);
                }
                state.push(l);
            } else if self.check(TokenKind::Fn) || self.check(TokenKind::Pub) {
                // Parse visitor method
                let f = self.parse_function()?;
                proof {
                    lemma_v_list_fndecl_push(acc_m, f);
                }
                methods.push(f);
            } else {
                return Err(self.error("Expected 'let' or 'fn' in traverse block"));
            }
        }
        self.expect(TokenKind::RBrace)?;
        Ok(TraverseKind::Inline(InlineVisitor { state, methods, span: inline_span }))
    }

    /// Parse capture list: `[&mut x, &y, &mut z]`
    #[verifier::spinoff_prover]
    fn parse_capture_list(&mut self) -> (r: ParseResult<Vec<Capture>>)
        requires
            old(self).wf(),
        ensures
            Self::steps(*old(self), *final(self)),
            agrees(r, final(self).pos as int, g_capture_list(old(self).tokens@, old(self).pos as int), |x: Vec<Capture>| v_list_capture(x@)),
    {
        let ghost t = self.tokens@;
        let ghost p = self.pos as int;
        self.expect(TokenKind::LBracket)?;
        let mut captures: Vec<Capture> = Vec::new();
        proof {
            lemma_v_list_capture_empty(captures@);
        }
        let ghost target = g_captures(t, self.pos as int, seq![]);
        loop
            invariant_except_break
                g_captures(t, self.pos as int, v_list_capture(captures@)) == target,
            invariant
                self.wf(),
                t == old(self).tokens@,
                p == old(self).pos as int,
                err_passes(target, g_capture_list(t, p)),
                self.tokens@ == t,
                p < self.pos,
            ensures
                target == Ok::<(Seq<CaptureV>, int), ParseErrorV>((v_list_capture(captures@), self.pos as int)),
            decreases rem(t, self.pos as int),
        {
            let ghost acc = captures@;
            self.skip_newlines();
            if self.check(TokenKind::RBracket) {
                break;
            }
            let capture_span = self.current_span();
            // Expect & for reference
            self.expect(TokenKind::Ampersand)?;
            // Check for mut
            let mutable = self.match_token(TokenKind::Mut);
            // Get variable name
            let name = self.expect_ident()?;
            let c = Capture { name, mutable, span: capture_span };
            proof {
                lemma_v_list_capture_push(acc, c);
            }
            captures.push(c);
            // Check for comma or end
            if !self.match_token(TokenKind::Comma) {
                break;
            }
        }
        self.expect(TokenKind::RBracket)?;
        Ok(captures)
    }

    /// Parse expression statement
    #[verifier::spinoff_prover]
    fn parse_expr_stmt(&mut self) -> (r: ParseResult<Stmt>)
        requires
            old(self).wf(),
        ensures
            Self::steps(*old(self), *final(self)),
            r is Ok ==> Self::consumed(*old(self), *final(self)),
            agrees(r, final(self).pos as int, g_expr_stmt(old(self).tokens@, old(self).pos as int), |x: Stmt| x@),
        decreases rem(old(self).tokens@, old(self).pos as int), 39nat,
    {
        proof {
            reveal(g_expr);
            reveal(g_expr_stmt);
        }
        let start_span = self.current_span();
        let expr = self.parse_expr()?;
        // Semicolon is optional if this is the last expression in a block (before RBrace)
        self.skip_newlines();
        if !self.check(TokenKind::RBrace) {
            self.expect(TokenKind::Semicolon)?;
        } else {
            // Try to consume semicolon if present, but don't require it
            self.match_token(TokenKind::Semicolon);
        }
        Ok(Stmt::Expr(ExprStmt { expr, span: start_span }))
    }
}



impl Parser {
    /// Parse use statement: `use fs;` or `use "./helpers.rsc";` or `use "./helpers.rsc" as h { foo, bar };`
    #[verifier::spinoff_prover]
    fn parse_use_stmt(&mut self) -> (r: ParseResult<UseStmt>)
        requires
            old(self).wf(),
        ensures
            Self::steps(*old(self), *final(self)),
            r is Ok ==> Self::consumed(*old(self), *final(self)),
            agrees(r, final(self).pos as int, g_use_stmt(old(self).tokens@, old(self).pos as int), |x: UseStmt| x@),
    {
        let start_span = self.current_span();
        self.expect(TokenKind::Use)?;
        // Parse module path (string literal for files, identifier for built-ins)
        let path = if self.check(TokenKind::StringLit(String::new())) {
            // File path: use "./helpers.rsc";
            if let Some(Token { kind: TokenKind::StringLit(s), .. }) = self.peek() {
                let path = s.clone();
                self.advance();
                path
            } else {
                return Err(self.error("Expected string literal"));
            }
        } else {
            // Built-in module: use fs;
            self.expect_ident()?
        };
        // Optional: as alias
        let alias = if self.check(TokenKind::As) {
            self.advance();
            Some(self.expect_ident()?)
        } else {
            None
        };
        // Optional: { imports }
        let imports = if self.check(TokenKind::LBrace) {
            self.parse_import_list()?
        } else {
            let none: Vec<String> = Vec::new();
            proof {
                lemma_v_list_string_empty(none@);
            }
            none
        };
        self.expect(TokenKind::Semicolon)?;
        Ok(UseStmt { path, alias, imports, span: start_span })
    }

    /// Parse import list: `{ foo, bar, baz }`
    #[verifier::spinoff_prover]
    fn parse_import_list(&mut self) -> (r: ParseResult<Vec<String>>)
        requires
            old(self).wf(),
        ensures
            Self::steps(*old(self), *final(self)),
            agrees(r, final(self).pos as int, g_import_list(old(self).tokens@, old(self).pos as int), |x: Vec<String>| v_list_string(x@)),
    {
        let ghost t = self.tokens@;
        let ghost p = self.pos as int;
        self.expect(TokenKind::LBrace)?;
        self.skip_newlines();  // Allow newlines after {
        let mut imports: Vec<String> = Vec::new();
        proof {
            lemma_v_list_string_empty(imports@);
        }
        let ghost target = g_import_items(t, self.pos as int, seq![]);
        loop
            invariant_except_break
                g_import_items(t, self.pos as int, v_list_string(imports@)) == target,
            invariant
                self.wf(),
                t == old(self).tokens@,
                p == old(self).pos as int,
                err_passes(target, g_import_list(t, p)),
                self.tokens@ == t,
                p < self.pos,
            ensures
                target == Ok::<(Seq<Seq<char>>, int), ParseErrorV>((v_list_string(imports@), self.pos as int)),
            decreases rem(t, self.pos as int),
        {
            let ghost acc = imports@;
            // Allow trailing commas and empty lists
            if self.check(TokenKind::RBrace) {
                break;
            }
            let name = self.expect_ident()?;
            proof {
                lemma_v_list_string_push(acc, name);
            }
            imports.push(name);
            self.skip_newlines();  // Allow newlines after identifier
            if !self.check(TokenKind::Comma) {
                break;
            }
            self.advance();  // consume comma
            self.skip_newlines();  // Allow newlines after comma
        }
        self.expect(TokenKind::RBrace)?;
        Ok(imports)
    }

    /// Parse plugin declaration
    #[verifier::spinoff_prover]
    fn parse_plugin(&mut self) -> (r: ParseResult<PluginDecl>)
        requires
            old(self).wf(),
        ensures
            Self::steps(*old(self), *final(self)),
            agrees(r, final(self).pos as int, g_plugin(old(self).tokens@, old(self).pos as int), |x: PluginDecl| x@),
    {
        let start_span = self.current_span();
        self.expect(TokenKind::Plugin)?;
        let name = self.expect_ident()?;
        self.expect(TokenKind::LBrace)?;
        let body = self.parse_plugin_body()?;
        self.expect(TokenKind::RBrace)?;
        Ok(PluginDecl { name, body, span: start_span })
    }

    /// Parse module declaration (standalone module without plugin/writer keyword)
    #[verifier::spinoff_prover]
    fn parse_module(&mut self) -> (r: ParseResult<ModuleDecl>)
        requires
            old(self).wf(),
        ensures
            Self::steps(*old(self), *final(self)),
            agrees(r, final(self).pos as int, g_module(old(self).tokens@, old(self).pos as int), |x: ModuleDecl| x@),
    {
        let start_span = self.current_span();
        // Parse module items (functions, structs, enums) until EOF
        let items = self.parse_plugin_body()?;
        Ok(ModuleDecl { items, span: start_span })
    }

    /// Parse writer declaration
    #[verifier::spinoff_prover]
    fn parse_writer(&mut self) -> (r: ParseResult<WriterDecl>)
        requires
            old(self).wf(),
        ensures
            Self::steps(*old(self), *final(self)),
            agrees(r, final(self).pos as int, g_writer(old(self).tokens@, old(self).pos as int), |x: WriterDecl| x@),
    {
        let start_span = self.current_span();
        self.expect(TokenKind::Writer)?;
        let name = self.expect_ident()?;
        self.expect(TokenKind::LBrace)?;
        let body = self.parse_plugin_body()?;
        self.expect(TokenKind::RBrace)?;
        Ok(WriterDecl { name, body, span: start_span })
    }

    /// Parse plugin/writer body items
    #[verifier::spinoff_prover]
    fn parse_plugin_body(&mut self) -> (r: ParseResult<Vec<PluginItem>>)
        requires
            old(self).wf(),
        ensures
            Self::steps(*old(self), *final(self)),
            agrees(
                r,
                final(self).pos as int,
                g_plugin_body(old(self).tokens@, old(self).pos as int, seq![]),
                |x: Vec<PluginItem>| v_list_pluginitem(x@),
            ),
    {
        let ghost t = self.tokens@;
        let ghost p = self.pos as int;
        let mut items: Vec<PluginItem> = Vec::new();
        proof {
            lemma_v_list_pluginitem_empty(items@);
        }
        let ghost target = g_plugin_body(t, p, seq![]);
        loop
            invariant_except_break
                g_plugin_body(t, self.pos as int, v_list_pluginitem(items@)) == target,
            invariant
                self.wf(),
                t == old(self).tokens@,
                p == old(self).pos as int,
                target == g_plugin_body(t, p, seq![]),
                self.tokens@ == t,
                p <= self.pos,
            ensures
                target == Ok::<(Seq<PluginItemV>, int), ParseErrorV>((v_list_pluginitem(items@), self.pos as int)),
            decreases rem(t, self.pos as int),
        {
            let ghost acc = items@;
            self.skip_newlines();
            if self.check(TokenKind::RBrace) || self.is_at_end() {
                break;
            }
            let item = if self.check(TokenKind::Struct) {
                PluginItem::Struct(self.parse_struct()?)
            } else if self.check(TokenKind::Enum) {
                PluginItem::Enum(self.parse_enum()?)
            } else if self.check(TokenKind::Fn) || self.check(TokenKind::Pub) {
                PluginItem::Function(self.parse_function()?)
            } else if self.check(TokenKind::Impl) {
                PluginItem::Impl(self.parse_impl()?)
            } else {
                return Err(self.error("Expected struct, enum, fn, or impl"));
            };
            proof {
                lemma_v_list_pluginitem_push(acc, item);
            }
            items.push(item);
        }
        Ok(items)
    }

    /// Parse struct declaration
    #[verifier::spinoff_prover]
    fn parse_struct(&mut self) -> (r: ParseResult<StructDecl>)
        requires
            old(self).wf(),
        ensures
            Self::steps(*old(self), *final(self)),
            r is Ok ==> Self::consumed(*old(self), *final(self)),
            agrees(r, final(self).pos as int, g_struct(old(self).tokens@, old(self).pos as int), |x: StructDecl| x@),
    {
        let ghost t = self.tokens@;
        let ghost p = self.pos as int;
        let start_span = self.current_span();
        self.expect(TokenKind::Struct)?;
        let name = self.expect_ident()?;
        self.expect(TokenKind::LBrace)?;
        let mut fields: Vec<StructField> = Vec::new();
        proof {
            lemma_v_list_structfield_empty(fields@);
        }
        let ghost target = g_struct_fields(t, self.pos as int, seq![]);
        loop
            invariant_except_break
                g_struct_fields(t, self.pos as int, v_list_structfield(fields@)) == target,
            invariant
                self.wf(),
                t == old(self).tokens@,
                p == old(self).pos as int,
                err_passes(target, g_struct(t, p)),
                self.tokens@ == t,
                p < self.pos,
            ensures
                target == Ok::<(Seq<StructFieldV>, int), ParseErrorV>((v_list_structfield(fields@), self.pos as int)),
            decreases rem(t, self.pos as int),
        {
            let ghost acc = fields@;
            self.skip_newlines();
            if self.check(TokenKind::RBrace) {
                break;
            }
            let field_span = self.current_span();
            let field_name = self.expect_ident()?;
            self.expect(TokenKind::Colon)?;
            let ty = self.parse_type()?;
            let field = StructField { name: field_name, ty, span: field_span };
            proof {
                lemma_v_list_structfield_push(acc, field);
            }
            fields.push(field);
            self.skip_newlines();
            if !self.check(TokenKind::RBrace) {
                self.expect(TokenKind::Comma)?;
            }
        }
        self.expect(TokenKind::RBrace)?;
        Ok(StructDecl { name, fields, span: start_span })
    }

    /// The optional tuple fields of an enum variant: `(T1, T2, ...)`.
    #[verifier::spinoff_prover]
    fn parse_variant_fields(&mut self) -> (r: ParseResult<Option<Vec<Type>>>)
        requires
            old(self).wf(),
        ensures
            Self::steps(*old(self), *final(self)),
            agrees(r, final(self).pos as int, g_variant_fields(old(self).tokens@, old(self).pos as int), |x: Option<Vec<Type>>| v_opt_vec_type(x)),
    {
        let ghost t = self.tokens@;
        let ghost p = self.pos as int;
        if self.check(TokenKind::LParen) {
            self.advance();
            let mut types: Vec<Type> = Vec::new();
            proof {
                lemma_v_list_type_empty(types@);
            }
            if !self.check(TokenKind::RParen) {
                let first = self.parse_type()?;
                proof {
                    lemma_v_list_type_push(types@, first);
                }
                types.push(first);
                let ghost target = g_more_types(t, self.pos as int, v_list_type(types@));
                while self.match_token(TokenKind::Comma)
                    invariant
                        self.wf(),
                        t == old(self).tokens@,
                        p == old(self).pos as int,
                        err_passes(target, g_variant_fields(t, p)),
                        self.tokens@ == t,
                        p < self.pos,
                        g_more_types(t, self.pos as int, v_list_type(types@)) == target,
                    decreases rem(t, self.pos as int),
                {
                    let ghost acc = types@;
                    let ty = self.parse_type()?;
                    proof {
                        lemma_v_list_type_push(acc, ty);
                    }
                    types.push(ty);
                }
            }
            self.expect(TokenKind::RParen)?;
            Ok(Some(types))
        } else {
            Ok(None)
        }
    }

    /// Parse enum declaration
    #[verifier::spinoff_prover]
    fn parse_enum(&mut self) -> (r: ParseResult<EnumDecl>)
        requires
            old(self).wf(),
        ensures
            Self::steps(*old(self), *final(self)),
            r is Ok ==> Self::consumed(*old(self), *final(self)),
            agrees(r, final(self).pos as int, g_enum(old(self).tokens@, old(self).pos as int), |x: EnumDecl| x@),
    {
        let ghost t = self.tokens@;
        let ghost p = self.pos as int;
        let start_span = self.current_span();
        self.expect(TokenKind::Enum)?;
        let name = self.expect_ident()?;
        self.expect(TokenKind::LBrace)?;
        let mut variants: Vec<EnumVariant> = Vec::new();
        proof {
            lemma_v_list_enumvariant_empty(variants@);
        }
        let ghost target = g_enum_variants(t, self.pos as int, seq![]);
        loop
            invariant_except_break
                g_enum_variants(t, self.pos as int, v_list_enumvariant(variants@)) == target,
            invariant
                self.wf(),
                t == old(self).tokens@,
                p == old(self).pos as int,
                err_passes(target, g_enum(t, p)),
                self.tokens@ == t,
                p < self.pos,
            ensures
                target == Ok::<(Seq<EnumVariantV>, int), ParseErrorV>((v_list_enumvariant(variants@), self.pos as int)),
            decreases rem(t, self.pos as int),
        {
            let ghost acc = variants@;
            self.skip_newlines();
            if self.check(TokenKind::RBrace) {
                break;
            }
            let variant_span = self.current_span();
            let variant_name = self.expect_ident()?;
            let fields = self.parse_variant_fields()?;
            let variant = EnumVariant { name: variant_name, fields, span: variant_span };
            proof {
                lemma_v_list_enumvariant_push(acc, variant);
            }
            variants.push(variant);
            self.skip_newlines();
            if !self.check(TokenKind::RBrace) {
                self.expect(TokenKind::Comma)?;
            }
        }
        self.expect(TokenKind::RBrace)?;
        Ok(EnumDecl { name, variants, span: start_span })
    }

    /// Parse `= init ;` at the end of a binding.
    #[verifier::spinoff_prover]
    fn parse_init(&mut self) -> (r: ParseResult<Expr>)
        requires
            old(self).wf(),
        ensures
            Self::steps(*old(self), *final(self)),
            r is Ok ==> Self::consumed(*old(self), *final(self)),
            agrees(r, final(self).pos as int, g_init(old(self).tokens@, old(self).pos as int), |x: Expr| x@),
        decreases rem(old(self).tokens@, old(self).pos as int), 0nat,
    {
        proof {
            reveal(g_expr);
            reveal(g_init);
        }
        self.expect(TokenKind::Eq)?;
        let init = self.parse_expr()?;
        self.expect(TokenKind::Semicolon)?;
        Ok(init)
    }

    /// Parse function declaration
    #[verifier::spinoff_prover]
    fn parse_function(&mut self) -> (r: ParseResult<FnDecl>)
        requires
            old(self).wf(),
        ensures
            Self::steps(*old(self), *final(self)),
            r is Ok ==> Self::consumed(*old(self), *final(self)),
            agrees(r, final(self).pos as int, g_function(old(self).tokens@, old(self).pos as int), |x: FnDecl| x@),
        decreases rem(old(self).tokens@, old(self).pos as int), 1nat,
    {
        proof {
            reveal(g_block);
            reveal(g_function);
        }
        let start_span = self.current_span();
        let is_pub = self.match_token(TokenKind::Pub);
        self.expect(TokenKind::Fn)?;
        let name = self.expect_ident()?;
        self.expect(TokenKind::LParen)?;
        let params = self.parse_params()?;
        self.expect(TokenKind::RParen)?;
        let return_type = if self.match_token(TokenKind::Arrow) {
            Some(self.parse_type()?)
        } else {
            None
        };
        let body = self.parse_block()?;
        Ok(FnDecl { is_pub, name, params, return_type, body, span: start_span })
    }

    /// Parse function parameters
    #[verifier::spinoff_prover]
    fn parse_params(&mut self) -> (r: ParseResult<Vec<Param>>)
        requires
            old(self).wf(),
        ensures
            Self::steps(*old(self), *final(self)),
            agrees(r, final(self).pos as int, g_params(old(self).tokens@, old(self).pos as int), |x: Vec<Param>| v_list_param(x@)),
    {
        let ghost t = self.tokens@;
        let ghost p = self.pos as int;
        let mut params: Vec<Param> = Vec::new();
        proof {
            lemma_v_list_param_empty(params@);
        }
        if self.check(TokenKind::RParen) {
            return Ok(params);
        }
        let ghost target = g_params_loop(t, p, seq![]);
        loop
            invariant_except_break
                g_params_loop(t, self.pos as int, v_list_param(params@)) == target,
            invariant
                self.wf(),
                t == old(self).tokens@,
                p == old(self).pos as int,
                target == g_params(t, p),
                self.tokens@ == t,
                p <= self.pos,
            ensures
                target == Ok::<(Seq<ParamV>, int), ParseErrorV>((v_list_param(params@), self.pos as int)),
            decreases rem(t, self.pos as int),
        {
            let ghost acc = params@;
            let ghost q0 = self.pos as int;
            let param_span = self.current_span();
            // Check for 'mut self' parameter
            let mut_self = self.check(TokenKind::Mut) && self.tokens.len() - self.pos > 1 && match self.tokens[self.pos + 1].kind {
                TokenKind::Self_ => true,
                _ => false,
            };
            let param = if mut_self {
                self.advance();  // consume 'mut'
                self.advance();  // consume 'self'
                // mut self consumes Self
                Param { name: owned("self"), ty: Type::Named(owned("Self")), span: param_span }
            } else if self.check(TokenKind::Self_) {
                // Just 'self' - consuming parameter
                self.advance();
                Param { name: owned("self"), ty: Type::Named(owned("Self")), span: param_span }
            } else if self.check(TokenKind::Ampersand) {
                // Check for &self or &mut self
                self.advance();  // consume &
                let is_mut = self.match_token(TokenKind::Mut);
                if self.check(TokenKind::Self_) {
                    self.advance();  // consume 'self'
                    let self_ty = Type::Named(owned("Self"));
                    proof {
                        assert(self_ty@ == self_type());
                    }
                    Param {
                        name: owned("self"),
                        ty: Type::Reference { mutable: is_mut, inner: Box::new(self_ty) },
                        span: param_span,
                    }
                } else {
                    // Not a self parameter - this is an error
                    // RustScript doesn't support &param syntax, only param: &Type
                    return Err(self.error("Unexpected '&' - use 'param: &Type' syntax instead"));
                }
            } else {
                // Regular parameter: name: Type
                let name = self.expect_ident()?;
                self.expect(TokenKind::Colon)?;
                let ty = self.parse_type()?;
                Param { name, ty, span: param_span }
            };
            proof {
                assert(g_param(t, q0) == Ok::<(ParamV, int), ParseErrorV>((param@, self.pos as int)));
                lemma_v_list_param_push(acc, param);
            }
            params.push(param);
            if !self.match_token(TokenKind::Comma) {
                break;
            }
        }
        Ok(params)
    }

    /// Parse impl block
    #[verifier::spinoff_prover]
    fn parse_impl(&mut self) -> (r: ParseResult<ImplBlock>)
        requires
            old(self).wf(),
        ensures
            Self::steps(*old(self), *final(self)),
            r is Ok ==> Self::consumed(*old(self), *final(self)),
            agrees(r, final(self).pos as int, g_impl(old(self).tokens@, old(self).pos as int), |x: ImplBlock| x@),
    {
        let ghost t = self.tokens@;
        let ghost p = self.pos as int;
        let start_span = self.current_span();
        self.expect(TokenKind::Impl)?;
        let target_name = self.expect_ident()?;
        self.expect(TokenKind::LBrace)?;
        let mut items: Vec<FnDecl> = Vec::new();
        proof {
            lemma_v_list_fndecl_empty(items@);
        }
        let ghost target = g_impl_items(t, self.pos as int, seq![]);
        loop
            invariant_except_break
                g_impl_items(t, self.pos as int, v_list_fndecl(items@)) == target,
            invariant
                self.wf(),
                t == old(self).tokens@,
                p == old(self).pos as int,
                err_passes(target, g_impl(t, p)),
                self.tokens@ == t,
                p < self.pos,
            ensures
                target == Ok::<(Seq<FnDeclV>, int), ParseErrorV>((v_list_fndecl(items@), self.pos as int)),
            decreases rem(t, self.pos as int),
        {
            let ghost acc = items@;
            self.skip_newlines();
            if self.check(TokenKind::RBrace) {
                break;
            }
            let f = self.parse_function()?;
            proof {
                lemma_v_list_fndecl_push(acc, f);
            }
            items.push(f);
        }
        self.expect(TokenKind::RBrace)?;
        Ok(ImplBlock { target: target_name, items, span: start_span })
    }
}



impl Parser {
    /// Parse a complete program.
    #[verifier::spinoff_prover]
    pub fn parse(&mut self) -> (r: ParseResult<Program>)
        requires
            old(self).wf(),
        ensures
            final(self).wf(),
            final(self).tokens_view() == old(self).tokens_view(),
            agrees(
                r,
                final(self).position(),
                g_program(old(self).tokens_view(), old(self).position()),
                |x: Program| x@,
            ),
    {
        self.skip_newlines();
        let start_span = self.current_span();
        let ghost t = self.tokens@;
        let ghost p = self.pos as int;
        let mut uses = Vec::new();
        proof {
            lemma_v_list_usestmt_empty(uses@);
        }
        while self.check(TokenKind::Use)
            invariant
                self.wf(),
                self.tokens@ == t,
                t == old(self).tokens@,
                p == skip_nl(t, old(self).pos as int),
                p <= self.pos,
                g_uses(t, self.pos as int, v_list_usestmt(uses@)) == g_uses(t, p, seq![]),
            decreases rem(t, self.pos as int),
        {
            let ghost p0 = self.pos as int;
            let ghost acc = uses@;
            let u = self.parse_use_stmt()?;
            self.skip_newlines();
            proof {
                lemma_v_list_usestmt_push(acc, u);
            }
            uses.push(u);
        }
        let decl = if self.check(TokenKind::Plugin) {
            TopLevelDecl::Plugin(self.parse_plugin()?)
        } else if self.check(TokenKind::Writer) {
            TopLevelDecl::Writer(self.parse_writer()?)
        } else {
            TopLevelDecl::Module(self.parse_module()?)
        };
        Ok(Program { uses, decl, span: start_span })
    }

}

} // verus!
