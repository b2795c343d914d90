//! Tokens as the parser reads them: kinds, source spans and the tokens themselves.

use vstd::prelude::*;

verus! {

/// A region of source text: byte offsets and the line and column where it starts.
#[derive(Clone, Copy, Debug, PartialEq, Eq, Structural)]
pub struct Span {
    pub start: usize,
    pub end: usize,
    pub line: usize,
    pub column: usize,
}

impl Span {
    /// A span with the given offsets, line and column.
    pub fn new(start: usize, end: usize, line: usize, column: usize) -> (r: Span)
        ensures
            r == (Span { start, end, line, column }),
    {
        Span { start, end, line, column }
    }
}

/// A token: its kind and where it stands in the source.
#[derive(Clone, Debug)]
pub struct Token {
    pub kind: TokenKind,
    pub span: Span,
}

/// The kind of a token, with the text it carries where it carries any.
/// A float literal keeps its source text.
#[derive(Clone, Debug)]
pub enum TokenKind {
    Plugin,
    Writer,
    Fn,
    Let,
    Const,
    If,
    Else,
    Match,
    Return,
    True,
    False,
    Null,
    For,
    In,
    While,
    Loop,
    Break,
    Continue,
    Struct,
    Enum,
    Impl,
    Use,
    Pub,
    Mut,
    Self_,
    SelfType,
    Traverse,
    Using,
    Capturing,
    As,
    Matches,
    Str,
    Bool,
    I32,
    U32,
    F64,
    Vec,
    Option,
    Result,
    HashMap,
    HashSet,
    CodeBuilder,
    Program,
    FunctionDeclaration,
    VariableDeclaration,
    ExpressionStatement,
    ReturnStatement,
    IfStatement,
    ForStatement,
    WhileStatement,
    BlockStatement,
    Identifier,
    Literal,
    BinaryExpression,
    UnaryExpression,
    CallExpression,
    MemberExpression,
    ArrayExpression,
    ObjectExpression,
    JSXElement,
    JSXFragment,
    JSXAttribute,
    JSXText,
    JSXExpressionContainer,
    Plus,
    Minus,
    Star,
    Slash,
    Percent,
    EqEq,
    NotEq,
    Lt,
    Gt,
    LtEq,
    GtEq,
    And,
    Or,
    Not,
    Eq,
    PlusEq,
    MinusEq,
    StarEq,
    SlashEq,
    Ampersand,
    Pipe,
    Dot,
    ColonColon,
    Colon,
    Semicolon,
    Comma,
    Arrow,
    FatArrow,
    Question,
    QuestionDot,
    DotDot,
    DotDotDot,
    LParen,
    RParen,
    LBrace,
    RBrace,
    LBracket,
    RBracket,
    Newline,
    Eof,
    Ident(String),
    StringLit(String),
    IntLit(i64),
    FloatLit(String),
    Comment(String),
    DocComment(String),
}

impl TokenKind {
    /// A number that names the variant alone, whatever it carries.
    pub open spec fn spec_tag(&self) -> u8 {
        match self {
            TokenKind::Plugin => 0,
            TokenKind::Writer => 1,
            TokenKind::Fn => 2,
            TokenKind::Let => 3,
            TokenKind::Const => 4,
            TokenKind::If => 5,
            TokenKind::Else => 6,
            TokenKind::Match => 7,
            TokenKind::Return => 8,
            TokenKind::True => 9,
            TokenKind::False => 10,
            TokenKind::Null => 11,
            TokenKind::For => 12,
            TokenKind::In => 13,
            TokenKind::While => 14,
            TokenKind::Loop => 15,
            TokenKind::Break => 16,
            TokenKind::Continue => 17,
            TokenKind::Struct => 18,
            TokenKind::Enum => 19,
            TokenKind::Impl => 20,
            TokenKind::Use => 21,
            TokenKind::Pub => 22,
            TokenKind::Mut => 23,
            TokenKind::Self_ => 24,
            TokenKind::SelfType => 25,
            TokenKind::Traverse => 26,
            TokenKind::Using => 27,
            TokenKind::Capturing => 28,
            TokenKind::As => 29,
            TokenKind::Matches => 30,
            TokenKind::Str => 31,
            TokenKind::Bool => 32,
            TokenKind::I32 => 33,
            TokenKind::U32 => 34,
            TokenKind::F64 => 35,
            TokenKind::Vec => 36,
            TokenKind::Option => 37,
            TokenKind::Result => 38,
            TokenKind::HashMap => 39,
            TokenKind::HashSet => 40,
            TokenKind::CodeBuilder => 41,
            TokenKind::Program => 42,
            TokenKind::FunctionDeclaration => 43,
            TokenKind::VariableDeclaration => 44,
            TokenKind::ExpressionStatement => 45,
            TokenKind::ReturnStatement => 46,
            TokenKind::IfStatement => 47,
            TokenKind::ForStatement => 48,
            TokenKind::WhileStatement => 49,
            TokenKind::BlockStatement => 50,
            TokenKind::Identifier => 51,
            TokenKind::Literal => 52,
            TokenKind::BinaryExpression => 53,
            TokenKind::UnaryExpression => 54,
            TokenKind::CallExpression => 55,
            TokenKind::MemberExpression => 56,
            TokenKind::ArrayExpression => 57,
            TokenKind::ObjectExpression => 58,
            TokenKind::JSXElement => 59,
            TokenKind::JSXFragment => 60,
            TokenKind::JSXAttribute => 61,
            TokenKind::JSXText => 62,
            TokenKind::JSXExpressionContainer => 63,
            TokenKind::Plus => 64,
            TokenKind::Minus => 65,
            TokenKind::Star => 66,
            TokenKind::Slash => 67,
            TokenKind::Percent => 68,
            TokenKind::EqEq => 69,
            TokenKind::NotEq => 70,
            TokenKind::Lt => 71,
            TokenKind::Gt => 72,
            TokenKind::LtEq => 73,
            TokenKind::GtEq => 74,
            TokenKind::And => 75,
            TokenKind::Or => 76,
            TokenKind::Not => 77,
            TokenKind::Eq => 78,
            TokenKind::PlusEq => 79,
            TokenKind::MinusEq => 80,
            TokenKind::StarEq => 81,
            TokenKind::SlashEq => 82,
            TokenKind::Ampersand => 83,
            TokenKind::Pipe => 84,
            TokenKind::Dot => 85,
            TokenKind::ColonColon => 86,
            TokenKind::Colon => 87,
            TokenKind::Semicolon => 88,
            TokenKind::Comma => 89,
            TokenKind::Arrow => 90,
            TokenKind::FatArrow => 91,
            TokenKind::Question => 92,
            TokenKind::QuestionDot => 93,
            TokenKind::DotDot => 94,
            TokenKind::DotDotDot => 95,
            TokenKind::LParen => 96,
            TokenKind::RParen => 97,
            TokenKind::LBrace => 98,
            TokenKind::RBrace => 99,
            TokenKind::LBracket => 100,
            TokenKind::RBracket => 101,
            TokenKind::Newline => 102,
            TokenKind::Eof => 103,
            TokenKind::Ident(_) => 104,
            TokenKind::StringLit(_) => 105,
            TokenKind::IntLit(_) => 106,
            TokenKind::FloatLit(_) => 107,
            TokenKind::Comment(_) => 108,
            TokenKind::DocComment(_) => 109,
        }
    }

    /// The variant's number, as [`TokenKind::spec_tag`] gives it.
    pub fn tag(&self) -> (r: u8)
        ensures
            r == self.spec_tag(),
    {
        match self {
            TokenKind::Plugin => 0,
            TokenKind::Writer => 1,
            TokenKind::Fn => 2,
            TokenKind::Let => 3,
            TokenKind::Const => 4,
            TokenKind::If => 5,
            TokenKind::Else => 6,
            TokenKind::Match => 7,
            TokenKind::Return => 8,
            TokenKind::True => 9,
            TokenKind::False => 10,
            TokenKind::Null => 11,
            TokenKind::For => 12,
            TokenKind::In => 13,
            TokenKind::While => 14,
            TokenKind::Loop => 15,
            TokenKind::Break => 16,
            TokenKind::Continue => 17,
            TokenKind::Struct => 18,
            TokenKind::Enum => 19,
            TokenKind::Impl => 20,
            TokenKind::Use => 21,
            TokenKind::Pub => 22,
            TokenKind::Mut => 23,
            TokenKind::Self_ => 24,
            TokenKind::SelfType => 25,
            TokenKind::Traverse => 26,
            TokenKind::Using => 27,
            TokenKind::Capturing => 28,
            TokenKind::As => 29,
            TokenKind::Matches => 30,
            TokenKind::Str => 31,
            TokenKind::Bool => 32,
            TokenKind::I32 => 33,
            TokenKind::U32 => 34,
            TokenKind::F64 => 35,
            TokenKind::Vec => 36,
            TokenKind::Option => 37,
            TokenKind::Result => 38,
            TokenKind::HashMap => 39,
            TokenKind::HashSet => 40,
            TokenKind::CodeBuilder => 41,
            TokenKind::Program => 42,
            TokenKind::FunctionDeclaration => 43,
            TokenKind::VariableDeclaration => 44,
            TokenKind::ExpressionStatement => 45,
            TokenKind::ReturnStatement => 46,
            TokenKind::IfStatement => 47,
            TokenKind::ForStatement => 48,
            TokenKind::WhileStatement => 49,
            TokenKind::BlockStatement => 50,
            TokenKind::Identifier => 51,
            TokenKind::Literal => 52,
            TokenKind::BinaryExpression => 53,
            TokenKind::UnaryExpression => 54,
            TokenKind::CallExpression => 55,
            TokenKind::MemberExpression => 56,
            TokenKind::ArrayExpression => 57,
            TokenKind::ObjectExpression => 58,
            TokenKind::JSXElement => 59,
            TokenKind::JSXFragment => 60,
            TokenKind::JSXAttribute => 61,
            TokenKind::JSXText => 62,
            TokenKind::JSXExpressionContainer => 63,
            TokenKind::Plus => 64,
            TokenKind::Minus => 65,
            TokenKind::Star => 66,
            TokenKind::Slash => 67,
            TokenKind::Percent => 68,
            TokenKind::EqEq => 69,
            TokenKind::NotEq => 70,
            TokenKind::Lt => 71,
            TokenKind::Gt => 72,
            TokenKind::LtEq => 73,
            TokenKind::GtEq => 74,
            TokenKind::And => 75,
            TokenKind::Or => 76,
            TokenKind::Not => 77,
            TokenKind::Eq => 78,
            TokenKind::PlusEq => 79,
            TokenKind::MinusEq => 80,
            TokenKind::StarEq => 81,
            TokenKind::SlashEq => 82,
            TokenKind::Ampersand => 83,
            TokenKind::Pipe => 84,
            TokenKind::Dot => 85,
            TokenKind::ColonColon => 86,
            TokenKind::Colon => 87,
            TokenKind::Semicolon => 88,
            TokenKind::Comma => 89,
            TokenKind::Arrow => 90,
            TokenKind::FatArrow => 91,
            TokenKind::Question => 92,
            TokenKind::QuestionDot => 93,
            TokenKind::DotDot => 94,
            TokenKind::DotDotDot => 95,
            TokenKind::LParen => 96,
            TokenKind::RParen => 97,
            TokenKind::LBrace => 98,
            TokenKind::RBrace => 99,
            TokenKind::LBracket => 100,
            TokenKind::RBracket => 101,
            TokenKind::Newline => 102,
            TokenKind::Eof => 103,
            TokenKind::Ident(_) => 104,
            TokenKind::StringLit(_) => 105,
            TokenKind::IntLit(_) => 106,
            TokenKind::FloatLit(_) => 107,
            TokenKind::Comment(_) => 108,
            TokenKind::DocComment(_) => 109,
        }
    }
}

/// The variant name of the kind with the given number.
pub open spec fn spec_tag_name(t: u8) -> &'static str {
    match t {
        0 => "Plugin",
        1 => "Writer",
        2 => "Fn",
        3 => "Let",
        4 => "Const",
        5 => "If",
        6 => "Else",
        7 => "Match",
        8 => "Return",
        9 => "True",
        10 => "False",
        11 => "Null",
        12 => "For",
        13 => "In",
        14 => "While",
        15 => "Loop",
        16 => "Break",
        17 => "Continue",
        18 => "Struct",
        19 => "Enum",
        20 => "Impl",
        21 => "Use",
        22 => "Pub",
        23 => "Mut",
        24 => "Self_",
        25 => "SelfType",
        26 => "Traverse",
        27 => "Using",
        28 => "Capturing",
        29 => "As",
        30 => "Matches",
        31 => "Str",
        32 => "Bool",
        33 => "I32",
        34 => "U32",
        35 => "F64",
        36 => "Vec",
        37 => "Option",
        38 => "Result",
        39 => "HashMap",
        40 => "HashSet",
        41 => "CodeBuilder",
        42 => "Program",
        43 => "FunctionDeclaration",
        44 => "VariableDeclaration",
        45 => "ExpressionStatement",
        46 => "ReturnStatement",
        47 => "IfStatement",
        48 => "ForStatement",
        49 => "WhileStatement",
        50 => "BlockStatement",
        51 => "Identifier",
        52 => "Literal",
        53 => "BinaryExpression",
        54 => "UnaryExpression",
        55 => "CallExpression",
        56 => "MemberExpression",
        57 => "ArrayExpression",
        58 => "ObjectExpression",
        59 => "JSXElement",
        60 => "JSXFragment",
        61 => "JSXAttribute",
        62 => "JSXText",
        63 => "JSXExpressionContainer",
        64 => "Plus",
        65 => "Minus",
        66 => "Star",
        67 => "Slash",
        68 => "Percent",
        69 => "EqEq",
        70 => "NotEq",
        71 => "Lt",
        72 => "Gt",
        73 => "LtEq",
        74 => "GtEq",
        75 => "And",
        76 => "Or",
        77 => "Not",
        78 => "Eq",
        79 => "PlusEq",
        80 => "MinusEq",
        81 => "StarEq",
        82 => "SlashEq",
        83 => "Ampersand",
        84 => "Pipe",
        85 => "Dot",
        86 => "ColonColon",
        87 => "Colon",
        88 => "Semicolon",
        89 => "Comma",
        90 => "Arrow",
        91 => "FatArrow",
        92 => "Question",
        93 => "QuestionDot",
        94 => "DotDot",
        95 => "DotDotDot",
        96 => "LParen",
        97 => "RParen",
        98 => "LBrace",
        99 => "RBrace",
        100 => "LBracket",
        101 => "RBracket",
        102 => "Newline",
        103 => "Eof",
        104 => "Ident",
        105 => "StringLit",
        106 => "IntLit",
        107 => "FloatLit",
        108 => "Comment",
        109 => "DocComment",
        _ => "Unknown",
    }
}

/// The variant name of the kind with the given number, as [`spec_tag_name`] gives it.
pub fn tag_name(t: u8) -> (r: &'static str)
    ensures
        r == spec_tag_name(t),
{
    match t {
        0 => "Plugin",
        1 => "Writer",
        2 => "Fn",
        3 => "Let",
        4 => "Const",
        5 => "If",
        6 => "Else",
        7 => "Match",
        8 => "Return",
        9 => "True",
        10 => "False",
        11 => "Null",
        12 => "For",
        13 => "In",
        14 => "While",
        15 => "Loop",
        16 => "Break",
        17 => "Continue",
        18 => "Struct",
        19 => "Enum",
        20 => "Impl",
        21 => "Use",
        22 => "Pub",
        23 => "Mut",
        24 => "Self_",
        25 => "SelfType",
        26 => "Traverse",
        27 => "Using",
        28 => "Capturing",
        29 => "As",
        30 => "Matches",
        31 => "Str",
        32 => "Bool",
        33 => "I32",
        34 => "U32",
        35 => "F64",
        36 => "Vec",
        37 => "Option",
        38 => "Result",
        39 => "HashMap",
        40 => "HashSet",
        41 => "CodeBuilder",
        42 => "Program",
        43 => "FunctionDeclaration",
        44 => "VariableDeclaration",
        45 => "ExpressionStatement",
        46 => "ReturnStatement",
        47 => "IfStatement",
        48 => "ForStatement",
        49 => "WhileStatement",
        50 => "BlockStatement",
        51 => "Identifier",
        52 => "Literal",
        53 => "BinaryExpression",
        54 => "UnaryExpression",
        55 => "CallExpression",
        56 => "MemberExpression",
        57 => "ArrayExpression",
        58 => "ObjectExpression",
        59 => "JSXElement",
        60 => "JSXFragment",
        61 => "JSXAttribute",
        62 => "JSXText",
        63 => "JSXExpressionContainer",
        64 => "Plus",
        65 => "Minus",
        66 => "Star",
        67 => "Slash",
        68 => "Percent",
        69 => "EqEq",
        70 => "NotEq",
        71 => "Lt",
        72 => "Gt",
        73 => "LtEq",
        74 => "GtEq",
        75 => "And",
        76 => "Or",
        77 => "Not",
        78 => "Eq",
        79 => "PlusEq",
        80 => "MinusEq",
        81 => "StarEq",
        82 => "SlashEq",
        83 => "Ampersand",
        84 => "Pipe",
        85 => "Dot",
        86 => "ColonColon",
        87 => "Colon",
        88 => "Semicolon",
        89 => "Comma",
        90 => "Arrow",
        91 => "FatArrow",
        92 => "Question",
        93 => "QuestionDot",
        94 => "DotDot",
        95 => "DotDotDot",
        96 => "LParen",
        97 => "RParen",
        98 => "LBrace",
        99 => "RBrace",
        100 => "LBracket",
        101 => "RBracket",
        102 => "Newline",
        103 => "Eof",
        104 => "Ident",
        105 => "StringLit",
        106 => "IntLit",
        107 => "FloatLit",
        108 => "Comment",
        109 => "DocComment",
        _ => "Unknown",
    }
}

} // verus!
