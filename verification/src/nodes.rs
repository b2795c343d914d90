//! Node type mappings between RustScript, Babel, and SWC

use vstd::prelude::*;
use crate::strings::{str_eq, owned};

verus! {

/// Mapping for a single AST node type
#[derive(Debug, Clone, Copy)]
pub struct NodeMapping {
    /// RustScript unified name
    pub rustscript: &'static str,
    /// Babel/ESTree type name
    pub babel: &'static str,
    /// SWC Rust type name
    pub swc: &'static str,
    /// SWC enum variant (if wrapped in enum like Stmt, Expr, Decl)
    pub swc_enum: Option<&'static str>,
    /// Babel type checker function (e.g., "isIdentifier")
    pub babel_checker: &'static str,
    /// SWC pattern match (e.g., "Expr::Ident")
    pub swc_pattern: &'static str,
    /// Visitor method name in RustScript
    pub visitor_method: &'static str,
    /// SWC visitor method name
    pub swc_visitor: &'static str,
}

/// The mathematical value of a [`NodeMapping`].
pub struct NodeMappingV {
    pub rustscript: Seq<char>,
    pub babel: Seq<char>,
    pub swc: Seq<char>,
    pub swc_enum: Option<Seq<char>>,
    pub babel_checker: Seq<char>,
    pub swc_pattern: Seq<char>,
    pub visitor_method: Seq<char>,
    pub swc_visitor: Seq<char>,
}

impl View for NodeMapping {
    type V = NodeMappingV;

    open spec fn view(&self) -> NodeMappingV {
        NodeMappingV {
            rustscript: self.rustscript@,
            babel: self.babel@,
            swc: self.swc@,
            swc_enum: match self.swc_enum {
                Some(e) => Some(e@),
                None => None,
            },
            babel_checker: self.babel_checker@,
            swc_pattern: self.swc_pattern@,
            visitor_method: self.visitor_method@,
            swc_visitor: self.swc_visitor@,
        }
    }
}

/// A node mapping from its parts.
pub open spec fn nm(
    rustscript: Seq<char>,
    babel: Seq<char>,
    swc: Seq<char>,
    swc_enum: Option<Seq<char>>,
    babel_checker: Seq<char>,
    swc_pattern: Seq<char>,
    visitor_method: Seq<char>,
    swc_visitor: Seq<char>,
) -> NodeMappingV {
    NodeMappingV {
        rustscript,
        babel,
        swc,
        swc_enum,
        babel_checker,
        swc_pattern,
        visitor_method,
        swc_visitor,
    }
}

/// All node type mappings, in order.
pub open spec fn node_table() -> Seq<NodeMappingV> {
    seq![
        nm("FunctionDeclaration"@, "FunctionDeclaration"@, "FnDecl"@, Some("Decl::Fn"@), "isFunctionDeclaration"@, "Decl::Fn(fn_decl)"@, "visit_function_declaration"@, "visit_mut_fn_decl"@),
        nm("VariableDeclaration"@, "VariableDeclaration"@, "VarDecl"@, Some("Decl::Var"@), "isVariableDeclaration"@, "Decl::Var(var_decl)"@, "visit_variable_declaration"@, "visit_mut_var_decl"@),
        nm("ClassDeclaration"@, "ClassDeclaration"@, "ClassDecl"@, Some("Decl::Class"@), "isClassDeclaration"@, "Decl::Class(class_decl)"@, "visit_class_declaration"@, "visit_mut_class_decl"@),
        nm("ExpressionStatement"@, "ExpressionStatement"@, "ExprStmt"@, Some("Stmt::Expr"@), "isExpressionStatement"@, "Stmt::Expr(expr_stmt)"@, "visit_expression_statement"@, "visit_mut_expr_stmt"@),
        nm("BlockStatement"@, "BlockStatement"@, "BlockStmt"@, Some("Stmt::Block"@), "isBlockStatement"@, "Stmt::Block(block_stmt)"@, "visit_block_statement"@, "visit_mut_block_stmt"@),
        nm("ReturnStatement"@, "ReturnStatement"@, "ReturnStmt"@, Some("Stmt::Return"@), "isReturnStatement"@, "Stmt::Return(return_stmt)"@, "visit_return_statement"@, "visit_mut_return_stmt"@),
        nm("IfStatement"@, "IfStatement"@, "IfStmt"@, Some("Stmt::If"@), "isIfStatement"@, "Stmt::If(if_stmt)"@, "visit_if_statement"@, "visit_mut_if_stmt"@),
        nm("ForStatement"@, "ForStatement"@, "ForStmt"@, Some("Stmt::For"@), "isForStatement"@, "Stmt::For(for_stmt)"@, "visit_for_statement"@, "visit_mut_for_stmt"@),
        nm("ForInStatement"@, "ForInStatement"@, "ForInStmt"@, Some("Stmt::ForIn"@), "isForInStatement"@, "Stmt::ForIn(for_in_stmt)"@, "visit_for_in_statement"@, "visit_mut_for_in_stmt"@),
        nm("ForOfStatement"@, "ForOfStatement"@, "ForOfStmt"@, Some("Stmt::ForOf"@), "isForOfStatement"@, "Stmt::ForOf(for_of_stmt)"@, "visit_for_of_statement"@, "visit_mut_for_of_stmt"@),
        nm("WhileStatement"@, "WhileStatement"@, "WhileStmt"@, Some("Stmt::While"@), "isWhileStatement"@, "Stmt::While(while_stmt)"@, "visit_while_statement"@, "visit_mut_while_stmt"@),
        nm("SwitchStatement"@, "SwitchStatement"@, "SwitchStmt"@, Some("Stmt::Switch"@), "isSwitchStatement"@, "Stmt::Switch(switch_stmt)"@, "visit_switch_statement"@, "visit_mut_switch_stmt"@),
        nm("TryStatement"@, "TryStatement"@, "TryStmt"@, Some("Stmt::Try"@), "isTryStatement"@, "Stmt::Try(try_stmt)"@, "visit_try_statement"@, "visit_mut_try_stmt"@),
        nm("ThrowStatement"@, "ThrowStatement"@, "ThrowStmt"@, Some("Stmt::Throw"@), "isThrowStatement"@, "Stmt::Throw(throw_stmt)"@, "visit_throw_statement"@, "visit_mut_throw_stmt"@),
        nm("Identifier"@, "Identifier"@, "Ident"@, Some("Expr::Ident"@), "isIdentifier"@, "Expr::Ident(ident)"@, "visit_identifier"@, "visit_mut_ident"@),
        nm("CallExpression"@, "CallExpression"@, "CallExpr"@, Some("Expr::Call"@), "isCallExpression"@, "Expr::Call(call_expr)"@, "visit_call_expression"@, "visit_mut_call_expr"@),
        nm("MemberExpression"@, "MemberExpression"@, "MemberExpr"@, Some("Expr::Member"@), "isMemberExpression"@, "Expr::Member(member_expr)"@, "visit_member_expression"@, "visit_mut_member_expr"@),
        nm("BinaryExpression"@, "BinaryExpression"@, "BinExpr"@, Some("Expr::Bin"@), "isBinaryExpression"@, "Expr::Bin(bin_expr)"@, "visit_binary_expression"@, "visit_mut_bin_expr"@),
        nm("UnaryExpression"@, "UnaryExpression"@, "UnaryExpr"@, Some("Expr::Unary"@), "isUnaryExpression"@, "Expr::Unary(unary_expr)"@, "visit_unary_expression"@, "visit_mut_unary_expr"@),
        nm("AssignmentExpression"@, "AssignmentExpression"@, "AssignExpr"@, Some("Expr::Assign"@), "isAssignmentExpression"@, "Expr::Assign(assign_expr)"@, "visit_assignment_expression"@, "visit_mut_assign_expr"@),
        nm("ConditionalExpression"@, "ConditionalExpression"@, "CondExpr"@, Some("Expr::Cond"@), "isConditionalExpression"@, "Expr::Cond(cond_expr)"@, "visit_conditional_expression"@, "visit_mut_cond_expr"@),
        nm("LogicalExpression"@, "LogicalExpression"@, "BinExpr"@, Some("Expr::Bin"@), "isLogicalExpression"@, "Expr::Bin(bin_expr)"@, "visit_logical_expression"@, "visit_mut_bin_expr"@),
        nm("ArrayExpression"@, "ArrayExpression"@, "ArrayLit"@, Some("Expr::Array"@), "isArrayExpression"@, "Expr::Array(array_lit)"@, "visit_array_expression"@, "visit_mut_array_lit"@),
        nm("ObjectExpression"@, "ObjectExpression"@, "ObjectLit"@, Some("Expr::Object"@), "isObjectExpression"@, "Expr::Object(object_lit)"@, "visit_object_expression"@, "visit_mut_object_lit"@),
        nm("ArrowFunctionExpression"@, "ArrowFunctionExpression"@, "ArrowExpr"@, Some("Expr::Arrow"@), "isArrowFunctionExpression"@, "Expr::Arrow(arrow_expr)"@, "visit_arrow_function_expression"@, "visit_mut_arrow_expr"@),
        nm("FunctionExpression"@, "FunctionExpression"@, "FnExpr"@, Some("Expr::Fn"@), "isFunctionExpression"@, "Expr::Fn(fn_expr)"@, "visit_function_expression"@, "visit_mut_fn_expr"@),
        nm("NewExpression"@, "NewExpression"@, "NewExpr"@, Some("Expr::New"@), "isNewExpression"@, "Expr::New(new_expr)"@, "visit_new_expression"@, "visit_mut_new_expr"@),
        nm("SequenceExpression"@, "SequenceExpression"@, "SeqExpr"@, Some("Expr::Seq"@), "isSequenceExpression"@, "Expr::Seq(seq_expr)"@, "visit_sequence_expression"@, "visit_mut_seq_expr"@),
        nm("ThisExpression"@, "ThisExpression"@, "ThisExpr"@, Some("Expr::This"@), "isThisExpression"@, "Expr::This(this_expr)"@, "visit_this_expression"@, "visit_mut_this_expr"@),
        nm("AwaitExpression"@, "AwaitExpression"@, "AwaitExpr"@, Some("Expr::Await"@), "isAwaitExpression"@, "Expr::Await(await_expr)"@, "visit_await_expression"@, "visit_mut_await_expr"@),
        nm("YieldExpression"@, "YieldExpression"@, "YieldExpr"@, Some("Expr::Yield"@), "isYieldExpression"@, "Expr::Yield(yield_expr)"@, "visit_yield_expression"@, "visit_mut_yield_expr"@),
        nm("StringLiteral"@, "StringLiteral"@, "Str"@, Some("Lit::Str"@), "isStringLiteral"@, "Lit::Str(str_lit)"@, "visit_string_literal"@, "visit_mut_str"@),
        nm("NumericLiteral"@, "NumericLiteral"@, "Number"@, Some("Lit::Num"@), "isNumericLiteral"@, "Lit::Num(num_lit)"@, "visit_numeric_literal"@, "visit_mut_number"@),
        nm("BooleanLiteral"@, "BooleanLiteral"@, "Bool"@, Some("Lit::Bool"@), "isBooleanLiteral"@, "Lit::Bool(bool_lit)"@, "visit_boolean_literal"@, "visit_mut_bool"@),
        nm("NullLiteral"@, "NullLiteral"@, "Null"@, Some("Lit::Null"@), "isNullLiteral"@, "Lit::Null(null_lit)"@, "visit_null_literal"@, "visit_mut_null"@),
        nm("RegExpLiteral"@, "RegExpLiteral"@, "Regex"@, Some("Lit::Regex"@), "isRegExpLiteral"@, "Lit::Regex(regex_lit)"@, "visit_regexp_literal"@, "visit_mut_regex"@),
        nm("TemplateLiteral"@, "TemplateLiteral"@, "Tpl"@, Some("Expr::Tpl"@), "isTemplateLiteral"@, "Expr::Tpl(tpl)"@, "visit_template_literal"@, "visit_mut_tpl"@),
        nm("JSXElement"@, "JSXElement"@, "JSXElement"@, Some("Expr::JSXElement"@), "isJSXElement"@, "Expr::JSXElement(jsx_element)"@, "visit_jsx_element"@, "visit_mut_jsx_element"@),
        nm("JSXFragment"@, "JSXFragment"@, "JSXFragment"@, Some("Expr::JSXFragment"@), "isJSXFragment"@, "Expr::JSXFragment(jsx_fragment)"@, "visit_jsx_fragment"@, "visit_mut_jsx_fragment"@),
        nm("JSXAttribute"@, "JSXAttribute"@, "JSXAttr"@, None, "isJSXAttribute"@, "JSXAttrOrSpread::JSXAttr(jsx_attr)"@, "visit_jsx_attribute"@, "visit_mut_jsx_attr"@),
        nm("JSXExpressionContainer"@, "JSXExpressionContainer"@, "JSXExprContainer"@, None, "isJSXExpressionContainer"@, "JSXElementChild::JSXExprContainer(container)"@, "visit_jsx_expression_container"@, "visit_mut_jsx_expr_container"@),
        nm("JSXText"@, "JSXText"@, "JSXText"@, None, "isJSXText"@, "JSXElementChild::JSXText(jsx_text)"@, "visit_jsx_text"@, "visit_mut_jsx_text"@),
        nm("JSXOpeningElement"@, "JSXOpeningElement"@, "JSXOpeningElement"@, None, "isJSXOpeningElement"@, "JSXOpeningElement"@, "visit_jsx_opening_element"@, "visit_mut_jsx_opening_element"@),
        nm("ImportDeclaration"@, "ImportDeclaration"@, "ImportDecl"@, Some("ModuleDecl::Import"@), "isImportDeclaration"@, "ModuleDecl::Import(import_decl)"@, "visit_import_declaration"@, "visit_mut_import_decl"@),
        nm("ExportNamedDeclaration"@, "ExportNamedDeclaration"@, "ExportDecl"@, Some("ModuleDecl::ExportDecl"@), "isExportNamedDeclaration"@, "ModuleDecl::ExportDecl(export_decl)"@, "visit_export_named_declaration"@, "visit_mut_export_decl"@),
        nm("ExportDefaultDeclaration"@, "ExportDefaultDeclaration"@, "ExportDefaultDecl"@, Some("ModuleDecl::ExportDefaultDecl"@), "isExportDefaultDeclaration"@, "ModuleDecl::ExportDefaultDecl(export_default_decl)"@, "visit_export_default_declaration"@, "visit_mut_export_default_decl"@),
        nm("Program"@, "Program"@, "Module"@, None, "isProgram"@, "Program"@, "visit_program"@, "visit_mut_program"@),
    ]
}

/// The views of a list of node mappings.
pub open spec fn mappings_view(s: Seq<NodeMapping>) -> Seq<NodeMappingV> {
    s.map_values(|m: NodeMapping| m@)
}

/// All node type mappings
pub fn node_mappings() -> (r: Vec<NodeMapping>)
    ensures
        mappings_view(r@) == node_table(),
{
    let r = vec![
        // Declarations
        NodeMapping {
            rustscript: "FunctionDeclaration",
            babel: "FunctionDeclaration",
            swc: "FnDecl",
            swc_enum: Some("Decl::Fn"),
            babel_checker: "isFunctionDeclaration",
            swc_pattern: "Decl::Fn(fn_decl)",
            visitor_method: "visit_function_declaration",
            swc_visitor: "visit_mut_fn_decl",
        },
        NodeMapping {
            rustscript: "VariableDeclaration",
            babel: "VariableDeclaration",
            swc: "VarDecl",
            swc_enum: Some("Decl::Var"),
            babel_checker: "isVariableDeclaration",
            swc_pattern: "Decl::Var(var_decl)",
            visitor_method: "visit_variable_declaration",
            swc_visitor: "visit_mut_var_decl",
        },
        NodeMapping {
            rustscript: "ClassDeclaration",
            babel: "ClassDeclaration",
            swc: "ClassDecl",
            swc_enum: Some("Decl::Class"),
            babel_checker: "isClassDeclaration",
            swc_pattern: "Decl::Class(class_decl)",
            visitor_method: "visit_class_declaration",
            swc_visitor: "visit_mut_class_decl",
        },
        // Statements
        NodeMapping {
            rustscript: "ExpressionStatement",
            babel: "ExpressionStatement",
            swc: "ExprStmt",
            swc_enum: Some("Stmt::Expr"),
            babel_checker: "isExpressionStatement",
            swc_pattern: "Stmt::Expr(expr_stmt)",
            visitor_method: "visit_expression_statement",
            swc_visitor: "visit_mut_expr_stmt",
        },
        NodeMapping {
            rustscript: "BlockStatement",
            babel: "BlockStatement",
            swc: "BlockStmt",
            swc_enum: Some("Stmt::Block"),
            babel_checker: "isBlockStatement",
            swc_pattern: "Stmt::Block(block_stmt)",
            visitor_method: "visit_block_statement",
            swc_visitor: "visit_mut_block_stmt",
        },
        NodeMapping {
            rustscript: "ReturnStatement",
            babel: "ReturnStatement",
            swc: "ReturnStmt",
            swc_enum: Some("Stmt::Return"),
            babel_checker: "isReturnStatement",
            swc_pattern: "Stmt::Return(return_stmt)",
            visitor_method: "visit_return_statement",
            swc_visitor: "visit_mut_return_stmt",
        },
        NodeMapping {
            rustscript: "IfStatement",
            babel: "IfStatement",
            swc: "IfStmt",
            swc_enum: Some("Stmt::If"),
            babel_checker: "isIfStatement",
            swc_pattern: "Stmt::If(if_stmt)",
            visitor_method: "visit_if_statement",
            swc_visitor: "visit_mut_if_stmt",
        },
        NodeMapping {
            rustscript: "ForStatement",
            babel: "ForStatement",
            swc: "ForStmt",
            swc_enum: Some("Stmt::For"),
            babel_checker: "isForStatement",
            swc_pattern: "Stmt::For(for_stmt)",
            visitor_method: "visit_for_statement",
            swc_visitor: "visit_mut_for_stmt",
        },
        NodeMapping {
            rustscript: "ForInStatement",
            babel: "ForInStatement",
            swc: "ForInStmt",
            swc_enum: Some("Stmt::ForIn"),
            babel_checker: "isForInStatement",
            swc_pattern: "Stmt::ForIn(for_in_stmt)",
            visitor_method: "visit_for_in_statement",
            swc_visitor: "visit_mut_for_in_stmt",
        },
        NodeMapping {
            rustscript: "ForOfStatement",
            babel: "ForOfStatement",
            swc: "ForOfStmt",
            swc_enum: Some("Stmt::ForOf"),
            babel_checker: "isForOfStatement",
            swc_pattern: "Stmt::ForOf(for_of_stmt)",
            visitor_method: "visit_for_of_statement",
            swc_visitor: "visit_mut_for_of_stmt",
        },
        NodeMapping {
            rustscript: "WhileStatement",
            babel: "WhileStatement",
            swc: "WhileStmt",
            swc_enum: Some("Stmt::While"),
            babel_checker: "isWhileStatement",
            swc_pattern: "Stmt::While(while_stmt)",
            visitor_method: "visit_while_statement",
            swc_visitor: "visit_mut_while_stmt",
        },
        NodeMapping {
            rustscript: "SwitchStatement",
            babel: "SwitchStatement",
            swc: "SwitchStmt",
            swc_enum: Some("Stmt::Switch"),
            babel_checker: "isSwitchStatement",
            swc_pattern: "Stmt::Switch(switch_stmt)",
            visitor_method: "visit_switch_statement",
            swc_visitor: "visit_mut_switch_stmt",
        },
        NodeMapping {
            rustscript: "TryStatement",
            babel: "TryStatement",
            swc: "TryStmt",
            swc_enum: Some("Stmt::Try"),
            babel_checker: "isTryStatement",
            swc_pattern: "Stmt::Try(try_stmt)",
            visitor_method: "visit_try_statement",
            swc_visitor: "visit_mut_try_stmt",
        },
        NodeMapping {
            rustscript: "ThrowStatement",
            babel: "ThrowStatement",
            swc: "ThrowStmt",
            swc_enum: Some("Stmt::Throw"),
            babel_checker: "isThrowStatement",
            swc_pattern: "Stmt::Throw(throw_stmt)",
            visitor_method: "visit_throw_statement",
            swc_visitor: "visit_mut_throw_stmt",
        },
        // Expressions
        NodeMapping {
            rustscript: "Identifier",
            babel: "Identifier",
            swc: "Ident",
            swc_enum: Some("Expr::Ident"),
            babel_checker: "isIdentifier",
            swc_pattern: "Expr::Ident(ident)",
            visitor_method: "visit_identifier",
            swc_visitor: "visit_mut_ident",
        },
        NodeMapping {
            rustscript: "CallExpression",
            babel: "CallExpression",
            swc: "CallExpr",
            swc_enum: Some("Expr::Call"),
            babel_checker: "isCallExpression",
            swc_pattern: "Expr::Call(call_expr)",
            visitor_method: "visit_call_expression",
            swc_visitor: "visit_mut_call_expr",
        },
        NodeMapping {
            rustscript: "MemberExpression",
            babel: "MemberExpression",
            swc: "MemberExpr",
            swc_enum: Some("Expr::Member"),
            babel_checker: "isMemberExpression",
            swc_pattern: "Expr::Member(member_expr)",
            visitor_method: "visit_member_expression",
            swc_visitor: "visit_mut_member_expr",
        },
        NodeMapping {
            rustscript: "BinaryExpression",
            babel: "BinaryExpression",
            swc: "BinExpr",
            swc_enum: Some("Expr::Bin"),
            babel_checker: "isBinaryExpression",
            swc_pattern: "Expr::Bin(bin_expr)",
            visitor_method: "visit_binary_expression",
            swc_visitor: "visit_mut_bin_expr",
        },
        NodeMapping {
            rustscript: "UnaryExpression",
            babel: "UnaryExpression",
            swc: "UnaryExpr",
            swc_enum: Some("Expr::Unary"),
            babel_checker: "isUnaryExpression",
            swc_pattern: "Expr::Unary(unary_expr)",
            visitor_method: "visit_unary_expression",
            swc_visitor: "visit_mut_unary_expr",
        },
        NodeMapping {
            rustscript: "AssignmentExpression",
            babel: "AssignmentExpression",
            swc: "AssignExpr",
            swc_enum: Some("Expr::Assign"),
            babel_checker: "isAssignmentExpression",
            swc_pattern: "Expr::Assign(assign_expr)",
            visitor_method: "visit_assignment_expression",
            swc_visitor: "visit_mut_assign_expr",
        },
        NodeMapping {
            rustscript: "ConditionalExpression",
            babel: "ConditionalExpression",
            swc: "CondExpr",
            swc_enum: Some("Expr::Cond"),
            babel_checker: "isConditionalExpression",
            swc_pattern: "Expr::Cond(cond_expr)",
            visitor_method: "visit_conditional_expression",
            swc_visitor: "visit_mut_cond_expr",
        },
        NodeMapping {
            rustscript: "LogicalExpression",
            babel: "LogicalExpression",
            swc: "BinExpr",
            swc_enum: Some("Expr::Bin"),
            babel_checker: "isLogicalExpression",
            swc_pattern: "Expr::Bin(bin_expr)",
            visitor_method: "visit_logical_expression",
            swc_visitor: "visit_mut_bin_expr",
        },
        NodeMapping {
            rustscript: "ArrayExpression",
            babel: "ArrayExpression",
            swc: "ArrayLit",
            swc_enum: Some("Expr::Array"),
            babel_checker: "isArrayExpression",
            swc_pattern: "Expr::Array(array_lit)",
            visitor_method: "visit_array_expression",
            swc_visitor: "visit_mut_array_lit",
        },
        NodeMapping {
            rustscript: "ObjectExpression",
            babel: "ObjectExpression",
            swc: "ObjectLit",
            swc_enum: Some("Expr::Object"),
            babel_checker: "isObjectExpression",
            swc_pattern: "Expr::Object(object_lit)",
            visitor_method: "visit_object_expression",
            swc_visitor: "visit_mut_object_lit",
        },
        NodeMapping {
            rustscript: "ArrowFunctionExpression",
            babel: "ArrowFunctionExpression",
            swc: "ArrowExpr",
            swc_enum: Some("Expr::Arrow"),
            babel_checker: "isArrowFunctionExpression",
            swc_pattern: "Expr::Arrow(arrow_expr)",
            visitor_method: "visit_arrow_function_expression",
            swc_visitor: "visit_mut_arrow_expr",
        },
        NodeMapping {
            rustscript: "FunctionExpression",
            babel: "FunctionExpression",
            swc: "FnExpr",
            swc_enum: Some("Expr::Fn"),
            babel_checker: "isFunctionExpression",
            swc_pattern: "Expr::Fn(fn_expr)",
            visitor_method: "visit_function_expression",
            swc_visitor: "visit_mut_fn_expr",
        },
        NodeMapping {
            rustscript: "NewExpression",
            babel: "NewExpression",
            swc: "NewExpr",
            swc_enum: Some("Expr::New"),
            babel_checker: "isNewExpression",
            swc_pattern: "Expr::New(new_expr)",
            visitor_method: "visit_new_expression",
            swc_visitor: "visit_mut_new_expr",
        },
        NodeMapping {
            rustscript: "SequenceExpression",
            babel: "SequenceExpression",
            swc: "SeqExpr",
            swc_enum: Some("Expr::Seq"),
            babel_checker: "isSequenceExpression",
            swc_pattern: "Expr::Seq(seq_expr)",
            visitor_method: "visit_sequence_expression",
            swc_visitor: "visit_mut_seq_expr",
        },
        NodeMapping {
            rustscript: "ThisExpression",
            babel: "ThisExpression",
            swc: "ThisExpr",
            swc_enum: Some("Expr::This"),
            babel_checker: "isThisExpression",
            swc_pattern: "Expr::This(this_expr)",
            visitor_method: "visit_this_expression",
            swc_visitor: "visit_mut_this_expr",
        },
        NodeMapping {
            rustscript: "AwaitExpression",
            babel: "AwaitExpression",
            swc: "AwaitExpr",
            swc_enum: Some("Expr::Await"),
            babel_checker: "isAwaitExpression",
            swc_pattern: "Expr::Await(await_expr)",
            visitor_method: "visit_await_expression",
            swc_visitor: "visit_mut_await_expr",
        },
        NodeMapping {
            rustscript: "YieldExpression",
            babel: "YieldExpression",
            swc: "YieldExpr",
            swc_enum: Some("Expr::Yield"),
            babel_checker: "isYieldExpression",
            swc_pattern: "Expr::Yield(yield_expr)",
            visitor_method: "visit_yield_expression",
            swc_visitor: "visit_mut_yield_expr",
        },
        // Literals
        NodeMapping {
            rustscript: "StringLiteral",
            babel: "StringLiteral",
            swc: "Str",
            swc_enum: Some("Lit::Str"),
            babel_checker: "isStringLiteral",
            swc_pattern: "Lit::Str(str_lit)",
            visitor_method: "visit_string_literal",
            swc_visitor: "visit_mut_str",
        },
        NodeMapping {
            rustscript: "NumericLiteral",
            babel: "NumericLiteral",
            swc: "Number",
            swc_enum: Some("Lit::Num"),
            babel_checker: "isNumericLiteral",
            swc_pattern: "Lit::Num(num_lit)",
            visitor_method: "visit_numeric_literal",
            swc_visitor: "visit_mut_number",
        },
        NodeMapping {
            rustscript: "BooleanLiteral",
            babel: "BooleanLiteral",
            swc: "Bool",
            swc_enum: Some("Lit::Bool"),
            babel_checker: "isBooleanLiteral",
            swc_pattern: "Lit::Bool(bool_lit)",
            visitor_method: "visit_boolean_literal",
            swc_visitor: "visit_mut_bool",
        },
        NodeMapping {
            rustscript: "NullLiteral",
            babel: "NullLiteral",
            swc: "Null",
            swc_enum: Some("Lit::Null"),
            babel_checker: "isNullLiteral",
            swc_pattern: "Lit::Null(null_lit)",
            visitor_method: "visit_null_literal",
            swc_visitor: "visit_mut_null",
        },
        NodeMapping {
            rustscript: "RegExpLiteral",
            babel: "RegExpLiteral",
            swc: "Regex",
            swc_enum: Some("Lit::Regex"),
            babel_checker: "isRegExpLiteral",
            swc_pattern: "Lit::Regex(regex_lit)",
            visitor_method: "visit_regexp_literal",
            swc_visitor: "visit_mut_regex",
        },
        NodeMapping {
            rustscript: "TemplateLiteral",
            babel: "TemplateLiteral",
            swc: "Tpl",
            swc_enum: Some("Expr::Tpl"),
            babel_checker: "isTemplateLiteral",
            swc_pattern: "Expr::Tpl(tpl)",
            visitor_method: "visit_template_literal",
            swc_visitor: "visit_mut_tpl",
        },
        // JSX
        NodeMapping {
            rustscript: "JSXElement",
            babel: "JSXElement",
            swc: "JSXElement",
            swc_enum: Some("Expr::JSXElement"),
            babel_checker: "isJSXElement",
            swc_pattern: "Expr::JSXElement(jsx_element)",
            visitor_method: "visit_jsx_element",
            swc_visitor: "visit_mut_jsx_element",
        },
        NodeMapping {
            rustscript: "JSXFragment",
            babel: "JSXFragment",
            swc: "JSXFragment",
            swc_enum: Some("Expr::JSXFragment"),
            babel_checker: "isJSXFragment",
            swc_pattern: "Expr::JSXFragment(jsx_fragment)",
            visitor_method: "visit_jsx_fragment",
            swc_visitor: "visit_mut_jsx_fragment",
        },
        NodeMapping {
            rustscript: "JSXAttribute",
            babel: "JSXAttribute",
            swc: "JSXAttr",
            swc_enum: None,
            babel_checker: "isJSXAttribute",
            swc_pattern: "JSXAttrOrSpread::JSXAttr(jsx_attr)",
            visitor_method: "visit_jsx_attribute",
            swc_visitor: "visit_mut_jsx_attr",
        },
        NodeMapping {
            rustscript: "JSXExpressionContainer",
            babel: "JSXExpressionContainer",
            swc: "JSXExprContainer",
            swc_enum: None,
            babel_checker: "isJSXExpressionContainer",
            swc_pattern: "JSXElementChild::JSXExprContainer(container)",
            visitor_method: "visit_jsx_expression_container",
            swc_visitor: "visit_mut_jsx_expr_container",
        },
        NodeMapping {
            rustscript: "JSXText",
            babel: "JSXText",
            swc: "JSXText",
            swc_enum: None,
            babel_checker: "isJSXText",
            swc_pattern: "JSXElementChild::JSXText(jsx_text)",
            visitor_method: "visit_jsx_text",
            swc_visitor: "visit_mut_jsx_text",
        },
        NodeMapping {
            rustscript: "JSXOpeningElement",
            babel: "JSXOpeningElement",
            swc: "JSXOpeningElement",
            swc_enum: None,
            babel_checker: "isJSXOpeningElement",
            swc_pattern: "JSXOpeningElement",
            visitor_method: "visit_jsx_opening_element",
            swc_visitor: "visit_mut_jsx_opening_element",
        },
        // Module
        NodeMapping {
            rustscript: "ImportDeclaration",
            babel: "ImportDeclaration",
            swc: "ImportDecl",
            swc_enum: Some("ModuleDecl::Import"),
            babel_checker: "isImportDeclaration",
            swc_pattern: "ModuleDecl::Import(import_decl)",
            visitor_method: "visit_import_declaration",
            swc_visitor: "visit_mut_import_decl",
        },
        NodeMapping {
            rustscript: "ExportNamedDeclaration",
            babel: "ExportNamedDeclaration",
            swc: "ExportDecl",
            swc_enum: Some("ModuleDecl::ExportDecl"),
            babel_checker: "isExportNamedDeclaration",
            swc_pattern: "ModuleDecl::ExportDecl(export_decl)",
            visitor_method: "visit_export_named_declaration",
            swc_visitor: "visit_mut_export_decl",
        },
        NodeMapping {
            rustscript: "ExportDefaultDeclaration",
            babel: "ExportDefaultDeclaration",
            swc: "ExportDefaultDecl",
            swc_enum: Some("ModuleDecl::ExportDefaultDecl"),
            babel_checker: "isExportDefaultDeclaration",
            swc_pattern: "ModuleDecl::ExportDefaultDecl(export_default_decl)",
            visitor_method: "visit_export_default_declaration",
            swc_visitor: "visit_mut_export_default_decl",
        },
        // Program
        NodeMapping {
            rustscript: "Program",
            babel: "Program",
            swc: "Module",
            swc_enum: None,
            babel_checker: "isProgram",
            swc_pattern: "Program",
            visitor_method: "visit_program",
            swc_visitor: "visit_mut_program",
        },
    ];
    assert(mappings_view(r@) =~= node_table());
    r
}

/// The first mapping in `t` whose RustScript name is `name`.
pub open spec fn find_by_name(t: Seq<NodeMappingV>, name: Seq<char>) -> Option<NodeMappingV>
    decreases t.len(),
{
    if t.len() == 0 {
        None
    } else if t[0].rustscript == name {
        Some(t[0])
    } else {
        find_by_name(t.subrange(1, t.len() as int), name)
    }
}

/// The first mapping in `t` whose RustScript visitor method is `method`.
pub open spec fn find_by_visitor(t: Seq<NodeMappingV>, method: Seq<char>) -> Option<NodeMappingV>
    decreases t.len(),
{
    if t.len() == 0 {
        None
    } else if t[0].visitor_method == method {
        Some(t[0])
    } else {
        find_by_visitor(t.subrange(1, t.len() as int), method)
    }
}

/// The view of an optional mapping.
pub open spec fn opt_mapping(o: Option<NodeMapping>) -> Option<NodeMappingV> {
    match o {
        Some(m) => Some(m@),
        None => None,
    }
}

/// Get node mapping by RustScript name
pub fn get_node_mapping(rustscript_name: &str) -> (r: Option<NodeMapping>)
    ensures
        opt_mapping(r) == find_by_name(node_table(), rustscript_name@),
{
    let table = node_mappings();
    let ghost t = mappings_view(table@);
    let mut i: usize = 0;
    assert(t.subrange(0, t.len() as int) =~= t);
    while i < table.len()
        invariant
            t == mappings_view(table@),
            t == node_table(),
            i <= table@.len(),
            find_by_name(t, rustscript_name@) == find_by_name(t.subrange(i as int, t.len() as int), rustscript_name@),
        decreases table@.len() - i,
    {
        let m = table[i];
        assert(t.subrange(i as int, t.len() as int)[0] == m@);
        if str_eq(m.rustscript, rustscript_name) {
            return Some(m);
        }
        assert(t.subrange(i as int, t.len() as int).subrange(1, t.len() - i) =~= t.subrange(i + 1, t.len() as int));
        i = i + 1;
    }
    None
}

/// Get node mapping by visitor method name
pub fn get_node_mapping_by_visitor(visitor_method: &str) -> (r: Option<NodeMapping>)
    ensures
        opt_mapping(r) == find_by_visitor(node_table(), visitor_method@),
{
    let table = node_mappings();
    let ghost t = mappings_view(table@);
    let mut i: usize = 0;
    assert(t.subrange(0, t.len() as int) =~= t);
    while i < table.len()
        invariant
            t == mappings_view(table@),
            t == node_table(),
            i <= table@.len(),
            find_by_visitor(t, visitor_method@) == find_by_visitor(t.subrange(i as int, t.len() as int), visitor_method@),
        decreases table@.len() - i,
    {
        let m = table[i];
        assert(t.subrange(i as int, t.len() as int)[0] == m@);
        if str_eq(m.visitor_method, visitor_method) {
            return Some(m);
        }
        assert(t.subrange(i as int, t.len() as int).subrange(1, t.len() - i) =~= t.subrange(i + 1, t.len() as int));
        i = i + 1;
    }
    None
}

/// The SWC type name for a RustScript type name; an unknown name stays as it is.
pub open spec fn swc_name(name: Seq<char>) -> Seq<char> {
    match find_by_name(node_table(), name) {
        Some(m) => m.swc,
        None => name,
    }
}

/// The Babel type name for a RustScript type name; an unknown name stays as it is.
pub open spec fn babel_name(name: Seq<char>) -> Seq<char> {
    match find_by_name(node_table(), name) {
        Some(m) => m.babel,
        None => name,
    }
}

/// Get SWC type from RustScript type
pub fn rustscript_to_swc(rustscript_name: &str) -> (r: String)
    ensures
        r@ == swc_name(rustscript_name@),
{
    match get_node_mapping(rustscript_name) {
        Some(m) => owned(m.swc),
        None => owned(rustscript_name),
    }
}

/// Get Babel type from RustScript type
pub fn rustscript_to_babel(rustscript_name: &str) -> (r: String)
    ensures
        r@ == babel_name(rustscript_name@),
{
    match get_node_mapping(rustscript_name) {
        Some(m) => owned(m.babel),
        None => owned(rustscript_name),
    }
}


/// A lookup by name finds a row of that name, if any.
pub proof fn law_lookup_finds_its_name(t: Seq<NodeMappingV>, name: Seq<char>)
    ensures
        match find_by_name(t, name) {
            Some(m) => m.rustscript == name && t.contains(m),
            None => forall|i: int| 0 <= i < t.len() ==> #[trigger] t[i].rustscript != name,
        },
    decreases t.len(),
{
    if t.len() > 0 {
        let rest = t.subrange(1, t.len() as int);
        law_lookup_finds_its_name(rest, name);
        if t[0].rustscript != name {
            match find_by_name(rest, name) {
                Some(m) => {
                    let k = choose|k: int| 0 <= k < rest.len() && rest[k] == m;
                    assert(t[k + 1] == m);
                },
                None => {
                    assert forall|i: int| 0 <= i < t.len() implies #[trigger] t[i].rustscript != name by {
                        if i > 0 {
                            assert(t[i] == rest[i - 1]);
                        }
                    }
                },
            }
        } else {
            assert(t[0] == t[0]);
        }
    }
}

/// No two rows of the node table have the same RustScript name, so a lookup
/// by a row's name finds that row.
#[verifier::rlimit(100)]
pub proof fn law_node_names_unique()
    ensures
        forall|i: int, j: int|
            0 <= i < j < node_table().len() ==> #[trigger] node_table()[i].rustscript != #[trigger] node_table()[j].rustscript,
{
    reveal_strlit("ArrayExpression");
    reveal_strlit("ArrowFunctionExpression");
    reveal_strlit("AssignmentExpression");
    reveal_strlit("AwaitExpression");
    reveal_strlit("BinaryExpression");
    reveal_strlit("BlockStatement");
    reveal_strlit("BooleanLiteral");
    reveal_strlit("CallExpression");
    reveal_strlit("ClassDeclaration");
    reveal_strlit("ConditionalExpression");
    reveal_strlit("ExportDefaultDeclaration");
    reveal_strlit("ExportNamedDeclaration");
    reveal_strlit("ExpressionStatement");
    reveal_strlit("ForInStatement");
    reveal_strlit("ForOfStatement");
    reveal_strlit("ForStatement");
    reveal_strlit("FunctionDeclaration");
    reveal_strlit("FunctionExpression");
    reveal_strlit("Identifier");
    reveal_strlit("IfStatement");
    reveal_strlit("ImportDeclaration");
    reveal_strlit("JSXAttribute");
    reveal_strlit("JSXElement");
    reveal_strlit("JSXExpressionContainer");
    reveal_strlit("JSXFragment");
    reveal_strlit("JSXOpeningElement");
    reveal_strlit("JSXText");
    reveal_strlit("LogicalExpression");
    reveal_strlit("MemberExpression");
    reveal_strlit("NewExpression");
    reveal_strlit("NullLiteral");
    reveal_strlit("NumericLiteral");
    reveal_strlit("ObjectExpression");
    reveal_strlit("Program");
    reveal_strlit("RegExpLiteral");
    reveal_strlit("ReturnStatement");
    reveal_strlit("SequenceExpression");
    reveal_strlit("StringLiteral");
    reveal_strlit("SwitchStatement");
    reveal_strlit("TemplateLiteral");
    reveal_strlit("ThisExpression");
    reveal_strlit("ThrowStatement");
    reveal_strlit("TryStatement");
    reveal_strlit("UnaryExpression");
    reveal_strlit("VariableDeclaration");
    reveal_strlit("WhileStatement");
    reveal_strlit("YieldExpression");
    let t = node_table();
    assert(t.len() == 47);
    assert(t[0].rustscript == "FunctionDeclaration"@);
    assert(t[1].rustscript == "VariableDeclaration"@);
    assert(t[2].rustscript == "ClassDeclaration"@);
    assert(t[3].rustscript == "ExpressionStatement"@);
    assert(t[4].rustscript == "BlockStatement"@);
    assert(t[5].rustscript == "ReturnStatement"@);
    assert(t[6].rustscript == "IfStatement"@);
    assert(t[7].rustscript == "ForStatement"@);
    assert(t[8].rustscript == "ForInStatement"@);
    assert(t[9].rustscript == "ForOfStatement"@);
    assert(t[10].rustscript == "WhileStatement"@);
    assert(t[11].rustscript == "SwitchStatement"@);
    assert(t[12].rustscript == "TryStatement"@);
    assert(t[13].rustscript == "ThrowStatement"@);
    assert(t[14].rustscript == "Identifier"@);
    assert(t[15].rustscript == "CallExpression"@);
    assert(t[16].rustscript == "MemberExpression"@);
    assert(t[17].rustscript == "BinaryExpression"@);
    assert(t[18].rustscript == "UnaryExpression"@);
    assert(t[19].rustscript == "AssignmentExpression"@);
    assert(t[20].rustscript == "ConditionalExpression"@);
    assert(t[21].rustscript == "LogicalExpression"@);
    assert(t[22].rustscript == "ArrayExpression"@);
    assert(t[23].rustscript == "ObjectExpression"@);
    assert(t[24].rustscript == "ArrowFunctionExpression"@);
    assert(t[25].rustscript == "FunctionExpression"@);
    assert(t[26].rustscript == "NewExpression"@);
    assert(t[27].rustscript == "SequenceExpression"@);
    assert(t[28].rustscript == "ThisExpression"@);
    assert(t[29].rustscript == "AwaitExpression"@);
    assert(t[30].rustscript == "YieldExpression"@);
    assert(t[31].rustscript == "StringLiteral"@);
    assert(t[32].rustscript == "NumericLiteral"@);
    assert(t[33].rustscript == "BooleanLiteral"@);
    assert(t[34].rustscript == "NullLiteral"@);
    assert(t[35].rustscript == "RegExpLiteral"@);
    assert(t[36].rustscript == "TemplateLiteral"@);
    assert(t[37].rustscript == "JSXElement"@);
    assert(t[38].rustscript == "JSXFragment"@);
    assert(t[39].rustscript == "JSXAttribute"@);
    assert(t[40].rustscript == "JSXExpressionContainer"@);
    assert(t[41].rustscript == "JSXText"@);
    assert(t[42].rustscript == "JSXOpeningElement"@);
    assert(t[43].rustscript == "ImportDeclaration"@);
    assert(t[44].rustscript == "ExportNamedDeclaration"@);
    assert(t[45].rustscript == "ExportDefaultDeclaration"@);
    assert(t[46].rustscript == "Program"@);
    assert("FunctionDeclaration"@[0] != "VariableDeclaration"@[0]);
    assert("FunctionDeclaration"@[0] != "ExpressionStatement"@[0]);
    assert("VariableDeclaration"@[0] != "ExpressionStatement"@[0]);
    assert("ClassDeclaration"@[0] != "MemberExpression"@[0]);
    assert("ClassDeclaration"@[0] != "BinaryExpression"@[0]);
    assert("ClassDeclaration"@[0] != "ObjectExpression"@[0]);
    assert("BlockStatement"@[0] != "ForInStatement"@[0]);
    assert("BlockStatement"@[0] != "ForOfStatement"@[0]);
    assert("BlockStatement"@[0] != "WhileStatement"@[0]);
    assert("BlockStatement"@[0] != "ThrowStatement"@[0]);
    assert("BlockStatement"@[0] != "CallExpression"@[0]);
    assert("BlockStatement"@[0] != "ThisExpression"@[0]);
    assert("BlockStatement"@[0] != "NumericLiteral"@[0]);
    assert("BlockStatement"@[1] != "BooleanLiteral"@[1]);
    assert("ReturnStatement"@[0] != "SwitchStatement"@[0]);
    assert("ReturnStatement"@[0] != "UnaryExpression"@[0]);
    assert("ReturnStatement"@[0] != "ArrayExpression"@[0]);
    assert("ReturnStatement"@[0] != "AwaitExpression"@[0]);
    assert("ReturnStatement"@[0] != "YieldExpression"@[0]);
    assert("ReturnStatement"@[0] != "TemplateLiteral"@[0]);
    assert("IfStatement"@[0] != "NullLiteral"@[0]);
    assert("IfStatement"@[0] != "JSXFragment"@[0]);
    assert("ForStatement"@[0] != "TryStatement"@[0]);
    assert("ForStatement"@[0] != "JSXAttribute"@[0]);
    assert("ForInStatement"@[3] != "ForOfStatement"@[3]);
    assert("ForInStatement"@[0] != "WhileStatement"@[0]);
    assert("ForInStatement"@[0] != "ThrowStatement"@[0]);
    assert("ForInStatement"@[0] != "CallExpression"@[0]);
    assert("ForInStatement"@[0] != "ThisExpression"@[0]);
    assert("ForInStatement"@[0] != "NumericLiteral"@[0]);
    assert("ForInStatement"@[0] != "BooleanLiteral"@[0]);
    assert("ForOfStatement"@[0] != "WhileStatement"@[0]);
    assert("ForOfStatement"@[0] != "ThrowStatement"@[0]);
    assert("ForOfStatement"@[0] != "CallExpression"@[0]);
    assert("ForOfStatement"@[0] != "ThisExpression"@[0]);
    assert("ForOfStatement"@[0] != "NumericLiteral"@[0]);
    assert("ForOfStatement"@[0] != "BooleanLiteral"@[0]);
    assert("WhileStatement"@[0] != "ThrowStatement"@[0]);
    assert("WhileStatement"@[0] != "CallExpression"@[0]);
    assert("WhileStatement"@[0] != "ThisExpression"@[0]);
    assert("WhileStatement"@[0] != "NumericLiteral"@[0]);
    assert("WhileStatement"@[0] != "BooleanLiteral"@[0]);
    assert("SwitchStatement"@[0] != "UnaryExpression"@[0]);
    assert("SwitchStatement"@[0] != "ArrayExpression"@[0]);
    assert("SwitchStatement"@[0] != "AwaitExpression"@[0]);
    assert("SwitchStatement"@[0] != "YieldExpression"@[0]);
    assert("SwitchStatement"@[0] != "TemplateLiteral"@[0]);
    assert("TryStatement"@[0] != "JSXAttribute"@[0]);
    assert("ThrowStatement"@[0] != "CallExpression"@[0]);
    assert("ThrowStatement"@[2] != "ThisExpression"@[2]);
    assert("ThrowStatement"@[0] != "NumericLiteral"@[0]);
    assert("ThrowStatement"@[0] != "BooleanLiteral"@[0]);
    assert("Identifier"@[0] != "JSXElement"@[0]);
    assert("CallExpression"@[0] != "ThisExpression"@[0]);
    assert("CallExpression"@[0] != "NumericLiteral"@[0]);
    assert("CallExpression"@[0] != "BooleanLiteral"@[0]);
    assert("MemberExpression"@[0] != "BinaryExpression"@[0]);
    assert("MemberExpression"@[0] != "ObjectExpression"@[0]);
    assert("BinaryExpression"@[0] != "ObjectExpression"@[0]);
    assert("UnaryExpression"@[0] != "ArrayExpression"@[0]);
    assert("UnaryExpression"@[0] != "AwaitExpression"@[0]);
    assert("UnaryExpression"@[0] != "YieldExpression"@[0]);
    assert("UnaryExpression"@[0] != "TemplateLiteral"@[0]);
    assert("LogicalExpression"@[0] != "JSXOpeningElement"@[0]);
    assert("LogicalExpression"@[0] != "ImportDeclaration"@[0]);
    assert("ArrayExpression"@[1] != "AwaitExpression"@[1]);
    assert("ArrayExpression"@[0] != "YieldExpression"@[0]);
    assert("ArrayExpression"@[0] != "TemplateLiteral"@[0]);
    assert("FunctionExpression"@[0] != "SequenceExpression"@[0]);
    assert("NewExpression"@[0] != "StringLiteral"@[0]);
    assert("NewExpression"@[0] != "RegExpLiteral"@[0]);
    assert("ThisExpression"@[0] != "NumericLiteral"@[0]);
    assert("ThisExpression"@[0] != "BooleanLiteral"@[0]);
    assert("AwaitExpression"@[0] != "YieldExpression"@[0]);
    assert("AwaitExpression"@[0] != "TemplateLiteral"@[0]);
    assert("YieldExpression"@[0] != "TemplateLiteral"@[0]);
    assert("StringLiteral"@[0] != "RegExpLiteral"@[0]);
    assert("NumericLiteral"@[0] != "BooleanLiteral"@[0]);
    assert("NullLiteral"@[0] != "JSXFragment"@[0]);
    assert("JSXExpressionContainer"@[0] != "ExportNamedDeclaration"@[0]);
    assert("JSXText"@[0] != "Program"@[0]);
    assert("JSXOpeningElement"@[0] != "ImportDeclaration"@[0]);
    assert forall|i: int, j: int| 0 <= i < j < t.len() implies #[trigger] t[i].rustscript != #[trigger] t[j].rustscript by {
        assert(i == 0 || i == 1 || i == 2 || i == 3 || i == 4 || i == 5 || i == 6 || i == 7 || i == 8 || i == 9 || i == 10 || i == 11 || i == 12 || i == 13 || i == 14 || i == 15 || i == 16 || i == 17 || i == 18 || i == 19 || i == 20 || i == 21 || i == 22 || i == 23 || i == 24 || i == 25 || i == 26 || i == 27 || i == 28 || i == 29 || i == 30 || i == 31 || i == 32 || i == 33 || i == 34 || i == 35 || i == 36 || i == 37 || i == 38 || i == 39 || i == 40 || i == 41 || i == 42 || i == 43 || i == 44 || i == 45 || i == 46);
        assert(j == 0 || j == 1 || j == 2 || j == 3 || j == 4 || j == 5 || j == 6 || j == 7 || j == 8 || j == 9 || j == 10 || j == 11 || j == 12 || j == 13 || j == 14 || j == 15 || j == 16 || j == 17 || j == 18 || j == 19 || j == 20 || j == 21 || j == 22 || j == 23 || j == 24 || j == 25 || j == 26 || j == 27 || j == 28 || j == 29 || j == 30 || j == 31 || j == 32 || j == 33 || j == 34 || j == 35 || j == 36 || j == 37 || j == 38 || j == 39 || j == 40 || j == 41 || j == 42 || j == 43 || j == 44 || j == 45 || j == 46);
    }
}

/// Every row of the node table is what a lookup by its name finds.
pub proof fn law_every_row_is_found(rs: Seq<char>, k: int)
    requires
        0 <= k < node_table().len(),
        node_table()[k].rustscript == rs,
    ensures
        find_by_name(node_table(), rs) == Some(node_table()[k]),
{
    let t = node_table();
    law_node_names_unique();
    law_lookup_finds_its_name(t, rs);
    match find_by_name(t, rs) {
        Some(m) => {
            let q = choose|q: int| 0 <= q < t.len() && t[q] == m;
            assert(t[q].rustscript == t[k].rustscript);
            if q < k {
                assert(t[q].rustscript != t[k].rustscript);
            } else if k < q {
                assert(t[k].rustscript != t[q].rustscript);
            }
        },
        None => {
            assert(t[k].rustscript != rs);
        },
    }
}

/// The node table gives the SWC type of each row of the documented node
/// tables (the specification's node mapping table and the developer guide's
/// node types), and a name that is no row stays as it is.
#[verifier::rlimit(100)]
pub proof fn law_node_table_follows_the_documentation(other: Seq<char>)
    ensures
        swc_name("Identifier"@) == "Ident"@,
        swc_name("CallExpression"@) == "CallExpr"@,
        swc_name("MemberExpression"@) == "MemberExpr"@,
        swc_name("BinaryExpression"@) == "BinExpr"@,
        swc_name("UnaryExpression"@) == "UnaryExpr"@,
        swc_name("StringLiteral"@) == "Str"@,
        swc_name("NumericLiteral"@) == "Number"@,
        swc_name("BooleanLiteral"@) == "Bool"@,
        swc_name("NullLiteral"@) == "Null"@,
        swc_name("ArrayExpression"@) == "ArrayLit"@,
        swc_name("ObjectExpression"@) == "ObjectLit"@,
        swc_name("ArrowFunctionExpression"@) == "ArrowExpr"@,
        swc_name("FunctionDeclaration"@) == "FnDecl"@,
        swc_name("VariableDeclaration"@) == "VarDecl"@,
        swc_name("IfStatement"@) == "IfStmt"@,
        swc_name("ReturnStatement"@) == "ReturnStmt"@,
        swc_name("BlockStatement"@) == "BlockStmt"@,
        swc_name("ExpressionStatement"@) == "ExprStmt"@,
        swc_name("JSXElement"@) == "JSXElement"@,
        swc_name("JSXAttribute"@) == "JSXAttr"@,
        swc_name("JSXExpressionContainer"@) == "JSXExprContainer"@,
        swc_name("JSXText"@) == "JSXText"@,
        swc_name("Program"@) == "Module"@,
        find_by_name(node_table(), other) is None ==> swc_name(other) == other,
{
    let t = node_table();
    assert(t[14].rustscript == "Identifier"@ && t[14].swc == "Ident"@);
    law_every_row_is_found("Identifier"@, 14);
    assert(t[15].rustscript == "CallExpression"@ && t[15].swc == "CallExpr"@);
    law_every_row_is_found("CallExpression"@, 15);
    assert(t[16].rustscript == "MemberExpression"@ && t[16].swc == "MemberExpr"@);
    law_every_row_is_found("MemberExpression"@, 16);
    assert(t[17].rustscript == "BinaryExpression"@ && t[17].swc == "BinExpr"@);
    law_every_row_is_found("BinaryExpression"@, 17);
    assert(t[18].rustscript == "UnaryExpression"@ && t[18].swc == "UnaryExpr"@);
    law_every_row_is_found("UnaryExpression"@, 18);
    assert(t[31].rustscript == "StringLiteral"@ && t[31].swc == "Str"@);
    law_every_row_is_found("StringLiteral"@, 31);
    assert(t[32].rustscript == "NumericLiteral"@ && t[32].swc == "Number"@);
    law_every_row_is_found("NumericLiteral"@, 32);
    assert(t[33].rustscript == "BooleanLiteral"@ && t[33].swc == "Bool"@);
    law_every_row_is_found("BooleanLiteral"@, 33);
    assert(t[34].rustscript == "NullLiteral"@ && t[34].swc == "Null"@);
    law_every_row_is_found("NullLiteral"@, 34);
    assert(t[22].rustscript == "ArrayExpression"@ && t[22].swc == "ArrayLit"@);
    law_every_row_is_found("ArrayExpression"@, 22);
    assert(t[23].rustscript == "ObjectExpression"@ && t[23].swc == "ObjectLit"@);
    law_every_row_is_found("ObjectExpression"@, 23);
    assert(t[24].rustscript == "ArrowFunctionExpression"@ && t[24].swc == "ArrowExpr"@);
    law_every_row_is_found("ArrowFunctionExpression"@, 24);
    assert(t[0].rustscript == "FunctionDeclaration"@ && t[0].swc == "FnDecl"@);
    law_every_row_is_found("FunctionDeclaration"@, 0);
    assert(t[1].rustscript == "VariableDeclaration"@ && t[1].swc == "VarDecl"@);
    law_every_row_is_found("VariableDeclaration"@, 1);
    assert(t[6].rustscript == "IfStatement"@ && t[6].swc == "IfStmt"@);
    law_every_row_is_found("IfStatement"@, 6);
    assert(t[5].rustscript == "ReturnStatement"@ && t[5].swc == "ReturnStmt"@);
    law_every_row_is_found("ReturnStatement"@, 5);
    assert(t[4].rustscript == "BlockStatement"@ && t[4].swc == "BlockStmt"@);
    law_every_row_is_found("BlockStatement"@, 4);
    assert(t[3].rustscript == "ExpressionStatement"@ && t[3].swc == "ExprStmt"@);
    law_every_row_is_found("ExpressionStatement"@, 3);
    assert(t[37].rustscript == "JSXElement"@ && t[37].swc == "JSXElement"@);
    law_every_row_is_found("JSXElement"@, 37);
    assert(t[39].rustscript == "JSXAttribute"@ && t[39].swc == "JSXAttr"@);
    law_every_row_is_found("JSXAttribute"@, 39);
    assert(t[40].rustscript == "JSXExpressionContainer"@ && t[40].swc == "JSXExprContainer"@);
    law_every_row_is_found("JSXExpressionContainer"@, 40);
    assert(t[41].rustscript == "JSXText"@ && t[41].swc == "JSXText"@);
    law_every_row_is_found("JSXText"@, 41);
    assert(t[46].rustscript == "Program"@ && t[46].swc == "Module"@);
    law_every_row_is_found("Program"@, 46);
}

} // verus!
