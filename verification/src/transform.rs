//! What the Babel plugin analysis finds in a visitor or helper body: a list
//! of transforms, each a small piece of JavaScript behaviour with the text it
//! carries.

use vstd::prelude::*;

verus! {

/// One recognised piece of a Babel visitor or helper body.
#[derive(Debug)]
pub enum Transform {
    PropertyAccess { js_path: String, rust_equiv: String },
    MetadataAssignment { key: String, value_expr: String },
    FunctionCall { name: String, args: Vec<String> },
    Conditional { condition: String, then_transforms: Vec<Transform>, else_transforms: Option<Vec<Transform>> },
    VariableDeclaration { name: String, value: String, is_destructured: bool },
    ArrayAccess { object: String, index: String },
    JSXExtract { tag_name: String, property_path: String },
    HookCapture { hook_type: String, state_name: String, setter_name: Option<String>, args: Vec<String> },
    LogicalChain { operator: String, left: Box<Transform>, right: Box<Transform> },
    TernaryExpr { condition: String, then_expr: String, else_expr: String },
    TemplateStore { id: String, template_expr: String },
    TemplateLiteral { parts: Vec<String>, exprs: Vec<String> },
    ReturnStmt { value: String },
    TypeCheck { check_type: String, target: String, rust_pattern: String },
    TraverseCall { visitors: Vec<String> },
    ArrayPush { array_name: String, value: String },
    ArrayPushSpread { array_name: String, source_array: String },
    ArrayJoin { array_name: String, separator: String },
    ForOfLoop { iterator: String, iterable: String, body_transforms: Vec<Transform> },
    RawJs { code: String, reason: String },
}

/// A Babel visitor method: the node type it visits and what its body does.
#[derive(Debug)]
pub struct VisitorMethod {
    pub name: String,
    pub transforms: Vec<Transform>,
}

/// A helper function of the Babel plugin: its name, parameter names, body and
/// the file it comes from.
#[derive(Debug)]
pub struct HelperFunction {
    pub name: String,
    pub params: Vec<String>,
    pub transforms: Vec<Transform>,
    pub source_module: String,
}

/// The mathematical value of [`Transform`]: text as `Seq<char>`, lists as `Seq`.
pub enum TransformV {
    PropertyAccess { js_path: Seq<char>, rust_equiv: Seq<char> },
    MetadataAssignment { key: Seq<char>, value_expr: Seq<char> },
    FunctionCall { name: Seq<char>, args: Seq<Seq<char>> },
    Conditional { condition: Seq<char>, then_transforms: Seq<TransformV>, else_transforms: Option<Seq<TransformV>> },
    VariableDeclaration { name: Seq<char>, value: Seq<char>, is_destructured: bool },
    ArrayAccess { object: Seq<char>, index: Seq<char> },
    JSXExtract { tag_name: Seq<char>, property_path: Seq<char> },
    HookCapture { hook_type: Seq<char>, state_name: Seq<char>, setter_name: Option<Seq<char>>, args: Seq<Seq<char>> },
    LogicalChain { operator: Seq<char>, left: Box<TransformV>, right: Box<TransformV> },
    TernaryExpr { condition: Seq<char>, then_expr: Seq<char>, else_expr: Seq<char> },
    TemplateStore { id: Seq<char>, template_expr: Seq<char> },
    TemplateLiteral { parts: Seq<Seq<char>>, exprs: Seq<Seq<char>> },
    ReturnStmt { value: Seq<char> },
    TypeCheck { check_type: Seq<char>, target: Seq<char>, rust_pattern: Seq<char> },
    TraverseCall { visitors: Seq<Seq<char>> },
    ArrayPush { array_name: Seq<char>, value: Seq<char> },
    ArrayPushSpread { array_name: Seq<char>, source_array: Seq<char> },
    ArrayJoin { array_name: Seq<char>, separator: Seq<char> },
    ForOfLoop { iterator: Seq<char>, iterable: Seq<char>, body_transforms: Seq<TransformV> },
    RawJs { code: Seq<char>, reason: Seq<char> },
}

/// The views of a list of strings.
pub open spec fn strings_view(s: Seq<String>) -> Seq<Seq<char>> {
    s.map_values(|x: String| x@)
}

/// The mathematical value of a transform.
pub open spec fn transform_view(t: Transform) -> TransformV
    decreases t, 1int,
{
    match t {
        Transform::PropertyAccess { js_path, rust_equiv } => TransformV::PropertyAccess {
            js_path: js_path@,
            rust_equiv: rust_equiv@,
        },
        Transform::MetadataAssignment { key, value_expr } => TransformV::MetadataAssignment {
            key: key@,
            value_expr: value_expr@,
        },
        Transform::FunctionCall { name, args } => TransformV::FunctionCall { name: name@, args: strings_view(args@) },
        Transform::Conditional { condition, then_transforms, else_transforms } => TransformV::Conditional {
            condition: condition@,
            then_transforms: transforms_view(then_transforms@),
            else_transforms: match else_transforms {
                Some(e) => Some(transforms_view(e@)),
                None => None,
            },
        },
        Transform::VariableDeclaration { name, value, is_destructured } => TransformV::VariableDeclaration {
            name: name@,
            value: value@,
            is_destructured,
        },
        Transform::ArrayAccess { object, index } => TransformV::ArrayAccess { object: object@, index: index@ },
        Transform::JSXExtract { tag_name, property_path } => TransformV::JSXExtract {
            tag_name: tag_name@,
            property_path: property_path@,
        },
        Transform::HookCapture { hook_type, state_name, setter_name, args } => TransformV::HookCapture {
            hook_type: hook_type@,
            state_name: state_name@,
            setter_name: match setter_name {
                Some(s) => Some(s@),
                None => None,
            },
            args: strings_view(args@),
        },
        Transform::LogicalChain { operator, left, right } => TransformV::LogicalChain {
            operator: operator@,
            left: Box::new(transform_view(*left)),
            right: Box::new(transform_view(*right)),
        },
        Transform::TernaryExpr { condition, then_expr, else_expr } => TransformV::TernaryExpr {
            condition: condition@,
            then_expr: then_expr@,
            else_expr: else_expr@,
        },
        Transform::TemplateStore { id, template_expr } => TransformV::TemplateStore {
            id: id@,
            template_expr: template_expr@,
        },
        Transform::TemplateLiteral { parts, exprs } => TransformV::TemplateLiteral {
            parts: strings_view(parts@),
            exprs: strings_view(exprs@),
        },
        Transform::ReturnStmt { value } => TransformV::ReturnStmt { value: value@ },
        Transform::TypeCheck { check_type, target, rust_pattern } => TransformV::TypeCheck {
            check_type: check_type@,
            target: target@,
            rust_pattern: rust_pattern@,
        },
        Transform::TraverseCall { visitors } => TransformV::TraverseCall { visitors: strings_view(visitors@) },
        Transform::ArrayPush { array_name, value } => TransformV::ArrayPush { array_name: array_name@, value: value@ },
        Transform::ArrayPushSpread { array_name, source_array } => TransformV::ArrayPushSpread {
            array_name: array_name@,
            source_array: source_array@,
        },
        Transform::ArrayJoin { array_name, separator } => TransformV::ArrayJoin {
            array_name: array_name@,
            separator: separator@,
        },
        Transform::ForOfLoop { iterator, iterable, body_transforms } => TransformV::ForOfLoop {
            iterator: iterator@,
            iterable: iterable@,
            body_transforms: transforms_view(body_transforms@),
        },
        Transform::RawJs { code, reason } => TransformV::RawJs { code: code@, reason: reason@ },
    }
}

/// The mathematical values of a list of transforms.
pub open spec fn transforms_view(s: Seq<Transform>) -> Seq<TransformV>
    decreases s, 0int,
{
    if s.len() == 0 {
        Seq::empty()
    } else {
        transforms_view(s.drop_last()).push(transform_view(s.last()))
    }
}

impl View for Transform {
    type V = TransformV;

    open spec fn view(&self) -> TransformV {
        transform_view(*self)
    }
}

} // verus!
